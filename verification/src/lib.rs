//! Themed interface components whose content is revealed unit by unit.
//!
//! The heart of the crate is the reveal animation. [`projector`] cuts a
//! content tree down to its first units in reading order; [`projection_laws`]
//! says what holds of every such cut. [`timing`] turns elapsed time into the
//! number of units to show, and [`animate_list`] drives the cut from the clock
//! until the whole tree is shown; [`animation_laws`] says what holds of every
//! run.
//!
//! Around it stand the states of the other components ([`button`],
//! [`fui_button`], [`frame`], [`nav_header`], [`image`], [`image_effects`],
//! [`paragraph`]) and the [`theme`] that colours them, which is derived with
//! the colour arithmetic in [`color`] and [`channel`].
//!
//! The components decide and their owner acts: the owner reads the clock,
//! plays the sounds, keeps the listeners and draws what a component shows.
//! Times are whole ticks of the clock in [`timing`], and a listener is a
//! number of the owner's choice.

pub mod content;
pub mod listeners;
pub mod projector;
pub mod projection_laws;
pub mod timing;
pub mod animate_list;
pub mod animation_laws;
pub mod button;
pub mod fui_button;
pub mod frame;
pub mod image;
pub mod image_effects;
pub mod nav_header;
pub mod paragraph;
pub mod channel;
pub mod color;
pub mod theme;
