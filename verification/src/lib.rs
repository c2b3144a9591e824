//! A roulette-style random picker: given an ordered list of target names,
//! a spin animates a highlight that races around the list, decelerates,
//! and lands on a chosen index.
//!
//! The crate holds the spin logic alone: the easing and index-selection
//! formula ([`roulette`]) and the controller that owns the target list and
//! the active spin ([`machine`]). Drawing, key input and font discovery are
//! left to whatever front end hosts the controller.

pub mod machine;
pub mod roulette;
