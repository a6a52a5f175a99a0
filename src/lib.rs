//! Choosing a value from an explicit preference, with a computed default
//! when no preference is given.
pub mod display;
pub mod giveaway;
pub mod resolve;
