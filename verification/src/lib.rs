//! # iso-286
//!
//! ISO 286 limits and fits: the upper and lower deviations of a tolerance class at a nominal
//! size, the closest preferred classes to a given class, and the closest classes to a wanted
//! tolerance. Sizes and deviations are whole nanometres.

pub mod bracket;
pub mod class;
pub mod closest;
pub mod deviation;
pub mod fit;
pub mod lookup;
pub mod preferred_limits;
pub mod rank;
pub mod tables;

pub use lookup::{
    find_preferred, grades, hole_deviations, hole_preferred_tolerances, limits, list_closest,
    list_preferred, shaft_deviations, shaft_preferred_tolerances, Error, Feature, Match,
    Tolerance,
};
