//! The concrete bucketing strategies.

pub mod custom;
pub mod fw;
pub mod linear;
pub mod quantile;
pub mod range;
