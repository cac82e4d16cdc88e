//! Gameplay rules of a small 2D platformer, stated over integers and proved.
//!
//! Every length is a whole number of thousandths of a world unit and every
//! time span a whole number of microseconds, so that each rule is exact.

pub mod units;
pub mod geometry;
pub mod proximity;
pub mod animation;
pub mod score;
pub mod player;
pub mod check_point;
pub mod spikes;
pub mod death_ball;
pub mod victory;
pub mod points;
