//! What channels of every kind share.

pub mod party_points;
