//! Integer core of a procedural terrain generator: the choice of noise
//! primitive, the layout of the sampling grid and its triangle list, and the
//! bookkeeping that keeps exactly one generated mesh alive.
pub mod grid;
pub mod noise_kind;
pub mod slot;
