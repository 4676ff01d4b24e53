//! A rotating savings circle: members pay a fixed contribution per cycle and
//! take turns receiving the pot.
//!
//! [`Circle`] is the record of one circle and the rules of its life: who may
//! join, in which order payouts are due, that nobody is paid twice, how the
//! members may vote to dissolve it, and what each may take back afterwards.
//! [`SoroSusu`] is the registry that numbers the circles and keeps them.
//! The records are built from Soroban host values; the `host` module lists
//! what is taken on trust about those.
pub mod circle;
mod convert;
pub mod error;
pub mod host;
pub mod laws;
mod lists;
pub mod model;
pub mod parts;
pub mod registry;
pub mod seq_facts;

pub use circle::Circle;
pub use error::Error;
pub use model::MAX_MEMBERS;
pub use parts::CircleParts;
pub use registry::{identifier_after, DataKey, SoroSusu};
