//! A small numeric core for graphics-adjacent programs: a deterministic
//! xorshift generator, fixed-arity vectors with component-wise arithmetic,
//! and the integer side of a colour library.
//!
//! Every public executable function carries a contract that the verifier
//! proves. The only items taken on trust are those of the standard library's
//! wall clock, from which a generator can be seeded; nothing is claimed of
//! what they return.

pub mod colors;
pub mod random;
pub mod vectors;

pub use colors::RGBA8;
pub use random::Random;
pub use vectors::{Vector2, Vector3, Vector4};
