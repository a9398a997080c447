//! The verified core of a GPU terminal renderer: which font faces fill the
//! text slots of the glyph engine, how the presentable surface is configured,
//! and in which order the stages of one frame run.
//!
//! Device work, the host font system and the font parser are left to the
//! embedding program, which hands their answers in as plain values. This
//! crate decides and states, for every function, what was decided.

pub mod face;
pub mod font;
pub mod frame;
pub mod name;
pub mod term;
