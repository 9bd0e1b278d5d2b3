//! JSON as far as a payload needs it: string tokens, number tokens, and
//! objects written without white space.

pub mod number;
pub mod object;
pub mod text;
