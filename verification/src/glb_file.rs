//! The token structure of a glb file.
use vstd::prelude::*;

verus! {

/// The kind of value a token holds.
#[derive(Clone, Copy, Debug, PartialEq, Eq, Structural)]
pub enum ValueType {
    Number,
    Charstring,
    Character,
    Marker,
}

/// A named token of a glb file, with its value and the token after it, if
/// there is one.
pub struct Token {
    pub value_type: ValueType,
    pub value: String,
    pub next: Option<Box<Token>>,
    pub name: String,
}

/// A glb file, held as the chain of its tokens.
pub struct GlbFile {
    pub root_token: Box<Token>,
}

} // verus!
