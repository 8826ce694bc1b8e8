//! Adapter layer that lets parser-combinator grammars run over the token
//! trees a procedural macro receives: a joinable source-location model, a
//! token model with semantic equality, a flattening pass that turns nested
//! groups into matched start/end markers, and the primitive token parsers
//! that grammars compose.

pub mod error;
pub mod input;
pub mod primitive;
pub mod span;
pub mod token;
pub mod utils;
