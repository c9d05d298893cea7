//! A family of tagged-union (`Or`) types that hold a value of exactly one of
//! N member types, together with a source rewriter that turns an annotated
//! `let` binding over an `if`/`else-if`/`else` chain or a `match` block into
//! an expression constructing the right arm of the declared union type.

pub mod text;
pub mod type_id;
pub mod enums;
pub mod ast;
pub mod rewrite;
pub mod generator;
