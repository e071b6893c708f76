//! What the attributes `actor` and `actor_fn` make of an annotated item.
//!
//! The annotated item comes in as tokens, which are parsed and taken apart
//! ([`source`]) into plain values ([`syntax`]). What takes its place goes out as a flat
//! sequence of pieces ([`tokens`]) into which fragments of the item are spliced. In
//! between, the bodies of actor methods are rewritten ([`body`]) and the pieces put
//! together ([`expand`]). [`laws`] and [`promises`] say what holds of all generated code.

pub mod body;
pub mod expand;
pub mod laws;
pub mod promises;
pub mod source;
pub mod syntax;
pub mod tokens;
