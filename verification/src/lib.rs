//! A foundation for line-oriented interactive tools: a read–normalize–dispatch
//! loop whose control-flow decisions are fully specified and verified.
//!
//! The crate is split into the command normalization rules ([`normalize`]) and
//! the session core that turns read events into loop-control decisions
//! ([`repl`]). Terminal ownership, line editing and history persistence are
//! left to an embedding application; the core here only decides what each
//! input event means for the session.

pub mod normalize;
pub mod repl;
