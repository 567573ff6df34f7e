//! Response decorators applied outside the handlers.

pub mod cors;
