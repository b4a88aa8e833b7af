pub mod arith;
pub mod ast;
pub mod eval;
pub mod ops;
pub mod context;
pub mod describe;
pub mod info;
pub mod construct;
pub mod laws;
