//! A WebAssembly module decoder and interpreter, verified with Verus: LEB128
//! integers, the binary module format and its sections, a listing of a
//! module's sections, and the instructions of its functions run on a stack
//! frame.
pub mod leb;
pub mod parse_tree;
pub mod parser;
pub mod tree;
pub mod provider;
pub mod runtime;
pub mod runtime_tree;
