//! A source-to-source code generator for a small dynamically typed math
//! language, together with the float-free part of the runtime surface that
//! the generated code targets.
//!
//! The generator consumes an abstract syntax tree ([`ast::Module`]) and
//! produces target-language source text.  Every fragment of output is
//! specified by a spec function of the tree, and the executable emitter is
//! proved to produce exactly that text.

pub mod assign;
pub mod ast;
pub mod cond;
pub mod emit;
pub mod infer;
pub mod intrinsics;
pub mod laws;
pub mod render;
pub mod secret;
pub mod textutil;
pub mod unop;

pub use assign::{set_assign, SetAssign};
pub use assign::set_assign as assign;
pub use cond::{cond_eval, Cond};
pub use cond::cond_eval as cond;
pub use emit::{generate_code, generate_code_string, EmitError, UnsupportedNode};
pub use intrinsics::{clone, why};
pub use secret::{Secret, SecretValue};
pub use unop::{not, Not};
