//! A verified front end for building functions for a just-in-time code
//! generator: typed values, constants, labels and an append-only instruction
//! stream, checked for integrity before it is handed to a back end.

pub mod abi;
pub mod constant;
pub mod context;
pub mod exception;
pub mod function;
pub mod instruction;
pub mod jit_type;
pub mod label;
pub mod labels;
pub mod laws;
pub mod model;
pub mod signature;
pub mod transitions;
pub mod util;
pub mod value;

pub use abi::Abi;
pub use constant::{Constant, Literal};
pub use context::Context;
pub use exception::Exception;
pub use function::Function;
pub use instruction::{BinaryOp, Instruction};
pub use jit_type::{JitType, Kind};
pub use label::{Label, LabelView};
pub use model::{Binding, LabelInfo, ValueInfo};
pub use signature::Signature;
pub use util::{append_until_nul, DumpReader, DumpStep};
pub use value::Value;
