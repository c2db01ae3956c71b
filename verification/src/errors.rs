use vstd::prelude::*;

verus! {

/// The failure taxonomy shared by every fallible operation of the crate.
///
/// Shape vectors carry signed 64-bit dimension sizes, as tensors do.
#[derive(Debug, Clone)]
pub enum GosonnxError {
    AttributeNotFound(String),
    TensorCreateError(String),
    TensorNotFound(String),
    ShapeMismatchError,
    ShaderCompileError(String),
    UnsupportedONNXOps(String),
    OpsOnIncompatibleTypeError { left: String, right: String },
    InvalidInputDimension { expected: usize, found: usize },
    InvalidInputNo { expected: i32, found: usize },
    InvalidType { expected: String, found: String },
    IncompatibleShape { msg: String, expected: Vec<i64>, found: Vec<i64> },
    UnknownTensorType(String),
    Error(String),
}

} // verus!
