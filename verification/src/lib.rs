pub mod errors;
pub mod gpu;
pub mod graph;
pub mod graph_optim;
pub mod onnx;
pub mod onnxparser;
pub mod ops;
pub mod store;
pub mod utils;
