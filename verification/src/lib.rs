//! A reverse-mode automatic-differentiation runtime over a verified dense
//! tensor library, together with the verified data models of the systems
//! around it: the execution-plan index of the fusion stream store, the
//! record serialization data model, the shader dialect, the import
//! builders, and the training metrics.
//!
//! The differentiation core records a growing graph of operations during
//! the forward pass, checkpoints forward values either verbatim or as
//! replayable recipes, and walks the graph backward in strictly
//! decreasing identity order, accumulating each operand's gradient on a
//! tape. Every public operation carries a contract stating exactly which
//! vertex it records and which value it computes, and the backward pass
//! is proved to compute the fold of the recorded operations' gradient
//! formulas.

pub mod activation;
pub mod backend;
pub mod backward;
pub mod bool_tensor;
pub mod candle;
pub mod diff;
pub mod element;
pub mod fusion;
pub mod grads;
pub mod graph;
pub mod import;
pub mod laws;
pub mod module;
pub mod nn;
pub mod onnx;
pub mod record;
pub mod shader;
pub mod shape;
pub mod tch;
pub mod tensor;
pub mod train;
pub mod tune;
