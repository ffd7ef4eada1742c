//! Function-instrumentation transformer: given the shape of a function
//! definition and a severity level, it decides how the function's arguments
//! are rendered, whether its return type is error-carrying, and which log
//! line (if any) the instrumented function emits for each outcome.

pub mod policy;
pub mod render;
pub mod rewrite;
pub mod severity;
pub mod signature;
pub mod summary;
pub mod wrap;

pub use rewrite::InstrumentedFn;
pub use rewrite::LogStrategy;
pub use severity::LogLevel;
pub use severity::TransformError;
pub use signature::FnSig;
pub use signature::Param;
pub use signature::ReceiverKind;
pub use signature::RetType;
pub use signature::ReturnShape;
