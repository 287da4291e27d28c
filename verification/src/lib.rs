//! A verified core for a frame-streaming bridge: a format table pairing pixel
//! and tensor element encodings, owned image and tensor buffers, a pure
//! bidirectional converter between them, a frame-source state machine, and a
//! cooperative stream pipeline with cancellation.

pub mod format;
pub mod image;
pub mod tensor;
pub mod convert;
pub mod source;
pub mod pipeline;
