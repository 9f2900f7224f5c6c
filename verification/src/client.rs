pub mod client;
pub mod codec;
pub mod decode;
pub mod error;
pub mod streaming;
pub mod types;

pub use client::GlmClient;
pub use error::GlmError;
pub use error::GlmResult;
pub use streaming::StreamingResponse;
