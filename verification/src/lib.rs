//! Hot dog detection through a multimodal chat-completion service.
//!
//! The crate holds the parts of the detector that can be reasoned about:
//! the Base64 encoder that inlines an image into a data URI, the construction
//! of the classification request, and the interpretation of whatever the
//! service sent back. Reading files and talking HTTP happen elsewhere.

pub mod base64;
mod text;
pub mod prompt;
pub mod error;
pub mod response;
pub mod json;
pub mod wire;
pub mod transport;
pub mod classifier;
pub mod dotenv;
