//! The endpoints: for each, one module for its payloads and one for the laws
//! that hold of them.

pub mod chat_completion;
pub mod chat_completion_laws;
pub mod create_image;
pub mod create_image_laws;
