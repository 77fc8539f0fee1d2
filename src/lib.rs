//! Request correlation and completion-request normalization for a stub
//! language-model gateway.
pub mod citations;
pub mod normalize;
pub mod request_id;
pub mod response;
