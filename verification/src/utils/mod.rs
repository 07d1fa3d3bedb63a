//! The resources that the renderer is made of.
pub mod buffer;
pub mod context;
pub mod image;
pub mod requests;
pub mod upload;
