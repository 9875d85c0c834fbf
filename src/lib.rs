pub mod archive;
pub mod engine;
pub mod error;
pub mod issues;
pub mod laws;
pub mod pipeline;
pub mod text;
pub mod uuid;
