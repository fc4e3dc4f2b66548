//! HTML templates that documents are rendered to PDF with: built-in
//! presets and templates the user uploads.
pub mod service;
pub mod row;
pub mod types;
