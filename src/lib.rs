//! Serving core of a plagiarism-classification service: admission of request
//! bodies, validation of text-pair batches, exclusive access to the single
//! model instance, and the per-request pipeline that ties them together.

pub mod error;
pub mod batch;
pub mod guard;
pub mod pipeline;
