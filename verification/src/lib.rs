//! Plans the frames that an executor draws with a GPU: which textures, pipelines and draws a
//! frame needs, in which order, and when a frame ends early. What touches the GPU stands
//! outside: a driver performs one [`command::Command`] after the other and answers each with an
//! [`command::Event`].

pub mod command;
pub mod concurrency;
pub mod descriptor;
pub mod device;
mod effects;
pub mod executor;
pub mod geometry;
pub mod job;
pub mod laws;
pub mod outcomes;
pub mod pipeline;
pub mod surface;
pub mod upload;
