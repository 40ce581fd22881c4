//! A small library behind a process-metrics HTTP endpoint.
//!
//! The library decides, for every incoming request, which response the
//! endpoint returns: the text exposition of the current metric registry for
//! `GET /metrics`, and a plain not-found answer for everything else. The
//! registry, its gathering and the text encoding come from the `prometheus`
//! crate; installing the exporter comes from `opentelemetry-prometheus`.
//! Listening, accepting and writing on sockets is left to the embedding
//! application.

pub mod errors;
pub mod exposition;
pub mod handler;
pub mod response;
pub mod state;
