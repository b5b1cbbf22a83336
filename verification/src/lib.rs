//! Core of an MQTT broker load and correctness tester.
//!
//! The crate models the scenario engine: expansion contexts and string
//! templates, verifiable message sources, analyzer pipelines, the scenario
//! data model, and the per-actor decision logic of the publisher and
//! subscriber runners. Template expressions are parsed and evaluated by the
//! `evalexpr` crate behind a small trusted boundary; the asynchronous MQTT
//! transport is driven by an unverified front end that consumes this
//! library's decision functions.

pub mod analyzers;
pub mod context;
pub mod errors;
pub mod expr;
pub mod message;
pub mod runner;
pub mod scenario;
pub mod source;
pub mod text;
pub mod verifiers;
