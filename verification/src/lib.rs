//! A generative fuzzing harness for a binary codec.
//!
//! The harness invents aggregates of typed fields ([`types`]), renders each
//! as source text together with a constructor of random values, and has an
//! instance built from that text exercise the codec: first on random values,
//! then on buffers that [`mutation`] has edited blindly. A supervisor
//! ([`fuzzer`]) watches each instance through its heartbeats and says how the
//! run ended. What drives a campaign is its [`corpus`]; every random choice
//! comes from the source in [`random`].

pub mod corpus;
pub mod fuzzer;
pub mod mutation;
pub mod random;
pub mod text;
pub mod types;
pub mod util;
