//! A miniature TCP load balancer, modelled and verified.
//!
//! The crate is organised around three pieces: a composable connection
//! pipeline (`pipe`, `chain`, `proj`, `param`, `route`, `client`, `splice`),
//! a round-robin backend selector (`selector`), and a frontend server that
//! drives accepted connections through the pipeline (`server`).

pub mod chain;
pub mod client;
pub mod config;
pub mod endpoint;
pub mod error;
pub mod param;
pub mod pipe;
pub mod pipeline;
pub mod proj;
pub mod route;
pub mod selector;
pub mod server;
pub mod splice;
pub mod stream;
pub mod trace;

pub use chain::{chain, Chain};
pub use client::{connect, Client};
pub use endpoint::Endpoint;
pub use error::{PipeError, RoundRobinError};
pub use param::{param, Param};
pub use pipe::{Pipe, PipeBuilder};
pub use proj::{fst, snd, First, Second};
pub use route::{route, Router};
pub use selector::{RoundRobin, Selector};
pub use server::Server;
pub use splice::{relay, splice, Splice};
pub use stream::Duplex;
pub use trace::Verbosity;
