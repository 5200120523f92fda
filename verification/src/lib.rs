//! A single-screen click-counter GUI, modelled as verified state and text
//! logic, together with the decision logic of its simulator deployment
//! helper. The host engine (windowing, rendering, input) is driven by an
//! unverified shell that calls into this crate for every decision.

pub mod deploy;
pub mod screen;
pub mod state;
pub mod text;
pub mod visual;
