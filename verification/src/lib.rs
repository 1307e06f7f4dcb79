//! Verified decision and bookkeeping logic of a cislunar trajectory engine:
//! the flight-phase controller of the entry-descent-landing loop, the shape of
//! a propagated trajectory history, and the layout of telemetry state vectors.

pub mod edl;
pub mod propagation;
pub mod telemetry;
