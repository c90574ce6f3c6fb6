//! Congestion-control and pacing core of a QUIC transport: a leaky-bucket
//! packet pacer, a HyStart++ slow-start-exit detector, a careful-resume
//! state machine that reuses a prior connection's validated parameters, and
//! the orchestrator that wires them to a pluggable congestion-control
//! strategy.
//!
//! Every operation is driven by caller-supplied times, so the whole core is
//! deterministic and replayable from an event trace. All arithmetic uses
//! saturating or clamped fallbacks: the core never fails at runtime on
//! pathological inputs such as a clock that moves backwards.

pub mod hystartpp;
pub mod pace;
pub mod recovery;
pub mod resume;
pub mod rtt;
pub mod sender;
pub mod time;
