//! Motion sequencing and trial orchestration for a drawing arm with a pen
//! relay: waypoints and their queue, the shape catalog, the order of device
//! steps, the experiment's trial state machine, and result aggregation.
pub mod experiment;
pub mod gateway;
pub mod helpers;
pub mod numeric;
pub mod orchestrator;
pub mod results;
pub mod sequencer;
pub mod structs;
