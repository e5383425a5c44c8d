//! Shared state and the passivate/activate protocol of a producer and a
//! consumer that run as cooperative processes of a discrete-event simulation.
pub mod cell;
pub mod protocol;
pub mod scenario;
pub mod state;
