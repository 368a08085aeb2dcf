//! A lock-free reference counter with two sides.
//!
//! Two groups of handles, senders and receivers, share one payload. Each
//! group is counted on its own. When the last handle of a group is released,
//! the group's `disconnect` notification runs once; when both groups are gone,
//! the payload is destroyed once. Nothing here blocks.
//!
//! [`counter`] holds the record and the handles, [`decision`] the choices
//! that they make on what the counters return. [`protocol`] describes the
//! same steps as a state machine over every interleaving of threads,
//! [`coherence`] proves its invariant, and [`laws`] states what follows.

pub mod coherence;
pub mod counter;
pub mod decision;
pub mod laws;
pub mod protocol;

pub use counter::{new, Counter, Receiver, Sender};
pub use decision::{grant, last_handle, CountOverflow, Outcome};
pub use protocol::Side;
