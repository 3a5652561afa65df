//! Command dispatch and request/reply framework for networked environmental
//! sensors.
//!
//! An operator issues short textual commands addressed to one of three device
//! kinds (conductivity, pH, temperature).  Each kind owns an ordered grammar
//! of recognized command texts; an input line is matched against that grammar
//! deterministically, first match wins.  A matched command is either forwarded
//! over a client transport (requester role) or executed against a locally
//! attached device (responder role), and the outcome is rendered back to text.
//! Unmatched input is never a fault: it yields the sentinel reply
//! `"command not recognized"`.
//!
//! The transport and the hardware driver are collaborators outside this
//! library; they are reached through caller-supplied callbacks, so everything
//! here is pure logic with full contracts.

pub mod grammar;
pub mod loops;
pub mod readline;
pub mod session;
pub mod tables;
pub mod text;
