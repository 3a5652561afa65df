//! Requester and responder sessions.
//!
//! Both roles wrap the same `parse -> act -> format` cycle around a device
//! kind's grammar; only the `act` step differs.  A requester forwards the
//! matched command's wire form through a client transport; a responder
//! executes the matched command against a locally attached device.  The
//! transport transaction and the device execution are collaborators outside
//! this library, so each is taken as a caller-supplied callback, and the
//! contracts here state what holds for every behaviour of that callback.

use vstd::prelude::*;

use crate::grammar::{
    dispatch, spec_dispatch, to_wire, wire_of, Grammar, Outcome, OutcomeView, SensorKind,
    TypedCommand, wf_grammar,
};
use crate::tables::{grammar_for, spec_grammar};

verus! {

/// Faults of a session, after the taxonomy of the design: setup faults are
/// fatal to construction, transport faults are surfaced per command.
#[derive(Clone, Copy, PartialEq, Eq, Structural, Debug)]
pub enum Error {
    /// The client or server transport could not be set up.
    TransportSetupFailed,
    /// The device handle could not be initialized.
    DeviceInitFailed,
    /// A send or receive failed during an otherwise matched command.
    Transport,
}

impl Error {
    /// A short display text for the fault.
    pub fn describe(&self) -> (s: String)
        ensures
            self is TransportSetupFailed ==> s@ == "transport setup failed"@,
            self is DeviceInitFailed ==> s@ == "device initialization failed"@,
            self is Transport ==> s@ == "transport failure"@,
    {
        match self {
            Error::TransportSetupFailed => "transport setup failed".to_owned(),
            Error::DeviceInitFailed => "device initialization failed".to_owned(),
            Error::Transport => "transport failure".to_owned(),
        }
    }
}

/// The sentinel reply for input that no descriptor accepts.
pub open spec fn sentinel() -> Seq<char> {
    "command not recognized"@
}

/// The sentinel reply as an owned string.
pub fn sentinel_reply() -> (s: String)
    ensures
        s@ == sentinel(),
{
    "command not recognized".to_owned()
}

/// Client-role endpoint: turns one text line into at most one request/reply
/// transaction against a remote responder.
pub struct Requester {
    pub kind: SensorKind,
    pub grammar: Grammar,
    pub url: String,
}

impl Requester {
    /// The grammar is the fixed one of the requester's device kind.
    pub open spec fn wf(&self) -> bool {
        &&& self.grammar@.kind == self.kind
        &&& self.grammar@.items == spec_grammar(self.kind)
        &&& wf_grammar(self.grammar@)
    }

    /// Configure a requester for one device kind and endpoint address.  The
    /// caller owns the connected transport; connecting is not done here.
    pub fn new(kind: SensorKind, url: &str) -> (r: Requester)
        ensures
            r.wf(),
            r.kind == kind,
            r.url@ == url@,
    {
        Requester { kind, grammar: grammar_for(kind), url: url.to_owned() }
    }

    /// Evaluate one input line: dispatch it against the grammar, and forward
    /// the matched command's wire form through `transact`, the caller's one
    /// round trip over the connected transport.  Unmatched input yields the
    /// sentinel reply as a success and performs no transaction; a transport
    /// fault is surfaced as [`Error::Transport`] and is not retried.
    pub fn eval<F: Fn(String) -> Result<String, Error>>(&self, line: &str, transact: &F) -> (res:
        Result<String, Error>)
        requires
            self.wf(),
            forall|w: String| #[trigger] call_requires(*transact, (w,)),
        ensures
            spec_dispatch(self.kind, line@, self.grammar@.items) == OutcomeView::Unrecognized
                ==> (res matches Ok(s) && s@ == sentinel()),
            spec_dispatch(self.kind, line@, self.grammar@.items) matches OutcomeView::Handled(c)
                ==> match res {
                Ok(s) => exists|w: String, t: Result<String, Error>|
                    w@ == wire_of(c) && #[trigger] call_ensures(*transact, (w,), t) && (t
                        matches Ok(rep) && rep@ == s@),
                Err(e) => e == Error::Transport && exists|w: String, t: Result<String, Error>|
                    w@ == wire_of(c) && #[trigger] call_ensures(*transact, (w,), t) && (t
                        matches Err(_)),
            },
    {
        match dispatch(&self.grammar, line) {
            Outcome::Unrecognized => Ok(sentinel_reply()),
            Outcome::Handled(cmd) => {
                let wire = to_wire(&cmd);
                let t = transact(wire);
                match t {
                    Ok(rep) => Ok(rep),
                    Err(_) => Err(Error::Transport),
                }
            },
        }
    }
}

/// Server-role endpoint: receives text requests and executes each matched
/// command against a locally attached device.
pub struct Responder {
    pub kind: SensorKind,
    pub grammar: Grammar,
    pub url: String,
    pub device_path: String,
    pub device_address: u16,
}

impl Responder {
    /// The grammar is the fixed one of the responder's device kind.
    pub open spec fn wf(&self) -> bool {
        &&& self.grammar@.kind == self.kind
        &&& self.grammar@.items == spec_grammar(self.kind)
        &&& wf_grammar(self.grammar@)
    }

    /// Configure a responder for one device kind, endpoint address, and
    /// hardware path/address.  The caller owns the bound transport and the
    /// device handle; binding and initialization are not done here.
    pub fn new(kind: SensorKind, url: &str, device_path: &str, device_address: u16) -> (r:
        Responder)
        ensures
            r.wf(),
            r.kind == kind,
            r.url@ == url@,
            r.device_path@ == device_path@,
            r.device_address == device_address,
    {
        Responder {
            kind,
            grammar: grammar_for(kind),
            url: url.to_owned(),
            device_path: device_path.to_owned(),
            device_address,
        }
    }

    /// Evaluate one received line: dispatch it against the grammar, and run
    /// the matched command through `execute`, the caller's execution against
    /// the owned device (`None` stands for a hardware failure).  The result
    /// is always a reply: unmatched input and failed execution both yield
    /// the sentinel, so one bad command never stops the serve loop.
    pub fn eval<F: Fn(TypedCommand) -> Option<String>>(&self, line: &str, execute: &F) -> (res:
        Result<String, Error>)
        requires
            self.wf(),
            forall|c: TypedCommand| #[trigger] call_requires(*execute, (c,)),
        ensures
            res matches Ok(_),
            spec_dispatch(self.kind, line@, self.grammar@.items) == OutcomeView::Unrecognized
                ==> (res matches Ok(s) && s@ == sentinel()),
            spec_dispatch(self.kind, line@, self.grammar@.items) matches OutcomeView::Handled(c)
                ==> (res matches Ok(s) && exists|cmd: TypedCommand, out: Option<String>|
                cmd@ == c && #[trigger] call_ensures(*execute, (cmd,), out) && match out {
                    Some(rep) => s@ == rep@,
                    None => s@ == sentinel(),
                }),
    {
        match dispatch(&self.grammar, line) {
            Outcome::Unrecognized => Ok(sentinel_reply()),
            Outcome::Handled(cmd) => {
                let out = execute(cmd);
                match out {
                    Some(rep) => Ok(rep),
                    None => Ok(sentinel_reply()),
                }
            },
        }
    }
}

/// Idempotent sentinel: evaluation keeps no hidden state, so any two
/// replies that [`Requester::eval`]'s contract admits for one unrecognized
/// input are the same sentinel string, however often the call is repeated.
pub proof fn lemma_sentinel_idempotent(
    req: Requester,
    line: Seq<char>,
    r1: Result<String, Error>,
    r2: Result<String, Error>,
)
    requires
        spec_dispatch(req.kind, line, req.grammar@.items) == OutcomeView::Unrecognized,
        r1 matches Ok(s1) && s1@ == sentinel(),
        r2 matches Ok(s2) && s2@ == sentinel(),
    ensures
        r1 matches Ok(s1) && r2 matches Ok(s2) && s1@ == s2@,
{
}

} // verus!
