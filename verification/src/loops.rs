//! Drivers for the evaluation cycles.
//!
//! A responder cycles `AwaitingRequest -> Dispatching -> Replying` forever;
//! a requester runs one cycle per input line.  The blocking receive, send,
//! and quiescence delay live with the caller, which owns the transport; the
//! functions here are the decision steps between those blocking points.

use vstd::prelude::*;

use crate::grammar::{spec_dispatch, wire_of, DescriptorView, OutcomeView, SensorKind, TypedCommand};
use crate::session::{sentinel, sentinel_reply, Error, Requester, Responder};

verus! {

/// The batch driver's rendering of a transport fault: the command matched
/// but its round trip failed, which must not stop the remaining commands.
pub open spec fn transport_fallback() -> Seq<char> {
    "command not in custom api"@
}

/// The transport-fault rendering as an owned string.
pub fn transport_fallback_reply() -> (s: String)
    ensures
        s@ == transport_fallback(),
{
    "command not in custom api".to_owned()
}

/// What one printed batch reply may be for one input line: the sentinel for
/// unmatched input, and otherwise a reply or the transport-fault rendering
/// produced by one transaction on the matched command's wire form.
pub open spec fn valid_batch_reply<F: Fn(String) -> Result<String, Error>>(
    kind: SensorKind,
    items: Seq<DescriptorView>,
    transact: F,
    line: Seq<char>,
    out: Seq<char>,
) -> bool {
    match spec_dispatch(kind, line, items) {
        OutcomeView::Unrecognized => out == sentinel(),
        OutcomeView::Handled(c) => exists|w: String, t: Result<String, Error>|
            w@ == wire_of(c) && #[trigger] call_ensures(transact, (w,), t) && match t {
                Ok(rep) => out == rep@,
                Err(_) => out == transport_fallback(),
            },
    }
}

/// Evaluate a batch of input lines against a requester, one transaction per
/// matched line, and return one printable reply per line, in input order.
/// No line's failure stops the lines after it.
pub fn run_batch<F: Fn(String) -> Result<String, Error>>(
    req: &Requester,
    lines: &Vec<String>,
    transact: &F,
) -> (outs: Vec<String>)
    requires
        req.wf(),
        forall|w: String| #[trigger] call_requires(*transact, (w,)),
    ensures
        outs.len() == lines.len(),
        forall|i: int|
            0 <= i < lines.len() ==> valid_batch_reply(
                req.kind,
                req.grammar@.items,
                *transact,
                lines[i]@,
                (#[trigger] outs[i])@,
            ),
{
    let mut outs: Vec<String> = Vec::new();
    let n = lines.len();
    let mut i: usize = 0;
    while i < n
        invariant
            n == lines.len(),
            i <= n,
            outs.len() == i,
            req.wf(),
            forall|w: String| #[trigger] call_requires(*transact, (w,)),
            forall|k: int|
                0 <= k < i ==> valid_batch_reply(
                    req.kind,
                    req.grammar@.items,
                    *transact,
                    lines[k]@,
                    (#[trigger] outs[k])@,
                ),
        decreases n - i,
    {
        let reply = match req.eval(lines[i].as_str(), transact) {
            Ok(s) => s,
            Err(_) => transport_fallback_reply(),
        };
        outs.push(reply);
        i += 1;
    }
    outs
}

/// One responder cycle between a blocking receive and a blocking send:
/// dispatch the received request and execute it through `execute`, the
/// caller's device execution.  A reply is always produced, so a single bad
/// command never ends the serve loop.
pub fn serve_step<F: Fn(TypedCommand) -> Option<String>>(
    rep: &Responder,
    request: &str,
    execute: &F,
) -> (reply: String)
    requires
        rep.wf(),
        forall|c: TypedCommand| #[trigger] call_requires(*execute, (c,)),
    ensures
        spec_dispatch(rep.kind, request@, rep.grammar@.items) == OutcomeView::Unrecognized
            ==> reply@ == sentinel(),
        spec_dispatch(rep.kind, request@, rep.grammar@.items) matches OutcomeView::Handled(c)
            ==> exists|cmd: TypedCommand, out: Option<String>|
            cmd@ == c && #[trigger] call_ensures(*execute, (cmd,), out) && match out {
                Some(r) => reply@ == r@,
                None => reply@ == sentinel(),
            },
{
    match rep.eval(request, execute) {
        Ok(s) => s,
        Err(_) => sentinel_reply(),
    }
}

} // verus!
