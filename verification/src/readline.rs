//! Decision steps of the interactive line loop.
//!
//! The caller owns the line editor and the prompt; it reads one event at a
//! time and asks [`read_step`] what to do with it.  An explicit quit token
//! ends the loop before the line is ever evaluated as a command; so do
//! end-of-input and interrupt events.

use vstd::prelude::*;

use crate::session::Error;
use crate::text::str_eq;

verus! {

/// Interactive command-line reader, one variant per place a prompt appears.
pub enum CommanderReadline {
    Main,
    MainSensor(crate::grammar::SensorKind),
    Device(crate::grammar::SensorKind),
    Socket(crate::grammar::SensorKind),
}

impl CommanderReadline {
    /// Evaluate one read line through the per-line callback.
    pub fn eval<F: Fn(&str) -> String>(&self, line: &str, callback: &F) -> (res: Result<
        String,
        Error,
    >)
        requires
            call_requires(*callback, (line,)),
        ensures
            res matches Ok(s) && call_ensures(*callback, (line,), s),
    {
        let result = callback(line);
        Ok(result)
    }
}

/// The explicit quit tokens of the interactive loop.
pub open spec fn spec_is_quit(line: Seq<char>) -> bool {
    ||| line == "q"@
    ||| line == "Q"@
    ||| line == "exit"@
    ||| line == "quit"@
}

/// Whether the line is an explicit quit token.
pub fn is_quit_token(line: &str) -> (r: bool)
    ensures
        r == spec_is_quit(line@),
{
    str_eq(line, "q") || str_eq(line, "Q") || str_eq(line, "exit") || str_eq(line, "quit")
}

/// One event handed back by the line editor.
pub enum ReadEvent {
    /// A complete line was read.
    Line(String),
    /// The interrupt key ended the read.
    Interrupted,
    /// End of input.
    Eof,
    /// The editor failed.
    Failed,
}

/// What the loop does with one event.
#[derive(Clone, Copy, PartialEq, Eq, Structural, Debug)]
pub enum LoopAction {
    /// Evaluate the line as a command and keep looping.
    Evaluate,
    /// Leave the loop without evaluating anything.
    Quit,
}

/// Decide one iteration of the interactive loop.  A quit token, end of
/// input, an interrupt, and an editor failure all leave the loop; every
/// other line is evaluated as a command.
pub fn read_step(ev: &ReadEvent) -> (a: LoopAction)
    ensures
        (a == LoopAction::Quit) <==> (match ev {
            ReadEvent::Line(l) => spec_is_quit(l@),
            _ => true,
        }),
        (a == LoopAction::Evaluate) <==> (ev matches ReadEvent::Line(l) && !spec_is_quit(l@)),
{
    match ev {
        ReadEvent::Line(l) => {
            if is_quit_token(l.as_str()) {
                LoopAction::Quit
            } else {
                LoopAction::Evaluate
            }
        },
        _ => LoopAction::Quit,
    }
}

} // verus!
