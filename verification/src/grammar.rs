//! Command grammars and the dispatch function.
//!
//! Each device kind owns an ordered, fixed list of command descriptors.  An
//! input line is matched against that list in declaration order, and the
//! first descriptor whose pattern accepts the line wins.  Unmatched input is
//! a normal outcome (`Outcome::Unrecognized`), never an error.

use vstd::prelude::*;

use crate::text::{is_numeral, is_token, spec_numeral, spec_token, str_eq, str_is_prefix};

verus! {

/// The three supported sensor categories.
#[derive(Clone, Copy, PartialEq, Eq, Structural, Debug)]
pub enum SensorKind {
    Conductivity,
    Ph,
    Temperature,
}

/// What may follow a descriptor's literal head.
#[derive(Clone, Copy, PartialEq, Eq, Structural, Debug)]
pub enum ArgShape {
    /// The line is exactly the head.
    NoArg,
    /// The head is followed by a decimal numeral.
    Numeric,
    /// The head is followed by a bare token.
    Token,
}

/// Every command recognized by some device kind's grammar.
#[derive(Clone, Copy, PartialEq, Eq, Structural, Debug)]
pub enum CommandId {
    CalibrationClear,
    CalibrationDry,
    CalibrationHigh,
    CalibrationLow,
    CalibrationMid,
    CalibrationOnePoint,
    CalibrationState,
    CalibrationTemperature,
    CompensationGet,
    CompensationSet,
    DataloggerDisable,
    DataloggerInterval,
    DataloggerPeriod,
    DeviceInformation,
    Export,
    ExportInfo,
    Find,
    Import,
    LedOff,
    LedOn,
    LedState,
    MemoryClear,
    MemoryRecall,
    MemoryRecallLast,
    OutputDisableConductivity,
    OutputDisableSalinity,
    OutputDisableSpecificGravity,
    OutputDisableTds,
    OutputEnableConductivity,
    OutputEnableSalinity,
    OutputEnableSpecificGravity,
    OutputEnableTds,
    OutputState,
    ProbeTypeOne,
    ProbeTypePointOne,
    ProbeTypeState,
    ProbeTypeTen,
    ProtocolLockDisable,
    ProtocolLockEnable,
    ProtocolLockState,
    Reading,
    ScaleCelsius,
    ScaleFahrenheit,
    ScaleKelvin,
    ScaleState,
    Sleep,
    Slope,
    Status,
}

/// One entry of a grammar: a command, the literal head of its text form, and
/// the shape of what may follow the head.
#[derive(Debug)]
pub struct Descriptor {
    pub id: CommandId,
    pub head: String,
    pub shape: ArgShape,
}

/// Mathematical image of a [`Descriptor`].
pub struct DescriptorView {
    pub id: CommandId,
    pub head: Seq<char>,
    pub shape: ArgShape,
}

impl View for Descriptor {
    type V = DescriptorView;

    open spec fn view(&self) -> DescriptorView {
        DescriptorView { id: self.id, head: self.head@, shape: self.shape }
    }
}

/// A parsed, validated command bound to one device kind.  It keeps the
/// matched head and the raw argument text embedded in its originating line.
#[derive(PartialEq, Eq, Debug)]
pub struct TypedCommand {
    pub kind: SensorKind,
    pub id: CommandId,
    pub head: String,
    pub arg: Option<String>,
}

/// Mathematical image of a [`TypedCommand`].
pub struct TypedCommandView {
    pub kind: SensorKind,
    pub id: CommandId,
    pub head: Seq<char>,
    pub arg: Option<Seq<char>>,
}

impl View for TypedCommand {
    type V = TypedCommandView;

    open spec fn view(&self) -> TypedCommandView {
        TypedCommandView {
            kind: self.kind,
            id: self.id,
            head: self.head@,
            arg: match self.arg {
                Some(a) => Some(a@),
                None => None,
            },
        }
    }
}

/// The dispatch result: a matched command, or the normal terminal outcome
/// for input no descriptor accepts.
#[derive(PartialEq, Eq, Debug)]
pub enum Outcome {
    Handled(TypedCommand),
    Unrecognized,
}

/// Mathematical image of an [`Outcome`].
pub enum OutcomeView {
    Handled(TypedCommandView),
    Unrecognized,
}

impl View for Outcome {
    type V = OutcomeView;

    open spec fn view(&self) -> OutcomeView {
        match self {
            Outcome::Handled(c) => OutcomeView::Handled(c@),
            Outcome::Unrecognized => OutcomeView::Unrecognized,
        }
    }
}

/// The ordered grammar of one device kind.
#[derive(Debug)]
pub struct Grammar {
    pub kind: SensorKind,
    pub items: Vec<Descriptor>,
}

/// Mathematical image of a [`Grammar`].
pub struct GrammarView {
    pub kind: SensorKind,
    pub items: Seq<DescriptorView>,
}

impl View for Grammar {
    type V = GrammarView;

    open spec fn view(&self) -> GrammarView {
        GrammarView { kind: self.kind, items: self.items@.map_values(|d: Descriptor| d@) }
    }
}

/// Whether descriptor `d` accepts the line.
pub open spec fn desc_matches(line: Seq<char>, d: DescriptorView) -> bool {
    match d.shape {
        ArgShape::NoArg => line == d.head,
        ArgShape::Numeric => d.head.len() < line.len() && line.take(d.head.len() as int)
            == d.head && spec_numeral(line.skip(d.head.len() as int)),
        ArgShape::Token => d.head.len() < line.len() && line.take(d.head.len() as int) == d.head
            && spec_token(line.skip(d.head.len() as int)),
    }
}

/// The command that descriptor `d` parses out of an accepted line.
pub open spec fn parsed_of(kind: SensorKind, line: Seq<char>, d: DescriptorView) -> TypedCommandView {
    TypedCommandView {
        kind,
        id: d.id,
        head: d.head,
        arg: match d.shape {
            ArgShape::NoArg => None,
            _ => Some(line.skip(d.head.len() as int)),
        },
    }
}

/// First-match-wins dispatch over an ordered descriptor list.
pub open spec fn spec_dispatch(kind: SensorKind, line: Seq<char>, items: Seq<DescriptorView>)
    -> OutcomeView
    decreases items.len(),
{
    if items.len() == 0 {
        OutcomeView::Unrecognized
    } else if desc_matches(line, items[0]) {
        OutcomeView::Handled(parsed_of(kind, line, items[0]))
    } else {
        spec_dispatch(kind, line, items.skip(1))
    }
}

/// Index of the first descriptor accepting the line; `items.len()` if none.
pub open spec fn first_match(line: Seq<char>, items: Seq<DescriptorView>) -> int
    decreases items.len(),
{
    if items.len() == 0 {
        0
    } else if desc_matches(line, items[0]) {
        0
    } else {
        1 + first_match(line, items.skip(1))
    }
}

/// Every descriptor head in the grammar is non-empty text.
pub open spec fn wf_grammar(g: GrammarView) -> bool {
    forall|i: int| 0 <= i < g.items.len() ==> (#[trigger] g.items[i]).head.len() > 0
}

/// The wire form of a command: its head followed by its raw argument.
pub open spec fn wire_of(c: TypedCommandView) -> Seq<char> {
    match c.arg {
        Some(a) => c.head + a,
        None => c.head,
    }
}

pub proof fn lemma_first_match(line: Seq<char>, items: Seq<DescriptorView>)
    ensures
        0 <= first_match(line, items) <= items.len(),
        first_match(line, items) < items.len() ==> desc_matches(
            line,
            items[first_match(line, items)],
        ),
        forall|k: int| 0 <= k < first_match(line, items) ==> !desc_matches(line, items[k]),
    decreases items.len(),
{
    if items.len() == 0 {
    } else if desc_matches(line, items[0]) {
    } else {
        lemma_first_match(line, items.skip(1));
        assert forall|k: int| 0 <= k < first_match(line, items) implies !desc_matches(
            line,
            items[k],
        ) by {
            if k > 0 {
                assert(items.skip(1)[k - 1] == items[k]);
            }
        }
        if first_match(line, items) < items.len() {
            assert(items.skip(1)[first_match(line, items.skip(1))] == items[first_match(
                line,
                items,
            )]);
        }
    }
}

pub proof fn lemma_dispatch_is_first_match(
    kind: SensorKind,
    line: Seq<char>,
    items: Seq<DescriptorView>,
)
    ensures
        first_match(line, items) < items.len() ==> spec_dispatch(kind, line, items)
            == OutcomeView::Handled(parsed_of(kind, line, items[first_match(line, items)])),
        first_match(line, items) == items.len() ==> spec_dispatch(kind, line, items)
            == OutcomeView::Unrecognized,
    decreases items.len(),
{
    if items.len() == 0 {
    } else if desc_matches(line, items[0]) {
    } else {
        lemma_dispatch_is_first_match(kind, line, items.skip(1));
        lemma_first_match(line, items.skip(1));
        if first_match(line, items) < items.len() {
            assert(items.skip(1)[first_match(line, items.skip(1))] == items[first_match(
                line,
                items,
            )]);
        }
    }
}

/// Dispatch is a deterministic pure function: two outcomes of dispatching
/// the same line against the same grammar are always equal.
pub proof fn lemma_dispatch_deterministic(
    o1: OutcomeView,
    o2: OutcomeView,
    kind: SensorKind,
    line: Seq<char>,
    items: Seq<DescriptorView>,
)
    requires
        o1 == spec_dispatch(kind, line, items),
        o2 == spec_dispatch(kind, line, items),
    ensures
        o1 == o2,
{
}

/// First-match-wins: when two descriptors both accept a line, dispatch
/// returns the result of one declared no later than the earlier of the two,
/// and never the later one's position.
pub proof fn lemma_first_match_wins(
    kind: SensorKind,
    line: Seq<char>,
    items: Seq<DescriptorView>,
    i: int,
    j: int,
)
    requires
        0 <= i < j < items.len(),
        desc_matches(line, items[i]),
        desc_matches(line, items[j]),
    ensures
        first_match(line, items) <= i < j,
        spec_dispatch(kind, line, items) == OutcomeView::Handled(
            parsed_of(kind, line, items[first_match(line, items)]),
        ),
{
    lemma_first_match(line, items);
    lemma_dispatch_is_first_match(kind, line, items);
    if first_match(line, items) > i {
        assert(!desc_matches(line, items[i]));
    }
}

/// Unknown input never raises: dispatch returns `Unrecognized` exactly when
/// no descriptor of the grammar accepts the line.
pub proof fn lemma_unrecognized_iff_no_match(
    kind: SensorKind,
    line: Seq<char>,
    items: Seq<DescriptorView>,
)
    ensures
        (spec_dispatch(kind, line, items) == OutcomeView::Unrecognized) <==> (forall|k: int|
            0 <= k < items.len() ==> !desc_matches(line, items[k])),
{
    lemma_first_match(line, items);
    lemma_dispatch_is_first_match(kind, line, items);
    if first_match(line, items) < items.len() {
        assert(desc_matches(line, items[first_match(line, items)]));
    } else {
        assert forall|k: int| 0 <= k < items.len() implies !desc_matches(line, items[k]) by {}
    }
}

/// Round trip: re-serializing the command parsed out of an accepted line
/// yields that line again.
pub proof fn lemma_wire_round_trip(kind: SensorKind, line: Seq<char>, d: DescriptorView)
    requires
        desc_matches(line, d),
    ensures
        wire_of(parsed_of(kind, line, d)) == line,
{
    match d.shape {
        ArgShape::NoArg => {},
        _ => {
            assert(line.take(d.head.len() as int) + line.skip(d.head.len() as int) =~= line);
        },
    }
}

/// Round trip at the dispatch level: a handled command re-serializes to the
/// accepted input line, which is non-empty for a well-formed grammar.
pub proof fn lemma_dispatch_round_trip(g: GrammarView, line: Seq<char>)
    requires
        wf_grammar(g),
    ensures
        spec_dispatch(g.kind, line, g.items) matches OutcomeView::Handled(c) ==> wire_of(c)
            == line && line.len() > 0,
{
    lemma_first_match(line, g.items);
    lemma_dispatch_is_first_match(g.kind, line, g.items);
    if first_match(line, g.items) < g.items.len() {
        let d = g.items[first_match(line, g.items)];
        lemma_wire_round_trip(g.kind, line, d);
        assert(d.head.len() > 0);
    }
}

/// Whether descriptor `d` accepts the line.
pub fn match_descriptor(line: &str, d: &Descriptor) -> (r: bool)
    ensures
        r == desc_matches(line@, d@),
{
    match d.shape {
        ArgShape::NoArg => str_eq(line, d.head.as_str()),
        ArgShape::Numeric => {
            let hl = d.head.as_str().unicode_len();
            let ll = line.unicode_len();
            if hl < ll && str_is_prefix(d.head.as_str(), line) {
                let rest = line.substring_char(hl, ll);
                proof {
                    assert(rest@ =~= line@.skip(hl as int));
                }
                is_numeral(rest)
            } else {
                false
            }
        },
        ArgShape::Token => {
            let hl = d.head.as_str().unicode_len();
            let ll = line.unicode_len();
            if hl < ll && str_is_prefix(d.head.as_str(), line) {
                let rest = line.substring_char(hl, ll);
                proof {
                    assert(rest@ =~= line@.skip(hl as int));
                }
                is_token(rest)
            } else {
                false
            }
        },
    }
}

/// Map a line to at most one typed command, trying the grammar's descriptors
/// in declaration order and returning the first success.
pub fn dispatch(grammar: &Grammar, line: &str) -> (o: Outcome)
    ensures
        o@ == spec_dispatch(grammar@.kind, line@, grammar@.items),
{
    let ghost gv = grammar@;
    proof {
        assert(gv.items.skip(0) =~= gv.items);
    }
    let n = grammar.items.len();
    let mut i: usize = 0;
    while i < n
        invariant
            gv == grammar@,
            n == grammar.items.len(),
            gv.items.len() == n,
            i <= n,
            spec_dispatch(gv.kind, line@, gv.items) == spec_dispatch(
                gv.kind,
                line@,
                gv.items.skip(i as int),
            ),
        decreases n - i,
    {
        let d = &grammar.items[i];
        proof {
            assert(gv.items.skip(i as int)[0] == gv.items[i as int]);
        }
        if match_descriptor(line, d) {
            let ll = line.unicode_len();
            let arg: Option<String> = match d.shape {
                ArgShape::NoArg => None,
                _ => {
                    let hl = d.head.as_str().unicode_len();
                    let rest = line.substring_char(hl, ll);
                    proof {
                        assert(rest@ =~= line@.skip(hl as int));
                    }
                    Some(rest.to_owned())
                },
            };
            let cmd = TypedCommand { kind: grammar.kind, id: d.id, head: d.head.clone(), arg };
            proof {
                assert(cmd@ == parsed_of(gv.kind, line@, gv.items[i as int]));
            }
            return Outcome::Handled(cmd);
        }
        proof {
            assert(gv.items.skip(i as int).skip(1) =~= gv.items.skip(i as int + 1));
        }
        i += 1;
    }
    proof {
        assert(gv.items.skip(n as int) =~= Seq::<DescriptorView>::empty());
    }
    Outcome::Unrecognized
}

/// The wire form of a command: its head followed by its raw argument text.
pub fn to_wire(c: &TypedCommand) -> (w: String)
    ensures
        w@ == wire_of(c@),
{
    match &c.arg {
        Some(a) => {
            let mut w = c.head.clone();
            w.append(a.as_str());
            w
        },
        None => c.head.clone(),
    }
}

} // verus!
