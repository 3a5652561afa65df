//! Dispatch against the fixed grammars: first-match-wins, determinism,
//! argument shapes, and the wire-form round trip.

use benita_commander::grammar::{dispatch, to_wire, ArgShape, CommandId, Outcome, SensorKind};
use benita_commander::tables::grammar_for;

fn parsed(kind: SensorKind, line: &str) -> Option<benita_commander::grammar::TypedCommand> {
    let g = grammar_for(kind);
    match dispatch(&g, line) {
        Outcome::Handled(c) => Some(c),
        Outcome::Unrecognized => None,
    }
}

#[test]
fn status_is_a_known_temperature_descriptor() {
    let c = parsed(SensorKind::Temperature, "status").expect("status must match");
    assert_eq!(c.id, CommandId::Status);
    assert_eq!(c.kind, SensorKind::Temperature);
    assert_eq!(c.head, "status");
    assert!(c.arg.is_none());
}

#[test]
fn unknown_input_is_unrecognized_not_a_fault() {
    assert!(parsed(SensorKind::Temperature, "bogus_command").is_none());
    assert!(parsed(SensorKind::Conductivity, "bogus_command").is_none());
    assert!(parsed(SensorKind::Ph, "bogus_command").is_none());
}

#[test]
fn empty_line_is_unrecognized() {
    assert!(parsed(SensorKind::Temperature, "").is_none());
    assert!(parsed(SensorKind::Conductivity, "").is_none());
    assert!(parsed(SensorKind::Ph, "").is_none());
}

#[test]
fn dispatch_is_deterministic_on_the_same_line() {
    let g = grammar_for(SensorKind::Conductivity);
    let first = dispatch(&g, "cal,low,1.53");
    let second = dispatch(&g, "cal,low,1.53");
    assert_eq!(first, second);
    let third = dispatch(&g, "no such command");
    let fourth = dispatch(&g, "no such command");
    assert_eq!(third, fourth);
}

#[test]
fn earlier_exact_descriptor_shadows_later_numeric_one() {
    // "d,0" is accepted by both DataloggerDisable ("d,0" exactly) and
    // DataloggerPeriod ("d," followed by a numeral); the earlier one wins.
    let c = parsed(SensorKind::Temperature, "d,0").expect("d,0 must match");
    assert_eq!(c.id, CommandId::DataloggerDisable);
    assert!(c.arg.is_none());
    // A line only the later descriptor accepts still reaches it.
    let c = parsed(SensorKind::Temperature, "d,300").expect("d,300 must match");
    assert_eq!(c.id, CommandId::DataloggerPeriod);
    assert_eq!(c.arg.as_deref(), Some("300"));
    let c = parsed(SensorKind::Temperature, "d,?").expect("d,? must match");
    assert_eq!(c.id, CommandId::DataloggerInterval);
}

#[test]
fn conductivity_calibration_arguments() {
    let c = parsed(SensorKind::Conductivity, "cal,low,1.53").expect("must match");
    assert_eq!(c.id, CommandId::CalibrationLow);
    assert_eq!(c.head, "cal,low,");
    assert_eq!(c.arg.as_deref(), Some("1.53"));
    let c = parsed(SensorKind::Conductivity, "cal,7").expect("must match");
    assert_eq!(c.id, CommandId::CalibrationOnePoint);
    assert_eq!(c.arg.as_deref(), Some("7"));
    let c = parsed(SensorKind::Conductivity, "cal,dry").expect("must match");
    assert_eq!(c.id, CommandId::CalibrationDry);
}

#[test]
fn ph_only_commands() {
    let c = parsed(SensorKind::Ph, "cal,mid,7.0").expect("must match");
    assert_eq!(c.id, CommandId::CalibrationMid);
    assert_eq!(c.arg.as_deref(), Some("7.0"));
    let c = parsed(SensorKind::Ph, "slope,?").expect("must match");
    assert_eq!(c.id, CommandId::Slope);
    // pH has no dry calibration.
    assert!(parsed(SensorKind::Ph, "cal,dry").is_none());
}

#[test]
fn numeral_argument_edge_cases() {
    let c = parsed(SensorKind::Ph, "t,-3.5").expect("must match");
    assert_eq!(c.id, CommandId::CompensationSet);
    assert_eq!(c.arg.as_deref(), Some("-3.5"));
    let c = parsed(SensorKind::Ph, "t,?").expect("must match");
    assert_eq!(c.id, CommandId::CompensationGet);
    assert!(parsed(SensorKind::Ph, "t,").is_none());
    assert!(parsed(SensorKind::Ph, "t,.").is_none());
    assert!(parsed(SensorKind::Ph, "t,3.").is_none());
    assert!(parsed(SensorKind::Ph, "t,.5").is_none());
    assert!(parsed(SensorKind::Ph, "t,3..5").is_none());
    assert!(parsed(SensorKind::Ph, "t,3.5.7").is_none());
    assert!(parsed(SensorKind::Ph, "t,x").is_none());
}

#[test]
fn import_takes_a_bare_token() {
    let c = parsed(SensorKind::Conductivity, "import,5F").expect("must match");
    assert_eq!(c.id, CommandId::Import);
    assert_eq!(c.arg.as_deref(), Some("5F"));
    assert!(parsed(SensorKind::Conductivity, "import,").is_none());
    assert!(parsed(SensorKind::Conductivity, "import,a b").is_none());
}

#[test]
fn wire_form_round_trips_the_accepted_line() {
    for (kind, line) in [
        (SensorKind::Conductivity, "cal,low,1.53"),
        (SensorKind::Conductivity, "o,tds,1"),
        (SensorKind::Ph, "cal,mid,7.0"),
        (SensorKind::Ph, "r"),
        (SensorKind::Temperature, "d,0"),
        (SensorKind::Temperature, "status"),
    ] {
        let c = parsed(kind, line).expect("line must match");
        let w = to_wire(&c);
        assert_eq!(w, line);
        assert!(!w.is_empty());
    }
}

#[test]
fn grammars_have_the_declared_sizes_and_order() {
    let g = grammar_for(SensorKind::Conductivity);
    assert_eq!(g.items.len(), 35);
    assert_eq!(g.items[0].id, CommandId::CalibrationClear);
    assert_eq!(g.items[34].id, CommandId::Sleep);
    let g = grammar_for(SensorKind::Ph);
    assert_eq!(g.items.len(), 22);
    assert_eq!(g.items[21].id, CommandId::Slope);
    let g = grammar_for(SensorKind::Temperature);
    assert_eq!(g.items.len(), 27);
    assert_eq!(g.items[3].id, CommandId::DataloggerDisable);
    assert!(matches!(g.items[5].shape, ArgShape::Numeric));
}
