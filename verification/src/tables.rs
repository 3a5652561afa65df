//! The fixed, ordered grammar of each device kind.
//!
//! Order is significant: dispatch tries descriptors in declaration order and
//! the first match wins, so specific literals stand before looser patterns
//! that could shadow them (for the temperature kind, the exact `"d,0"` of
//! `DataloggerDisable` is declared before the catch-all numeric `"d,"` of
//! `DataloggerPeriod`).

use vstd::prelude::*;

use crate::grammar::{ArgShape, CommandId, Descriptor, DescriptorView, Grammar, SensorKind, wf_grammar};

verus! {

/// Abbreviation for one grammar entry.
pub open spec fn dv(id: CommandId, head: Seq<char>, shape: ArgShape) -> DescriptorView {
    DescriptorView { id, head, shape }
}

/// The conductivity grammar, in declaration order.
pub open spec fn spec_grammar_conductivity() -> Seq<DescriptorView> {
    seq![
        dv(CommandId::CalibrationClear, "cal,clear"@, ArgShape::NoArg),
        dv(CommandId::CalibrationDry, "cal,dry"@, ArgShape::NoArg),
        dv(CommandId::CalibrationHigh, "cal,high,"@, ArgShape::Numeric),
        dv(CommandId::CalibrationLow, "cal,low,"@, ArgShape::Numeric),
        dv(CommandId::CalibrationOnePoint, "cal,"@, ArgShape::Numeric),
        dv(CommandId::CalibrationState, "cal,?"@, ArgShape::NoArg),
        dv(CommandId::CompensationGet, "t,?"@, ArgShape::NoArg),
        dv(CommandId::CompensationSet, "t,"@, ArgShape::Numeric),
        dv(CommandId::DeviceInformation, "i"@, ArgShape::NoArg),
        dv(CommandId::Export, "export"@, ArgShape::NoArg),
        dv(CommandId::ExportInfo, "export,?"@, ArgShape::NoArg),
        dv(CommandId::Import, "import,"@, ArgShape::Token),
        dv(CommandId::Find, "f"@, ArgShape::NoArg),
        dv(CommandId::LedOff, "l,0"@, ArgShape::NoArg),
        dv(CommandId::LedOn, "l,1"@, ArgShape::NoArg),
        dv(CommandId::LedState, "l,?"@, ArgShape::NoArg),
        dv(CommandId::OutputDisableConductivity, "o,ec,0"@, ArgShape::NoArg),
        dv(CommandId::OutputEnableConductivity, "o,ec,1"@, ArgShape::NoArg),
        dv(CommandId::OutputDisableSalinity, "o,s,0"@, ArgShape::NoArg),
        dv(CommandId::OutputEnableSalinity, "o,s,1"@, ArgShape::NoArg),
        dv(CommandId::OutputDisableSpecificGravity, "o,sg,0"@, ArgShape::NoArg),
        dv(CommandId::OutputEnableSpecificGravity, "o,sg,1"@, ArgShape::NoArg),
        dv(CommandId::OutputDisableTds, "o,tds,0"@, ArgShape::NoArg),
        dv(CommandId::OutputEnableTds, "o,tds,1"@, ArgShape::NoArg),
        dv(CommandId::OutputState, "o,?"@, ArgShape::NoArg),
        dv(CommandId::ProbeTypeOne, "p,1.0"@, ArgShape::NoArg),
        dv(CommandId::ProbeTypePointOne, "p,0.1"@, ArgShape::NoArg),
        dv(CommandId::ProbeTypeState, "p,?"@, ArgShape::NoArg),
        dv(CommandId::ProbeTypeTen, "p,10.0"@, ArgShape::NoArg),
        dv(CommandId::ProtocolLockDisable, "plock,0"@, ArgShape::NoArg),
        dv(CommandId::ProtocolLockEnable, "plock,1"@, ArgShape::NoArg),
        dv(CommandId::ProtocolLockState, "plock,?"@, ArgShape::NoArg),
        dv(CommandId::Reading, "r"@, ArgShape::NoArg),
        dv(CommandId::Status, "status"@, ArgShape::NoArg),
        dv(CommandId::Sleep, "sleep"@, ArgShape::NoArg),
    ]
}

/// The pH grammar, in declaration order.
pub open spec fn spec_grammar_ph() -> Seq<DescriptorView> {
    seq![
        dv(CommandId::CalibrationClear, "cal,clear"@, ArgShape::NoArg),
        dv(CommandId::CalibrationHigh, "cal,high,"@, ArgShape::Numeric),
        dv(CommandId::CalibrationLow, "cal,low,"@, ArgShape::Numeric),
        dv(CommandId::CalibrationMid, "cal,mid,"@, ArgShape::Numeric),
        dv(CommandId::CalibrationState, "cal,?"@, ArgShape::NoArg),
        dv(CommandId::CompensationGet, "t,?"@, ArgShape::NoArg),
        dv(CommandId::CompensationSet, "t,"@, ArgShape::Numeric),
        dv(CommandId::DeviceInformation, "i"@, ArgShape::NoArg),
        dv(CommandId::Export, "export"@, ArgShape::NoArg),
        dv(CommandId::ExportInfo, "export,?"@, ArgShape::NoArg),
        dv(CommandId::Import, "import,"@, ArgShape::Token),
        dv(CommandId::Find, "f"@, ArgShape::NoArg),
        dv(CommandId::LedOff, "l,0"@, ArgShape::NoArg),
        dv(CommandId::LedOn, "l,1"@, ArgShape::NoArg),
        dv(CommandId::LedState, "l,?"@, ArgShape::NoArg),
        dv(CommandId::ProtocolLockDisable, "plock,0"@, ArgShape::NoArg),
        dv(CommandId::ProtocolLockEnable, "plock,1"@, ArgShape::NoArg),
        dv(CommandId::ProtocolLockState, "plock,?"@, ArgShape::NoArg),
        dv(CommandId::Reading, "r"@, ArgShape::NoArg),
        dv(CommandId::Status, "status"@, ArgShape::NoArg),
        dv(CommandId::Sleep, "sleep"@, ArgShape::NoArg),
        dv(CommandId::Slope, "slope,?"@, ArgShape::NoArg),
    ]
}

/// The temperature grammar, in declaration order.
pub open spec fn spec_grammar_temperature() -> Seq<DescriptorView> {
    seq![
        dv(CommandId::CalibrationClear, "cal,clear"@, ArgShape::NoArg),
        dv(CommandId::CalibrationState, "cal,?"@, ArgShape::NoArg),
        dv(CommandId::CalibrationTemperature, "cal,"@, ArgShape::Numeric),
        dv(CommandId::DataloggerDisable, "d,0"@, ArgShape::NoArg),
        dv(CommandId::DataloggerInterval, "d,?"@, ArgShape::NoArg),
        dv(CommandId::DataloggerPeriod, "d,"@, ArgShape::Numeric),
        dv(CommandId::DeviceInformation, "i"@, ArgShape::NoArg),
        dv(CommandId::Export, "export"@, ArgShape::NoArg),
        dv(CommandId::ExportInfo, "export,?"@, ArgShape::NoArg),
        dv(CommandId::Import, "import,"@, ArgShape::Token),
        dv(CommandId::Find, "f"@, ArgShape::NoArg),
        dv(CommandId::LedOff, "l,0"@, ArgShape::NoArg),
        dv(CommandId::LedOn, "l,1"@, ArgShape::NoArg),
        dv(CommandId::LedState, "l,?"@, ArgShape::NoArg),
        dv(CommandId::MemoryClear, "m,clear"@, ArgShape::NoArg),
        dv(CommandId::MemoryRecall, "m"@, ArgShape::NoArg),
        dv(CommandId::MemoryRecallLast, "m,?"@, ArgShape::NoArg),
        dv(CommandId::ProtocolLockDisable, "plock,0"@, ArgShape::NoArg),
        dv(CommandId::ProtocolLockEnable, "plock,1"@, ArgShape::NoArg),
        dv(CommandId::ProtocolLockState, "plock,?"@, ArgShape::NoArg),
        dv(CommandId::Reading, "r"@, ArgShape::NoArg),
        dv(CommandId::ScaleCelsius, "s,c"@, ArgShape::NoArg),
        dv(CommandId::ScaleFahrenheit, "s,f"@, ArgShape::NoArg),
        dv(CommandId::ScaleKelvin, "s,k"@, ArgShape::NoArg),
        dv(CommandId::ScaleState, "s,?"@, ArgShape::NoArg),
        dv(CommandId::Status, "status"@, ArgShape::NoArg),
        dv(CommandId::Sleep, "sleep"@, ArgShape::NoArg),
    ]
}

/// The grammar of the given device kind.
pub open spec fn spec_grammar(kind: SensorKind) -> Seq<DescriptorView> {
    match kind {
        SensorKind::Conductivity => spec_grammar_conductivity(),
        SensorKind::Ph => spec_grammar_ph(),
        SensorKind::Temperature => spec_grammar_temperature(),
    }
}

/// One grammar entry.
fn desc(id: CommandId, head: &str, shape: ArgShape) -> (d: Descriptor)
    ensures
        d@ == dv(id, head@, shape),
{
    Descriptor { id, head: head.to_owned(), shape }
}

fn grammar_conductivity() -> (g: Grammar)
    ensures
        g@.kind == SensorKind::Conductivity,
        g@.items == spec_grammar_conductivity(),
{
    let mut items: Vec<Descriptor> = Vec::new();
    items.push(desc(CommandId::CalibrationClear, "cal,clear", ArgShape::NoArg));
    items.push(desc(CommandId::CalibrationDry, "cal,dry", ArgShape::NoArg));
    items.push(desc(CommandId::CalibrationHigh, "cal,high,", ArgShape::Numeric));
    items.push(desc(CommandId::CalibrationLow, "cal,low,", ArgShape::Numeric));
    items.push(desc(CommandId::CalibrationOnePoint, "cal,", ArgShape::Numeric));
    items.push(desc(CommandId::CalibrationState, "cal,?", ArgShape::NoArg));
    items.push(desc(CommandId::CompensationGet, "t,?", ArgShape::NoArg));
    items.push(desc(CommandId::CompensationSet, "t,", ArgShape::Numeric));
    items.push(desc(CommandId::DeviceInformation, "i", ArgShape::NoArg));
    items.push(desc(CommandId::Export, "export", ArgShape::NoArg));
    items.push(desc(CommandId::ExportInfo, "export,?", ArgShape::NoArg));
    items.push(desc(CommandId::Import, "import,", ArgShape::Token));
    items.push(desc(CommandId::Find, "f", ArgShape::NoArg));
    items.push(desc(CommandId::LedOff, "l,0", ArgShape::NoArg));
    items.push(desc(CommandId::LedOn, "l,1", ArgShape::NoArg));
    items.push(desc(CommandId::LedState, "l,?", ArgShape::NoArg));
    items.push(desc(CommandId::OutputDisableConductivity, "o,ec,0", ArgShape::NoArg));
    items.push(desc(CommandId::OutputEnableConductivity, "o,ec,1", ArgShape::NoArg));
    items.push(desc(CommandId::OutputDisableSalinity, "o,s,0", ArgShape::NoArg));
    items.push(desc(CommandId::OutputEnableSalinity, "o,s,1", ArgShape::NoArg));
    items.push(desc(CommandId::OutputDisableSpecificGravity, "o,sg,0", ArgShape::NoArg));
    items.push(desc(CommandId::OutputEnableSpecificGravity, "o,sg,1", ArgShape::NoArg));
    items.push(desc(CommandId::OutputDisableTds, "o,tds,0", ArgShape::NoArg));
    items.push(desc(CommandId::OutputEnableTds, "o,tds,1", ArgShape::NoArg));
    items.push(desc(CommandId::OutputState, "o,?", ArgShape::NoArg));
    items.push(desc(CommandId::ProbeTypeOne, "p,1.0", ArgShape::NoArg));
    items.push(desc(CommandId::ProbeTypePointOne, "p,0.1", ArgShape::NoArg));
    items.push(desc(CommandId::ProbeTypeState, "p,?", ArgShape::NoArg));
    items.push(desc(CommandId::ProbeTypeTen, "p,10.0", ArgShape::NoArg));
    items.push(desc(CommandId::ProtocolLockDisable, "plock,0", ArgShape::NoArg));
    items.push(desc(CommandId::ProtocolLockEnable, "plock,1", ArgShape::NoArg));
    items.push(desc(CommandId::ProtocolLockState, "plock,?", ArgShape::NoArg));
    items.push(desc(CommandId::Reading, "r", ArgShape::NoArg));
    items.push(desc(CommandId::Status, "status", ArgShape::NoArg));
    items.push(desc(CommandId::Sleep, "sleep", ArgShape::NoArg));
    proof {
        assert(items@.map_values(|d: Descriptor| d@) =~= spec_grammar_conductivity());
    }
    Grammar { kind: SensorKind::Conductivity, items }
}

fn grammar_ph() -> (g: Grammar)
    ensures
        g@.kind == SensorKind::Ph,
        g@.items == spec_grammar_ph(),
{
    let mut items: Vec<Descriptor> = Vec::new();
    items.push(desc(CommandId::CalibrationClear, "cal,clear", ArgShape::NoArg));
    items.push(desc(CommandId::CalibrationHigh, "cal,high,", ArgShape::Numeric));
    items.push(desc(CommandId::CalibrationLow, "cal,low,", ArgShape::Numeric));
    items.push(desc(CommandId::CalibrationMid, "cal,mid,", ArgShape::Numeric));
    items.push(desc(CommandId::CalibrationState, "cal,?", ArgShape::NoArg));
    items.push(desc(CommandId::CompensationGet, "t,?", ArgShape::NoArg));
    items.push(desc(CommandId::CompensationSet, "t,", ArgShape::Numeric));
    items.push(desc(CommandId::DeviceInformation, "i", ArgShape::NoArg));
    items.push(desc(CommandId::Export, "export", ArgShape::NoArg));
    items.push(desc(CommandId::ExportInfo, "export,?", ArgShape::NoArg));
    items.push(desc(CommandId::Import, "import,", ArgShape::Token));
    items.push(desc(CommandId::Find, "f", ArgShape::NoArg));
    items.push(desc(CommandId::LedOff, "l,0", ArgShape::NoArg));
    items.push(desc(CommandId::LedOn, "l,1", ArgShape::NoArg));
    items.push(desc(CommandId::LedState, "l,?", ArgShape::NoArg));
    items.push(desc(CommandId::ProtocolLockDisable, "plock,0", ArgShape::NoArg));
    items.push(desc(CommandId::ProtocolLockEnable, "plock,1", ArgShape::NoArg));
    items.push(desc(CommandId::ProtocolLockState, "plock,?", ArgShape::NoArg));
    items.push(desc(CommandId::Reading, "r", ArgShape::NoArg));
    items.push(desc(CommandId::Status, "status", ArgShape::NoArg));
    items.push(desc(CommandId::Sleep, "sleep", ArgShape::NoArg));
    items.push(desc(CommandId::Slope, "slope,?", ArgShape::NoArg));
    proof {
        assert(items@.map_values(|d: Descriptor| d@) =~= spec_grammar_ph());
    }
    Grammar { kind: SensorKind::Ph, items }
}

fn grammar_temperature() -> (g: Grammar)
    ensures
        g@.kind == SensorKind::Temperature,
        g@.items == spec_grammar_temperature(),
{
    let mut items: Vec<Descriptor> = Vec::new();
    items.push(desc(CommandId::CalibrationClear, "cal,clear", ArgShape::NoArg));
    items.push(desc(CommandId::CalibrationState, "cal,?", ArgShape::NoArg));
    items.push(desc(CommandId::CalibrationTemperature, "cal,", ArgShape::Numeric));
    items.push(desc(CommandId::DataloggerDisable, "d,0", ArgShape::NoArg));
    items.push(desc(CommandId::DataloggerInterval, "d,?", ArgShape::NoArg));
    items.push(desc(CommandId::DataloggerPeriod, "d,", ArgShape::Numeric));
    items.push(desc(CommandId::DeviceInformation, "i", ArgShape::NoArg));
    items.push(desc(CommandId::Export, "export", ArgShape::NoArg));
    items.push(desc(CommandId::ExportInfo, "export,?", ArgShape::NoArg));
    items.push(desc(CommandId::Import, "import,", ArgShape::Token));
    items.push(desc(CommandId::Find, "f", ArgShape::NoArg));
    items.push(desc(CommandId::LedOff, "l,0", ArgShape::NoArg));
    items.push(desc(CommandId::LedOn, "l,1", ArgShape::NoArg));
    items.push(desc(CommandId::LedState, "l,?", ArgShape::NoArg));
    items.push(desc(CommandId::MemoryClear, "m,clear", ArgShape::NoArg));
    items.push(desc(CommandId::MemoryRecall, "m", ArgShape::NoArg));
    items.push(desc(CommandId::MemoryRecallLast, "m,?", ArgShape::NoArg));
    items.push(desc(CommandId::ProtocolLockDisable, "plock,0", ArgShape::NoArg));
    items.push(desc(CommandId::ProtocolLockEnable, "plock,1", ArgShape::NoArg));
    items.push(desc(CommandId::ProtocolLockState, "plock,?", ArgShape::NoArg));
    items.push(desc(CommandId::Reading, "r", ArgShape::NoArg));
    items.push(desc(CommandId::ScaleCelsius, "s,c", ArgShape::NoArg));
    items.push(desc(CommandId::ScaleFahrenheit, "s,f", ArgShape::NoArg));
    items.push(desc(CommandId::ScaleKelvin, "s,k", ArgShape::NoArg));
    items.push(desc(CommandId::ScaleState, "s,?", ArgShape::NoArg));
    items.push(desc(CommandId::Status, "status", ArgShape::NoArg));
    items.push(desc(CommandId::Sleep, "sleep", ArgShape::NoArg));
    proof {
        assert(items@.map_values(|d: Descriptor| d@) =~= spec_grammar_temperature());
    }
    Grammar { kind: SensorKind::Temperature, items }
}

/// Build the process-wide grammar of one device kind.
pub fn grammar_for(kind: SensorKind) -> (g: Grammar)
    ensures
        g@.kind == kind,
        g@.items == spec_grammar(kind),
        wf_grammar(g@),
{
    proof {
        lemma_spec_grammar_wf(kind);
    }
    match kind {
        SensorKind::Conductivity => grammar_conductivity(),
        SensorKind::Ph => grammar_ph(),
        SensorKind::Temperature => grammar_temperature(),
    }
}

/// Every head in every grammar is non-empty.
pub proof fn lemma_spec_grammar_wf(kind: SensorKind)
    ensures
        forall|i: int| 0 <= i < spec_grammar(kind).len() ==> (#[trigger] spec_grammar(
            kind,
        )[i]).head.len() > 0,
{
    reveal_strlit("cal,clear");
    reveal_strlit("cal,dry");
    reveal_strlit("cal,high,");
    reveal_strlit("cal,low,");
    reveal_strlit("cal,mid,");
    reveal_strlit("cal,");
    reveal_strlit("cal,?");
    reveal_strlit("t,?");
    reveal_strlit("t,");
    reveal_strlit("i");
    reveal_strlit("export");
    reveal_strlit("export,?");
    reveal_strlit("import,");
    reveal_strlit("f");
    reveal_strlit("l,0");
    reveal_strlit("l,1");
    reveal_strlit("l,?");
    reveal_strlit("o,ec,0");
    reveal_strlit("o,ec,1");
    reveal_strlit("o,s,0");
    reveal_strlit("o,s,1");
    reveal_strlit("o,sg,0");
    reveal_strlit("o,sg,1");
    reveal_strlit("o,tds,0");
    reveal_strlit("o,tds,1");
    reveal_strlit("o,?");
    reveal_strlit("p,1.0");
    reveal_strlit("p,0.1");
    reveal_strlit("p,?");
    reveal_strlit("p,10.0");
    reveal_strlit("plock,0");
    reveal_strlit("plock,1");
    reveal_strlit("plock,?");
    reveal_strlit("r");
    reveal_strlit("status");
    reveal_strlit("sleep");
    reveal_strlit("slope,?");
    reveal_strlit("d,0");
    reveal_strlit("d,?");
    reveal_strlit("d,");
    reveal_strlit("m,clear");
    reveal_strlit("m");
    reveal_strlit("m,?");
    reveal_strlit("s,c");
    reveal_strlit("s,f");
    reveal_strlit("s,k");
    reveal_strlit("s,?");
}

} // verus!
