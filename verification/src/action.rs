use vstd::prelude::*;

verus! {

/// The fourteen states of the escape-sequence grammar.
///
/// `Ground` is both the initial state and the common resting state; the
/// machine is cyclic by design and has no terminal state.
#[derive(Clone, Copy, Debug, PartialEq, Eq, Structural)]
pub enum State {
    Ground,
    Escape,
    EscapeIntermediate,
    CsiEntry,
    CsiParam,
    CsiIntermediate,
    CsiIgnore,
    DcsEntry,
    DcsParam,
    DcsIntermediate,
    DcsPassthrough,
    DcsIgnore,
    OscString,
    SosPmApcString,
}

/// The action half of a transition-table entry.
///
/// `Nop` is the placeholder for table cells and ladder phases that emit
/// nothing; it never reaches a consumer of the event stream.
#[derive(Clone, Copy, Debug, PartialEq, Eq, Structural)]
pub enum Action {
    Nop,
    Ignore,
    Print,
    Execute,
    Clear,
    Collect,
    Param,
    EscDispatch,
    CsiDispatch,
    Hook,
    Put,
    Unhook,
    OscStart,
    OscPut,
    OscEnd,
    Error,
}

/// One emitted action together with its payload: the raw triggering byte
/// where relevant, and for the dispatch and hook events a snapshot of the
/// accumulated parameter and intermediate buffers.
#[derive(Clone, Debug, PartialEq, Eq)]
pub enum Event {
    Print(u8),
    Execute(u8),
    Clear,
    Collect(u8),
    Param(u8),
    Ignore(u8),
    Error(u8),
    EscDispatch { final_byte: u8, params: Vec<u16>, intermediates: Vec<u8> },
    CsiDispatch { final_byte: u8, params: Vec<u16>, intermediates: Vec<u8> },
    Hook { final_byte: u8, params: Vec<u16>, intermediates: Vec<u8> },
    Put(u8),
    Unhook,
    OscStart,
    OscPut(u8),
    OscEnd,
}

/// The mathematical image of an [`Event`]: buffer snapshots become
/// sequences.
#[verifier::ext_equal]
pub enum EventModel {
    Print(u8),
    Execute(u8),
    Clear,
    Collect(u8),
    Param(u8),
    Ignore(u8),
    Error(u8),
    EscDispatch { final_byte: u8, params: Seq<u16>, intermediates: Seq<u8> },
    CsiDispatch { final_byte: u8, params: Seq<u16>, intermediates: Seq<u8> },
    Hook { final_byte: u8, params: Seq<u16>, intermediates: Seq<u8> },
    Put(u8),
    Unhook,
    OscStart,
    OscPut(u8),
    OscEnd,
}

impl View for Event {
    type V = EventModel;

    open spec fn view(&self) -> EventModel {
        match self {
            Event::Print(b) => EventModel::Print(*b),
            Event::Execute(b) => EventModel::Execute(*b),
            Event::Clear => EventModel::Clear,
            Event::Collect(b) => EventModel::Collect(*b),
            Event::Param(b) => EventModel::Param(*b),
            Event::Ignore(b) => EventModel::Ignore(*b),
            Event::Error(b) => EventModel::Error(*b),
            Event::EscDispatch { final_byte, params, intermediates } => (EventModel::EscDispatch {
                final_byte: *final_byte,
                params: params@,
                intermediates: intermediates@,
            }),
            Event::CsiDispatch { final_byte, params, intermediates } => (EventModel::CsiDispatch {
                final_byte: *final_byte,
                params: params@,
                intermediates: intermediates@,
            }),
            Event::Hook { final_byte, params, intermediates } => (EventModel::Hook {
                final_byte: *final_byte,
                params: params@,
                intermediates: intermediates@,
            }),
            Event::Put(b) => EventModel::Put(*b),
            Event::Unhook => EventModel::Unhook,
            Event::OscStart => EventModel::OscStart,
            Event::OscPut(b) => EventModel::OscPut(*b),
            Event::OscEnd => EventModel::OscEnd,
        }
    }
}

} // verus!
