use vstd::prelude::*;

use crate::action::{Action, State};
use crate::classify::{class_of, Class};

verus! {

/// The transition table: `(state, class) -> (action, next state)`.
///
/// The "anywhere" rules come first and win in every state: ESC always
/// begins a new escape sequence and CAN/SUB always abort to `Ground`
/// with an `Execute`. This guarantees that a control byte can interrupt
/// and resynchronize the parser from any state within one byte. The
/// remaining arms are the state-local grammar. Every pair has an entry;
/// there is no undefined combination.
pub open spec fn transition(s: State, c: Class) -> (Action, State) {
    match c {
        Class::Esc => (Action::Nop, State::Escape),
        Class::CancelSub => (Action::Execute, State::Ground),
        _ => match s {
            State::Ground => match c {
                Class::Control | Class::Bell => (Action::Execute, State::Ground),
                _ => (Action::Print, State::Ground),
            },
            State::Escape => match c {
                Class::Control | Class::Bell => (Action::Execute, State::Escape),
                Class::Delete | Class::High => (Action::Ignore, State::Escape),
                Class::Intermediate => (Action::Collect, State::EscapeIntermediate),
                Class::DcsIntro => (Action::Nop, State::DcsEntry),
                Class::StringIntro => (Action::Nop, State::SosPmApcString),
                Class::CsiIntro => (Action::Nop, State::CsiEntry),
                Class::OscIntro => (Action::Nop, State::OscString),
                _ => (Action::EscDispatch, State::Ground),
            },
            State::EscapeIntermediate => match c {
                Class::Control | Class::Bell => (Action::Execute, State::EscapeIntermediate),
                Class::Delete | Class::High => (Action::Ignore, State::EscapeIntermediate),
                Class::Intermediate => (Action::Collect, State::EscapeIntermediate),
                _ => (Action::EscDispatch, State::Ground),
            },
            State::CsiEntry => match c {
                Class::Control | Class::Bell => (Action::Execute, State::CsiEntry),
                Class::Delete | Class::High => (Action::Ignore, State::CsiEntry),
                Class::Intermediate => (Action::Collect, State::CsiIntermediate),
                Class::ParamByte => (Action::Param, State::CsiParam),
                Class::Private => (Action::Collect, State::CsiParam),
                Class::Colon => (Action::Nop, State::CsiIgnore),
                _ => (Action::CsiDispatch, State::Ground),
            },
            State::CsiParam => match c {
                Class::Control | Class::Bell => (Action::Execute, State::CsiParam),
                Class::Delete | Class::High => (Action::Ignore, State::CsiParam),
                Class::Intermediate => (Action::Collect, State::CsiIntermediate),
                Class::ParamByte => (Action::Param, State::CsiParam),
                Class::Colon | Class::Private => (Action::Nop, State::CsiIgnore),
                _ => (Action::CsiDispatch, State::Ground),
            },
            State::CsiIntermediate => match c {
                Class::Control | Class::Bell => (Action::Execute, State::CsiIntermediate),
                Class::Delete | Class::High => (Action::Ignore, State::CsiIntermediate),
                Class::Intermediate => (Action::Collect, State::CsiIntermediate),
                Class::ParamByte | Class::Colon | Class::Private => (
                    Action::Nop,
                    State::CsiIgnore,
                ),
                _ => (Action::CsiDispatch, State::Ground),
            },
            State::CsiIgnore => match c {
                Class::Control | Class::Bell => (Action::Execute, State::CsiIgnore),
                Class::Intermediate | Class::ParamByte | Class::Colon | Class::Private
                    | Class::Delete | Class::High => (Action::Ignore, State::CsiIgnore),
                _ => (Action::Nop, State::Ground),
            },
            State::DcsEntry => match c {
                Class::Control | Class::Bell | Class::Delete | Class::High => (
                    Action::Ignore,
                    State::DcsEntry,
                ),
                Class::Intermediate => (Action::Collect, State::DcsIntermediate),
                Class::ParamByte => (Action::Param, State::DcsParam),
                Class::Private => (Action::Collect, State::DcsParam),
                Class::Colon => (Action::Nop, State::DcsIgnore),
                _ => (Action::Nop, State::DcsPassthrough),
            },
            State::DcsParam => match c {
                Class::Control | Class::Bell | Class::Delete | Class::High => (
                    Action::Ignore,
                    State::DcsParam,
                ),
                Class::Intermediate => (Action::Collect, State::DcsIntermediate),
                Class::ParamByte => (Action::Param, State::DcsParam),
                Class::Colon | Class::Private => (Action::Nop, State::DcsIgnore),
                _ => (Action::Nop, State::DcsPassthrough),
            },
            State::DcsIntermediate => match c {
                Class::Control | Class::Bell | Class::Delete | Class::High => (
                    Action::Ignore,
                    State::DcsIntermediate,
                ),
                Class::Intermediate => (Action::Collect, State::DcsIntermediate),
                Class::ParamByte | Class::Colon | Class::Private => (
                    Action::Nop,
                    State::DcsIgnore,
                ),
                _ => (Action::Nop, State::DcsPassthrough),
            },
            State::DcsPassthrough => match c {
                Class::Delete => (Action::Ignore, State::DcsPassthrough),
                _ => (Action::Put, State::DcsPassthrough),
            },
            State::DcsIgnore => (Action::Ignore, State::DcsIgnore),
            State::OscString => match c {
                Class::Bell => (Action::Nop, State::Ground),
                Class::Control => (Action::Ignore, State::OscString),
                _ => (Action::OscPut, State::OscString),
            },
            State::SosPmApcString => (Action::Ignore, State::SosPmApcString),
        },
    }
}

/// Looks up the table entry for the current state and a byte class.
pub fn lookup(s: State, c: Class) -> (r: (Action, State))
    ensures
        r == transition(s, c),
{
    match c {
        Class::Esc => (Action::Nop, State::Escape),
        Class::CancelSub => (Action::Execute, State::Ground),
        _ => match s {
            State::Ground => match c {
                Class::Control | Class::Bell => (Action::Execute, State::Ground),
                _ => (Action::Print, State::Ground),
            },
            State::Escape => match c {
                Class::Control | Class::Bell => (Action::Execute, State::Escape),
                Class::Delete | Class::High => (Action::Ignore, State::Escape),
                Class::Intermediate => (Action::Collect, State::EscapeIntermediate),
                Class::DcsIntro => (Action::Nop, State::DcsEntry),
                Class::StringIntro => (Action::Nop, State::SosPmApcString),
                Class::CsiIntro => (Action::Nop, State::CsiEntry),
                Class::OscIntro => (Action::Nop, State::OscString),
                _ => (Action::EscDispatch, State::Ground),
            },
            State::EscapeIntermediate => match c {
                Class::Control | Class::Bell => (Action::Execute, State::EscapeIntermediate),
                Class::Delete | Class::High => (Action::Ignore, State::EscapeIntermediate),
                Class::Intermediate => (Action::Collect, State::EscapeIntermediate),
                _ => (Action::EscDispatch, State::Ground),
            },
            State::CsiEntry => match c {
                Class::Control | Class::Bell => (Action::Execute, State::CsiEntry),
                Class::Delete | Class::High => (Action::Ignore, State::CsiEntry),
                Class::Intermediate => (Action::Collect, State::CsiIntermediate),
                Class::ParamByte => (Action::Param, State::CsiParam),
                Class::Private => (Action::Collect, State::CsiParam),
                Class::Colon => (Action::Nop, State::CsiIgnore),
                _ => (Action::CsiDispatch, State::Ground),
            },
            State::CsiParam => match c {
                Class::Control | Class::Bell => (Action::Execute, State::CsiParam),
                Class::Delete | Class::High => (Action::Ignore, State::CsiParam),
                Class::Intermediate => (Action::Collect, State::CsiIntermediate),
                Class::ParamByte => (Action::Param, State::CsiParam),
                Class::Colon | Class::Private => (Action::Nop, State::CsiIgnore),
                _ => (Action::CsiDispatch, State::Ground),
            },
            State::CsiIntermediate => match c {
                Class::Control | Class::Bell => (Action::Execute, State::CsiIntermediate),
                Class::Delete | Class::High => (Action::Ignore, State::CsiIntermediate),
                Class::Intermediate => (Action::Collect, State::CsiIntermediate),
                Class::ParamByte | Class::Colon | Class::Private => (
                    Action::Nop,
                    State::CsiIgnore,
                ),
                _ => (Action::CsiDispatch, State::Ground),
            },
            State::CsiIgnore => match c {
                Class::Control | Class::Bell => (Action::Execute, State::CsiIgnore),
                Class::Intermediate | Class::ParamByte | Class::Colon | Class::Private
                    | Class::Delete | Class::High => (Action::Ignore, State::CsiIgnore),
                _ => (Action::Nop, State::Ground),
            },
            State::DcsEntry => match c {
                Class::Control | Class::Bell | Class::Delete | Class::High => (
                    Action::Ignore,
                    State::DcsEntry,
                ),
                Class::Intermediate => (Action::Collect, State::DcsIntermediate),
                Class::ParamByte => (Action::Param, State::DcsParam),
                Class::Private => (Action::Collect, State::DcsParam),
                Class::Colon => (Action::Nop, State::DcsIgnore),
                _ => (Action::Nop, State::DcsPassthrough),
            },
            State::DcsParam => match c {
                Class::Control | Class::Bell | Class::Delete | Class::High => (
                    Action::Ignore,
                    State::DcsParam,
                ),
                Class::Intermediate => (Action::Collect, State::DcsIntermediate),
                Class::ParamByte => (Action::Param, State::DcsParam),
                Class::Colon | Class::Private => (Action::Nop, State::DcsIgnore),
                _ => (Action::Nop, State::DcsPassthrough),
            },
            State::DcsIntermediate => match c {
                Class::Control | Class::Bell | Class::Delete | Class::High => (
                    Action::Ignore,
                    State::DcsIntermediate,
                ),
                Class::Intermediate => (Action::Collect, State::DcsIntermediate),
                Class::ParamByte | Class::Colon | Class::Private => (
                    Action::Nop,
                    State::DcsIgnore,
                ),
                _ => (Action::Nop, State::DcsPassthrough),
            },
            State::DcsPassthrough => match c {
                Class::Delete => (Action::Ignore, State::DcsPassthrough),
                _ => (Action::Put, State::DcsPassthrough),
            },
            State::DcsIgnore => (Action::Ignore, State::DcsIgnore),
            State::OscString => match c {
                Class::Bell => (Action::Nop, State::Ground),
                Class::Control => (Action::Ignore, State::OscString),
                _ => (Action::OscPut, State::OscString),
            },
            State::SosPmApcString => (Action::Ignore, State::SosPmApcString),
        },
    }
}

/// The entry action of a state, fired when a transition enters it from a
/// different state: `Clear` resets the collectors at the start of every
/// escape, CSI and DCS sequence, `Hook` opens DCS passthrough and
/// `OscStart` opens an OSC string.
pub open spec fn entry_action(s: State) -> Action {
    match s {
        State::Escape | State::CsiEntry | State::DcsEntry => Action::Clear,
        State::DcsPassthrough => Action::Hook,
        State::OscString => Action::OscStart,
        _ => Action::Nop,
    }
}

/// The exit action of a state, fired when a transition leaves it for a
/// different state: `Unhook` closes DCS passthrough and `OscEnd` closes
/// a collected string.
pub open spec fn exit_action(s: State) -> Action {
    match s {
        State::DcsPassthrough => Action::Unhook,
        State::OscString | State::SosPmApcString => Action::OscEnd,
        _ => Action::Nop,
    }
}

/// Used to state totality of the table: `r` is the entry for `(s, c)`.
pub open spec fn entry_is(s: State, c: Class, r: (Action, State)) -> bool {
    transition(s, c) == r
}

/// Totality: for every one of the 256 byte values and every one of the
/// fourteen states, classification and lookup yield a defined
/// (action, next state) pair. There is no unreachable or panicking
/// combination.
pub proof fn lemma_lookup_total(s: State, b: u8)
    ensures
        exists|r: (Action, State)| entry_is(s, class_of(b), r),
{
    let r = transition(s, class_of(b));
    assert(entry_is(s, class_of(b), r));
}

/// Anywhere precedence: ESC and CAN/SUB override the state-local grammar
/// in every state, so one control byte always resynchronizes the parser.
pub proof fn lemma_anywhere_precedence(s: State)
    ensures
        transition(s, Class::Esc) == (Action::Nop, State::Escape),
        transition(s, Class::CancelSub) == (Action::Execute, State::Ground),
{
}

} // verus!
