use vstd::prelude::*;

verus! {

/// A transition class: the equivalence class of a byte with respect to
/// the transition table.
///
/// Two bytes of one class behave identically in every state, so the
/// table needs only a (state, class) entry for each pair. The split is
/// finer than the raw grammar categories because a few bytes are special
/// in exactly one state: BEL terminates an OSC string, and the bytes
/// `P`, `X`, `[`, `]`, `^`, `_` introduce DCS, SOS/PM/APC, CSI and OSC
/// sequences from the `Escape` state while acting as plain final bytes
/// elsewhere.
#[derive(Clone, Copy, Debug, PartialEq, Eq, Structural)]
pub enum Class {
    /// C0 control codes other than BEL, CAN, SUB and ESC: 0x00-0x06,
    /// 0x08-0x17, 0x19, 0x1C-0x1F.
    Control,
    /// BEL, 0x07: a C0 control that additionally terminates an OSC
    /// string.
    Bell,
    /// CAN and SUB, 0x18 and 0x1A: abort any sequence from anywhere.
    CancelSub,
    /// ESC, 0x1B: begins an escape sequence from anywhere.
    Esc,
    /// Intermediate bytes 0x20-0x2F.
    Intermediate,
    /// Numeric parameter bytes 0x30-0x39 and the separator 0x3B.
    ParamByte,
    /// 0x3A: a colon is not a valid parameter byte and voids a CSI/DCS
    /// header.
    Colon,
    /// Private-marker parameter bytes 0x3C-0x3F.
    Private,
    /// 0x50, `P`: introduces a DCS sequence from the `Escape` state.
    DcsIntro,
    /// 0x58, 0x5E, 0x5F (`X`, `^`, `_`): introduce an SOS/PM/APC string
    /// from the `Escape` state.
    StringIntro,
    /// 0x5B, `[`: introduces a CSI sequence from the `Escape` state.
    CsiIntro,
    /// 0x5D, `]`: introduces an OSC string from the `Escape` state.
    OscIntro,
    /// The remaining final bytes 0x40-0x7E.
    Final,
    /// DEL, 0x7F.
    Delete,
    /// Bytes 0x80-0xFF: passed through as printable or string data
    /// (7-bit profile; 8-bit C1 controls are not interpreted).
    High,
}

/// Classification of a byte, independent of the current state: a pure,
/// total function over all 256 byte values.
pub open spec fn class_of(b: u8) -> Class {
    if b == 0x07 {
        Class::Bell
    } else if b == 0x18 || b == 0x1A {
        Class::CancelSub
    } else if b == 0x1B {
        Class::Esc
    } else if b < 0x20 {
        Class::Control
    } else if b < 0x30 {
        Class::Intermediate
    } else if b == 0x3A {
        Class::Colon
    } else if b < 0x3C {
        Class::ParamByte
    } else if b < 0x40 {
        Class::Private
    } else if b == 0x50 {
        Class::DcsIntro
    } else if b == 0x58 || b == 0x5E || b == 0x5F {
        Class::StringIntro
    } else if b == 0x5B {
        Class::CsiIntro
    } else if b == 0x5D {
        Class::OscIntro
    } else if b < 0x7F {
        Class::Final
    } else if b == 0x7F {
        Class::Delete
    } else {
        Class::High
    }
}

/// Classifies one byte. Never fails: every byte has a class.
pub fn classify(b: u8) -> (c: Class)
    ensures
        c == class_of(b),
{
    if b == 0x07 {
        Class::Bell
    } else if b == 0x18 || b == 0x1A {
        Class::CancelSub
    } else if b == 0x1B {
        Class::Esc
    } else if b < 0x20 {
        Class::Control
    } else if b < 0x30 {
        Class::Intermediate
    } else if b == 0x3A {
        Class::Colon
    } else if b < 0x3C {
        Class::ParamByte
    } else if b < 0x40 {
        Class::Private
    } else if b == 0x50 {
        Class::DcsIntro
    } else if b == 0x58 || b == 0x5E || b == 0x5F {
        Class::StringIntro
    } else if b == 0x5B {
        Class::CsiIntro
    } else if b == 0x5D {
        Class::OscIntro
    } else if b < 0x7F {
        Class::Final
    } else if b == 0x7F {
        Class::Delete
    } else {
        Class::High
    }
}

} // verus!
