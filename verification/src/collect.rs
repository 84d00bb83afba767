use vstd::prelude::*;

verus! {

/// Maximum number of collected parameters in one CSI or DCS sequence.
pub const MAX_PARAMS: usize = 16;

/// Maximum number of collected intermediate bytes in one sequence.
pub const MAX_INTERMEDIATES: usize = 2;

/// Saturation limit for one numeric parameter.
pub const PARAM_MAX: u16 = 0xFFFF;

/// The mathematical state of a [`ParamCollector`]: the finalized values,
/// the in-progress accumulator, and whether any parameter byte has been
/// seen since the last clear.
#[verifier::ext_equal]
pub struct ParamsView {
    pub values: Seq<u16>,
    pub accum: u16,
    pub seen: bool,
}

impl ParamsView {
    /// The view of a freshly cleared collector.
    pub open spec fn empty() -> ParamsView {
        ParamsView { values: Seq::empty(), accum: 0, seen: false }
    }
}

/// Decimal accumulation of one digit, saturating at [`PARAM_MAX`]
/// instead of wrapping.
pub open spec fn sat_add_digit(a: u16, d: u16) -> u16 {
    if (a as int) * 10 + (d as int) > PARAM_MAX as int {
        PARAM_MAX
    } else {
        ((a as int) * 10 + (d as int)) as u16
    }
}

/// One parameter byte applied to a collector: a digit accumulates with
/// saturation; the separator `;` finalizes the accumulator (ignored once
/// the count cap is reached) and resets it, so a separator with no
/// preceding digits yields a zero-valued parameter. Any other byte
/// leaves the collector unchanged.
pub open spec fn param_step(p: ParamsView, b: u8) -> ParamsView {
    if b == 0x3B {
        ParamsView {
            values: if p.values.len() < MAX_PARAMS as int {
                p.values.push(p.accum)
            } else {
                p.values
            },
            accum: 0,
            seen: true,
        }
    } else if 0x30 <= b && b <= 0x39 {
        ParamsView { values: p.values, accum: sat_add_digit(p.accum, (b - 0x30) as u16), seen: true }
    } else {
        p
    }
}

/// The parameter list a dispatch or hook observes: the finalized values
/// followed by the in-progress accumulator, if any parameter byte was
/// seen and the count cap leaves room for it.
pub open spec fn param_list(p: ParamsView) -> Seq<u16> {
    if p.seen && p.values.len() < MAX_PARAMS as int {
        p.values.push(p.accum)
    } else {
        p.values
    }
}

/// Accumulates the numeric parameters of a CSI or DCS sequence, with a
/// bounded count and saturating digit accumulation. Malformed or
/// overlong input never corrupts already-collected values.
pub struct ParamCollector {
    values: Vec<u16>,
    accum: u16,
    seen: bool,
}

impl View for ParamCollector {
    type V = ParamsView;

    closed spec fn view(&self) -> ParamsView {
        ParamsView { values: self.values@, accum: self.accum, seen: self.seen }
    }
}

impl ParamCollector {
    /// A collector with no values and a zero accumulator.
    pub fn new() -> (r: ParamCollector)
        ensures
            r@ == ParamsView::empty(),
    {
        let r = ParamCollector { values: Vec::new(), accum: 0, seen: false };
        proof {
            assert(r@ =~= ParamsView::empty());
        }
        r
    }

    /// Empties the collector; fired only by the `Clear` action.
    pub fn clear(&mut self)
        ensures
            final(self)@ == ParamsView::empty(),
    {
        self.values = Vec::new();
        self.accum = 0;
        self.seen = false;
        proof {
            assert(self@ =~= ParamsView::empty());
        }
    }

    /// Consumes one parameter byte: a digit 0x30-0x39 or the separator
    /// 0x3B. Never fails, wraps or grows past the cap.
    pub fn on_param(&mut self, b: u8)
        requires
            b == 0x3B || (0x30 <= b && b <= 0x39),
        ensures
            final(self)@ == param_step(old(self)@, b),
    {
        if b == 0x3B {
            if self.values.len() < MAX_PARAMS {
                let a = self.accum;
                self.values.push(a);
            }
            self.accum = 0;
            self.seen = true;
        } else {
            let d: u32 = (b - 0x30) as u32;
            let wide: u32 = self.accum as u32 * 10 + d;
            self.accum = if wide > PARAM_MAX as u32 {
                PARAM_MAX
            } else {
                wide as u16
            };
            self.seen = true;
        }
        proof {
            assert(self@ =~= param_step(old(self)@, b));
        }
    }

    /// The finalized parameter list handed to a dispatch or hook.
    pub fn finalized(&self) -> (r: Vec<u16>)
        ensures
            r@ == param_list(self@),
    {
        let mut r: Vec<u16> = Vec::new();
        let mut i: usize = 0;
        while i < self.values.len()
            invariant
                i <= self.values.len(),
                r@ == self.values@.take(i as int),
            decreases self.values.len() - i,
        {
            let v = self.values[i];
            r.push(v);
            proof {
                assert(r@ =~= self.values@.take(i as int + 1));
            }
            i += 1;
        }
        proof {
            assert(r@ =~= self.values@);
        }
        if self.seen && r.len() < MAX_PARAMS {
            let a = self.accum;
            r.push(a);
        }
        r
    }
}

/// One intermediate byte applied to a collector: appended while below
/// the cap, silently dropped afterwards.
pub open spec fn collect_step(s: Seq<u8>, b: u8) -> Seq<u8> {
    if s.len() < MAX_INTERMEDIATES as int {
        s.push(b)
    } else {
        s
    }
}

/// Accumulates the intermediate bytes of a sequence, capped at
/// [`MAX_INTERMEDIATES`]; bytes beyond the cap are dropped, not errors.
pub struct IntermediateCollector {
    bytes: Vec<u8>,
}

impl View for IntermediateCollector {
    type V = Seq<u8>;

    closed spec fn view(&self) -> Seq<u8> {
        self.bytes@
    }
}

impl IntermediateCollector {
    /// An empty collector.
    pub fn new() -> (r: IntermediateCollector)
        ensures
            r@ == Seq::<u8>::empty(),
    {
        let r = IntermediateCollector { bytes: Vec::new() };
        proof {
            assert(r@ =~= Seq::<u8>::empty());
        }
        r
    }

    /// Empties the collector; fired only by the `Clear` action, in
    /// lockstep with the parameter collector.
    pub fn clear(&mut self)
        ensures
            final(self)@ == Seq::<u8>::empty(),
    {
        self.bytes = Vec::new();
        proof {
            assert(self@ =~= Seq::<u8>::empty());
        }
    }

    /// Consumes one intermediate byte.
    pub fn on_collect(&mut self, b: u8)
        ensures
            final(self)@ == collect_step(old(self)@, b),
    {
        if self.bytes.len() < MAX_INTERMEDIATES {
            self.bytes.push(b);
        }
    }

    /// A snapshot of the collected bytes, handed to a dispatch or hook.
    pub fn contents(&self) -> (r: Vec<u8>)
        ensures
            r@ == self@,
    {
        let mut r: Vec<u8> = Vec::new();
        let mut i: usize = 0;
        while i < self.bytes.len()
            invariant
                i <= self.bytes.len(),
                r@ == self.bytes@.take(i as int),
            decreases self.bytes.len() - i,
        {
            let v = self.bytes[i];
            r.push(v);
            proof {
                assert(r@ =~= self.bytes@.take(i as int + 1));
            }
            i += 1;
        }
        proof {
            assert(r@ =~= self.bytes@);
        }
        r
    }
}

} // verus!
