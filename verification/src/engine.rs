use vstd::prelude::*;

use crate::action::{Action, Event, EventModel, State};
use crate::classify::{class_of, classify, Class};
use crate::collect::{
    collect_step, param_list, param_step, IntermediateCollector, ParamCollector, ParamsView,
    MAX_INTERMEDIATES, MAX_PARAMS,
};
use crate::table::{entry_action, exit_action, lookup, transition};

verus! {

/// The mathematical state of a [`Parser`]: the current grammar state
/// and the contents of the two collectors.
#[verifier::ext_equal]
pub struct Core {
    pub state: State,
    pub params: ParamsView,
    pub inters: Seq<u8>,
}

/// The state of a freshly constructed parser: `Ground`, with empty
/// collectors.
pub open spec fn init_core() -> Core {
    Core { state: State::Ground, params: ParamsView::empty(), inters: Seq::empty() }
}

/// Both collectors emptied; the grammar state is untouched.
pub open spec fn cleared(c: Core) -> Core {
    Core { state: c.state, params: ParamsView::empty(), inters: Seq::empty() }
}

/// The collectors hold no more than their fixed capacities, so memory
/// use is constant however long the input stream runs.
pub open spec fn bounded(c: Core) -> bool {
    c.params.values.len() <= MAX_PARAMS as int && c.inters.len() <= MAX_INTERMEDIATES as int
}

/// The transition action the table selects for one byte.
pub open spec fn action_of(c: Core, b: u8) -> Action {
    transition(c.state, class_of(b)).0
}

/// The next state the table selects for one byte.
pub open spec fn next_of(c: Core, b: u8) -> State {
    transition(c.state, class_of(b)).1
}

/// Phase one of the dispatch ladder: the exit action of the state being
/// left, emitted only when the state changes.
pub open spec fn exit_evs(c: Core, b: u8) -> Seq<EventModel> {
    if next_of(c, b) != c.state {
        match exit_action(c.state) {
            Action::Unhook => seq![EventModel::Unhook],
            Action::OscEnd => seq![EventModel::OscEnd],
            _ => Seq::empty(),
        }
    } else {
        Seq::empty()
    }
}

/// Phase two of the dispatch ladder: the collector change made by the
/// transition action.
pub open spec fn mid_core(c: Core, b: u8) -> Core {
    match action_of(c, b) {
        Action::Clear => cleared(c),
        Action::Collect => Core { inters: collect_step(c.inters, b), ..c },
        Action::Param => Core { params: param_step(c.params, b), ..c },
        _ => c,
    }
}

/// Phase two of the dispatch ladder: the event the transition action
/// emits, carrying the raw byte; dispatches carry a snapshot of the
/// buffers as they stand before any entry action clears them.
pub open spec fn mid_evs(c: Core, b: u8) -> Seq<EventModel> {
    match action_of(c, b) {
        Action::Nop => Seq::empty(),
        Action::Ignore => seq![EventModel::Ignore(b)],
        Action::Print => seq![EventModel::Print(b)],
        Action::Execute => seq![EventModel::Execute(b)],
        Action::Clear => seq![EventModel::Clear],
        Action::Collect => seq![EventModel::Collect(b)],
        Action::Param => seq![EventModel::Param(b)],
        Action::EscDispatch => seq![
            (EventModel::EscDispatch {
                final_byte: b,
                params: param_list(c.params),
                intermediates: c.inters,
            }),
        ],
        Action::CsiDispatch => seq![
            (EventModel::CsiDispatch {
                final_byte: b,
                params: param_list(c.params),
                intermediates: c.inters,
            }),
        ],
        Action::Hook => seq![
            (EventModel::Hook {
                final_byte: b,
                params: param_list(c.params),
                intermediates: c.inters,
            }),
        ],
        Action::Put => seq![EventModel::Put(b)],
        Action::Unhook => seq![EventModel::Unhook],
        Action::OscStart => seq![EventModel::OscStart],
        Action::OscPut => seq![EventModel::OscPut(b)],
        Action::OscEnd => seq![EventModel::OscEnd],
        Action::Error => seq![EventModel::Error(b)],
    }
}

/// Phase three of the dispatch ladder: the collectors after the entry
/// action of the new state, and the state updated.
pub open spec fn entry_core(c: Core, b: u8) -> Core {
    let m = mid_core(c, b);
    let next = next_of(c, b);
    let e = if next != c.state && entry_action(next) == Action::Clear {
        cleared(m)
    } else {
        m
    };
    Core { state: next, ..e }
}

/// Phase three of the dispatch ladder: the event the entry action of
/// the new state emits, only when the state changes. A `Hook` carries
/// the just-finalized parameter and intermediate buffers together with
/// the final byte that completed the DCS header.
pub open spec fn entry_evs(c: Core, b: u8) -> Seq<EventModel> {
    let next = next_of(c, b);
    if next != c.state {
        match entry_action(next) {
            Action::Clear => seq![EventModel::Clear],
            Action::Hook => seq![
                (EventModel::Hook {
                    final_byte: b,
                    params: param_list(mid_core(c, b).params),
                    intermediates: mid_core(c, b).inters,
                }),
            ],
            Action::OscStart => seq![EventModel::OscStart],
            _ => Seq::empty(),
        }
    } else {
        Seq::empty()
    }
}

/// One byte consumed: classify, look up, then the three ladder phases
/// in order — exit, transition, entry.
pub open spec fn step(c: Core, b: u8) -> (Core, Seq<EventModel>) {
    (entry_core(c, b), exit_evs(c, b) + mid_evs(c, b) + entry_evs(c, b))
}

/// A whole buffer consumed: each byte is fed to [`step`] exactly once,
/// strictly in order, and the emitted events are concatenated.
pub open spec fn run(c: Core, bytes: Seq<u8>) -> (Core, Seq<EventModel>)
    decreases bytes.len(),
{
    if bytes.len() == 0 {
        (c, Seq::empty())
    } else {
        let pre = run(c, bytes.drop_last());
        let st = step(pre.0, bytes.last());
        (st.0, pre.1 + st.1)
    }
}

/// The mathematical image of an emitted event buffer.
pub open spec fn views_of(events: Seq<Event>) -> Seq<EventModel> {
    events.map_values(|e: Event| e@)
}

/// The escape-sequence parser: the current state and the two bounded
/// collectors, owned exclusively by one instance and mutated only while
/// it consumes input.
pub struct Parser {
    state: State,
    params: ParamCollector,
    intermediates: IntermediateCollector,
}

impl View for Parser {
    type V = Core;

    closed spec fn view(&self) -> Core {
        Core { state: self.state, params: self.params@, inters: self.intermediates@ }
    }
}

fn push_event(out: &mut Vec<Event>, e: Event)
    ensures
        views_of(final(out)@) == views_of(old(out)@).push(e@),
{
    let ghost ve = e@;
    out.push(e);
    proof {
        assert(views_of(out@) =~= views_of(old(out)@).push(ve));
    }
}

impl Parser {
    /// A parser at rest in `Ground` with empty collectors.
    pub fn new() -> (r: Parser)
        ensures
            r@ == init_core(),
    {
        let r = Parser {
            state: State::Ground,
            params: ParamCollector::new(),
            intermediates: IntermediateCollector::new(),
        };
        proof {
            assert(r@ =~= init_core());
        }
        r
    }

    /// Consumes one byte: the three ladder phases run in order and their
    /// events are appended to `out`.
    fn step_byte(&mut self, b: u8, out: &mut Vec<Event>)
        ensures
            final(self)@ == step(old(self)@, b).0,
            views_of(final(out)@) == views_of(old(out)@) + step(old(self)@, b).1,
    {
        let ghost c0 = self@;
        let ghost evs0 = views_of(out@);
        let cls = classify(b);
        let (action, next) = lookup(self.state, cls);
        let change = next != self.state;

        if change {
            match self.state {
                State::DcsPassthrough => push_event(out, Event::Unhook),
                State::OscString | State::SosPmApcString => push_event(out, Event::OscEnd),
                _ => {},
            }
        }
        proof {
            assert(views_of(out@) =~= evs0 + exit_evs(c0, b));
        }

        match action {
            Action::Nop => {},
            Action::Ignore => push_event(out, Event::Ignore(b)),
            Action::Print => push_event(out, Event::Print(b)),
            Action::Execute => push_event(out, Event::Execute(b)),
            Action::Clear => {
                self.params.clear();
                self.intermediates.clear();
                push_event(out, Event::Clear);
            },
            Action::Collect => {
                self.intermediates.on_collect(b);
                push_event(out, Event::Collect(b));
            },
            Action::Param => {
                proof {
                    assert(cls == Class::ParamByte);
                }
                self.params.on_param(b);
                push_event(out, Event::Param(b));
            },
            Action::EscDispatch => {
                let params = self.params.finalized();
                let intermediates = self.intermediates.contents();
                push_event(out, Event::EscDispatch { final_byte: b, params, intermediates });
            },
            Action::CsiDispatch => {
                let params = self.params.finalized();
                let intermediates = self.intermediates.contents();
                push_event(out, Event::CsiDispatch { final_byte: b, params, intermediates });
            },
            Action::Hook => {
                let params = self.params.finalized();
                let intermediates = self.intermediates.contents();
                push_event(out, Event::Hook { final_byte: b, params, intermediates });
            },
            Action::Put => push_event(out, Event::Put(b)),
            Action::Unhook => push_event(out, Event::Unhook),
            Action::OscStart => push_event(out, Event::OscStart),
            Action::OscPut => push_event(out, Event::OscPut(b)),
            Action::OscEnd => push_event(out, Event::OscEnd),
            Action::Error => push_event(out, Event::Error(b)),
        }
        proof {
            assert(self@ =~= mid_core(c0, b));
            assert(views_of(out@) =~= evs0 + exit_evs(c0, b) + mid_evs(c0, b));
        }

        if change {
            match next {
                State::Escape | State::CsiEntry | State::DcsEntry => {
                    self.params.clear();
                    self.intermediates.clear();
                    push_event(out, Event::Clear);
                },
                State::DcsPassthrough => {
                    let params = self.params.finalized();
                    let intermediates = self.intermediates.contents();
                    push_event(out, Event::Hook { final_byte: b, params, intermediates });
                },
                State::OscString => push_event(out, Event::OscStart),
                _ => {},
            }
        }
        self.state = next;
        proof {
            assert(self@ =~= step(c0, b).0);
            assert(views_of(out@) =~= evs0 + step(c0, b).1);
        }
    }

    /// Feeds a buffer of bytes through the parser, strictly in order,
    /// one at a time, and returns every emitted event in order. Never
    /// fails, whatever the input: malformed sequences resolve through
    /// the table's recovery states.
    pub fn parse(&mut self, data: &[u8]) -> (events: Vec<Event>)
        ensures
            final(self)@ == run(old(self)@, data@).0,
            views_of(events@) == run(old(self)@, data@).1,
    {
        let mut events: Vec<Event> = Vec::new();
        proof {
            assert(data@.take(0) =~= Seq::<u8>::empty());
            assert(views_of(events@) =~= Seq::<EventModel>::empty());
        }
        let mut i: usize = 0;
        while i < data.len()
            invariant
                i <= data.len(),
                self@ == run(old(self)@, data@.take(i as int)).0,
                views_of(events@) == run(old(self)@, data@.take(i as int)).1,
            decreases data.len() - i,
        {
            let b = data[i];
            self.step_byte(b, &mut events);
            proof {
                assert(data@.take(i as int + 1).drop_last() =~= data@.take(i as int));
                assert(data@.take(i as int + 1).last() == data@[i as int]);
            }
            i += 1;
        }
        proof {
            assert(data@.take(data@.len() as int) =~= data@);
        }
        events
    }
}

/// Progress: a run consumes its input byte by byte — the empty input
/// emits nothing, a non-empty input is the run of its prefix followed by
/// exactly one step on its last byte, and each step emits at most three
/// events, so the whole output is bounded by three events per byte.
pub proof fn lemma_progress(c: Core, bytes: Seq<u8>)
    ensures
        bytes.len() == 0 ==> run(c, bytes) == (c, Seq::<EventModel>::empty()),
        bytes.len() > 0 ==> run(c, bytes).0 == step(
            run(c, bytes.drop_last()).0,
            bytes.last(),
        ).0,
        bytes.len() > 0 ==> run(c, bytes).1 == run(c, bytes.drop_last()).1 + step(
            run(c, bytes.drop_last()).0,
            bytes.last(),
        ).1,
        run(c, bytes).1.len() <= 3 * bytes.len(),
    decreases bytes.len(),
{
    if bytes.len() > 0 {
        lemma_progress(c, bytes.drop_last());
        let pre = run(c, bytes.drop_last());
        assert(exit_evs(pre.0, bytes.last()).len() <= 1);
        assert(mid_evs(pre.0, bytes.last()).len() <= 1);
        assert(entry_evs(pre.0, bytes.last()).len() <= 1);
    }
}

/// Ladder ordering: the events of one step are the exit-phase events,
/// then the transition-action events, then the entry-phase events, in
/// exactly that order; a self-transition runs only the middle phase.
pub proof fn lemma_ladder_order(c: Core, b: u8)
    ensures
        step(c, b).1 == exit_evs(c, b) + mid_evs(c, b) + entry_evs(c, b),
        next_of(c, b) == c.state ==> exit_evs(c, b) == Seq::<EventModel>::empty(),
        next_of(c, b) == c.state ==> entry_evs(c, b) == Seq::<EventModel>::empty(),
{
}

/// Reset on entry: whenever a byte moves the parser into `Escape`,
/// `CsiEntry` or `DcsEntry` from some other state, the entry `Clear`
/// has emptied both collectors, so a new sequence never observes
/// leftover parameters or intermediates from an earlier one.
pub proof fn lemma_clear_on_entry(c: Core, b: u8)
    ensures
        (step(c, b).0.state == State::Escape || step(c, b).0.state == State::CsiEntry
            || step(c, b).0.state == State::DcsEntry) && step(c, b).0.state != c.state
            ==> step(c, b).0.params == ParamsView::empty() && step(c, b).0.inters
            == Seq::<u8>::empty(),
{
}

/// Bounded buffers: one step never grows the parameter list past
/// [`MAX_PARAMS`] nor the intermediates past [`MAX_INTERMEDIATES`].
pub proof fn lemma_step_bounded(c: Core, b: u8)
    requires
        bounded(c),
    ensures
        bounded(step(c, b).0),
{
}

/// Bounded buffers over a whole run: however long and however malformed
/// the input, the collectors stay within their fixed capacities.
pub proof fn lemma_run_bounded(c: Core, bytes: Seq<u8>)
    requires
        bounded(c),
    ensures
        bounded(run(c, bytes).0),
    decreases bytes.len(),
{
    if bytes.len() > 0 {
        lemma_run_bounded(c, bytes.drop_last());
        lemma_step_bounded(run(c, bytes.drop_last()).0, bytes.last());
    }
}

} // verus!
