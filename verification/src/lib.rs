//! A verified parser for ANSI/DEC terminal control sequences.
//!
//! The parser consumes an arbitrary byte stream one byte at a time and
//! splits it into typed actions (printable text, executed controls, CSI /
//! ESC dispatches, OSC strings, DCS passthrough data) following the
//! classic DEC ANSI-compatible state machine: a byte classifier, a total
//! transition table with "anywhere" precedence rules, bounded parameter
//! and intermediate collectors, and a three-phase exit/transition/entry
//! dispatch ladder.

mod action;
mod classify;
mod table;
mod collect;
mod engine;

pub use action::{Action, Event, EventModel, State};
pub use classify::{class_of, classify, Class};
pub use collect::{
    collect_step, param_list, param_step, sat_add_digit, IntermediateCollector, ParamCollector,
    ParamsView, MAX_INTERMEDIATES, MAX_PARAMS, PARAM_MAX,
};
pub use table::{
    entry_action, entry_is, exit_action, lemma_anywhere_precedence, lemma_lookup_total, lookup,
    transition,
};
pub use engine::{
    action_of, bounded, cleared, entry_core, entry_evs, exit_evs, init_core, lemma_clear_on_entry,
    lemma_ladder_order, lemma_progress, lemma_run_bounded, lemma_step_bounded, mid_core, mid_evs,
    next_of, run, step, views_of, Core, Parser,
};
