use vtparser::{Event, IntermediateCollector, ParamCollector, Parser};

/// The actions a consumer of complete sequences acts on: everything but
/// the collector-bookkeeping actions (Clear, Collect, Param, Ignore,
/// Error), which only describe the parser's internal accumulation.
fn dispatched(events: Vec<Event>) -> Vec<Event> {
    events
        .into_iter()
        .filter(|e| {
            !matches!(
                e,
                Event::Clear
                    | Event::Collect(_)
                    | Event::Param(_)
                    | Event::Ignore(_)
                    | Event::Error(_)
            )
        })
        .collect()
}

#[test]
fn print_only() {
    let mut parser = Parser::new();
    let data = "plain text";
    let events = parser.parse(data.as_bytes());
    for action in dispatched(events) {
        match action {
            Event::Print(_) => {}
            _ => assert!(false, "Unexpected action {:?}", action),
        }
    }
}

#[test]
fn println_only() {
    let mut parser = Parser::new();
    let data = "plain\ntext\n";
    let events = parser.parse(data.as_bytes());
    for action in dispatched(events) {
        match action {
            Event::Print(_) | Event::Execute(_) => {}
            _ => assert!(false, "Unexpected action {:?}", action),
        }
    }
}

#[test]
fn csi_sgr_reset() {
    let mut parser = Parser::new();
    let data = "\x1B[0m";
    let events = parser.parse(data.as_bytes());
    for action in dispatched(events) {
        match action {
            Event::CsiDispatch { .. } => {}
            _ => assert!(false, "Unexpected action {:?}", action),
        }
    }
}

#[test]
fn osc_seq() {
    let mut parser = Parser::new();
    let data = "\x1B]8;key=foo;https://example.co\x1B\\\\link\x1B]8;;\x1B\\\\";
    let events = parser.parse(data.as_bytes());
    for action in dispatched(events) {
        match action {
            Event::OscStart
            | Event::OscPut(_)
            | Event::OscEnd
            | Event::EscDispatch { .. }
            | Event::Print(_) => {}
            _ => assert!(false, "Unexpected action {:?}", action),
        }
    }
}

#[test]
fn empty() {
    let mut parser = Parser::new();
    let data = "";
    let events = parser.parse(data.as_bytes());
    assert!(events.is_empty());
}

#[test]
fn csi_ignore() {
    let mut parser = Parser::new();
    let data = "\x1B[\x3A";
    let events = parser.parse(data.as_bytes());
    for action in dispatched(events) {
        match action {
            Event::CsiDispatch { .. } => {}
            _ => assert!(false, "Unexpected action {:?}", action),
        }
    }
}

#[test]
fn plain_bytes_print_in_order() {
    let mut parser = Parser::new();
    let data = "plain text";
    let events = parser.parse(data.as_bytes());
    let expected: Vec<Event> = data.bytes().map(Event::Print).collect();
    assert_eq!(events, expected);
}

#[test]
fn newline_executes() {
    let mut parser = Parser::new();
    let events = parser.parse("plain\ntext\n".as_bytes());
    let mut expected: Vec<Event> = Vec::new();
    for b in "plain".bytes() {
        expected.push(Event::Print(b));
    }
    expected.push(Event::Execute(0x0A));
    for b in "text".bytes() {
        expected.push(Event::Print(b));
    }
    expected.push(Event::Execute(0x0A));
    assert_eq!(events, expected);
}

#[test]
fn csi_sgr_full_stream() {
    let mut parser = Parser::new();
    let events = parser.parse("\x1B[0m".as_bytes());
    let expected = vec![
        Event::Clear,
        Event::Clear,
        Event::Param(b'0'),
        Event::CsiDispatch { final_byte: b'm', params: vec![0u16], intermediates: vec![] },
    ];
    assert_eq!(events, expected);
}

#[test]
fn param_saturation_clamps() {
    let mut parser = Parser::new();
    let data = format!("\x1B[{}m", "9".repeat(20));
    let events = parser.parse(data.as_bytes());
    let mut found = false;
    for e in events {
        if let Event::CsiDispatch { final_byte, params, .. } = e {
            assert_eq!(final_byte, b'm');
            assert_eq!(params, vec![0xFFFFu16]);
            found = true;
        }
    }
    assert!(found);
}

#[test]
fn param_count_capped() {
    let mut parser = Parser::new();
    let body: Vec<String> = (0..20).map(|_| "1".to_string()).collect();
    let data = format!("\x1B[{}m", body.join(";"));
    let events = parser.parse(data.as_bytes());
    let mut found = false;
    for e in events {
        if let Event::CsiDispatch { params, .. } = e {
            assert_eq!(params.len(), 16);
            assert!(params.iter().all(|&p| p == 1));
            found = true;
        }
    }
    assert!(found);
}

#[test]
fn params_reset_between_sequences() {
    let mut parser = Parser::new();
    let events = parser.parse("\x1B[1;2m\x1B[3m".as_bytes());
    let dispatches: Vec<Event> = events
        .into_iter()
        .filter(|e| matches!(e, Event::CsiDispatch { .. }))
        .collect();
    assert_eq!(
        dispatches,
        vec![
            Event::CsiDispatch { final_byte: b'm', params: vec![1u16, 2], intermediates: vec![] },
            Event::CsiDispatch { final_byte: b'm', params: vec![3u16], intermediates: vec![] },
        ]
    );
}

#[test]
fn empty_parameter_defaults_to_zero() {
    let mut parser = Parser::new();
    let events = parser.parse("\x1B[;5m".as_bytes());
    let mut found = false;
    for e in events {
        if let Event::CsiDispatch { params, .. } = e {
            assert_eq!(params, vec![0u16, 5]);
            found = true;
        }
    }
    assert!(found);
}

#[test]
fn osc_stream_bracketed() {
    let mut parser = Parser::new();
    let events = parser.parse("\x1B]8;;\x1B\\".as_bytes());
    let expected = vec![
        Event::Clear,
        Event::OscStart,
        Event::OscPut(b'8'),
        Event::OscPut(b';'),
        Event::OscPut(b';'),
        Event::OscEnd,
        Event::Clear,
        Event::EscDispatch { final_byte: b'\\', params: vec![], intermediates: vec![] },
    ];
    assert_eq!(events, expected);
}

#[test]
fn osc_bel_terminates() {
    let mut parser = Parser::new();
    let events = parser.parse("\x1B]0;hi\x07A".as_bytes());
    let expected = vec![
        Event::Clear,
        Event::OscStart,
        Event::OscPut(b'0'),
        Event::OscPut(b';'),
        Event::OscPut(b'h'),
        Event::OscPut(b'i'),
        Event::OscEnd,
        Event::Print(b'A'),
    ];
    assert_eq!(events, expected);
}

#[test]
fn csi_colon_voids_sequence() {
    let mut parser = Parser::new();
    let events = parser.parse("\x1B[\x3A12x".as_bytes());
    assert!(!events.iter().any(|e| matches!(e, Event::CsiDispatch { .. })));
    assert!(events.contains(&Event::Ignore(b'1')));
    // The final byte returned the parser to ground: plain text prints again.
    let after = parser.parse("A".as_bytes());
    assert_eq!(after, vec![Event::Print(b'A')]);
}

#[test]
fn dcs_hook_put_unhook() {
    let mut parser = Parser::new();
    let events = parser.parse("\x1BP1;2+q61\x1B\\".as_bytes());
    let expected = vec![
        Event::Clear,
        Event::Clear,
        Event::Param(b'1'),
        Event::Param(b';'),
        Event::Param(b'2'),
        Event::Collect(b'+'),
        Event::Hook { final_byte: b'q', params: vec![1u16, 2], intermediates: vec![b'+'] },
        Event::Put(b'6'),
        Event::Put(b'1'),
        Event::Unhook,
        Event::Clear,
        Event::EscDispatch { final_byte: b'\\', params: vec![], intermediates: vec![] },
    ];
    assert_eq!(events, expected);
}

#[test]
fn esc_intermediate_collected() {
    let mut parser = Parser::new();
    let events = parser.parse("\x1B(B".as_bytes());
    let expected = vec![
        Event::Clear,
        Event::Collect(b'('),
        Event::EscDispatch { final_byte: b'B', params: vec![], intermediates: vec![b'('] },
    ];
    assert_eq!(events, expected);
}

#[test]
fn intermediates_capped_at_two() {
    let mut parser = Parser::new();
    let events = parser.parse(b"\x1B[ !\"m");
    let mut found = false;
    for e in events {
        if let Event::CsiDispatch { intermediates, .. } = e {
            assert_eq!(intermediates, vec![0x20u8, 0x21]);
            found = true;
        }
    }
    assert!(found);
}

#[test]
fn can_aborts_sequence() {
    let mut parser = Parser::new();
    let events = parser.parse(b"\x1B[1\x18A");
    assert!(!events.iter().any(|e| matches!(e, Event::CsiDispatch { .. })));
    assert!(events.contains(&Event::Execute(0x18)));
    assert_eq!(events.last(), Some(&Event::Print(b'A')));
}

#[test]
fn high_bytes_print_in_ground() {
    let mut parser = Parser::new();
    let events = parser.parse(&[0xC3, 0xA9]);
    assert_eq!(events, vec![Event::Print(0xC3), Event::Print(0xA9)]);
}

#[test]
fn sos_pm_apc_discarded() {
    let mut parser = Parser::new();
    let events = parser.parse("\x1BXabc\x1B\\".as_bytes());
    let expected = vec![
        Event::Clear,
        Event::Ignore(b'a'),
        Event::Ignore(b'b'),
        Event::Ignore(b'c'),
        Event::OscEnd,
        Event::Clear,
        Event::EscDispatch { final_byte: b'\\', params: vec![], intermediates: vec![] },
    ];
    assert_eq!(events, expected);
}

#[test]
fn split_feed_across_calls() {
    let mut parser = Parser::new();
    let first = parser.parse("\x1B[3".as_bytes());
    assert_eq!(first, vec![Event::Clear, Event::Clear, Event::Param(b'3')]);
    let second = parser.parse("2m".as_bytes());
    assert_eq!(
        second,
        vec![
            Event::Param(b'2'),
            Event::CsiDispatch { final_byte: b'm', params: vec![32u16], intermediates: vec![] },
        ]
    );
}

#[test]
fn param_collector_saturates() {
    let mut c = ParamCollector::new();
    for _ in 0..20 {
        c.on_param(b'9');
    }
    assert_eq!(c.finalized(), vec![0xFFFFu16]);
}

#[test]
fn param_collector_empty_separator_yields_zero() {
    let mut c = ParamCollector::new();
    c.on_param(b';');
    assert_eq!(c.finalized(), vec![0u16, 0]);
}

#[test]
fn param_collector_clear_empties() {
    let mut c = ParamCollector::new();
    c.on_param(b'7');
    c.on_param(b';');
    c.clear();
    assert_eq!(c.finalized(), Vec::<u16>::new());
}

#[test]
fn intermediate_collector_caps() {
    let mut c = IntermediateCollector::new();
    c.on_collect(b'!');
    c.on_collect(b'"');
    c.on_collect(b'#');
    assert_eq!(c.contents(), vec![b'!', b'"']);
}
