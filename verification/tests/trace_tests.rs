use fuzzy::trace::{NewTraceEvent, TraceEvent, Tracer};

#[test]
fn directive_for_each_verbosity() {
    assert_eq!(Tracer::new(0).directive_text(), "fuzzy=warn");
    assert_eq!(Tracer::new(1).directive_text(), "fuzzy=info");
    assert_eq!(Tracer::new(2).directive_text(), "fuzzy=debug");
    assert_eq!(Tracer::new(3).directive_text(), "fuzzy=trace");
    assert_eq!(Tracer::new(4).directive_text(), "fuzzy=warn");
    assert_eq!(Tracer::new(u64::MAX).directive_text(), "fuzzy=warn");
}

#[test]
fn directives_parse() {
    for n in 0..6u64 {
        let d = Tracer::new(n).directive();
        assert!(d.is_ok());
        let d = d.unwrap();
        assert_eq!(d.source_text(), Tracer::new(n).directive_text());
        assert_eq!(d.into_directive().to_string(), Tracer::new(n).directive_text());
    }
}

#[test]
fn trace_event_holds_its_event() {
    let ev = TraceEvent::NewEvent(NewTraceEvent {
        level: "INFO".to_string(),
        target: "fuzzy".to_string(),
        message: "started".to_string(),
    });
    match ev {
        TraceEvent::NewEvent(e) => assert_eq!(e.message, "started"),
    }
}

#[test]
fn installed_directive_for_verbosity_two_and_four() {
    assert_eq!(Tracer::new(2).directive().unwrap().source_text(), "fuzzy=debug");
    assert_eq!(Tracer::new(4).directive().unwrap().source_text(), "fuzzy=warn");
    assert_eq!(
        Tracer::new(4).directive().unwrap().into_directive().to_string(),
        "fuzzy=warn"
    );
}
