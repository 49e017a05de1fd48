use batch::compile::compile;
use batch::job::{JobDescriptor, Priority};
use batch::parse::parse;
use batch::report::{DiagKind, Expected, ReportItem, Severity};
use batch::validate::ExchangeKind;

#[test]
fn parse_single_exchange_entry() {
    let entries = parse("emails { kind = topic; durable = true; }").unwrap();
    assert_eq!(entries.len(), 1);
    let e = &entries[0];
    assert_eq!(e.name, "emails");
    assert_eq!(e.span.start, 0);
    assert_eq!(e.span.end, 40);
    assert_eq!(e.attrs.len(), 2);
    assert_eq!(e.attrs[0].key, "kind");
    assert_eq!(e.attrs[0].value, "topic");
    assert_eq!(e.attrs[0].span.start, 9);
    assert_eq!(e.attrs[0].span.end, 22);
    assert_eq!(e.attrs[1].key, "durable");
    assert_eq!(e.attrs[1].value, "true");
}

#[test]
fn parse_accepts_empty_block_and_several_entries() {
    assert_eq!(parse("").unwrap().len(), 0);
    assert_eq!(parse("  \n\t ").unwrap().len(), 0);
    let entries = parse("a { }\nb { x = y; }").unwrap();
    assert_eq!(entries.len(), 2);
    assert_eq!(entries[0].name, "a");
    assert_eq!(entries[0].attrs.len(), 0);
    assert_eq!(entries[1].name, "b");
    assert_eq!(entries[1].attrs.len(), 1);
}

#[test]
fn parse_error_missing_semicolon() {
    let e = parse("a { kind = topic }").unwrap_err();
    assert_eq!(e.expected, Expected::Semicolon);
    assert_eq!(e.at, 17);
}

#[test]
fn parse_error_missing_open_brace() {
    let e = parse("emails").unwrap_err();
    assert_eq!(e.expected, Expected::OpenBrace);
    assert_eq!(e.at, 6);
}

#[test]
fn parse_error_unbalanced_braces() {
    let e = parse("a { kind = topic;").unwrap_err();
    assert_eq!(e.expected, Expected::KeyOrCloseBrace);
    assert_eq!(e.at, 17);
}

#[test]
fn parse_error_missing_value() {
    let e = parse("a { kind = ; }").unwrap_err();
    assert_eq!(e.expected, Expected::Value);
    assert_eq!(e.at, 11);
}

#[test]
fn compile_declared_scenario_produces_descriptors() {
    // Declare exchange `emails` (topic, durable) and queue `email-queue`
    // bound to it with routing key `emails.send`; a job publishing that
    // pair reaches the declared topology.
    let t = compile(
        "emails { kind = topic; durable = true; }",
        "email-queue { exchange = emails; routing_key = emails.send; }",
    )
    .unwrap();

    let ex = t.exchange_named("emails").unwrap();
    assert_eq!(ex.name, "emails");
    assert_eq!(ex.kind, ExchangeKind::Topic);
    assert!(ex.durable);
    assert!(t.exchange_named("logs").is_none());

    let b = t.binding_for("email-queue").unwrap();
    assert_eq!(b.exchange, "emails");
    assert_eq!(b.routing_key, "emails.send");
    assert!(t.routes("emails", "emails.send"));
    assert!(!t.routes("emails", "emails.receive"));

    let job = JobDescriptor::new(
        "SendConfirmationEmail".to_owned(),
        "emails".to_owned(),
        "emails.send".to_owned(),
    );
    assert!(t.routes(job.exchange(), job.routing_key()));
    assert_eq!(job.priority(), Priority::Normal);
    assert_eq!(job.retries(), 0);
    assert!(job.priority() > Priority::Trivial);
    assert!(job.priority() < Priority::Critical);
}

#[test]
fn compile_is_deterministic_on_identical_input() {
    let ex_src = "emails { kind = topic; }\nlogs { kind = fanout; durable = false; }";
    let q_src = "email-queue { exchange = emails; routing_key = emails.send; }\nlog-queue { exchange = logs; }";
    let first = compile(ex_src, q_src).unwrap();
    let second = compile(ex_src, q_src).unwrap();
    assert_eq!(first, second);
    assert_eq!(first.exchanges.len(), 2);
    assert_eq!(first.queues.len(), 2);
    assert_eq!(first.bindings.len(), 2);
}

#[test]
fn duplicate_exchange_names_fail_with_diagnostic() {
    let r = compile("e1 { kind = direct; }\ne1 { kind = fanout; }", "").unwrap_err();
    assert_eq!(r.len(), 1);
    match r.item(0) {
        ReportItem::Semantic(d) => {
            assert_eq!(d.kind, DiagKind::DuplicateName);
            assert_eq!(d.severity(), Severity::Fatal);
            assert_eq!(d.message(), "duplicate declaration name");
        }
        other => panic!("expected a semantic diagnostic, got {:?}", other),
    }
}

#[test]
fn duplicate_queue_names_fail_with_diagnostic() {
    let r = compile(
        "e { kind = fanout; }",
        "q { exchange = e; }\nq { exchange = e; }",
    )
    .unwrap_err();
    assert_eq!(r.len(), 1);
    match r.item(0) {
        ReportItem::Semantic(d) => assert_eq!(d.kind, DiagKind::DuplicateName),
        other => panic!("expected a semantic diagnostic, got {:?}", other),
    }
}

#[test]
fn unresolved_exchange_reference_fails() {
    // The queue references exchange `missing`, which is never declared:
    // validation must fail with an unresolved-reference diagnostic and
    // zero descriptors.
    let r = compile("", "q { exchange = missing; routing_key = a.b; }").unwrap_err();
    assert_eq!(r.len(), 1);
    match r.item(0) {
        ReportItem::Semantic(d) => assert_eq!(d.kind, DiagKind::UnknownExchange),
        other => panic!("expected a semantic diagnostic, got {:?}", other),
    }
}

#[test]
fn unknown_attribute_key_fails() {
    let r = compile("e { kind = direct; colour = red; }", "").unwrap_err();
    assert_eq!(r.len(), 1);
    match r.item(0) {
        ReportItem::Semantic(d) => assert_eq!(d.kind, DiagKind::UnknownAttribute),
        other => panic!("expected a semantic diagnostic, got {:?}", other),
    }
}

#[test]
fn missing_exchange_kind_fails() {
    let r = compile("e { durable = true; }", "").unwrap_err();
    assert_eq!(r.len(), 1);
    match r.item(0) {
        ReportItem::Semantic(d) => assert_eq!(d.kind, DiagKind::MissingAttribute),
        other => panic!("expected a semantic diagnostic, got {:?}", other),
    }
}

#[test]
fn invalid_attribute_values_fail() {
    let r = compile("e { kind = sideways; }", "").unwrap_err();
    assert_eq!(r.len(), 1);
    match r.item(0) {
        ReportItem::Semantic(d) => assert_eq!(d.kind, DiagKind::InvalidValue),
        other => panic!("expected a semantic diagnostic, got {:?}", other),
    }

    let r = compile("e { kind = direct; durable = maybe; }", "").unwrap_err();
    assert_eq!(r.len(), 1);
    match r.item(0) {
        ReportItem::Semantic(d) => assert_eq!(d.kind, DiagKind::InvalidValue),
        other => panic!("expected a semantic diagnostic, got {:?}", other),
    }
}

#[test]
fn routing_key_conditional_rules() {
    // Required by a direct exchange.
    let r = compile("e { kind = direct; }", "q { exchange = e; }").unwrap_err();
    assert_eq!(r.len(), 1);
    match r.item(0) {
        ReportItem::Semantic(d) => assert_eq!(d.kind, DiagKind::RoutingKeyViolation),
        other => panic!("expected a semantic diagnostic, got {:?}", other),
    }

    // Forbidden on a fanout exchange.
    let r = compile(
        "e { kind = fanout; }",
        "q { exchange = e; routing_key = a; }",
    )
    .unwrap_err();
    assert_eq!(r.len(), 1);
    match r.item(0) {
        ReportItem::Semantic(d) => assert_eq!(d.kind, DiagKind::RoutingKeyViolation),
        other => panic!("expected a semantic diagnostic, got {:?}", other),
    }

    // Forbidden on the implicit default exchange.
    let r = compile("", "q { routing_key = a; }").unwrap_err();
    assert_eq!(r.len(), 1);
    match r.item(0) {
        ReportItem::Semantic(d) => assert_eq!(d.kind, DiagKind::RoutingKeyViolation),
        other => panic!("expected a semantic diagnostic, got {:?}", other),
    }

    // Satisfied: direct with a key, fanout without one.
    assert!(compile(
        "e { kind = direct; }\nf { kind = fanout; }",
        "q1 { exchange = e; routing_key = a; }\nq2 { exchange = f; }",
    )
    .is_ok());
}

#[test]
fn validation_accumulates_every_violation() {
    // One pass reports all problems of the block at once, in source order.
    let r = compile(
        "e1 { durable = true; }\ne1 { kind = wavy; shape = round; }",
        "",
    )
    .unwrap_err();
    let kinds: Vec<DiagKind> = (0..r.len())
        .map(|i| match r.item(i) {
            ReportItem::Semantic(d) => d.kind,
            other => panic!("expected a semantic diagnostic, got {:?}", other),
        })
        .collect();
    assert_eq!(
        kinds,
        vec![
            DiagKind::MissingAttribute,
            DiagKind::DuplicateName,
            DiagKind::UnknownAttribute,
            DiagKind::InvalidValue,
        ]
    );
}

#[test]
fn parse_errors_of_both_blocks_are_aggregated() {
    let r = compile("e {", "q {").unwrap_err();
    assert_eq!(r.len(), 2);
    assert!(matches!(r.item(0), ReportItem::Parse(_)));
    assert!(matches!(r.item(1), ReportItem::Parse(_)));
}

#[test]
fn default_exchange_binding_routes_by_queue_name() {
    let t = compile("", "tasks { durable = false; }").unwrap();
    let b = t.binding_for("tasks").unwrap();
    assert_eq!(b.exchange, "");
    assert_eq!(b.routing_key, "tasks");
    let q = &t.queues[0];
    assert_eq!(q.name, "tasks");
    assert_eq!(q.bound_exchange, None);
    assert_eq!(q.routing_key, None);
    assert!(!q.durable);
}

#[test]
fn durable_defaults_to_true() {
    let t = compile("e { kind = fanout; }", "q { exchange = e; }").unwrap();
    assert!(t.exchanges[0].durable);
    assert!(t.queues[0].durable);
}

#[test]
fn repeated_attribute_first_occurrence_wins() {
    let t = compile("e { kind = direct; kind = fanout; }", "").unwrap();
    assert_eq!(t.exchanges[0].kind, ExchangeKind::Direct);
}
