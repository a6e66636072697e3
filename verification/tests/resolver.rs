use onoma_bridge::failure::{Failure, Target};
use onoma_bridge::host::{HostValue, Step};
use onoma_bridge::resolver::{
    convert_symbol_kinds, create_context, get_resolver, Context, Polled, ReceiverStream,
    ResolvedSymbol, SymbolKind,
};
use onoma_bridge::runtime::Domain;

fn text(value: &str) -> HostValue {
    HostValue::Text(value.to_string())
}

fn kind(name: &str) -> SymbolKind {
    SymbolKind::from_name(name).unwrap()
}

fn symbol(id: i64, kind_name: &str, name: &str) -> ResolvedSymbol {
    ResolvedSymbol::new(
        id,
        kind(kind_name),
        name.to_string(),
        "/proj/src/input.rs".to_string(),
        100 - id,
        id * 10,
        1,
        id * 10 + 3,
        2,
    )
}

#[test]
fn kind_names_that_the_engine_knows() {
    for name in ["Function", "Method", "Struct", "Unknown", "TypeAlias", "Quasiquoter"] {
        let kind = SymbolKind::from_name(name).unwrap();
        assert_eq!(kind.name(), name);
    }
}

#[test]
fn kind_name_that_the_engine_does_not_know() {
    for name in ["", "Gadget", "Function ", "Func", "Function,Method"] {
        assert_eq!(
            SymbolKind::from_name(name),
            Err(Failure::UnknownSymbolKind { name: name.to_string() })
        );
    }
}

#[test]
fn kind_classified_by_the_answer_of_the_engine() {
    assert_eq!(SymbolKind::classified("Function", true).unwrap().name(), "Function");
    assert_eq!(
        SymbolKind::classified("Function", false),
        Err(Failure::UnknownSymbolKind { name: "Function".to_string() })
    );
    assert_eq!(SymbolKind::classified("anything", true).unwrap().name(), "anything");
}

#[test]
fn kind_from_a_host_value() {
    assert_eq!(SymbolKind::from_host(&text("Class")), Ok(kind("Class")));
    assert_eq!(
        SymbolKind::from_host(&text("Klass")),
        Err(Failure::UnknownSymbolKind { name: "Klass".to_string() })
    );
    assert_eq!(
        SymbolKind::from_host(&HostValue::Other { value_type: "boolean".to_string() }),
        Err(Failure::ExpectedString { target: Target::SymbolKind, found: "boolean".to_string() })
    );
}

#[test]
fn kinds_are_converted_in_order() {
    let values = vec![text("Function"), text("Method"), text("Function"), text("Trait")];
    let kinds = convert_symbol_kinds(&values).unwrap();
    let names: Vec<&str> = kinds.iter().map(|kind| kind.name()).collect();
    assert_eq!(names, vec!["Function", "Method", "Function", "Trait"]);
}

#[test]
fn no_kinds_are_converted_to_no_kinds() {
    assert_eq!(convert_symbol_kinds(&Vec::new()), Ok(Vec::new()));
}

#[test]
fn one_unknown_kind_fails_the_whole_conversion() {
    let values = vec![text("Function"), text("Gadget"), text("Method")];
    assert_eq!(
        convert_symbol_kinds(&values),
        Err(Failure::UnknownSymbolKind { name: "Gadget".to_string() })
    );
    let values = vec![text("Function"), text("Method"), text("Gadget")];
    assert_eq!(
        convert_symbol_kinds(&values),
        Err(Failure::UnknownSymbolKind { name: "Gadget".to_string() })
    );
}

#[test]
fn the_first_failure_of_a_conversion_is_reported() {
    let values = vec![
        text("Function"),
        HostValue::Other { value_type: "number".to_string() },
        text("Gadget"),
    ];
    assert_eq!(
        convert_symbol_kinds(&values),
        Err(Failure::ExpectedString { target: Target::SymbolKind, found: "number".to_string() })
    );
    let values = vec![text("Widget"), text("Gadget")];
    assert_eq!(
        convert_symbol_kinds(&values),
        Err(Failure::UnknownSymbolKind { name: "Widget".to_string() })
    );
}

#[test]
fn context_without_arguments_narrows_nothing() {
    let context = create_context(None, None);
    assert_eq!(context, Context::new());
    assert_eq!(context.current_file(), None);
    assert_eq!(context.symbol_kinds(), None);
}

#[test]
fn context_with_a_current_file_only() {
    let context = create_context(Some("/proj/src/main.rs".to_string()), None);
    assert_eq!(context.current_file(), Some(&"/proj/src/main.rs".to_string()));
    assert_eq!(context.symbol_kinds(), None);
}

#[test]
fn context_with_kinds_only() {
    let context = create_context(None, Some(vec![kind("Function"), kind("Method")]));
    assert_eq!(context.current_file(), None);
    assert_eq!(context.symbol_kinds(), Some(&vec![kind("Function"), kind("Method")]));
}

#[test]
fn context_with_both() {
    let context = create_context(Some("a.lua".to_string()), Some(vec![kind("Variable")]));
    assert_eq!(context.current_file(), Some(&"a.lua".to_string()));
    assert_eq!(context.symbol_kinds(), Some(&vec![kind("Variable")]));
    let built = Context::new()
        .with_symbol_kinds(vec![kind("Variable")])
        .with_current_file("a.lua".to_string());
    assert_eq!(context, built);
}

#[test]
fn context_with_an_empty_list_of_kinds_accepts_none() {
    let context = create_context(None, Some(Vec::new()));
    assert_eq!(context.symbol_kinds(), Some(&Vec::new()));
    assert!(context != Context::new());
}

#[test]
fn context_builder_replaces_what_was_set() {
    let context = Context::new()
        .with_current_file("a.rs".to_string())
        .with_current_file("b.rs".to_string())
        .with_symbol_kinds(vec![kind("Enum")])
        .with_symbol_kinds(vec![kind("Struct")]);
    assert_eq!(context.current_file(), Some(&"b.rs".to_string()));
    assert_eq!(context.symbol_kinds(), Some(&vec![kind("Struct")]));
}

#[test]
fn context_from_the_names_accepts_exactly_those_kinds() {
    let values = vec![text("Function"), text("Constant")];
    let kinds = convert_symbol_kinds(&values).unwrap();
    let context = create_context(None, Some(kinds));
    let accepted: Vec<&str> =
        context.symbol_kinds().unwrap().iter().map(|kind| kind.name()).collect();
    assert_eq!(accepted, vec!["Function", "Constant"]);
    for name in ["Method", "Struct", "Unknown"] {
        assert!(!accepted.contains(&name));
    }
}

#[test]
fn resolved_symbol_is_a_snapshot_of_its_fields() {
    let symbol = ResolvedSymbol::new(
        17,
        kind("Function"),
        "parse_input".to_string(),
        "/proj/src/parse.rs".to_string(),
        -250,
        12,
        5,
        40,
        2,
    );
    assert_eq!(symbol.id(), 17);
    assert_eq!(symbol.kind().name(), "Function");
    assert_eq!(symbol.name(), "parse_input");
    assert_eq!(symbol.path(), "/proj/src/parse.rs");
    assert_eq!(symbol.score(), -250);
    assert_eq!(symbol.start_line(), 12);
    assert_eq!(symbol.start_column(), 5);
    assert_eq!(symbol.end_line(), 40);
    assert_eq!(symbol.end_column(), 2);
}

#[test]
fn resolver_keeps_its_directories() {
    let resolver = get_resolver(vec!["/proj/src".to_string(), "/proj/lib".to_string()]);
    assert_eq!(resolver.directories(), &vec!["/proj/src".to_string(), "/proj/lib".to_string()]);
    let resolver = get_resolver(Vec::new());
    assert!(resolver.directories().is_empty());
}

#[test]
fn query_hands_text_and_context_on_and_gives_a_fresh_stream() {
    let resolver = get_resolver(vec!["/proj/src".to_string()]);
    let context = create_context(Some("x.rs".to_string()), Some(vec![kind("Function")]));
    let (query, stream) = resolver.query("parseInput".to_string(), context);
    assert_eq!(query.text, "parseInput");
    assert_eq!(
        query.context,
        create_context(Some("x.rs".to_string()), Some(vec![kind("Function")]))
    );
    assert!(!stream.is_exhausted());
}

#[test]
fn query_with_an_empty_text_never_fails() {
    let resolver = get_resolver(Vec::new());
    let (query, stream) = resolver.query(String::new(), Context::new());
    assert_eq!(query.text, "");
    assert_eq!(query.context, Context::new());
    assert!(!stream.is_exhausted());
}

#[test]
fn stream_hands_out_items_in_producer_order() {
    let mut stream: ReceiverStream<u32> = ReceiverStream::new();
    assert_eq!(stream.next(Polled::Item(3)), Step::Done(Some(3)));
    assert_eq!(stream.next(Polled::Pending), Step::NotYet);
    assert_eq!(stream.next(Polled::Item(1)), Step::Done(Some(1)));
    assert_eq!(stream.next(Polled::Item(2)), Step::Done(Some(2)));
    assert!(!stream.is_exhausted());
    assert_eq!(stream.next(Polled::Closed), Step::Done(None));
    assert!(stream.is_exhausted());
}

#[test]
fn stream_that_is_pending_is_not_exhausted() {
    let mut stream: ReceiverStream<u32> = ReceiverStream::new();
    for _ in 0..5 {
        assert_eq!(stream.next(Polled::Pending), Step::NotYet);
        assert!(!stream.is_exhausted());
    }
    assert_eq!(stream.next(Polled::Item(9)), Step::Done(Some(9)));
}

#[test]
fn stream_that_closes_at_once_is_empty() {
    let mut stream: ReceiverStream<ResolvedSymbol> = ReceiverStream::new();
    assert_eq!(stream.next(Polled::Closed), Step::Done(None));
    assert!(stream.is_exhausted());
}

#[test]
fn exhausted_stream_stays_exhausted() {
    let mut stream: ReceiverStream<u32> = ReceiverStream::new();
    assert_eq!(stream.next(Polled::Item(1)), Step::Done(Some(1)));
    assert_eq!(stream.next(Polled::Closed), Step::Done(None));
    for round in 0..30 {
        let polled = match round % 3 {
            0 => Polled::Closed,
            1 => Polled::Pending,
            _ => Polled::Item(round),
        };
        assert_eq!(stream.next(polled), Step::Done(None));
        assert!(stream.is_exhausted());
    }
}

#[test]
fn stream_of_symbols_hands_each_symbol_on_unchanged() {
    let mut stream: ReceiverStream<ResolvedSymbol> = ReceiverStream::new();
    let step = stream.next(Polled::Item(symbol(1, "Method", "run")));
    assert_eq!(step, Step::Done(Some(symbol(1, "Method", "run"))));
    let step = stream.next(Polled::Item(symbol(2, "Struct", "Runner")));
    match step {
        Step::Done(Some(found)) => {
            assert_eq!(found.id(), 2);
            assert_eq!(found.kind().name(), "Struct");
            assert_eq!(found.name(), "Runner");
            assert_eq!(found.score(), 98);
        }
        other => panic!("expected a symbol, got {:?}", other),
    }
}

#[test]
fn resolver_works_on_the_query_engine() {
    assert_eq!(get_resolver(Vec::new()).domain(), Domain::Query);
}

#[test]
fn copies_are_equal_to_what_they_were_made_from() {
    let function = kind("Function");
    assert_eq!(function.clone(), function);
    let context = create_context(Some("a.rs".to_string()), Some(vec![kind("Enum"), kind("Union")]));
    assert_eq!(context.clone(), context);
    assert_eq!(Context::new().clone(), Context::new());
    let found = symbol(5, "Constant", "LIMIT");
    assert_eq!(found.clone(), found);
}
