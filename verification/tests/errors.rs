use anomaly::Context;
use anomaly::Error;
use anomaly::Kind;
use anomaly::Source;

#[derive(Debug, Clone, Copy, PartialEq, Eq)]
enum TestKind {
    ParseFailure,
    UnexpectedToken,
}

impl Kind for TestKind {
    fn to_display(&self) -> String {
        match self {
            TestKind::ParseFailure => String::from("ParseFailure"),
            TestKind::UnexpectedToken => String::from("UnexpectedToken"),
        }
    }
}

#[test]
fn kind_only_error_displays_kind() {
    let e = Error::from_kind(TestKind::ParseFailure);
    assert_eq!(e.kind(), &TestKind::ParseFailure);
    assert_eq!(e.display_string(), "ParseFailure");
    assert!(e.source().is_none());
    assert_eq!(e.chain_len(), 0);
}

#[test]
fn context_with_source_displays_chain_head() {
    let s = Source::new(String::from("UnexpectedToken"), None);
    let c = Context::new(TestKind::ParseFailure, Some(s));
    assert_eq!(c.display_string(), "ParseFailure: UnexpectedToken");
}

#[test]
fn display_does_not_flatten_deeper_causes() {
    let root = Source::new(String::from("disk full"), None);
    let mid = Source::new(String::from("write failed"), Some(root));
    let c = Context::new(TestKind::ParseFailure, Some(mid));
    assert_eq!(c.display_string(), "ParseFailure: write failed");
}

#[test]
fn chain_walk_counts_links() {
    let root = Source::new(String::from("disk full"), None);
    let mid = Source::new(String::from("write failed"), Some(root));
    let e = Error::from_context(Context::new(TestKind::ParseFailure, Some(mid)));
    assert_eq!(e.chain_len(), 2);

    let mut steps: usize = 0;
    let mut cur = e.source();
    while let Some(s) = cur {
        steps += 1;
        cur = s.source();
    }
    assert_eq!(steps, 2);
}

#[test]
fn source_message_and_walk() {
    let s = Source::new(String::from("boom"), None);
    assert_eq!(s.message(), "boom");
    assert!(s.source().is_none());
    assert_eq!(s.chain_len(), 1);

    let outer = Source::new(String::from("outer"), Some(s));
    assert_eq!(outer.message(), "outer");
    assert_eq!(outer.chain_len(), 2);
    let inner = outer.source().expect("outer must have a cause");
    assert_eq!(inner.message(), "boom");
    assert!(inner.source().is_none());
}

#[test]
fn kind_to_source_is_one_link() {
    let s = TestKind::UnexpectedToken.to_source();
    assert_eq!(s.message(), "UnexpectedToken");
    assert!(s.source().is_none());
    assert_eq!(s.chain_len(), 1);
}

#[test]
fn error_delegates_exactly() {
    let s = Source::new(String::from("UnexpectedToken"), None);
    let c = Context::new(TestKind::ParseFailure, Some(s));
    let kind_before = *c.kind();
    let display_before = c.display_string();
    let trace_before = format!("{:?}", c.backtrace().expect("trace captured"));
    let source_before = String::from(c.source().expect("source present").message());
    let chain_before = c.chain_len();

    let e = Error::from_context(c);
    assert_eq!(*e.kind(), kind_before);
    assert_eq!(e.display_string(), display_before);
    assert_eq!(format!("{:?}", e.backtrace().expect("trace kept")), trace_before);
    assert_eq!(
        String::from(e.source().expect("source kept").message()),
        source_before
    );
    assert_eq!(e.chain_len(), chain_before);
    assert_eq!(*e.context().kind(), kind_before);
    assert_eq!(e.context().display_string(), display_before);
}

#[test]
fn context_from_kind_is_rootless() {
    let c = Context::from_kind(TestKind::UnexpectedToken);
    assert_eq!(c.kind(), &TestKind::UnexpectedToken);
    assert!(c.source().is_none());
    assert_eq!(c.display_string(), "UnexpectedToken");
    assert_eq!(c.chain_len(), 0);
}

#[test]
fn empty_source_message_keeps_separator() {
    let s = Source::new(String::new(), None);
    let c = Context::new(TestKind::ParseFailure, Some(s));
    assert_eq!(c.display_string(), "ParseFailure: ");
}

#[test]
fn construction_captures_a_trace() {
    let c = Context::new(TestKind::ParseFailure, None);
    assert!(c.backtrace().is_some());
    let e = Error::from_kind(TestKind::UnexpectedToken);
    assert!(e.backtrace().is_some());
}

fn trace_from_shallow_site() -> String {
    let c = Context::new(TestKind::ParseFailure, None);
    format!("{:?}", c.backtrace().expect("trace captured"))
}

fn trace_from_deeper_site(depth: usize) -> String {
    if std::hint::black_box(depth) == 0 {
        let c = Context::new(TestKind::ParseFailure, None);
        format!("{:?}", c.backtrace().expect("trace captured"))
    } else {
        let s = trace_from_deeper_site(depth - 1);
        std::hint::black_box(s)
    }
}

#[test]
fn distinct_call_sites_distinct_traces() {
    let a = trace_from_shallow_site();
    let b = trace_from_deeper_site(5);
    assert_ne!(a, b);
}

#[test]
fn scenario_parse_failure_with_unexpected_token() {
    let boxed = TestKind::UnexpectedToken.to_source();
    let e = Error::from_context(Context::new(TestKind::ParseFailure, Some(boxed)));
    assert_eq!(e.display_string(), "ParseFailure: UnexpectedToken");

    let mut steps: usize = 0;
    let mut cur = e.source();
    while let Some(s) = cur {
        steps += 1;
        cur = s.source();
    }
    assert_eq!(steps, 1);
}
