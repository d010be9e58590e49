use loom_wm::ai::generator::truncate;
use loom_wm::ai::intent::ArrangePattern;
use loom_wm::ai::{AiError, Intent, IntentParser, SuggestionEngine, UiGenerator};
use loom_wm::canvas::{Canvas, NodeType};
use loom_wm::scalar::Scalar;
use loom_wm::text::decimal_string;

fn s(value: f64) -> Scalar {
    Scalar::from_bits(value.to_bits())
}

fn f(value: Scalar) -> f64 {
    f64::from_bits(value.to_bits())
}

#[test]
fn test_truncate_ascii() {
    assert_eq!(truncate("hello world", 8), "hello...");
    assert_eq!(truncate("short", 10), "short");
    assert_eq!(truncate("exact len", 9), "exact len");
}

#[test]
fn test_truncate_utf8() {
    // Japanese characters (3 bytes each)
    assert_eq!(truncate("こんにちは", 10), "こん...");
    // Emoji (4 bytes each)
    assert_eq!(truncate("🎉🎊🎁🎈", 10), "🎉...");
}

#[test]
fn test_truncate_edge_cases() {
    assert_eq!(truncate("ab", 2), "ab");
    assert_eq!(truncate("abc", 3), "abc");
    // With max_len < 4, we just take first max_len chars (no room for "...")
    assert_eq!(truncate("abcd", 3), "abc");
    // With max_len >= 4, we can add "..."
    assert_eq!(truncate("abcdef", 5), "ab...");
}

#[test]
fn test_truncate_without_a_boundary_in_reach() {
    // One byte of room, and the first character takes four.
    assert_eq!(truncate("🎉🎊", 4), "...");
    assert_eq!(truncate("🎉🎊", 7), "🎉...");
    assert_eq!(truncate("🎉🎊", 8), "🎉🎊");
    assert_eq!(truncate("", 0), "");
    assert_eq!(truncate("abc", 0), "");
    // Below four, characters count, not bytes.
    assert_eq!(truncate("こんにちは", 2), "こん");
    assert_eq!(truncate("こんにちは", 3), "こんに");
}

#[test]
fn test_generator_allocates_ids_from_1000() {
    let mut generator = UiGenerator::new();
    assert_eq!(generator.allocate_node_id(), Some(1000));
    assert_eq!(generator.allocate_node_id(), Some(1001));
    let node = generator.generate_note("remember", s(1.0), s(2.0)).unwrap();
    assert_eq!(node.id, 1002);
    assert!(matches!(&node.node_type, NodeType::Note { text } if text == "remember"));
    assert_eq!((f(node.x), f(node.y)), (1.0, 2.0));
    assert_eq!((f(node.width), f(node.height), f(node.scale)), (300.0, 200.0, 1.0));
    assert!(node.label.is_none());
}

#[test]
fn test_generated_node_is_labelled_with_the_start_of_its_content() {
    let mut generator = UiGenerator::default();
    let content = "A rather long piece of generated content";
    let node = generator.generate_node(content, s(-5.0), s(5.0)).unwrap();
    assert_eq!(node.id, 1000);
    assert!(matches!(&node.node_type, NodeType::Generated { content: c } if c == content));
    assert_eq!((f(node.width), f(node.height)), (400.0, 300.0));
    assert_eq!(node.label.as_deref(), Some("A rather long piece of gene..."));
    let short = generator.generate_node("short", s(0.0), s(0.0)).unwrap();
    assert_eq!(short.id, 1001);
    assert_eq!(short.label.as_deref(), Some("short"));
}

#[test]
fn test_generated_nodes_go_onto_a_canvas() {
    let mut generator = UiGenerator::new();
    let mut canvas = Canvas::new();
    let node = generator.generate_node("content", s(10.0), s(10.0)).unwrap();
    assert!(matches!(canvas.add_node(node), Ok(1000)));
    let far = generator.generate_note("far away", s(2e6), s(0.0)).unwrap();
    assert!(canvas.add_node(far).is_err());
}

fn parse(input: &str) -> Intent {
    IntentParser::new().parse(input).expect("parsing never fails")
}

#[test]
fn test_parse_launch() {
    assert!(matches!(parse("open firefox"), Intent::Launch { app } if app == "firefox"));
    assert!(matches!(parse("launch the  big   app"), Intent::Launch { app } if app == "the big app"));
    assert!(matches!(parse("OPEN Firefox"), Intent::Launch { app } if app == "Firefox"));
    assert!(matches!(parse("open "), Intent::Launch { app } if app.is_empty()));
}

#[test]
fn test_parse_search() {
    assert!(matches!(parse("search rust docs"), Intent::Search { query } if query == "rust docs"));
    assert!(matches!(parse("Find\tmy notes"), Intent::Query { .. }));
    assert!(matches!(parse("find my\tnotes"), Intent::Search { query } if query == "my notes"));
}

#[test]
fn test_parse_arrange_and_query() {
    assert!(matches!(
        parse("please ARRANGE these"),
        Intent::Arrange { pattern: ArrangePattern::Auto }
    ));
    assert!(matches!(parse("reorganize"), Intent::Arrange { pattern: ArrangePattern::Auto }));
    assert!(matches!(parse("open"), Intent::Query { question } if question == "open"));
    assert!(matches!(parse("reopen it"), Intent::Query { question } if question == "reopen it"));
    assert!(matches!(parse(""), Intent::Query { question } if question.is_empty()));
    // The first rule that applies decides.
    assert!(matches!(parse("open arrange"), Intent::Launch { app } if app == "arrange"));
}

#[test]
fn test_classify_takes_what_it_is_given() {
    let words = vec!["open".to_string(), "a".to_string(), "b".to_string()];
    let intent = IntentParser::classify("whatever", "find x", &words);
    assert!(matches!(intent, Intent::Search { query } if query == "a b"));
    let intent = IntentParser::classify("Input", "nothing", &Vec::new());
    assert!(matches!(intent, Intent::Query { question } if question == "Input"));
    let intent = IntentParser::classify("x", "launch ", &Vec::new());
    assert!(matches!(intent, Intent::Launch { app } if app.is_empty()));
}

#[test]
fn test_no_suggestions_yet() {
    let engine = SuggestionEngine::new();
    assert!(engine.analyze(&Canvas::new()).is_empty());
}

#[test]
fn test_ai_error_messages() {
    assert_eq!(AiError::ParseError("x".to_string()).message(), "Failed to parse intent: x");
    assert_eq!(
        AiError::ServiceUnavailable("down".to_string()).message(),
        "AI service unavailable: down"
    );
    assert_eq!(AiError::GenerationFailed(String::new()).message(), "Generation failed: ");
}

#[test]
fn test_decimal() {
    for n in [0u64, 1, 9, 10, 11, 99, 100, 101, 1_000_000, 12_345_678_901_234_567_890, u64::MAX] {
        assert_eq!(decimal_string(n), n.to_string());
    }
}
