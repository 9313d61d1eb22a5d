use txt_ml::config::BuiltInStyle;
use txt_ml::config::EditorTheme;
use txt_ml::syntax::decimal;
use txt_ml::syntax::escape_markup;
use txt_ml::syntax::render_line;
use txt_ml::syntax::render_lines;
use txt_ml::syntax::ColoredSpan;
use txt_ml::syntax::SyntaxDetector;

fn span(red: u8, green: u8, blue: u8, text: &str) -> ColoredSpan {
    ColoredSpan { red, green, blue, text: text.to_string() }
}

fn detector() -> SyntaxDetector {
    SyntaxDetector::new(Some("Rust".to_string()), Some("Markdown".to_string()))
}

#[test]
fn angle_brackets_are_escaped() {
    assert_eq!(escape_markup("a < b > c"), "a &lt; b &gt; c");
    assert_eq!(escape_markup("<<>>"), "&lt;&lt;&gt;&gt;");
    assert_eq!(escape_markup("Vec<Option<u8>>"), "Vec&lt;Option&lt;u8&gt;&gt;");
}

#[test]
fn other_characters_are_kept() {
    assert_eq!(escape_markup(""), "");
    assert_eq!(escape_markup("plain"), "plain");
    assert_eq!(escape_markup("a & b \"c\" 'd'"), "a & b \"c\" 'd'");
    assert_eq!(escape_markup("&lt;"), "&lt;");
    assert_eq!(escape_markup("é→ü\t"), "é→ü\t");
}

#[test]
fn colour_components_in_decimal() {
    assert_eq!(decimal(0), "0");
    assert_eq!(decimal(7), "7");
    assert_eq!(decimal(9), "9");
    assert_eq!(decimal(10), "10");
    assert_eq!(decimal(42), "42");
    assert_eq!(decimal(99), "99");
    assert_eq!(decimal(100), "100");
    assert_eq!(decimal(101), "101");
    assert_eq!(decimal(110), "110");
    assert_eq!(decimal(200), "200");
    assert_eq!(decimal(255), "255");
}

#[test]
fn every_component_is_written_as_std_writes_it() {
    for n in 0..=255u8 {
        assert_eq!(decimal(n), n.to_string());
    }
}

#[test]
fn span_becomes_a_coloured_element() {
    assert_eq!(
        span(192, 197, 206, "fn").markup(),
        "<span style=\"color: rgb(192, 197, 206)\">fn</span>"
    );
    assert_eq!(
        span(0, 5, 255, "a<b>").markup(),
        "<span style=\"color: rgb(0, 5, 255)\">a&lt;b&gt;</span>"
    );
    assert_eq!(span(1, 2, 3, "").markup(), "<span style=\"color: rgb(1, 2, 3)\"></span>");
}

#[test]
fn line_is_its_spans_and_a_line_feed() {
    let spans = vec![span(1, 2, 3, "let "), span(40, 50, 60, "x")];
    assert_eq!(
        render_line(&spans),
        "<span style=\"color: rgb(1, 2, 3)\">let </span><span style=\"color: rgb(40, 50, 60)\">x</span>\n"
    );
    assert_eq!(render_line(&Vec::new()), "\n");
}

#[test]
fn lines_follow_one_another() {
    let lines = vec![vec![span(1, 1, 1, "a")], Vec::new(), vec![span(2, 2, 2, ">")]];
    assert_eq!(
        render_lines(&lines),
        "<span style=\"color: rgb(1, 1, 1)\">a</span>\n\n<span style=\"color: rgb(2, 2, 2)\">&gt;</span>\n"
    );
    assert_eq!(render_lines(&Vec::new()), "");
}

#[test]
fn extensions_name_their_syntax() {
    let detector = detector();
    assert_eq!(detector.detect_from_extension("rs"), "Rust");
    assert_eq!(detector.detect_from_extension("md"), "Markdown");
    assert_eq!(detector.detect_from_extension("txt"), "Plain Text");
}

#[test]
fn unknown_extensions_are_plain_text() {
    let detector = SyntaxDetector::new(None, None);
    assert_eq!(detector.detect_from_extension("py"), "Plain Text");
    assert_eq!(detector.detect_from_extension(""), "Plain Text");
    assert_eq!(detector.detect_from_extension("RS"), "Plain Text");
    assert_eq!(detector.detect_from_extension("rs "), "Plain Text");
    assert_eq!(detector.detect_from_extension("rs"), "Rust");
}

#[test]
fn rust_is_recognised_by_its_text() {
    let detector = detector();
    assert_eq!(detector.detect_from_content("fn main() {}"), "Rust");
    assert_eq!(detector.detect_from_content("// x\nuse std::fmt;\n"), "Rust");
    assert_eq!(detector.detect_from_content("because of this"), "Rust");
}

#[test]
fn markdown_is_recognised_by_its_text() {
    let detector = detector();
    assert_eq!(detector.detect_from_content("# Title\n"), "Markdown");
    assert_eq!(detector.detect_from_content("* item"), "Markdown");
    assert_eq!(detector.detect_from_content("```\ncode\n```"), "Markdown");
}

#[test]
fn rust_is_looked_for_before_markdown() {
    let detector = detector();
    assert_eq!(detector.detect_from_content("# Title\nuse this"), "Rust");
}

#[test]
fn other_text_is_plain() {
    let detector = detector();
    assert_eq!(detector.detect_from_content(""), "Plain Text");
    assert_eq!(detector.detect_from_content("hello world"), "Plain Text");
    assert_eq!(detector.detect_from_content("fn main ()"), "Plain Text");
    assert_eq!(detector.detect_from_content("#title *bold*"), "Plain Text");
}

#[test]
fn a_syntax_that_is_not_installed_is_never_picked() {
    let no_rust = SyntaxDetector::new(None, Some("Markdown".to_string()));
    assert_eq!(no_rust.detect_from_content("fn main() {}"), "Plain Text");
    assert_eq!(no_rust.detect_from_content("use x; # y"), "Markdown");
    let no_markdown = SyntaxDetector::new(Some("Rust".to_string()), None);
    assert_eq!(no_markdown.detect_from_content("# Title"), "Plain Text");
    let none = SyntaxDetector::new(None, None);
    assert_eq!(none.detect_from_content("fn main() {} # x"), "Plain Text");
}

#[test]
fn detector_uses_the_names_it_was_given() {
    let detector = SyntaxDetector::new(Some("Rust (2021)".to_string()), Some("MD".to_string()));
    assert_eq!(detector.detect_from_content("use a;"), "Rust (2021)");
    assert_eq!(detector.detect_from_content("* a"), "MD");
    assert_eq!(detector.rust_syntax, Some("Rust (2021)".to_string()));
    assert_eq!(detector.markdown_syntax, Some("MD".to_string()));
}

#[test]
fn themes_have_a_built_in_style() {
    assert_eq!(EditorTheme::Dark.built_in_style(), BuiltInStyle::Dark);
    assert_eq!(EditorTheme::Light.built_in_style(), BuiltInStyle::Light);
    assert_eq!(EditorTheme::Sepia.built_in_style(), BuiltInStyle::Sepia);
    assert_eq!(EditorTheme::Custom("mine.css".to_string()).built_in_style(), BuiltInStyle::Dark);
}
