//! Highlighted text as markup, and the guess at what language a text is in.
//!
//! The colours come from whatever highlighter the editor runs; this module
//! turns coloured stretches of text into HTML and holds the rules by which a
//! syntax is picked.

use vstd::prelude::*;
use vstd::string::StringExecFns;

use crate::optional_text;

verus! {

/// Appends one character to a string.
///
/// Trusted: `String::push`, which appends the character to the end.
#[verifier::external_body]
fn push_char(text: &mut String, c: char)
    ensures
        final(text)@ == old(text)@.push(c),
{
    text.push(c);
}

/// What stands for `c` in markup: the two angle brackets are written as
/// entities, every other character as itself.
pub open spec fn escaped_char(c: char) -> Seq<char> {
    if c == '<' {
        "&lt;"@
    } else if c == '>' {
        "&gt;"@
    } else {
        seq![c]
    }
}

/// `text` with each character replaced by what stands for it in markup.
pub open spec fn escaped_text(text: Seq<char>) -> Seq<char>
    decreases text.len(),
{
    if text.len() == 0 {
        Seq::empty()
    } else {
        escaped_text(text.drop_last()) + escaped_char(text.last())
    }
}

/// Writes the angle brackets of `text` as entities.
pub fn escape_markup(text: &str) -> (escaped: String)
    ensures
        escaped@ == escaped_text(text@),
{
    broadcast use vstd::string::group_string_axioms;

    let mut escaped = String::new();
    for c in it: text.chars()
        invariant
            it.seq() == text@,
            escaped@ == escaped_text(text@.take(it.index())),
    {
        proof {
            let done = text@.take(it.index() + 1);
            assert(done.drop_last() =~= text@.take(it.index()));
            assert(done.last() == c);
        }
        if c == '<' {
            escaped.append("&lt;");
        } else if c == '>' {
            escaped.append("&gt;");
        } else {
            push_char(&mut escaped, c);
            assert(escaped@ =~= escaped_text(text@.take(it.index())) + seq![c]);
        }
    }
    assert(text@.take(text@.len() as int) =~= text@);
    escaped
}

/// The character for the digit `d`.
pub open spec fn digit_char(d: nat) -> char
    recommends
        d < 10,
{
    if d == 0 {
        '0'
    } else if d == 1 {
        '1'
    } else if d == 2 {
        '2'
    } else if d == 3 {
        '3'
    } else if d == 4 {
        '4'
    } else if d == 5 {
        '5'
    } else if d == 6 {
        '6'
    } else if d == 7 {
        '7'
    } else if d == 8 {
        '8'
    } else {
        '9'
    }
}

/// `n` in decimal, without leading zeros.
pub open spec fn decimal_text(n: nat) -> Seq<char>
    decreases n,
{
    if n < 10 {
        seq![digit_char(n)]
    } else {
        decimal_text(n / 10) + seq![digit_char(n % 10)]
    }
}

/// The digit `d` as text.
fn digit(d: u8) -> (text: &'static str)
    requires
        d < 10,
    ensures
        text@ == seq![digit_char(d as nat)],
{
    proof {
        reveal_strlit("0");
        reveal_strlit("1");
        reveal_strlit("2");
        reveal_strlit("3");
        reveal_strlit("4");
        reveal_strlit("5");
        reveal_strlit("6");
        reveal_strlit("7");
        reveal_strlit("8");
        reveal_strlit("9");
    }
    let text = if d == 0 {
        "0"
    } else if d == 1 {
        "1"
    } else if d == 2 {
        "2"
    } else if d == 3 {
        "3"
    } else if d == 4 {
        "4"
    } else if d == 5 {
        "5"
    } else if d == 6 {
        "6"
    } else if d == 7 {
        "7"
    } else if d == 8 {
        "8"
    } else {
        "9"
    };
    assert(text@ =~= seq![digit_char(d as nat)]);
    text
}

/// Writes a colour component in decimal.
pub fn decimal(n: u8) -> (text: String)
    ensures
        text@ == decimal_text(n as nat),
{
    let mut text = String::new();
    if n >= 100 {
        text.append(digit(n / 100));
    }
    if n >= 10 {
        text.append(digit((n / 10) % 10));
    }
    text.append(digit(n % 10));
    proof {
        let value = n as nat;
        reveal_with_fuel(decimal_text, 3);
        if n >= 100 {
            assert(value / 10 / 10 == value / 100);
            assert(text@ =~= decimal_text(value));
        } else if n >= 10 {
            assert(text@ =~= decimal_text(value));
        } else {
            assert(text@ =~= decimal_text(value));
        }
    }
    text
}

/// A stretch of text in one colour.
#[derive(Debug, PartialEq, Eq)]
pub struct ColoredSpan {
    pub red: u8,
    pub green: u8,
    pub blue: u8,
    pub text: String,
}

/// The mathematical value of a [`ColoredSpan`].
pub struct ColoredSpanView {
    pub red: u8,
    pub green: u8,
    pub blue: u8,
    pub text: Seq<char>,
}

impl View for ColoredSpan {
    type V = ColoredSpanView;

    open spec fn view(&self) -> ColoredSpanView {
        ColoredSpanView { red: self.red, green: self.green, blue: self.blue, text: self.text@ }
    }
}

impl DeepView for ColoredSpan {
    type V = ColoredSpanView;

    open spec fn deep_view(&self) -> ColoredSpanView {
        self@
    }
}

impl ColoredSpanView {
    /// The span as an HTML `span` element in its colour.
    pub open spec fn markup(self) -> Seq<char> {
        "<span style=\"color: rgb("@ + decimal_text(self.red as nat) + ", "@ + decimal_text(
            self.green as nat,
        ) + ", "@ + decimal_text(self.blue as nat) + ")\">"@ + escaped_text(self.text)
            + "</span>"@
    }
}

/// The markup of a line: that of its spans, one after the other, and a line feed.
pub open spec fn line_markup(spans: Seq<ColoredSpanView>) -> Seq<char> {
    spans_markup(spans) + seq!['\n']
}

/// The markup of `spans`, one after the other.
pub open spec fn spans_markup(spans: Seq<ColoredSpanView>) -> Seq<char>
    decreases spans.len(),
{
    if spans.len() == 0 {
        Seq::empty()
    } else {
        spans_markup(spans.drop_last()) + spans.last().markup()
    }
}

/// The markup of `lines`, one after the other.
pub open spec fn lines_markup(lines: Seq<Seq<ColoredSpanView>>) -> Seq<char>
    decreases lines.len(),
{
    if lines.len() == 0 {
        Seq::empty()
    } else {
        lines_markup(lines.drop_last()) + line_markup(lines.last())
    }
}

impl ColoredSpan {
    /// The span as an HTML `span` element in its colour.
    pub fn markup(&self) -> (html: String)
        ensures
            html@ == self@.markup(),
    {
        let mut html = String::from_str("<span style=\"color: rgb(");
        html.append(decimal(self.red).as_str());
        html.append(", ");
        html.append(decimal(self.green).as_str());
        html.append(", ");
        html.append(decimal(self.blue).as_str());
        html.append(")\">");
        html.append(escape_markup(self.text.as_str()).as_str());
        html.append("</span>");
        html
    }
}

/// Writes one highlighted line as markup.
pub fn render_line(spans: &Vec<ColoredSpan>) -> (html: String)
    ensures
        html@ == line_markup(spans.deep_view()),
{
    let mut html = String::new();
    let mut i: usize = 0;
    while i < spans.len()
        invariant
            i <= spans.len(),
            html@ == spans_markup(spans.deep_view().take(i as int)),
        decreases spans.len() - i,
    {
        proof {
            let done = spans.deep_view().take(i + 1);
            assert(done.drop_last() =~= spans.deep_view().take(i as int));
            assert(done.last() == spans[i as int]@);
        }
        html.append(spans[i].markup().as_str());
        i += 1;
    }
    assert(spans.deep_view().take(spans.len() as int) =~= spans.deep_view());
    proof {
        reveal_strlit("\n");
        assert("\n"@ =~= seq!['\n']);
    }
    html.append("\n");
    html
}

/// Writes highlighted lines as markup, each line ended by a line feed.
pub fn render_lines(lines: &Vec<Vec<ColoredSpan>>) -> (html: String)
    ensures
        html@ == lines_markup(lines.deep_view()),
{
    let mut html = String::new();
    let mut i: usize = 0;
    while i < lines.len()
        invariant
            i <= lines.len(),
            html@ == lines_markup(lines.deep_view().take(i as int)),
        decreases lines.len() - i,
    {
        proof {
            let done = lines.deep_view().take(i + 1);
            assert(done.drop_last() =~= lines.deep_view().take(i as int));
            assert(done.last() == lines[i as int].deep_view());
        }
        html.append(render_line(&lines[i]).as_str());
        i += 1;
    }
    assert(lines.deep_view().take(lines.len() as int) =~= lines.deep_view());
    html
}

/// Whether `pattern` occurs in `text` as a run of consecutive characters.
pub open spec fn occurs_in(pattern: Seq<char>, text: Seq<char>) -> bool {
    exists|start: int|
        0 <= start && start + pattern.len() <= text.len() && #[trigger] text.subrange(
            start,
            start + pattern.len(),
        ) == pattern
}

/// Whether `pattern` occurs in `text`.
///
/// Trusted: `str::contains` with a string as the pattern, which tells
/// whether the pattern matches a part of the text.
#[verifier::external_body]
fn contains_text(text: &str, pattern: &str) -> (found: bool)
    ensures
        found == occurs_in(pattern@, text@),
{
    text.contains(pattern)
}

/// Whether two texts are the same.
///
/// Trusted: `==` on `str`, which compares the two texts character by character.
#[verifier::external_body]
fn same_text(left: &str, right: &str) -> (same: bool)
    ensures
        same == (left@ == right@),
{
    left == right
}

/// The syntax that goes with a file extension: Rust for `rs`, Markdown for
/// `md`, plain text for `txt` and for every other extension.
pub open spec fn syntax_for_extension(extension: Seq<char>) -> Seq<char> {
    if extension == "rs"@ {
        "Rust"@
    } else if extension == "md"@ {
        "Markdown"@
    } else {
        "Plain Text"@
    }
}

/// Whether `content` looks like Rust source.
pub open spec fn looks_like_rust(content: Seq<char>) -> bool {
    occurs_in("fn main()"@, content) || occurs_in("use "@, content)
}

/// Whether `content` looks like Markdown.
pub open spec fn looks_like_markdown(content: Seq<char>) -> bool {
    occurs_in("# "@, content) || occurs_in("* "@, content) || occurs_in("```"@, content)
}

/// The syntax that goes with `content`, where `rust` and `markdown` are the
/// names of those syntaxes as far as they are installed. Rust is looked for
/// first.
pub open spec fn syntax_for_content(
    content: Seq<char>,
    rust: Option<Seq<char>>,
    markdown: Option<Seq<char>>,
) -> Seq<char> {
    if rust is Some && looks_like_rust(content) {
        rust->0
    } else if markdown is Some && looks_like_markdown(content) {
        markdown->0
    } else {
        "Plain Text"@
    }
}

/// Guesses the syntax of a document from its extension or its text.
pub struct SyntaxDetector {
    /// What the installed syntax for `rs` files is called, if there is one.
    pub rust_syntax: Option<String>,
    /// What the installed syntax for `md` files is called, if there is one.
    pub markdown_syntax: Option<String>,
}

impl SyntaxDetector {
    /// A detector for an installation in which the syntaxes for `rs` and
    /// `md` files have these names.
    pub fn new(rust_syntax: Option<String>, markdown_syntax: Option<String>) -> (detector:
        SyntaxDetector)
        ensures
            detector.rust_syntax == rust_syntax,
            detector.markdown_syntax == markdown_syntax,
    {
        SyntaxDetector { rust_syntax, markdown_syntax }
    }

    /// The syntax that goes with a file extension.
    pub fn detect_from_extension(&self, extension: &str) -> (syntax: String)
        ensures
            syntax@ == syntax_for_extension(extension@),
    {
        if same_text(extension, "rs") {
            String::from_str("Rust")
        } else if same_text(extension, "md") {
            String::from_str("Markdown")
        } else if same_text(extension, "txt") {
            String::from_str("Plain Text")
        } else {
            String::from_str("Plain Text")
        }
    }

    /// The syntax that the text of a document suggests.
    pub fn detect_from_content(&self, content: &str) -> (syntax: String)
        ensures
            syntax@ == syntax_for_content(
                content@,
                optional_text(self.rust_syntax),
                optional_text(self.markdown_syntax),
            ),
    {
        if let Some(name) = &self.rust_syntax {
            if contains_text(content, "fn main()") || contains_text(content, "use ") {
                return name.clone();
            }
        }
        if let Some(name) = &self.markdown_syntax {
            if contains_text(content, "# ") || contains_text(content, "* ") || contains_text(
                content,
                "```",
            ) {
                return name.clone();
            }
        }
        String::from_str("Plain Text")
    }
}

} // verus!
