//! Reports for the terminal: pieces of text, each with its style.

use crate::text;
use vstd::prelude::*;
use vstd::string::*;

verus! {

/// How a piece of text is to look.
#[derive(Debug, Clone, Copy, PartialEq, Eq, Structural)]
pub enum Style {
    Plain,
    Bold,
    Dimmed,
    White,
    Red,
    Green,
    Yellow,
    Cyan,
    BoldRed,
    BoldGreen,
    BoldYellow,
    BoldMagenta,
    BoldCyan,
    BoldUnderline,
}

/// A piece of text and its style.
#[derive(Debug, Clone)]
pub struct Span {
    pub text: String,
    pub style: Style,
}

/// What a [`Span`] holds.
#[verifier::ext_equal]
pub struct SpanView {
    pub text: Seq<char>,
    pub style: Style,
}

impl View for Span {
    type V = SpanView;

    open spec fn view(&self) -> SpanView {
        SpanView { text: self.text@, style: self.style }
    }
}

/// What the pieces of a report hold.
pub open spec fn span_views(spans: Seq<Span>) -> Seq<SpanView> {
    Seq::new(spans.len(), |i: int| spans[i]@)
}

/// A piece of text as it is.
pub open spec fn plain(text: Seq<char>) -> SpanView {
    SpanView { text, style: Style::Plain }
}

/// A piece of text in a style.
pub open spec fn styled(text: Seq<char>, style: Style) -> SpanView {
    SpanView { text, style }
}

pub fn plain_span(text: &str) -> (r: Span)
    ensures
        r@ == plain(text@),
{
    Span { text: text.to_owned(), style: Style::Plain }
}

pub fn styled_span(text: &str, style: Style) -> (r: Span)
    ensures
        r@ == styled(text@, style),
{
    Span { text: text.to_owned(), style }
}

/// Adds a piece of text to a report.
pub fn put(out: &mut Vec<Span>, text: &str)
    ensures
        span_views(final(out)@) == span_views(old(out)@).push(plain(text@)),
{
    out.push(plain_span(text));
    assert(span_views(out@) =~= span_views(old(out)@).push(plain(text@)));
}

/// Adds a piece of text in a style to a report.
pub fn put_styled(out: &mut Vec<Span>, text: &str, style: Style)
    ensures
        span_views(final(out)@) == span_views(old(out)@).push(styled(text@, style)),
{
    out.push(styled_span(text, style));
    assert(span_views(out@) =~= span_views(old(out)@).push(styled(text@, style)));
}

/// Adds a piece to a report.
pub fn put_span(out: &mut Vec<Span>, span: Span)
    ensures
        span_views(final(out)@) == span_views(old(out)@).push(span@),
{
    out.push(span);
    assert(span_views(out@) =~= span_views(old(out)@).push(span@));
}

/// Adds the pieces of one report to another.
pub fn put_all(out: &mut Vec<Span>, more: Vec<Span>)
    ensures
        span_views(final(out)@) == span_views(old(out)@) + span_views(more@),
{
    let mut rest = more;
    out.append(&mut rest);
    assert(span_views(out@) =~= span_views(old(out)@) + span_views(more@));
}

/// The escape sequence that ends a style.
pub const RESET: &'static str = "\u{1b}[0m";

/// The number of a colour in an escape sequence.
pub open spec fn color_code(name: Seq<char>) -> Option<Seq<char>> {
    if name == "red"@ {
        Some("31"@)
    } else if name == "green"@ {
        Some("32"@)
    } else if name == "yellow"@ {
        Some("33"@)
    } else if name == "magenta"@ {
        Some("35"@)
    } else if name == "cyan"@ {
        Some("36"@)
    } else if name == "white"@ {
        Some("37"@)
    } else {
        None
    }
}

/// The escape sequence that begins a style.
pub open spec fn start_of(codes: Seq<char>) -> Seq<char> {
    "\u{1b}["@ + codes + "m"@
}

/// A text with the beginning of a style behind each of the reset sequences in it.
pub open spec fn restarted(codes: Seq<char>, text: Seq<char>) -> Seq<char> {
    text::joined(text::pieces_of(text, RESET@), RESET@ + start_of(codes))
}

/// What a text with these codes may come to: the text between escape sequences, in which the
/// style begins anew behind each reset, or, where the terminal shows no colours, the text
/// itself.
pub open spec fn painted_with(codes: Seq<char>, text: Seq<char>, out: Seq<char>) -> bool {
    out == text || out == start_of(codes) + restarted(codes, text) + RESET@
}

/// `colored::Colorize::color`, then `to_string`: the text in one of the named colours.
/// Whether colours are shown at all rests on the terminal and the environment, so the result
/// is one of two. Where they are, the crate repeats the start of the style behind every
/// reset sequence that the text itself holds.
#[verifier::external_body]
pub(crate) fn in_color(text: &str, name: &str) -> (r: String)
    ensures
        color_code(name@) matches Some(code) ==> painted_with(
            code,
            text@,
            r@,
        ),
{
    colored::Colorize::color(text, name).to_string()
}

/// `colored::Colorize::color`, then `bold` and `to_string`, with what [`in_color`] says of
/// colours and reset sequences.
#[verifier::external_body]
pub(crate) fn in_bold_color(text: &str, name: &str) -> (r: String)
    ensures
        color_code(name@) matches Some(code) ==> painted_with(
            "1;"@ + code,
            text@,
            r@,
        ),
{
    colored::Colorize::bold(colored::Colorize::color(text, name)).to_string()
}

/// `colored::Colorize::bold`, then `to_string`, with what [`in_color`] says of colours and
/// reset sequences.
#[verifier::external_body]
pub(crate) fn in_bold(text: &str) -> (r: String)
    ensures
        painted_with("1"@, text@, r@),
{
    colored::Colorize::bold(text).to_string()
}

/// `colored::Colorize::dimmed`, then `to_string`, with what [`in_color`] says of colours and
/// reset sequences.
#[verifier::external_body]
pub(crate) fn in_dimmed(text: &str) -> (r: String)
    ensures
        painted_with("2"@, text@, r@),
{
    colored::Colorize::dimmed(text).to_string()
}

/// `colored::Colorize::bold`, then `underline` and `to_string`, with what [`in_color`] says
/// of colours and reset sequences.
#[verifier::external_body]
pub(crate) fn in_bold_underline(text: &str) -> (r: String)
    ensures
        painted_with("1;4"@, text@, r@),
{
    colored::Colorize::underline(colored::Colorize::bold(text)).to_string()
}

impl Style {
    /// The codes of a style in an escape sequence.
    pub open spec fn codes(self) -> Seq<char> {
        match self {
            Style::Plain => Seq::empty(),
            Style::Bold => "1"@,
            Style::Dimmed => "2"@,
            Style::White => "37"@,
            Style::Red => "31"@,
            Style::Green => "32"@,
            Style::Yellow => "33"@,
            Style::Cyan => "36"@,
            Style::BoldRed => "1;"@ + "31"@,
            Style::BoldGreen => "1;"@ + "32"@,
            Style::BoldYellow => "1;"@ + "33"@,
            Style::BoldMagenta => "1;"@ + "35"@,
            Style::BoldCyan => "1;"@ + "36"@,
            Style::BoldUnderline => "1;4"@,
        }
    }
}

/// Whether a text is what a piece of a report may look like. A plain piece stands as it is.
pub open spec fn is_painting(span: SpanView, out: Seq<char>) -> bool {
    if span.style is Plain {
        out == span.text
    } else {
        painted_with(span.style.codes(), span.text, out)
    }
}

/// Paints one piece of a report.
pub fn paint(span: &Span) -> (r: String)
    ensures
        is_painting(span@, r@),
{
    proof {
        lemma_colors_differ();
    }
    match span.style {
        Style::Plain => span.text.clone(),
        Style::Bold => in_bold(&span.text),
        Style::Dimmed => in_dimmed(&span.text),
        Style::White => in_color(&span.text, "white"),
        Style::Red => in_color(&span.text, "red"),
        Style::Green => in_color(&span.text, "green"),
        Style::Yellow => in_color(&span.text, "yellow"),
        Style::Cyan => in_color(&span.text, "cyan"),
        Style::BoldRed => in_bold_color(&span.text, "red"),
        Style::BoldGreen => in_bold_color(&span.text, "green"),
        Style::BoldYellow => in_bold_color(&span.text, "yellow"),
        Style::BoldMagenta => in_bold_color(&span.text, "magenta"),
        Style::BoldCyan => in_bold_color(&span.text, "cyan"),
        Style::BoldUnderline => in_bold_underline(&span.text),
    }
}

proof fn lemma_colors_differ()
    ensures
        color_code("red"@) == Some("31"@),
        color_code("green"@) == Some("32"@),
        color_code("yellow"@) == Some("33"@),
        color_code("magenta"@) == Some("35"@),
        color_code("cyan"@) == Some("36"@),
        color_code("white"@) == Some("37"@),
{
    reveal_strlit("red");
    reveal_strlit("green");
    reveal_strlit("yellow");
    reveal_strlit("magenta");
    reveal_strlit("cyan");
    reveal_strlit("white");
    assert("red"@[0] == 'r' && "green"@[0] == 'g' && "yellow"@[0] == 'y' && "magenta"@[0] == 'm'
        && "cyan"@[0] == 'c' && "white"@[0] == 'w');
}

/// Texts one behind the other.
pub open spec fn run_of(parts: Seq<Seq<char>>) -> Seq<char>
    decreases parts.len(),
{
    if parts.len() == 0 {
        Seq::empty()
    } else {
        run_of(parts.drop_last()) + parts.last()
    }
}

/// Whether each text is what its piece of a report may look like.
pub open spec fn are_paintings(spans: Seq<SpanView>, parts: Seq<Seq<char>>) -> bool {
    parts.len() == spans.len() && forall|i: int|
        0 <= i < spans.len() ==> is_painting(spans[i], #[trigger] parts[i])
}

/// Whether a text is what a report may look like.
pub open spec fn is_rendering(spans: Seq<SpanView>, out: Seq<char>) -> bool {
    exists|parts: Seq<Seq<char>>| #[trigger] are_paintings(spans, parts) && out == run_of(parts)
}

/// Paints a report.
pub fn render(spans: &Vec<Span>) -> (r: String)
    ensures
        is_rendering(span_views(spans@), r@),
{
    let ghost all = span_views(spans@);
    let ghost mut parts: Seq<Seq<char>> = Seq::empty();
    let mut out = String::new();
    let mut i: usize = 0;
    assert(out@ =~= run_of(parts));
    while i < spans.len()
        invariant
            i <= spans@.len(),
            all == span_views(spans@),
            parts.len() == i,
            forall|k: int| 0 <= k < i ==> is_painting(all[k], #[trigger] parts[k]),
            out@ == run_of(parts),
        decreases spans@.len() - i,
    {
        let painted = paint(&spans[i]);
        out = out.concat(painted.as_str());
        proof {
            let before = parts;
            parts = parts.push(painted@);
            assert(parts.drop_last() =~= before);
            assert(all[i as int] == spans@[i as int]@);
        }
        i += 1;
    }
    assert(are_paintings(all, parts));
    out
}

/// The text of a report without its styles.
pub open spec fn bare_text(spans: Seq<SpanView>) -> Seq<char>
    decreases spans.len(),
{
    if spans.len() == 0 {
        Seq::empty()
    } else {
        bare_text(spans.drop_last()) + spans.last().text
    }
}

/// A report may always look like its bare text.
pub proof fn law_bare_text_is_a_rendering(spans: Seq<SpanView>)
    ensures
        is_rendering(spans, bare_text(spans)),
{
    let parts = Seq::new(spans.len(), |i: int| spans[i].text);
    assert(are_paintings(spans, parts));
    lemma_run_of_texts(spans);
}

proof fn lemma_run_of_texts(spans: Seq<SpanView>)
    ensures
        run_of(Seq::new(spans.len(), |i: int| spans[i].text)) == bare_text(spans),
    decreases spans.len(),
{
    let parts = Seq::new(spans.len(), |i: int| spans[i].text);
    if spans.len() > 0 {
        let init = spans.drop_last();
        lemma_run_of_texts(init);
        assert(parts.drop_last() =~= Seq::new(init.len(), |i: int| init[i].text));
    }
}

/// A text without a reset sequence is not changed inside.
proof fn lemma_nothing_restarts(codes: Seq<char>, text: Seq<char>)
    requires
        !text::contains_text(text, RESET@),
    ensures
        restarted(codes, text) == text,
{
    assert(text.skip(0) =~= text);
}

/// Every piece of a report stands in whatever the report looks like, unless it holds a reset
/// sequence, behind which a style begins anew.
pub proof fn law_rendering_shows_every_piece(spans: Seq<SpanView>, out: Seq<char>, i: int)
    requires
        is_rendering(spans, out),
        0 <= i < spans.len(),
        spans[i].style is Plain || !text::contains_text(spans[i].text, RESET@),
    ensures
        text::contains_text(out, spans[i].text),
{
    let parts = choose|parts: Seq<Seq<char>>| #[trigger]
        are_paintings(spans, parts) && out == run_of(parts);
    let text = spans[i].text;
    assert(is_painting(spans[i], parts[i]));
    let start = start_of(spans[i].style.codes());
    if !(spans[i].style is Plain) {
        lemma_nothing_restarts(spans[i].style.codes(), text);
    }
    let (pre, post) = if parts[i] == text {
        (Seq::<char>::empty(), Seq::<char>::empty())
    } else {
        (start, RESET@)
    };
    assert(parts[i] =~= pre + text + post);
    lemma_part_of_run(parts, i);
    let (before, after) = choose|before: Seq<char>, after: Seq<char>|
        out == #[trigger] (before + parts[i] + after);
    assert(out =~= (before + pre) + text + (post + after));
    lemma_found_between(before + pre, text, post + after);
}

proof fn lemma_part_of_run(parts: Seq<Seq<char>>, i: int)
    requires
        0 <= i < parts.len(),
    ensures
        exists|before: Seq<char>, after: Seq<char>|
            run_of(parts) == #[trigger] (before + parts[i] + after),
    decreases parts.len(),
{
    let init = parts.drop_last();
    if i == parts.len() - 1 {
        assert(run_of(parts) =~= run_of(init) + parts[i] + Seq::<char>::empty());
    } else {
        lemma_part_of_run(init, i);
        let (before, after) = choose|before: Seq<char>, after: Seq<char>|
            run_of(init) == #[trigger] (before + init[i] + after);
        assert(run_of(parts) =~= before + parts[i] + (after + parts.last()));
    }
}

proof fn lemma_found_between(before: Seq<char>, text: Seq<char>, after: Seq<char>)
    ensures
        text::contains_text(before + text + after, text),
{
    let s = before + text + after;
    let at = before.len() as int;
    assert(s.subrange(at, at + text.len()) =~= text);
    assert(text::occurs_at(s, text, at));
    text::lemma_contains_text(s, text);
}

} // verus!
