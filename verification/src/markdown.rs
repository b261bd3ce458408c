//! Rendering of parsed markdown as HTML.

use vstd::prelude::*;
use vstd::string::StrSliceExecFns;
use crate::text::{decimal, push_decimal, push_text};

verus! {

/// The token of the language that code blocks are highlighted as.
pub const RUST_TOKEN: &'static str = "rust";

/// The token under which code blocks are labelled.
pub const RUNE_TOKEN: &'static str = "rune";

/// A set of syntaxes for highlighting.
#[verifier::external_type_specification]
#[verifier::external_body]
pub struct ExSyntaxSet(syntect::parsing::SyntaxSet);

/// One syntax of a set.
#[verifier::external_type_specification]
#[verifier::external_body]
pub struct ExSyntaxReference(syntect::parsing::SyntaxReference);

/// The tokens that a set of syntaxes knows: those for which
/// `SyntaxSet::find_syntax_by_token` finds a syntax.
pub uninterp spec fn syntax_tokens(set: syntect::parsing::SyntaxSet) -> Set<Seq<char>>;

/// Whether a set of syntaxes has a syntax for plain text: one that
/// `SyntaxSet::find_syntax_by_name` finds under the name `Plain Text`.
pub uninterp spec fn has_plain_text(set: syntect::parsing::SyntaxSet) -> bool;

/// Whether a set of syntaxes is the one that syntect packages: the set
/// that `SyntaxSet::load_defaults_newlines` loads. Its contexts decode and
/// its patterns were tested when it was packaged, which is what syntect
/// expects of a set when it parses with it.
pub uninterp spec fn packaged(set: syntect::parsing::SyntaxSet) -> bool;

/// Whether a syntax is one of the syntaxes of a set.
pub uninterp spec fn syntax_of(set: syntect::parsing::SyntaxSet, syntax: syntect::parsing::SyntaxReference) -> bool;

/// What `pulldown_cmark::escape::escape_href` writes for a string.
pub uninterp spec fn href_escaped(s: Seq<char>) -> Seq<char>;

/// What `str::trim` returns for a string.
pub uninterp spec fn trimmed(s: Seq<char>) -> Seq<char>;

/// What a character is written as in HTML text: the four special
/// characters as their entities, every other character as itself.
pub open spec fn html_escape(c: char) -> Seq<char> {
    if c == '"' {
        "&quot;"@
    } else if c == '&' {
        "&amp;"@
    } else if c == '<' {
        "&lt;"@
    } else if c == '>' {
        "&gt;"@
    } else {
        seq![c]
    }
}

/// A string with its characters written as in HTML text.
pub open spec fn html_escaped(s: Seq<char>) -> Seq<char>
    decreases s.len(),
{
    if s.len() == 0 {
        Seq::empty()
    } else {
        html_escaped(s.drop_last()) + html_escape(s.last())
    }
}

/// Appends a string to `out` with the special characters of HTML escaped.
///
/// Trusted: calls `pulldown_cmark::escape::escape_html`, which writes the
/// string and replaces each of the bytes `"`, `&`, `<` and `>` by
/// `&quot;`, `&amp;`, `&lt;` and `&gt;`. Writing to a string cannot fail.
#[verifier::external_body]
fn escape_html(out: &mut String, s: &str)
    ensures
        final(out)@ == old(out)@ + html_escaped(s@),
{
    pulldown_cmark::escape::escape_html(out, s).ok();
}

/// Appends a string to `out`, escaped for use as a link target.
///
/// Trusted: calls `pulldown_cmark::escape::escape_href`; what it writes
/// depends on the string alone and is named by [`href_escaped`]. Writing
/// to a string cannot fail.
#[verifier::external_body]
fn escape_href(out: &mut String, s: &str)
    ensures
        final(out)@ == old(out)@ + href_escaped(s@),
{
    pulldown_cmark::escape::escape_href(out, s).ok();
}

/// A string without the whitespace at its ends.
///
/// Trusted: calls `str::trim` of the standard library; what it returns
/// depends on the string alone and is named by [`trimmed`].
#[verifier::external_body]
fn trim(s: &str) -> (r: &str)
    ensures
        r@ == trimmed(s@),
{
    s.trim()
}

/// The syntax that a set has for a token.
///
/// Trusted: calls `SyntaxSet::find_syntax_by_token`, which searches the
/// syntaxes of the set by extension and then by name; the tokens for
/// which it finds one are named by [`syntax_tokens`].
#[verifier::external_body]
fn syntax_by_token<'a>(set: &'a syntect::parsing::SyntaxSet, token: &str) -> (r: Option<
    &'a syntect::parsing::SyntaxReference,
>)
    ensures
        r is Some <==> syntax_tokens(*set).contains(token@),
        r matches Some(syntax) ==> syntax_of(*set, *syntax),
{
    set.find_syntax_by_token(token)
}

/// The syntax that a set has for plain text.
///
/// Trusted: calls `SyntaxSet::find_syntax_by_name` with the name
/// `Plain Text`, which searches the syntaxes of the set; whether it finds
/// one is named by [`has_plain_text`].
#[verifier::external_body]
fn plain_text_syntax<'a>(set: &'a syntect::parsing::SyntaxSet) -> (r: Option<
    &'a syntect::parsing::SyntaxReference,
>)
    ensures
        r is Some <==> has_plain_text(*set),
        r matches Some(syntax) ==> syntax_of(*set, *syntax),
{
    set.find_syntax_by_name("Plain Text")
}

/// The set of syntaxes that syntect packages.
///
/// Trusted: calls `SyntaxSet::load_defaults_newlines`, which decodes the
/// set that is packaged with syntect for lines that end with a newline.
#[verifier::external_body]
fn load_defaults() -> (set: syntect::parsing::SyntaxSet)
    ensures
        packaged(set),
{
    syntect::parsing::SyntaxSet::load_defaults_newlines()
}

/// The set of syntaxes that syntect packages: the set to highlight code
/// with.
pub fn default_syntax_set() -> (set: syntect::parsing::SyntaxSet)
    ensures
        packaged(set),
{
    load_defaults()
}

/// A generator of highlighted HTML for one syntax.
#[verifier::external_type_specification]
#[verifier::external_body]
pub struct ExClassedHTMLGenerator<'a>(syntect::html::ClassedHTMLGenerator<'a>);

/// The HTML that a generator holds: what it has made of the lines it was
/// fed, without the ends of the spans that are still open.
pub uninterp spec fn generated(generator: syntect::html::ClassedHTMLGenerator) -> Seq<char>;

/// The number of spans that a generator has opened and not closed.
pub uninterp spec fn open_spans(generator: syntect::html::ClassedHTMLGenerator) -> int;

/// Whether a generator parses with the packaged set of syntaxes and a
/// syntax of it, and no line has failed in it.
pub uninterp spec fn ready(generator: syntect::html::ClassedHTMLGenerator) -> bool;

/// The ends of `n` spans.
pub open spec fn closing_spans(n: int) -> Seq<char>
    decreases n,
{
    if n <= 0 {
        Seq::empty()
    } else {
        closing_spans(n - 1) + "</span>"@
    }
}

/// A generator of highlighted HTML for a syntax of a set.
///
/// Trusted: calls `ClassedHTMLGenerator::new_with_class_style` with the
/// style `ClassStyle::Spaced`, which returns a generator that holds no
/// HTML and no open span. The call looks up the start context of the
/// syntax among the contexts of the set and panics where there is none;
/// the precondition admits only the packaged set and a syntax of it,
/// which has one.
#[verifier::external_body]
fn new_generator<'a>(
    set: &'a syntect::parsing::SyntaxSet,
    syntax: &'a syntect::parsing::SyntaxReference,
) -> (r: syntect::html::ClassedHTMLGenerator<'a>)
    requires
        packaged(*set),
        syntax_of(*set, *syntax),
    ensures
        generated(r) == Seq::<char>::empty(),
        open_spans(r) == 0,
        ready(r),
{
    syntect::html::ClassedHTMLGenerator::new_with_class_style(syntax, set, syntect::html::ClassStyle::Spaced)
}

/// Feeds a line that ends with a newline to a generator; where the
/// generator fails, its message is returned.
///
/// Trusted: calls
/// `ClassedHTMLGenerator::parse_html_for_line_which_includes_newline`.
/// The call compiles the patterns of the syntax on first use and looks up
/// contexts of the set, and panics where a pattern does not compile or a
/// context is not there; the precondition admits only a generator over
/// the packaged set. Of the HTML nothing is promised; a generator that
/// has taken the line can take another.
#[verifier::external_body]
fn parse_line(generator: &mut syntect::html::ClassedHTMLGenerator<'_>, line: &str) -> (r: Result<(), String>)
    requires
        ready(*old(generator)),
    ensures
        r is Ok ==> ready(*final(generator)),
{
    match generator.parse_html_for_line_which_includes_newline(line) {
        Ok(()) => Ok(()),
        Err(e) => Err(e.to_string()),
    }
}

/// The HTML that a generator has made of the lines it was fed.
///
/// Trusted: calls `ClassedHTMLGenerator::finalize`, which returns the
/// HTML that the generator holds with the end of every open span behind
/// it.
#[verifier::external_body]
fn finish(generator: syntect::html::ClassedHTMLGenerator<'_>) -> (r: String)
    ensures
        r@ == generated(generator) + closing_spans(open_spans(generator)),
{
    generator.finalize()
}

/// A line without the carriage return at its end, if it has one.
pub open spec fn without_return(line: Seq<char>) -> Seq<char> {
    if line.len() > 0 && line.last() == '\r' {
        line.drop_last()
    } else {
        line
    }
}

/// The lines of a text from the line that starts at `start` on, where the
/// characters before `i` hold no newline after `start`.
pub open spec fn lines_from(s: Seq<char>, i: int, start: int) -> Seq<Seq<char>>
    decreases s.len() - i,
{
    if i < 0 || i >= s.len() {
        if start < s.len() {
            seq![s.subrange(start, s.len() as int)]
        } else {
            Seq::empty()
        }
    } else if s[i] == '\n' {
        seq![without_return(s.subrange(start, i))] + lines_from(s, i + 1, i + 1)
    } else {
        lines_from(s, i + 1, start)
    }
}

/// The lines of a text. A line ends with a newline, before which a
/// carriage return is dropped; the last line needs no newline, and
/// nothing follows the last newline.
pub open spec fn split_lines(s: Seq<char>) -> Seq<Seq<char>> {
    lines_from(s, 0, 0)
}

/// The lines of a text.
pub fn lines_of<'a>(s: &'a str) -> (r: Vec<&'a str>)
    ensures
        piece_texts(r@) == split_lines(s@),
{
    let n = s.unicode_len();
    let mut out: Vec<&'a str> = Vec::new();
    let mut start: usize = 0;
    let mut i: usize = 0;
    assert(piece_texts(out@) + lines_from(s@, 0, 0) =~= split_lines(s@));
    while i < n
        invariant
            start <= i <= n,
            n == s@.len(),
            piece_texts(out@) + lines_from(s@, i as int, start as int) == split_lines(s@),
        decreases n - i,
    {
        if s.get_char(i) == '\n' {
            let ghost before = piece_texts(out@);
            let end = if start < i && s.get_char(i - 1) == '\r' {
                i - 1
            } else {
                i
            };
            let line = s.substring_char(start, end);
            assert(line@ =~= without_return(s@.subrange(start as int, i as int)));
            out.push(line);
            assert(piece_texts(out@) =~= before.push(without_return(s@.subrange(start as int, i as int))));
            assert(piece_texts(out@) + lines_from(s@, i + 1, i + 1) =~= before + lines_from(
                s@,
                i as int,
                start as int,
            ));
            start = i + 1;
        }
        i += 1;
    }
    if start < n {
        let ghost before = piece_texts(out@);
        let line = s.substring_char(start, n);
        out.push(line);
        assert(piece_texts(out@) =~= before + lines_from(s@, n as int, start as int));
    } else {
        assert(piece_texts(out@) =~= piece_texts(out@) + lines_from(s@, n as int, start as int));
    }
    out
}

/// The lines of a text as highlighted HTML: each line is fed to a
/// generator with a newline behind it. Where the generator fails on a
/// line, its message is returned. A text without lines is fed nothing,
/// so its HTML is empty; of any other text the generator decides.
fn highlight(
    set: &syntect::parsing::SyntaxSet,
    syntax: &syntect::parsing::SyntaxReference,
    text: &str,
) -> (r: Result<String, String>)
    requires
        packaged(*set),
        syntax_of(*set, *syntax),
    ensures
        split_lines(text@).len() == 0 ==> (r matches Ok(html) && html@ == Seq::<char>::empty()),
{
    let mut generator = new_generator(set, syntax);
    let lines = lines_of(text);
    assert(lines@.len() == piece_texts(lines@).len());
    let mut i: usize = 0;
    while i < lines.len()
        invariant
            i <= lines.len(),
            lines@.len() == split_lines(text@).len(),
            ready(generator),
            i == 0 ==> generated(generator) == Seq::<char>::empty() && open_spans(generator) == 0,
        decreases lines.len() - i,
    {
        let mut line = lines[i].to_owned();
        push_text(&mut line, "\n");
        match parse_line(&mut generator, line.as_str()) {
            Ok(()) => {},
            Err(message) => {
                return Err(message);
            },
        }
        i += 1;
    }
    let html = finish(generator);
    assert(closing_spans(0) + Seq::<char>::empty() =~= Seq::<char>::empty());
    Ok(html)
}

/// Whether two strings hold the same text.
pub fn text_eq(a: &str, b: &str) -> (r: bool)
    ensures
        r == (a@ == b@),
{
    let n = a.unicode_len();
    if n != b.unicode_len() {
        return false;
    }
    let mut i: usize = 0;
    while i < n
        invariant
            i <= n,
            n == a@.len(),
            n == b@.len(),
            forall|j: int| 0 <= j < i ==> a@[j] == b@[j],
        decreases n - i,
    {
        if a.get_char(i) != b.get_char(i) {
            return false;
        }
        i += 1;
    }
    assert(a@ =~= b@);
    true
}

/// The level of a heading.
#[derive(Clone, Copy, Debug, PartialEq, Eq, Structural)]
pub enum HeadingLevel {
    H1,
    H2,
    H3,
    H4,
    H5,
    H6,
}

/// How the cells of a table column are aligned.
#[derive(Clone, Copy, Debug, PartialEq, Eq, Structural)]
pub enum Alignment {
    /// The column has no alignment of its own.
    Unset,
    Left,
    Center,
    Right,
}

/// How a link was written.
#[derive(Clone, Copy, Debug, PartialEq, Eq, Structural)]
pub enum LinkType {
    Inline,
    Reference,
    ReferenceUnknown,
    Collapsed,
    CollapsedUnknown,
    Shortcut,
    ShortcutUnknown,
    Autolink,
    Email,
}

/// How a code block was written.
#[derive(Debug, PartialEq, Eq)]
pub enum CodeBlockKind {
    /// The block is indented.
    Indented,
    /// The block is fenced; the string is what follows the opening fence.
    Fenced(String),
}

/// A container of markdown.
#[derive(Debug, PartialEq, Eq)]
pub enum Tag {
    Paragraph,
    /// A heading: its level, its identifier and its classes.
    Heading(HeadingLevel, Option<String>, Vec<String>),
    BlockQuote,
    CodeBlock(CodeBlockKind),
    /// A list; an ordered list has the number of its first item.
    List(Option<u64>),
    Item,
    /// The definition of the footnote with the given name.
    FootnoteDefinition(String),
    /// A table with the given alignments of its columns.
    Table(Vec<Alignment>),
    TableHead,
    TableRow,
    TableCell,
    Emphasis,
    Strong,
    Strikethrough,
    /// A link: how it was written, its target and its title.
    Link(LinkType, String, String),
    /// An image: how it was written, its source and its title.
    Image(LinkType, String, String),
}

/// An event of parsed markdown.
#[derive(Debug, PartialEq, Eq)]
pub enum Event {
    /// A container starts.
    Start(Tag),
    /// A container ends.
    End(Tag),
    /// Text.
    Text(String),
    /// Inline code.
    Code(String),
    /// HTML that is passed through.
    Html(String),
    /// A reference to the footnote with the given name.
    FootnoteReference(String),
    SoftBreak,
    HardBreak,
    Rule,
    /// The marker of a task; it is checked or not.
    TaskListMarker(bool),
}

/// Highlighting failed with the given message.
#[derive(Debug, PartialEq, Eq)]
pub struct HighlightError {
    /// The message of the highlighter.
    pub message: String,
}

/// The name of the element of a heading.
pub open spec fn level_text(level: HeadingLevel) -> Seq<char> {
    match level {
        HeadingLevel::H1 => "h1"@,
        HeadingLevel::H2 => "h2"@,
        HeadingLevel::H3 => "h3"@,
        HeadingLevel::H4 => "h4"@,
        HeadingLevel::H5 => "h5"@,
        HeadingLevel::H6 => "h6"@,
    }
}

/// The name of the element of a heading.
pub fn level_str(level: HeadingLevel) -> (r: &'static str)
    ensures
        r@ == level_text(level),
{
    match level {
        HeadingLevel::H1 => "h1",
        HeadingLevel::H2 => "h2",
        HeadingLevel::H3 => "h3",
        HeadingLevel::H4 => "h4",
        HeadingLevel::H5 => "h5",
        HeadingLevel::H6 => "h6",
    }
}

/// The pieces of a string between its commas, from the piece that starts
/// at `start` on, where the characters before `i` hold no comma after
/// `start`.
pub open spec fn split_from(s: Seq<char>, i: int, start: int) -> Seq<Seq<char>>
    decreases s.len() - i,
{
    if i < 0 || i >= s.len() {
        seq![s.subrange(start, s.len() as int)]
    } else if s[i] == ',' {
        seq![s.subrange(start, i)] + split_from(s, i + 1, i + 1)
    } else {
        split_from(s, i + 1, start)
    }
}

/// The pieces of a string between its commas.
pub open spec fn split_commas(s: Seq<char>) -> Seq<Seq<char>> {
    split_from(s, 0, 0)
}

/// The texts of a list of string slices.
pub open spec fn piece_texts(pieces: Seq<&str>) -> Seq<Seq<char>> {
    pieces.map_values(|p: &str| p@)
}

/// The pieces of a string between its commas.
pub fn pieces_of<'a>(s: &'a str) -> (r: Vec<&'a str>)
    ensures
        piece_texts(r@) == split_commas(s@),
{
    let n = s.unicode_len();
    let mut out: Vec<&'a str> = Vec::new();
    let mut start: usize = 0;
    let mut i: usize = 0;
    assert(piece_texts(out@) + split_from(s@, 0, 0) =~= split_commas(s@));
    while i < n
        invariant
            start <= i <= n,
            n == s@.len(),
            piece_texts(out@) + split_from(s@, i as int, start as int) == split_commas(s@),
        decreases n - i,
    {
        if s.get_char(i) == ',' {
            let ghost before = piece_texts(out@);
            let piece = s.substring_char(start, i);
            out.push(piece);
            assert(piece_texts(out@) =~= before.push(s@.subrange(start as int, i as int)));
            assert(piece_texts(out@) + split_from(s@, i + 1, i + 1) =~= before + split_from(
                s@,
                i as int,
                start as int,
            ));
            start = i + 1;
        }
        i += 1;
    }
    let ghost before = piece_texts(out@);
    let piece = s.substring_char(start, n);
    out.push(piece);
    assert(piece_texts(out@) =~= before + split_from(s@, n as int, start as int));
    out
}

/// The token under which a fence token is looked up: `rust` for `rune`,
/// else the token itself.
pub open spec fn lookup_token(token: Seq<char>) -> Seq<char> {
    if token == RUNE_TOKEN@ {
        RUST_TOKEN@
    } else {
        token
    }
}

/// The first of the pieces from `i` on that, trimmed, is a token the set
/// knows.
pub open spec fn first_known(tokens: Set<Seq<char>>, pieces: Seq<Seq<char>>, i: int) -> Option<Seq<char>>
    decreases pieces.len() - i,
{
    if i < 0 || i >= pieces.len() {
        None
    } else if tokens.contains(lookup_token(trimmed(pieces[i]))) {
        Some(trimmed(pieces[i]))
    } else {
        first_known(tokens, pieces, i + 1)
    }
}

/// The language that a code block is labelled with, and whether there is
/// a syntax to highlight it with.
///
/// The first token of a fenced block that the set knows is the label; a
/// block without such a token is labelled `rune` where the set knows
/// `rust`, else `text`, for which the syntax of plain text is taken.
pub open spec fn chosen_language(kind: &CodeBlockKind, tokens: Set<Seq<char>>, plain: bool) -> (Seq<char>, bool) {
    let fenced = match kind {
        CodeBlockKind::Fenced(fences) => first_known(tokens, split_commas(fences@), 0),
        CodeBlockKind::Indented => None,
    };
    match fenced {
        Some(label) => (label, true),
        None => if tokens.contains(RUST_TOKEN@) {
            (RUNE_TOKEN@, true)
        } else {
            ("text"@, plain)
        },
    }
}

/// The language that a code block is labelled with, and the syntax to
/// highlight it with.
pub fn find_syntax<'a, 'input>(set: &'a syntect::parsing::SyntaxSet, kind: &'input CodeBlockKind) -> (r: (
    &'input str,
    Option<&'a syntect::parsing::SyntaxReference>,
))
    ensures
        r.0@ == chosen_language(kind, syntax_tokens(*set), has_plain_text(*set)).0,
        r.1 is Some == chosen_language(kind, syntax_tokens(*set), has_plain_text(*set)).1,
        r.1 matches Some(syntax) ==> syntax_of(*set, *syntax),
{
    if let CodeBlockKind::Fenced(fences) = kind {
        let pieces = pieces_of(fences.as_str());
        let mut i: usize = 0;
        while i < pieces.len()
            invariant
                i <= pieces.len(),
                *kind == CodeBlockKind::Fenced(*fences),
                piece_texts(pieces@) == split_commas(fences@),
                first_known(syntax_tokens(*set), split_commas(fences@), 0) == first_known(
                    syntax_tokens(*set),
                    split_commas(fences@),
                    i as int,
                ),
            decreases pieces.len() - i,
        {
            let token = trim(pieces[i]);
            assert(token@ == trimmed(split_commas(fences@)[i as int]));
            let lookup = if text_eq(token, RUNE_TOKEN) {
                RUST_TOKEN
            } else {
                token
            };
            if let Some(syntax) = syntax_by_token(set, lookup) {
                return (token, Some(syntax));
            }
            i += 1;
        }
    }
    match syntax_by_token(set, RUST_TOKEN) {
        Some(syntax) => (RUNE_TOKEN, Some(syntax)),
        None => ("text", plain_text_syntax(set)),
    }
}

/// The number after the last of `len` numbers: one more, or zero where
/// that has no room.
pub open spec fn next_number(len: nat) -> usize {
    if len < usize::MAX {
        (len + 1) as usize
    } else {
        0
    }
}

/// The index of the footnote `name` among the numbered footnotes.
pub open spec fn footnote_index(numbers: Seq<(Seq<char>, usize)>, name: Seq<char>) -> Option<int> {
    crate::query::position(numbers, |e: (Seq<char>, usize)| e.0 == name)
}

/// The number of the footnote `name`: the one it has, or the next.
pub open spec fn footnote_number(numbers: Seq<(Seq<char>, usize)>, name: Seq<char>) -> usize {
    match footnote_index(numbers, name) {
        Some(i) => numbers[i].1,
        None => next_number(numbers.len()),
    }
}

/// The numbered footnotes after the footnote `name` was given its number.
pub open spec fn footnotes_with(numbers: Seq<(Seq<char>, usize)>, name: Seq<char>) -> Seq<(Seq<char>, usize)> {
    match footnote_index(numbers, name) {
        Some(i) => numbers,
        None => numbers.push((name, next_number(numbers.len()))),
    }
}

/// What the numbered footnotes hold.
pub open spec fn footnotes(numbers: Seq<(String, usize)>) -> Seq<(Seq<char>, usize)> {
    numbers.map_values(|e: (String, usize)| (e.0@, e.1))
}

/// Gives a footnote its number: the one it has, or the next.
pub fn number_footnote(numbers: &mut Vec<(String, usize)>, name: &String) -> (r: usize)
    ensures
        r == footnote_number(footnotes(old(numbers)@), name@),
        footnotes(final(numbers)@) == footnotes_with(footnotes(old(numbers)@), name@),
{
    let ghost view = footnotes(numbers@);
    let mut i: usize = 0;
    while i < numbers.len()
        invariant
            i <= numbers.len(),
            *numbers == *old(numbers),
            view == footnotes(numbers@),
            forall|j: int| 0 <= j < i ==> view[j].0 != name@,
        decreases numbers.len() - i,
    {
        if numbers[i].0 == *name {
            proof {
                assert(view[i as int].0 == name@);
                crate::query::lemma_position(view, |e: (Seq<char>, usize)| e.0 == name@, i as int);
            }
            return numbers[i].1;
        }
        i += 1;
    }
    proof {
        crate::query::lemma_position(view, |e: (Seq<char>, usize)| e.0 == name@, i as int);
    }
    let len = numbers.len();
    let number = if len < usize::MAX {
        len + 1
    } else {
        0
    };
    numbers.push((name.clone(), number));
    assert(footnotes(numbers@) =~= view.push((name@, number)));
    number
}

/// The state of the writer, as a mathematical value.
pub struct WriterView {
    /// The number of events that were read.
    pub position: int,
    /// Whether text is highlighted as code.
    pub code: bool,
    /// Whether the cells of a table are cells of its head.
    pub table_head: bool,
    /// The alignments of the columns of the table.
    pub alignments: Seq<Alignment>,
    /// The number of the next cell in its row.
    pub cell_index: usize,
    /// The footnotes that have a number.
    pub numbers: Seq<(Seq<char>, usize)>,
}

/// What was written for some events, and the state after them.
pub struct Written {
    /// The state after the events.
    pub state: WriterView,
    /// The text that was written.
    pub text: Seq<char>,
}

/// The classes of a heading, escaped and with a space between them.
pub open spec fn classes_text(classes: Seq<String>, n: int) -> Seq<char>
    decreases n,
{
    if n <= 0 {
        Seq::empty()
    } else if n == 1 {
        html_escaped(classes[0]@)
    } else {
        classes_text(classes, n - 1) + " "@ + html_escaped(classes[n - 1]@)
    }
}

/// The start of a table cell in the given state.
pub open spec fn cell_text(w: WriterView) -> Seq<char> {
    (if w.table_head {
        "<th"@
    } else {
        "<td"@
    }) + (if w.cell_index < w.alignments.len() {
        match w.alignments[w.cell_index as int] {
            Alignment::Left => " style=\"text-align: left\">"@,
            Alignment::Center => " style=\"text-align: center\">"@,
            Alignment::Right => " style=\"text-align: right\">"@,
            Alignment::Unset => ">"@,
        }
    } else {
        ">"@
    })
}

/// The title of a link or an image, if it has one.
pub open spec fn title_text(title: Seq<char>) -> Seq<char> {
    if title.len() > 0 {
        "\" title=\""@ + html_escaped(title)
    } else {
        Seq::empty()
    }
}

/// The text alone of the events from the state's position up to the end
/// of the container that is open there: text escaped, breaks as spaces,
/// footnote references as their number in brackets, task markers as `[x]`
/// and `[ ]`. `nest` counts the containers that were opened inside.
pub open spec fn raw_text(w: WriterView, events: Seq<Event>, nest: nat) -> Written
    decreases events.len() - w.position,
{
    if w.position < 0 || w.position >= events.len() {
        Written { state: w, text: Seq::empty() }
    } else {
        let next = WriterView { position: w.position + 1, ..w };
        match events[w.position] {
            Event::Start(_) => raw_text(next, events, nest + 1),
            Event::End(_) => if nest == 0 {
                Written { state: next, text: Seq::empty() }
            } else {
                raw_text(next, events, (nest - 1) as nat)
            },
            Event::Html(text) => prepend(html_escaped(text@), raw_text(next, events, nest)),
            Event::Code(text) => prepend(html_escaped(text@), raw_text(next, events, nest)),
            Event::Text(text) => prepend(html_escaped(text@), raw_text(next, events, nest)),
            Event::SoftBreak => prepend(" "@, raw_text(next, events, nest)),
            Event::HardBreak => prepend(" "@, raw_text(next, events, nest)),
            Event::Rule => prepend(" "@, raw_text(next, events, nest)),
            Event::FootnoteReference(name) => prepend(
                "["@ + decimal(footnote_number(w.numbers, name@) as nat) + "]"@,
                raw_text(
                    WriterView { numbers: footnotes_with(w.numbers, name@), ..next },
                    events,
                    nest,
                ),
            ),
            Event::TaskListMarker(checked) => prepend(
                if checked {
                    "[x]"@
                } else {
                    "[ ]"@
                },
                raw_text(next, events, nest),
            ),
        }
    }
}

/// What was written, with a text before it.
pub open spec fn prepend(text: Seq<char>, written: Written) -> Written {
    Written { state: written.state, text: text + written.text }
}

/// The text alone never moves the position back.
pub proof fn lemma_raw_text_advances(w: WriterView, events: Seq<Event>, nest: nat)
    requires
        0 <= w.position <= events.len(),
    ensures
        w.position <= raw_text(w, events, nest).state.position <= events.len(),
    decreases events.len() - w.position,
{
    if w.position < events.len() {
        let next = WriterView { position: w.position + 1, ..w };
        match events[w.position] {
            Event::Start(_) => lemma_raw_text_advances(next, events, nest + 1),
            Event::End(_) => if nest > 0 {
                lemma_raw_text_advances(next, events, (nest - 1) as nat)
            },
            Event::FootnoteReference(name) => lemma_raw_text_advances(
                WriterView { numbers: footnotes_with(w.numbers, name@), ..next },
                events,
                nest,
            ),
            _ => lemma_raw_text_advances(next, events, nest),
        }
    }
}

/// The start tag of a heading with its identifier and its classes.
pub open spec fn heading_text(level: HeadingLevel, id: Option<String>, classes: Seq<String>) -> Seq<char> {
    "<"@ + level_text(level) + (match id {
        Some(id) => " id=\""@ + html_escaped(id@) + "\""@,
        None => Seq::empty(),
    }) + (if classes.len() > 0 {
        " class=\""@ + classes_text(classes, classes.len() as int) + "\""@
    } else {
        Seq::empty()
    }) + ">"@
}

/// The start tag of a link. The target of an email link is a `mailto:`
/// address.
pub open spec fn link_text(link_type: LinkType, dest: Seq<char>, title: Seq<char>) -> Seq<char> {
    (if link_type == LinkType::Email {
        "<a href=\"mailto:"@
    } else {
        "<a href=\""@
    }) + href_escaped(dest) + title_text(title) + "\">"@
}

/// The start of a code block: the block is labelled with the language
/// that was chosen for it.
pub open spec fn code_start(w: WriterView, kind: &CodeBlockKind, tokens: Set<Seq<char>>, plain: bool) -> Written {
    Written {
        state: WriterView { code: chosen_language(kind, tokens, plain).1, ..w },
        text: "<pre><code class=\"language-"@ + href_escaped(chosen_language(kind, tokens, plain).0)
            + "\">"@,
    }
}

/// An image: the events up to the end of the image are its alternative
/// text.
pub open spec fn image_start(w: WriterView, dest: Seq<char>, title: Seq<char>, events: Seq<Event>) -> Written {
    let alt = raw_text(w, events, 0);
    Written {
        state: alt.state,
        text: "<img src=\""@ + href_escaped(dest) + "\" alt=\""@ + alt.text + title_text(title)
            + "\" />"@,
    }
}

/// The start of the definition of a footnote, with its number.
pub open spec fn footnote_start(w: WriterView, name: Seq<char>) -> Written {
    Written {
        state: WriterView { numbers: footnotes_with(w.numbers, name), ..w },
        text: "<div class=\"footnote-definition\" id=\""@ + html_escaped(name)
            + "\"><sup class=\"footnote-definition-label\">"@ + decimal(
            footnote_number(w.numbers, name) as nat,
        ) + "</sup>"@,
    }
}

/// The start tag of a list: an ordered list that does not start at one
/// says where it starts.
pub open spec fn list_text(start: Option<u64>) -> Seq<char> {
    match start {
        Some(start) => if start == 1 {
            "<ol>"@
        } else {
            "<ol start=\""@ + decimal(start as nat) + "\">"@
        },
        None => "<ul>"@,
    }
}

/// What the start of a container writes, and the state after it.
///
/// The state's position is behind the start event. The start of an image
/// takes the events up to the end of the image as its alternative text.
pub open spec fn start_tag(
    w: WriterView,
    tag: &Tag,
    events: Seq<Event>,
    tokens: Set<Seq<char>>,
    plain: bool,
) -> Written {
    match *tag {
        Tag::Paragraph => Written { state: w, text: "<p>"@ },
        Tag::Heading(level, id, classes) => Written { state: w, text: heading_text(level, id, classes@) },
        Tag::Table(alignments) => Written {
            state: WriterView { alignments: alignments@, ..w },
            text: "<table>"@,
        },
        Tag::TableHead => Written {
            state: WriterView { table_head: true, cell_index: 0, ..w },
            text: "<thead><tr>"@,
        },
        Tag::TableRow => Written { state: WriterView { cell_index: 0, ..w }, text: "<tr>"@ },
        Tag::TableCell => Written { state: w, text: cell_text(w) },
        Tag::BlockQuote => Written { state: w, text: "<blockquote>"@ },
        Tag::CodeBlock(kind) => code_start(w, &kind, tokens, plain),
        Tag::List(start) => Written { state: w, text: list_text(start) },
        Tag::Item => Written { state: w, text: "<li>"@ },
        Tag::Emphasis => Written { state: w, text: "<em>"@ },
        Tag::Strong => Written { state: w, text: "<strong>"@ },
        Tag::Strikethrough => Written { state: w, text: "<del>"@ },
        Tag::Link(link_type, dest, title) => Written { state: w, text: link_text(link_type, dest@, title@) },
        Tag::Image(link_type, dest, title) => image_start(w, dest@, title@, events),
        Tag::FootnoteDefinition(name) => footnote_start(w, name@),
    }
}

/// The number of the cell after the one with the given number.
pub open spec fn next_cell(index: usize) -> usize {
    if index < usize::MAX {
        (index + 1) as usize
    } else {
        index
    }
}

/// What the end of a container writes, and the state after it.
pub open spec fn end_tag(w: WriterView, tag: &Tag) -> Written {
    match *tag {
        Tag::Paragraph => Written { state: w, text: "</p>"@ },
        Tag::Heading(level, id, classes) => Written {
            state: w,
            text: "</"@ + level_text(level) + ">"@,
        },
        Tag::Table(_) => Written { state: w, text: "</tbody></table>"@ },
        Tag::TableHead => Written {
            state: WriterView { table_head: false, ..w },
            text: "</tr></thead><tbody>"@,
        },
        Tag::TableRow => Written { state: w, text: "</tr>"@ },
        Tag::TableCell => Written {
            state: WriterView { cell_index: next_cell(w.cell_index), ..w },
            text: if w.table_head {
                "</th>"@
            } else {
                "</td>"@
            },
        },
        Tag::BlockQuote => Written { state: w, text: "</blockquote>"@ },
        Tag::CodeBlock(_) => Written { state: WriterView { code: false, ..w }, text: Seq::empty() },
        Tag::List(Some(_)) => Written { state: w, text: "</ol>"@ },
        Tag::List(None) => Written { state: w, text: "</ul>"@ },
        Tag::Item => Written { state: w, text: "</li>"@ },
        Tag::Emphasis => Written { state: w, text: "</em>"@ },
        Tag::Strong => Written { state: w, text: "</strong>"@ },
        Tag::Strikethrough => Written { state: w, text: "</del>"@ },
        Tag::Link(_, _, _) => Written { state: w, text: "</a>"@ },
        Tag::Image(_, _, _) => Written { state: w, text: Seq::empty() },
        Tag::FootnoteDefinition(_) => Written { state: w, text: "</div>"@ },
    }
}

/// What one event that is not text in a code block writes, and the state
/// after it. The state's position is behind the event.
pub open spec fn event_text(
    w: WriterView,
    event: &Event,
    events: Seq<Event>,
    tokens: Set<Seq<char>>,
    plain: bool,
) -> Written {
    match *event {
        Event::Start(tag) => start_tag(w, &tag, events, tokens, plain),
        Event::End(tag) => end_tag(w, &tag),
        Event::Text(text) => Written { state: w, text: html_escaped(text@) },
        Event::Code(text) => Written { state: w, text: "<code>"@ + html_escaped(text@) + "</code>"@ },
        Event::Html(html) => Written { state: w, text: html@ },
        Event::SoftBreak => Written { state: w, text: " "@ },
        Event::HardBreak => Written { state: w, text: "<br />"@ },
        Event::Rule => Written { state: w, text: "<hr />"@ },
        Event::FootnoteReference(name) => Written {
            state: WriterView { numbers: footnotes_with(w.numbers, name@), ..w },
            text: "<sup class=\"footnote-reference\"><a href=\"#"@ + html_escaped(name@) + "\">"@
                + decimal(footnote_number(w.numbers, name@) as nat) + "</a></sup>"@,
        },
        Event::TaskListMarker(checked) => Written {
            state: w,
            text: if checked {
                "<input disabled=\"\" type=\"checkbox\" checked=\"\"/>"@
            } else {
                "<input disabled=\"\" type=\"checkbox\"/>"@
            },
        },
    }
}

/// Whether the event at the state's position is text that is highlighted
/// as code.
pub open spec fn at_code_text(w: WriterView, events: Seq<Event>) -> bool {
    0 <= w.position < events.len() && w.code && events[w.position] is Text
}

/// The lines of the text at the state's position, which is highlighted as
/// code.
pub open spec fn code_lines(w: WriterView, events: Seq<Event>) -> Seq<Seq<char>> {
    match events[w.position] {
        Event::Text(text) => split_lines(text@),
        _ => Seq::empty(),
    }
}

/// What the events from the state's position on write, up to the end of
/// the events or to the first text that is highlighted as code, and the
/// state there.
pub open spec fn rendered(w: WriterView, events: Seq<Event>, tokens: Set<Seq<char>>, plain: bool) -> Written
    decreases events.len() - w.position,
{
    if w.position < 0 || w.position >= events.len() || at_code_text(w, events) {
        Written { state: w, text: Seq::empty() }
    } else {
        let next = WriterView { position: w.position + 1, ..w };
        let one = event_text(next, &events[w.position], events, tokens, plain);
        proof {
            lemma_event_advances(next, &events[w.position], events, tokens, plain);
        }
        prepend(one.text, rendered(one.state, events, tokens, plain))
    }
}

/// No event moves the position back.
pub proof fn lemma_event_advances(
    w: WriterView,
    event: &Event,
    events: Seq<Event>,
    tokens: Set<Seq<char>>,
    plain: bool,
)
    requires
        0 <= w.position <= events.len(),
    ensures
        w.position <= event_text(w, event, events, tokens, plain).state.position <= events.len(),
{
    match *event {
        Event::Start(tag) => match tag {
            Tag::Image(_, _, _) => lemma_raw_text_advances(w, events, 0),
            _ => {},
        },
        _ => {},
    }
}

/// Writes the title of a link or an image, if it has one.
pub fn write_title(out: &mut String, title: &String)
    ensures
        final(out)@ == old(out)@ + title_text(title@),
{
    if !title.as_str().is_empty() {
        push_text(out, "\" title=\"");
        escape_html(out, title.as_str());
        assert(out@ =~= old(out)@ + title_text(title@));
    } else {
        assert(out@ =~= old(out)@ + title_text(title@));
    }
}

/// Writes the start tag of a heading.
pub fn write_heading(out: &mut String, level: HeadingLevel, id: &Option<String>, classes: &Vec<String>)
    ensures
        final(out)@ == old(out)@ + heading_text(level, *id, classes@),
{
    push_text(out, "<");
    push_text(out, level_str(level));
    if let Some(id) = id {
        push_text(out, " id=\"");
        escape_html(out, id.as_str());
        push_text(out, "\"");
    }
    let ghost head = out@;
    if classes.len() > 0 {
        push_text(out, " class=\"");
        escape_html(out, classes[0].as_str());
        let mut i: usize = 1;
        while i < classes.len()
            invariant
                1 <= i <= classes.len(),
                out@ == head + " class=\""@ + classes_text(classes@, i as int),
            decreases classes.len() - i,
        {
            push_text(out, " ");
            escape_html(out, classes[i].as_str());
            assert(out@ =~= head + " class=\""@ + classes_text(classes@, i + 1));
            i += 1;
        }
        push_text(out, "\"");
    }
    push_text(out, ">");
    assert(out@ =~= old(out)@ + heading_text(level, *id, classes@));
}

/// Writes the start tag of a list.
pub fn write_list_start(out: &mut String, start: Option<u64>)
    ensures
        final(out)@ == old(out)@ + list_text(start),
{
    match start {
        Some(start) => {
            if start == 1 {
                push_text(out, "<ol>");
            } else {
                push_text(out, "<ol start=\"");
                push_decimal(out, start);
                push_text(out, "\">");
                assert(out@ =~= old(out)@ + list_text(Some(start)));
            }
        },
        None => {
            push_text(out, "<ul>");
        },
    }
}

/// Writes the start tag of a link.
pub fn write_link(out: &mut String, link_type: LinkType, dest: &String, title: &String)
    ensures
        final(out)@ == old(out)@ + link_text(link_type, dest@, title@),
{
    match link_type {
        LinkType::Email => {
            push_text(out, "<a href=\"mailto:");
        },
        _ => {
            push_text(out, "<a href=\"");
        },
    }
    escape_href(out, dest.as_str());
    write_title(out, title);
    push_text(out, "\">");
    assert(out@ =~= old(out)@ + link_text(link_type, dest@, title@));
}

/// Which part of a table is written.
#[derive(Clone, Copy, Debug, PartialEq, Eq, Structural)]
pub enum TableState {
    Head,
    Body,
}

/// The writer of HTML for a list of events.
pub struct Writer<'a> {
    /// The syntaxes for highlighting code.
    pub syntax_set: &'a syntect::parsing::SyntaxSet,
    /// The events.
    pub events: &'a Vec<Event>,
    /// The number of events that were read.
    pub position: usize,
    /// The syntax that text is highlighted with, inside a code block.
    pub codeblock: Option<&'a syntect::parsing::SyntaxReference>,
    /// Which part of a table is written.
    pub table_state: TableState,
    /// The alignments of the columns of the table.
    pub table_alignments: Vec<Alignment>,
    /// The number of the next cell in its row.
    pub table_cell_index: usize,
    /// The footnotes that have a number.
    pub numbers: Vec<(String, usize)>,
}

impl<'a> View for Writer<'a> {
    type V = WriterView;

    open spec fn view(&self) -> WriterView {
        WriterView {
            position: self.position as int,
            code: self.codeblock is Some,
            table_head: self.table_state == TableState::Head,
            alignments: self.table_alignments@,
            cell_index: self.table_cell_index,
            numbers: footnotes(self.numbers@),
        }
    }
}

impl<'a> Writer<'a> {
    /// The writer has read no more events than there are, and the syntax
    /// that it highlights with is one of its set.
    pub open spec fn wf(&self) -> bool {
        &&& self.position <= self.events@.len()
        &&& self.codeblock matches Some(syntax) ==> syntax_of(*self.syntax_set, *syntax)
    }

    /// The tokens that the syntaxes of the writer know.
    pub open spec fn tokens(&self) -> Set<Seq<char>> {
        syntax_tokens(*self.syntax_set)
    }

    /// Whether the syntaxes of the writer have one for plain text.
    pub open spec fn plain(&self) -> bool {
        has_plain_text(*self.syntax_set)
    }

    /// Whether two writers are for the same events and syntaxes.
    pub open spec fn same_input(&self, other: &Self) -> bool {
        self.events == other.events && self.syntax_set == other.syntax_set
    }

    /// A writer at the start of the events.
    pub fn new(syntax_set: &'a syntect::parsing::SyntaxSet, events: &'a Vec<Event>) -> (w: Self)
        ensures
            w.wf(),
            w.events == events,
            w.syntax_set == syntax_set,
            w@ == (WriterView {
                position: 0,
                code: false,
                table_head: true,
                alignments: Seq::empty(),
                cell_index: 0,
                numbers: Seq::empty(),
            }),
    {
        let w = Writer {
            syntax_set,
            events,
            position: 0,
            codeblock: None,
            table_state: TableState::Head,
            table_alignments: Vec::new(),
            table_cell_index: 0,
            numbers: Vec::new(),
        };
        assert(w@.numbers =~= Seq::empty());
        w
    }

    /// Writes the text alone of the events up to the end of the container
    /// that is open at the position.
    pub fn raw_text(&mut self, out: &mut String)
        requires
            old(self).wf(),
        ensures
            final(self).wf(),
            final(self).same_input(old(self)),
            final(self).codeblock == old(self).codeblock,
            final(self)@ == raw_text(old(self)@, old(self).events@, 0).state,
            final(out)@ == old(out)@ + raw_text(old(self)@, old(self).events@, 0).text,
    {
        let mut nest: usize = 0;
        let ghost total = raw_text(self@, self.events@, 0);
        assert(out@ =~= old(out)@ + Seq::<char>::empty());
        let ghost mut written: Seq<char> = Seq::empty();
        while self.position < self.events.len()
            invariant
                self.wf(),
                self.same_input(old(self)),
                self.codeblock == old(self).codeblock,
                nest <= self.position,
                total == raw_text(old(self)@, old(self).events@, 0),
                out@ == old(out)@ + written,
                total == prepend(written, raw_text(self@, self.events@, nest as nat)),
            decreases self.events@.len() - self.position,
        {
            let event = &self.events[self.position];
            self.position += 1;
            match event {
                Event::Start(_) => {
                    nest += 1;
                },
                Event::End(_) => {
                    if nest == 0 {
                        assert(total.text =~= written);
                        return ;
                    }
                    nest -= 1;
                },
                Event::Html(text) => {
                    escape_html(out, text.as_str());
                    proof {
                        written = written + html_escaped(text@);
                    }
                },
                Event::Code(text) => {
                    escape_html(out, text.as_str());
                    proof {
                        written = written + html_escaped(text@);
                    }
                },
                Event::Text(text) => {
                    escape_html(out, text.as_str());
                    proof {
                        written = written + html_escaped(text@);
                    }
                },
                Event::SoftBreak => {
                    push_text(out, " ");
                    proof {
                        written = written + " "@;
                    }
                },
                Event::HardBreak => {
                    push_text(out, " ");
                    proof {
                        written = written + " "@;
                    }
                },
                Event::Rule => {
                    push_text(out, " ");
                    proof {
                        written = written + " "@;
                    }
                },
                Event::FootnoteReference(name) => {
                    let number = number_footnote(&mut self.numbers, name);
                    push_text(out, "[");
                    push_decimal(out, number as u64);
                    push_text(out, "]");
                    proof {
                        written = written + ("["@ + decimal(number as nat) + "]"@);
                    }
                },
                Event::TaskListMarker(checked) => {
                    if *checked {
                        push_text(out, "[x]");
                        proof {
                            written = written + "[x]"@;
                        }
                    } else {
                        push_text(out, "[ ]");
                        proof {
                            written = written + "[ ]"@;
                        }
                    }
                },
            }
            proof {
                assert(out@ =~= old(out)@ + written);
                let rest = raw_text(self@, self.events@, nest as nat);
                assert(total.text =~= written + rest.text);
            }
        }
        assert(total.text =~= written);
    }

    /// Writes the start tag of a table cell.
    fn write_cell_start(&self, out: &mut String)
        ensures
            final(out)@ == old(out)@ + cell_text(self@),
    {
        match self.table_state {
            TableState::Head => {
                push_text(out, "<th");
            },
            TableState::Body => {
                push_text(out, "<td");
            },
        }
        let alignment = if self.table_cell_index < self.table_alignments.len() {
            self.table_alignments[self.table_cell_index]
        } else {
            Alignment::Unset
        };
        match alignment {
            Alignment::Left => {
                push_text(out, " style=\"text-align: left\">");
            },
            Alignment::Center => {
                push_text(out, " style=\"text-align: center\">");
            },
            Alignment::Right => {
                push_text(out, " style=\"text-align: right\">");
            },
            Alignment::Unset => {
                push_text(out, ">");
            },
        }
        assert(out@ =~= old(out)@ + cell_text(self@));
    }

    /// Writes the start of a code block and chooses the syntax for its
    /// text.
    fn write_code_start(&mut self, out: &mut String, kind: &CodeBlockKind)
        requires
            old(self).wf(),
        ensures
            final(self).wf(),
            final(self).same_input(old(self)),
            final(self)@ == code_start(old(self)@, kind, old(self).tokens(), old(self).plain()).state,
            final(out)@ == old(out)@ + code_start(
                old(self)@,
                kind,
                old(self).tokens(),
                old(self).plain(),
            ).text,
    {
        push_text(out, "<pre><code class=\"language-");
        let (lang, syntax) = find_syntax(self.syntax_set, kind);
        self.codeblock = syntax;
        escape_href(out, lang);
        push_text(out, "\">");
        assert(out@ =~= old(out)@ + code_start(
            old(self)@,
            kind,
            old(self).tokens(),
            old(self).plain(),
        ).text);
    }

    /// Writes an image; the events up to its end are its alternative
    /// text.
    fn write_image(&mut self, out: &mut String, dest: &String, title: &String)
        requires
            old(self).wf(),
        ensures
            final(self).wf(),
            final(self).same_input(old(self)),
            final(self)@ == image_start(old(self)@, dest@, title@, old(self).events@).state,
            final(out)@ == old(out)@ + image_start(old(self)@, dest@, title@, old(self).events@).text,
    {
        push_text(out, "<img src=\"");
        escape_href(out, dest.as_str());
        push_text(out, "\" alt=\"");
        self.raw_text(out);
        write_title(out, title);
        push_text(out, "\" />");
        assert(out@ =~= old(out)@ + image_start(old(self)@, dest@, title@, old(self).events@).text);
    }

    /// Writes the start of the definition of a footnote.
    fn write_footnote_start(&mut self, out: &mut String, name: &String)
        requires
            old(self).wf(),
        ensures
            final(self).wf(),
            final(self).same_input(old(self)),
            final(self)@ == footnote_start(old(self)@, name@).state,
            final(out)@ == old(out)@ + footnote_start(old(self)@, name@).text,
    {
        push_text(out, "<div class=\"footnote-definition\" id=\"");
        escape_html(out, name.as_str());
        push_text(out, "\"><sup class=\"footnote-definition-label\">");
        let number = number_footnote(&mut self.numbers, name);
        push_decimal(out, number as u64);
        push_text(out, "</sup>");
        assert(out@ =~= old(out)@ + footnote_start(old(self)@, name@).text);
    }

    /// Writes the start of a container.
    pub fn start_tag(&mut self, out: &mut String, tag: &Tag)
        requires
            old(self).wf(),
        ensures
            final(self).wf(),
            final(self).same_input(old(self)),
            final(self)@ == start_tag(
                old(self)@,
                tag,
                old(self).events@,
                old(self).tokens(),
                old(self).plain(),
            ).state,
            final(out)@ == old(out)@ + start_tag(
                old(self)@,
                tag,
                old(self).events@,
                old(self).tokens(),
                old(self).plain(),
            ).text,
    {
        match tag {
            Tag::Paragraph => {
                push_text(out, "<p>");
            },
            Tag::Heading(level, id, classes) => {
                write_heading(out, *level, id, classes);
            },
            Tag::Table(alignments) => {
                let mut copy: Vec<Alignment> = Vec::with_capacity(alignments.len());
                let mut i: usize = 0;
                while i < alignments.len()
                    invariant
                        i <= alignments.len(),
                        copy@ == alignments@.take(i as int),
                    decreases alignments.len() - i,
                {
                    copy.push(alignments[i]);
                    assert(copy@ =~= alignments@.take(i + 1));
                    i += 1;
                }
                assert(copy@ =~= alignments@);
                self.table_alignments = copy;
                push_text(out, "<table>");
            },
            Tag::TableHead => {
                self.table_state = TableState::Head;
                self.table_cell_index = 0;
                push_text(out, "<thead><tr>");
            },
            Tag::TableRow => {
                self.table_cell_index = 0;
                push_text(out, "<tr>");
            },
            Tag::TableCell => {
                self.write_cell_start(out);
            },
            Tag::BlockQuote => {
                push_text(out, "<blockquote>");
            },
            Tag::CodeBlock(kind) => {
                self.write_code_start(out, kind);
            },
            Tag::List(start) => {
                write_list_start(out, *start);
            },
            Tag::Item => {
                push_text(out, "<li>");
            },
            Tag::Emphasis => {
                push_text(out, "<em>");
            },
            Tag::Strong => {
                push_text(out, "<strong>");
            },
            Tag::Strikethrough => {
                push_text(out, "<del>");
            },
            Tag::Link(link_type, dest, title) => {
                write_link(out, *link_type, dest, title);
            },
            Tag::Image(_link_type, dest, title) => {
                self.write_image(out, dest, title);
            },
            Tag::FootnoteDefinition(name) => {
                self.write_footnote_start(out, name);
            },
        }
    }

    /// Writes the end of a container.
    pub fn end_tag(&mut self, out: &mut String, tag: &Tag)
        requires
            old(self).wf(),
        ensures
            final(self).wf(),
            final(self).same_input(old(self)),
            final(self)@ == end_tag(old(self)@, tag).state,
            final(out)@ == old(out)@ + end_tag(old(self)@, tag).text,
    {
        let ghost expected = end_tag(self@, tag).text;
        match tag {
            Tag::Paragraph => {
                push_text(out, "</p>");
            },
            Tag::Heading(level, _id, _classes) => {
                push_text(out, "</");
                push_text(out, level_str(*level));
                push_text(out, ">");
                assert(out@ =~= old(out)@ + expected);
            },
            Tag::Table(_) => {
                push_text(out, "</tbody></table>");
            },
            Tag::TableHead => {
                push_text(out, "</tr></thead><tbody>");
                self.table_state = TableState::Body;
            },
            Tag::TableRow => {
                push_text(out, "</tr>");
            },
            Tag::TableCell => {
                match self.table_state {
                    TableState::Head => {
                        push_text(out, "</th>");
                    },
                    TableState::Body => {
                        push_text(out, "</td>");
                    },
                }
                if self.table_cell_index < usize::MAX {
                    self.table_cell_index += 1;
                }
            },
            Tag::BlockQuote => {
                push_text(out, "</blockquote>");
            },
            Tag::CodeBlock(_) => {
                self.codeblock = None;
                assert(out@ =~= old(out)@ + expected);
            },
            Tag::List(Some(_)) => {
                push_text(out, "</ol>");
            },
            Tag::List(None) => {
                push_text(out, "</ul>");
            },
            Tag::Item => {
                push_text(out, "</li>");
            },
            Tag::Emphasis => {
                push_text(out, "</em>");
            },
            Tag::Strong => {
                push_text(out, "</strong>");
            },
            Tag::Strikethrough => {
                push_text(out, "</del>");
            },
            Tag::Link(_, _, _) => {
                push_text(out, "</a>");
            },
            Tag::Image(_, _, _) => {
                assert(out@ =~= old(out)@ + expected);
            },
            Tag::FootnoteDefinition(_) => {
                push_text(out, "</div>");
            },
        }
    }

    /// Writes one event that is not text in a code block.
    pub fn write_event(&mut self, out: &mut String, event: &Event)
        requires
            old(self).wf(),
        ensures
            final(self).wf(),
            final(self).same_input(old(self)),
            final(self)@ == event_text(
                old(self)@,
                event,
                old(self).events@,
                old(self).tokens(),
                old(self).plain(),
            ).state,
            final(out)@ == old(out)@ + event_text(
                old(self)@,
                event,
                old(self).events@,
                old(self).tokens(),
                old(self).plain(),
            ).text,
    {
        let ghost expected = event_text(
            self@,
            event,
            self.events@,
            self.tokens(),
            self.plain(),
        ).text;
        match event {
            Event::Start(tag) => {
                self.start_tag(out, tag);
            },
            Event::End(tag) => {
                self.end_tag(out, tag);
            },
            Event::Text(text) => {
                escape_html(out, text.as_str());
            },
            Event::Code(text) => {
                push_text(out, "<code>");
                escape_html(out, text.as_str());
                push_text(out, "</code>");
                assert(out@ =~= old(out)@ + expected);
            },
            Event::Html(html) => {
                push_text(out, html.as_str());
            },
            Event::SoftBreak => {
                push_text(out, " ");
            },
            Event::HardBreak => {
                push_text(out, "<br />");
            },
            Event::Rule => {
                push_text(out, "<hr />");
            },
            Event::FootnoteReference(name) => {
                push_text(out, "<sup class=\"footnote-reference\"><a href=\"#");
                escape_html(out, name.as_str());
                push_text(out, "\">");
                let number = number_footnote(&mut self.numbers, name);
                push_decimal(out, number as u64);
                push_text(out, "</a></sup>");
                assert(out@ =~= old(out)@ + expected);
            },
            Event::TaskListMarker(checked) => {
                if *checked {
                    push_text(out, "<input disabled=\"\" type=\"checkbox\" checked=\"\"/>");
                } else {
                    push_text(out, "<input disabled=\"\" type=\"checkbox\"/>");
                }
            },
        }
    }

    /// Writes the events from the position on.
    ///
    /// Every event is written as [`rendered`] says, up to the end of the
    /// events or to the first text inside a code block that has a syntax.
    /// That text is highlighted and ends the writing: what the highlighter
    /// returns is written behind the rest, or its failure is returned and
    /// nothing more is written. A text without lines is highlighted to
    /// nothing, which cannot fail. The set of syntaxes has to be the
    /// packaged one, with which the highlighter can parse.
    pub fn run(&mut self, out: &mut String) -> (r: Result<(), HighlightError>)
        requires
            old(self).wf(),
            packaged(*old(self).syntax_set),
        ensures
            final(self).wf(),
            final(self).same_input(old(self)),
            ({
                let all = rendered(old(self)@, old(self).events@, old(self).tokens(), old(self).plain());
                if at_code_text(all.state, old(self).events@) {
                    &&& final(self)@ == (WriterView { position: all.state.position + 1, ..all.state })
                    &&& match r {
                        Ok(_) => exists|html: Seq<char>| final(out)@ == old(out)@ + all.text + html,
                        Err(_) => final(out)@ == old(out)@ + all.text,
                    }
                    &&& code_lines(all.state, old(self).events@).len() == 0 ==> r is Ok && final(out)@
                        == old(out)@ + all.text
                } else {
                    &&& r is Ok
                    &&& final(self)@ == all.state
                    &&& final(out)@ == old(out)@ + all.text
                }
            }),
    {
        let ghost all = rendered(self@, self.events@, self.tokens(), self.plain());
        let ghost mut written: Seq<char> = Seq::empty();
        assert(out@ =~= old(out)@ + written);
        while self.position < self.events.len()
            invariant
                self.wf(),
                self.same_input(old(self)),
                packaged(*self.syntax_set),
                all == rendered(old(self)@, old(self).events@, old(self).tokens(), old(self).plain()),
                out@ == old(out)@ + written,
                all == prepend(written, rendered(self@, self.events@, self.tokens(), self.plain())),
            decreases self.events@.len() - self.position,
        {
            let ghost before = self@;
            let event = &self.events[self.position];
            if let Event::Text(text) = event {
                if let Some(syntax) = self.codeblock {
                    assert(at_code_text(before, self.events@));
                    assert(all.text =~= written);
                    self.position += 1;
                    match highlight(self.syntax_set, syntax, text.as_str()) {
                        Ok(html) => {
                            push_text(out, html.as_str());
                            assert(out@ == old(out)@ + all.text + html@);
                            assert(html@.len() == 0 ==> out@ =~= old(out)@ + all.text);
                            return Ok(());
                        },
                        Err(message) => {
                            return Err(HighlightError { message });
                        },
                    }
                }
            }
            self.position += 1;
            let ghost next = self@;
            proof {
                lemma_event_advances(next, event, self.events@, self.tokens(), self.plain());
            }
            self.write_event(out, event);
            proof {
                let one = event_text(next, event, self.events@, self.tokens(), self.plain());
                written = written + one.text;
                assert(out@ =~= old(out)@ + written);
                let rest = rendered(self@, self.events@, self.tokens(), self.plain());
                assert(all.text =~= written + rest.text);
            }
        }
        assert(all.text =~= written);
        Ok(())
    }
}

/// What writing the HTML for a list of events comes to, with syntaxes
/// that know the given tokens: `before` is the text before the writing,
/// `after` the text after it, and `ok` says whether the writing succeeded.
///
/// The events are written as [`rendered`] says, up to the end of the
/// events or to the first text that is highlighted as code. That text ends
/// the writing: what the highlighter makes of it follows, or the writing
/// fails and nothing follows. A text without lines is highlighted to
/// nothing, which cannot fail.
pub open spec fn html_pushed(
    tokens: Set<Seq<char>>,
    plain: bool,
    events: Seq<Event>,
    before: Seq<char>,
    after: Seq<char>,
    ok: bool,
) -> bool {
    let start = WriterView {
        position: 0,
        code: false,
        table_head: true,
        alignments: Seq::empty(),
        cell_index: 0,
        numbers: Seq::empty(),
    };
    let all = rendered(start, events, tokens, plain);
    if at_code_text(all.state, events) {
        &&& if ok {
            exists|html: Seq<char>| after == before + all.text + html
        } else {
            after == before + all.text
        }
        &&& code_lines(all.state, events).len() == 0 ==> ok && after == before + all.text
    } else {
        ok && after == before + all.text
    }
}

/// Writes the HTML for a list of events to `s`, as [`html_pushed`] says,
/// with the packaged set of syntaxes.
pub fn push_html(syntax_set: &syntect::parsing::SyntaxSet, s: &mut String, events: &Vec<Event>) -> (r: Result<
    (),
    HighlightError,
>)
    requires
        packaged(*syntax_set),
    ensures
        html_pushed(
            syntax_tokens(*syntax_set),
            has_plain_text(*syntax_set),
            events@,
            old(s)@,
            final(s)@,
            r is Ok,
        ),
{
    let mut writer = Writer::new(syntax_set, events);
    writer.run(s)
}

/// Loads the packaged set of syntaxes and writes the HTML for a list of
/// events to `s` with it, as [`html_pushed`] says.
pub fn push_default_html(s: &mut String, events: &Vec<Event>) -> (r: Result<(), HighlightError>)
    ensures
        exists|set: syntect::parsing::SyntaxSet| #[trigger]
            packaged(set) && html_pushed(
                syntax_tokens(set),
                has_plain_text(set),
                events@,
                old(s)@,
                final(s)@,
                r is Ok,
            ),
{
    let set = default_syntax_set();
    push_html(&set, s, events)
}

} // verus!
