use rune_unit::markdown::{
    default_syntax_set, find_syntax, lines_of, push_default_html, push_html, text_eq, Alignment, CodeBlockKind, Event, HeadingLevel, LinkType, Tag, Writer,
};
use syntect::parsing::SyntaxSetBuilder;

fn render(events: Vec<Event>) -> String {
    let set = default_syntax_set();
    let mut out = String::new();
    push_html(&set, &mut out, &events).unwrap();
    out
}

fn text(s: &str) -> Event {
    Event::Text(s.to_string())
}

#[test]
fn paragraph_with_escaped_text() {
    let out = render(vec![Event::Start(Tag::Paragraph), text("a < b & \"c\" > d"), Event::End(Tag::Paragraph)]);
    assert_eq!(out, "<p>a &lt; b &amp; &quot;c&quot; &gt; d</p>");
}

#[test]
fn output_is_appended() {
    let set = default_syntax_set();
    let mut out = "before".to_string();
    push_html(&set, &mut out, &vec![text("x")]).unwrap();
    assert_eq!(out, "beforex");
}

#[test]
fn heading_with_id_and_classes() {
    let tag = || Tag::Heading(HeadingLevel::H2, Some("a\"b".to_string()), vec!["x".to_string(), "y<".to_string()]);
    let out = render(vec![Event::Start(tag()), text("T"), Event::End(tag())]);
    assert_eq!(out, "<h2 id=\"a&quot;b\" class=\"x y&lt;\">T</h2>");
}

#[test]
fn heading_levels() {
    let levels = vec![
        (HeadingLevel::H1, "h1"),
        (HeadingLevel::H3, "h3"),
        (HeadingLevel::H4, "h4"),
        (HeadingLevel::H5, "h5"),
        (HeadingLevel::H6, "h6"),
    ];
    for (level, name) in levels {
        let out = render(vec![
            Event::Start(Tag::Heading(level, None, vec![])),
            Event::End(Tag::Heading(level, None, vec![])),
        ]);
        assert_eq!(out, format!("<{}></{}>", name, name));
    }
}

#[test]
fn inline_events() {
    let out = render(vec![
        Event::Code("a<b".to_string()),
        Event::SoftBreak,
        Event::Html("<i>raw</i>".to_string()),
        Event::HardBreak,
        Event::Rule,
        Event::TaskListMarker(true),
        Event::TaskListMarker(false),
    ]);
    assert_eq!(
        out,
        "<code>a&lt;b</code> <i>raw</i><br /><hr />\
         <input disabled=\"\" type=\"checkbox\" checked=\"\"/><input disabled=\"\" type=\"checkbox\"/>"
    );
}

#[test]
fn simple_containers() {
    let out = render(vec![
        Event::Start(Tag::BlockQuote),
        Event::Start(Tag::Emphasis),
        Event::End(Tag::Emphasis),
        Event::Start(Tag::Strong),
        Event::End(Tag::Strong),
        Event::Start(Tag::Strikethrough),
        Event::End(Tag::Strikethrough),
        Event::End(Tag::BlockQuote),
    ]);
    assert_eq!(out, "<blockquote><em></em><strong></strong><del></del></blockquote>");
}

#[test]
fn lists() {
    let out = render(vec![
        Event::Start(Tag::List(None)),
        Event::Start(Tag::Item),
        Event::End(Tag::Item),
        Event::End(Tag::List(None)),
        Event::Start(Tag::List(Some(1))),
        Event::End(Tag::List(Some(1))),
        Event::Start(Tag::List(Some(42))),
        Event::End(Tag::List(Some(42))),
    ]);
    assert_eq!(out, "<ul><li></li></ul><ol></ol><ol start=\"42\"></ol>");
}

#[test]
fn table_with_alignments() {
    let alignments = vec![Alignment::Left, Alignment::Center, Alignment::Right, Alignment::Unset];
    let mut events = vec![Event::Start(Tag::Table(alignments)), Event::Start(Tag::TableHead)];
    for _ in 0..5 {
        events.push(Event::Start(Tag::TableCell));
        events.push(Event::End(Tag::TableCell));
    }
    events.push(Event::End(Tag::TableHead));
    events.push(Event::Start(Tag::TableRow));
    events.push(Event::Start(Tag::TableCell));
    events.push(text("v"));
    events.push(Event::End(Tag::TableCell));
    events.push(Event::Start(Tag::TableCell));
    events.push(Event::End(Tag::TableCell));
    events.push(Event::End(Tag::TableRow));
    events.push(Event::End(Tag::Table(vec![])));
    assert_eq!(
        render(events),
        "<table><thead><tr>\
         <th style=\"text-align: left\"></th>\
         <th style=\"text-align: center\"></th>\
         <th style=\"text-align: right\"></th>\
         <th></th><th></th>\
         </tr></thead><tbody>\
         <tr><td style=\"text-align: left\">v</td><td style=\"text-align: center\"></td></tr>\
         </tbody></table>"
    );
}

#[test]
fn links() {
    let link = |kind, dest: &str, title: &str| Tag::Link(kind, dest.to_string(), title.to_string());
    let out = render(vec![
        Event::Start(link(LinkType::Inline, "a b&c", "")),
        text("x"),
        Event::End(link(LinkType::Inline, "", "")),
        Event::Start(link(LinkType::Email, "me@example.com", "T<")),
        Event::End(link(LinkType::Email, "", "")),
    ]);
    assert_eq!(
        out,
        "<a href=\"a%20b&amp;c\">x</a><a href=\"mailto:me@example.com\" title=\"T&lt;\"></a>"
    );
}

#[test]
fn href_escapes_quotes_and_bytes_outside_ascii() {
    let out = render(vec![Event::Start(Tag::Link(LinkType::Inline, "it's/\u{e9}".to_string(), String::new()))]);
    assert_eq!(out, "<a href=\"it&#x27;s/%C3%A9\">");
}

#[test]
fn image_takes_the_text_of_its_events_as_alternative() {
    let image = || Tag::Image(LinkType::Inline, "p.png".to_string(), "Title".to_string());
    let out = render(vec![
        Event::Start(image()),
        text("a<"),
        Event::Start(Tag::Emphasis),
        Event::Code("b".to_string()),
        Event::End(Tag::Emphasis),
        Event::SoftBreak,
        Event::HardBreak,
        Event::Rule,
        Event::Html("h".to_string()),
        Event::TaskListMarker(true),
        Event::TaskListMarker(false),
        Event::FootnoteReference("n".to_string()),
        Event::End(image()),
        text("after"),
    ]);
    assert_eq!(out, "<img src=\"p.png\" alt=\"a&lt;b   h[x][ ][1]\" title=\"Title\" />after");
}

#[test]
fn image_without_end_takes_everything() {
    let out = render(vec![
        Event::Start(Tag::Image(LinkType::Inline, "p".to_string(), String::new())),
        text("a"),
        Event::Start(Tag::Strong),
        text("b"),
    ]);
    assert_eq!(out, "<img src=\"p\" alt=\"ab\" />");
}

#[test]
fn footnotes_are_numbered_in_the_order_they_are_met() {
    let out = render(vec![
        Event::FootnoteReference("b".to_string()),
        Event::FootnoteReference("a".to_string()),
        Event::FootnoteReference("b".to_string()),
        Event::Start(Tag::FootnoteDefinition("a".to_string())),
        Event::End(Tag::FootnoteDefinition("a".to_string())),
        Event::Start(Tag::FootnoteDefinition("c<".to_string())),
        Event::End(Tag::FootnoteDefinition("c<".to_string())),
    ]);
    assert_eq!(
        out,
        "<sup class=\"footnote-reference\"><a href=\"#b\">1</a></sup>\
         <sup class=\"footnote-reference\"><a href=\"#a\">2</a></sup>\
         <sup class=\"footnote-reference\"><a href=\"#b\">1</a></sup>\
         <div class=\"footnote-definition\" id=\"a\"><sup class=\"footnote-definition-label\">2</sup></div>\
         <div class=\"footnote-definition\" id=\"c&lt;\"><sup class=\"footnote-definition-label\">3</sup></div>"
    );
}

#[test]
fn code_block_is_highlighted_and_ends_the_writing() {
    let kind = || CodeBlockKind::Fenced("rune".to_string());
    let out = render(vec![
        Event::Start(Tag::Paragraph),
        Event::End(Tag::Paragraph),
        Event::Start(Tag::CodeBlock(kind())),
        text("fn main() {}\n"),
        Event::End(Tag::CodeBlock(kind())),
        text("dropped"),
    ]);
    let head = "<p></p><pre><code class=\"language-rune\">";
    assert!(out.starts_with(head));
    let html = &out[head.len()..];
    assert!(html.contains("<span class=\""));
    assert!(html.contains("main"));
    assert_ne!(html, "fn main() {}\n");
    assert!(!out.contains("dropped"));
}

#[test]
fn code_block_without_any_syntax_is_escaped_text() {
    let set = SyntaxSetBuilder::new().build();
    let mut out = String::new();
    let events = vec![
        Event::Start(Tag::CodeBlock(CodeBlockKind::Indented)),
        text("a < b"),
        Event::End(Tag::CodeBlock(CodeBlockKind::Indented)),
        text("kept"),
    ];
    let mut writer = Writer::new(&set, &events);
    for event in &events {
        writer.write_event(&mut out, event);
    }
    assert!(writer.codeblock.is_none());
    assert_eq!(out, "<pre><code class=\"language-text\">a &lt; b".to_string() + "kept");
}

#[test]
fn default_rendering_loads_the_packaged_syntaxes() {
    let events = vec![
        Event::Start(Tag::Paragraph),
        text("a"),
        Event::End(Tag::Paragraph),
        Event::Start(Tag::CodeBlock(CodeBlockKind::Fenced("rust".to_string()))),
        text("fn f() {}\n"),
    ];
    let mut by_default = "x".to_string();
    push_default_html(&mut by_default, &events).unwrap();
    let mut with_set = "x".to_string();
    push_html(&default_syntax_set(), &mut with_set, &events).unwrap();
    assert_eq!(by_default, with_set);
    assert!(by_default.starts_with("x<p>a</p><pre><code class=\"language-rust\">"));
    assert!(by_default.contains("<span class=\""));
    assert!(find_syntax(&default_syntax_set(), &CodeBlockKind::Indented).1.is_some());
}

#[test]
fn text_after_a_code_block_is_escaped_again() {
    let set = default_syntax_set();
    let events = vec![
        Event::Start(Tag::CodeBlock(CodeBlockKind::Indented)),
        Event::End(Tag::CodeBlock(CodeBlockKind::Indented)),
        text("<"),
    ];
    let mut out = String::new();
    push_html(&set, &mut out, &events).unwrap();
    assert_eq!(out, "<pre><code class=\"language-rune\">&lt;");
}

#[test]
fn syntax_is_found_by_the_first_known_token() {
    let set = default_syntax_set();
    let fenced = |s: &str| CodeBlockKind::Fenced(s.to_string());
    let kind = fenced("no-such-language, rust ,python");
    let (label, syntax) = find_syntax(&set, &kind);
    assert_eq!(label, "rust");
    assert_eq!(syntax.unwrap().name, "Rust");

    let kind = fenced("python");
    let (label, syntax) = find_syntax(&set, &kind);
    assert_eq!(label, "python");
    assert_eq!(syntax.unwrap().name, "Python");

    let kind = fenced("  rune  ");
    let (label, syntax) = find_syntax(&set, &kind);
    assert_eq!(label, "rune");
    assert_eq!(syntax.unwrap().name, "Rust");
}

#[test]
fn syntax_falls_back_to_rune_then_to_plain_text() {
    let set = default_syntax_set();
    let kind = CodeBlockKind::Fenced("unknown,,".to_string());
    let (label, syntax) = find_syntax(&set, &kind);
    assert_eq!(label, "rune");
    assert_eq!(syntax.unwrap().name, "Rust");
    let (label, syntax) = find_syntax(&set, &CodeBlockKind::Indented);
    assert_eq!(label, "rune");
    assert!(syntax.is_some());

    let mut builder = SyntaxSetBuilder::new();
    builder.add_plain_text_syntax();
    let plain = builder.build();
    let (label, syntax) = find_syntax(&plain, &CodeBlockKind::Indented);
    assert_eq!(label, "text");
    assert_eq!(syntax.unwrap().name, "Plain Text");

    let empty = SyntaxSetBuilder::new().build();
    let (label, syntax) = find_syntax(&empty, &kind);
    assert_eq!(label, "text");
    assert!(syntax.is_none());
}

#[test]
fn writer_keeps_its_state_between_events() {
    let set = default_syntax_set();
    let events = vec![Event::Start(Tag::TableHead), Event::End(Tag::TableHead)];
    let mut writer = Writer::new(&set, &events);
    let mut out = String::new();
    writer.run(&mut out).unwrap();
    assert_eq!(writer.position, 2);
    assert_eq!(out, "<thead><tr></tr></thead><tbody>");
    writer.start_tag(&mut out, &Tag::TableCell);
    writer.end_tag(&mut out, &Tag::TableCell);
    assert!(out.ends_with("<td></td>"));
    assert_eq!(writer.table_cell_index, 1);
}

#[test]
fn texts_are_compared_by_their_characters() {
    assert!(text_eq("rune", "rune"));
    assert!(!text_eq("rune", "rust"));
    assert!(!text_eq("rune", "run"));
    assert!(text_eq("", ""));
    assert!(text_eq("h\u{e9}", "h\u{e9}"));
}

#[test]
fn lines_end_at_newlines() {
    assert_eq!(lines_of("a\nb\r\nc"), vec!["a", "b", "c"]);
    assert_eq!(lines_of("a\n"), vec!["a"]);
    assert_eq!(lines_of("a\n\n"), vec!["a", ""]);
    assert_eq!(lines_of(""), Vec::<&str>::new());
    assert_eq!(lines_of("\r\n\rx\r"), vec!["", "\rx\r"]);
    assert_eq!(lines_of("h\u{e9}\nw"), vec!["h\u{e9}", "w"]);
}

#[test]
fn highlighted_code_holds_every_line() {
    let set = default_syntax_set();
    let mut out = String::new();
    let events = vec![
        Event::Start(Tag::CodeBlock(CodeBlockKind::Fenced("rust".to_string()))),
        Event::Text("let a = 1;\nlet b = 2;".to_string()),
    ];
    push_html(&set, &mut out, &events).unwrap();
    assert!(out.starts_with("<pre><code class=\"language-rust\">"));
    assert_eq!(out.matches('\n').count(), 2);
    let a = out.find("a").unwrap();
    assert!(out[a..].contains("b"));
}

#[test]
fn code_text_without_lines_is_highlighted_to_nothing() {
    let set = default_syntax_set();
    let mut out = String::new();
    let events = vec![
        Event::Start(Tag::CodeBlock(CodeBlockKind::Fenced("rust".to_string()))),
        Event::Text(String::new()),
        Event::End(Tag::CodeBlock(CodeBlockKind::Fenced("rust".to_string()))),
        Event::Text("dropped".to_string()),
    ];
    push_html(&set, &mut out, &events).unwrap();
    assert_eq!(out, "<pre><code class=\"language-rust\">");
}
