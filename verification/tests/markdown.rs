use project_tracker::markdown::{
    advanced_parse, parse_events, parse_markdown, Item, ListItemBeginner, ListItems,
    MarkdownEvent, Span, Text,
};
use pulldown_cmark::HeadingLevel;
use std::ops::Range;

fn plain(text: &str) -> Span {
    Span::Standard {
        text: text.to_string(),
        strikethrough: false,
        link: None,
        strong: false,
        emphasis: false,
        code: false,
    }
}

fn paragraph(text: &'static str) -> Item {
    Item::Paragraph(Text::new(vec![plain(text)]))
}

#[test]
fn test_heading_markdown_parsing() {
    let markdown_str = "# Heading";
    let markdown_items: Vec<Item> = advanced_parse(markdown_str);
    assert_eq!(
        markdown_items,
        vec![Item::Heading(
            HeadingLevel::H1,
            Text {
                spans: vec![Span::Standard {
                    text: "Heading".to_string(),
                    strikethrough: false,
                    link: None,
                    strong: false,
                    emphasis: false,
                    code: false
                }],
            }
        )]
    )
}

#[test]
fn test_nested_list_markdown_parsing() {
    let markdown_str = "\n- A\n\t- B\n\t\t- C";

    let markdown_items: Vec<Item> = advanced_parse(markdown_str);

    assert_eq!(
        markdown_items,
        vec![Item::List {
            start: None,
            items: vec![ListItems {
                beginner: ListItemBeginner::Default,
                items: vec![
                    paragraph("A"),
                    Item::List {
                        start: None,
                        items: vec![ListItems {
                            beginner: ListItemBeginner::Default,
                            items: vec![
                                paragraph("B"),
                                Item::List {
                                    start: None,
                                    items: vec![ListItems {
                                        beginner: ListItemBeginner::Default,
                                        items: vec![paragraph("C")]
                                    }]
                                }
                            ]
                        }]
                    }
                ]
            }]
        }]
    )
}

#[test]
fn test_task_checkbox_markdown_parsing() {
    let markdown_str = "\n- [X] task1\n- [X] task2\n- [ ] task3";
    let markdown_items: Vec<Item> = advanced_parse(markdown_str);

    assert_eq!(
        markdown_items,
        vec![Item::List {
            start: None,
            items: vec![
                ListItems {
                    beginner: ListItemBeginner::Checkbox {
                        checked: true,
                        range: Range { start: 3, end: 6 }
                    },
                    items: vec![paragraph("task1")]
                },
                ListItems {
                    beginner: ListItemBeginner::Checkbox {
                        checked: true,
                        range: Range { start: 15, end: 18 }
                    },
                    items: vec![paragraph("task2")]
                },
                ListItems {
                    beginner: ListItemBeginner::Checkbox {
                        checked: false,
                        range: Range { start: 27, end: 30 }
                    },
                    items: vec![paragraph("task3")]
                }
            ]
        }]
    )
}

#[test]
fn markdown_inline_styles_and_web_links() {
    let items = parse_markdown("**bold** *it* ~~gone~~ `code` [site](https://Example.com)");
    assert_eq!(
        items,
        vec![Item::Paragraph(Text::new(vec![
            Span::Standard {
                text: "bold".to_string(),
                strikethrough: false,
                link: None,
                strong: true,
                emphasis: false,
                code: false
            },
            plain(" "),
            Span::Standard {
                text: "it".to_string(),
                strikethrough: false,
                link: None,
                strong: false,
                emphasis: true,
                code: false
            },
            plain(" "),
            Span::Standard {
                text: "gone".to_string(),
                strikethrough: true,
                link: None,
                strong: false,
                emphasis: false,
                code: false
            },
            plain(" "),
            Span::Standard {
                text: "code".to_string(),
                strikethrough: false,
                link: None,
                strong: false,
                emphasis: false,
                code: true
            },
            plain(" "),
            Span::Standard {
                text: "site".to_string(),
                strikethrough: false,
                link: Some("https://example.com/".to_string()),
                strong: false,
                emphasis: false,
                code: false
            },
        ]))]
    );
}

#[test]
fn markdown_links_that_are_no_web_address_keep_plain_text() {
    let items = parse_markdown("[mail](mailto:a@b.c) [rel](./notes)");
    assert_eq!(
        items,
        vec![Item::Paragraph(Text::new(vec![plain("mail"), plain(" "), plain("rel")]))]
    );
}

#[test]
fn markdown_soft_and_hard_breaks() {
    let items = parse_markdown("a\nb  \nc");
    assert_eq!(
        items,
        vec![Item::Paragraph(Text::new(vec![
            plain("a"),
            plain(" "),
            plain("b"),
            plain("\n"),
            plain("c")
        ]))]
    );
}

#[test]
fn markdown_fenced_code_block_keeps_its_language() {
    let items = parse_markdown("```rust\nlet a = 1;\n```");
    assert_eq!(
        items,
        vec![Item::CodeBlock(Text::new(vec![Span::Highlight {
            text: "let a = 1;\n".to_string(),
            language: "rust".to_string()
        }]))]
    );
}

#[test]
fn markdown_tables_and_metadata_are_skipped() {
    let items = parse_markdown("---\ntitle: x\n---\n\n| a | b |\n|---|---|\n| 1 | 2 |\n\nafter");
    assert_eq!(items, vec![paragraph("after")]);
}

#[test]
fn markdown_ordered_list_keeps_its_start() {
    let items = parse_markdown("3. one\n4. two");
    assert_eq!(
        items,
        vec![Item::List {
            start: Some(3),
            items: vec![ListItems::new(vec![paragraph("one")]), ListItems::new(vec![paragraph("two")])]
        }]
    );
}

#[test]
fn fold_of_hand_written_events() {
    let events = vec![
        MarkdownEvent::StartList(None),
        MarkdownEvent::StartItem,
        MarkdownEvent::TaskListMarker { checked: true, start: 2, end: 5 },
        MarkdownEvent::Text("done".to_string()),
        MarkdownEvent::Text("rest".to_string()),
        MarkdownEvent::EndItem,
        MarkdownEvent::EndList,
        MarkdownEvent::Text("top".to_string()),
        MarkdownEvent::EndParagraph,
    ];
    assert_eq!(
        parse_events(&events),
        vec![
            Item::List {
                start: None,
                items: vec![ListItems {
                    beginner: ListItemBeginner::Checkbox { checked: true, range: 2..5 },
                    items: vec![paragraph("done"), paragraph("rest")]
                }]
            },
            paragraph("top")
        ]
    );
}

#[test]
fn fold_ignores_items_and_list_ends_outside_lists() {
    let events = vec![MarkdownEvent::StartItem, MarkdownEvent::EndList, MarkdownEvent::EndItem];
    assert_eq!(parse_events(&events), vec![]);
}
