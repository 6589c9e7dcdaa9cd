//! Task descriptions in Markdown: the parser's events are folded into
//! headings, paragraphs, code blocks and (nested) lists, with task list
//! check boxes and inline styles.
use pulldown_cmark::{CodeBlockKind, Event, HeadingLevel, Options, Parser, Tag, TagEnd};
use std::hash::{Hash, Hasher};
use std::ops::Range;
use crate::database::{project_of, Database};
use crate::project::{task_of, Task};
use vstd::prelude::*;

verus! {

#[verifier::external_type_specification]
#[verifier::external_body]
pub struct ExHeadingLevel(HeadingLevel);

/// The parser's extensions: tables, strikethrough, task lists, and metadata
/// blocks in YAML style and delimited by `+++`.
pub const MARKDOWN_OPTIONS: u32 = 0b1_1001_1010;

/// What a click in rendered Markdown asks for.
#[derive(Debug, PartialEq)]
pub enum MarkdownMessage {
    OpenUrl(String),
    ToggleCheckbox { checked: bool, range: Range<usize> },
}

/// How a list item begins: with its bullet or number, or with a task list
/// check box and the place of its `[ ]` in the source.
#[derive(Debug, PartialEq)]
pub enum ListItemBeginner {
    Default,
    Checkbox { checked: bool, range: Range<usize> },
}

impl Default for ListItemBeginner {
    fn default() -> (r: Self)
        ensures
            r is Default,
    {
        ListItemBeginner::Default
    }
}

/// A piece of text with its style.
#[derive(Debug, Clone, PartialEq)]
pub enum Span {
    Standard {
        text: String,
        strikethrough: bool,
        /// The web address that the text links to.
        link: Option<String>,
        strong: bool,
        emphasis: bool,
        code: bool,
    },
    /// A line of a fenced code block, with the block's language, for the
    /// syntax highlighter.
    Highlight { text: String, language: String },
}

/// The spans of a heading, paragraph or code block.
#[derive(Debug, Clone, PartialEq)]
pub struct Text {
    pub spans: Vec<Span>,
}

/// A Markdown block.
#[derive(Debug, PartialEq)]
pub enum Item {
    Heading(HeadingLevel, Text),
    Paragraph(Text),
    CodeBlock(Text),
    List { start: Option<u64>, items: Vec<ListItems> },
}

/// One item of a list: how it begins and the blocks it holds.
#[derive(Debug, PartialEq)]
pub struct ListItems {
    pub beginner: ListItemBeginner,
    pub items: Vec<Item>,
}

/// A span with its texts as character sequences.
pub enum SpanModel {
    Standard {
        text: Seq<char>,
        strikethrough: bool,
        link: Option<Seq<char>>,
        strong: bool,
        emphasis: bool,
        code: bool,
    },
    Highlight { text: Seq<char>, language: Seq<char> },
}

/// A block with its texts as character sequences.
pub enum ItemModel {
    Heading(HeadingLevel, Seq<SpanModel>),
    Paragraph(Seq<SpanModel>),
    CodeBlock(Seq<SpanModel>),
    List { start: Option<u64>, items: Seq<ListItemsModel> },
}

pub struct ListItemsModel {
    pub beginner: ListItemBeginner,
    pub items: Seq<ItemModel>,
}

pub open spec fn text_model(text: Option<String>) -> Option<Seq<char>> {
    match text {
        Some(t) => Some(t@),
        None => None,
    }
}

impl Span {
    pub open spec fn model(&self) -> SpanModel {
        match self {
            Span::Standard { text, strikethrough, link, strong, emphasis, code } => SpanModel::Standard {
                text: text@,
                strikethrough: *strikethrough,
                link: text_model(*link),
                strong: *strong,
                emphasis: *emphasis,
                code: *code,
            },
            Span::Highlight { text, language } => SpanModel::Highlight { text: text@, language: language@ },
        }
    }
}

pub open spec fn spans_model(spans: Seq<Span>) -> Seq<SpanModel> {
    spans.map_values(|s: Span| s.model())
}

impl Text {
    pub fn new(spans: Vec<Span>) -> (r: Self)
        ensures
            r.spans == spans,
    {
        Text { spans }
    }
}

impl Item {
    pub open spec fn model(&self) -> ItemModel
        decreases self,
    {
        match self {
            Item::Heading(level, text) => ItemModel::Heading(*level, spans_model(text.spans@)),
            Item::Paragraph(text) => ItemModel::Paragraph(spans_model(text.spans@)),
            Item::CodeBlock(text) => ItemModel::CodeBlock(spans_model(text.spans@)),
            Item::List { start, items } => ItemModel::List {
                start: *start,
                items: Seq::new(
                    items@.len(),
                    |i: int|
                        if 0 <= i < items@.len() {
                            items@[i].model()
                        } else {
                            ListItemsModel { beginner: ListItemBeginner::Default, items: Seq::empty() }
                        },
                ),
            },
        }
    }
}

impl ListItems {
    pub open spec fn model(&self) -> ListItemsModel
        decreases self,
    {
        ListItemsModel {
            beginner: self.beginner,
            items: Seq::new(
                self.items@.len(),
                |i: int|
                    if 0 <= i < self.items@.len() {
                        self.items@[i].model()
                    } else {
                        ItemModel::Paragraph(Seq::empty())
                    },
            ),
        }
    }

    /// A list item with the given blocks that begins with its bullet or
    /// number.
    pub fn new(items: Vec<Item>) -> (r: Self)
        ensures
            r.beginner is Default,
            r.items == items,
    {
        ListItems { items, beginner: ListItemBeginner::default() }
    }
}

pub open spec fn items_model(items: Seq<Item>) -> Seq<ItemModel> {
    Seq::new(items.len(), |i: int| items[i].model())
}

/// An event of the Markdown parser, as far as the blocks depend on it.
pub enum MarkdownEvent {
    StartStrong,
    StartEmphasis,
    StartStrikethrough,
    /// The start of a link, with its destination when that is a web
    /// (`http` or `https`) address, as the address parser writes it.
    StartLink(Option<String>),
    StartList(Option<u64>),
    StartItem,
    /// The start of a fenced code block, with its language.
    StartFencedCodeBlock(String),
    StartMetadataBlock,
    StartTable,
    EndHeading(HeadingLevel),
    EndStrong,
    EndEmphasis,
    EndStrikethrough,
    EndLink,
    EndParagraph,
    EndItem,
    EndList,
    EndCodeBlock,
    EndMetadataBlock,
    EndTable,
    Text(String),
    Code(String),
    SoftBreak,
    HardBreak,
    /// A task list check box and the place of its `[ ]` in the source.
    TaskListMarker { checked: bool, start: usize, end: usize },
    Other,
}

/// An event with its texts as character sequences.
pub enum EventModel {
    StartStrong,
    StartEmphasis,
    StartStrikethrough,
    StartLink(Option<Seq<char>>),
    StartList(Option<u64>),
    StartItem,
    StartFencedCodeBlock(Seq<char>),
    StartMetadataBlock,
    StartTable,
    EndHeading(HeadingLevel),
    EndStrong,
    EndEmphasis,
    EndStrikethrough,
    EndLink,
    EndParagraph,
    EndItem,
    EndList,
    EndCodeBlock,
    EndMetadataBlock,
    EndTable,
    Text(Seq<char>),
    Code(Seq<char>),
    SoftBreak,
    HardBreak,
    TaskListMarker { checked: bool, start: usize, end: usize },
    Other,
}

impl MarkdownEvent {
    pub open spec fn starts_tag(&self) -> bool {
        match *self {
            MarkdownEvent::StartStrong | MarkdownEvent::StartEmphasis
            | MarkdownEvent::StartStrikethrough | MarkdownEvent::StartLink(_)
            | MarkdownEvent::StartList(_) | MarkdownEvent::StartItem
            | MarkdownEvent::StartFencedCodeBlock(_) | MarkdownEvent::StartMetadataBlock
            | MarkdownEvent::StartTable => true,
            _ => false,
        }
    }

    pub open spec fn ends_tag(&self) -> bool {
        match *self {
            MarkdownEvent::EndHeading(_) | MarkdownEvent::EndStrong | MarkdownEvent::EndEmphasis
            | MarkdownEvent::EndStrikethrough | MarkdownEvent::EndLink
            | MarkdownEvent::EndParagraph | MarkdownEvent::EndItem | MarkdownEvent::EndList
            | MarkdownEvent::EndCodeBlock | MarkdownEvent::EndMetadataBlock
            | MarkdownEvent::EndTable => true,
            _ => false,
        }
    }

    /// The event starts a tag.
    #[verifier::when_used_as_spec(starts_tag)]
    pub fn is_start(&self) -> (r: bool)
        ensures
            r == self.starts_tag(),
    {
        match self {
            MarkdownEvent::StartStrong | MarkdownEvent::StartEmphasis
            | MarkdownEvent::StartStrikethrough | MarkdownEvent::StartLink(_)
            | MarkdownEvent::StartList(_) | MarkdownEvent::StartItem
            | MarkdownEvent::StartFencedCodeBlock(_) | MarkdownEvent::StartMetadataBlock
            | MarkdownEvent::StartTable => true,
            _ => false,
        }
    }

    /// The event ends a tag.
    #[verifier::when_used_as_spec(ends_tag)]
    pub fn is_end(&self) -> (r: bool)
        ensures
            r == self.ends_tag(),
    {
        match self {
            MarkdownEvent::EndHeading(_) | MarkdownEvent::EndStrong | MarkdownEvent::EndEmphasis
            | MarkdownEvent::EndStrikethrough | MarkdownEvent::EndLink
            | MarkdownEvent::EndParagraph | MarkdownEvent::EndItem | MarkdownEvent::EndList
            | MarkdownEvent::EndCodeBlock | MarkdownEvent::EndMetadataBlock
            | MarkdownEvent::EndTable => true,
            _ => false,
        }
    }

    pub open spec fn model(&self) -> EventModel {
        match self {
            MarkdownEvent::StartStrong => EventModel::StartStrong,
            MarkdownEvent::StartEmphasis => EventModel::StartEmphasis,
            MarkdownEvent::StartStrikethrough => EventModel::StartStrikethrough,
            MarkdownEvent::StartLink(url) => EventModel::StartLink(text_model(*url)),
            MarkdownEvent::StartList(first) => EventModel::StartList(*first),
            MarkdownEvent::StartItem => EventModel::StartItem,
            MarkdownEvent::StartFencedCodeBlock(language) => EventModel::StartFencedCodeBlock(language@),
            MarkdownEvent::StartMetadataBlock => EventModel::StartMetadataBlock,
            MarkdownEvent::StartTable => EventModel::StartTable,
            MarkdownEvent::EndHeading(level) => EventModel::EndHeading(*level),
            MarkdownEvent::EndStrong => EventModel::EndStrong,
            MarkdownEvent::EndEmphasis => EventModel::EndEmphasis,
            MarkdownEvent::EndStrikethrough => EventModel::EndStrikethrough,
            MarkdownEvent::EndLink => EventModel::EndLink,
            MarkdownEvent::EndParagraph => EventModel::EndParagraph,
            MarkdownEvent::EndItem => EventModel::EndItem,
            MarkdownEvent::EndList => EventModel::EndList,
            MarkdownEvent::EndCodeBlock => EventModel::EndCodeBlock,
            MarkdownEvent::EndMetadataBlock => EventModel::EndMetadataBlock,
            MarkdownEvent::EndTable => EventModel::EndTable,
            MarkdownEvent::Text(t) => EventModel::Text(t@),
            MarkdownEvent::Code(c) => EventModel::Code(c@),
            MarkdownEvent::SoftBreak => EventModel::SoftBreak,
            MarkdownEvent::HardBreak => EventModel::HardBreak,
            MarkdownEvent::TaskListMarker { checked, start, end } => EventModel::TaskListMarker {
                checked: *checked,
                start: *start,
                end: *end,
            },
            MarkdownEvent::Other => EventModel::Other,
        }
    }
}

pub open spec fn events_model(events: Seq<MarkdownEvent>) -> Seq<EventModel> {
    events.map_values(|e: MarkdownEvent| e.model())
}

/// What the parser yields for one event, without the tag of a start or an
/// end.
pub enum MarkdownEventKind {
    Start,
    End,
    Text(String),
    Code(String),
    SoftBreak,
    HardBreak,
    TaskListMarker { checked: bool, start: usize, end: usize },
    Other,
}

/// The tag of a start event.
pub enum MarkdownTag {
    Strong,
    Emphasis,
    Strikethrough,
    Link(String),
    List(Option<u64>),
    Item,
    FencedCodeBlock(String),
    MetadataBlock,
    Table,
    Other,
}

/// The tag of an end event.
pub enum MarkdownTagEnd {
    Heading(HeadingLevel),
    Strong,
    Emphasis,
    Strikethrough,
    Link,
    Paragraph,
    Item,
    List,
    CodeBlock,
    MetadataBlock,
    Table,
    Other,
}

/// The kinds of the events that the Markdown parser yields for a text with
/// the given extensions.
pub uninterp spec fn markdown_event_kinds_of(markdown: Seq<char>, options: u32) -> Seq<MarkdownEventKind>;

/// The tags of the parser's events, for the events that start one.
pub uninterp spec fn markdown_start_tags_of(markdown: Seq<char>, options: u32) -> Seq<MarkdownTag>;

/// The tags of the parser's events, for the events that end one.
pub uninterp spec fn markdown_end_tags_of(markdown: Seq<char>, options: u32) -> Seq<MarkdownTagEnd>;

/// What the address parser makes of a text: its scheme and its written
/// form, or nothing when it is no valid absolute address.
pub uninterp spec fn parsed_url(input: Seq<char>) -> Option<(Seq<char>, Seq<char>)>;

/// `pulldown_cmark::Parser::new_ext` with `into_offset_iter`, one entry per
/// event: its kind, the texts of text and code events, and the checked state
/// and byte range of task list markers. The result is named, not stated.
#[verifier::external_body]
fn markdown_event_kinds(markdown: &str, options: u32) -> (r: Vec<MarkdownEventKind>)
    ensures
        r@ == markdown_event_kinds_of(markdown@, options),
{
    let parser = Parser::new_ext(markdown, Options::from_bits_truncate(options));
    parser.into_offset_iter().map(|(event, range)| match event {
        Event::Start(_) => MarkdownEventKind::Start,
        Event::End(_) => MarkdownEventKind::End,
        Event::Text(text) => MarkdownEventKind::Text(text.into_string()),
        Event::Code(code) => MarkdownEventKind::Code(code.into_string()),
        Event::SoftBreak => MarkdownEventKind::SoftBreak,
        Event::HardBreak => MarkdownEventKind::HardBreak,
        Event::TaskListMarker(checked) => MarkdownEventKind::TaskListMarker { checked, start: range.start, end: range.end },
        _ => MarkdownEventKind::Other,
    }).collect()
}

/// `pulldown_cmark::Parser::new_ext`, one entry per event: the tag that a
/// start event starts, `Other` for other events. The result is named, not
/// stated.
#[verifier::external_body]
fn markdown_start_tags(markdown: &str, options: u32) -> (r: Vec<MarkdownTag>)
    ensures
        r@ == markdown_start_tags_of(markdown@, options),
{
    Parser::new_ext(markdown, Options::from_bits_truncate(options)).map(|event| match event {
        Event::Start(Tag::Strong) => MarkdownTag::Strong,
        Event::Start(Tag::Emphasis) => MarkdownTag::Emphasis,
        Event::Start(Tag::Strikethrough) => MarkdownTag::Strikethrough,
        Event::Start(Tag::Link { dest_url, .. }) => MarkdownTag::Link(dest_url.into_string()),
        Event::Start(Tag::List(first)) => MarkdownTag::List(first),
        Event::Start(Tag::Item) => MarkdownTag::Item,
        Event::Start(Tag::CodeBlock(CodeBlockKind::Fenced(lang))) => MarkdownTag::FencedCodeBlock(lang.into_string()),
        Event::Start(Tag::MetadataBlock(_)) => MarkdownTag::MetadataBlock,
        Event::Start(Tag::Table(_)) => MarkdownTag::Table,
        _ => MarkdownTag::Other,
    }).collect()
}

/// `pulldown_cmark::Parser::new_ext`, one entry per event: the tag that an
/// end event ends, `Other` for other events. The result is named, not
/// stated.
#[verifier::external_body]
fn markdown_end_tags(markdown: &str, options: u32) -> (r: Vec<MarkdownTagEnd>)
    ensures
        r@ == markdown_end_tags_of(markdown@, options),
{
    Parser::new_ext(markdown, Options::from_bits_truncate(options)).map(|event| match event {
        Event::End(TagEnd::Heading(level)) => MarkdownTagEnd::Heading(level),
        Event::End(TagEnd::Strong) => MarkdownTagEnd::Strong,
        Event::End(TagEnd::Emphasis) => MarkdownTagEnd::Emphasis,
        Event::End(TagEnd::Strikethrough) => MarkdownTagEnd::Strikethrough,
        Event::End(TagEnd::Link) => MarkdownTagEnd::Link,
        Event::End(TagEnd::Paragraph) => MarkdownTagEnd::Paragraph,
        Event::End(TagEnd::Item) => MarkdownTagEnd::Item,
        Event::End(TagEnd::List(_)) => MarkdownTagEnd::List,
        Event::End(TagEnd::CodeBlock) => MarkdownTagEnd::CodeBlock,
        Event::End(TagEnd::MetadataBlock(_)) => MarkdownTagEnd::MetadataBlock,
        Event::End(TagEnd::Table) => MarkdownTagEnd::Table,
        _ => MarkdownTagEnd::Other,
    }).collect()
}

/// `url::Url::parse`: the scheme and the written form (`Display`) of the
/// address, or `None` when the text is no valid absolute address. The result
/// is named, not stated.
#[verifier::external_body]
fn parse_url(input: &str) -> (r: Option<(String, String)>)
    ensures
        match r {
            Some((scheme, text)) => parsed_url(input@) == Some((scheme@, text@)),
            None => parsed_url(input@) is None,
        },
{
    match url::Url::parse(input) {
        Ok(url) => Some((url.scheme().to_string(), url.to_string())),
        Err(_) => None,
    }
}

/// The written form of a link destination that is a web address.
pub open spec fn web_address(destination: Seq<char>) -> Option<Seq<char>> {
    match parsed_url(destination) {
        Some((scheme, text)) => if scheme == seq!['h', 't', 't', 'p'] || scheme == seq![
            'h',
            't',
            't',
            'p',
            's',
        ] {
            Some(text)
        } else {
            None
        },
        None => None,
    }
}

/// The event that the parser's kind, start tag and end tag of one event make.
pub open spec fn combined_event(
    kind: MarkdownEventKind,
    start: MarkdownTag,
    end: MarkdownTagEnd,
) -> EventModel {
    match kind {
        MarkdownEventKind::Start => match start {
            MarkdownTag::Strong => EventModel::StartStrong,
            MarkdownTag::Emphasis => EventModel::StartEmphasis,
            MarkdownTag::Strikethrough => EventModel::StartStrikethrough,
            MarkdownTag::Link(destination) => EventModel::StartLink(web_address(destination@)),
            MarkdownTag::List(first) => EventModel::StartList(first),
            MarkdownTag::Item => EventModel::StartItem,
            MarkdownTag::FencedCodeBlock(language) => EventModel::StartFencedCodeBlock(language@),
            MarkdownTag::MetadataBlock => EventModel::StartMetadataBlock,
            MarkdownTag::Table => EventModel::StartTable,
            MarkdownTag::Other => EventModel::Other,
        },
        MarkdownEventKind::End => match end {
            MarkdownTagEnd::Heading(level) => EventModel::EndHeading(level),
            MarkdownTagEnd::Strong => EventModel::EndStrong,
            MarkdownTagEnd::Emphasis => EventModel::EndEmphasis,
            MarkdownTagEnd::Strikethrough => EventModel::EndStrikethrough,
            MarkdownTagEnd::Link => EventModel::EndLink,
            MarkdownTagEnd::Paragraph => EventModel::EndParagraph,
            MarkdownTagEnd::Item => EventModel::EndItem,
            MarkdownTagEnd::List => EventModel::EndList,
            MarkdownTagEnd::CodeBlock => EventModel::EndCodeBlock,
            MarkdownTagEnd::MetadataBlock => EventModel::EndMetadataBlock,
            MarkdownTagEnd::Table => EventModel::EndTable,
            MarkdownTagEnd::Other => EventModel::Other,
        },
        MarkdownEventKind::Text(t) => EventModel::Text(t@),
        MarkdownEventKind::Code(c) => EventModel::Code(c@),
        MarkdownEventKind::SoftBreak => EventModel::SoftBreak,
        MarkdownEventKind::HardBreak => EventModel::HardBreak,
        MarkdownEventKind::TaskListMarker { checked, start, end } => EventModel::TaskListMarker {
            checked,
            start,
            end,
        },
        MarkdownEventKind::Other => EventModel::Other,
    }
}

/// The events of a Markdown text, one for each entry that the three views of
/// the parser's events share.
pub open spec fn markdown_events_of(markdown: Seq<char>) -> Seq<EventModel> {
    let kinds = markdown_event_kinds_of(markdown, MARKDOWN_OPTIONS);
    let starts = markdown_start_tags_of(markdown, MARKDOWN_OPTIONS);
    let ends = markdown_end_tags_of(markdown, MARKDOWN_OPTIONS);
    let n = if kinds.len() <= starts.len() && kinds.len() <= ends.len() {
        kinds.len()
    } else if starts.len() <= ends.len() {
        starts.len()
    } else {
        ends.len()
    };
    Seq::new(n, |i: int| combined_event(kinds[i], starts[i], ends[i]))
}

/// The web address of a link destination, if it is one.
fn link_address(destination: &String) -> (r: Option<String>)
    ensures
        text_model(r) == web_address(destination@),
{
    let parsed = parse_url(destination.as_str());
    assert(parsed matches Some((scheme, text)) ==> parsed_url(destination@) == Some((scheme@, text@)));
    match parsed {
        Some((scheme, text)) => {
            let http = scheme == String::from_str("http");
            let https = scheme == String::from_str("https");
            proof {
                reveal_strlit("http");
                reveal_strlit("https");
                assert("http"@ =~= seq!['h', 't', 't', 'p']);
                assert("https"@ =~= seq!['h', 't', 't', 'p', 's']);
            }
            if http || https {
                Some(text)
            } else {
                None
            }
        },
        None => None,
    }
}

/// The event of one entry of the parser's three views.
fn combine_event(kind: &MarkdownEventKind, start: &MarkdownTag, end: &MarkdownTagEnd) -> (r:
    MarkdownEvent)
    ensures
        r.model() == combined_event(*kind, *start, *end),
{
    match kind {
        MarkdownEventKind::Start => match start {
            MarkdownTag::Strong => MarkdownEvent::StartStrong,
            MarkdownTag::Emphasis => MarkdownEvent::StartEmphasis,
            MarkdownTag::Strikethrough => MarkdownEvent::StartStrikethrough,
            MarkdownTag::Link(destination) => MarkdownEvent::StartLink(link_address(destination)),
            MarkdownTag::List(first) => MarkdownEvent::StartList(*first),
            MarkdownTag::Item => MarkdownEvent::StartItem,
            MarkdownTag::FencedCodeBlock(language) => MarkdownEvent::StartFencedCodeBlock(
                language.clone(),
            ),
            MarkdownTag::MetadataBlock => MarkdownEvent::StartMetadataBlock,
            MarkdownTag::Table => MarkdownEvent::StartTable,
            MarkdownTag::Other => MarkdownEvent::Other,
        },
        MarkdownEventKind::End => match end {
            MarkdownTagEnd::Heading(level) => MarkdownEvent::EndHeading(*level),
            MarkdownTagEnd::Strong => MarkdownEvent::EndStrong,
            MarkdownTagEnd::Emphasis => MarkdownEvent::EndEmphasis,
            MarkdownTagEnd::Strikethrough => MarkdownEvent::EndStrikethrough,
            MarkdownTagEnd::Link => MarkdownEvent::EndLink,
            MarkdownTagEnd::Paragraph => MarkdownEvent::EndParagraph,
            MarkdownTagEnd::Item => MarkdownEvent::EndItem,
            MarkdownTagEnd::List => MarkdownEvent::EndList,
            MarkdownTagEnd::CodeBlock => MarkdownEvent::EndCodeBlock,
            MarkdownTagEnd::MetadataBlock => MarkdownEvent::EndMetadataBlock,
            MarkdownTagEnd::Table => MarkdownEvent::EndTable,
            MarkdownTagEnd::Other => MarkdownEvent::Other,
        },
        MarkdownEventKind::Text(t) => MarkdownEvent::Text(t.clone()),
        MarkdownEventKind::Code(c) => MarkdownEvent::Code(c.clone()),
        MarkdownEventKind::SoftBreak => MarkdownEvent::SoftBreak,
        MarkdownEventKind::HardBreak => MarkdownEvent::HardBreak,
        MarkdownEventKind::TaskListMarker { checked, start, end } => MarkdownEvent::TaskListMarker {
            checked: *checked,
            start: *start,
            end: *end,
        },
        MarkdownEventKind::Other => MarkdownEvent::Other,
    }
}

/// The events that the Markdown parser yields for a text.
pub fn markdown_events(markdown: &str) -> (r: Vec<MarkdownEvent>)
    ensures
        events_model(r@) == markdown_events_of(markdown@),
{
    let kinds = markdown_event_kinds(markdown, MARKDOWN_OPTIONS);
    let starts = markdown_start_tags(markdown, MARKDOWN_OPTIONS);
    let ends = markdown_end_tags(markdown, MARKDOWN_OPTIONS);
    let n = if kinds.len() <= starts.len() && kinds.len() <= ends.len() {
        kinds.len()
    } else if starts.len() <= ends.len() {
        starts.len()
    } else {
        ends.len()
    };
    let mut events: Vec<MarkdownEvent> = Vec::new();
    let mut i: usize = 0;
    while i < n
        invariant
            i <= n,
            n <= kinds.len(),
            n <= starts.len(),
            n <= ends.len(),
            kinds@ == markdown_event_kinds_of(markdown@, MARKDOWN_OPTIONS),
            starts@ == markdown_start_tags_of(markdown@, MARKDOWN_OPTIONS),
            ends@ == markdown_end_tags_of(markdown@, MARKDOWN_OPTIONS),
            n == markdown_events_of(markdown@).len(),
            events@.len() == i,
            forall|j: int| 0 <= j < i ==> #[trigger] events@[j].model() == markdown_events_of(markdown@)[j],
        decreases n - i,
    {
        let e = combine_event(&kinds[i], &starts[i], &ends[i]);
        events.push(e);
        i = i + 1;
    }
    assert(events_model(events@) =~= markdown_events_of(markdown@));
    events
}


/// A list being read: its start number and its items so far.
pub struct ListFrameModel {
    pub start: Option<u64>,
    pub items: Seq<ListItemsModel>,
}

/// What the fold over the events keeps between two events.
pub struct ParseState {
    /// The spans of the block being read.
    pub spans: Seq<SpanModel>,
    pub strong: bool,
    pub emphasis: bool,
    pub strikethrough: bool,
    /// Inside a metadata block, whose content is skipped.
    pub metadata: bool,
    /// Inside a table, whose content is skipped.
    pub table: bool,
    /// The web address of the link being read.
    pub link: Option<Seq<char>>,
    /// The lists being read, the innermost last.
    pub lists: Seq<ListFrameModel>,
    /// A task list marker was read; the next text ends its paragraph.
    pub task_hint: bool,
    /// The language of the fenced code block being read.
    pub highlight: Option<Seq<char>>,
}

pub open spec fn initial_state() -> ParseState {
    ParseState {
        spans: Seq::empty(),
        strong: false,
        emphasis: false,
        strikethrough: false,
        metadata: false,
        table: false,
        link: None,
        lists: Seq::empty(),
        task_hint: false,
        highlight: None,
    }
}

/// Outside metadata blocks and tables.
pub open spec fn active(st: ParseState) -> bool {
    !st.metadata && !st.table
}

/// A span of the given text in the current style.
pub open spec fn styled(st: ParseState, text: Seq<char>, code: bool) -> SpanModel {
    SpanModel::Standard {
        text,
        strikethrough: st.strikethrough,
        link: st.link,
        strong: st.strong,
        emphasis: st.emphasis,
        code,
    }
}

pub open spec fn with_span(st: ParseState, span: SpanModel) -> ParseState {
    ParseState { spans: st.spans.push(span), ..st }
}

pub open spec fn without_spans(st: ParseState) -> ParseState {
    ParseState { spans: Seq::empty(), ..st }
}

/// A finished block goes into the last item of the innermost list, or out
/// of the fold when no list is being read. A block in a list without items
/// is dropped (the parser yields none).
pub open spec fn produce(st: ParseState, item: ItemModel) -> (ParseState, Option<ItemModel>) {
    if st.lists.len() == 0 {
        (st, Some(item))
    } else {
        let frame = st.lists.last();
        if frame.items.len() == 0 {
            (st, None)
        } else {
            let last = frame.items.last();
            let new_last = ListItemsModel { beginner: last.beginner, items: last.items.push(item) };
            let new_frame = ListFrameModel {
                start: frame.start,
                items: frame.items.update(frame.items.len() - 1, new_last),
            };
            (ParseState { lists: st.lists.update(st.lists.len() - 1, new_frame), ..st }, None)
        }
    }
}

/// The collected spans, if there are any, become a paragraph.
pub open spec fn paragraph_of_spans(st: ParseState) -> (ParseState, Option<ItemModel>) {
    if st.spans.len() == 0 {
        (st, None)
    } else {
        produce(without_spans(st), ItemModel::Paragraph(st.spans))
    }
}

/// The state and the finished block, if any, after one event.
pub open spec fn step(st: ParseState, e: EventModel) -> (ParseState, Option<ItemModel>) {
    let on = active(st);
    match e {
        EventModel::StartStrong => (if on { ParseState { strong: true, ..st } } else { st }, None),
        EventModel::StartEmphasis => (if on { ParseState { emphasis: true, ..st } } else { st }, None),
        EventModel::StartStrikethrough => (
            if on { ParseState { strikethrough: true, ..st } } else { st },
            None,
        ),
        EventModel::StartLink(address) => (
            if on && address is Some { ParseState { link: address, ..st } } else { st },
            None,
        ),
        EventModel::StartList(first) => if on {
            let (st1, out) = paragraph_of_spans(st);
            (
                ParseState {
                    lists: st1.lists.push(ListFrameModel { start: first, items: Seq::empty() }),
                    ..st1
                },
                out,
            )
        } else {
            (st, None)
        },
        EventModel::StartItem => if st.lists.len() == 0 {
            (st, None)
        } else {
            let frame = st.lists.last();
            let new_frame = ListFrameModel {
                start: frame.start,
                items: frame.items.push(
                    ListItemsModel { beginner: ListItemBeginner::Default, items: Seq::empty() },
                ),
            };
            (ParseState { lists: st.lists.update(st.lists.len() - 1, new_frame), ..st }, None)
        },
        EventModel::StartFencedCodeBlock(language) => (
            if on { ParseState { highlight: Some(language), ..st } } else { st },
            None,
        ),
        EventModel::StartMetadataBlock => (ParseState { metadata: true, ..st }, None),
        EventModel::StartTable => (ParseState { table: true, ..st }, None),
        EventModel::EndHeading(level) => if on {
            produce(without_spans(st), ItemModel::Heading(level, st.spans))
        } else {
            (st, None)
        },
        EventModel::EndStrong => (if on { ParseState { strong: false, ..st } } else { st }, None),
        EventModel::EndEmphasis => (if on { ParseState { emphasis: false, ..st } } else { st }, None),
        EventModel::EndStrikethrough => (
            if on { ParseState { strikethrough: false, ..st } } else { st },
            None,
        ),
        EventModel::EndLink => (if on { ParseState { link: None, ..st } } else { st }, None),
        EventModel::EndParagraph | EventModel::EndItem => if on {
            paragraph_of_spans(st)
        } else {
            (st, None)
        },
        EventModel::EndList => if on && st.lists.len() > 0 {
            let frame = st.lists.last();
            produce(
                ParseState { lists: st.lists.drop_last(), ..st },
                ItemModel::List { start: frame.start, items: frame.items },
            )
        } else {
            (st, None)
        },
        EventModel::EndCodeBlock => if on {
            produce(
                ParseState { highlight: None, ..without_spans(st) },
                ItemModel::CodeBlock(st.spans),
            )
        } else {
            (st, None)
        },
        EventModel::EndMetadataBlock => (ParseState { metadata: false, ..st }, None),
        EventModel::EndTable => (ParseState { table: false, ..st }, None),
        EventModel::Text(text) => if !on {
            (st, None)
        } else {
            match st.highlight {
                Some(language) => (with_span(st, SpanModel::Highlight { text, language }), None),
                None => {
                    let st1 = with_span(st, styled(st, text, false));
                    if st.task_hint {
                        produce(
                            ParseState { task_hint: false, ..without_spans(st1) },
                            ItemModel::Paragraph(st1.spans),
                        )
                    } else {
                        (st1, None)
                    }
                },
            }
        },
        EventModel::Code(code) => (if on { with_span(st, styled(st, code, true)) } else { st }, None),
        EventModel::SoftBreak => (
            if on { with_span(st, styled(st, seq![' '], false)) } else { st },
            None,
        ),
        EventModel::HardBreak => (
            if on { with_span(st, styled(st, seq!['\n'], false)) } else { st },
            None,
        ),
        EventModel::TaskListMarker { checked, start, end } => if on {
            let st1 = if st.lists.len() > 0 && st.lists.last().items.len() > 0 {
                let frame = st.lists.last();
                let last = frame.items.last();
                let new_last = ListItemsModel {
                    beginner: ListItemBeginner::Checkbox { checked, range: Range { start, end } },
                    items: last.items,
                };
                let new_frame = ListFrameModel {
                    start: frame.start,
                    items: frame.items.update(frame.items.len() - 1, new_last),
                };
                ParseState { lists: st.lists.update(st.lists.len() - 1, new_frame), ..st }
            } else {
                st
            };
            (ParseState { task_hint: true, ..st1 }, None)
        } else {
            (st, None)
        },
        EventModel::Other => (st, None),
    }
}

/// The state after the events and the blocks that came out of the fold.
pub open spec fn run(events: Seq<EventModel>) -> (ParseState, Seq<ItemModel>)
    decreases events.len(),
{
    if events.len() == 0 {
        (initial_state(), Seq::empty())
    } else {
        let (st, out) = run(events.drop_last());
        let (st2, item) = step(st, events.last());
        (
            st2,
            match item {
                Some(i) => out.push(i),
                None => out,
            },
        )
    }
}

/// The blocks of a Markdown text given by its events.
pub open spec fn parsed(events: Seq<EventModel>) -> Seq<ItemModel> {
    run(events).1
}


pub open spec fn list_items_model(items: Seq<ListItems>) -> Seq<ListItemsModel> {
    Seq::new(items.len(), |i: int| items[i].model())
}

pub open spec fn item_option_model(item: Option<Item>) -> Option<ItemModel> {
    match item {
        Some(i) => Some(i.model()),
        None => None,
    }
}

proof fn lemma_list_items_model(li: ListItems)
    ensures
        li.model() == (ListItemsModel { beginner: li.beginner, items: items_model(li.items@) }),
{
    assert(li.model().items =~= items_model(li.items@));
}

proof fn lemma_list_model(start: Option<u64>, items: Vec<ListItems>)
    ensures
        (Item::List { start, items }).model() == (ItemModel::List {
            start,
            items: list_items_model(items@),
        }),
{
    assert((Item::List { start, items }).model()->items =~= list_items_model(items@));
}

/// A list being read.
struct ListFrame {
    start: Option<u64>,
    items: Vec<ListItems>,
}

impl ListFrame {
    spec fn model(&self) -> ListFrameModel {
        ListFrameModel { start: self.start, items: list_items_model(self.items@) }
    }
}

spec fn frames_model(frames: Seq<ListFrame>) -> Seq<ListFrameModel> {
    Seq::new(frames.len(), |i: int| frames[i].model())
}

/// The fold's state.
struct MarkdownFold {
    spans: Vec<Span>,
    strong: bool,
    emphasis: bool,
    strikethrough: bool,
    metadata: bool,
    table: bool,
    link: Option<String>,
    lists: Vec<ListFrame>,
    task_hint: bool,
    highlight: Option<String>,
}

fn clone_text(text: &Option<String>) -> (r: Option<String>)
    ensures
        r == *text,
{
    match text {
        Some(t) => Some(t.clone()),
        None => None,
    }
}

impl MarkdownFold {
    spec fn model(&self) -> ParseState {
        ParseState {
            spans: spans_model(self.spans@),
            strong: self.strong,
            emphasis: self.emphasis,
            strikethrough: self.strikethrough,
            metadata: self.metadata,
            table: self.table,
            link: text_model(self.link),
            lists: frames_model(self.lists@),
            task_hint: self.task_hint,
            highlight: text_model(self.highlight),
        }
    }

    fn new() -> (r: Self)
        ensures
            r.model() == initial_state(),
    {
        let r = MarkdownFold {
            spans: Vec::new(),
            strong: false,
            emphasis: false,
            strikethrough: false,
            metadata: false,
            table: false,
            link: None,
            lists: Vec::new(),
            task_hint: false,
            highlight: None,
        };
        assert(r.model().spans =~= Seq::<SpanModel>::empty());
        assert(r.model().lists =~= Seq::<ListFrameModel>::empty());
        r
    }

    fn active(&self) -> (r: bool)
        ensures
            r == active(self.model()),
    {
        !self.metadata && !self.table
    }

    /// The collected spans, which are cleared.
    fn take_spans(&mut self) -> (r: Vec<Span>)
        ensures
            final(self).model() == without_spans(old(self).model()),
            spans_model(r@) == old(self).model().spans,
    {
        let mut spans = Vec::new();
        std::mem::swap(&mut spans, &mut self.spans);
        assert(self.model().spans =~= Seq::<SpanModel>::empty());
        spans
    }

    fn push_span(&mut self, span: Span)
        ensures
            final(self).model() == with_span(old(self).model(), span.model()),
    {
        self.spans.push(span);
        assert(self.model().spans =~= old(self).model().spans.push(span.model()));
    }

    fn styled(&self, text: String, code: bool) -> (r: Span)
        ensures
            r.model() == styled(self.model(), text@, code),
    {
        Span::Standard {
            text,
            strikethrough: self.strikethrough,
            link: clone_text(&self.link),
            strong: self.strong,
            emphasis: self.emphasis,
            code,
        }
    }

    fn produce(&mut self, item: Item) -> (r: Option<Item>)
        ensures
            (final(self).model(), item_option_model(r)) == produce(old(self).model(), item.model()),
    {
        let n = self.lists.len();
        if n == 0 {
            return Some(item);
        }
        let ghost old_model = self.model();
        let mut frame = self.lists.pop().unwrap();
        let m = frame.items.len();
        if m == 0 {
            self.lists.push(frame);
            assert(self.lists@ =~= old(self).lists@);
            return None;
        }
        let mut last = frame.items.pop().unwrap();
        proof {
            lemma_list_items_model(last);
        }
        let ghost item_model = item.model();
        last.items.push(item);
        proof {
            lemma_list_items_model(last);
            assert(items_model(last.items@) =~= old_model.lists.last().items.last().items.push(
                item_model,
            ));
        }
        frame.items.push(last);
        assert(list_items_model(frame.items@) =~= old_model.lists.last().items.update(
            m - 1,
            last.model(),
        ));
        self.lists.push(frame);
        assert(frames_model(self.lists@) =~= old_model.lists.update(n - 1, frame.model()));
        None
    }

    /// The collected spans, if there are any, become a paragraph.
    fn paragraph_of_spans(&mut self) -> (r: Option<Item>)
        ensures
            (final(self).model(), item_option_model(r)) == paragraph_of_spans(old(self).model()),
    {
        if self.spans.len() == 0 {
            assert(old(self).model().spans.len() == 0);
            None
        } else {
            let spans = self.take_spans();
            self.produce(Item::Paragraph(Text::new(spans)))
        }
    }

    fn start_item(&mut self)
        ensures
            (final(self).model(), None::<ItemModel>) == step(old(self).model(), EventModel::StartItem),
    {
        let n = self.lists.len();
        if n == 0 {
            return;
        }
        let ghost old_model = self.model();
        let mut frame = self.lists.pop().unwrap();
        let new_item = ListItems { beginner: ListItemBeginner::Default, items: Vec::new() };
        proof {
            lemma_list_items_model(new_item);
            assert(items_model(new_item.items@) =~= Seq::<ItemModel>::empty());
        }
        frame.items.push(new_item);
        assert(list_items_model(frame.items@) =~= old_model.lists.last().items.push(
            new_item.model(),
        ));
        self.lists.push(frame);
        assert(frames_model(self.lists@) =~= old_model.lists.update(n - 1, frame.model()));
    }

    fn task_list_marker(&mut self, checked: bool, start: usize, end: usize)
        requires
            active(old(self).model()),
        ensures
            (final(self).model(), None::<ItemModel>) == step(
                old(self).model(),
                EventModel::TaskListMarker { checked, start, end },
            ),
    {
        let n = self.lists.len();
        let ghost old_model = self.model();
        if n > 0 {
            let mut frame = self.lists.pop().unwrap();
            let m = frame.items.len();
            if m > 0 {
                let mut last = frame.items.pop().unwrap();
                proof {
                    lemma_list_items_model(last);
                }
                last.beginner = ListItemBeginner::Checkbox { checked, range: Range { start, end } };
                proof {
                    lemma_list_items_model(last);
                }
                frame.items.push(last);
                assert(list_items_model(frame.items@) =~= old_model.lists.last().items.update(
                    m - 1,
                    last.model(),
                ));
            }
            self.lists.push(frame);
            if m > 0 {
                assert(frames_model(self.lists@) =~= old_model.lists.update(n - 1, frame.model()));
            } else {
                assert(self.lists@ =~= old(self).lists@);
            }
        }
        self.task_hint = true;
    }

    fn end_list(&mut self) -> (r: Option<Item>)
        requires
            active(old(self).model()),
        ensures
            (final(self).model(), item_option_model(r)) == step(old(self).model(), EventModel::EndList),
    {
        let n = self.lists.len();
        if n == 0 {
            return None;
        }
        let ghost old_model = self.model();
        let frame = self.lists.pop().unwrap();
        assert(frames_model(self.lists@) =~= old_model.lists.drop_last());
        let list = Item::List { start: frame.start, items: frame.items };
        proof {
            lemma_list_model(frame.start, frame.items);
        }
        self.produce(list)
    }

    /// A start event.
    fn step_start(&mut self, event: &MarkdownEvent) -> (r: Option<Item>)
        requires
            event.is_start(),
        ensures
            (final(self).model(), item_option_model(r)) == step(old(self).model(), event.model()),
    {
        let on = self.active();
        match event {
            MarkdownEvent::StartStrong => {
                if on {
                    self.strong = true;
                }
                None
            },
            MarkdownEvent::StartEmphasis => {
                if on {
                    self.emphasis = true;
                }
                None
            },
            MarkdownEvent::StartStrikethrough => {
                if on {
                    self.strikethrough = true;
                }
                None
            },
            MarkdownEvent::StartLink(address) => {
                if on && address.is_some() {
                    self.link = clone_text(address);
                }
                None
            },
            MarkdownEvent::StartList(first) => {
                if on {
                    let out = self.paragraph_of_spans();
                    let ghost mid = self.model();
                    self.lists.push(ListFrame { start: *first, items: Vec::new() });
                    assert(list_items_model(Seq::<ListItems>::empty()) =~= Seq::<ListItemsModel>::empty());
                    assert(frames_model(self.lists@) =~= mid.lists.push(
                        ListFrameModel { start: *first, items: Seq::empty() },
                    ));
                    out
                } else {
                    None
                }
            },
            MarkdownEvent::StartItem => {
                self.start_item();
                None
            },
            MarkdownEvent::StartFencedCodeBlock(language) => {
                if on {
                    self.highlight = Some(language.clone());
                }
                None
            },
            MarkdownEvent::StartMetadataBlock => {
                self.metadata = true;
                None
            },
            MarkdownEvent::StartTable => {
                self.table = true;
                None
            },
            _ => None,
        }
    }

    /// An end event.
    fn step_end(&mut self, event: &MarkdownEvent) -> (r: Option<Item>)
        requires
            event.is_end(),
        ensures
            (final(self).model(), item_option_model(r)) == step(old(self).model(), event.model()),
    {
        let on = self.active();
        match event {
            MarkdownEvent::EndHeading(level) => {
                if on {
                    let spans = self.take_spans();
                    self.produce(Item::Heading(*level, Text::new(spans)))
                } else {
                    None
                }
            },
            MarkdownEvent::EndStrong => {
                if on {
                    self.strong = false;
                }
                None
            },
            MarkdownEvent::EndEmphasis => {
                if on {
                    self.emphasis = false;
                }
                None
            },
            MarkdownEvent::EndStrikethrough => {
                if on {
                    self.strikethrough = false;
                }
                None
            },
            MarkdownEvent::EndLink => {
                if on {
                    self.link = None;
                }
                None
            },
            MarkdownEvent::EndParagraph | MarkdownEvent::EndItem => {
                if on {
                    self.paragraph_of_spans()
                } else {
                    None
                }
            },
            MarkdownEvent::EndList => {
                if on {
                    self.end_list()
                } else {
                    None
                }
            },
            MarkdownEvent::EndCodeBlock => {
                if on {
                    self.highlight = None;
                    let spans = self.take_spans();
                    self.produce(Item::CodeBlock(Text::new(spans)))
                } else {
                    None
                }
            },
            MarkdownEvent::EndMetadataBlock => {
                self.metadata = false;
                None
            },
            MarkdownEvent::EndTable => {
                self.table = false;
                None
            },
            _ => None,
        }
    }

    /// A text, a break or a task list marker.
    fn step_inline(&mut self, event: &MarkdownEvent) -> (r: Option<Item>)
        requires
            !event.is_start() && !event.is_end(),
        ensures
            (final(self).model(), item_option_model(r)) == step(old(self).model(), event.model()),
    {
        let on = self.active();
        match event {
            MarkdownEvent::Text(text) => {
                if !on {
                    return None;
                }
                match &self.highlight {
                    Some(language) => {
                        let span = Span::Highlight { text: text.clone(), language: language.clone() };
                        self.push_span(span);
                        None
                    },
                    None => {
                        let span = self.styled(text.clone(), false);
                        self.push_span(span);
                        if self.task_hint {
                            self.task_hint = false;
                            let spans = self.take_spans();
                            self.produce(Item::Paragraph(Text::new(spans)))
                        } else {
                            None
                        }
                    },
                }
            },
            MarkdownEvent::Code(code) => {
                if on {
                    let span = self.styled(code.clone(), true);
                    self.push_span(span);
                }
                None
            },
            MarkdownEvent::SoftBreak => {
                if on {
                    let space = String::from_str(" ");
                    proof {
                        reveal_strlit(" ");
                        assert(" "@ =~= seq![' ']);
                    }
                    let span = self.styled(space, false);
                    self.push_span(span);
                }
                None
            },
            MarkdownEvent::HardBreak => {
                if on {
                    let newline = String::from_str("\n");
                    proof {
                        reveal_strlit("\n");
                        assert("\n"@ =~= seq!['\n']);
                    }
                    let span = self.styled(newline, false);
                    self.push_span(span);
                }
                None
            },
            MarkdownEvent::TaskListMarker { checked, start, end } => {
                if on {
                    self.task_list_marker(*checked, *start, *end);
                }
                None
            },
            _ => None,
        }
    }

    /// One event.
    fn step(&mut self, event: &MarkdownEvent) -> (r: Option<Item>)
        ensures
            (final(self).model(), item_option_model(r)) == step(old(self).model(), event.model()),
    {
        if event.is_start() {
            self.step_start(event)
        } else if event.is_end() {
            self.step_end(event)
        } else {
            self.step_inline(event)
        }
    }
}

/// Folds the parser's events into blocks: headings, paragraphs, code blocks
/// and lists, whose items hold blocks of their own and may begin with a task
/// list check box. Inline styles and links go into the spans; metadata
/// blocks and tables are skipped.
pub fn parse_events(events: &Vec<MarkdownEvent>) -> (r: Vec<Item>)
    ensures
        items_model(r@) == parsed(events_model(events@)),
{
    let mut fold = MarkdownFold::new();
    let mut items: Vec<Item> = Vec::new();
    let ghost model = events_model(events@);
    let mut i: usize = 0;
    assert(model.take(0) =~= Seq::<EventModel>::empty());
    assert(items_model(items@) =~= Seq::<ItemModel>::empty());
    while i < events.len()
        invariant
            i <= events.len(),
            model == events_model(events@),
            (fold.model(), items_model(items@)) == run(model.take(i as int)),
        decreases events.len() - i,
    {
        assert(model.take(i + 1).drop_last() =~= model.take(i as int));
        assert(model.take(i + 1).last() == events@[i as int].model());
        let ghost before = items_model(items@);
        match fold.step(&events[i]) {
            Some(item) => {
                items.push(item);
                assert(items_model(items@) =~= before.push(item.model()));
            },
            None => {},
        }
        i = i + 1;
    }
    assert(model.take(events.len() as int) =~= model);
    items
}

/// The blocks of a Markdown text.
pub fn advanced_parse(markdown: &str) -> (r: Vec<Item>)
    ensures
        items_model(r@) == parsed(markdown_events_of(markdown@)),
{
    let events = markdown_events(markdown);
    parse_events(&events)
}

/// The blocks of a Markdown text, for display.
pub fn parse_markdown(markdown: &str) -> (r: Vec<Item>)
    ensures
        items_model(r@) == parsed(markdown_events_of(markdown@)),
{
    advanced_parse(markdown)
}

} // verus!

verus! {

/// The hash of a text that `DefaultHasher` gives: a function of the text
/// alone (`DefaultHasher::new` is not seeded), whose algorithm std leaves
/// unspecified.
pub uninterp spec fn description_hash_of(text: Seq<char>) -> u64;

/// `DefaultHasher::new` with `Hash::hash` and `Hasher::finish` (std): the
/// hash of a text. The hash is named, not stated.
#[verifier::external_body]
fn description_hash(text: &str) -> (r: u64)
    ensures
        r == description_hash_of(text@),
{
    let mut hasher = std::collections::hash_map::DefaultHasher::new();
    text.hash(&mut hasher);
    hasher.finish()
}

/// The blocks of a task's description with the hash of the description
/// they were made of.
#[derive(Debug)]
pub struct CachedTaskDescriptionMarkdownItems {
    pub task_description_hash: u64,
    pub items: Vec<Item>,
}

/// The blocks of the tasks' descriptions, kept until a description changes.
#[derive(Debug)]
pub struct TaskDescriptionMarkdownStorage {
    pub storage: std::collections::HashMap<u64, CachedTaskDescriptionMarkdownItems>,
}

impl TaskDescriptionMarkdownStorage {
    pub fn new() -> (r: Self)
        ensures
            r.storage@.is_empty(),
    {
        TaskDescriptionMarkdownStorage { storage: std::collections::HashMap::new() }
    }

    /// The blocks of a task's description: those kept for the task while
    /// the hash of the description is the one kept with them, else the
    /// description parsed again, which replaces them (the kept hash stays).
    /// A task with nothing kept gets its description parsed and kept with
    /// its hash.
    pub fn get_from_str(&mut self, task_id: u64, task_description: &str) -> (r: &Vec<Item>)
        ensures
            final(self).storage@.contains_key(task_id),
            *r == final(self).storage@[task_id].items,
            match old(self).storage@.get(task_id) {
                Some(cached) => if cached.task_description_hash == description_hash_of(task_description@) {
                    final(self).storage@ == old(self).storage@
                } else {
                    &&& final(self).storage@[task_id].task_description_hash == cached.task_description_hash
                    &&& items_model(r@) == parsed(markdown_events_of(task_description@))
                },
                None => {
                    &&& final(self).storage@[task_id].task_description_hash == description_hash_of(
                        task_description@,
                    )
                    &&& items_model(r@) == parsed(markdown_events_of(task_description@))
                },
            },
            forall|other: u64| other != task_id ==> #[trigger] final(self).storage@.contains_key(other)
                == old(self).storage@.contains_key(other) && (final(self).storage@.contains_key(other)
                ==> final(self).storage@[other] == old(self).storage@[other]),
    {
        proof {
            broadcast use vstd::std_specs::hash::group_hash_axioms;

        }
        let hash = description_hash(task_description);
        let stored_hash = match self.storage.get(&task_id) {
            Some(cached) => Some(cached.task_description_hash),
            None => None,
        };
        match stored_hash {
            Some(h) => {
                if h != hash {
                    let items = parse_markdown(task_description);
                    self.storage.insert(task_id, CachedTaskDescriptionMarkdownItems { task_description_hash: h, items });
                }
            },
            None => {
                let items = parse_markdown(task_description);
                self.storage.insert(task_id, CachedTaskDescriptionMarkdownItems { task_description_hash: hash, items });
            },
        }
        &self.storage.get(&task_id).unwrap().items
    }

    /// The blocks of a task's description.
    pub fn get_from_task(&mut self, task_id: u64, task: &Task) -> (r: &Vec<Item>)
        ensures
            final(self).storage@.contains_key(task_id),
            *r == final(self).storage@[task_id].items,
            match old(self).storage@.get(task_id) {
                Some(cached) => if cached.task_description_hash == description_hash_of(task.description@) {
                    final(self).storage@ == old(self).storage@
                } else {
                    &&& final(self).storage@[task_id].task_description_hash == cached.task_description_hash
                    &&& items_model(r@) == parsed(markdown_events_of(task.description@))
                },
                None => {
                    &&& final(self).storage@[task_id].task_description_hash == description_hash_of(
                        task.description@,
                    )
                    &&& items_model(r@) == parsed(markdown_events_of(task.description@))
                },
            },
            forall|other: u64| other != task_id ==> #[trigger] final(self).storage@.contains_key(other)
                == old(self).storage@.contains_key(other) && (final(self).storage@.contains_key(other)
                ==> final(self).storage@[other] == old(self).storage@[other]),
    {
        self.get_from_str(task_id, task.description.as_str())
    }

    /// The blocks of the description of a task of the database, if it holds
    /// the task.
    pub fn get(&mut self, project_id: u64, task_id: u64, database: Option<&Database>) -> (r: Option<&Vec<Item>>)
        ensures
            match r {
                Some(items) => database matches Some(db) && project_of(*db, project_id) matches Some(p) && task_of(
                    p,
                    task_id,
                ) matches Some(t) && (items_model(items@) == parsed(markdown_events_of(t.description@)) || (old(
                    self,
                ).storage@.contains_key(task_id) && items@ == old(self).storage@[task_id].items@)),
                None => database is None || project_of(*database->0, project_id) is None || task_of(
                    project_of(*database->0, project_id)->0,
                    task_id,
                ) is None,
            },
    {
        match database {
            Some(db) => match db.get_project(&project_id) {
                Some(project) => match project.get_task(&task_id) {
                    Some(task) => Some(self.get_from_task(task_id, task)),
                    None => None,
                },
                None => None,
            },
            None => None,
        }
    }
}

} // verus!

verus! {

/// Every paragraph of a block, at any depth of lists, has at least one span.
pub open spec fn paragraphs_filled(item: ItemModel) -> bool
    decreases item,
{
    match item {
        ItemModel::Paragraph(spans) => spans.len() > 0,
        ItemModel::List { items, .. } => forall|i: int, j: int|
            0 <= i < items.len() && 0 <= j < items[i].items.len() ==> paragraphs_filled(
                #[trigger] items[i].items[j],
            ),
        _ => true,
    }
}

/// Every block of the lists being read has its paragraphs filled.
pub open spec fn lists_filled(lists: Seq<ListFrameModel>) -> bool {
    forall|f: int, i: int, j: int|
        0 <= f < lists.len() && 0 <= i < lists[f].items.len() && 0 <= j < lists[f].items[i].items.len()
            ==> paragraphs_filled(#[trigger] lists[f].items[i].items[j])
}

proof fn lemma_produce_keeps_filled(st: ParseState, item: ItemModel)
    requires
        lists_filled(st.lists),
        paragraphs_filled(item),
    ensures
        lists_filled(produce(st, item).0.lists),
        produce(st, item).1 matches Some(out) ==> paragraphs_filled(out),
{
    if st.lists.len() > 0 {
        let frame = st.lists.last();
        if frame.items.len() > 0 {
            let last = frame.items.last();
            let new_last = ListItemsModel { beginner: last.beginner, items: last.items.push(item) };
            let new_frame = ListFrameModel {
                start: frame.start,
                items: frame.items.update(frame.items.len() - 1, new_last),
            };
            let lists = st.lists.update(st.lists.len() - 1, new_frame);
            assert(produce(st, item).0.lists == lists);
            assert forall|f: int, i: int, j: int|
                0 <= f < lists.len() && 0 <= i < lists[f].items.len() && 0 <= j
                    < lists[f].items[i].items.len() implies paragraphs_filled(
                #[trigger] lists[f].items[i].items[j],
            ) by {
                if f == st.lists.len() - 1 && i == frame.items.len() - 1 {
                    if j < last.items.len() {
                        assert(lists[f].items[i].items[j] == st.lists[f].items[i].items[j]);
                    }
                } else {
                    assert(lists[f].items[i].items[j] == st.lists[f].items[i].items[j]);
                }
            }
        }
    }
}

proof fn lemma_paragraph_of_spans_keeps_filled(st: ParseState)
    requires
        lists_filled(st.lists),
    ensures
        lists_filled(paragraph_of_spans(st).0.lists),
        paragraph_of_spans(st).1 matches Some(out) ==> paragraphs_filled(out),
{
    if st.spans.len() > 0 {
        lemma_produce_keeps_filled(without_spans(st), ItemModel::Paragraph(st.spans));
    }
}

proof fn lemma_step_keeps_filled(st: ParseState, e: EventModel)
    requires
        lists_filled(st.lists),
    ensures
        lists_filled(step(st, e).0.lists),
        step(st, e).1 matches Some(out) ==> paragraphs_filled(out),
{
    let on = active(st);
    match e {
        EventModel::StartList(first) => {
            if on {
                lemma_paragraph_of_spans_keeps_filled(st);
                let st1 = paragraph_of_spans(st).0;
                let lists = st1.lists.push(ListFrameModel { start: first, items: Seq::empty() });
                assert forall|f: int, i: int, j: int|
                    0 <= f < lists.len() && 0 <= i < lists[f].items.len() && 0 <= j
                        < lists[f].items[i].items.len() implies paragraphs_filled(
                    #[trigger] lists[f].items[i].items[j],
                ) by {
                    assert(f < st1.lists.len());
                    assert(lists[f] == st1.lists[f]);
                }
            }
        },
        EventModel::StartItem => {
            if st.lists.len() > 0 {
                let frame = st.lists.last();
                let new_frame = ListFrameModel {
                    start: frame.start,
                    items: frame.items.push(
                        ListItemsModel { beginner: ListItemBeginner::Default, items: Seq::empty() },
                    ),
                };
                let lists = st.lists.update(st.lists.len() - 1, new_frame);
                assert forall|f: int, i: int, j: int|
                    0 <= f < lists.len() && 0 <= i < lists[f].items.len() && 0 <= j
                        < lists[f].items[i].items.len() implies paragraphs_filled(
                    #[trigger] lists[f].items[i].items[j],
                ) by {
                    if f == st.lists.len() - 1 {
                        assert(i < frame.items.len());
                        assert(lists[f].items[i] == st.lists[f].items[i]);
                    } else {
                        assert(lists[f] == st.lists[f]);
                    }
                }
            }
        },
        EventModel::EndHeading(level) => {
            if on {
                lemma_produce_keeps_filled(without_spans(st), ItemModel::Heading(level, st.spans));
            }
        },
        EventModel::EndParagraph | EventModel::EndItem => {
            if on {
                lemma_paragraph_of_spans_keeps_filled(st);
            }
        },
        EventModel::EndList => {
            if on && st.lists.len() > 0 {
                let frame = st.lists.last();
                let rest = ParseState { lists: st.lists.drop_last(), ..st };
                let item = ItemModel::List { start: frame.start, items: frame.items };
                assert forall|i: int, j: int|
                    0 <= i < frame.items.len() && 0 <= j < frame.items[i].items.len() implies paragraphs_filled(
                    #[trigger] frame.items[i].items[j],
                ) by {
                    assert(st.lists[st.lists.len() - 1].items[i].items[j] == frame.items[i].items[j]);
                }
                assert(paragraphs_filled(item));
                assert forall|f: int, i: int, j: int|
                    0 <= f < rest.lists.len() && 0 <= i < rest.lists[f].items.len() && 0 <= j
                        < rest.lists[f].items[i].items.len() implies paragraphs_filled(
                    #[trigger] rest.lists[f].items[i].items[j],
                ) by {
                    assert(rest.lists[f] == st.lists[f]);
                }
                lemma_produce_keeps_filled(rest, item);
            }
        },
        EventModel::EndCodeBlock => {
            if on {
                lemma_produce_keeps_filled(
                    ParseState { highlight: None, ..without_spans(st) },
                    ItemModel::CodeBlock(st.spans),
                );
            }
        },
        EventModel::Text(text) => {
            if on {
                match st.highlight {
                    Some(language) => {},
                    None => {
                        let st1 = with_span(st, styled(st, text, false));
                        if st.task_hint {
                            lemma_produce_keeps_filled(
                                ParseState { task_hint: false, ..without_spans(st1) },
                                ItemModel::Paragraph(st1.spans),
                            );
                        }
                    },
                }
            }
        },
        EventModel::TaskListMarker { checked, start, end } => {
            if on && st.lists.len() > 0 && st.lists.last().items.len() > 0 {
                let frame = st.lists.last();
                let last = frame.items.last();
                let new_last = ListItemsModel {
                    beginner: ListItemBeginner::Checkbox { checked, range: Range { start, end } },
                    items: last.items,
                };
                let new_frame = ListFrameModel {
                    start: frame.start,
                    items: frame.items.update(frame.items.len() - 1, new_last),
                };
                let lists = st.lists.update(st.lists.len() - 1, new_frame);
                assert forall|f: int, i: int, j: int|
                    0 <= f < lists.len() && 0 <= i < lists[f].items.len() && 0 <= j
                        < lists[f].items[i].items.len() implies paragraphs_filled(
                    #[trigger] lists[f].items[i].items[j],
                ) by {
                    assert(lists[f].items[i].items[j] == st.lists[f].items[i].items[j]);
                }
            }
        },
        _ => {},
    }
}

proof fn lemma_run_keeps_filled(events: Seq<EventModel>)
    ensures
        lists_filled(run(events).0.lists),
        forall|i: int| 0 <= i < run(events).1.len() ==> paragraphs_filled(#[trigger] run(events).1[i]),
    decreases events.len(),
{
    if events.len() > 0 {
        lemma_run_keeps_filled(events.drop_last());
        let (st, out) = run(events.drop_last());
        lemma_step_keeps_filled(st, events.last());
    }
}

/// No paragraph of a parsed text is empty, at any depth of lists: every one
/// has at least one span.
pub proof fn law_paragraphs_are_never_empty(events: Seq<EventModel>)
    ensures
        forall|i: int| 0 <= i < parsed(events).len() ==> paragraphs_filled(#[trigger] parsed(events)[i]),
{
    lemma_run_keeps_filled(events);
}


/// A link destination that reads as a URL of the web, with scheme `http` or
/// `https`, is kept as that URL; any other destination makes no link.
pub proof fn law_web_links_are_kept(destination: Seq<char>)
    ensures
        match parsed_url(destination) {
            Some((scheme, text)) => if scheme == "http"@ || scheme == "https"@ {
                web_address(destination) == Some(text)
            } else {
                web_address(destination) is None
            },
            None => web_address(destination) is None,
        },
{
    reveal_strlit("http");
    reveal_strlit("https");
    assert("http"@ =~= seq!['h', 't', 't', 'p']);
    assert("https"@ =~= seq!['h', 't', 't', 'p', 's']);
}

/// The text of a link to a web address becomes a span that carries the
/// address, outside metadata blocks, tables and code blocks.
pub proof fn law_link_text_carries_its_address(st: ParseState, destination: Seq<char>, text: Seq<char>)
    requires
        active(st),
        st.highlight is None,
        !st.task_hint,
        web_address(destination) is Some,
    ensures
        ({
            let linked = step(st, EventModel::StartLink(web_address(destination))).0;
            let after = step(linked, EventModel::Text(text)).0;
            &&& after.spans.len() == st.spans.len() + 1
            &&& after.spans.last() matches SpanModel::Standard { text: t, link, .. } && t == text && link
                == web_address(destination)
        }),
{
}

} // verus!
