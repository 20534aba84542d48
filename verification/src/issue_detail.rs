//! Unified issue detail + comments view: the text of the scrollable body,
//! comments and new-comment area, and the metadata header above it.
use vstd::prelude::*;
use vstd::utf8::encode_utf8;

use crate::text::{
    chars_of, concat, decimal_text, join, joined, push_char, push_decimal_text, push_line,
    push_text_block, text_block, utf8_len, utf8_width,
};

verus! {

// ---------------------------------------------------------------------------
// Issues and the inline editing state
// ---------------------------------------------------------------------------

#[derive(Clone, Copy, Debug, PartialEq, Eq, Structural)]
pub enum IssueState {
    Open,
    Closed,
}

/// A comment on an issue.
pub struct IssueComment {
    pub author_login: String,
    pub created_at: String,
    pub body: String,
}

/// An issue with its metadata, body and comments.
pub struct IssueDetail {
    pub number: u64,
    pub title: String,
    pub state: IssueState,
    pub author_login: String,
    pub created_at: String,
    pub updated_at: String,
    pub labels: Vec<String>,
    pub assignees: Vec<String>,
    pub milestone: Option<String>,
    pub external_url: String,
    pub body: String,
    pub comments: Vec<IssueComment>,
}

/// Which part of the detail view has the focus.
#[derive(Clone, Copy, Debug, PartialEq, Eq, Structural)]
pub enum DetailSubfocus {
    Body,
    Comment(usize),
    NewComment,
}

impl Default for DetailSubfocus {
    /// The body has the focus at first.
    fn default() -> (d: Self)
        ensures
            d == DetailSubfocus::Body,
    {
        DetailSubfocus::Body
    }
}

/// What an inline editor edits.
#[derive(Clone, Copy, Debug, PartialEq, Eq, Structural)]
pub enum EditorTarget {
    IssueBody,
    Comment { comment_index: usize },
}

/// What an inline composer writes.
#[derive(Clone, Copy, Debug, PartialEq, Eq, Structural)]
pub enum ComposerTarget {
    NewComment,
    Reply { comment_index: usize },
}

/// The inline editor or composer that is open, if any; `cursor` is a byte
/// offset into `text`.
#[allow(inconsistent_fields)]
pub enum InlineState {
    Inactive,
    Editor { target: EditorTarget, text: String, cursor: usize },
    Composer { target: ComposerTarget, text: String, cursor: usize },
}

impl Default for InlineState {
    /// No editor or composer is open at first.
    fn default() -> (d: Self)
        ensures
            d is Inactive,
    {
        InlineState::Inactive
    }
}

// ---------------------------------------------------------------------------
// The caret
// ---------------------------------------------------------------------------

/// The caret drawn at the cursor of an inline editor.
pub const CARET: char = '\u{258F}';

/// How many leading characters of `chars` fit, UTF-8 encoded, in `budget`
/// bytes.
pub open spec fn chars_within(chars: Seq<char>, budget: nat) -> nat
    decreases chars.len(),
{
    if chars.len() == 0 || utf8_width(chars[0]) > budget {
        0
    } else {
        1 + chars_within(chars.drop_first(), (budget - utf8_width(chars[0])) as nat)
    }
}

/// `text` with the caret inserted at the byte offset `cursor`, moved back to
/// the nearest character boundary at or before it (and to the end of the
/// text when the cursor lies beyond it).
pub open spec fn with_caret(text: Seq<char>, cursor: nat) -> Seq<char> {
    let k = chars_within(text, cursor);
    text.take(k as int) + seq![CARET] + text.skip(k as int)
}

/// Insert a caret character at the given byte-offset cursor position in the
/// text.
pub fn render_text_with_caret(value: &str, cursor: usize) -> (res: String)
    ensures
        res@ == with_caret(value@, cursor as nat),
{
    let chars = chars_of(value);
    let n = chars.len();
    let mut used: usize = 0;
    let mut i: usize = 0;
    let mut out = String::new();
    assert(chars@.skip(0) =~= chars@);
    while i < n && utf8_len(chars[i]) <= cursor - used
        invariant
            n == chars@.len(),
            i <= n,
            used <= cursor,
            chars_within(chars@, cursor as nat) == i + chars_within(
                chars@.skip(i as int),
                (cursor - used) as nat,
            ),
            out@ == chars@.take(i as int),
        decreases n - i,
    {
        let w = utf8_len(chars[i]);
        assert(chars@.skip(i as int).drop_first() =~= chars@.skip(i + 1));
        push_char(&mut out, chars[i]);
        used = used + w;
        i = i + 1;
        assert(out@ =~= chars@.take(i as int));
    }
    assert(chars_within(chars@, cursor as nat) == i);
    push_char(&mut out, CARET);
    let mut j = i;
    while j < n
        invariant
            i <= j <= n,
            n == chars@.len(),
            out@ == chars@.take(i as int) + seq![CARET] + chars@.subrange(i as int, j as int),
        decreases n - j,
    {
        push_char(&mut out, chars[j]);
        j = j + 1;
        assert(out@ =~= chars@.take(i as int) + seq![CARET] + chars@.subrange(i as int, j as int));
    }
    assert(out@ =~= with_caret(value@, cursor as nat));
    out
}

/// The caret goes to the last character boundary at or before the cursor:
/// the characters before it take at most `cursor` bytes in UTF-8, and with
/// the next character they would take more.
pub proof fn lemma_caret_at_boundary(text: Seq<char>, cursor: nat)
    ensures
        chars_within(text, cursor) <= text.len(),
        encode_utf8(text.take(chars_within(text, cursor) as int)).len() <= cursor,
        chars_within(text, cursor) < text.len() ==> encode_utf8(
            text.take(chars_within(text, cursor) as int + 1),
        ).len() > cursor,
    decreases text.len(),
{
    reveal_with_fuel(encode_utf8, 2);
    if text.len() == 0 {
        assert(text.take(0) =~= Seq::<char>::empty());
    } else {
        let c = text[0];
        let rest = text.drop_first();
        assert(seq![c].drop_first() =~= Seq::<char>::empty());
        let w = utf8_width(c);
        if w > cursor {
            assert(text.take(0) =~= Seq::<char>::empty());
            assert(text.take(1).drop_first() =~= Seq::<char>::empty());
        } else {
            let budget = (cursor - w) as nat;
            lemma_caret_at_boundary(rest, budget);
            let k = chars_within(rest, budget) as int;
            assert(text.take(k + 1).drop_first() =~= rest.take(k));
            if k < rest.len() {
                assert(text.take(k + 2).drop_first() =~= rest.take(k + 1));
            }
        }
    }
}

/// Inserting the caret keeps the text: the caret sits at one position, and
/// taking it out gives back the text.
pub proof fn lemma_caret_keeps_text(text: Seq<char>, cursor: nat)
    ensures
        with_caret(text, cursor).len() == text.len() + 1,
        with_caret(text, cursor)[chars_within(text, cursor) as int] == CARET,
        with_caret(text, cursor).remove(chars_within(text, cursor) as int) == text,
{
    lemma_caret_at_boundary(text, cursor);
    let k = chars_within(text, cursor) as int;
    assert(with_caret(text, cursor).remove(k) =~= text);
}

// ---------------------------------------------------------------------------
// The scrollable content: body, comments, new comment
// ---------------------------------------------------------------------------

/// The rule between the sections.
pub open spec fn separator() -> Seq<char> {
    "─────────────────────────────────────────"@
}

/// The body text shown, and whether it is being edited: the editor's text
/// with the caret while the body editor is open, else the issue body.
pub open spec fn body_source(detail: IssueDetail, inline_state: InlineState) -> (Seq<char>, bool) {
    match inline_state {
        InlineState::Editor { target: EditorTarget::IssueBody, text, cursor } => (
            with_caret(text@, cursor as nat),
            true,
        ),
        _ => (detail.body@, false),
    }
}

/// The body section: its label (marked when focused), the body text, and
/// the editing hints while it is edited.
pub open spec fn body_section(
    detail: IssueDetail,
    subfocus: DetailSubfocus,
    inline_state: InlineState,
) -> Seq<Seq<char>> {
    let (text, editing) = body_source(detail, inline_state);
    seq![
        if subfocus == DetailSubfocus::Body {
            "> Body"@
        } else {
            "  Body"@
        },
    ] + (if editing {
        seq!["[editing]"@]
    } else {
        seq![]
    }) + text_block(
        if editing {
            "  │ "@
        } else {
            "    "@
        },
        text,
        if editing {
            "  │ (empty)"@
        } else {
            "    (empty)"@
        },
    ) + (if editing {
        seq!["  Ctrl+Enter save | Esc cancel"@]
    } else {
        seq![]
    })
}

/// The text shown for comment `idx`, and whether it is being edited.
pub open spec fn comment_source(idx: nat, comment: IssueComment, inline_state: InlineState) -> (
    Seq<char>,
    bool,
) {
    match inline_state {
        InlineState::Editor { target: EditorTarget::Comment { comment_index }, text, cursor } => {
            if comment_index == idx {
                (with_caret(text@, cursor as nat), true)
            } else {
                (comment.body@, false)
            }
        },
        _ => (comment.body@, false),
    }
}

/// The reply composer under comment `idx`, when it is open there.
pub open spec fn reply_section(idx: nat, inline_state: InlineState) -> Seq<Seq<char>> {
    match inline_state {
        InlineState::Composer { target: ComposerTarget::Reply { comment_index }, text, cursor } => {
            if comment_index == idx {
                seq!["    [Reply]"@] + text_block(
                    "    │ "@,
                    with_caret(text@, cursor as nat),
                    "    │ "@,
                ) + seq!["    Ctrl+Enter save | Esc cancel"@]
            } else {
                seq![]
            }
        },
        _ => seq![],
    }
}

/// Comment `idx`: its author and date (marked when focused), its text, the
/// editing hints while it is edited, the reply composer when open on it,
/// and a blank line.
pub open spec fn comment_section(
    idx: nat,
    comment: IssueComment,
    subfocus: DetailSubfocus,
    inline_state: InlineState,
) -> Seq<Seq<char>> {
    let (text, editing) = comment_source(idx, comment, inline_state);
    seq![
        (if subfocus == DetailSubfocus::Comment(idx as usize) {
            "> "@
        } else {
            "  "@
        }) + "@"@ + comment.author_login@ + "  "@ + comment.created_at@,
    ] + (if editing {
        seq!["  [editing]"@]
    } else {
        seq![]
    }) + text_block(
        if editing {
            "    │ "@
        } else {
            "      "@
        },
        text,
        if editing {
            "    │ (empty)"@
        } else {
            "      (empty)"@
        },
    ) + (if editing {
        seq!["    Ctrl+Enter save | Esc cancel"@]
    } else {
        seq![]
    }) + reply_section(idx, inline_state) + seq![Seq::<char>::empty()]
}

/// The sections of the first `n` comments, in order.
pub open spec fn comment_sections(
    comments: Seq<IssueComment>,
    n: nat,
    subfocus: DetailSubfocus,
    inline_state: InlineState,
) -> Seq<Seq<char>>
    decreases n,
{
    if n == 0 {
        seq![]
    } else {
        comment_sections(comments, (n - 1) as nat, subfocus, inline_state) + comment_section(
            (n - 1) as nat,
            comments[n - 1],
            subfocus,
            inline_state,
        )
    }
}

/// The comments section: its title, then a loading note, a note that
/// there are none, or the comments.
pub open spec fn comments_part(
    detail: IssueDetail,
    subfocus: DetailSubfocus,
    inline_state: InlineState,
    comments_loading: bool,
) -> Seq<Seq<char>> {
    seq!["Comments"@] + if comments_loading {
        seq!["  Loading comments..."@]
    } else if detail.comments@.len() == 0 {
        seq!["  No comments yet."@]
    } else {
        comment_sections(detail.comments@, detail.comments@.len(), subfocus, inline_state)
    }
}

/// The new-comment section: its label (marked when focused), then the open
/// composer with its hints, or how to open one.
pub open spec fn new_comment_section(subfocus: DetailSubfocus, inline_state: InlineState) -> Seq<
    Seq<char>,
> {
    seq![
        if subfocus == DetailSubfocus::NewComment {
            "> New Comment"@
        } else {
            "  New Comment"@
        },
    ] + match inline_state {
        InlineState::Composer { target: ComposerTarget::NewComment, text, cursor } => text_block(
            "  │ "@,
            with_caret(text@, cursor as nat),
            "  │ "@,
        ) + seq!["  Ctrl+Enter submit | Esc cancel"@],
        _ => seq!["  Press c to add a comment"@],
    }
}

/// All lines of the scrollable detail content.
pub open spec fn detail_lines(
    detail: IssueDetail,
    subfocus: DetailSubfocus,
    inline_state: InlineState,
    comments_loading: bool,
) -> Seq<Seq<char>> {
    body_section(detail, subfocus, inline_state) + seq![separator()] + comments_part(
        detail,
        subfocus,
        inline_state,
        comments_loading,
    ) + seq![separator()] + new_comment_section(subfocus, inline_state)
}

fn push_body_section(
    lines: &mut Vec<String>,
    detail: &IssueDetail,
    subfocus: DetailSubfocus,
    inline_state: &InlineState,
)
    ensures
        final(lines).deep_view() == old(lines).deep_view() + body_section(
            *detail,
            subfocus,
            *inline_state,
        ),
{
    let ghost start = lines.deep_view();
    let label = if subfocus == DetailSubfocus::Body {
        "> Body"
    } else {
        "  Body"
    };
    push_line(lines, String::from_str(label));
    let (body_text, body_editing) = match inline_state {
        InlineState::Editor { target: EditorTarget::IssueBody, text, cursor } => (
            render_text_with_caret(text.as_str(), *cursor),
            true,
        ),
        _ => (detail.body.clone(), false),
    };
    if body_editing {
        push_line(lines, String::from_str("[editing]"));
    }
    let (prefix, when_empty) = if body_editing {
        ("  │ ", "  │ (empty)")
    } else {
        ("    ", "    (empty)")
    };
    push_text_block(lines, prefix, body_text.as_str(), when_empty);
    if body_editing {
        push_line(lines, String::from_str("  Ctrl+Enter save | Esc cancel"));
    }
    assert(lines.deep_view() =~= start + body_section(*detail, subfocus, *inline_state));
}

fn push_reply_section(lines: &mut Vec<String>, idx: usize, inline_state: &InlineState)
    ensures
        final(lines).deep_view() == old(lines).deep_view() + reply_section(idx as nat, *inline_state),
{
    let ghost start = lines.deep_view();
    match inline_state {
        InlineState::Composer { target: ComposerTarget::Reply { comment_index }, text, cursor } => {
            if *comment_index == idx {
                push_line(lines, String::from_str("    [Reply]"));
                let reply_text = render_text_with_caret(text.as_str(), *cursor);
                push_text_block(lines, "    │ ", reply_text.as_str(), "    │ ");
                push_line(lines, String::from_str("    Ctrl+Enter save | Esc cancel"));
            }
        },
        _ => {},
    }
    assert(lines.deep_view() =~= start + reply_section(idx as nat, *inline_state));
}

fn push_comment_section(
    lines: &mut Vec<String>,
    idx: usize,
    comment: &IssueComment,
    subfocus: DetailSubfocus,
    inline_state: &InlineState,
)
    ensures
        final(lines).deep_view() == old(lines).deep_view() + comment_section(
            idx as nat,
            *comment,
            subfocus,
            *inline_state,
        ),
{
    let ghost start = lines.deep_view();
    let prefix = if subfocus == DetailSubfocus::Comment(idx) {
        "> "
    } else {
        "  "
    };
    let mut heading = concat(prefix, "@");
    heading.append(comment.author_login.as_str());
    heading.append("  ");
    heading.append(comment.created_at.as_str());
    push_line(lines, heading);
    let (cmt_text, cmt_editing) = match inline_state {
        InlineState::Editor { target: EditorTarget::Comment { comment_index }, text, cursor } => {
            if *comment_index == idx {
                (render_text_with_caret(text.as_str(), *cursor), true)
            } else {
                (comment.body.clone(), false)
            }
        },
        _ => (comment.body.clone(), false),
    };
    if cmt_editing {
        push_line(lines, String::from_str("  [editing]"));
    }
    let (text_prefix, when_empty) = if cmt_editing {
        ("    │ ", "    │ (empty)")
    } else {
        ("      ", "      (empty)")
    };
    push_text_block(lines, text_prefix, cmt_text.as_str(), when_empty);
    if cmt_editing {
        push_line(lines, String::from_str("    Ctrl+Enter save | Esc cancel"));
    }
    push_reply_section(lines, idx, inline_state);
    push_line(lines, String::new());
    assert(lines.deep_view() =~= start + comment_section(
        idx as nat,
        *comment,
        subfocus,
        *inline_state,
    ));
}

fn push_new_comment_section(
    lines: &mut Vec<String>,
    subfocus: DetailSubfocus,
    inline_state: &InlineState,
)
    ensures
        final(lines).deep_view() == old(lines).deep_view() + new_comment_section(
            subfocus,
            *inline_state,
        ),
{
    let ghost start = lines.deep_view();
    let label = if subfocus == DetailSubfocus::NewComment {
        "> New Comment"
    } else {
        "  New Comment"
    };
    push_line(lines, String::from_str(label));
    match inline_state {
        InlineState::Composer { target: ComposerTarget::NewComment, text, cursor } => {
            let composer_text = render_text_with_caret(text.as_str(), *cursor);
            push_text_block(lines, "  │ ", composer_text.as_str(), "  │ ");
            push_line(lines, String::from_str("  Ctrl+Enter submit | Esc cancel"));
        },
        _ => {
            push_line(lines, String::from_str("  Press c to add a comment"));
        },
    }
    assert(lines.deep_view() =~= start + new_comment_section(subfocus, *inline_state));
}

/// Build the scrollable content string for the body + comments + new-comment
/// area: the lines of [`detail_lines`] joined by newlines.
pub fn build_detail_content(
    detail: &IssueDetail,
    subfocus: DetailSubfocus,
    inline_state: &InlineState,
    comments_loading: bool,
) -> (content: String)
    ensures
        content@ == joined(
            detail_lines(*detail, subfocus, *inline_state, comments_loading),
            seq!['\n'],
        ),
{
    let mut lines: Vec<String> = Vec::new();
    push_body_section(&mut lines, detail, subfocus, inline_state);
    push_line(&mut lines, String::from_str("─────────────────────────────────────────"));
    push_line(&mut lines, String::from_str("Comments"));
    let ghost before_comments = lines.deep_view();
    if comments_loading {
        push_line(&mut lines, String::from_str("  Loading comments..."));
    } else if detail.comments.len() == 0 {
        push_line(&mut lines, String::from_str("  No comments yet."));
    } else {
        let mut idx: usize = 0;
        while idx < detail.comments.len()
            invariant
                idx <= detail.comments@.len(),
                lines.deep_view() == before_comments + comment_sections(
                    detail.comments@,
                    idx as nat,
                    subfocus,
                    *inline_state,
                ),
            decreases detail.comments@.len() - idx,
        {
            push_comment_section(&mut lines, idx, &detail.comments[idx], subfocus, inline_state);
            idx = idx + 1;
            assert(lines.deep_view() =~= before_comments + comment_sections(
                detail.comments@,
                idx as nat,
                subfocus,
                *inline_state,
            ));
        }
    }
    push_line(&mut lines, String::from_str("─────────────────────────────────────────"));
    push_new_comment_section(&mut lines, subfocus, inline_state);
    assert(lines.deep_view() =~= detail_lines(*detail, subfocus, *inline_state, comments_loading));
    proof {
        reveal_strlit("\n");
    }
    assert("\n"@ =~= seq!['\n']);
    join(&lines, "\n")
}

// ---------------------------------------------------------------------------
// The detail pane: border, metadata header, content
// ---------------------------------------------------------------------------

/// The pane border: double when the pane is focused, rounded otherwise.
#[derive(Clone, Copy, Debug, PartialEq, Eq, Structural)]
pub enum BorderKind {
    Double,
    Round,
}

/// Emphasis of a piece of header text.
#[derive(Clone, Copy, Debug, PartialEq, Eq, Structural)]
pub enum Tone {
    Bright,
    Dim,
}

/// The fixed metadata header above the scrollable content.
pub struct IssueHeader {
    /// `#<number> <title>`
    pub title_line: String,
    /// `OPEN` or `CLOSED`
    pub state_tag: String,
    /// Bright for open issues, dim for closed ones.
    pub state_tone: Tone,
    /// `  by @<author>  opened: <created>  updated: <updated>`
    pub byline: String,
    /// The labels joined by ", ", or "-" when there are none.
    pub labels: String,
    /// The assignees joined by ", ", or "-" when there are none.
    pub assignees: String,
    /// The milestone, or "-" when there is none.
    pub milestone: String,
    pub external_url: String,
}

/// What the issue detail pane shows: with an issue, its header and the
/// scrollable content; without one, only a placeholder.
pub struct IssueDetailPane {
    pub border: BorderKind,
    pub header: Option<IssueHeader>,
    pub content: String,
}

/// The text shown for the placeholder pane.
pub open spec fn no_issue_text() -> Seq<char> {
    "No issue selected"@
}

/// A list of names joined by ", ", or "-" when it is empty.
pub open spec fn name_list(names: Seq<Seq<char>>) -> Seq<char> {
    if names.len() == 0 {
        "-"@
    } else {
        joined(names, ", "@)
    }
}

/// `#<number> <title>`
pub open spec fn title_line_of(detail: IssueDetail) -> Seq<char> {
    "#"@ + decimal_text(detail.number as nat) + " "@ + detail.title@
}

/// `OPEN` or `CLOSED`.
pub open spec fn state_tag_of(state: IssueState) -> Seq<char> {
    match state {
        IssueState::Open => "OPEN"@,
        IssueState::Closed => "CLOSED"@,
    }
}

/// Open issues are shown bright, closed ones dim.
pub open spec fn state_tone_of(state: IssueState) -> Tone {
    match state {
        IssueState::Open => Tone::Bright,
        IssueState::Closed => Tone::Dim,
    }
}

/// `  by @<author>  opened: <created>  updated: <updated>`
pub open spec fn byline_of(detail: IssueDetail) -> Seq<char> {
    "  by @"@ + detail.author_login@ + "  opened: "@ + detail.created_at@ + "  updated: "@
        + detail.updated_at@
}

/// The milestone, or "-" when there is none.
pub open spec fn milestone_of(detail: IssueDetail) -> Seq<char> {
    match detail.milestone {
        Some(m) => m@,
        None => "-"@,
    }
}

/// `h` is the metadata header of `detail`.
pub open spec fn is_header_of(h: IssueHeader, detail: IssueDetail) -> bool {
    &&& h.title_line@ == title_line_of(detail)
    &&& h.state_tag@ == state_tag_of(detail.state)
    &&& h.state_tone == state_tone_of(detail.state)
    &&& h.byline@ == byline_of(detail)
    &&& h.labels@ == name_list(detail.labels.deep_view())
    &&& h.assignees@ == name_list(detail.assignees.deep_view())
    &&& h.milestone@ == milestone_of(detail)
    &&& h.external_url@ == detail.external_url@
}

fn names_text(names: &Vec<String>) -> (res: String)
    ensures
        res@ == name_list(names.deep_view()),
{
    if names.len() == 0 {
        String::from_str("-")
    } else {
        join(names, ", ")
    }
}

/// The metadata header of `detail`.
pub fn issue_header(detail: &IssueDetail) -> (h: IssueHeader)
    ensures
        is_header_of(h, *detail),
{
    let mut title_line = String::from_str("#");
    push_decimal_text(&mut title_line, detail.number);
    title_line.append(" ");
    title_line.append(detail.title.as_str());
    let (state_tag, state_tone) = match detail.state {
        IssueState::Open => (String::from_str("OPEN"), Tone::Bright),
        IssueState::Closed => (String::from_str("CLOSED"), Tone::Dim),
    };
    let mut byline = concat("  by @", detail.author_login.as_str());
    byline.append("  opened: ");
    byline.append(detail.created_at.as_str());
    byline.append("  updated: ");
    byline.append(detail.updated_at.as_str());
    let milestone = match &detail.milestone {
        Some(m) => m.clone(),
        None => String::from_str("-"),
    };
    IssueHeader {
        title_line,
        state_tag,
        state_tone,
        byline,
        labels: names_text(&detail.labels),
        assignees: names_text(&detail.assignees),
        milestone,
        external_url: detail.external_url.clone(),
    }
}

/// Issue detail view: the border for the focus, and, when an issue is
/// shown, its fixed metadata header and the scrollable body/comments
/// content.
pub fn issue_detail_pane(
    issue_detail: &Option<IssueDetail>,
    detail_subfocus: DetailSubfocus,
    inline_state: &InlineState,
    comments_loading: bool,
    focused: bool,
) -> (pane: IssueDetailPane)
    ensures
        pane.border == (if focused {
            BorderKind::Double
        } else {
            BorderKind::Round
        }),
        match issue_detail {
            Some(detail) => {
                &&& pane.header matches Some(h) && is_header_of(h, *detail)
                &&& pane.content@ == joined(
                    detail_lines(*detail, detail_subfocus, *inline_state, comments_loading),
                    seq!['\n'],
                )
            },
            None => pane.header is None && pane.content@ == no_issue_text(),
        },
{
    let border = if focused {
        BorderKind::Double
    } else {
        BorderKind::Round
    };
    match issue_detail {
        Some(detail) => IssueDetailPane {
            border,
            header: Some(issue_header(detail)),
            content: build_detail_content(detail, detail_subfocus, inline_state, comments_loading),
        },
        None => IssueDetailPane {
            border,
            header: None,
            content: String::from_str("No issue selected"),
        },
    }
}


/// While comments are loading, the comments section is only the loading
/// note: the line after "Comments" is "  Loading comments...", the rule
/// follows it, and the content does not depend on the comment list at all.
pub proof fn lemma_loading_hides_comments(
    detail: IssueDetail,
    other: IssueDetail,
    subfocus: DetailSubfocus,
    inline_state: InlineState,
)
    requires
        detail.body@ == other.body@,
    ensures
        ({
            let lines = detail_lines(detail, subfocus, inline_state, true);
            let b = body_section(detail, subfocus, inline_state).len() as int;
            &&& lines[b] == separator()
            &&& lines[b + 1] == "Comments"@
            &&& lines[b + 2] == "  Loading comments..."@
            &&& lines[b + 3] == separator()
        }),
        detail_lines(detail, subfocus, inline_state, true) == detail_lines(
            other,
            subfocus,
            inline_state,
            true,
        ),
{
    let b = body_section(detail, subfocus, inline_state);
    assert(body_section(other, subfocus, inline_state) == b);
    let lines = detail_lines(detail, subfocus, inline_state, true);
    assert(lines == b + seq![separator()] + seq!["Comments"@, "  Loading comments..."@] + seq![
        separator(),
    ] + new_comment_section(subfocus, inline_state));
}

} // verus!
