use jefe_ui::issue_detail::{
    build_detail_content, issue_detail_pane, issue_header, render_text_with_caret, BorderKind,
    ComposerTarget, DetailSubfocus, EditorTarget, InlineState, IssueComment, IssueDetail,
    IssueState, Tone,
};

const SEP: &str = "─────────────────────────────────────────";

fn comment(author: &str, at: &str, body: &str) -> IssueComment {
    IssueComment {
        author_login: author.to_string(),
        created_at: at.to_string(),
        body: body.to_string(),
    }
}

fn detail(body: &str, comments: Vec<IssueComment>) -> IssueDetail {
    IssueDetail {
        number: 42,
        title: "Crash on start".to_string(),
        state: IssueState::Open,
        author_login: "alice".to_string(),
        created_at: "2026-03-01".to_string(),
        updated_at: "2026-03-02".to_string(),
        labels: vec!["bug".to_string(), "ui".to_string()],
        assignees: vec![],
        milestone: None,
        external_url: "https://example.invalid/issues/42".to_string(),
        body: body.to_string(),
        comments,
    }
}

#[test]
fn caret_is_inserted_at_the_cursor() {
    assert_eq!(render_text_with_caret("hello", 0), "▏hello");
    assert_eq!(render_text_with_caret("hello", 2), "he▏llo");
    assert_eq!(render_text_with_caret("hello", 5), "hello▏");
    assert_eq!(render_text_with_caret("hello", 99), "hello▏");
    assert_eq!(render_text_with_caret("", 3), "▏");
}

#[test]
fn caret_snaps_back_to_a_char_boundary() {
    // 'é' takes two bytes: offsets 1..3
    assert_eq!(render_text_with_caret("héllo", 1), "h▏éllo");
    assert_eq!(render_text_with_caret("héllo", 2), "h▏éllo");
    assert_eq!(render_text_with_caret("héllo", 3), "hé▏llo");
    // '😀' takes four bytes
    assert_eq!(render_text_with_caret("a😀b", 4), "a▏😀b");
    assert_eq!(render_text_with_caret("a😀b", 5), "a😀▏b");
}

#[test]
fn caret_keeps_the_text() {
    let text = "naïve café";
    for cursor in 0..=text.len() + 2 {
        let shown = render_text_with_caret(text, cursor);
        assert_eq!(shown.replacen('▏', "", 1), text);
        assert_eq!(shown.chars().filter(|c| *c == '▏').count(), 1);
    }
}

#[test]
fn content_without_comments() {
    let d = detail("Line one\nLine two", vec![]);
    let content = build_detail_content(&d, DetailSubfocus::Body, &InlineState::Inactive, false);
    let expected = [
        "> Body",
        "    Line one",
        "    Line two",
        SEP,
        "Comments",
        "  No comments yet.",
        SEP,
        "  New Comment",
        "  Press c to add a comment",
    ]
    .join("\n");
    assert_eq!(content, expected);
}

#[test]
fn content_while_loading_with_empty_body() {
    let d = detail("", vec![comment("bob", "yesterday", "hi")]);
    let content = build_detail_content(&d, DetailSubfocus::NewComment, &InlineState::Inactive, true);
    let expected = [
        "  Body",
        "    (empty)",
        SEP,
        "Comments",
        "  Loading comments...",
        SEP,
        "> New Comment",
        "  Press c to add a comment",
    ]
    .join("\n");
    assert_eq!(content, expected);
}

#[test]
fn content_with_comments_editor_and_reply() {
    let d = detail(
        "Body",
        vec![comment("bob", "d1", "first\nsecond"), comment("carol", "d2", "")],
    );
    let editing_first = InlineState::Editor {
        target: EditorTarget::Comment { comment_index: 0 },
        text: "abc".to_string(),
        cursor: 1,
    };
    let content = build_detail_content(&d, DetailSubfocus::Comment(1), &editing_first, false);
    let expected = [
        "  Body",
        "    Body",
        SEP,
        "Comments",
        "  @bob  d1",
        "  [editing]",
        "    │ a▏bc",
        "    Ctrl+Enter save | Esc cancel",
        "",
        "> @carol  d2",
        "      (empty)",
        "",
        SEP,
        "  New Comment",
        "  Press c to add a comment",
    ]
    .join("\n");
    assert_eq!(content, expected);

    let replying = InlineState::Composer {
        target: ComposerTarget::Reply { comment_index: 1 },
        text: "ok".to_string(),
        cursor: 2,
    };
    let content = build_detail_content(&d, DetailSubfocus::Comment(0), &replying, false);
    let expected = [
        "  Body",
        "    Body",
        SEP,
        "Comments",
        "> @bob  d1",
        "      first",
        "      second",
        "",
        "  @carol  d2",
        "      (empty)",
        "    [Reply]",
        "    │ ok▏",
        "    Ctrl+Enter save | Esc cancel",
        "",
        SEP,
        "  New Comment",
        "  Press c to add a comment",
    ]
    .join("\n");
    assert_eq!(content, expected);
}

#[test]
fn content_with_body_editor_and_new_comment_composer() {
    let d = detail("old", vec![]);
    let editing_body = InlineState::Editor {
        target: EditorTarget::IssueBody,
        text: "new\ntext".to_string(),
        cursor: 0,
    };
    let content = build_detail_content(&d, DetailSubfocus::Body, &editing_body, false);
    let expected = [
        "> Body",
        "[editing]",
        "  │ ▏new",
        "  │ text",
        "  Ctrl+Enter save | Esc cancel",
        SEP,
        "Comments",
        "  No comments yet.",
        SEP,
        "  New Comment",
        "  Press c to add a comment",
    ]
    .join("\n");
    assert_eq!(content, expected);

    let composing = InlineState::Composer {
        target: ComposerTarget::NewComment,
        text: String::new(),
        cursor: 0,
    };
    let content = build_detail_content(&d, DetailSubfocus::NewComment, &composing, false);
    assert!(content.ends_with("> New Comment\n  │ ▏\n  Ctrl+Enter submit | Esc cancel"));
}

#[test]
fn header_lines() {
    let mut d = detail("", vec![]);
    let h = issue_header(&d);
    assert_eq!(h.title_line, "#42 Crash on start");
    assert_eq!(h.state_tag, "OPEN");
    assert_eq!(h.state_tone, Tone::Bright);
    assert_eq!(h.byline, "  by @alice  opened: 2026-03-01  updated: 2026-03-02");
    assert_eq!(h.labels, "bug, ui");
    assert_eq!(h.assignees, "-");
    assert_eq!(h.milestone, "-");
    assert_eq!(h.external_url, "https://example.invalid/issues/42");

    d.state = IssueState::Closed;
    d.number = 0;
    d.milestone = Some("v1.0".to_string());
    d.assignees = vec!["dave".to_string()];
    d.labels = vec![];
    let h = issue_header(&d);
    assert_eq!(h.title_line, "#0 Crash on start");
    assert_eq!(h.state_tag, "CLOSED");
    assert_eq!(h.state_tone, Tone::Dim);
    assert_eq!(h.labels, "-");
    assert_eq!(h.assignees, "dave");
    assert_eq!(h.milestone, "v1.0");

    d.number = u64::MAX;
    assert_eq!(issue_header(&d).title_line, "#18446744073709551615 Crash on start");
}

#[test]
fn pane_with_and_without_issue() {
    let none = issue_detail_pane(&None, DetailSubfocus::Body, &InlineState::Inactive, false, true);
    assert_eq!(none.border, BorderKind::Double);
    assert!(none.header.is_none());
    assert_eq!(none.content, "No issue selected");

    let d = detail("x", vec![]);
    let pane = issue_detail_pane(
        &Some(d),
        DetailSubfocus::Body,
        &InlineState::Inactive,
        false,
        false,
    );
    assert_eq!(pane.border, BorderKind::Round);
    assert_eq!(pane.header.unwrap().title_line, "#42 Crash on start");
    assert!(pane.content.starts_with("> Body\n    x\n"));
}
