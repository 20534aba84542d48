use jefe_ui::scrollable_text::{scrollable_text_fits, scrollable_text_view, scrollbar_geometry};

#[test]
fn test_scrollbar_geometry_no_scroll() {
    let (pos, size) = scrollbar_geometry(5, 10, 0);
    assert_eq!(pos, 0);
    assert_eq!(size, 10);
}

#[test]
fn test_scrollbar_geometry_at_top() {
    let (pos, size) = scrollbar_geometry(100, 20, 0);
    assert_eq!(pos, 0);
    assert!(size >= 1);
    assert!(size <= 20);
}

#[test]
fn test_scrollbar_geometry_at_bottom() {
    let (pos, size) = scrollbar_geometry(100, 20, 80);
    assert!(pos + size <= 20);
}

// ---------------------------------------------------------------------------
// Further cases
// ---------------------------------------------------------------------------

#[test]
fn scrollbar_geometry_exact_values() {
    // thumb = 20 * 20 / 100 = 4 rows; 16 free rows over 80 offsets
    assert_eq!(scrollbar_geometry(100, 20, 0), (0, 4));
    assert_eq!(scrollbar_geometry(100, 20, 40), (8, 4));
    assert_eq!(scrollbar_geometry(100, 20, 80), (16, 4));
    // beyond the last page the thumb stays at the bottom
    assert_eq!(scrollbar_geometry(100, 20, 500), (16, 4));
    // a very long text still gets a one-row thumb
    assert_eq!(scrollbar_geometry(10_000, 10, 0), (0, 1));
    // no track at all
    assert_eq!(scrollbar_geometry(50, 0, 3), (0, 0));
}

#[test]
fn scrollbar_thumb_fits_and_moves_down() {
    for total in [21usize, 37, 100, 999] {
        let mut last_pos = 0;
        for offset in 0..total {
            let (pos, size) = scrollbar_geometry(total, 20, offset);
            assert!(size >= 1);
            assert!(pos + size <= 20);
            assert!(pos >= last_pos);
            last_pos = pos;
            if offset >= total - 20 {
                assert_eq!(pos + size, 20);
            }
        }
    }
}

#[test]
fn view_of_short_text_has_no_scrollbar() {
    let view = scrollable_text_view("only line", 0);
    assert_eq!(view.lines, vec!["only line".to_string()]);
    assert!(view.scrollbar.is_empty());

    let empty = scrollable_text_view("", 7);
    assert!(empty.lines.is_empty());
    assert!(empty.scrollbar.is_empty());
}

#[test]
fn view_splits_lines_like_str_lines() {
    let text = "a\r\nb\n\nc\rd\n";
    let view = scrollable_text_view(text, 0);
    let expected: Vec<String> = text.lines().map(|l| l.to_string()).collect();
    assert_eq!(view.lines, expected);
    assert_eq!(view.lines, vec!["a", "b", "", "c\rd"]);
    // a track row for every shown line, the whole track being the thumb
    assert_eq!(view.scrollbar, vec![true; 4]);
}

#[test]
fn view_clamps_offset_and_windows_lines() {
    let text: String = (0..300).map(|i| format!("line {i}\n")).collect();
    let view = scrollable_text_view(&text, 250);
    assert_eq!(view.lines.len(), 50);
    assert_eq!(view.lines[0], "line 250");
    assert_eq!(view.scrollbar.len(), 50);

    let top = scrollable_text_view(&text, 0);
    assert_eq!(top.lines.len(), 200);
    assert_eq!(top.lines[199], "line 199");
    // thumb = 200 * 200 / 300 = 133 rows at the top
    assert_eq!(top.scrollbar.iter().filter(|t| **t).count(), 133);
    assert!(top.scrollbar[0]);
    assert!(!top.scrollbar[199]);

    let past_end = scrollable_text_view(&text, 10_000);
    assert_eq!(past_end.lines, vec!["line 299".to_string()]);
    assert_eq!(past_end.scrollbar, vec![true]);
}

#[test]
fn ordinary_texts_fit_the_layout() {
    assert!(scrollable_text_fits("a\nb\nc", 1));
    assert!(scrollable_text_fits("", usize::MAX));
}
