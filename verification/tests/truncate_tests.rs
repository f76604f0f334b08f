use staff_directory::truncate::is_truncatable;
use staff_directory::truncate::truncate_text;

#[test]
fn a_text_that_fits_is_kept() {
    assert_eq!(truncate_text("MN-5", 12), "MN-5");
    assert_eq!(truncate_text("", 0), "");
    assert_eq!(truncate_text("", 12), "");
    assert_eq!(truncate_text("exactly 12 c", 12), "exactly 12 c");
}

#[test]
fn a_longer_text_is_cut_three_short_and_marked() {
    assert_eq!(truncate_text("exactly 13 ch", 12), "exactly 1...");
    assert_eq!(truncate_text("Sivapragasam Thirunavukkarasu", 25), "Sivapragasam Thirunavu...");
    assert_eq!(truncate_text("DFO/VAV/2019/0007-LONG", 15), "DFO/VAV/2019...");
    assert_eq!(truncate_text("abcdef", 5), "ab...");
    assert_eq!(truncate_text("abcdef", 4), "a...");
}

#[test]
fn a_cut_text_is_as_wide_as_the_column() {
    let cut = truncate_text("Sivapragasam Thirunavukkarasu", 25);
    assert_eq!(cut.len(), 25);
}

#[test]
fn widths_below_three_keep_nothing_but_the_mark() {
    assert_eq!(truncate_text("abcdef", 3), "...");
    assert_eq!(truncate_text("abcdef", 2), "...");
    assert_eq!(truncate_text("abcdef", 1), "...");
    assert_eq!(truncate_text("abcdef", 0), "...");
    assert_eq!(truncate_text("a", 0), "...");
}

#[test]
fn widths_count_bytes() {
    // Six letters of two bytes each.
    let text = "\u{00e9}\u{00e9}\u{00e9}\u{00e9}\u{00e9}\u{00e9}";
    assert_eq!(text.len(), 12);
    assert_eq!(truncate_text(text, 12), text);
    assert!(is_truncatable(text, 11));
    assert_eq!(truncate_text(text, 11), "\u{00e9}\u{00e9}\u{00e9}\u{00e9}...");
    assert!(is_truncatable(text, 7));
    assert_eq!(truncate_text(text, 7), "\u{00e9}\u{00e9}...");
    assert!(is_truncatable(text, 3));
    assert_eq!(truncate_text(text, 3), "...");
}

#[test]
fn a_cut_inside_a_character_is_not_possible() {
    let text = "\u{00e9}\u{00e9}\u{00e9}\u{00e9}\u{00e9}\u{00e9}";
    assert!(!is_truncatable(text, 10));
    assert!(!is_truncatable(text, 8));
    assert!(!is_truncatable(text, 4));
    assert!(is_truncatable(text, 12));
    assert!(is_truncatable(text, 100));
    assert!(is_truncatable(text, 0));
}

#[test]
fn ascii_text_can_always_be_cut() {
    let text = "Divisional Forest Office";
    let mut width: usize = 0;
    while width <= 30 {
        assert!(is_truncatable(text, width));
        let cut = truncate_text(text, width);
        if text.len() <= width {
            assert_eq!(cut, text);
        } else {
            let keep = width.saturating_sub(3);
            assert_eq!(cut, format!("{}...", &text[..keep]));
        }
        width += 1;
    }
}

#[test]
fn what_is_kept_is_the_beginning() {
    let texts = ["Divisional Forest Office", "\u{00e9}t\u{00e9} \u{0dc3}\u{0dd2} long enough", "abc"];
    for text in texts {
        let mut width: usize = 3;
        while width <= 40 {
            if is_truncatable(text, width) {
                let cut = truncate_text(text, width);
                assert!(cut.len() <= width);
                if text.len() > width {
                    assert_eq!(cut.len(), width);
                    assert!(cut.ends_with("..."));
                    assert!(text.starts_with(&cut[..cut.len() - 3]));
                }
            }
            width += 1;
        }
    }
}
