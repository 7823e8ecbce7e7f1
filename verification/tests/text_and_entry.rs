use brag::time::Stamp;
use brag::entry::{render_line, Entry};
use brag::error::BragError;
use brag::text::{find_core, mark_white, trim};

#[test]
fn mark_white_marks_each_character() {
    assert_eq!(mark_white(" a\tb\n"), vec![true, false, true, false, true]);
    assert_eq!(mark_white("é\u{00A0}✓"), vec![false, true, false]);
    assert_eq!(mark_white(""), Vec::<bool>::new());
}

#[test]
fn find_core_cuts_marked_places_at_both_sides() {
    assert_eq!(find_core(&vec![true, false, false, true]), (1, 3));
    assert_eq!(find_core(&vec![true, true, false, true, false, true, true]), (2, 5));
    assert_eq!(find_core(&vec![false]), (0, 1));
    assert_eq!(find_core(&vec![false, true, false]), (0, 3));
}

#[test]
fn find_core_of_nothing_but_marks_is_empty() {
    assert_eq!(find_core(&vec![]), (0, 0));
    assert_eq!(find_core(&vec![true]), (1, 1));
    assert_eq!(find_core(&vec![true, true, true]), (3, 3));
}

#[test]
fn white_space_is_what_unicode_says_for_every_character() {
    for n in 0..=0x10FFFFu32 {
        if let Some(c) = char::from_u32(n) {
            let expected = (0x0009..=0x000D).contains(&n)
                || n == 0x0020
                || n == 0x0085
                || n == 0x00A0
                || n == 0x1680
                || (0x2000..=0x200A).contains(&n)
                || n == 0x2028
                || n == 0x2029
                || n == 0x202F
                || n == 0x205F
                || n == 0x3000;
            let mut text = String::new();
            text.push(c);
            assert_eq!(mark_white(&text), vec![expected], "U+{:04X}", n);
        }
    }
}

#[test]
fn trim_strips_both_ends() {
    assert_eq!(trim("  Shipped v1 \n"), "Shipped v1");
    assert_eq!(trim("\t\r\nfixed the build"), "fixed the build");
    assert_eq!(trim("gave a talk   "), "gave a talk");
}

#[test]
fn trim_keeps_inner_white_space() {
    assert_eq!(trim(" two  words\tand\nlines "), "two  words\tand\nlines");
}

#[test]
fn trim_leaves_clean_text_alone() {
    assert_eq!(trim("a"), "a");
    assert_eq!(trim("already clean"), "already clean");
}

#[test]
fn trim_of_blank_text_is_empty() {
    assert_eq!(trim(""), "");
    assert_eq!(trim(" "), "");
    assert_eq!(trim(" \t\r\n  "), "");
}

#[test]
fn trim_knows_white_space_beyond_ascii() {
    assert_eq!(trim("\u{2003}wide\u{00A0}"), "wide");
    assert_eq!(trim("\u{3000}\u{2028}x y\u{1680}"), "x y");
    // A zero-width space is no white space.
    assert_eq!(trim("\u{200B}x\u{200B}"), "\u{200B}x\u{200B}");
}

#[test]
fn trim_handles_text_of_several_bytes_a_character() {
    assert_eq!(trim("  héllo wörld ✓  "), "héllo wörld ✓");
}

#[test]
fn trim_agrees_with_the_standard_library() {
    let samples = vec![
        "",
        " ",
        "x",
        " x",
        "x ",
        "  leading",
        "trailing  ",
        "\n\nboth\n\n",
        "\u{0085}next line\u{0085}",
        "\u{000B}\u{000C}form\u{000C}",
        " \u{FEFF} ",
    ];
    for s in samples {
        assert_eq!(trim(s), s.trim());
    }
}

#[test]
fn trim_is_idempotent_on_samples() {
    for s in vec!["  a b  ", "\tc", "", "   "] {
        let once = trim(s);
        assert_eq!(trim(&once), once);
    }
}

#[test]
fn render_line_joins_stamp_and_text() {
    assert_eq!(render_line("2024-01-02 03:04:05", "Shipped v1"), "2024-01-02 03:04:05: Shipped v1");
    assert_eq!(render_line("", ""), ": ");
}

#[test]
fn entry_line_shows_date_time_and_text() {
    let e = Entry::with_timestamp("Shipped v1", 0).unwrap();
    assert_eq!(e.line(), "1970-01-01 00:00:00: Shipped v1");
    let e = Entry::with_timestamp("x", 1431648000).unwrap();
    assert_eq!(e.line(), "2015-05-15 00:00:00: x");
    let e = Entry::with_timestamp("y", -1).unwrap();
    assert_eq!(e.line(), "1969-12-31 23:59:59: y");
    let e = Entry::with_timestamp("z", 1700000000).unwrap();
    assert_eq!(e.line(), "2023-11-14 22:13:20: z");
}

#[test]
fn entry_line_agrees_with_chrono() {
    let secs: i64 = 1234567890;
    let e = Entry::with_timestamp("note", secs).unwrap();
    let stamp = chrono::DateTime::from_timestamp(secs, 0)
        .unwrap()
        .format("%Y-%m-%d %H:%M:%S")
        .to_string();
    assert_eq!(e.line(), format!("{}: note", stamp));
}

#[test]
fn entry_keeps_what_it_was_made_with() {
    let e = Entry::with_timestamp("  as given ", 86400).unwrap();
    assert_eq!(e.content(), "  as given ");
    assert_eq!(e.timestamp(), 86400);
}

#[test]
fn entry_needs_a_time_with_a_date() {
    assert!(Entry::with_timestamp("x", i64::MAX).is_none());
    assert!(Entry::with_timestamp("x", i64::MIN).is_none());
    assert!(Entry::with_timestamp("x", 0).is_some());
}

#[test]
fn stamps_are_the_times_chrono_has_a_date_for() {
    for secs in vec![0, -1, 1, 1700000000, i64::MAX, i64::MIN, 8210266876799, 8210266876800] {
        assert_eq!(
            Stamp::new(secs).is_some(),
            chrono::DateTime::from_timestamp(secs, 0).is_some()
        );
    }
}

#[test]
fn stamp_keeps_its_seconds() {
    assert_eq!(Stamp::new(0).unwrap().seconds(), 0);
    assert_eq!(Stamp::new(-86400).unwrap().seconds(), -86400);
    assert_eq!(Stamp::new(1700000000).unwrap().seconds(), 1700000000);
    assert!(Stamp::new(i64::MAX).is_none());
}

#[test]
fn new_entry_is_made_at_the_given_time() {
    let e = Entry::new("Shipped v1", Stamp::new(1700000000).unwrap());
    assert_eq!(e.content(), "Shipped v1");
    assert_eq!(e.timestamp(), 1700000000);
    assert_eq!(e.line(), "2023-11-14 22:13:20: Shipped v1");
}

#[test]
fn new_entry_made_now_lies_between_before_and_after() {
    let before = chrono::Utc::now().timestamp();
    let e = Entry::new("Shipped v1", Stamp::new(chrono::Utc::now().timestamp()).unwrap());
    let after = chrono::Utc::now().timestamp();
    assert!(before <= e.timestamp() && e.timestamp() <= after);
}

#[test]
fn new_entry_takes_any_text() {
    let at = Stamp::new(5).unwrap();
    assert_eq!(Entry::new("", at).content(), "");
    assert_eq!(Entry::new("   ", at).content(), "   ");
    assert_eq!(Entry::new(" padded ", at).content(), " padded ");
}

#[test]
fn edit_replaces_text_and_keeps_time() {
    let mut e = Entry::with_timestamp("old", 1000).unwrap();
    assert!(e.edit("  new text \n").is_ok());
    assert_eq!(e.content(), "new text");
    assert_eq!(e.timestamp(), 1000);
}

#[test]
fn edit_to_blank_is_refused_and_changes_nothing() {
    let mut e = Entry::with_timestamp("old", 1000).unwrap();
    assert!(matches!(e.edit(""), Err(BragError::InvalidEdit)));
    assert_eq!(e.content(), "old");
    assert!(matches!(e.edit(" \n\t "), Err(BragError::InvalidEdit)));
    assert_eq!(e.content(), "old");
    assert_eq!(e.timestamp(), 1000);
}
