use ai_music_mcp::text::{
    ascii_only_text, chars_of, contains_char, contains_text, decimal_text, ends_with_text,
    file_name_text, find_entry_value, find_first_line_with, join_lines_text, join_text,
    name_stem_text, remove_all_text, utf8_len_up_to, same_text, signed_decimal_text, starts_with_text, trim_text,
};

#[test]
fn chars_of_keeps_every_character() {
    assert_eq!(chars_of("héllo"), vec!['h', 'é', 'l', 'l', 'o']);
    assert!(chars_of("").is_empty());
}

#[test]
fn contains_text_finds_dot_dot() {
    assert!(contains_text("a/../b", ".."));
    assert!(contains_text("..", ".."));
    assert!(!contains_text("a/./b", ".."));
    assert!(!contains_text("", ".."));
    assert!(contains_text("abc", ""));
}

#[test]
fn contains_char_finds_separators() {
    assert!(contains_char("a/b", '/'));
    assert!(contains_char("a\\b", '\\'));
    assert!(!contains_char("ab", '/'));
}

#[test]
fn same_text_compares_characters() {
    assert!(same_text("small", "small"));
    assert!(!same_text("small", "smal"));
    assert!(!same_text("Small", "small"));
    assert!(same_text("", ""));
}

#[test]
fn prefix_and_suffix_checks() {
    assert!(starts_with_text("/out/stems/x.wav", "/out"));
    assert!(!starts_with_text("/ou", "/out"));
    assert!(ends_with_text("matthew.pth", ".pth"));
    assert!(!ends_with_text("matthew.pt", ".pth"));
    assert!(!ends_with_text("pth", ".pth"));
}

#[test]
fn trim_text_matches_std_trim() {
    for s in [
        "  path.wav \t",
        "\u{3000}\u{a0}x y\u{2029}",
        "",
        "   ",
        "no-space",
        "\r\n line \r",
        "\u{85}mid\u{200b}",
    ] {
        assert_eq!(trim_text(s), s.trim(), "input {:?}", s);
    }
}

#[test]
fn remove_all_text_matches_std_replace() {
    for s in [
        "Saved: /out/a.wav",
        "Saved:Saved: x Saved:",
        "SaSaved:ved:",
        "nothing here",
        "",
        "Saved",
    ] {
        assert_eq!(remove_all_text(s, "Saved:"), s.replace("Saved:", ""), "input {:?}", s);
    }
    assert_eq!(remove_all_text("aaa", "aa"), "a");
    assert_eq!(remove_all_text("abc", ""), "abc");
}

#[test]
fn decimal_text_writes_integers() {
    assert_eq!(decimal_text(0), "0");
    assert_eq!(decimal_text(7), "7");
    assert_eq!(decimal_text(1234567890), "1234567890");
    assert_eq!(decimal_text(u64::MAX), u64::MAX.to_string());
}

#[test]
fn signed_decimal_text_writes_negatives() {
    assert_eq!(signed_decimal_text(-24), "-24");
    assert_eq!(signed_decimal_text(30), "30");
    assert_eq!(signed_decimal_text(-1), "-1");
    assert_eq!(signed_decimal_text(i64::MIN), i64::MIN.to_string());
    assert_eq!(signed_decimal_text(i64::MAX), i64::MAX.to_string());
}

#[test]
fn join_lines_text_joins_with_newlines() {
    assert_eq!(join_lines_text(&vec![]), "");
    assert_eq!(join_lines_text(&vec!["a".to_string()]), "a");
    assert_eq!(
        join_lines_text(&vec!["a".to_string(), "b".to_string(), "c".to_string()]),
        "a\nb\nc"
    );
}

#[test]
fn first_line_with_marker_is_found() {
    let out = "Loading model\nSaved: /out/beat.wav\nDone. Saved: other";
    assert_eq!(find_first_line_with(out, "Saved:"), Some("Saved: /out/beat.wav"));
    assert_eq!(find_first_line_with("no marker\nhere", "Saved:"), None);
    assert_eq!(find_first_line_with("Saved: last", "Saved:"), Some("Saved: last"));
    let crlf = "x\r\nSaved: /out/a.wav\r\ny";
    assert_eq!(find_first_line_with(crlf, "Saved:"), Some("Saved: /out/a.wav\r"));
}

#[test]
fn join_text_uses_the_separator() {
    let items = vec!["a.index".to_string(), "b.index".to_string()];
    assert_eq!(join_text(&items, ", "), "a.index, b.index");
    assert_eq!(join_text(&vec!["only".to_string()], ", "), "only");
    assert_eq!(join_text(&vec![], ", "), "");
}

#[test]
fn file_names_and_stems() {
    assert_eq!(file_name_text("/out/beat.wav"), "beat.wav");
    assert_eq!(file_name_text("beat.wav"), "beat.wav");
    assert_eq!(file_name_text("/out/dir/"), "");
    assert_eq!(name_stem_text("beat.wav"), "beat");
    assert_eq!(name_stem_text("my.song.mp3"), "my.song");
    assert_eq!(name_stem_text(".hidden"), ".hidden");
    assert_eq!(name_stem_text("noext"), "noext");
}

#[test]
fn ascii_only_replaces_other_characters() {
    assert_eq!(ascii_only_text("caf\u{e9} ok"), "caf? ok");
    assert_eq!(ascii_only_text("plain"), "plain");
    assert_eq!(ascii_only_text(""), "");
}

#[test]
fn entry_values_are_read_by_key() {
    let out = "codec_name=mp3\nsample_rate=44100\nchannels=2\nduration=12.5\r\nbit_rate=128000\n";
    assert_eq!(find_entry_value(out, "codec_name"), Some("mp3".to_string()));
    assert_eq!(find_entry_value(out, "sample_rate"), Some("44100".to_string()));
    assert_eq!(find_entry_value(out, "duration"), Some("12.5".to_string()));
    assert_eq!(find_entry_value(out, "bit_rate"), Some("128000".to_string()));
    assert_eq!(find_entry_value(out, "rate"), None);
    assert_eq!(find_entry_value("x_channels=9\nchannels=1", "channels"), Some("1".to_string()));
    assert_eq!(find_entry_value("", "channels"), None);
}

#[test]
fn utf8_length_is_capped() {
    assert_eq!(utf8_len_up_to("abc", 10), 3);
    assert_eq!(utf8_len_up_to("caf\u{e9}", 10), 5);
    assert_eq!(utf8_len_up_to("\u{1F3B5}\u{4E2D}", 10), 7);
    assert_eq!(utf8_len_up_to("abcdef", 4), 4);
    assert_eq!(utf8_len_up_to("", 0), 0);
}
