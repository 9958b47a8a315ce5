use offset_finder::differ::{compare_offsets, statistics};
use offset_finder::finders::{
    find_aob_in_bytes, find_pattern_in_bytes, find_pattern_in_lines, find_regex_in_bytes,
    find_regex_in_lines, first_line_containing, offset_on,
};
use offset_finder::hex::{extract_hex, format_offset};
use offset_finder::models::{OffsetCategory, OffsetResult, Target};
use offset_finder::scanner::{
    batch_scan, is_binary_artifact, scan_binary, scan_file, scan_text,
};
use offset_finder::text::split_lines;

fn some(text: &str) -> Option<String> {
    Some(text.to_string())
}

fn entry(name: &str, offset: Option<&str>, category: &str) -> OffsetResult {
    OffsetResult {
        name: name.to_string(),
        offset: offset.map(|o| o.to_string()),
        category: category.to_string(),
    }
}

fn flat(results: &[OffsetResult]) -> Vec<(String, Option<String>, String)> {
    results.iter().map(|r| (r.name.clone(), r.offset.clone(), r.category.clone())).collect()
}

#[test]
fn scenario_fixed_separator_pattern() {
    let catalog = vec![(
        OffsetCategory::Core,
        vec![
            Target::new_fixed("A", "0x10"),
            Target::Separator,
            Target::new_pattern("B", "foo"),
        ],
    )];
    let report = scan_text("xxx foo 0x99", &catalog);
    assert_eq!(
        flat(&report),
        vec![
            ("A".to_string(), some("0x10"), "Core".to_string()),
            ("B".to_string(), some("0x99"), "Core".to_string()),
        ]
    );
    let stats = statistics(&report);
    assert_eq!(stats.total, 2);
    assert_eq!(stats.found, 2);
    assert_eq!(stats.missing, 0);
}

#[test]
fn report_has_one_entry_per_signature() {
    let catalog = vec![
        (
            OffsetCategory::Core,
            vec![Target::Separator, Target::new_fixed("A", "0x1"), Target::Separator],
        ),
        (OffsetCategory::Player, vec![]),
        (
            OffsetCategory::Weapon,
            vec![
                Target::new_pattern("B", "nowhere"),
                Target::new_regex("C", "a+"),
                Target::new_aob("D", "41 42"),
            ],
        ),
    ];
    let text = scan_text("line one\nline two 0x2\n", &catalog);
    assert_eq!(text.len(), 4);
    assert_eq!(
        text.iter().map(|r| r.name.as_str()).collect::<Vec<_>>(),
        vec!["A", "B", "C", "D"]
    );
    assert_eq!(
        text.iter().map(|r| r.category.as_str()).collect::<Vec<_>>(),
        vec!["Core", "Weapon", "Weapon", "Weapon"]
    );
    let binary = scan_binary(b"\x00AB", &catalog);
    assert_eq!(binary.len(), 4);
    assert_eq!(
        binary.iter().map(|r| r.name.as_str()).collect::<Vec<_>>(),
        vec!["A", "B", "C", "D"]
    );
}

#[test]
fn empty_catalog_gives_empty_report() {
    assert!(scan_text("anything 0x1", &[]).is_empty());
    assert!(scan_binary(b"anything", &[]).is_empty());
    let stats = statistics(&[]);
    assert_eq!((stats.total, stats.found, stats.missing), (0, 0, 0));
}

#[test]
fn fixed_value_is_its_own_offset_in_text_and_absent_in_binary() {
    let catalog = vec![(OffsetCategory::Core, vec![Target::new_fixed("ViewMatrix", "0x98 + 0x24")])];
    let text = scan_text("", &catalog);
    assert_eq!(text[0].offset, some("0x98 + 0x24"));
    let binary = scan_binary(b"0x98 + 0x24", &catalog);
    assert_eq!(binary[0].offset, None);
}

#[test]
fn aob_is_never_found_in_text() {
    let catalog = vec![(OffsetCategory::Core, vec![Target::new_aob("N", "41 42")])];
    let report = scan_text("41 42 AB 0x10\nAB", &catalog);
    assert_eq!(report[0].offset, None);
}

#[test]
fn literal_pattern_on_one_line_gives_that_lines_literal() {
    let lines = vec![
        "public int other; // 0x11",
        "",
        "\tpublic bool IsClientBot; // 0x2A4",
        "trailing 0x33",
    ];
    assert_eq!(find_pattern_in_lines(&lines, "public bool IsClientBot;"), some("0x2A4"));
    let padded = vec!["0x1 noise", "more noise 0xFFFF", "\tpublic bool IsClientBot; // 0x2A4"];
    assert_eq!(find_pattern_in_lines(&padded, "public bool IsClientBot;"), some("0x2A4"));
}

#[test]
fn first_matching_line_decides() {
    let lines = vec!["foo without a literal", "foo 0x20"];
    assert_eq!(first_line_containing(&lines, "foo"), Some(0));
    assert_eq!(find_pattern_in_lines(&lines, "foo"), None);
    let lines = vec!["bar", "foo 0x20", "foo 0x30"];
    assert_eq!(first_line_containing(&lines, "foo"), Some(1));
    assert_eq!(find_pattern_in_lines(&lines, "foo"), some("0x20"));
    assert_eq!(first_line_containing(&lines, "baz"), None);
    assert_eq!(find_pattern_in_lines(&lines, "baz"), None);
    assert_eq!(find_pattern_in_lines(&[], "foo"), None);
}

#[test]
fn empty_literal_pattern_matches_the_first_line() {
    let lines = vec!["first 0x1", "second 0x2"];
    assert_eq!(find_pattern_in_lines(&lines, ""), some("0x1"));
}

#[test]
fn offset_is_read_from_the_hit_line() {
    let lines = vec!["a 0x1", "b", "c 0x3"];
    assert_eq!(offset_on(&lines, Some(0)), some("0x1"));
    assert_eq!(offset_on(&lines, Some(1)), None);
    assert_eq!(offset_on(&lines, Some(2)), some("0x3"));
    assert_eq!(offset_on(&lines, Some(3)), None);
    assert_eq!(offset_on(&lines, None), None);
}

#[test]
fn regex_pattern_in_lines() {
    let lines = vec![
        "protected string abc; // 0x10",
        "protected string ABCDEFGHIJK; // 0x2C",
        "protected string ZZZZZZZZZZZ; // 0x30",
    ];
    assert_eq!(
        find_regex_in_lines(&lines, r"protected string [A-Z]{11}; // 0x"),
        some("0x2C")
    );
    assert_eq!(find_regex_in_lines(&lines, r"private [A-Z]{11}"), None);
}

#[test]
fn regex_first_matching_line_decides() {
    let lines = vec!["match here", "match 0x5"];
    assert_eq!(find_regex_in_lines(&lines, "ma+tch"), None);
}

#[test]
fn invalid_regex_is_not_found() {
    let lines = vec!["foo(bar 0x10"];
    assert_eq!(find_regex_in_lines(&lines, "foo(bar"), None);
    assert_eq!(find_regex_in_bytes(b"foo(bar", "foo(bar"), None);
    let catalog = vec![(
        OffsetCategory::Core,
        vec![Target::new_regex("Bad", "foo(bar"), Target::new_fixed("Good", "0x1")],
    )];
    let report = scan_text("foo(bar 0x10", &catalog);
    assert_eq!(report.len(), 2);
    assert_eq!(report[0].offset, None);
    assert_eq!(report[1].offset, some("0x1"));
}

#[test]
fn hex_literal_extraction() {
    assert_eq!(extract_hex("xxx foo 0x99"), some("0x99"));
    assert_eq!(extract_hex("0x"), None);
    assert_eq!(extract_hex("0xg"), None);
    assert_eq!(extract_hex(""), None);
    assert_eq!(extract_hex("no literal"), None);
    assert_eq!(extract_hex("0X10"), None);
    assert_eq!(extract_hex("0xAbCdEf0123456789 rest"), some("0xAbCdEf0123456789"));
    assert_eq!(extract_hex("a 0x1F, b 0x2"), some("0x1F"));
    assert_eq!(extract_hex("0x0x1F"), some("0x0"));
    assert_eq!(extract_hex("00x7"), some("0x7"));
    assert_eq!(extract_hex("0x1G"), some("0x1"));
    assert_eq!(extract_hex("x0x 0xz 0xC"), some("0xC"));
    assert_eq!(extract_hex("é 0x10é"), some("0x10"));
    assert_eq!(extract_hex("日本語0xFFñ"), some("0xFF"));
    assert_eq!(extract_hex("0x98 + 0x24"), some("0x98"));
}

#[test]
fn offset_formatting() {
    assert_eq!(format_offset(0), "0x0");
    assert_eq!(format_offset(1), "0x1");
    assert_eq!(format_offset(9), "0x9");
    assert_eq!(format_offset(10), "0xA");
    assert_eq!(format_offset(15), "0xF");
    assert_eq!(format_offset(16), "0x10");
    assert_eq!(format_offset(255), "0xFF");
    assert_eq!(format_offset(0xDEADBEEF), "0xDEADBEEF");
    assert_eq!(format_offset(usize::MAX), format!("0x{:X}", usize::MAX));
}

#[test]
fn masked_pattern_two_wildcards_match_at_zero() {
    assert_eq!(find_aob_in_bytes(&[0x00, 0x00], "?? ??"), some("0x0"));
    assert_eq!(find_aob_in_bytes(&[0x12, 0x34, 0x56], "?? ??"), some("0x0"));
    assert_eq!(find_aob_in_bytes(&[0xFF; 64], "? ?"), some("0x0"));
}

#[test]
fn masked_pattern_longer_than_buffer_is_not_found() {
    assert_eq!(find_aob_in_bytes(&[0x41], "41 42"), None);
    assert_eq!(find_aob_in_bytes(&[0x41], "?? ??"), None);
    assert_eq!(find_aob_in_bytes(&[], "??"), None);
    assert_eq!(find_aob_in_bytes(&[], "41"), None);
}

#[test]
fn masked_pattern_concrete_bytes() {
    assert_eq!(find_aob_in_bytes(&[0x41, 0x42], "41 42"), some("0x0"));
    assert_eq!(find_aob_in_bytes(&[0x00, 0x41, 0x42], "41 42"), some("0x1"));
    assert_eq!(find_aob_in_bytes(&[0x41, 0x00, 0x42], "41 42"), None);
}

#[test]
fn masked_pattern_mixed() {
    let bytes = [0x48, 0x8B, 0x05, 0x11, 0x22, 0x33, 0x44, 0x48, 0x0F, 0x44, 0xC8];
    assert_eq!(find_aob_in_bytes(&bytes, "48 8B 05 ?? ?? ?? ?? 48 0F 44 C8"), some("0x0"));
    assert_eq!(find_aob_in_bytes(&bytes, "48 ?? 44"), some("0x7"));
    assert_eq!(find_aob_in_bytes(&bytes, "48 ? 44"), some("0x7"));
    assert_eq!(find_aob_in_bytes(&bytes, "c8"), some("0xA"));
    assert_eq!(find_aob_in_bytes(&bytes, "C9"), None);
}

#[test]
fn masked_pattern_first_match_wins() {
    let bytes = [0x01, 0x02, 0x01, 0x02, 0x01, 0x03];
    assert_eq!(find_aob_in_bytes(&bytes, "01 02"), some("0x0"));
    assert_eq!(find_aob_in_bytes(&bytes, "01 03"), some("0x4"));
    assert_eq!(find_aob_in_bytes(&bytes, "02 ?? 02"), some("0x1"));
}

#[test]
fn masked_pattern_ignores_tokens_that_write_no_byte() {
    assert_eq!(find_aob_in_bytes(&[0x41, 0x42], "41 zz 42"), some("0x0"));
    assert_eq!(find_aob_in_bytes(&[0x41, 0x42], "41 100 42"), some("0x0"));
    assert_eq!(find_aob_in_bytes(&[0x41, 0x42], "41 ??? 42"), some("0x0"));
    assert_eq!(find_aob_in_bytes(&[0x41, 0x42], "41 -1 + 42"), some("0x0"));
    assert_eq!(find_aob_in_bytes(&[0x41, 0x42], ""), None);
    assert_eq!(find_aob_in_bytes(&[0x41, 0x42], "   "), None);
    assert_eq!(find_aob_in_bytes(&[0x41, 0x42], "xyz 0x41"), None);
}

#[test]
fn masked_pattern_token_forms() {
    assert_eq!(find_aob_in_bytes(&[0x00, 0x04], "4"), some("0x1"));
    assert_eq!(find_aob_in_bytes(&[0x00, 0x41], "+41"), some("0x1"));
    assert_eq!(find_aob_in_bytes(&[0x00, 0x41], "0041"), some("0x1"));
    assert_eq!(find_aob_in_bytes(&[0x00, 0xFF], "fF"), some("0x1"));
    assert_eq!(find_aob_in_bytes(&[0x41, 0x42], "\t41\n\u{a0}42\u{3000}"), some("0x0"));
}

#[test]
fn literal_pattern_in_bytes() {
    assert_eq!(find_pattern_in_bytes(b"hello world", "world"), some("0x6"));
    assert_eq!(find_pattern_in_bytes(b"hello world", "hello"), some("0x0"));
    assert_eq!(find_pattern_in_bytes(b"aaab", "ab"), some("0x2"));
    assert_eq!(find_pattern_in_bytes(b"abab", "ab"), some("0x0"));
    assert_eq!(find_pattern_in_bytes(b"hello", "world"), None);
    assert_eq!(find_pattern_in_bytes(b"hello", ""), None);
    assert_eq!(find_pattern_in_bytes(b"hi", "hello"), None);
    assert_eq!(find_pattern_in_bytes(b"", "a"), None);
    let mut big = vec![0u8; 300];
    big.extend_from_slice("né".as_bytes());
    assert_eq!(find_pattern_in_bytes(&big, "né"), some("0x12C"));
}

#[test]
fn regex_pattern_in_bytes() {
    assert_eq!(find_regex_in_bytes(b"\x00\x01abc123", "[0-9]+"), some("0x5"));
    assert_eq!(find_regex_in_bytes(b"xxabxab", "ab"), some("0x2"));
    assert_eq!(find_regex_in_bytes(b"abc", "[0-9]+"), None);
    assert_eq!(find_regex_in_bytes(b"\xff\xfe\x41", r"(?-u)\xfe"), some("0x1"));
}

#[test]
fn lines_are_split_as_text_lines() {
    assert_eq!(split_lines(""), Vec::<&str>::new());
    assert_eq!(split_lines("a"), vec!["a"]);
    assert_eq!(split_lines("a\n"), vec!["a"]);
    assert_eq!(split_lines("a\nb"), vec!["a", "b"]);
    assert_eq!(split_lines("a\r\nb\r\n"), vec!["a", "b"]);
    assert_eq!(split_lines("a\n\nb"), vec!["a", "", "b"]);
    assert_eq!(split_lines("\n"), vec![""]);
    assert_eq!(split_lines("\r\n"), vec![""]);
    assert_eq!(split_lines("a\rb\n"), vec!["a\rb"]);
    assert_eq!(split_lines("a\r"), vec!["a\r"]);
    assert_eq!(split_lines("a\r\r\n"), vec!["a\r"]);
    assert_eq!(split_lines("é\nñ 0x1\r\n日本"), vec!["é", "ñ 0x1", "日本"]);
    for text in ["", "a", "a\n", "\n\n", "x\r\ny\rz\n\r", "é\r\n\r\nü", "end\r"] {
        assert_eq!(split_lines(text), text.lines().collect::<Vec<_>>());
    }
}

#[test]
fn binary_names() {
    assert!(is_binary_artifact("dump.bin"));
    assert!(is_binary_artifact("libil2cpp.so"));
    assert!(is_binary_artifact("GameAssembly.dll"));
    assert!(is_binary_artifact(".bin"));
    assert!(!is_binary_artifact("dump.cs"));
    assert!(!is_binary_artifact("dump.BIN"));
    assert!(!is_binary_artifact("dump.bin.txt"));
    assert!(!is_binary_artifact("bin"));
    assert!(!is_binary_artifact(""));
    assert!(!is_binary_artifact("so"));
}

#[test]
fn scan_file_selects_the_mode_by_name() {
    let catalog = vec![(
        OffsetCategory::Core,
        vec![Target::new_fixed("F", "0x1"), Target::new_pattern("P", "AB")],
    )];
    let data = b"xxAB 0x77".to_vec();
    let text = scan_file("dump.cs", &Ok(data.clone()), &catalog).unwrap();
    assert_eq!(text[0].offset, some("0x1"));
    assert_eq!(text[1].offset, some("0x77"));
    let binary = scan_file("dump.bin", &Ok(data), &catalog).unwrap();
    assert_eq!(binary[0].offset, None);
    assert_eq!(binary[1].offset, some("0x2"));
}

#[test]
fn scan_file_errors() {
    let catalog = vec![(OffsetCategory::Core, vec![Target::new_fixed("F", "0x1")])];
    let missing: Result<Vec<u8>, String> = Err("No such file or directory (os error 2)".to_string());
    assert_eq!(
        scan_file("dump.cs", &missing, &catalog).unwrap_err(),
        "Error reading file: No such file or directory (os error 2)"
    );
    assert_eq!(
        scan_file("dump.so", &missing, &catalog).unwrap_err(),
        "Error reading binary file: No such file or directory (os error 2)"
    );
    let invalid: Result<Vec<u8>, String> = Ok(vec![0x66, 0xFF, 0x6F]);
    assert_eq!(
        scan_file("dump.cs", &invalid, &catalog).unwrap_err(),
        "Error reading file: stream did not contain valid UTF-8"
    );
    assert!(scan_file("dump.dll", &invalid, &catalog).is_ok());
}

#[test]
fn batch_scan_isolates_failures() {
    let catalog = vec![(OffsetCategory::Bot, vec![Target::new_pattern("isBot", "IsClientBot")])];
    let artifacts = vec![
        ("a.cs".to_string(), Ok(b"public bool IsClientBot; // 0x40".to_vec())),
        ("missing.cs".to_string(), Err("denied".to_string())),
        ("b.bin".to_string(), Ok(b"..IsClientBot".to_vec())),
    ];
    let outcomes = batch_scan(&artifacts, &catalog);
    assert_eq!(outcomes.len(), 3);
    assert_eq!(outcomes[0].0, "a.cs");
    assert_eq!(outcomes[0].1.as_ref().unwrap()[0].offset, some("0x40"));
    assert_eq!(outcomes[1].0, "missing.cs");
    assert_eq!(outcomes[1].1.as_ref().unwrap_err(), "Error reading file: denied");
    assert_eq!(outcomes[2].0, "b.bin");
    assert_eq!(outcomes[2].1.as_ref().unwrap()[0].offset, some("0x2"));
    assert_eq!(outcomes[2].1.as_ref().unwrap()[0].category, "Bot Detection");
    assert!(batch_scan(&[], &catalog).is_empty());
}

#[test]
fn scanning_twice_gives_the_same_report() {
    let catalog = vec![(
        OffsetCategory::Player,
        vec![
            Target::new_fixed("A", "0x10"),
            Target::new_pattern("B", "foo"),
            Target::new_regex("C", "ba+r"),
            Target::new_aob("D", "66 ?? 6F"),
        ],
    )];
    let text = "xxx foo 0x99\nbaar 0x3";
    assert_eq!(flat(&scan_text(text, &catalog)), flat(&scan_text(text, &catalog)));
    assert_eq!(
        flat(&scan_binary(text.as_bytes(), &catalog)),
        flat(&scan_binary(text.as_bytes(), &catalog))
    );
}

#[test]
fn diff_of_a_report_with_itself_is_empty() {
    let report = vec![
        entry("A", Some("0x1"), "Core"),
        entry("B", None, "Core"),
        entry("C", Some("0x3"), "Player"),
    ];
    assert!(compare_offsets(&report, &report).is_empty());
    assert!(compare_offsets(&[], &[]).is_empty());
}

#[test]
fn diff_lists_what_changed() {
    let old = vec![
        entry("A", Some("0x1"), "Core"),
        entry("B", None, "Core"),
        entry("C", Some("0x3"), "Player"),
        entry("Gone", Some("0x9"), "Player"),
    ];
    let new = vec![
        entry("A", Some("0x1"), "Core"),
        entry("B", Some("0x2"), "Core"),
        entry("C", None, "Player"),
        entry("New", Some("0x4"), "Player"),
        entry("NewMissing", None, "Player"),
        entry("D", Some("0x5"), "Weapon"),
    ];
    assert_eq!(
        compare_offsets(&old, &new),
        vec![
            ("B".to_string(), None, some("0x2")),
            ("C".to_string(), some("0x3"), None),
            ("New".to_string(), None, some("0x4")),
            ("D".to_string(), None, some("0x5")),
        ]
    );
    assert_eq!(
        compare_offsets(&new, &old),
        vec![
            ("B".to_string(), some("0x2"), None),
            ("C".to_string(), None, some("0x3")),
            ("Gone".to_string(), None, some("0x9")),
        ]
    );
}

#[test]
fn diff_looks_up_the_first_entry_of_a_name() {
    let old = vec![entry("A", Some("0x1"), "Core"), entry("A", Some("0x2"), "Core")];
    let new = vec![entry("A", Some("0x2"), "Core")];
    assert_eq!(compare_offsets(&old, &new), vec![("A".to_string(), some("0x1"), some("0x2"))]);
    assert_eq!(
        compare_offsets(&old, &old),
        vec![("A".to_string(), some("0x1"), some("0x2"))]
    );
}

#[test]
fn statistics_count_found_and_missing() {
    let report = vec![
        entry("A", Some("0x1"), "Core"),
        entry("B", None, "Core"),
        entry("C", Some("0x3"), "Player"),
    ];
    let stats = statistics(&report);
    assert_eq!(stats.total, 3);
    assert_eq!(stats.found, 2);
    assert_eq!(stats.missing, 1);
}
