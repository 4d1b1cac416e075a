use mitos_installer::text::{
    contains, decimal, file_name, join_path, lines, pad_right, parse_u64, remove_char,
    split_whitespace, starts_with, strip_prefix, trim, trim_end_char, trim_start_char,
    utf8_len_at_least,
};

#[test]
fn trim_removes_unicode_whitespace_on_both_ends() {
    assert_eq!(trim("  host\t\n"), "host");
    assert_eq!(trim("\u{3000}a b\u{00A0}"), "a b");
    assert_eq!(trim("   "), "");
}

#[test]
fn lines_follow_str_lines() {
    let samples = ["", "a", "a\n", "a\r\nb", "a\n\nb\n", "x\r", "\n", "one\ntwo\r\nthree"];
    for s in samples {
        let expected: Vec<String> = s.lines().map(|l| l.to_string()).collect();
        assert_eq!(lines(s), expected, "input {:?}", s);
    }
}

#[test]
fn split_whitespace_follows_str() {
    let samples = ["", "  ", "MemTotal:       16318496 kB", "a\tb  c\n"];
    for s in samples {
        let expected: Vec<String> = s.split_whitespace().map(|w| w.to_string()).collect();
        assert_eq!(split_whitespace(s), expected, "input {:?}", s);
    }
}

#[test]
fn substring_tests() {
    assert!(contains("/dev/nvme0n1", "nvme"));
    assert!(!contains("/dev/sda", "nvme"));
    assert!(contains("abc", ""));
    assert!(starts_with("MemTotal: 1 kB", "MemTotal:"));
    assert!(!starts_with("MemFree: 1 kB", "MemTotal:"));
    assert_eq!(strip_prefix("/dev/sda2", "/dev/sda"), Some("2".to_string()));
    assert_eq!(strip_prefix("/dev/sdb2", "/dev/sda"), None);
}

#[test]
fn trimming_one_character() {
    assert_eq!(trim_end_char("/run/rootfs///", '/'), "/run/rootfs");
    assert_eq!(trim_start_char("pp1", 'p'), "1");
    assert_eq!(remove_char("3f2a-4b-c", '-'), "3f2a4bc");
}

#[test]
fn padding_and_numbers() {
    assert_eq!(pad_right("ab", 5), "ab   ");
    assert_eq!(pad_right("abcdef", 3), "abcdef");
    assert_eq!(decimal(0), "0");
    assert_eq!(decimal(1073741824), "1073741824");
    assert_eq!(decimal(u64::MAX), u64::MAX.to_string());
}

#[test]
fn parse_u64_follows_from_str() {
    let samples = ["", "+", "-1", "+12", "0", "007", "18446744073709551615", "18446744073709551616", "12a", " 1"];
    for s in samples {
        assert_eq!(parse_u64(s), s.parse::<u64>().ok(), "input {:?}", s);
    }
}

#[test]
fn paths_follow_std_path() {
    let joins = [("/mnt/mitos", "boot/efi"), ("/mnt/mitos/", "etc"), ("", "a"), ("/a", "/b"), ("/a", "")];
    for (base, rel) in joins {
        let expected = std::path::Path::new(base).join(rel).to_string_lossy().into_owned();
        assert_eq!(join_path(base, rel), expected, "join {:?} {:?}", base, rel);
    }
    let names = ["/run/mitos-live/bzImage", "foo.txt/.", "foo.txt/.//", "foo/..", "/", ".", "./", "a/b/", "", "x"];
    for p in names {
        let expected = std::path::Path::new(p).file_name().map(|n| n.to_string_lossy().into_owned());
        assert_eq!(file_name(p), expected, "file name of {:?}", p);
    }
}

#[test]
fn byte_length_threshold() {
    assert!(utf8_len_at_least("abcd", 4));
    assert!(!utf8_len_at_least("abc", 4));
    assert!(utf8_len_at_least("éé", 4));
    assert!(!utf8_len_at_least("é", 4));
    assert!(utf8_len_at_least("", 0));
}
