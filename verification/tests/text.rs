use service_compiler::coordinator::version::Version;
use service_compiler::digest::sha256_hex;
use service_compiler::plugin::call;
use service_compiler::text::{
    is_before, is_white_space, same_text, split_lines, split_once, split_pieces, split_words,
    to_decimal, to_hex, trim, trim_end_matches, trim_start_matches,
};

fn version(release: &str, commit_hash: &str, commit_date: &str) -> Version {
    Version {
        release: release.to_owned(),
        commit_hash: commit_hash.to_owned(),
        commit_date: commit_date.to_owned(),
    }
}

#[test]
fn white_space_is_that_of_the_standard_library() {
    for n in 0..0x11_0000u32 {
        if let Some(c) = char::from_u32(n) {
            assert_eq!(is_white_space(c), c.is_whitespace(), "{n:x}");
        }
    }
}

#[test]
fn trimming_agrees_with_the_standard_library() {
    for s in ["", " ", "a", "  a b \u{3000}", "\r\n\tx", "x\u{a0}", "\u{200b}x"] {
        assert_eq!(trim(s), s.trim());
        assert_eq!(trim(trim(s)), trim(s));
    }
    assert_eq!(trim_start_matches("((a(", '('), "a(");
    assert_eq!(trim_end_matches(")a))", ')'), ")a");
    assert_eq!(trim_start_matches("(((", '('), "");
}

#[test]
fn splitting_agrees_with_the_standard_library() {
    for s in ["", ",", "a,b", ",a,,b,", "é,ü"] {
        let pieces: Vec<&str> = s.split(',').collect();
        assert_eq!(split_pieces(s, ','), pieces);
    }
    for s in ["", "\n", "a\nb", "a\r\nb\r\n", "a\n\n\r", "\r\n", "a\r"] {
        let lines: Vec<&str> = s.lines().collect();
        assert_eq!(split_lines(s), lines);
    }
    for s in ["", "  ", "a", " a  b\tc\n", "a\u{2003}b"] {
        let words: Vec<&str> = s.split_whitespace().collect();
        assert_eq!(split_words(s), words);
    }
    assert_eq!(split_once("a: b: c", ':'), Some(("a", " b: c")));
    assert_eq!(split_once("abc", ':'), None);
}

#[test]
fn numbers_are_written_in_their_bases() {
    assert_eq!(to_decimal(0), "0");
    assert_eq!(to_decimal(10), "10");
    assert_eq!(to_decimal(u64::MAX), u64::MAX.to_string());
    assert_eq!(to_hex(&[]), "");
    assert_eq!(to_hex(&[0, 1, 15, 16, 171, 255]), "00010f10abff");
}

#[test]
fn texts_are_compared_by_their_characters() {
    assert!(same_text("a", "a"));
    assert!(!same_text("a", "b"));
    assert!(is_before("", "a"));
    assert!(is_before("a", "ab"));
    assert!(is_before("ab", "b"));
    assert!(!is_before("b", "ab"));
    assert!(!is_before("a", "a"));
}

#[test]
fn digests_are_those_of_sha256() {
    assert_eq!(
        sha256_hex(b""),
        "e3b0c44298fc1c149afbf4c8996fb92427ae41e4649b934ca495991b7852b855"
    );
    assert_eq!(
        sha256_hex(b"abc"),
        "ba7816bf8f01cfea414140de5dae2223b00361a396177a9cb410ff61f20015ad"
    );
}

#[test]
fn rustc_version_is_read() {
    let report = "rustc 1.71.0 (8ede3aae2 2023-07-12)\nbinary: rustc\n\
                  commit-hash: 8ede3aae28fe6e4d52b38157d7bfe0d3bceef225\n\
                  commit-date: 2023-07-12\nhost: x86_64\nrelease: 1.71.0\nLLVM version: 16.0.5\n";
    assert_eq!(
        Version::parse_rustc_version_verbose(report),
        version("1.71.0", "8ede3aae28fe6e4d52b38157d7bfe0d3bceef225", "2023-07-12")
    );
}

#[test]
fn rustc_version_is_lenient() {
    assert_eq!(Version::parse_rustc_version_verbose(""), version("", "", ""));
    // The first line is a banner.
    assert_eq!(
        Version::parse_rustc_version_verbose("release: 1.0.0"),
        version("", "", "")
    );
    // The last value wins, and a value may hold colons.
    assert_eq!(
        Version::parse_rustc_version_verbose("rustc\r\nrelease: 1\r\n release :2:3 \r\nno colon\r\n"),
        version("2:3", "", "")
    );
}

#[test]
fn tool_version_is_read() {
    assert_eq!(
        Version::parse_tool_version("rustfmt 1.5.2-stable (8ede3aa 2023-07-12)"),
        version("1.5.2-stable", "8ede3aa", "2023-07-12")
    );
}

#[test]
fn tool_version_is_lenient() {
    assert_eq!(Version::parse_tool_version(""), version("", "", ""));
    assert_eq!(Version::parse_tool_version("clippy"), version("", "", ""));
    assert_eq!(Version::parse_tool_version(" clippy  0.1 "), version("0.1", "", ""));
    assert_eq!(
        Version::parse_tool_version("miri 0.1 ((a b)) c"),
        version("0.1", "a", "b")
    );
}

#[test]
fn equal_outputs_score() {
    assert_eq!(call("yes", "yes"), Ok(100));
    assert_eq!(call(" yes\n", "\tyes"), Ok(100));
    assert_eq!(call("yes", "no"), Ok(0));
    assert_eq!(call("y es", "yes"), Ok(0));
    assert_eq!(call("", " \n"), Ok(100));
}
