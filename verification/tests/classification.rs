use divergence_classes::ascii::{contains_ignore_ascii_case, matches_at_ignoring_ascii_case, to_ascii_lower};
use divergence_classes::divergence::{
    is_known_divergence, known_class, KnownDivergence, KNOWN_SQLI_DIVERGENCES,
    KNOWN_XSS_DIVERGENCES,
};

fn classes() -> Vec<KnownDivergence> {
    vec![
        KnownDivergence { marker: "lock in share", reason: "multi-word keyword folding" },
        KnownDivergence { marker: "into outfile", reason: "three-token whitelist" },
        KnownDivergence { marker: "outfile", reason: "a later, wider class" },
    ]
}

#[test]
fn the_shipped_lists_are_empty_and_excuse_nothing() {
    assert_eq!(KNOWN_SQLI_DIVERGENCES.len(), 0);
    assert_eq!(KNOWN_XSS_DIVERGENCES.len(), 0);
    assert!(known_class("1' OR '1'='1", &KNOWN_SQLI_DIVERGENCES).is_none());
    assert!(known_class("<script>alert(1)</script>", &KNOWN_XSS_DIVERGENCES).is_none());
    assert!(!is_known_divergence(b"1' OR '1'='1", &KNOWN_SQLI_DIVERGENCES));
    assert!(!is_known_divergence(b"\xff\xfe<script>", &KNOWN_XSS_DIVERGENCES));
    assert!(!is_known_divergence(b"", &KNOWN_SQLI_DIVERGENCES));
}

#[test]
fn known_class_reports_the_first_matching_class() {
    let cs = classes();
    let c = known_class("select 1 into outfile '/tmp/x'", &cs).unwrap();
    assert_eq!(c.marker, "into outfile");
    assert_eq!(c.reason, "three-token whitelist");
    let c = known_class("outfile only", &cs).unwrap();
    assert_eq!(c.marker, "outfile");
    let c = known_class("LOCK IN SHARE MODE", &cs).unwrap();
    assert_eq!(c.marker, "lock in share");
}

#[test]
fn known_class_ignores_ascii_case_of_the_input() {
    let cs = classes();
    assert_eq!(known_class("Select 1 INTO OutFile 'x'", &cs).unwrap().marker, "into outfile");
    assert_eq!(known_class("lOcK In ShArE mode", &cs).unwrap().marker, "lock in share");
}

#[test]
fn known_class_ignores_ascii_case_of_the_marker() {
    let cs = vec![KnownDivergence { marker: "Sp_Password", reason: "upper-case marker" }];
    assert_eq!(known_class("exec sp_password", &cs).unwrap().reason, "upper-case marker");
    assert_eq!(known_class("EXEC SP_PASSWORD", &cs).unwrap().reason, "upper-case marker");
}

#[test]
fn known_class_finds_nothing_outside_the_classes() {
    let cs = classes();
    assert!(known_class("1 union select 2", &cs).is_none());
    assert!(known_class("", &cs).is_none());
    assert!(known_class("into out file", &cs).is_none());
    assert!(known_class("anything", &[]).is_none());
}

#[test]
fn known_class_keeps_non_ascii_characters_as_they_are() {
    let cs = vec![KnownDivergence { marker: "é", reason: "non-ascii" }];
    assert!(known_class("café", &cs).is_some());
    assert!(known_class("CAFÉ", &cs).is_none());
}

#[test]
fn an_empty_marker_takes_every_input() {
    let cs = vec![KnownDivergence { marker: "", reason: "empty" }];
    assert!(known_class("", &cs).is_some());
    assert!(known_class("abc", &cs).is_some());
    assert!(is_known_divergence(b"abc", &cs));
    assert!(is_known_divergence(b"", &cs));
    assert!(is_known_divergence(b"abc\xff", &cs));
    assert!(is_known_divergence(b"\xc0\x80", &cs));
    assert!(is_known_divergence(b"\xff", &cs));
}

#[test]
fn is_known_divergence_asks_utf8_input_as_text() {
    let cs = classes();
    assert!(is_known_divergence(b"select 1 INTO OUTFILE 'x'", &cs));
    assert!(is_known_divergence("caf\u{e9} lock in share mode".as_bytes(), &cs));
    assert!(!is_known_divergence(b"select 1", &cs));
}

#[test]
fn is_known_divergence_searches_non_utf8_input_byte_for_byte() {
    let cs = classes();
    assert!(is_known_divergence(b"\xff\xfe select 1 InTo OuTfIlE \x80", &cs));
    assert!(is_known_divergence(b"outfile\xff", &cs));
    assert!(!is_known_divergence(b"\xff\xfe select 1", &cs));
    assert!(!is_known_divergence(b"\xffoutfil", &cs));
    assert!(!is_known_divergence(b"\xff", &cs));
}

#[test]
fn text_and_its_bytes_get_the_same_answer() {
    let cs = classes();
    assert!(is_known_divergence(b"\xffoutfile", &cs));
    assert!(is_known_divergence("\u{ff}outfile".as_bytes(), &cs));
    for text in ["", "outfile", "OUTFILE", "lock in share", "nothing here", "\u{1F600}into outfile"] {
        assert_eq!(is_known_divergence(text.as_bytes(), &cs), known_class(text, &cs).is_some());
    }
}

#[test]
fn adding_classes_keeps_what_was_known() {
    let few = vec![KnownDivergence { marker: "outfile", reason: "first" }];
    let mut more = vec![KnownDivergence { marker: "outfile", reason: "first" }];
    more.push(KnownDivergence { marker: "union", reason: "second" });
    for input in ["x outfile y", "union", "neither"] {
        if is_known_divergence(input.as_bytes(), &few) {
            assert!(is_known_divergence(input.as_bytes(), &more));
        }
        if let Some(c) = known_class(input, &few) {
            assert_eq!(known_class(input, &more).unwrap().reason, c.reason);
        }
    }
    assert_eq!(known_class("union outfile", &more).unwrap().reason, "first");
    assert_eq!(known_class("union", &more).unwrap().reason, "second");
}

#[test]
fn ascii_helpers_compute_exact_values() {
    assert_eq!(to_ascii_lower(b'A'), b'a');
    assert_eq!(to_ascii_lower(b'Z'), b'z');
    assert_eq!(to_ascii_lower(b'@'), b'@');
    assert_eq!(to_ascii_lower(b'['), b'[');
    assert_eq!(to_ascii_lower(0xC9), 0xC9);
    assert!(contains_ignore_ascii_case(b"Hello World", b"o w"));
    assert!(contains_ignore_ascii_case(b"abc", b""));
    assert!(contains_ignore_ascii_case(b"", b""));
    assert!(!contains_ignore_ascii_case(b"ab", b"abc"));
    assert!(!contains_ignore_ascii_case(b"a[c", b"a{c"));
    assert!(matches_at_ignoring_ascii_case(b"xxABC", b"abc", 2));
    assert!(!matches_at_ignoring_ascii_case(b"xxABC", b"abc", 1));
}
