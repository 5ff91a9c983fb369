use z_ai::text::{
    byte_len, ends_with, is_white_space, join, same, starts_with, strip_prefix,
    strip_suffix, trim, trim_end_slashes,
};

const SAMPLES: [&str; 14] = [
    "",
    " ",
    "\t\r\n",
    "a",
    " a ",
    "  two words\u{a0}",
    "\u{3000}\u{2009}x\u{2028}",
    "\u{200b}kept\u{200b}",
    "http://host/",
    "http://host///",
    "///",
    "a/b",
    "\u{e9}\u{20ac}\u{1f600}",
    "data: data: ",
];

#[test]
fn white_space_is_what_the_standard_library_says() {
    for code in 0..=0x10_ffffu32 {
        if let Some(c) = char::from_u32(code) {
            assert_eq!(is_white_space(c), c.is_whitespace(), "{:x}", code);
        }
    }
}

#[test]
fn trimming_is_that_of_the_standard_library() {
    for sample in SAMPLES {
        assert_eq!(trim(sample), sample.trim());
        assert_eq!(trim_end_slashes(sample), sample.trim_end_matches('/'));
    }
}

#[test]
fn prefixes_and_suffixes_are_those_of_the_standard_library() {
    for sample in SAMPLES {
        for part in SAMPLES {
            assert_eq!(strip_prefix(sample, part), sample.strip_prefix(part));
            assert_eq!(strip_suffix(sample, part), sample.strip_suffix(part));
            assert_eq!(starts_with(sample, part), sample.starts_with(part));
            assert_eq!(ends_with(sample, part), sample.ends_with(part));
            assert_eq!(same(sample, part), sample == part);
            assert_eq!(z_ai::text::concat(sample, part), format!("{}{}", sample, part));
        }
    }
    assert_eq!(strip_prefix("glm-4.5", "glm-"), Some("4.5"));
    assert_eq!(strip_suffix("glm-4.5-thinking", "-thinking"), Some("glm-4.5"));
}

#[test]
fn lengths_are_in_bytes() {
    for sample in SAMPLES {
        assert_eq!(byte_len(sample), sample.len());
    }
    assert_eq!(byte_len("\u{e9}\u{20ac}\u{1f600}"), 9);
}

#[test]
fn parts_are_joined_in_order() {
    let parts: Vec<String> = vec!["a".to_string(), String::new(), "b c".to_string()];
    assert_eq!(join(&parts, " "), "a  b c");
    assert_eq!(join(&parts, ", "), parts.join(", "));
    assert_eq!(join(&Vec::new(), " "), "");
}

#[test]
fn trimming_twice_is_trimming_once() {
    for sample in SAMPLES {
        assert_eq!(trim(trim(sample)), trim(sample));
    }
}
