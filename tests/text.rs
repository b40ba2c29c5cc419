use cwb::text::{contains_str, split_lines, split_words, str_eq, trim};

const SAMPLES: [&str; 10] = [
    "",
    "\n",
    "a\nb",
    "a\r\nb\r\n",
    "a\n\nb\n",
    "bar\r",
    "x\r\r\ny",
    "  two\twords \u{3000}here\u{a0}",
    "\u{2003}\u{85}mid\u{2028}",
    "no-space",
];

#[test]
fn lines_agree_with_std() {
    for s in SAMPLES {
        let expected: Vec<String> = s.lines().map(|l| l.to_string()).collect();
        assert_eq!(split_lines(s), expected, "input {:?}", s);
    }
}

#[test]
fn words_agree_with_std() {
    for s in SAMPLES {
        let expected: Vec<String> = s.split_whitespace().map(|w| w.to_string()).collect();
        assert_eq!(split_words(s), expected, "input {:?}", s);
    }
}

#[test]
fn trim_agrees_with_std() {
    for s in SAMPLES {
        assert_eq!(trim(s), s.trim(), "input {:?}", s);
    }
}

#[test]
fn search_and_equality_agree_with_std() {
    for s in SAMPLES {
        for p in ["", "a", "\r\n", "two", "ré", "bar\r"] {
            assert_eq!(contains_str(s, p), s.contains(p), "{:?} in {:?}", p, s);
            assert_eq!(str_eq(s, p), s == p);
        }
    }
    assert!(contains_str("héllo", "éll"));
}
