use chapter_probe::seconds::is_float;
use chapter_probe::Seconds;

fn std_reads(text: &str) -> bool {
    text.parse::<f64>().is_ok()
}

#[test]
fn numbers_as_the_tool_writes_them() {
    for text in ["0.000000", "12.000000", "125.000000", "3599.999999", "12.5"] {
        assert!(is_float(text), "{}", text);
    }
}

#[test]
fn forms_of_the_grammar() {
    for text in [
        "0", "7", "007", "1.", ".5", "1.5", "+1", "-1", "+.5", "-5.", "1e3", "1E3", "1e+3", "1e-3",
        "1.e3", ".5e3", "-1.25E-10", "inf", "INF", "Inf", "+inf", "-inf", "infinity", "INFINITY",
        "-Infinity", "nan", "NaN", "NAN", "+nan", "-nan", "1e0000000000000000000005",
        "123456789012345678901234567890.123456789012345678901234567890",
    ] {
        assert!(is_float(text), "{}", text);
        assert!(std_reads(text), "{}", text);
    }
}

#[test]
fn texts_outside_the_grammar() {
    for text in [
        "", " ", "+", "-", ".", "+.", "-.", "e", "e5", ".e5", "1e", "1e+", "1e-", "1e+-5", "1e5.0",
        "1..2", "1.2.3", "--1", "+-1", "1-", "1+", " 1", "1 ", "1_000", "0x10", "1f", "1.0f64",
        "in", "infi", "infinit", "infinityy", "na", "nann", "n", "i", "not-a-number", "12,5",
        "1e5e5", "++inf", "inf1", "1inf", "\u{661}\u{662}", "1\u{0}", "\u{ff11}", "12.5\n", "\t1",
        "١", "½", "1\u{e9}",
    ] {
        assert!(!is_float(text), "{:?}", text);
        assert!(!std_reads(text), "{:?}", text);
    }
}

#[test]
fn agrees_with_the_standard_parser_on_short_texts() {
    let alphabet: [char; 14] = ['0', '9', '.', '+', '-', 'e', 'E', 'i', 'n', 'f', 'a', 'N', ' ', 'x'];
    let mut texts: Vec<String> = vec![String::new()];
    let mut from: usize = 0;
    for _ in 0..4 {
        let until: usize = texts.len();
        for index in from..until {
            for letter in alphabet {
                let mut text = texts[index].clone();
                text.push(letter);
                texts.push(text);
            }
        }
        from = until;
    }
    assert_eq!(texts.len(), 1 + 14 + 14 * 14 + 14 * 14 * 14 + 14 * 14 * 14 * 14);
    for text in texts {
        assert_eq!(is_float(&text), std_reads(&text), "{:?}", text);
    }
}

#[test]
fn agrees_with_the_standard_parser_around_special_words() {
    for word in ["inf", "infinity", "nan"] {
        for cut in 0..=word.len() {
            for sign in ["", "+", "-"] {
                for tail in ["", "y", "0", " "] {
                    let lower = format!("{}{}{}", sign, &word[..cut], tail);
                    let upper = lower.to_uppercase();
                    assert_eq!(is_float(&lower), std_reads(&lower), "{:?}", lower);
                    assert_eq!(is_float(&upper), std_reads(&upper), "{:?}", upper);
                }
            }
        }
    }
    for text in ["iNfInItY", "InF", "nAn", "infinitY", "ınf", "İnf", "\u{212a}", "inﬁnity"] {
        assert_eq!(is_float(text), std_reads(text), "{:?}", text);
    }
}

#[test]
fn parse_keeps_the_text() {
    let time = Seconds::parse("012.50").expect("a time");
    assert_eq!(time.as_str(), "012.50");
    assert_eq!(time.as_str().parse::<f64>(), Ok(12.5));
    assert_eq!(Seconds::parse("012.50"), Some(time));
    assert_ne!(Seconds::parse("12.5"), Seconds::parse("12.50"));
}

#[test]
fn parse_refuses_what_is_no_number() {
    assert_eq!(Seconds::parse("not-a-number"), None);
    assert_eq!(Seconds::parse(""), None);
    assert_eq!(Seconds::parse("12.5s"), None);
}

#[test]
fn zero_is_written_with_a_point() {
    assert_eq!(Seconds::zero().as_str(), "0.0");
    assert_eq!(Seconds::zero().as_str().parse::<f64>(), Ok(0.0));
    assert_eq!(Seconds::parse("0.0"), Some(Seconds::zero()));
}

#[test]
fn every_time_is_read_by_the_standard_parser() {
    for text in ["1", "-0", "1e400", "-1e400", "1e-400", "nan", "-inf", ".5", "5."] {
        let time = Seconds::parse(text).expect("a time");
        assert!(time.as_str().parse::<f64>().is_ok(), "{}", text);
        assert!(time.clone().as_str() == text);
    }
}
