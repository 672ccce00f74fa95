use run_clang_tidy::cli::parse_jobs;

#[test]
fn parse_jobs_reads_a_number() {
    assert_eq!(Ok(0), parse_jobs("0"));
    assert_eq!(Ok(1), parse_jobs("1"));
    assert_eq!(Ok(8), parse_jobs("8"));
    assert_eq!(Ok(255), parse_jobs("255"));
    assert_eq!(Ok(16), parse_jobs("+16"));
    assert_eq!(Ok(7), parse_jobs("007"));
}

#[test]
fn parse_jobs_turns_down_everything_else() {
    for text in ["", "+", "-1", "-0", "256", "1000", "4 ", " 4", "4x", "x", "1.5", "++1", "0x10", "١"] {
        let e = parse_jobs(text).unwrap_err();
        assert_eq!(text, e.value);
        assert_eq!("Invalid parameter for option --jobs", e.message());
        assert_eq!("Please provide a number in the range [0 .. 255]", e.suggestion());
    }
}

#[test]
fn parse_jobs_reads_what_the_standard_library_reads() {
    let pieces = ["", "+", "-", "0", "1", "9", "25", "5", "6", " ", "x", "00"];
    for a in pieces {
        for b in pieces {
            for c in pieces {
                for d in pieces {
                    let text = format!("{a}{b}{c}{d}");
                    assert_eq!(text.parse::<u8>().ok(), parse_jobs(&text).ok(), "{text:?}");
                }
            }
        }
    }
}
