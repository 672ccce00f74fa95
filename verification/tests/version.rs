use run_clang_tidy::cmd::version::{Version, VersionError};

fn version(major: u8, minor: u8, patch: u8) -> Version {
    Version { major, minor, patch }
}

// The pattern that this grammar was first written down as.
fn by_pattern(re: &regex::Regex, text: &str) -> Result<Version, VersionError> {
    let caps = re.captures(text).ok_or(VersionError::NoMatch)?;
    Ok(Version {
        major: caps[1].parse().map_err(|_| VersionError::InvalidMajor)?,
        minor: caps[2].parse().map_err(|_| VersionError::InvalidMinor)?,
        patch: caps[3].parse().map_err(|_| VersionError::InvalidPatch)?,
    })
}

#[test]
fn version_of_clang_tidy_output() {
    let text = "LLVM (http://llvm.org/):\n  LLVM version 14.0.6\n  Optimized build.\n  Default target: x86_64-pc-linux-gnu\n  Host CPU: skylake\n";
    assert_eq!(Ok(version(14, 0, 6)), Version::from_str(text));
    assert_eq!(
        Ok(version(4, 0, 0)),
        Version::from_str("clang-format version 4.0.0 (tags/checker/checker-279)")
    );
    assert_eq!(Ok(version(10, 0, 1)), Version::from_str("version 10.0.1"));
}

#[test]
fn version_needs_three_numbers() {
    for text in [
        "",
        "version",
        "version ",
        "version 1",
        "version 1.",
        "version 1.2",
        "version 1.2.",
        "version 1.2.x",
        "version .2.3",
        "version 1..3",
        "version  1.2.3",
        "Version 1.2.3",
        "version1.2.3",
        "versio 1.2.3",
        "1.2.3",
        "version 1,2,3",
        "version 1.2\n.3",
        "version\n1.2.3",
    ] {
        assert_eq!(Err(VersionError::NoMatch), Version::from_str(text), "{text:?}");
    }
}

#[test]
fn version_numbers_are_bounded() {
    assert_eq!(Ok(version(255, 255, 255)), Version::from_str("version 255.255.255"));
    assert_eq!(Err(VersionError::InvalidMajor), Version::from_str("version 256.0.0"));
    assert_eq!(Err(VersionError::InvalidMinor), Version::from_str("version 1.256.0"));
    assert_eq!(Err(VersionError::InvalidPatch), Version::from_str("version 1.2.256"));
    // the first number that does not fit is the one that is named
    assert_eq!(Err(VersionError::InvalidMajor), Version::from_str("version 999.999.999"));
    assert_eq!(Err(VersionError::InvalidMinor), Version::from_str("version 9.999.999"));
    // a number far beyond every machine integer is still just too large
    assert_eq!(
        Err(VersionError::InvalidPatch),
        Version::from_str("version 1.2.340282366920938463463374607431768211456000")
    );
    // leading zeros do not count
    assert_eq!(
        Ok(version(7, 0, 12)),
        Version::from_str("version 0000000000000000000000007.000.012")
    );
}

#[test]
fn version_takes_the_last_one_of_the_first_line_that_has_one() {
    assert_eq!(Ok(version(4, 5, 6)), Version::from_str("version 1.2.3 version 4.5.6"));
    assert_eq!(Ok(version(1, 2, 3)), Version::from_str("version 1.2.3\nversion 4.5.6"));
    assert_eq!(
        Ok(version(4, 5, 6)),
        Version::from_str("no version here\nversion 1.2.3 and version 4.5.6\nversion 7.8.9")
    );
    // the one that counts is chosen before its numbers are read
    assert_eq!(
        Err(VersionError::InvalidMajor),
        Version::from_str("version 1.2.3 version 400.5.6")
    );
    assert_eq!(Ok(version(1, 2, 3)), Version::from_str("version 1.2.3 version 4.5"));
    // what follows the third number is of no account
    assert_eq!(Ok(version(1, 2, 3)), Version::from_str("version 1.2.3.4"));
    assert_eq!(Ok(version(1, 2, 3)), Version::from_str("version 1.2.3-rc1"));
    assert_eq!(Ok(version(2, 3, 4)), Version::from_str("version version 2.3.4"));
}

#[test]
fn version_agrees_with_the_pattern() {
    let re = regex::Regex::new(r".*version ([\d]+)\.([\d]+)\.([\d]+).*").unwrap();
    let pieces = [
        "version ", "version", " ", "\n", "1", "256", ".", "x", "1.2.3", "version 3.4.5",
        "version 300.1.2", "é",
    ];
    let mut texts: Vec<String> = vec![String::new()];
    for a in pieces {
        texts.push(a.to_string());
        for b in pieces {
            texts.push(format!("{a}{b}"));
            for c in pieces {
                texts.push(format!("{a}{b}{c}"));
                texts.push(format!("{a}{b}{c}{a}"));
                texts.push(format!("version 1.{a}{b}{c}"));
                texts.push(format!("{a}version 1.2.3{b}version 7.8.9{c}"));
            }
        }
    }
    for text in &texts {
        assert_eq!(by_pattern(&re, text), Version::from_str(text), "{text:?}");
    }
}

#[test]
fn version_parse_reads_characters() {
    let chars: Vec<char> = "clang-tidy version 17.0.1".chars().collect();
    assert_eq!(Ok(version(17, 0, 1)), Version::parse(&chars));
    assert_eq!(Err(VersionError::NoMatch), Version::parse(&Vec::new()));
}

#[test]
fn version_as_text() {
    assert_eq!("14.0.6", version(14, 0, 6).to_text());
    assert_eq!("0.0.0", version(0, 0, 0).to_text());
    assert_eq!("255.100.9", version(255, 100, 9).to_text());
    assert_eq!(Ok(version(255, 100, 9)), Version::from_str("version 255.100.9"));
}

#[test]
fn version_error_messages() {
    assert_eq!("Failed to match version", VersionError::NoMatch.message());
    assert_eq!("Invalid major version", VersionError::InvalidMajor.message());
    assert_eq!("Invalid minor version", VersionError::InvalidMinor.message());
    assert_eq!("Invalid patch level", VersionError::InvalidPatch.message());
}
