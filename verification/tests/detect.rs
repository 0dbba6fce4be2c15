use jj_commit::convention::conventional::is_conventional;
use jj_commit::convention::gitmoji::{is_gitmoji, shortcode_name_valid};
use jj_commit::convention::{detect_convention, resolve_convention, Convention, DetectError};

#[test]
fn test_conventional_simple() {
    assert!(is_conventional("feat: add login"));
    assert!(is_conventional("fix(auth): correct token expiry"));
    assert!(is_conventional("chore!: drop support for node 12"));
}

#[test]
fn test_conventional_negative() {
    assert!(!is_conventional(":sparkles: add login"));
    assert!(!is_conventional("✨ add login"));
    assert!(!is_conventional("just a plain message"));
}

#[test]
fn test_gitmoji_shortcode() {
    assert!(is_gitmoji(":sparkles: add login"));
    assert!(is_gitmoji(":bug: fix crash"));
}

#[test]
fn test_gitmoji_emoji() {
    assert!(is_gitmoji("✨ add login"));
    assert!(is_gitmoji("🎉 initial commit"));
}

#[test]
fn test_gitmoji_negative() {
    assert!(!is_gitmoji("feat: add login"));
    assert!(!is_gitmoji("just a plain message"));
}

#[test]
fn test_detect_no_convention() {
    let msgs = vec!["plain message".to_string(), "another plain".to_string()];
    assert!(detect_convention(&msgs).is_err());
}

#[test]
fn test_detect_tie() {
    let msgs = vec![
        "feat: something".to_string(),
        ":sparkles: something".to_string(),
    ];
    assert!(detect_convention(&msgs).is_err());
}

#[test]
fn test_detect_conventional_wins() {
    let msgs = vec![
        "feat: a".to_string(),
        "fix: b".to_string(),
        ":sparkles: c".to_string(),
    ];
    assert_eq!(detect_convention(&msgs).unwrap(), Convention::Conventional);
}

#[test]
fn test_detect_gitmoji_wins() {
    let msgs = vec![
        ":sparkles: a".to_string(),
        "🎉 b".to_string(),
        "feat: c".to_string(),
    ];
    assert_eq!(detect_convention(&msgs).unwrap(), Convention::Gitmoji);
}

// --- further cases ---

#[test]
fn conventional_detection_edge_cases() {
    // Missing space after the colon.
    assert!(!is_conventional("feat:add"));
    // Uppercase type.
    assert!(!is_conventional("Feat: add"));
    // Hyphenated type and breaking marker.
    assert!(is_conventional("my-type!: x"));
    // `!` before the scope is not stripped from the type word.
    assert!(!is_conventional("feat!(x): y"));
    // Only the first line counts, after trimming.
    assert!(is_conventional("\t docs: readme  \nmore"));
    assert!(!is_conventional("\nfeat: x"));
    // Nothing after the colon.
    assert!(!is_conventional("feat:"));
    assert!(!is_conventional("feat: "));
    assert!(!is_conventional(""));
    // Non-ASCII text in the scope does not matter.
    assert!(is_conventional("feat(é): x"));
}

#[test]
fn gitmoji_detection_edge_cases() {
    // Shortcode names are alphanumeric, `_` or `-`.
    assert!(is_gitmoji(":t-rex: dinosaur"));
    assert!(is_gitmoji(":white_check_mark: tests"));
    assert!(!is_gitmoji(":spark!es: x"));
    assert!(!is_gitmoji(":: x"));
    // A colon without a second one falls back to the first character.
    assert!(!is_gitmoji(":no closing"));
    // Only emoji code points count, not other letters or symbols.
    assert!(!is_gitmoji("é x"));
    assert!(!is_gitmoji("Ā x"));
    assert!(!is_gitmoji("Исправить ошибку входа"));
    assert!(!is_gitmoji("日本語のメッセージ"));
    assert!(!is_gitmoji("© 2024 notice"));
    assert!(!is_gitmoji("→ arrow"));
    assert!(is_gitmoji("\u{2194} arrow emoji"));
    assert!(is_gitmoji("\u{2728} sparkles"));
    assert!(is_gitmoji("\u{1f389} tada"));
    assert!(is_gitmoji("\u{1fae0} melting face"));
    assert!(is_gitmoji("\u{1f1eb}\u{1f1f7} flag"));
    assert!(is_gitmoji("\u{1f3fd} skin tone"));
    assert!(!is_gitmoji(""));
    assert!(!is_gitmoji("   "));
}

#[test]
fn shortcode_names_from_given_answers() {
    let name: Vec<char> = "t-rex".chars().collect();
    assert!(shortcode_name_valid(&name, &vec![true, false, true, true, true]));
    assert!(!shortcode_name_valid(&name, &vec![true, false, false, true, true]));
    // A character without an answer counts as not alphanumeric.
    assert!(!shortcode_name_valid(&name, &vec![true]));
    assert!(!shortcode_name_valid(&vec![], &vec![]));
    let name: Vec<char> = "a_b".chars().collect();
    assert!(shortcode_name_valid(&name, &vec![true, false, true]));
    assert!(shortcode_name_valid(&name, &vec![true, true, true]));
}

#[test]
fn shortcode_names_beyond_ascii() {
    assert!(is_gitmoji(":café: x"));
    assert!(is_gitmoji(":x2: y"));
    assert!(!is_gitmoji(":a b: y"));
}

#[test]
fn detect_reports_each_error() {
    let none: Vec<String> = vec![];
    assert_eq!(detect_convention(&none), Err(DetectError::NoConvention));
    let tie = vec![
        "feat: a".to_string(),
        "fix: b".to_string(),
        "✨ c".to_string(),
        ":bug: d".to_string(),
        "plain".to_string(),
    ];
    assert_eq!(
        detect_convention(&tie),
        Err(DetectError::Tie { conventional: 2, gitmoji: 2 })
    );
    assert_eq!(
        DetectError::NoConvention.message(),
        "No commit adheres to a known convention (conventional commits or gitmoji)."
    );
    assert_eq!(
        DetectError::Tie { conventional: 12, gitmoji: 12 }.message(),
        "Cannot detect convention: tie between conventional commits (12) and gitmoji (12)."
    );
    assert_eq!(
        DetectError::Tie { conventional: 0, gitmoji: 0 }.message(),
        "Cannot detect convention: tie between conventional commits (0) and gitmoji (0)."
    );
}

#[test]
fn resolve_prefers_the_given_convention() {
    let msgs = vec!["feat: a".to_string()];
    assert_eq!(resolve_convention(Some(Convention::Gitmoji), &msgs), Ok(Convention::Gitmoji));
    assert_eq!(resolve_convention(None, &msgs), Ok(Convention::Conventional));
    let none: Vec<String> = vec![];
    assert_eq!(resolve_convention(None, &none), Err(DetectError::NoConvention));
}
