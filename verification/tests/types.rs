use jj_commit::text::{is_whitespace, str_eq, trimmed};
use jj_commit::types::conventional::ConventionalType;
use jj_commit::types::gitmoji::GitmojiType;

#[test]
fn conventional_types_in_prompt_order() {
    let names: Vec<&str> = ConventionalType::all().iter().map(|t| t.as_str()).collect();
    assert_eq!(
        names,
        vec!["feat", "fix", "chore", "docs", "style", "refactor", "perf", "test", "build", "ci", "revert"]
    );
}

#[test]
fn keyword_round_trip_law() {
    for t in ConventionalType::all() {
        assert_eq!(ConventionalType::from_str(t.as_str()), Some(t));
    }
    assert_eq!(ConventionalType::from_str("feature"), None);
    assert_eq!(ConventionalType::from_str(""), None);
    assert_eq!(ConventionalType::from_str("FIX"), None);
}

#[test]
fn gitmoji_table_lookups() {
    let all = GitmojiType::all();
    assert_eq!(all.len(), 75);
    // The prompt opens on the most used entries, as the README shows them.
    let first: Vec<&str> = all.iter().take(6).map(|g| g.emoji).collect();
    assert_eq!(first, vec!["✨", "🐛", "🚑️", "📝", "♻️", "🔥"]);
    assert_eq!(all[0].code, ":sparkles:");
    assert_eq!(all[6].emoji, "🎨");
    assert_eq!(all[74].code, ":t-rex:");
    let s = GitmojiType::from_code(":sparkles:").unwrap();
    assert_eq!(s.emoji, "✨");
    assert_eq!(s.name, "sparkles");
    assert_eq!(s.description, "Introduce new features.");
    assert_eq!(GitmojiType::from_emoji("🐛").unwrap().code, ":bug:");
    assert_eq!(GitmojiType::from_code("sparkles"), None);
    assert_eq!(GitmojiType::from_emoji("⚡"), None);
    assert_eq!(GitmojiType::from_emoji("⚡️").unwrap().code, ":zap:");
    for g in &all {
        assert_eq!(GitmojiType::from_code(g.code), Some(*g));
        assert_eq!(GitmojiType::from_emoji(g.emoji), Some(*g));
    }
}

#[test]
fn gitmoji_label() {
    let g = GitmojiType::from_code(":bug:").unwrap();
    assert_eq!(g.label(), "🐛 Fix a bug.");
}

#[test]
fn whitespace_matches_std_everywhere() {
    for u in 0u32..=0x10FFFF {
        if let Some(c) = char::from_u32(u) {
            assert_eq!(is_whitespace(c), c.is_whitespace(), "U+{u:04X}");
        }
    }
}

#[test]
fn trimming_matches_std() {
    for s in ["", "  ", " a ", "\u{3000}x\u{2028}", "\u{feff}x", "a\tb\n", "\u{85}y\u{a0}"] {
        assert_eq!(trimmed(s), s.trim());
    }
}

#[test]
fn string_equality() {
    assert!(str_eq("abc", "abc"));
    assert!(!str_eq("abc", "abd"));
    assert!(!str_eq("abc", "ab"));
    assert!(str_eq("", ""));
}
