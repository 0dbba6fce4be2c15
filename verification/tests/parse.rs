use jj_commit::commit::conventional::parse_conventional;
use jj_commit::commit::gitmoji::parse_gitmoji;
use jj_commit::commit::{parse_message, prefill, CommitMessage};
use jj_commit::convention::Convention;
use jj_commit::types::gitmoji::GitmojiType;

#[test]
fn commit_test_parse_conventional_full() {
    let msg = parse_conventional("feat(auth,ui): add login page");
    assert_eq!(msg.commit_type.as_deref(), Some("feat"));
    assert_eq!(msg.scopes, Some(vec!["auth".to_string(), "ui".to_string()]));
    assert_eq!(msg.description.as_deref(), Some("add login page"));
}

#[test]
fn commit_test_parse_conventional_no_scope() {
    let msg = parse_conventional("fix: correct token expiry");
    assert_eq!(msg.commit_type.as_deref(), Some("fix"));
    assert_eq!(msg.scopes, None);
    assert_eq!(msg.description.as_deref(), Some("correct token expiry"));
}

#[test]
fn commit_test_parse_conventional_breaking() {
    let msg = parse_conventional("chore!: drop node 12");
    assert_eq!(msg.commit_type.as_deref(), Some("chore"));
    assert_eq!(msg.scopes, None);
    assert_eq!(msg.description.as_deref(), Some("drop node 12"));
}

#[test]
fn commit_test_parse_conventional_description_only() {
    let msg = parse_conventional("just a plain message");
    assert_eq!(msg.commit_type, None);
    assert_eq!(msg.description.as_deref(), Some("just a plain message"));
}

#[test]
fn commit_test_parse_gitmoji_code() {
    let msg = parse_gitmoji(":sparkles: add login");
    assert_eq!(msg.commit_type.as_deref(), Some(":sparkles:"));
    assert_eq!(msg.description.as_deref(), Some("add login"));
}

#[test]
fn commit_test_parse_gitmoji_emoji() {
    let msg = parse_gitmoji("✨ add login");
    assert_eq!(msg.commit_type.as_deref(), Some("✨"));
    assert_eq!(msg.description.as_deref(), Some("add login"));
}

#[test]
fn commit_test_parse_gitmoji_plain() {
    let msg = parse_gitmoji("just a plain message");
    assert_eq!(msg.commit_type, None);
    assert_eq!(msg.description.as_deref(), Some("just a plain message"));
}

#[test]
fn conventional_test_parse_conventional_full() {
    let msg = parse_conventional("feat(auth,ui): add login page");
    assert_eq!(msg.commit_type.as_deref(), Some("feat"));
    assert_eq!(msg.scopes, Some(vec!["auth".to_string(), "ui".to_string()]));
    assert_eq!(msg.description.as_deref(), Some("add login page"));
}

#[test]
fn conventional_test_parse_conventional_no_scope() {
    let msg = parse_conventional("fix: correct token expiry");
    assert_eq!(msg.commit_type.as_deref(), Some("fix"));
    assert_eq!(msg.scopes, None);
    assert_eq!(msg.description.as_deref(), Some("correct token expiry"));
}

#[test]
fn conventional_test_parse_conventional_breaking() {
    let msg = parse_conventional("chore!: drop node 12");
    assert_eq!(msg.commit_type.as_deref(), Some("chore"));
    assert_eq!(msg.scopes, None);
    assert_eq!(msg.description.as_deref(), Some("drop node 12"));
}

#[test]
fn conventional_test_parse_conventional_description_only() {
    let msg = parse_conventional("just a plain message");
    assert_eq!(msg.commit_type, None);
    assert_eq!(msg.description.as_deref(), Some("just a plain message"));
}

#[test]
fn gitmoji_test_parse_gitmoji_code() {
    let msg = parse_gitmoji(":sparkles: add login");
    assert_eq!(msg.commit_type.as_deref(), Some(":sparkles:"));
    assert_eq!(msg.description.as_deref(), Some("add login"));
}

#[test]
fn gitmoji_test_parse_gitmoji_emoji() {
    let msg = parse_gitmoji("✨ add login");
    assert_eq!(msg.commit_type.as_deref(), Some("✨"));
    assert_eq!(msg.description.as_deref(), Some("add login"));
}

#[test]
fn gitmoji_test_parse_gitmoji_plain() {
    let msg = parse_gitmoji("just a plain message");
    assert_eq!(msg.commit_type, None);
    assert_eq!(msg.description.as_deref(), Some("just a plain message"));
}

// --- edge cases of the Conventional Commits parser ---

#[test]
fn parse_conventional_scope_with_breaking_marker() {
    let msg = parse_conventional("feat(api)!: remove v1 endpoints");
    assert_eq!(msg.commit_type.as_deref(), Some("feat"));
    assert_eq!(msg.scopes, Some(vec!["api".to_string()]));
    assert_eq!(msg.description.as_deref(), Some("remove v1 endpoints"));
}

#[test]
fn parse_conventional_breaking_marker_inside_scope() {
    let msg = parse_conventional("feat(api!): x");
    assert_eq!(msg.commit_type.as_deref(), Some("feat"));
    assert_eq!(msg.scopes, Some(vec!["api".to_string()]));
    assert_eq!(msg.description.as_deref(), Some("x"));
}

#[test]
fn parse_gitmoji_flags_and_skin_tones() {
    let msg = parse_gitmoji("\u{1f1eb}\u{1f1f7} bonjour");
    assert_eq!(msg.commit_type.as_deref(), Some("\u{1f1eb}\u{1f1f7}"));
    assert_eq!(msg.description.as_deref(), Some("bonjour"));
    let msg = parse_gitmoji("\u{1f44d}\u{1f3fd} approve");
    assert_eq!(msg.commit_type.as_deref(), Some("\u{1f44d}\u{1f3fd}"));
    assert_eq!(msg.description.as_deref(), Some("approve"));
}

#[test]
fn parse_conventional_trims_scopes_and_drops_empty_ones() {
    let msg = parse_conventional("fix( a , ,b ,): x");
    assert_eq!(msg.commit_type.as_deref(), Some("fix"));
    assert_eq!(msg.scopes, Some(vec!["a".to_string(), "b".to_string()]));
    assert_eq!(msg.description.as_deref(), Some("x"));
}

#[test]
fn parse_conventional_empty_scope_list() {
    let msg = parse_conventional("docs(): readme");
    assert_eq!(msg.commit_type.as_deref(), Some("docs"));
    assert_eq!(msg.scopes, Some(vec![]));
    assert_eq!(msg.description.as_deref(), Some("readme"));
}

#[test]
fn parse_conventional_only_first_line_counts() {
    let msg = parse_conventional("  perf: faster  \r\nbody line: with colon\n");
    assert_eq!(msg.commit_type.as_deref(), Some("perf"));
    assert_eq!(msg.scopes, None);
    assert_eq!(msg.description.as_deref(), Some("faster"));
}

#[test]
fn parse_conventional_missing_type_and_description() {
    let msg = parse_conventional(": ");
    // The line is trimmed to ":" which holds no ": ".
    assert_eq!(msg.commit_type, None);
    assert_eq!(msg.description.as_deref(), Some(":"));
    let msg = parse_conventional("!: x");
    assert_eq!(msg.commit_type, None);
    assert_eq!(msg.description.as_deref(), Some("x"));
    let msg = parse_conventional("feat:  : ");
    assert_eq!(msg.commit_type.as_deref(), Some("feat"));
    assert_eq!(msg.description.as_deref(), Some(":"));
}

#[test]
fn parse_conventional_empty_message() {
    let msg = parse_conventional("");
    assert_eq!(msg.commit_type, None);
    assert_eq!(msg.scopes, None);
    assert_eq!(msg.description.as_deref(), Some(""));
}

#[test]
fn parse_conventional_unicode_scope() {
    let msg = parse_conventional("feat(é,日本): ünïcode");
    assert_eq!(msg.commit_type.as_deref(), Some("feat"));
    assert_eq!(msg.scopes, Some(vec!["é".to_string(), "日本".to_string()]));
    assert_eq!(msg.description.as_deref(), Some("ünïcode"));
}

// --- edge cases of the Gitmoji parser ---

#[test]
fn parse_gitmoji_code_without_description() {
    let msg = parse_gitmoji(":bug:");
    assert_eq!(msg.commit_type.as_deref(), Some(":bug:"));
    assert_eq!(msg.scopes, None);
    assert_eq!(msg.description, None);
}

#[test]
fn parse_gitmoji_lone_colon_falls_back() {
    let msg = parse_gitmoji(":no closing colon");
    assert_eq!(msg.commit_type, None);
    assert_eq!(msg.description.as_deref(), Some(":no closing colon"));
}

#[test]
fn parse_gitmoji_keeps_variation_selector_and_joined_characters() {
    // "⚡️" is U+26A1 followed by U+FE0F; both belong to the type.
    let msg = parse_gitmoji("⚡️ speed up");
    assert_eq!(msg.commit_type.as_deref(), Some("\u{26a1}\u{fe0f}"));
    assert_eq!(msg.description.as_deref(), Some("speed up"));
    // A zero-width joiner takes the next character along.
    let msg = parse_gitmoji("\u{1f9d1}\u{200d}\u{1f4bb}x");
    assert_eq!(msg.commit_type.as_deref(), Some("\u{1f9d1}\u{200d}\u{1f4bb}"));
    assert_eq!(msg.description.as_deref(), Some("x"));
    // A joiner at the end of the line has nothing to join.
    let msg = parse_gitmoji("\u{1f9d1}\u{200d}");
    assert_eq!(msg.commit_type.as_deref(), Some("\u{1f9d1}"));
    assert_eq!(msg.description.as_deref(), Some("\u{200d}"));
}

#[test]
fn parse_gitmoji_non_emoji_is_description() {
    let msg = parse_gitmoji("é not an emoji");
    assert_eq!(msg.commit_type, None);
    assert_eq!(msg.description.as_deref(), Some("é not an emoji"));
    let msg = parse_gitmoji("Исправить ошибку");
    assert_eq!(msg.commit_type, None);
    assert_eq!(msg.description.as_deref(), Some("Исправить ошибку"));
    let msg = parse_gitmoji("\u{1f389} release");
    assert_eq!(msg.commit_type.as_deref(), Some("\u{1f389}"));
    assert_eq!(msg.description.as_deref(), Some("release"));
}

#[test]
fn parse_gitmoji_shortcode_round_trip() {
    for g in GitmojiType::all() {
        let msg = parse_gitmoji(&format!("{} {}", g.code, "tidy up"));
        assert_eq!(msg.commit_type.as_deref(), Some(g.code));
        assert_eq!(msg.scopes, None);
        assert_eq!(msg.description.as_deref(), Some("tidy up"));
        assert_eq!(GitmojiType::from_code(g.code), Some(g));
    }
}

#[test]
fn parse_message_dispatches_on_convention() {
    let a = parse_message(&Convention::Conventional, "fix(x): y");
    assert_eq!(a.commit_type.as_deref(), Some("fix"));
    assert_eq!(a.scopes, Some(vec!["x".to_string()]));
    let b = parse_message(&Convention::Gitmoji, ":bug: y");
    assert_eq!(b.commit_type.as_deref(), Some(":bug:"));
    assert_eq!(b.scopes, None);
}

#[test]
fn prefill_without_message_is_empty() {
    let p: CommitMessage = prefill(&Convention::Conventional, None);
    assert_eq!(p.commit_type, None);
    assert_eq!(p.scopes, None);
    assert_eq!(p.description, None);
    let e = CommitMessage::empty();
    assert_eq!(e.commit_type, None);
    let q = prefill(&Convention::Gitmoji, Some("✨ hi"));
    assert_eq!(q.commit_type.as_deref(), Some("✨"));
    assert_eq!(q.description.as_deref(), Some("hi"));
}
