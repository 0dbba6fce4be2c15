use jj_commit::cli::{check_flags, Cli, FlagError};
use jj_commit::commit::conventional::{
    conventional_type_cursor, format_conventional, parse_conventional, type_choice, TypeChoice,
};
use jj_commit::commit::gitmoji::{format_gitmoji, gitmoji_cursor, parse_gitmoji};
use jj_commit::commit::{accept_description, accept_scope, initial_scopes, scope_prompt};
use jj_commit::convention::conventional::is_conventional;
use jj_commit::convention::gitmoji::is_gitmoji;
use jj_commit::convention::{detect_convention, Convention};
use jj_commit::jj::{ancestor_step, bookmark_plan, keep_descriptions, AncestorStep, BookmarkPlan};
use jj_commit::types::conventional::ConventionalType;
use jj_commit::types::gitmoji::GitmojiType;

fn strings(v: &[&str]) -> Vec<String> {
    v.iter().map(|s| s.to_string()).collect()
}

#[test]
fn format_conventional_with_and_without_scopes() {
    assert_eq!(
        format_conventional(ConventionalType::Feat, &strings(&["auth"]), "add OAuth2 login support"),
        "feat(auth): add OAuth2 login support"
    );
    assert_eq!(
        format_conventional(ConventionalType::Fix, &vec![], "handle null pointer in user resolver"),
        "fix: handle null pointer in user resolver"
    );
    assert_eq!(
        format_conventional(ConventionalType::Feat, &strings(&["api", "ui"]), "expose dark mode toggle"),
        "feat(api,ui): expose dark mode toggle"
    );
}

#[test]
fn format_gitmoji_message() {
    let sparkles = GitmojiType::from_code(":sparkles:").unwrap();
    assert_eq!(format_gitmoji(&sparkles, "streaming support for chat API"), "✨ streaming support for chat API");
}

#[test]
fn conventional_round_trip_law() {
    for t in ConventionalType::all() {
        for scopes in [vec![], strings(&["auth"]), strings(&["api", "ui", "a:b"])] {
            let msg = format_conventional(t, &scopes, "do it: now");
            let parsed = parse_conventional(&msg);
            assert_eq!(parsed.commit_type.as_deref(), Some(t.as_str()));
            let expected = if scopes.is_empty() { None } else { Some(scopes.clone()) };
            assert_eq!(parsed.scopes, expected);
            assert_eq!(parsed.description.as_deref(), Some("do it: now"));
            let cursor = conventional_type_cursor(parsed.commit_type.as_deref());
            assert_eq!(ConventionalType::all()[cursor], t);
        }
    }
}

#[test]
fn conventional_round_trip_fails_on_closing_paren_scope() {
    // A last scope ending with `)` loses it on the way back.
    let msg = format_conventional(ConventionalType::Fix, &strings(&["f(x)"]), "y");
    assert_eq!(msg, "fix(f(x)): y");
    assert_eq!(parse_conventional(&msg).scopes, Some(strings(&["f(x"])));
    // So does one ending with `!`.
    let msg = format_conventional(ConventionalType::Fix, &strings(&["a", "wow!"]), "y");
    assert_eq!(parse_conventional(&msg).scopes, Some(strings(&["a", "wow"])));
}

#[test]
fn type_choice_skips_prompt_when_given() {
    assert_eq!(type_choice(Some(ConventionalType::Fix), Some("docs")), TypeChoice::Given(ConventionalType::Fix));
    assert_eq!(type_choice(None, Some("docs")), TypeChoice::Ask(3));
    assert_eq!(type_choice(None, Some("nope")), TypeChoice::Ask(0));
    assert_eq!(type_choice(None, None), TypeChoice::Ask(0));
}

#[test]
fn bookmark_plan_rule() {
    assert_eq!(bookmark_plan(Some(strings(&["main"])), true), BookmarkPlan::AdvanceAll(strings(&["main"])));
    assert_eq!(
        bookmark_plan(Some(strings(&["main", "dev"])), true),
        BookmarkPlan::Choose(strings(&["main", "dev"]))
    );
    assert_eq!(bookmark_plan(Some(vec![]), true), BookmarkPlan::Choose(vec![]));
    assert_eq!(bookmark_plan(None, true), BookmarkPlan::Warn);
    assert_eq!(bookmark_plan(None, false), BookmarkPlan::Nothing);
}

#[test]
fn gitmoji_round_trip_law() {
    for g in GitmojiType::all() {
        let msg = format_gitmoji(&g, "a change");
        let parsed = parse_gitmoji(&msg);
        assert_eq!(parsed.commit_type.as_deref(), Some(g.emoji));
        assert_eq!(parsed.description.as_deref(), Some("a change"));
        assert_eq!(parsed.scopes, None);
    }
}

#[test]
fn built_messages_are_detected_as_their_convention() {
    let mut conventional = vec![];
    for t in ConventionalType::all() {
        let m = format_conventional(t, &strings(&["core"]), "x");
        assert!(is_conventional(&m));
        assert!(!is_gitmoji(&m));
        conventional.push(m);
    }
    assert_eq!(detect_convention(&conventional), Ok(Convention::Conventional));
    let mut gitmoji = vec![];
    for g in GitmojiType::all() {
        let m = format_gitmoji(&g, "y: z");
        assert!(is_gitmoji(&m));
        assert!(!is_conventional(&m));
        gitmoji.push(m);
    }
    assert_eq!(detect_convention(&gitmoji), Ok(Convention::Gitmoji));
}

#[test]
fn multi_character_emoji_prefill() {
    // U+26A1 with a variation selector: the zap entry.
    assert_eq!(gitmoji_cursor(Some("\u{26a1}\u{fe0f}")), 7);
    let parsed = parse_gitmoji("\u{26a1}\u{fe0f} speed up");
    assert_eq!(gitmoji_cursor(parsed.commit_type.as_deref()), 7);
    // Two characters joined by U+200D: the technologist entry.
    let technologist = "\u{1f9d1}\u{200d}\u{1f4bb}";
    let parsed = parse_gitmoji(&format!("{} pair on it", technologist));
    assert_eq!(parsed.commit_type.as_deref(), Some(technologist));
    assert_eq!(parsed.description.as_deref(), Some("pair on it"));
    let i = gitmoji_cursor(parsed.commit_type.as_deref());
    assert_eq!(GitmojiType::all()[i].code, ":technologist:");
}

#[test]
fn table_entries_detected_in_both_forms() {
    for g in GitmojiType::all() {
        for d in ["", "x", "a: b", "two\nlines"] {
            assert!(is_gitmoji(&format!("{} {}", g.code, d)));
            assert!(is_gitmoji(&format!("{} {}", g.emoji, d)));
        }
    }
}

#[test]
fn accepted_answers_build_detected_messages() {
    let d = accept_description("  ship it  ").unwrap();
    let m = format_conventional(ConventionalType::Feat, &strings(&["api", "ui"]), &d);
    assert_eq!(m, "feat(api,ui): ship it");
    assert!(is_conventional(&m) && !is_gitmoji(&m));
    let m = format_gitmoji(&GitmojiType::all()[1], &d);
    assert!(is_gitmoji(&m) && !is_conventional(&m));
}

#[test]
fn type_cursor_follows_prefill() {
    assert_eq!(conventional_type_cursor(None), 0);
    assert_eq!(conventional_type_cursor(Some("feat")), 0);
    assert_eq!(conventional_type_cursor(Some("fix")), 1);
    assert_eq!(conventional_type_cursor(Some("test")), 7);
    assert_eq!(conventional_type_cursor(Some("revert")), 10);
    assert_eq!(conventional_type_cursor(Some("unknown")), 0);
    assert_eq!(conventional_type_cursor(Some("Feat")), 0);
}

#[test]
fn gitmoji_cursor_follows_prefill() {
    let all = GitmojiType::all();
    for (i, g) in all.iter().enumerate() {
        assert_eq!(gitmoji_cursor(Some(g.code)), i);
        assert_eq!(gitmoji_cursor(Some(g.emoji)), i);
        // The type `parse_gitmoji` reads from a built message lands there too.
        let parsed = parse_gitmoji(&format_gitmoji(g, "x"));
        assert_eq!(gitmoji_cursor(parsed.commit_type.as_deref()), i);
    }
    assert_eq!(gitmoji_cursor(None), 0);
    assert_eq!(gitmoji_cursor(Some(":nope:")), 0);
    assert_eq!(gitmoji_cursor(Some("✨")), 0);
    assert_eq!(gitmoji_cursor(Some(":bug:")), 1);
    assert_eq!(gitmoji_cursor(Some(":art:")), 6);
}

#[test]
fn scope_prompt_loop() {
    let mut scopes = initial_scopes(Some(strings(&["auth"])), vec![]);
    assert_eq!(scopes, strings(&["auth"]));
    assert_eq!(
        scope_prompt(&scopes),
        "Add another scope (current: auth) or press Enter to finish:"
    );
    assert!(!accept_scope(&mut scopes, "  ui  "));
    assert_eq!(scopes, strings(&["auth", "ui"]));
    assert_eq!(
        scope_prompt(&scopes),
        "Add another scope (current: auth, ui) or press Enter to finish:"
    );
    assert!(accept_scope(&mut scopes, "   "));
    assert_eq!(scopes, strings(&["auth", "ui"]));
    assert_eq!(scope_prompt(&vec![]), "Scope (leave empty to finish):");
}

#[test]
fn initial_scopes_prefers_command_line() {
    assert_eq!(initial_scopes(Some(strings(&["a"])), strings(&["b", "c"])), strings(&["b", "c"]));
    assert_eq!(initial_scopes(None, vec![]), Vec::<String>::new());
}

#[test]
fn description_must_not_be_blank() {
    assert_eq!(accept_description("  \t "), None);
    assert_eq!(accept_description(""), None);
    assert_eq!(accept_description("  fix it  "), Some("fix it".to_string()));
}

#[test]
fn flags_need_conventional_convention() {
    let mut cli = Cli {
        convention: None,
        message: None,
        commit_type: Some(ConventionalType::Fix),
        scopes: vec![],
        advance_bookmark: false,
        bookmarks: vec![],
    };
    assert_eq!(check_flags(&cli, Convention::Conventional), Ok(()));
    assert_eq!(check_flags(&cli, Convention::Gitmoji), Err(FlagError::TypeNeedsConventional));
    cli.commit_type = None;
    cli.scopes = strings(&["ui"]);
    assert_eq!(check_flags(&cli, Convention::Gitmoji), Err(FlagError::ScopesNeedConventional));
    cli.scopes = vec![];
    assert_eq!(check_flags(&cli, Convention::Gitmoji), Ok(()));
    assert_eq!(
        FlagError::TypeNeedsConventional.message(),
        "--type is only valid when using the conventional commit convention"
    );
    assert_eq!(
        FlagError::ScopesNeedConventional.message(),
        "--scopes is only valid when using the conventional commit convention"
    );
}

#[test]
fn descriptions_are_trimmed_and_blank_ones_dropped() {
    let descs = strings(&["  feat: a \n", "", "   ", "fix: b"]);
    assert_eq!(keep_descriptions(&descs), strings(&["feat: a", "fix: b"]));
}

#[test]
fn ancestor_walk_decisions() {
    assert_eq!(ancestor_step(strings(&["main"]), true), AncestorStep::Found(strings(&["main"])));
    assert_eq!(ancestor_step(vec![], true), AncestorStep::FirstParent);
    assert_eq!(ancestor_step(vec![], false), AncestorStep::Exhausted);
}

#[test]
fn unamended_prefill_rebuilds_the_message() {
    for msg in ["feat(api,ui): expose dark mode toggle", "fix: handle null", "docs(readme): a: b"] {
        let pre = parse_conventional(msg);
        let t = ConventionalType::all()[conventional_type_cursor(pre.commit_type.as_deref())];
        let scopes = initial_scopes(pre.scopes, vec![]);
        let description = pre.description.unwrap();
        assert_eq!(format_conventional(t, &scopes, &description), msg);
    }
    for g in GitmojiType::all() {
        let msg = format_gitmoji(&g, "tidy up");
        let pre = parse_gitmoji(&msg);
        let chosen = GitmojiType::all()[gitmoji_cursor(pre.commit_type.as_deref())];
        assert_eq!(format_gitmoji(&chosen, &pre.description.unwrap()), msg);
    }
}
