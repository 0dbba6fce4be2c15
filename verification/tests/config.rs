use jj_commit::config::{env_overrides, user_config_candidates, ConfigCandidate};

fn s(x: &str) -> String {
    x.to_string()
}

fn file(base: &str, rel: &[&str]) -> ConfigCandidate {
    ConfigCandidate::File { base: s(base), rel: rel.iter().map(|r| s(r)).collect() }
}

#[test]
fn jj_config_entries_replace_every_other_place() {
    let r = user_config_candidates(
        Some(vec![s("/a/config.toml"), s("/b")]),
        Some(s("/xdg")),
        Some(s("/home/me")),
        Some(s("C:/AppData")),
        true,
    );
    assert_eq!(r, vec![ConfigCandidate::Listed(s("/a/config.toml")), ConfigCandidate::Listed(s("/b"))]);
    assert_eq!(user_config_candidates(Some(vec![]), None, Some(s("/h")), None, false), vec![]);
}

#[test]
fn platform_legacy_then_windows() {
    let r = user_config_candidates(None, Some(s("/xdg")), Some(s("/home/me")), Some(s("C:/AppData")), true);
    assert_eq!(
        r,
        vec![
            file("/xdg", &["jj", "config.toml"]),
            file("/home/me", &[".jjconfig.toml"]),
            file("C:/AppData", &["jj", "config.toml"]),
        ]
    );
    let r = user_config_candidates(None, None, Some(s("/home/me")), Some(s("C:/AppData")), false);
    assert_eq!(
        r,
        vec![file("/home/me", &[".config", "jj", "config.toml"]), file("/home/me", &[".jjconfig.toml"])]
    );
    assert_eq!(user_config_candidates(None, None, None, None, true), vec![]);
    assert_eq!(
        user_config_candidates(None, Some(s("/xdg")), None, None, false),
        vec![file("/xdg", &["jj", "config.toml"])]
    );
}

#[test]
fn environment_overrides() {
    assert_eq!(
        env_overrides(Some(s("Ada")), Some(s("ada@example.org"))),
        vec![(s("user.name"), s("Ada")), (s("user.email"), s("ada@example.org"))]
    );
    assert_eq!(env_overrides(None, Some(s("e@x"))), vec![(s("user.email"), s("e@x"))]);
    assert_eq!(env_overrides(Some(s("Ada")), None), vec![(s("user.name"), s("Ada"))]);
    assert_eq!(env_overrides(None, None), vec![]);
}
