//! Where the user configuration is looked for, and which environment
//! variables override it.
use vstd::prelude::*;

use crate::commit::{opt_view, opt_views};
use crate::text::views;
use vstd::string::StringExecFns;

verus! {

/// A place the user configuration may be read from.
#[derive(Debug, Clone, PartialEq, Eq)]
pub enum ConfigCandidate {
    /// An entry of `$JJ_CONFIG`: a directory to load whole, or a file.
    Listed(String),
    /// The file at `base` joined with the path components `rel`.
    File { base: String, rel: Vec<String> },
}

/// A candidate as plain sequences of characters.
pub enum CandidateView {
    Listed(Seq<char>),
    File { base: Seq<char>, rel: Seq<Seq<char>> },
}

impl View for ConfigCandidate {
    type V = CandidateView;

    open spec fn view(&self) -> CandidateView {
        match self {
            ConfigCandidate::Listed(s) => CandidateView::Listed(s@),
            ConfigCandidate::File { base, rel } => CandidateView::File {
                base: base@,
                rel: views(rel@),
            },
        }
    }
}

/// The views of a list of candidates.
pub open spec fn candidate_views(v: Seq<ConfigCandidate>) -> Seq<CandidateView> {
    v.map_values(|c: ConfigCandidate| c@)
}

/// The place `base` joined with `rel`, when `base` is known.
pub open spec fn file_at(base: Option<Seq<char>>, rel: Seq<Seq<char>>) -> Seq<CandidateView> {
    match base {
        Some(b) => seq![CandidateView::File { base: b, rel }],
        None => seq![],
    }
}

/// The user configuration's places, in the order in which they are loaded
/// (a later one overrides an earlier one).
///
/// When `$JJ_CONFIG` is set, its entries and only those. Otherwise
/// `$XDG_CONFIG_HOME/jj/config.toml` (or `$HOME/.config/jj/config.toml` when
/// that variable is not set), then `$HOME/.jjconfig.toml`, then, on Windows,
/// `%APPDATA%\jj\config.toml`; each only where its variable is set.
pub open spec fn config_candidates(
    jj_config: Option<Seq<Seq<char>>>,
    xdg_config_home: Option<Seq<char>>,
    home: Option<Seq<char>>,
    appdata: Option<Seq<char>>,
    windows: bool,
) -> Seq<CandidateView> {
    match jj_config {
        Some(entries) => entries.map_values(|e: Seq<char>| CandidateView::Listed(e)),
        None => {
            let platform = match xdg_config_home {
                Some(x) => file_at(Some(x), seq!["jj"@, "config.toml"@]),
                None => file_at(home, seq![".config"@, "jj"@, "config.toml"@]),
            };
            let legacy = file_at(home, seq![".jjconfig.toml"@]);
            let win = if windows {
                file_at(appdata, seq!["jj"@, "config.toml"@])
            } else {
                seq![]
            };
            platform + legacy + win
        },
    }
}

/// Pushes the file at `base` joined with `rel` when `base` is known.
fn push_file_at(out: &mut Vec<ConfigCandidate>, base: &Option<String>, rel: Vec<String>)
    ensures
        candidate_views(final(out)@) == candidate_views(old(out)@) + file_at(
            opt_view(*base),
            views(rel@),
        ),
{
    match base {
        Some(b) => {
            let c = ConfigCandidate::File { base: String::from_str(b.as_str()), rel };
            let ghost before = old(out)@;
            out.push(c);
            assert(candidate_views(out@) =~= candidate_views(before).push(c@));
        },
        None => {
            assert(candidate_views(out@) =~= candidate_views(old(out)@) + seq![]);
        },
    }
}

/// The path components `jj`, `config.toml`.
fn jj_config_toml() -> (r: Vec<String>)
    ensures
        views(r@) == seq!["jj"@, "config.toml"@],
{
    let r = vec![String::from_str("jj"), String::from_str("config.toml")];
    assert(views(r@) =~= seq!["jj"@, "config.toml"@]);
    r
}

/// The places the user configuration is read from, for the values of
/// `$JJ_CONFIG` (split into its entries), `$XDG_CONFIG_HOME`, `$HOME` and
/// `%APPDATA%`, and whether the system is Windows.
pub fn user_config_candidates(
    jj_config: Option<Vec<String>>,
    xdg_config_home: Option<String>,
    home: Option<String>,
    appdata: Option<String>,
    windows: bool,
) -> (r: Vec<ConfigCandidate>)
    ensures
        candidate_views(r@) == config_candidates(
            opt_views(jj_config),
            opt_view(xdg_config_home),
            opt_view(home),
            opt_view(appdata),
            windows,
        ),
{
    let mut out: Vec<ConfigCandidate> = Vec::new();
    match jj_config {
        Some(entries) => {
            let ghost es = views(entries@);
            let mut i: usize = 0;
            while i < entries.len()
                invariant
                    0 <= i <= entries.len(),
                    es == views(entries@),
                    candidate_views(out@) == es.subrange(0, i as int).map_values(
                        |e: Seq<char>| CandidateView::Listed(e),
                    ),
                decreases entries.len() - i,
            {
                let c = ConfigCandidate::Listed(String::from_str(entries[i].as_str()));
                let ghost before = out@;
                out.push(c);
                assert(candidate_views(out@) =~= candidate_views(before).push(c@));
                assert(es.subrange(0, i + 1) =~= es.subrange(0, i as int).push(es[i as int]));
                assert(es.subrange(0, i + 1).map_values(|e: Seq<char>| CandidateView::Listed(e))
                    =~= es.subrange(0, i as int).map_values(
                    |e: Seq<char>| CandidateView::Listed(e),
                ).push(CandidateView::Listed(es[i as int])));
                i = i + 1;
            }
            assert(es.subrange(0, entries.len() as int) =~= es);
        },
        None => {
            assert(candidate_views(out@) =~= Seq::<CandidateView>::empty());
            match &xdg_config_home {
                Some(_) => push_file_at(&mut out, &xdg_config_home, jj_config_toml()),
                None => {
                    let rel = vec![
                        String::from_str(".config"),
                        String::from_str("jj"),
                        String::from_str("config.toml"),
                    ];
                    assert(views(rel@) =~= seq![".config"@, "jj"@, "config.toml"@]);
                    push_file_at(&mut out, &home, rel);
                },
            }
            let legacy = vec![String::from_str(".jjconfig.toml")];
            assert(views(legacy@) =~= seq![".jjconfig.toml"@]);
            push_file_at(&mut out, &home, legacy);
            if windows {
                push_file_at(&mut out, &appdata, jj_config_toml());
            }
        },
    }
    out
}

/// The configuration values the environment overrides: `$JJ_USER` sets
/// `user.name` and `$JJ_EMAIL` sets `user.email`, in that order, each only
/// when set.
pub open spec fn env_override_pairs(jj_user: Option<Seq<char>>, jj_email: Option<Seq<char>>) -> Seq<
    (Seq<char>, Seq<char>),
> {
    (match jj_user {
        Some(u) => seq![("user.name"@, u)],
        None => seq![],
    }) + (match jj_email {
        Some(e) => seq![("user.email"@, e)],
        None => seq![],
    })
}

/// The overrides for the values of `$JJ_USER` and `$JJ_EMAIL`, as pairs of a
/// configuration key and its value.
pub fn env_overrides(jj_user: Option<String>, jj_email: Option<String>) -> (r: Vec<(String, String)>)
    ensures
        r@.map_values(|p: (String, String)| (p.0@, p.1@)) == env_override_pairs(
            opt_view(jj_user),
            opt_view(jj_email),
        ),
{
    let mut r: Vec<(String, String)> = Vec::new();
    match jj_user {
        Some(u) => {
            r.push((String::from_str("user.name"), u));
        },
        None => {},
    }
    let ghost first = r@;
    match jj_email {
        Some(e) => {
            r.push((String::from_str("user.email"), e));
        },
        None => {},
    }
    assert(r@.map_values(|p: (String, String)| (p.0@, p.1@)) =~= env_override_pairs(
        opt_view(jj_user),
        opt_view(jj_email),
    ));
    r
}

/// The order of the user configuration's places, whatever else is set: the
/// `$JJ_CONFIG` entries alone when it is set; otherwise the platform file
/// first (under `$XDG_CONFIG_HOME`, or under `$HOME/.config` without it),
/// `$HOME/.jjconfig.toml` after it whenever `$HOME` is set, and
/// `%APPDATA%\jj\config.toml` last whenever the system is Windows and
/// `%APPDATA%` is set, and only then.
pub proof fn lemma_config_places(
    jj_config: Option<Seq<Seq<char>>>,
    xdg_config_home: Option<Seq<char>>,
    home: Option<Seq<char>>,
    appdata: Option<Seq<char>>,
    windows: bool,
)
    ensures
        ({
            let r = config_candidates(jj_config, xdg_config_home, home, appdata, windows);
            &&& jj_config is Some ==> r.len() == jj_config->0.len() && forall|i: int|
                0 <= i < r.len() ==> #[trigger] r[i] == CandidateView::Listed(jj_config->0[i])
            &&& jj_config is None && xdg_config_home is Some ==> r[0] == CandidateView::File {
                base: xdg_config_home->0,
                rel: seq!["jj"@, "config.toml"@],
            }
            &&& jj_config is None && xdg_config_home is None && home is Some ==> r[0]
                == CandidateView::File {
                base: home->0,
                rel: seq![".config"@, "jj"@, "config.toml"@],
            }
            &&& jj_config is None && home is Some ==> r[1] == CandidateView::File {
                base: home->0,
                rel: seq![".jjconfig.toml"@],
            }
            &&& jj_config is None && windows && appdata is Some ==> r.len() > 0 && r.last()
                == CandidateView::File { base: appdata->0, rel: seq!["jj"@, "config.toml"@] }
            &&& jj_config is None ==> r.len() == (if xdg_config_home is Some || home is Some {
                1int
            } else {
                0
            }) + (if home is Some {
                1int
            } else {
                0
            }) + (if windows && appdata is Some {
                1int
            } else {
                0
            })
        }),
{
}

/// The environment's overrides, whatever is set: as many as variables are
/// set, `$JJ_USER` first as `user.name`, `$JJ_EMAIL` last as `user.email`.
pub proof fn lemma_env_override_order(jj_user: Option<Seq<char>>, jj_email: Option<Seq<char>>)
    ensures
        ({
            let r = env_override_pairs(jj_user, jj_email);
            &&& r.len() == (if jj_user is Some {
                1int
            } else {
                0
            }) + (if jj_email is Some {
                1int
            } else {
                0
            })
            &&& jj_user is Some ==> r[0] == ("user.name"@, jj_user->0)
            &&& jj_email is Some ==> r.len() > 0 && r.last() == ("user.email"@, jj_email->0)
        }),
{
}

} // verus!
