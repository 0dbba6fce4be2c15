//! The Gitmoji vocabulary: every emoji with its shortcode and meaning.
use vstd::prelude::*;

use crate::text::{is_high, is_pictographic, is_white_space, str_eq};
use vstd::string::StringExecFns;
use crate::commit::gitmoji::lemma_find_by_code;

verus! {

broadcast use vstd::string::group_string_axioms;

/// One entry of the Gitmoji table.
#[derive(Debug, Clone, Copy, PartialEq, Eq)]
pub struct GitmojiType {
    /// The emoji itself, e.g. `✨`.
    pub emoji: &'static str,
    /// The shortcode, e.g. `:sparkles:`.
    pub code: &'static str,
    /// What a commit marked with the emoji does.
    pub description: &'static str,
    /// The entry's name, e.g. `sparkles`.
    pub name: &'static str,
}

/// The Gitmoji table of gitmoji.dev, in the order in which the type prompt
/// lists it: the six most used entries first (sparkles, bug, ambulance, memo,
/// recycle, fire), then the others in gitmoji.dev's order.
pub open spec fn gitmoji_table() -> Seq<GitmojiType> {
    seq![
        GitmojiType {
            emoji: "✨",
            code: ":sparkles:",
            description: "Introduce new features.",
            name: "sparkles",
        },
        GitmojiType {
            emoji: "🐛",
            code: ":bug:",
            description: "Fix a bug.",
            name: "bug",
        },
        GitmojiType {
            emoji: "🚑️",
            code: ":ambulance:",
            description: "Critical hotfix.",
            name: "ambulance",
        },
        GitmojiType {
            emoji: "📝",
            code: ":memo:",
            description: "Add or update documentation.",
            name: "memo",
        },
        GitmojiType {
            emoji: "♻️",
            code: ":recycle:",
            description: "Refactor code.",
            name: "recycle",
        },
        GitmojiType {
            emoji: "🔥",
            code: ":fire:",
            description: "Remove code or files.",
            name: "fire",
        },
        GitmojiType {
            emoji: "🎨",
            code: ":art:",
            description: "Improve structure / format of the code.",
            name: "art",
        },
        GitmojiType {
            emoji: "⚡️",
            code: ":zap:",
            description: "Improve performance.",
            name: "zap",
        },
        GitmojiType {
            emoji: "🚀",
            code: ":rocket:",
            description: "Deploy stuff.",
            name: "rocket",
        },
        GitmojiType {
            emoji: "💄",
            code: ":lipstick:",
            description: "Add or update the UI and style files.",
            name: "lipstick",
        },
        GitmojiType {
            emoji: "🎉",
            code: ":tada:",
            description: "Begin a project.",
            name: "tada",
        },
        GitmojiType {
            emoji: "✅",
            code: ":white_check_mark:",
            description: "Add, update, or pass tests.",
            name: "white-check-mark",
        },
        GitmojiType {
            emoji: "🔒️",
            code: ":lock:",
            description: "Fix security or privacy issues.",
            name: "lock",
        },
        GitmojiType {
            emoji: "🔐",
            code: ":closed_lock_with_key:",
            description: "Add or update secrets.",
            name: "closed-lock-with-key",
        },
        GitmojiType {
            emoji: "🔖",
            code: ":bookmark:",
            description: "Release / Version tags.",
            name: "bookmark",
        },
        GitmojiType {
            emoji: "🚨",
            code: ":rotating_light:",
            description: "Fix compiler / linter warnings.",
            name: "rotating-light",
        },
        GitmojiType {
            emoji: "🚧",
            code: ":construction:",
            description: "Work in progress.",
            name: "construction",
        },
        GitmojiType {
            emoji: "💚",
            code: ":green_heart:",
            description: "Fix CI Build.",
            name: "green-heart",
        },
        GitmojiType {
            emoji: "⬇️",
            code: ":arrow_down:",
            description: "Downgrade dependencies.",
            name: "arrow-down",
        },
        GitmojiType {
            emoji: "⬆️",
            code: ":arrow_up:",
            description: "Upgrade dependencies.",
            name: "arrow-up",
        },
        GitmojiType {
            emoji: "📌",
            code: ":pushpin:",
            description: "Pin dependencies to specific versions.",
            name: "pushpin",
        },
        GitmojiType {
            emoji: "👷",
            code: ":construction_worker:",
            description: "Add or update CI build system.",
            name: "construction-worker",
        },
        GitmojiType {
            emoji: "📈",
            code: ":chart_with_upwards_trend:",
            description: "Add or update analytics or track code.",
            name: "chart-with-upwards-trend",
        },
        GitmojiType {
            emoji: "➕",
            code: ":heavy_plus_sign:",
            description: "Add a dependency.",
            name: "heavy-plus-sign",
        },
        GitmojiType {
            emoji: "➖",
            code: ":heavy_minus_sign:",
            description: "Remove a dependency.",
            name: "heavy-minus-sign",
        },
        GitmojiType {
            emoji: "🔧",
            code: ":wrench:",
            description: "Add or update configuration files.",
            name: "wrench",
        },
        GitmojiType {
            emoji: "🔨",
            code: ":hammer:",
            description: "Add or update development scripts.",
            name: "hammer",
        },
        GitmojiType {
            emoji: "🌐",
            code: ":globe_with_meridians:",
            description: "Internationalization and localization.",
            name: "globe-with-meridians",
        },
        GitmojiType {
            emoji: "✏️",
            code: ":pencil2:",
            description: "Fix typos.",
            name: "pencil2",
        },
        GitmojiType {
            emoji: "💩",
            code: ":poop:",
            description: "Write bad code that needs to be improved.",
            name: "poop",
        },
        GitmojiType {
            emoji: "⏪️",
            code: ":rewind:",
            description: "Revert changes.",
            name: "rewind",
        },
        GitmojiType {
            emoji: "🔀",
            code: ":twisted_rightwards_arrows:",
            description: "Merge branches.",
            name: "twisted-rightwards-arrows",
        },
        GitmojiType {
            emoji: "📦️",
            code: ":package:",
            description: "Add or update compiled files or packages.",
            name: "package",
        },
        GitmojiType {
            emoji: "👽️",
            code: ":alien:",
            description: "Update code due to external API changes.",
            name: "alien",
        },
        GitmojiType {
            emoji: "🚚",
            code: ":truck:",
            description: "Move or rename resources (e.g.: files, paths, routes).",
            name: "truck",
        },
        GitmojiType {
            emoji: "📄",
            code: ":page_facing_up:",
            description: "Add or update license.",
            name: "page-facing-up",
        },
        GitmojiType {
            emoji: "💥",
            code: ":boom:",
            description: "Introduce breaking changes.",
            name: "boom",
        },
        GitmojiType {
            emoji: "🍱",
            code: ":bento:",
            description: "Add or update assets.",
            name: "bento",
        },
        GitmojiType {
            emoji: "♿️",
            code: ":wheelchair:",
            description: "Improve accessibility.",
            name: "wheelchair",
        },
        GitmojiType {
            emoji: "💡",
            code: ":bulb:",
            description: "Add or update comments in source code.",
            name: "bulb",
        },
        GitmojiType {
            emoji: "🍻",
            code: ":beers:",
            description: "Write code drunkenly.",
            name: "beers",
        },
        GitmojiType {
            emoji: "💬",
            code: ":speech_balloon:",
            description: "Add or update text and literals.",
            name: "speech-balloon",
        },
        GitmojiType {
            emoji: "🗃️",
            code: ":card_file_box:",
            description: "Perform database related changes.",
            name: "card-file-box",
        },
        GitmojiType {
            emoji: "🔊",
            code: ":loud_sound:",
            description: "Add or update logs.",
            name: "loud-sound",
        },
        GitmojiType {
            emoji: "🔇",
            code: ":mute:",
            description: "Remove logs.",
            name: "mute",
        },
        GitmojiType {
            emoji: "👥",
            code: ":busts_in_silhouette:",
            description: "Add or update contributor(s).",
            name: "busts-in-silhouette",
        },
        GitmojiType {
            emoji: "🚸",
            code: ":children_crossing:",
            description: "Improve user experience / usability.",
            name: "children-crossing",
        },
        GitmojiType {
            emoji: "🏗️",
            code: ":building_construction:",
            description: "Make architectural changes.",
            name: "building-construction",
        },
        GitmojiType {
            emoji: "📱",
            code: ":iphone:",
            description: "Work on responsive design.",
            name: "iphone",
        },
        GitmojiType {
            emoji: "🤡",
            code: ":clown_face:",
            description: "Mock things.",
            name: "clown-face",
        },
        GitmojiType {
            emoji: "🥚",
            code: ":egg:",
            description: "Add or update an easter egg.",
            name: "egg",
        },
        GitmojiType {
            emoji: "🙈",
            code: ":see_no_evil:",
            description: "Add or update a .gitignore file.",
            name: "see-no-evil",
        },
        GitmojiType {
            emoji: "📸",
            code: ":camera_flash:",
            description: "Add or update snapshots.",
            name: "camera-flash",
        },
        GitmojiType {
            emoji: "⚗️",
            code: ":alembic:",
            description: "Perform experiments.",
            name: "alembic",
        },
        GitmojiType {
            emoji: "🔍️",
            code: ":mag:",
            description: "Improve SEO.",
            name: "mag",
        },
        GitmojiType {
            emoji: "🏷️",
            code: ":label:",
            description: "Add or update types.",
            name: "label",
        },
        GitmojiType {
            emoji: "🌱",
            code: ":seedling:",
            description: "Add or update seed files.",
            name: "seedling",
        },
        GitmojiType {
            emoji: "🚩",
            code: ":triangular_flag_on_post:",
            description: "Add, update, or remove feature flags.",
            name: "triangular-flag-on-post",
        },
        GitmojiType {
            emoji: "🥅",
            code: ":goal_net:",
            description: "Catch errors.",
            name: "goal-net",
        },
        GitmojiType {
            emoji: "💫",
            code: ":dizzy:",
            description: "Add or update animations and transitions.",
            name: "dizzy",
        },
        GitmojiType {
            emoji: "🗑️",
            code: ":wastebasket:",
            description: "Deprecate code that needs to be cleaned up.",
            name: "wastebasket",
        },
        GitmojiType {
            emoji: "🛂",
            code: ":passport_control:",
            description: "Work on code related to authorization, roles and permissions.",
            name: "passport-control",
        },
        GitmojiType {
            emoji: "🩹",
            code: ":adhesive_bandage:",
            description: "Simple fix for a non-critical issue.",
            name: "adhesive-bandage",
        },
        GitmojiType {
            emoji: "🧐",
            code: ":monocle_face:",
            description: "Data exploration/inspection.",
            name: "monocle-face",
        },
        GitmojiType {
            emoji: "⚰️",
            code: ":coffin:",
            description: "Remove dead code.",
            name: "coffin",
        },
        GitmojiType {
            emoji: "🧪",
            code: ":test_tube:",
            description: "Add a failing test.",
            name: "test-tube",
        },
        GitmojiType {
            emoji: "👔",
            code: ":necktie:",
            description: "Add or update business logic.",
            name: "necktie",
        },
        GitmojiType {
            emoji: "🩺",
            code: ":stethoscope:",
            description: "Add or update healthcheck.",
            name: "stethoscope",
        },
        GitmojiType {
            emoji: "🧱",
            code: ":bricks:",
            description: "Infrastructure related changes.",
            name: "bricks",
        },
        GitmojiType {
            emoji: "🧑‍💻",
            code: ":technologist:",
            description: "Improve developer experience.",
            name: "technologist",
        },
        GitmojiType {
            emoji: "💸",
            code: ":money_with_wings:",
            description: "Add sponsorships or money related infrastructure.",
            name: "money-with-wings",
        },
        GitmojiType {
            emoji: "🧵",
            code: ":thread:",
            description: "Add or update code related to multithreading or concurrency.",
            name: "thread",
        },
        GitmojiType {
            emoji: "🦺",
            code: ":safety_vest:",
            description: "Add or update code related to validation.",
            name: "safety-vest",
        },
        GitmojiType {
            emoji: "✈️",
            code: ":airplane:",
            description: "Improve offline support.",
            name: "airplane",
        },
        GitmojiType {
            emoji: "🦖",
            code: ":t-rex:",
            description: "Code that adds backwards compatibility.",
            name: "t-rex",
        },
    ]
}

/// The first entry of `t` whose shortcode is `code`.
pub open spec fn find_by_code(t: Seq<GitmojiType>, code: Seq<char>) -> Option<GitmojiType>
    decreases t.len(),
{
    if t.len() == 0 {
        None
    } else if t[0].code@ == code {
        Some(t[0])
    } else {
        find_by_code(t.drop_first(), code)
    }
}

/// The first entry of `t` whose emoji is `emoji`.
pub open spec fn find_by_emoji(t: Seq<GitmojiType>, emoji: Seq<char>) -> Option<GitmojiType>
    decreases t.len(),
{
    if t.len() == 0 {
        None
    } else if t[0].emoji@ == emoji {
        Some(t[0])
    } else {
        find_by_emoji(t.drop_first(), emoji)
    }
}

impl GitmojiType {
    /// The text under which the entry is offered: the emoji, a space, and the
    /// description.
    pub open spec fn label_view(self) -> Seq<char> {
        self.emoji@ + " "@ + self.description@
    }

    /// Every entry of the table, in prompt order.
    pub fn all() -> (r: Vec<GitmojiType>)
        ensures
            r@ == gitmoji_table(),
    {
        let r = vec![
            GitmojiType {
                emoji: "✨",
                code: ":sparkles:",
                description: "Introduce new features.",
                name: "sparkles",
            },
            GitmojiType {
                emoji: "🐛",
                code: ":bug:",
                description: "Fix a bug.",
                name: "bug",
            },
            GitmojiType {
                emoji: "🚑️",
                code: ":ambulance:",
                description: "Critical hotfix.",
                name: "ambulance",
            },
            GitmojiType {
                emoji: "📝",
                code: ":memo:",
                description: "Add or update documentation.",
                name: "memo",
            },
            GitmojiType {
                emoji: "♻️",
                code: ":recycle:",
                description: "Refactor code.",
                name: "recycle",
            },
            GitmojiType {
                emoji: "🔥",
                code: ":fire:",
                description: "Remove code or files.",
                name: "fire",
            },
            GitmojiType {
                emoji: "🎨",
                code: ":art:",
                description: "Improve structure / format of the code.",
                name: "art",
            },
            GitmojiType {
                emoji: "⚡️",
                code: ":zap:",
                description: "Improve performance.",
                name: "zap",
            },
            GitmojiType {
                emoji: "🚀",
                code: ":rocket:",
                description: "Deploy stuff.",
                name: "rocket",
            },
            GitmojiType {
                emoji: "💄",
                code: ":lipstick:",
                description: "Add or update the UI and style files.",
                name: "lipstick",
            },
            GitmojiType {
                emoji: "🎉",
                code: ":tada:",
                description: "Begin a project.",
                name: "tada",
            },
            GitmojiType {
                emoji: "✅",
                code: ":white_check_mark:",
                description: "Add, update, or pass tests.",
                name: "white-check-mark",
            },
            GitmojiType {
                emoji: "🔒️",
                code: ":lock:",
                description: "Fix security or privacy issues.",
                name: "lock",
            },
            GitmojiType {
                emoji: "🔐",
                code: ":closed_lock_with_key:",
                description: "Add or update secrets.",
                name: "closed-lock-with-key",
            },
            GitmojiType {
                emoji: "🔖",
                code: ":bookmark:",
                description: "Release / Version tags.",
                name: "bookmark",
            },
            GitmojiType {
                emoji: "🚨",
                code: ":rotating_light:",
                description: "Fix compiler / linter warnings.",
                name: "rotating-light",
            },
            GitmojiType {
                emoji: "🚧",
                code: ":construction:",
                description: "Work in progress.",
                name: "construction",
            },
            GitmojiType {
                emoji: "💚",
                code: ":green_heart:",
                description: "Fix CI Build.",
                name: "green-heart",
            },
            GitmojiType {
                emoji: "⬇️",
                code: ":arrow_down:",
                description: "Downgrade dependencies.",
                name: "arrow-down",
            },
            GitmojiType {
                emoji: "⬆️",
                code: ":arrow_up:",
                description: "Upgrade dependencies.",
                name: "arrow-up",
            },
            GitmojiType {
                emoji: "📌",
                code: ":pushpin:",
                description: "Pin dependencies to specific versions.",
                name: "pushpin",
            },
            GitmojiType {
                emoji: "👷",
                code: ":construction_worker:",
                description: "Add or update CI build system.",
                name: "construction-worker",
            },
            GitmojiType {
                emoji: "📈",
                code: ":chart_with_upwards_trend:",
                description: "Add or update analytics or track code.",
                name: "chart-with-upwards-trend",
            },
            GitmojiType {
                emoji: "➕",
                code: ":heavy_plus_sign:",
                description: "Add a dependency.",
                name: "heavy-plus-sign",
            },
            GitmojiType {
                emoji: "➖",
                code: ":heavy_minus_sign:",
                description: "Remove a dependency.",
                name: "heavy-minus-sign",
            },
            GitmojiType {
                emoji: "🔧",
                code: ":wrench:",
                description: "Add or update configuration files.",
                name: "wrench",
            },
            GitmojiType {
                emoji: "🔨",
                code: ":hammer:",
                description: "Add or update development scripts.",
                name: "hammer",
            },
            GitmojiType {
                emoji: "🌐",
                code: ":globe_with_meridians:",
                description: "Internationalization and localization.",
                name: "globe-with-meridians",
            },
            GitmojiType {
                emoji: "✏️",
                code: ":pencil2:",
                description: "Fix typos.",
                name: "pencil2",
            },
            GitmojiType {
                emoji: "💩",
                code: ":poop:",
                description: "Write bad code that needs to be improved.",
                name: "poop",
            },
            GitmojiType {
                emoji: "⏪️",
                code: ":rewind:",
                description: "Revert changes.",
                name: "rewind",
            },
            GitmojiType {
                emoji: "🔀",
                code: ":twisted_rightwards_arrows:",
                description: "Merge branches.",
                name: "twisted-rightwards-arrows",
            },
            GitmojiType {
                emoji: "📦️",
                code: ":package:",
                description: "Add or update compiled files or packages.",
                name: "package",
            },
            GitmojiType {
                emoji: "👽️",
                code: ":alien:",
                description: "Update code due to external API changes.",
                name: "alien",
            },
            GitmojiType {
                emoji: "🚚",
                code: ":truck:",
                description: "Move or rename resources (e.g.: files, paths, routes).",
                name: "truck",
            },
            GitmojiType {
                emoji: "📄",
                code: ":page_facing_up:",
                description: "Add or update license.",
                name: "page-facing-up",
            },
            GitmojiType {
                emoji: "💥",
                code: ":boom:",
                description: "Introduce breaking changes.",
                name: "boom",
            },
            GitmojiType {
                emoji: "🍱",
                code: ":bento:",
                description: "Add or update assets.",
                name: "bento",
            },
            GitmojiType {
                emoji: "♿️",
                code: ":wheelchair:",
                description: "Improve accessibility.",
                name: "wheelchair",
            },
            GitmojiType {
                emoji: "💡",
                code: ":bulb:",
                description: "Add or update comments in source code.",
                name: "bulb",
            },
            GitmojiType {
                emoji: "🍻",
                code: ":beers:",
                description: "Write code drunkenly.",
                name: "beers",
            },
            GitmojiType {
                emoji: "💬",
                code: ":speech_balloon:",
                description: "Add or update text and literals.",
                name: "speech-balloon",
            },
            GitmojiType {
                emoji: "🗃️",
                code: ":card_file_box:",
                description: "Perform database related changes.",
                name: "card-file-box",
            },
            GitmojiType {
                emoji: "🔊",
                code: ":loud_sound:",
                description: "Add or update logs.",
                name: "loud-sound",
            },
            GitmojiType {
                emoji: "🔇",
                code: ":mute:",
                description: "Remove logs.",
                name: "mute",
            },
            GitmojiType {
                emoji: "👥",
                code: ":busts_in_silhouette:",
                description: "Add or update contributor(s).",
                name: "busts-in-silhouette",
            },
            GitmojiType {
                emoji: "🚸",
                code: ":children_crossing:",
                description: "Improve user experience / usability.",
                name: "children-crossing",
            },
            GitmojiType {
                emoji: "🏗️",
                code: ":building_construction:",
                description: "Make architectural changes.",
                name: "building-construction",
            },
            GitmojiType {
                emoji: "📱",
                code: ":iphone:",
                description: "Work on responsive design.",
                name: "iphone",
            },
            GitmojiType {
                emoji: "🤡",
                code: ":clown_face:",
                description: "Mock things.",
                name: "clown-face",
            },
            GitmojiType {
                emoji: "🥚",
                code: ":egg:",
                description: "Add or update an easter egg.",
                name: "egg",
            },
            GitmojiType {
                emoji: "🙈",
                code: ":see_no_evil:",
                description: "Add or update a .gitignore file.",
                name: "see-no-evil",
            },
            GitmojiType {
                emoji: "📸",
                code: ":camera_flash:",
                description: "Add or update snapshots.",
                name: "camera-flash",
            },
            GitmojiType {
                emoji: "⚗️",
                code: ":alembic:",
                description: "Perform experiments.",
                name: "alembic",
            },
            GitmojiType {
                emoji: "🔍️",
                code: ":mag:",
                description: "Improve SEO.",
                name: "mag",
            },
            GitmojiType {
                emoji: "🏷️",
                code: ":label:",
                description: "Add or update types.",
                name: "label",
            },
            GitmojiType {
                emoji: "🌱",
                code: ":seedling:",
                description: "Add or update seed files.",
                name: "seedling",
            },
            GitmojiType {
                emoji: "🚩",
                code: ":triangular_flag_on_post:",
                description: "Add, update, or remove feature flags.",
                name: "triangular-flag-on-post",
            },
            GitmojiType {
                emoji: "🥅",
                code: ":goal_net:",
                description: "Catch errors.",
                name: "goal-net",
            },
            GitmojiType {
                emoji: "💫",
                code: ":dizzy:",
                description: "Add or update animations and transitions.",
                name: "dizzy",
            },
            GitmojiType {
                emoji: "🗑️",
                code: ":wastebasket:",
                description: "Deprecate code that needs to be cleaned up.",
                name: "wastebasket",
            },
            GitmojiType {
                emoji: "🛂",
                code: ":passport_control:",
                description: "Work on code related to authorization, roles and permissions.",
                name: "passport-control",
            },
            GitmojiType {
                emoji: "🩹",
                code: ":adhesive_bandage:",
                description: "Simple fix for a non-critical issue.",
                name: "adhesive-bandage",
            },
            GitmojiType {
                emoji: "🧐",
                code: ":monocle_face:",
                description: "Data exploration/inspection.",
                name: "monocle-face",
            },
            GitmojiType {
                emoji: "⚰️",
                code: ":coffin:",
                description: "Remove dead code.",
                name: "coffin",
            },
            GitmojiType {
                emoji: "🧪",
                code: ":test_tube:",
                description: "Add a failing test.",
                name: "test-tube",
            },
            GitmojiType {
                emoji: "👔",
                code: ":necktie:",
                description: "Add or update business logic.",
                name: "necktie",
            },
            GitmojiType {
                emoji: "🩺",
                code: ":stethoscope:",
                description: "Add or update healthcheck.",
                name: "stethoscope",
            },
            GitmojiType {
                emoji: "🧱",
                code: ":bricks:",
                description: "Infrastructure related changes.",
                name: "bricks",
            },
            GitmojiType {
                emoji: "🧑‍💻",
                code: ":technologist:",
                description: "Improve developer experience.",
                name: "technologist",
            },
            GitmojiType {
                emoji: "💸",
                code: ":money_with_wings:",
                description: "Add sponsorships or money related infrastructure.",
                name: "money-with-wings",
            },
            GitmojiType {
                emoji: "🧵",
                code: ":thread:",
                description: "Add or update code related to multithreading or concurrency.",
                name: "thread",
            },
            GitmojiType {
                emoji: "🦺",
                code: ":safety_vest:",
                description: "Add or update code related to validation.",
                name: "safety-vest",
            },
            GitmojiType {
                emoji: "✈️",
                code: ":airplane:",
                description: "Improve offline support.",
                name: "airplane",
            },
            GitmojiType {
                emoji: "🦖",
                code: ":t-rex:",
                description: "Code that adds backwards compatibility.",
                name: "t-rex",
            },
        ];
        assert(r@ =~= gitmoji_table());
        r
    }

    /// The entry whose shortcode is `code`.
    pub fn from_code(code: &str) -> (r: Option<GitmojiType>)
        ensures
            r == find_by_code(gitmoji_table(), code@),
    {
        let all = GitmojiType::all();
        let mut i: usize = 0;
        assert(all@.subrange(0, all.len() as int) =~= all@);
        while i < all.len()
            invariant
                all@ == gitmoji_table(),
                0 <= i <= all.len(),
                find_by_code(gitmoji_table(), code@) == find_by_code(
                    all@.subrange(i as int, all.len() as int),
                    code@,
                ),
            decreases all.len() - i,
        {
            let ghost rest = all@.subrange(i as int, all.len() as int);
            assert(rest.drop_first() =~= all@.subrange(i + 1, all.len() as int));
            if str_eq(all[i].code, code) {
                return Some(all[i]);
            }
            i = i + 1;
        }
        None
    }

    /// The entry whose emoji is `emoji`.
    pub fn from_emoji(emoji: &str) -> (r: Option<GitmojiType>)
        ensures
            r == find_by_emoji(gitmoji_table(), emoji@),
    {
        let all = GitmojiType::all();
        let mut i: usize = 0;
        assert(all@.subrange(0, all.len() as int) =~= all@);
        while i < all.len()
            invariant
                all@ == gitmoji_table(),
                0 <= i <= all.len(),
                find_by_emoji(gitmoji_table(), emoji@) == find_by_emoji(
                    all@.subrange(i as int, all.len() as int),
                    emoji@,
                ),
            decreases all.len() - i,
        {
            let ghost rest = all@.subrange(i as int, all.len() as int);
            assert(rest.drop_first() =~= all@.subrange(i + 1, all.len() as int));
            if str_eq(all[i].emoji, emoji) {
                return Some(all[i]);
            }
            i = i + 1;
        }
        None
    }

    /// The emoji, a space, and the description.
    pub fn label(&self) -> (r: String)
        ensures
            r@ == self.label_view(),
    {
        let mut r = String::from_str(self.emoji);
        r.append(" ");
        r.append(self.description);
        r
    }
}

/// The shape of every emoji of the table: characters above U+00FF, either a
/// single one, one followed by a variation selector U+FE0F, or two joined by a
/// zero-width joiner U+200D.
pub open spec fn emoji_shape(e: Seq<char>) -> bool {
    &&& forall|j: int| 0 <= j < e.len() ==> is_high(#[trigger] e[j])
    &&& {
        ||| e.len() == 1
        ||| e.len() == 2 && e[1] == '\u{fe0f}'
        ||| e.len() == 3 && e[1] == '\u{200d}'
    }
}

/// Every emoji of the table has that shape, and starts with an emoji code
/// point above U+00FF that is not white space.
pub proof fn lemma_table_emoji_shapes()
    ensures
        forall|i: int|
            0 <= i < gitmoji_table().len() ==> (#[trigger] gitmoji_table()[i]).emoji@.len() > 0
                && is_high(gitmoji_table()[i].emoji@[0]) && !is_white_space(
                gitmoji_table()[i].emoji@[0],
            ) && emoji_shape(gitmoji_table()[i].emoji@) && is_pictographic(
                gitmoji_table()[i].emoji@[0],
            ),
{
    let t = gitmoji_table();
    assert(t.len() == 75);
    assert forall|i: int| 0 <= i < t.len() implies (#[trigger] t[i]).emoji@.len() > 0 && is_high(
        t[i].emoji@[0],
    ) && !is_white_space(t[i].emoji@[0]) && emoji_shape(t[i].emoji@) && is_pictographic(
        t[i].emoji@[0],
    ) by {
        if i == 0 {
            reveal_strlit("✨");
            assert(t[i].emoji@ =~= seq!['\u{2728}']);
        }
        if i == 1 {
            reveal_strlit("🐛");
            assert(t[i].emoji@ =~= seq!['\u{1f41b}']);
        }
        if i == 2 {
            reveal_strlit("🚑️");
            assert(t[i].emoji@ =~= seq!['\u{1f691}', '\u{fe0f}']);
        }
        if i == 3 {
            reveal_strlit("📝");
            assert(t[i].emoji@ =~= seq!['\u{1f4dd}']);
        }
        if i == 4 {
            reveal_strlit("♻️");
            assert(t[i].emoji@ =~= seq!['\u{267b}', '\u{fe0f}']);
        }
        if i == 5 {
            reveal_strlit("🔥");
            assert(t[i].emoji@ =~= seq!['\u{1f525}']);
        }
        if i == 6 {
            reveal_strlit("🎨");
            assert(t[i].emoji@ =~= seq!['\u{1f3a8}']);
        }
        if i == 7 {
            reveal_strlit("⚡️");
            assert(t[i].emoji@ =~= seq!['\u{26a1}', '\u{fe0f}']);
        }
        if i == 8 {
            reveal_strlit("🚀");
            assert(t[i].emoji@ =~= seq!['\u{1f680}']);
        }
        if i == 9 {
            reveal_strlit("💄");
            assert(t[i].emoji@ =~= seq!['\u{1f484}']);
        }
        if i == 10 {
            reveal_strlit("🎉");
            assert(t[i].emoji@ =~= seq!['\u{1f389}']);
        }
        if i == 11 {
            reveal_strlit("✅");
            assert(t[i].emoji@ =~= seq!['\u{2705}']);
        }
        if i == 12 {
            reveal_strlit("🔒️");
            assert(t[i].emoji@ =~= seq!['\u{1f512}', '\u{fe0f}']);
        }
        if i == 13 {
            reveal_strlit("🔐");
            assert(t[i].emoji@ =~= seq!['\u{1f510}']);
        }
        if i == 14 {
            reveal_strlit("🔖");
            assert(t[i].emoji@ =~= seq!['\u{1f516}']);
        }
        if i == 15 {
            reveal_strlit("🚨");
            assert(t[i].emoji@ =~= seq!['\u{1f6a8}']);
        }
        if i == 16 {
            reveal_strlit("🚧");
            assert(t[i].emoji@ =~= seq!['\u{1f6a7}']);
        }
        if i == 17 {
            reveal_strlit("💚");
            assert(t[i].emoji@ =~= seq!['\u{1f49a}']);
        }
        if i == 18 {
            reveal_strlit("⬇️");
            assert(t[i].emoji@ =~= seq!['\u{2b07}', '\u{fe0f}']);
        }
        if i == 19 {
            reveal_strlit("⬆️");
            assert(t[i].emoji@ =~= seq!['\u{2b06}', '\u{fe0f}']);
        }
        if i == 20 {
            reveal_strlit("📌");
            assert(t[i].emoji@ =~= seq!['\u{1f4cc}']);
        }
        if i == 21 {
            reveal_strlit("👷");
            assert(t[i].emoji@ =~= seq!['\u{1f477}']);
        }
        if i == 22 {
            reveal_strlit("📈");
            assert(t[i].emoji@ =~= seq!['\u{1f4c8}']);
        }
        if i == 23 {
            reveal_strlit("➕");
            assert(t[i].emoji@ =~= seq!['\u{2795}']);
        }
        if i == 24 {
            reveal_strlit("➖");
            assert(t[i].emoji@ =~= seq!['\u{2796}']);
        }
        if i == 25 {
            reveal_strlit("🔧");
            assert(t[i].emoji@ =~= seq!['\u{1f527}']);
        }
        if i == 26 {
            reveal_strlit("🔨");
            assert(t[i].emoji@ =~= seq!['\u{1f528}']);
        }
        if i == 27 {
            reveal_strlit("🌐");
            assert(t[i].emoji@ =~= seq!['\u{1f310}']);
        }
        if i == 28 {
            reveal_strlit("✏️");
            assert(t[i].emoji@ =~= seq!['\u{270f}', '\u{fe0f}']);
        }
        if i == 29 {
            reveal_strlit("💩");
            assert(t[i].emoji@ =~= seq!['\u{1f4a9}']);
        }
        if i == 30 {
            reveal_strlit("⏪️");
            assert(t[i].emoji@ =~= seq!['\u{23ea}', '\u{fe0f}']);
        }
        if i == 31 {
            reveal_strlit("🔀");
            assert(t[i].emoji@ =~= seq!['\u{1f500}']);
        }
        if i == 32 {
            reveal_strlit("📦️");
            assert(t[i].emoji@ =~= seq!['\u{1f4e6}', '\u{fe0f}']);
        }
        if i == 33 {
            reveal_strlit("👽️");
            assert(t[i].emoji@ =~= seq!['\u{1f47d}', '\u{fe0f}']);
        }
        if i == 34 {
            reveal_strlit("🚚");
            assert(t[i].emoji@ =~= seq!['\u{1f69a}']);
        }
        if i == 35 {
            reveal_strlit("📄");
            assert(t[i].emoji@ =~= seq!['\u{1f4c4}']);
        }
        if i == 36 {
            reveal_strlit("💥");
            assert(t[i].emoji@ =~= seq!['\u{1f4a5}']);
        }
        if i == 37 {
            reveal_strlit("🍱");
            assert(t[i].emoji@ =~= seq!['\u{1f371}']);
        }
        if i == 38 {
            reveal_strlit("♿️");
            assert(t[i].emoji@ =~= seq!['\u{267f}', '\u{fe0f}']);
        }
        if i == 39 {
            reveal_strlit("💡");
            assert(t[i].emoji@ =~= seq!['\u{1f4a1}']);
        }
        if i == 40 {
            reveal_strlit("🍻");
            assert(t[i].emoji@ =~= seq!['\u{1f37b}']);
        }
        if i == 41 {
            reveal_strlit("💬");
            assert(t[i].emoji@ =~= seq!['\u{1f4ac}']);
        }
        if i == 42 {
            reveal_strlit("🗃️");
            assert(t[i].emoji@ =~= seq!['\u{1f5c3}', '\u{fe0f}']);
        }
        if i == 43 {
            reveal_strlit("🔊");
            assert(t[i].emoji@ =~= seq!['\u{1f50a}']);
        }
        if i == 44 {
            reveal_strlit("🔇");
            assert(t[i].emoji@ =~= seq!['\u{1f507}']);
        }
        if i == 45 {
            reveal_strlit("👥");
            assert(t[i].emoji@ =~= seq!['\u{1f465}']);
        }
        if i == 46 {
            reveal_strlit("🚸");
            assert(t[i].emoji@ =~= seq!['\u{1f6b8}']);
        }
        if i == 47 {
            reveal_strlit("🏗️");
            assert(t[i].emoji@ =~= seq!['\u{1f3d7}', '\u{fe0f}']);
        }
        if i == 48 {
            reveal_strlit("📱");
            assert(t[i].emoji@ =~= seq!['\u{1f4f1}']);
        }
        if i == 49 {
            reveal_strlit("🤡");
            assert(t[i].emoji@ =~= seq!['\u{1f921}']);
        }
        if i == 50 {
            reveal_strlit("🥚");
            assert(t[i].emoji@ =~= seq!['\u{1f95a}']);
        }
        if i == 51 {
            reveal_strlit("🙈");
            assert(t[i].emoji@ =~= seq!['\u{1f648}']);
        }
        if i == 52 {
            reveal_strlit("📸");
            assert(t[i].emoji@ =~= seq!['\u{1f4f8}']);
        }
        if i == 53 {
            reveal_strlit("⚗️");
            assert(t[i].emoji@ =~= seq!['\u{2697}', '\u{fe0f}']);
        }
        if i == 54 {
            reveal_strlit("🔍️");
            assert(t[i].emoji@ =~= seq!['\u{1f50d}', '\u{fe0f}']);
        }
        if i == 55 {
            reveal_strlit("🏷️");
            assert(t[i].emoji@ =~= seq!['\u{1f3f7}', '\u{fe0f}']);
        }
        if i == 56 {
            reveal_strlit("🌱");
            assert(t[i].emoji@ =~= seq!['\u{1f331}']);
        }
        if i == 57 {
            reveal_strlit("🚩");
            assert(t[i].emoji@ =~= seq!['\u{1f6a9}']);
        }
        if i == 58 {
            reveal_strlit("🥅");
            assert(t[i].emoji@ =~= seq!['\u{1f945}']);
        }
        if i == 59 {
            reveal_strlit("💫");
            assert(t[i].emoji@ =~= seq!['\u{1f4ab}']);
        }
        if i == 60 {
            reveal_strlit("🗑️");
            assert(t[i].emoji@ =~= seq!['\u{1f5d1}', '\u{fe0f}']);
        }
        if i == 61 {
            reveal_strlit("🛂");
            assert(t[i].emoji@ =~= seq!['\u{1f6c2}']);
        }
        if i == 62 {
            reveal_strlit("🩹");
            assert(t[i].emoji@ =~= seq!['\u{1fa79}']);
        }
        if i == 63 {
            reveal_strlit("🧐");
            assert(t[i].emoji@ =~= seq!['\u{1f9d0}']);
        }
        if i == 64 {
            reveal_strlit("⚰️");
            assert(t[i].emoji@ =~= seq!['\u{26b0}', '\u{fe0f}']);
        }
        if i == 65 {
            reveal_strlit("🧪");
            assert(t[i].emoji@ =~= seq!['\u{1f9ea}']);
        }
        if i == 66 {
            reveal_strlit("👔");
            assert(t[i].emoji@ =~= seq!['\u{1f454}']);
        }
        if i == 67 {
            reveal_strlit("🩺");
            assert(t[i].emoji@ =~= seq!['\u{1fa7a}']);
        }
        if i == 68 {
            reveal_strlit("🧱");
            assert(t[i].emoji@ =~= seq!['\u{1f9f1}']);
        }
        if i == 69 {
            reveal_strlit("🧑‍💻");
            assert(t[i].emoji@ =~= seq!['\u{1f9d1}', '\u{200d}', '\u{1f4bb}']);
        }
        if i == 70 {
            reveal_strlit("💸");
            assert(t[i].emoji@ =~= seq!['\u{1f4b8}']);
        }
        if i == 71 {
            reveal_strlit("🧵");
            assert(t[i].emoji@ =~= seq!['\u{1f9f5}']);
        }
        if i == 72 {
            reveal_strlit("🦺");
            assert(t[i].emoji@ =~= seq!['\u{1f9ba}']);
        }
        if i == 73 {
            reveal_strlit("✈️");
            assert(t[i].emoji@ =~= seq!['\u{2708}', '\u{fe0f}']);
        }
        if i == 74 {
            reveal_strlit("🦖");
            assert(t[i].emoji@ =~= seq!['\u{1f996}']);
        }
    }
}

/// The length of a shortcode and the three characters after its colon.
pub open spec fn code_print(code: Seq<char>) -> (nat, char, char, char) {
    (code.len(), code[1], code[2], code[3])
}

/// The table position a shortcode print belongs to, or -1.
pub open spec fn code_rank(p: (nat, char, char, char)) -> int {
    if p == (5nat, 'a', 'r', 't') {
        6
    } else if p == (5nat, 'z', 'a', 'p') {
        7
    } else if p == (6nat, 'f', 'i', 'r') {
        5
    } else if p == (5nat, 'b', 'u', 'g') {
        1
    } else if p == (11nat, 'a', 'm', 'b') {
        2
    } else if p == (10nat, 's', 'p', 'a') {
        0
    } else if p == (6nat, 'm', 'e', 'm') {
        3
    } else if p == (8nat, 'r', 'o', 'c') {
        8
    } else if p == (10nat, 'l', 'i', 'p') {
        9
    } else if p == (6nat, 't', 'a', 'd') {
        10
    } else if p == (18nat, 'w', 'h', 'i') {
        11
    } else if p == (6nat, 'l', 'o', 'c') {
        12
    } else if p == (22nat, 'c', 'l', 'o') {
        13
    } else if p == (10nat, 'b', 'o', 'o') {
        14
    } else if p == (16nat, 'r', 'o', 't') {
        15
    } else if p == (14nat, 'c', 'o', 'n') {
        16
    } else if p == (13nat, 'g', 'r', 'e') {
        17
    } else if p == (12nat, 'a', 'r', 'r') {
        18
    } else if p == (10nat, 'a', 'r', 'r') {
        19
    } else if p == (9nat, 'p', 'u', 's') {
        20
    } else if p == (21nat, 'c', 'o', 'n') {
        21
    } else if p == (26nat, 'c', 'h', 'a') {
        22
    } else if p == (9nat, 'r', 'e', 'c') {
        4
    } else if p == (17nat, 'h', 'e', 'a') {
        23
    } else if p == (18nat, 'h', 'e', 'a') {
        24
    } else if p == (8nat, 'w', 'r', 'e') {
        25
    } else if p == (8nat, 'h', 'a', 'm') {
        26
    } else if p == (22nat, 'g', 'l', 'o') {
        27
    } else if p == (9nat, 'p', 'e', 'n') {
        28
    } else if p == (6nat, 'p', 'o', 'o') {
        29
    } else if p == (8nat, 'r', 'e', 'w') {
        30
    } else if p == (27nat, 't', 'w', 'i') {
        31
    } else if p == (9nat, 'p', 'a', 'c') {
        32
    } else if p == (7nat, 'a', 'l', 'i') {
        33
    } else if p == (7nat, 't', 'r', 'u') {
        34
    } else if p == (16nat, 'p', 'a', 'g') {
        35
    } else if p == (6nat, 'b', 'o', 'o') {
        36
    } else if p == (7nat, 'b', 'e', 'n') {
        37
    } else if p == (12nat, 'w', 'h', 'e') {
        38
    } else if p == (6nat, 'b', 'u', 'l') {
        39
    } else if p == (7nat, 'b', 'e', 'e') {
        40
    } else if p == (16nat, 's', 'p', 'e') {
        41
    } else if p == (15nat, 'c', 'a', 'r') {
        42
    } else if p == (12nat, 'l', 'o', 'u') {
        43
    } else if p == (6nat, 'm', 'u', 't') {
        44
    } else if p == (21nat, 'b', 'u', 's') {
        45
    } else if p == (19nat, 'c', 'h', 'i') {
        46
    } else if p == (23nat, 'b', 'u', 'i') {
        47
    } else if p == (8nat, 'i', 'p', 'h') {
        48
    } else if p == (12nat, 'c', 'l', 'o') {
        49
    } else if p == (5nat, 'e', 'g', 'g') {
        50
    } else if p == (13nat, 's', 'e', 'e') {
        51
    } else if p == (14nat, 'c', 'a', 'm') {
        52
    } else if p == (9nat, 'a', 'l', 'e') {
        53
    } else if p == (5nat, 'm', 'a', 'g') {
        54
    } else if p == (7nat, 'l', 'a', 'b') {
        55
    } else if p == (10nat, 's', 'e', 'e') {
        56
    } else if p == (25nat, 't', 'r', 'i') {
        57
    } else if p == (10nat, 'g', 'o', 'a') {
        58
    } else if p == (7nat, 'd', 'i', 'z') {
        59
    } else if p == (13nat, 'w', 'a', 's') {
        60
    } else if p == (18nat, 'p', 'a', 's') {
        61
    } else if p == (18nat, 'a', 'd', 'h') {
        62
    } else if p == (14nat, 'm', 'o', 'n') {
        63
    } else if p == (8nat, 'c', 'o', 'f') {
        64
    } else if p == (11nat, 't', 'e', 's') {
        65
    } else if p == (9nat, 'n', 'e', 'c') {
        66
    } else if p == (13nat, 's', 't', 'e') {
        67
    } else if p == (8nat, 'b', 'r', 'i') {
        68
    } else if p == (14nat, 't', 'e', 'c') {
        69
    } else if p == (18nat, 'm', 'o', 'n') {
        70
    } else if p == (8nat, 't', 'h', 'r') {
        71
    } else if p == (13nat, 's', 'a', 'f') {
        72
    } else if p == (10nat, 'a', 'i', 'r') {
        73
    } else if p == (7nat, 't', '-', 'r') {
        74
    } else {
        -1
    }
}

/// The table position an emoji's first character belongs to, or -1.
pub open spec fn emoji_rank(e: char) -> int {
    if e == '\u{1f3a8}' {
        6
    } else if e == '\u{26a1}' {
        7
    } else if e == '\u{1f525}' {
        5
    } else if e == '\u{1f41b}' {
        1
    } else if e == '\u{1f691}' {
        2
    } else if e == '\u{2728}' {
        0
    } else if e == '\u{1f4dd}' {
        3
    } else if e == '\u{1f680}' {
        8
    } else if e == '\u{1f484}' {
        9
    } else if e == '\u{1f389}' {
        10
    } else if e == '\u{2705}' {
        11
    } else if e == '\u{1f512}' {
        12
    } else if e == '\u{1f510}' {
        13
    } else if e == '\u{1f516}' {
        14
    } else if e == '\u{1f6a8}' {
        15
    } else if e == '\u{1f6a7}' {
        16
    } else if e == '\u{1f49a}' {
        17
    } else if e == '\u{2b07}' {
        18
    } else if e == '\u{2b06}' {
        19
    } else if e == '\u{1f4cc}' {
        20
    } else if e == '\u{1f477}' {
        21
    } else if e == '\u{1f4c8}' {
        22
    } else if e == '\u{267b}' {
        4
    } else if e == '\u{2795}' {
        23
    } else if e == '\u{2796}' {
        24
    } else if e == '\u{1f527}' {
        25
    } else if e == '\u{1f528}' {
        26
    } else if e == '\u{1f310}' {
        27
    } else if e == '\u{270f}' {
        28
    } else if e == '\u{1f4a9}' {
        29
    } else if e == '\u{23ea}' {
        30
    } else if e == '\u{1f500}' {
        31
    } else if e == '\u{1f4e6}' {
        32
    } else if e == '\u{1f47d}' {
        33
    } else if e == '\u{1f69a}' {
        34
    } else if e == '\u{1f4c4}' {
        35
    } else if e == '\u{1f4a5}' {
        36
    } else if e == '\u{1f371}' {
        37
    } else if e == '\u{267f}' {
        38
    } else if e == '\u{1f4a1}' {
        39
    } else if e == '\u{1f37b}' {
        40
    } else if e == '\u{1f4ac}' {
        41
    } else if e == '\u{1f5c3}' {
        42
    } else if e == '\u{1f50a}' {
        43
    } else if e == '\u{1f507}' {
        44
    } else if e == '\u{1f465}' {
        45
    } else if e == '\u{1f6b8}' {
        46
    } else if e == '\u{1f3d7}' {
        47
    } else if e == '\u{1f4f1}' {
        48
    } else if e == '\u{1f921}' {
        49
    } else if e == '\u{1f95a}' {
        50
    } else if e == '\u{1f648}' {
        51
    } else if e == '\u{1f4f8}' {
        52
    } else if e == '\u{2697}' {
        53
    } else if e == '\u{1f50d}' {
        54
    } else if e == '\u{1f3f7}' {
        55
    } else if e == '\u{1f331}' {
        56
    } else if e == '\u{1f6a9}' {
        57
    } else if e == '\u{1f945}' {
        58
    } else if e == '\u{1f4ab}' {
        59
    } else if e == '\u{1f5d1}' {
        60
    } else if e == '\u{1f6c2}' {
        61
    } else if e == '\u{1fa79}' {
        62
    } else if e == '\u{1f9d0}' {
        63
    } else if e == '\u{26b0}' {
        64
    } else if e == '\u{1f9ea}' {
        65
    } else if e == '\u{1f454}' {
        66
    } else if e == '\u{1fa7a}' {
        67
    } else if e == '\u{1f9f1}' {
        68
    } else if e == '\u{1f9d1}' {
        69
    } else if e == '\u{1f4b8}' {
        70
    } else if e == '\u{1f9f5}' {
        71
    } else if e == '\u{1f9ba}' {
        72
    } else if e == '\u{2708}' {
        73
    } else if e == '\u{1f996}' {
        74
    } else {
        -1
    }
}

/// Each entry's shortcode print and first emoji character lead back to its
/// position.
proof fn lemma_table_ranks()
    ensures
        forall|i: int|
            0 <= i < gitmoji_table().len() ==> code_rank(
                code_print((#[trigger] gitmoji_table()[i]).code@),
            ) == i && gitmoji_table()[i].emoji@.len() > 0 && emoji_rank(
                gitmoji_table()[i].emoji@[0],
            ) == i && gitmoji_table()[i].code@.len() > 0 && gitmoji_table()[i].code@[0] == ':',
{
    let t = gitmoji_table();
    assert(t.len() == 75);
    assert forall|i: int| 0 <= i < t.len() implies code_rank(code_print((#[trigger] t[i]).code@))
        == i && t[i].emoji@.len() > 0 && emoji_rank(t[i].emoji@[0]) == i && t[i].code@.len() > 0
        && t[i].code@[0] == ':' by {
        if i == 0 {
            reveal_strlit(":sparkles:");
            reveal_strlit("✨");
            assert(t[i].code@ =~= seq!['\u{3a}', 's', 'p', 'a', 'r', 'k', 'l', 'e', 's', '\u{3a}']);
            assert(t[i].emoji@ =~= seq!['\u{2728}']);
        }
        if i == 1 {
            reveal_strlit(":bug:");
            reveal_strlit("🐛");
            assert(t[i].code@ =~= seq!['\u{3a}', 'b', 'u', 'g', '\u{3a}']);
            assert(t[i].emoji@ =~= seq!['\u{1f41b}']);
        }
        if i == 2 {
            reveal_strlit(":ambulance:");
            reveal_strlit("🚑️");
            assert(t[i].code@ =~= seq!['\u{3a}', 'a', 'm', 'b', 'u', 'l', 'a', 'n', 'c', 'e', '\u{3a}']);
            assert(t[i].emoji@ =~= seq!['\u{1f691}', '\u{fe0f}']);
        }
        if i == 3 {
            reveal_strlit(":memo:");
            reveal_strlit("📝");
            assert(t[i].code@ =~= seq!['\u{3a}', 'm', 'e', 'm', 'o', '\u{3a}']);
            assert(t[i].emoji@ =~= seq!['\u{1f4dd}']);
        }
        if i == 4 {
            reveal_strlit(":recycle:");
            reveal_strlit("♻️");
            assert(t[i].code@ =~= seq!['\u{3a}', 'r', 'e', 'c', 'y', 'c', 'l', 'e', '\u{3a}']);
            assert(t[i].emoji@ =~= seq!['\u{267b}', '\u{fe0f}']);
        }
        if i == 5 {
            reveal_strlit(":fire:");
            reveal_strlit("🔥");
            assert(t[i].code@ =~= seq!['\u{3a}', 'f', 'i', 'r', 'e', '\u{3a}']);
            assert(t[i].emoji@ =~= seq!['\u{1f525}']);
        }
        if i == 6 {
            reveal_strlit(":art:");
            reveal_strlit("🎨");
            assert(t[i].code@ =~= seq!['\u{3a}', 'a', 'r', 't', '\u{3a}']);
            assert(t[i].emoji@ =~= seq!['\u{1f3a8}']);
        }
        if i == 7 {
            reveal_strlit(":zap:");
            reveal_strlit("⚡️");
            assert(t[i].code@ =~= seq!['\u{3a}', 'z', 'a', 'p', '\u{3a}']);
            assert(t[i].emoji@ =~= seq!['\u{26a1}', '\u{fe0f}']);
        }
        if i == 8 {
            reveal_strlit(":rocket:");
            reveal_strlit("🚀");
            assert(t[i].code@ =~= seq!['\u{3a}', 'r', 'o', 'c', 'k', 'e', 't', '\u{3a}']);
            assert(t[i].emoji@ =~= seq!['\u{1f680}']);
        }
        if i == 9 {
            reveal_strlit(":lipstick:");
            reveal_strlit("💄");
            assert(t[i].code@ =~= seq!['\u{3a}', 'l', 'i', 'p', 's', 't', 'i', 'c', 'k', '\u{3a}']);
            assert(t[i].emoji@ =~= seq!['\u{1f484}']);
        }
        if i == 10 {
            reveal_strlit(":tada:");
            reveal_strlit("🎉");
            assert(t[i].code@ =~= seq!['\u{3a}', 't', 'a', 'd', 'a', '\u{3a}']);
            assert(t[i].emoji@ =~= seq!['\u{1f389}']);
        }
        if i == 11 {
            reveal_strlit(":white_check_mark:");
            reveal_strlit("✅");
            assert(t[i].code@ =~= seq!['\u{3a}', 'w', 'h', 'i', 't', 'e', '_', 'c', 'h', 'e', 'c', 'k', '_', 'm', 'a', 'r', 'k', '\u{3a}']);
            assert(t[i].emoji@ =~= seq!['\u{2705}']);
        }
        if i == 12 {
            reveal_strlit(":lock:");
            reveal_strlit("🔒️");
            assert(t[i].code@ =~= seq!['\u{3a}', 'l', 'o', 'c', 'k', '\u{3a}']);
            assert(t[i].emoji@ =~= seq!['\u{1f512}', '\u{fe0f}']);
        }
        if i == 13 {
            reveal_strlit(":closed_lock_with_key:");
            reveal_strlit("🔐");
            assert(t[i].code@ =~= seq!['\u{3a}', 'c', 'l', 'o', 's', 'e', 'd', '_', 'l', 'o', 'c', 'k', '_', 'w', 'i', 't', 'h', '_', 'k', 'e', 'y', '\u{3a}']);
            assert(t[i].emoji@ =~= seq!['\u{1f510}']);
        }
        if i == 14 {
            reveal_strlit(":bookmark:");
            reveal_strlit("🔖");
            assert(t[i].code@ =~= seq!['\u{3a}', 'b', 'o', 'o', 'k', 'm', 'a', 'r', 'k', '\u{3a}']);
            assert(t[i].emoji@ =~= seq!['\u{1f516}']);
        }
        if i == 15 {
            reveal_strlit(":rotating_light:");
            reveal_strlit("🚨");
            assert(t[i].code@ =~= seq!['\u{3a}', 'r', 'o', 't', 'a', 't', 'i', 'n', 'g', '_', 'l', 'i', 'g', 'h', 't', '\u{3a}']);
            assert(t[i].emoji@ =~= seq!['\u{1f6a8}']);
        }
        if i == 16 {
            reveal_strlit(":construction:");
            reveal_strlit("🚧");
            assert(t[i].code@ =~= seq!['\u{3a}', 'c', 'o', 'n', 's', 't', 'r', 'u', 'c', 't', 'i', 'o', 'n', '\u{3a}']);
            assert(t[i].emoji@ =~= seq!['\u{1f6a7}']);
        }
        if i == 17 {
            reveal_strlit(":green_heart:");
            reveal_strlit("💚");
            assert(t[i].code@ =~= seq!['\u{3a}', 'g', 'r', 'e', 'e', 'n', '_', 'h', 'e', 'a', 'r', 't', '\u{3a}']);
            assert(t[i].emoji@ =~= seq!['\u{1f49a}']);
        }
        if i == 18 {
            reveal_strlit(":arrow_down:");
            reveal_strlit("⬇️");
            assert(t[i].code@ =~= seq!['\u{3a}', 'a', 'r', 'r', 'o', 'w', '_', 'd', 'o', 'w', 'n', '\u{3a}']);
            assert(t[i].emoji@ =~= seq!['\u{2b07}', '\u{fe0f}']);
        }
        if i == 19 {
            reveal_strlit(":arrow_up:");
            reveal_strlit("⬆️");
            assert(t[i].code@ =~= seq!['\u{3a}', 'a', 'r', 'r', 'o', 'w', '_', 'u', 'p', '\u{3a}']);
            assert(t[i].emoji@ =~= seq!['\u{2b06}', '\u{fe0f}']);
        }
        if i == 20 {
            reveal_strlit(":pushpin:");
            reveal_strlit("📌");
            assert(t[i].code@ =~= seq!['\u{3a}', 'p', 'u', 's', 'h', 'p', 'i', 'n', '\u{3a}']);
            assert(t[i].emoji@ =~= seq!['\u{1f4cc}']);
        }
        if i == 21 {
            reveal_strlit(":construction_worker:");
            reveal_strlit("👷");
            assert(t[i].code@ =~= seq!['\u{3a}', 'c', 'o', 'n', 's', 't', 'r', 'u', 'c', 't', 'i', 'o', 'n', '_', 'w', 'o', 'r', 'k', 'e', 'r', '\u{3a}']);
            assert(t[i].emoji@ =~= seq!['\u{1f477}']);
        }
        if i == 22 {
            reveal_strlit(":chart_with_upwards_trend:");
            reveal_strlit("📈");
            assert(t[i].code@ =~= seq!['\u{3a}', 'c', 'h', 'a', 'r', 't', '_', 'w', 'i', 't', 'h', '_', 'u', 'p', 'w', 'a', 'r', 'd', 's', '_', 't', 'r', 'e', 'n', 'd', '\u{3a}']);
            assert(t[i].emoji@ =~= seq!['\u{1f4c8}']);
        }
        if i == 23 {
            reveal_strlit(":heavy_plus_sign:");
            reveal_strlit("➕");
            assert(t[i].code@ =~= seq!['\u{3a}', 'h', 'e', 'a', 'v', 'y', '_', 'p', 'l', 'u', 's', '_', 's', 'i', 'g', 'n', '\u{3a}']);
            assert(t[i].emoji@ =~= seq!['\u{2795}']);
        }
        if i == 24 {
            reveal_strlit(":heavy_minus_sign:");
            reveal_strlit("➖");
            assert(t[i].code@ =~= seq!['\u{3a}', 'h', 'e', 'a', 'v', 'y', '_', 'm', 'i', 'n', 'u', 's', '_', 's', 'i', 'g', 'n', '\u{3a}']);
            assert(t[i].emoji@ =~= seq!['\u{2796}']);
        }
        if i == 25 {
            reveal_strlit(":wrench:");
            reveal_strlit("🔧");
            assert(t[i].code@ =~= seq!['\u{3a}', 'w', 'r', 'e', 'n', 'c', 'h', '\u{3a}']);
            assert(t[i].emoji@ =~= seq!['\u{1f527}']);
        }
        if i == 26 {
            reveal_strlit(":hammer:");
            reveal_strlit("🔨");
            assert(t[i].code@ =~= seq!['\u{3a}', 'h', 'a', 'm', 'm', 'e', 'r', '\u{3a}']);
            assert(t[i].emoji@ =~= seq!['\u{1f528}']);
        }
        if i == 27 {
            reveal_strlit(":globe_with_meridians:");
            reveal_strlit("🌐");
            assert(t[i].code@ =~= seq!['\u{3a}', 'g', 'l', 'o', 'b', 'e', '_', 'w', 'i', 't', 'h', '_', 'm', 'e', 'r', 'i', 'd', 'i', 'a', 'n', 's', '\u{3a}']);
            assert(t[i].emoji@ =~= seq!['\u{1f310}']);
        }
        if i == 28 {
            reveal_strlit(":pencil2:");
            reveal_strlit("✏️");
            assert(t[i].code@ =~= seq!['\u{3a}', 'p', 'e', 'n', 'c', 'i', 'l', '2', '\u{3a}']);
            assert(t[i].emoji@ =~= seq!['\u{270f}', '\u{fe0f}']);
        }
        if i == 29 {
            reveal_strlit(":poop:");
            reveal_strlit("💩");
            assert(t[i].code@ =~= seq!['\u{3a}', 'p', 'o', 'o', 'p', '\u{3a}']);
            assert(t[i].emoji@ =~= seq!['\u{1f4a9}']);
        }
        if i == 30 {
            reveal_strlit(":rewind:");
            reveal_strlit("⏪️");
            assert(t[i].code@ =~= seq!['\u{3a}', 'r', 'e', 'w', 'i', 'n', 'd', '\u{3a}']);
            assert(t[i].emoji@ =~= seq!['\u{23ea}', '\u{fe0f}']);
        }
        if i == 31 {
            reveal_strlit(":twisted_rightwards_arrows:");
            reveal_strlit("🔀");
            assert(t[i].code@ =~= seq!['\u{3a}', 't', 'w', 'i', 's', 't', 'e', 'd', '_', 'r', 'i', 'g', 'h', 't', 'w', 'a', 'r', 'd', 's', '_', 'a', 'r', 'r', 'o', 'w', 's', '\u{3a}']);
            assert(t[i].emoji@ =~= seq!['\u{1f500}']);
        }
        if i == 32 {
            reveal_strlit(":package:");
            reveal_strlit("📦️");
            assert(t[i].code@ =~= seq!['\u{3a}', 'p', 'a', 'c', 'k', 'a', 'g', 'e', '\u{3a}']);
            assert(t[i].emoji@ =~= seq!['\u{1f4e6}', '\u{fe0f}']);
        }
        if i == 33 {
            reveal_strlit(":alien:");
            reveal_strlit("👽️");
            assert(t[i].code@ =~= seq!['\u{3a}', 'a', 'l', 'i', 'e', 'n', '\u{3a}']);
            assert(t[i].emoji@ =~= seq!['\u{1f47d}', '\u{fe0f}']);
        }
        if i == 34 {
            reveal_strlit(":truck:");
            reveal_strlit("🚚");
            assert(t[i].code@ =~= seq!['\u{3a}', 't', 'r', 'u', 'c', 'k', '\u{3a}']);
            assert(t[i].emoji@ =~= seq!['\u{1f69a}']);
        }
        if i == 35 {
            reveal_strlit(":page_facing_up:");
            reveal_strlit("📄");
            assert(t[i].code@ =~= seq!['\u{3a}', 'p', 'a', 'g', 'e', '_', 'f', 'a', 'c', 'i', 'n', 'g', '_', 'u', 'p', '\u{3a}']);
            assert(t[i].emoji@ =~= seq!['\u{1f4c4}']);
        }
        if i == 36 {
            reveal_strlit(":boom:");
            reveal_strlit("💥");
            assert(t[i].code@ =~= seq!['\u{3a}', 'b', 'o', 'o', 'm', '\u{3a}']);
            assert(t[i].emoji@ =~= seq!['\u{1f4a5}']);
        }
        if i == 37 {
            reveal_strlit(":bento:");
            reveal_strlit("🍱");
            assert(t[i].code@ =~= seq!['\u{3a}', 'b', 'e', 'n', 't', 'o', '\u{3a}']);
            assert(t[i].emoji@ =~= seq!['\u{1f371}']);
        }
        if i == 38 {
            reveal_strlit(":wheelchair:");
            reveal_strlit("♿️");
            assert(t[i].code@ =~= seq!['\u{3a}', 'w', 'h', 'e', 'e', 'l', 'c', 'h', 'a', 'i', 'r', '\u{3a}']);
            assert(t[i].emoji@ =~= seq!['\u{267f}', '\u{fe0f}']);
        }
        if i == 39 {
            reveal_strlit(":bulb:");
            reveal_strlit("💡");
            assert(t[i].code@ =~= seq!['\u{3a}', 'b', 'u', 'l', 'b', '\u{3a}']);
            assert(t[i].emoji@ =~= seq!['\u{1f4a1}']);
        }
        if i == 40 {
            reveal_strlit(":beers:");
            reveal_strlit("🍻");
            assert(t[i].code@ =~= seq!['\u{3a}', 'b', 'e', 'e', 'r', 's', '\u{3a}']);
            assert(t[i].emoji@ =~= seq!['\u{1f37b}']);
        }
        if i == 41 {
            reveal_strlit(":speech_balloon:");
            reveal_strlit("💬");
            assert(t[i].code@ =~= seq!['\u{3a}', 's', 'p', 'e', 'e', 'c', 'h', '_', 'b', 'a', 'l', 'l', 'o', 'o', 'n', '\u{3a}']);
            assert(t[i].emoji@ =~= seq!['\u{1f4ac}']);
        }
        if i == 42 {
            reveal_strlit(":card_file_box:");
            reveal_strlit("🗃️");
            assert(t[i].code@ =~= seq!['\u{3a}', 'c', 'a', 'r', 'd', '_', 'f', 'i', 'l', 'e', '_', 'b', 'o', 'x', '\u{3a}']);
            assert(t[i].emoji@ =~= seq!['\u{1f5c3}', '\u{fe0f}']);
        }
        if i == 43 {
            reveal_strlit(":loud_sound:");
            reveal_strlit("🔊");
            assert(t[i].code@ =~= seq!['\u{3a}', 'l', 'o', 'u', 'd', '_', 's', 'o', 'u', 'n', 'd', '\u{3a}']);
            assert(t[i].emoji@ =~= seq!['\u{1f50a}']);
        }
        if i == 44 {
            reveal_strlit(":mute:");
            reveal_strlit("🔇");
            assert(t[i].code@ =~= seq!['\u{3a}', 'm', 'u', 't', 'e', '\u{3a}']);
            assert(t[i].emoji@ =~= seq!['\u{1f507}']);
        }
        if i == 45 {
            reveal_strlit(":busts_in_silhouette:");
            reveal_strlit("👥");
            assert(t[i].code@ =~= seq!['\u{3a}', 'b', 'u', 's', 't', 's', '_', 'i', 'n', '_', 's', 'i', 'l', 'h', 'o', 'u', 'e', 't', 't', 'e', '\u{3a}']);
            assert(t[i].emoji@ =~= seq!['\u{1f465}']);
        }
        if i == 46 {
            reveal_strlit(":children_crossing:");
            reveal_strlit("🚸");
            assert(t[i].code@ =~= seq!['\u{3a}', 'c', 'h', 'i', 'l', 'd', 'r', 'e', 'n', '_', 'c', 'r', 'o', 's', 's', 'i', 'n', 'g', '\u{3a}']);
            assert(t[i].emoji@ =~= seq!['\u{1f6b8}']);
        }
        if i == 47 {
            reveal_strlit(":building_construction:");
            reveal_strlit("🏗️");
            assert(t[i].code@ =~= seq!['\u{3a}', 'b', 'u', 'i', 'l', 'd', 'i', 'n', 'g', '_', 'c', 'o', 'n', 's', 't', 'r', 'u', 'c', 't', 'i', 'o', 'n', '\u{3a}']);
            assert(t[i].emoji@ =~= seq!['\u{1f3d7}', '\u{fe0f}']);
        }
        if i == 48 {
            reveal_strlit(":iphone:");
            reveal_strlit("📱");
            assert(t[i].code@ =~= seq!['\u{3a}', 'i', 'p', 'h', 'o', 'n', 'e', '\u{3a}']);
            assert(t[i].emoji@ =~= seq!['\u{1f4f1}']);
        }
        if i == 49 {
            reveal_strlit(":clown_face:");
            reveal_strlit("🤡");
            assert(t[i].code@ =~= seq!['\u{3a}', 'c', 'l', 'o', 'w', 'n', '_', 'f', 'a', 'c', 'e', '\u{3a}']);
            assert(t[i].emoji@ =~= seq!['\u{1f921}']);
        }
        if i == 50 {
            reveal_strlit(":egg:");
            reveal_strlit("🥚");
            assert(t[i].code@ =~= seq!['\u{3a}', 'e', 'g', 'g', '\u{3a}']);
            assert(t[i].emoji@ =~= seq!['\u{1f95a}']);
        }
        if i == 51 {
            reveal_strlit(":see_no_evil:");
            reveal_strlit("🙈");
            assert(t[i].code@ =~= seq!['\u{3a}', 's', 'e', 'e', '_', 'n', 'o', '_', 'e', 'v', 'i', 'l', '\u{3a}']);
            assert(t[i].emoji@ =~= seq!['\u{1f648}']);
        }
        if i == 52 {
            reveal_strlit(":camera_flash:");
            reveal_strlit("📸");
            assert(t[i].code@ =~= seq!['\u{3a}', 'c', 'a', 'm', 'e', 'r', 'a', '_', 'f', 'l', 'a', 's', 'h', '\u{3a}']);
            assert(t[i].emoji@ =~= seq!['\u{1f4f8}']);
        }
        if i == 53 {
            reveal_strlit(":alembic:");
            reveal_strlit("⚗️");
            assert(t[i].code@ =~= seq!['\u{3a}', 'a', 'l', 'e', 'm', 'b', 'i', 'c', '\u{3a}']);
            assert(t[i].emoji@ =~= seq!['\u{2697}', '\u{fe0f}']);
        }
        if i == 54 {
            reveal_strlit(":mag:");
            reveal_strlit("🔍️");
            assert(t[i].code@ =~= seq!['\u{3a}', 'm', 'a', 'g', '\u{3a}']);
            assert(t[i].emoji@ =~= seq!['\u{1f50d}', '\u{fe0f}']);
        }
        if i == 55 {
            reveal_strlit(":label:");
            reveal_strlit("🏷️");
            assert(t[i].code@ =~= seq!['\u{3a}', 'l', 'a', 'b', 'e', 'l', '\u{3a}']);
            assert(t[i].emoji@ =~= seq!['\u{1f3f7}', '\u{fe0f}']);
        }
        if i == 56 {
            reveal_strlit(":seedling:");
            reveal_strlit("🌱");
            assert(t[i].code@ =~= seq!['\u{3a}', 's', 'e', 'e', 'd', 'l', 'i', 'n', 'g', '\u{3a}']);
            assert(t[i].emoji@ =~= seq!['\u{1f331}']);
        }
        if i == 57 {
            reveal_strlit(":triangular_flag_on_post:");
            reveal_strlit("🚩");
            assert(t[i].code@ =~= seq!['\u{3a}', 't', 'r', 'i', 'a', 'n', 'g', 'u', 'l', 'a', 'r', '_', 'f', 'l', 'a', 'g', '_', 'o', 'n', '_', 'p', 'o', 's', 't', '\u{3a}']);
            assert(t[i].emoji@ =~= seq!['\u{1f6a9}']);
        }
        if i == 58 {
            reveal_strlit(":goal_net:");
            reveal_strlit("🥅");
            assert(t[i].code@ =~= seq!['\u{3a}', 'g', 'o', 'a', 'l', '_', 'n', 'e', 't', '\u{3a}']);
            assert(t[i].emoji@ =~= seq!['\u{1f945}']);
        }
        if i == 59 {
            reveal_strlit(":dizzy:");
            reveal_strlit("💫");
            assert(t[i].code@ =~= seq!['\u{3a}', 'd', 'i', 'z', 'z', 'y', '\u{3a}']);
            assert(t[i].emoji@ =~= seq!['\u{1f4ab}']);
        }
        if i == 60 {
            reveal_strlit(":wastebasket:");
            reveal_strlit("🗑️");
            assert(t[i].code@ =~= seq!['\u{3a}', 'w', 'a', 's', 't', 'e', 'b', 'a', 's', 'k', 'e', 't', '\u{3a}']);
            assert(t[i].emoji@ =~= seq!['\u{1f5d1}', '\u{fe0f}']);
        }
        if i == 61 {
            reveal_strlit(":passport_control:");
            reveal_strlit("🛂");
            assert(t[i].code@ =~= seq!['\u{3a}', 'p', 'a', 's', 's', 'p', 'o', 'r', 't', '_', 'c', 'o', 'n', 't', 'r', 'o', 'l', '\u{3a}']);
            assert(t[i].emoji@ =~= seq!['\u{1f6c2}']);
        }
        if i == 62 {
            reveal_strlit(":adhesive_bandage:");
            reveal_strlit("🩹");
            assert(t[i].code@ =~= seq!['\u{3a}', 'a', 'd', 'h', 'e', 's', 'i', 'v', 'e', '_', 'b', 'a', 'n', 'd', 'a', 'g', 'e', '\u{3a}']);
            assert(t[i].emoji@ =~= seq!['\u{1fa79}']);
        }
        if i == 63 {
            reveal_strlit(":monocle_face:");
            reveal_strlit("🧐");
            assert(t[i].code@ =~= seq!['\u{3a}', 'm', 'o', 'n', 'o', 'c', 'l', 'e', '_', 'f', 'a', 'c', 'e', '\u{3a}']);
            assert(t[i].emoji@ =~= seq!['\u{1f9d0}']);
        }
        if i == 64 {
            reveal_strlit(":coffin:");
            reveal_strlit("⚰️");
            assert(t[i].code@ =~= seq!['\u{3a}', 'c', 'o', 'f', 'f', 'i', 'n', '\u{3a}']);
            assert(t[i].emoji@ =~= seq!['\u{26b0}', '\u{fe0f}']);
        }
        if i == 65 {
            reveal_strlit(":test_tube:");
            reveal_strlit("🧪");
            assert(t[i].code@ =~= seq!['\u{3a}', 't', 'e', 's', 't', '_', 't', 'u', 'b', 'e', '\u{3a}']);
            assert(t[i].emoji@ =~= seq!['\u{1f9ea}']);
        }
        if i == 66 {
            reveal_strlit(":necktie:");
            reveal_strlit("👔");
            assert(t[i].code@ =~= seq!['\u{3a}', 'n', 'e', 'c', 'k', 't', 'i', 'e', '\u{3a}']);
            assert(t[i].emoji@ =~= seq!['\u{1f454}']);
        }
        if i == 67 {
            reveal_strlit(":stethoscope:");
            reveal_strlit("🩺");
            assert(t[i].code@ =~= seq!['\u{3a}', 's', 't', 'e', 't', 'h', 'o', 's', 'c', 'o', 'p', 'e', '\u{3a}']);
            assert(t[i].emoji@ =~= seq!['\u{1fa7a}']);
        }
        if i == 68 {
            reveal_strlit(":bricks:");
            reveal_strlit("🧱");
            assert(t[i].code@ =~= seq!['\u{3a}', 'b', 'r', 'i', 'c', 'k', 's', '\u{3a}']);
            assert(t[i].emoji@ =~= seq!['\u{1f9f1}']);
        }
        if i == 69 {
            reveal_strlit(":technologist:");
            reveal_strlit("🧑‍💻");
            assert(t[i].code@ =~= seq!['\u{3a}', 't', 'e', 'c', 'h', 'n', 'o', 'l', 'o', 'g', 'i', 's', 't', '\u{3a}']);
            assert(t[i].emoji@ =~= seq!['\u{1f9d1}', '\u{200d}', '\u{1f4bb}']);
        }
        if i == 70 {
            reveal_strlit(":money_with_wings:");
            reveal_strlit("💸");
            assert(t[i].code@ =~= seq!['\u{3a}', 'm', 'o', 'n', 'e', 'y', '_', 'w', 'i', 't', 'h', '_', 'w', 'i', 'n', 'g', 's', '\u{3a}']);
            assert(t[i].emoji@ =~= seq!['\u{1f4b8}']);
        }
        if i == 71 {
            reveal_strlit(":thread:");
            reveal_strlit("🧵");
            assert(t[i].code@ =~= seq!['\u{3a}', 't', 'h', 'r', 'e', 'a', 'd', '\u{3a}']);
            assert(t[i].emoji@ =~= seq!['\u{1f9f5}']);
        }
        if i == 72 {
            reveal_strlit(":safety_vest:");
            reveal_strlit("🦺");
            assert(t[i].code@ =~= seq!['\u{3a}', 's', 'a', 'f', 'e', 't', 'y', '_', 'v', 'e', 's', 't', '\u{3a}']);
            assert(t[i].emoji@ =~= seq!['\u{1f9ba}']);
        }
        if i == 73 {
            reveal_strlit(":airplane:");
            reveal_strlit("✈️");
            assert(t[i].code@ =~= seq!['\u{3a}', 'a', 'i', 'r', 'p', 'l', 'a', 'n', 'e', '\u{3a}']);
            assert(t[i].emoji@ =~= seq!['\u{2708}', '\u{fe0f}']);
        }
        if i == 74 {
            reveal_strlit(":t-rex:");
            reveal_strlit("🦖");
            assert(t[i].code@ =~= seq!['\u{3a}', 't', '-', 'r', 'e', 'x', '\u{3a}']);
            assert(t[i].emoji@ =~= seq!['\u{1f996}']);
        }
    }
}

/// A character of a shortcode's name in the table: an ASCII lowercase letter,
/// a digit, `_` or `-`.
pub open spec fn is_table_name_char(c: char) -> bool {
    ||| ('a' <= c && c <= 'z')
    ||| ('0' <= c && c <= '9')
    ||| c == '_'
    ||| c == '-'
}

/// The shape of every shortcode of the table: `:`, a non-empty name of
/// lowercase letters, digits, `_` and `-`, and `:`.
pub open spec fn shortcode_shape(code: Seq<char>) -> bool {
    &&& code.len() >= 3
    &&& code[0] == ':'
    &&& code[code.len() - 1] == ':'
    &&& forall|j: int| 1 <= j < code.len() - 1 ==> is_table_name_char(#[trigger] code[j])
}

/// Every shortcode of the table has that shape.
pub proof fn lemma_table_codes_shaped()
    ensures
        forall|i: int|
            0 <= i < gitmoji_table().len() ==> shortcode_shape(
                (#[trigger] gitmoji_table()[i]).code@,
            ),
{
    let t = gitmoji_table();
    assert(t.len() == 75);
    assert forall|i: int| 0 <= i < t.len() implies shortcode_shape((#[trigger] t[i]).code@) by {
        if i == 0 {
            reveal_strlit(":sparkles:");
            assert(t[i].code@ =~= seq!['\u{3a}', 's', 'p', 'a', 'r', 'k', 'l', 'e', 's', '\u{3a}']);
        }
        if i == 1 {
            reveal_strlit(":bug:");
            assert(t[i].code@ =~= seq!['\u{3a}', 'b', 'u', 'g', '\u{3a}']);
        }
        if i == 2 {
            reveal_strlit(":ambulance:");
            assert(t[i].code@ =~= seq!['\u{3a}', 'a', 'm', 'b', 'u', 'l', 'a', 'n', 'c', 'e', '\u{3a}']);
        }
        if i == 3 {
            reveal_strlit(":memo:");
            assert(t[i].code@ =~= seq!['\u{3a}', 'm', 'e', 'm', 'o', '\u{3a}']);
        }
        if i == 4 {
            reveal_strlit(":recycle:");
            assert(t[i].code@ =~= seq!['\u{3a}', 'r', 'e', 'c', 'y', 'c', 'l', 'e', '\u{3a}']);
        }
        if i == 5 {
            reveal_strlit(":fire:");
            assert(t[i].code@ =~= seq!['\u{3a}', 'f', 'i', 'r', 'e', '\u{3a}']);
        }
        if i == 6 {
            reveal_strlit(":art:");
            assert(t[i].code@ =~= seq!['\u{3a}', 'a', 'r', 't', '\u{3a}']);
        }
        if i == 7 {
            reveal_strlit(":zap:");
            assert(t[i].code@ =~= seq!['\u{3a}', 'z', 'a', 'p', '\u{3a}']);
        }
        if i == 8 {
            reveal_strlit(":rocket:");
            assert(t[i].code@ =~= seq!['\u{3a}', 'r', 'o', 'c', 'k', 'e', 't', '\u{3a}']);
        }
        if i == 9 {
            reveal_strlit(":lipstick:");
            assert(t[i].code@ =~= seq!['\u{3a}', 'l', 'i', 'p', 's', 't', 'i', 'c', 'k', '\u{3a}']);
        }
        if i == 10 {
            reveal_strlit(":tada:");
            assert(t[i].code@ =~= seq!['\u{3a}', 't', 'a', 'd', 'a', '\u{3a}']);
        }
        if i == 11 {
            reveal_strlit(":white_check_mark:");
            assert(t[i].code@ =~= seq!['\u{3a}', 'w', 'h', 'i', 't', 'e', '_', 'c', 'h', 'e', 'c', 'k', '_', 'm', 'a', 'r', 'k', '\u{3a}']);
        }
        if i == 12 {
            reveal_strlit(":lock:");
            assert(t[i].code@ =~= seq!['\u{3a}', 'l', 'o', 'c', 'k', '\u{3a}']);
        }
        if i == 13 {
            reveal_strlit(":closed_lock_with_key:");
            assert(t[i].code@ =~= seq!['\u{3a}', 'c', 'l', 'o', 's', 'e', 'd', '_', 'l', 'o', 'c', 'k', '_', 'w', 'i', 't', 'h', '_', 'k', 'e', 'y', '\u{3a}']);
        }
        if i == 14 {
            reveal_strlit(":bookmark:");
            assert(t[i].code@ =~= seq!['\u{3a}', 'b', 'o', 'o', 'k', 'm', 'a', 'r', 'k', '\u{3a}']);
        }
        if i == 15 {
            reveal_strlit(":rotating_light:");
            assert(t[i].code@ =~= seq!['\u{3a}', 'r', 'o', 't', 'a', 't', 'i', 'n', 'g', '_', 'l', 'i', 'g', 'h', 't', '\u{3a}']);
        }
        if i == 16 {
            reveal_strlit(":construction:");
            assert(t[i].code@ =~= seq!['\u{3a}', 'c', 'o', 'n', 's', 't', 'r', 'u', 'c', 't', 'i', 'o', 'n', '\u{3a}']);
        }
        if i == 17 {
            reveal_strlit(":green_heart:");
            assert(t[i].code@ =~= seq!['\u{3a}', 'g', 'r', 'e', 'e', 'n', '_', 'h', 'e', 'a', 'r', 't', '\u{3a}']);
        }
        if i == 18 {
            reveal_strlit(":arrow_down:");
            assert(t[i].code@ =~= seq!['\u{3a}', 'a', 'r', 'r', 'o', 'w', '_', 'd', 'o', 'w', 'n', '\u{3a}']);
        }
        if i == 19 {
            reveal_strlit(":arrow_up:");
            assert(t[i].code@ =~= seq!['\u{3a}', 'a', 'r', 'r', 'o', 'w', '_', 'u', 'p', '\u{3a}']);
        }
        if i == 20 {
            reveal_strlit(":pushpin:");
            assert(t[i].code@ =~= seq!['\u{3a}', 'p', 'u', 's', 'h', 'p', 'i', 'n', '\u{3a}']);
        }
        if i == 21 {
            reveal_strlit(":construction_worker:");
            assert(t[i].code@ =~= seq!['\u{3a}', 'c', 'o', 'n', 's', 't', 'r', 'u', 'c', 't', 'i', 'o', 'n', '_', 'w', 'o', 'r', 'k', 'e', 'r', '\u{3a}']);
        }
        if i == 22 {
            reveal_strlit(":chart_with_upwards_trend:");
            assert(t[i].code@ =~= seq!['\u{3a}', 'c', 'h', 'a', 'r', 't', '_', 'w', 'i', 't', 'h', '_', 'u', 'p', 'w', 'a', 'r', 'd', 's', '_', 't', 'r', 'e', 'n', 'd', '\u{3a}']);
        }
        if i == 23 {
            reveal_strlit(":heavy_plus_sign:");
            assert(t[i].code@ =~= seq!['\u{3a}', 'h', 'e', 'a', 'v', 'y', '_', 'p', 'l', 'u', 's', '_', 's', 'i', 'g', 'n', '\u{3a}']);
        }
        if i == 24 {
            reveal_strlit(":heavy_minus_sign:");
            assert(t[i].code@ =~= seq!['\u{3a}', 'h', 'e', 'a', 'v', 'y', '_', 'm', 'i', 'n', 'u', 's', '_', 's', 'i', 'g', 'n', '\u{3a}']);
        }
        if i == 25 {
            reveal_strlit(":wrench:");
            assert(t[i].code@ =~= seq!['\u{3a}', 'w', 'r', 'e', 'n', 'c', 'h', '\u{3a}']);
        }
        if i == 26 {
            reveal_strlit(":hammer:");
            assert(t[i].code@ =~= seq!['\u{3a}', 'h', 'a', 'm', 'm', 'e', 'r', '\u{3a}']);
        }
        if i == 27 {
            reveal_strlit(":globe_with_meridians:");
            assert(t[i].code@ =~= seq!['\u{3a}', 'g', 'l', 'o', 'b', 'e', '_', 'w', 'i', 't', 'h', '_', 'm', 'e', 'r', 'i', 'd', 'i', 'a', 'n', 's', '\u{3a}']);
        }
        if i == 28 {
            reveal_strlit(":pencil2:");
            assert(t[i].code@ =~= seq!['\u{3a}', 'p', 'e', 'n', 'c', 'i', 'l', '2', '\u{3a}']);
        }
        if i == 29 {
            reveal_strlit(":poop:");
            assert(t[i].code@ =~= seq!['\u{3a}', 'p', 'o', 'o', 'p', '\u{3a}']);
        }
        if i == 30 {
            reveal_strlit(":rewind:");
            assert(t[i].code@ =~= seq!['\u{3a}', 'r', 'e', 'w', 'i', 'n', 'd', '\u{3a}']);
        }
        if i == 31 {
            reveal_strlit(":twisted_rightwards_arrows:");
            assert(t[i].code@ =~= seq!['\u{3a}', 't', 'w', 'i', 's', 't', 'e', 'd', '_', 'r', 'i', 'g', 'h', 't', 'w', 'a', 'r', 'd', 's', '_', 'a', 'r', 'r', 'o', 'w', 's', '\u{3a}']);
        }
        if i == 32 {
            reveal_strlit(":package:");
            assert(t[i].code@ =~= seq!['\u{3a}', 'p', 'a', 'c', 'k', 'a', 'g', 'e', '\u{3a}']);
        }
        if i == 33 {
            reveal_strlit(":alien:");
            assert(t[i].code@ =~= seq!['\u{3a}', 'a', 'l', 'i', 'e', 'n', '\u{3a}']);
        }
        if i == 34 {
            reveal_strlit(":truck:");
            assert(t[i].code@ =~= seq!['\u{3a}', 't', 'r', 'u', 'c', 'k', '\u{3a}']);
        }
        if i == 35 {
            reveal_strlit(":page_facing_up:");
            assert(t[i].code@ =~= seq!['\u{3a}', 'p', 'a', 'g', 'e', '_', 'f', 'a', 'c', 'i', 'n', 'g', '_', 'u', 'p', '\u{3a}']);
        }
        if i == 36 {
            reveal_strlit(":boom:");
            assert(t[i].code@ =~= seq!['\u{3a}', 'b', 'o', 'o', 'm', '\u{3a}']);
        }
        if i == 37 {
            reveal_strlit(":bento:");
            assert(t[i].code@ =~= seq!['\u{3a}', 'b', 'e', 'n', 't', 'o', '\u{3a}']);
        }
        if i == 38 {
            reveal_strlit(":wheelchair:");
            assert(t[i].code@ =~= seq!['\u{3a}', 'w', 'h', 'e', 'e', 'l', 'c', 'h', 'a', 'i', 'r', '\u{3a}']);
        }
        if i == 39 {
            reveal_strlit(":bulb:");
            assert(t[i].code@ =~= seq!['\u{3a}', 'b', 'u', 'l', 'b', '\u{3a}']);
        }
        if i == 40 {
            reveal_strlit(":beers:");
            assert(t[i].code@ =~= seq!['\u{3a}', 'b', 'e', 'e', 'r', 's', '\u{3a}']);
        }
        if i == 41 {
            reveal_strlit(":speech_balloon:");
            assert(t[i].code@ =~= seq!['\u{3a}', 's', 'p', 'e', 'e', 'c', 'h', '_', 'b', 'a', 'l', 'l', 'o', 'o', 'n', '\u{3a}']);
        }
        if i == 42 {
            reveal_strlit(":card_file_box:");
            assert(t[i].code@ =~= seq!['\u{3a}', 'c', 'a', 'r', 'd', '_', 'f', 'i', 'l', 'e', '_', 'b', 'o', 'x', '\u{3a}']);
        }
        if i == 43 {
            reveal_strlit(":loud_sound:");
            assert(t[i].code@ =~= seq!['\u{3a}', 'l', 'o', 'u', 'd', '_', 's', 'o', 'u', 'n', 'd', '\u{3a}']);
        }
        if i == 44 {
            reveal_strlit(":mute:");
            assert(t[i].code@ =~= seq!['\u{3a}', 'm', 'u', 't', 'e', '\u{3a}']);
        }
        if i == 45 {
            reveal_strlit(":busts_in_silhouette:");
            assert(t[i].code@ =~= seq!['\u{3a}', 'b', 'u', 's', 't', 's', '_', 'i', 'n', '_', 's', 'i', 'l', 'h', 'o', 'u', 'e', 't', 't', 'e', '\u{3a}']);
        }
        if i == 46 {
            reveal_strlit(":children_crossing:");
            assert(t[i].code@ =~= seq!['\u{3a}', 'c', 'h', 'i', 'l', 'd', 'r', 'e', 'n', '_', 'c', 'r', 'o', 's', 's', 'i', 'n', 'g', '\u{3a}']);
        }
        if i == 47 {
            reveal_strlit(":building_construction:");
            assert(t[i].code@ =~= seq!['\u{3a}', 'b', 'u', 'i', 'l', 'd', 'i', 'n', 'g', '_', 'c', 'o', 'n', 's', 't', 'r', 'u', 'c', 't', 'i', 'o', 'n', '\u{3a}']);
        }
        if i == 48 {
            reveal_strlit(":iphone:");
            assert(t[i].code@ =~= seq!['\u{3a}', 'i', 'p', 'h', 'o', 'n', 'e', '\u{3a}']);
        }
        if i == 49 {
            reveal_strlit(":clown_face:");
            assert(t[i].code@ =~= seq!['\u{3a}', 'c', 'l', 'o', 'w', 'n', '_', 'f', 'a', 'c', 'e', '\u{3a}']);
        }
        if i == 50 {
            reveal_strlit(":egg:");
            assert(t[i].code@ =~= seq!['\u{3a}', 'e', 'g', 'g', '\u{3a}']);
        }
        if i == 51 {
            reveal_strlit(":see_no_evil:");
            assert(t[i].code@ =~= seq!['\u{3a}', 's', 'e', 'e', '_', 'n', 'o', '_', 'e', 'v', 'i', 'l', '\u{3a}']);
        }
        if i == 52 {
            reveal_strlit(":camera_flash:");
            assert(t[i].code@ =~= seq!['\u{3a}', 'c', 'a', 'm', 'e', 'r', 'a', '_', 'f', 'l', 'a', 's', 'h', '\u{3a}']);
        }
        if i == 53 {
            reveal_strlit(":alembic:");
            assert(t[i].code@ =~= seq!['\u{3a}', 'a', 'l', 'e', 'm', 'b', 'i', 'c', '\u{3a}']);
        }
        if i == 54 {
            reveal_strlit(":mag:");
            assert(t[i].code@ =~= seq!['\u{3a}', 'm', 'a', 'g', '\u{3a}']);
        }
        if i == 55 {
            reveal_strlit(":label:");
            assert(t[i].code@ =~= seq!['\u{3a}', 'l', 'a', 'b', 'e', 'l', '\u{3a}']);
        }
        if i == 56 {
            reveal_strlit(":seedling:");
            assert(t[i].code@ =~= seq!['\u{3a}', 's', 'e', 'e', 'd', 'l', 'i', 'n', 'g', '\u{3a}']);
        }
        if i == 57 {
            reveal_strlit(":triangular_flag_on_post:");
            assert(t[i].code@ =~= seq!['\u{3a}', 't', 'r', 'i', 'a', 'n', 'g', 'u', 'l', 'a', 'r', '_', 'f', 'l', 'a', 'g', '_', 'o', 'n', '_', 'p', 'o', 's', 't', '\u{3a}']);
        }
        if i == 58 {
            reveal_strlit(":goal_net:");
            assert(t[i].code@ =~= seq!['\u{3a}', 'g', 'o', 'a', 'l', '_', 'n', 'e', 't', '\u{3a}']);
        }
        if i == 59 {
            reveal_strlit(":dizzy:");
            assert(t[i].code@ =~= seq!['\u{3a}', 'd', 'i', 'z', 'z', 'y', '\u{3a}']);
        }
        if i == 60 {
            reveal_strlit(":wastebasket:");
            assert(t[i].code@ =~= seq!['\u{3a}', 'w', 'a', 's', 't', 'e', 'b', 'a', 's', 'k', 'e', 't', '\u{3a}']);
        }
        if i == 61 {
            reveal_strlit(":passport_control:");
            assert(t[i].code@ =~= seq!['\u{3a}', 'p', 'a', 's', 's', 'p', 'o', 'r', 't', '_', 'c', 'o', 'n', 't', 'r', 'o', 'l', '\u{3a}']);
        }
        if i == 62 {
            reveal_strlit(":adhesive_bandage:");
            assert(t[i].code@ =~= seq!['\u{3a}', 'a', 'd', 'h', 'e', 's', 'i', 'v', 'e', '_', 'b', 'a', 'n', 'd', 'a', 'g', 'e', '\u{3a}']);
        }
        if i == 63 {
            reveal_strlit(":monocle_face:");
            assert(t[i].code@ =~= seq!['\u{3a}', 'm', 'o', 'n', 'o', 'c', 'l', 'e', '_', 'f', 'a', 'c', 'e', '\u{3a}']);
        }
        if i == 64 {
            reveal_strlit(":coffin:");
            assert(t[i].code@ =~= seq!['\u{3a}', 'c', 'o', 'f', 'f', 'i', 'n', '\u{3a}']);
        }
        if i == 65 {
            reveal_strlit(":test_tube:");
            assert(t[i].code@ =~= seq!['\u{3a}', 't', 'e', 's', 't', '_', 't', 'u', 'b', 'e', '\u{3a}']);
        }
        if i == 66 {
            reveal_strlit(":necktie:");
            assert(t[i].code@ =~= seq!['\u{3a}', 'n', 'e', 'c', 'k', 't', 'i', 'e', '\u{3a}']);
        }
        if i == 67 {
            reveal_strlit(":stethoscope:");
            assert(t[i].code@ =~= seq!['\u{3a}', 's', 't', 'e', 't', 'h', 'o', 's', 'c', 'o', 'p', 'e', '\u{3a}']);
        }
        if i == 68 {
            reveal_strlit(":bricks:");
            assert(t[i].code@ =~= seq!['\u{3a}', 'b', 'r', 'i', 'c', 'k', 's', '\u{3a}']);
        }
        if i == 69 {
            reveal_strlit(":technologist:");
            assert(t[i].code@ =~= seq!['\u{3a}', 't', 'e', 'c', 'h', 'n', 'o', 'l', 'o', 'g', 'i', 's', 't', '\u{3a}']);
        }
        if i == 70 {
            reveal_strlit(":money_with_wings:");
            assert(t[i].code@ =~= seq!['\u{3a}', 'm', 'o', 'n', 'e', 'y', '_', 'w', 'i', 't', 'h', '_', 'w', 'i', 'n', 'g', 's', '\u{3a}']);
        }
        if i == 71 {
            reveal_strlit(":thread:");
            assert(t[i].code@ =~= seq!['\u{3a}', 't', 'h', 'r', 'e', 'a', 'd', '\u{3a}']);
        }
        if i == 72 {
            reveal_strlit(":safety_vest:");
            assert(t[i].code@ =~= seq!['\u{3a}', 's', 'a', 'f', 'e', 't', 'y', '_', 'v', 'e', 's', 't', '\u{3a}']);
        }
        if i == 73 {
            reveal_strlit(":airplane:");
            assert(t[i].code@ =~= seq!['\u{3a}', 'a', 'i', 'r', 'p', 'l', 'a', 'n', 'e', '\u{3a}']);
        }
        if i == 74 {
            reveal_strlit(":t-rex:");
            assert(t[i].code@ =~= seq!['\u{3a}', 't', '-', 'r', 'e', 'x', '\u{3a}']);
        }
    }
}

/// No two entries of the table share a shortcode, or the first character of
/// their emoji; every shortcode starts with `:`.
pub proof fn lemma_table_entries_distinct()
    ensures
        forall|i: int|
            0 <= i < gitmoji_table().len() ==> (#[trigger] gitmoji_table()[i]).code@.len() > 0
                && gitmoji_table()[i].code@[0] == ':' && gitmoji_table()[i].emoji@.len() > 0,
        forall|i: int, j: int|
            0 <= i < gitmoji_table().len() && 0 <= j < gitmoji_table().len() && i != j ==> (
            #[trigger] gitmoji_table()[i]).code@ != (#[trigger] gitmoji_table()[j]).code@
                && gitmoji_table()[i].emoji@[0] != gitmoji_table()[j].emoji@[0],
{
    lemma_table_ranks();
}

/// gitmoji.dev's listing of its emoji with their shortcodes, descriptions and
/// names, in gitmoji.dev's own order.
pub open spec fn gitmoji_dev_listing() -> Seq<GitmojiType> {
    seq![
        GitmojiType {
            emoji: "🎨",
            code: ":art:",
            description: "Improve structure / format of the code.",
            name: "art",
        },
        GitmojiType {
            emoji: "⚡️",
            code: ":zap:",
            description: "Improve performance.",
            name: "zap",
        },
        GitmojiType {
            emoji: "🔥",
            code: ":fire:",
            description: "Remove code or files.",
            name: "fire",
        },
        GitmojiType {
            emoji: "🐛",
            code: ":bug:",
            description: "Fix a bug.",
            name: "bug",
        },
        GitmojiType {
            emoji: "🚑️",
            code: ":ambulance:",
            description: "Critical hotfix.",
            name: "ambulance",
        },
        GitmojiType {
            emoji: "✨",
            code: ":sparkles:",
            description: "Introduce new features.",
            name: "sparkles",
        },
        GitmojiType {
            emoji: "📝",
            code: ":memo:",
            description: "Add or update documentation.",
            name: "memo",
        },
        GitmojiType {
            emoji: "🚀",
            code: ":rocket:",
            description: "Deploy stuff.",
            name: "rocket",
        },
        GitmojiType {
            emoji: "💄",
            code: ":lipstick:",
            description: "Add or update the UI and style files.",
            name: "lipstick",
        },
        GitmojiType {
            emoji: "🎉",
            code: ":tada:",
            description: "Begin a project.",
            name: "tada",
        },
        GitmojiType {
            emoji: "✅",
            code: ":white_check_mark:",
            description: "Add, update, or pass tests.",
            name: "white-check-mark",
        },
        GitmojiType {
            emoji: "🔒️",
            code: ":lock:",
            description: "Fix security or privacy issues.",
            name: "lock",
        },
        GitmojiType {
            emoji: "🔐",
            code: ":closed_lock_with_key:",
            description: "Add or update secrets.",
            name: "closed-lock-with-key",
        },
        GitmojiType {
            emoji: "🔖",
            code: ":bookmark:",
            description: "Release / Version tags.",
            name: "bookmark",
        },
        GitmojiType {
            emoji: "🚨",
            code: ":rotating_light:",
            description: "Fix compiler / linter warnings.",
            name: "rotating-light",
        },
        GitmojiType {
            emoji: "🚧",
            code: ":construction:",
            description: "Work in progress.",
            name: "construction",
        },
        GitmojiType {
            emoji: "💚",
            code: ":green_heart:",
            description: "Fix CI Build.",
            name: "green-heart",
        },
        GitmojiType {
            emoji: "⬇️",
            code: ":arrow_down:",
            description: "Downgrade dependencies.",
            name: "arrow-down",
        },
        GitmojiType {
            emoji: "⬆️",
            code: ":arrow_up:",
            description: "Upgrade dependencies.",
            name: "arrow-up",
        },
        GitmojiType {
            emoji: "📌",
            code: ":pushpin:",
            description: "Pin dependencies to specific versions.",
            name: "pushpin",
        },
        GitmojiType {
            emoji: "👷",
            code: ":construction_worker:",
            description: "Add or update CI build system.",
            name: "construction-worker",
        },
        GitmojiType {
            emoji: "📈",
            code: ":chart_with_upwards_trend:",
            description: "Add or update analytics or track code.",
            name: "chart-with-upwards-trend",
        },
        GitmojiType {
            emoji: "♻️",
            code: ":recycle:",
            description: "Refactor code.",
            name: "recycle",
        },
        GitmojiType {
            emoji: "➕",
            code: ":heavy_plus_sign:",
            description: "Add a dependency.",
            name: "heavy-plus-sign",
        },
        GitmojiType {
            emoji: "➖",
            code: ":heavy_minus_sign:",
            description: "Remove a dependency.",
            name: "heavy-minus-sign",
        },
        GitmojiType {
            emoji: "🔧",
            code: ":wrench:",
            description: "Add or update configuration files.",
            name: "wrench",
        },
        GitmojiType {
            emoji: "🔨",
            code: ":hammer:",
            description: "Add or update development scripts.",
            name: "hammer",
        },
        GitmojiType {
            emoji: "🌐",
            code: ":globe_with_meridians:",
            description: "Internationalization and localization.",
            name: "globe-with-meridians",
        },
        GitmojiType {
            emoji: "✏️",
            code: ":pencil2:",
            description: "Fix typos.",
            name: "pencil2",
        },
        GitmojiType {
            emoji: "💩",
            code: ":poop:",
            description: "Write bad code that needs to be improved.",
            name: "poop",
        },
        GitmojiType {
            emoji: "⏪️",
            code: ":rewind:",
            description: "Revert changes.",
            name: "rewind",
        },
        GitmojiType {
            emoji: "🔀",
            code: ":twisted_rightwards_arrows:",
            description: "Merge branches.",
            name: "twisted-rightwards-arrows",
        },
        GitmojiType {
            emoji: "📦️",
            code: ":package:",
            description: "Add or update compiled files or packages.",
            name: "package",
        },
        GitmojiType {
            emoji: "👽️",
            code: ":alien:",
            description: "Update code due to external API changes.",
            name: "alien",
        },
        GitmojiType {
            emoji: "🚚",
            code: ":truck:",
            description: "Move or rename resources (e.g.: files, paths, routes).",
            name: "truck",
        },
        GitmojiType {
            emoji: "📄",
            code: ":page_facing_up:",
            description: "Add or update license.",
            name: "page-facing-up",
        },
        GitmojiType {
            emoji: "💥",
            code: ":boom:",
            description: "Introduce breaking changes.",
            name: "boom",
        },
        GitmojiType {
            emoji: "🍱",
            code: ":bento:",
            description: "Add or update assets.",
            name: "bento",
        },
        GitmojiType {
            emoji: "♿️",
            code: ":wheelchair:",
            description: "Improve accessibility.",
            name: "wheelchair",
        },
        GitmojiType {
            emoji: "💡",
            code: ":bulb:",
            description: "Add or update comments in source code.",
            name: "bulb",
        },
        GitmojiType {
            emoji: "🍻",
            code: ":beers:",
            description: "Write code drunkenly.",
            name: "beers",
        },
        GitmojiType {
            emoji: "💬",
            code: ":speech_balloon:",
            description: "Add or update text and literals.",
            name: "speech-balloon",
        },
        GitmojiType {
            emoji: "🗃️",
            code: ":card_file_box:",
            description: "Perform database related changes.",
            name: "card-file-box",
        },
        GitmojiType {
            emoji: "🔊",
            code: ":loud_sound:",
            description: "Add or update logs.",
            name: "loud-sound",
        },
        GitmojiType {
            emoji: "🔇",
            code: ":mute:",
            description: "Remove logs.",
            name: "mute",
        },
        GitmojiType {
            emoji: "👥",
            code: ":busts_in_silhouette:",
            description: "Add or update contributor(s).",
            name: "busts-in-silhouette",
        },
        GitmojiType {
            emoji: "🚸",
            code: ":children_crossing:",
            description: "Improve user experience / usability.",
            name: "children-crossing",
        },
        GitmojiType {
            emoji: "🏗️",
            code: ":building_construction:",
            description: "Make architectural changes.",
            name: "building-construction",
        },
        GitmojiType {
            emoji: "📱",
            code: ":iphone:",
            description: "Work on responsive design.",
            name: "iphone",
        },
        GitmojiType {
            emoji: "🤡",
            code: ":clown_face:",
            description: "Mock things.",
            name: "clown-face",
        },
        GitmojiType {
            emoji: "🥚",
            code: ":egg:",
            description: "Add or update an easter egg.",
            name: "egg",
        },
        GitmojiType {
            emoji: "🙈",
            code: ":see_no_evil:",
            description: "Add or update a .gitignore file.",
            name: "see-no-evil",
        },
        GitmojiType {
            emoji: "📸",
            code: ":camera_flash:",
            description: "Add or update snapshots.",
            name: "camera-flash",
        },
        GitmojiType {
            emoji: "⚗️",
            code: ":alembic:",
            description: "Perform experiments.",
            name: "alembic",
        },
        GitmojiType {
            emoji: "🔍️",
            code: ":mag:",
            description: "Improve SEO.",
            name: "mag",
        },
        GitmojiType {
            emoji: "🏷️",
            code: ":label:",
            description: "Add or update types.",
            name: "label",
        },
        GitmojiType {
            emoji: "🌱",
            code: ":seedling:",
            description: "Add or update seed files.",
            name: "seedling",
        },
        GitmojiType {
            emoji: "🚩",
            code: ":triangular_flag_on_post:",
            description: "Add, update, or remove feature flags.",
            name: "triangular-flag-on-post",
        },
        GitmojiType {
            emoji: "🥅",
            code: ":goal_net:",
            description: "Catch errors.",
            name: "goal-net",
        },
        GitmojiType {
            emoji: "💫",
            code: ":dizzy:",
            description: "Add or update animations and transitions.",
            name: "dizzy",
        },
        GitmojiType {
            emoji: "🗑️",
            code: ":wastebasket:",
            description: "Deprecate code that needs to be cleaned up.",
            name: "wastebasket",
        },
        GitmojiType {
            emoji: "🛂",
            code: ":passport_control:",
            description: "Work on code related to authorization, roles and permissions.",
            name: "passport-control",
        },
        GitmojiType {
            emoji: "🩹",
            code: ":adhesive_bandage:",
            description: "Simple fix for a non-critical issue.",
            name: "adhesive-bandage",
        },
        GitmojiType {
            emoji: "🧐",
            code: ":monocle_face:",
            description: "Data exploration/inspection.",
            name: "monocle-face",
        },
        GitmojiType {
            emoji: "⚰️",
            code: ":coffin:",
            description: "Remove dead code.",
            name: "coffin",
        },
        GitmojiType {
            emoji: "🧪",
            code: ":test_tube:",
            description: "Add a failing test.",
            name: "test-tube",
        },
        GitmojiType {
            emoji: "👔",
            code: ":necktie:",
            description: "Add or update business logic.",
            name: "necktie",
        },
        GitmojiType {
            emoji: "🩺",
            code: ":stethoscope:",
            description: "Add or update healthcheck.",
            name: "stethoscope",
        },
        GitmojiType {
            emoji: "🧱",
            code: ":bricks:",
            description: "Infrastructure related changes.",
            name: "bricks",
        },
        GitmojiType {
            emoji: "🧑‍💻",
            code: ":technologist:",
            description: "Improve developer experience.",
            name: "technologist",
        },
        GitmojiType {
            emoji: "💸",
            code: ":money_with_wings:",
            description: "Add sponsorships or money related infrastructure.",
            name: "money-with-wings",
        },
        GitmojiType {
            emoji: "🧵",
            code: ":thread:",
            description: "Add or update code related to multithreading or concurrency.",
            name: "thread",
        },
        GitmojiType {
            emoji: "🦺",
            code: ":safety_vest:",
            description: "Add or update code related to validation.",
            name: "safety-vest",
        },
        GitmojiType {
            emoji: "✈️",
            code: ":airplane:",
            description: "Improve offline support.",
            name: "airplane",
        },
        GitmojiType {
            emoji: "🦖",
            code: ":t-rex:",
            description: "Code that adds backwards compatibility.",
            name: "t-rex",
        },
    ]
}

/// Looking up the shortcode of an entry of the table finds that entry.
proof fn lemma_find_code_at(k: int)
    requires
        0 <= k < gitmoji_table().len(),
    ensures
        find_by_code(gitmoji_table(), gitmoji_table()[k].code@) == Some(gitmoji_table()[k]),
{
    let t = gitmoji_table();
    lemma_table_entries_distinct();
    lemma_find_by_code(t, t[k].code@);
    match find_by_code(t, t[k].code@) {
        Some(g) => {
            let m = choose|m: int| 0 <= m < t.len() && t[m] == g;
            assert(t[m].code@ == t[k].code@);
            assert(m == k);
        },
        None => {
            assert(t[k].code@ != t[k].code@);
        },
    }
}

/// The table is gitmoji.dev's listing: it has as many entries, and looking up
/// the shortcode of each listed entry finds it with the listing's emoji,
/// description and name.
pub proof fn lemma_table_matches_listing()
    ensures
        gitmoji_table().len() == gitmoji_dev_listing().len(),
        forall|j: int|
            0 <= j < gitmoji_dev_listing().len() ==> find_by_code(
                gitmoji_table(),
                (#[trigger] gitmoji_dev_listing()[j]).code@,
            ) == Some(gitmoji_dev_listing()[j]),
{
    let t = gitmoji_table();
    let l = gitmoji_dev_listing();
    assert(t.len() == 75);
    assert(l.len() == 75);
    assert forall|j: int| 0 <= j < l.len() implies find_by_code(t, (#[trigger] l[j]).code@) == Some(
        l[j],
    ) by {
        if j == 0 {
            assert(l[j] == t[6]);
            lemma_find_code_at(6);
        }
        if j == 1 {
            assert(l[j] == t[7]);
            lemma_find_code_at(7);
        }
        if j == 2 {
            assert(l[j] == t[5]);
            lemma_find_code_at(5);
        }
        if j == 3 {
            assert(l[j] == t[1]);
            lemma_find_code_at(1);
        }
        if j == 4 {
            assert(l[j] == t[2]);
            lemma_find_code_at(2);
        }
        if j == 5 {
            assert(l[j] == t[0]);
            lemma_find_code_at(0);
        }
        if j == 6 {
            assert(l[j] == t[3]);
            lemma_find_code_at(3);
        }
        if j == 7 {
            assert(l[j] == t[8]);
            lemma_find_code_at(8);
        }
        if j == 8 {
            assert(l[j] == t[9]);
            lemma_find_code_at(9);
        }
        if j == 9 {
            assert(l[j] == t[10]);
            lemma_find_code_at(10);
        }
        if j == 10 {
            assert(l[j] == t[11]);
            lemma_find_code_at(11);
        }
        if j == 11 {
            assert(l[j] == t[12]);
            lemma_find_code_at(12);
        }
        if j == 12 {
            assert(l[j] == t[13]);
            lemma_find_code_at(13);
        }
        if j == 13 {
            assert(l[j] == t[14]);
            lemma_find_code_at(14);
        }
        if j == 14 {
            assert(l[j] == t[15]);
            lemma_find_code_at(15);
        }
        if j == 15 {
            assert(l[j] == t[16]);
            lemma_find_code_at(16);
        }
        if j == 16 {
            assert(l[j] == t[17]);
            lemma_find_code_at(17);
        }
        if j == 17 {
            assert(l[j] == t[18]);
            lemma_find_code_at(18);
        }
        if j == 18 {
            assert(l[j] == t[19]);
            lemma_find_code_at(19);
        }
        if j == 19 {
            assert(l[j] == t[20]);
            lemma_find_code_at(20);
        }
        if j == 20 {
            assert(l[j] == t[21]);
            lemma_find_code_at(21);
        }
        if j == 21 {
            assert(l[j] == t[22]);
            lemma_find_code_at(22);
        }
        if j == 22 {
            assert(l[j] == t[4]);
            lemma_find_code_at(4);
        }
        if j == 23 {
            assert(l[j] == t[23]);
            lemma_find_code_at(23);
        }
        if j == 24 {
            assert(l[j] == t[24]);
            lemma_find_code_at(24);
        }
        if j == 25 {
            assert(l[j] == t[25]);
            lemma_find_code_at(25);
        }
        if j == 26 {
            assert(l[j] == t[26]);
            lemma_find_code_at(26);
        }
        if j == 27 {
            assert(l[j] == t[27]);
            lemma_find_code_at(27);
        }
        if j == 28 {
            assert(l[j] == t[28]);
            lemma_find_code_at(28);
        }
        if j == 29 {
            assert(l[j] == t[29]);
            lemma_find_code_at(29);
        }
        if j == 30 {
            assert(l[j] == t[30]);
            lemma_find_code_at(30);
        }
        if j == 31 {
            assert(l[j] == t[31]);
            lemma_find_code_at(31);
        }
        if j == 32 {
            assert(l[j] == t[32]);
            lemma_find_code_at(32);
        }
        if j == 33 {
            assert(l[j] == t[33]);
            lemma_find_code_at(33);
        }
        if j == 34 {
            assert(l[j] == t[34]);
            lemma_find_code_at(34);
        }
        if j == 35 {
            assert(l[j] == t[35]);
            lemma_find_code_at(35);
        }
        if j == 36 {
            assert(l[j] == t[36]);
            lemma_find_code_at(36);
        }
        if j == 37 {
            assert(l[j] == t[37]);
            lemma_find_code_at(37);
        }
        if j == 38 {
            assert(l[j] == t[38]);
            lemma_find_code_at(38);
        }
        if j == 39 {
            assert(l[j] == t[39]);
            lemma_find_code_at(39);
        }
        if j == 40 {
            assert(l[j] == t[40]);
            lemma_find_code_at(40);
        }
        if j == 41 {
            assert(l[j] == t[41]);
            lemma_find_code_at(41);
        }
        if j == 42 {
            assert(l[j] == t[42]);
            lemma_find_code_at(42);
        }
        if j == 43 {
            assert(l[j] == t[43]);
            lemma_find_code_at(43);
        }
        if j == 44 {
            assert(l[j] == t[44]);
            lemma_find_code_at(44);
        }
        if j == 45 {
            assert(l[j] == t[45]);
            lemma_find_code_at(45);
        }
        if j == 46 {
            assert(l[j] == t[46]);
            lemma_find_code_at(46);
        }
        if j == 47 {
            assert(l[j] == t[47]);
            lemma_find_code_at(47);
        }
        if j == 48 {
            assert(l[j] == t[48]);
            lemma_find_code_at(48);
        }
        if j == 49 {
            assert(l[j] == t[49]);
            lemma_find_code_at(49);
        }
        if j == 50 {
            assert(l[j] == t[50]);
            lemma_find_code_at(50);
        }
        if j == 51 {
            assert(l[j] == t[51]);
            lemma_find_code_at(51);
        }
        if j == 52 {
            assert(l[j] == t[52]);
            lemma_find_code_at(52);
        }
        if j == 53 {
            assert(l[j] == t[53]);
            lemma_find_code_at(53);
        }
        if j == 54 {
            assert(l[j] == t[54]);
            lemma_find_code_at(54);
        }
        if j == 55 {
            assert(l[j] == t[55]);
            lemma_find_code_at(55);
        }
        if j == 56 {
            assert(l[j] == t[56]);
            lemma_find_code_at(56);
        }
        if j == 57 {
            assert(l[j] == t[57]);
            lemma_find_code_at(57);
        }
        if j == 58 {
            assert(l[j] == t[58]);
            lemma_find_code_at(58);
        }
        if j == 59 {
            assert(l[j] == t[59]);
            lemma_find_code_at(59);
        }
        if j == 60 {
            assert(l[j] == t[60]);
            lemma_find_code_at(60);
        }
        if j == 61 {
            assert(l[j] == t[61]);
            lemma_find_code_at(61);
        }
        if j == 62 {
            assert(l[j] == t[62]);
            lemma_find_code_at(62);
        }
        if j == 63 {
            assert(l[j] == t[63]);
            lemma_find_code_at(63);
        }
        if j == 64 {
            assert(l[j] == t[64]);
            lemma_find_code_at(64);
        }
        if j == 65 {
            assert(l[j] == t[65]);
            lemma_find_code_at(65);
        }
        if j == 66 {
            assert(l[j] == t[66]);
            lemma_find_code_at(66);
        }
        if j == 67 {
            assert(l[j] == t[67]);
            lemma_find_code_at(67);
        }
        if j == 68 {
            assert(l[j] == t[68]);
            lemma_find_code_at(68);
        }
        if j == 69 {
            assert(l[j] == t[69]);
            lemma_find_code_at(69);
        }
        if j == 70 {
            assert(l[j] == t[70]);
            lemma_find_code_at(70);
        }
        if j == 71 {
            assert(l[j] == t[71]);
            lemma_find_code_at(71);
        }
        if j == 72 {
            assert(l[j] == t[72]);
            lemma_find_code_at(72);
        }
        if j == 73 {
            assert(l[j] == t[73]);
            lemma_find_code_at(73);
        }
        if j == 74 {
            assert(l[j] == t[74]);
            lemma_find_code_at(74);
        }
    }
}

} // verus!
