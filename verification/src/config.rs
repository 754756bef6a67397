//! User configuration: where it lives, how its file is read, and the
//! variable templates kept beside it.

use crate::text::{
    chars_of, concat, find_char, index_of, lines, next_line, range_equals, str_eq, substring, trim,
    trim_matches, trim_matches_range, trim_range,
};
use vstd::prelude::*;

verus! {

/// The two namespaces of variable templates.
#[derive(Debug, Clone, Copy, PartialEq, Eq, Structural)]
pub enum TemplateKind {
    Baselines,
    Outcomes,
}

/// The tag of a kind: the name of its directory, and its token in a manifest.
pub open spec fn kind_name(kind: TemplateKind) -> Seq<char> {
    match kind {
        TemplateKind::Baselines => "baselines"@,
        TemplateKind::Outcomes => "outcomes"@,
    }
}

/// The kind that a tag names, if any.
pub open spec fn kind_from_name(name: Seq<char>) -> Option<TemplateKind> {
    if name == "baselines"@ {
        Some(TemplateKind::Baselines)
    } else if name == "outcomes"@ {
        Some(TemplateKind::Outcomes)
    } else {
        None
    }
}

/// The two tags differ, so each kind is found again from its tag.
pub proof fn lemma_kind_name_roundtrip(kind: TemplateKind)
    ensures
        kind_from_name(kind_name(kind)) == Some(kind),
{
    reveal_strlit("baselines");
    reveal_strlit("outcomes");
    assert("baselines"@.len() != "outcomes"@.len());
}

impl TemplateKind {
    /// The tag of the kind.
    pub fn as_str(&self) -> (r: &'static str)
        ensures
            r@ == kind_name(*self),
    {
        match self {
            TemplateKind::Baselines => "baselines",
            TemplateKind::Outcomes => "outcomes",
        }
    }

    /// The kind that a tag names.
    pub fn from_str(kind: &str) -> (r: Option<TemplateKind>)
        ensures
            r == kind_from_name(kind@),
    {
        if str_eq(kind, "baselines") {
            Some(TemplateKind::Baselines)
        } else if str_eq(kind, "outcomes") {
            Some(TemplateKind::Outcomes)
        } else {
            None
        }
    }
}

/// The configuration directory of a user whose home directory is `home`;
/// without a home directory it lies under the current directory.
pub open spec fn config_dir_under(home: Option<Seq<char>>) -> Seq<char> {
    (match home {
        Some(h) => h,
        None => "."@,
    }) + "/.config/margo"@
}

/// `name` inside the directory `dir`.
pub open spec fn path_in(dir: Seq<char>, name: Seq<char>) -> Seq<char> {
    dir + "/"@ + name
}

/// The directory of the templates of one kind.
pub open spec fn kind_dir(config_dir: Seq<char>, kind: TemplateKind) -> Seq<char> {
    path_in(config_dir, kind_name(kind))
}

/// The file of the template `name` in the directory `dir`.
pub open spec fn template_file_in(dir: Seq<char>, name: Seq<char>) -> Seq<char> {
    path_in(dir, name + ".toml"@)
}

/// The file of the user's template `name` of the given kind.
pub open spec fn template_path(config_dir: Seq<char>, kind: TemplateKind, name: Seq<char>) -> Seq<
    char,
> {
    template_file_in(kind_dir(config_dir, kind), name)
}

/// Calls `dirs::home_dir`, which asks the environment for the current
/// user's home directory; nothing is claimed of what it finds.
#[verifier::external_body]
fn home_dir() -> (home: Option<String>) {
    dirs::home_dir().map(|p| p.display().to_string())
}

/// `name` inside the directory `dir`.
pub fn join_path(dir: &str, name: &str) -> (r: String)
    ensures
        r@ == path_in(dir@, name@),
{
    let mut r = concat(dir, "/");
    r.append(name);
    r
}

/// The directory of the templates of one kind under `config_dir`.
pub fn kind_dir_in(config_dir: &str, kind: TemplateKind) -> (r: String)
    ensures
        r@ == kind_dir(config_dir@, kind),
{
    join_path(config_dir, kind.as_str())
}

/// The file of the template `name` in the directory `dir`.
pub fn template_file(dir: &str, name: &str) -> (r: String)
    ensures
        r@ == template_file_in(dir@, name@),
{
    let file = concat(name, ".toml");
    join_path(dir, file.as_str())
}

/// The file of the user's template `name` of the given kind.
pub fn template_path_in(config_dir: &str, kind: TemplateKind, name: &str) -> (r: String)
    ensures
        r@ == template_path(config_dir@, kind, name@),
{
    let dir = kind_dir_in(config_dir, kind);
    template_file(dir.as_str(), name)
}

/// User configuration for new projects.
#[derive(Debug, Clone)]
pub struct Config {
    /// Where the source data lives.
    pub pull_data: Option<String>,
    /// Base directory for outputs.
    pub push_mods: Option<String>,
    /// Name of the default baseline template.
    pub baselines: Option<String>,
    /// Whether generated scripts set up a package environment.
    pub use_rv: Option<bool>,
    /// Editor command.
    pub editor: Option<String>,
    /// Colour theme.
    pub theme: Option<String>,
}

/// The name under which the configuration was once known.
pub type Defaults = Config;

/// A configuration as plain values.
pub struct ConfigView {
    pub pull_data: Option<Seq<char>>,
    pub push_mods: Option<Seq<char>>,
    pub baselines: Option<Seq<char>>,
    pub use_rv: Option<bool>,
    pub editor: Option<Seq<char>>,
    pub theme: Option<Seq<char>>,
}

/// The characters of an optional string.
pub open spec fn opt_view(s: Option<String>) -> Option<Seq<char>> {
    match s {
        Some(s) => Some(s@),
        None => None,
    }
}

impl ConfigView {
    /// The configuration in which nothing is set.
    pub open spec fn empty() -> ConfigView {
        ConfigView {
            pull_data: None,
            push_mods: None,
            baselines: None,
            use_rv: None,
            editor: None,
            theme: None,
        }
    }
}

impl View for Config {
    type V = ConfigView;

    open spec fn view(&self) -> ConfigView {
        ConfigView {
            pull_data: opt_view(self.pull_data),
            push_mods: opt_view(self.push_mods),
            baselines: opt_view(self.baselines),
            use_rv: self.use_rv,
            editor: opt_view(self.editor),
            theme: opt_view(self.theme),
        }
    }
}

impl Default for Config {
    fn default() -> (config: Config)
        ensures
            config@ == ConfigView::empty(),
    {
        Config {
            pull_data: None,
            push_mods: None,
            baselines: None,
            use_rv: None,
            editor: None,
            theme: None,
        }
    }
}

/// What one line of a configuration file changes.  Blank lines, comments and
/// section headers change nothing, nor does a line without `=` or with an
/// unknown key; otherwise the text after the first `=`, trimmed and without
/// surrounding double quotes, is the value of the key before it.
pub open spec fn config_step(cfg: ConfigView, raw: Seq<char>) -> ConfigView {
    let line = trim(raw);
    if line.len() == 0 || line[0] == '#' || line[0] == '[' {
        cfg
    } else {
        let i = index_of(line, '=');
        if i < 0 {
            cfg
        } else {
            let key = trim(line.take(i));
            let value = trim_matches(trim(line.skip(i + 1)), '"');
            if key == "pull_data"@ {
                ConfigView { pull_data: Some(value), ..cfg }
            } else if key == "push_mods"@ {
                ConfigView { push_mods: Some(value), ..cfg }
            } else if key == "baselines"@ {
                ConfigView { baselines: Some(value), ..cfg }
            } else if key == "use_rv"@ || key == "use_renv"@ {
                ConfigView { use_rv: Some(value == "true"@), ..cfg }
            } else if key == "editor"@ || key == "command"@ {
                ConfigView { editor: Some(value), ..cfg }
            } else if key == "theme"@ {
                ConfigView { theme: Some(value), ..cfg }
            } else {
                cfg
            }
        }
    }
}

/// The configuration after the given lines, read in order.
pub open spec fn config_fold(ls: Seq<Seq<char>>, init: ConfigView) -> ConfigView
    decreases ls.len(),
{
    if ls.len() == 0 {
        init
    } else {
        config_step(config_fold(ls.drop_last(), init), ls.last())
    }
}

/// The configuration that a file's content describes.
pub open spec fn parse_config(content: Seq<char>) -> ConfigView {
    config_fold(lines(content), ConfigView::empty())
}

/// The content of a configuration file in which nothing but the package
/// environment is set.
pub const DEFAULT_CONFIG: &'static str = r#"# margo configuration
# set your paths here, then run: init grf

[paths]
# where your .qs data files are stored (read from)
# pull_data = "/path/to/nzavs-data"

# base directory for model outputs (written to)
# a project subfolder will be created: {push_mods}/2025-exposure-outcomes/
# push_mods = "/path/to/outputs"

[defaults]
# default baseline template (from ~/.config/margo/baselines/)
# baselines = "default"

# include rv setup in generated R scripts (recommended for reproducibility)
# set to false if you manage R environments differently
use_rv = true

[editor]
# editor for /config edit, /templates edit
# uses $EDITOR if set, otherwise falls back to nvim
# command = "$EDITOR"

[theme]
# colour theme: "catppuccin" (default), "basic" (16 colours), "plain" (no colours)
# use "basic" or "plain" if colours don't display correctly in your terminal
# theme = "catppuccin"
"#;

impl Config {
    /// The content with which a configuration file is created.
    pub fn default_config_content() -> (r: String)
        ensures
            r@ == DEFAULT_CONFIG@,
    {
        DEFAULT_CONFIG.to_owned()
    }

    /// The configuration directory of a user whose home directory is `home`.
    pub fn config_dir_from(home: Option<&str>) -> (r: String)
        ensures
            r@ == config_dir_under(
                match home {
                    Some(h) => Some(h@),
                    None => None,
                },
            ),
    {
        match home {
            Some(h) => concat(h, "/.config/margo"),
            None => concat(".", "/.config/margo"),
        }
    }

    /// The configuration directory of the current user.
    pub fn config_dir() -> (r: String)
        ensures
            exists|home: Option<Seq<char>>| r@ == #[trigger] config_dir_under(home),
    {
        match home_dir() {
            Some(h) => {
                let r = Config::config_dir_from(Some(h.as_str()));
                assert(r@ == config_dir_under(Some(h@)));
                r
            },
            None => {
                let r = Config::config_dir_from(None);
                assert(r@ == config_dir_under(None));
                r
            },
        }
    }

    /// The configuration file of the current user.
    pub fn config_path() -> (r: String)
        ensures
            exists|home: Option<Seq<char>>|
                r@ == path_in(#[trigger] config_dir_under(home), "config.toml"@),
    {
        let dir = Config::config_dir();
        join_path(dir.as_str(), "config.toml")
    }

    /// The directory of the current user's baseline templates.
    pub fn baselines_dir() -> (r: String)
        ensures
            exists|home: Option<Seq<char>>|
                r@ == kind_dir(#[trigger] config_dir_under(home), TemplateKind::Baselines),
    {
        let dir = Config::config_dir();
        kind_dir_in(dir.as_str(), TemplateKind::Baselines)
    }

    /// The directory of the current user's outcome templates.
    pub fn outcomes_dir() -> (r: String)
        ensures
            exists|home: Option<Seq<char>>|
                r@ == kind_dir(#[trigger] config_dir_under(home), TemplateKind::Outcomes),
    {
        let dir = Config::config_dir();
        kind_dir_in(dir.as_str(), TemplateKind::Outcomes)
    }

    /// The directory of the example baseline templates.
    pub fn baselines_examples_dir() -> (r: String)
        ensures
            exists|home: Option<Seq<char>>|
                r@ == path_in(
                    kind_dir(#[trigger] config_dir_under(home), TemplateKind::Baselines),
                    "examples"@,
                ),
    {
        let dir = Config::baselines_dir();
        join_path(dir.as_str(), "examples")
    }

    /// The directory of the example outcome templates.
    pub fn outcomes_examples_dir() -> (r: String)
        ensures
            exists|home: Option<Seq<char>>|
                r@ == path_in(
                    kind_dir(#[trigger] config_dir_under(home), TemplateKind::Outcomes),
                    "examples"@,
                ),
    {
        let dir = Config::outcomes_dir();
        join_path(dir.as_str(), "examples")
    }

    /// Applies the line `lo..hi` of a configuration file.
    fn apply_line(&mut self, src: &str, chars: &Vec<char>, lo: usize, hi: usize)
        requires
            chars@ == src@,
            lo <= hi <= chars.len(),
        ensures
            final(self)@ == config_step(old(self)@, chars@.subrange(lo as int, hi as int)),
    {
        let (a, b) = trim_range(chars, lo, hi);
        let ghost line = chars@.subrange(a as int, b as int);
        if a == b {
            return ;
        }
        assert(line[0] == chars@[a as int]);
        if chars[a] == '#' || chars[a] == '[' {
            return ;
        }
        match find_char(chars, a, b, '=') {
            None => {},
            Some(eq) => {
                let (ka, kb) = trim_range(chars, a, eq);
                let (ta, tb) = trim_range(chars, eq + 1, b);
                let (va, vb) = trim_matches_range(chars, ta, tb, '"');
                proof {
                    assert(line.take(eq - a) =~= chars@.subrange(a as int, eq as int));
                    assert(line.skip(eq - a + 1) =~= chars@.subrange(eq + 1, b as int));
                }
                if range_equals(chars, ka, kb, "pull_data") {
                    self.pull_data = Some(substring(src, va, vb));
                } else if range_equals(chars, ka, kb, "push_mods") {
                    self.push_mods = Some(substring(src, va, vb));
                } else if range_equals(chars, ka, kb, "baselines") {
                    self.baselines = Some(substring(src, va, vb));
                } else if range_equals(chars, ka, kb, "use_rv") || range_equals(
                    chars,
                    ka,
                    kb,
                    "use_renv",
                ) {
                    self.use_rv = Some(range_equals(chars, va, vb, "true"));
                } else if range_equals(chars, ka, kb, "editor") || range_equals(
                    chars,
                    ka,
                    kb,
                    "command",
                ) {
                    self.editor = Some(substring(src, va, vb));
                } else if range_equals(chars, ka, kb, "theme") {
                    self.theme = Some(substring(src, va, vb));
                }
            },
        }
    }

    /// Reads a configuration file's content.
    pub fn parse(content: &str) -> (config: Config)
        ensures
            config@ == parse_config(content@),
    {
        let chars = chars_of(content);
        let n = chars.len();
        let mut config = Config::default();
        let mut pos: usize = 0;
        let ghost mut done: Seq<Seq<char>> = Seq::empty();
        proof {
            assert(content@.skip(0) =~= content@);
            assert(done + lines(content@) =~= lines(content@));
        }
        while pos < n
            invariant
                chars@ == content@,
                n == chars.len(),
                pos <= n,
                lines(content@) == done + lines(content@.skip(pos as int)),
                config@ == config_fold(done, ConfigView::empty()),
            decreases n - pos,
        {
            let (lo, hi, next) = next_line(&chars, pos);
            proof {
                let line = chars@.subrange(lo as int, hi as int);
                let before = done;
                done = done.push(line);
                assert(done.drop_last() =~= before);
                assert(lines(content@) =~= done + lines(content@.skip(next as int)));
            }
            config.apply_line(content, &chars, lo, hi);
            pos = next;
        }
        proof {
            assert(content@.skip(n as int) =~= Seq::<char>::empty());
            assert(lines(content@) =~= done);
        }
        config
    }
}

} // verus!
