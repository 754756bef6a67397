//! The commands of the session: which command a line names, what its
//! arguments ask for, and the decisions that the commands take before
//! anything is read or written.

pub mod init;
pub mod wizard;

use crate::config::{template_path, template_path_in, Config, TemplateKind};
use crate::examples::{kind_for_word, kind_from_word};
use crate::sync::{files_map, files_view, lookup, TemplateFile};
use crate::templates::{load_template_spec, opt_template_view, read_file, Template};
use crate::text::{
    alphanumeric, chars_of, concat, decimal, decimal_string, find_char, index_of,
    range_starts_with, split_words, starts_with, str_eq, substring, texts_view, words,
};
use vstd::prelude::*;

verus! {

/// A command of the session that begins with a slash.
#[derive(Debug, Clone, Copy, PartialEq, Eq, Structural)]
pub enum SlashCommand {
    Picker,
    Help,
    Config,
    Templates,
    View,
    Save,
    Vars,
    Theme,
    Here,
    Home,
    Cd,
    QuickEdit,
    Refresh,
    Unknown,
}

/// The command that a word names; no word at all asks for the picker.
pub open spec fn slash_command_named(word: Seq<char>) -> SlashCommand {
    if word.len() == 0 {
        SlashCommand::Picker
    } else if word == "help"@ || word == "h"@ || word == "?"@ {
        SlashCommand::Help
    } else if word == "config"@ {
        SlashCommand::Config
    } else if word == "templates"@ || word == "t"@ {
        SlashCommand::Templates
    } else if word == "view"@ {
        SlashCommand::View
    } else if word == "save"@ {
        SlashCommand::Save
    } else if word == "vars"@ || word == "v"@ {
        SlashCommand::Vars
    } else if word == "theme"@ || word == "th"@ {
        SlashCommand::Theme
    } else if word == "here"@ || word == "pwd"@ {
        SlashCommand::Here
    } else if word == "home"@ || word == "~"@ {
        SlashCommand::Home
    } else if word == "cd"@ {
        SlashCommand::Cd
    } else if word == "e"@ || word == "o"@ {
        SlashCommand::QuickEdit
    } else if word == "refresh"@ || word == "r"@ {
        SlashCommand::Refresh
    } else {
        SlashCommand::Unknown
    }
}

/// The first of some words, or the empty text if there is none.
pub open spec fn first_or_empty(ws: Seq<Seq<char>>) -> Seq<char> {
    if ws.len() > 0 {
        ws[0]
    } else {
        Seq::empty()
    }
}

/// All words but the first.
pub open spec fn rest_of(ws: Seq<Seq<char>>) -> Seq<Seq<char>> {
    if ws.len() > 0 {
        ws.skip(1)
    } else {
        Seq::empty()
    }
}

/// A command with its arguments.
#[derive(Debug, Clone)]
pub struct SlashCall {
    pub command: SlashCommand,
    /// The word that named the command.
    pub name: String,
    /// The words after it.
    pub args: Vec<String>,
}

/// The command that a word names.
pub fn slash_command(word: &str) -> (c: SlashCommand)
    ensures
        c == slash_command_named(word@),
{
    if word.is_empty() {
        SlashCommand::Picker
    } else if str_eq(word, "help") || str_eq(word, "h") || str_eq(word, "?") {
        SlashCommand::Help
    } else if str_eq(word, "config") {
        SlashCommand::Config
    } else if str_eq(word, "templates") || str_eq(word, "t") {
        SlashCommand::Templates
    } else if str_eq(word, "view") {
        SlashCommand::View
    } else if str_eq(word, "save") {
        SlashCommand::Save
    } else if str_eq(word, "vars") || str_eq(word, "v") {
        SlashCommand::Vars
    } else if str_eq(word, "theme") || str_eq(word, "th") {
        SlashCommand::Theme
    } else if str_eq(word, "here") || str_eq(word, "pwd") {
        SlashCommand::Here
    } else if str_eq(word, "home") || str_eq(word, "~") {
        SlashCommand::Home
    } else if str_eq(word, "cd") {
        SlashCommand::Cd
    } else if str_eq(word, "e") || str_eq(word, "o") {
        SlashCommand::QuickEdit
    } else if str_eq(word, "refresh") || str_eq(word, "r") {
        SlashCommand::Refresh
    } else {
        SlashCommand::Unknown
    }
}

/// Reads a command given without its slash: the first word names the
/// command, the words after it are its arguments.
pub fn parse_slash(cmd: &str) -> (call: SlashCall)
    ensures
        call.name@ == first_or_empty(words(cmd@)),
        texts_view(call.args@) == rest_of(words(cmd@)),
        call.command == slash_command_named(first_or_empty(words(cmd@))),
{
    let mut ws = split_words(cmd);
    if ws.len() == 0 {
        let name = String::new();
        assert(texts_view(ws@) =~= Seq::<Seq<char>>::empty());
        return SlashCall { command: slash_command(name.as_str()), name, args: ws };
    }
    let ghost all = texts_view(ws@);
    let name = ws.remove(0);
    assert(texts_view(ws@) =~= all.skip(1));
    SlashCall { command: slash_command(name.as_str()), name, args: ws }
}

/// What `/config` is asked to do.
#[derive(Debug, Clone, Copy, PartialEq, Eq, Structural)]
pub enum ConfigCommand {
    Show,
    Edit,
    Init,
    Path,
    Unknown,
}

/// What the first argument of `/config` asks for.
pub open spec fn config_command_named(word: Seq<char>) -> ConfigCommand {
    if word.len() == 0 {
        ConfigCommand::Show
    } else if word == "edit"@ {
        ConfigCommand::Edit
    } else if word == "init"@ {
        ConfigCommand::Init
    } else if word == "path"@ {
        ConfigCommand::Path
    } else {
        ConfigCommand::Unknown
    }
}

/// The first of the arguments, or the empty text.
fn first_arg(args: &Vec<String>) -> (r: &str)
    ensures
        r@ == first_or_empty(texts_view(args@)),
{
    if args.len() > 0 {
        args[0].as_str()
    } else {
        proof {
            reveal_strlit("");
        }
        let r = "";
        assert(r@ =~= Seq::<char>::empty());
        r
    }
}

/// What `/config` is asked to do.
pub fn config_command(args: &Vec<String>) -> (c: ConfigCommand)
    ensures
        c == config_command_named(first_or_empty(texts_view(args@))),
{
    let word = first_arg(args);
    if word.is_empty() {
        ConfigCommand::Show
    } else if str_eq(word, "edit") {
        ConfigCommand::Edit
    } else if str_eq(word, "init") {
        ConfigCommand::Init
    } else if str_eq(word, "path") {
        ConfigCommand::Path
    } else {
        ConfigCommand::Unknown
    }
}

/// What `/theme` is asked to do.
#[derive(Debug, Clone, Copy, PartialEq, Eq, Structural)]
pub enum ThemeCommand {
    Toggle,
    Light,
    Dark,
    Show,
    Usage,
}

/// What the first argument of `/theme` asks for.
pub open spec fn theme_command_named(word: Seq<char>) -> ThemeCommand {
    if word.len() == 0 || word == "toggle"@ {
        ThemeCommand::Toggle
    } else if word == "light"@ || word == "latte"@ {
        ThemeCommand::Light
    } else if word == "dark"@ || word == "mocha"@ {
        ThemeCommand::Dark
    } else if word == "show"@ || word == "current"@ {
        ThemeCommand::Show
    } else {
        ThemeCommand::Usage
    }
}

/// What `/theme` is asked to do.
pub fn theme_command(args: &Vec<String>) -> (c: ThemeCommand)
    ensures
        c == theme_command_named(first_or_empty(texts_view(args@))),
{
    let word = first_arg(args);
    if word.is_empty() || str_eq(word, "toggle") {
        ThemeCommand::Toggle
    } else if str_eq(word, "light") || str_eq(word, "latte") {
        ThemeCommand::Light
    } else if str_eq(word, "dark") || str_eq(word, "mocha") {
        ThemeCommand::Dark
    } else if str_eq(word, "show") || str_eq(word, "current") {
        ThemeCommand::Show
    } else {
        ThemeCommand::Usage
    }
}

/// What `/templates` is asked to do.
#[derive(Debug, Clone)]
pub enum TemplatesCommand {
    ListAll,
    ListOutcomes,
    ListBaselines,
    /// Edit the variables of the named template.
    Edit(String),
    /// `edit` without a name.
    EditUsage,
    /// Open the named template in the editor.
    Open(String),
    /// `open` without a name.
    OpenUsage,
    /// Create a template of the kind and name.
    New(TemplateKind, String),
    /// `new` without a kind and a name.
    NewUsage,
    /// `new` with a word that names no kind.
    NewBadKind,
    /// A word that `/templates` does not know.
    Unknown(String),
}

/// A `/templates` request as plain values.
pub enum TemplatesCommandView {
    ListAll,
    ListOutcomes,
    ListBaselines,
    Edit(Seq<char>),
    EditUsage,
    Open(Seq<char>),
    OpenUsage,
    New(TemplateKind, Seq<char>),
    NewUsage,
    NewBadKind,
    Unknown(Seq<char>),
}

impl View for TemplatesCommand {
    type V = TemplatesCommandView;

    open spec fn view(&self) -> TemplatesCommandView {
        match self {
            TemplatesCommand::ListAll => TemplatesCommandView::ListAll,
            TemplatesCommand::ListOutcomes => TemplatesCommandView::ListOutcomes,
            TemplatesCommand::ListBaselines => TemplatesCommandView::ListBaselines,
            TemplatesCommand::Edit(n) => TemplatesCommandView::Edit(n@),
            TemplatesCommand::EditUsage => TemplatesCommandView::EditUsage,
            TemplatesCommand::Open(n) => TemplatesCommandView::Open(n@),
            TemplatesCommand::OpenUsage => TemplatesCommandView::OpenUsage,
            TemplatesCommand::New(k, n) => TemplatesCommandView::New(*k, n@),
            TemplatesCommand::NewUsage => TemplatesCommandView::NewUsage,
            TemplatesCommand::NewBadKind => TemplatesCommandView::NewBadKind,
            TemplatesCommand::Unknown(w) => TemplatesCommandView::Unknown(w@),
        }
    }
}

/// What the arguments of `/templates` ask for.
pub open spec fn templates_command_spec(args: Seq<Seq<char>>) -> TemplatesCommandView {
    let word = first_or_empty(args);
    if word.len() == 0 {
        TemplatesCommandView::ListAll
    } else if word == "outcomes"@ {
        TemplatesCommandView::ListOutcomes
    } else if word == "baselines"@ {
        TemplatesCommandView::ListBaselines
    } else if word == "edit"@ {
        if args.len() < 2 {
            TemplatesCommandView::EditUsage
        } else {
            TemplatesCommandView::Edit(args[1])
        }
    } else if word == "open"@ {
        if args.len() < 2 {
            TemplatesCommandView::OpenUsage
        } else {
            TemplatesCommandView::Open(args[1])
        }
    } else if word == "new"@ {
        if args.len() < 3 {
            TemplatesCommandView::NewUsage
        } else {
            match kind_from_word(args[1]) {
                Some(kind) => TemplatesCommandView::New(kind, args[2]),
                None => TemplatesCommandView::NewBadKind,
            }
        }
    } else {
        TemplatesCommandView::Unknown(word)
    }
}

/// What `/templates` is asked to do.
pub fn templates_command(args: &Vec<String>) -> (c: TemplatesCommand)
    ensures
        c@ == templates_command_spec(texts_view(args@)),
{
    let word = first_arg(args);
    if word.is_empty() {
        TemplatesCommand::ListAll
    } else if str_eq(word, "outcomes") {
        TemplatesCommand::ListOutcomes
    } else if str_eq(word, "baselines") {
        TemplatesCommand::ListBaselines
    } else if str_eq(word, "edit") {
        if args.len() < 2 {
            TemplatesCommand::EditUsage
        } else {
            TemplatesCommand::Edit(args[1].clone())
        }
    } else if str_eq(word, "open") {
        if args.len() < 2 {
            TemplatesCommand::OpenUsage
        } else {
            TemplatesCommand::Open(args[1].clone())
        }
    } else if str_eq(word, "new") {
        if args.len() < 3 {
            TemplatesCommand::NewUsage
        } else {
            match kind_for_word(args[1].as_str()) {
                Some(kind) => TemplatesCommand::New(kind, args[2].clone()),
                None => TemplatesCommand::NewBadKind,
            }
        }
    } else {
        TemplatesCommand::Unknown(word.to_owned())
    }
}

/// A name that a saved template may have: letters, digits and underscores.
pub open spec fn is_template_name(name: Seq<char>) -> bool {
    forall|i: int| 0 <= i < name.len() ==> alphanumeric(#[trigger] name[i]) || name[i] == '_'
}

/// Whether a saved template may have the name.
pub fn valid_template_name(name: &str) -> (r: bool)
    ensures
        r == is_template_name(name@),
{
    let chars = chars_of(name);
    let mut i: usize = 0;
    while i < chars.len()
        invariant
            i <= chars.len(),
            chars@ == name@,
            forall|j: int| 0 <= j < i ==> alphanumeric(#[trigger] name@[j]) || name@[j] == '_',
        decreases chars.len() - i,
    {
        let c: char = chars[i];
        if !(c.is_alphanumeric() || c == '_') {
            assert(!(alphanumeric(name@[i as int]) || name@[i as int] == '_'));
            return false;
        }
        i += 1;
    }
    true
}

/// What `/save` is asked to do.
#[derive(Debug, Clone)]
pub enum SaveRequest {
    /// Too few arguments.
    Usage,
    /// The first argument names no kind of template.
    InvalidType(String),
    /// The name holds a character that a name may not hold.
    InvalidName(String),
    /// The user has a template of that kind and name.
    Exists(TemplateKind, String),
    /// A template of the kind and name can be made.
    Ready(TemplateKind, String),
}

/// A `/save` request as plain values.
pub enum SaveRequestView {
    Usage,
    InvalidType(Seq<char>),
    InvalidName(Seq<char>),
    Exists(TemplateKind, Seq<char>),
    Ready(TemplateKind, Seq<char>),
}

impl View for SaveRequest {
    type V = SaveRequestView;

    open spec fn view(&self) -> SaveRequestView {
        match self {
            SaveRequest::Usage => SaveRequestView::Usage,
            SaveRequest::InvalidType(t) => SaveRequestView::InvalidType(t@),
            SaveRequest::InvalidName(n) => SaveRequestView::InvalidName(n@),
            SaveRequest::Exists(k, n) => SaveRequestView::Exists(*k, n@),
            SaveRequest::Ready(k, n) => SaveRequestView::Ready(*k, n@),
        }
    }
}

/// What the arguments of `/save` ask for, given the user's files: the kind
/// is named in the plural, the name is checked, and a template that can be
/// read under that kind and name stands in the way.
pub open spec fn save_request_spec(
    args: Seq<Seq<char>>,
    config_dir: Seq<char>,
    fs: Map<Seq<char>, Seq<char>>,
) -> SaveRequestView {
    if args.len() < 2 {
        SaveRequestView::Usage
    } else if args[0] != "outcomes"@ && args[0] != "baselines"@ {
        SaveRequestView::InvalidType(args[0])
    } else if !is_template_name(args[1]) {
        SaveRequestView::InvalidName(args[1])
    } else {
        let kind = if args[0] == "outcomes"@ {
            TemplateKind::Outcomes
        } else {
            TemplateKind::Baselines
        };
        if load_template_spec(read_file(fs, template_path(config_dir, kind, args[1])), args[1])
            is Some {
            SaveRequestView::Exists(kind, args[1])
        } else {
            SaveRequestView::Ready(kind, args[1])
        }
    }
}

/// What `/save` is asked to do.
pub fn save_request(args: &Vec<String>, config_dir: &str, files: &Vec<TemplateFile>) -> (r:
    SaveRequest)
    ensures
        r@ == save_request_spec(texts_view(args@), config_dir@, files_map(files_view(files@))),
{
    if args.len() < 2 {
        return SaveRequest::Usage;
    }
    let kind_word = args[0].as_str();
    let name = args[1].as_str();
    let is_outcomes = str_eq(kind_word, "outcomes");
    if !is_outcomes && !str_eq(kind_word, "baselines") {
        return SaveRequest::InvalidType(args[0].clone());
    }
    if !valid_template_name(name) {
        return SaveRequest::InvalidName(args[1].clone());
    }
    let kind = if is_outcomes {
        TemplateKind::Outcomes
    } else {
        TemplateKind::Baselines
    };
    let existing = if is_outcomes {
        Config::load_outcomes(config_dir, files, name)
    } else {
        Config::load_baselines(config_dir, files, name)
    };
    if existing.is_some() {
        SaveRequest::Exists(kind, args[1].clone())
    } else {
        SaveRequest::Ready(kind, args[1].clone())
    }
}

/// Where the template `name` is found: among the outcomes first, then
/// among the baselines.
pub open spec fn locate_spec(config_dir: Seq<char>, fs: Map<Seq<char>, Seq<char>>, name: Seq<char>) -> Option<
    (TemplateKind, Seq<char>),
> {
    if fs.contains_key(template_path(config_dir, TemplateKind::Outcomes, name)) {
        Some((TemplateKind::Outcomes, template_path(config_dir, TemplateKind::Outcomes, name)))
    } else if fs.contains_key(template_path(config_dir, TemplateKind::Baselines, name)) {
        Some((TemplateKind::Baselines, template_path(config_dir, TemplateKind::Baselines, name)))
    } else {
        None
    }
}

/// The kind and the file of the user's template `name`.
pub fn locate_template(config_dir: &str, files: &Vec<TemplateFile>, name: &str) -> (r: Option<
    (TemplateKind, String),
>)
    ensures
        (match r {
            Some((k, p)) => Some((k, p@)),
            None => None,
        }) == locate_spec(config_dir@, files_map(files_view(files@)), name@),
{
    let outcomes = template_path_in(config_dir, TemplateKind::Outcomes, name);
    if lookup(files, outcomes.as_str()).is_some() {
        return Some((TemplateKind::Outcomes, outcomes));
    }
    let baselines = template_path_in(config_dir, TemplateKind::Baselines, name);
    if lookup(files, baselines.as_str()).is_some() {
        return Some((TemplateKind::Baselines, baselines));
    }
    None
}

/// The file that a quick edit of `name` opens: the outcome template if
/// there is one, else the baseline template, whether it exists or not.
pub fn quick_edit_path(config_dir: &str, files: &Vec<TemplateFile>, name: &str) -> (r: String)
    ensures
        r@ == (if files_map(files_view(files@)).contains_key(
            template_path(config_dir@, TemplateKind::Outcomes, name@),
        ) {
            template_path(config_dir@, TemplateKind::Outcomes, name@)
        } else {
            template_path(config_dir@, TemplateKind::Baselines, name@)
        }),
{
    let outcomes = template_path_in(config_dir, TemplateKind::Outcomes, name);
    if lookup(files, outcomes.as_str()).is_some() {
        outcomes
    } else {
        template_path_in(config_dir, TemplateKind::Baselines, name)
    }
}

/// The user's template `name`: the outcome template if one can be read,
/// else the baseline template.
pub fn find_template(config_dir: &str, files: &Vec<TemplateFile>, name: &str) -> (t: Option<Template>)
    ensures
        opt_template_view(t) == (match load_template_spec(
            read_file(
                files_map(files_view(files@)),
                template_path(config_dir@, TemplateKind::Outcomes, name@),
            ),
            name@,
        ) {
            Some(t) => Some(t),
            None => load_template_spec(
                read_file(
                    files_map(files_view(files@)),
                    template_path(config_dir@, TemplateKind::Baselines, name@),
                ),
                name@,
            ),
        }),
{
    match Config::load_outcomes(config_dir, files, name) {
        Some(t) => Some(t),
        None => Config::load_baselines(config_dir, files, name),
    }
}

/// The editor to use: the one the configuration names, else the one the
/// environment names, else `nvim`; the configuration may name the
/// environment's by `$EDITOR`.
pub open spec fn resolve_editor_spec(configured: Option<Seq<char>>, env: Option<Seq<char>>) -> Seq<
    char,
> {
    let fallback = match env {
        Some(e) => e,
        None => "nvim"@,
    };
    match configured {
        Some(e) => if e == "$EDITOR"@ {
            fallback
        } else {
            e
        },
        None => fallback,
    }
}

/// The editor to use, given what the environment names.
pub fn resolve_editor(config: &Config, env_editor: Option<&str>) -> (r: String)
    ensures
        r@ == resolve_editor_spec(
            crate::config::opt_view(config.editor),
            crate::sync::opt_str_view(env_editor),
        ),
{
    let fallback: &str = match env_editor {
        Some(e) => e,
        None => "nvim",
    };
    match &config.editor {
        Some(e) => {
            if str_eq(e.as_str(), "$EDITOR") {
                fallback.to_owned()
            } else {
                e.clone()
            }
        },
        None => fallback.to_owned(),
    }
}

/// The program and the arguments of an editor command: its words, and
/// `nvim` if it has none.
pub fn editor_command(editor: &str) -> (r: (String, Vec<String>))
    ensures
        r.0@ == (if words(editor@).len() > 0 {
            words(editor@)[0]
        } else {
            "nvim"@
        }),
        texts_view(r.1@) == rest_of(words(editor@)),
{
    let mut ws = split_words(editor);
    if ws.len() == 0 {
        assert(texts_view(ws@) =~= Seq::<Seq<char>>::empty());
        return ("nvim".to_owned(), ws);
    }
    let ghost all = texts_view(ws@);
    let program = ws.remove(0);
    assert(texts_view(ws@) =~= all.skip(1));
    (program, ws)
}

/// A path with the home directory at its beginning written as `~`.
pub open spec fn shorten_path_spec(path: Seq<char>, home: Option<Seq<char>>) -> Seq<char> {
    match home {
        Some(h) => if starts_with(path, h) {
            "~"@ + path.skip(h.len() as int)
        } else {
            path
        },
        None => path,
    }
}

/// Writes a path with the home directory at its beginning as `~`.
pub fn shorten_path(path: &str, home: Option<&str>) -> (r: String)
    ensures
        r@ == shorten_path_spec(path@, crate::sync::opt_str_view(home)),
{
    match home {
        None => path.to_owned(),
        Some(h) => {
            let chars = chars_of(path);
            let n = chars.len();
            proof {
                assert(chars@.subrange(0, n as int) =~= path@);
            }
            if range_starts_with(&chars, 0, n, h) {
                let k = h.unicode_len();
                let rest = substring(path, k, n);
                proof {
                    assert(path@.skip(k as int) =~= path@.subrange(k as int, n as int));
                }
                concat("~", rest.as_str())
            } else {
                path.to_owned()
            }
        },
    }
}

/// Where `cd` goes.
#[derive(Debug, Clone)]
pub enum CdTarget {
    /// To the home directory: there was no argument.
    Home,
    /// To the path.
    Path(String),
    /// Nowhere: the target begins with `~`, and there is no home directory.
    NoHome,
}

/// A `cd` target as plain values.
pub enum CdTargetView {
    Home,
    Path(Seq<char>),
    NoHome,
}

impl View for CdTarget {
    type V = CdTargetView;

    open spec fn view(&self) -> CdTargetView {
        match self {
            CdTarget::Home => CdTargetView::Home,
            CdTarget::Path(p) => CdTargetView::Path(p@),
            CdTarget::NoHome => CdTargetView::NoHome,
        }
    }
}

/// Where the arguments of `cd` lead: a target that begins with `~` lies
/// under the home directory, `~` alone being the home directory and
/// anything else the path after the first two characters.
pub open spec fn cd_target_spec(args: Seq<Seq<char>>, home: Option<Seq<char>>) -> CdTargetView {
    if args.len() == 0 {
        CdTargetView::Home
    } else if args[0].len() > 0 && args[0][0] == '~' {
        match home {
            None => CdTargetView::NoHome,
            Some(h) => if args[0].len() == 1 {
                CdTargetView::Path(h)
            } else {
                CdTargetView::Path(h + "/"@ + args[0].skip(2))
            },
        }
    } else {
        CdTargetView::Path(args[0])
    }
}

/// Decides where `cd` goes.
pub fn cd_target(args: &Vec<String>, home: Option<&str>) -> (r: CdTarget)
    ensures
        r@ == cd_target_spec(texts_view(args@), crate::sync::opt_str_view(home)),
{
    if args.len() == 0 {
        return CdTarget::Home;
    }
    let target = args[0].as_str();
    let chars = chars_of(target);
    let n = chars.len();
    if n > 0 && chars[0] == '~' {
        match home {
            None => CdTarget::NoHome,
            Some(h) => {
                if n == 1 {
                    CdTarget::Path(h.to_owned())
                } else {
                    let rest = substring(target, 2, n);
                    proof {
                        assert(target@.skip(2) =~= target@.subrange(2, n as int));
                    }
                    let mut p = concat(h, "/");
                    p.append(rest.as_str());
                    CdTarget::Path(p)
                }
            },
        }
    } else {
        CdTarget::Path(args[0].clone())
    }
}

/// What stands in a directory where a project is to be made.
#[derive(Debug, Clone)]
pub enum ExistingProject {
    /// None of the project's files.
    Clean,
    /// The study configuration: a whole project.
    Complete,
    /// Some of the project's scripts, without the study configuration.
    Partial(Vec<String>),
}

/// The files of a project, the study configuration first.
pub open spec fn project_files() -> Seq<Seq<char>> {
    seq![
        "study.toml"@,
        "01-data-prep.R"@,
        "02-wide-format.R"@,
        "03-causal-forest.R"@,
        "04-heterogeneity.R"@,
        "05-policy-tree.R"@,
        "06-positivity.R"@,
        "07-tables.R"@,
        "08-plots.R"@,
    ]
}

/// The names among `names` that `present` holds, in the order of `names`.
pub open spec fn present_among(names: Seq<Seq<char>>, present: Seq<Seq<char>>) -> Seq<Seq<char>>
    decreases names.len(),
{
    if names.len() == 0 {
        Seq::empty()
    } else {
        let before = present_among(names.drop_last(), present);
        if present.contains(names.last()) {
            before.push(names.last())
        } else {
            before
        }
    }
}

/// Whether the list holds the name.
pub fn contains_name(list: &Vec<String>, name: &str) -> (r: bool)
    ensures
        r == texts_view(list@).contains(name@),
{
    let mut i: usize = 0;
    while i < list.len()
        invariant
            i <= list.len(),
            forall|j: int| 0 <= j < i ==> texts_view(list@)[j] != name@,
        decreases list.len() - i,
    {
        if str_eq(list[i].as_str(), name) {
            assert(texts_view(list@)[i as int] == name@);
            return true;
        }
        i += 1;
    }
    false
}

/// Decides what stands in the way of a new project, given the names of the
/// files that exist in the directory.
pub fn existing_project(present: &Vec<String>) -> (r: ExistingProject)
    ensures
        match r {
            ExistingProject::Complete => texts_view(present@).contains("study.toml"@),
            ExistingProject::Partial(found) => !texts_view(present@).contains("study.toml"@)
                && texts_view(found@) == present_among(project_files(), texts_view(present@))
                && found@.len() > 0,
            ExistingProject::Clean => !texts_view(present@).contains("study.toml"@)
                && present_among(project_files(), texts_view(present@)).len() == 0,
        },
{
    if contains_name(present, "study.toml") {
        return ExistingProject::Complete;
    }
    let files: [&str; 9] = [
        "study.toml",
        "01-data-prep.R",
        "02-wide-format.R",
        "03-causal-forest.R",
        "04-heterogeneity.R",
        "05-policy-tree.R",
        "06-positivity.R",
        "07-tables.R",
        "08-plots.R",
    ];
    let ghost names = project_files();
    let ghost have = texts_view(present@);
    assert(files@.map_values(|f: &str| f@) =~= names);
    let mut found: Vec<String> = Vec::new();
    let mut i: usize = 0;
    proof {
        assert(texts_view(found@) =~= present_among(names.take(0), have));
    }
    while i < 9
        invariant
            i <= 9,
            names == project_files(),
            have == texts_view(present@),
            files@.map_values(|f: &str| f@) == names,
            texts_view(found@) == present_among(names.take(i as int), have),
        decreases 9 - i,
    {
        let ghost before = texts_view(found@);
        proof {
            let next = names.take(i + 1);
            assert(next.drop_last() =~= names.take(i as int));
            assert(next.last() == names[i as int]);
            assert(names[i as int] == files@[i as int]@);
        }
        if contains_name(present, files[i]) {
            found.push(files[i].to_owned());
            assert(texts_view(found@) =~= before.push(names[i as int]));
        }
        i += 1;
    }
    proof {
        assert(names.take(9) =~= names);
    }
    if found.len() > 0 {
        ExistingProject::Partial(found)
    } else {
        ExistingProject::Clean
    }
}

/// The question asked before the variables found by a search are shown.
pub open spec fn vars_prompt_spec(pattern: Seq<char>, count: nat) -> Seq<char> {
    if pattern.len() == 0 {
        "Browse variables ("@ + decimal(count) + " total):"@
    } else {
        "Variables matching '"@ + pattern + "' ("@ + decimal(count) + " matches):"@
    }
}

/// The question asked before the variables found by a search are shown.
pub fn vars_prompt(pattern: &str, count: usize) -> (r: String)
    ensures
        r@ == vars_prompt_spec(pattern@, count as nat),
{
    let number = decimal_string(count);
    if pattern.is_empty() {
        let mut r = concat("Browse variables (", number.as_str());
        r.append(" total):");
        r
    } else {
        let mut r = concat("Variables matching '", pattern);
        r.append("' (");
        r.append(number.as_str());
        r.append(" matches):");
        r
    }
}

/// How a template is listed for viewing.
pub open spec fn picker_item_spec(kind: Seq<char>, name: Seq<char>, count: nat) -> Seq<char> {
    kind + "/"@ + name + " ("@ + decimal(count) + " vars)"@
}

/// How a template is listed for viewing: its kind, its name, and how many
/// variables it has.
pub fn picker_item(kind: TemplateKind, template: &Template) -> (r: String)
    ensures
        r@ == picker_item_spec(
            crate::config::kind_name(kind),
            template@.name,
            template@.vars.len(),
        ),
{
    let mut r = concat(kind.as_str(), "/");
    r.append(template.name.as_str());
    r.append(" (");
    let number = decimal_string(template.vars.len());
    r.append(number.as_str());
    r.append(" vars)");
    r
}

/// The name in a listed template: the first word after the first slash.
pub open spec fn picked_name_spec(item: Seq<char>) -> Option<Seq<char>> {
    let i = index_of(item, '/');
    if i < 0 {
        None
    } else {
        let rest = item.skip(i + 1);
        let j = index_of(rest, '/');
        let part = if j < 0 {
            rest
        } else {
            rest.take(j)
        };
        if words(part).len() > 0 {
            Some(words(part)[0])
        } else {
            None
        }
    }
}

/// The name of the template that a picked item lists.
pub fn picked_name(item: &str) -> (r: Option<String>)
    ensures
        (match r {
            Some(n) => Some(n@),
            None => None,
        }) == picked_name_spec(item@),
{
    let chars = chars_of(item);
    let n = chars.len();
    proof {
        assert(chars@.subrange(0, n as int) =~= item@);
    }
    match find_char(&chars, 0, n, '/') {
        None => None,
        Some(i) => {
            let ghost rest = item@.skip(i + 1);
            assert(rest =~= chars@.subrange(i + 1, n as int));
            let end = match find_char(&chars, i + 1, n, '/') {
                Some(j) => {
                    assert(rest.take(j - i - 1) =~= chars@.subrange(i + 1, j as int));
                    j
                },
                None => n,
            };
            match crate::text::next_word(&chars, i + 1, end) {
                Some((a, b)) => Some(substring(item, a, b)),
                None => None,
            }
        },
    }
}

/// The commands that the command picker offers, each with what it does.
pub open spec fn picker_commands() -> Seq<Seq<char>> {
    seq![
        "help         — show all commands"@,
        "config       — show/edit configuration"@,
        "templates    — list templates"@,
        "view         — browse template variables"@,
        "save         — create new template"@,
        "vars         — browse variables"@,
        "theme        — toggle light/dark"@,
        "e            — edit template"@,
        "here         — show current directory"@,
        "home         — go home + refresh"@,
        "cd           — change directory"@,
        "refresh      — clear + show welcome"@,
        "quit         — exit margo"@,
    ]
}

/// The commands that the command picker offers.
pub fn command_picker_items() -> (items: Vec<&'static str>)
    ensures
        items@.map_values(|s: &'static str| s@) == picker_commands(),
{
    let mut items: Vec<&'static str> = Vec::new();
    items.push("help         — show all commands");
    items.push("config       — show/edit configuration");
    items.push("templates    — list templates");
    items.push("view         — browse template variables");
    items.push("save         — create new template");
    items.push("vars         — browse variables");
    items.push("theme        — toggle light/dark");
    items.push("e            — edit template");
    items.push("here         — show current directory");
    items.push("home         — go home + refresh");
    items.push("cd           — change directory");
    items.push("refresh      — clear + show welcome");
    items.push("quit         — exit margo");
    assert(items@.map_values(|s: &'static str| s@) =~= picker_commands());
    items
}

/// The command that an item of the command picker stands for: its first
/// word.
pub fn picked_command(item: &str) -> (call: SlashCall)
    ensures
        call.name@ == first_or_empty(words(item@)),
        call.args@.len() == 0,
        call.command == slash_command_named(first_or_empty(words(item@))),
{
    let parsed = parse_slash(item);
    SlashCall { command: parsed.command, name: parsed.name, args: Vec::new() }
}

/// A line of the configuration that the welcome shows.
#[derive(Debug, Clone)]
pub struct WelcomeLine {
    pub label: String,
    pub value: String,
    /// Whether the value is set; what is not set is shown dimmed.
    pub is_set: bool,
}

/// A line of the welcome as plain values.
pub struct WelcomeLineView {
    pub label: Seq<char>,
    pub value: Seq<char>,
    pub is_set: bool,
}

impl View for WelcomeLine {
    type V = WelcomeLineView;

    open spec fn view(&self) -> WelcomeLineView {
        WelcomeLineView { label: self.label@, value: self.value@, is_set: self.is_set }
    }
}

/// A path as the welcome shows it: shortened, or `not set`.
pub open spec fn shown_path(path: Option<Seq<char>>, home: Option<Seq<char>>) -> Seq<char> {
    match path {
        Some(p) => shorten_path_spec(p, home),
        None => "not set"@,
    }
}

/// The lines of the configuration that the welcome shows: where the data
/// is, where the outputs go, the baseline template, and the current
/// directory.  A value that reads `not set` is shown as not set.
pub open spec fn welcome_lines(
    config: crate::config::ConfigView,
    home: Option<Seq<char>>,
    cwd: Option<Seq<char>>,
) -> Seq<WelcomeLineView> {
    let data = shown_path(config.pull_data, home);
    let output = shown_path(config.push_mods, home);
    let baselines = match config.baselines {
        Some(b) => b,
        None => "default"@,
    };
    let here = match cwd {
        Some(c) => shorten_path_spec(c, home),
        None => "unknown"@,
    };
    seq![
        WelcomeLineView { label: "data"@, value: data, is_set: data != "not set"@ },
        WelcomeLineView { label: "output"@, value: output, is_set: output != "not set"@ },
        WelcomeLineView { label: "baselines"@, value: baselines, is_set: baselines != "not set"@ },
        WelcomeLineView { label: "cwd"@, value: here, is_set: here != "not set"@ },
    ]
}

fn welcome_line(label: &str, value: String) -> (line: WelcomeLine)
    ensures
        line@ == (WelcomeLineView { label: label@, value: value@, is_set: value@ != "not set"@ }),
{
    let is_set = !str_eq(value.as_str(), "not set");
    WelcomeLine { label: label.to_owned(), value, is_set }
}

/// The lines of the configuration that the welcome shows.
pub fn welcome_config(config: &Config, home: Option<&str>, cwd: Option<&str>) -> (lines: Vec<
    WelcomeLine,
>)
    ensures
        lines@.map_values(|l: WelcomeLine| l@) == welcome_lines(
            config@,
            crate::sync::opt_str_view(home),
            crate::sync::opt_str_view(cwd),
        ),
{
    let data = match &config.pull_data {
        Some(p) => shorten_path(p.as_str(), home),
        None => "not set".to_owned(),
    };
    let output = match &config.push_mods {
        Some(p) => shorten_path(p.as_str(), home),
        None => "not set".to_owned(),
    };
    let baselines = match &config.baselines {
        Some(b) => b.clone(),
        None => "default".to_owned(),
    };
    let here = match cwd {
        Some(c) => shorten_path(c, home),
        None => "unknown".to_owned(),
    };
    let mut lines: Vec<WelcomeLine> = Vec::new();
    lines.push(welcome_line("data", data));
    lines.push(welcome_line("output", output));
    lines.push(welcome_line("baselines", baselines));
    lines.push(welcome_line("cwd", here));
    assert(lines@.map_values(|l: WelcomeLine| l@) =~= welcome_lines(
        config@,
        crate::sync::opt_str_view(home),
        crate::sync::opt_str_view(cwd),
    ));
    lines
}

/// The first word of a text, or `fallback` if it has none.
pub fn first_word_or(text: &str, fallback: &str) -> (r: String)
    ensures
        r@ == (if words(text@).len() > 0 {
            words(text@)[0]
        } else {
            fallback@
        }),
{
    let mut ws = split_words(text);
    if ws.len() == 0 {
        fallback.to_owned()
    } else {
        ws.swap_remove(0)
    }
}

/// The index of the first of `among` that is `name`, or `-1`.
pub open spec fn position_of(among: Seq<Seq<char>>, name: Seq<char>) -> int
    decreases among.len(),
{
    if among.len() == 0 {
        -1
    } else if among[0] == name {
        0
    } else {
        let r = position_of(among.drop_first(), name);
        if r < 0 {
            -1
        } else {
            r + 1
        }
    }
}

/// Where the names stand in `among`, in the order of the names; a name
/// that does not stand there is left out.
pub open spec fn positions_of(names: Seq<Seq<char>>, among: Seq<Seq<char>>) -> Seq<int>
    decreases names.len(),
{
    if names.len() == 0 {
        Seq::empty()
    } else {
        let before = positions_of(names.drop_last(), among);
        let at = position_of(among, names.last());
        if at >= 0 {
            before.push(at)
        } else {
            before
        }
    }
}

/// The index of the first of `among` that is `name`.
pub fn find_position(among: &Vec<String>, name: &str) -> (r: Option<usize>)
    ensures
        match r {
            Some(i) => i < among.len() && position_of(texts_view(among@), name@) == i,
            None => position_of(texts_view(among@), name@) == -1,
        },
{
    let ghost all = texts_view(among@);
    let mut i: usize = among.len();
    let mut found: Option<usize> = None;
    proof {
        assert(all.skip(i as int) =~= Seq::<Seq<char>>::empty());
    }
    while i > 0
        invariant
            i <= among.len(),
            all == texts_view(among@),
            match found {
                Some(k) => i <= k < among.len() && position_of(all.skip(i as int), name@) == k - i,
                None => position_of(all.skip(i as int), name@) == -1,
            },
        decreases i,
    {
        i -= 1;
        proof {
            let rest = all.skip(i as int);
            assert(rest[0] == among@[i as int]@);
            assert(rest.drop_first() =~= all.skip(i + 1));
        }
        if str_eq(among[i].as_str(), name) {
            found = Some(i);
        }
    }
    proof {
        assert(all.skip(0) =~= all);
    }
    found
}

/// Where the names stand in `among`.
pub fn find_positions(names: &Vec<String>, among: &Vec<String>) -> (r: Vec<usize>)
    ensures
        r@.map_values(|i: usize| i as int) == positions_of(texts_view(names@), texts_view(among@)),
{
    let ghost all = texts_view(names@);
    let ghost pool = texts_view(among@);
    let mut r: Vec<usize> = Vec::new();
    let mut i: usize = 0;
    proof {
        assert(r@.map_values(|i: usize| i as int) =~= positions_of(all.take(0), pool));
    }
    while i < names.len()
        invariant
            i <= names.len(),
            all == texts_view(names@),
            pool == texts_view(among@),
            r@.map_values(|i: usize| i as int) == positions_of(all.take(i as int), pool),
        decreases names.len() - i,
    {
        let ghost before = r@.map_values(|i: usize| i as int);
        proof {
            let next = all.take(i + 1);
            assert(next.drop_last() =~= all.take(i as int));
            assert(next.last() == names@[i as int]@);
        }
        match find_position(among, names[i].as_str()) {
            Some(at) => {
                r.push(at);
                assert(r@.map_values(|i: usize| i as int) =~= before.push(at as int));
            },
            None => {},
        }
        i += 1;
    }
    proof {
        assert(all.take(names.len() as int) =~= all);
    }
    r
}

} // verus!
