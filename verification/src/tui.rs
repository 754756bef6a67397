//! The guided setup on a full screen: its screens, and what each key does
//! on each of them.

pub mod widgets;

use crate::config::{opt_view, path_in, Config};
use crate::sync::opt_str_view;
use crate::text::{alphanumeric, concat, decimal, decimal_string, str_eq, substring};
use crate::tui::widgets::MenuItem;
use vstd::prelude::*;

verus! {

/// The screens of the guided setup.
#[derive(Debug, Clone, Copy, PartialEq, Eq, Structural)]
pub enum Screen {
    Welcome,
    TemplateSelect,
    ProjectName,
    ConfigureDataSource,
    ConfigureOutputRoot,
    ConfigureExposure,
    ConfigureWhoMode,
    Review,
    Creating,
    Done,
}

/// The field that is being edited.
#[derive(Debug, Clone, Copy, PartialEq, Eq, Structural)]
pub enum EditingField {
    Idle,
    ExposureName,
}

/// A key.
#[derive(Debug, Clone, Copy, PartialEq, Eq, Structural)]
pub enum Key {
    Enter,
    Esc,
    Up,
    Down,
    Left,
    Right,
    Backspace,
    Tab,
    Char(char),
    Other,
}

/// The project that is being set up.
#[derive(Debug, Clone)]
pub struct ProjectConfig {
    pub template: String,
    pub name: String,
    /// Where the data lives.
    pub pull_data: String,
    /// Under which directory projects are made.
    pub output_root: String,
    pub exposure: String,
    /// How two of the variables are represented: 0, 1 or 2.
    pub who_mode: usize,
}

/// A project as plain values.
pub struct ProjectConfigView {
    pub template: Seq<char>,
    pub name: Seq<char>,
    pub pull_data: Seq<char>,
    pub output_root: Seq<char>,
    pub exposure: Seq<char>,
    pub who_mode: nat,
}

impl View for ProjectConfig {
    type V = ProjectConfigView;

    open spec fn view(&self) -> ProjectConfigView {
        ProjectConfigView {
            template: self.template@,
            name: self.name@,
            pull_data: self.pull_data@,
            output_root: self.output_root@,
            exposure: self.exposure@,
            who_mode: self.who_mode as nat,
        }
    }
}

impl ProjectConfigView {
    /// The directory suggested for the project: the year, the exposure
    /// (`study` if there is none) and the name, with hyphens between them.
    pub open spec fn suggested_folder(self, year: nat) -> Seq<char> {
        decimal(year) + "-"@ + (if self.exposure.len() == 0 {
            "study"@
        } else {
            self.exposure
        }) + "-"@ + self.name
    }

    /// Where the project is made: the suggested directory, under the
    /// output root if there is one.
    pub open spec fn full_project_path(self, year: nat) -> Seq<char> {
        if self.output_root.len() == 0 {
            self.suggested_folder(year)
        } else {
            path_in(self.output_root, self.suggested_folder(year))
        }
    }
}

impl Default for ProjectConfig {
    fn default() -> (config: ProjectConfig)
        ensures
            config@ == (ProjectConfigView {
                template: Seq::empty(),
                name: Seq::empty(),
                pull_data: Seq::empty(),
                output_root: Seq::empty(),
                exposure: "exposure_var"@,
                who_mode: 0,
            }),
    {
        ProjectConfig {
            template: String::new(),
            name: String::new(),
            pull_data: String::new(),
            output_root: String::new(),
            exposure: "exposure_var".to_owned(),
            who_mode: 0,
        }
    }
}

impl ProjectConfig {
    /// The directory suggested for the project in the given year.
    pub fn suggested_folder(&self, year: u32) -> (r: String)
        ensures
            r@ == self@.suggested_folder(year as nat),
    {
        let mut r = decimal_string(year as usize);
        r.append("-");
        if self.exposure.as_str().is_empty() {
            r.append("study");
        } else {
            r.append(self.exposure.as_str());
        }
        r.append("-");
        r.append(self.name.as_str());
        r
    }

    /// Where the project is made in the given year.
    pub fn full_project_path(&self, year: u32) -> (r: String)
        ensures
            r@ == self@.full_project_path(year as nat),
    {
        let folder = self.suggested_folder(year);
        if self.output_root.as_str().is_empty() {
            folder
        } else {
            crate::config::join_path(self.output_root.as_str(), folder.as_str())
        }
    }
}

/// The state of the guided setup.
#[derive(Debug, Clone)]
pub struct App {
    pub screen: Screen,
    pub config: ProjectConfig,
    pub menu_items: Vec<MenuItem>,
    pub selected_menu: usize,
    pub input_buffer: String,
    /// The place of the cursor in the input, in characters.
    pub cursor_pos: usize,
    pub status_message: String,
    pub status_is_error: bool,
    pub should_quit: bool,
    pub tick: u64,
    pub editing_field: EditingField,
}

/// The state of the guided setup as plain values.
pub struct AppView {
    pub screen: Screen,
    pub config: ProjectConfigView,
    pub menu_len: nat,
    pub selected_menu: nat,
    pub input_buffer: Seq<char>,
    pub cursor_pos: nat,
    pub status_message: Seq<char>,
    pub status_is_error: bool,
    pub should_quit: bool,
    pub tick: u64,
    pub editing_field: EditingField,
}

impl View for App {
    type V = AppView;

    open spec fn view(&self) -> AppView {
        AppView {
            screen: self.screen,
            config: self.config@,
            menu_len: self.menu_items@.len(),
            selected_menu: self.selected_menu as nat,
            input_buffer: self.input_buffer@,
            cursor_pos: self.cursor_pos as nat,
            status_message: self.status_message@,
            status_is_error: self.status_is_error,
            should_quit: self.should_quit,
            tick: self.tick,
            editing_field: self.editing_field,
        }
    }
}

/// How a mode named in the configuration is numbered.
pub open spec fn who_mode_of(name: Option<Seq<char>>) -> nat {
    match name {
        Some(n) => if n == "cat"@ {
            1
        } else if n == "num"@ {
            2
        } else {
            0
        },
        None => 0,
    }
}

impl AppView {
    /// The input is being edited on this screen.
    pub open spec fn editing(self) -> bool {
        self.screen == Screen::ProjectName || self.screen == Screen::ConfigureDataSource
            || self.screen == Screen::ConfigureOutputRoot || self.editing_field
            == EditingField::ExposureName
    }

    /// The menu has a selected item, the mode is one of the three, and
    /// before and while the input is edited the cursor is in it.
    pub open spec fn wf(self) -> bool {
        &&& self.selected_menu < self.menu_len
        &&& self.config.who_mode <= 2
        &&& self.editing() || self.screen == Screen::Welcome || self.screen
            == Screen::TemplateSelect ==> self.cursor_pos <= self.input_buffer.len()
        &&& self.editing_field == EditingField::ExposureName ==> self.screen
            == Screen::ConfigureExposure
    }

    /// The state with another message.
    pub open spec fn says(self, message: Seq<char>) -> AppView {
        AppView { status_message: message, ..self }
    }

    /// The state on another screen, with a message.
    pub open spec fn goes(self, screen: Screen, message: Seq<char>) -> AppView {
        AppView { screen, status_message: message, ..self }
    }

    /// The state with another input, the cursor at its end.
    pub open spec fn with_input(self, input: Seq<char>) -> AppView {
        AppView { input_buffer: input, cursor_pos: input.len(), ..self }
    }

    /// The state after a character is typed at the cursor; nothing is
    /// typed once the place after the cursor cannot be counted.
    pub open spec fn typed(self, c: char) -> AppView {
        if self.cursor_pos < usize::MAX {
            AppView {
                input_buffer: self.input_buffer.insert(self.cursor_pos as int, c),
                cursor_pos: self.cursor_pos + 1,
                ..self
            }
        } else {
            self
        }
    }

    /// The state after the character before the cursor is removed.
    pub open spec fn erased(self) -> AppView {
        if self.cursor_pos > 0 {
            AppView {
                input_buffer: self.input_buffer.remove(self.cursor_pos - 1),
                cursor_pos: (self.cursor_pos - 1) as nat,
                ..self
            }
        } else {
            self
        }
    }

    /// The state after the cursor moves left or right.
    pub open spec fn moved(self, right: bool) -> AppView {
        if right {
            if self.cursor_pos < self.input_buffer.len() {
                AppView { cursor_pos: self.cursor_pos + 1, ..self }
            } else {
                self
            }
        } else if self.cursor_pos > 0 {
            AppView { cursor_pos: (self.cursor_pos - 1) as nat, ..self }
        } else {
            self
        }
    }

    /// What a key does on the welcome screen.
    pub open spec fn on_welcome(self, key: Key) -> AppView {
        match key {
            Key::Enter | Key::Char(' ') => self.goes(
                Screen::TemplateSelect,
                "select a template with arrow keys, press enter"@,
            ),
            Key::Char('q') | Key::Esc => AppView { should_quit: true, ..self },
            _ => self,
        }
    }

    /// What a key does where the kind of project is chosen.
    pub open spec fn on_template_select(self, key: Key) -> AppView {
        match key {
            Key::Up | Key::Char('k') => if self.selected_menu > 0 {
                AppView { selected_menu: (self.selected_menu - 1) as nat, ..self }
            } else {
                self
            },
            Key::Down | Key::Char('j') => if self.selected_menu + 1 < self.menu_len {
                AppView { selected_menu: self.selected_menu + 1, ..self }
            } else {
                self
            },
            Key::Enter | Key::Char('g') => if self.selected_menu == 0 {
                AppView {
                    config: ProjectConfigView { template: "grf"@, ..self.config },
                    ..self.goes(Screen::ProjectName, "enter project name"@)
                }
            } else {
                self
            },
            Key::Char('l') => AppView {
                status_is_error: true,
                ..self.says("LMTP template coming soon"@)
            },
            Key::Char('q') | Key::Esc => AppView { should_quit: true, ..self },
            _ => self,
        }
    }

    /// The input with which a path is asked for: the path known so far,
    /// else the home directory, else nothing.
    pub open spec fn path_input(known: Seq<char>, home: Option<Seq<char>>) -> Seq<char> {
        if known.len() == 0 {
            match home {
                Some(h) => h,
                None => Seq::empty(),
            }
        } else {
            known
        }
    }

    /// What a key does where the project is named: only letters, digits,
    /// hyphens and underscores are taken into the name.
    pub open spec fn on_project_name(self, key: Key, home: Option<Seq<char>>) -> AppView {
        match key {
            Key::Char(c) => if alphanumeric(c) || c == '-' || c == '_' {
                AppView { status_is_error: false, ..self.typed(c) }
            } else {
                self
            },
            Key::Backspace => self.erased(),
            Key::Left => self.moved(false),
            Key::Right => self.moved(true),
            Key::Enter => if self.input_buffer.len() == 0 {
                AppView { status_is_error: true, ..self.says("project name cannot be empty"@) }
            } else {
                (AppView {
                    config: ProjectConfigView { name: self.input_buffer, ..self.config },
                    ..self
                }).with_input(Self::path_input(self.config.pull_data, home)).goes(
                    Screen::ConfigureDataSource,
                    "enter data source path"@,
                )
            },
            Key::Esc => (AppView { input_buffer: Seq::empty(), cursor_pos: 0, ..self }).goes(
                Screen::TemplateSelect,
                "select a template type"@,
            ),
            _ => self,
        }
    }

    /// What a key does where one of the two paths is asked for.
    pub open spec fn on_path(self, key: Key, home: Option<Seq<char>>) -> AppView {
        let source = self.screen == Screen::ConfigureDataSource;
        match key {
            Key::Char(c) => self.typed(c),
            Key::Backspace => self.erased(),
            Key::Left => self.moved(false),
            Key::Right => self.moved(true),
            Key::Tab | Key::Enter => if source {
                (AppView {
                    config: ProjectConfigView { pull_data: self.input_buffer, ..self.config },
                    ..self
                }).with_input(Self::path_input(self.config.output_root, home)).goes(
                    Screen::ConfigureOutputRoot,
                    "enter output root path"@,
                )
            } else {
                (AppView {
                    config: ProjectConfigView { output_root: self.input_buffer, ..self.config },
                    ..self
                }).with_input(self.config.exposure).goes(
                    Screen::ConfigureExposure,
                    "enter exposure variable name"@,
                )
            },
            Key::Esc => if source {
                self.with_input(self.config.name).goes(Screen::ProjectName, "enter project name"@)
            } else {
                self.with_input(self.config.pull_data).goes(
                    Screen::ConfigureDataSource,
                    "enter data source path"@,
                )
            },
            _ => self,
        }
    }

    /// What a key does where the exposure is named: the first letter,
    /// digit or underscore typed begins the editing of the name.
    pub open spec fn on_exposure(self, key: Key) -> AppView {
        let editing = self.editing_field == EditingField::ExposureName;
        match key {
            Key::Char(c) => if alphanumeric(c) || c == '_' {
                (if editing {
                    self
                } else {
                    (AppView { editing_field: EditingField::ExposureName, ..self }).with_input(
                        self.config.exposure,
                    )
                }).typed(c)
            } else {
                self
            },
            Key::Backspace => if editing {
                self.erased()
            } else {
                self
            },
            Key::Left => self.moved(false),
            Key::Right => self.moved(true),
            Key::Tab | Key::Enter => (if editing {
                AppView {
                    config: ProjectConfigView { exposure: self.input_buffer, ..self.config },
                    editing_field: EditingField::Idle,
                    input_buffer: Seq::empty(),
                    ..self
                }
            } else {
                self
            }).goes(Screen::ConfigureWhoMode, "select BMI/exercise variable mode"@),
            Key::Esc => (AppView { editing_field: EditingField::Idle, ..self }).with_input(
                self.config.output_root,
            ).goes(Screen::ConfigureOutputRoot, "enter output root path"@),
            _ => self,
        }
    }

    /// The state with another mode.
    pub open spec fn with_who_mode(self, mode: nat) -> AppView {
        AppView { config: ProjectConfigView { who_mode: mode, ..self.config }, ..self }
    }

    /// What a key does where the mode is chosen.
    pub open spec fn on_who_mode(self, key: Key) -> AppView {
        match key {
            Key::Char('q') => AppView { should_quit: true, ..self },
            Key::Up | Key::Char('k') => if self.config.who_mode > 0 {
                self.with_who_mode((self.config.who_mode - 1) as nat)
            } else {
                self
            },
            Key::Down | Key::Char('j') => if self.config.who_mode < 2 {
                self.with_who_mode(self.config.who_mode + 1)
            } else {
                self
            },
            Key::Char('1') => self.with_who_mode(0),
            Key::Char('2') => self.with_who_mode(1),
            Key::Char('3') => self.with_who_mode(2),
            Key::Tab | Key::Enter => self.goes(Screen::Review, "review configuration"@),
            Key::Esc => self.goes(Screen::ConfigureExposure, "configure exposure variable"@),
            _ => self,
        }
    }

    /// What a key does where the project is reviewed.
    pub open spec fn on_review(self, key: Key) -> AppView {
        match key {
            Key::Char('q') => AppView { should_quit: true, ..self },
            Key::Enter => self.goes(Screen::Creating, "creating project..."@),
            Key::Esc => self.goes(Screen::ConfigureWhoMode, "select BMI/exercise variable mode"@),
            _ => self,
        }
    }

    /// What a key does.  While the project is made no key does anything;
    /// once it is made, any key ends the setup.
    pub open spec fn step(self, key: Key, home: Option<Seq<char>>) -> AppView {
        match self.screen {
            Screen::Welcome => self.on_welcome(key),
            Screen::TemplateSelect => self.on_template_select(key),
            Screen::ProjectName => self.on_project_name(key, home),
            Screen::ConfigureDataSource | Screen::ConfigureOutputRoot => self.on_path(key, home),
            Screen::ConfigureExposure => self.on_exposure(key),
            Screen::ConfigureWhoMode => self.on_who_mode(key),
            Screen::Review => self.on_review(key),
            Screen::Creating => self,
            Screen::Done => AppView { should_quit: true, ..self },
        }
    }
}

/// No key leads out of the states in which the setup can be.
pub proof fn lemma_step_keeps_wf(app: AppView, key: Key, home: Option<Seq<char>>)
    requires
        app.wf(),
    ensures
        app.step(key, home).wf(),
{
}

/// The text with `c` put in at the character index `pos`.
pub fn insert_char(text: &str, pos: usize, c: char) -> (r: String)
    requires
        pos <= text@.len(),
    ensures
        r@ == text@.insert(pos as int, c),
{
    let n = text.unicode_len();
    let mut r = substring(text, 0, pos);
    r.push(c);
    let tail = substring(text, pos, n);
    r.append(tail.as_str());
    assert(r@ =~= text@.insert(pos as int, c));
    r
}

/// The text without the character at the character index `pos`.
pub fn remove_char(text: &str, pos: usize) -> (r: String)
    requires
        pos < text@.len(),
    ensures
        r@ == text@.remove(pos as int),
{
    let n = text.unicode_len();
    let mut r = substring(text, 0, pos);
    let tail = substring(text, pos + 1, n);
    r.append(tail.as_str());
    assert(r@ =~= text@.remove(pos as int));
    r
}

impl App {
    /// The setup at its beginning, with the paths that the configuration
    /// knows and the mode that it names.
    pub fn new(user_config: &Config, who_mode: Option<&str>) -> (app: App)
        ensures
            app@.wf(),
            app@ == (AppView {
                screen: Screen::Welcome,
                config: ProjectConfigView {
                    template: Seq::empty(),
                    name: Seq::empty(),
                    pull_data: match opt_view(user_config.pull_data) {
                        Some(p) => p,
                        None => Seq::empty(),
                    },
                    output_root: match opt_view(user_config.push_mods) {
                        Some(p) => p,
                        None => Seq::empty(),
                    },
                    exposure: "exposure_var"@,
                    who_mode: who_mode_of(opt_str_view(who_mode)),
                },
                menu_len: 2,
                selected_menu: 0,
                input_buffer: Seq::empty(),
                cursor_pos: 0,
                status_message: "press enter or space to continue"@,
                status_is_error: false,
                should_quit: false,
                tick: 0,
                editing_field: EditingField::Idle,
            }),
    {
        let mut menu_items: Vec<MenuItem> = Vec::new();
        menu_items.push(
            MenuItem::new(
                "GRF  - Generalised Random Forests",
                "Heterogeneous treatment effects with causal forests",
                'g',
            ),
        );
        menu_items.push(
            MenuItem::new("LMTP - Longitudinal Modified Treatment Policies", "Coming soon...", 'l'),
        );
        let mode: usize = match who_mode {
            Some(m) => if str_eq(m, "cat") {
                1
            } else if str_eq(m, "num") {
                2
            } else {
                0
            },
            None => 0,
        };
        let config = ProjectConfig {
            template: String::new(),
            name: String::new(),
            pull_data: match &user_config.pull_data {
                Some(p) => p.clone(),
                None => String::new(),
            },
            output_root: match &user_config.push_mods {
                Some(p) => p.clone(),
                None => String::new(),
            },
            exposure: "exposure_var".to_owned(),
            who_mode: mode,
        };
        App {
            screen: Screen::Welcome,
            config,
            menu_items,
            selected_menu: 0,
            input_buffer: String::new(),
            cursor_pos: 0,
            status_message: "press enter or space to continue".to_owned(),
            status_is_error: false,
            should_quit: false,
            tick: 0,
            editing_field: EditingField::Idle,
        }
    }

    /// Whether the setup is in a state that keys can be taken in.
    pub fn is_well_formed(&self) -> (r: bool)
        ensures
            r == self@.wf(),
    {
        let editing = self.screen == Screen::ProjectName || self.screen
            == Screen::ConfigureDataSource || self.screen == Screen::ConfigureOutputRoot
            || self.editing_field == EditingField::ExposureName;
        let early = self.screen == Screen::Welcome || self.screen == Screen::TemplateSelect;
        self.selected_menu < self.menu_items.len() && self.config.who_mode <= 2 && (!(editing
            || early) || self.cursor_pos <= self.input_buffer.as_str().unicode_len()) && (
        self.editing_field != EditingField::ExposureName || self.screen
            == Screen::ConfigureExposure)
    }

    fn say(&mut self, message: &str)
        ensures
            final(self)@ == old(self)@.says(message@),
            final(self).menu_items == old(self).menu_items,
    {
        self.status_message = message.to_owned();
    }

    fn go(&mut self, screen: Screen, message: &str)
        ensures
            final(self)@ == old(self)@.goes(screen, message@),
            final(self).menu_items == old(self).menu_items,
    {
        self.screen = screen;
        self.status_message = message.to_owned();
    }

    fn set_input(&mut self, input: String)
        ensures
            final(self)@ == old(self)@.with_input(input@),
            final(self).menu_items == old(self).menu_items,
    {
        self.cursor_pos = input.as_str().unicode_len();
        self.input_buffer = input;
    }

    fn type_char(&mut self, c: char)
        requires
            old(self).cursor_pos <= old(self).input_buffer@.len(),
        ensures
            final(self)@ == old(self)@.typed(c),
            final(self).menu_items == old(self).menu_items,
    {
        if self.cursor_pos < usize::MAX {
            self.input_buffer = insert_char(self.input_buffer.as_str(), self.cursor_pos, c);
            self.cursor_pos = self.cursor_pos + 1;
        }
    }

    fn erase(&mut self)
        requires
            old(self).cursor_pos <= old(self).input_buffer@.len(),
        ensures
            final(self)@ == old(self)@.erased(),
            final(self).menu_items == old(self).menu_items,
    {
        if self.cursor_pos > 0 {
            self.cursor_pos = self.cursor_pos - 1;
            self.input_buffer = remove_char(self.input_buffer.as_str(), self.cursor_pos);
        }
    }

    fn move_cursor(&mut self, right: bool)
        ensures
            final(self)@ == old(self)@.moved(right),
            final(self).menu_items == old(self).menu_items,
    {
        if right {
            if self.cursor_pos < self.input_buffer.as_str().unicode_len() {
                self.cursor_pos = self.cursor_pos + 1;
            }
        } else if self.cursor_pos > 0 {
            self.cursor_pos = self.cursor_pos - 1;
        }
    }

    fn path_input(known: &str, home: Option<&str>) -> (r: String)
        ensures
            r@ == AppView::path_input(known@, opt_str_view(home)),
    {
        if known.is_empty() {
            match home {
                Some(h) => h.to_owned(),
                None => String::new(),
            }
        } else {
            known.to_owned()
        }
    }

    fn key_on_welcome(&mut self, key: Key)
        ensures
            final(self)@ == old(self)@.on_welcome(key),
            final(self).menu_items == old(self).menu_items,
    {
        match key {
            Key::Enter | Key::Char(' ') => {
                self.go(Screen::TemplateSelect, "select a template with arrow keys, press enter");
            },
            Key::Char('q') | Key::Esc => {
                self.should_quit = true;
            },
            _ => {},
        }
    }

    fn key_on_template_select(&mut self, key: Key)
        requires
            old(self)@.wf(),
        ensures
            final(self)@ == old(self)@.on_template_select(key),
            final(self).menu_items == old(self).menu_items,
    {
        match key {
            Key::Up | Key::Char('k') => {
                if self.selected_menu > 0 {
                    self.selected_menu = self.selected_menu - 1;
                }
            },
            Key::Down | Key::Char('j') => {
                if self.selected_menu < self.menu_items.len() - 1 {
                    self.selected_menu = self.selected_menu + 1;
                }
            },
            Key::Enter | Key::Char('g') => {
                if self.selected_menu == 0 {
                    self.config.template = "grf".to_owned();
                    self.go(Screen::ProjectName, "enter project name");
                }
            },
            Key::Char('l') => {
                self.say("LMTP template coming soon");
                self.status_is_error = true;
            },
            Key::Char('q') | Key::Esc => {
                self.should_quit = true;
            },
            _ => {},
        }
    }

    fn key_on_project_name(&mut self, key: Key, home: Option<&str>)
        requires
            old(self)@.wf(),
            old(self).screen == Screen::ProjectName,
        ensures
            final(self)@ == old(self)@.on_project_name(key, opt_str_view(home)),
            final(self).menu_items == old(self).menu_items,
    {
        match key {
            Key::Char(c) => {
                if c.is_alphanumeric() || c == '-' || c == '_' {
                    self.type_char(c);
                    self.status_is_error = false;
                }
            },
            Key::Backspace => {
                self.erase();
            },
            Key::Left => {
                self.move_cursor(false);
            },
            Key::Right => {
                self.move_cursor(true);
            },
            Key::Enter => {
                if self.input_buffer.as_str().is_empty() {
                    self.say("project name cannot be empty");
                    self.status_is_error = true;
                } else {
                    self.config.name = self.input_buffer.clone();
                    let input = App::path_input(self.config.pull_data.as_str(), home);
                    self.set_input(input);
                    self.go(Screen::ConfigureDataSource, "enter data source path");
                }
            },
            Key::Esc => {
                self.input_buffer = String::new();
                self.cursor_pos = 0;
                self.go(Screen::TemplateSelect, "select a template type");
            },
            _ => {},
        }
    }

    fn key_on_path(&mut self, key: Key, home: Option<&str>)
        requires
            old(self)@.wf(),
            old(self).screen == Screen::ConfigureDataSource || old(self).screen
                == Screen::ConfigureOutputRoot,
        ensures
            final(self)@ == old(self)@.on_path(key, opt_str_view(home)),
            final(self).menu_items == old(self).menu_items,
    {
        let source = self.screen == Screen::ConfigureDataSource;
        match key {
            Key::Char(c) => {
                self.type_char(c);
            },
            Key::Backspace => {
                self.erase();
            },
            Key::Left => {
                self.move_cursor(false);
            },
            Key::Right => {
                self.move_cursor(true);
            },
            Key::Tab | Key::Enter => {
                if source {
                    self.config.pull_data = self.input_buffer.clone();
                    let input = App::path_input(self.config.output_root.as_str(), home);
                    self.set_input(input);
                    self.go(Screen::ConfigureOutputRoot, "enter output root path");
                } else {
                    self.config.output_root = self.input_buffer.clone();
                    let input = self.config.exposure.clone();
                    self.set_input(input);
                    self.go(Screen::ConfigureExposure, "enter exposure variable name");
                }
            },
            Key::Esc => {
                if source {
                    let input = self.config.name.clone();
                    self.set_input(input);
                    self.go(Screen::ProjectName, "enter project name");
                } else {
                    let input = self.config.pull_data.clone();
                    self.set_input(input);
                    self.go(Screen::ConfigureDataSource, "enter data source path");
                }
            },
            _ => {},
        }
    }

    fn key_on_exposure(&mut self, key: Key)
        requires
            old(self)@.wf(),
            old(self).screen == Screen::ConfigureExposure,
        ensures
            final(self)@ == old(self)@.on_exposure(key),
            final(self).menu_items == old(self).menu_items,
    {
        let editing = self.editing_field == EditingField::ExposureName;
        match key {
            Key::Char(c) => {
                if c.is_alphanumeric() || c == '_' {
                    if !editing {
                        self.editing_field = EditingField::ExposureName;
                        let input = self.config.exposure.clone();
                        self.set_input(input);
                    }
                    self.type_char(c);
                }
            },
            Key::Backspace => {
                if editing {
                    self.erase();
                }
            },
            Key::Left => {
                self.move_cursor(false);
            },
            Key::Right => {
                self.move_cursor(true);
            },
            Key::Tab | Key::Enter => {
                if editing {
                    self.config.exposure = self.input_buffer.clone();
                    self.editing_field = EditingField::Idle;
                    self.input_buffer = String::new();
                }
                self.go(Screen::ConfigureWhoMode, "select BMI/exercise variable mode");
            },
            Key::Esc => {
                self.editing_field = EditingField::Idle;
                let input = self.config.output_root.clone();
                self.set_input(input);
                self.go(Screen::ConfigureOutputRoot, "enter output root path");
            },
            _ => {},
        }
    }

    fn key_on_who_mode(&mut self, key: Key)
        requires
            old(self)@.wf(),
        ensures
            final(self)@ == old(self)@.on_who_mode(key),
            final(self).menu_items == old(self).menu_items,
    {
        match key {
            Key::Char('q') => {
                self.should_quit = true;
            },
            Key::Up | Key::Char('k') => {
                if self.config.who_mode > 0 {
                    self.config.who_mode = self.config.who_mode - 1;
                }
            },
            Key::Down | Key::Char('j') => {
                if self.config.who_mode < 2 {
                    self.config.who_mode = self.config.who_mode + 1;
                }
            },
            Key::Char('1') => {
                self.config.who_mode = 0;
            },
            Key::Char('2') => {
                self.config.who_mode = 1;
            },
            Key::Char('3') => {
                self.config.who_mode = 2;
            },
            Key::Tab | Key::Enter => {
                self.go(Screen::Review, "review configuration");
            },
            Key::Esc => {
                self.go(Screen::ConfigureExposure, "configure exposure variable");
            },
            _ => {},
        }
    }

    fn key_on_review(&mut self, key: Key)
        ensures
            final(self)@ == old(self)@.on_review(key),
            final(self).menu_items == old(self).menu_items,
    {
        match key {
            Key::Char('q') => {
                self.should_quit = true;
            },
            Key::Enter => {
                self.go(Screen::Creating, "creating project...");
            },
            Key::Esc => {
                self.go(Screen::ConfigureWhoMode, "select BMI/exercise variable mode");
            },
            _ => {},
        }
    }

    /// Takes a key, given the user's home directory.
    pub fn handle_key_at(&mut self, key: Key, home: Option<&str>)
        requires
            old(self)@.wf(),
        ensures
            final(self)@ == old(self)@.step(key, opt_str_view(home)),
            final(self)@.wf(),
            final(self).menu_items == old(self).menu_items,
    {
        proof {
            lemma_step_keeps_wf(self@, key, opt_str_view(home));
        }
        match self.screen {
            Screen::Welcome => self.key_on_welcome(key),
            Screen::TemplateSelect => self.key_on_template_select(key),
            Screen::ProjectName => self.key_on_project_name(key, home),
            Screen::ConfigureDataSource | Screen::ConfigureOutputRoot => self.key_on_path(key, home),
            Screen::ConfigureExposure => self.key_on_exposure(key),
            Screen::ConfigureWhoMode => self.key_on_who_mode(key),
            Screen::Review => self.key_on_review(key),
            Screen::Creating => {},
            Screen::Done => {
                self.should_quit = true;
            },
        }
    }

    /// The outcome of making the project: on success the setup is done, on
    /// failure it is back at the review, with the error shown.
    pub fn project_created(&mut self, path: &str, error: Option<&str>)
        ensures
            final(self)@ == (match opt_str_view(error) {
                None => old(self)@.goes(Screen::Done, "created: "@ + path@),
                Some(e) => AppView {
                    status_is_error: true,
                    ..old(self)@.goes(Screen::Review, "error: "@ + e)
                },
            }),
            final(self).menu_items == old(self).menu_items,
    {
        match error {
            None => {
                let message = concat("created: ", path);
                self.go(Screen::Done, message.as_str());
            },
            Some(e) => {
                let message = concat("error: ", e);
                self.go(Screen::Review, message.as_str());
                self.status_is_error = true;
            },
        }
    }

    /// Counts one more tick of the animation; the count wraps around.
    pub fn advance_tick(&mut self)
        ensures
            final(self)@ == (AppView {
                tick: if old(self).tick == u64::MAX {
                    0
                } else {
                    (old(self).tick + 1) as u64
                },
                ..old(self)@
            }),
            final(self).menu_items == old(self).menu_items,
    {
        self.tick = if self.tick == u64::MAX {
            0
        } else {
            self.tick + 1
        };
    }
}

/// The keys that the status bar names on a screen.
pub fn keybinds(screen: Screen) -> (r: &'static str)
    ensures
        r@ == (match screen {
            Screen::Welcome => " enter:continue  q:quit "@,
            Screen::TemplateSelect => " j/k:navigate  enter:select  q:quit "@,
            Screen::ProjectName => " enter:continue  esc:back "@,
            Screen::ConfigureDataSource | Screen::ConfigureOutputRoot =>
                " type/paste path  tab:continue  esc:back "@,
            Screen::ConfigureExposure => " type to edit  tab:next  esc:back "@,
            Screen::ConfigureWhoMode => " j/k:select  enter:next  esc:back  q:quit "@,
            Screen::Review => " enter:create  esc:back  q:quit "@,
            Screen::Done => " any key:exit "@,
            Screen::Creating => " q:quit "@,
        }),
{
    match screen {
        Screen::Welcome => " enter:continue  q:quit ",
        Screen::TemplateSelect => " j/k:navigate  enter:select  q:quit ",
        Screen::ProjectName => " enter:continue  esc:back ",
        Screen::ConfigureDataSource | Screen::ConfigureOutputRoot =>
            " type/paste path  tab:continue  esc:back ",
        Screen::ConfigureExposure => " type to edit  tab:next  esc:back ",
        Screen::ConfigureWhoMode => " j/k:select  enter:next  esc:back  q:quit ",
        Screen::Review => " enter:create  esc:back  q:quit ",
        Screen::Done => " any key:exit ",
        Screen::Creating => " q:quit ",
    }
}

/// The name of a mode.
pub fn who_mode_name(mode: usize) -> (r: &'static str)
    ensures
        r@ == (if mode == 1 {
            "cat"@
        } else if mode == 2 {
            "num"@
        } else {
            "default"@
        }),
{
    if mode == 1 {
        "cat"
    } else if mode == 2 {
        "num"
    } else {
        "default"
    }
}

} // verus!
