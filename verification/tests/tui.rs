use margo::config::Config;
use margo::tui::widgets::{InputField, MenuItem, NzMapCanvas, StatusBar, TemplateMenu, WelcomeScreen};
use margo::tui::{
    insert_char, keybinds, remove_char, who_mode_name, App, EditingField, Key, ProjectConfig, Screen,
};

fn app() -> App {
    let mut config = Config::default();
    config.pull_data = Some("/data".to_string());
    App::new(&config, None)
}

fn type_text(app: &mut App, text: &str) {
    for c in text.chars() {
        app.handle_key_at(Key::Char(c), Some("/home/ada"));
    }
}

#[test]
fn new_app_starts_at_the_welcome_screen() {
    let mut config = Config::default();
    config.push_mods = Some("/out".to_string());
    let a = App::new(&config, Some("num"));
    assert_eq!(a.screen, Screen::Welcome);
    assert_eq!(a.menu_items.len(), 2);
    assert_eq!(a.menu_items[0].key, 'g');
    assert_eq!(a.menu_items[1].label, "LMTP - Longitudinal Modified Treatment Policies");
    assert_eq!(a.config.pull_data, "");
    assert_eq!(a.config.output_root, "/out");
    assert_eq!(a.config.exposure, "exposure_var");
    assert_eq!(a.config.who_mode, 2);
    assert_eq!(App::new(&config, Some("cat")).config.who_mode, 1);
    assert_eq!(App::new(&config, Some("x")).config.who_mode, 0);
    assert_eq!(a.status_message, "press enter or space to continue");
    assert!(!a.should_quit && !a.status_is_error);
    assert_eq!(a.editing_field, EditingField::Idle);
}

#[test]
fn the_whole_setup_can_be_walked_through() {
    let mut a = app();
    a.handle_key_at(Key::Char(' '), None);
    assert_eq!(a.screen, Screen::TemplateSelect);
    a.handle_key_at(Key::Down, None);
    assert_eq!(a.selected_menu, 1);
    a.handle_key_at(Key::Down, None);
    assert_eq!(a.selected_menu, 1);
    a.handle_key_at(Key::Enter, None);
    assert_eq!(a.screen, Screen::TemplateSelect);
    a.handle_key_at(Key::Char('l'), None);
    assert!(a.status_is_error);
    assert_eq!(a.status_message, "LMTP template coming soon");
    a.handle_key_at(Key::Char('k'), None);
    a.handle_key_at(Key::Char('g'), None);
    assert_eq!(a.screen, Screen::ProjectName);
    assert_eq!(a.config.template, "grf");
    a.handle_key_at(Key::Enter, None);
    assert_eq!(a.status_message, "project name cannot be empty");
    type_text(&mut a, "my study!-1");
    assert_eq!(a.input_buffer, "mystudy-1");
    assert!(!a.status_is_error);
    a.handle_key_at(Key::Left, None);
    a.handle_key_at(Key::Left, None);
    a.handle_key_at(Key::Backspace, None);
    assert_eq!(a.input_buffer, "mystud-1");
    assert_eq!(a.cursor_pos, 6);
    type_text(&mut a, "y_");
    assert_eq!(a.input_buffer, "mystudy_-1");
    a.handle_key_at(Key::Right, None);
    a.handle_key_at(Key::Right, None);
    a.handle_key_at(Key::Right, None);
    assert_eq!(a.cursor_pos, 10);
    a.handle_key_at(Key::Enter, Some("/home/ada"));
    assert_eq!(a.screen, Screen::ConfigureDataSource);
    assert_eq!(a.config.name, "mystudy_-1");
    assert_eq!(a.input_buffer, "/data");
    type_text(&mut a, "/x y");
    a.handle_key_at(Key::Tab, Some("/home/ada"));
    assert_eq!(a.config.pull_data, "/data/x y");
    assert_eq!(a.screen, Screen::ConfigureOutputRoot);
    assert_eq!(a.input_buffer, "/home/ada");
    a.handle_key_at(Key::Enter, None);
    assert_eq!(a.config.output_root, "/home/ada");
    assert_eq!(a.screen, Screen::ConfigureExposure);
    assert_eq!(a.input_buffer, "exposure_var");
    a.handle_key_at(Key::Backspace, None);
    assert_eq!(a.input_buffer, "exposure_var");
    type_text(&mut a, "2-");
    assert_eq!(a.editing_field, EditingField::ExposureName);
    assert_eq!(a.input_buffer, "exposure_var2");
    a.handle_key_at(Key::Backspace, None);
    a.handle_key_at(Key::Enter, None);
    assert_eq!(a.config.exposure, "exposure_var");
    assert_eq!(a.screen, Screen::ConfigureWhoMode);
    assert_eq!(a.input_buffer, "");
    a.handle_key_at(Key::Char('3'), None);
    assert_eq!(a.config.who_mode, 2);
    a.handle_key_at(Key::Down, None);
    assert_eq!(a.config.who_mode, 2);
    a.handle_key_at(Key::Char('k'), None);
    assert_eq!(a.config.who_mode, 1);
    a.handle_key_at(Key::Char('1'), None);
    a.handle_key_at(Key::Up, None);
    assert_eq!(a.config.who_mode, 0);
    a.handle_key_at(Key::Char('2'), None);
    a.handle_key_at(Key::Tab, None);
    assert_eq!(a.screen, Screen::Review);
    a.handle_key_at(Key::Enter, None);
    assert_eq!(a.screen, Screen::Creating);
    a.handle_key_at(Key::Char('q'), None);
    assert!(!a.should_quit);
    a.project_created("/p", Some("disk full"));
    assert_eq!(a.screen, Screen::Review);
    assert_eq!(a.status_message, "error: disk full");
    assert!(a.status_is_error);
    a.handle_key_at(Key::Enter, None);
    a.project_created("/p", None);
    assert_eq!(a.screen, Screen::Done);
    assert_eq!(a.status_message, "created: /p");
    a.handle_key_at(Key::Other, None);
    assert!(a.should_quit);
}

#[test]
fn escape_leads_back_screen_by_screen() {
    let mut a = app();
    a.handle_key_at(Key::Enter, None);
    a.handle_key_at(Key::Enter, None);
    type_text(&mut a, "n");
    a.handle_key_at(Key::Enter, None);
    a.handle_key_at(Key::Enter, None);
    a.handle_key_at(Key::Enter, None);
    a.handle_key_at(Key::Enter, None);
    a.handle_key_at(Key::Enter, None);
    assert_eq!(a.screen, Screen::Review);
    a.handle_key_at(Key::Esc, None);
    assert_eq!(a.screen, Screen::ConfigureWhoMode);
    a.handle_key_at(Key::Esc, None);
    assert_eq!(a.screen, Screen::ConfigureExposure);
    assert_eq!(a.status_message, "configure exposure variable");
    a.handle_key_at(Key::Esc, None);
    assert_eq!(a.screen, Screen::ConfigureOutputRoot);
    assert_eq!(a.input_buffer, "");
    a.handle_key_at(Key::Esc, None);
    assert_eq!(a.screen, Screen::ConfigureDataSource);
    assert_eq!(a.input_buffer, "/data");
    a.handle_key_at(Key::Esc, None);
    assert_eq!(a.screen, Screen::ProjectName);
    assert_eq!((a.input_buffer.as_str(), a.cursor_pos), ("n", 1));
    a.handle_key_at(Key::Esc, None);
    assert_eq!(a.screen, Screen::TemplateSelect);
    assert_eq!((a.input_buffer.as_str(), a.cursor_pos), ("", 0));
    a.handle_key_at(Key::Esc, None);
    assert!(a.should_quit);
}

#[test]
fn quitting_is_possible_where_nothing_is_typed() {
    let mut a = app();
    a.handle_key_at(Key::Char('q'), None);
    assert!(a.should_quit);
    let mut a = app();
    a.handle_key_at(Key::Enter, None);
    a.handle_key_at(Key::Enter, None);
    a.handle_key_at(Key::Char('q'), None);
    assert!(!a.should_quit);
    assert_eq!(a.input_buffer, "q");
    a.handle_key_at(Key::Char('é'), None);
    assert_eq!((a.input_buffer.as_str(), a.cursor_pos), ("qé", 2));
    a.handle_key_at(Key::Char('x'), None);
    a.handle_key_at(Key::Left, None);
    a.handle_key_at(Key::Backspace, None);
    assert_eq!((a.input_buffer.as_str(), a.cursor_pos), ("qx", 1));
}

#[test]
fn ticks_wrap_around() {
    let mut a = app();
    a.advance_tick();
    assert_eq!(a.tick, 1);
    a.tick = u64::MAX;
    a.advance_tick();
    assert_eq!(a.tick, 0);
}

#[test]
fn characters_are_inserted_and_removed_by_index() {
    assert_eq!(insert_char("", 0, 'a'), "a");
    assert_eq!(insert_char("ac", 1, 'b'), "abc");
    assert_eq!(insert_char("éa", 1, 'ü'), "éüa");
    assert_eq!(insert_char("ab", 2, 'c'), "abc");
    assert_eq!(remove_char("abc", 0), "bc");
    assert_eq!(remove_char("aéc", 1), "ac");
    assert_eq!(remove_char("a", 0), "");
}

#[test]
fn project_paths_are_suggested() {
    let mut c = ProjectConfig::default();
    assert_eq!(c.exposure, "exposure_var");
    c.name = "trial".to_string();
    assert_eq!(c.suggested_folder(2026), "2026-exposure_var-trial");
    assert_eq!(c.full_project_path(2026), "2026-exposure_var-trial");
    c.exposure = String::new();
    c.output_root = "/out".to_string();
    assert_eq!(c.suggested_folder(987), "987-study-trial");
    assert_eq!(c.full_project_path(987), "/out/987-study-trial");
}

#[test]
fn status_bar_names_the_keys_of_each_screen() {
    assert_eq!(keybinds(Screen::Welcome), " enter:continue  q:quit ");
    assert_eq!(keybinds(Screen::TemplateSelect), " j/k:navigate  enter:select  q:quit ");
    assert_eq!(keybinds(Screen::ProjectName), " enter:continue  esc:back ");
    assert_eq!(keybinds(Screen::ConfigureDataSource), keybinds(Screen::ConfigureOutputRoot));
    assert_eq!(keybinds(Screen::ConfigureExposure), " type to edit  tab:next  esc:back ");
    assert_eq!(keybinds(Screen::ConfigureWhoMode), " j/k:select  enter:next  esc:back  q:quit ");
    assert_eq!(keybinds(Screen::Review), " enter:create  esc:back  q:quit ");
    assert_eq!(keybinds(Screen::Done), " any key:exit ");
    assert_eq!(keybinds(Screen::Creating), " q:quit ");
    assert_eq!(who_mode_name(0), "default");
    assert_eq!(who_mode_name(1), "cat");
    assert_eq!(who_mode_name(2), "num");
    assert_eq!(who_mode_name(7), "default");
}

#[test]
fn widgets_keep_what_they_are_given() {
    assert_eq!(WelcomeScreen::new(7).tick, 7);
    assert_eq!(WelcomeScreen::default().tick, 0);
    assert!(WelcomeScreen::new(9).shows_prompt(15));
    assert!(!WelcomeScreen::new(10).shows_prompt(15));
    assert!(WelcomeScreen::new(20).shows_prompt(15));
    assert!(!WelcomeScreen::new(0).shows_prompt(14));
    assert_eq!(NzMapCanvas::new(61).tick, 61);
    assert_eq!(NzMapCanvas::new(61).phase_step(), 1);
    let item = MenuItem::new("GRF", "forests", 'g');
    assert_eq!((item.label.as_str(), item.description.as_str(), item.key), ("GRF", "forests", 'g'));
    let items = vec![item.clone(), item];
    let menu = TemplateMenu::new(&items, 1);
    assert_eq!((menu.items.len(), menu.selected), (2, 1));
    assert_eq!(menu.item_row(0, 3, 10), Some(3));
    assert_eq!(menu.item_row(4, 3, 10), Some(11));
    assert_eq!(menu.item_row(5, 3, 10), None);
    assert_eq!(menu.item_row(1, 65534, 10), None);
    assert_eq!(menu.item_row(usize::MAX, 0, 10), None);
    let field = InputField::new("Name", "abc", true, 2);
    assert_eq!((field.label, field.value, field.focused, field.cursor_pos), ("Name", "abc", true, 2));
    assert_eq!(field.cursor_column(10, 20), Some(13));
    assert_eq!(field.cursor_column(10, 4), None);
    assert_eq!(field.cursor_column(10, 5), Some(13));
    assert_eq!(field.cursor_column(10, 2), None);
    assert_eq!(InputField::new("Name", "abc", false, 2).cursor_column(10, 20), None);
    let bar = StatusBar::new("ok", false);
    assert_eq!((bar.message, bar.is_error, bar.keybinds), ("ok", false, " q:quit  j/k:navigate  enter:select "));
    let bar = StatusBar::new("bad", true).with_keybinds(" q:quit ");
    assert_eq!((bar.message, bar.is_error, bar.keybinds), ("bad", true, " q:quit "));
}
