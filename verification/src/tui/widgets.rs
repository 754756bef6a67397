//! What the screens of the guided setup are made of.

use vstd::prelude::*;

verus! {

/// The welcome screen with the logo.
#[derive(Debug, Clone, Copy, PartialEq, Eq, Structural)]
pub struct WelcomeScreen {
    /// The tick of the animation.
    pub tick: u64,
}

impl WelcomeScreen {
    /// The welcome screen at a tick of the animation.
    pub fn new(tick: u64) -> (w: WelcomeScreen)
        ensures
            w.tick == tick,
    {
        WelcomeScreen { tick }
    }

    /// Whether the blinking prompt is shown: in every other run of ten
    /// ticks, where the screen is more than fourteen rows high.
    pub fn shows_prompt(&self, height: u16) -> (r: bool)
        ensures
            r == ((self.tick / 10) % 2 == 0 && height > 14),
    {
        (self.tick / 10) % 2 == 0 && height > 14
    }
}

impl Default for WelcomeScreen {
    fn default() -> (w: WelcomeScreen)
        ensures
            w.tick == 0,
    {
        WelcomeScreen { tick: 0 }
    }
}

/// The map, which is animated.
#[derive(Debug, Clone, Copy, PartialEq, Eq, Structural)]
pub struct NzMapCanvas {
    /// The tick of the animation.
    pub tick: u64,
}

impl NzMapCanvas {
    /// The map at a tick of the animation.
    pub fn new(tick: u64) -> (c: NzMapCanvas)
        ensures
            c.tick == tick,
    {
        NzMapCanvas { tick }
    }

    /// The place of the tick in the cycle of sixty ticks in which the
    /// colour of the map pulses.
    pub fn phase_step(&self) -> (r: u64)
        ensures
            r == self.tick % 60,
    {
        self.tick % 60
    }
}

/// An item of the menu of kinds of project.
#[derive(Debug, Clone)]
pub struct MenuItem {
    pub label: String,
    pub description: String,
    /// The key that selects the item.
    pub key: char,
}

impl MenuItem {
    /// An item with its label, its description and its key.
    pub fn new(label: &str, description: &str, key: char) -> (item: MenuItem)
        ensures
            item.label@ == label@,
            item.description@ == description@,
            item.key == key,
    {
        MenuItem { label: label.to_owned(), description: description.to_owned(), key }
    }
}

/// The menu of kinds of project.
#[derive(Debug, Clone, Copy)]
pub struct TemplateMenu<'a> {
    pub items: &'a [MenuItem],
    pub selected: usize,
}

impl<'a> TemplateMenu<'a> {
    /// The menu of the items, with one selected.
    pub fn new(items: &'a [MenuItem], selected: usize) -> (menu: TemplateMenu<'a>)
        ensures
            menu.items@ == items@,
            menu.selected == selected,
    {
        TemplateMenu { items, selected }
    }

    /// The row on which an item begins, below the row `top`: each item
    /// takes two rows.  There is none if the item lies beyond the last row
    /// `top + height - 1`.
    pub fn item_row(&self, index: usize, top: u16, height: u16) -> (r: Option<u16>)
        ensures
            r == (if top + 2 * index < top + height && top + 2 * index <= u16::MAX {
                Some((top + 2 * index) as u16)
            } else {
                None
            }),
    {
        if index > (u16::MAX as usize) / 2 {
            return None;
        }
        let offset: u32 = 2 * (index as u32);
        let row: u32 = top as u32 + offset;
        if row < top as u32 + height as u32 && row <= u16::MAX as u32 {
            Some(row as u16)
        } else {
            None
        }
    }
}

/// A field in which a text is typed.
#[derive(Debug, Clone, Copy)]
pub struct InputField<'a> {
    pub label: &'a str,
    pub value: &'a str,
    pub focused: bool,
    pub cursor_pos: usize,
}

impl<'a> InputField<'a> {
    /// A field with its label, its value and its cursor.
    pub fn new(label: &'a str, value: &'a str, focused: bool, cursor_pos: usize) -> (field:
        InputField<'a>)
        ensures
            field.label@ == label@,
            field.value@ == value@,
            field.focused == focused,
            field.cursor_pos == cursor_pos,
    {
        InputField { label, value, focused, cursor_pos }
    }

    /// The column of the cursor in a field whose inside begins at the
    /// column `left` and is `width` columns wide: one column in from the
    /// left, and shown only in a focused field and before the last column.
    pub fn cursor_column(&self, left: u16, width: u16) -> (r: Option<u16>)
        ensures
            r == (if self.focused && width > 2 && left + 1 + self.cursor_pos < left + width - 1 {
                Some((left + 1 + self.cursor_pos) as u16)
            } else {
                None
            }),
    {
        if !self.focused || width <= 2 || self.cursor_pos > u16::MAX as usize {
            return None;
        }
        let column: u32 = left as u32 + 1 + self.cursor_pos as u32;
        if column < left as u32 + width as u32 - 1 {
            Some(column as u16)
        } else {
            None
        }
    }
}

/// The bar at the bottom of the screen.
#[derive(Debug, Clone, Copy)]
pub struct StatusBar<'a> {
    pub message: &'a str,
    pub is_error: bool,
    pub keybinds: &'a str,
}

impl<'a> StatusBar<'a> {
    /// A bar with a message and the keys that are named everywhere.
    pub fn new(message: &'a str, is_error: bool) -> (bar: StatusBar<'a>)
        ensures
            bar.message@ == message@,
            bar.is_error == is_error,
            bar.keybinds@ == " q:quit  j/k:navigate  enter:select "@,
    {
        StatusBar { message, is_error, keybinds: " q:quit  j/k:navigate  enter:select " }
    }

    /// The bar naming other keys.
    pub fn with_keybinds(self, keybinds: &'a str) -> (bar: StatusBar<'a>)
        ensures
            bar.message@ == self.message@,
            bar.is_error == self.is_error,
            bar.keybinds@ == keybinds@,
    {
        StatusBar { message: self.message, is_error: self.is_error, keybinds }
    }
}

} // verus!
