//! Appearance and key-binding configuration.

use vstd::prelude::*;

verus! {

/// A terminal colour: one of the indexed palette colours, a truecolor value,
/// or whatever the terminal itself uses by default.
#[derive(Clone, Copy, Debug, PartialEq, Eq, Structural)]
pub enum Colour {
    /// An indexed ANSI colour (0 to 7 are the basic palette).
    Basic(u8),
    /// A truecolor value: red, green, blue.
    Rgb(u8, u8, u8),
    /// The terminal's own default colour.
    TerminalDefault,
}

/// A logical key: a printable character or a named control key.
#[derive(Clone, Copy, Debug, PartialEq, Eq, Structural)]
pub enum Key {
    Backspace,
    Left,
    ShiftLeft,
    AltLeft,
    CtrlLeft,
    Right,
    ShiftRight,
    AltRight,
    CtrlRight,
    Up,
    ShiftUp,
    AltUp,
    CtrlUp,
    Down,
    ShiftDown,
    AltDown,
    CtrlDown,
    Home,
    CtrlHome,
    End,
    CtrlEnd,
    PageUp,
    PageDown,
    BackTab,
    Delete,
    Insert,
    /// A function key, by number.
    F(u8),
    /// A printable character.
    Char(char),
    /// A character typed with Alt held.
    Alt(char),
    /// A character typed with Ctrl held.
    Ctrl(char),
    Null,
    Esc,
}

/// The complete configuration the canvas draws with: every field holds a value.
pub struct Config {
    /// Horizontal border glyph.
    pub hline: String,
    /// Vertical border glyph.
    pub vline: String,
    /// Upper left corner glyph.
    pub ulcorner: String,
    /// Upper right corner glyph.
    pub urcorner: String,
    /// Lower left corner glyph.
    pub llcorner: String,
    /// Lower right corner glyph.
    pub lrcorner: String,
    /// Palette colour 0 (black).
    pub colour0: Colour,
    /// Palette colour 1 (red).
    pub colour1: Colour,
    /// Palette colour 2 (green).
    pub colour2: Colour,
    /// Palette colour 3 (yellow).
    pub colour3: Colour,
    /// Palette colour 4 (blue).
    pub colour4: Colour,
    /// Palette colour 5 (magenta).
    pub colour5: Colour,
    /// Palette colour 6 (cyan).
    pub colour6: Colour,
    /// Palette colour 7 (white).
    pub colour7: Colour,
    /// Default foreground colour.
    pub colourfg: Colour,
    /// Default background colour.
    pub colourbg: Colour,
    /// Key to quit.
    pub quit: Key,
    /// Key to return focus to the parent.
    pub back: Key,
    /// Key to write the list to its save file.
    pub save: Key,
    /// Key to add a new task.
    pub add: Key,
    /// Key to edit the selected task.
    pub edit: Key,
    /// Key to delete the selected task.
    pub delete: Key,
    /// Key to move the selected task up.
    pub task_up: Key,
    /// Key to move the selected task down.
    pub task_down: Key,
    /// Key to move the selection up.
    pub up: Key,
    /// Key to move the selection down.
    pub down: Key,
    /// Key to focus on the selected sub-task.
    pub focus: Key,
    /// Key to mark a task completed.
    pub complete: Key,
    /// Key to increase task priority.
    pub increase: Key,
    /// Key to decrease task priority.
    pub decrease: Key,
    /// Key to sort tasks by priority.
    pub sort: Key,
}

/// The built-in glyphs, colours and key bindings, field by field.
pub open spec fn is_default_config(c: Config) -> bool {
    &&& c.hline@ == seq!['─']
    &&& c.vline@ == seq!['│']
    &&& c.ulcorner@ == seq!['┌']
    &&& c.urcorner@ == seq!['┐']
    &&& c.llcorner@ == seq!['└']
    &&& c.lrcorner@ == seq!['┘']
    &&& c.colour0 == Colour::Basic(0)
    &&& c.colour1 == Colour::Basic(1)
    &&& c.colour2 == Colour::Basic(2)
    &&& c.colour3 == Colour::Basic(3)
    &&& c.colour4 == Colour::Basic(4)
    &&& c.colour5 == Colour::Basic(5)
    &&& c.colour6 == Colour::Basic(6)
    &&& c.colour7 == Colour::Basic(7)
    &&& c.colourfg == Colour::TerminalDefault
    &&& c.colourbg == Colour::TerminalDefault
    &&& c.quit == Key::Char('q')
    &&& c.back == Key::Char('b')
    &&& c.save == Key::Char('w')
    &&& c.add == Key::Char('a')
    &&& c.edit == Key::Char('e')
    &&& c.delete == Key::Char('d')
    &&& c.task_up == Key::Char('u')
    &&& c.task_down == Key::Char('n')
    &&& c.up == Key::Up
    &&& c.down == Key::Down
    &&& c.focus == Key::Char('\n')
    &&& c.complete == Key::Char(' ')
    &&& c.increase == Key::Char('>')
    &&& c.decrease == Key::Char('<')
    &&& c.sort == Key::Char('r')
}

impl Config {
    /// The built-in configuration: box-drawing glyphs, the eight basic ANSI
    /// colours with the terminal's default foreground and background, and the
    /// standard key bindings.
    pub fn default() -> (r: Config)
        ensures
            is_default_config(r),
            r.hline@.len() > 0 && r.vline@.len() > 0,
            r.ulcorner@.len() > 0 && r.urcorner@.len() > 0,
            r.llcorner@.len() > 0 && r.lrcorner@.len() > 0,
    {
        proof {
            reveal_strlit("─");
            reveal_strlit("│");
            reveal_strlit("┌");
            reveal_strlit("┐");
            reveal_strlit("└");
            reveal_strlit("┘");
            assert("─"@ =~= seq!['─']);
            assert("│"@ =~= seq!['│']);
            assert("┌"@ =~= seq!['┌']);
            assert("┐"@ =~= seq!['┐']);
            assert("└"@ =~= seq!['└']);
            assert("┘"@ =~= seq!['┘']);
        }
        Config {
            hline: String::from_str("─"),
            vline: String::from_str("│"),
            ulcorner: String::from_str("┌"),
            urcorner: String::from_str("┐"),
            llcorner: String::from_str("└"),
            lrcorner: String::from_str("┘"),
            colour0: Colour::Basic(0),
            colour1: Colour::Basic(1),
            colour2: Colour::Basic(2),
            colour3: Colour::Basic(3),
            colour4: Colour::Basic(4),
            colour5: Colour::Basic(5),
            colour6: Colour::Basic(6),
            colour7: Colour::Basic(7),
            colourfg: Colour::TerminalDefault,
            colourbg: Colour::TerminalDefault,
            quit: Key::Char('q'),
            back: Key::Char('b'),
            save: Key::Char('w'),
            add: Key::Char('a'),
            edit: Key::Char('e'),
            delete: Key::Char('d'),
            task_up: Key::Char('u'),
            task_down: Key::Char('n'),
            up: Key::Up,
            down: Key::Down,
            focus: Key::Char('\n'),
            complete: Key::Char(' '),
            increase: Key::Char('>'),
            decrease: Key::Char('<'),
            sort: Key::Char('r'),
        }
    }
}

/// User overrides of the configuration: every field is optional.
pub struct ConfigBuffer {
    pub hline: Option<String>,
    pub vline: Option<String>,
    pub ulcorner: Option<String>,
    pub urcorner: Option<String>,
    pub llcorner: Option<String>,
    pub lrcorner: Option<String>,
    pub colour0: Option<Colour>,
    pub colour1: Option<Colour>,
    pub colour2: Option<Colour>,
    pub colour3: Option<Colour>,
    pub colour4: Option<Colour>,
    pub colour5: Option<Colour>,
    pub colour6: Option<Colour>,
    pub colour7: Option<Colour>,
    pub colourfg: Option<Colour>,
    pub colourbg: Option<Colour>,
    pub quit: Option<Key>,
    pub back: Option<Key>,
    pub save: Option<Key>,
    pub add: Option<Key>,
    pub edit: Option<Key>,
    pub delete: Option<Key>,
    pub task_up: Option<Key>,
    pub task_down: Option<Key>,
    pub up: Option<Key>,
    pub down: Option<Key>,
    pub focus: Option<Key>,
    pub complete: Option<Key>,
    pub increase: Option<Key>,
    pub decrease: Option<Key>,
    pub sort: Option<Key>,
}

/// The override where one is given, else the default.
pub open spec fn pick<T>(o: Option<T>, d: T) -> T {
    match o {
        Some(v) => v,
        None => d,
    }
}

/// The glyph override where one is given, else the default glyph.
pub open spec fn pick_glyph(o: Option<String>, d: String) -> Seq<char> {
    match o {
        Some(v) => v@,
        None => d@,
    }
}

/// `r` is `b` laid over `d`: each field is the override if present, else the default.
pub open spec fn is_merge(b: ConfigBuffer, d: Config, r: Config) -> bool {
    &&& r.hline@ == pick_glyph(b.hline, d.hline)
    &&& r.vline@ == pick_glyph(b.vline, d.vline)
    &&& r.ulcorner@ == pick_glyph(b.ulcorner, d.ulcorner)
    &&& r.urcorner@ == pick_glyph(b.urcorner, d.urcorner)
    &&& r.llcorner@ == pick_glyph(b.llcorner, d.llcorner)
    &&& r.lrcorner@ == pick_glyph(b.lrcorner, d.lrcorner)
    &&& r.colour0 == pick(b.colour0, d.colour0)
    &&& r.colour1 == pick(b.colour1, d.colour1)
    &&& r.colour2 == pick(b.colour2, d.colour2)
    &&& r.colour3 == pick(b.colour3, d.colour3)
    &&& r.colour4 == pick(b.colour4, d.colour4)
    &&& r.colour5 == pick(b.colour5, d.colour5)
    &&& r.colour6 == pick(b.colour6, d.colour6)
    &&& r.colour7 == pick(b.colour7, d.colour7)
    &&& r.colourfg == pick(b.colourfg, d.colourfg)
    &&& r.colourbg == pick(b.colourbg, d.colourbg)
    &&& r.quit == pick(b.quit, d.quit)
    &&& r.back == pick(b.back, d.back)
    &&& r.save == pick(b.save, d.save)
    &&& r.add == pick(b.add, d.add)
    &&& r.edit == pick(b.edit, d.edit)
    &&& r.delete == pick(b.delete, d.delete)
    &&& r.task_up == pick(b.task_up, d.task_up)
    &&& r.task_down == pick(b.task_down, d.task_down)
    &&& r.up == pick(b.up, d.up)
    &&& r.down == pick(b.down, d.down)
    &&& r.focus == pick(b.focus, d.focus)
    &&& r.complete == pick(b.complete, d.complete)
    &&& r.increase == pick(b.increase, d.increase)
    &&& r.decrease == pick(b.decrease, d.decrease)
    &&& r.sort == pick(b.sort, d.sort)
}

impl ConfigBuffer {
    /// An override that sets nothing.
    pub fn empty() -> (r: ConfigBuffer)
        ensures
            r == ConfigBuffer::none(),
    {
        ConfigBuffer {
            hline: None,
            vline: None,
            ulcorner: None,
            urcorner: None,
            llcorner: None,
            lrcorner: None,
            colour0: None,
            colour1: None,
            colour2: None,
            colour3: None,
            colour4: None,
            colour5: None,
            colour6: None,
            colour7: None,
            colourfg: None,
            colourbg: None,
            quit: None,
            back: None,
            save: None,
            add: None,
            edit: None,
            delete: None,
            task_up: None,
            task_down: None,
            up: None,
            down: None,
            focus: None,
            complete: None,
            increase: None,
            decrease: None,
            sort: None,
        }
    }

    /// The override that sets nothing.
    pub open spec fn none() -> ConfigBuffer {
        ConfigBuffer {
            hline: None,
            vline: None,
            ulcorner: None,
            urcorner: None,
            llcorner: None,
            lrcorner: None,
            colour0: None,
            colour1: None,
            colour2: None,
            colour3: None,
            colour4: None,
            colour5: None,
            colour6: None,
            colour7: None,
            colourfg: None,
            colourbg: None,
            quit: None,
            back: None,
            save: None,
            add: None,
            edit: None,
            delete: None,
            task_up: None,
            task_down: None,
            up: None,
            down: None,
            focus: None,
            complete: None,
            increase: None,
            decrease: None,
            sort: None,
        }
    }

    /// Lay these overrides over `default`: a field takes the override where
    /// one is present and keeps the default otherwise.
    pub fn config(&self, default: Config) -> (r: Config)
        ensures
            is_merge(*self, default, r),
    {
        let hline = match &self.hline {
            Some(v) => v.clone(),
            None => default.hline,
        };
        let vline = match &self.vline {
            Some(v) => v.clone(),
            None => default.vline,
        };
        let ulcorner = match &self.ulcorner {
            Some(v) => v.clone(),
            None => default.ulcorner,
        };
        let urcorner = match &self.urcorner {
            Some(v) => v.clone(),
            None => default.urcorner,
        };
        let llcorner = match &self.llcorner {
            Some(v) => v.clone(),
            None => default.llcorner,
        };
        let lrcorner = match &self.lrcorner {
            Some(v) => v.clone(),
            None => default.lrcorner,
        };
        let colour0 = match self.colour0 {
            Some(v) => v,
            None => default.colour0,
        };
        let colour1 = match self.colour1 {
            Some(v) => v,
            None => default.colour1,
        };
        let colour2 = match self.colour2 {
            Some(v) => v,
            None => default.colour2,
        };
        let colour3 = match self.colour3 {
            Some(v) => v,
            None => default.colour3,
        };
        let colour4 = match self.colour4 {
            Some(v) => v,
            None => default.colour4,
        };
        let colour5 = match self.colour5 {
            Some(v) => v,
            None => default.colour5,
        };
        let colour6 = match self.colour6 {
            Some(v) => v,
            None => default.colour6,
        };
        let colour7 = match self.colour7 {
            Some(v) => v,
            None => default.colour7,
        };
        let colourfg = match self.colourfg {
            Some(v) => v,
            None => default.colourfg,
        };
        let colourbg = match self.colourbg {
            Some(v) => v,
            None => default.colourbg,
        };
        let quit = match self.quit {
            Some(v) => v,
            None => default.quit,
        };
        let back = match self.back {
            Some(v) => v,
            None => default.back,
        };
        let save = match self.save {
            Some(v) => v,
            None => default.save,
        };
        let add = match self.add {
            Some(v) => v,
            None => default.add,
        };
        let edit = match self.edit {
            Some(v) => v,
            None => default.edit,
        };
        let delete = match self.delete {
            Some(v) => v,
            None => default.delete,
        };
        let task_up = match self.task_up {
            Some(v) => v,
            None => default.task_up,
        };
        let task_down = match self.task_down {
            Some(v) => v,
            None => default.task_down,
        };
        let up = match self.up {
            Some(v) => v,
            None => default.up,
        };
        let down = match self.down {
            Some(v) => v,
            None => default.down,
        };
        let focus = match self.focus {
            Some(v) => v,
            None => default.focus,
        };
        let complete = match self.complete {
            Some(v) => v,
            None => default.complete,
        };
        let increase = match self.increase {
            Some(v) => v,
            None => default.increase,
        };
        let decrease = match self.decrease {
            Some(v) => v,
            None => default.decrease,
        };
        let sort = match self.sort {
            Some(v) => v,
            None => default.sort,
        };
        Config {
            hline,
            vline,
            ulcorner,
            urcorner,
            llcorner,
            lrcorner,
            colour0,
            colour1,
            colour2,
            colour3,
            colour4,
            colour5,
            colour6,
            colour7,
            colourfg,
            colourbg,
            quit,
            back,
            save,
            add,
            edit,
            delete,
            task_up,
            task_down,
            up,
            down,
            focus,
            complete,
            increase,
            decrease,
            sort,
        }
    }
}

/// The `[borders]` section of a configuration file.
pub struct BorderSection {
    pub hline: Option<String>,
    pub vline: Option<String>,
    pub ulcorner: Option<String>,
    pub urcorner: Option<String>,
    pub llcorner: Option<String>,
    pub lrcorner: Option<String>,
}

/// The `[colours]` section of a configuration file: each colour is a
/// red, green, blue byte array.
pub struct ColourSection {
    pub colour0: Option<Vec<u8>>,
    pub colour1: Option<Vec<u8>>,
    pub colour2: Option<Vec<u8>>,
    pub colour3: Option<Vec<u8>>,
    pub colour4: Option<Vec<u8>>,
    pub colour5: Option<Vec<u8>>,
    pub colour6: Option<Vec<u8>>,
    pub colour7: Option<Vec<u8>>,
    pub colourfg: Option<Vec<u8>>,
    pub colourbg: Option<Vec<u8>>,
}

/// The `[keys]` section of a configuration file: one character per action.
pub struct KeySection {
    pub quit: Option<char>,
    pub back: Option<char>,
    pub save: Option<char>,
    pub add: Option<char>,
    pub edit: Option<char>,
    pub delete: Option<char>,
    pub task_up: Option<char>,
    pub task_down: Option<char>,
    pub up: Option<char>,
    pub down: Option<char>,
    pub focus: Option<char>,
    pub complete: Option<char>,
    pub increase: Option<char>,
    pub decrease: Option<char>,
    pub sort: Option<char>,
}

/// A configuration file as read: three optional sections.
pub struct ConfigFile {
    pub borders: Option<BorderSection>,
    pub colours: Option<ColourSection>,
    pub keys: Option<KeySection>,
}

/// The colour that a byte array in a configuration file denotes: its first
/// three bytes as red, green, blue, or none where it is shorter.
pub open spec fn rgb_of(v: Option<Vec<u8>>) -> Option<Colour> {
    match v {
        Some(b) => if b@.len() >= 3 {
            Some(Colour::Rgb(b@[0], b@[1], b@[2]))
        } else {
            None
        },
        None => None,
    }
}

/// The key that a character in a configuration file denotes.
pub open spec fn char_key(c: Option<char>) -> Option<Key> {
    match c {
        Some(ch) => Some(Key::Char(ch)),
        None => None,
    }
}

/// `r` holds exactly the overrides that the file `f` gives.
pub open spec fn is_buffer_of(f: ConfigFile, r: ConfigBuffer) -> bool {
    &&& match f.borders {
        Some(b) => {
            &&& r.hline == b.hline
            &&& r.vline == b.vline
            &&& r.ulcorner == b.ulcorner
            &&& r.urcorner == b.urcorner
            &&& r.llcorner == b.llcorner
            &&& r.lrcorner == b.lrcorner
        },
        None => {
            &&& r.hline is None
            &&& r.vline is None
            &&& r.ulcorner is None
            &&& r.urcorner is None
            &&& r.llcorner is None
            &&& r.lrcorner is None
        },
    }
    &&& match f.colours {
        Some(c) => {
            &&& r.colour0 == rgb_of(c.colour0)
            &&& r.colour1 == rgb_of(c.colour1)
            &&& r.colour2 == rgb_of(c.colour2)
            &&& r.colour3 == rgb_of(c.colour3)
            &&& r.colour4 == rgb_of(c.colour4)
            &&& r.colour5 == rgb_of(c.colour5)
            &&& r.colour6 == rgb_of(c.colour6)
            &&& r.colour7 == rgb_of(c.colour7)
            &&& r.colourfg == rgb_of(c.colourfg)
            &&& r.colourbg == rgb_of(c.colourbg)
        },
        None => {
            &&& r.colour0 is None
            &&& r.colour1 is None
            &&& r.colour2 is None
            &&& r.colour3 is None
            &&& r.colour4 is None
            &&& r.colour5 is None
            &&& r.colour6 is None
            &&& r.colour7 is None
            &&& r.colourfg is None
            &&& r.colourbg is None
        },
    }
    &&& match f.keys {
        Some(k) => {
            &&& r.quit == char_key(k.quit)
            &&& r.back == char_key(k.back)
            &&& r.save == char_key(k.save)
            &&& r.add == char_key(k.add)
            &&& r.edit == char_key(k.edit)
            &&& r.delete == char_key(k.delete)
            &&& r.task_up == char_key(k.task_up)
            &&& r.task_down == char_key(k.task_down)
            &&& r.up == char_key(k.up)
            &&& r.down == char_key(k.down)
            &&& r.focus == char_key(k.focus)
            &&& r.complete == char_key(k.complete)
            &&& r.increase == char_key(k.increase)
            &&& r.decrease == char_key(k.decrease)
            &&& r.sort == char_key(k.sort)
        },
        None => {
            &&& r.quit is None
            &&& r.back is None
            &&& r.save is None
            &&& r.add is None
            &&& r.edit is None
            &&& r.delete is None
            &&& r.task_up is None
            &&& r.task_down is None
            &&& r.up is None
            &&& r.down is None
            &&& r.focus is None
            &&& r.complete is None
            &&& r.increase is None
            &&& r.decrease is None
            &&& r.sort is None
        },
    }
}

/// The colour for a byte array of a configuration file: `Rgb` of its first
/// three bytes, or `None` where it has fewer than three.
pub fn colour_from_bytes(v: &Option<Vec<u8>>) -> (r: Option<Colour>)
    ensures
        r == rgb_of(*v),
{
    match v {
        Some(b) => {
            if b.len() >= 3 {
                Some(Colour::Rgb(b[0], b[1], b[2]))
            } else {
                None
            }
        },
        None => None,
    }
}

/// The key binding for a character of a configuration file.
pub fn key_from_char(c: Option<char>) -> (r: Option<Key>)
    ensures
        r == char_key(c),
{
    match c {
        Some(ch) => Some(Key::Char(ch)),
        None => None,
    }
}

impl ConfigBuffer {
    /// The overrides that a configuration file gives: a field is set exactly
    /// where the file sets it (and, for a colour, gives at least three bytes).
    pub fn from_file(f: ConfigFile) -> (r: ConfigBuffer)
        ensures
            is_buffer_of(f, r),
    {
        let mut r = ConfigBuffer::empty();
        match f.borders {
            Some(b) => {
                r.hline = b.hline;
                r.vline = b.vline;
                r.ulcorner = b.ulcorner;
                r.urcorner = b.urcorner;
                r.llcorner = b.llcorner;
                r.lrcorner = b.lrcorner;
            },
            None => {},
        }
        match f.colours {
            Some(c) => {
                r.colour0 = colour_from_bytes(&c.colour0);
                r.colour1 = colour_from_bytes(&c.colour1);
                r.colour2 = colour_from_bytes(&c.colour2);
                r.colour3 = colour_from_bytes(&c.colour3);
                r.colour4 = colour_from_bytes(&c.colour4);
                r.colour5 = colour_from_bytes(&c.colour5);
                r.colour6 = colour_from_bytes(&c.colour6);
                r.colour7 = colour_from_bytes(&c.colour7);
                r.colourfg = colour_from_bytes(&c.colourfg);
                r.colourbg = colour_from_bytes(&c.colourbg);
            },
            None => {},
        }
        match f.keys {
            Some(k) => {
                r.quit = key_from_char(k.quit);
                r.back = key_from_char(k.back);
                r.save = key_from_char(k.save);
                r.add = key_from_char(k.add);
                r.edit = key_from_char(k.edit);
                r.delete = key_from_char(k.delete);
                r.task_up = key_from_char(k.task_up);
                r.task_down = key_from_char(k.task_down);
                r.up = key_from_char(k.up);
                r.down = key_from_char(k.down);
                r.focus = key_from_char(k.focus);
                r.complete = key_from_char(k.complete);
                r.increase = key_from_char(k.increase);
                r.decrease = key_from_char(k.decrease);
                r.sort = key_from_char(k.sort);
            },
            None => {},
        }
        r
    }
}

} // verus!
