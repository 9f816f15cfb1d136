use yat::config::{
    colour_from_bytes, key_from_char, BorderSection, Colour, ColourSection, Config, ConfigBuffer,
    ConfigFile, Key, KeySection,
};

fn assert_default(c: &Config) {
    assert_eq!(c.hline, "─");
    assert_eq!(c.vline, "│");
    assert_eq!(c.ulcorner, "┌");
    assert_eq!(c.urcorner, "┐");
    assert_eq!(c.llcorner, "└");
    assert_eq!(c.lrcorner, "┘");
    let palette = [
        c.colour0, c.colour1, c.colour2, c.colour3, c.colour4, c.colour5, c.colour6, c.colour7,
    ];
    for (i, col) in palette.iter().enumerate() {
        assert_eq!(*col, Colour::Basic(i as u8));
    }
    assert_eq!(c.colourfg, Colour::TerminalDefault);
    assert_eq!(c.colourbg, Colour::TerminalDefault);
    let keys = [
        (c.quit, Key::Char('q')),
        (c.back, Key::Char('b')),
        (c.save, Key::Char('w')),
        (c.add, Key::Char('a')),
        (c.edit, Key::Char('e')),
        (c.delete, Key::Char('d')),
        (c.task_up, Key::Char('u')),
        (c.task_down, Key::Char('n')),
        (c.up, Key::Up),
        (c.down, Key::Down),
        (c.focus, Key::Char('\n')),
        (c.complete, Key::Char(' ')),
        (c.increase, Key::Char('>')),
        (c.decrease, Key::Char('<')),
        (c.sort, Key::Char('r')),
    ];
    for (got, want) in keys.iter() {
        assert_eq!(got, want);
    }
}

#[test]
fn default_config_is_fully_populated() {
    let c = Config::default();
    assert_default(&c);
    assert!(!c.hline.is_empty() && !c.lrcorner.is_empty());
}

#[test]
fn empty_override_keeps_defaults() {
    let c = ConfigBuffer::empty().config(Config::default());
    assert_default(&c);
}

#[test]
fn override_fields_replace_defaults() {
    let mut b = ConfigBuffer::empty();
    b.hline = Some("=".to_string());
    b.colour3 = Some(Colour::Rgb(10, 20, 30));
    b.quit = Some(Key::Char('x'));
    b.down = Some(Key::Char('j'));
    let c = b.config(Config::default());
    assert_eq!(c.hline, "=");
    assert_eq!(c.vline, "│");
    assert_eq!(c.colour3, Colour::Rgb(10, 20, 30));
    assert_eq!(c.colour2, Colour::Basic(2));
    assert_eq!(c.quit, Key::Char('x'));
    assert_eq!(c.down, Key::Char('j'));
    assert_eq!(c.up, Key::Up);
    assert_eq!(c.sort, Key::Char('r'));
}

#[test]
fn colour_from_three_bytes() {
    assert_eq!(colour_from_bytes(&Some(vec![1, 2, 3])), Some(Colour::Rgb(1, 2, 3)));
    assert_eq!(colour_from_bytes(&Some(vec![7, 8, 9, 10])), Some(Colour::Rgb(7, 8, 9)));
}

#[test]
fn colour_from_short_or_absent_bytes() {
    assert_eq!(colour_from_bytes(&Some(vec![1, 2])), None);
    assert_eq!(colour_from_bytes(&Some(vec![])), None);
    assert_eq!(colour_from_bytes(&None), None);
}

#[test]
fn key_from_character() {
    assert_eq!(key_from_char(Some('k')), Some(Key::Char('k')));
    assert_eq!(key_from_char(None), None);
}

#[test]
fn file_without_sections_sets_nothing() {
    let f = ConfigFile { borders: None, colours: None, keys: None };
    let c = ConfigBuffer::from_file(f).config(Config::default());
    assert_default(&c);
}

#[test]
fn file_sections_become_overrides() {
    let borders = BorderSection {
        hline: Some("-".to_string()),
        vline: None,
        ulcorner: None,
        urcorner: None,
        llcorner: None,
        lrcorner: Some("+".to_string()),
    };
    let colours = ColourSection {
        colour0: Some(vec![0, 0, 0]),
        colour1: Some(vec![255]),
        colour2: None,
        colour3: None,
        colour4: None,
        colour5: None,
        colour6: None,
        colour7: None,
        colourfg: Some(vec![200, 100, 50]),
        colourbg: None,
    };
    let keys = KeySection {
        quit: Some('Q'),
        back: None,
        save: None,
        add: None,
        edit: None,
        delete: None,
        task_up: None,
        task_down: None,
        up: Some('k'),
        down: None,
        focus: None,
        complete: None,
        increase: None,
        decrease: None,
        sort: None,
    };
    let f = ConfigFile { borders: Some(borders), colours: Some(colours), keys: Some(keys) };
    let b = ConfigBuffer::from_file(f);
    assert_eq!(b.hline.as_deref(), Some("-"));
    assert_eq!(b.vline, None);
    assert_eq!(b.colour0, Some(Colour::Rgb(0, 0, 0)));
    assert_eq!(b.colour1, None);
    assert_eq!(b.colourfg, Some(Colour::Rgb(200, 100, 50)));
    assert_eq!(b.quit, Some(Key::Char('Q')));
    assert_eq!(b.up, Some(Key::Char('k')));
    let c = b.config(Config::default());
    assert_eq!(c.hline, "-");
    assert_eq!(c.lrcorner, "+");
    assert_eq!(c.ulcorner, "┌");
    assert_eq!(c.colour1, Colour::Basic(1));
    assert_eq!(c.colourfg, Colour::Rgb(200, 100, 50));
    assert_eq!(c.up, Key::Char('k'));
    assert_eq!(c.down, Key::Down);
}
