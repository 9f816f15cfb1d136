//! The drawing surface: cursor addressing, text with clipping, colours, boxes
//! and filled rectangles, over a terminal addressed by zero-based
//! (row, column) cells.
//!
//! Every primitive appends the terminal commands it issues to a pending
//! output buffer, which the host program writes to the terminal and flushes.

use crate::config::{Colour, Config};
use crate::escape::{
    bg_code, bg_command, clear_all, clear_code, cursor_hide, cursor_show, fg_code, fg_command,
    goto, goto_code, hide_code, show_code, style_reset, style_reset_code, terminal_size,
};
use vstd::prelude::*;

verus! {

/// The largest zero-based row or column that the terminal can address.
pub const MAX_COORD: usize = 65534;

/// Text placed at the zero-based cell (`row`, `col`): the one-based cursor
/// command, then the text.
pub open spec fn put(row: nat, col: nat, text: Seq<char>) -> Seq<char> {
    goto_code(row + 1, col + 1) + text
}

/// The ellipsis that marks truncated text.
pub open spec fn ellipsis() -> Seq<char> {
    seq!['.', '.', '.']
}

/// `text` at (`row`, `col`) clipped to `width` characters: whole where it
/// fits, else its first `width - 3` characters followed by an ellipsis that
/// ends at the last column of the field (where the field is under three
/// columns wide, only its first `width` characters and no ellipsis).
pub open spec fn wrap_code(row: nat, col: nat, width: nat, text: Seq<char>) -> Seq<char> {
    if text.len() <= width {
        put(row, col, text)
    } else if width >= 3 {
        put(row, col, text.take(width - 3)) + put(row, (col + width - 3) as nat, ellipsis())
    } else {
        put(row, col, text.take(width as int))
    }
}

/// For each row from `lo` up to (not including) `hi`, the glyph `g` in
/// columns `left` and `right`.
pub open spec fn side_cells(lo: int, hi: int, left: nat, right: nat, g: Seq<char>) -> Seq<char>
    decreases hi - lo,
{
    if hi <= lo {
        Seq::empty()
    } else {
        side_cells(lo, hi - 1, left, right, g) + put((hi - 1) as nat, left, g) + put(
            (hi - 1) as nat,
            right,
            g,
        )
    }
}

/// For each column from `lo` up to (not including) `hi`, the glyph `g` in
/// rows `bottom` and `top`.
pub open spec fn edge_cells(lo: int, hi: int, bottom: nat, top: nat, g: Seq<char>) -> Seq<char>
    decreases hi - lo,
{
    if hi <= lo {
        Seq::empty()
    } else {
        edge_cells(lo, hi - 1, bottom, top, g) + put(bottom, (hi - 1) as nat, g) + put(
            top,
            (hi - 1) as nat,
            g,
        )
    }
}

/// The four corners of the box whose lower-left cell is (`row`, `col`) and
/// whose top row and right column are `top` and `right`: upper left, lower
/// left, upper right, lower right.
pub open spec fn corner_cells(c: Config, row: nat, col: nat, top: nat, right: nat) -> Seq<char> {
    put(top, col, c.ulcorner@) + put(row, col, c.llcorner@) + put(top, right, c.urcorner@) + put(
        row,
        right,
        c.lrcorner@,
    )
}

/// The outline of the box whose lower-left cell is (`row`, `col`) and which
/// is `height` rows tall and `width` columns wide: the four corners, then the
/// vertical sides, then the horizontal edges, with the configured glyphs.
pub open spec fn border_code(c: Config, row: nat, col: nat, height: nat, width: nat) -> Seq<char> {
    let top = (row + 1 - height) as nat;
    let right = (col + width - 1) as nat;
    corner_cells(c, row, col, top, right) + side_cells(top + 1 as int, row as int, col, right, c.vline@)
        + edge_cells(col + 1 as int, right as int, row, top, c.hline@)
}

/// The glyph `g` in each column of `row` from `lo` up to (not including) `hi`.
pub open spec fn row_fill(row: nat, lo: int, hi: int, g: Seq<char>) -> Seq<char>
    decreases hi - lo,
{
    if hi <= lo {
        Seq::empty()
    } else {
        row_fill(row, lo, hi - 1, g) + put(row, (hi - 1) as nat, g)
    }
}

/// Rows `lo` up to (not including) `hi`, each filled from column `clo` up to
/// (not including) `chi`, top row first.
pub open spec fn fill_rows(lo: int, hi: int, clo: int, chi: int, g: Seq<char>) -> Seq<char>
    decreases hi - lo,
{
    if hi <= lo {
        Seq::empty()
    } else {
        fill_rows(lo, hi - 1, clo, chi, g) + row_fill((hi - 1) as nat, clo, chi, g)
    }
}

/// Every interior cell of the box that `border_code` draws with the same
/// anchor and dimensions (outline excluded) holds the glyph `g`.
pub open spec fn rectangle_code(g: Seq<char>, row: nat, col: nat, height: nat, width: nat) -> Seq<
    char,
> {
    fill_rows(row + 2 - height, row as int, col + 1 as int, col + width - 1, g)
}

/// What teardown issues: terminal-default colours, a cleared screen, reset
/// styling, the cursor at the origin, and a visible cursor.
pub open spec fn teardown_code() -> Seq<char> {
    fg_code(Colour::TerminalDefault) + bg_code(Colour::TerminalDefault) + clear_code()
        + style_reset_code() + put(0, 0, Seq::empty()) + show_code()
}

/// The palette entry that a foreground index selects: 0 to 7 the palette,
/// 8 the default foreground, nothing otherwise.
pub open spec fn fg_choice(c: Config, i: nat) -> Option<Colour> {
    if i == 0 {
        Some(c.colour0)
    } else if i == 1 {
        Some(c.colour1)
    } else if i == 2 {
        Some(c.colour2)
    } else if i == 3 {
        Some(c.colour3)
    } else if i == 4 {
        Some(c.colour4)
    } else if i == 5 {
        Some(c.colour5)
    } else if i == 6 {
        Some(c.colour6)
    } else if i == 7 {
        Some(c.colour7)
    } else if i == 8 {
        Some(c.colourfg)
    } else {
        None
    }
}

/// The palette entry that a background index selects: 0 to 7 the palette,
/// 8 the default background, nothing otherwise.
pub open spec fn bg_choice(c: Config, i: nat) -> Option<Colour> {
    if i == 8 {
        Some(c.colourbg)
    } else {
        fg_choice(c, i)
    }
}

/// The (columns, rows) reported for a terminal size query: the size where
/// one was had, else (0, 0).
pub open spec fn dims_of(size: Option<(u16, u16)>) -> (usize, usize) {
    match size {
        Some((cols, rows)) => (cols as usize, rows as usize),
        None => (0, 0),
    }
}

/// Text no longer than its field is printed unchanged: clipping `text` to
/// `width` columns places exactly `text` at (`row`, `col`).
pub proof fn lemma_wrap_fits_unchanged(row: nat, col: nat, width: nat, text: Seq<char>)
    requires
        text.len() <= width,
    ensures
        wrap_code(row, col, width, text) == put(row, col, text),
{
}

/// Longer text keeps its first `width - 3` characters, and the ellipsis
/// starts at column `col + width - 3`, so the field is filled exactly.
pub proof fn lemma_wrap_truncates_to_width(row: nat, col: nat, width: nat, text: Seq<char>)
    requires
        text.len() > width,
        width >= 3,
    ensures
        wrap_code(row, col, width, text) == put(row, col, text.take(width - 3)) + put(
            row,
            (col + width - 3) as nat,
            ellipsis(),
        ),
        text.take(width - 3).len() + ellipsis().len() == width,
{
}

/// A colour index above 8, for the foreground or the background, selects
/// nothing, so `colour_on` issues nothing.
pub proof fn lemma_colour_index_out_of_range(c: Config, fg: nat, bg: nat)
    requires
        fg > 8 || bg > 8,
    ensures
        fg_choice(c, fg) is None || bg_choice(c, bg) is None,
{
}

/// Append `text` placed at (`row`, `col`) to `out`.
fn write_at(out: &mut String, row: usize, col: usize, text: &str)
    requires
        row <= MAX_COORD,
        col <= MAX_COORD,
    ensures
        final(out)@ == old(out)@ + put(row as nat, col as nat, text@),
{
    let g = goto((col + 1) as u16, (row + 1) as u16);
    out.append(g.as_str());
    out.append(text);
}

/// The (columns, rows) to report for a size query's outcome: the size where
/// the query succeeded, else (0, 0).
pub fn dimensions_from(size: Option<(u16, u16)>) -> (r: (usize, usize))
    ensures
        r == dims_of(size),
{
    match size {
        Some((cols, rows)) => (cols as usize, rows as usize),
        None => (0, 0),
    }
}

/// A drawing surface: the configuration it draws with and the terminal
/// commands issued since the buffer was last taken.
pub struct Window {
    /// The terminal commands issued and not yet taken.
    pub out: String,
    /// The configuration the window draws with.
    pub config: Config,
}

impl Window {
    /// The terminal commands issued and not yet taken.
    pub open spec fn pending(&self) -> Seq<char> {
        self.out@
    }

    /// A window that draws with `config` and has issued nothing yet.
    pub fn new(config: Config) -> (r: Window)
        ensures
            r.pending() == Seq::<char>::empty(),
            r.config == config,
    {
        Window { out: String::new(), config }
    }

    /// The pending terminal commands.
    pub fn output(&self) -> (r: &str)
        ensures
            r@ == self.pending(),
    {
        self.out.as_str()
    }

    /// Take the pending terminal commands, leaving none pending.
    pub fn take_output(&mut self) -> (r: String)
        ensures
            r@ == old(self).pending(),
            final(self).pending() == Seq::<char>::empty(),
            final(self).config == old(self).config,
    {
        let r = self.out.clone();
        self.out = String::new();
        r
    }

    /// The terminal's (columns, rows), or (0, 0) where it cannot be had.
    pub fn get_max_yx(&self) -> (r: (usize, usize))
        ensures
            exists|size: Option<(u16, u16)>| r == dims_of(size),
    {
        dimensions_from(terminal_size())
    }

    /// Hide the cursor.
    pub fn hide_cursor(&mut self)
        ensures
            final(self).pending() == old(self).pending() + hide_code(),
            final(self).config == old(self).config,
    {
        let s = cursor_hide();
        self.out.append(s.as_str());
    }

    /// Show the cursor.
    pub fn show_cursor(&mut self)
        ensures
            final(self).pending() == old(self).pending() + show_code(),
            final(self).config == old(self).config,
    {
        let s = cursor_show();
        self.out.append(s.as_str());
    }

    /// Move the cursor to zero-based row `y`, column `x`.
    pub fn mv(&mut self, y: usize, x: usize)
        requires
            y <= MAX_COORD,
            x <= MAX_COORD,
        ensures
            final(self).pending() == old(self).pending() + goto_code((y + 1) as nat, (x + 1) as nat),
            final(self).config == old(self).config,
    {
        let g = goto((x + 1) as u16, (y + 1) as u16);
        self.out.append(g.as_str());
    }

    /// The colour a foreground index selects.
    fn fg_entry(&self, i: usize) -> (r: Option<Colour>)
        ensures
            r == fg_choice(self.config, i as nat),
    {
        match i {
            0 => Some(self.config.colour0),
            1 => Some(self.config.colour1),
            2 => Some(self.config.colour2),
            3 => Some(self.config.colour3),
            4 => Some(self.config.colour4),
            5 => Some(self.config.colour5),
            6 => Some(self.config.colour6),
            7 => Some(self.config.colour7),
            8 => Some(self.config.colourfg),
            _ => None,
        }
    }

    /// Colour subsequent text: indices 0 to 7 pick the palette colour, 8 the
    /// configured default (foreground for `fg`, background for `bg`). Where
    /// either index is out of range nothing is issued.
    pub fn colour_on(&mut self, fg: usize, bg: usize)
        ensures
            final(self).config == old(self).config,
            match (fg_choice(old(self).config, fg as nat), bg_choice(old(self).config, bg as nat)) {
                (Some(f), Some(b)) => final(self).pending() == old(self).pending() + fg_code(f)
                    + bg_code(b),
                _ => final(self).pending() == old(self).pending(),
            },
    {
        let f = match self.fg_entry(fg) {
            Some(c) => c,
            None => return ,
        };
        let b = if bg == 8 {
            self.config.colourbg
        } else {
            match self.fg_entry(bg) {
                Some(c) => c,
                None => return ,
            }
        };
        let fs = fg_command(f);
        let bs = bg_command(b);
        self.out.append(fs.as_str());
        self.out.append(bs.as_str());
    }

    /// Reset the colours to the configured default foreground and background.
    pub fn colour_off(&mut self)
        ensures
            final(self).pending() == old(self).pending() + fg_code(old(self).config.colourfg)
                + bg_code(old(self).config.colourbg),
            final(self).config == old(self).config,
    {
        let fs = fg_command(self.config.colourfg);
        let bs = bg_command(self.config.colourbg);
        self.out.append(fs.as_str());
        self.out.append(bs.as_str());
    }

    /// Reset the colours to the terminal's own defaults.
    pub fn colour_reset(&mut self)
        ensures
            final(self).pending() == old(self).pending() + fg_code(Colour::TerminalDefault)
                + bg_code(Colour::TerminalDefault),
            final(self).config == old(self).config,
    {
        let fs = fg_command(Colour::TerminalDefault);
        let bs = bg_command(Colour::TerminalDefault);
        self.out.append(fs.as_str());
        self.out.append(bs.as_str());
    }

    /// Print `text` verbatim at zero-based row `y`, column `x`.
    pub fn mvprintw(&mut self, y: usize, x: usize, text: &str)
        requires
            y <= MAX_COORD,
            x <= MAX_COORD,
        ensures
            final(self).pending() == old(self).pending() + put(y as nat, x as nat, text@),
            final(self).config == old(self).config,
    {
        write_at(&mut self.out, y, x, text);
    }

    /// Print `text` at row `y`, column `x`, clipped so that it does not spill
    /// beyond `width` columns: text that fits is printed whole; longer text is
    /// cut to `width - 3` characters and followed by `...` at column
    /// `x + width - 3`. A field under three columns wide gets the first
    /// `width` characters and no ellipsis.
    pub fn wrap_print(&mut self, y: usize, x: usize, width: usize, text: &str)
        requires
            y <= MAX_COORD,
            x <= MAX_COORD,
            text@.len() > width && width >= 3 ==> x + width - 3 <= MAX_COORD,
        ensures
            final(self).pending() == old(self).pending() + wrap_code(
                y as nat,
                x as nat,
                width as nat,
                text@,
            ),
            final(self).config == old(self).config,
    {
        let len = text.unicode_len();
        if len <= width {
            write_at(&mut self.out, y, x, text);
        } else if width >= 3 {
            let head = text.substring_char(0, width - 3);
            write_at(&mut self.out, y, x, head);
            proof {
                reveal_strlit("...");
                assert("..."@ =~= ellipsis());
            }
            write_at(&mut self.out, y, x + width - 3, "...");
        } else {
            let head = text.substring_char(0, width);
            write_at(&mut self.out, y, x, head);
        }
    }

    /// Draw the outline of a box whose lower-left cell is `lower_left`
    /// (row, column) and which is `dimensions` (height, width) in size: the
    /// top row is `row - (height - 1)`, the right column `col + width - 1`.
    /// Corners take the configured corner glyphs, the sides and edges the
    /// vertical and horizontal glyphs.
    pub fn border(&mut self, lower_left: (usize, usize), dimensions: (usize, usize))
        requires
            dimensions.0 >= 1,
            dimensions.1 >= 1,
            lower_left.0 + 1 >= dimensions.0,
            lower_left.0 <= MAX_COORD,
            lower_left.1 + dimensions.1 - 1 <= MAX_COORD,
        ensures
            final(self).pending() == old(self).pending() + border_code(
                old(self).config,
                lower_left.0 as nat,
                lower_left.1 as nat,
                dimensions.0 as nat,
                dimensions.1 as nat,
            ),
            final(self).config == old(self).config,
    {
        let (y, x) = lower_left;
        let (height, width) = dimensions;
        let top = y + 1 - height;
        let right = x + width - 1;
        write_at(&mut self.out, top, x, self.config.ulcorner.as_str());
        write_at(&mut self.out, y, x, self.config.llcorner.as_str());
        write_at(&mut self.out, top, right, self.config.urcorner.as_str());
        write_at(&mut self.out, y, right, self.config.lrcorner.as_str());
        let ghost corners = self.out@;
        assert(corners =~= old(self).out@ + corner_cells(
            self.config,
            y as nat,
            x as nat,
            top as nat,
            right as nat,
        ));
        let mut j: usize = top + 1;
        while j < y
            invariant
                top + 1 <= j <= y + 1,
                height >= 2 ==> j <= y,
                y <= MAX_COORD,
                right <= MAX_COORD,
                x <= right,
                self.config == old(self).config,
                self.out@ == corners + side_cells(
                    top + 1 as int,
                    j as int,
                    x as nat,
                    right as nat,
                    self.config.vline@,
                ),
            decreases y - j,
        {
            write_at(&mut self.out, j, x, self.config.vline.as_str());
            write_at(&mut self.out, j, right, self.config.vline.as_str());
            j = j + 1;
        }
        let ghost sides = self.out@;
        let mut i: usize = x + 1;
        while i < right
            invariant
                x + 1 <= i <= right + 1,
                width >= 2 ==> i <= right,
                y <= MAX_COORD,
                top <= y,
                right <= MAX_COORD,
                self.config == old(self).config,
                self.out@ == sides + edge_cells(
                    x + 1 as int,
                    i as int,
                    y as nat,
                    top as nat,
                    self.config.hline@,
                ),
            decreases right - i,
        {
            write_at(&mut self.out, y, i, self.config.hline.as_str());
            write_at(&mut self.out, top, i, self.config.hline.as_str());
            i = i + 1;
        }
        assert(self.out@ =~= old(self).out@ + corner_cells(
            self.config,
            y as nat,
            x as nat,
            top as nat,
            right as nat,
        ) + side_cells(top + 1 as int, y as int, x as nat, right as nat, self.config.vline@)
            + edge_cells(x + 1 as int, right as int, y as nat, top as nat, self.config.hline@));
    }

    /// Fill the interior of the box that `border` draws with the same anchor
    /// and dimensions (its outline excluded) with the glyph `ch`, row by row
    /// from the top, each cell once.
    pub fn rectangle(&mut self, ch: &str, lower_left: (usize, usize), dimensions: (usize, usize))
        requires
            dimensions.0 >= 1,
            dimensions.1 >= 1,
            lower_left.0 + 1 >= dimensions.0,
            lower_left.0 <= MAX_COORD,
            lower_left.1 + dimensions.1 - 1 <= MAX_COORD,
        ensures
            final(self).pending() == old(self).pending() + rectangle_code(
                ch@,
                lower_left.0 as nat,
                lower_left.1 as nat,
                dimensions.0 as nat,
                dimensions.1 as nat,
            ),
            final(self).config == old(self).config,
    {
        let (y, x) = lower_left;
        let (height, width) = dimensions;
        let right = x + width - 1;
        let first = y + 2 - height;
        let mut j: usize = first;
        while j < y
            invariant
                width >= 1,
                height >= 1,
                first <= j <= y + 1,
                height >= 2 ==> j <= y,
                first == y + 2 - height,
                y <= MAX_COORD,
                right <= MAX_COORD,
                right == x + width - 1,
                self.config == old(self).config,
                self.out@ == old(self).out@ + fill_rows(
                    first as int,
                    j as int,
                    x + 1 as int,
                    right as int,
                    ch@,
                ),
            decreases y - j,
        {
            let ghost before = self.out@;
            let mut i: usize = x + 1;
            while i < right
                invariant
                    x + 1 <= i <= right + 1,
                    width >= 2 ==> i <= right,
                    j < y,
                    y <= MAX_COORD,
                    right <= MAX_COORD,
                    right == x + width - 1,
                    self.config == old(self).config,
                    self.out@ == before + row_fill(j as nat, x + 1 as int, i as int, ch@),
                decreases right - i,
            {
                write_at(&mut self.out, j, i, ch);
                i = i + 1;
            }
            assert(row_fill(j as nat, x + 1 as int, i as int, ch@) == row_fill(
                j as nat,
                x + 1 as int,
                right as int,
                ch@,
            ));
            j = j + 1;
        }
    }

    /// Clear the whole screen.
    pub fn clear(&mut self)
        ensures
            final(self).pending() == old(self).pending() + clear_code(),
            final(self).config == old(self).config,
    {
        let s = clear_all();
        self.out.append(s.as_str());
    }

    /// Reset the terminal: terminal-default colours, a cleared screen, reset
    /// styling and the cursor at the origin.
    pub fn endwin(&mut self)
        ensures
            final(self).pending() == old(self).pending() + fg_code(Colour::TerminalDefault)
                + bg_code(Colour::TerminalDefault) + clear_code() + style_reset_code() + put(
                0,
                0,
                Seq::empty(),
            ),
            final(self).config == old(self).config,
    {
        self.colour_reset();
        let c = clear_all();
        let s = style_reset();
        let g = goto(1, 1);
        self.out.append(c.as_str());
        self.out.append(s.as_str());
        self.out.append(g.as_str());
    }

    /// End the session's drawing: reset the terminal as `endwin` does and
    /// make the cursor visible again, each step once.
    pub fn teardown(&mut self)
        ensures
            final(self).pending() == old(self).pending() + teardown_code(),
            final(self).config == old(self).config,
    {
        self.endwin();
        self.show_cursor();
        assert(final(self).pending() =~= old(self).pending() + teardown_code());
    }
}

} // verus!
