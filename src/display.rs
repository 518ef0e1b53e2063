//! The display surface: the text, escape sequences included, that draws a
//! frame on the terminal.
//!
//! A `Display` collects what is to be written and hands it out on `flush`;
//! whoever owns the terminal writes it. Cursor moves and colours come from
//! termion.
use vstd::prelude::*;
use crate::glyph::Rgb;
use crate::hud::{TextLine, lines_view};
use crate::screen::{Cell, Grid, Ink, cell_index};
use crate::transform::GridSize;

verus! {

pub open spec fn spec_digits() -> Seq<char> {
    seq!['0', '1', '2', '3', '4', '5', '6', '7', '8', '9']
}

/// The decimal digits of `n`, without leading zeros.
pub open spec fn dec(n: nat) -> Seq<char>
    decreases n,
{
    if n < 10 {
        seq![spec_digits()[n as int]]
    } else {
        dec(n / 10).push(spec_digits()[(n % 10) as int])
    }
}

/// A control sequence: escape, `[`, then `body`.
pub open spec fn csi(body: Seq<char>) -> Seq<char> {
    seq!['\x1b', '['] + body
}

/// Moves the cursor to column `x`, row `y`, both counted from one.
pub open spec fn spec_goto(x: nat, y: nat) -> Seq<char> {
    csi(dec(y) + seq![';'] + dec(x) + seq!['H'])
}

/// Sets the foreground to a true colour.
pub open spec fn spec_rgb_fg(c: Rgb) -> Seq<char> {
    csi(seq!['3', '8', ';', '2', ';'] + dec(c.r as nat) + seq![';'] + dec(c.g as nat) + seq![';']
        + dec(c.b as nat) + seq!['m'])
}

/// Sets the foreground to the terminal's white.
pub open spec fn spec_white_fg() -> Seq<char> {
    csi(seq!['3', '8', ';', '5', ';', '7', 'm'])
}

pub open spec fn spec_clear_all() -> Seq<char> {
    csi(seq!['2', 'J'])
}

pub open spec fn spec_hide_cursor() -> Seq<char> {
    csi(seq!['?', '2', '5', 'l'])
}

pub open spec fn spec_show_cursor() -> Seq<char> {
    csi(seq!['?', '2', '5', 'h'])
}

/// Relies on termion's `cursor::Goto` display: `ESC [ y ; x H` in decimal.
#[verifier::external_body]
fn goto_seq(x: u16, y: u16) -> (r: Vec<char>)
    requires
        x >= 1 || y >= 1,
    ensures
        r@ == spec_goto(x as nat, y as nat),
{
    format!("{}", termion::cursor::Goto(x, y)).chars().collect()
}

/// Relies on termion's `color::Rgb::fg_string`: `ESC [ 38;2;r;g;b m` in
/// decimal.
#[verifier::external_body]
fn rgb_fg_seq(c: Rgb) -> (r: Vec<char>)
    ensures
        r@ == spec_rgb_fg(c),
{
    termion::color::Rgb(c.r, c.g, c.b).fg_string().chars().collect()
}

/// Relies on termion's `color::White::fg_str`: `ESC [ 38;5;7 m`.
#[verifier::external_body]
fn white_fg_seq() -> (r: Vec<char>)
    ensures
        r@ == spec_white_fg(),
{
    termion::color::White.fg_str().chars().collect()
}

/// Relies on termion's `clear::All` display: `ESC [ 2J`.
#[verifier::external_body]
fn clear_all_seq() -> (r: Vec<char>)
    ensures
        r@ == spec_clear_all(),
{
    format!("{}", termion::clear::All).chars().collect()
}

/// Relies on termion's `cursor::Hide` display: `ESC [ ?25l`.
#[verifier::external_body]
fn hide_cursor_seq() -> (r: Vec<char>)
    ensures
        r@ == spec_hide_cursor(),
{
    format!("{}", termion::cursor::Hide).chars().collect()
}

/// Relies on termion's `cursor::Show` display: `ESC [ ?25h`.
#[verifier::external_body]
fn show_cursor_seq() -> (r: Vec<char>)
    ensures
        r@ == spec_show_cursor(),
{
    format!("{}", termion::cursor::Show).chars().collect()
}

/// Appends `s` to `out`.
pub fn push_all(out: &mut Vec<char>, s: &Vec<char>)
    ensures
        final(out)@ == old(out)@ + s@,
{
    let mut i: usize = 0;
    while i < s.len()
        invariant
            i <= s.len(),
            out@ == old(out)@ + s@.subrange(0, i as int),
        decreases s.len() - i,
    {
        out.push(s[i]);
        i = i + 1;
        assert(out@ =~= old(out)@ + s@.subrange(0, i as int));
    }
    assert(s@.subrange(0, s.len() as int) =~= s@);
}

/// Appends the characters of `s` to `out`.
pub fn push_str(out: &mut Vec<char>, s: &str)
    ensures
        final(out)@ == old(out)@ + s@,
{
    let n = s.unicode_len();
    let mut i: usize = 0;
    while i < n
        invariant
            i <= n,
            n == s@.len(),
            out@ == old(out)@ + s@.subrange(0, i as int),
        decreases n - i,
    {
        out.push(s.get_char(i));
        i = i + 1;
        assert(out@ =~= old(out)@ + s@.subrange(0, i as int));
    }
    assert(s@.subrange(0, n as int) =~= s@);
}

/// `c` written `n` times.
pub open spec fn repeat(c: char, n: nat) -> Seq<char> {
    Seq::new(n, |i: int| c)
}

/// What fills rows `1..=n` (counted from one) with `c`.
pub open spec fn spec_fill_rows(size: GridSize, c: char, n: nat) -> Seq<char>
    decreases n,
{
    if n == 0 {
        Seq::empty()
    } else {
        spec_fill_rows(size, c, (n - 1) as nat) + spec_goto(1, n) + repeat(c, size.width as nat)
    }
}

/// The colour sequence of an ink.
pub open spec fn spec_ink(ink: Ink) -> Seq<char> {
    match ink {
        Ink::True(c) => spec_rgb_fg(c),
        Ink::White => spec_white_fg(),
    }
}

pub open spec fn spec_cell_text(c: Cell) -> Seq<char> {
    spec_ink(c.ink).push(c.glyph)
}

/// What draws the first `n` cells of row `y` of `cells`.
pub open spec fn spec_row_text(cells: Seq<Cell>, size: GridSize, y: int, n: nat) -> Seq<char>
    decreases n,
{
    if n == 0 {
        Seq::empty()
    } else {
        spec_row_text(cells, size, y, (n - 1) as nat)
            + spec_cell_text(cells[cell_index(size, n - 1, y)])
    }
}

/// What draws the first `n` rows of `cells`: each row starts with a cursor
/// move to its first column.
pub open spec fn spec_grid_text(cells: Seq<Cell>, size: GridSize, n: nat) -> Seq<char>
    decreases n,
{
    if n == 0 {
        Seq::empty()
    } else {
        spec_grid_text(cells, size, (n - 1) as nat) + spec_goto(1, n)
            + spec_row_text(cells, size, n - 1, size.width as nat)
    }
}

/// What draws the first `n` of `lines`: each is a cursor move to its first
/// cell, counted from zero, then its text. A line whose place the terminal
/// cannot address, on the last column or row, is left out.
pub open spec fn spec_lines_text(lines: Seq<(int, int, Seq<char>)>, n: nat) -> Seq<char>
    decreases n,
{
    if n == 0 || n > lines.len() {
        Seq::empty()
    } else {
        let l = lines[n - 1];
        if 0 <= l.0 < 0xffff && 0 <= l.1 < 0xffff {
            spec_lines_text(lines, (n - 1) as nat) + spec_goto((l.0 + 1) as nat, (l.1 + 1) as nat) + l.2
        } else {
            spec_lines_text(lines, (n - 1) as nat)
        }
    }
}

/// The terminal surface of a grid of `size` cells, with the text that has
/// not been handed out yet.
pub struct Display {
    size: GridSize,
    pending: Vec<char>,
}

impl View for Display {
    type V = Seq<char>;

    closed spec fn view(&self) -> Seq<char> {
        self.pending@
    }
}

impl Display {
    pub closed spec fn size(&self) -> GridSize {
        self.size
    }

    /// A surface of the given size; its first text clears the screen and
    /// hides the cursor.
    pub fn new(size: GridSize) -> (r: Display)
        ensures
            r.size() == size,
            r@ == spec_clear_all() + spec_hide_cursor(),
    {
        let mut pending = clear_all_seq();
        let hide = hide_cursor_seq();
        push_all(&mut pending, &hide);
        Display { size, pending }
    }

    pub fn grid_size(&self) -> (r: GridSize)
        ensures
            r == self.size(),
    {
        self.size
    }

    /// Overwrites every cell of the surface with `c`, row by row.
    pub fn clear_with(&mut self, c: char)
        ensures
            final(self).size() == old(self).size(),
            final(self)@ == old(self)@ + spec_fill_rows(old(self).size(), c, old(self).size().height as nat),
    {
        let w = self.size.width;
        let h = self.size.height;
        let mut y: u16 = 0;
        while y < h
            invariant
                y <= h,
                h == self.size().height,
                w == self.size().width,
                self.size() == old(self).size(),
                self@ == old(self)@ + spec_fill_rows(self.size(), c, y as nat),
            decreases h - y,
        {
            let g = goto_seq(1, y + 1);
            push_all(&mut self.pending, &g);
            let mut x: u16 = 0;
            while x < w
                invariant
                    x <= w,
                    w == self.size().width,
                    y < h,
                    h == self.size().height,
                    self.size() == old(self).size(),
                    self@ == old(self)@ + spec_fill_rows(self.size(), c, y as nat) + spec_goto(1, (y + 1) as nat)
                        + repeat(c, x as nat),
                decreases w - x,
            {
                self.pending.push(c);
                x = x + 1;
                assert(repeat(c, x as nat) =~= repeat(c, (x - 1) as nat).push(c));
            }
            y = y + 1;
        }
    }

    /// Moves the cursor to cell `(x, y)`, counted from zero.
    pub fn at(&mut self, x: u16, y: u16)
        requires
            x < 0xffff,
            y < 0xffff,
        ensures
            final(self).size() == old(self).size(),
            final(self)@ == old(self)@ + spec_goto((x + 1) as nat, (y + 1) as nat),
    {
        let g = goto_seq(x + 1, y + 1);
        push_all(&mut self.pending, &g);
    }

    /// Writes `s` where the cursor stands.
    pub fn write_str(&mut self, s: &str)
        ensures
            final(self).size() == old(self).size(),
            final(self)@ == old(self)@ + s@,
    {
        push_str(&mut self.pending, s);
    }

    /// Writes the characters `s` where the cursor stands.
    pub fn write_chars(&mut self, s: &Vec<char>)
        ensures
            final(self).size() == old(self).size(),
            final(self)@ == old(self)@ + s@,
    {
        push_all(&mut self.pending, s);
    }

    /// Draws every cell of `grid`, each in its own colour, row by row.
    pub fn draw_grid(&mut self, grid: &Grid)
        requires
            grid.wf(),
            grid.size() == old(self).size(),
        ensures
            final(self).size() == old(self).size(),
            final(self)@ == old(self)@ + spec_grid_text(grid@, grid.size(), grid.size().height as nat),
    {
        let w = grid.width();
        let h = grid.height();
        let mut y: u16 = 0;
        while y < h
            invariant
                y <= h,
                grid.wf(),
                h == grid.size().height,
                w == grid.size().width,
                self.size() == old(self).size(),
                self@ == old(self)@ + spec_grid_text(grid@, grid.size(), y as nat),
            decreases h - y,
        {
            let g = goto_seq(1, y + 1);
            push_all(&mut self.pending, &g);
            let mut x: u16 = 0;
            while x < w
                invariant
                    x <= w,
                    y < h,
                    grid.wf(),
                    h == grid.size().height,
                    w == grid.size().width,
                    self.size() == old(self).size(),
                    self@ == old(self)@ + spec_grid_text(grid@, grid.size(), y as nat) + spec_goto(1, (y + 1) as nat)
                        + spec_row_text(grid@, grid.size(), y as int, x as nat),
                decreases w - x,
            {
                let cell = grid.get(x, y);
                let ink = match cell.ink {
                    Ink::True(c) => rgb_fg_seq(c),
                    Ink::White => white_fg_seq(),
                };
                push_all(&mut self.pending, &ink);
                self.pending.push(cell.glyph);
                x = x + 1;
            }
            y = y + 1;
        }
    }

    /// Draws each line of text at its place, in order.
    pub fn draw_lines(&mut self, lines: &Vec<TextLine>)
        ensures
            final(self).size() == old(self).size(),
            final(self)@ == old(self)@ + spec_lines_text(lines_view(lines@), lines.len() as nat),
    {
        let mut i: usize = 0;
        while i < lines.len()
            invariant
                i <= lines.len(),
                self.size() == old(self).size(),
                self@ == old(self)@ + spec_lines_text(lines_view(lines@), i as nat),
            decreases lines.len() - i,
        {
            let l = &lines[i];
            if l.x < 0xffff && l.y < 0xffff {
                self.at(l.x, l.y);
                push_all(&mut self.pending, &l.text);
            }
            i = i + 1;
        }
    }

    /// Draws a whole frame: the grid, then the heads-up display over it.
    pub fn draw_frame(&mut self, grid: &Grid, hud: &Vec<TextLine>)
        requires
            grid.wf(),
            grid.size() == old(self).size(),
        ensures
            final(self).size() == old(self).size(),
            final(self)@ == old(self)@ + spec_grid_text(grid@, grid.size(), grid.size().height as nat)
                + spec_lines_text(lines_view(hud@), hud.len() as nat),
    {
        self.draw_grid(grid);
        self.draw_lines(hud);
    }

    /// Hands out the text collected so far and starts afresh.
    pub fn flush(&mut self) -> (r: Vec<char>)
        ensures
            r@ == old(self)@,
            final(self)@ == Seq::<char>::empty(),
            final(self).size() == old(self).size(),
    {
        let mut out: Vec<char> = Vec::new();
        std::mem::swap(&mut out, &mut self.pending);
        out
    }

    /// Appends what gives the terminal back: the screen cleared and the
    /// cursor shown again.
    pub fn close(&mut self)
        ensures
            final(self).size() == old(self).size(),
            final(self)@ == old(self)@ + spec_clear_all() + spec_show_cursor(),
    {
        let c = clear_all_seq();
        push_all(&mut self.pending, &c);
        let s = show_cursor_seq();
        push_all(&mut self.pending, &s);
    }
}

} // verus!
