//! The screen cell buffer.
//!
//! Drawing goes through two stages: widgets write styled cells into the
//! wanted surface, and a render pass diffs the wanted surface against
//! the cells already on the terminal, producing grouped draw commands
//! for the terminal back end and updating its mirror.

use vstd::prelude::*;

use crate::models::style::Style;

verus! {

/// A rectangular screen area.
#[derive(Clone, Copy, Debug, PartialEq, Eq, Structural)]
pub struct Rect {
    pub x: u16,
    pub y: u16,
    pub width: u16,
    pub height: u16,
}

impl Rect {
    pub fn new(x: u16, y: u16, width: u16, height: u16) -> (r: Rect)
        ensures
            r == (Rect { x, y, width, height }),
    {
        Rect { x, y, width, height }
    }
}

impl Default for Rect {
    /// The empty area at the origin.
    fn default() -> (r: Rect)
        ensures
            r == (Rect { x: 0u16, y: 0u16, width: 0u16, height: 0u16 }),
    {
        Rect { x: 0, y: 0, width: 0, height: 0 }
    }
}

/// One screen cell: an optional character with a symbolic style.  An
/// empty cell is drawn as a space.
#[derive(Clone, Copy, Debug)]
pub struct Pixel {
    pub text: Option<char>,
    pub style: Style,
}

/// Whether two cells hold the same content.
pub open spec fn spec_pixel_eq(a: Pixel, b: Pixel) -> bool {
    a.text == b.text && a.style == b.style
}

/// The character a cell is drawn as: its text, or a space.
pub open spec fn spec_shown_char(p: Pixel) -> char {
    match p.text {
        Option::Some(c) => c,
        Option::None => ' ',
    }
}

impl Pixel {
    /// True when both cells hold the same content.
    pub fn same_as(&self, other: &Pixel) -> (r: bool)
        ensures
            r == spec_pixel_eq(*self, *other),
    {
        let texts_equal = match (self.text, other.text) {
            (Option::Some(a), Option::Some(b)) => a == b,
            (Option::None, Option::None) => true,
            _ => false,
        };
        texts_equal && self.style == other.style
    }

    /// The character the cell is drawn as.
    pub fn shown_char(&self) -> (r: char)
        ensures
            r == spec_shown_char(*self),
    {
        match self.text {
            Option::Some(c) => c,
            Option::None => ' ',
        }
    }
}

impl Default for Pixel {
    /// An empty, normally styled cell.
    fn default() -> (r: Pixel)
        ensures
            r.text is None,
            r.style == Style::Normal,
    {
        Pixel { text: Option::None, style: Style::Normal }
    }
}

/// A run of cells built left to right, ready to be blitted into a
/// buffer.
#[derive(Debug)]
pub struct Pixels {
    cells: Vec<Pixel>,
}

impl View for Pixels {
    type V = Seq<Pixel>;

    closed spec fn view(&self) -> Seq<Pixel> {
        self.cells@
    }
}

impl Pixels {
    /// An empty run.
    pub fn new() -> (r: Pixels)
        ensures
            r@ == Seq::<Pixel>::empty(),
    {
        Pixels { cells: Vec::new() }
    }

    /// Appends one styled character.
    pub fn next(self, style: Style, s: char) -> (r: Pixels)
        ensures
            r@ == self@.push(Pixel { style, text: Option::Some(s) }),
    {
        let mut cells = self.cells;
        cells.push(Pixel { style, text: Option::Some(s) });
        Pixels { cells }
    }

    /// Appends every character of `s`, all in one style.
    pub fn string(self, style: Style, s: &str) -> (r: Pixels)
        ensures
            r@.len() == self@.len() + s@.len(),
            forall|i: int| 0 <= i < self@.len() ==> r@[i] == self@[i],
            forall|i: int|
                0 <= i < s@.len() ==> r@[self@.len() + i] == (Pixel {
                    style,
                    text: Option::Some(s@[i]),
                }),
    {
        let ghost base = self@;
        let mut cells = self.cells;
        let n = s.unicode_len();
        let mut k: usize = 0;
        while k < n
            invariant
                k <= n,
                n == s@.len(),
                cells@.len() == base.len() + k,
                forall|i: int| 0 <= i < base.len() ==> cells@[i] == base[i],
                forall|i: int|
                    0 <= i < k ==> cells@[base.len() + i] == (Pixel {
                        style,
                        text: Option::Some(s@[i]),
                    }),
            decreases n - k,
        {
            let c = s.get_char(k);
            cells.push(Pixel { style, text: Option::Some(c) });
            k = k + 1;
        }
        Pixels { cells }
    }

    /// Number of cells in the run.
    pub fn len(&self) -> (r: usize)
        ensures
            r == self@.len(),
    {
        self.cells.len()
    }

    /// The cell at a position.
    pub fn cell(&self, i: usize) -> (r: Pixel)
        requires
            i < self@.len(),
        ensures
            r == self@[i as int],
    {
        self.cells[i]
    }

    /// A mutable borrow of the cell at `index`, if it exists.
    pub fn get_mut(&mut self, index: usize) -> (r: Option<&mut Pixel>)
        ensures
            (index < old(self)@.len()) == (r is Some),
            match r {
                Option::Some(p) => *p == old(self)@[index as int] && final(self)@ == old(self)@.update(index as int, *final(p)),
                Option::None => final(self)@ == old(self)@,
            },
    {
        if index < self.cells.len() {
            Option::Some(&mut self.cells[index])
        } else {
            Option::None
        }
    }

    /// Overwrites the cell at `index`; out-of-range writes are ignored.
    pub fn iter_mut(&mut self, index: usize, p: Pixel)
        ensures
            final(self)@.len() == old(self)@.len(),
            index < old(self)@.len() ==> final(self)@ == old(self)@.update(index as int, p),
            index >= old(self)@.len() ==> final(self)@ == old(self)@,
    {
        if index < self.cells.len() {
            self.cells[index] = p;
        }
    }
}

/// One grouped terminal write: a horizontal run of characters sharing a
/// style, starting at a screen position (the terminal wraps runs that
/// cross the right edge).
#[derive(Debug)]
pub struct DrawCommand {
    pub x: u16,
    pub y: u16,
    pub style: Style,
    pub text: Vec<char>,
}

/// A screen coordinate computed from 16-bit parts stays far below the
/// index range.
proof fn lemma_coord_bound(y: int, w: int, x: int)
    by (nonlinear_arith)
    requires
        0 <= y <= 65535,
        0 <= w <= 65535,
        0 <= x <= 65535,
    ensures
        y * w + x <= 4294901760,
{
}

/// A cell of a row that lies on the surface has an index below the
/// cell count.
proof fn lemma_row_fits(row_y: int, width: int, height: int, off: int)
    by (nonlinear_arith)
    requires
        0 <= row_y < height,
        0 <= off < width,
    ensures
        row_y * width + off < width * height,
{
}

/// Number of cells two equally long surfaces disagree on, up to `upto`.
pub open spec fn spec_count_diff(a: Seq<Pixel>, b: Seq<Pixel>, upto: int) -> int
    decreases upto,
{
    if upto <= 0 {
        0
    } else {
        spec_count_diff(a, b, upto - 1) + if spec_pixel_eq(a[upto - 1], b[upto - 1]) {
            0int
        } else {
            1int
        }
    }
}

/// The characters a run of cells is drawn as, for cell indices in
/// `lo..hi`.
pub open spec fn spec_run_chars(want: Seq<Pixel>, lo: int, hi: int) -> Seq<char>
    decreases hi - lo,
{
    if hi <= lo {
        Seq::empty()
    } else {
        spec_run_chars(want, lo, hi - 1).push(spec_shown_char(want[hi - 1]))
    }
}

/// Every cell with index in `lo..hi` has the given style.
pub open spec fn spec_all_style(want: Seq<Pixel>, lo: int, hi: int, style: Style) -> bool
    decreases hi - lo,
{
    if hi <= lo {
        true
    } else {
        spec_all_style(want, lo, hi - 1, style) && want[hi - 1].style == style
    }
}

/// Every cell with index in `lo..hi` was due for a change.
pub open spec fn spec_all_diff(shown: Seq<Pixel>, want: Seq<Pixel>, lo: int, hi: int) -> bool
    decreases hi - lo,
{
    if hi <= lo {
        true
    } else {
        spec_all_diff(shown, want, lo, hi - 1) && !spec_pixel_eq(shown[hi - 1], want[hi - 1])
    }
}

/// A draw command is sound for a diff from `shown` to `want` on a
/// surface of the given width: the cells it writes are in range, were
/// all due for a change, and get exactly the wanted characters in the
/// wanted style.
pub open spec fn spec_cmd_sound(
    cmd: DrawCommand,
    width: int,
    shown: Seq<Pixel>,
    want: Seq<Pixel>,
) -> bool {
    let start = cmd.y as int * width + cmd.x as int;
    let end = start + cmd.text@.len();
    &&& 0 <= start
    &&& end <= want.len()
    &&& cmd.text@ == spec_run_chars(want, start, end)
    &&& spec_all_style(want, start, end, cmd.style)
    &&& spec_all_diff(shown, want, start, end)
}

/// Total number of cells a command list writes.
pub open spec fn spec_cmds_cells(cmds: Seq<DrawCommand>) -> int
    decreases cmds.len(),
{
    if cmds.len() == 0 {
        0
    } else {
        spec_cmds_cells(cmds.drop_last()) + cmds.last().text@.len()
    }
}

/// The screen buffer: the cells already on the terminal and the cells
/// the next render pass should show.
#[derive(Debug)]
pub struct Buffer {
    pub width: u16,
    pub height: u16,
    /// The cells currently on the terminal.
    pub shown: Vec<Pixel>,
    /// The cells the next render pass should put there.
    pub want: Vec<Pixel>,
}

impl Buffer {
    /// The buffer invariant: both surfaces cover the screen exactly.
    pub open spec fn wf(&self) -> bool {
        &&& self.spec_shown().len() == self.width as int * self.height as int
        &&& self.spec_want().len() == self.width as int * self.height as int
    }

    /// The cells currently on the terminal.
    pub open spec fn spec_shown(&self) -> Seq<Pixel> {
        self.shown@
    }

    /// The cells the next render pass should put there.
    pub open spec fn spec_want(&self) -> Seq<Pixel> {
        self.want@
    }

    /// An empty, zero-sized buffer.
    pub fn new() -> (r: Buffer)
        ensures
            r.wf(),
            r.width == 0,
            r.height == 0,
    {
        Buffer { width: 0, height: 0, shown: Vec::new(), want: Vec::new() }
    }

    /// Resizes the surface; every cell of both surfaces becomes empty.
    pub fn resize(&mut self, width: u16, height: u16)
        ensures
            final(self).wf(),
            final(self).width == width,
            final(self).height == height,
            forall|i: int|
                0 <= i < final(self).spec_want().len() ==> (#[trigger] final(self).spec_want()[i]).text is None && final(self).spec_want()[i].style == Style::Normal,
    {
        self.width = width;
        self.height = height;
        proof {
            lemma_coord_bound(width as int, height as int, 0);
        }
        let total: usize = (width as usize) * (height as usize);
        let mut shown: Vec<Pixel> = Vec::new();
        let mut want: Vec<Pixel> = Vec::new();
        let mut k: usize = 0;
        while k < total
            invariant
                k <= total,
                shown@.len() == k,
                want@.len() == k,
                forall|i: int|
                    0 <= i < k ==> (#[trigger] want@[i]).text is None && want@[i].style
                        == Style::Normal,
            decreases total - k,
        {
            shown.push(Pixel { text: Option::None, style: Style::Normal });
            want.push(Pixel { text: Option::None, style: Style::Normal });
            k = k + 1;
        }
        self.shown = shown;
        self.want = want;
    }

    /// The screen position of a cell index.
    pub fn coord_to_xy(&self, coord: usize) -> (r: (u16, u16))
        requires
            self.width > 0,
            coord < self.width as int * self.height as int,
        ensures
            r.0 == coord as int % self.width as int,
            r.1 == coord as int / self.width as int,
            r.1 as int * self.width as int + r.0 as int == coord,
    {
        let w = self.width as usize;
        let x = coord % w;
        let y = coord / w;
        proof {
            vstd::arithmetic::div_mod::lemma_fundamental_div_mod(coord as int, w as int);
            vstd::arithmetic::div_mod::lemma_mod_bound(coord as int, w as int);
            vstd::arithmetic::div_mod::lemma_multiply_divide_lt(
                coord as int,
                w as int,
                self.height as int,
            );
        }
        (x as u16, y as u16)
    }

    /// The cell index of a screen position.
    pub fn xy_to_coord(&self, x: u16, y: u16) -> (r: usize)
        ensures
            r == y as int * self.width as int + x as int,
    {
        proof {
            lemma_coord_bound(y as int, self.width as int, x as int);
        }
        (y as usize) * (self.width as usize) + (x as usize)
    }

    /// Number of cells on the surface.
    pub fn cell_count(&self) -> (r: usize)
        ensures
            r == self.spec_want().len(),
    {
        self.want.len()
    }

    /// The cell the render pass should show at an index.
    pub fn wanted_at(&self, coord: usize) -> (r: Pixel)
        requires
            coord < self.spec_want().len(),
        ensures
            r == self.spec_want()[coord as int],
    {
        self.want[coord]
    }

    /// Asks the render pass to show `pixel` at a cell index.
    pub fn pixel(&mut self, coord: usize, pixel: Pixel)
        requires
            old(self).wf(),
            coord < old(self).spec_want().len(),
        ensures
            final(self).wf(),
            final(self).width == old(self).width,
            final(self).height == old(self).height,
            final(self).spec_shown() == old(self).spec_shown(),
            final(self).spec_want() == old(self).spec_want().update(coord as int, pixel),
    {
        self.want[coord] = pixel;
    }

    /// Writes `text` into the wanted surface, left to right from a
    /// screen position, in one style; cells past the end of the surface
    /// are dropped.
    pub fn string(&mut self, x: u16, y: u16, text: String, style: Style)
        requires
            old(self).wf(),
        ensures
            final(self).wf(),
            final(self).width == old(self).width,
            final(self).height == old(self).height,
            final(self).spec_shown() == old(self).spec_shown(),
            final(self).spec_want().len() == old(self).spec_want().len(),
            forall|i: int|
                0 <= i < text@.len() && y as int * old(self).width as int + x as int + i < old(self).spec_want().len() ==> final(self).spec_want()[y as int * old(self).width as int
                    + x as int + i] == (Pixel { text: Option::Some(text@[i]), style }),
            forall|c: int|
                0 <= c < old(self).spec_want().len() && !(y as int * old(self).width as int
                    + x as int <= c < y as int * old(self).width as int + x as int + text@.len())
                    ==> final(self).spec_want()[c] == old(self).spec_want()[c],
    {
        let coord = self.xy_to_coord(x, y);
        let n = text.as_str().unicode_len();
        let mut i: usize = 0;
        while i < n
            invariant
                i <= n,
                n == text@.len(),
                self.wf(),
                self.width == old(self).width,
                self.height == old(self).height,
                self.spec_shown() == old(self).spec_shown(),
                self.spec_want().len() == old(self).spec_want().len(),
                coord == y as int * old(self).width as int + x as int,
                forall|k: int|
                    0 <= k < i && coord + k < old(self).spec_want().len() ==> self.spec_want()[coord
                        + k] == (Pixel { text: Option::Some(text@[k]), style }),
                forall|c: int|
                    0 <= c < old(self).spec_want().len() && !(coord <= c < coord + i) ==> self
                        .spec_want()[c] == old(self).spec_want()[c],
            decreases n - i,
        {
            let len = self.want.len();
            if i >= len || coord >= len - i {
                return ;
            }
            let c = text.as_str().get_char(i);
            self.pixel(coord + i, Pixel { text: Option::Some(c), style });
            i = i + 1;
        }
    }

    /// True when a cell index falls inside the rectangle as laid out
    /// on this buffer.
    pub open spec fn spec_rect_covers(&self, rect: Rect, c: int) -> bool {
        &&& rect.y as int <= (c / (self.width as int)) < rect.y as int + rect.height as int
        &&& rect.x as int <= (c % (self.width as int)) < rect.x as int + rect.width as int
    }

    /// Fills a rectangle of the wanted surface with one character in
    /// one style.  The rectangle must lie on the surface.
    pub fn rect(&mut self, rect: Rect, text: char, style: Style)
        requires
            old(self).wf(),
            old(self).width > 0,
            rect.x as int + rect.width as int <= old(self).width,
            rect.y as int + rect.height as int <= old(self).height,
        ensures
            final(self).wf(),
            final(self).width == old(self).width,
            final(self).height == old(self).height,
            final(self).spec_shown() == old(self).spec_shown(),
            final(self).spec_want().len() == old(self).spec_want().len(),
            forall|c: int|
                #![trigger final(self).spec_want()[c]]
                0 <= c < old(self).spec_want().len() ==> final(self).spec_want()[c] == (if old(self).spec_rect_covers(rect, c) {
                    (Pixel { text: Option::Some(text), style })
                } else {
                    old(self).spec_want()[c]
                }),
    {
        let ghost w = self.width as int;
        let mut row: u16 = 0;
        while row < rect.height
            invariant
                row <= rect.height,
                self.wf(),
                self.width == old(self).width,
                self.height == old(self).height,
                self.width > 0,
                w == self.width as int,
                rect.x as int + rect.width as int <= self.width,
                rect.y as int + rect.height as int <= self.height,
                self.spec_shown() == old(self).spec_shown(),
                self.spec_want().len() == old(self).spec_want().len(),
                forall|c: int|
                    #![trigger self.spec_want()[c]]
                    0 <= c < old(self).spec_want().len() ==> self.spec_want()[c] == (if rect.y
                        as int <= (c / w) < rect.y as int + row as int && rect.x as int <= (c % w)
                        < rect.x as int + rect.width as int {
                        (Pixel { text: Option::Some(text), style })
                    } else {
                        old(self).spec_want()[c]
                    }),
            decreases rect.height - row,
        {
            let mut col: u16 = 0;
            let base = self.xy_to_coord(rect.x, rect.y + row);
            while col < rect.width
                invariant
                    col <= rect.width,
                    self.wf(),
                    self.width == old(self).width,
                    self.height == old(self).height,
                    self.width > 0,
                    w == self.width as int,
                    rect.x as int + rect.width as int <= self.width,
                    rect.y as int + rect.height as int <= self.height,
                    row < rect.height,
                    self.spec_shown() == old(self).spec_shown(),
                    self.spec_want().len() == old(self).spec_want().len(),
                    base == (rect.y + row) as int * w + rect.x as int,
                    forall|c: int|
                        #![trigger self.spec_want()[c]]
                        0 <= c < old(self).spec_want().len() ==> self.spec_want()[c] == (if (rect.y
                            as int <= (c / w) < rect.y as int + row as int && rect.x as int <= (c % w)
                            < rect.x as int + rect.width as int) || ((c / w) == rect.y as int
                            + row as int && rect.x as int <= (c % w) < rect.x as int + col as int) {
                            (Pixel { text: Option::Some(text), style })
                        } else {
                            old(self).spec_want()[c]
                        }),
                decreases rect.width - col,
            {
                proof {
                    lemma_coord_bound(rect.y as int + row as int, w, rect.x as int);
                    lemma_row_fits(
                        rect.y as int + row as int,
                        w,
                        self.height as int,
                        rect.x as int + col as int,
                    );
                }
                let coord = base + (col as usize);
                self.pixel(coord, Pixel { text: Option::Some(text), style });
                proof {
                    vstd::arithmetic::div_mod::lemma_fundamental_div_mod_converse_div(
                        coord as int,
                        w,
                        rect.y as int + row as int,
                        rect.x as int + col as int,
                    );
                    vstd::arithmetic::div_mod::lemma_fundamental_div_mod_converse_mod(
                        coord as int,
                        w,
                        rect.y as int + row as int,
                        rect.x as int + col as int,
                    );
                    assert forall|c: int|
                        0 <= c < old(self).spec_want().len() && c != coord implies #[trigger] (c
                        / w) == c / w && (c / w) * w + c % w == c by {
                        vstd::arithmetic::div_mod::lemma_fundamental_div_mod(c, w);
                    }
                }
                col = col + 1;
            }
            row = row + 1;
        }
    }

    /// Blits a prepared cell run into the wanted surface, left to right
    /// from a screen position; cells past the end are dropped.
    pub fn pixels(&mut self, x: u16, y: u16, pixels: &Pixels)
        requires
            old(self).wf(),
        ensures
            final(self).wf(),
            final(self).width == old(self).width,
            final(self).height == old(self).height,
            final(self).spec_shown() == old(self).spec_shown(),
            final(self).spec_want().len() == old(self).spec_want().len(),
            forall|i: int|
                0 <= i < pixels@.len() && y as int * old(self).width as int + x as int + i < old(self).spec_want().len() ==> final(self).spec_want()[y as int * old(self).width as int
                    + x as int + i] == pixels@[i],
            forall|c: int|
                0 <= c < old(self).spec_want().len() && !(y as int * old(self).width as int
                    + x as int <= c < y as int * old(self).width as int + x as int + pixels@.len())
                    ==> final(self).spec_want()[c] == old(self).spec_want()[c],
    {
        let coord = self.xy_to_coord(x, y);
        let n = pixels.len();
        let mut i: usize = 0;
        while i < n
            invariant
                i <= n,
                n == pixels@.len(),
                self.wf(),
                self.width == old(self).width,
                self.height == old(self).height,
                self.spec_shown() == old(self).spec_shown(),
                self.spec_want().len() == old(self).spec_want().len(),
                coord == y as int * old(self).width as int + x as int,
                forall|k: int|
                    0 <= k < i && coord + k < old(self).spec_want().len() ==> self.spec_want()[coord
                        + k] == pixels@[k],
                forall|c: int|
                    0 <= c < old(self).spec_want().len() && !(coord <= c < coord + i) ==> self
                        .spec_want()[c] == old(self).spec_want()[c],
            decreases n - i,
        {
            let len = self.want.len();
            if i >= len || coord >= len - i {
                return ;
            }
            let p = pixels.cell(i);
            self.pixel(coord + i, p);
            i = i + 1;
        }
    }

    /// The render pass: diffs the wanted surface against the terminal
    /// mirror, brings the mirror up to date, and returns the grouped
    /// draw commands that effect exactly that difference on the
    /// terminal — one command per run of changed cells sharing a style,
    /// and one written cell per changed cell.
    pub fn draw_changes(&mut self) -> (r: Vec<DrawCommand>)
        requires
            old(self).wf(),
            old(self).width > 0,
        ensures
            final(self).wf(),
            final(self).width == old(self).width,
            final(self).height == old(self).height,
            final(self).spec_want() == old(self).spec_want(),
            final(self).spec_shown() =~= old(self).spec_want(),
            spec_cmds_cells(r@) == spec_count_diff(
                old(self).spec_shown(),
                old(self).spec_want(),
                old(self).spec_want().len() as int,
            ),
            forall|k: int|
                0 <= k < r@.len() ==> spec_cmd_sound(
                    #[trigger] r@[k],
                    old(self).width as int,
                    old(self).spec_shown(),
                    old(self).spec_want(),
                ),
    {
        let ghost want0 = self.spec_want();
        let ghost shown0 = self.spec_shown();
        let total = self.want.len();
        let mut cmds: Vec<DrawCommand> = Vec::new();
        let mut c: usize = 0;
        while c < total
            invariant
                0 <= c <= total,
                total == want0.len(),
                self.wf(),
                self.width == old(self).width,
                self.height == old(self).height,
                self.width > 0,
                self.spec_want() == want0,
                shown0.len() == total,
                self.spec_shown().len() == total,
                forall|j: int| 0 <= j < c ==> self.spec_shown()[j] == want0[j],
                forall|j: int| c <= j < total ==> self.spec_shown()[j] == shown0[j],
                spec_cmds_cells(cmds@) == spec_count_diff(shown0, want0, c as int),
                forall|k: int|
                    0 <= k < cmds@.len() ==> spec_cmd_sound(
                        #[trigger] cmds@[k],
                        old(self).width as int,
                        shown0,
                        want0,
                    ),
            decreases total - c,
        {
            let wp = self.want[c];
            let sp = self.shown[c];
            if sp.same_as(&wp) {
                proof {
                    assert(sp == shown0[c as int] && wp == want0[c as int]);
                    assert(self.spec_shown()[c as int] == want0[c as int]);
                }
                c = c + 1;
            } else {
                let (x, y) = self.coord_to_xy(c);
                let style = wp.style;
                let ghost c0 = c as int;
                let mut text: Vec<char> = Vec::new();
                let mut run_on = true;
                while run_on
                    invariant
                        total == want0.len(),
                        self.wf(),
                        self.width == old(self).width,
                        self.height == old(self).height,
                        self.width > 0,
                        self.spec_want() == want0,
                        self.spec_shown().len() == total,
                        shown0.len() == total,
                        0 <= c0,
                        c0 + text@.len() == c as int,
                        c <= total,
                        run_on || text@.len() >= 1,
                        y as int * self.width as int + x as int == c0,
                        run_on ==> c < total && !spec_pixel_eq(shown0[c as int], want0[c as int])
                            && want0[c as int].style == style,
                        forall|j: int| 0 <= j < c0 ==> self.spec_shown()[j] == want0[j],
                        forall|j: int| c0 <= j < c as int ==> self.spec_shown()[j] == want0[j],
                        forall|j: int| c <= j < total ==> self.spec_shown()[j] == shown0[j],
                        spec_cmds_cells(cmds@) + text@.len() == spec_count_diff(
                            shown0,
                            want0,
                            c as int,
                        ),
                        text@ == spec_run_chars(want0, c0, c as int),
                        spec_all_style(want0, c0, c as int, style),
                        spec_all_diff(shown0, want0, c0, c as int),
                        forall|k: int|
                            0 <= k < cmds@.len() ==> spec_cmd_sound(
                                #[trigger] cmds@[k],
                                old(self).width as int,
                                shown0,
                                want0,
                            ),
                    decreases total - c,
                {
                    let wc = self.want[c];
                    text.push(wc.shown_char());
                    self.shown[c] = wc;
                    proof {
                        assert(wc == want0[c as int]);
                        assert(text@ == spec_run_chars(want0, c0, c as int + 1));
                    }
                    c = c + 1;
                    run_on = false;
                    if c < total {
                        let wn = self.want[c];
                        let sn = self.shown[c];
                        if !sn.same_as(&wn) && wn.style == style {
                            run_on = true;
                        }
                    }
                }
                let cmd = DrawCommand { x, y, style, text };
                proof {
                    assert(cmd.y as int * old(self).width as int + cmd.x as int == c0);
                    assert(spec_cmd_sound(cmd, old(self).width as int, shown0, want0));
                }
                let ghost cmds_before = cmds@;
                cmds.push(cmd);
                proof {
                    assert(cmds@.drop_last() =~= cmds_before);
                    assert(forall|k: int|
                        0 <= k < cmds_before.len() ==> cmds@[k] == cmds_before[k]);
                }
            }
        }
        proof {
            assert(self.spec_shown() =~= want0);
        }
        cmds
    }
}

} // verus!
