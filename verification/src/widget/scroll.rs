use vstd::prelude::*;
use vstd::arithmetic::div_mod::lemma_div_is_ordered;
use vstd::arithmetic::mul::lemma_mul_inequality;

verus! {

/// The glyphs a scrollbar is drawn with: one column of full and half blocks,
/// so each terminal row offers two addressable half-rows.
pub struct BarCharSet {
    pub full: char,
    pub upper_half: char,
    pub lower_half: char,
}

impl BarCharSet {
    pub fn normal() -> (r: BarCharSet)
        ensures
            r.full == '│' && r.upper_half == '╵' && r.lower_half == '╷',
    {
        BarCharSet { full: '│', upper_half: '╵', lower_half: '╷' }
    }

    pub fn heavy() -> (r: BarCharSet)
        ensures
            r.full == '┃' && r.upper_half == '╹' && r.lower_half == '╻',
    {
        BarCharSet { full: '┃', upper_half: '╹', lower_half: '╻' }
    }
}

/// Rounds the rational `p / q` to the nearest integer, halves away from zero.
pub open spec fn round_div(p: int, q: int) -> int
    recommends
        q > 0,
{
    (2 * p + q) / (2 * q)
}

/// Thumb height in half-rows: the bar height scaled by the visible share of
/// the content, rounded, and at least one half-row so the thumb never
/// vanishes.
pub open spec fn spec_thumb_height(lines: int, rows: int) -> int
    recommends
        0 < rows < lines,
{
    let h = round_div(4 * rows * rows, 2 * lines);
    if h < 1 {
        1
    } else {
        h
    }
}

/// Thumb top position in half-rows: the remaining travel distributed in
/// proportion to the scroll offset, rounded.
pub open spec fn spec_thumb_top(lines: int, rows: int, off: int) -> int
    recommends
        0 < rows < lines,
        0 <= off <= lines - rows,
{
    round_div((2 * rows - spec_thumb_height(lines, rows)) * (2 * off), 2 * lines - 2 * rows)
}

/// The glyph drawn on terminal row `i`: a full block when both half-rows of
/// the row fall inside the thumb, a half block when only one does, and a
/// space otherwise.
pub open spec fn spec_bar_glyph(
    lines: int,
    rows: int,
    off: int,
    set: BarCharSet,
    i: int,
) -> char {
    let top = spec_thumb_top(lines, rows, off);
    let h = spec_thumb_height(lines, rows);
    let upper = top <= 2 * i < top + h;
    let lower = top <= 2 * i + 1 < top + h;
    if upper && lower {
        set.full
    } else if upper {
        set.upper_half
    } else if lower {
        set.lower_half
    } else {
        ' '
    }
}

/// The thumb is at least one half-row tall and never taller than the bar.
pub proof fn lemma_thumb_height_bounds(lines: int, rows: int)
    requires
        0 < rows < lines,
    ensures
        1 <= spec_thumb_height(lines, rows) <= 2 * rows,
{
    let p = 4 * rows * rows;
    let q = 2 * lines;
    assert(2 * p + q <= 2 * q * (2 * rows) + q) by (nonlinear_arith)
        requires
            0 < rows < lines,
            p == 4 * rows * rows,
            q == 2 * lines,
    ;
    assert((2 * q * (2 * rows) + q) / (2 * q) == 2 * rows) by (nonlinear_arith)
        requires
            q == 2 * lines,
            0 < lines,
    ;
    lemma_div_is_ordered(2 * p + q, 2 * q * (2 * rows) + q, 2 * q);
}

/// Scrollbar monotonicity: for a fixed content length and bar height, the
/// thumb top position never moves up as the scroll offset grows.
pub proof fn lemma_thumb_top_monotone(lines: int, rows: int, o1: int, o2: int)
    requires
        0 < rows < lines,
        0 <= o1 <= o2,
    ensures
        spec_thumb_top(lines, rows, o1) <= spec_thumb_top(lines, rows, o2),
{
    let h = spec_thumb_height(lines, rows);
    lemma_thumb_height_bounds(lines, rows);
    let den = 2 * lines - 2 * rows;
    lemma_mul_inequality(2 * o1, 2 * o2, 2 * rows - h);
    assert((2 * rows - h) * (2 * o1) <= (2 * rows - h) * (2 * o2)) by (nonlinear_arith)
        requires
            0 <= 2 * rows - h,
            0 <= o1 <= o2,
    ;
    lemma_div_is_ordered(
        2 * ((2 * rows - h) * (2 * o1)) + den,
        2 * ((2 * rows - h) * (2 * o2)) + den,
        2 * den,
    );
}

/// The scrollbar of a content of `lines_len` lines scrolled to `offset`,
/// drawn into a one-column region.
pub struct ScrollBar {
    pub lines_len: usize,
    pub offset: usize,
    pub bar_char_set: BarCharSet,
}

impl ScrollBar {
    pub fn new(lines_len: usize, offset: usize) -> (r: ScrollBar)
        ensures
            r.lines_len == lines_len,
            r.offset == offset,
            r.bar_char_set.full == '│',
            r.bar_char_set.upper_half == '╵',
            r.bar_char_set.lower_half == '╷',
    {
        ScrollBar { lines_len, offset, bar_char_set: BarCharSet::normal() }
    }

    /// Thumb height in half-rows for a bar `height` rows tall.
    fn calc_virtual_scrollbar_height(&self, height: u16) -> (r: u128)
        requires
            0 < height,
            (height as usize) < self.lines_len,
        ensures
            r == spec_thumb_height(self.lines_len as int, height as int),
            1 <= r <= 2 * (height as int),
    {
        let rows: u128 = height as u128;
        let lines: u128 = self.lines_len as u128;
        proof {
            assert(rows * rows <= 0xffff_ffff) by (nonlinear_arith)
                requires
                    rows <= 0xffff,
            ;
        }
        let rr: u128 = rows * rows;
        let p: u128 = 4 * rr;
        let q: u128 = 2 * lines;
        proof {
            assert(4 * (rr as int) == 4 * (rows as int) * (rows as int)) by (nonlinear_arith)
                requires
                    rr == rows * rows,
            ;
            lemma_thumb_height_bounds(lines as int, rows as int);
        }
        let h: u128 = (2 * p + q) / (2 * q);
        if h < 1 {
            1
        } else {
            h
        }
    }

    /// Thumb top in half-rows, given the thumb height.
    fn calc_virtual_scrollbar_top(&self, height: u16, sb_height: u128) -> (r: u128)
        requires
            0 < height,
            (height as usize) < self.lines_len,
            self.offset <= self.lines_len - (height as usize),
            sb_height == spec_thumb_height(self.lines_len as int, height as int),
        ensures
            r == spec_thumb_top(self.lines_len as int, height as int, self.offset as int),
            r + sb_height <= 2 * (height as int),
    {
        let rows: u128 = height as u128;
        let lines: u128 = self.lines_len as u128;
        let off: u128 = self.offset as u128;
        proof {
            lemma_thumb_height_bounds(lines as int, rows as int);
            assert((2 * rows - sb_height) * (2 * off) <= 4 * rows * lines) by (nonlinear_arith)
                requires
                    1 <= sb_height,
                    off <= lines,
                    0 < rows,
                    2 * rows >= sb_height,
            ;
            assert(4 * (rows as int) * (lines as int) < 0x80000_0000_0000_0000_0000) by (
            nonlinear_arith)
                requires
                    rows <= 0xffff,
                    lines <= 0xffff_ffff_ffff_ffff,
            ;
        }
        let num: u128 = (2 * rows - sb_height) * (2 * off);
        let den: u128 = 2 * lines - 2 * rows;
        let top: u128 = (2 * num + den) / (2 * den);
        proof {
            let c = 2 * (rows as int) - sb_height;
            assert(num <= den * c) by (nonlinear_arith)
                requires
                    num == c * (2 * (off as int)),
                    den == 2 * (lines as int) - 2 * (rows as int),
                    off <= lines - rows,
                    c >= 0,
                    lines > rows,
            ;
            assert(2 * (num as int) + den <= 2 * (den as int) * c + den) by (nonlinear_arith)
                requires
                    num <= den * c,
            ;
            assert((2 * (den as int) * c + den) / (2 * den) == c) by (nonlinear_arith)
                requires
                    den >= 2,
                    c >= 0,
            ;
            lemma_div_is_ordered(2 * (num as int) + den, 2 * (den as int) * c + den, 2 * den);
        }
        top
    }

    /// The column of glyphs for a bar `height` rows tall, top to bottom.
    pub fn render_rows(&self, height: u16) -> (r: Vec<char>)
        requires
            0 < height,
            (height as usize) < self.lines_len,
            self.offset <= self.lines_len - (height as usize),
        ensures
            r@.len() == height,
            forall|i: int|
                0 <= i < height ==> r@[i] == spec_bar_glyph(
                    self.lines_len as int,
                    height as int,
                    self.offset as int,
                    self.bar_char_set,
                    i,
                ),
    {
        let h = self.calc_virtual_scrollbar_height(height);
        let top = self.calc_virtual_scrollbar_top(height, h);
        let mut r: Vec<char> = Vec::new();
        let mut i: u16 = 0;
        while i < height
            invariant
                i <= height,
                0 < height,
                (height as usize) < self.lines_len,
                self.offset <= self.lines_len - (height as usize),
                h == spec_thumb_height(self.lines_len as int, height as int),
                top == spec_thumb_top(self.lines_len as int, height as int, self.offset as int),
                top + h <= 2 * (height as int),
                r@.len() == i,
                forall|j: int|
                    0 <= j < i ==> r@[j] == spec_bar_glyph(
                        self.lines_len as int,
                        height as int,
                        self.offset as int,
                        self.bar_char_set,
                        j,
                    ),
            decreases height - i,
        {
            let u: u128 = 2 * (i as u128);
            let upper = top <= u && u < top + h;
            let lower = top <= u + 1 && u + 1 < top + h;
            let c = if upper && lower {
                self.bar_char_set.full
            } else if upper {
                self.bar_char_set.upper_half
            } else if lower {
                self.bar_char_set.lower_half
            } else {
                ' '
            };
            r.push(c);
            i = i + 1;
        }
        r
    }
}

impl Default for ScrollBar {
    fn default() -> (r: Self)
        ensures
            r.lines_len == 0,
            r.offset == 0,
            r.bar_char_set.full == '│',
            r.bar_char_set.upper_half == '╵',
            r.bar_char_set.lower_half == '╷',
    {
        Self::new(0, 0)
    }
}

/// The scroll position of a viewport; stale values are corrected at render
/// time, not at mutation time.
pub struct ScrollOutputState {
    pub offset: usize,
}

impl ScrollOutputState {
    pub fn new(offset: usize) -> (r: ScrollOutputState)
        ensures
            r.offset == offset,
    {
        ScrollOutputState { offset }
    }

    /// Moves one line down, unchecked against the content length: the render
    /// pass clamps the offset, so a stale value lasts at most one frame.
    pub fn scroll_down(&mut self)
        ensures
            final(self).offset == spec_offset_down(old(self).offset as int),
    {
        self.offset = self.offset.saturating_add(1);
    }

    /// Moves one line up, stopping at the top.
    pub fn scroll_up(&mut self)
        ensures
            final(self).offset == spec_offset_up(old(self).offset as int),
    {
        self.offset = self.offset.saturating_sub(1);
    }
}

impl Default for ScrollOutputState {
    fn default() -> (r: Self)
        ensures
            r.offset == 0,
    {
        ScrollOutputState::new(0)
    }
}

/// The offset after one unchecked downward scroll.
pub open spec fn spec_offset_down(off: int) -> int {
    if off < usize::MAX {
        off + 1
    } else {
        off
    }
}

/// The offset after one upward scroll.
pub open spec fn spec_offset_up(off: int) -> int {
    if off > 0 {
        off - 1
    } else {
        0
    }
}

/// The largest offset the render pass allows: content length minus visible
/// rows, and zero when everything fits.
pub open spec fn spec_max_offset(lines: int, rows: int) -> int {
    if lines > rows {
        lines - rows
    } else {
        0
    }
}

/// The offset after the render pass has corrected it.
pub open spec fn spec_clamp_offset(off: int, lines: int, rows: int) -> int {
    if off > spec_max_offset(lines, rows) {
        spec_max_offset(lines, rows)
    } else {
        off
    }
}

/// The offset after `k` unchecked downward scrolls.
pub open spec fn spec_offset_after_downs(off: int, k: nat) -> int
    decreases k,
{
    if k == 0 {
        off
    } else {
        spec_offset_down(spec_offset_after_downs(off, (k - 1) as nat))
    }
}

/// The offset after `k` upward scrolls.
pub open spec fn spec_offset_after_ups(off: int, k: nat) -> int
    decreases k,
{
    if k == 0 {
        off
    } else {
        spec_offset_up(spec_offset_after_ups(off, (k - 1) as nat))
    }
}

/// Viewport clamp, downward half: enough downward scrolls followed by a
/// render land the offset exactly at the bottom, `max(0, lines - rows)`,
/// whatever offset the viewport started from.  Fewer scrolls than the
/// remaining distance stop short of the bottom, so the bound on `k` is
/// needed.
pub proof fn lemma_scrolled_to_bottom(off: int, k: nat, lines: int, rows: int)
    requires
        0 <= off <= usize::MAX,
        0 <= lines <= usize::MAX,
        0 <= rows,
        off + k >= spec_max_offset(lines, rows),
    ensures
        spec_clamp_offset(spec_offset_after_downs(off, k), lines, rows) == spec_max_offset(
            lines,
            rows,
        ),
    decreases k,
{
    if k > 0 {
        let prev = spec_offset_after_downs(off, (k - 1) as nat);
        lemma_offset_after_downs_bounds(off, (k - 1) as nat);
        if off + (k - 1) >= spec_max_offset(lines, rows) {
            lemma_scrolled_to_bottom(off, (k - 1) as nat, lines, rows);
        } else {
            lemma_offset_after_downs_exact(off, (k - 1) as nat);
        }
    }
}

/// Below `usize::MAX`, `k` downward scrolls add exactly `k`.
proof fn lemma_offset_after_downs_exact(off: int, k: nat)
    requires
        0 <= off,
        off + k <= usize::MAX,
    ensures
        spec_offset_after_downs(off, k) == off + k,
    decreases k,
{
    if k > 0 {
        lemma_offset_after_downs_exact(off, (k - 1) as nat);
    }
}

/// Downward scrolls never leave the machine range and never go below the
/// starting offset.
proof fn lemma_offset_after_downs_bounds(off: int, k: nat)
    requires
        0 <= off <= usize::MAX,
    ensures
        off <= spec_offset_after_downs(off, k) <= usize::MAX,
        spec_offset_after_downs(off, k) >= off + k || spec_offset_after_downs(off, k)
            == usize::MAX,
    decreases k,
{
    if k > 0 {
        lemma_offset_after_downs_bounds(off, (k - 1) as nat);
    }
}

/// Viewport clamp, upward half: at least as many upward scrolls as the
/// starting offset followed by a render land the offset exactly at the top.
pub proof fn lemma_scrolled_to_top(off: int, k: nat, lines: int, rows: int)
    requires
        0 <= off <= usize::MAX,
        0 <= lines,
        0 <= rows,
        k >= off,
    ensures
        spec_clamp_offset(spec_offset_after_ups(off, k), lines, rows) == 0,
    decreases k,
{
    if k > 0 {
        if off <= k - 1 {
            lemma_scrolled_to_top(off, (k - 1) as nat, lines, rows);
        } else {
            lemma_offset_after_ups_exact(off, (k - 1) as nat);
        }
    }
}

/// Up to the floor at zero, `k` upward scrolls subtract exactly `k`.
proof fn lemma_offset_after_ups_exact(off: int, k: nat)
    requires
        0 <= k <= off,
    ensures
        spec_offset_after_ups(off, k) == off - k,
    decreases k,
{
    if k > 0 {
        lemma_offset_after_ups_exact(off, (k - 1) as nat);
    }
}

/// What one render pass of the viewport paints: the window of visible lines
/// and, when the content overflows the window, a column of scrollbar glyphs.
pub struct RenderedViewport {
    pub lines: Vec<String>,
    pub bar: Option<Vec<char>>,
}

/// A bordered, scrollable block of text lines.  The border costs one row at
/// the top and one at the bottom, so `height - 2` content rows are visible.
pub struct ScrollOutput {
    pub lines: Vec<String>,
    pub focused: bool,
    pub selected: bool,
    pub title: String,
}

impl ScrollOutput {
    pub fn new(lines: Vec<String>, focused: bool, selected: bool) -> (r: ScrollOutput)
        ensures
            r.lines == lines,
            r.focused == focused,
            r.selected == selected,
            r.title@ == Seq::<char>::empty(),
    {
        ScrollOutput { lines, focused, selected, title: String::new() }
    }

    pub fn title(self, title: String) -> (r: Self)
        ensures
            r.lines == self.lines,
            r.focused == self.focused,
            r.selected == self.selected,
            r.title == title,
    {
        ScrollOutput { title, ..self }
    }

    /// Computes one frame: first corrects a stale offset against the current
    /// content length, then cuts out the visible window, and adds the
    /// scrollbar column exactly when the content is strictly longer than the
    /// window.  The height floor asks for one visible content row beside the
    /// two border rows: the half-row thumb arithmetic presupposes a window
    /// that can show something, and a shorter region never reaches this
    /// widget.
    pub fn render(&self, height: u16, state: &mut ScrollOutputState) -> (r: RenderedViewport)
        requires
            height >= 3,
        ensures
            final(state).offset == spec_clamp_offset(
                old(state).offset as int,
                self.lines@.len() as int,
                height - 2,
            ),
            r.lines@ == self.lines@.subrange(
                final(state).offset as int,
                if self.lines@.len() <= final(state).offset + (height - 2) {
                    self.lines@.len() as int
                } else {
                    final(state).offset + (height - 2)
                },
            ),
            self.lines@.len() > height - 2 <==> r.bar is Some,
            r.bar matches Some(bar) ==> bar@.len() == height - 2 && forall|i: int|
                0 <= i < bar@.len() ==> bar@[i] == spec_bar_glyph(
                    self.lines@.len() as int,
                    (height - 2) as int,
                    final(state).offset as int,
                    BarCharSet { full: '│', upper_half: '╵', lower_half: '╷' },
                    i,
                ),
    {
        let content_rows: usize = (height - 2) as usize;
        let max_offset = self.lines.len().saturating_sub(content_rows);
        if state.offset > max_offset {
            state.offset = max_offset;
        }
        let end = if self.lines.len() <= state.offset + content_rows {
            self.lines.len()
        } else {
            state.offset + content_rows
        };
        let mut visible: Vec<String> = Vec::new();
        let mut i: usize = state.offset;
        while i < end
            invariant
                state.offset <= i <= end,
                end <= self.lines@.len(),
                visible@ == self.lines@.subrange(state.offset as int, i as int),
            decreases end - i,
        {
            let line = self.lines[i].clone();
            visible.push(line);
            proof {
                assert(self.lines@.subrange(state.offset as int, i + 1 as int)
                    =~= self.lines@.subrange(state.offset as int, i as int).push(
                    self.lines@[i as int],
                ));
            }
            i = i + 1;
        }
        let bar = if self.lines.len() > content_rows {
            let sb = ScrollBar::new(self.lines.len(), state.offset);
            Some(sb.render_rows(height - 2))
        } else {
            None
        };
        RenderedViewport { lines: visible, bar }
    }
}

} // verus!
