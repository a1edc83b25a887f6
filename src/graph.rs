//! Sparkline rendering: quantizes a window of samples into rows of glyphs.
use vstd::prelude::*;
use crate::symbols::{GraphSymbol, glyph_table};
use crate::text::push_char;

verus! {

/// Sample units per percentage point: a sample of `42_500` stands for 42.5%.
pub const SAMPLE_UNITS_PER_PERCENT: i64 = 1000;

/// The sample that stands for 100%.
pub const FULL_SCALE: i64 = 100 * SAMPLE_UNITS_PER_PERCENT;

/// The sample for `part` out of `whole`: `part / whole` of `FULL_SCALE`,
/// rounded down and capped at `i64::MAX`; zero when `whole` is zero.
pub open spec fn ratio_sample_of(part: int, whole: int) -> i64 {
    if whole == 0 {
        0
    } else if part * FULL_SCALE / whole > i64::MAX {
        i64::MAX
    } else {
        (part * FULL_SCALE / whole) as i64
    }
}

/// The sample for `part` out of `whole`, such as used out of total memory.
pub fn ratio_sample(part: u64, whole: u64) -> (r: i64)
    ensures
        r == ratio_sample_of(part as int, whole as int),
{
    if whole == 0 {
        return 0;
    }
    assert((part as int) * 100_000 <= 0x1_0000_0000_0000_0000 * 100_000) by (nonlinear_arith)
        requires
            part < 0x1_0000_0000_0000_0000,
    ;
    let q: u128 = (part as u128) * (FULL_SCALE as u128) / (whole as u128);
    if q > i64::MAX as u128 {
        i64::MAX
    } else {
        q as i64
    }
}

/// A sample clamped into `[0, FULL_SCALE]`.
pub open spec fn clamp_sample(v: int) -> int {
    if v < 0 {
        0
    } else if v > FULL_SCALE {
        FULL_SCALE as int
    } else {
        v
    }
}

/// Level `0..=4` of a clamped sample `v` within row `row` of a graph of
/// `height` rows. The row covers the band from `100 * (height - row - 1) / height`
/// to `100 * (height - row) / height` percent; both sides are scaled by
/// `height` so that the comparison is exact. A positive sample never gets
/// level 0 (the no-zero rule).
pub open spec fn level(v: int, row: int, height: int) -> int {
    let x = v * height;
    let high = FULL_SCALE * (height - row);
    let low = FULL_SCALE * (height - row - 1);
    let min_level: int = if v > 0 { 1 } else { 0 };
    if x >= high {
        4
    } else if x <= low {
        min_level
    } else {
        // round(4 * (x - low) / FULL_SCALE), halves away from zero
        let r = (8 * (x - low) + FULL_SCALE) / (2 * FULL_SCALE);
        if r < min_level {
            min_level
        } else if r > 4 {
            4
        } else {
            r
        }
    }
}

/// Index of the first sample that a graph `width` cells wide shows.
pub open spec fn window_start(len: int, width: int) -> int {
    if len > 2 * width {
        len - 2 * width
    } else {
        0
    }
}

/// The samples that a graph `width` cells wide shows: the newest `2 * width`.
pub open spec fn windowed(data: Seq<i64>, width: int) -> Seq<i64> {
    data.subrange(window_start(data.len() as int, width), data.len() as int)
}

/// Number of glyph columns for `n` samples: one per pair, the last pair may
/// hold one sample.
pub open spec fn column_count(n: int) -> int {
    (n + 1) / 2
}

/// The first (older) clamped sample of column `j`.
pub open spec fn pair_left(w: Seq<i64>, j: int) -> int {
    clamp_sample(w[2 * j] as int)
}

/// The second clamped sample of column `j`; the first again when the window
/// has an odd length and `j` is the last column.
pub open spec fn pair_right(w: Seq<i64>, j: int) -> int {
    if 2 * j + 1 < w.len() {
        clamp_sample(w[2 * j + 1] as int)
    } else {
        pair_left(w, j)
    }
}

/// Table index of column `j` in row `row`.
pub open spec fn cell_index(w: Seq<i64>, j: int, row: int, height: int) -> int {
    level(pair_left(w, j), row, height) * 5 + level(pair_right(w, j), row, height)
}

/// Row `row` of a graph over the window `w`.
pub open spec fn graph_row(
    family: GraphSymbol,
    inverted: bool,
    w: Seq<i64>,
    row: int,
    height: int,
) -> Seq<char> {
    Seq::new(
        column_count(w.len() as int) as nat,
        |j: int| glyph_table(family, inverted)[cell_index(w, j, row, height)],
    )
}

/// All rows of the graph of `data`, top row first.
pub open spec fn graph_rows(
    data: Seq<i64>,
    width: int,
    height: int,
    family: GraphSymbol,
    inverted: bool,
) -> Seq<Seq<char>> {
    Seq::new(height as nat, |row: int| graph_row(family, inverted, windowed(data, width), row, height))
}

/// The character sequences of rendered rows.
pub open spec fn row_views(rows: Seq<String>) -> Seq<Seq<char>> {
    Seq::new(rows.len(), |i: int| rows[i]@)
}

/// Quantization is monotonic: within one band, a larger sample never gets a
/// lower level. Samples are clamped into `[0, FULL_SCALE]` first, as the
/// renderer does.
pub proof fn lemma_level_monotonic(a: int, b: int, row: int, height: int)
    requires
        a <= b,
        0 <= row < height,
    ensures
        level(clamp_sample(a), row, height) <= level(clamp_sample(b), row, height),
{
    let ca = clamp_sample(a);
    let cb = clamp_sample(b);
    assert(ca <= cb);
    assert(ca * height <= cb * height) by (nonlinear_arith)
        requires
            ca <= cb,
            height > 0,
    ;
    let low = FULL_SCALE * (height - row - 1);
    if ca * height > low && cb * height < FULL_SCALE * (height - row) {
        vstd::arithmetic::div_mod::lemma_div_is_ordered(
            8 * (ca * height - low) + FULL_SCALE,
            8 * (cb * height - low) + FULL_SCALE,
            2 * FULL_SCALE,
        );
    }
}

/// Rendering is a function of its arguments: two renderings of the same
/// samples with the same renderer settings give the same rows.
pub proof fn lemma_render_deterministic(
    g: GraphRenderer,
    data: Seq<i64>,
    first: Seq<String>,
    second: Seq<String>,
)
    requires
        row_views(first) == graph_rows(data, g.width as int, g.height as int, g.symbol, g.inverted),
        row_views(second) == graph_rows(data, g.width as int, g.height as int, g.symbol, g.inverted),
    ensures
        row_views(first) == row_views(second),
{
}

/// Rendering is total: with no samples, or a width of zero, every one of the
/// `height` rows is empty; with a height of zero there are no rows.
pub proof fn lemma_render_total(data: Seq<i64>, width: nat, height: nat, family: GraphSymbol, inverted: bool)
    ensures
        graph_rows(Seq::empty(), width as int, height as int, family, inverted).len() == height,
        forall|row: int|
            0 <= row < height ==> #[trigger] graph_rows(Seq::empty(), width as int, height as int, family, inverted)[row].len() == 0,
        graph_rows(data, 0, height as int, family, inverted).len() == height,
        forall|row: int|
            0 <= row < height ==> #[trigger] graph_rows(data, 0, height as int, family, inverted)[row].len() == 0,
        graph_rows(data, width as int, 0, family, inverted).len() == 0,
{
    assert(windowed(Seq::<i64>::empty(), width as int).len() == 0);
    assert(windowed(data, 0).len() == 0);
}

/// Renders a series of samples as sparkline rows.
pub struct GraphRenderer {
    pub width: usize,
    pub height: usize,
    pub symbol: GraphSymbol,
    pub inverted: bool,
}

impl GraphRenderer {
    pub fn new(width: usize, height: usize, symbol: GraphSymbol, inverted: bool) -> (r: Self)
        ensures
            r.width == width,
            r.height == height,
            r.symbol == symbol,
            r.inverted == inverted,
    {
        GraphRenderer { width, height, symbol, inverted }
    }

    /// Level of the sample `value` (clamped first) in row `row`.
    pub fn value_to_symbol_index(&self, value: i64, row: usize) -> (r: usize)
        requires
            row < self.height,
        ensures
            r == level(clamp_sample(value as int), row as int, self.height as int),
            r <= 4,
    {
        let v: i64 = if value < 0 {
            0
        } else if value > FULL_SCALE {
            FULL_SCALE
        } else {
            value
        };
        quantize(v as u64, row, self.height)
    }

    /// Rows of glyphs, top first, for the newest `2 * width` samples of
    /// `data` (oldest first), two samples per glyph.
    pub fn render(&self, data: &[i64]) -> (r: Vec<String>)
        ensures
            r@.len() == self.height,
            row_views(r@) == graph_rows(
                data@,
                self.width as int,
                self.height as int,
                self.symbol,
                self.inverted,
            ),
            forall|row: int|
                0 <= row < self.height ==> #[trigger] r@[row]@ == graph_rows(
                    data@,
                    self.width as int,
                    self.height as int,
                    self.symbol,
                    self.inverted,
                )[row],
    {
        let table = self.symbol.get_symbols(self.inverted);
        let data_len = data.len();
        let offset: usize = if self.width <= data_len / 2 {
            data_len - 2 * self.width
        } else {
            0
        };
        let ghost w = windowed(data@, self.width as int);
        assert(offset == window_start(data_len as int, self.width as int));
        let n = data_len - offset;
        let columns = n / 2 + n % 2;
        assert(columns == column_count(w.len() as int));
        let mut output: Vec<String> = Vec::new();
        let mut row: usize = 0;
        while row < self.height
            invariant
                row <= self.height,
                output@.len() == row,
                table@ == glyph_table(self.symbol, self.inverted),
                offset == window_start(data_len as int, self.width as int),
                data_len == data@.len(),
                w == windowed(data@, self.width as int),
                n == w.len(),
                columns == column_count(n as int),
                forall|k: int|
                    0 <= k < row ==> #[trigger] output@[k]@ == graph_row(
                        self.symbol,
                        self.inverted,
                        w,
                        k,
                        self.height as int,
                    ),
            decreases self.height - row,
        {
            let mut line = String::new();
            let mut j: usize = 0;
            while j < columns
                invariant
                    row < self.height,
                    j <= columns,
                    table@ == glyph_table(self.symbol, self.inverted),
                    offset + n == data_len,
                    data_len == data@.len(),
                    w == windowed(data@, self.width as int),
                    w =~= data@.subrange(offset as int, data_len as int),
                    n == w.len(),
                    columns == column_count(n as int),
                    line@ =~= graph_row(self.symbol, self.inverted, w, row as int, self.height as int).subrange(0, j as int),
                decreases columns - j,
            {
                let i = offset + 2 * j;
                let v1 = clamp(data[i]);
                let v2 = if 2 * j + 1 < n {
                    clamp(data[i + 1])
                } else {
                    v1
                };
                assert(v1 == pair_left(w, j as int));
                assert(v2 == pair_right(w, j as int));
                let a = quantize(v1, row, self.height);
                let b = quantize(v2, row, self.height);
                push_char(&mut line, table[a * 5 + b]);
                j = j + 1;
            }
            output.push(line);
            row = row + 1;
        }
        assert(row_views(output@) =~= graph_rows(
            data@,
            self.width as int,
            self.height as int,
            self.symbol,
            self.inverted,
        ));
        output
    }
}

/// `value` clamped into `[0, FULL_SCALE]`.
fn clamp(value: i64) -> (r: u64)
    ensures
        r == clamp_sample(value as int),
{
    if value < 0 {
        0
    } else if value > FULL_SCALE {
        FULL_SCALE as u64
    } else {
        value as u64
    }
}

/// Level of a clamped sample in row `row` of `height` rows.
fn quantize(v: u64, row: usize, height: usize) -> (r: usize)
    requires
        v <= FULL_SCALE,
        row < height,
    ensures
        r == level(v as int, row as int, height as int),
        r <= 4,
{
    assert((v as int) * (height as int) <= 100_000 * 0x1_0000_0000_0000_0000) by (nonlinear_arith)
        requires
            v <= 100_000,
            height < 0x1_0000_0000_0000_0000,
    ;
    let x: u128 = (v as u128) * (height as u128);
    let high: u128 = (FULL_SCALE as u128) * ((height - row) as u128);
    let low: u128 = (FULL_SCALE as u128) * ((height - row - 1) as u128);
    let min_level: usize = if v > 0 { 1 } else { 0 };
    if x >= high {
        4
    } else if x <= low {
        min_level
    } else {
        let rounded: u128 = (8 * (x - low) + (FULL_SCALE as u128)) / (2 * (FULL_SCALE as u128));
        if rounded < min_level as u128 {
            min_level
        } else if rounded > 4 {
            4
        } else {
            rounded as usize
        }
    }
}

} // verus!
