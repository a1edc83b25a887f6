//! Linear meters and boxes drawn with line characters.
use vstd::prelude::*;
use vstd::string::*;
use crate::symbols::{
    H_LINE, LEFT_DOWN, LEFT_UP, METER_CHAR, METER_EMPTY_CHAR, RIGHT_DOWN, RIGHT_UP, ROUND_LEFT_DOWN,
    ROUND_LEFT_UP, ROUND_RIGHT_DOWN, ROUND_RIGHT_UP, V_LINE,
};
use crate::text::{push_char, push_repeated, repeat_char};

verus! {

/// Number of filled cells of a meter `width` cells wide at `value` percent;
/// values above 100 count as 100.
pub open spec fn filled_cells(width: int, value: int) -> int {
    width * (if value > 100 { 100 } else { value }) / 100
}

/// A one-row gauge.
pub struct MeterRenderer {
    pub width: usize,
}

impl MeterRenderer {
    pub fn new(width: usize) -> (r: Self)
        ensures
            r.width == width,
    {
        MeterRenderer { width }
    }

    fn filled(&self, value: u8) -> (r: usize)
        ensures
            r == filled_cells(self.width as int, value as int),
            r <= self.width,
    {
        let v: u128 = if value > 100 { 100 } else { value as u128 };
        assert(self.width as int * v <= self.width as int * 100) by (nonlinear_arith)
            requires
                v <= 100,
        ;
        let f = (self.width as u128) * v / 100;
        assert(f <= self.width as int) by (nonlinear_arith)
            requires
                f == (self.width as int) * v / 100,
                v <= 100,
        ;
        f as usize
    }

    /// The filled part of the meter alone.
    pub fn render(&self, value: u8) -> (r: String)
        ensures
            r@ == repeat_char(METER_CHAR, filled_cells(self.width as int, value as int) as nat),
    {
        let filled = self.filled(value);
        let mut out = String::new();
        push_repeated(&mut out, METER_CHAR, filled);
        assert(out@ =~= repeat_char(METER_CHAR, filled as nat));
        out
    }

    /// The whole meter: filled cells, then empty ones up to the width.
    pub fn render_segmented(&self, value: u8) -> (r: String)
        ensures
            r@ == repeat_char(METER_CHAR, filled_cells(self.width as int, value as int) as nat)
                + repeat_char(METER_EMPTY_CHAR, (self.width - filled_cells(self.width as int, value as int)) as nat),
            r@.len() == self.width,
    {
        let filled = self.filled(value);
        let mut out = String::new();
        push_repeated(&mut out, METER_CHAR, filled);
        push_repeated(&mut out, METER_EMPTY_CHAR, self.width - filled);
        assert(out@ =~= repeat_char(METER_CHAR, filled as nat) + repeat_char(METER_EMPTY_CHAR, (self.width - filled) as nat));
        out
    }
}

/// The four corners, top-left, top-right, bottom-left, bottom-right.
pub open spec fn corners(rounded: bool) -> (char, char, char, char) {
    if rounded {
        (ROUND_LEFT_UP, ROUND_RIGHT_UP, ROUND_LEFT_DOWN, ROUND_RIGHT_DOWN)
    } else {
        (LEFT_UP, RIGHT_UP, LEFT_DOWN, RIGHT_DOWN)
    }
}

/// Number of title characters shown in a box `width` wide.
pub open spec fn title_shown(title: Seq<char>, width: int) -> int {
    if title.len() < width - 4 {
        title.len() as int
    } else {
        width - 4
    }
}

/// The top line of a box.
pub open spec fn box_top(rounded: bool, width: int, title: Option<Seq<char>>) -> Seq<char> {
    let c = corners(rounded);
    match title {
        Some(t) => {
            let n = title_shown(t, width);
            seq![c.0, H_LINE] + t.subrange(0, n) + seq![H_LINE] + repeat_char(H_LINE, (width - n - 4) as nat)
                + seq![c.1]
        },
        None => seq![c.0] + repeat_char(H_LINE, (width - 2) as nat) + seq![c.1],
    }
}

/// A line between the top and the bottom of a box.
pub open spec fn box_middle(width: int) -> Seq<char> {
    seq![V_LINE] + repeat_char(' ', (width - 2) as nat) + seq![V_LINE]
}

/// The bottom line of a box.
pub open spec fn box_bottom(rounded: bool, width: int) -> Seq<char> {
    let c = corners(rounded);
    seq![c.2] + repeat_char(H_LINE, (width - 2) as nat) + seq![c.3]
}

/// Draws framed boxes.
pub struct BoxDrawer {
    pub rounded_corners: bool,
    pub double_lines: bool,
}

impl BoxDrawer {
    pub fn new(rounded_corners: bool) -> (r: Self)
        ensures
            r.rounded_corners == rounded_corners,
            !r.double_lines,
    {
        BoxDrawer { rounded_corners, double_lines: false }
    }

    /// The lines of a box `width` characters wide: a top line that may hold
    /// the title (cut to `width - 4` characters), `height - 2` middle lines
    /// and a bottom line.
    pub fn draw_box(&self, width: usize, height: usize, title: Option<&str>) -> (r: Vec<String>)
        requires
            width >= 2,
            height >= 1,
            title is Some ==> width >= 4,
        ensures
            r@.len() == if height >= 2 { height as int } else { 2 },
            r@[0]@ == box_top(
                self.rounded_corners,
                width as int,
                match title {
                    Some(t) => Some(t@),
                    None => None,
                },
            ),
            forall|i: int| 1 <= i < r@.len() - 1 ==> #[trigger] r@[i]@ == box_middle(width as int),
            r@[r@.len() - 1]@ == box_bottom(self.rounded_corners, width as int),
    {
        let (lu, ru, ld, rd) = if self.rounded_corners {
            (ROUND_LEFT_UP, ROUND_RIGHT_UP, ROUND_LEFT_DOWN, ROUND_RIGHT_DOWN)
        } else {
            (LEFT_UP, RIGHT_UP, LEFT_DOWN, RIGHT_DOWN)
        };
        let mut lines: Vec<String> = Vec::new();
        let mut top = String::new();
        push_char(&mut top, lu);
        match title {
            Some(t) => {
                let len = t.unicode_len();
                let shown = if len < width - 4 { len } else { width - 4 };
                push_char(&mut top, H_LINE);
                top.append(t.substring_char(0, shown));
                push_char(&mut top, H_LINE);
                push_repeated(&mut top, H_LINE, width - shown - 4);
                push_char(&mut top, ru);
                assert(top@ =~= box_top(self.rounded_corners, width as int, Some(t@)));
            },
            None => {
                push_repeated(&mut top, H_LINE, width - 2);
                push_char(&mut top, ru);
                assert(top@ =~= box_top(self.rounded_corners, width as int, None));
            },
        }
        lines.push(top);
        let mut k: usize = 1;
        while k + 1 < height
            invariant
                1 <= k,
                height >= 1,
                width >= 2,
                k < height || k == 1,
                lines@.len() == k,
                lines@[0]@ == box_top(
                    self.rounded_corners,
                    width as int,
                    match title {
                        Some(t) => Some(t@),
                        None => None,
                    },
                ),
                forall|i: int| 1 <= i < k ==> #[trigger] lines@[i]@ == box_middle(width as int),
            decreases height - k,
        {
            let mut middle = String::new();
            push_char(&mut middle, V_LINE);
            push_repeated(&mut middle, ' ', width - 2);
            push_char(&mut middle, V_LINE);
            assert(middle@ =~= box_middle(width as int));
            lines.push(middle);
            k = k + 1;
        }
        let mut bottom = String::new();
        push_char(&mut bottom, ld);
        push_repeated(&mut bottom, H_LINE, width - 2);
        push_char(&mut bottom, rd);
        assert(bottom@ =~= box_bottom(self.rounded_corners, width as int));
        lines.push(bottom);
        lines
    }
}

} // verus!
