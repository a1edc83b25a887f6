//! Color themes and the set of themes to pick from.
use vstd::prelude::*;
use vstd::string::*;

verus! {

/// A color theme: each entry is a hex color, `#rgb`, `#rrggbb` or a gray
/// level `#vv`.
#[derive(Debug, Clone)]
pub struct Theme {
    pub name: String,
    pub main_fg: String,
    pub main_bg: String,
    pub title: String,
    pub hi_fg: String,
    pub selected_bg: String,
    pub selected_fg: String,
    pub inactive_fg: String,
    pub div_line: String,
    pub graph_text: String,
    pub meter_bg: String,
    pub cpu_box: String,
    pub mem_box: String,
    pub net_box: String,
    pub proc_box: String,
    pub gpu_box: Option<String>,
    pub proc_misc: String,
    pub proc_start: String,
    pub proc_mid: String,
    pub proc_end: String,
    pub cpu_start: String,
    pub cpu_mid: String,
    pub cpu_end: String,
    pub mem_start: String,
    pub mem_mid: String,
    pub mem_end: String,
    pub net_start: String,
    pub net_mid: String,
    pub net_end: String,
    pub download_start: Option<String>,
    pub download_mid: Option<String>,
    pub download_end: Option<String>,
    pub upload_start: Option<String>,
    pub upload_mid: Option<String>,
    pub upload_end: Option<String>,
    pub temp_start: Option<String>,
    pub temp_mid: Option<String>,
    pub temp_end: Option<String>,
}

/// The colors of the built-in theme named `default`.
pub open spec fn is_default_theme(t: Theme) -> bool {
    &&& t.name@ == "default"@
    &&& t.main_fg@ == "#cc"@
    &&& t.main_bg@ == "#00"@
    &&& t.title@ == "#ee"@
    &&& t.hi_fg@ == "#b54040"@
    &&& t.selected_bg@ == "#7e2626"@
    &&& t.selected_fg@ == "#ee"@
    &&& t.inactive_fg@ == "#40"@
    &&& t.div_line@ == "#30"@
    &&& t.graph_text@ == "#60"@
    &&& t.meter_bg@ == "#40"@
    &&& t.cpu_box@ == "#3d7b46"@
    &&& t.mem_box@ == "#8a882e"@
    &&& t.net_box@ == "#423ba5"@
    &&& t.proc_box@ == "#923535"@
    &&& t.gpu_box matches Some(s) && s@ == "#35934d"@
    &&& t.proc_misc@ == "#0de756"@
    &&& t.proc_start@ == "#80d0a3"@
    &&& t.proc_mid@ == "#26e85f"@
    &&& t.proc_end@ == "#0de756"@
    &&& t.cpu_start@ == "#4897d8"@
    &&& t.cpu_mid@ == "#7ce567"@
    &&& t.cpu_end@ == "#eb7070"@
    &&& t.mem_start@ == "#ffc345"@
    &&& t.mem_mid@ == "#f3a32e"@
    &&& t.mem_end@ == "#e05a5a"@
    &&& t.net_start@ == "#90e0b5"@
    &&& t.net_mid@ == "#50d097"@
    &&& t.net_end@ == "#30b572"@
    &&& t.download_start matches Some(s) && s@ == "#80d0a3"@
    &&& t.download_mid matches Some(s) && s@ == "#26e85f"@
    &&& t.download_end matches Some(s) && s@ == "#0de756"@
    &&& t.upload_start matches Some(s) && s@ == "#d08090"@
    &&& t.upload_mid matches Some(s) && s@ == "#e82656"@
    &&& t.upload_end matches Some(s) && s@ == "#e70d56"@
    &&& t.temp_start matches Some(s) && s@ == "#4897d8"@
    &&& t.temp_mid matches Some(s) && s@ == "#f3a32e"@
    &&& t.temp_end matches Some(s) && s@ == "#eb7070"@
}

impl Default for Theme {
    fn default() -> (r: Self)
        ensures
            is_default_theme(r),
    {
        Theme {
            name: String::from_str("default"),
            main_fg: String::from_str("#cc"),
            main_bg: String::from_str("#00"),
            title: String::from_str("#ee"),
            hi_fg: String::from_str("#b54040"),
            selected_bg: String::from_str("#7e2626"),
            selected_fg: String::from_str("#ee"),
            inactive_fg: String::from_str("#40"),
            div_line: String::from_str("#30"),
            graph_text: String::from_str("#60"),
            meter_bg: String::from_str("#40"),
            cpu_box: String::from_str("#3d7b46"),
            mem_box: String::from_str("#8a882e"),
            net_box: String::from_str("#423ba5"),
            proc_box: String::from_str("#923535"),
            gpu_box: Some(String::from_str("#35934d")),
            proc_misc: String::from_str("#0de756"),
            proc_start: String::from_str("#80d0a3"),
            proc_mid: String::from_str("#26e85f"),
            proc_end: String::from_str("#0de756"),
            cpu_start: String::from_str("#4897d8"),
            cpu_mid: String::from_str("#7ce567"),
            cpu_end: String::from_str("#eb7070"),
            mem_start: String::from_str("#ffc345"),
            mem_mid: String::from_str("#f3a32e"),
            mem_end: String::from_str("#e05a5a"),
            net_start: String::from_str("#90e0b5"),
            net_mid: String::from_str("#50d097"),
            net_end: String::from_str("#30b572"),
            download_start: Some(String::from_str("#80d0a3")),
            download_mid: Some(String::from_str("#26e85f")),
            download_end: Some(String::from_str("#0de756")),
            upload_start: Some(String::from_str("#d08090")),
            upload_mid: Some(String::from_str("#e82656")),
            upload_end: Some(String::from_str("#e70d56")),
            temp_start: Some(String::from_str("#4897d8")),
            temp_mid: Some(String::from_str("#f3a32e")),
            temp_end: Some(String::from_str("#eb7070")),
        }
    }
}

} // verus!

verus! {

/// Whether some theme of `themes` is named `name`.
pub open spec fn has_theme(themes: Seq<Theme>, name: Seq<char>) -> bool {
    exists|i: int| 0 <= i < themes.len() && (#[trigger] themes[i]).name@ == name
}

/// Position of the theme named `name` in `themes`.
pub open spec fn theme_index(themes: Seq<Theme>, name: Seq<char>) -> int {
    choose|i: int| 0 <= i < themes.len() && (#[trigger] themes[i]).name@ == name
}

/// No two themes of `themes` share a name.
pub open spec fn names_unique(themes: Seq<Theme>) -> bool {
    forall|i: int, j: int|
        0 <= i < themes.len() && 0 <= j < themes.len() && i != j ==> (#[trigger] themes[i]).name@
            != (#[trigger] themes[j]).name@
}

/// The themes that can be picked, by name, and the one in use.
pub struct ThemeManager {
    themes: Vec<Theme>,
    current_theme: String,
}

impl ThemeManager {
    /// The themes, in the order they were first added.
    pub closed spec fn themes(&self) -> Seq<Theme> {
        self.themes@
    }

    /// Name of the theme in use.
    pub closed spec fn current_name(&self) -> Seq<char> {
        self.current_theme@
    }

    /// Names are unique, and the `default` theme and the one in use are
    /// among the themes.
    pub open spec fn wf(&self) -> bool {
        &&& names_unique(self.themes())
        &&& has_theme(self.themes(), "default"@)
        &&& has_theme(self.themes(), self.current_name())
    }

    /// A manager holding the built-in theme alone, which is in use.
    pub fn new() -> (r: Self)
        ensures
            r.wf(),
            r.themes().len() == 1,
            is_default_theme(r.themes()[0]),
            r.current_name() == "default"@,
    {
        let mut themes: Vec<Theme> = Vec::new();
        let d = Theme::default();
        themes.push(d);
        let r = ThemeManager { themes, current_theme: String::from_str("default") };
        assert(r.themes()[0].name@ == "default"@);
        r
    }

    /// Position of the theme named `name`.
    fn find(&self, name: &String) -> (r: Option<usize>)
        ensures
            r matches Some(i) ==> i < self.themes().len() && self.themes()[i as int].name@ == name@,
            r is None ==> !has_theme(self.themes(), name@),
    {
        let mut i: usize = 0;
        while i < self.themes.len()
            invariant
                i <= self.themes@.len(),
                forall|k: int| 0 <= k < i ==> (#[trigger] self.themes@[k]).name@ != name@,
            decreases self.themes@.len() - i,
        {
            if self.themes[i].name == *name {
                return Some(i);
            }
            i = i + 1;
        }
        None
    }

    /// The theme in use.
    pub fn current(&self) -> (r: &Theme)
        requires
            self.wf(),
        ensures
            r.name@ == self.current_name(),
            *r == self.themes()[theme_index(self.themes(), self.current_name())],
    {
        let i = self.find(&self.current_theme);
        match i {
            Some(i) => {
                let ghost t = self.themes();
                assert(names_unique(t));
                assert(theme_index(t, self.current_name()) == i as int);
                &self.themes[i]
            },
            None => {
                &self.themes[0]
            },
        }
    }

    /// Puts the theme named `name` in use; false, with nothing changed, when
    /// there is none.
    pub fn set_theme(&mut self, name: &str) -> (r: bool)
        requires
            old(self).wf(),
        ensures
            final(self).wf(),
            r == has_theme(old(self).themes(), name@),
            final(self).themes() == old(self).themes(),
            r ==> final(self).current_name() == name@,
            !r ==> final(self).current_name() == old(self).current_name(),
    {
        let n = String::from_str(name);
        match self.find(&n) {
            Some(_) => {
                self.current_theme = n;
                true
            },
            None => false,
        }
    }

    /// Names of all themes, in the order of `themes`.
    pub fn list_themes(&self) -> (r: Vec<String>)
        ensures
            r@.len() == self.themes().len(),
            forall|i: int| 0 <= i < r@.len() ==> #[trigger] r@[i]@ == self.themes()[i].name@,
    {
        let mut out: Vec<String> = Vec::new();
        let mut i: usize = 0;
        while i < self.themes.len()
            invariant
                i <= self.themes@.len(),
                out@.len() == i,
                forall|k: int| 0 <= k < i ==> #[trigger] out@[k]@ == self.themes@[k].name@,
            decreases self.themes@.len() - i,
        {
            out.push(self.themes[i].name.clone());
            i = i + 1;
        }
        out
    }

    /// Adds `theme`, replacing the theme of the same name if there is one.
    pub fn add_theme(&mut self, theme: Theme)
        requires
            old(self).wf(),
        ensures
            final(self).wf(),
            final(self).current_name() == old(self).current_name(),
            has_theme(old(self).themes(), theme.name@) ==> final(self).themes() == old(self).themes().update(
                theme_index(old(self).themes(), theme.name@),
                theme,
            ),
            !has_theme(old(self).themes(), theme.name@) ==> final(self).themes() == old(
                self,
            ).themes().push(theme),
    {
        let ghost before = self.themes@;
        let ghost tname = theme.name@;
        match self.find(&theme.name) {
            Some(i) => {
                assert(names_unique(before));
                assert(theme_index(before, tname) == i as int);
                self.themes.set(i, theme);
                let ghost after = self.themes@;
                assert forall|a: int, b: int|
                    0 <= a < after.len() && 0 <= b < after.len() && a != b implies (#[trigger] after[a]).name@
                        != (#[trigger] after[b]).name@ by {
                    if a != i && b != i {
                        assert(after[a] == before[a] && after[b] == before[b]);
                    } else if a == i {
                        assert(before[b].name@ != before[a].name@);
                    } else {
                        assert(before[a].name@ != before[b].name@);
                    }
                }
                let ghost cur = self.current_theme@;
                assert(has_theme(after, "default"@)) by {
                    let k = choose|k: int| 0 <= k < before.len() && (#[trigger] before[k]).name@ == "default"@;
                    assert(after[k].name@ == "default"@);
                }
                assert(has_theme(after, cur)) by {
                    let k = choose|k: int| 0 <= k < before.len() && (#[trigger] before[k]).name@ == cur;
                    assert(after[k].name@ == cur);
                }
            },
            None => {
                self.themes.push(theme);
                let ghost after = self.themes@;
                assert forall|a: int, b: int|
                    0 <= a < after.len() && 0 <= b < after.len() && a != b implies (#[trigger] after[a]).name@
                        != (#[trigger] after[b]).name@ by {
                    if a < before.len() && b < before.len() {
                        assert(after[a] == before[a] && after[b] == before[b]);
                    } else if a < before.len() {
                        assert(after[a] == before[a]);
                    } else {
                        assert(after[b] == before[b]);
                    }
                }
                let ghost cur = self.current_theme@;
                assert(has_theme(after, "default"@)) by {
                    let k = choose|k: int| 0 <= k < before.len() && (#[trigger] before[k]).name@ == "default"@;
                    assert(after[k].name@ == "default"@);
                }
                assert(has_theme(after, cur)) by {
                    let k = choose|k: int| 0 <= k < before.len() && (#[trigger] before[k]).name@ == cur;
                    assert(after[k].name@ == cur);
                }
            },
        }
    }
}

impl Default for ThemeManager {
    fn default() -> (r: Self)
        ensures
            r.wf(),
            r.themes().len() == 1,
            is_default_theme(r.themes()[0]),
            r.current_name() == "default"@,
    {
        ThemeManager::new()
    }
}

} // verus!

verus! {

/// A terminal color: one of the sixteen named colors, the terminal's own
/// default (`Reset`), a palette index, or a 24-bit color.
#[derive(Debug, Clone, Copy, PartialEq, Eq, Structural)]
pub enum ThemeColor {
    Reset,
    Black,
    Red,
    Green,
    Yellow,
    Blue,
    Magenta,
    Cyan,
    Gray,
    DarkGray,
    LightRed,
    LightGreen,
    LightYellow,
    LightBlue,
    LightMagenta,
    LightCyan,
    White,
    Rgb(u8, u8, u8),
    Indexed(u8),
}

/// Red, green and blue of a color; mid gray for `Reset` and palette indices.
pub open spec fn rgb_of(c: ThemeColor) -> (u8, u8, u8) {
    match c {
        ThemeColor::Rgb(r, g, b) => (r, g, b),
        ThemeColor::Black => (0, 0, 0),
        ThemeColor::Red => (255, 0, 0),
        ThemeColor::Green => (0, 255, 0),
        ThemeColor::Yellow => (255, 255, 0),
        ThemeColor::Blue => (0, 0, 255),
        ThemeColor::Magenta => (255, 0, 255),
        ThemeColor::Cyan => (0, 255, 255),
        ThemeColor::Gray => (128, 128, 128),
        ThemeColor::DarkGray => (64, 64, 64),
        ThemeColor::LightRed => (255, 128, 128),
        ThemeColor::LightGreen => (128, 255, 128),
        ThemeColor::LightYellow => (255, 255, 128),
        ThemeColor::LightBlue => (128, 128, 255),
        ThemeColor::LightMagenta => (255, 128, 255),
        ThemeColor::LightCyan => (128, 255, 255),
        ThemeColor::White => (255, 255, 255),
        _ => (128, 128, 128),
    }
}

/// Red, green and blue of `c`.
pub fn color_to_rgb(c: ThemeColor) -> (r: (u8, u8, u8))
    ensures
        r == rgb_of(c),
{
    match c {
        ThemeColor::Rgb(r, g, b) => (r, g, b),
        ThemeColor::Black => (0, 0, 0),
        ThemeColor::Red => (255, 0, 0),
        ThemeColor::Green => (0, 255, 0),
        ThemeColor::Yellow => (255, 255, 0),
        ThemeColor::Blue => (0, 0, 255),
        ThemeColor::Magenta => (255, 0, 255),
        ThemeColor::Cyan => (0, 255, 255),
        ThemeColor::Gray => (128, 128, 128),
        ThemeColor::DarkGray => (64, 64, 64),
        ThemeColor::LightRed => (255, 128, 128),
        ThemeColor::LightGreen => (128, 255, 128),
        ThemeColor::LightYellow => (255, 255, 128),
        ThemeColor::LightBlue => (128, 128, 255),
        ThemeColor::LightMagenta => (255, 128, 255),
        ThemeColor::LightCyan => (128, 255, 255),
        ThemeColor::White => (255, 255, 255),
        _ => (128, 128, 128),
    }
}

/// Channel `i` of `steps` evenly spaced from `a` to `b`: the weighted mean
/// `a + (b - a) * i / (steps - 1)`, rounded down.
pub open spec fn channel_at(a: u8, b: u8, i: int, steps: int) -> u8 {
    ((a as int * (steps - 1 - i) + b as int * i) / (steps - 1)) as u8
}

/// Color `i` of a gradient of `steps` colors from `start` to `end`.
pub open spec fn gradient_color(start: ThemeColor, end: ThemeColor, i: int, steps: int) -> ThemeColor {
    let s = rgb_of(start);
    let e = rgb_of(end);
    ThemeColor::Rgb(channel_at(s.0, e.0, i, steps), channel_at(s.1, e.1, i, steps), channel_at(s.2, e.2, i, steps))
}

/// Index of the color shown at `percentage` in a gradient of `len` colors.
pub open spec fn gradient_index(len: int, percentage: int) -> int {
    (len - 1) * (if percentage > 100 { 100 } else { percentage }) / 100
}

/// Colors picked by percentage.
pub struct ColorGradient {
    pub colors: Vec<ThemeColor>,
}

impl ColorGradient {
    /// `steps` colors evenly spaced from `start` to `end`; a single step is
    /// `start`.
    pub fn new(start: ThemeColor, end: ThemeColor, steps: usize) -> (r: Self)
        ensures
            r.colors@.len() == steps,
            steps >= 2 ==> forall|i: int|
                0 <= i < steps ==> #[trigger] r.colors@[i] == gradient_color(start, end, i, steps as int),
            steps == 1 ==> r.colors@[0] == ThemeColor::Rgb(rgb_of(start).0, rgb_of(start).1, rgb_of(start).2),
    {
        ColorGradient { colors: interpolate_colors(start, end, steps) }
    }

    pub fn from_colors(colors: Vec<ThemeColor>) -> (r: Self)
        ensures
            r.colors@ == colors@,
    {
        ColorGradient { colors }
    }

    /// The color at `percentage` (capped at 100) along the gradient.
    pub fn at(&self, percentage: u8) -> (r: ThemeColor)
        requires
            self.colors@.len() > 0,
        ensures
            r == self.colors@[gradient_index(self.colors@.len() as int, percentage as int)],
    {
        let p: usize = if percentage > 100 { 100 } else { percentage as usize };
        let len = self.colors.len();
        assert((len - 1) * p <= (len - 1) * 100) by (nonlinear_arith)
            requires
                p <= 100,
                len >= 1,
        ;
        assert((len - 1) * p / 100 <= len - 1) by (nonlinear_arith)
            requires
                p <= 100,
                len >= 1,
        ;
        let wide: u128 = ((len - 1) as u128) * (p as u128) / 100;
        self.colors[wide as usize]
    }
}

/// Channel `i` of `steps` from `a` to `b`.
fn channel(a: u8, b: u8, i: usize, steps: usize) -> (r: u8)
    requires
        2 <= steps,
        i < steps,
    ensures
        r == channel_at(a, b, i as int, steps as int),
{
    let d = (steps - 1) as u128;
    let w = (steps - 1 - i) as u128;
    let ii = i as u128;
    assert((a as int) * w + (b as int) * ii <= 255 * d) by (nonlinear_arith)
        requires
            a <= 255,
            b <= 255,
            w + ii == d,
    ;
    assert(255 * d <= 255 * 0x1_0000_0000_0000_0000);
    let num = (a as u128) * w + (b as u128) * ii;
    assert(num / d <= 255) by (nonlinear_arith)
        requires
            num <= 255 * d,
            d >= 1,
    ;
    (num / d) as u8
}

/// `steps` colors evenly spaced from `start` to `end`.
fn interpolate_colors(start: ThemeColor, end: ThemeColor, steps: usize) -> (r: Vec<ThemeColor>)
    ensures
        r@.len() == steps,
        steps >= 2 ==> forall|i: int|
            0 <= i < steps ==> #[trigger] r@[i] == gradient_color(start, end, i, steps as int),
        steps == 1 ==> r@[0] == ThemeColor::Rgb(rgb_of(start).0, rgb_of(start).1, rgb_of(start).2),
{
    let (r1, g1, b1) = color_to_rgb(start);
    let (r2, g2, b2) = color_to_rgb(end);
    let mut colors: Vec<ThemeColor> = Vec::new();
    if steps == 1 {
        colors.push(ThemeColor::Rgb(r1, g1, b1));
        return colors;
    }
    let mut i: usize = 0;
    while i < steps
        invariant
            i <= steps,
            steps != 1,
            colors@.len() == i,
            (r1, g1, b1) == rgb_of(start),
            (r2, g2, b2) == rgb_of(end),
            forall|k: int| 0 <= k < i ==> #[trigger] colors@[k] == gradient_color(start, end, k, steps as int),
        decreases steps - i,
    {
        colors.push(ThemeColor::Rgb(channel(r1, r2, i, steps), channel(g1, g2, i, steps), channel(b1, b2, i, steps)));
        i = i + 1;
    }
    colors
}

} // verus!

verus! {

/// `s` without all its leading `#`.
pub open spec fn strip_hashes(s: Seq<char>) -> Seq<char>
    decreases s.len(),
{
    if s.len() > 0 && s[0] == '#' {
        strip_hashes(s.drop_first())
    } else {
        s
    }
}

pub open spec fn is_hex_digit(c: char) -> bool {
    ('0' <= c <= '9') || ('a' <= c <= 'f') || ('A' <= c <= 'F')
}

/// Value of the hex digit `c`.
pub open spec fn hex_value(c: char) -> int {
    if '0' <= c <= '9' {
        c as u32 - '0' as u32
    } else if 'a' <= c <= 'f' {
        c as u32 - 'a' as u32 + 10
    } else {
        c as u32 - 'A' as u32 + 10
    }
}

/// The byte that two characters write in hex, the way `u8::from_str_radix`
/// reads them (a leading `+` is a sign); 128 when they write none.
pub open spec fn hex_pair(a: char, b: char) -> u8 {
    if is_hex_digit(a) && is_hex_digit(b) {
        (hex_value(a) * 16 + hex_value(b)) as u8
    } else if a == '+' && is_hex_digit(b) {
        hex_value(b) as u8
    } else {
        128
    }
}

/// The color that a theme entry names: after any leading `#`, two hex
/// digits give a gray level, three give `#rgb` with each digit doubled, six
/// give `#rrggbb`; anything else is `Gray`. Lengths count characters.
pub open spec fn color_of(hex: Seq<char>) -> ThemeColor {
    let h = strip_hashes(hex);
    if h.len() == 2 {
        let v = hex_pair(h[0], h[1]);
        ThemeColor::Rgb(v, v, v)
    } else if h.len() == 3 {
        ThemeColor::Rgb(hex_pair(h[0], h[0]), hex_pair(h[1], h[1]), hex_pair(h[2], h[2]))
    } else if h.len() == 6 {
        ThemeColor::Rgb(hex_pair(h[0], h[1]), hex_pair(h[2], h[3]), hex_pair(h[4], h[5]))
    } else {
        ThemeColor::Gray
    }
}

fn hex_digit(c: char) -> (r: Option<u8>)
    ensures
        is_hex_digit(c) ==> r == Some(hex_value(c) as u8),
        !is_hex_digit(c) ==> r is None,
{
    if '0' <= c && c <= '9' {
        Some((c as u32 - '0' as u32) as u8)
    } else if 'a' <= c && c <= 'f' {
        Some((c as u32 - 'a' as u32 + 10) as u8)
    } else if 'A' <= c && c <= 'F' {
        Some((c as u32 - 'A' as u32 + 10) as u8)
    } else {
        None
    }
}

fn pair_value(a: char, b: char) -> (r: u8)
    ensures
        r == hex_pair(a, b),
{
    match (hex_digit(a), hex_digit(b)) {
        (Some(x), Some(y)) => x * 16 + y,
        (None, Some(y)) => {
            if a == '+' {
                y
            } else {
                128
            }
        },
        _ => 128,
    }
}

impl Theme {
    /// The color that a theme entry such as `#ff0000`, `#f00` or `#80` names.
    pub fn parse_color(hex: &str) -> (r: ThemeColor)
        ensures
            r == color_of(hex@),
    {
        let cs = crate::text::chars_of(hex);
        let n = cs.len();
        let mut k: usize = 0;
        assert(cs@.subrange(0, n as int) =~= cs@);
        while k < n && cs[k] == '#'
            invariant
                k <= n,
                n == cs@.len(),
                cs@ == hex@,
                strip_hashes(hex@) == strip_hashes(cs@.subrange(k as int, n as int)),
            decreases n - k,
        {
            assert(cs@.subrange(k as int, n as int).drop_first() =~= cs@.subrange(k as int + 1, n as int));
            k = k + 1;
        }
        let ghost h = cs@.subrange(k as int, n as int);
        assert(strip_hashes(hex@) == h);
        let len = n - k;
        if len == 2 {
            let v = pair_value(cs[k], cs[k + 1]);
            ThemeColor::Rgb(v, v, v)
        } else if len == 3 {
            ThemeColor::Rgb(
                pair_value(cs[k], cs[k]),
                pair_value(cs[k + 1], cs[k + 1]),
                pair_value(cs[k + 2], cs[k + 2]),
            )
        } else if len == 6 {
            ThemeColor::Rgb(
                pair_value(cs[k], cs[k + 1]),
                pair_value(cs[k + 2], cs[k + 3]),
                pair_value(cs[k + 4], cs[k + 5]),
            )
        } else {
            ThemeColor::Gray
        }
    }
}

} // verus!

verus! {

/// The entry of `t` that the color name `name` refers to; the main
/// foreground for an unknown name.
pub open spec fn theme_entry(t: Theme, name: Seq<char>) -> Seq<char> {
    if name == "main_fg"@ {
        t.main_fg@
    } else if name == "main_bg"@ {
        t.main_bg@
    } else if name == "title"@ {
        t.title@
    } else if name == "hi_fg"@ {
        t.hi_fg@
    } else if name == "selected_bg"@ {
        t.selected_bg@
    } else if name == "selected_fg"@ {
        t.selected_fg@
    } else if name == "inactive_fg"@ {
        t.inactive_fg@
    } else if name == "div_line"@ {
        t.div_line@
    } else if name == "graph_text"@ {
        t.graph_text@
    } else if name == "meter_bg"@ {
        t.meter_bg@
    } else if name == "cpu_box"@ {
        t.cpu_box@
    } else if name == "mem_box"@ {
        t.mem_box@
    } else if name == "net_box"@ {
        t.net_box@
    } else if name == "proc_box"@ {
        t.proc_box@
    } else {
        t.main_fg@
    }
}

/// The three colors of a gradient named by theme entries.
pub open spec fn three_colors(a: Seq<char>, b: Seq<char>, c: Seq<char>) -> Seq<ThemeColor> {
    seq![color_of(a), color_of(b), color_of(c)]
}

/// An optional entry, or `fallback` when it is absent.
pub open spec fn entry_or(e: Option<String>, fallback: Seq<char>) -> Seq<char> {
    match e {
        Some(s) => s@,
        None => fallback,
    }
}

impl Theme {
    /// The color of the entry called `name` (such as `cpu_box`).
    pub fn get_color(&self, name: &str) -> (r: ThemeColor)
        ensures
            r == color_of(theme_entry(*self, name@)),
    {
        let n = String::from_str(name);
        let hex: &String = if n == String::from_str("main_fg") {
            &self.main_fg
        } else if n == String::from_str("main_bg") {
            &self.main_bg
        } else if n == String::from_str("title") {
            &self.title
        } else if n == String::from_str("hi_fg") {
            &self.hi_fg
        } else if n == String::from_str("selected_bg") {
            &self.selected_bg
        } else if n == String::from_str("selected_fg") {
            &self.selected_fg
        } else if n == String::from_str("inactive_fg") {
            &self.inactive_fg
        } else if n == String::from_str("div_line") {
            &self.div_line
        } else if n == String::from_str("graph_text") {
            &self.graph_text
        } else if n == String::from_str("meter_bg") {
            &self.meter_bg
        } else if n == String::from_str("cpu_box") {
            &self.cpu_box
        } else if n == String::from_str("mem_box") {
            &self.mem_box
        } else if n == String::from_str("net_box") {
            &self.net_box
        } else if n == String::from_str("proc_box") {
            &self.proc_box
        } else {
            &self.main_fg
        };
        Theme::parse_color(hex.as_str())
    }

    fn gradient3(a: &String, b: &String, c: &String) -> (r: ColorGradient)
        ensures
            r.colors@ == three_colors(a@, b@, c@),
    {
        let colors = vec![Theme::parse_color(a.as_str()), Theme::parse_color(b.as_str()), Theme::parse_color(c.as_str())];
        ColorGradient::from_colors(colors)
    }

    pub fn cpu_gradient(&self) -> (r: ColorGradient)
        ensures
            r.colors@ == three_colors(self.cpu_start@, self.cpu_mid@, self.cpu_end@),
    {
        Theme::gradient3(&self.cpu_start, &self.cpu_mid, &self.cpu_end)
    }

    pub fn mem_gradient(&self) -> (r: ColorGradient)
        ensures
            r.colors@ == three_colors(self.mem_start@, self.mem_mid@, self.mem_end@),
    {
        Theme::gradient3(&self.mem_start, &self.mem_mid, &self.mem_end)
    }

    pub fn net_gradient(&self) -> (r: ColorGradient)
        ensures
            r.colors@ == three_colors(self.net_start@, self.net_mid@, self.net_end@),
    {
        Theme::gradient3(&self.net_start, &self.net_mid, &self.net_end)
    }

    /// The temperature gradient; each absent entry falls back to the cpu one.
    pub fn temp_gradient(&self) -> (r: ColorGradient)
        ensures
            r.colors@ == three_colors(
                entry_or(self.temp_start, self.cpu_start@),
                entry_or(self.temp_mid, self.cpu_mid@),
                entry_or(self.temp_end, self.cpu_end@),
            ),
    {
        let start = match &self.temp_start {
            Some(s) => s,
            None => &self.cpu_start,
        };
        let mid = match &self.temp_mid {
            Some(s) => s,
            None => &self.cpu_mid,
        };
        let end = match &self.temp_end {
            Some(s) => s,
            None => &self.cpu_end,
        };
        Theme::gradient3(start, mid, end)
    }
}

} // verus!
