//! What a key press or a mouse event does to the dashboard's view state.
use vstd::prelude::*;
use crate::process::{next_sort, SortOrder};
use crate::view_page::ViewPage;

verus! {

/// Rows of the process table on screen.
pub const VISIBLE_PROCESSES: usize = 20;

/// Longest process filter, in UTF-8 bytes.
pub const FILTER_MAX_BYTES: usize = 30;

/// A key, as far as the dashboard tells keys apart.
#[derive(Debug, Clone, Copy, PartialEq, Eq, Structural)]
pub enum Key {
    Char(char),
    Esc,
    F(u8),
    Backspace,
    Up,
    Down,
    PageUp,
    PageDown,
    Home,
    End,
    Enter,
    Other,
}

/// A key press, with whether Control was held.
#[derive(Debug, Clone, Copy, PartialEq, Eq, Structural)]
pub struct KeyPress {
    pub key: Key,
    pub ctrl: bool,
}

/// A mouse event, as far as the dashboard tells them apart.
#[derive(Debug, Clone, Copy, PartialEq, Eq, Structural)]
pub enum MouseInput {
    ScrollUp,
    ScrollDown,
    LeftClick { row: u16 },
    Other,
}

/// The view state that input changes, the process filter aside.
#[derive(Debug, Clone, Copy, PartialEq, Eq, Structural)]
pub struct UiState {
    pub show_help: bool,
    pub show_kill_confirm: bool,
    pub paused: bool,
    pub process_scroll: usize,
    pub process_selected: Option<usize>,
    pub current_page: ViewPage,
    pub sort_order: SortOrder,
    pub sort_reverse: bool,
}

/// What the caller has to do after an input.
#[derive(Debug, Clone, Copy, PartialEq, Eq, Structural)]
pub enum UiAction {
    Continue,
    Quit,
    /// Kill the process at this row of the sorted process list.
    Kill(usize),
    /// The process filter changed.
    FilterChanged,
}

pub uninterp spec fn alphanumeric(c: char) -> bool;

/// Relies on `char::is_alphanumeric`: the Unicode Alphabetic or Numeric
/// property of `c`.
#[verifier::external_body]
fn is_alphanumeric(c: char) -> (r: bool)
    ensures
        r == alphanumeric(c),
{
    c.is_alphanumeric()
}

/// Bytes that `c` takes in UTF-8.
pub open spec fn utf8_width(c: char) -> nat {
    let u = c as u32;
    if u < 0x80 {
        1
    } else if u < 0x800 {
        2
    } else if u < 0x10000 {
        3
    } else {
        4
    }
}

/// Bytes that `s` takes in UTF-8.
pub open spec fn utf8_len(s: Seq<char>) -> nat
    decreases s.len(),
{
    if s.len() == 0 {
        0
    } else {
        utf8_len(s.drop_last()) + utf8_width(s.last())
    }
}

/// The last scroll position: the one that shows the final screenful.
pub open spec fn max_scroll(count: nat) -> nat {
    if count > VISIBLE_PROCESSES {
        (count - VISIBLE_PROCESSES) as nat
    } else {
        0
    }
}

/// Whether `c` may be typed into the process filter.
pub open spec fn filter_char(c: char) -> bool {
    alphanumeric(c) || c == '-' || c == '_'
}

/// State, filter and action after `key`, with `count` processes listed.
pub open spec fn key_step(s: UiState, filter: Seq<char>, key: KeyPress, count: nat) -> (UiState, Seq<char>, UiAction) {
    if s.show_kill_confirm {
        let closed = UiState { show_kill_confirm: false, ..s };
        if key.key == Key::Char('y') || key.key == Key::Char('Y') {
            match s.process_selected {
                Some(i) => if i < count {
                    (UiState { process_selected: None, ..closed }, filter, UiAction::Kill(i))
                } else {
                    (closed, filter, UiAction::Continue)
                },
                None => (closed, filter, UiAction::Continue),
            }
        } else {
            (closed, filter, UiAction::Continue)
        }
    } else if s.show_help {
        (UiState { show_help: false, ..s }, filter, UiAction::Continue)
    } else {
        match key.key {
            Key::Char(c) => {
                if c == 'q' || (c == 'c' && key.ctrl) {
                    (s, filter, UiAction::Quit)
                } else if c == 'h' {
                    (UiState { show_help: !s.show_help, ..s }, filter, UiAction::Continue)
                } else if c == ' ' {
                    (UiState { paused: !s.paused, ..s }, filter, UiAction::Continue)
                } else if c == 'p' || c == 'c' || c == 'm' {
                    let order = if c == 'p' {
                        SortOrder::Pid
                    } else if c == 'c' {
                        SortOrder::Cpu
                    } else {
                        SortOrder::Memory
                    };
                    let same = s.sort_order == order;
                    (
                        UiState {
                            sort_order: order,
                            sort_reverse: if same { !s.sort_reverse } else { false },
                            ..s
                        },
                        filter,
                        UiAction::Continue,
                    )
                } else if c == 'k' && s.process_selected is Some {
                    (UiState { show_kill_confirm: true, ..s }, filter, UiAction::Continue)
                } else if c == '/' {
                    (s, Seq::empty(), UiAction::FilterChanged)
                } else if filter_char(c) {
                    if utf8_len(filter) < FILTER_MAX_BYTES {
                        (s, filter.push(c), UiAction::FilterChanged)
                    } else {
                        (s, filter, UiAction::Continue)
                    }
                } else {
                    (s, filter, UiAction::Continue)
                }
            },
            Key::Esc => (s, filter, UiAction::Quit),
            Key::F(n) => {
                if n == 1 {
                    (UiState { show_help: !s.show_help, ..s }, filter, UiAction::Continue)
                } else if n == 2 {
                    (UiState { current_page: ViewPage::Overview, ..s }, filter, UiAction::Continue)
                } else if n == 3 {
                    (UiState { current_page: ViewPage::Processes, ..s }, filter, UiAction::Continue)
                } else if n == 4 {
                    (UiState { current_page: ViewPage::Network, ..s }, filter, UiAction::Continue)
                } else if n == 5 {
                    (UiState { current_page: ViewPage::Storage, ..s }, filter, UiAction::Continue)
                } else {
                    (s, filter, UiAction::Continue)
                }
            },
            Key::Backspace => if filter.len() > 0 {
                (s, filter.drop_last(), UiAction::FilterChanged)
            } else {
                (s, filter, UiAction::Continue)
            },
            Key::Up => (
                UiState {
                    process_scroll: if s.process_scroll > 0 { (s.process_scroll - 1) as usize } else { 0 },
                    ..s
                },
                filter,
                UiAction::Continue,
            ),
            Key::Down => (
                UiState {
                    process_scroll: if s.process_scroll < max_scroll(count) { (s.process_scroll + 1) as usize } else { s.process_scroll },
                    ..s
                },
                filter,
                UiAction::Continue,
            ),
            Key::PageUp => (
                UiState {
                    process_scroll: if s.process_scroll > 10 { (s.process_scroll - 10) as usize } else { 0 },
                    ..s
                },
                filter,
                UiAction::Continue,
            ),
            Key::PageDown => (
                UiState {
                    process_scroll: if s.process_scroll + 10 < max_scroll(count) { (s.process_scroll + 10) as usize } else { max_scroll(count) as usize },
                    ..s
                },
                filter,
                UiAction::Continue,
            ),
            Key::Home => (UiState { process_scroll: 0, ..s }, filter, UiAction::Continue),
            Key::End => (UiState { process_scroll: max_scroll(count) as usize, ..s }, filter, UiAction::Continue),
            Key::Enter => if s.process_scroll < count {
                (UiState { process_selected: Some(s.process_scroll), ..s }, filter, UiAction::Continue)
            } else {
                (s, filter, UiAction::Continue)
            },
            Key::Other => (s, filter, UiAction::Continue),
        }
    }
}

/// State after a mouse event, with `count` processes listed. A click on
/// screen rows 4 to 23 selects the process shown there.
pub open spec fn mouse_step(s: UiState, m: MouseInput, count: nat) -> UiState {
    match m {
        MouseInput::ScrollUp => UiState {
            process_scroll: if s.process_scroll > 0 { (s.process_scroll - 1) as usize } else { 0 },
            ..s
        },
        MouseInput::ScrollDown => UiState {
            process_scroll: if s.process_scroll < max_scroll(count) { (s.process_scroll + 1) as usize } else { s.process_scroll },
            ..s
        },
        MouseInput::LeftClick { row } => {
            let index = row - 4 + s.process_scroll;
            if 3 < row < 24 && index < count {
                UiState { process_selected: Some(index as usize), ..s }
            } else {
                s
            }
        },
        MouseInput::Other => s,
    }
}

/// UTF-8 bytes of `s`.
fn utf8_bytes(s: &Vec<char>) -> (r: usize)
    ensures
        r == utf8_len(s@) || (r == usize::MAX && utf8_len(s@) >= usize::MAX),
{
    let mut total: usize = 0;
    let mut i: usize = 0;
    while i < s.len()
        invariant
            i <= s@.len(),
            total == utf8_len(s@.subrange(0, i as int)),
        decreases s@.len() - i,
    {
        let u = s[i] as u32;
        let w: usize = if u < 0x80 {
            1
        } else if u < 0x800 {
            2
        } else if u < 0x10000 {
            3
        } else {
            4
        };
        assert(s@.subrange(0, i as int + 1).drop_last() =~= s@.subrange(0, i as int));
        if total > usize::MAX - w {
            proof {
                lemma_utf8_len_prefix(s@, i as int + 1);
            }
            return usize::MAX;
        }
        total = total + w;
        i = i + 1;
    }
    assert(s@.subrange(0, s@.len() as int) =~= s@);
    total
}

/// A prefix never takes more bytes than the whole.
proof fn lemma_utf8_len_prefix(s: Seq<char>, k: int)
    requires
        0 <= k <= s.len(),
    ensures
        utf8_len(s.subrange(0, k)) <= utf8_len(s),
    decreases s.len(),
{
    if k < s.len() {
        assert(s.drop_last().subrange(0, k) =~= s.subrange(0, k));
        lemma_utf8_len_prefix(s.drop_last(), k);
    } else {
        assert(s.subrange(0, k) =~= s);
    }
}

impl UiState {
    /// The state when the dashboard starts.
    pub fn new() -> (r: Self)
        ensures
            r == (UiState {
                show_help: false,
                show_kill_confirm: false,
                paused: false,
                process_scroll: 0,
                process_selected: None,
                current_page: ViewPage::Overview,
                sort_order: SortOrder::Cpu,
                sort_reverse: false,
            }),
    {
        UiState {
            show_help: false,
            show_kill_confirm: false,
            paused: false,
            process_scroll: 0,
            process_selected: None,
            current_page: ViewPage::Overview,
            sort_order: SortOrder::Cpu,
            sort_reverse: false,
        }
    }

    fn scrolled_up(&self, step: usize) -> (r: usize)
        ensures
            r == (if self.process_scroll > step { self.process_scroll - step } else { 0 }),
    {
        if self.process_scroll > step {
            self.process_scroll - step
        } else {
            0
        }
    }

    /// Applies a key press, with `process_count` processes listed.
    pub fn handle_key(&mut self, filter: &mut Vec<char>, key: KeyPress, process_count: usize) -> (r: UiAction)
        ensures
            (*final(self), final(filter)@, r) == key_step(*old(self), old(filter)@, key, process_count as nat),
    {
        let max_scroll: usize = if process_count > VISIBLE_PROCESSES {
            process_count - VISIBLE_PROCESSES
        } else {
            0
        };
        if self.show_kill_confirm {
            self.show_kill_confirm = false;
            if key.key == Key::Char('y') || key.key == Key::Char('Y') {
                if let Some(i) = self.process_selected {
                    if i < process_count {
                        self.process_selected = None;
                        return UiAction::Kill(i);
                    }
                }
            }
            return UiAction::Continue;
        }
        if self.show_help {
            self.show_help = false;
            return UiAction::Continue;
        }
        match key.key {
            Key::Char(c) => {
                if c == 'q' || (c == 'c' && key.ctrl) {
                    UiAction::Quit
                } else if c == 'h' {
                    self.show_help = !self.show_help;
                    UiAction::Continue
                } else if c == ' ' {
                    self.paused = !self.paused;
                    UiAction::Continue
                } else if c == 'p' || c == 'c' || c == 'm' {
                    let order = if c == 'p' {
                        SortOrder::Pid
                    } else if c == 'c' {
                        SortOrder::Cpu
                    } else {
                        SortOrder::Memory
                    };
                    let (o, rev) = next_sort(self.sort_order, self.sort_reverse, order);
                    self.sort_order = o;
                    self.sort_reverse = rev;
                    UiAction::Continue
                } else if c == 'k' && self.process_selected.is_some() {
                    self.show_kill_confirm = true;
                    UiAction::Continue
                } else if c == '/' {
                    filter.clear();
                    UiAction::FilterChanged
                } else if is_alphanumeric(c) || c == '-' || c == '_' {
                    if utf8_bytes(filter) < FILTER_MAX_BYTES {
                        filter.push(c);
                        UiAction::FilterChanged
                    } else {
                        UiAction::Continue
                    }
                } else {
                    UiAction::Continue
                }
            },
            Key::Esc => UiAction::Quit,
            Key::F(n) => {
                if n == 1 {
                    self.show_help = !self.show_help;
                } else if n == 2 {
                    self.current_page = ViewPage::Overview;
                } else if n == 3 {
                    self.current_page = ViewPage::Processes;
                } else if n == 4 {
                    self.current_page = ViewPage::Network;
                } else if n == 5 {
                    self.current_page = ViewPage::Storage;
                }
                UiAction::Continue
            },
            Key::Backspace => {
                if filter.len() > 0 {
                    filter.pop();
                    UiAction::FilterChanged
                } else {
                    UiAction::Continue
                }
            },
            Key::Up => {
                self.process_scroll = self.scrolled_up(1);
                UiAction::Continue
            },
            Key::Down => {
                if self.process_scroll < max_scroll {
                    self.process_scroll = self.process_scroll + 1;
                }
                UiAction::Continue
            },
            Key::PageUp => {
                self.process_scroll = self.scrolled_up(10);
                UiAction::Continue
            },
            Key::PageDown => {
                self.process_scroll = if self.process_scroll < max_scroll && max_scroll - self.process_scroll > 10 {
                    self.process_scroll + 10
                } else {
                    max_scroll
                };
                UiAction::Continue
            },
            Key::Home => {
                self.process_scroll = 0;
                UiAction::Continue
            },
            Key::End => {
                self.process_scroll = max_scroll;
                UiAction::Continue
            },
            Key::Enter => {
                if self.process_scroll < process_count {
                    self.process_selected = Some(self.process_scroll);
                }
                UiAction::Continue
            },
            Key::Other => UiAction::Continue,
        }
    }

    /// Applies a mouse event, with `process_count` processes listed.
    pub fn handle_mouse(&mut self, m: MouseInput, process_count: usize)
        ensures
            *final(self) == mouse_step(*old(self), m, process_count as nat),
    {
        match m {
            MouseInput::ScrollUp => {
                self.process_scroll = self.scrolled_up(1);
            },
            MouseInput::ScrollDown => {
                let max_scroll: usize = if process_count > VISIBLE_PROCESSES {
                    process_count - VISIBLE_PROCESSES
                } else {
                    0
                };
                if self.process_scroll < max_scroll {
                    self.process_scroll = self.process_scroll + 1;
                }
            },
            MouseInput::LeftClick { row } => {
                if row > 3 && row < 24 {
                    let offset = (row - 4) as usize;
                    if self.process_scroll < process_count && offset < process_count - self.process_scroll {
                        self.process_selected = Some(offset + self.process_scroll);
                    }
                }
            },
            MouseInput::Other => {},
        }
    }
}

} // verus!
