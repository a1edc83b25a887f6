use rtop::input::{Key, KeyPress, MouseInput, UiAction, UiState};
use rtop::process::SortOrder;
use rtop::view_page::ViewPage;

fn press(key: Key) -> KeyPress {
    KeyPress { key, ctrl: false }
}

#[test]
fn quit_keys() {
    let mut s = UiState::new();
    let mut f = Vec::new();
    assert_eq!(s.handle_key(&mut f, press(Key::Char('q')), 0), UiAction::Quit);
    assert_eq!(s.handle_key(&mut f, press(Key::Esc), 0), UiAction::Quit);
    assert_eq!(s.handle_key(&mut f, KeyPress { key: Key::Char('c'), ctrl: true }, 0), UiAction::Quit);
}

#[test]
fn help_swallows_next_key() {
    let mut s = UiState::new();
    let mut f = Vec::new();
    s.handle_key(&mut f, press(Key::F(1)), 0);
    assert!(s.show_help);
    assert_eq!(s.handle_key(&mut f, press(Key::Char('q')), 0), UiAction::Continue);
    assert!(!s.show_help);
}

#[test]
fn sort_keys_toggle_direction() {
    let mut s = UiState::new();
    let mut f = Vec::new();
    s.handle_key(&mut f, press(Key::Char('c')), 0);
    assert_eq!((s.sort_order, s.sort_reverse), (SortOrder::Cpu, true));
    s.handle_key(&mut f, press(Key::Char('m')), 0);
    assert_eq!((s.sort_order, s.sort_reverse), (SortOrder::Memory, false));
}

#[test]
fn kill_flow() {
    let mut s = UiState::new();
    let mut f = Vec::new();
    // without a selection, k is typed into the filter
    assert_eq!(s.handle_key(&mut f, press(Key::Char('k')), 5), UiAction::FilterChanged);
    assert_eq!(f, vec!['k']);
    s.handle_key(&mut f, press(Key::Backspace), 5);
    s.handle_key(&mut f, press(Key::Enter), 5);
    assert_eq!(s.process_selected, Some(0));
    s.handle_key(&mut f, press(Key::Char('k')), 5);
    assert!(s.show_kill_confirm);
    assert_eq!(s.handle_key(&mut f, press(Key::Char('y')), 5), UiAction::Kill(0));
    assert!(!s.show_kill_confirm);
    assert_eq!(s.process_selected, None);
}

#[test]
fn filter_is_capped() {
    let mut s = UiState::new();
    let mut f = Vec::new();
    for _ in 0..40 {
        s.handle_key(&mut f, press(Key::Char('x')), 0);
    }
    assert_eq!(f.len(), 30);
    assert_eq!(s.handle_key(&mut f, press(Key::Char('/')), 0), UiAction::FilterChanged);
    assert!(f.is_empty());
    assert_eq!(s.handle_key(&mut f, press(Key::Char('!')), 0), UiAction::Continue);
}

#[test]
fn scrolling_and_pages() {
    let mut s = UiState::new();
    let mut f = Vec::new();
    s.handle_key(&mut f, press(Key::PageDown), 45);
    assert_eq!(s.process_scroll, 10);
    s.handle_key(&mut f, press(Key::PageDown), 45);
    assert_eq!(s.process_scroll, 20);
    s.handle_key(&mut f, press(Key::PageDown), 45);
    assert_eq!(s.process_scroll, 25);
    s.handle_key(&mut f, press(Key::Down), 45);
    assert_eq!(s.process_scroll, 25);
    s.handle_key(&mut f, press(Key::Home), 45);
    assert_eq!(s.process_scroll, 0);
    s.handle_key(&mut f, press(Key::Up), 45);
    assert_eq!(s.process_scroll, 0);
    s.handle_key(&mut f, press(Key::End), 45);
    assert_eq!(s.process_scroll, 25);
    s.handle_key(&mut f, press(Key::F(4)), 45);
    assert_eq!(s.current_page, ViewPage::Network);
    s.handle_key(&mut f, press(Key::Char(' ')), 45);
    assert!(s.paused);
}

#[test]
fn mouse_selects_and_scrolls() {
    let mut s = UiState::new();
    s.handle_mouse(MouseInput::ScrollDown, 30);
    assert_eq!(s.process_scroll, 1);
    s.handle_mouse(MouseInput::LeftClick { row: 6 }, 30);
    assert_eq!(s.process_selected, Some(3));
    s.handle_mouse(MouseInput::LeftClick { row: 2 }, 30);
    assert_eq!(s.process_selected, Some(3));
    s.handle_mouse(MouseInput::ScrollUp, 30);
    assert_eq!(s.process_scroll, 0);
}
