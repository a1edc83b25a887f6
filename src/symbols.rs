//! Glyph tables for sparkline graphs and the box-drawing characters.
use vstd::prelude::*;

verus! {

/// Glyph family used to draw a graph.
#[derive(Debug, Clone, Copy, PartialEq, Eq, Structural)]
pub enum GraphSymbol {
    Braille,
    Block,
    Tty,
}

/// The 25-entry table of a glyph family and orientation. Entry `a * 5 + b`
/// draws a cell whose left column is at level `a` and right column at level
/// `b`, both in `0..=4`.
pub open spec fn glyph_table(family: GraphSymbol, inverted: bool) -> Seq<char> {
    match (family, inverted) {
        (GraphSymbol::Braille, false) => seq![
            ' ', '⢀', '⢠', '⢰', '⢸',
            '⡀', '⣀', '⣠', '⣰', '⣸',
            '⡄', '⣄', '⣤', '⣴', '⣼',
            '⡆', '⣆', '⣦', '⣶', '⣾',
            '⡇', '⣇', '⣧', '⣷', '⣿',
        ],
        (GraphSymbol::Braille, true) => seq![
            ' ', '⠈', '⠘', '⠸', '⢸',
            '⠁', '⠉', '⠙', '⠹', '⢹',
            '⠃', '⠋', '⠛', '⠻', '⢻',
            '⠇', '⠏', '⠟', '⠿', '⢿',
            '⡇', '⡏', '⡟', '⡿', '⣿',
        ],
        (GraphSymbol::Block, false) => seq![
            ' ', '▗', '▗', '▐', '▐',
            '▖', '▄', '▄', '▟', '▟',
            '▖', '▄', '▄', '▟', '▟',
            '▌', '▙', '▙', '█', '█',
            '▌', '▙', '▙', '█', '█',
        ],
        (GraphSymbol::Block, true) => seq![
            ' ', '▝', '▝', '▐', '▐',
            '▘', '▀', '▀', '▜', '▜',
            '▘', '▀', '▀', '▜', '▜',
            '▌', '▛', '▛', '█', '█',
            '▌', '▛', '▛', '█', '█',
        ],
        (GraphSymbol::Tty, _) => seq![
            ' ', '░', '░', '▒', '▒',
            '░', '░', '▒', '▒', '█',
            '░', '▒', '▒', '▒', '█',
            '▒', '▒', '▒', '█', '█',
            '▒', '█', '█', '█', '█',
        ],
    }
}

impl GraphSymbol {
    /// The glyph table of this family in the given orientation.
    pub fn get_symbols(&self, inverted: bool) -> (r: Vec<char>)
        ensures
            r@ == glyph_table(*self, inverted),
            r@.len() == 25,
    {
        match (self, inverted) {
            (GraphSymbol::Braille, false) => vec![
                ' ', '⢀', '⢠', '⢰', '⢸',
                '⡀', '⣀', '⣠', '⣰', '⣸',
                '⡄', '⣄', '⣤', '⣴', '⣼',
                '⡆', '⣆', '⣦', '⣶', '⣾',
                '⡇', '⣇', '⣧', '⣷', '⣿',
            ],
            (GraphSymbol::Braille, true) => vec![
                ' ', '⠈', '⠘', '⠸', '⢸',
                '⠁', '⠉', '⠙', '⠹', '⢹',
                '⠃', '⠋', '⠛', '⠻', '⢻',
                '⠇', '⠏', '⠟', '⠿', '⢿',
                '⡇', '⡏', '⡟', '⡿', '⣿',
            ],
            (GraphSymbol::Block, false) => vec![
                ' ', '▗', '▗', '▐', '▐',
                '▖', '▄', '▄', '▟', '▟',
                '▖', '▄', '▄', '▟', '▟',
                '▌', '▙', '▙', '█', '█',
                '▌', '▙', '▙', '█', '█',
            ],
            (GraphSymbol::Block, true) => vec![
                ' ', '▝', '▝', '▐', '▐',
                '▘', '▀', '▀', '▜', '▜',
                '▘', '▀', '▀', '▜', '▜',
                '▌', '▛', '▛', '█', '█',
                '▌', '▛', '▛', '█', '█',
            ],
            (GraphSymbol::Tty, _) => vec![
                ' ', '░', '░', '▒', '▒',
                '░', '░', '▒', '▒', '█',
                '░', '▒', '▒', '▒', '█',
                '▒', '▒', '▒', '█', '█',
                '▒', '█', '█', '█', '█',
            ],
        }
    }
}

} // verus!

verus! {

/// Box-drawing and other interface characters.
pub const H_LINE: char = '─';
pub const V_LINE: char = '│';
pub const LEFT_UP: char = '┌';
pub const RIGHT_UP: char = '┐';
pub const LEFT_DOWN: char = '└';
pub const RIGHT_DOWN: char = '┘';
pub const ROUND_LEFT_UP: char = '╭';
pub const ROUND_RIGHT_UP: char = '╮';
pub const ROUND_LEFT_DOWN: char = '╰';
pub const ROUND_RIGHT_DOWN: char = '╯';
pub const METER_CHAR: char = '■';
pub const METER_EMPTY_CHAR: char = '░';

/// The meter glyph as text.
pub const METER: &'static str = "■";

} // verus!
