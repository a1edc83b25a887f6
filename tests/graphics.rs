use rtop::graph::{GraphRenderer, SAMPLE_UNITS_PER_PERCENT};
use rtop::symbols::{self, GraphSymbol};
use rtop::widgets::{BoxDrawer, MeterRenderer};

fn samples(values: &[f64]) -> Vec<i64> {
    values
        .iter()
        .map(|v| (v * SAMPLE_UNITS_PER_PERCENT as f64).round() as i64)
        .collect()
}

#[test]
fn test_graph_renderer() {
    let renderer = GraphRenderer::new(20, 4, GraphSymbol::Braille, false);
    let data: Vec<f64> = (0..40).map(|i| ((i as f64 * 2.5).sin() * 50.0 + 50.0)).collect();
    let graph = renderer.render(&samples(&data));
    assert_eq!(graph.len(), 4);
}

#[test]
fn test_meter_renderer() {
    let meter = MeterRenderer::new(10);
    let result = meter.render(50);
    assert_eq!(result.len(), 5 * symbols::METER.len());
}

#[test]
fn test_box_drawer() {
    let drawer = BoxDrawer::new(true);
    let boxx = drawer.draw_box(20, 5, Some("Test"));
    assert_eq!(boxx.len(), 5);
    assert!(boxx[0].contains("Test"));
}

fn level_of(value: f64) -> usize {
    let renderer = GraphRenderer::new(1, 1, GraphSymbol::Braille, false);
    renderer.value_to_symbol_index((value * SAMPLE_UNITS_PER_PERCENT as f64).round() as i64, 0)
}

#[test]
fn quantization_boundaries_full_band() {
    assert_eq!(level_of(100.0), 4);
    assert_eq!(level_of(50.0), 2);
    assert_eq!(level_of(99.0), 4);
    assert_eq!(level_of(0.0), 0);
    assert_eq!(level_of(0.5), 1);
}

#[test]
fn quantization_clamps_out_of_range() {
    assert_eq!(level_of(-5.0), 0);
    assert_eq!(level_of(250.0), 4);
}

#[test]
fn quantization_is_monotonic_on_samples() {
    let renderer = GraphRenderer::new(1, 3, GraphSymbol::Block, false);
    for row in 0..3 {
        let mut last = 0;
        for v in (0..=100_000).step_by(250) {
            let l = renderer.value_to_symbol_index(v, row);
            assert!(l >= last);
            last = l;
        }
    }
}

#[test]
fn render_is_deterministic() {
    let renderer = GraphRenderer::new(5, 3, GraphSymbol::Tty, true);
    let data = samples(&[3.0, 97.0, 45.5, 12.0, 0.0, 66.6, 100.0]);
    assert_eq!(renderer.render(&data), renderer.render(&data));
}

#[test]
fn render_empty_data_gives_empty_rows() {
    let renderer = GraphRenderer::new(8, 3, GraphSymbol::Braille, false);
    assert_eq!(renderer.render(&[]), vec![String::new(), String::new(), String::new()]);
}

#[test]
fn render_zero_width_gives_empty_rows() {
    let renderer = GraphRenderer::new(0, 2, GraphSymbol::Braille, false);
    assert_eq!(renderer.render(&samples(&[10.0, 20.0])), vec![String::new(), String::new()]);
}

#[test]
fn render_zero_height_gives_no_rows() {
    let renderer = GraphRenderer::new(4, 0, GraphSymbol::Braille, false);
    assert!(renderer.render(&samples(&[10.0, 20.0])).is_empty());
}

#[test]
fn render_windows_to_twice_the_width() {
    let renderer = GraphRenderer::new(3, 2, GraphSymbol::Braille, false);
    let data = samples(&[42.0; 10]);
    let rows = renderer.render(&data);
    assert_eq!(rows.len(), 2);
    for row in &rows {
        assert_eq!(row.chars().count(), 3);
    }
}

#[test]
fn render_full_and_empty_columns() {
    let renderer = GraphRenderer::new(2, 1, GraphSymbol::Braille, false);
    let rows = renderer.render(&samples(&[100.0, 0.0, 0.0, 100.0]));
    assert_eq!(rows, vec!["⡇⢸".to_string()]);
}

#[test]
fn render_odd_sample_repeats_last() {
    let renderer = GraphRenderer::new(4, 1, GraphSymbol::Block, false);
    let rows = renderer.render(&samples(&[100.0]));
    assert_eq!(rows, vec!["█".to_string()]);
}

#[test]
fn render_two_rows_bands() {
    let renderer = GraphRenderer::new(1, 2, GraphSymbol::Braille, false);
    let rows = renderer.render(&samples(&[75.0, 25.0]));
    // top band 50..100: 75 -> level 2, 25 -> level 1 (no-zero): entry 11
    // bottom band 0..50: 75 -> level 4, 25 -> level 2: entry 22
    assert_eq!(rows, vec!["⣄".to_string(), "⣧".to_string()]);
}

#[test]
fn glyph_tables_have_25_entries() {
    for family in [GraphSymbol::Braille, GraphSymbol::Block, GraphSymbol::Tty] {
        for inverted in [false, true] {
            let table = family.get_symbols(inverted);
            assert_eq!(table.len(), 25);
            assert_eq!(table[0], ' ');
        }
    }
    assert_eq!(GraphSymbol::Braille.get_symbols(false)[24], '⣿');
    assert_eq!(GraphSymbol::Braille.get_symbols(true)[1], '⠈');
}

#[test]
fn meter_segmented_fills_width() {
    let meter = MeterRenderer::new(10);
    assert_eq!(meter.render_segmented(30), "■■■░░░░░░░");
    assert_eq!(meter.render_segmented(200), "■■■■■■■■■■");
    assert_eq!(meter.render(0), "");
}

#[test]
fn box_without_title() {
    let drawer = BoxDrawer::new(false);
    let lines = drawer.draw_box(4, 3, None);
    assert_eq!(lines, vec!["┌──┐", "│  │", "└──┘"]);
}

#[test]
fn box_title_is_cut_to_width() {
    let drawer = BoxDrawer::new(true);
    let lines = drawer.draw_box(8, 2, Some("Processes"));
    assert_eq!(lines, vec!["╭─Proc─╮", "╰──────╯"]);
}

#[test]
fn render_uses_only_the_newest_samples() {
    let renderer = GraphRenderer::new(3, 2, GraphSymbol::Block, false);
    let older = samples(&[100.0, 100.0, 100.0, 100.0, 10.0, 20.0, 30.0, 40.0, 50.0, 60.0]);
    let newest = samples(&[10.0, 20.0, 30.0, 40.0, 50.0, 60.0]);
    assert_eq!(renderer.render(&older), renderer.render(&newest));
}
