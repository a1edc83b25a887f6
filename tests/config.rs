use rtop::config::{ColorConfig, DisplayConfig, ExportConfig, RefreshRates};

#[test]
fn test_display_config_defaults() {
    let display = DisplayConfig::default();
    assert!(display.show_temperature);
    assert!(display.show_network);
    assert!(display.show_disk);
    assert!(display.show_self);
    assert!(!display.show_kernel_processes);
    assert_eq!(display.max_processes, 20);
}

#[test]
fn refresh_rate_defaults() {
    let r = RefreshRates::default();
    assert_eq!((r.cpu, r.memory, r.network, r.disk, r.process, r.temp), (1000, 1000, 1000, 2000, 2000, 1000));
}

#[test]
fn minimal_mode_slows_refresh() {
    let mut r = RefreshRates::default();
    r.set_minimal_mode(true);
    assert_eq!((r.cpu, r.memory, r.network, r.disk, r.process, r.temp), (2000, 2000, 1000, 5000, 5000, 1000));
    let mut q = RefreshRates::default();
    q.set_minimal_mode(false);
    assert_eq!(q, RefreshRates::default());
}

#[test]
fn color_and_export_defaults() {
    let c = ColorConfig::default();
    assert_eq!(c.theme, "cyan");
    assert!(c.enable_colors);
    let e = ExportConfig::default();
    assert!(!e.enable_logging);
    assert!(e.log_path.is_none());
    assert_eq!(e.log_interval, 5000);
}
