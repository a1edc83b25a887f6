use rtop::devices::{memory_percent, GpuVendor, NpuVendor};
use rtop::process::{kill_signal, next_sort, ProcessSignal, SortOrder};
use rtop::units::{format_bytes, format_time_remaining, format_uptime};
use rtop::view_page::ViewPage;

#[test]
fn test_format_bytes_zero() {
    assert_eq!(format_bytes(0, false), "0.00 B");
    assert_eq!(format_bytes(0, true), "0.00 B");
}

#[test]
fn test_format_bytes_binary() {
    assert_eq!(format_bytes(1024, false), "1.00 KiB");
    assert_eq!(format_bytes(1048576, false), "1.00 MiB");
    assert_eq!(format_bytes(1073741824, false), "1.00 GiB");
    assert_eq!(format_bytes(512, false), "512.00 B");
    assert_eq!(format_bytes(2048, false), "2.00 KiB");
}

#[test]
fn test_format_bytes_decimal() {
    assert_eq!(format_bytes(1000, true), "1.00 KB");
    assert_eq!(format_bytes(1000000, true), "1.00 MB");
    assert_eq!(format_bytes(1000000000, true), "1.00 GB");
    assert_eq!(format_bytes(500, true), "500.00 B");
    assert_eq!(format_bytes(2000, true), "2.00 KB");
}

#[test]
fn test_format_bytes_large() {
    assert_eq!(format_bytes(1099511627776, false), "1.00 TiB");
    assert_eq!(format_bytes(1125899906842624, false), "1.00 PiB");
}

#[test]
fn test_format_bytes_fractional() {
    // 1.5 KiB
    assert_eq!(format_bytes(1536, false), "1.50 KiB");
    // 2.25 MiB
    assert_eq!(format_bytes(2359296, false), "2.25 MiB");
}

#[test]
fn format_bytes_beyond_peta_stays_in_peta() {
    assert_eq!(format_bytes(u64::MAX, false), "16384.00 PiB");
    assert_eq!(format_bytes(1023, false), "1023.00 B");
}

#[test]
fn uptime_and_battery_texts() {
    assert_eq!(format_uptime(5), "5s");
    assert_eq!(format_uptime(125), "2m 5s");
    assert_eq!(format_uptime(3 * 3600 + 240), "3h 4m");
    assert_eq!(format_uptime(2 * 86400 + 3 * 3600 + 4 * 60 + 9), "2d 3h 4m");
    assert_eq!(format_time_remaining(Some(3 * 3600 + 4 * 60)), "3h 4m");
    assert_eq!(format_time_remaining(Some(59)), "0m");
    assert_eq!(format_time_remaining(None), "Calculating...");
}

#[test]
fn signals_and_sorting() {
    let all = ProcessSignal::all_signals();
    assert_eq!(all.len(), 9);
    assert_eq!(all[0].name(), "TERM (15)");
    assert_eq!(ProcessSignal::Kill.description(), "Force kill (cannot be ignored)");
    assert!(matches!(kill_signal(true), ProcessSignal::Kill));
    assert!(matches!(kill_signal(false), ProcessSignal::Term));
    assert_eq!(next_sort(SortOrder::Cpu, false, SortOrder::Cpu), (SortOrder::Cpu, true));
    assert_eq!(next_sort(SortOrder::Cpu, true, SortOrder::Name), (SortOrder::Name, false));
}

#[test]
fn vendors_pages_and_memory() {
    assert_eq!(GpuVendor::Nvidia.vendor_string(), "NVIDIA");
    assert_eq!(NpuVendor::Qualcomm.vendor_string(), "Qualcomm");
    assert_eq!(ViewPage::Storage.title(), "Storage");
    assert_eq!(memory_percent(500, 1000), 50);
    assert_eq!(memory_percent(0, 0), 0);
    assert_eq!(memory_percent(5000, 1000), 255);
}
