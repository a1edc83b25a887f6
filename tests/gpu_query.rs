use rtop::gpu_query::parse_nvidia_line;

#[test]
fn nvidia_line_all_fields() {
    let g = parse_nvidia_line("0, NVIDIA GeForce RTX 3080, 45, 2048, 10240, 65, 220.50, 1800, 30", 3).unwrap();
    assert_eq!(g.index, 0);
    assert_eq!(g.name, "NVIDIA GeForce RTX 3080");
    assert_eq!(g.utilization, 45);
    assert_eq!(g.memory_used, 2048 * 1024 * 1024);
    assert_eq!(g.memory_total, 10240 * 1024 * 1024);
    assert_eq!(g.temperature, Some(65));
    assert_eq!(g.power_text, "220.50");
    assert_eq!(g.clock_speed, Some(1800));
    assert_eq!(g.fan_speed, Some(30));
}

#[test]
fn nvidia_line_missing_values() {
    let g = parse_nvidia_line("x,Tesla,[N/A],,abc,-5,[N/A],[N/A],[N/A]", 2).unwrap();
    assert_eq!(g.index, 2);
    assert_eq!(g.name, "Tesla");
    assert_eq!(g.utilization, 0);
    assert_eq!(g.memory_used, 0);
    assert_eq!(g.memory_total, 0);
    assert_eq!(g.temperature, Some(-5));
    assert_eq!(g.power_text, "[N/A]");
    assert_eq!(g.clock_speed, None);
    assert_eq!(g.fan_speed, None);
}

#[test]
fn nvidia_line_out_of_range_values() {
    let g = parse_nvidia_line("1,a,300,1,1,2147483648,0,4294967296,256", 0).unwrap();
    assert_eq!(g.utilization, 0);
    assert_eq!(g.temperature, None);
    assert_eq!(g.clock_speed, None);
    assert_eq!(g.fan_speed, None);
    let h = parse_nvidia_line("1,a,1,1,1,-2147483648,0,1,1", 0).unwrap();
    assert_eq!(h.temperature, Some(i32::MIN));
}

#[test]
fn nvidia_line_too_short() {
    assert!(parse_nvidia_line("0, GPU, 45, 2048", 0).is_none());
    assert!(parse_nvidia_line("", 0).is_none());
    assert!(parse_nvidia_line(",,,,,,,,", 0).is_some());
}
