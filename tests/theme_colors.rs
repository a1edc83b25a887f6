use rtop::theme::{color_to_rgb, ColorGradient, Theme, ThemeColor};

#[test]
fn test_color_gradient() {
    let gradient = ColorGradient::new(ThemeColor::Blue, ThemeColor::Red, 101);
    let color_at_50 = gradient.at(50);
    // Should be somewhere between blue and red
    assert!(matches!(color_at_50, ThemeColor::Rgb(_, _, _)));
}

#[test]
fn test_parse_color() {
    let color1 = Theme::parse_color("#ff0000");
    assert_eq!(color1, ThemeColor::Rgb(255, 0, 0));

    let color2 = Theme::parse_color("#f00");
    assert_eq!(color2, ThemeColor::Rgb(255, 0, 0));

    let color3 = Theme::parse_color("#80");
    assert_eq!(color3, ThemeColor::Rgb(128, 128, 128));
}

#[test]
fn parse_color_edge_cases() {
    assert_eq!(Theme::parse_color("##0a0B0c"), ThemeColor::Rgb(10, 11, 12));
    assert_eq!(Theme::parse_color("#zz"), ThemeColor::Rgb(128, 128, 128));
    assert_eq!(Theme::parse_color("#+f"), ThemeColor::Rgb(15, 15, 15));
    assert_eq!(Theme::parse_color("#1234"), ThemeColor::Gray);
    assert_eq!(Theme::parse_color(""), ThemeColor::Gray);
}

#[test]
fn gradient_endpoints_and_middle() {
    let g = ColorGradient::new(ThemeColor::Black, ThemeColor::White, 3);
    assert_eq!(g.colors, vec![ThemeColor::Rgb(0, 0, 0), ThemeColor::Rgb(127, 127, 127), ThemeColor::Rgb(255, 255, 255)]);
    assert_eq!(g.at(0), ThemeColor::Rgb(0, 0, 0));
    assert_eq!(g.at(50), ThemeColor::Rgb(127, 127, 127));
    assert_eq!(g.at(200), ThemeColor::Rgb(255, 255, 255));
    let down = ColorGradient::new(ThemeColor::White, ThemeColor::Black, 3);
    assert_eq!(down.colors[1], ThemeColor::Rgb(127, 127, 127));
    assert_eq!(ColorGradient::new(ThemeColor::Red, ThemeColor::Blue, 1).colors, vec![ThemeColor::Rgb(255, 0, 0)]);
}

#[test]
fn named_colors_to_rgb() {
    assert_eq!(color_to_rgb(ThemeColor::DarkGray), (64, 64, 64));
    assert_eq!(color_to_rgb(ThemeColor::Indexed(3)), (128, 128, 128));
    assert_eq!(color_to_rgb(ThemeColor::Rgb(1, 2, 3)), (1, 2, 3));
}

#[test]
fn theme_lookups_and_gradients() {
    let t = Theme::default();
    assert_eq!(t.get_color("cpu_box"), ThemeColor::Rgb(0x3d, 0x7b, 0x46));
    assert_eq!(t.get_color("nonsense"), ThemeColor::Rgb(0xcc, 0xcc, 0xcc));
    assert_eq!(t.cpu_gradient().colors[0], ThemeColor::Rgb(0x48, 0x97, 0xd8));
    let mut u = Theme::default();
    u.temp_mid = None;
    assert_eq!(u.temp_gradient().colors[1], ThemeColor::Rgb(0x7c, 0xe5, 0x67));
}
