use git_tailor::palette::{
    parse_hex, reset_terminal_background_sequence, set_terminal_background_sequence, Color, Colors, PaletteError,
    Scheme, Style, WtScheme, BOLD,
};

#[test]
fn parse_hex_accepts_with_or_without_hash() {
    assert_eq!(parse_hex("#0C0C0C").unwrap(), (0x0c, 0x0c, 0x0c));
    assert_eq!(parse_hex("0c0c0c").unwrap(), (0x0c, 0x0c, 0x0c));
    assert!(parse_hex("#fff").is_err());
    assert!(parse_hex("#gggggg").is_err());
}

#[test]
fn parse_hex_error_names_the_text() {
    match parse_hex("#zzzzzz") {
        Err(PaletteError::InvalidHex(t)) => assert_eq!(t, "#zzzzzz"),
        other => panic!("unexpected {other:?}"),
    }
}

#[test]
fn terminal_is_the_identity() {
    assert_eq!(Colors::Terminal.resolve(Color::Green), Color::Green);
    assert_eq!(Colors::Terminal.resolve(Color::Reset), Color::Reset);
    assert_eq!(Colors::Terminal.base_style(), Style::new());
    assert_eq!(Colors::Terminal.terminal_background(), None);
}

#[test]
fn campbell_maps_ansi_to_rgb_and_leaves_the_rest() {
    let campbell = Colors::Fixed(Scheme::campbell());
    assert_eq!(campbell.resolve(Color::Green), Color::Rgb(0x13, 0xa1, 0x0e));
    assert_eq!(campbell.resolve(Color::White), Color::Rgb(0xf2, 0xf2, 0xf2));
    let explicit = Color::Rgb(1, 2, 3);
    assert_eq!(campbell.resolve(explicit), explicit);
    assert_eq!(campbell.resolve(Color::Reset), Color::Reset);
    assert_eq!(Scheme::campbell().foreground(), (0xcc, 0xcc, 0xcc));
    assert_eq!(Scheme::campbell().background(), (0x0c, 0x0c, 0x0c));
}

#[test]
fn dark_plus_uses_the_softer_background() {
    let dark_plus = Colors::Fixed(Scheme::dark_plus());
    assert_eq!(dark_plus.resolve(Color::Green), Color::Rgb(0x0d, 0xbc, 0x79));
    assert_eq!(dark_plus.resolve(Color::Gray), Color::Rgb(0xe5, 0xe5, 0xe5));
    assert_eq!(dark_plus.resolve(Color::White), Color::Rgb(0xe5, 0xe5, 0xe5));
    let base = dark_plus.base_style();
    assert_eq!(base.fg, Some(Color::Rgb(0xcc, 0xcc, 0xcc)));
    assert_eq!(base.bg, Some(Color::Rgb(0x1e, 0x1e, 0x1e)));
    assert_eq!(dark_plus.terminal_background(), Some((0x1e, 0x1e, 0x1e)));
}

#[test]
fn resolve_style_maps_both_colors_and_keeps_modifiers() {
    let s = Style::new().fg(Color::White).bg(Color::Green).add_modifier(BOLD);
    let r = Colors::Fixed(Scheme::campbell()).resolve_style(s);
    assert_eq!(r.fg, Some(Color::Rgb(0xf2, 0xf2, 0xf2)));
    assert_eq!(r.bg, Some(Color::Rgb(0x13, 0xa1, 0x0e)));
    assert!(r.add_modifier & BOLD != 0);
}

fn campbell_fields() -> WtScheme {
    WtScheme {
        background: "#0C0C0C".to_string(),
        foreground: "#CCCCCC".to_string(),
        black: "#0C0C0C".to_string(),
        red: "#C50F1F".to_string(),
        green: "#13A10E".to_string(),
        yellow: "#C19C00".to_string(),
        blue: "#0037DA".to_string(),
        purple: "#881798".to_string(),
        cyan: "#3A96DD".to_string(),
        white: "#CCCCCC".to_string(),
        bright_black: "#767676".to_string(),
        bright_red: "#E74856".to_string(),
        bright_green: "#16C60C".to_string(),
        bright_yellow: "#F9F1A5".to_string(),
        bright_blue: "#3B78FF".to_string(),
        bright_purple: "#B4009E".to_string(),
        bright_cyan: "#61D6D6".to_string(),
        bright_white: "#F2F2F2".to_string(),
    }
}

#[test]
fn from_wt_builds_the_campbell_scheme() {
    assert_eq!(Scheme::from_wt(&campbell_fields()).unwrap(), Scheme::campbell());
}

#[test]
fn from_wt_rejects_bad_hex() {
    let mut bad = campbell_fields();
    bad.red = "#zzzzzz".to_string();
    match Scheme::from_wt(&bad) {
        Err(PaletteError::InvalidHex(t)) => assert_eq!(t, "#zzzzzz"),
        other => panic!("unexpected {other:?}"),
    }
}

#[test]
fn background_sequences_are_osc_11() {
    assert_eq!(set_terminal_background_sequence((0x1e, 0x1e, 0x1e)), "\x1b]11;#1e1e1e\x1b\\");
    assert_eq!(reset_terminal_background_sequence(), "\x1b]111\x1b\\");
}

#[test]
fn parse_hex_takes_hex_digits_only() {
    assert!(parse_hex("+f+f+f").is_err());
    assert!(parse_hex("#+f0000").is_err());
    assert!(parse_hex("-1ffff").is_err());
    assert_eq!(parse_hex("#A0b1C2").unwrap(), (0xa0, 0xb1, 0xc2));
}
