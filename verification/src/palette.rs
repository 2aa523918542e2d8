//! Colors, styles and color palettes.
//!
//! By default (`Terminal`) the UI uses the terminal's own ANSI colors, so it
//! adopts the user's theme. A fixed [`Scheme`] instead resolves every ANSI
//! color to a specific RGB value, reproducing that scheme's look on any
//! terminal. Two schemes are built in ([`Scheme::campbell`],
//! [`Scheme::dark_plus`]), and a custom one can be built from the fields of a
//! Windows Terminal color-scheme document with [`Scheme::from_wt`].

use vstd::prelude::*;

verus! {

/// A terminal color: one of the sixteen named ANSI colors, the terminal's
/// default (`Reset`), an explicit RGB value or a 256-color palette index.
#[derive(Clone, Copy, Debug, PartialEq, Eq, Structural)]
pub enum Color {
    Reset,
    Black,
    Red,
    Green,
    Yellow,
    Blue,
    Magenta,
    Cyan,
    Gray,
    DarkGray,
    LightRed,
    LightGreen,
    LightYellow,
    LightBlue,
    LightMagenta,
    LightCyan,
    White,
    Rgb(u8, u8, u8),
    Indexed(u8),
}

/// Text modifier bits.
pub const BOLD: u16 = 1;
pub const DIM: u16 = 2;
pub const REVERSED: u16 = 64;

/// Foreground and background colors plus modifiers to add and remove.
#[derive(Clone, Copy, Debug, PartialEq, Eq, Structural)]
pub struct Style {
    pub fg: Option<Color>,
    pub bg: Option<Color>,
    pub add_modifier: u16,
    pub sub_modifier: u16,
}

impl Style {
    /// No colors, no modifiers.
    pub fn new() -> (s: Style)
        ensures
            s == (Style { fg: None, bg: None, add_modifier: 0, sub_modifier: 0 }),
    {
        Style { fg: None, bg: None, add_modifier: 0, sub_modifier: 0 }
    }

    /// With foreground `c`.
    pub fn fg(self, c: Color) -> (s: Style)
        ensures
            s == (Style { fg: Some(c), ..self }),
    {
        Style { fg: Some(c), ..self }
    }

    /// With background `c`.
    pub fn bg(self, c: Color) -> (s: Style)
        ensures
            s == (Style { bg: Some(c), ..self }),
    {
        Style { bg: Some(c), ..self }
    }

    /// With modifier bits `m` added (and no longer removed).
    pub fn add_modifier(self, m: u16) -> (s: Style)
        ensures
            s == (Style { add_modifier: self.add_modifier | m, sub_modifier: self.sub_modifier & !m, ..self }),
    {
        Style { add_modifier: self.add_modifier | m, sub_modifier: self.sub_modifier & !m, ..self }
    }

    /// `other` laid over this style: its colors win where it sets them, its
    /// modifier changes are applied on top.
    pub fn patch(self, other: Style) -> (s: Style)
        ensures
            s.fg == (if other.fg is Some { other.fg } else { self.fg }),
            s.bg == (if other.bg is Some { other.bg } else { self.bg }),
            s.add_modifier == (self.add_modifier & !other.sub_modifier) | other.add_modifier,
            s.sub_modifier == (self.sub_modifier & !other.add_modifier) | other.sub_modifier,
    {
        Style {
            fg: if other.fg.is_some() { other.fg } else { self.fg },
            bg: if other.bg.is_some() { other.bg } else { self.bg },
            add_modifier: (self.add_modifier & !other.sub_modifier) | other.add_modifier,
            sub_modifier: (self.sub_modifier & !other.add_modifier) | other.sub_modifier,
        }
    }
}

/// An RGB triple.
pub type Rgb = (u8, u8, u8);

/// A fully-resolved color scheme: an RGB for each of the 16 ANSI slots plus a
/// foreground and background. `ansi` is indexed by ANSI color number: 0–7 are
/// the normal colors (black, red, green, yellow, blue, magenta, cyan, white)
/// and 8–15 their bright variants.
#[derive(Clone, Copy, Debug, PartialEq, Eq)]
pub struct Scheme {
    pub fg: Rgb,
    pub bg: Rgb,
    pub ansi: [Rgb; 16],
}

/// The ANSI color number (0–15) a color occupies, or `None` for colors that
/// are already specific (`Rgb`/`Indexed`) or that the base background covers
/// (`Reset`). `Gray`/`White` are ANSI 7/15 and `DarkGray`/the `Light*`
/// colors the bright range.
pub open spec fn ansi_slot(c: Color) -> Option<int> {
    match c {
        Color::Black => Some(0),
        Color::Red => Some(1),
        Color::Green => Some(2),
        Color::Yellow => Some(3),
        Color::Blue => Some(4),
        Color::Magenta => Some(5),
        Color::Cyan => Some(6),
        Color::Gray => Some(7),
        Color::DarkGray => Some(8),
        Color::LightRed => Some(9),
        Color::LightGreen => Some(10),
        Color::LightYellow => Some(11),
        Color::LightBlue => Some(12),
        Color::LightMagenta => Some(13),
        Color::LightCyan => Some(14),
        Color::White => Some(15),
        _ => None,
    }
}

/// Executable form of [`ansi_slot`].
pub fn ansi_index(color: Color) -> (r: Option<usize>)
    ensures
        r is Some <==> ansi_slot(color) is Some,
        r matches Some(i) ==> i == ansi_slot(color)->Some_0 && i < 16,
{
    match color {
        Color::Black => Some(0),
        Color::Red => Some(1),
        Color::Green => Some(2),
        Color::Yellow => Some(3),
        Color::Blue => Some(4),
        Color::Magenta => Some(5),
        Color::Cyan => Some(6),
        Color::Gray => Some(7),
        Color::DarkGray => Some(8),
        Color::LightRed => Some(9),
        Color::LightGreen => Some(10),
        Color::LightYellow => Some(11),
        Color::LightBlue => Some(12),
        Color::LightMagenta => Some(13),
        Color::LightCyan => Some(14),
        Color::White => Some(15),
        _ => None,
    }
}

/// An explicit RGB color.
pub open spec fn rgb_color(c: Rgb) -> Color {
    Color::Rgb(c.0, c.1, c.2)
}

/// `color` under scheme `s`: ANSI-named colors map to the scheme's RGB,
/// anything else passes through.
pub open spec fn scheme_resolves(s: Scheme, color: Color) -> Color {
    match ansi_slot(color) {
        Some(i) => rgb_color(s.ansi@[i]),
        None => color,
    }
}

impl Scheme {
    /// Windows Terminal's default "Campbell" scheme.
    pub fn campbell() -> (s: Scheme)
        ensures
            s.fg == (0xccu8, 0xccu8, 0xccu8) && s.bg == (0x0cu8, 0x0cu8, 0x0cu8),
            s.ansi@ == seq![
                (0x0cu8, 0x0cu8, 0x0cu8), (0xc5u8, 0x0fu8, 0x1fu8), (0x13u8, 0xa1u8, 0x0eu8), (0xc1u8, 0x9cu8, 0x00u8),
                (0x00u8, 0x37u8, 0xdau8), (0x88u8, 0x17u8, 0x98u8), (0x3au8, 0x96u8, 0xddu8), (0xccu8, 0xccu8, 0xccu8),
                (0x76u8, 0x76u8, 0x76u8), (0xe7u8, 0x48u8, 0x56u8), (0x16u8, 0xc6u8, 0x0cu8), (0xf9u8, 0xf1u8, 0xa5u8),
                (0x3bu8, 0x78u8, 0xffu8), (0xb4u8, 0x00u8, 0x9eu8), (0x61u8, 0xd6u8, 0xd6u8), (0xf2u8, 0xf2u8, 0xf2u8),
            ],
    {
        Scheme {
            fg: (0xcc, 0xcc, 0xcc),
            bg: (0x0c, 0x0c, 0x0c),
            ansi: [
                (0x0c, 0x0c, 0x0c),
                (0xc5, 0x0f, 0x1f),
                (0x13, 0xa1, 0x0e),
                (0xc1, 0x9c, 0x00),
                (0x00, 0x37, 0xda),
                (0x88, 0x17, 0x98),
                (0x3a, 0x96, 0xdd),
                (0xcc, 0xcc, 0xcc),
                (0x76, 0x76, 0x76),
                (0xe7, 0x48, 0x56),
                (0x16, 0xc6, 0x0c),
                (0xf9, 0xf1, 0xa5),
                (0x3b, 0x78, 0xff),
                (0xb4, 0x00, 0x9e),
                (0x61, 0xd6, 0xd6),
                (0xf2, 0xf2, 0xf2),
            ],
        }
    }

    /// Windows Terminal's "Dark+" scheme — softer than Campbell, with a
    /// lighter `#1e1e1e` background and slightly less-saturated accents.
    pub fn dark_plus() -> (s: Scheme)
        ensures
            s.fg == (0xccu8, 0xccu8, 0xccu8) && s.bg == (0x1eu8, 0x1eu8, 0x1eu8),
            s.ansi@ == seq![
                (0x00u8, 0x00u8, 0x00u8), (0xcdu8, 0x31u8, 0x31u8), (0x0du8, 0xbcu8, 0x79u8), (0xe5u8, 0xe5u8, 0x10u8),
                (0x24u8, 0x72u8, 0xc8u8), (0xbcu8, 0x3fu8, 0xbcu8), (0x11u8, 0xa8u8, 0xcdu8), (0xe5u8, 0xe5u8, 0xe5u8),
                (0x66u8, 0x66u8, 0x66u8), (0xf1u8, 0x4cu8, 0x4cu8), (0x23u8, 0xd1u8, 0x8bu8), (0xf5u8, 0xf5u8, 0x43u8),
                (0x3bu8, 0x8eu8, 0xeau8), (0xd6u8, 0x70u8, 0xd6u8), (0x29u8, 0xb8u8, 0xdbu8), (0xe5u8, 0xe5u8, 0xe5u8),
            ],
    {
        Scheme {
            fg: (0xcc, 0xcc, 0xcc),
            bg: (0x1e, 0x1e, 0x1e),
            ansi: [
                (0x00, 0x00, 0x00),
                (0xcd, 0x31, 0x31),
                (0x0d, 0xbc, 0x79),
                (0xe5, 0xe5, 0x10),
                (0x24, 0x72, 0xc8),
                (0xbc, 0x3f, 0xbc),
                (0x11, 0xa8, 0xcd),
                (0xe5, 0xe5, 0xe5),
                (0x66, 0x66, 0x66),
                (0xf1, 0x4c, 0x4c),
                (0x23, 0xd1, 0x8b),
                (0xf5, 0xf5, 0x43),
                (0x3b, 0x8e, 0xea),
                (0xd6, 0x70, 0xd6),
                (0x29, 0xb8, 0xdb),
                (0xe5, 0xe5, 0xe5),
            ],
        }
    }

    /// This scheme's default foreground color, as an RGB triple.
    pub fn foreground(self) -> (c: Rgb)
        ensures
            c == self.fg,
    {
        self.fg
    }

    /// This scheme's default background color, as an RGB triple.
    pub fn background(self) -> (c: Rgb)
        ensures
            c == self.bg,
    {
        self.bg
    }

    /// Resolve one color against this scheme. ANSI-named colors map to their
    /// RGB; everything else (explicit `Rgb`/`Indexed`, `Reset`) passes
    /// through — `Reset` is covered by the base background.
    pub fn resolve(self, color: Color) -> (c: Color)
        ensures
            c == scheme_resolves(self, color),
    {
        match ansi_index(color) {
            Some(i) => {
                let (r, g, b) = self.ansi[i];
                Color::Rgb(r, g, b)
            },
            None => color,
        }
    }
}

/// Which color palette to render with.
#[derive(Clone, Copy, Debug, PartialEq, Eq)]
pub enum Colors {
    /// Use the terminal's own colors (adopts the user's theme). The default.
    Terminal,
    /// A fixed scheme (built-in or user-supplied), applied on any terminal.
    Fixed(Scheme),
}

/// `color` under palette `p`.
pub open spec fn palette_resolves(p: Colors, color: Color) -> Color {
    match p {
        Colors::Terminal => color,
        Colors::Fixed(s) => scheme_resolves(s, color),
    }
}

/// Resolving a color twice gives what resolving once does: a resolved
/// color is final.
pub proof fn lemma_resolve_idempotent(p: Colors, color: Color)
    ensures
        palette_resolves(p, palette_resolves(p, color)) == palette_resolves(p, color),
{
}

impl Colors {
    /// Resolve a color for the active palette. `Terminal` is the identity; a
    /// `Fixed` scheme maps each ANSI-named color to its RGB and leaves
    /// explicit `Rgb`/`Indexed` (and `Reset`) colors untouched.
    pub fn resolve(self, color: Color) -> (c: Color)
        ensures
            c == palette_resolves(self, color),
    {
        match self {
            Colors::Terminal => color,
            Colors::Fixed(scheme) => scheme.resolve(color),
        }
    }

    /// Resolve both colors of a style (modifiers untouched).
    pub fn resolve_style(self, style: Style) -> (s: Style)
        ensures
            s.fg == (match style.fg { Some(c) => Some(palette_resolves(self, c)), None => None }),
            s.bg == (match style.bg { Some(c) => Some(palette_resolves(self, c)), None => None }),
            s.add_modifier == style.add_modifier,
            s.sub_modifier == style.sub_modifier,
    {
        let fg = match style.fg { Some(c) => Some(self.resolve(c)), None => None };
        let bg = match style.bg { Some(c) => Some(self.resolve(c)), None => None };
        Style { fg, bg, ..style }
    }

    /// Base style for the whole frame: nothing for `Terminal`, the scheme's
    /// fg/bg for a `Fixed` palette so every cell that sets no background
    /// adopts it.
    pub fn base_style(self) -> (s: Style)
        ensures
            match self {
                Colors::Terminal => s == (Style { fg: None, bg: None, add_modifier: 0, sub_modifier: 0 }),
                Colors::Fixed(sc) => s == (Style { fg: Some(rgb_color(sc.fg)), bg: Some(rgb_color(sc.bg)), add_modifier: 0, sub_modifier: 0 }),
            },
    {
        match self {
            Colors::Terminal => Style::new(),
            Colors::Fixed(scheme) => {
                let (r, g, b) = scheme.fg;
                let (r2, g2, b2) = scheme.bg;
                Style::new().fg(Color::Rgb(r, g, b)).bg(Color::Rgb(r2, g2, b2))
            },
        }
    }

    /// The RGB the terminal's default background should be set to while this
    /// palette is active. `None` for `Terminal` — leave the user's terminal
    /// background untouched.
    pub fn terminal_background(self) -> (c: Option<Rgb>)
        ensures
            match self {
                Colors::Terminal => c is None,
                Colors::Fixed(s) => c == Some(s.bg),
            },
    {
        match self {
            Colors::Terminal => None,
            Colors::Fixed(scheme) => Some(scheme.bg),
        }
    }
}


/// Why a color scheme was rejected.
#[derive(Debug, PartialEq, Eq)]
pub enum PaletteError {
    /// This text is not a `#rrggbb` (or `rrggbb`) color.
    InvalidHex(String),
}

/// Value of a hexadecimal digit.
pub open spec fn hex_digit(c: char) -> Option<nat> {
    if '0' <= c && c <= '9' {
        Some((c as nat - '0' as nat) as nat)
    } else if 'a' <= c && c <= 'f' {
        Some((c as nat - 'a' as nat + 10) as nat)
    } else if 'A' <= c && c <= 'F' {
        Some((c as nat - 'A' as nat + 10) as nat)
    } else {
        None
    }
}

/// Value of a byte written as two hexadecimal digits.
pub open spec fn hex_byte(a: char, b: char) -> Option<nat> {
    match (hex_digit(a), hex_digit(b)) {
        (Some(x), Some(y)) => Some(16 * x + y),
        _ => None,
    }
}

/// `s` without one leading `#`.
pub open spec fn strip_hash(s: Seq<char>) -> Seq<char> {
    if s.len() > 0 && s[0] == '#' { s.drop_first() } else { s }
}

/// The RGB triple written as `#rrggbb` or `rrggbb`, if `s` is one.
pub open spec fn hex_color(s: Seq<char>) -> Option<(nat, nat, nat)> {
    let h = strip_hash(s);
    if h.len() != 6 {
        None
    } else {
        match (hex_byte(h[0], h[1]), hex_byte(h[2], h[3]), hex_byte(h[4], h[5])) {
            (Some(r), Some(g), Some(b)) => Some((r, g, b)),
            _ => None,
        }
    }
}

fn hex_digit_value(c: char) -> (r: Option<u8>)
    ensures
        r is Some <==> hex_digit(c) is Some,
        r matches Some(v) ==> v as nat == hex_digit(c)->Some_0 && v < 16,
{
    if '0' <= c && c <= '9' {
        Some(((c as u32) - ('0' as u32)) as u8)
    } else if 'a' <= c && c <= 'f' {
        Some(((c as u32) - ('a' as u32) + 10) as u8)
    } else if 'A' <= c && c <= 'F' {
        Some(((c as u32) - ('A' as u32) + 10) as u8)
    } else {
        None
    }
}

fn hex_byte_value(a: char, b: char) -> (r: Option<u8>)
    ensures
        r is Some <==> hex_byte(a, b) is Some,
        r matches Some(v) ==> v as nat == hex_byte(a, b)->Some_0,
{
    match (hex_digit_value(a), hex_digit_value(b)) {
        (Some(x), Some(y)) => Some(16 * x + y),
        _ => None,
    }
}

/// Parse a `#rrggbb` (or `rrggbb`) hex color into an RGB triple.
pub fn parse_hex(s: &str) -> (r: Result<Rgb, PaletteError>)
    ensures
        match hex_color(s@) {
            Some((red, green, blue)) => r matches Ok(c) && c.0 as nat == red && c.1 as nat == green
                && c.2 as nat == blue,
            None => r matches Err(PaletteError::InvalidHex(t)) && t@ == s@,
        },
{
    let n = s.unicode_len();
    let start: usize = if n > 0 && s.get_char(0) == '#' { 1 } else { 0 };
    let h = s.substring_char(start, n);
    assert(h@ =~= strip_hash(s@));
    if h.unicode_len() != 6 {
        return Err(PaletteError::InvalidHex(String::from_str(s)));
    }
    let r = hex_byte_value(h.get_char(0), h.get_char(1));
    let g = hex_byte_value(h.get_char(2), h.get_char(3));
    let b = hex_byte_value(h.get_char(4), h.get_char(5));
    match (r, g, b) {
        (Some(r), Some(g), Some(b)) => Ok((r, g, b)),
        _ => Err(PaletteError::InvalidHex(String::from_str(s))),
    }
}

/// The color fields of a Windows Terminal color-scheme document.
#[derive(Clone, Debug)]
pub struct WtScheme {
    pub background: String,
    pub foreground: String,
    pub black: String,
    pub red: String,
    pub green: String,
    pub yellow: String,
    pub blue: String,
    pub purple: String,
    pub cyan: String,
    pub white: String,
    pub bright_black: String,
    pub bright_red: String,
    pub bright_green: String,
    pub bright_yellow: String,
    pub bright_blue: String,
    pub bright_purple: String,
    pub bright_cyan: String,
    pub bright_white: String,
}

/// The field texts in scheme order: foreground, background, then ANSI 0–15.
pub open spec fn wt_fields(w: WtScheme) -> Seq<Seq<char>> {
    seq![w.foreground@, w.background@, w.black@, w.red@, w.green@, w.yellow@, w.blue@, w.purple@,
        w.cyan@, w.white@, w.bright_black@, w.bright_red@, w.bright_green@, w.bright_yellow@,
        w.bright_blue@, w.bright_purple@, w.bright_cyan@, w.bright_white@]
}

/// `c` is the parsed value of `t`.
pub open spec fn parsed_as(t: Seq<char>, c: Rgb) -> bool {
    hex_color(t) == Some((c.0 as nat, c.1 as nat, c.2 as nat))
}

impl Scheme {
    /// Build a scheme from the fields of a Windows Terminal color-scheme
    /// document; fails on the first field (in scheme order) that is not a hex
    /// color.
    pub fn from_wt(raw: &WtScheme) -> (r: Result<Scheme, PaletteError>)
        ensures
            (forall|i: int| 0 <= i < 18 ==> #[trigger] hex_color(wt_fields(*raw)[i]) is Some) <==> r is Ok,
            r matches Ok(s) ==> parsed_as(raw.foreground@, s.fg) && parsed_as(raw.background@, s.bg)
                && forall|i: int| 0 <= i < 16 ==> parsed_as(#[trigger] wt_fields(*raw)[i + 2], s.ansi@[i]),
            r matches Err(PaletteError::InvalidHex(t)) ==> exists|i: int| 0 <= i < 18
                && #[trigger] wt_fields(*raw)[i] == t@ && hex_color(t@) is None
                && forall|j: int| 0 <= j < i ==> hex_color(#[trigger] wt_fields(*raw)[j]) is Some,
    {
        let texts = wt_field_texts(raw);
        let ghost f = wt_fields(*raw);
        let mut parsed: Vec<Rgb> = Vec::new();
        let mut i: usize = 0;
        while i < 18
            invariant
                texts@.len() == 18,
                f == wt_fields(*raw),
                forall|j: int| 0 <= j < 18 ==> #[trigger] texts@[j]@ == f[j],
                i <= 18,
                parsed@.len() == i,
                forall|j: int| 0 <= j < i ==> parsed_as(f[j], #[trigger] parsed@[j]),
            decreases 18 - i,
        {
            match parse_hex(texts[i]) {
                Ok(c) => parsed.push(c),
                Err(e) => {
                    assert forall|j: int| 0 <= j < i implies hex_color(#[trigger] f[j]) is Some by {
                        assert(parsed_as(f[j], parsed@[j]));
                    }
                    return Err(e);
                },
            }
            i = i + 1;
        }
        let s = Scheme {
            fg: parsed[0],
            bg: parsed[1],
            ansi: [parsed[2], parsed[3], parsed[4], parsed[5], parsed[6], parsed[7], parsed[8], parsed[9],
                parsed[10], parsed[11], parsed[12], parsed[13], parsed[14], parsed[15], parsed[16], parsed[17]],
        };
        assert(s.ansi@ =~= parsed@.subrange(2, 18));
        assert forall|i: int| 0 <= i < 18 implies #[trigger] hex_color(f[i]) is Some by {
            assert(parsed_as(f[i], parsed@[i]));
        }
        Ok(s)
    }
}

fn wt_field_texts(raw: &WtScheme) -> (v: Vec<&str>)
    ensures
        v@.len() == 18,
        forall|j: int| 0 <= j < 18 ==> #[trigger] v@[j]@ == wt_fields(*raw)[j],
{
    let mut v: Vec<&str> = Vec::new();
    v.push(raw.foreground.as_str());
    v.push(raw.background.as_str());
    v.push(raw.black.as_str());
    v.push(raw.red.as_str());
    v.push(raw.green.as_str());
    v.push(raw.yellow.as_str());
    v.push(raw.blue.as_str());
    v.push(raw.purple.as_str());
    v.push(raw.cyan.as_str());
    v.push(raw.white.as_str());
    v.push(raw.bright_black.as_str());
    v.push(raw.bright_red.as_str());
    v.push(raw.bright_green.as_str());
    v.push(raw.bright_yellow.as_str());
    v.push(raw.bright_blue.as_str());
    v.push(raw.bright_purple.as_str());
    v.push(raw.bright_cyan.as_str());
    v.push(raw.bright_white.as_str());
    v
}

/// The lowercase hexadecimal digit for `d < 16`.
pub open spec fn hex_char(d: nat) -> char {
    if d < 10 { (('0' as nat) + d) as char } else { (('a' as nat) + d - 10) as char }
}

/// `b` as two lowercase hexadecimal digits.
pub open spec fn hex2(b: u8) -> Seq<char> {
    seq![hex_char(b as nat / 16), hex_char(b as nat % 16)]
}

fn push_hex_digit(s: &mut String, d: u8)
    requires
        d < 16,
    ensures
        final(s)@ == old(s)@.push(hex_char(d as nat)),
{
    let c: char = if d < 10 { ((48u8 + d) as char) } else { ((87u8 + d) as char) };
    assert(c == hex_char(d as nat)) by {
        assert('0' as nat == 48);
        assert('a' as nat == 97);
    }
    crate::text::push_char(s, c);
}

/// The OSC 11 sequence that sets the terminal's default background to
/// `rgb` (`ESC ] 11 ; # rrggbb ESC \`).
pub fn set_terminal_background_sequence(rgb: Rgb) -> (s: String)
    ensures
        s@ == seq!['\x1b', ']', '1', '1', ';', '#'] + hex2(rgb.0) + hex2(rgb.1) + hex2(rgb.2)
            + seq!['\x1b', '\\'],
{
    let mut s = String::new();
    crate::text::push_char(&mut s, '\x1b');
    crate::text::push_char(&mut s, ']');
    crate::text::push_char(&mut s, '1');
    crate::text::push_char(&mut s, '1');
    crate::text::push_char(&mut s, ';');
    crate::text::push_char(&mut s, '#');
    push_hex_digit(&mut s, rgb.0 / 16);
    push_hex_digit(&mut s, rgb.0 % 16);
    push_hex_digit(&mut s, rgb.1 / 16);
    push_hex_digit(&mut s, rgb.1 % 16);
    push_hex_digit(&mut s, rgb.2 / 16);
    push_hex_digit(&mut s, rgb.2 % 16);
    crate::text::push_char(&mut s, '\x1b');
    crate::text::push_char(&mut s, '\\');
    assert(s@ =~= seq!['\x1b', ']', '1', '1', ';', '#'] + hex2(rgb.0) + hex2(rgb.1) + hex2(rgb.2)
        + seq!['\x1b', '\\']);
    s
}

/// The OSC 111 sequence that resets the terminal's default background to
/// the user's configured value (`ESC ] 111 ESC \`).
pub fn reset_terminal_background_sequence() -> (s: String)
    ensures
        s@ == seq!['\x1b', ']', '1', '1', '1', '\x1b', '\\'],
{
    let mut s = String::new();
    crate::text::push_char(&mut s, '\x1b');
    crate::text::push_char(&mut s, ']');
    crate::text::push_char(&mut s, '1');
    crate::text::push_char(&mut s, '1');
    crate::text::push_char(&mut s, '1');
    crate::text::push_char(&mut s, '\x1b');
    crate::text::push_char(&mut s, '\\');
    assert(s@ =~= seq!['\x1b', ']', '1', '1', '1', '\x1b', '\\']);
    s
}

} // verus!
