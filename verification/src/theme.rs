//! The terminal theme: whether output is coloured, the colours chosen by the
//! terminal's background, the strings styled with them, and the banner.
use vstd::prelude::*;

use crate::text::push_char;

verus! {

broadcast use vstd::string::group_string_axioms;

pub const SGR_RESET: &'static str = "\x1b[0m";

pub const SGR_BOLD: &'static str = "\x1b[1m";

pub const SGR_NOT_BOLD: &'static str = "\x1b[22m";

pub const SGR_PINK: &'static str = "\x1b[38;2;231;89;154m";

pub const SGR_PLUM: &'static str = "\x1b[38;2;201;80;177m";

pub const SGR_VIOLET: &'static str = "\x1b[38;2;153;102;231m";

pub const SGR_INDIGO: &'static str = "\x1b[38;2;101;112;217m";

pub const SGR_BLUE: &'static str = "\x1b[38;2;69;147;230m";

pub const SGR_DARK_PINK: &'static str = "\x1b[38;2;176;30;101m";

pub const SGR_DARK_PLUM: &'static str = "\x1b[38;2;142;37;124m";

pub const SGR_PURPLE: &'static str = "\x1b[38;2;112;67;174m";

pub const SGR_DARK_INDIGO: &'static str = "\x1b[38;2;62;69;148m";

pub const SGR_DARK_BLUE: &'static str = "\x1b[38;2;30;86;163m";

pub const SGR_WHITE: &'static str = "\x1b[38;2;255;255;255m";

pub const SGR_BLACK: &'static str = "\x1b[38;2;0;0;0m";

/// Whether the terminal's background is dark or light.
#[derive(Clone, Copy, Debug, PartialEq, Eq, Structural)]
pub enum Background {
    Dark,
    Light,
}

/// A colour with 8-bit channels.
#[derive(Clone, Copy, Debug, PartialEq, Eq, Structural)]
pub struct Rgb {
    pub red: u8,
    pub green: u8,
    pub blue: u8,
}

/// The tones that text is drawn in.
#[derive(Clone, Copy, Debug, PartialEq, Eq, Structural)]
pub enum Tone {
    Pink,
    Purple,
    White,
    Black,
}

/// The escape sequence that selects a tone.
pub open spec fn tone_code(tone: Tone) -> Seq<char> {
    match tone {
        Tone::Pink => SGR_PINK@,
        Tone::Purple => SGR_PURPLE@,
        Tone::White => SGR_WHITE@,
        Tone::Black => SGR_BLACK@,
    }
}

impl Tone {
    /// The escape sequence that selects this tone.
    pub fn sgr(self) -> (r: &'static str)
        ensures
            r@ == tone_code(self),
    {
        match self {
            Tone::Pink => SGR_PINK,
            Tone::Purple => SGR_PURPLE,
            Tone::White => SGR_WHITE,
            Tone::Black => SGR_BLACK,
        }
    }
}

/// The five colours of the banner's letters: bright ones for a dark
/// background, deep ones for a light background.
#[derive(Clone, Copy, Debug, PartialEq, Eq, Structural)]
pub enum BannerPalette {
    Dark,
    Light,
}

/// The colour of the banner letter at `index` in a palette.
pub open spec fn palette_color(palette: BannerPalette, index: int) -> Seq<char> {
    match palette {
        BannerPalette::Dark => if index == 0 {
            SGR_PINK@
        } else if index == 1 {
            SGR_PLUM@
        } else if index == 2 {
            SGR_VIOLET@
        } else if index == 3 {
            SGR_INDIGO@
        } else {
            SGR_BLUE@
        },
        BannerPalette::Light => if index == 0 {
            SGR_DARK_PINK@
        } else if index == 1 {
            SGR_DARK_PLUM@
        } else if index == 2 {
            SGR_PURPLE@
        } else if index == 3 {
            SGR_DARK_INDIGO@
        } else {
            SGR_DARK_BLUE@
        },
    }
}

impl BannerPalette {
    /// The colour of the banner letter at `index`.
    pub fn color(self, index: usize) -> (r: &'static str)
        requires
            index < 5,
        ensures
            r@ == palette_color(self, index as int),
    {
        match self {
            BannerPalette::Dark => if index == 0 {
                SGR_PINK
            } else if index == 1 {
                SGR_PLUM
            } else if index == 2 {
                SGR_VIOLET
            } else if index == 3 {
                SGR_INDIGO
            } else {
                SGR_BLUE
            },
            BannerPalette::Light => if index == 0 {
                SGR_DARK_PINK
            } else if index == 1 {
                SGR_DARK_PLUM
            } else if index == 2 {
                SGR_PURPLE
            } else if index == 3 {
                SGR_DARK_INDIGO
            } else {
                SGR_DARK_BLUE
            },
        }
    }
}

/// How output is styled: whether colour is on, the accent and text tones,
/// and the banner's palette.
#[derive(Clone, Copy, Debug, PartialEq, Eq, Structural)]
pub struct Theme {
    pub enabled: bool,
    pub accent: Tone,
    pub text: Tone,
    pub banner_colors: BannerPalette,
}

/// A value in the body text: in the text tone, then reset.
pub open spec fn message_text(theme: Theme, value: Seq<char>) -> Seq<char> {
    if theme.enabled {
        tone_code(theme.text) + value + SGR_RESET@
    } else {
        value
    }
}

/// A value in the accent tone, switching back to the text tone after it.
pub open spec fn accent_text(theme: Theme, value: Seq<char>) -> Seq<char> {
    if theme.enabled {
        tone_code(theme.accent) + value + tone_code(theme.text)
    } else {
        value
    }
}

/// A heading: bold, in the accent tone, then back to plain text tone.
pub open spec fn heading_text(theme: Theme, value: Seq<char>) -> Seq<char> {
    if theme.enabled {
        SGR_BOLD@ + tone_code(theme.accent) + value + SGR_NOT_BOLD@ + tone_code(theme.text)
    } else {
        value
    }
}

/// One letter of the banner in its colour, then back to the text tone.
pub open spec fn banner_letter_text(theme: Theme, value: Seq<char>, color: Seq<char>) -> Seq<char> {
    if theme.enabled {
        color + value + tone_code(theme.text)
    } else {
        value
    }
}

/// Output is coloured where it goes to a terminal and `NO_COLOR` is unset.
pub fn colour_enabled(is_terminal: bool, no_color_set: bool) -> (r: bool)
    ensures
        r == (is_terminal && !no_color_set),
{
    is_terminal && !no_color_set
}

impl Theme {
    /// The theme for a background: pink on white text for dark, purple on
    /// black text for light, colour on.
    pub fn for_background(background: Background) -> (r: Self)
        ensures
            r.enabled,
            background == Background::Dark ==> r.accent == Tone::Pink && r.text == Tone::White
                && r.banner_colors == BannerPalette::Dark,
            background == Background::Light ==> r.accent == Tone::Purple && r.text == Tone::Black
                && r.banner_colors == BannerPalette::Light,
    {
        match background {
            Background::Dark => Theme {
                enabled: true,
                accent: Tone::Pink,
                text: Tone::White,
                banner_colors: BannerPalette::Dark,
            },
            Background::Light => Theme {
                enabled: true,
                accent: Tone::Purple,
                text: Tone::Black,
                banner_colors: BannerPalette::Light,
            },
        }
    }

    /// The theme without colour.
    pub fn plain() -> (r: Self)
        ensures
            r == (Theme {
                enabled: false,
                accent: Tone::Pink,
                text: Tone::White,
                banner_colors: BannerPalette::Dark,
            }),
    {
        Theme { enabled: false, accent: Tone::Pink, text: Tone::White, banner_colors: BannerPalette::Dark }
    }

    /// Styles body text.
    pub fn message(self, value: &str) -> (r: String)
        ensures
            r@ == message_text(self, value@),
    {
        if self.enabled {
            let mut r = String::from_str(self.text.sgr());
            r.append(value);
            r.append(SGR_RESET);
            r
        } else {
            String::from_str(value)
        }
    }

    /// Styles a value in the accent tone.
    pub fn accent(self, value: &str) -> (r: String)
        ensures
            r@ == accent_text(self, value@),
    {
        if self.enabled {
            let mut r = String::from_str(self.accent.sgr());
            r.append(value);
            r.append(self.text.sgr());
            r
        } else {
            String::from_str(value)
        }
    }

    /// Styles a heading.
    pub fn heading(self, value: &str) -> (r: String)
        ensures
            r@ == heading_text(self, value@),
    {
        if self.enabled {
            let mut r = String::from_str(SGR_BOLD);
            r.append(self.accent.sgr());
            r.append(value);
            r.append(SGR_NOT_BOLD);
            r.append(self.text.sgr());
            r
        } else {
            String::from_str(value)
        }
    }

    /// Styles one banner letter in the given colour.
    pub fn banner_letter(self, value: &str, color: &str) -> (r: String)
        ensures
            r@ == banner_letter_text(self, value@, color@),
    {
        if self.enabled {
            let mut r = String::from_str(color);
            r.append(value);
            r.append(self.text.sgr());
            r
        } else {
            String::from_str(value)
        }
    }
}

/// The row `row` of the banner glyph of letter `letter` (B, E, L, A, Y).
pub open spec fn glyph_text(letter: usize, row: usize) -> Seq<char> {
    match (letter, row) {
        (0, 0) => "██████╗ "@,
        (0, 1) => "██╔══██╗"@,
        (0, 2) => "██████╔╝"@,
        (0, 3) => "██╔══██╗"@,
        (0, 4) => "██████╔╝"@,
        (0, 5) => "╚═════╝ "@,
        (1, 0) => "███████╗"@,
        (1, 1) => "██╔════╝"@,
        (1, 2) => "█████╗  "@,
        (1, 3) => "██╔══╝  "@,
        (1, 4) => "███████╗"@,
        (1, 5) => "╚══════╝"@,
        (2, 0) => "██╗     "@,
        (2, 1) => "██║     "@,
        (2, 2) => "██║     "@,
        (2, 3) => "██║     "@,
        (2, 4) => "███████╗"@,
        (2, 5) => "╚══════╝"@,
        (3, 0) => " █████╗ "@,
        (3, 1) => "██╔══██╗"@,
        (3, 2) => "███████║"@,
        (3, 3) => "██╔══██║"@,
        (3, 4) => "██║  ██║"@,
        (3, 5) => "╚═╝  ╚═╝"@,
        (4, 0) => "██╗   ██╗"@,
        (4, 1) => "╚██╗ ██╔╝"@,
        (4, 2) => " ╚████╔╝ "@,
        (4, 3) => "  ╚██╔╝  "@,
        (4, 4) => "   ██║   "@,
        (4, 5) => "   ╚═╝   "@,
        _ => Seq::<char>::empty(),
    }
}

/// One row of a banner glyph.
pub fn glyph(letter: usize, row: usize) -> (r: &'static str)
    requires
        letter < 5,
        row < 6,
    ensures
        r@ == glyph_text(letter, row),
{
    match (letter, row) {
        (0, 0) => "██████╗ ",
        (0, 1) => "██╔══██╗",
        (0, 2) => "██████╔╝",
        (0, 3) => "██╔══██╗",
        (0, 4) => "██████╔╝",
        (0, 5) => "╚═════╝ ",
        (1, 0) => "███████╗",
        (1, 1) => "██╔════╝",
        (1, 2) => "█████╗  ",
        (1, 3) => "██╔══╝  ",
        (1, 4) => "███████╗",
        (1, 5) => "╚══════╝",
        (2, 0) => "██╗     ",
        (2, 1) => "██║     ",
        (2, 2) => "██║     ",
        (2, 3) => "██║     ",
        (2, 4) => "███████╗",
        (2, 5) => "╚══════╝",
        (3, 0) => " █████╗ ",
        (3, 1) => "██╔══██╗",
        (3, 2) => "███████║",
        (3, 3) => "██╔══██║",
        (3, 4) => "██║  ██║",
        (3, 5) => "╚═╝  ╚═╝",
        (4, 0) => "██╗   ██╗",
        (4, 1) => "╚██╗ ██╔╝",
        (4, 2) => " ╚████╔╝ ",
        (4, 3) => "  ╚██╔╝  ",
        (4, 4) => "   ██║   ",
        (4, 5) => "   ╚═╝   ",
        _ => "",
    }
}

/// The first `letters` glyphs of banner row `row`, each in its colour.
pub open spec fn banner_row_text(theme: Theme, row: int, letters: int) -> Seq<char>
    decreases letters,
{
    if letters <= 0 {
        Seq::<char>::empty()
    } else {
        banner_row_text(theme, row, letters - 1) + banner_letter_text(
            theme,
            glyph_text((letters - 1) as usize, row as usize),
            palette_color(theme.banner_colors, letters - 1),
        )
    }
}

/// The first `rows` rows of the banner, each ended by a line feed.
pub open spec fn banner_rows_text(theme: Theme, rows: int) -> Seq<char>
    decreases rows,
{
    if rows <= 0 {
        Seq::<char>::empty()
    } else {
        banner_rows_text(theme, rows - 1) + banner_row_text(theme, rows - 1, 5) + seq!['\n']
    }
}

/// The banner: six rows of five coloured letters, and a reset where colour is on.
pub open spec fn banner_text(theme: Theme) -> Seq<char> {
    banner_rows_text(theme, 6) + if theme.enabled {
        SGR_RESET@
    } else {
        Seq::<char>::empty()
    }
}

/// Draws the banner.
pub fn render_banner(theme: Theme) -> (r: String)
    ensures
        r@ == banner_text(theme),
{
    let mut banner = String::new();
    let mut row: usize = 0;
    while row < 6
        invariant
            row <= 6,
            banner@ == banner_rows_text(theme, row as int),
        decreases 6 - row,
    {
        let mut letter: usize = 0;
        let ghost before = banner@;
        while letter < 5
            invariant
                row < 6,
                letter <= 5,
                banner@ == before + banner_row_text(theme, row as int, letter as int),
            decreases 5 - letter,
        {
            let piece = theme.banner_letter(glyph(letter, row), theme.banner_colors.color(letter));
            banner.append(piece.as_str());
            letter = letter + 1;
            assert(banner@ =~= before + banner_row_text(theme, row as int, letter as int));
        }
        push_char(&mut banner, '\n');
        row = row + 1;
        assert(banner@ =~= banner_rows_text(theme, row as int));
    }
    if theme.enabled {
        banner.append(SGR_RESET);
    }
    assert(banner@ =~= banner_text(theme));
    banner
}

/// No banner glyph holds an escape character or a line feed.
proof fn lemma_glyphs_hold_no_escape(letter: usize, row: usize)
    ensures
        !glyph_text(letter, row).contains('\u{1b}'),
        !glyph_text(letter, row).contains('\n'),
{
    reveal_strlit("   ╚═╝   ");
    reveal_strlit("   ██║   ");
    reveal_strlit("  ╚██╔╝  ");
    reveal_strlit(" ╚████╔╝ ");
    reveal_strlit(" █████╗ ");
    reveal_strlit("╚══════╝");
    reveal_strlit("╚═════╝ ");
    reveal_strlit("╚═╝  ╚═╝");
    reveal_strlit("╚██╗ ██╔╝");
    reveal_strlit("██║     ");
    reveal_strlit("██║  ██║");
    reveal_strlit("██╔════╝");
    reveal_strlit("██╔══╝  ");
    reveal_strlit("██╔══██║");
    reveal_strlit("██╔══██╗");
    reveal_strlit("██╗     ");
    reveal_strlit("██╗   ██╗");
    reveal_strlit("█████╗  ");
    reveal_strlit("██████╔╝");
    reveal_strlit("██████╗ ");
    reveal_strlit("███████║");
    reveal_strlit("███████╗");
}

/// The first `letters` glyphs of a row, drawn without colour, hold no escape character.
proof fn lemma_plain_row_holds_no_escape(theme: Theme, row: int, letters: int)
    requires
        !theme.enabled,
    ensures
        !banner_row_text(theme, row, letters).contains('\u{1b}'),
    decreases letters,
{
    if letters > 0 {
        lemma_plain_row_holds_no_escape(theme, row, letters - 1);
        lemma_glyphs_hold_no_escape((letters - 1) as usize, row as usize);
        let a = banner_row_text(theme, row, letters - 1);
        let b = glyph_text((letters - 1) as usize, row as usize);
        assert forall|k: int| 0 <= k < (a + b).len() implies (a + b)[k] != '\u{1b}' by {
            if k < a.len() {
                assert((a + b)[k] == a[k]);
            } else {
                assert((a + b)[k] == b[k - a.len()]);
            }
        }
    }
}

/// The first `rows` rows of a banner drawn without colour hold no escape character.
proof fn lemma_plain_rows_hold_no_escape(theme: Theme, rows: int)
    requires
        !theme.enabled,
    ensures
        !banner_rows_text(theme, rows).contains('\u{1b}'),
    decreases rows,
{
    if rows > 0 {
        lemma_plain_rows_hold_no_escape(theme, rows - 1);
        lemma_plain_row_holds_no_escape(theme, rows - 1, 5);
        let a = banner_rows_text(theme, rows - 1);
        let b = banner_row_text(theme, rows - 1, 5);
        let c = a + b + seq!['\n'];
        assert forall|k: int| 0 <= k < c.len() implies c[k] != '\u{1b}' by {
            if k < a.len() {
                assert(c[k] == a[k]);
            } else if k < a.len() + b.len() {
                assert(c[k] == b[k - a.len()]);
            }
        }
    }
}

/// Without colour, text is shown exactly as it is, and the banner holds no
/// escape sequence.
pub proof fn lemma_uncoloured_output_is_plain(theme: Theme, value: Seq<char>, color: Seq<char>)
    requires
        !theme.enabled,
    ensures
        message_text(theme, value) == value,
        accent_text(theme, value) == value,
        heading_text(theme, value) == value,
        banner_letter_text(theme, value, color) == value,
        !banner_text(theme).contains('\u{1b}'),
{
    lemma_plain_rows_hold_no_escape(theme, 6);
    assert(banner_text(theme) =~= banner_rows_text(theme, 6));
}

/// An SGR escape sequence: ESC, then characters other than `m` and line
/// feed, then `m`.
pub open spec fn is_sgr_code(c: Seq<char>) -> bool {
    &&& c.len() >= 2
    &&& c[0] == '\u{1b}'
    &&& c.last() == 'm'
    &&& forall|k: int| 0 <= k < c.len() - 1 ==> #[trigger] c[k] != 'm'
    &&& forall|k: int| 0 <= k < c.len() ==> #[trigger] c[k] != '\n'
}

/// The text that a terminal shows of `s`: each SGR escape sequence (from ESC
/// through the next `m`) left out. `in_code` tells whether a sequence is open.
pub open spec fn sgr_stripped(s: Seq<char>, in_code: bool) -> Seq<char>
    decreases s.len(),
{
    if s.len() == 0 {
        Seq::<char>::empty()
    } else if in_code {
        sgr_stripped(s.drop_first(), s[0] != 'm')
    } else if s[0] == '\u{1b}' {
        sgr_stripped(s.drop_first(), true)
    } else {
        seq![s[0]] + sgr_stripped(s.drop_first(), false)
    }
}

/// Whether an SGR escape sequence is still open after `s`.
pub open spec fn sgr_open_after(s: Seq<char>, in_code: bool) -> bool
    decreases s.len(),
{
    if s.len() == 0 {
        in_code
    } else if in_code {
        sgr_open_after(s.drop_first(), s[0] != 'm')
    } else {
        sgr_open_after(s.drop_first(), s[0] == '\u{1b}')
    }
}

/// `s` without its SGR escape sequences.
pub open spec fn without_sgr(s: Seq<char>) -> Seq<char> {
    sgr_stripped(s, false)
}

/// The number of line feeds in a text.
pub open spec fn line_feeds(s: Seq<char>) -> nat
    decreases s.len(),
{
    if s.len() == 0 {
        0
    } else {
        (if s[0] == '\n' { 1nat } else { 0nat }) + line_feeds(s.drop_first())
    }
}

/// The theme without colour.
pub open spec fn plain_theme() -> Theme {
    Theme { enabled: false, accent: Tone::Pink, text: Tone::White, banner_colors: BannerPalette::Dark }
}

proof fn lemma_stripped_concat(x: Seq<char>, y: Seq<char>, in_code: bool)
    ensures
        sgr_stripped(x + y, in_code) == sgr_stripped(x, in_code) + sgr_stripped(
            y,
            sgr_open_after(x, in_code),
        ),
        sgr_open_after(x + y, in_code) == sgr_open_after(y, sgr_open_after(x, in_code)),
    decreases x.len(),
{
    if x.len() == 0 {
        assert(x + y =~= y);
    } else {
        assert((x + y).drop_first() =~= x.drop_first() + y);
        assert((x + y)[0] == x[0]);
        let next = if in_code {
            x[0] != 'm'
        } else {
            x[0] == '\u{1b}'
        };
        lemma_stripped_concat(x.drop_first(), y, next);
        if !in_code && x[0] != '\u{1b}' {
            assert(seq![x[0]] + sgr_stripped(x.drop_first(), false) + sgr_stripped(
                y,
                sgr_open_after(x.drop_first(), false),
            ) =~= seq![x[0]] + (sgr_stripped(x.drop_first(), false) + sgr_stripped(
                y,
                sgr_open_after(x.drop_first(), false),
            )));
        }
    }
}

proof fn lemma_line_feeds_concat(x: Seq<char>, y: Seq<char>)
    ensures
        line_feeds(x + y) == line_feeds(x) + line_feeds(y),
    decreases x.len(),
{
    if x.len() == 0 {
        assert(x + y =~= y);
    } else {
        assert((x + y).drop_first() =~= x.drop_first() + y);
        assert((x + y)[0] == x[0]);
        lemma_line_feeds_concat(x.drop_first(), y);
    }
}

/// Text without escape characters shows as itself and opens no sequence.
proof fn lemma_plain_text_shows_itself(t: Seq<char>)
    requires
        !t.contains('\u{1b}'),
    ensures
        sgr_stripped(t, false) == t,
        !sgr_open_after(t, false),
    decreases t.len(),
{
    if t.len() > 0 {
        assert(t[0] != '\u{1b}');
        assert forall|k: int| 0 <= k < t.drop_first().len() implies t.drop_first()[k] != '\u{1b}' by {
            assert(t.drop_first()[k] == t[k + 1]);
        }
        lemma_plain_text_shows_itself(t.drop_first());
        assert(t =~= seq![t[0]] + t.drop_first());
    }
}

/// Text without line feeds counts none.
proof fn lemma_no_line_feeds(t: Seq<char>)
    requires
        !t.contains('\n'),
    ensures
        line_feeds(t) == 0,
    decreases t.len(),
{
    if t.len() > 0 {
        assert(t[0] != '\n');
        assert forall|k: int| 0 <= k < t.drop_first().len() implies t.drop_first()[k] != '\n' by {
            assert(t.drop_first()[k] == t[k + 1]);
        }
        lemma_no_line_feeds(t.drop_first());
    }
}

proof fn lemma_code_tail_vanishes(d: Seq<char>)
    requires
        d.len() >= 1,
        d.last() == 'm',
        forall|k: int| 0 <= k < d.len() - 1 ==> #[trigger] d[k] != 'm',
    ensures
        sgr_stripped(d, true) == Seq::<char>::empty(),
        !sgr_open_after(d, true),
    decreases d.len(),
{
    if d.len() > 1 {
        assert(d[0] != 'm');
        assert forall|k: int| 0 <= k < d.drop_first().len() - 1 implies #[trigger] d.drop_first()[k]
            != 'm' by {
            assert(d.drop_first()[k] == d[k + 1]);
        }
        lemma_code_tail_vanishes(d.drop_first());
        assert(sgr_stripped(d, true) == sgr_stripped(d.drop_first(), true));
        assert(sgr_open_after(d, true) == sgr_open_after(d.drop_first(), true));
    } else {
        assert(d[0] == 'm');
        assert(d.drop_first().len() == 0);
        assert(sgr_stripped(d.drop_first(), false) == Seq::<char>::empty());
        assert(!sgr_open_after(d.drop_first(), false));
        assert(sgr_stripped(d, true) == sgr_stripped(d.drop_first(), false));
        assert(sgr_open_after(d, true) == sgr_open_after(d.drop_first(), false));
    }
}

/// An SGR sequence shows as nothing, closes itself, and holds no line feed.
proof fn lemma_sgr_code_vanishes(c: Seq<char>)
    requires
        is_sgr_code(c),
    ensures
        sgr_stripped(c, false) == Seq::<char>::empty(),
        !sgr_open_after(c, false),
        line_feeds(c) == 0,
{
    let d = c.drop_first();
    assert forall|k: int| 0 <= k < d.len() - 1 implies #[trigger] d[k] != 'm' by {
        assert(d[k] == c[k + 1]);
    }
    lemma_code_tail_vanishes(d);
    assert(!c.contains('\n'));
    lemma_no_line_feeds(c);
}

/// Every escape sequence of the theme is a complete SGR sequence.
proof fn lemma_sgr_codes()
    ensures
        is_sgr_code(SGR_RESET@),
        is_sgr_code(SGR_BOLD@),
        is_sgr_code(SGR_NOT_BOLD@),
        is_sgr_code(SGR_PINK@),
        is_sgr_code(SGR_PLUM@),
        is_sgr_code(SGR_VIOLET@),
        is_sgr_code(SGR_INDIGO@),
        is_sgr_code(SGR_BLUE@),
        is_sgr_code(SGR_DARK_PINK@),
        is_sgr_code(SGR_DARK_PLUM@),
        is_sgr_code(SGR_PURPLE@),
        is_sgr_code(SGR_DARK_INDIGO@),
        is_sgr_code(SGR_DARK_BLUE@),
        is_sgr_code(SGR_WHITE@),
        is_sgr_code(SGR_BLACK@),
{
    reveal_strlit("\x1b[0m");
    assert(SGR_RESET@ =~= seq!['\u{1b}', '[', '0', 'm']);
    reveal_strlit("\x1b[1m");
    assert(SGR_BOLD@ =~= seq!['\u{1b}', '[', '1', 'm']);
    reveal_strlit("\x1b[22m");
    assert(SGR_NOT_BOLD@ =~= seq!['\u{1b}', '[', '2', '2', 'm']);
    reveal_strlit("\x1b[38;2;231;89;154m");
    assert(SGR_PINK@ =~= seq!['\u{1b}', '[', '3', '8', ';', '2', ';', '2', '3', '1', ';', '8', '9', ';', '1', '5', '4', 'm']);
    reveal_strlit("\x1b[38;2;201;80;177m");
    assert(SGR_PLUM@ =~= seq!['\u{1b}', '[', '3', '8', ';', '2', ';', '2', '0', '1', ';', '8', '0', ';', '1', '7', '7', 'm']);
    reveal_strlit("\x1b[38;2;153;102;231m");
    assert(SGR_VIOLET@ =~= seq!['\u{1b}', '[', '3', '8', ';', '2', ';', '1', '5', '3', ';', '1', '0', '2', ';', '2', '3', '1', 'm']);
    reveal_strlit("\x1b[38;2;101;112;217m");
    assert(SGR_INDIGO@ =~= seq!['\u{1b}', '[', '3', '8', ';', '2', ';', '1', '0', '1', ';', '1', '1', '2', ';', '2', '1', '7', 'm']);
    reveal_strlit("\x1b[38;2;69;147;230m");
    assert(SGR_BLUE@ =~= seq!['\u{1b}', '[', '3', '8', ';', '2', ';', '6', '9', ';', '1', '4', '7', ';', '2', '3', '0', 'm']);
    reveal_strlit("\x1b[38;2;176;30;101m");
    assert(SGR_DARK_PINK@ =~= seq!['\u{1b}', '[', '3', '8', ';', '2', ';', '1', '7', '6', ';', '3', '0', ';', '1', '0', '1', 'm']);
    reveal_strlit("\x1b[38;2;142;37;124m");
    assert(SGR_DARK_PLUM@ =~= seq!['\u{1b}', '[', '3', '8', ';', '2', ';', '1', '4', '2', ';', '3', '7', ';', '1', '2', '4', 'm']);
    reveal_strlit("\x1b[38;2;112;67;174m");
    assert(SGR_PURPLE@ =~= seq!['\u{1b}', '[', '3', '8', ';', '2', ';', '1', '1', '2', ';', '6', '7', ';', '1', '7', '4', 'm']);
    reveal_strlit("\x1b[38;2;62;69;148m");
    assert(SGR_DARK_INDIGO@ =~= seq!['\u{1b}', '[', '3', '8', ';', '2', ';', '6', '2', ';', '6', '9', ';', '1', '4', '8', 'm']);
    reveal_strlit("\x1b[38;2;30;86;163m");
    assert(SGR_DARK_BLUE@ =~= seq!['\u{1b}', '[', '3', '8', ';', '2', ';', '3', '0', ';', '8', '6', ';', '1', '6', '3', 'm']);
    reveal_strlit("\x1b[38;2;255;255;255m");
    assert(SGR_WHITE@ =~= seq!['\u{1b}', '[', '3', '8', ';', '2', ';', '2', '5', '5', ';', '2', '5', '5', ';', '2', '5', '5', 'm']);
    reveal_strlit("\x1b[38;2;0;0;0m");
    assert(SGR_BLACK@ =~= seq!['\u{1b}', '[', '3', '8', ';', '2', ';', '0', ';', '0', ';', '0', 'm']);
}

/// The escape sequences of every tone and banner colour are SGR sequences.
proof fn lemma_theme_codes(theme: Theme, index: int)
    ensures
        is_sgr_code(tone_code(theme.text)),
        is_sgr_code(palette_color(theme.banner_colors, index)),
        is_sgr_code(SGR_RESET@),
{
    lemma_sgr_codes();
}

/// One styled banner letter shows as the glyph, opens no sequence, and holds
/// no line feed.
proof fn lemma_banner_letter_shows_glyph(theme: Theme, row: int, letter: int)
    ensures
        sgr_stripped(
            banner_letter_text(
                theme,
                glyph_text(letter as usize, row as usize),
                palette_color(theme.banner_colors, letter),
            ),
            false,
        ) == glyph_text(letter as usize, row as usize),
        !sgr_open_after(
            banner_letter_text(
                theme,
                glyph_text(letter as usize, row as usize),
                palette_color(theme.banner_colors, letter),
            ),
            false,
        ),
        line_feeds(
            banner_letter_text(
                theme,
                glyph_text(letter as usize, row as usize),
                palette_color(theme.banner_colors, letter),
            ),
        ) == 0,
{
    let g = glyph_text(letter as usize, row as usize);
    let c = palette_color(theme.banner_colors, letter);
    lemma_glyphs_hold_no_escape(letter as usize, row as usize);
    lemma_plain_text_shows_itself(g);
    lemma_no_line_feeds(g);
    if theme.enabled {
        let t = tone_code(theme.text);
        lemma_theme_codes(theme, letter);
        lemma_sgr_code_vanishes(c);
        lemma_sgr_code_vanishes(t);
        lemma_stripped_concat(c, g, false);
        lemma_stripped_concat(c + g, t, false);
        lemma_line_feeds_concat(c, g);
        lemma_line_feeds_concat(c + g, t);
        assert(Seq::<char>::empty() + g =~= g);
        assert(g + Seq::<char>::empty() =~= g);
    }
}

proof fn lemma_banner_row_shows_plain(theme: Theme, row: int, letters: int)
    ensures
        sgr_stripped(banner_row_text(theme, row, letters), false) == banner_row_text(
            plain_theme(),
            row,
            letters,
        ),
        !sgr_open_after(banner_row_text(theme, row, letters), false),
        line_feeds(banner_row_text(theme, row, letters)) == 0,
    decreases letters,
{
    if letters > 0 {
        lemma_banner_row_shows_plain(theme, row, letters - 1);
        lemma_banner_letter_shows_glyph(theme, row, letters - 1);
        let a = banner_row_text(theme, row, letters - 1);
        let l = banner_letter_text(
            theme,
            glyph_text((letters - 1) as usize, row as usize),
            palette_color(theme.banner_colors, letters - 1),
        );
        lemma_stripped_concat(a, l, false);
        lemma_line_feeds_concat(a, l);
    } else {
        assert(line_feeds(Seq::<char>::empty()) == 0);
    }
}

proof fn lemma_banner_rows_show_plain(theme: Theme, rows: int)
    ensures
        sgr_stripped(banner_rows_text(theme, rows), false) == banner_rows_text(plain_theme(), rows),
        !sgr_open_after(banner_rows_text(theme, rows), false),
        line_feeds(banner_rows_text(theme, rows)) == if rows > 0 {
            rows as nat
        } else {
            0nat
        },
    decreases rows,
{
    if rows > 0 {
        lemma_banner_rows_show_plain(theme, rows - 1);
        lemma_banner_row_shows_plain(theme, rows - 1, 5);
        let a = banner_rows_text(theme, rows - 1);
        let r = banner_row_text(theme, rows - 1, 5);
        let nl = seq!['\n'];
        lemma_plain_text_shows_itself(nl);
        assert(nl.drop_first().len() == 0);
        assert(line_feeds(nl.drop_first()) == 0);
        assert(line_feeds(nl) == 1);
        lemma_stripped_concat(a, r, false);
        lemma_stripped_concat(a + r, nl, false);
        lemma_line_feeds_concat(a, r);
        lemma_line_feeds_concat(a + r, nl);
    } else {
        assert(line_feeds(Seq::<char>::empty()) == 0);
    }
}

/// The banner is six lines, and, with its SGR escape sequences left out, it
/// is the same text in every theme: the uncoloured banner.
pub proof fn lemma_banner_is_six_plain_lines(theme: Theme)
    ensures
        line_feeds(banner_text(theme)) == 6,
        without_sgr(banner_text(theme)) == banner_text(plain_theme()),
{
    lemma_banner_rows_show_plain(theme, 6);
    let rows = banner_rows_text(theme, 6);
    if theme.enabled {
        lemma_sgr_codes();
        lemma_sgr_code_vanishes(SGR_RESET@);
        lemma_stripped_concat(rows, SGR_RESET@, false);
        lemma_line_feeds_concat(rows, SGR_RESET@);
    }
    assert(banner_text(plain_theme()) =~= banner_rows_text(plain_theme(), 6));
    if !theme.enabled {
        assert(banner_text(theme) =~= rows);
    }
}

} // verus!
