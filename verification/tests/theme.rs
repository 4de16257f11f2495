use belay::background::parse_background_response;
use belay::shell::{Shell, shell_function};
use belay::theme::{
    Background, Theme, render_banner, SGR_BLACK, SGR_BLUE, SGR_BOLD, SGR_DARK_BLUE,
    SGR_DARK_INDIGO, SGR_DARK_PINK, SGR_DARK_PLUM, SGR_INDIGO, SGR_NOT_BOLD, SGR_PINK, SGR_PLUM,
    SGR_PURPLE, SGR_RESET, SGR_VIOLET, SGR_WHITE,
};

#[test]
fn dark_background_uses_pink_accent_and_white_text() {
    let theme = Theme::for_background(Background::Dark);
    let banner = render_banner(theme);
    let message = theme.message(&format!("{} version", theme.accent("belay")));

    assert_eq!(theme.accent("belay"), format!("{SGR_PINK}belay{SGR_WHITE}"));
    assert_eq!(
        message,
        format!("{SGR_WHITE}{SGR_PINK}belay{SGR_WHITE} version{SGR_RESET}")
    );
    assert_eq!(
        theme.heading("Usage"),
        format!("{SGR_BOLD}{SGR_PINK}Usage{SGR_NOT_BOLD}{SGR_WHITE}")
    );
    assert!(banner.contains(SGR_PINK));
    assert!(banner.contains(SGR_PLUM));
    assert!(banner.contains(SGR_VIOLET));
    assert!(banner.contains(SGR_INDIGO));
    assert!(banner.contains(SGR_BLUE));
}

#[test]
fn light_background_uses_purple_accent_and_black_text() {
    let theme = Theme::for_background(Background::Light);
    let banner = render_banner(theme);

    assert_eq!(
        theme.accent("belay"),
        format!("{SGR_PURPLE}belay{SGR_BLACK}")
    );
    assert_eq!(theme.message("body"), format!("{SGR_BLACK}body{SGR_RESET}"));
    assert!(banner.contains(SGR_DARK_PINK));
    assert!(banner.contains(SGR_DARK_PLUM));
    assert!(banner.contains(SGR_PURPLE));
    assert!(banner.contains(SGR_DARK_INDIGO));
    assert!(banner.contains(SGR_DARK_BLUE));
}

#[test]
fn parses_terminal_reported_background_brightness() {
    assert_eq!(
        parse_background_response(b"\x1b]11;rgb:1919/1b1b/2424\x1b\\"),
        Some(Background::Dark)
    );
    assert_eq!(
        parse_background_response(b"\x1b]11;rgb:ffff/fafa/f5f5\x07"),
        Some(Background::Light)
    );
    assert_eq!(
        parse_background_response(b"\x1b]11;rgb:f5/f5/f5\x1b\\"),
        Some(Background::Light)
    );
}

#[test]
fn disabled_theme_banner_and_shell_functions_stay_plain() {
    let theme = Theme::plain();
    let banner = render_banner(theme);

    assert_eq!(theme.message("/tmp/project"), "/tmp/project");
    assert_eq!(theme.heading("Usage"), "Usage");
    assert!(banner.starts_with("██████╗ ███████╗██╗"));
    assert!(!banner.contains('\u{1b}'));
    assert!(!shell_function(Shell::Zsh).contains('\u{1b}'));
}

use belay::background::{
    background_override, classify_background, parse_color_component,
    reported_terminal_background, BackgroundQuery,
};
use belay::theme::{Rgb, Tone};

#[test]
fn color_components_scale_to_a_byte() {
    assert_eq!(parse_color_component(b"f5"), Some(245));
    assert_eq!(parse_color_component(b"f"), Some(255));
    assert_eq!(parse_color_component(b"8"), Some(136));
    assert_eq!(parse_color_component(b"1919"), Some(25));
    assert_eq!(parse_color_component(b"FFFF"), Some(255));
    assert_eq!(parse_color_component(b"+fff"), Some(16));
    assert_eq!(parse_color_component(b"+"), None);
    assert_eq!(parse_color_component(b""), None);
    assert_eq!(parse_color_component(b"fffff"), None);
    assert_eq!(parse_color_component(b"g0"), None);
}

#[test]
fn malformed_answers_report_nothing() {
    assert_eq!(parse_background_response(b""), None);
    assert_eq!(parse_background_response(b"\x1b]11;rgba:ff/ff/ff\x07"), None);
    assert_eq!(parse_background_response(b"rgb:ff/ff\x07"), None);
    assert_eq!(parse_background_response(b"rgb:ff/ff/ff/ff\x07"), None);
    assert_eq!(parse_background_response(b"\xffrgb:ff/ff/ff\x07"), None);
    assert_eq!(parse_background_response(b"rgb:00/00/00"), Some(Background::Dark));
    assert_eq!(parse_background_response(b"rgb:ff/ff/ff\x07rgb:00/00/00"), Some(Background::Light));
}

#[test]
fn brightness_threshold_decides_light() {
    let grey = |v: u8| Rgb { red: v, green: v, blue: v };
    assert_eq!(classify_background(grey(149)), Background::Dark);
    assert_eq!(classify_background(grey(150)), Background::Light);
    assert_eq!(classify_background(Rgb { red: 255, green: 0, blue: 0 }), Background::Dark);
    assert_eq!(classify_background(Rgb { red: 0, green: 255, blue: 10 }), Background::Light);
}

#[test]
fn background_override_and_fallback() {
    assert_eq!(background_override(Some("LIGHT")), Some(Background::Light));
    assert_eq!(background_override(Some("dark")), Some(Background::Dark));
    assert_eq!(background_override(Some("dim")), None);
    assert_eq!(background_override(None), None);
    assert_eq!(
        reported_terminal_background(Some(Background::Light), Some(Background::Dark)),
        Background::Light
    );
    assert_eq!(reported_terminal_background(None, Some(Background::Light)), Background::Light);
    assert_eq!(reported_terminal_background(None, None), Background::Dark);
}

#[test]
fn query_reads_until_the_answer_ends() {
    let mut q = BackgroundQuery::new();
    assert!(q.wants_read());
    q.receive(b"\x1b]11;rgb:ffff/");
    assert!(q.wants_read());
    q.receive(b"ffff/ffff\x1b\\");
    assert!(!q.wants_read());
    assert_eq!(q.background(), Some(Background::Light));

    let mut q = BackgroundQuery::new();
    q.receive(b"a");
    q.receive(b"b");
    q.receive(b"c");
    assert!(!q.wants_read());
    assert_eq!(q.reads, 3);

    let mut q = BackgroundQuery::new();
    q.receive(b"");
    assert!(!q.wants_read());
    assert_eq!(q.background(), None);
}

#[test]
fn tones_and_banner_letters() {
    assert_eq!(Tone::Black.sgr(), SGR_BLACK);
    let theme = Theme::for_background(Background::Dark);
    assert_eq!(theme.banner_letter("B", SGR_PLUM), format!("{SGR_PLUM}B{SGR_WHITE}"));
    assert_eq!(Theme::plain().banner_letter("B", SGR_PLUM), "B");
    assert_eq!(Theme::plain().accent("x"), "x");
    let plain = render_banner(Theme::plain());
    assert_eq!(plain.lines().count(), 6);
    assert!(plain.ends_with("╚═╝   \n"));
    let dark = render_banner(theme);
    assert!(dark.ends_with(SGR_RESET));
    assert!(dark.starts_with(&format!("{SGR_PINK}██████╗ {SGR_WHITE}{SGR_PLUM}")));
}

use belay::theme::colour_enabled;

#[test]
fn colour_needs_a_terminal_and_no_no_color() {
    assert!(colour_enabled(true, false));
    assert!(!colour_enabled(true, true));
    assert!(!colour_enabled(false, false));
    assert!(!colour_enabled(false, true));
}

fn strip_sgr(s: &str) -> String {
    let mut out = String::new();
    let mut in_code = false;
    for c in s.chars() {
        if in_code {
            in_code = c != 'm';
        } else if c == '\u{1b}' {
            in_code = true;
        } else {
            out.push(c);
        }
    }
    out
}

#[test]
fn banner_is_six_lines_of_the_same_text_in_every_theme() {
    let plain = render_banner(Theme::plain());
    for theme in [
        Theme::plain(),
        Theme::for_background(Background::Dark),
        Theme::for_background(Background::Light),
    ] {
        let banner = render_banner(theme);
        assert_eq!(banner.matches('\n').count(), 6);
        assert_eq!(strip_sgr(&banner), plain);
    }
}
