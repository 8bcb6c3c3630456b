//! Colour themes as plain data: each part of the output has a style, which
//! the terminal layer turns into escape sequences.

use vstd::prelude::*;

verus! {

/// A terminal foreground colour.
#[derive(Debug, Clone, Copy, PartialEq, Eq, Structural)]
pub enum Color {
    Black,
    Red,
    Green,
    Yellow,
    Blue,
    Magenta,
    Cyan,
    White,
    BrightBlack,
    BrightYellow,
    BrightBlue,
    BrightMagenta,
    BrightCyan,
    BrightWhite,
}

/// The colour's name as terminal colour libraries spell it.
pub open spec fn color_name(c: Color) -> Seq<char> {
    match c {
        Color::Black => "black"@,
        Color::Red => "red"@,
        Color::Green => "green"@,
        Color::Yellow => "yellow"@,
        Color::Blue => "blue"@,
        Color::Magenta => "magenta"@,
        Color::Cyan => "cyan"@,
        Color::White => "white"@,
        Color::BrightBlack => "bright black"@,
        Color::BrightYellow => "bright yellow"@,
        Color::BrightBlue => "bright blue"@,
        Color::BrightMagenta => "bright magenta"@,
        Color::BrightCyan => "bright cyan"@,
        Color::BrightWhite => "bright white"@,
    }
}

impl Color {
    /// The colour's name as terminal colour libraries spell it.
    pub fn name(&self) -> (r: &'static str)
        ensures
            r@ == color_name(*self),
    {
        match self {
            Color::Black => "black",
            Color::Red => "red",
            Color::Green => "green",
            Color::Yellow => "yellow",
            Color::Blue => "blue",
            Color::Magenta => "magenta",
            Color::Cyan => "cyan",
            Color::White => "white",
            Color::BrightBlack => "bright black",
            Color::BrightYellow => "bright yellow",
            Color::BrightBlue => "bright blue",
            Color::BrightMagenta => "bright magenta",
            Color::BrightCyan => "bright cyan",
            Color::BrightWhite => "bright white",
        }
    }
}

/// A text style: an optional colour and four attributes. The style with no
/// colour and no attribute is plain text.
#[derive(Debug, Clone, Copy, PartialEq, Eq, Structural)]
pub struct Style {
    pub color: Option<Color>,
    pub bold: bool,
    pub italic: bool,
    pub underline: bool,
    pub dimmed: bool,
}

/// A style of the given colour and attributes.
pub open spec fn style_of(color: Option<Color>, bold: bool, italic: bool, underline: bool, dimmed: bool) -> Style {
    Style { color, bold, italic, underline, dimmed }
}

impl Style {
    pub fn new(color: Option<Color>, bold: bool, italic: bool, underline: bool, dimmed: bool) -> (r: Self)
        ensures
            r == style_of(color, bold, italic, underline, dimmed),
    {
        Style { color, bold, italic, underline, dimmed }
    }
}

/// The style of each part of the output.
#[derive(Debug, Clone, Copy, PartialEq, Eq, Structural)]
pub struct Theme {
    pub title: Style,
    pub pron: Style,
    pub line: Style,
    pub property: Style,
    pub idx: Style,
    pub addi: Style,
    pub para: Style,
    pub collins_para: Style,
    pub eg: Style,
    pub eg_pref: Style,
    pub rank: Style,
}

/// The default theme.
pub open spec fn temp_theme() -> Theme {
    Theme {
        title: style_of(Some(Color::BrightMagenta), true, true, true, false),
        pron: style_of(None, false, false, false, false),
        line: style_of(Some(Color::BrightBlack), false, false, false, true),
        property: style_of(Some(Color::Green), false, false, false, false),
        idx: style_of(Some(Color::BrightWhite), false, false, false, false),
        addi: style_of(Some(Color::Cyan), false, true, false, false),
        para: style_of(Some(Color::White), false, false, false, false),
        collins_para: style_of(Some(Color::Yellow), false, false, false, false),
        eg: style_of(Some(Color::BrightWhite), false, true, false, true),
        eg_pref: style_of(Some(Color::BrightWhite), false, true, false, true),
        rank: style_of(Some(Color::BrightWhite), false, true, false, true),
    }
}

/// The theme named after wudao-dict.
pub open spec fn wudao_theme() -> Theme {
    Theme {
        title: style_of(Some(Color::Red), true, true, true, false),
        pron: style_of(Some(Color::Cyan), false, false, false, false),
        line: style_of(Some(Color::BrightBlack), false, false, false, true),
        property: style_of(None, false, false, false, false),
        idx: style_of(Some(Color::BrightWhite), false, false, false, false),
        addi: style_of(Some(Color::Green), false, true, false, false),
        para: style_of(Some(Color::White), false, false, false, false),
        collins_para: style_of(Some(Color::BrightWhite), false, false, false, false),
        eg: style_of(Some(Color::BrightYellow), false, true, false, true),
        eg_pref: style_of(Some(Color::Green), false, true, false, false),
        rank: style_of(Some(Color::Red), false, true, false, false),
    }
}

/// The theme for light backgrounds.
pub open spec fn canvas_theme() -> Theme {
    Theme {
        title: style_of(Some(Color::Blue), true, false, true, false),
        pron: style_of(Some(Color::Magenta), false, false, false, false),
        line: style_of(Some(Color::BrightBlack), false, false, false, true),
        property: style_of(Some(Color::BrightCyan), true, false, false, false),
        idx: style_of(Some(Color::Cyan), false, false, false, false),
        addi: style_of(Some(Color::Green), false, true, false, false),
        para: style_of(Some(Color::Black), false, false, false, false),
        collins_para: style_of(Some(Color::Black), false, false, false, false),
        eg: style_of(Some(Color::BrightBlack), false, true, false, false),
        eg_pref: style_of(Some(Color::BrightBlue), false, false, false, false),
        rank: style_of(Some(Color::Red), true, false, false, false),
    }
}

/// Whether `name` names a theme; the empty name stands for the default.
pub open spec fn known_theme(name: Seq<char>) -> bool {
    name == "temp"@ || name.len() == 0 || name == "wudao"@ || name == "canvas"@
}

/// The theme of a name; an unknown name falls back to the default.
pub open spec fn theme_named(name: Seq<char>) -> Theme {
    if name == "wudao"@ {
        wudao_theme()
    } else if name == "canvas"@ {
        canvas_theme()
    } else {
        temp_theme()
    }
}

impl Theme {
    /// The theme of a name; an unknown name falls back to the default.
    pub fn from_name(name: &str) -> (r: Self)
        ensures
            r == theme_named(name@),
    {
        let n = name.to_owned();
        if n == "wudao".to_owned() {
            Theme::wudao()
        } else if n == "canvas".to_owned() {
            Theme::canvas()
        } else {
            Theme::temp()
        }
    }

    /// Whether `name` names a theme.
    pub fn is_known(name: &str) -> (r: bool)
        ensures
            r == known_theme(name@),
    {
        let n = name.to_owned();
        n == "temp".to_owned() || name.unicode_len() == 0 || n == "wudao".to_owned() || n == "canvas".to_owned()
    }

    pub fn temp() -> (r: Self)
        ensures
            r == temp_theme(),
    {
        Theme {
            title: Style::new(Some(Color::BrightMagenta), true, true, true, false),
            pron: Style::new(None, false, false, false, false),
            line: Style::new(Some(Color::BrightBlack), false, false, false, true),
            property: Style::new(Some(Color::Green), false, false, false, false),
            idx: Style::new(Some(Color::BrightWhite), false, false, false, false),
            addi: Style::new(Some(Color::Cyan), false, true, false, false),
            para: Style::new(Some(Color::White), false, false, false, false),
            collins_para: Style::new(Some(Color::Yellow), false, false, false, false),
            eg: Style::new(Some(Color::BrightWhite), false, true, false, true),
            eg_pref: Style::new(Some(Color::BrightWhite), false, true, false, true),
            rank: Style::new(Some(Color::BrightWhite), false, true, false, true),
        }
    }

    pub fn wudao() -> (r: Self)
        ensures
            r == wudao_theme(),
    {
        Theme {
            title: Style::new(Some(Color::Red), true, true, true, false),
            pron: Style::new(Some(Color::Cyan), false, false, false, false),
            line: Style::new(Some(Color::BrightBlack), false, false, false, true),
            property: Style::new(None, false, false, false, false),
            idx: Style::new(Some(Color::BrightWhite), false, false, false, false),
            addi: Style::new(Some(Color::Green), false, true, false, false),
            para: Style::new(Some(Color::White), false, false, false, false),
            collins_para: Style::new(Some(Color::BrightWhite), false, false, false, false),
            eg: Style::new(Some(Color::BrightYellow), false, true, false, true),
            eg_pref: Style::new(Some(Color::Green), false, true, false, false),
            rank: Style::new(Some(Color::Red), false, true, false, false),
        }
    }

    pub fn canvas() -> (r: Self)
        ensures
            r == canvas_theme(),
    {
        Theme {
            title: Style::new(Some(Color::Blue), true, false, true, false),
            pron: Style::new(Some(Color::Magenta), false, false, false, false),
            line: Style::new(Some(Color::BrightBlack), false, false, false, true),
            property: Style::new(Some(Color::BrightCyan), true, false, false, false),
            idx: Style::new(Some(Color::Cyan), false, false, false, false),
            addi: Style::new(Some(Color::Green), false, true, false, false),
            para: Style::new(Some(Color::Black), false, false, false, false),
            collins_para: Style::new(Some(Color::Black), false, false, false, false),
            eg: Style::new(Some(Color::BrightBlack), false, true, false, false),
            eg_pref: Style::new(Some(Color::BrightBlue), false, false, false, false),
            rank: Style::new(Some(Color::Red), true, false, false, false),
        }
    }
}

} // verus!
