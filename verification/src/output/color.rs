//! ANSI escape sequences for colour and style.

use vstd::prelude::*;
use vstd::string::StringExecFns;
use crate::decimal::{decimal_of, push_decimal};
use crate::text::from_chars;
use crate::tokens::opt_str_view;

verus! {

/// A foreground colour: one of the sixteen named ones, or red, green and
/// blue parts.
#[derive(Debug, Clone, Copy, PartialEq, Eq, Structural)]
pub enum Color {
    Black,
    Red,
    Green,
    Yellow,
    Blue,
    Magenta,
    Cyan,
    White,
    BrightBlack,
    BrightRed,
    BrightGreen,
    BrightYellow,
    BrightBlue,
    BrightMagenta,
    BrightCyan,
    BrightWhite,
    Rgb(u8, u8, u8),
}

impl Color {
    /// The escape sequence that sets a named colour; empty for parts.
    pub open spec fn fg_code_of(self) -> Seq<char> {
        match self {
            Color::Black => "\x1b[30m"@,
            Color::Red => "\x1b[31m"@,
            Color::Green => "\x1b[32m"@,
            Color::Yellow => "\x1b[33m"@,
            Color::Blue => "\x1b[34m"@,
            Color::Magenta => "\x1b[35m"@,
            Color::Cyan => "\x1b[36m"@,
            Color::White => "\x1b[37m"@,
            Color::BrightBlack => "\x1b[90m"@,
            Color::BrightRed => "\x1b[91m"@,
            Color::BrightGreen => "\x1b[92m"@,
            Color::BrightYellow => "\x1b[93m"@,
            Color::BrightBlue => "\x1b[94m"@,
            Color::BrightMagenta => "\x1b[95m"@,
            Color::BrightCyan => "\x1b[96m"@,
            Color::BrightWhite => "\x1b[97m"@,
            Color::Rgb(_, _, _) => ""@,
        }
    }

    /// The escape sequence that sets a colour given by its parts: the parts
    /// in decimal, with semicolons between them.
    pub open spec fn rgb_code_of(r: u8, g: u8, b: u8) -> Seq<char> {
        "\x1b[38;2;"@ + decimal_of(r as nat) + ";"@ + decimal_of(g as nat) + ";"@ + decimal_of(
            b as nat,
        ) + "m"@
    }

    /// The escape sequence that sets the colour, whichever kind it is.
    pub open spec fn code_of(self) -> Seq<char> {
        match self {
            Color::Rgb(r, g, b) => Color::rgb_code_of(r, g, b),
            _ => self.fg_code_of(),
        }
    }

    /// The escape sequence that sets a named colour as the foreground; the
    /// empty text for a colour given by its parts.
    pub fn fg_code(self) -> (code: &'static str)
        ensures
            code@ == self.fg_code_of(),
    {
        match self {
            Color::Black => "\x1b[30m",
            Color::Red => "\x1b[31m",
            Color::Green => "\x1b[32m",
            Color::Yellow => "\x1b[33m",
            Color::Blue => "\x1b[34m",
            Color::Magenta => "\x1b[35m",
            Color::Cyan => "\x1b[36m",
            Color::White => "\x1b[37m",
            Color::BrightBlack => "\x1b[90m",
            Color::BrightRed => "\x1b[91m",
            Color::BrightGreen => "\x1b[92m",
            Color::BrightYellow => "\x1b[93m",
            Color::BrightBlue => "\x1b[94m",
            Color::BrightMagenta => "\x1b[95m",
            Color::BrightCyan => "\x1b[96m",
            Color::BrightWhite => "\x1b[97m",
            Color::Rgb(_, _, _) => "",
        }
    }

    /// The escape sequence that sets a colour given by its parts as the
    /// foreground; `None` for a named colour.
    pub fn fg_rgb_code(&self) -> (code: Option<String>)
        ensures
            opt_str_view(code) == (match *self {
                Color::Rgb(r, g, b) => Some(Color::rgb_code_of(r, g, b)),
                _ => None,
            }),
    {
        match self {
            Color::Rgb(r, g, b) => {
                let mut digits: Vec<char> = Vec::new();
                let mut code = "\x1b[38;2;".to_owned();
                push_decimal(*r as u64, &mut digits);
                code.append(from_chars(&digits).as_str());
                code.append(";");
                let mut digits: Vec<char> = Vec::new();
                push_decimal(*g as u64, &mut digits);
                code.append(from_chars(&digits).as_str());
                code.append(";");
                let mut digits: Vec<char> = Vec::new();
                push_decimal(*b as u64, &mut digits);
                code.append(from_chars(&digits).as_str());
                code.append("m");
                proof {
                    assert(Seq::<char>::empty() + decimal_of(*r as nat) =~= decimal_of(*r as nat));
                    assert(Seq::<char>::empty() + decimal_of(*g as nat) =~= decimal_of(*g as nat));
                    assert(Seq::<char>::empty() + decimal_of(*b as nat) =~= decimal_of(*b as nat));
                }
                Some(code)
            },
            _ => None,
        }
    }
}

/// A style of text, or the reset of all styles and colours.
#[derive(Debug, Clone, Copy, PartialEq, Eq, Structural)]
pub enum Style {
    Bold,
    Dim,
    Italic,
    Underline,
    Reset,
}

impl Style {
    /// The escape sequence of the style.
    pub open spec fn code_of(self) -> Seq<char> {
        match self {
            Style::Bold => "\x1b[1m"@,
            Style::Dim => "\x1b[2m"@,
            Style::Italic => "\x1b[3m"@,
            Style::Underline => "\x1b[4m"@,
            Style::Reset => "\x1b[0m"@,
        }
    }

    /// The escape sequence of the style.
    pub fn code(self) -> (code: &'static str)
        ensures
            code@ == self.code_of(),
    {
        match self {
            Style::Bold => "\x1b[1m",
            Style::Dim => "\x1b[2m",
            Style::Italic => "\x1b[3m",
            Style::Underline => "\x1b[4m",
            Style::Reset => "\x1b[0m",
        }
    }
}

/// A text with an optional colour and an optional style.
#[derive(Debug, Clone)]
pub struct StyledString {
    text: String,
    fg_color: Option<Color>,
    style: Option<Style>,
}

/// The mathematical value of a [`StyledString`].
pub struct StyledStringView {
    pub text: Seq<char>,
    pub fg_color: Option<Color>,
    pub style: Option<Style>,
}

/// `text` as it is written to a terminal: the style's sequence if there is
/// a style, the colour's if there is a colour, the text, and the reset
/// sequence if there was either.
pub open spec fn styled_text(s: StyledStringView) -> Seq<char> {
    let style = match s.style {
        Some(style) => style.code_of(),
        None => Seq::empty(),
    };
    let color = match s.fg_color {
        Some(color) => color.code_of(),
        None => Seq::empty(),
    };
    let reset = if s.fg_color is Some || s.style is Some {
        Style::Reset.code_of()
    } else {
        Seq::empty()
    };
    style + color + s.text + reset
}

impl View for StyledString {
    type V = StyledStringView;

    closed spec fn view(&self) -> StyledStringView {
        StyledStringView { text: self.text@, fg_color: self.fg_color, style: self.style }
    }
}

impl StyledString {
    /// The text without colour or style.
    pub fn new(text: &str) -> (s: StyledString)
        ensures
            s@ == (StyledStringView { text: text@, fg_color: None, style: None }),
    {
        StyledString { text: text.to_owned(), fg_color: None, style: None }
    }

    /// The same text and style in the colour `color`.
    pub fn fg(self, color: Color) -> (s: StyledString)
        ensures
            s@ == (StyledStringView { fg_color: Some(color), ..self@ }),
    {
        StyledString { text: self.text, fg_color: Some(color), style: self.style }
    }

    /// The same text and colour in the style `style`.
    pub fn style(self, style: Style) -> (s: StyledString)
        ensures
            s@ == (StyledStringView { style: Some(style), ..self@ }),
    {
        StyledString { text: self.text, fg_color: self.fg_color, style: Some(style) }
    }

    /// The text with its escape sequences, as [`styled_text`] has it.
    pub fn format(&self) -> (out: String)
        ensures
            out@ == styled_text(self@),
    {
        let mut result = String::new();
        match self.style {
            Some(style) => {
                result.append(style.code());
            },
            None => {},
        }
        match self.fg_color {
            Some(color) => match color.fg_rgb_code() {
                Some(code) => {
                    result.append(code.as_str());
                },
                None => {
                    result.append(color.fg_code());
                },
            },
            None => {},
        }
        result.append(self.text.as_str());
        if self.fg_color.is_some() || self.style.is_some() {
            result.append(Style::Reset.code());
        }
        proof {
            assert(result@ =~= styled_text(self@));
        }
        result
    }

    /// The text with its escape sequences.
    pub fn to_string(&self) -> (out: String)
        ensures
            out@ == styled_text(self@),
    {
        self.format()
    }
}

/// `text` in bold and in the colour `color`.
pub fn bold(text: &str, color: Color) -> (s: StyledString)
    ensures
        s@ == (StyledStringView { text: text@, fg_color: Some(color), style: Some(Style::Bold) }),
{
    StyledString::new(text).fg(color).style(Style::Bold)
}

/// `text` dimmed and in the colour `color`.
pub fn dim(text: &str, color: Color) -> (s: StyledString)
    ensures
        s@ == (StyledStringView { text: text@, fg_color: Some(color), style: Some(Style::Dim) }),
{
    StyledString::new(text).fg(color).style(Style::Dim)
}

/// `text` in the colour `color`.
pub fn colored(text: &str, color: Color) -> (s: StyledString)
    ensures
        s@ == (StyledStringView { text: text@, fg_color: Some(color), style: None }),
{
    StyledString::new(text).fg(color)
}

} // verus!
