//! Interface colors.

use vstd::prelude::*;
use vstd::std_specs::convert::FromSpecImpl;

verus! {

/// A color a terminal can write in.
#[derive(Clone, Copy, Debug, PartialEq, Eq, Structural)]
pub enum AnsiColor {
    /// Black.
    Black,
    /// Red.
    Red,
    /// Green.
    Green,
    /// Yellow.
    Yellow,
    /// Blue.
    Blue,
    /// Magenta.
    Magenta,
    /// Cyan.
    Cyan,
    /// White.
    White,
    /// Bright red.
    BrightRed,
    /// Bright yellow.
    BrightYellow,
    /// Bright white.
    BrightWhite,
    /// A color given by how much red, green and blue it has.
    Rgb {
        /// How much red.
        red: u8,
        /// How much green.
        green: u8,
        /// How much blue.
        blue: u8,
    },
}

/// The dark gray for grayed out text.
pub open spec fn dark_gray() -> AnsiColor {
    AnsiColor::Rgb { red: 96, green: 96, blue: 96 }
}

/// The light gray for grayed out text.
pub open spec fn light_gray() -> AnsiColor {
    AnsiColor::Rgb { red: 159, green: 159, blue: 159 }
}

/// The medium gray for a background.
pub open spec fn medium_background() -> AnsiColor {
    AnsiColor::Rgb { red: 168, green: 168, blue: 168 }
}

/// What a piece of code is, as far as coloring it goes.
#[derive(Clone, Copy, Debug, PartialEq, Eq, Structural)]
pub enum Kind {
    /// A word which is part of the language.
    Keyword,
    /// A string.
    String,
    /// A number.
    Number,
    /// A constant.
    Constant,
    /// A comment.
    Comment,
    /// The name of a function.
    Function,
    /// The name of a type.
    Type,
    /// An attribute.
    Attribute,
    /// A variable.
    Variable,
    /// An operator.
    Operator,
    /// Punctuation.
    Punctuation,
}

/// A color.
#[derive(Clone, Copy, Debug, PartialEq, Eq, Structural)]
pub enum Color {
    /// Something which stands out.
    Highlight,
    /// Something which stands out but is not focused.
    UnfocusedHighlight,
    /// Less important text.
    GrayedText,
    /// Slightly less important text.
    LightGrayedText,
    /// Text on an inverted background.
    InvertedText,
    /// Less important text on an inverted background.
    InvertedGrayedText,
    /// Slightly less important text on an inverted background.
    InvertedLightGrayedText,
    /// An inverted background.
    InvertedBackground,
    /// The background of the footer.
    FooterBackground,
    /// The background of what you said in a chat, which is the gray a selection is left when it
    /// is not focused.
    SaidBackground,
    /// What code is written on.
    CodeBackground,
    /// A word which is part of a language, in code. Vim calls this `Statement`.
    Keyword,
    /// A value written out, in code. Vim calls this `Constant`.
    Constant,
    /// A note to whoever is reading, in code. Vim calls this `Comment`.
    Comment,
    /// The name of something, in code. Vim calls this `Identifier`.
    Identifier,
    /// The name of a type, in code. Vim calls this `Type`.
    TypeName,
    /// Something which is not the code itself, in code. Vim calls this `PreProc`.
    PreProc,
    /// An invalid regex.
    BadRegex,
    /// A regex not searched for yet.
    NotCompiledRegex,
    /// Bold text in markdown, which is shown in a color of its own rather than in bold, since a
    /// line as it is drawn carries the color of each column and nothing else.
    Bold,
}

impl Color {
    /// The terminal color each color is written in.
    pub open spec fn spec_ansi(self) -> AnsiColor {
        match self {
            Color::Highlight => AnsiColor::BrightYellow,
            Color::UnfocusedHighlight => medium_background(),
            Color::GrayedText => dark_gray(),
            Color::LightGrayedText => light_gray(),
            Color::InvertedText => AnsiColor::Black,
            Color::InvertedGrayedText => light_gray(),
            Color::InvertedLightGrayedText => dark_gray(),
            Color::InvertedBackground => AnsiColor::BrightWhite,
            Color::FooterBackground => medium_background(),
            Color::SaidBackground => medium_background(),
            Color::CodeBackground => AnsiColor::Black,
            // These are the colors vim writes code in with a dark background.
            Color::Keyword => AnsiColor::Yellow,
            Color::Constant => AnsiColor::Magenta,
            Color::Comment => AnsiColor::Cyan,
            Color::Identifier => AnsiColor::Cyan,
            Color::TypeName => AnsiColor::Green,
            Color::PreProc => AnsiColor::Blue,
            Color::BadRegex => AnsiColor::BrightRed,
            Color::NotCompiledRegex => dark_gray(),
            Color::Bold => AnsiColor::BrightWhite,
        }
    }

    /// Return the terminal color this color is written in.
    pub fn ansi(self) -> (a: AnsiColor)
        ensures
            a == self.spec_ansi(),
    {
        match self {
            Color::Highlight => AnsiColor::BrightYellow,
            Color::UnfocusedHighlight => AnsiColor::Rgb { red: 168, green: 168, blue: 168 },
            Color::GrayedText => AnsiColor::Rgb { red: 96, green: 96, blue: 96 },
            Color::LightGrayedText => AnsiColor::Rgb { red: 159, green: 159, blue: 159 },
            Color::InvertedText => AnsiColor::Black,
            Color::InvertedGrayedText => AnsiColor::Rgb { red: 159, green: 159, blue: 159 },
            Color::InvertedLightGrayedText => AnsiColor::Rgb { red: 96, green: 96, blue: 96 },
            Color::InvertedBackground => AnsiColor::BrightWhite,
            Color::FooterBackground => AnsiColor::Rgb { red: 168, green: 168, blue: 168 },
            Color::SaidBackground => AnsiColor::Rgb { red: 168, green: 168, blue: 168 },
            Color::CodeBackground => AnsiColor::Black,
            Color::Keyword => AnsiColor::Yellow,
            Color::Constant => AnsiColor::Magenta,
            Color::Comment => AnsiColor::Cyan,
            Color::Identifier => AnsiColor::Cyan,
            Color::TypeName => AnsiColor::Green,
            Color::PreProc => AnsiColor::Blue,
            Color::BadRegex => AnsiColor::BrightRed,
            Color::NotCompiledRegex => AnsiColor::Rgb { red: 96, green: 96, blue: 96 },
            Color::Bold => AnsiColor::BrightWhite,
        }
    }

    /// The color each kind of code is written in, which is nothing for the kinds vim leaves
    /// plain.
    pub open spec fn spec_of_code(kind: Option<Kind>) -> Option<Color> {
        match kind {
            None => None,
            Some(kind) => match kind {
                Kind::Keyword => Some(Color::Keyword),
                Kind::String | Kind::Number | Kind::Constant => Some(Color::Constant),
                Kind::Comment => Some(Color::Comment),
                Kind::Function => Some(Color::Identifier),
                Kind::Type => Some(Color::TypeName),
                Kind::Attribute => Some(Color::PreProc),
                Kind::Variable | Kind::Operator | Kind::Punctuation => None,
            },
        }
    }

    /// Return the color for a piece of code, which is nothing for the pieces vim leaves plain.
    ///
    /// These are the colors of the groups vim writes code in. A plain name is `Normal` in vim,
    /// which is neither colored nor bold, so variables, operators and punctuation are left
    /// plain.
    pub fn of_code(kind: Option<Kind>) -> (c: Option<Color>)
        ensures
            c == Self::spec_of_code(kind),
    {
        match kind {
            None => None,
            Some(kind) => match kind {
                Kind::Keyword => Some(Color::Keyword),
                Kind::String | Kind::Number | Kind::Constant => Some(Color::Constant),
                Kind::Comment => Some(Color::Comment),
                Kind::Function => Some(Color::Identifier),
                Kind::Type => Some(Color::TypeName),
                Kind::Attribute => Some(Color::PreProc),
                Kind::Variable | Kind::Operator | Kind::Punctuation => None,
            },
        }
    }

    /// Return the color to highlight a bar with, which is the inverted background rather than
    /// yellow when it is not focused so that only one thing on the screen is ever yellow.
    pub fn highlight(focus: bool) -> (c: Self)
        ensures
            c == (if focus { Color::Highlight } else { Color::InvertedBackground }),
    {
        if focus {
            Color::Highlight
        } else {
            Color::InvertedBackground
        }
    }

    /// Return the color to highlight a row of contents with. A bar which is not focused is left
    /// the color of the ones around it, but a row is grayed so that which one is selected can
    /// still be seen.
    pub fn row_highlight(focus: bool) -> (c: Self)
        ensures
            c == (if focus { Color::Highlight } else { Color::UnfocusedHighlight }),
    {
        if focus {
            Color::Highlight
        } else {
            Color::UnfocusedHighlight
        }
    }
}

impl From<Color> for AnsiColor {
    fn from(color: Color) -> (a: AnsiColor) {
        color.ansi()
    }
}

impl FromSpecImpl<Color> for AnsiColor {
    open spec fn obeys_from_spec() -> bool {
        true
    }

    open spec fn from_spec(color: Color) -> AnsiColor {
        color.spec_ansi()
    }
}

} // verus!
