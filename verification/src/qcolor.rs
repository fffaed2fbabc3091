use vstd::prelude::*;

verus! {

/// A colour on the managed side: one 8-bit channel each for alpha, red, green
/// and blue.
#[derive(Clone, Copy, Debug, PartialEq, Eq, Structural)]
pub enum Color {
    ARGB { alpha: u8, red: u8, green: u8, blue: u8 },
}

impl Color {
    /// The colour with the given channels, if each of them fits in 8 bits.
    pub open spec fn spec_from_channels(alpha: u16, red: u16, green: u16, blue: u16) -> Option<
        Color,
    > {
        if alpha <= 255 && red <= 255 && green <= 255 && blue <= 255 {
            Some(
                Color::ARGB { alpha: alpha as u8, red: red as u8, green: green as u8, blue: blue as u8 },
            )
        } else {
            None
        }
    }

    /// Takes the four channels as the native side hands them out, 16 bits
    /// wide. A channel beyond 255 has no managed equivalent, so the whole
    /// colour is then left out rather than cut down to fit.
    pub fn from_channels(alpha: u16, red: u16, green: u16, blue: u16) -> (color: Option<Color>)
        ensures
            color == Color::spec_from_channels(alpha, red, green, blue),
    {
        if alpha <= 255 && red <= 255 && green <= 255 && blue <= 255 {
            Some(
                Color::ARGB { alpha: alpha as u8, red: red as u8, green: green as u8, blue: blue as u8 },
            )
        } else {
            None
        }
    }
}

/// How a native colour stores its channels. Only `Rgb` has a managed
/// equivalent.
#[derive(Clone, Copy, Debug, PartialEq, Eq, Structural)]
pub enum QColorSpec {
    Unsupported,
    Rgb,
}

/// A native colour: a tag that says how the channels are to be read, and the
/// four channels.
///
/// The view is the managed colour that the native one stands for, if it
/// stands for one.
#[derive(Debug)]
pub struct QColor {
    spec: QColorSpec,
    alpha: u8,
    red: u8,
    green: u8,
    blue: u8,
}

impl View for QColor {
    type V = Option<Color>;

    closed spec fn view(&self) -> Option<Color> {
        match self.spec {
            QColorSpec::Rgb => Some(
                Color::ARGB {
                    alpha: self.alpha,
                    red: self.red,
                    green: self.green,
                    blue: self.blue,
                },
            ),
            QColorSpec::Unsupported => None,
        }
    }
}

impl QColor {
    /// Builds the native colour that stands for `value`.
    pub fn from_rust(value: &Color) -> (c: QColor)
        ensures
            c@ == Some(*value),
    {
        match value {
            Color::ARGB { alpha, red, green, blue } => QColor {
                spec: QColorSpec::Rgb,
                alpha: *alpha,
                red: *red,
                green: *green,
                blue: *blue,
            },
        }
    }

    /// A native colour in a form that the managed side cannot express.
    pub fn unsupported() -> (c: QColor)
        ensures
            c@ is None,
    {
        QColor { spec: QColorSpec::Unsupported, alpha: 0, red: 0, green: 0, blue: 0 }
    }

    /// Reads the native colour: its channels where it is stored as RGB, and
    /// nothing otherwise. No channel is ever made up.
    pub fn to_rust(&self) -> (value: Option<Color>)
        ensures
            value == self@,
    {
        match self.spec {
            QColorSpec::Rgb => Some(
                Color::ARGB {
                    alpha: self.alpha,
                    red: self.red,
                    green: self.green,
                    blue: self.blue,
                },
            ),
            QColorSpec::Unsupported => None,
        }
    }
}

} // verus!
