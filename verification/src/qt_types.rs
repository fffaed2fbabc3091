use crate::qcolor::{Color, QColor};
use crate::qpointf::QPointF;
use crate::qsizef::QSizeF;
use crate::qstring::QString;
use crate::qvariant::{QVariant, Variant, VariantView};
use vstd::prelude::*;

verus! {

/// The colours that the two sides exchange to try the colour conversion.
#[allow(non_camel_case_types)]
#[derive(Clone, Copy, Debug, PartialEq, Eq, Structural)]
pub enum ColorTest {
    Rgb_Red,
    Rgb_Green,
    Rgb_Blue,
    Rgb_Transparent,
}

/// The variant cases that the two sides exchange to try the variant
/// conversion.
#[derive(Clone, Copy, Debug, PartialEq, Eq, Structural)]
pub enum VariantTest {
    String,
    Int,
    Bool,
}

impl ColorTest {
    /// The case that the native side numbers `repr`, if it is a declared one.
    pub open spec fn spec_from_repr(repr: u8) -> Option<ColorTest> {
        if repr == 0 {
            Some(ColorTest::Rgb_Red)
        } else if repr == 1 {
            Some(ColorTest::Rgb_Green)
        } else if repr == 2 {
            Some(ColorTest::Rgb_Blue)
        } else if repr == 3 {
            Some(ColorTest::Rgb_Transparent)
        } else {
            None
        }
    }

    /// The number under which the native side knows this case.
    pub open spec fn spec_repr(self) -> u8 {
        match self {
            ColorTest::Rgb_Red => 0,
            ColorTest::Rgb_Green => 1,
            ColorTest::Rgb_Blue => 2,
            ColorTest::Rgb_Transparent => 3,
        }
    }

    /// The colour that stands for this case.
    pub open spec fn color(self) -> Color {
        match self {
            ColorTest::Rgb_Red => Color::ARGB { alpha: 255, red: 255, green: 0, blue: 0 },
            ColorTest::Rgb_Green => Color::ARGB { alpha: 255, red: 0, green: 255, blue: 0 },
            ColorTest::Rgb_Blue => Color::ARGB { alpha: 255, red: 0, green: 0, blue: 255 },
            ColorTest::Rgb_Transparent => Color::ARGB { alpha: 0, red: 0, green: 0, blue: 0 },
        }
    }

    /// Decodes a case number that came from the native side. A number that
    /// no case was declared for gives nothing: it is never taken for one of
    /// the declared cases.
    pub fn from_repr(repr: u8) -> (test: Option<ColorTest>)
        ensures
            test == ColorTest::spec_from_repr(repr),
    {
        if repr == 0 {
            Some(ColorTest::Rgb_Red)
        } else if repr == 1 {
            Some(ColorTest::Rgb_Green)
        } else if repr == 2 {
            Some(ColorTest::Rgb_Blue)
        } else if repr == 3 {
            Some(ColorTest::Rgb_Transparent)
        } else {
            None
        }
    }

    /// The number under which the native side knows this case.
    pub fn repr(&self) -> (repr: u8)
        ensures
            repr == self.spec_repr(),
    {
        match self {
            ColorTest::Rgb_Red => 0,
            ColorTest::Rgb_Green => 1,
            ColorTest::Rgb_Blue => 2,
            ColorTest::Rgb_Transparent => 3,
        }
    }
}

impl VariantTest {
    /// The case that the native side numbers `repr`, if it is a declared one.
    pub open spec fn spec_from_repr(repr: u8) -> Option<VariantTest> {
        if repr == 0 {
            Some(VariantTest::String)
        } else if repr == 1 {
            Some(VariantTest::Int)
        } else if repr == 2 {
            Some(VariantTest::Bool)
        } else {
            None
        }
    }

    /// The number under which the native side knows this case.
    pub open spec fn spec_repr(self) -> u8 {
        match self {
            VariantTest::String => 0,
            VariantTest::Int => 1,
            VariantTest::Bool => 2,
        }
    }

    /// The case that a managed variant is of.
    pub open spec fn of(value: VariantView) -> VariantTest {
        match value {
            VariantView::String(_) => VariantTest::String,
            VariantView::Int(_) => VariantTest::Int,
            VariantView::Bool(_) => VariantTest::Bool,
        }
    }

    /// The variant that the managed side builds for this case.
    pub open spec fn made(self) -> VariantView {
        match self {
            VariantTest::String => VariantView::String("Rust string"@),
            VariantTest::Int => VariantView::Int(123),
            VariantTest::Bool => VariantView::Bool(true),
        }
    }

    /// The variant that the native side builds for this case.
    pub open spec fn sent(self) -> VariantView {
        match self {
            VariantTest::String => VariantView::String("C++ string"@),
            VariantTest::Int => VariantView::Int(8910),
            VariantTest::Bool => VariantView::Bool(false),
        }
    }

    /// Decodes a case number that came from the native side. A number that
    /// no case was declared for gives nothing: it is never taken for one of
    /// the declared cases.
    pub fn from_repr(repr: u8) -> (test: Option<VariantTest>)
        ensures
            test == VariantTest::spec_from_repr(repr),
    {
        if repr == 0 {
            Some(VariantTest::String)
        } else if repr == 1 {
            Some(VariantTest::Int)
        } else if repr == 2 {
            Some(VariantTest::Bool)
        } else {
            None
        }
    }

    /// The number under which the native side knows this case.
    pub fn repr(&self) -> (repr: u8)
        ensures
            repr == self.spec_repr(),
    {
        match self {
            VariantTest::String => 0,
            VariantTest::Int => 1,
            VariantTest::Bool => 2,
        }
    }
}

/// Builds the native string that the managed side sends, from a string slice
/// if `slice` is set and from an owned string if not. The text is the same
/// either way.
pub fn construct_qstring(slice: bool) -> (s: QString)
    ensures
        s@ == "String constructed by Rust"@,
{
    if slice {
        QString::from_rust("String constructed by Rust")
    } else {
        let rs_string = "String constructed by Rust".to_owned();
        QString::from_rust(rs_string.as_str())
    }
}

/// Whether `s` holds the text that the native side sends.
pub fn can_read_qstring(s: &QString) -> (read: bool)
    ensures
        read == (s@ == "String constructed by C++"@),
{
    let rs = s.to_rust();
    let expected = "String constructed by C++".to_owned();
    rs == expected
}

/// Overwrites a string that the native side owns.
pub fn modify_qstring(s: &mut QString)
    ensures
        final(s)@ == "Updated string value"@,
{
    let v = QString::from_rust("Updated string value");
    s.assign(&v);
}

/// Overwrites a short string with one that is much longer, and says whether
/// reading it back gives the longer text, whole.
pub fn can_handle_qstring_change() -> (handled: bool)
    ensures
        handled,
{
    let long_s =
        "Very very long string that is hopefully long enough to allocate and get Valgrind's attention :)";
    let mut s = QString::from_rust("Short string");
    let v = QString::from_rust(long_s);
    s.assign(&v);
    let rs = s.to_rust();
    let expected = long_s.to_owned();
    rs == expected
}

/// The colour that the managed side sends for `test`.
pub fn make_color(test: ColorTest) -> (color: Color)
    ensures
        color == test.color(),
{
    match test {
        ColorTest::Rgb_Red => Color::ARGB { alpha: 255, red: 255, green: 0, blue: 0 },
        ColorTest::Rgb_Green => Color::ARGB { alpha: 255, red: 0, green: 255, blue: 0 },
        ColorTest::Rgb_Blue => Color::ARGB { alpha: 255, red: 0, green: 0, blue: 255 },
        ColorTest::Rgb_Transparent => Color::ARGB { alpha: 0, red: 0, green: 0, blue: 0 },
    }
}

/// Builds the native colour that the managed side sends for `test`.
pub fn construct_qcolor(test: ColorTest) -> (c: QColor)
    ensures
        c@ == Some(test.color()),
{
    let color = make_color(test);
    QColor::from_rust(&color)
}

/// Whether the native colour `c` reads as the colour of `test`: all four
/// channels must agree, and a colour that does not read at all never does.
pub fn can_read_qcolor(c: &QColor, test: ColorTest) -> (read: bool)
    ensures
        read == (c@ == Some(test.color())),
{
    let rs_c = c.to_rust();
    let expected = make_color(test);
    match (rs_c, expected) {
        (
            Some(Color::ARGB { alpha, red, green, blue }),
            Color::ARGB { alpha: a, red: r, green: g, blue: b },
        ) => alpha == a && red == r && green == g && blue == b,
        (None, _) => false,
    }
}

/// The variant that the managed side sends for `test`.
pub fn make_variant(test: VariantTest) -> (variant: Variant)
    ensures
        variant@ == test.made(),
{
    match test {
        VariantTest::String => Variant::String("Rust string".to_owned()),
        VariantTest::Int => Variant::Int(123),
        VariantTest::Bool => Variant::Bool(true),
    }
}

/// Builds the native variant that the managed side sends for `test`.
pub fn construct_qvariant(test: VariantTest) -> (v: QVariant)
    ensures
        v@ == Some(test.made()),
{
    let variant = make_variant(test);
    QVariant::from_rust(&variant)
}

/// Whether the native variant `v` reads as what the native side sends for
/// `test`: the case must be the one of `test` and the payload the expected
/// one. A variant that does not read at all never does.
pub fn can_read_qvariant(v: &QVariant, test: VariantTest) -> (read: bool)
    ensures
        read == (v@ == Some(test.sent())),
{
    match test {
        VariantTest::String => match v.to_rust() {
            Some(Variant::String(s)) => {
                let expected = "C++ string".to_owned();
                s == expected
            },
            _ => false,
        },
        VariantTest::Int => match v.to_rust() {
            Some(Variant::Int(i)) => i == 8910,
            _ => false,
        },
        VariantTest::Bool => match v.to_rust() {
            Some(Variant::Bool(b)) => !b,
            _ => false,
        },
    }
}

/// Copies a point that was passed by reference.
pub fn copy_qpointf(p: &QPointF) -> (copy: QPointF)
    ensures
        copy == *p,
{
    *p
}

/// Hands back a point that was passed by value.
pub fn copy_value_qpointf(p: QPointF) -> (copy: QPointF)
    ensures
        copy == p,
{
    p
}

/// Copies a size that was passed by reference.
pub fn copy_qsizef(s: &QSizeF) -> (copy: QSizeF)
    ensures
        copy == *s,
{
    *s
}

/// Hands back a size that was passed by value.
pub fn copy_value_qsizef(s: QSizeF) -> (copy: QSizeF)
    ensures
        copy == s,
{
    s
}

/// A declared case and its number name each other, and a number outside the
/// declared ones names no case.
pub proof fn lemma_color_test_repr(test: ColorTest, repr: u8)
    ensures
        ColorTest::spec_from_repr(test.spec_repr()) == Some(test),
        ColorTest::spec_from_repr(repr) matches Some(t) ==> t.spec_repr() == repr,
        ColorTest::spec_from_repr(repr) is None <==> repr > 3,
{
}

/// A declared case and its number name each other, and a number outside the
/// declared ones names no case.
pub proof fn lemma_variant_test_repr(test: VariantTest, repr: u8)
    ensures
        VariantTest::spec_from_repr(test.spec_repr()) == Some(test),
        VariantTest::spec_from_repr(repr) matches Some(t) ==> t.spec_repr() == repr,
        VariantTest::spec_from_repr(repr) is None <==> repr > 2,
{
}

/// What either side builds for a declared case is a variant of that case.
pub proof fn lemma_variant_keeps_case(test: VariantTest)
    ensures
        VariantTest::of(test.made()) == test,
        VariantTest::of(test.sent()) == test,
{
}

} // verus!
