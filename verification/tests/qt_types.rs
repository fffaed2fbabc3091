use qt_bridge::my_object::{CppObj, CppObjWrapper};
use qt_bridge::qcolor::{Color, QColor};
use qt_bridge::qpointf::QPointF;
use qt_bridge::qsizef::QSizeF;
use qt_bridge::qstring::QString;
use qt_bridge::qt_types::{
    can_handle_qstring_change, can_read_qcolor, can_read_qstring, can_read_qvariant,
    construct_qcolor, construct_qstring, construct_qvariant, copy_qpointf, copy_qsizef,
    copy_value_qpointf, copy_value_qsizef, make_color, make_variant, modify_qstring, ColorTest,
    VariantTest,
};
use qt_bridge::qvariant::{QVariant, Variant};

const COLOR_TESTS: [ColorTest; 4] =
    [ColorTest::Rgb_Red, ColorTest::Rgb_Green, ColorTest::Rgb_Blue, ColorTest::Rgb_Transparent];

const VARIANT_TESTS: [VariantTest; 3] = [VariantTest::String, VariantTest::Int, VariantTest::Bool];

#[test]
fn qstring_keeps_the_text_it_was_built_from() {
    for text in ["", "a", "String constructed by Rust", "ünïcödé ☃ 🦀"] {
        assert_eq!(QString::from_rust(text).to_rust(), text);
    }
}

#[test]
fn qstring_copy_does_not_follow_later_changes() {
    let mut s = QString::from_rust("before");
    let copy = s.to_rust();
    s.assign(&QString::from_rust("after"));
    assert_eq!(copy, "before");
    assert_eq!(s.to_rust(), "after");
}

#[test]
fn construct_qstring_gives_the_same_text_on_both_paths() {
    assert_eq!(construct_qstring(true).to_rust(), "String constructed by Rust");
    assert_eq!(construct_qstring(false).to_rust(), "String constructed by Rust");
}

#[test]
fn can_read_qstring_accepts_only_the_expected_text() {
    assert!(can_read_qstring(&QString::from_rust("String constructed by C++")));
    assert!(!can_read_qstring(&QString::from_rust("String constructed by Rust")));
    assert!(!can_read_qstring(&QString::from_rust("")));
    assert!(!can_read_qstring(&QString::from_rust("String constructed by C++ ")));
}

#[test]
fn modify_qstring_overwrites_the_text() {
    let mut s = QString::from_rust("String constructed by C++");
    modify_qstring(&mut s);
    assert_eq!(s.to_rust(), "Updated string value");
}

#[test]
fn string_update_through_the_object() {
    let mut cpp = CppObj::new(0, QString::from_rust(""));
    let mut wrapper = CppObjWrapper::new(&mut cpp);
    assert_eq!(wrapper.string().to_rust(), "");
    wrapper.set_string(&QString::from_rust("Updated string value"));
    assert_eq!(wrapper.string().to_rust(), "Updated string value");
    let long = "0123456789".repeat(25);
    assert!(long.len() > 100);
    wrapper.set_string(&QString::from_rust(&long));
    assert_eq!(wrapper.string().to_rust(), long);
    assert_eq!(wrapper.number(), 0);
}

#[test]
fn qstring_change_to_a_long_text_is_handled() {
    assert!(can_handle_qstring_change());
}

#[test]
fn color_construction_gives_back_the_four_channels() {
    let color = Color::ARGB { alpha: 255, red: 255, green: 0, blue: 0 };
    let native = QColor::from_rust(&color);
    assert_eq!(native.to_rust(), Some(color));
    match native.to_rust() {
        Some(Color::ARGB { alpha, red, green, blue }) => {
            assert_eq!((alpha, red, green, blue), (255, 255, 0, 0));
        }
        None => panic!("an RGB colour must read back"),
    }
}

#[test]
fn color_that_is_not_rgb_reads_as_nothing() {
    assert_eq!(QColor::unsupported().to_rust(), None);
    for test in COLOR_TESTS {
        assert!(!can_read_qcolor(&QColor::unsupported(), test));
    }
}

#[test]
fn make_color_gives_the_colour_of_each_case() {
    assert_eq!(
        make_color(ColorTest::Rgb_Red),
        Color::ARGB { alpha: 255, red: 255, green: 0, blue: 0 }
    );
    assert_eq!(
        make_color(ColorTest::Rgb_Green),
        Color::ARGB { alpha: 255, red: 0, green: 255, blue: 0 }
    );
    assert_eq!(
        make_color(ColorTest::Rgb_Blue),
        Color::ARGB { alpha: 255, red: 0, green: 0, blue: 255 }
    );
    assert_eq!(
        make_color(ColorTest::Rgb_Transparent),
        Color::ARGB { alpha: 0, red: 0, green: 0, blue: 0 }
    );
}

#[test]
fn can_read_qcolor_accepts_exactly_the_colour_of_the_case() {
    for built in COLOR_TESTS {
        let native = construct_qcolor(built);
        for asked in COLOR_TESTS {
            assert_eq!(can_read_qcolor(&native, asked), built == asked);
        }
    }
    let nearly_red = QColor::from_rust(&Color::ARGB { alpha: 254, red: 255, green: 0, blue: 0 });
    assert!(!can_read_qcolor(&nearly_red, ColorTest::Rgb_Red));
}

#[test]
fn color_test_numbers_name_the_declared_cases_only() {
    assert_eq!(ColorTest::from_repr(0), Some(ColorTest::Rgb_Red));
    assert_eq!(ColorTest::from_repr(1), Some(ColorTest::Rgb_Green));
    assert_eq!(ColorTest::from_repr(2), Some(ColorTest::Rgb_Blue));
    assert_eq!(ColorTest::from_repr(3), Some(ColorTest::Rgb_Transparent));
    for repr in 4..=u8::MAX {
        assert_eq!(ColorTest::from_repr(repr), None);
    }
    for test in COLOR_TESTS {
        assert_eq!(ColorTest::from_repr(test.repr()), Some(test));
    }
}

#[test]
fn variant_test_numbers_name_the_declared_cases_only() {
    assert_eq!(VariantTest::from_repr(0), Some(VariantTest::String));
    assert_eq!(VariantTest::from_repr(1), Some(VariantTest::Int));
    assert_eq!(VariantTest::from_repr(2), Some(VariantTest::Bool));
    for repr in 3..=u8::MAX {
        assert_eq!(VariantTest::from_repr(repr), None);
    }
    for test in VARIANT_TESTS {
        assert_eq!(VariantTest::from_repr(test.repr()), Some(test));
    }
}

#[test]
fn make_variant_gives_the_variant_of_each_case() {
    assert_eq!(make_variant(VariantTest::String), Variant::String(String::from("Rust string")));
    assert_eq!(make_variant(VariantTest::Int), Variant::Int(123));
    assert_eq!(make_variant(VariantTest::Bool), Variant::Bool(true));
}

#[test]
fn every_variant_case_reads_back_as_itself() {
    for value in [
        Variant::String(String::new()),
        Variant::String(String::from("Rust string")),
        Variant::Int(0),
        Variant::Int(i32::MIN),
        Variant::Int(i32::MAX),
        Variant::Bool(false),
        Variant::Bool(true),
    ] {
        assert_eq!(QVariant::from_rust(&value).to_rust(), Some(value.clone()));
    }
    for test in VARIANT_TESTS {
        assert_eq!(construct_qvariant(test).to_rust(), Some(make_variant(test)));
    }
}

#[test]
fn variant_of_an_unknown_type_reads_as_nothing() {
    assert_eq!(QVariant::unsupported().to_rust(), None);
    for test in VARIANT_TESTS {
        assert!(!can_read_qvariant(&QVariant::unsupported(), test));
    }
}

#[test]
fn can_read_qvariant_accepts_exactly_what_the_native_side_sends() {
    let sent = [
        (VariantTest::String, Variant::String(String::from("C++ string"))),
        (VariantTest::Int, Variant::Int(8910)),
        (VariantTest::Bool, Variant::Bool(false)),
    ];
    for (built, value) in &sent {
        let native = QVariant::from_rust(value);
        for asked in VARIANT_TESTS {
            assert_eq!(can_read_qvariant(&native, asked), *built == asked);
        }
    }
    for test in VARIANT_TESTS {
        assert!(!can_read_qvariant(&construct_qvariant(test), test));
    }
    assert!(!can_read_qvariant(&QVariant::from_rust(&Variant::Int(8911)), VariantTest::Int));
    assert!(!can_read_qvariant(&QVariant::from_rust(&Variant::Bool(true)), VariantTest::Bool));
}

#[test]
fn point_copy_keeps_both_coordinates() {
    let p = QPointF::new(1.23f64.to_bits(), 4.56f64.to_bits());
    for copy in [copy_qpointf(&p), copy_value_qpointf(p)] {
        assert!((f64::from_bits(copy.x()) - 1.23).abs() < f64::EPSILON);
        assert!((f64::from_bits(copy.y()) - 4.56).abs() < f64::EPSILON);
        assert_eq!(copy, p);
    }
}

#[test]
fn size_copy_keeps_width_and_height() {
    let s = QSizeF::new(1.23f64.to_bits(), 4.56f64.to_bits());
    for copy in [copy_qsizef(&s), copy_value_qsizef(s)] {
        assert!((f64::from_bits(copy.width()) - 1.23).abs() < f64::EPSILON);
        assert!((f64::from_bits(copy.height()) - 4.56).abs() < f64::EPSILON);
        assert_eq!(copy, s);
    }
}

#[test]
fn color_channels_beyond_eight_bits_give_no_colour() {
    assert_eq!(
        Color::from_channels(255, 255, 0, 0),
        Some(Color::ARGB { alpha: 255, red: 255, green: 0, blue: 0 })
    );
    assert_eq!(
        Color::from_channels(0, 1, 2, 3),
        Some(Color::ARGB { alpha: 0, red: 1, green: 2, blue: 3 })
    );
    assert_eq!(Color::from_channels(256, 0, 0, 0), None);
    assert_eq!(Color::from_channels(0, 256, 0, 0), None);
    assert_eq!(Color::from_channels(0, 0, 256, 0), None);
    assert_eq!(Color::from_channels(0, 0, 0, u16::MAX), None);
}
