use tvk_lang::parser::Parser;
use tvk_lang::types::{ColorLit, TvkObject};

fn parse(src: &str) -> Vec<TvkObject> {
    let mut parser = Parser::new(src);
    parser.parse()
}

#[test]
fn uint_literal_parses_as_uint() {
    let exprs = parse("1");
    assert_eq!(exprs.len(), 1);
    assert!(matches!(exprs[0], TvkObject::UIntLiteral(1)));
}

#[test]
fn float_literal_parses_as_float() {
    let exprs = parse("1.0");
    assert_eq!(exprs.len(), 1);
    match &exprs[0] {
        TvkObject::FloatLiteral(f) => {
            assert_eq!(f.text, "1.0");
            assert_eq!(f.text.parse::<f32>().unwrap(), 1.0f32);
        }
        other => panic!("expected a float literal, got {:?}", other),
    }
}

#[test]
fn digits_then_dot_is_one_float_not_uint() {
    let exprs = parse("1.");
    assert_eq!(exprs.len(), 1);
    match &exprs[0] {
        TvkObject::FloatLiteral(f) => assert_eq!(f.text, "1."),
        other => panic!("expected a float literal, got {:?}", other),
    }
}

#[test]
fn negative_and_exponent_floats() {
    let exprs = parse("-1.5 0.25 2.5e3");
    assert_eq!(exprs.len(), 3);
    match (&exprs[0], &exprs[1], &exprs[2]) {
        (
            TvkObject::FloatLiteral(a),
            TvkObject::FloatLiteral(b),
            TvkObject::FloatLiteral(c),
        ) => {
            assert_eq!(a.text, "-1.5");
            assert_eq!(b.text, "0.25");
            assert_eq!(c.text, "2.5e3");
        }
        other => panic!("expected three float literals, got {:?}", other),
    }
}

#[test]
fn uint_overflow_falls_back_to_float() {
    let exprs = parse("4294967295 4294967296");
    assert_eq!(exprs.len(), 2);
    assert!(matches!(exprs[0], TvkObject::UIntLiteral(4294967295)));
    match &exprs[1] {
        TvkObject::FloatLiteral(f) => assert_eq!(f.text, "4294967296"),
        other => panic!("expected a float literal, got {:?}", other),
    }
}

#[test]
fn hex_color_literal_decodes_channels() {
    let exprs = parse("#FF0000FF");
    assert_eq!(exprs.len(), 1);
    match &exprs[0] {
        TvkObject::Color(c) => {
            assert_eq!(*c, ColorLit { r: 255, g: 0, b: 0, a: 255 });
            // The rendering edge normalizes each channel to byte / 255.0.
            assert_eq!(c.r as f32 / 255.0, 1.0f32);
            assert_eq!(c.g as f32 / 255.0, 0.0f32);
        }
        other => panic!("expected a color literal, got {:?}", other),
    }
}

#[test]
fn hex_color_mixed_case_digits() {
    let exprs = parse("#aAbBcCdD");
    assert_eq!(exprs.len(), 1);
    match &exprs[0] {
        TvkObject::Color(c) => {
            assert_eq!(*c, ColorLit { r: 0xAA, g: 0xBB, b: 0xCC, a: 0xDD });
        }
        other => panic!("expected a color literal, got {:?}", other),
    }
}

#[test]
fn short_hex_color_is_not_a_color() {
    // Seven hex digits: the color alternative fails, `#` is skipped, and
    // the digits are read as a number instead.
    let exprs = parse("#1234567");
    assert!(exprs.iter().all(|e| !matches!(e, TvkObject::Color(_))));
}

#[test]
fn atoms_allow_dash_and_underscore() {
    let exprs = parse("my-name my_name2");
    assert_eq!(exprs.len(), 2);
    match (&exprs[0], &exprs[1]) {
        (TvkObject::Atom(a), TvkObject::Atom(b)) => {
            assert_eq!(a, "my-name");
            assert_eq!(b, "my_name2");
        }
        other => panic!("expected two atoms, got {:?}", other),
    }
}

#[test]
fn uint_then_letters_split_into_uint_and_atom() {
    let exprs = parse("1e3");
    assert_eq!(exprs.len(), 2);
    assert!(matches!(exprs[0], TvkObject::UIntLiteral(1)));
    match &exprs[1] {
        TvkObject::Atom(a) => assert_eq!(a, "e3"),
        other => panic!("expected an atom, got {:?}", other),
    }
}

#[test]
fn nested_lists_parse() {
    let exprs = parse("(def a (color #112233FF))");
    assert_eq!(exprs.len(), 1);
    match &exprs[0] {
        TvkObject::List(l) => {
            assert_eq!(l.len(), 3);
            assert!(matches!(&l[0], TvkObject::Atom(s) if s == "def"));
            assert!(matches!(&l[1], TvkObject::Atom(s) if s == "a"));
            match &l[2] {
                TvkObject::List(inner) => {
                    assert_eq!(inner.len(), 2);
                    assert!(matches!(&inner[0], TvkObject::Atom(s) if s == "color"));
                    assert!(matches!(
                        &inner[1],
                        TvkObject::Color(ColorLit { r: 0x11, g: 0x22, b: 0x33, a: 0xFF })
                    ));
                }
                other => panic!("expected an inner list, got {:?}", other),
            }
        }
        other => panic!("expected a list, got {:?}", other),
    }
}

#[test]
fn whitespace_between_tokens_is_skipped() {
    let exprs = parse("  (\tdef\n a \n 1 )  ");
    assert_eq!(exprs.len(), 1);
    match &exprs[0] {
        TvkObject::List(l) => assert_eq!(l.len(), 3),
        other => panic!("expected a list, got {:?}", other),
    }
}

#[test]
fn list_without_separator_fails_and_is_skipped() {
    // `(a(b))` has no whitespace separator after `a`, so the outer list
    // cannot close; recovery skips into the inner form.
    let exprs = parse("(a(b))");
    assert!(exprs.iter().any(|e| match e {
        TvkObject::List(l) => matches!(&l[0], TvkObject::Atom(s) if s == "b"),
        _ => false,
    }));
}

#[test]
fn malformed_form_between_two_well_formed_ones_is_skipped() {
    let exprs = parse("(color #FF0000FF) () (color #00FF00FF)");
    assert_eq!(exprs.len(), 2);
    let color_of = |e: &TvkObject| -> ColorLit {
        match e {
            TvkObject::List(l) => match &l[1] {
                TvkObject::Color(c) => *c,
                other => panic!("expected a color argument, got {:?}", other),
            },
            other => panic!("expected a color form, got {:?}", other),
        }
    };
    assert_eq!(color_of(&exprs[0]), ColorLit { r: 255, g: 0, b: 0, a: 255 });
    assert_eq!(color_of(&exprs[1]), ColorLit { r: 0, g: 255, b: 0, a: 255 });
}

#[test]
fn garbage_only_input_yields_nothing() {
    let exprs = parse(")))(((");
    assert_eq!(exprs.len(), 0);
}

#[test]
fn empty_input_yields_nothing() {
    let exprs = parse("");
    assert_eq!(exprs.len(), 0);
}

#[test]
fn parse_appends_to_earlier_forms() {
    let mut parser = Parser::new("(def a 1)");
    let first = parser.parse();
    assert_eq!(first.len(), 1);
    let again = parser.parse();
    assert_eq!(again.len(), 2);
}
