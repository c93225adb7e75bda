use sb3_builder::block::say;
use sb3_builder::number::{check_decimal, class_of, Class};
use sb3_builder::{Constant, List, Number, Operand, Project, Variable};

fn number(n: f64) -> Number {
    Number::new(n.to_bits(), format!("{n}")).unwrap()
}

/// The one input of the one block of a project that says `n`.
fn said(n: f64) -> String {
    let mut project = Project::default();
    let mut stage = project.stage();
    stage.put(say(Operand::from(number(n))));
    let json = project.encode();
    let start = json.find("\"MESSAGE\":").unwrap() + "\"MESSAGE\":".len();
    let end = json.find("}}},\"comments\"").unwrap();
    json[start..end].to_owned()
}

#[test]
fn infinity_is_a_quoted_sentinel() {
    assert_eq!(said(f64::INFINITY), "[1,[4,\"Infinity\"]]");
}

#[test]
fn negative_infinity_is_a_quoted_sentinel() {
    assert_eq!(said(f64::NEG_INFINITY), "[1,[4,\"-Infinity\"]]");
}

#[test]
fn nan_is_a_quoted_sentinel() {
    assert_eq!(said(f64::NAN), "[1,[4,\"NaN\"]]");
    assert_eq!(said(-f64::NAN), "[1,[4,\"NaN\"]]");
    assert_eq!(said(f64::from_bits(0x7ff0_0000_0000_0001)), "[1,[4,\"NaN\"]]");
}

#[test]
fn finite_numbers_are_plain_json_numbers() {
    assert_eq!(said(0.0), "[1,[4,0]]");
    assert_eq!(said(-0.0), "[1,[4,-0]]");
    assert_eq!(said(-1.5), "[1,[4,-1.5]]");
    assert_eq!(said(7.0), "[1,[4,7]]");
    assert_eq!(said(-42.0), "[1,[4,-42]]");
    assert_eq!(said(0.1), "[1,[4,0.1]]");
    assert_eq!(said(1e21), "[1,[4,1000000000000000000000]]");
    assert_eq!(said(f64::MAX).len(), "[1,[4,]]".len() + 309);
    assert_eq!(said(1e-7), "[1,[4,0.0000001]]");
}

#[test]
fn bits_decide_the_class() {
    assert_eq!(class_of(0.0_f64.to_bits()), Class::Finite);
    assert_eq!(class_of((-0.0_f64).to_bits()), Class::Finite);
    assert_eq!(class_of(f64::MAX.to_bits()), Class::Finite);
    assert_eq!(class_of(f64::MIN.to_bits()), Class::Finite);
    assert_eq!(class_of(f64::MIN_POSITIVE.to_bits()), Class::Finite);
    assert_eq!(class_of(0x7fef_ffff_ffff_ffff), Class::Finite);
    assert_eq!(class_of(0x7ff0_0000_0000_0000), Class::Infinity);
    assert_eq!(class_of(0xfff0_0000_0000_0000), Class::NegInfinity);
    assert_eq!(class_of(0x7ff0_0000_0000_0001), Class::NaN);
    assert_eq!(class_of(0xfff8_0000_0000_0000), Class::NaN);
    assert_eq!(class_of(u64::MAX), Class::NaN);
    assert_eq!(class_of(f64::INFINITY.to_bits()), Class::Infinity);
    assert_eq!(class_of(f64::NEG_INFINITY.to_bits()), Class::NegInfinity);
    assert_eq!(class_of(f64::NAN.to_bits()), Class::NaN);
}

#[test]
fn decimal_numerals_are_told_from_other_text() {
    for good in ["0", "-0", "7", "10", "-12", "0.5", "-0.25", "123.456", "1000000000000000000000"] {
        assert!(check_decimal(good), "{good}");
    }
    for bad in [
        "", "-", ".", "-.", "1.", ".5", "-.5", "01", "-01", "00", "1e5", "1E5", "+1", " 1", "1 ",
        "1.2.3", "1..2", "--1", "1-", "0x10", "inf", "NaN", "1,5", "١",
    ] {
        assert!(!check_decimal(bad), "{bad}");
    }
}

#[test]
fn a_finite_number_needs_a_decimal_numeral() {
    assert!(Number::new(1.0_f64.to_bits(), "1".to_owned()).is_some());
    assert!(Number::new(1.0_f64.to_bits(), "one".to_owned()).is_none());
    assert!(Number::new(1.0_f64.to_bits(), String::new()).is_none());
    assert!(Number::new(1.0_f64.to_bits(), "1e0".to_owned()).is_none());
}

#[test]
fn a_value_that_is_not_finite_needs_no_numeral() {
    assert!(Number::new(f64::INFINITY.to_bits(), String::new()).is_some());
    assert!(Number::new(f64::NEG_INFINITY.to_bits(), "-inf".to_owned()).is_some());
    assert!(Number::new(f64::NAN.to_bits(), "whatever".to_owned()).is_some());
}

#[test]
fn constants_that_are_not_finite_are_quoted_sentinels_too() {
    let mut project = Project::default();
    let mut stage = project.stage();
    stage.add_variable(Variable { name: "a".to_owned(), value: Constant::Number(number(2.5)) });
    stage.add_variable(Variable {
        name: "b".to_owned(),
        value: Constant::Number(number(f64::INFINITY)),
    });
    stage.add_list(List {
        name: "c".to_owned(),
        items: vec![
            Constant::Number(number(f64::NEG_INFINITY)),
            Constant::Number(number(f64::NAN)),
            Constant::Number(number(-3.0)),
        ],
    });
    let json = project.encode();
    assert!(json.contains("\"variables\":{\"v1\":[\"a\",2.5],\"v2\":[\"b\",\"Infinity\"]},"));
    assert!(json.contains("\"lists\":{\"l3\":[\"c\", [\"-Infinity\",\"NaN\",-3]]},"));
}

#[test]
fn a_copy_of_a_number_is_written_alike() {
    let number = number(-1.5);
    let copy = number.duplicate();
    let mut first = String::new();
    let mut second = String::new();
    number.push_literal(&mut first);
    copy.push_literal(&mut second);
    assert_eq!(first, "-1.5");
    assert_eq!(second, "-1.5");
}
