use yosys_netlist::coerce::{coerce_number, number_from_text, plain_number_of};
use yosys_netlist::error::Cause;
use yosys_netlist::json::{member, member_folded, Json, JsonKind};
use yosys_netlist::text::{fold_equal, push_decimal, same_text};

#[test]
fn texts_are_compared_character_by_character() {
    assert!(same_text("", ""));
    assert!(same_text("WIDTH", "WIDTH"));
    assert!(!same_text("WIDTH", "width"));
    assert!(!same_text("WIDTH", "WIDT"));
    assert!(same_text("größe", "größe"));
    assert!(!same_text("größe", "grösse"));
}

#[test]
fn names_are_compared_without_case() {
    assert!(fold_equal("WIDTH", "width"));
    assert!(fold_equal("Clk_Polarity", "CLK_POLARITY"));
    assert!(fold_equal("", ""));
    assert!(!fold_equal("WIDTH", "WIDTHS"));
    assert!(!fold_equal("A_WIDTH", "B_WIDTH"));
    assert!(!fold_equal("a-b", "A_B"));
    assert!(fold_equal("é", "é"));
    assert!(!fold_equal("É", "é"));
    assert!(!fold_equal("[", "{"));
    assert!(!fold_equal("@", "`"));
}

#[test]
fn numbers_are_written_in_base_ten() {
    for (n, text) in [(0usize, "0"), (7, "7"), (10, "10"), (42, "42"), (909, "909"), (4294967295, "4294967295")] {
        let mut out = String::from("n=");
        push_decimal(&mut out, n);
        assert_eq!(out, format!("n={}", text));
    }
}

#[test]
fn numerals_are_read_in_base_ten() {
    assert_eq!(number_from_text("0"), Ok(0));
    assert_eq!(number_from_text("42"), Ok(42));
    assert_eq!(number_from_text("+42"), Ok(42));
    assert_eq!(number_from_text("0042"), Ok(42));
    assert_eq!(number_from_text("4294967295"), Ok(4294967295));
    assert_eq!(number_from_text("4294967296"), Err(Cause::OutOfRange));
    assert_eq!(number_from_text("99999999999999999999999999999999999999"), Err(Cause::OutOfRange));
    assert_eq!(number_from_text("000000000000000000000000000000000000001"), Ok(1));
    for bad in ["", "+", "++1", "-0", "1 ", "1e3", "0b11", "4٢"] {
        assert_eq!(number_from_text(bad), Err(Cause::TypeMismatch(JsonKind::String)), "{:?}", bad);
    }
    assert_eq!(number_from_text("99999999999x"), Err(Cause::TypeMismatch(JsonKind::String)));
}

#[test]
fn every_number_reads_back_from_its_digits() {
    for n in [0u32, 1, 9, 10, 11, 99, 100, 12345, 4294967294, u32::MAX] {
        assert_eq!(number_from_text(&n.to_string()), Ok(n));
        assert_eq!(coerce_number(&Json::String(n.to_string())), coerce_number(&Json::Integer(n as i128)));
        assert_eq!(coerce_number(&Json::Integer(n as i128)), Ok(n));
    }
}

#[test]
fn scalars_are_coerced() {
    assert_eq!(coerce_number(&Json::Integer(42)), Ok(42));
    assert_eq!(coerce_number(&Json::String("42".to_string())), Ok(42));
    assert_eq!(coerce_number(&Json::Integer(-1)), Err(Cause::OutOfRange));
    assert_eq!(coerce_number(&Json::Integer(1 << 32)), Err(Cause::OutOfRange));
    assert_eq!(coerce_number(&Json::Real), Err(Cause::TypeMismatch(JsonKind::Real)));
    assert_eq!(coerce_number(&Json::Bool(true)), Err(Cause::TypeMismatch(JsonKind::Bool)));
    assert_eq!(coerce_number(&Json::Null), Err(Cause::TypeMismatch(JsonKind::Null)));
    assert_eq!(coerce_number(&Json::Array(vec![])), Err(Cause::TypeMismatch(JsonKind::Array)));
    assert_eq!(coerce_number(&Json::Object(vec![])), Err(Cause::TypeMismatch(JsonKind::Object)));
    assert_eq!(plain_number_of(&Json::Integer(7)), Ok(7));
    assert_eq!(plain_number_of(&Json::String("7".to_string())), Err(Cause::TypeMismatch(JsonKind::String)));
}

#[test]
fn members_are_looked_up() {
    let fields = vec![
        ("width".to_string(), Json::Integer(1)),
        ("WIDTH".to_string(), Json::Integer(2)),
        ("Depth".to_string(), Json::Integer(3)),
    ];
    assert!(matches!(member(&fields, "WIDTH"), Some(Json::Integer(2))));
    assert!(matches!(member(&fields, "width"), Some(Json::Integer(1))));
    assert!(member(&fields, "depth").is_none());
    assert!(matches!(member_folded(&fields, "WIDTH"), Some(("width", Json::Integer(1)))));
    assert!(matches!(member_folded(&fields, "DEPTH"), Some(("Depth", Json::Integer(3)))));
    assert!(member_folded(&fields, "HEIGHT").is_none());
}
