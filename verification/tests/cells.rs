use yosys_netlist::cell::{cell_kind, decode_cell, CellKind};
use yosys_netlist::error::Cause;
use yosys_netlist::json::{parse_json, JsonKind};
use yosys_netlist::netlist::decode_text;
use yosys_netlist::types::{Cell, Direction, NumberOrString};

const BASE: &str = r#""hide_name":1,"attributes":{"src":"top.v:3"},"port_directions":{"A":"input","Y":"output"},"connections":{"A":[2,3],"Y":["0","x",4]}"#;

fn cell(kind: &str, parameters: &str) -> Result<Cell, yosys_netlist::error::DecodeError> {
    let text = format!(r#"{{"type":"{}",{},"parameters":{}}}"#, kind, BASE, parameters);
    decode_cell(&parse_json(&text).unwrap())
}

fn design_with_cell(name: &str, body: &str) -> String {
    format!(
        r#"{{"creator":"yosys","modules":{{"top":{{"attributes":{{}},"ports":{{}},"cells":{{"{}":{}}},"netnames":{{}}}}}}}}"#,
        name, body
    )
}

#[test]
fn unknown_cell_type_is_located() {
    let text = design_with_cell(
        "c1",
        r#"{"type":"$frobnicate","hide_name":0,"attributes":{},"port_directions":{},"connections":{},"parameters":{}}"#,
    );
    let e = decode_text(&text).unwrap_err();
    assert_eq!(e.cause, Cause::UnknownCellType("$frobnicate".to_string()));
    assert_eq!(e.path_string(), "modules.top.cells.c1.type");
}

#[test]
fn unknown_cell_type_comes_before_missing_members() {
    let text = design_with_cell("c1", r#"{"type":"$frobnicate"}"#);
    let e = decode_text(&text).unwrap_err();
    assert_eq!(e.cause, Cause::UnknownCellType("$frobnicate".to_string()));
}

#[test]
fn missing_port_directions_is_located() {
    let text = design_with_cell(
        "c0",
        r#"{"type":"$not","hide_name":0,"attributes":{},"connections":{},"parameters":{"A_SIGNED":0,"A_WIDTH":1,"Y_WIDTH":1}}"#,
    );
    let e = decode_text(&text).unwrap_err();
    assert_eq!(e.cause, Cause::MissingField);
    assert_eq!(e.path_string(), "modules.top.cells.c0.port_directions");
}

#[test]
fn missing_type_is_located() {
    let text = design_with_cell("c0", r#"{"hide_name":0,"attributes":{},"port_directions":{},"connections":{},"parameters":{}}"#);
    let e = decode_text(&text).unwrap_err();
    assert_eq!(e.cause, Cause::MissingField);
    assert_eq!(e.path_string(), "modules.top.cells.c0.type");
}

#[test]
fn type_that_is_no_text_is_a_mismatch() {
    let text = design_with_cell("c0", r#"{"type":5,"hide_name":0,"attributes":{},"port_directions":{},"connections":{},"parameters":{}}"#);
    let e = decode_text(&text).unwrap_err();
    assert_eq!(e.cause, Cause::TypeMismatch(JsonKind::Integer));
    assert_eq!(e.path_string(), "modules.top.cells.c0.type");
}

#[test]
fn parameter_failure_is_located() {
    let text = design_with_cell(
        "$1",
        r#"{"type":"$mux","hide_name":0,"attributes":{},"port_directions":{},"connections":{},"parameters":{"WIDTH":true}}"#,
    );
    let e = decode_text(&text).unwrap_err();
    assert_eq!(e.cause, Cause::TypeMismatch(JsonKind::Bool));
    assert_eq!(e.path_string(), "modules.top.cells.$1.parameters.WIDTH");
}

#[test]
fn base_members_are_decoded() {
    let c = cell("$not", r#"{"A_SIGNED":0,"A_WIDTH":2,"Y_WIDTH":2}"#).unwrap();
    let base = c.base();
    assert_eq!(base.hide_name, 1);
    assert_eq!(base.attributes.get("src").unwrap(), "top.v:3");
    assert_eq!(base.port_directions.get("A"), Some(&Direction::Input));
    assert_eq!(base.port_directions.get("Y"), Some(&Direction::Output));
    assert_eq!(base.connections.get("A").unwrap(), &vec![NumberOrString::Number(2), NumberOrString::Number(3)]);
    assert_eq!(
        base.connections.get("Y").unwrap(),
        &vec![
            NumberOrString::String("0".to_string()),
            NumberOrString::String("x".to_string()),
            NumberOrString::Number(4)
        ]
    );
}

#[test]
fn number_and_numeral_give_the_same_parameter() {
    let as_numbers = cell("$add", r#"{"A_SIGNED":42,"A_WIDTH":42,"B_SIGNED":42,"B_WIDTH":42,"Y_WIDTH":42}"#).unwrap();
    let as_texts = cell("$add", r#"{"A_SIGNED":"42","A_WIDTH":"42","B_SIGNED":"42","B_WIDTH":"42","Y_WIDTH":"42"}"#).unwrap();
    assert_eq!(as_numbers, as_texts);
    match as_numbers {
        Cell::BinaryCell(c) => {
            assert_eq!(c.parameters.a_signed, 42);
            assert_eq!(c.parameters.a_width, 42);
            assert_eq!(c.parameters.b_signed, 42);
            assert_eq!(c.parameters.b_width, 42);
            assert_eq!(c.parameters.y_width, 42);
        },
        other => panic!("unexpected cell {:?}", other),
    }
}

#[test]
fn number_and_numeral_agree_for_every_kind() {
    let kinds: Vec<(&str, Vec<&str>)> = vec![
        ("$not", vec!["A_SIGNED", "A_WIDTH", "Y_WIDTH"]),
        ("$and", vec!["A_SIGNED", "A_WIDTH", "B_SIGNED", "B_WIDTH", "Y_WIDTH"]),
        ("$mux", vec!["WIDTH"]),
        ("$pmux", vec!["WIDTH", "S_WIDTH"]),
        ("$sr", vec!["WIDTH", "SET_POLARITY", "CLR_POLARITY"]),
        ("$dff", vec!["WIDTH", "CLK_POLARITY"]),
        ("$adff", vec!["WIDTH", "CLK_POLARITY", "ARST_POLARITY", "ARST_VALUE"]),
        ("$sdff", vec!["WIDTH", "CLK_POLARITY", "SRST_POLARITY", "SRST_VALUE"]),
        ("$dffsr", vec!["WIDTH", "CLK_POLARITY", "SET_POLARITY", "CLR_POLARITY"]),
        ("$dffe", vec!["WIDTH", "CLK_POLARITY", "EN_POLARITY"]),
        ("$adffe", vec!["WIDTH", "CLK_POLARITY", "EN_POLARITY", "ARST_POLARITY", "ARST_VALUE"]),
        ("$sdffe", vec!["WIDTH", "CLK_POLARITY", "EN_POLARITY", "SRST_POLARITY", "SRST_VALUE"]),
        ("$dffsre", vec!["WIDTH", "CLK_POLARITY", "SET_POLARITY", "CLR_POLARITY", "EN_POLARITY"]),
    ];
    for (kind, names) in kinds {
        let numbers: Vec<String> = names.iter().map(|n| format!(r#""{}":42"#, n)).collect();
        let texts: Vec<String> = names.iter().map(|n| format!(r#""{}":"42""#, n)).collect();
        let a = cell(kind, &format!("{{{}}}", numbers.join(","))).unwrap();
        let b = cell(kind, &format!("{{{}}}", texts.join(","))).unwrap();
        assert_eq!(a, b, "{}", kind);
    }
}

#[test]
fn tool_written_numerals_are_read_in_base_ten() {
    let c = cell("$mux", r#"{"WIDTH":"00000000000000000000000000001000"}"#).unwrap();
    match c {
        Cell::MuxCell(m) => assert_eq!(m.parameters.width, 1000),
        other => panic!("unexpected cell {:?}", other),
    }
}

#[test]
fn numerals_have_their_limits() {
    let most = cell("$mux", r#"{"WIDTH":"4294967295"}"#).unwrap();
    assert!(matches!(most, Cell::MuxCell(m) if m.parameters.width == u32::MAX));
    let plus = cell("$mux", r#"{"WIDTH":"+7"}"#).unwrap();
    assert!(matches!(plus, Cell::MuxCell(m) if m.parameters.width == 7));
    assert_eq!(cell("$mux", r#"{"WIDTH":"4294967296"}"#).unwrap_err().cause, Cause::OutOfRange);
    assert_eq!(cell("$mux", r#"{"WIDTH":"10000000000000000000000000000000"}"#).unwrap_err().cause, Cause::OutOfRange);
    assert_eq!(cell("$mux", r#"{"WIDTH":4294967296}"#).unwrap_err().cause, Cause::OutOfRange);
    assert_eq!(cell("$mux", r#"{"WIDTH":-1}"#).unwrap_err().cause, Cause::OutOfRange);
    for bad in ["", "+", "-1", " 42", "42 ", "4x2", "0x10", "１２", "1.0"] {
        let e = cell("$mux", &format!(r#"{{"WIDTH":"{}"}}"#, bad)).unwrap_err();
        assert_eq!(e.cause, Cause::TypeMismatch(JsonKind::String), "{:?}", bad);
        assert_eq!(e.path_string(), "parameters.WIDTH");
    }
    assert_eq!(cell("$mux", r#"{"WIDTH":1.5}"#).unwrap_err().cause, Cause::TypeMismatch(JsonKind::Real));
    assert_eq!(cell("$mux", r#"{"WIDTH":null}"#).unwrap_err().cause, Cause::TypeMismatch(JsonKind::Null));
    assert_eq!(cell("$mux", r#"{"WIDTH":[1]}"#).unwrap_err().cause, Cause::TypeMismatch(JsonKind::Array));
    assert_eq!(cell("$mux", r#"{"WIDTH":{}}"#).unwrap_err().cause, Cause::TypeMismatch(JsonKind::Object));
}

#[test]
fn parameter_names_are_found_in_any_case() {
    let c = cell("$dff", r#"{"width":8,"Clk_Polarity":"1"}"#).unwrap();
    match c {
        Cell::DffCell(d) => {
            assert_eq!(d.parameters.width, 8);
            assert_eq!(d.parameters.clk_polarity, 1);
        },
        other => panic!("unexpected cell {:?}", other),
    }
    let e = cell("$dff", r#"{"width":8,"clk_polarity":false}"#).unwrap_err();
    assert_eq!(e.path_string(), "parameters.clk_polarity");
}

#[test]
fn each_flip_flop_type_selects_its_own_kind() {
    let all = r#"{"WIDTH":4,"CLK_POLARITY":1,"EN_POLARITY":1,"ARST_POLARITY":0,"ARST_VALUE":"0101","SRST_POLARITY":1,"SRST_VALUE":3,"SET_POLARITY":1,"CLR_POLARITY":0}"#;
    assert!(matches!(cell("$dff", all).unwrap(), Cell::DffCell(c) if c.parameters.width == 4 && c.parameters.clk_polarity == 1));
    assert!(matches!(cell("$adff", all).unwrap(), Cell::ADffCell(c) if c.parameters.arst_polarity == 0 && c.parameters.arst_value == 101));
    assert!(matches!(cell("$sdff", all).unwrap(), Cell::SDffCell(c) if c.parameters.srst_polarity == 1 && c.parameters.srst_value == 3));
    assert!(matches!(cell("$dffsr", all).unwrap(), Cell::DffsrCell(c) if c.parameters.set_polarity == 1 && c.parameters.clr_polarity == 0));
    assert!(matches!(cell("$dffe", all).unwrap(), Cell::DffeCell(c) if c.parameters.en_polarity == 1));
    assert!(matches!(cell("$adffe", all).unwrap(), Cell::ADffeCell(c) if c.parameters.en_polarity == 1 && c.parameters.arst_value == 101));
    assert!(matches!(cell("$sdffe", all).unwrap(), Cell::SDffeCell(c) if c.parameters.en_polarity == 1 && c.parameters.srst_value == 3));
    assert!(matches!(cell("$dffsre", all).unwrap(), Cell::DffsreCell(c) if c.parameters.en_polarity == 1 && c.parameters.set_polarity == 1));
}

#[test]
fn flip_flop_without_a_field_of_its_kind_fails() {
    let plain = r#"{"WIDTH":4,"CLK_POLARITY":1}"#;
    assert!(cell("$dff", plain).is_ok());
    let cases = [
        ("$adff", "parameters.ARST_POLARITY"),
        ("$sdff", "parameters.SRST_POLARITY"),
        ("$dffsr", "parameters.SET_POLARITY"),
        ("$dffe", "parameters.EN_POLARITY"),
        ("$adffe", "parameters.EN_POLARITY"),
        ("$sdffe", "parameters.EN_POLARITY"),
        ("$dffsre", "parameters.SET_POLARITY"),
    ];
    for (kind, path) in cases {
        let e = cell(kind, plain).unwrap_err();
        assert_eq!(e.cause, Cause::MissingField, "{}", kind);
        assert_eq!(e.path_string(), path, "{}", kind);
    }
    let e = cell("$adff", r#"{"WIDTH":4,"CLK_POLARITY":1,"ARST_POLARITY":1}"#).unwrap_err();
    assert_eq!(e.cause, Cause::MissingField);
    assert_eq!(e.path_string(), "parameters.ARST_VALUE");
    let e = cell("$dff", r#"{"WIDTH":4}"#).unwrap_err();
    assert_eq!(e.path_string(), "parameters.CLK_POLARITY");
}

#[test]
fn every_binary_type_gives_a_binary_cell() {
    let types = [
        "$or", "$and", "$xor", "$xnor", "$shl", "$shr", "$sshl", "$sshr", "$logic_and", "$logic_or",
        "$eqx", "$nex", "$lt", "$le", "$eq", "$ne", "$ge", "$gt", "$add", "$sub", "$mul", "$div",
        "$mod", "$pow", "BinaryCell",
    ];
    let parameters = r#"{"A_SIGNED":1,"A_WIDTH":8,"B_SIGNED":0,"B_WIDTH":"4","Y_WIDTH":9}"#;
    let first = cell(types[0], parameters).unwrap();
    for t in types {
        assert_eq!(cell_kind(t), Some(CellKind::Binary), "{}", t);
        let c = cell(t, parameters).unwrap();
        assert_eq!(c, first, "{}", t);
        match c {
            Cell::BinaryCell(b) => {
                assert_eq!(b.parameters.a_signed, 1);
                assert_eq!(b.parameters.a_width, 8);
                assert_eq!(b.parameters.b_signed, 0);
                assert_eq!(b.parameters.b_width, 4);
                assert_eq!(b.parameters.y_width, 9);
            },
            other => panic!("unexpected cell {:?}", other),
        }
    }
}

#[test]
fn every_unary_type_gives_a_unary_cell() {
    let types = [
        "$not", "$pos", "$neg", "$reduce_and", "$reduce_or", "$reduce_xor", "$reduce_xnor",
        "$reduce_bool", "$logic_not", "UnaryCell",
    ];
    for t in types {
        assert_eq!(cell_kind(t), Some(CellKind::Unary), "{}", t);
        let c = cell(t, r#"{"A_SIGNED":0,"A_WIDTH":3,"Y_WIDTH":1}"#).unwrap();
        assert!(matches!(c, Cell::UnaryCell(u) if u.parameters.a_width == 3 && u.parameters.y_width == 1));
    }
}

#[test]
fn the_other_types_give_their_kinds() {
    let table = [
        ("$mux", CellKind::Mux), ("MuxCell", CellKind::Mux), ("$pmux", CellKind::PMux), ("PMuxCell", CellKind::PMux),
        ("$sr", CellKind::Sr), ("SrCell", CellKind::Sr), ("$dff", CellKind::Dff), ("DffCell", CellKind::Dff),
        ("$adff", CellKind::ADff), ("ADffCell", CellKind::ADff), ("$sdff", CellKind::SDff), ("SDffCell", CellKind::SDff),
        ("$dffsr", CellKind::Dffsr), ("DffsrCell", CellKind::Dffsr), ("$dffe", CellKind::Dffe), ("DffeCell", CellKind::Dffe),
        ("$adffe", CellKind::ADffe), ("ADffeCell", CellKind::ADffe), ("$sdffe", CellKind::SDffe), ("SDffeCell", CellKind::SDffe),
        ("$dffsre", CellKind::Dffsre), ("DffsreCell", CellKind::Dffsre), ("$mem", CellKind::Mem), ("MemCell", CellKind::Mem),
        ("$print", CellKind::Print), ("PrintCell", CellKind::Print),
    ];
    for (t, k) in table {
        assert_eq!(cell_kind(t), Some(k), "{}", t);
    }
    for t in ["", "$", "$NOT", "not", "$dfff", "$frobnicate", "$add ", "unarycell"] {
        assert_eq!(cell_kind(t), None, "{:?}", t);
    }
}

#[test]
fn cell_knows_its_kind() {
    assert_eq!(cell("$pmux", r#"{"WIDTH":2,"S_WIDTH":3}"#).unwrap().kind(), CellKind::PMux);
    assert_eq!(cell("$sr", r#"{"WIDTH":2,"SET_POLARITY":1,"CLR_POLARITY":1}"#).unwrap().kind(), CellKind::Sr);
    assert_eq!(cell("$print", "{}").unwrap().kind(), CellKind::Print);
}

#[test]
fn multiplexers_and_latch_are_decoded() {
    assert!(matches!(cell("$pmux", r#"{"WIDTH":2,"S_WIDTH":3}"#).unwrap(), Cell::PMuxCell(c) if c.parameters.width == 2 && c.parameters.s_width == 3));
    assert!(matches!(cell("$sr", r#"{"WIDTH":2,"SET_POLARITY":1,"CLR_POLARITY":0}"#).unwrap(), Cell::SrCell(c) if c.parameters.width == 2 && c.parameters.set_polarity == 1 && c.parameters.clr_polarity == 0));
}

#[test]
fn print_cell_has_the_base_and_needs_no_parameters() {
    let text = design_with_cell(
        "p",
        r#"{"type":"$print","hide_name":1,"attributes":{"k":"v"},"port_directions":{"EN":"input"},"connections":{"EN":["1"]}}"#,
    );
    let design = decode_text(&text).unwrap();
    match design.modules.get("top").unwrap().cells.get("p").unwrap() {
        Cell::PrintCell(p) => {
            assert_eq!(p.base.hide_name, 1);
            assert_eq!(p.base.attributes.get("k").unwrap(), "v");
            assert_eq!(p.base.connections.get("EN").unwrap(), &vec![NumberOrString::String("1".to_string())]);
        },
        other => panic!("unexpected cell {:?}", other),
    }
    let without_base = design_with_cell("p", r#"{"type":"$print"}"#);
    let e = decode_text(&without_base).unwrap_err();
    assert_eq!(e.cause, Cause::MissingField);
    assert_eq!(e.path_string(), "modules.top.cells.p.hide_name");
}

#[test]
fn cell_without_parameters_fails() {
    let text = design_with_cell("g", r#"{"type":"$not","hide_name":0,"attributes":{},"port_directions":{},"connections":{}}"#);
    let e = decode_text(&text).unwrap_err();
    assert_eq!(e.cause, Cause::MissingField);
    assert_eq!(e.path_string(), "modules.top.cells.g.parameters");
}

#[test]
fn parameters_that_are_no_object_fail() {
    let e = cell("$not", "[]").unwrap_err();
    assert_eq!(e.cause, Cause::TypeMismatch(JsonKind::Array));
    assert_eq!(e.path_string(), "parameters");
}

#[test]
fn connection_failures_are_located() {
    let text = design_with_cell(
        "g",
        r#"{"type":"$print","hide_name":0,"attributes":{},"port_directions":{},"connections":{"A":[1,2,null]}}"#,
    );
    let e = decode_text(&text).unwrap_err();
    assert_eq!(e.cause, Cause::TypeMismatch(JsonKind::Null));
    assert_eq!(e.path_string(), "modules.top.cells.g.connections.A[2]");
    let text = design_with_cell(
        "g",
        r#"{"type":"$print","hide_name":0,"attributes":{},"port_directions":{"A":"inout"},"connections":{}}"#,
    );
    let e = decode_text(&text).unwrap_err();
    assert_eq!(e.cause, Cause::TypeMismatch(JsonKind::String));
    assert_eq!(e.path_string(), "modules.top.cells.g.port_directions.A");
}

const MEMORY: &str = r#"{"MEMID":"\\mem","SIZE":16,"ABITS":"4","WIDTH":8,"INIT":"0000xxxx1010zz01","OFFSET":0,"RD_PORTS":1,"RD_WIDE_CONTINUATION":"0","RD_CLK_ENABLE":"1","RD_CLK_POLARITY":"1","RD_TRANSPARENCY_MASK":"0","RD_COLLISION_X_MASK":"0","RD_CE_OVER_SRST":"0","RD_INIT_VALUE":"xxxxxxxx","RD_ARST_VALUE":"00000000","RD_SRST_VALUE":" 0101 ","WR_PORTS":2,"WR_WIDE_CONTINUATION":"00","WR_CLK_ENABLE":"11","WR_CLK_POLARITY":"11","WR_PRIORITY_MASK":"0000"}"#;

#[test]
fn memory_keeps_its_texts_as_they_stand() {
    match cell("$mem", MEMORY).unwrap() {
        Cell::MemCell(m) => {
            let p = m.parameters;
            assert_eq!(p.memid, "\\mem");
            assert_eq!(p.init, "0000xxxx1010zz01");
            assert_eq!(p.rd_init_value, "xxxxxxxx");
            assert_eq!(p.rd_arst_value, "00000000");
            assert_eq!(p.rd_srst_value, " 0101 ");
            assert_eq!(p.size, 16);
            assert_eq!(p.abits, 4);
            assert_eq!(p.width, 8);
            assert_eq!(p.offset, 0);
            assert_eq!(p.rd_ports, 1);
            assert_eq!(p.rd_wide_continuation, 0);
            assert_eq!(p.rd_clk_enable, 1);
            assert_eq!(p.rd_clk_polarity, 1);
            assert_eq!(p.rd_transparency_mask, 0);
            assert_eq!(p.rd_collision_x_mask, 0);
            assert_eq!(p.rd_ce_over_srst, 0);
            assert_eq!(p.wr_ports, 2);
            assert_eq!(p.wr_wide_continuation, 0);
            assert_eq!(p.wr_clk_enable, 11);
            assert_eq!(p.wr_clk_polarity, 11);
            assert_eq!(p.wr_priority_mask, 0);
        },
        other => panic!("unexpected cell {:?}", other),
    }
}

#[test]
fn memory_texts_are_not_read_as_numbers() {
    let numeric_init = MEMORY.replace(r#""INIT":"0000xxxx1010zz01""#, r#""INIT":"42""#);
    assert!(matches!(cell("$mem", &numeric_init).unwrap(), Cell::MemCell(m) if m.parameters.init == "42"));
    let number = MEMORY.replace(r#""INIT":"0000xxxx1010zz01""#, r#""INIT":42"#);
    let e = cell("$mem", &number).unwrap_err();
    assert_eq!(e.cause, Cause::TypeMismatch(JsonKind::Integer));
    assert_eq!(e.path_string(), "parameters.INIT");
    let missing = MEMORY.replace(r#""RD_SRST_VALUE":" 0101 ","#, "");
    let e = cell("$mem", &missing).unwrap_err();
    assert_eq!(e.cause, Cause::MissingField);
    assert_eq!(e.path_string(), "parameters.RD_SRST_VALUE");
}

#[test]
fn cell_that_is_no_object_is_a_mismatch() {
    let e = decode_cell(&parse_json("\"$not\"").unwrap()).unwrap_err();
    assert_eq!(e.cause, Cause::TypeMismatch(JsonKind::String));
    assert!(e.path.is_empty());
}
