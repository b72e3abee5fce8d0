use yosys_netlist::error::{Cause, Segment};
use yosys_netlist::json::{parse_json, Json, JsonKind};
use yosys_netlist::netlist::{decode_design, decode_text};
use yosys_netlist::types::Direction;

fn module_text(body: &str) -> String {
    format!(r#"{{"creator":"yosys","modules":{{"top":{}}}}}"#, body)
}

#[test]
fn decodes_the_smallest_design() {
    let text = r#"{"creator":"yosys","modules":{"top":{"attributes":{},"ports":{"a":{"direction":"input","bits":[2]}},"cells":{},"netnames":{}}}}"#;
    let design = decode_text(text).unwrap();
    assert_eq!(design.creator, "yosys");
    assert_eq!(design.modules.len(), 1);
    let top = design.modules.get("top").unwrap();
    assert_eq!(top.ports.len(), 1);
    let a = top.ports.get("a").unwrap();
    assert_eq!(a.direction, Direction::Input);
    assert_eq!(a.bits, vec![2]);
    assert!(top.cells.is_empty());
    assert!(top.netnames.is_empty());
    assert!(top.attributes.is_empty());
    assert!(top.parameter_default_values.is_none());
}

#[test]
fn module_without_cells_and_nets_decodes() {
    let text = module_text(r#"{"attributes":{"top":"1"},"ports":{},"cells":{},"netnames":{}}"#);
    let design = decode_text(&text).unwrap();
    let top = design.modules.get("top").unwrap();
    assert_eq!(top.cells.len(), 0);
    assert_eq!(top.netnames.len(), 0);
    assert_eq!(top.attributes.get("top").unwrap(), "1");
}

#[test]
fn design_without_modules_decodes() {
    let design = decode_text(r#"{"creator":"Yosys 0.38","modules":{}}"#).unwrap();
    assert_eq!(design.creator, "Yosys 0.38");
    assert!(design.modules.is_empty());
    assert!(design.modules.get("top").is_none());
}

#[test]
fn modules_keep_the_order_of_the_document() {
    let empty = r#"{"attributes":{},"ports":{},"cells":{},"netnames":{}}"#;
    let text = format!(r#"{{"creator":"yosys","modules":{{"zeta":{e},"alpha":{e},"mid":{e}}}}}"#, e = empty);
    let design = decode_text(&text).unwrap();
    let names: Vec<&str> = design.modules.entries.iter().map(|e| e.0.as_str()).collect();
    assert_eq!(names, vec!["zeta", "alpha", "mid"]);
}

#[test]
fn nets_are_decoded() {
    let text = module_text(
        r#"{"attributes":{},"ports":{"y":{"direction":"output","bits":[3,4]}},"cells":{},"netnames":{"y":{"hide_name":0,"attributes":{"src":"top.v:1"},"bits":[3,4]},"$1":{"hide_name":1,"attributes":{},"bits":[]}}}"#,
    );
    let design = decode_text(&text).unwrap();
    let top = design.modules.get("top").unwrap();
    assert_eq!(top.ports.get("y").unwrap().direction, Direction::Output);
    let y = top.netnames.get("y").unwrap();
    assert_eq!(y.hide_name, 0);
    assert_eq!(y.bits, vec![3, 4]);
    assert_eq!(y.attributes.get("src").unwrap(), "top.v:1");
    let hidden = top.netnames.get("$1").unwrap();
    assert_eq!(hidden.hide_name, 1);
    assert!(hidden.bits.is_empty());
}

#[test]
fn parameter_default_values_may_be_absent_null_or_given() {
    let absent = module_text(r#"{"attributes":{},"ports":{},"cells":{},"netnames":{}}"#);
    let null = module_text(r#"{"attributes":{},"parameter_default_values":null,"ports":{},"cells":{},"netnames":{}}"#);
    let given = module_text(r#"{"attributes":{},"parameter_default_values":{"W":"00000000000000000000000000001000"},"ports":{},"cells":{},"netnames":{}}"#);
    assert!(decode_text(&absent).unwrap().modules.get("top").unwrap().parameter_default_values.is_none());
    assert!(decode_text(&null).unwrap().modules.get("top").unwrap().parameter_default_values.is_none());
    let design = decode_text(&given).unwrap();
    let defaults = design.modules.get("top").unwrap().parameter_default_values.as_ref().unwrap();
    assert_eq!(defaults.get("W").unwrap(), "00000000000000000000000000001000");
}

#[test]
fn members_that_the_schema_does_not_name_are_passed_over() {
    let text = r#"{"creator":"yosys","version":3,"modules":{"top":{"attributes":{},"ports":{},"cells":{},"netnames":{},"memories":{}}}}"#;
    assert!(decode_text(text).is_ok());
}

#[test]
fn missing_creator_fails() {
    let e = decode_text(r#"{"modules":{}}"#).unwrap_err();
    assert_eq!(e.cause, Cause::MissingField);
    assert_eq!(e.path_string(), "creator");
    assert_eq!(e.path, vec![Segment::Key("creator".to_string())]);
}

#[test]
fn missing_modules_fails() {
    let e = decode_text(r#"{"creator":"yosys"}"#).unwrap_err();
    assert_eq!(e.cause, Cause::MissingField);
    assert_eq!(e.path_string(), "modules");
}

#[test]
fn creator_of_the_wrong_kind_fails() {
    let e = decode_text(r#"{"creator":7,"modules":{}}"#).unwrap_err();
    assert_eq!(e.cause, Cause::TypeMismatch(JsonKind::Integer));
    assert_eq!(e.path_string(), "creator");
}

#[test]
fn document_that_is_no_object_fails_at_the_root() {
    let e = decode_text("[1,2]").unwrap_err();
    assert_eq!(e.cause, Cause::TypeMismatch(JsonKind::Array));
    assert!(e.path.is_empty());
    assert_eq!(e.path_string(), ".");
}

#[test]
fn text_that_is_not_json_is_malformed() {
    let e = decode_text(r#"{"creator": "yosys", "modules": "#).unwrap_err();
    assert!(matches!(e.cause, Cause::MalformedDocument(_)));
    assert!(e.path.is_empty());
    let e = decode_text("").unwrap_err();
    assert!(matches!(e.cause, Cause::MalformedDocument(_)));
}

#[test]
fn malformed_document_carries_the_message_of_the_reader() {
    let e = decode_text("{\"creator\": tru}").unwrap_err();
    match e.cause {
        Cause::MalformedDocument(message) => assert!(message.contains("line 1")),
        other => panic!("unexpected cause {:?}", other),
    }
}

#[test]
fn first_failure_in_document_order_is_reported() {
    let text = r#"{"creator":"yosys","modules":{"a":{"attributes":{},"ports":{},"cells":{},"netnames":{}},"b":{"attributes":{},"ports":{"p":{"direction":"sideways","bits":[]}},"cells":{},"netnames":{}},"c":{}}}"#;
    let e = decode_text(text).unwrap_err();
    assert_eq!(e.cause, Cause::TypeMismatch(JsonKind::String));
    assert_eq!(e.path_string(), "modules.b.ports.p.direction");
}

#[test]
fn bits_fail_under_their_position() {
    let text = module_text(r#"{"attributes":{},"ports":{"a":{"direction":"input","bits":[2,"x",4]}},"cells":{},"netnames":{}}"#);
    let e = decode_text(&text).unwrap_err();
    assert_eq!(e.cause, Cause::TypeMismatch(JsonKind::String));
    assert_eq!(e.path_string(), "modules.top.ports.a.bits[1]");
    assert_eq!(e.path.last().unwrap(), &Segment::Index(1));
}

#[test]
fn bits_out_of_range_fail() {
    let big = module_text(r#"{"attributes":{},"ports":{"a":{"direction":"input","bits":[4294967296]}},"cells":{},"netnames":{}}"#);
    let e = decode_text(&big).unwrap_err();
    assert_eq!(e.cause, Cause::OutOfRange);
    assert_eq!(e.path_string(), "modules.top.ports.a.bits[0]");
    let negative = module_text(r#"{"attributes":{},"ports":{"a":{"direction":"input","bits":[0,-1]}},"cells":{},"netnames":{}}"#);
    let e = decode_text(&negative).unwrap_err();
    assert_eq!(e.cause, Cause::OutOfRange);
    assert_eq!(e.path_string(), "modules.top.ports.a.bits[1]");
    let most = module_text(r#"{"attributes":{},"ports":{"a":{"direction":"input","bits":[4294967295]}},"cells":{},"netnames":{}}"#);
    let design = decode_text(&most).unwrap();
    assert_eq!(design.modules.get("top").unwrap().ports.get("a").unwrap().bits, vec![u32::MAX]);
}

#[test]
fn number_that_is_not_whole_is_a_mismatch() {
    let text = module_text(r#"{"attributes":{},"ports":{},"cells":{},"netnames":{"n":{"hide_name":0.5,"attributes":{},"bits":[]}}}"#);
    let e = decode_text(&text).unwrap_err();
    assert_eq!(e.cause, Cause::TypeMismatch(JsonKind::Real));
    assert_eq!(e.path_string(), "modules.top.netnames.n.hide_name");
}

#[test]
fn hide_name_is_not_read_from_a_text() {
    let text = module_text(r#"{"attributes":{},"ports":{},"cells":{},"netnames":{"n":{"hide_name":"1","attributes":{},"bits":[]}}}"#);
    let e = decode_text(&text).unwrap_err();
    assert_eq!(e.cause, Cause::TypeMismatch(JsonKind::String));
}

#[test]
fn attribute_that_is_no_text_fails_under_its_name() {
    let text = module_text(r#"{"attributes":{"keep":true},"ports":{},"cells":{},"netnames":{}}"#);
    let e = decode_text(&text).unwrap_err();
    assert_eq!(e.cause, Cause::TypeMismatch(JsonKind::Bool));
    assert_eq!(e.path_string(), "modules.top.attributes.keep");
}

#[test]
fn text_after_the_document_is_not_read() {
    let design = decode_text("{\"creator\":\"yosys\",\"modules\":{}} trailing").unwrap();
    assert_eq!(design.creator, "yosys");
}

#[test]
fn parse_json_builds_the_document() {
    let j = parse_json(r#"{"b":[1,-2,1.5,"t",null,true],"a":{}}"#).unwrap();
    match j {
        Json::Object(fields) => {
            assert_eq!(fields.len(), 2);
            assert_eq!(fields[0].0, "b");
            assert_eq!(fields[1].0, "a");
            match &fields[0].1 {
                Json::Array(items) => {
                    assert_eq!(items.len(), 6);
                    assert!(matches!(items[0], Json::Integer(1)));
                    assert!(matches!(items[1], Json::Integer(-2)));
                    assert!(matches!(items[2], Json::Real));
                    assert!(matches!(&items[3], Json::String(s) if s == "t"));
                    assert!(matches!(items[4], Json::Null));
                    assert!(matches!(items[5], Json::Bool(true)));
                    assert_eq!(items[2].kind(), JsonKind::Real);
                },
                other => panic!("unexpected value {:?}", other),
            }
            assert!(matches!(&fields[1].1, Json::Object(inner) if inner.is_empty()));
        },
        other => panic!("unexpected value {:?}", other),
    }
}

#[test]
fn parse_json_keeps_large_numbers() {
    let j = parse_json("[18446744073709551615, -9223372036854775808]").unwrap();
    match j {
        Json::Array(items) => {
            assert!(matches!(items[0], Json::Integer(18446744073709551615)));
            assert!(matches!(items[1], Json::Integer(-9223372036854775808)));
        },
        other => panic!("unexpected value {:?}", other),
    }
}

#[test]
fn decode_design_reads_a_document_built_by_hand() {
    let port = Json::Object(vec![
        ("direction".to_string(), Json::String("input".to_string())),
        ("bits".to_string(), Json::Array(vec![Json::Integer(2)])),
    ]);
    let module = Json::Object(vec![
        ("attributes".to_string(), Json::Object(vec![])),
        ("ports".to_string(), Json::Object(vec![("a".to_string(), port)])),
        ("cells".to_string(), Json::Object(vec![])),
        ("netnames".to_string(), Json::Object(vec![])),
    ]);
    let document = Json::Object(vec![
        ("creator".to_string(), Json::String("yosys".to_string())),
        ("modules".to_string(), Json::Object(vec![("top".to_string(), module)])),
    ]);
    let design = decode_design(&document).unwrap();
    assert_eq!(design.modules.get("top").unwrap().ports.get("a").unwrap().bits, vec![2]);
}

#[test]
fn lookup_finds_the_first_of_two_entries() {
    let first = Json::Object(vec![
        ("attributes".to_string(), Json::Object(vec![("n".to_string(), Json::String("1".to_string()))])),
        ("ports".to_string(), Json::Object(vec![])),
        ("cells".to_string(), Json::Object(vec![])),
        ("netnames".to_string(), Json::Object(vec![])),
    ]);
    let second = Json::Object(vec![
        ("attributes".to_string(), Json::Object(vec![])),
        ("ports".to_string(), Json::Object(vec![])),
        ("cells".to_string(), Json::Object(vec![])),
        ("netnames".to_string(), Json::Object(vec![])),
    ]);
    let document = Json::Object(vec![
        ("creator".to_string(), Json::String("yosys".to_string())),
        ("modules".to_string(), Json::Object(vec![("m".to_string(), first), ("m".to_string(), second)])),
    ]);
    let design = decode_design(&document).unwrap();
    assert_eq!(design.modules.len(), 2);
    assert_eq!(design.modules.get("m").unwrap().attributes.len(), 1);
}
