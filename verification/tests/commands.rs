use yosys_netlist::command::{command_line, discovery_commands, elaboration_commands, module_names};
use yosys_netlist::error::{Cause, DecodeError, Segment};
use yosys_netlist::json::{parse_json, JsonKind};

#[test]
fn command_line_without_modules() {
    let line = command_line("./yosys/yosys", "temp.json", &vec!["proc"], &vec![], "temp.v");
    assert_eq!(line, "./yosys/yosys -o temp.json -p \"proc\" temp.v");
}

#[test]
fn command_line_with_modules() {
    let line = command_line("yosys", "out.json", &vec!["proc", "flatten", "opt -mux_bool"], &vec!["top", "alu"], "a.v");
    assert_eq!(line, "yosys -o out.json -p \"proc; flatten; opt -mux_bool\" -r top alu a.v");
}

#[test]
fn command_line_without_commands() {
    let line = command_line("yosys", "out.json", &vec![], &vec!["top"], "a.v");
    assert_eq!(line, "yosys -o out.json -p \"\" -r top a.v");
}

#[test]
fn scripts_of_the_two_runs() {
    assert_eq!(discovery_commands(), vec!["proc"]);
    let second = elaboration_commands();
    assert_eq!(second.len(), 16);
    assert_eq!(second[0], "proc");
    assert_eq!(second[6], "memory -nomap -nordff");
    assert_eq!(second[15], "show -colors 1 -format png -prefix temp");
    let line = command_line("y", "o", &second, &vec![], "s");
    assert_eq!(
        line,
        "y -o o -p \"proc; flatten; wreduce; opt; fsm; opt; memory -nomap -nordff; opt; muxpack; peepopt; async2sync; wreduce; opt -mux_bool; clean; check; show -colors 1 -format png -prefix temp\" s"
    );
}

#[test]
fn module_names_are_listed_in_order() {
    let j = parse_json(r#"{"creator":"yosys","modules":{"top":{},"alu":{"x":1},"$paramod\\m":{}}}"#).unwrap();
    assert_eq!(module_names(&j), vec!["top", "alu", "$paramod\\m"]);
}

#[test]
fn module_names_of_other_documents_are_none() {
    for text in ["{}", "[]", "null", r#"{"modules":[]}"#, r#"{"modules":"top"}"#, r#"{"creator":"yosys"}"#] {
        let j = parse_json(text).unwrap();
        assert!(module_names(&j).is_empty(), "{}", text);
    }
}

#[test]
fn paths_are_written_with_stops_and_brackets() {
    let e = DecodeError { path: vec![], cause: Cause::OutOfRange };
    assert_eq!(e.path_string(), ".");
    let e = DecodeError {
        path: vec![Segment::Key("a".to_string()), Segment::Index(0), Segment::Index(12), Segment::Key("b".to_string())],
        cause: Cause::OutOfRange,
    };
    assert_eq!(e.path_string(), "a[0][12].b");
    let e = DecodeError { path: vec![Segment::Index(4294967295), Segment::Key("k".to_string())], cause: Cause::MissingField };
    assert_eq!(e.path_string(), "[4294967295].k");
    let e = DecodeError { path: vec![Segment::Key("".to_string()), Segment::Key("x.y".to_string())], cause: Cause::MissingField };
    assert_eq!(e.path_string(), ".x.y");
}

#[test]
fn failures_are_seen_from_further_out() {
    let e = DecodeError::here(Cause::TypeMismatch(JsonKind::Null));
    assert!(e.path.is_empty());
    let e = e.under(Segment::Index(3)).under_key("bits");
    assert_eq!(e.path, vec![Segment::Key("bits".to_string()), Segment::Index(3)]);
    assert_eq!(e.cause, Cause::TypeMismatch(JsonKind::Null));
    let m = DecodeError::missing("creator");
    assert_eq!(m.path, vec![Segment::Key("creator".to_string())]);
    assert_eq!(m.cause, Cause::MissingField);
}
