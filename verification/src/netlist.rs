//! Ports, nets, modules and the design.

use vstd::prelude::*;
use crate::decode::{
    list_of, mismatch, mismatch_at, plain_number_at, read_list, read_plain_number,
    read_required, read_table, read_text, required, table_of, text_of,
};
use crate::error::{outcome, DecodeError, Failure, Step};
use crate::json::{lemma_view_parts, members_of, Json, JsonValue, Members};
use crate::cell::{cell_of, decode_cell};
use crate::json::{document_of, find, member, parse_json};
use crate::laws::lemma_names_stay_distinct;
use crate::text::same_text;
use crate::types::{
    Cell, CellView, Direction, Module, ModuleView, Net, NetView, Port, PortView, Table,
    YosysData, YosysDataView,
};

verus! {

/// The bits of a port or of a net: an array of JSON numbers.
pub open spec fn bits_of(j: JsonValue) -> Result<Seq<u32>, Failure> {
    list_of(j, |e: JsonValue| plain_number_at(e))
}

/// Attributes: an object whose members are texts.
pub open spec fn attributes_of(j: JsonValue) -> Result<Seq<(Seq<char>, Seq<char>)>, Failure> {
    table_of(j, |e: JsonValue| text_of(e))
}

/// A direction is the text `input` or the text `output`.
pub open spec fn direction_of(j: JsonValue) -> Result<Direction, Failure> {
    match j {
        JsonValue::String(s) => if s == "input"@ {
            Ok(Direction::Input)
        } else if s == "output"@ {
            Ok(Direction::Output)
        } else {
            Err(mismatch(j))
        },
        _ => Err(mismatch(j)),
    }
}

/// A port: an object with a `direction` and `bits`.
pub open spec fn port_of(j: JsonValue) -> Result<PortView, Failure> {
    match j {
        JsonValue::Object(members) => {
            let direction = required(members, "direction"@, |e: JsonValue| direction_of(e));
            let bits = required(members, "bits"@, |e: JsonValue| bits_of(e));
            if direction is Err {
                Err(direction->Err_0)
            } else if bits is Err {
                Err(bits->Err_0)
            } else {
                Ok(PortView { direction: direction->Ok_0, bits: bits->Ok_0 })
            }
        },
        _ => Err(mismatch(j)),
    }
}

/// Reads the bits of a port or of a net.
pub fn decode_bits(j: &Json) -> (r: Result<Vec<u32>, DecodeError>)
    ensures
        outcome(r) == bits_of(j@),
{
    let r = read_list(j, read_plain_number, Ghost(|e: JsonValue| plain_number_at(e)));
    assert(r is Ok ==> r->Ok_0.deep_view() =~= r->Ok_0@);
    r
}

/// Reads attributes.
pub fn decode_attributes(j: &Json) -> (r: Result<Table<String>, DecodeError>)
    ensures
        outcome(r) == attributes_of(j@),
{
    read_table(j, read_text, Ghost(|e: JsonValue| text_of(e)))
}

/// Reads a direction.
pub fn decode_direction(j: &Json) -> (r: Result<Direction, DecodeError>)
    ensures
        outcome(r) == direction_of(j@),
{
    match j {
        Json::String(s) => {
            if same_text(s.as_str(), "input") {
                Ok(Direction::Input)
            } else if same_text(s.as_str(), "output") {
                Ok(Direction::Output)
            } else {
                Err(mismatch_at(j))
            }
        },
        _ => Err(mismatch_at(j)),
    }
}

/// Reads a port.
pub fn decode_port(j: &Json) -> (r: Result<Port, DecodeError>)
    ensures
        outcome(r) == port_of(j@),
{
    match j {
        Json::Object(fields) => {
            proof {
                lemma_view_parts(*j);
            }
            let direction = read_required(
                fields,
                "direction",
                decode_direction,
                Ghost(|e: JsonValue| direction_of(e)),
            )?;
            let bits = read_required(fields, "bits", decode_bits, Ghost(|e: JsonValue| bits_of(e)))?;
            assert(bits.deep_view() =~= bits@);
            Ok(Port { direction, bits })
        },
        _ => Err(mismatch_at(j)),
    }
}


/// A net: an object with `hide_name`, `attributes` and `bits`, read in this order.
pub open spec fn net_of(j: JsonValue) -> Result<NetView, Failure> {
    match j {
        JsonValue::Object(members) => {
            let hide_name = required(members, "hide_name"@, |e: JsonValue| plain_number_at(e));
            let attributes = required(members, "attributes"@, |e: JsonValue| attributes_of(e));
            let bits = required(members, "bits"@, |e: JsonValue| bits_of(e));
            if hide_name is Err {
                Err(hide_name->Err_0)
            } else if attributes is Err {
                Err(attributes->Err_0)
            } else if bits is Err {
                Err(bits->Err_0)
            } else {
                Ok(
                    NetView {
                        hide_name: hide_name->Ok_0,
                        attributes: attributes->Ok_0,
                        bits: bits->Ok_0,
                    },
                )
            }
        },
        _ => Err(mismatch(j)),
    }
}

/// Reads a net.
pub fn decode_net(j: &Json) -> (r: Result<Net, DecodeError>)
    ensures
        outcome(r) == net_of(j@),
{
    match j {
        Json::Object(fields) => {
            proof {
                lemma_view_parts(*j);
            }
            let hide_name = read_required(
                fields,
                "hide_name",
                read_plain_number,
                Ghost(|e: JsonValue| plain_number_at(e)),
            )?;
            let attributes = read_required(
                fields,
                "attributes",
                decode_attributes,
                Ghost(|e: JsonValue| attributes_of(e)),
            )?;
            let bits = read_required(fields, "bits", decode_bits, Ghost(|e: JsonValue| bits_of(e)))?;
            assert(bits.deep_view() =~= bits@);
            Ok(Net { hide_name, attributes, bits })
        },
        _ => Err(mismatch_at(j)),
    }
}

/// The ports of a module: an object whose members are ports.
pub open spec fn ports_of(j: JsonValue) -> Result<Seq<(Seq<char>, PortView)>, Failure> {
    table_of(j, |e: JsonValue| port_of(e))
}

/// The cells of a module: an object whose members are cells.
pub open spec fn cells_of(j: JsonValue) -> Result<Seq<(Seq<char>, CellView)>, Failure> {
    table_of(j, |e: JsonValue| cell_of(e))
}

/// The nets of a module: an object whose members are nets.
pub open spec fn nets_of(j: JsonValue) -> Result<Seq<(Seq<char>, NetView)>, Failure> {
    table_of(j, |e: JsonValue| net_of(e))
}

/// A member that may be absent: where the object has no member called
/// `name`, or the member is `null`, there is nothing; else the member is decoded.
pub open spec fn optional<T>(
    members: Members,
    name: Seq<char>,
    decode: spec_fn(JsonValue) -> Result<T, Failure>,
) -> Result<Option<T>, Failure> {
    match find(members, name) {
        None => Ok(None),
        Some(JsonValue::Null) => Ok(None),
        Some(v) => match decode(v) {
            Ok(t) => Ok(Some(t)),
            Err(f) => Err(f.under(Step::Key(name))),
        },
    }
}

/// A module: an object with `attributes`, `ports`, `cells` and `netnames`,
/// and maybe `parameter_default_values`, read in the order of the fields.
pub open spec fn module_of(j: JsonValue) -> Result<ModuleView, Failure> {
    match j {
        JsonValue::Object(members) => {
            let attributes = required(members, "attributes"@, |e: JsonValue| attributes_of(e));
            let parameter_default_values = optional(
                members,
                "parameter_default_values"@,
                |e: JsonValue| attributes_of(e),
            );
            let ports = required(members, "ports"@, |e: JsonValue| ports_of(e));
            let cells = required(members, "cells"@, |e: JsonValue| cells_of(e));
            let netnames = required(members, "netnames"@, |e: JsonValue| nets_of(e));
            if attributes is Err {
                Err(attributes->Err_0)
            } else if parameter_default_values is Err {
                Err(parameter_default_values->Err_0)
            } else if ports is Err {
                Err(ports->Err_0)
            } else if cells is Err {
                Err(cells->Err_0)
            } else if netnames is Err {
                Err(netnames->Err_0)
            } else {
                Ok(
                    ModuleView {
                        attributes: attributes->Ok_0,
                        parameter_default_values: parameter_default_values->Ok_0,
                        ports: ports->Ok_0,
                        cells: cells->Ok_0,
                        netnames: netnames->Ok_0,
                    },
                )
            }
        },
        _ => Err(mismatch(j)),
    }
}

/// The modules of a design: an object whose members are modules.
pub open spec fn modules_of(j: JsonValue) -> Result<Seq<(Seq<char>, ModuleView)>, Failure> {
    table_of(j, |e: JsonValue| module_of(e))
}

/// A design: an object with a `creator` and `modules`, read in this order.
pub open spec fn design_of(j: JsonValue) -> Result<YosysDataView, Failure> {
    match j {
        JsonValue::Object(members) => {
            let creator = required(members, "creator"@, |e: JsonValue| text_of(e));
            let modules = required(members, "modules"@, |e: JsonValue| modules_of(e));
            if creator is Err {
                Err(creator->Err_0)
            } else if modules is Err {
                Err(modules->Err_0)
            } else {
                Ok(YosysDataView { creator: creator->Ok_0, modules: modules->Ok_0 })
            }
        },
        _ => Err(mismatch(j)),
    }
}

/// Reads the ports of a module.
pub fn decode_ports(j: &Json) -> (r: Result<Table<Port>, DecodeError>)
    ensures
        outcome(r) == ports_of(j@),
{
    read_table(j, decode_port, Ghost(|e: JsonValue| port_of(e)))
}

/// Reads the cells of a module.
pub fn decode_cells(j: &Json) -> (r: Result<Table<Cell>, DecodeError>)
    ensures
        outcome(r) == cells_of(j@),
{
    read_table(j, decode_cell, Ghost(|e: JsonValue| cell_of(e)))
}

/// Reads the nets of a module.
pub fn decode_nets(j: &Json) -> (r: Result<Table<Net>, DecodeError>)
    ensures
        outcome(r) == nets_of(j@),
{
    read_table(j, decode_net, Ghost(|e: JsonValue| net_of(e)))
}

/// Reads the default values of the parameters of a module, where it has any.
pub fn decode_parameter_defaults(fields: &Vec<(String, Json)>) -> (r: Result<
    Option<Table<String>>,
    DecodeError,
>)
    ensures
        outcome(r) == optional(
            members_of(fields@),
            "parameter_default_values"@,
            |e: JsonValue| attributes_of(e),
        ),
{
    match member(fields, "parameter_default_values") {
        None => Ok(None),
        Some(Json::Null) => Ok(None),
        Some(j) => match decode_attributes(j) {
            Ok(t) => Ok(Some(t)),
            Err(e) => Err(e.under_key("parameter_default_values")),
        },
    }
}

/// Reads a module.
pub fn decode_module(j: &Json) -> (r: Result<Module, DecodeError>)
    ensures
        outcome(r) == module_of(j@),
{
    match j {
        Json::Object(fields) => {
            proof {
                lemma_view_parts(*j);
            }
            let attributes = read_required(
                fields,
                "attributes",
                decode_attributes,
                Ghost(|e: JsonValue| attributes_of(e)),
            )?;
            let parameter_default_values = decode_parameter_defaults(fields)?;
            let ports = read_required(fields, "ports", decode_ports, Ghost(|e: JsonValue| ports_of(e)))?;
            let cells = read_required(fields, "cells", decode_cells, Ghost(|e: JsonValue| cells_of(e)))?;
            let netnames = read_required(
                fields,
                "netnames",
                decode_nets,
                Ghost(|e: JsonValue| nets_of(e)),
            )?;
            Ok(Module { attributes, parameter_default_values, ports, cells, netnames })
        },
        _ => Err(mismatch_at(j)),
    }
}

/// Reads the modules of a design.
pub fn decode_modules(j: &Json) -> (r: Result<Table<Module>, DecodeError>)
    ensures
        outcome(r) == modules_of(j@),
{
    read_table(j, decode_module, Ghost(|e: JsonValue| module_of(e)))
}

/// Reads a design from a JSON document.
pub fn decode_design(j: &Json) -> (r: Result<YosysData, DecodeError>)
    ensures
        outcome(r) == design_of(j@),
{
    match j {
        Json::Object(fields) => {
            proof {
                lemma_view_parts(*j);
            }
            let creator = read_required(fields, "creator", read_text, Ghost(|e: JsonValue| text_of(e)))?;
            let modules = read_required(
                fields,
                "modules",
                decode_modules,
                Ghost(|e: JsonValue| modules_of(e)),
            )?;
            Ok(YosysData { creator, modules })
        },
        _ => Err(mismatch_at(j)),
    }
}

/// Reads a design from the text of a JSON document.
///
/// A text that is not JSON fails as `MalformedDocument` at the root. Any
/// other text gives what `decode_design` makes of the document in it; in a
/// design read from a text no name stands twice in a table.
pub fn decode_text(text: &str) -> (r: Result<YosysData, DecodeError>)
    ensures
        match document_of(text@) {
            Some(j) => outcome(r) == design_of(j),
            None => r is Err && r->Err_0.deep_view().path.len() == 0
                && r->Err_0.cause is MalformedDocument,
        },
        r matches Ok(d) ==> d.deep_view().well_named(),
{
    match parse_json(text) {
        Ok(j) => {
            proof {
                if design_of(j@) is Ok {
                    lemma_names_stay_distinct(j@);
                }
            }
            decode_design(&j)
        },
        Err(e) => Err(e),
    }
}

} // verus!
