//! Cells: the table of cell types, the parameters of each kind, and the cell decoder.

use vstd::prelude::*;
use crate::decode::{
    list_of, mismatch, mismatch_at, number_at, plain_number_at, read_list, read_number,
    read_plain_number, read_required, read_required_folded, read_table, read_text, required,
    required_folded, table_of, text_of,
};
use crate::error::{outcome, Cause, DecodeError, Failure, Reason};
use crate::json::{lemma_view_parts, members_of, Json, JsonValue, Members};
use crate::netlist::{attributes_of, decode_attributes, decode_direction, direction_of};
use crate::text::same_text;
use crate::types::{
    ADffCell, ADffCellParameters, ADffeCell, ADffeCellParameters, BinaryCell,
    BinaryCellParameters, Cell, CellBase, CellBaseView, CellShape, CellView, Connections,
    DffCell, DffCellParameters, DffeCell, DffeCellParameters, DffsrCell, DffsrCellParameters,
    DffsreCell, DffsreCellParameters, Direction, MemCell, MemCellParameters,
    MemCellParametersView, MuxCell, MuxCellParameters, NumberOrString, NumberOrStringView,
    PMuxCell, PMuxCellParameters, PrintCell, SDffCell, SDffCellParameters, SDffeCell,
    SDffeCellParameters, SrCell, SrCellParameters, Table, UnaryCell, UnaryCellParameters,
};

verus! {

/// The kinds of cell. Many cell types share one kind.
#[derive(Debug, Clone, Copy, PartialEq, Eq, Structural)]
pub enum CellKind {
    Unary,
    Binary,
    Mux,
    PMux,
    Sr,
    Dff,
    ADff,
    SDff,
    Dffsr,
    Dffe,
    ADffe,
    SDffe,
    Dffsre,
    Mem,
    Print,
}

impl DeepView for CellKind {
    type V = CellKind;

    open spec fn deep_view(&self) -> CellKind {
        *self
    }
}

/// The types of the gates with one operand.
pub open spec fn unary_types() -> Seq<(Seq<char>, CellKind)> {
    seq![
        ("UnaryCell"@, CellKind::Unary),
        ("$not"@, CellKind::Unary),
        ("$pos"@, CellKind::Unary),
        ("$neg"@, CellKind::Unary),
        ("$reduce_and"@, CellKind::Unary),
        ("$reduce_or"@, CellKind::Unary),
        ("$reduce_xor"@, CellKind::Unary),
        ("$reduce_xnor"@, CellKind::Unary),
        ("$reduce_bool"@, CellKind::Unary),
        ("$logic_not"@, CellKind::Unary),
    ]
}

/// The types of the gates with two operands that work bit by bit, shift, or join truth values.
pub open spec fn logic_types() -> Seq<(Seq<char>, CellKind)> {
    seq![
        ("BinaryCell"@, CellKind::Binary),
        ("$or"@, CellKind::Binary),
        ("$and"@, CellKind::Binary),
        ("$xor"@, CellKind::Binary),
        ("$xnor"@, CellKind::Binary),
        ("$shl"@, CellKind::Binary),
        ("$shr"@, CellKind::Binary),
        ("$sshl"@, CellKind::Binary),
        ("$sshr"@, CellKind::Binary),
        ("$logic_and"@, CellKind::Binary),
        ("$logic_or"@, CellKind::Binary),
    ]
}

/// The types of the gates that compare two operands.
pub open spec fn comparison_types() -> Seq<(Seq<char>, CellKind)> {
    seq![
        ("$eqx"@, CellKind::Binary),
        ("$nex"@, CellKind::Binary),
        ("$lt"@, CellKind::Binary),
        ("$le"@, CellKind::Binary),
        ("$eq"@, CellKind::Binary),
        ("$ne"@, CellKind::Binary),
        ("$ge"@, CellKind::Binary),
        ("$gt"@, CellKind::Binary),
    ]
}

/// The types of the gates that calculate with two operands.
pub open spec fn arithmetic_types() -> Seq<(Seq<char>, CellKind)> {
    seq![
        ("$add"@, CellKind::Binary),
        ("$sub"@, CellKind::Binary),
        ("$mul"@, CellKind::Binary),
        ("$div"@, CellKind::Binary),
        ("$mod"@, CellKind::Binary),
        ("$pow"@, CellKind::Binary),
    ]
}

/// The types of the multiplexers.
pub open spec fn multiplexer_types() -> Seq<(Seq<char>, CellKind)> {
    seq![
        ("MuxCell"@, CellKind::Mux),
        ("$mux"@, CellKind::Mux),
        ("PMuxCell"@, CellKind::PMux),
        ("$pmux"@, CellKind::PMux),
    ]
}

/// The types of the latch and of the flip-flops without an enable.
pub open spec fn register_types() -> Seq<(Seq<char>, CellKind)> {
    seq![
        ("SrCell"@, CellKind::Sr),
        ("$sr"@, CellKind::Sr),
        ("DffCell"@, CellKind::Dff),
        ("$dff"@, CellKind::Dff),
        ("ADffCell"@, CellKind::ADff),
        ("$adff"@, CellKind::ADff),
        ("SDffCell"@, CellKind::SDff),
        ("$sdff"@, CellKind::SDff),
        ("DffsrCell"@, CellKind::Dffsr),
        ("$dffsr"@, CellKind::Dffsr),
    ]
}

/// The types of the flip-flops with an enable.
pub open spec fn enabled_register_types() -> Seq<(Seq<char>, CellKind)> {
    seq![
        ("DffeCell"@, CellKind::Dffe),
        ("$dffe"@, CellKind::Dffe),
        ("ADffeCell"@, CellKind::ADffe),
        ("$adffe"@, CellKind::ADffe),
        ("SDffeCell"@, CellKind::SDffe),
        ("$sdffe"@, CellKind::SDffe),
        ("DffsreCell"@, CellKind::Dffsre),
        ("$dffsre"@, CellKind::Dffsre),
    ]
}

/// The types of the memory and of the cell that prints.
pub open spec fn other_types() -> Seq<(Seq<char>, CellKind)> {
    seq![
        ("MemCell"@, CellKind::Mem),
        ("$mem"@, CellKind::Mem),
        ("PrintCell"@, CellKind::Print),
        ("$print"@, CellKind::Print),
    ]
}

/// The table of cell types: every accepted `type`, with the kind of cell
/// that it stands for. Each kind goes by the name of its own and by the
/// names that the synthesis tool gives its cells.
pub open spec fn discriminants() -> Seq<(Seq<char>, CellKind)> {
    unary_types() + logic_types() + comparison_types() + arithmetic_types()
        + multiplexer_types() + register_types() + enabled_register_types() + other_types()
}

/// The kind that the first entry called `name` at or after position `i` gives.
pub open spec fn kind_from(table: Seq<(Seq<char>, CellKind)>, name: Seq<char>, i: int) -> Option<
    CellKind,
>
    decreases table.len() - i,
{
    if i < 0 || i >= table.len() {
        None
    } else if table[i].0 == name {
        Some(table[i].1)
    } else {
        kind_from(table, name, i + 1)
    }
}

/// The kind of cell that a `type` stands for, if the table knows it.
pub open spec fn kind_of(name: Seq<char>) -> Option<CellKind> {
    kind_from(discriminants(), name, 0)
}

/// The table of cell types, to look a `type` up in.
pub fn discriminant_table() -> (t: Vec<(&'static str, CellKind)>)
    ensures
        t@.len() == discriminants().len(),
        forall|i: int|
            0 <= i < t@.len() ==> (#[trigger] t@[i]).0@ == discriminants()[i].0 && t@[i].1
                == discriminants()[i].1,
{
    let t = vec![
        ("UnaryCell", CellKind::Unary),
        ("$not", CellKind::Unary),
        ("$pos", CellKind::Unary),
        ("$neg", CellKind::Unary),
        ("$reduce_and", CellKind::Unary),
        ("$reduce_or", CellKind::Unary),
        ("$reduce_xor", CellKind::Unary),
        ("$reduce_xnor", CellKind::Unary),
        ("$reduce_bool", CellKind::Unary),
        ("$logic_not", CellKind::Unary),
        ("BinaryCell", CellKind::Binary),
        ("$or", CellKind::Binary),
        ("$and", CellKind::Binary),
        ("$xor", CellKind::Binary),
        ("$xnor", CellKind::Binary),
        ("$shl", CellKind::Binary),
        ("$shr", CellKind::Binary),
        ("$sshl", CellKind::Binary),
        ("$sshr", CellKind::Binary),
        ("$logic_and", CellKind::Binary),
        ("$logic_or", CellKind::Binary),
        ("$eqx", CellKind::Binary),
        ("$nex", CellKind::Binary),
        ("$lt", CellKind::Binary),
        ("$le", CellKind::Binary),
        ("$eq", CellKind::Binary),
        ("$ne", CellKind::Binary),
        ("$ge", CellKind::Binary),
        ("$gt", CellKind::Binary),
        ("$add", CellKind::Binary),
        ("$sub", CellKind::Binary),
        ("$mul", CellKind::Binary),
        ("$div", CellKind::Binary),
        ("$mod", CellKind::Binary),
        ("$pow", CellKind::Binary),
        ("MuxCell", CellKind::Mux),
        ("$mux", CellKind::Mux),
        ("PMuxCell", CellKind::PMux),
        ("$pmux", CellKind::PMux),
        ("SrCell", CellKind::Sr),
        ("$sr", CellKind::Sr),
        ("DffCell", CellKind::Dff),
        ("$dff", CellKind::Dff),
        ("ADffCell", CellKind::ADff),
        ("$adff", CellKind::ADff),
        ("SDffCell", CellKind::SDff),
        ("$sdff", CellKind::SDff),
        ("DffsrCell", CellKind::Dffsr),
        ("$dffsr", CellKind::Dffsr),
        ("DffeCell", CellKind::Dffe),
        ("$dffe", CellKind::Dffe),
        ("ADffeCell", CellKind::ADffe),
        ("$adffe", CellKind::ADffe),
        ("SDffeCell", CellKind::SDffe),
        ("$sdffe", CellKind::SDffe),
        ("DffsreCell", CellKind::Dffsre),
        ("$dffsre", CellKind::Dffsre),
        ("MemCell", CellKind::Mem),
        ("$mem", CellKind::Mem),
        ("PrintCell", CellKind::Print),
        ("$print", CellKind::Print),
    ];
    t
}

/// Looks up the kind of cell that a `type` stands for.
pub fn cell_kind(name: &str) -> (r: Option<CellKind>)
    ensures
        r == kind_of(name@),
{
    let table = discriminant_table();
    let mut i: usize = 0;
    while i < table.len()
        invariant
            i <= table@.len(),
            table@.len() == discriminants().len(),
            forall|k: int|
                0 <= k < table@.len() ==> (#[trigger] table@[k]).0@ == discriminants()[k].0
                    && table@[k].1 == discriminants()[k].1,
            kind_of(name@) == kind_from(discriminants(), name@, i as int),
        decreases table@.len() - i,
    {
        if same_text(table[i].0, name) {
            return Some(table[i].1);
        }
        i += 1;
    }
    None
}

/// The kind that the `type` member of a cell names: the member is a text
/// that the table knows.
pub open spec fn discriminant_of(j: JsonValue) -> Result<CellKind, Failure> {
    match j {
        JsonValue::String(t) => match kind_of(t) {
            Some(k) => Ok(k),
            None => Err(Failure::here(Reason::UnknownCellType(t))),
        },
        _ => Err(mismatch(j)),
    }
}

/// Reads the kind that the `type` member of a cell names.
pub fn decode_discriminant(j: &Json) -> (r: Result<CellKind, DecodeError>)
    ensures
        outcome(r) == discriminant_of(j@),
{
    match j {
        Json::String(t) => match cell_kind(t.as_str()) {
            Some(k) => Ok(k),
            None => Err(DecodeError::here(Cause::UnknownCellType(t.clone()))),
        },
        _ => Err(mismatch_at(j)),
    }
}

/// One bit of a connection: a JSON number that fits 32 bits, or a text.
pub open spec fn bit_of(j: JsonValue) -> Result<NumberOrStringView, Failure> {
    match j {
        JsonValue::String(s) => Ok(NumberOrStringView::String(s)),
        _ => match plain_number_at(j) {
            Ok(n) => Ok(NumberOrStringView::Number(n)),
            Err(f) => Err(f),
        },
    }
}

/// The bits of one pin: an array of bits.
pub open spec fn pin_of(j: JsonValue) -> Result<Seq<NumberOrStringView>, Failure> {
    list_of(j, |e: JsonValue| bit_of(e))
}

/// The connections of a cell: an object whose members are the bits of each pin.
pub open spec fn connections_of(j: JsonValue) -> Result<
    Seq<(Seq<char>, Seq<NumberOrStringView>)>,
    Failure,
> {
    table_of(j, |e: JsonValue| pin_of(e))
}

/// The directions of the pins of a cell: an object whose members are directions.
pub open spec fn port_directions_of(j: JsonValue) -> Result<Seq<(Seq<char>, Direction)>, Failure> {
    table_of(j, |e: JsonValue| direction_of(e))
}

/// What every cell has: `hide_name`, `attributes`, `port_directions` and
/// `connections`, read in this order.
pub open spec fn base_of(members: Members) -> Result<CellBaseView, Failure> {
    let hide_name = required(members, "hide_name"@, |e: JsonValue| plain_number_at(e));
    let attributes = required(members, "attributes"@, |e: JsonValue| attributes_of(e));
    let port_directions = required(
        members,
        "port_directions"@,
        |e: JsonValue| port_directions_of(e),
    );
    let connections = required(members, "connections"@, |e: JsonValue| connections_of(e));
    if hide_name is Err {
        Err(hide_name->Err_0)
    } else if attributes is Err {
        Err(attributes->Err_0)
    } else if port_directions is Err {
        Err(port_directions->Err_0)
    } else if connections is Err {
        Err(connections->Err_0)
    } else {
        Ok(
            CellBaseView {
                hide_name: hide_name->Ok_0,
                attributes: attributes->Ok_0,
                port_directions: port_directions->Ok_0,
                connections: connections->Ok_0,
            },
        )
    }
}

/// Reads one bit of a connection.
pub fn decode_bit(j: &Json) -> (r: Result<NumberOrString, DecodeError>)
    ensures
        outcome(r) == bit_of(j@),
{
    match j {
        Json::String(s) => Ok(NumberOrString::String(s.clone())),
        _ => match read_plain_number(j) {
            Ok(n) => Ok(NumberOrString::Number(n)),
            Err(e) => Err(e),
        },
    }
}

/// Reads the bits of one pin.
pub fn decode_pin(j: &Json) -> (r: Result<Vec<NumberOrString>, DecodeError>)
    ensures
        outcome(r) == pin_of(j@),
{
    read_list(j, decode_bit, Ghost(|e: JsonValue| bit_of(e)))
}

/// Reads the connections of a cell.
pub fn decode_connections(j: &Json) -> (r: Result<Connections, DecodeError>)
    ensures
        outcome(r) == connections_of(j@),
{
    read_table(j, decode_pin, Ghost(|e: JsonValue| pin_of(e)))
}

/// Reads the directions of the pins of a cell.
pub fn decode_port_directions(j: &Json) -> (r: Result<Table<Direction>, DecodeError>)
    ensures
        outcome(r) == port_directions_of(j@),
{
    read_table(j, decode_direction, Ghost(|e: JsonValue| direction_of(e)))
}

/// Reads what every cell has from the members of a cell.
pub fn decode_base(fields: &Vec<(String, Json)>) -> (r: Result<CellBase, DecodeError>)
    ensures
        outcome(r) == base_of(members_of(fields@)),
{
    let hide_name = read_required(
        fields,
        "hide_name",
        read_plain_number,
        Ghost(|e: JsonValue| plain_number_at(e)),
    )?;
    let attributes = read_required(
        fields,
        "attributes",
        decode_attributes,
        Ghost(|e: JsonValue| attributes_of(e)),
    )?;
    let port_directions = read_required(
        fields,
        "port_directions",
        decode_port_directions,
        Ghost(|e: JsonValue| port_directions_of(e)),
    )?;
    let connections = read_required(
        fields,
        "connections",
        decode_connections,
        Ghost(|e: JsonValue| connections_of(e)),
    )?;
    Ok(CellBase { hide_name, attributes, port_directions, connections })
}

/// A numeric parameter: the member called `name`, whatever the case of its
/// ASCII letters, read as a JSON number or as a numeral.
pub open spec fn number_member(members: Members, name: Seq<char>) -> Result<u32, Failure> {
    required_folded(members, name, |e: JsonValue| number_at(e))
}

/// A text parameter: the member called `name`, whatever the case of its
/// ASCII letters, kept as it stands.
pub open spec fn text_member(members: Members, name: Seq<char>) -> Result<Seq<char>, Failure> {
    required_folded(members, name, |e: JsonValue| text_of(e))
}

/// Reads a numeric parameter.
pub fn read_number_member(fields: &Vec<(String, Json)>, name: &str) -> (r: Result<u32, DecodeError>)
    ensures
        outcome(r) == number_member(members_of(fields@), name@),
{
    read_required_folded(fields, name, read_number, Ghost(|e: JsonValue| number_at(e)))
}

/// Reads a text parameter.
pub fn read_text_member(fields: &Vec<(String, Json)>, name: &str) -> (r: Result<
    String,
    DecodeError,
>)
    ensures
        outcome(r) == text_member(members_of(fields@), name@),
{
    read_required_folded(fields, name, read_text, Ghost(|e: JsonValue| text_of(e)))
}


/// The parameters of a gate with one operand, read in the order of the fields.
pub open spec fn unary_parameters_of(j: JsonValue) -> Result<UnaryCellParameters, Failure> {
    match j {
        JsonValue::Object(members) => {
            let a_signed = number_member(members, "A_SIGNED"@);
            let a_width = number_member(members, "A_WIDTH"@);
            let y_width = number_member(members, "Y_WIDTH"@);
            if a_signed is Err {
                Err(a_signed->Err_0)
            } else if a_width is Err {
                Err(a_width->Err_0)
            } else if y_width is Err {
                Err(y_width->Err_0)
            } else {
                Ok(
                    UnaryCellParameters {
                        a_signed: a_signed->Ok_0,
                        a_width: a_width->Ok_0,
                        y_width: y_width->Ok_0,
                    },
                )
            }
        },
        _ => Err(mismatch(j)),
    }
}

/// Reads the parameters of a gate with one operand.
pub fn decode_unary_parameters(j: &Json) -> (r: Result<UnaryCellParameters, DecodeError>)
    ensures
        outcome(r) == unary_parameters_of(j@),
{
    match j {
        Json::Object(fields) => {
            proof {
                lemma_view_parts(*j);
            }
            let a_signed = read_number_member(fields, "A_SIGNED")?;
            let a_width = read_number_member(fields, "A_WIDTH")?;
            let y_width = read_number_member(fields, "Y_WIDTH")?;
            Ok(UnaryCellParameters { a_signed, a_width, y_width })
        },
        _ => Err(mismatch_at(j)),
    }
}

/// The parameters of a gate with two operands, read in the order of the fields.
pub open spec fn binary_parameters_of(j: JsonValue) -> Result<BinaryCellParameters, Failure> {
    match j {
        JsonValue::Object(members) => {
            let a_signed = number_member(members, "A_SIGNED"@);
            let a_width = number_member(members, "A_WIDTH"@);
            let b_signed = number_member(members, "B_SIGNED"@);
            let b_width = number_member(members, "B_WIDTH"@);
            let y_width = number_member(members, "Y_WIDTH"@);
            if a_signed is Err {
                Err(a_signed->Err_0)
            } else if a_width is Err {
                Err(a_width->Err_0)
            } else if b_signed is Err {
                Err(b_signed->Err_0)
            } else if b_width is Err {
                Err(b_width->Err_0)
            } else if y_width is Err {
                Err(y_width->Err_0)
            } else {
                Ok(
                    BinaryCellParameters {
                        a_signed: a_signed->Ok_0,
                        a_width: a_width->Ok_0,
                        b_signed: b_signed->Ok_0,
                        b_width: b_width->Ok_0,
                        y_width: y_width->Ok_0,
                    },
                )
            }
        },
        _ => Err(mismatch(j)),
    }
}

/// Reads the parameters of a gate with two operands.
pub fn decode_binary_parameters(j: &Json) -> (r: Result<BinaryCellParameters, DecodeError>)
    ensures
        outcome(r) == binary_parameters_of(j@),
{
    match j {
        Json::Object(fields) => {
            proof {
                lemma_view_parts(*j);
            }
            let a_signed = read_number_member(fields, "A_SIGNED")?;
            let a_width = read_number_member(fields, "A_WIDTH")?;
            let b_signed = read_number_member(fields, "B_SIGNED")?;
            let b_width = read_number_member(fields, "B_WIDTH")?;
            let y_width = read_number_member(fields, "Y_WIDTH")?;
            Ok(BinaryCellParameters { a_signed, a_width, b_signed, b_width, y_width })
        },
        _ => Err(mismatch_at(j)),
    }
}

/// The parameters of a multiplexer, read in the order of the fields.
pub open spec fn mux_parameters_of(j: JsonValue) -> Result<MuxCellParameters, Failure> {
    match j {
        JsonValue::Object(members) => {
            let width = number_member(members, "WIDTH"@);
            if width is Err {
                Err(width->Err_0)
            } else {
                Ok(
                    MuxCellParameters {
                        width: width->Ok_0,
                    },
                )
            }
        },
        _ => Err(mismatch(j)),
    }
}

/// Reads the parameters of a multiplexer.
pub fn decode_mux_parameters(j: &Json) -> (r: Result<MuxCellParameters, DecodeError>)
    ensures
        outcome(r) == mux_parameters_of(j@),
{
    match j {
        Json::Object(fields) => {
            proof {
                lemma_view_parts(*j);
            }
            let width = read_number_member(fields, "WIDTH")?;
            Ok(MuxCellParameters { width })
        },
        _ => Err(mismatch_at(j)),
    }
}

/// The parameters of a priority multiplexer, read in the order of the fields.
pub open spec fn pmux_parameters_of(j: JsonValue) -> Result<PMuxCellParameters, Failure> {
    match j {
        JsonValue::Object(members) => {
            let width = number_member(members, "WIDTH"@);
            let s_width = number_member(members, "S_WIDTH"@);
            if width is Err {
                Err(width->Err_0)
            } else if s_width is Err {
                Err(s_width->Err_0)
            } else {
                Ok(
                    PMuxCellParameters {
                        width: width->Ok_0,
                        s_width: s_width->Ok_0,
                    },
                )
            }
        },
        _ => Err(mismatch(j)),
    }
}

/// Reads the parameters of a priority multiplexer.
pub fn decode_pmux_parameters(j: &Json) -> (r: Result<PMuxCellParameters, DecodeError>)
    ensures
        outcome(r) == pmux_parameters_of(j@),
{
    match j {
        Json::Object(fields) => {
            proof {
                lemma_view_parts(*j);
            }
            let width = read_number_member(fields, "WIDTH")?;
            let s_width = read_number_member(fields, "S_WIDTH")?;
            Ok(PMuxCellParameters { width, s_width })
        },
        _ => Err(mismatch_at(j)),
    }
}

/// The parameters of a set/reset latch, read in the order of the fields.
pub open spec fn sr_parameters_of(j: JsonValue) -> Result<SrCellParameters, Failure> {
    match j {
        JsonValue::Object(members) => {
            let width = number_member(members, "WIDTH"@);
            let set_polarity = number_member(members, "SET_POLARITY"@);
            let clr_polarity = number_member(members, "CLR_POLARITY"@);
            if width is Err {
                Err(width->Err_0)
            } else if set_polarity is Err {
                Err(set_polarity->Err_0)
            } else if clr_polarity is Err {
                Err(clr_polarity->Err_0)
            } else {
                Ok(
                    SrCellParameters {
                        width: width->Ok_0,
                        set_polarity: set_polarity->Ok_0,
                        clr_polarity: clr_polarity->Ok_0,
                    },
                )
            }
        },
        _ => Err(mismatch(j)),
    }
}

/// Reads the parameters of a set/reset latch.
pub fn decode_sr_parameters(j: &Json) -> (r: Result<SrCellParameters, DecodeError>)
    ensures
        outcome(r) == sr_parameters_of(j@),
{
    match j {
        Json::Object(fields) => {
            proof {
                lemma_view_parts(*j);
            }
            let width = read_number_member(fields, "WIDTH")?;
            let set_polarity = read_number_member(fields, "SET_POLARITY")?;
            let clr_polarity = read_number_member(fields, "CLR_POLARITY")?;
            Ok(SrCellParameters { width, set_polarity, clr_polarity })
        },
        _ => Err(mismatch_at(j)),
    }
}

/// The parameters of a flip-flop, read in the order of the fields.
pub open spec fn dff_parameters_of(j: JsonValue) -> Result<DffCellParameters, Failure> {
    match j {
        JsonValue::Object(members) => {
            let width = number_member(members, "WIDTH"@);
            let clk_polarity = number_member(members, "CLK_POLARITY"@);
            if width is Err {
                Err(width->Err_0)
            } else if clk_polarity is Err {
                Err(clk_polarity->Err_0)
            } else {
                Ok(
                    DffCellParameters {
                        width: width->Ok_0,
                        clk_polarity: clk_polarity->Ok_0,
                    },
                )
            }
        },
        _ => Err(mismatch(j)),
    }
}

/// Reads the parameters of a flip-flop.
pub fn decode_dff_parameters(j: &Json) -> (r: Result<DffCellParameters, DecodeError>)
    ensures
        outcome(r) == dff_parameters_of(j@),
{
    match j {
        Json::Object(fields) => {
            proof {
                lemma_view_parts(*j);
            }
            let width = read_number_member(fields, "WIDTH")?;
            let clk_polarity = read_number_member(fields, "CLK_POLARITY")?;
            Ok(DffCellParameters { width, clk_polarity })
        },
        _ => Err(mismatch_at(j)),
    }
}

/// The parameters of a flip-flop with an asynchronous reset, read in the order of the fields.
pub open spec fn adff_parameters_of(j: JsonValue) -> Result<ADffCellParameters, Failure> {
    match j {
        JsonValue::Object(members) => {
            let width = number_member(members, "WIDTH"@);
            let clk_polarity = number_member(members, "CLK_POLARITY"@);
            let arst_polarity = number_member(members, "ARST_POLARITY"@);
            let arst_value = number_member(members, "ARST_VALUE"@);
            if width is Err {
                Err(width->Err_0)
            } else if clk_polarity is Err {
                Err(clk_polarity->Err_0)
            } else if arst_polarity is Err {
                Err(arst_polarity->Err_0)
            } else if arst_value is Err {
                Err(arst_value->Err_0)
            } else {
                Ok(
                    ADffCellParameters {
                        width: width->Ok_0,
                        clk_polarity: clk_polarity->Ok_0,
                        arst_polarity: arst_polarity->Ok_0,
                        arst_value: arst_value->Ok_0,
                    },
                )
            }
        },
        _ => Err(mismatch(j)),
    }
}

/// Reads the parameters of a flip-flop with an asynchronous reset.
pub fn decode_adff_parameters(j: &Json) -> (r: Result<ADffCellParameters, DecodeError>)
    ensures
        outcome(r) == adff_parameters_of(j@),
{
    match j {
        Json::Object(fields) => {
            proof {
                lemma_view_parts(*j);
            }
            let width = read_number_member(fields, "WIDTH")?;
            let clk_polarity = read_number_member(fields, "CLK_POLARITY")?;
            let arst_polarity = read_number_member(fields, "ARST_POLARITY")?;
            let arst_value = read_number_member(fields, "ARST_VALUE")?;
            Ok(ADffCellParameters { width, clk_polarity, arst_polarity, arst_value })
        },
        _ => Err(mismatch_at(j)),
    }
}

/// The parameters of a flip-flop with a synchronous reset, read in the order of the fields.
pub open spec fn sdff_parameters_of(j: JsonValue) -> Result<SDffCellParameters, Failure> {
    match j {
        JsonValue::Object(members) => {
            let width = number_member(members, "WIDTH"@);
            let clk_polarity = number_member(members, "CLK_POLARITY"@);
            let srst_polarity = number_member(members, "SRST_POLARITY"@);
            let srst_value = number_member(members, "SRST_VALUE"@);
            if width is Err {
                Err(width->Err_0)
            } else if clk_polarity is Err {
                Err(clk_polarity->Err_0)
            } else if srst_polarity is Err {
                Err(srst_polarity->Err_0)
            } else if srst_value is Err {
                Err(srst_value->Err_0)
            } else {
                Ok(
                    SDffCellParameters {
                        width: width->Ok_0,
                        clk_polarity: clk_polarity->Ok_0,
                        srst_polarity: srst_polarity->Ok_0,
                        srst_value: srst_value->Ok_0,
                    },
                )
            }
        },
        _ => Err(mismatch(j)),
    }
}

/// Reads the parameters of a flip-flop with a synchronous reset.
pub fn decode_sdff_parameters(j: &Json) -> (r: Result<SDffCellParameters, DecodeError>)
    ensures
        outcome(r) == sdff_parameters_of(j@),
{
    match j {
        Json::Object(fields) => {
            proof {
                lemma_view_parts(*j);
            }
            let width = read_number_member(fields, "WIDTH")?;
            let clk_polarity = read_number_member(fields, "CLK_POLARITY")?;
            let srst_polarity = read_number_member(fields, "SRST_POLARITY")?;
            let srst_value = read_number_member(fields, "SRST_VALUE")?;
            Ok(SDffCellParameters { width, clk_polarity, srst_polarity, srst_value })
        },
        _ => Err(mismatch_at(j)),
    }
}

/// The parameters of a flip-flop with set and reset, read in the order of the fields.
pub open spec fn dffsr_parameters_of(j: JsonValue) -> Result<DffsrCellParameters, Failure> {
    match j {
        JsonValue::Object(members) => {
            let width = number_member(members, "WIDTH"@);
            let clk_polarity = number_member(members, "CLK_POLARITY"@);
            let set_polarity = number_member(members, "SET_POLARITY"@);
            let clr_polarity = number_member(members, "CLR_POLARITY"@);
            if width is Err {
                Err(width->Err_0)
            } else if clk_polarity is Err {
                Err(clk_polarity->Err_0)
            } else if set_polarity is Err {
                Err(set_polarity->Err_0)
            } else if clr_polarity is Err {
                Err(clr_polarity->Err_0)
            } else {
                Ok(
                    DffsrCellParameters {
                        width: width->Ok_0,
                        clk_polarity: clk_polarity->Ok_0,
                        set_polarity: set_polarity->Ok_0,
                        clr_polarity: clr_polarity->Ok_0,
                    },
                )
            }
        },
        _ => Err(mismatch(j)),
    }
}

/// Reads the parameters of a flip-flop with set and reset.
pub fn decode_dffsr_parameters(j: &Json) -> (r: Result<DffsrCellParameters, DecodeError>)
    ensures
        outcome(r) == dffsr_parameters_of(j@),
{
    match j {
        Json::Object(fields) => {
            proof {
                lemma_view_parts(*j);
            }
            let width = read_number_member(fields, "WIDTH")?;
            let clk_polarity = read_number_member(fields, "CLK_POLARITY")?;
            let set_polarity = read_number_member(fields, "SET_POLARITY")?;
            let clr_polarity = read_number_member(fields, "CLR_POLARITY")?;
            Ok(DffsrCellParameters { width, clk_polarity, set_polarity, clr_polarity })
        },
        _ => Err(mismatch_at(j)),
    }
}

/// The parameters of a flip-flop with an enable, read in the order of the fields.
pub open spec fn dffe_parameters_of(j: JsonValue) -> Result<DffeCellParameters, Failure> {
    match j {
        JsonValue::Object(members) => {
            let width = number_member(members, "WIDTH"@);
            let clk_polarity = number_member(members, "CLK_POLARITY"@);
            let en_polarity = number_member(members, "EN_POLARITY"@);
            if width is Err {
                Err(width->Err_0)
            } else if clk_polarity is Err {
                Err(clk_polarity->Err_0)
            } else if en_polarity is Err {
                Err(en_polarity->Err_0)
            } else {
                Ok(
                    DffeCellParameters {
                        width: width->Ok_0,
                        clk_polarity: clk_polarity->Ok_0,
                        en_polarity: en_polarity->Ok_0,
                    },
                )
            }
        },
        _ => Err(mismatch(j)),
    }
}

/// Reads the parameters of a flip-flop with an enable.
pub fn decode_dffe_parameters(j: &Json) -> (r: Result<DffeCellParameters, DecodeError>)
    ensures
        outcome(r) == dffe_parameters_of(j@),
{
    match j {
        Json::Object(fields) => {
            proof {
                lemma_view_parts(*j);
            }
            let width = read_number_member(fields, "WIDTH")?;
            let clk_polarity = read_number_member(fields, "CLK_POLARITY")?;
            let en_polarity = read_number_member(fields, "EN_POLARITY")?;
            Ok(DffeCellParameters { width, clk_polarity, en_polarity })
        },
        _ => Err(mismatch_at(j)),
    }
}

/// The parameters of a flip-flop with an asynchronous reset and an enable, read in the order of the fields.
pub open spec fn adffe_parameters_of(j: JsonValue) -> Result<ADffeCellParameters, Failure> {
    match j {
        JsonValue::Object(members) => {
            let width = number_member(members, "WIDTH"@);
            let clk_polarity = number_member(members, "CLK_POLARITY"@);
            let en_polarity = number_member(members, "EN_POLARITY"@);
            let arst_polarity = number_member(members, "ARST_POLARITY"@);
            let arst_value = number_member(members, "ARST_VALUE"@);
            if width is Err {
                Err(width->Err_0)
            } else if clk_polarity is Err {
                Err(clk_polarity->Err_0)
            } else if en_polarity is Err {
                Err(en_polarity->Err_0)
            } else if arst_polarity is Err {
                Err(arst_polarity->Err_0)
            } else if arst_value is Err {
                Err(arst_value->Err_0)
            } else {
                Ok(
                    ADffeCellParameters {
                        width: width->Ok_0,
                        clk_polarity: clk_polarity->Ok_0,
                        en_polarity: en_polarity->Ok_0,
                        arst_polarity: arst_polarity->Ok_0,
                        arst_value: arst_value->Ok_0,
                    },
                )
            }
        },
        _ => Err(mismatch(j)),
    }
}

/// Reads the parameters of a flip-flop with an asynchronous reset and an enable.
pub fn decode_adffe_parameters(j: &Json) -> (r: Result<ADffeCellParameters, DecodeError>)
    ensures
        outcome(r) == adffe_parameters_of(j@),
{
    match j {
        Json::Object(fields) => {
            proof {
                lemma_view_parts(*j);
            }
            let width = read_number_member(fields, "WIDTH")?;
            let clk_polarity = read_number_member(fields, "CLK_POLARITY")?;
            let en_polarity = read_number_member(fields, "EN_POLARITY")?;
            let arst_polarity = read_number_member(fields, "ARST_POLARITY")?;
            let arst_value = read_number_member(fields, "ARST_VALUE")?;
            Ok(ADffeCellParameters { width, clk_polarity, en_polarity, arst_polarity, arst_value })
        },
        _ => Err(mismatch_at(j)),
    }
}

/// The parameters of a flip-flop with a synchronous reset and an enable, read in the order of the fields.
pub open spec fn sdffe_parameters_of(j: JsonValue) -> Result<SDffeCellParameters, Failure> {
    match j {
        JsonValue::Object(members) => {
            let width = number_member(members, "WIDTH"@);
            let clk_polarity = number_member(members, "CLK_POLARITY"@);
            let en_polarity = number_member(members, "EN_POLARITY"@);
            let srst_polarity = number_member(members, "SRST_POLARITY"@);
            let srst_value = number_member(members, "SRST_VALUE"@);
            if width is Err {
                Err(width->Err_0)
            } else if clk_polarity is Err {
                Err(clk_polarity->Err_0)
            } else if en_polarity is Err {
                Err(en_polarity->Err_0)
            } else if srst_polarity is Err {
                Err(srst_polarity->Err_0)
            } else if srst_value is Err {
                Err(srst_value->Err_0)
            } else {
                Ok(
                    SDffeCellParameters {
                        width: width->Ok_0,
                        clk_polarity: clk_polarity->Ok_0,
                        en_polarity: en_polarity->Ok_0,
                        srst_polarity: srst_polarity->Ok_0,
                        srst_value: srst_value->Ok_0,
                    },
                )
            }
        },
        _ => Err(mismatch(j)),
    }
}

/// Reads the parameters of a flip-flop with a synchronous reset and an enable.
pub fn decode_sdffe_parameters(j: &Json) -> (r: Result<SDffeCellParameters, DecodeError>)
    ensures
        outcome(r) == sdffe_parameters_of(j@),
{
    match j {
        Json::Object(fields) => {
            proof {
                lemma_view_parts(*j);
            }
            let width = read_number_member(fields, "WIDTH")?;
            let clk_polarity = read_number_member(fields, "CLK_POLARITY")?;
            let en_polarity = read_number_member(fields, "EN_POLARITY")?;
            let srst_polarity = read_number_member(fields, "SRST_POLARITY")?;
            let srst_value = read_number_member(fields, "SRST_VALUE")?;
            Ok(SDffeCellParameters { width, clk_polarity, en_polarity, srst_polarity, srst_value })
        },
        _ => Err(mismatch_at(j)),
    }
}

/// The parameters of a flip-flop with set, reset and an enable, read in the order of the fields.
pub open spec fn dffsre_parameters_of(j: JsonValue) -> Result<DffsreCellParameters, Failure> {
    match j {
        JsonValue::Object(members) => {
            let width = number_member(members, "WIDTH"@);
            let clk_polarity = number_member(members, "CLK_POLARITY"@);
            let set_polarity = number_member(members, "SET_POLARITY"@);
            let clr_polarity = number_member(members, "CLR_POLARITY"@);
            let en_polarity = number_member(members, "EN_POLARITY"@);
            if width is Err {
                Err(width->Err_0)
            } else if clk_polarity is Err {
                Err(clk_polarity->Err_0)
            } else if set_polarity is Err {
                Err(set_polarity->Err_0)
            } else if clr_polarity is Err {
                Err(clr_polarity->Err_0)
            } else if en_polarity is Err {
                Err(en_polarity->Err_0)
            } else {
                Ok(
                    DffsreCellParameters {
                        width: width->Ok_0,
                        clk_polarity: clk_polarity->Ok_0,
                        set_polarity: set_polarity->Ok_0,
                        clr_polarity: clr_polarity->Ok_0,
                        en_polarity: en_polarity->Ok_0,
                    },
                )
            }
        },
        _ => Err(mismatch(j)),
    }
}

/// Reads the parameters of a flip-flop with set, reset and an enable.
pub fn decode_dffsre_parameters(j: &Json) -> (r: Result<DffsreCellParameters, DecodeError>)
    ensures
        outcome(r) == dffsre_parameters_of(j@),
{
    match j {
        Json::Object(fields) => {
            proof {
                lemma_view_parts(*j);
            }
            let width = read_number_member(fields, "WIDTH")?;
            let clk_polarity = read_number_member(fields, "CLK_POLARITY")?;
            let set_polarity = read_number_member(fields, "SET_POLARITY")?;
            let clr_polarity = read_number_member(fields, "CLR_POLARITY")?;
            let en_polarity = read_number_member(fields, "EN_POLARITY")?;
            Ok(DffsreCellParameters { width, clk_polarity, set_polarity, clr_polarity, en_polarity })
        },
        _ => Err(mismatch_at(j)),
    }
}

/// The parameters of a memory, read in the order of the fields.
pub open spec fn mem_parameters_of(j: JsonValue) -> Result<MemCellParametersView, Failure> {
    match j {
        JsonValue::Object(members) => {
            let memid = text_member(members, "MEMID"@);
            let size = number_member(members, "SIZE"@);
            let abits = number_member(members, "ABITS"@);
            let width = number_member(members, "WIDTH"@);
            let init = text_member(members, "INIT"@);
            let offset = number_member(members, "OFFSET"@);
            let rd_ports = number_member(members, "RD_PORTS"@);
            let rd_wide_continuation = number_member(members, "RD_WIDE_CONTINUATION"@);
            let rd_clk_enable = number_member(members, "RD_CLK_ENABLE"@);
            let rd_clk_polarity = number_member(members, "RD_CLK_POLARITY"@);
            let rd_transparency_mask = number_member(members, "RD_TRANSPARENCY_MASK"@);
            let rd_collision_x_mask = number_member(members, "RD_COLLISION_X_MASK"@);
            let rd_ce_over_srst = number_member(members, "RD_CE_OVER_SRST"@);
            let rd_init_value = text_member(members, "RD_INIT_VALUE"@);
            let rd_arst_value = text_member(members, "RD_ARST_VALUE"@);
            let rd_srst_value = text_member(members, "RD_SRST_VALUE"@);
            let wr_ports = number_member(members, "WR_PORTS"@);
            let wr_wide_continuation = number_member(members, "WR_WIDE_CONTINUATION"@);
            let wr_clk_enable = number_member(members, "WR_CLK_ENABLE"@);
            let wr_clk_polarity = number_member(members, "WR_CLK_POLARITY"@);
            let wr_priority_mask = number_member(members, "WR_PRIORITY_MASK"@);
            if memid is Err {
                Err(memid->Err_0)
            } else if size is Err {
                Err(size->Err_0)
            } else if abits is Err {
                Err(abits->Err_0)
            } else if width is Err {
                Err(width->Err_0)
            } else if init is Err {
                Err(init->Err_0)
            } else if offset is Err {
                Err(offset->Err_0)
            } else if rd_ports is Err {
                Err(rd_ports->Err_0)
            } else if rd_wide_continuation is Err {
                Err(rd_wide_continuation->Err_0)
            } else if rd_clk_enable is Err {
                Err(rd_clk_enable->Err_0)
            } else if rd_clk_polarity is Err {
                Err(rd_clk_polarity->Err_0)
            } else if rd_transparency_mask is Err {
                Err(rd_transparency_mask->Err_0)
            } else if rd_collision_x_mask is Err {
                Err(rd_collision_x_mask->Err_0)
            } else if rd_ce_over_srst is Err {
                Err(rd_ce_over_srst->Err_0)
            } else if rd_init_value is Err {
                Err(rd_init_value->Err_0)
            } else if rd_arst_value is Err {
                Err(rd_arst_value->Err_0)
            } else if rd_srst_value is Err {
                Err(rd_srst_value->Err_0)
            } else if wr_ports is Err {
                Err(wr_ports->Err_0)
            } else if wr_wide_continuation is Err {
                Err(wr_wide_continuation->Err_0)
            } else if wr_clk_enable is Err {
                Err(wr_clk_enable->Err_0)
            } else if wr_clk_polarity is Err {
                Err(wr_clk_polarity->Err_0)
            } else if wr_priority_mask is Err {
                Err(wr_priority_mask->Err_0)
            } else {
                Ok(
                    MemCellParametersView {
                        memid: memid->Ok_0,
                        size: size->Ok_0,
                        abits: abits->Ok_0,
                        width: width->Ok_0,
                        init: init->Ok_0,
                        offset: offset->Ok_0,
                        rd_ports: rd_ports->Ok_0,
                        rd_wide_continuation: rd_wide_continuation->Ok_0,
                        rd_clk_enable: rd_clk_enable->Ok_0,
                        rd_clk_polarity: rd_clk_polarity->Ok_0,
                        rd_transparency_mask: rd_transparency_mask->Ok_0,
                        rd_collision_x_mask: rd_collision_x_mask->Ok_0,
                        rd_ce_over_srst: rd_ce_over_srst->Ok_0,
                        rd_init_value: rd_init_value->Ok_0,
                        rd_arst_value: rd_arst_value->Ok_0,
                        rd_srst_value: rd_srst_value->Ok_0,
                        wr_ports: wr_ports->Ok_0,
                        wr_wide_continuation: wr_wide_continuation->Ok_0,
                        wr_clk_enable: wr_clk_enable->Ok_0,
                        wr_clk_polarity: wr_clk_polarity->Ok_0,
                        wr_priority_mask: wr_priority_mask->Ok_0,
                    },
                )
            }
        },
        _ => Err(mismatch(j)),
    }
}

/// Reads the parameters of a memory.
pub fn decode_mem_parameters(j: &Json) -> (r: Result<MemCellParameters, DecodeError>)
    ensures
        outcome(r) == mem_parameters_of(j@),
{
    match j {
        Json::Object(fields) => {
            proof {
                lemma_view_parts(*j);
            }
            let memid = read_text_member(fields, "MEMID")?;
            let size = read_number_member(fields, "SIZE")?;
            let abits = read_number_member(fields, "ABITS")?;
            let width = read_number_member(fields, "WIDTH")?;
            let init = read_text_member(fields, "INIT")?;
            let offset = read_number_member(fields, "OFFSET")?;
            let rd_ports = read_number_member(fields, "RD_PORTS")?;
            let rd_wide_continuation = read_number_member(fields, "RD_WIDE_CONTINUATION")?;
            let rd_clk_enable = read_number_member(fields, "RD_CLK_ENABLE")?;
            let rd_clk_polarity = read_number_member(fields, "RD_CLK_POLARITY")?;
            let rd_transparency_mask = read_number_member(fields, "RD_TRANSPARENCY_MASK")?;
            let rd_collision_x_mask = read_number_member(fields, "RD_COLLISION_X_MASK")?;
            let rd_ce_over_srst = read_number_member(fields, "RD_CE_OVER_SRST")?;
            let rd_init_value = read_text_member(fields, "RD_INIT_VALUE")?;
            let rd_arst_value = read_text_member(fields, "RD_ARST_VALUE")?;
            let rd_srst_value = read_text_member(fields, "RD_SRST_VALUE")?;
            let wr_ports = read_number_member(fields, "WR_PORTS")?;
            let wr_wide_continuation = read_number_member(fields, "WR_WIDE_CONTINUATION")?;
            let wr_clk_enable = read_number_member(fields, "WR_CLK_ENABLE")?;
            let wr_clk_polarity = read_number_member(fields, "WR_CLK_POLARITY")?;
            let wr_priority_mask = read_number_member(fields, "WR_PRIORITY_MASK")?;
            Ok(MemCellParameters { memid, size, abits, width, init, offset, rd_ports, rd_wide_continuation, rd_clk_enable, rd_clk_polarity, rd_transparency_mask, rd_collision_x_mask, rd_ce_over_srst, rd_init_value, rd_arst_value, rd_srst_value, wr_ports, wr_wide_continuation, wr_clk_enable, wr_clk_polarity, wr_priority_mask })
        },
        _ => Err(mismatch_at(j)),
    }
}

/// The names of the parameters that a cell of each kind must have.
pub open spec fn parameter_names(kind: CellKind) -> Seq<Seq<char>> {
    match kind {
        CellKind::Unary => seq!["A_SIGNED"@, "A_WIDTH"@, "Y_WIDTH"@],
        CellKind::Binary => seq!["A_SIGNED"@, "A_WIDTH"@, "B_SIGNED"@, "B_WIDTH"@, "Y_WIDTH"@],
        CellKind::Mux => seq!["WIDTH"@],
        CellKind::PMux => seq!["WIDTH"@, "S_WIDTH"@],
        CellKind::Sr => seq!["WIDTH"@, "SET_POLARITY"@, "CLR_POLARITY"@],
        CellKind::Dff => seq!["WIDTH"@, "CLK_POLARITY"@],
        CellKind::ADff => seq!["WIDTH"@, "CLK_POLARITY"@, "ARST_POLARITY"@, "ARST_VALUE"@],
        CellKind::SDff => seq!["WIDTH"@, "CLK_POLARITY"@, "SRST_POLARITY"@, "SRST_VALUE"@],
        CellKind::Dffsr => seq!["WIDTH"@, "CLK_POLARITY"@, "SET_POLARITY"@, "CLR_POLARITY"@],
        CellKind::Dffe => seq!["WIDTH"@, "CLK_POLARITY"@, "EN_POLARITY"@],
        CellKind::ADffe => seq!["WIDTH"@, "CLK_POLARITY"@, "EN_POLARITY"@, "ARST_POLARITY"@, "ARST_VALUE"@],
        CellKind::SDffe => seq!["WIDTH"@, "CLK_POLARITY"@, "EN_POLARITY"@, "SRST_POLARITY"@, "SRST_VALUE"@],
        CellKind::Dffsre => seq!["WIDTH"@, "CLK_POLARITY"@, "SET_POLARITY"@, "CLR_POLARITY"@, "EN_POLARITY"@],
        CellKind::Mem => seq!["MEMID"@, "SIZE"@, "ABITS"@, "WIDTH"@, "INIT"@, "OFFSET"@, "RD_PORTS"@, "RD_WIDE_CONTINUATION"@, "RD_CLK_ENABLE"@, "RD_CLK_POLARITY"@, "RD_TRANSPARENCY_MASK"@, "RD_COLLISION_X_MASK"@, "RD_CE_OVER_SRST"@, "RD_INIT_VALUE"@, "RD_ARST_VALUE"@, "RD_SRST_VALUE"@, "WR_PORTS"@, "WR_WIDE_CONTINUATION"@, "WR_CLK_ENABLE"@, "WR_CLK_POLARITY"@, "WR_PRIORITY_MASK"@],
        CellKind::Print => Seq::empty(),
    }
}

impl CellView {
    /// The kind of the cell.
    pub open spec fn kind(self) -> CellKind {
        match self {
            CellView::UnaryCell(_) => CellKind::Unary,
            CellView::BinaryCell(_) => CellKind::Binary,
            CellView::MuxCell(_) => CellKind::Mux,
            CellView::PMuxCell(_) => CellKind::PMux,
            CellView::SrCell(_) => CellKind::Sr,
            CellView::DffCell(_) => CellKind::Dff,
            CellView::ADffCell(_) => CellKind::ADff,
            CellView::SDffCell(_) => CellKind::SDff,
            CellView::DffsrCell(_) => CellKind::Dffsr,
            CellView::DffeCell(_) => CellKind::Dffe,
            CellView::ADffeCell(_) => CellKind::ADffe,
            CellView::SDffeCell(_) => CellKind::SDffe,
            CellView::DffsreCell(_) => CellKind::Dffsre,
            CellView::MemCell(_) => CellKind::Mem,
            CellView::PrintCell(_) => CellKind::Print,
        }
    }
}

impl Cell {
    /// The kind of the cell.
    pub fn kind(&self) -> (k: CellKind)
        ensures
            k == self.deep_view().kind(),
    {
        match self {
            Cell::UnaryCell(_) => CellKind::Unary,
            Cell::BinaryCell(_) => CellKind::Binary,
            Cell::MuxCell(_) => CellKind::Mux,
            Cell::PMuxCell(_) => CellKind::PMux,
            Cell::SrCell(_) => CellKind::Sr,
            Cell::DffCell(_) => CellKind::Dff,
            Cell::ADffCell(_) => CellKind::ADff,
            Cell::SDffCell(_) => CellKind::SDff,
            Cell::DffsrCell(_) => CellKind::Dffsr,
            Cell::DffeCell(_) => CellKind::Dffe,
            Cell::ADffeCell(_) => CellKind::ADffe,
            Cell::SDffeCell(_) => CellKind::SDffe,
            Cell::DffsreCell(_) => CellKind::Dffsre,
            Cell::MemCell(_) => CellKind::Mem,
            Cell::PrintCell(_) => CellKind::Print,
        }
    }
}

/// A cell of the given kind: the parameters of that kind, read from the
/// `parameters` member, beside what every cell has. A cell that prints has
/// no parameters, and its `parameters` member is not looked at.
pub open spec fn shaped(kind: CellKind, base: CellBaseView, members: Members) -> Result<
    CellView,
    Failure,
> {
    match kind {
        CellKind::Unary => match required(
            members,
            "parameters"@,
            |e: JsonValue| unary_parameters_of(e),
        ) {
            Ok(parameters) => Ok(CellView::UnaryCell(CellShape { base, parameters })),
            Err(f) => Err(f),
        },
        CellKind::Binary => match required(
            members,
            "parameters"@,
            |e: JsonValue| binary_parameters_of(e),
        ) {
            Ok(parameters) => Ok(CellView::BinaryCell(CellShape { base, parameters })),
            Err(f) => Err(f),
        },
        CellKind::Mux => match required(
            members,
            "parameters"@,
            |e: JsonValue| mux_parameters_of(e),
        ) {
            Ok(parameters) => Ok(CellView::MuxCell(CellShape { base, parameters })),
            Err(f) => Err(f),
        },
        CellKind::PMux => match required(
            members,
            "parameters"@,
            |e: JsonValue| pmux_parameters_of(e),
        ) {
            Ok(parameters) => Ok(CellView::PMuxCell(CellShape { base, parameters })),
            Err(f) => Err(f),
        },
        CellKind::Sr => match required(
            members,
            "parameters"@,
            |e: JsonValue| sr_parameters_of(e),
        ) {
            Ok(parameters) => Ok(CellView::SrCell(CellShape { base, parameters })),
            Err(f) => Err(f),
        },
        CellKind::Dff => match required(
            members,
            "parameters"@,
            |e: JsonValue| dff_parameters_of(e),
        ) {
            Ok(parameters) => Ok(CellView::DffCell(CellShape { base, parameters })),
            Err(f) => Err(f),
        },
        CellKind::ADff => match required(
            members,
            "parameters"@,
            |e: JsonValue| adff_parameters_of(e),
        ) {
            Ok(parameters) => Ok(CellView::ADffCell(CellShape { base, parameters })),
            Err(f) => Err(f),
        },
        CellKind::SDff => match required(
            members,
            "parameters"@,
            |e: JsonValue| sdff_parameters_of(e),
        ) {
            Ok(parameters) => Ok(CellView::SDffCell(CellShape { base, parameters })),
            Err(f) => Err(f),
        },
        CellKind::Dffsr => match required(
            members,
            "parameters"@,
            |e: JsonValue| dffsr_parameters_of(e),
        ) {
            Ok(parameters) => Ok(CellView::DffsrCell(CellShape { base, parameters })),
            Err(f) => Err(f),
        },
        CellKind::Dffe => match required(
            members,
            "parameters"@,
            |e: JsonValue| dffe_parameters_of(e),
        ) {
            Ok(parameters) => Ok(CellView::DffeCell(CellShape { base, parameters })),
            Err(f) => Err(f),
        },
        CellKind::ADffe => match required(
            members,
            "parameters"@,
            |e: JsonValue| adffe_parameters_of(e),
        ) {
            Ok(parameters) => Ok(CellView::ADffeCell(CellShape { base, parameters })),
            Err(f) => Err(f),
        },
        CellKind::SDffe => match required(
            members,
            "parameters"@,
            |e: JsonValue| sdffe_parameters_of(e),
        ) {
            Ok(parameters) => Ok(CellView::SDffeCell(CellShape { base, parameters })),
            Err(f) => Err(f),
        },
        CellKind::Dffsre => match required(
            members,
            "parameters"@,
            |e: JsonValue| dffsre_parameters_of(e),
        ) {
            Ok(parameters) => Ok(CellView::DffsreCell(CellShape { base, parameters })),
            Err(f) => Err(f),
        },
        CellKind::Mem => match required(
            members,
            "parameters"@,
            |e: JsonValue| mem_parameters_of(e),
        ) {
            Ok(parameters) => Ok(CellView::MemCell(CellShape { base, parameters })),
            Err(f) => Err(f),
        },
        CellKind::Print => Ok(CellView::PrintCell(base)),
    }
}

/// A cell: an object whose `type` names its kind. The `type` is read first,
/// then what every cell has, then the parameters of the kind.
pub open spec fn cell_of(j: JsonValue) -> Result<CellView, Failure> {
    match j {
        JsonValue::Object(members) => match required(
            members,
            "type"@,
            |e: JsonValue| discriminant_of(e),
        ) {
            Err(f) => Err(f),
            Ok(kind) => match base_of(members) {
                Err(f) => Err(f),
                Ok(base) => shaped(kind, base, members),
            },
        },
        _ => Err(mismatch(j)),
    }
}

/// Reads a cell.
pub fn decode_cell(j: &Json) -> (r: Result<Cell, DecodeError>)
    ensures
        outcome(r) == cell_of(j@),
{
    match j {
        Json::Object(fields) => {
            proof {
                lemma_view_parts(*j);
            }
            let kind = read_required(
                fields,
                "type",
                decode_discriminant,
                Ghost(|e: JsonValue| discriminant_of(e)),
            )?;
            let base = decode_base(fields)?;
            match kind {
                CellKind::Unary => {
                    let parameters = read_required(
                        fields,
                        "parameters",
                        decode_unary_parameters,
                        Ghost(|e: JsonValue| unary_parameters_of(e)),
                    )?;
                    Ok(Cell::UnaryCell(UnaryCell { base, parameters }))
                },
                CellKind::Binary => {
                    let parameters = read_required(
                        fields,
                        "parameters",
                        decode_binary_parameters,
                        Ghost(|e: JsonValue| binary_parameters_of(e)),
                    )?;
                    Ok(Cell::BinaryCell(BinaryCell { base, parameters }))
                },
                CellKind::Mux => {
                    let parameters = read_required(
                        fields,
                        "parameters",
                        decode_mux_parameters,
                        Ghost(|e: JsonValue| mux_parameters_of(e)),
                    )?;
                    Ok(Cell::MuxCell(MuxCell { base, parameters }))
                },
                CellKind::PMux => {
                    let parameters = read_required(
                        fields,
                        "parameters",
                        decode_pmux_parameters,
                        Ghost(|e: JsonValue| pmux_parameters_of(e)),
                    )?;
                    Ok(Cell::PMuxCell(PMuxCell { base, parameters }))
                },
                CellKind::Sr => {
                    let parameters = read_required(
                        fields,
                        "parameters",
                        decode_sr_parameters,
                        Ghost(|e: JsonValue| sr_parameters_of(e)),
                    )?;
                    Ok(Cell::SrCell(SrCell { base, parameters }))
                },
                CellKind::Dff => {
                    let parameters = read_required(
                        fields,
                        "parameters",
                        decode_dff_parameters,
                        Ghost(|e: JsonValue| dff_parameters_of(e)),
                    )?;
                    Ok(Cell::DffCell(DffCell { base, parameters }))
                },
                CellKind::ADff => {
                    let parameters = read_required(
                        fields,
                        "parameters",
                        decode_adff_parameters,
                        Ghost(|e: JsonValue| adff_parameters_of(e)),
                    )?;
                    Ok(Cell::ADffCell(ADffCell { base, parameters }))
                },
                CellKind::SDff => {
                    let parameters = read_required(
                        fields,
                        "parameters",
                        decode_sdff_parameters,
                        Ghost(|e: JsonValue| sdff_parameters_of(e)),
                    )?;
                    Ok(Cell::SDffCell(SDffCell { base, parameters }))
                },
                CellKind::Dffsr => {
                    let parameters = read_required(
                        fields,
                        "parameters",
                        decode_dffsr_parameters,
                        Ghost(|e: JsonValue| dffsr_parameters_of(e)),
                    )?;
                    Ok(Cell::DffsrCell(DffsrCell { base, parameters }))
                },
                CellKind::Dffe => {
                    let parameters = read_required(
                        fields,
                        "parameters",
                        decode_dffe_parameters,
                        Ghost(|e: JsonValue| dffe_parameters_of(e)),
                    )?;
                    Ok(Cell::DffeCell(DffeCell { base, parameters }))
                },
                CellKind::ADffe => {
                    let parameters = read_required(
                        fields,
                        "parameters",
                        decode_adffe_parameters,
                        Ghost(|e: JsonValue| adffe_parameters_of(e)),
                    )?;
                    Ok(Cell::ADffeCell(ADffeCell { base, parameters }))
                },
                CellKind::SDffe => {
                    let parameters = read_required(
                        fields,
                        "parameters",
                        decode_sdffe_parameters,
                        Ghost(|e: JsonValue| sdffe_parameters_of(e)),
                    )?;
                    Ok(Cell::SDffeCell(SDffeCell { base, parameters }))
                },
                CellKind::Dffsre => {
                    let parameters = read_required(
                        fields,
                        "parameters",
                        decode_dffsre_parameters,
                        Ghost(|e: JsonValue| dffsre_parameters_of(e)),
                    )?;
                    Ok(Cell::DffsreCell(DffsreCell { base, parameters }))
                },
                CellKind::Mem => {
                    let parameters = read_required(
                        fields,
                        "parameters",
                        decode_mem_parameters,
                        Ghost(|e: JsonValue| mem_parameters_of(e)),
                    )?;
                    Ok(Cell::MemCell(MemCell { base, parameters }))
                },
                CellKind::Print => Ok(Cell::PrintCell(PrintCell { base })),
            }
        },
        _ => Err(mismatch_at(j)),
    }
}

} // verus!
