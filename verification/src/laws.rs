//! What holds of the decoder on every document.

use vstd::prelude::*;
use crate::cell::{
    adff_parameters_of, adffe_parameters_of, arithmetic_types, base_of, binary_parameters_of,
    cell_of, comparison_types, dff_parameters_of, dffe_parameters_of, dffsr_parameters_of,
    dffsre_parameters_of, discriminants, kind_from, kind_of, logic_types, mem_parameters_of,
    mux_parameters_of, number_member, parameter_names, pin_of, pmux_parameters_of,
    sdff_parameters_of, sdffe_parameters_of, sr_parameters_of, unary_parameters_of, unary_types,
    CellKind,
};
use crate::coerce::lemma_number_and_numeral_agree;
use crate::decode::{
    lemma_table_fails_at_first, lemma_table_keeps_names, required, table_of, text_of,
};
use crate::error::{Failure, Reason, Step};
use crate::json::{distinct_names, find, find_folded, JsonValue, Members};
use crate::netlist::{
    attributes_of, design_of, direction_of, module_of, net_of, optional, port_of, ports_of,
};
use crate::text::decimal;
use crate::types::{CellView, ModuleView, YosysDataView};

verus! {

/// What the literals of the table of cell types spell.
proof fn lemma_spellings()
    ensures
        "UnaryCell"@.len() == 9 && "UnaryCell"@[0] == 'U' && "UnaryCell"@[1] == 'n' && "UnaryCell"@[2] == 'a' && "UnaryCell"@[3] == 'r' && "UnaryCell"@[4] == 'y' && "UnaryCell"@[5] == 'C' && "UnaryCell"@[6] == 'e' && "UnaryCell"@[7] == 'l' && "UnaryCell"@[8] == 'l',
        "$not"@.len() == 4 && "$not"@[0] == '$' && "$not"@[1] == 'n' && "$not"@[2] == 'o' && "$not"@[3] == 't',
        "$pos"@.len() == 4 && "$pos"@[0] == '$' && "$pos"@[1] == 'p' && "$pos"@[2] == 'o' && "$pos"@[3] == 's',
        "$neg"@.len() == 4 && "$neg"@[0] == '$' && "$neg"@[1] == 'n' && "$neg"@[2] == 'e' && "$neg"@[3] == 'g',
        "$reduce_and"@.len() == 11 && "$reduce_and"@[0] == '$' && "$reduce_and"@[1] == 'r' && "$reduce_and"@[2] == 'e' && "$reduce_and"@[3] == 'd' && "$reduce_and"@[4] == 'u' && "$reduce_and"@[5] == 'c' && "$reduce_and"@[6] == 'e' && "$reduce_and"@[7] == '_' && "$reduce_and"@[8] == 'a' && "$reduce_and"@[9] == 'n' && "$reduce_and"@[10] == 'd',
        "$reduce_or"@.len() == 10 && "$reduce_or"@[0] == '$' && "$reduce_or"@[1] == 'r' && "$reduce_or"@[2] == 'e' && "$reduce_or"@[3] == 'd' && "$reduce_or"@[4] == 'u' && "$reduce_or"@[5] == 'c' && "$reduce_or"@[6] == 'e' && "$reduce_or"@[7] == '_' && "$reduce_or"@[8] == 'o' && "$reduce_or"@[9] == 'r',
        "$reduce_xor"@.len() == 11 && "$reduce_xor"@[0] == '$' && "$reduce_xor"@[1] == 'r' && "$reduce_xor"@[2] == 'e' && "$reduce_xor"@[3] == 'd' && "$reduce_xor"@[4] == 'u' && "$reduce_xor"@[5] == 'c' && "$reduce_xor"@[6] == 'e' && "$reduce_xor"@[7] == '_' && "$reduce_xor"@[8] == 'x' && "$reduce_xor"@[9] == 'o' && "$reduce_xor"@[10] == 'r',
        "$reduce_xnor"@.len() == 12 && "$reduce_xnor"@[0] == '$' && "$reduce_xnor"@[1] == 'r' && "$reduce_xnor"@[2] == 'e' && "$reduce_xnor"@[3] == 'd' && "$reduce_xnor"@[4] == 'u' && "$reduce_xnor"@[5] == 'c' && "$reduce_xnor"@[6] == 'e' && "$reduce_xnor"@[7] == '_' && "$reduce_xnor"@[8] == 'x' && "$reduce_xnor"@[9] == 'n' && "$reduce_xnor"@[10] == 'o' && "$reduce_xnor"@[11] == 'r',
        "$reduce_bool"@.len() == 12 && "$reduce_bool"@[0] == '$' && "$reduce_bool"@[1] == 'r' && "$reduce_bool"@[2] == 'e' && "$reduce_bool"@[3] == 'd' && "$reduce_bool"@[4] == 'u' && "$reduce_bool"@[5] == 'c' && "$reduce_bool"@[6] == 'e' && "$reduce_bool"@[7] == '_' && "$reduce_bool"@[8] == 'b' && "$reduce_bool"@[9] == 'o' && "$reduce_bool"@[10] == 'o' && "$reduce_bool"@[11] == 'l',
        "$logic_not"@.len() == 10 && "$logic_not"@[0] == '$' && "$logic_not"@[1] == 'l' && "$logic_not"@[2] == 'o' && "$logic_not"@[3] == 'g' && "$logic_not"@[4] == 'i' && "$logic_not"@[5] == 'c' && "$logic_not"@[6] == '_' && "$logic_not"@[7] == 'n' && "$logic_not"@[8] == 'o' && "$logic_not"@[9] == 't',
        "BinaryCell"@.len() == 10 && "BinaryCell"@[0] == 'B' && "BinaryCell"@[1] == 'i' && "BinaryCell"@[2] == 'n' && "BinaryCell"@[3] == 'a' && "BinaryCell"@[4] == 'r' && "BinaryCell"@[5] == 'y' && "BinaryCell"@[6] == 'C' && "BinaryCell"@[7] == 'e' && "BinaryCell"@[8] == 'l' && "BinaryCell"@[9] == 'l',
        "$or"@.len() == 3 && "$or"@[0] == '$' && "$or"@[1] == 'o' && "$or"@[2] == 'r',
        "$and"@.len() == 4 && "$and"@[0] == '$' && "$and"@[1] == 'a' && "$and"@[2] == 'n' && "$and"@[3] == 'd',
        "$xor"@.len() == 4 && "$xor"@[0] == '$' && "$xor"@[1] == 'x' && "$xor"@[2] == 'o' && "$xor"@[3] == 'r',
        "$xnor"@.len() == 5 && "$xnor"@[0] == '$' && "$xnor"@[1] == 'x' && "$xnor"@[2] == 'n' && "$xnor"@[3] == 'o' && "$xnor"@[4] == 'r',
        "$shl"@.len() == 4 && "$shl"@[0] == '$' && "$shl"@[1] == 's' && "$shl"@[2] == 'h' && "$shl"@[3] == 'l',
        "$shr"@.len() == 4 && "$shr"@[0] == '$' && "$shr"@[1] == 's' && "$shr"@[2] == 'h' && "$shr"@[3] == 'r',
        "$sshl"@.len() == 5 && "$sshl"@[0] == '$' && "$sshl"@[1] == 's' && "$sshl"@[2] == 's' && "$sshl"@[3] == 'h' && "$sshl"@[4] == 'l',
        "$sshr"@.len() == 5 && "$sshr"@[0] == '$' && "$sshr"@[1] == 's' && "$sshr"@[2] == 's' && "$sshr"@[3] == 'h' && "$sshr"@[4] == 'r',
        "$logic_and"@.len() == 10 && "$logic_and"@[0] == '$' && "$logic_and"@[1] == 'l' && "$logic_and"@[2] == 'o' && "$logic_and"@[3] == 'g' && "$logic_and"@[4] == 'i' && "$logic_and"@[5] == 'c' && "$logic_and"@[6] == '_' && "$logic_and"@[7] == 'a' && "$logic_and"@[8] == 'n' && "$logic_and"@[9] == 'd',
        "$logic_or"@.len() == 9 && "$logic_or"@[0] == '$' && "$logic_or"@[1] == 'l' && "$logic_or"@[2] == 'o' && "$logic_or"@[3] == 'g' && "$logic_or"@[4] == 'i' && "$logic_or"@[5] == 'c' && "$logic_or"@[6] == '_' && "$logic_or"@[7] == 'o' && "$logic_or"@[8] == 'r',
        "$eqx"@.len() == 4 && "$eqx"@[0] == '$' && "$eqx"@[1] == 'e' && "$eqx"@[2] == 'q' && "$eqx"@[3] == 'x',
        "$nex"@.len() == 4 && "$nex"@[0] == '$' && "$nex"@[1] == 'n' && "$nex"@[2] == 'e' && "$nex"@[3] == 'x',
        "$lt"@.len() == 3 && "$lt"@[0] == '$' && "$lt"@[1] == 'l' && "$lt"@[2] == 't',
        "$le"@.len() == 3 && "$le"@[0] == '$' && "$le"@[1] == 'l' && "$le"@[2] == 'e',
        "$eq"@.len() == 3 && "$eq"@[0] == '$' && "$eq"@[1] == 'e' && "$eq"@[2] == 'q',
        "$ne"@.len() == 3 && "$ne"@[0] == '$' && "$ne"@[1] == 'n' && "$ne"@[2] == 'e',
        "$ge"@.len() == 3 && "$ge"@[0] == '$' && "$ge"@[1] == 'g' && "$ge"@[2] == 'e',
        "$gt"@.len() == 3 && "$gt"@[0] == '$' && "$gt"@[1] == 'g' && "$gt"@[2] == 't',
        "$add"@.len() == 4 && "$add"@[0] == '$' && "$add"@[1] == 'a' && "$add"@[2] == 'd' && "$add"@[3] == 'd',
        "$sub"@.len() == 4 && "$sub"@[0] == '$' && "$sub"@[1] == 's' && "$sub"@[2] == 'u' && "$sub"@[3] == 'b',
        "$mul"@.len() == 4 && "$mul"@[0] == '$' && "$mul"@[1] == 'm' && "$mul"@[2] == 'u' && "$mul"@[3] == 'l',
        "$div"@.len() == 4 && "$div"@[0] == '$' && "$div"@[1] == 'd' && "$div"@[2] == 'i' && "$div"@[3] == 'v',
        "$mod"@.len() == 4 && "$mod"@[0] == '$' && "$mod"@[1] == 'm' && "$mod"@[2] == 'o' && "$mod"@[3] == 'd',
        "$pow"@.len() == 4 && "$pow"@[0] == '$' && "$pow"@[1] == 'p' && "$pow"@[2] == 'o' && "$pow"@[3] == 'w',
        "MuxCell"@.len() == 7 && "MuxCell"@[0] == 'M' && "MuxCell"@[1] == 'u' && "MuxCell"@[2] == 'x' && "MuxCell"@[3] == 'C' && "MuxCell"@[4] == 'e' && "MuxCell"@[5] == 'l' && "MuxCell"@[6] == 'l',
        "$mux"@.len() == 4 && "$mux"@[0] == '$' && "$mux"@[1] == 'm' && "$mux"@[2] == 'u' && "$mux"@[3] == 'x',
        "PMuxCell"@.len() == 8 && "PMuxCell"@[0] == 'P' && "PMuxCell"@[1] == 'M' && "PMuxCell"@[2] == 'u' && "PMuxCell"@[3] == 'x' && "PMuxCell"@[4] == 'C' && "PMuxCell"@[5] == 'e' && "PMuxCell"@[6] == 'l' && "PMuxCell"@[7] == 'l',
        "$pmux"@.len() == 5 && "$pmux"@[0] == '$' && "$pmux"@[1] == 'p' && "$pmux"@[2] == 'm' && "$pmux"@[3] == 'u' && "$pmux"@[4] == 'x',
        "SrCell"@.len() == 6 && "SrCell"@[0] == 'S' && "SrCell"@[1] == 'r' && "SrCell"@[2] == 'C' && "SrCell"@[3] == 'e' && "SrCell"@[4] == 'l' && "SrCell"@[5] == 'l',
        "$sr"@.len() == 3 && "$sr"@[0] == '$' && "$sr"@[1] == 's' && "$sr"@[2] == 'r',
        "DffCell"@.len() == 7 && "DffCell"@[0] == 'D' && "DffCell"@[1] == 'f' && "DffCell"@[2] == 'f' && "DffCell"@[3] == 'C' && "DffCell"@[4] == 'e' && "DffCell"@[5] == 'l' && "DffCell"@[6] == 'l',
        "$dff"@.len() == 4 && "$dff"@[0] == '$' && "$dff"@[1] == 'd' && "$dff"@[2] == 'f' && "$dff"@[3] == 'f',
        "ADffCell"@.len() == 8 && "ADffCell"@[0] == 'A' && "ADffCell"@[1] == 'D' && "ADffCell"@[2] == 'f' && "ADffCell"@[3] == 'f' && "ADffCell"@[4] == 'C' && "ADffCell"@[5] == 'e' && "ADffCell"@[6] == 'l' && "ADffCell"@[7] == 'l',
        "$adff"@.len() == 5 && "$adff"@[0] == '$' && "$adff"@[1] == 'a' && "$adff"@[2] == 'd' && "$adff"@[3] == 'f' && "$adff"@[4] == 'f',
        "SDffCell"@.len() == 8 && "SDffCell"@[0] == 'S' && "SDffCell"@[1] == 'D' && "SDffCell"@[2] == 'f' && "SDffCell"@[3] == 'f' && "SDffCell"@[4] == 'C' && "SDffCell"@[5] == 'e' && "SDffCell"@[6] == 'l' && "SDffCell"@[7] == 'l',
        "$sdff"@.len() == 5 && "$sdff"@[0] == '$' && "$sdff"@[1] == 's' && "$sdff"@[2] == 'd' && "$sdff"@[3] == 'f' && "$sdff"@[4] == 'f',
        "DffsrCell"@.len() == 9 && "DffsrCell"@[0] == 'D' && "DffsrCell"@[1] == 'f' && "DffsrCell"@[2] == 'f' && "DffsrCell"@[3] == 's' && "DffsrCell"@[4] == 'r' && "DffsrCell"@[5] == 'C' && "DffsrCell"@[6] == 'e' && "DffsrCell"@[7] == 'l' && "DffsrCell"@[8] == 'l',
        "$dffsr"@.len() == 6 && "$dffsr"@[0] == '$' && "$dffsr"@[1] == 'd' && "$dffsr"@[2] == 'f' && "$dffsr"@[3] == 'f' && "$dffsr"@[4] == 's' && "$dffsr"@[5] == 'r',
        "DffeCell"@.len() == 8 && "DffeCell"@[0] == 'D' && "DffeCell"@[1] == 'f' && "DffeCell"@[2] == 'f' && "DffeCell"@[3] == 'e' && "DffeCell"@[4] == 'C' && "DffeCell"@[5] == 'e' && "DffeCell"@[6] == 'l' && "DffeCell"@[7] == 'l',
        "$dffe"@.len() == 5 && "$dffe"@[0] == '$' && "$dffe"@[1] == 'd' && "$dffe"@[2] == 'f' && "$dffe"@[3] == 'f' && "$dffe"@[4] == 'e',
        "ADffeCell"@.len() == 9 && "ADffeCell"@[0] == 'A' && "ADffeCell"@[1] == 'D' && "ADffeCell"@[2] == 'f' && "ADffeCell"@[3] == 'f' && "ADffeCell"@[4] == 'e' && "ADffeCell"@[5] == 'C' && "ADffeCell"@[6] == 'e' && "ADffeCell"@[7] == 'l' && "ADffeCell"@[8] == 'l',
        "$adffe"@.len() == 6 && "$adffe"@[0] == '$' && "$adffe"@[1] == 'a' && "$adffe"@[2] == 'd' && "$adffe"@[3] == 'f' && "$adffe"@[4] == 'f' && "$adffe"@[5] == 'e',
        "SDffeCell"@.len() == 9 && "SDffeCell"@[0] == 'S' && "SDffeCell"@[1] == 'D' && "SDffeCell"@[2] == 'f' && "SDffeCell"@[3] == 'f' && "SDffeCell"@[4] == 'e' && "SDffeCell"@[5] == 'C' && "SDffeCell"@[6] == 'e' && "SDffeCell"@[7] == 'l' && "SDffeCell"@[8] == 'l',
        "$sdffe"@.len() == 6 && "$sdffe"@[0] == '$' && "$sdffe"@[1] == 's' && "$sdffe"@[2] == 'd' && "$sdffe"@[3] == 'f' && "$sdffe"@[4] == 'f' && "$sdffe"@[5] == 'e',
        "DffsreCell"@.len() == 10 && "DffsreCell"@[0] == 'D' && "DffsreCell"@[1] == 'f' && "DffsreCell"@[2] == 'f' && "DffsreCell"@[3] == 's' && "DffsreCell"@[4] == 'r' && "DffsreCell"@[5] == 'e' && "DffsreCell"@[6] == 'C' && "DffsreCell"@[7] == 'e' && "DffsreCell"@[8] == 'l' && "DffsreCell"@[9] == 'l',
        "$dffsre"@.len() == 7 && "$dffsre"@[0] == '$' && "$dffsre"@[1] == 'd' && "$dffsre"@[2] == 'f' && "$dffsre"@[3] == 'f' && "$dffsre"@[4] == 's' && "$dffsre"@[5] == 'r' && "$dffsre"@[6] == 'e',
        "MemCell"@.len() == 7 && "MemCell"@[0] == 'M' && "MemCell"@[1] == 'e' && "MemCell"@[2] == 'm' && "MemCell"@[3] == 'C' && "MemCell"@[4] == 'e' && "MemCell"@[5] == 'l' && "MemCell"@[6] == 'l',
        "$mem"@.len() == 4 && "$mem"@[0] == '$' && "$mem"@[1] == 'm' && "$mem"@[2] == 'e' && "$mem"@[3] == 'm',
        "PrintCell"@.len() == 9 && "PrintCell"@[0] == 'P' && "PrintCell"@[1] == 'r' && "PrintCell"@[2] == 'i' && "PrintCell"@[3] == 'n' && "PrintCell"@[4] == 't' && "PrintCell"@[5] == 'C' && "PrintCell"@[6] == 'e' && "PrintCell"@[7] == 'l' && "PrintCell"@[8] == 'l',
        "$print"@.len() == 6 && "$print"@[0] == '$' && "$print"@[1] == 'p' && "$print"@[2] == 'r' && "$print"@[3] == 'i' && "$print"@[4] == 'n' && "$print"@[5] == 't',
{
    reveal_strlit("UnaryCell");
    reveal_strlit("$not");
    reveal_strlit("$pos");
    reveal_strlit("$neg");
    reveal_strlit("$reduce_and");
    reveal_strlit("$reduce_or");
    reveal_strlit("$reduce_xor");
    reveal_strlit("$reduce_xnor");
    reveal_strlit("$reduce_bool");
    reveal_strlit("$logic_not");
    reveal_strlit("BinaryCell");
    reveal_strlit("$or");
    reveal_strlit("$and");
    reveal_strlit("$xor");
    reveal_strlit("$xnor");
    reveal_strlit("$shl");
    reveal_strlit("$shr");
    reveal_strlit("$sshl");
    reveal_strlit("$sshr");
    reveal_strlit("$logic_and");
    reveal_strlit("$logic_or");
    reveal_strlit("$eqx");
    reveal_strlit("$nex");
    reveal_strlit("$lt");
    reveal_strlit("$le");
    reveal_strlit("$eq");
    reveal_strlit("$ne");
    reveal_strlit("$ge");
    reveal_strlit("$gt");
    reveal_strlit("$add");
    reveal_strlit("$sub");
    reveal_strlit("$mul");
    reveal_strlit("$div");
    reveal_strlit("$mod");
    reveal_strlit("$pow");
    reveal_strlit("MuxCell");
    reveal_strlit("$mux");
    reveal_strlit("PMuxCell");
    reveal_strlit("$pmux");
    reveal_strlit("SrCell");
    reveal_strlit("$sr");
    reveal_strlit("DffCell");
    reveal_strlit("$dff");
    reveal_strlit("ADffCell");
    reveal_strlit("$adff");
    reveal_strlit("SDffCell");
    reveal_strlit("$sdff");
    reveal_strlit("DffsrCell");
    reveal_strlit("$dffsr");
    reveal_strlit("DffeCell");
    reveal_strlit("$dffe");
    reveal_strlit("ADffeCell");
    reveal_strlit("$adffe");
    reveal_strlit("SDffeCell");
    reveal_strlit("$sdffe");
    reveal_strlit("DffsreCell");
    reveal_strlit("$dffsre");
    reveal_strlit("MemCell");
    reveal_strlit("$mem");
    reveal_strlit("PrintCell");
    reveal_strlit("$print");
}

/// The kind of a name is that of its first entry in the table.
proof fn lemma_kind_from(table: Seq<(Seq<char>, CellKind)>, name: Seq<char>, from: int, i: int)
    requires
        0 <= from <= i < table.len(),
        table[i].0 == name,
        forall|j: int| from <= j < i ==> (#[trigger] table[j]).0 != name,
    ensures
        kind_from(table, name, from) == Some(table[i].1),
    decreases i - from,
{
    if from < i {
        lemma_kind_from(table, name, from + 1, i);
    }
}

/// The kind of the name at position `i` of the table, where no earlier entry has that name.
proof fn lemma_kind_at(i: int)
    requires
        0 <= i < discriminants().len(),
        forall|j: int| 0 <= j < i ==> (#[trigger] discriminants()[j]).0 != discriminants()[i].0,
    ensures
        kind_of(discriminants()[i].0) == Some(discriminants()[i].1),
{
    lemma_kind_from(discriminants(), discriminants()[i].0, 0, i);
}

/// Each entry of the table from position 0 up to position 10 gives its name its kind.
proof fn lemma_entries_0()
    ensures
        forall|i: int| 0 <= i < 10 ==> kind_of(#[trigger] discriminants()[i].0) == Some(discriminants()[i].1),
{
    lemma_spellings();
    lemma_kind_at(0);
    lemma_kind_at(1);
    lemma_kind_at(2);
    lemma_kind_at(3);
    lemma_kind_at(4);
    lemma_kind_at(5);
    lemma_kind_at(6);
    lemma_kind_at(7);
    lemma_kind_at(8);
    lemma_kind_at(9);
}

/// Each entry of the table from position 10 up to position 21 gives its name its kind.
proof fn lemma_entries_1()
    ensures
        forall|i: int| 10 <= i < 21 ==> kind_of(#[trigger] discriminants()[i].0) == Some(discriminants()[i].1),
{
    lemma_spellings();
    lemma_kind_at(10);
    lemma_kind_at(11);
    lemma_kind_at(12);
    lemma_kind_at(13);
    lemma_kind_at(14);
    lemma_kind_at(15);
    lemma_kind_at(16);
    lemma_kind_at(17);
    lemma_kind_at(18);
    lemma_kind_at(19);
    lemma_kind_at(20);
}

/// Each entry of the table from position 21 up to position 35 gives its name its kind.
proof fn lemma_entries_2()
    ensures
        forall|i: int| 21 <= i < 35 ==> kind_of(#[trigger] discriminants()[i].0) == Some(discriminants()[i].1),
{
    lemma_spellings();
    lemma_kind_at(21);
    lemma_kind_at(22);
    lemma_kind_at(23);
    lemma_kind_at(24);
    lemma_kind_at(25);
    lemma_kind_at(26);
    lemma_kind_at(27);
    lemma_kind_at(28);
    lemma_kind_at(29);
    lemma_kind_at(30);
    lemma_kind_at(31);
    lemma_kind_at(32);
    lemma_kind_at(33);
    lemma_kind_at(34);
}

/// Each entry of the table from position 35 up to position 49 gives its name its kind.
proof fn lemma_entries_3()
    ensures
        forall|i: int| 35 <= i < 49 ==> kind_of(#[trigger] discriminants()[i].0) == Some(discriminants()[i].1),
{
    lemma_spellings();
    lemma_kind_at(35);
    lemma_kind_at(36);
    lemma_kind_at(37);
    lemma_kind_at(38);
    lemma_kind_at(39);
    lemma_kind_at(40);
    lemma_kind_at(41);
    lemma_kind_at(42);
    lemma_kind_at(43);
    lemma_kind_at(44);
    lemma_kind_at(45);
    lemma_kind_at(46);
    lemma_kind_at(47);
    lemma_kind_at(48);
}

/// Each entry of the table from position 49 up to position 61 gives its name its kind.
proof fn lemma_entries_4()
    ensures
        forall|i: int| 49 <= i < 61 ==> kind_of(#[trigger] discriminants()[i].0) == Some(discriminants()[i].1),
{
    lemma_spellings();
    lemma_kind_at(49);
    lemma_kind_at(50);
    lemma_kind_at(51);
    lemma_kind_at(52);
    lemma_kind_at(53);
    lemma_kind_at(54);
    lemma_kind_at(55);
    lemma_kind_at(56);
    lemma_kind_at(57);
    lemma_kind_at(58);
    lemma_kind_at(59);
    lemma_kind_at(60);
}

/// No type stands twice in the table: each entry gives its name its kind.
pub proof fn lemma_every_type_has_its_kind()
    ensures
        forall|i: int|
            0 <= i < discriminants().len() ==> kind_of(#[trigger] discriminants()[i].0) == Some(
                discriminants()[i].1,
            ),
{
    assert(discriminants().len() == 61);
    lemma_entries_0();
    lemma_entries_1();
    lemma_entries_2();
    lemma_entries_3();
    lemma_entries_4();
}

/// Every type of a gate with two operands stands for the same kind of cell.
pub proof fn lemma_binary_types()
    ensures
        forall|i: int| 0 <= i < logic_types().len() ==> kind_of(#[trigger] logic_types()[i].0) == Some(CellKind::Binary),
        forall|i: int| 0 <= i < comparison_types().len() ==> kind_of(#[trigger] comparison_types()[i].0) == Some(CellKind::Binary),
        forall|i: int| 0 <= i < arithmetic_types().len() ==> kind_of(#[trigger] arithmetic_types()[i].0) == Some(CellKind::Binary),
{
    lemma_every_type_has_its_kind();
    let t = discriminants();
    assert(unary_types().len() == 10);
    assert(logic_types().len() == 11);
    assert(comparison_types().len() == 8);
    assert(arithmetic_types().len() == 6);
    assert forall|i: int| 0 <= i < logic_types().len() implies kind_of(#[trigger] logic_types()[i].0) == Some(CellKind::Binary) by {
        assert(t[i + 10] == logic_types()[i]);
        assert(logic_types()[i].1 == CellKind::Binary);
    }
    assert forall|i: int| 0 <= i < comparison_types().len() implies kind_of(#[trigger] comparison_types()[i].0) == Some(CellKind::Binary) by {
        assert(t[i + 21] == comparison_types()[i]);
        assert(comparison_types()[i].1 == CellKind::Binary);
    }
    assert forall|i: int| 0 <= i < arithmetic_types().len() implies kind_of(#[trigger] arithmetic_types()[i].0) == Some(CellKind::Binary) by {
        assert(t[i + 29] == arithmetic_types()[i]);
        assert(arithmetic_types()[i].1 == CellKind::Binary);
    }
}

/// The kinds that the types of the flip-flops stand for: each type has a kind of its own.
pub proof fn lemma_flip_flop_kinds()
    ensures
        kind_of("$dff"@) == Some(CellKind::Dff),
        kind_of("$adff"@) == Some(CellKind::ADff),
        kind_of("$sdff"@) == Some(CellKind::SDff),
        kind_of("$dffsr"@) == Some(CellKind::Dffsr),
        kind_of("$dffe"@) == Some(CellKind::Dffe),
        kind_of("$adffe"@) == Some(CellKind::ADffe),
        kind_of("$sdffe"@) == Some(CellKind::SDffe),
        kind_of("$dffsre"@) == Some(CellKind::Dffsre),
{
    lemma_every_type_has_its_kind();
    let t = discriminants();
    assert(t.len() == 61);
    assert(discriminants()[42].0 == "$dff"@ && discriminants()[42].1 == CellKind::Dff);
    assert(discriminants()[44].0 == "$adff"@ && discriminants()[44].1 == CellKind::ADff);
    assert(discriminants()[46].0 == "$sdff"@ && discriminants()[46].1 == CellKind::SDff);
    assert(discriminants()[48].0 == "$dffsr"@ && discriminants()[48].1 == CellKind::Dffsr);
    assert(discriminants()[50].0 == "$dffe"@ && discriminants()[50].1 == CellKind::Dffe);
    assert(discriminants()[52].0 == "$adffe"@ && discriminants()[52].1 == CellKind::ADffe);
    assert(discriminants()[54].0 == "$sdffe"@ && discriminants()[54].1 == CellKind::SDffe);
    assert(discriminants()[56].0 == "$dffsre"@ && discriminants()[56].1 == CellKind::Dffsre);
}

/// A cell that decodes is of the kind that its `type` stands for.
pub proof fn lemma_cell_is_of_its_kind(j: JsonValue)
    requires
        cell_of(j) is Ok,
    ensures
        j is Object,
        find(j->Object_0, "type"@) matches Some(JsonValue::String(t)) && kind_of(t) == Some(
            cell_of(j)->Ok_0.kind(),
        ),
{
}

/// Whether the parameters of a cell of the given kind decode. A cell that
/// prints has none, so there is nothing to decode.
pub open spec fn parameters_decode(kind: CellKind, v: JsonValue) -> bool {
    match kind {
        CellKind::Unary => unary_parameters_of(v) is Ok,
        CellKind::Binary => binary_parameters_of(v) is Ok,
        CellKind::Mux => mux_parameters_of(v) is Ok,
        CellKind::PMux => pmux_parameters_of(v) is Ok,
        CellKind::Sr => sr_parameters_of(v) is Ok,
        CellKind::Dff => dff_parameters_of(v) is Ok,
        CellKind::ADff => adff_parameters_of(v) is Ok,
        CellKind::SDff => sdff_parameters_of(v) is Ok,
        CellKind::Dffsr => dffsr_parameters_of(v) is Ok,
        CellKind::Dffe => dffe_parameters_of(v) is Ok,
        CellKind::ADffe => adffe_parameters_of(v) is Ok,
        CellKind::SDffe => sdffe_parameters_of(v) is Ok,
        CellKind::Dffsre => dffsre_parameters_of(v) is Ok,
        CellKind::Mem => mem_parameters_of(v) is Ok,
        CellKind::Print => true,
    }
}

/// The parameters of a gate with one operand do not decode without each of their fields.
proof fn lemma_unary_needs(given: Members, i: int)
    requires
        0 <= i < parameter_names(CellKind::Unary).len(),
        find_folded(given, parameter_names(CellKind::Unary)[i]) is None,
    ensures
        unary_parameters_of(JsonValue::Object(given)) is Err,
{
}

/// The parameters of a gate with two operands do not decode without each of their fields.
proof fn lemma_binary_needs(given: Members, i: int)
    requires
        0 <= i < parameter_names(CellKind::Binary).len(),
        find_folded(given, parameter_names(CellKind::Binary)[i]) is None,
    ensures
        binary_parameters_of(JsonValue::Object(given)) is Err,
{
}

/// The parameters of a multiplexer do not decode without each of their fields.
proof fn lemma_mux_needs(given: Members, i: int)
    requires
        0 <= i < parameter_names(CellKind::Mux).len(),
        find_folded(given, parameter_names(CellKind::Mux)[i]) is None,
    ensures
        mux_parameters_of(JsonValue::Object(given)) is Err,
{
}

/// The parameters of a priority multiplexer do not decode without each of their fields.
proof fn lemma_pmux_needs(given: Members, i: int)
    requires
        0 <= i < parameter_names(CellKind::PMux).len(),
        find_folded(given, parameter_names(CellKind::PMux)[i]) is None,
    ensures
        pmux_parameters_of(JsonValue::Object(given)) is Err,
{
}

/// The parameters of a set/reset latch do not decode without each of their fields.
proof fn lemma_sr_needs(given: Members, i: int)
    requires
        0 <= i < parameter_names(CellKind::Sr).len(),
        find_folded(given, parameter_names(CellKind::Sr)[i]) is None,
    ensures
        sr_parameters_of(JsonValue::Object(given)) is Err,
{
}

/// The parameters of a flip-flop do not decode without each of their fields.
proof fn lemma_dff_needs(given: Members, i: int)
    requires
        0 <= i < parameter_names(CellKind::Dff).len(),
        find_folded(given, parameter_names(CellKind::Dff)[i]) is None,
    ensures
        dff_parameters_of(JsonValue::Object(given)) is Err,
{
}

/// The parameters of a flip-flop with an asynchronous reset do not decode without each of their fields.
proof fn lemma_adff_needs(given: Members, i: int)
    requires
        0 <= i < parameter_names(CellKind::ADff).len(),
        find_folded(given, parameter_names(CellKind::ADff)[i]) is None,
    ensures
        adff_parameters_of(JsonValue::Object(given)) is Err,
{
}

/// The parameters of a flip-flop with a synchronous reset do not decode without each of their fields.
proof fn lemma_sdff_needs(given: Members, i: int)
    requires
        0 <= i < parameter_names(CellKind::SDff).len(),
        find_folded(given, parameter_names(CellKind::SDff)[i]) is None,
    ensures
        sdff_parameters_of(JsonValue::Object(given)) is Err,
{
}

/// The parameters of a flip-flop with set and reset do not decode without each of their fields.
proof fn lemma_dffsr_needs(given: Members, i: int)
    requires
        0 <= i < parameter_names(CellKind::Dffsr).len(),
        find_folded(given, parameter_names(CellKind::Dffsr)[i]) is None,
    ensures
        dffsr_parameters_of(JsonValue::Object(given)) is Err,
{
}

/// The parameters of a flip-flop with an enable do not decode without each of their fields.
proof fn lemma_dffe_needs(given: Members, i: int)
    requires
        0 <= i < parameter_names(CellKind::Dffe).len(),
        find_folded(given, parameter_names(CellKind::Dffe)[i]) is None,
    ensures
        dffe_parameters_of(JsonValue::Object(given)) is Err,
{
}

/// The parameters of a flip-flop with an asynchronous reset and an enable do not decode without each of their fields.
proof fn lemma_adffe_needs(given: Members, i: int)
    requires
        0 <= i < parameter_names(CellKind::ADffe).len(),
        find_folded(given, parameter_names(CellKind::ADffe)[i]) is None,
    ensures
        adffe_parameters_of(JsonValue::Object(given)) is Err,
{
}

/// The parameters of a flip-flop with a synchronous reset and an enable do not decode without each of their fields.
proof fn lemma_sdffe_needs(given: Members, i: int)
    requires
        0 <= i < parameter_names(CellKind::SDffe).len(),
        find_folded(given, parameter_names(CellKind::SDffe)[i]) is None,
    ensures
        sdffe_parameters_of(JsonValue::Object(given)) is Err,
{
}

/// The parameters of a flip-flop with set, reset and an enable do not decode without each of their fields.
proof fn lemma_dffsre_needs(given: Members, i: int)
    requires
        0 <= i < parameter_names(CellKind::Dffsre).len(),
        find_folded(given, parameter_names(CellKind::Dffsre)[i]) is None,
    ensures
        dffsre_parameters_of(JsonValue::Object(given)) is Err,
{
}

/// The parameters of a memory do not decode without each of their fields.
proof fn lemma_mem_needs(given: Members, i: int)
    requires
        0 <= i < parameter_names(CellKind::Mem).len(),
        find_folded(given, parameter_names(CellKind::Mem)[i]) is None,
    ensures
        mem_parameters_of(JsonValue::Object(given)) is Err,
{
}

/// The parameters of a cell do not decode where they lack one of the
/// fields of its kind.
pub proof fn lemma_missing_parameter_fails(kind: CellKind, given: Members, i: int)
    requires
        0 <= i < parameter_names(kind).len(),
        find_folded(given, parameter_names(kind)[i]) is None,
    ensures
        !parameters_decode(kind, JsonValue::Object(given)),
{
    match kind {
        CellKind::Unary => lemma_unary_needs(given, i),
        CellKind::Binary => lemma_binary_needs(given, i),
        CellKind::Mux => lemma_mux_needs(given, i),
        CellKind::PMux => lemma_pmux_needs(given, i),
        CellKind::Sr => lemma_sr_needs(given, i),
        CellKind::Dff => lemma_dff_needs(given, i),
        CellKind::ADff => lemma_adff_needs(given, i),
        CellKind::SDff => lemma_sdff_needs(given, i),
        CellKind::Dffsr => lemma_dffsr_needs(given, i),
        CellKind::Dffe => lemma_dffe_needs(given, i),
        CellKind::ADffe => lemma_adffe_needs(given, i),
        CellKind::SDffe => lemma_sdffe_needs(given, i),
        CellKind::Dffsre => lemma_dffsre_needs(given, i),
        CellKind::Mem => lemma_mem_needs(given, i),
        CellKind::Print => {},
    }
}

/// A cell decodes only where the parameters of its kind decode.
pub proof fn lemma_cell_needs_its_parameters(j: JsonValue)
    requires
        cell_of(j) is Ok,
        cell_of(j)->Ok_0.kind() != CellKind::Print,
    ensures
        j is Object,
        find(j->Object_0, "parameters"@) matches Some(v) && parameters_decode(
            cell_of(j)->Ok_0.kind(),
            v,
        ),
{
}

/// The parameters of a cell that decodes are an object that has every
/// field of the kind of the cell.
pub proof fn lemma_parameters_are_complete(j: JsonValue, i: int)
    requires
        cell_of(j) is Ok,
        0 <= i < parameter_names(cell_of(j)->Ok_0.kind()).len(),
    ensures
        j is Object,
        find(j->Object_0, "parameters"@) matches Some(JsonValue::Object(given)) && find_folded(
            given,
            parameter_names(cell_of(j)->Ok_0.kind())[i],
        ) is Some,
{
    let kind = cell_of(j)->Ok_0.kind();
    assert(kind != CellKind::Print);
    lemma_cell_needs_its_parameters(j);
    let v = find(j->Object_0, "parameters"@)->Some_0;
    assert(v is Object) by {
        lemma_parameters_are_an_object(kind, v);
    }
    if find_folded(v->Object_0, parameter_names(kind)[i]) is None {
        lemma_missing_parameter_fails(kind, v->Object_0, i);
    }
}

/// Parameters that decode are an object.
proof fn lemma_parameters_are_an_object(kind: CellKind, v: JsonValue)
    requires
        kind != CellKind::Print,
        parameters_decode(kind, v),
    ensures
        v is Object,
{
}

/// Two cells whose types stand for the same kind, and whose other members
/// are the same, decode to the same cell.
pub proof fn lemma_type_counts_by_kind_alone(a: Members, b: Members)
    requires
        find(a, "type"@) matches Some(JsonValue::String(t)) && kind_of(t) is Some,
        find(b, "type"@) matches Some(JsonValue::String(t)) && kind_of(t) is Some,
        kind_of(find(a, "type"@)->Some_0->String_0) == kind_of(find(b, "type"@)->Some_0->String_0),
        find(a, "hide_name"@) == find(b, "hide_name"@),
        find(a, "attributes"@) == find(b, "attributes"@),
        find(a, "port_directions"@) == find(b, "port_directions"@),
        find(a, "connections"@) == find(b, "connections"@),
        find(a, "parameters"@) == find(b, "parameters"@),
    ensures
        cell_of(JsonValue::Object(a)) == cell_of(JsonValue::Object(b)),
{
}

/// A cell whose `type` is a text that the table does not know fails with
/// that text, at its `type`.
pub proof fn lemma_unknown_type_fails(members: Members, t: Seq<char>)
    requires
        find(members, "type"@) == Some(JsonValue::String(t)),
        kind_of(t) is None,
    ensures
        cell_of(JsonValue::Object(members)) == Err::<CellView, Failure>(
            Failure { path: seq![Step::Key("type"@)], cause: Reason::UnknownCellType(t) },
        ),
{
    assert(seq![Step::Key("type"@)] + Seq::<Step>::empty() =~= seq![Step::Key("type"@)]);
}

/// A numeric parameter reads the same whether the document holds the number
/// as a JSON number or as the text of its decimal digits.
pub proof fn lemma_parameter_as_number_or_text(a: Members, b: Members, name: Seq<char>, n: u32)
    requires
        find_folded(a, name) matches Some((_, v)) && v == JsonValue::Integer(n as int),
        find_folded(b, name) matches Some((_, v)) && v == JsonValue::String(decimal(n as nat)),
    ensures
        number_member(a, name) == Ok::<u32, Failure>(n),
        number_member(b, name) == Ok::<u32, Failure>(n),
{
    lemma_number_and_numeral_agree(n);
}

/// The texts among the parameters of a memory are kept as the document spells them.
pub proof fn lemma_memory_texts_verbatim(given: Members)
    requires
        mem_parameters_of(JsonValue::Object(given)) is Ok,
    ensures
        ({
            let p = mem_parameters_of(JsonValue::Object(given))->Ok_0;
            &&& find_folded(given, "MEMID"@) matches Some((_, v)) && v == JsonValue::String(p.memid)
            &&& find_folded(given, "INIT"@) matches Some((_, v)) && v == JsonValue::String(p.init)
            &&& find_folded(given, "RD_INIT_VALUE"@) matches Some((_, v)) && v
                == JsonValue::String(p.rd_init_value)
            &&& find_folded(given, "RD_ARST_VALUE"@) matches Some((_, v)) && v
                == JsonValue::String(p.rd_arst_value)
            &&& find_folded(given, "RD_SRST_VALUE"@) matches Some((_, v)) && v
                == JsonValue::String(p.rd_srst_value)
        }),
{
}

/// A module without cells and without nets decodes, where its attributes
/// and its ports do, to a module with no cell and no net.
pub proof fn lemma_module_without_cells_and_nets(members: Members)
    requires
        required(members, "attributes"@, |e: JsonValue| attributes_of(e)) is Ok,
        optional(members, "parameter_default_values"@, |e: JsonValue| attributes_of(e)) is Ok,
        required(members, "ports"@, |e: JsonValue| ports_of(e)) is Ok,
        find(members, "cells"@) == Some(JsonValue::Object(Seq::empty())),
        find(members, "netnames"@) == Some(JsonValue::Object(Seq::empty())),
    ensures
        module_of(JsonValue::Object(members)) matches Ok(m) && m.cells.len() == 0
            && m.netnames.len() == 0,
{
}


/// What is found among well-named members is well named.
proof fn lemma_found_is_well_named(members: Members, name: Seq<char>)
    requires
        forall|i: int| 0 <= i < members.len() ==> (#[trigger] members[i]).1.well_named(),
    ensures
        find(members, name) matches Some(v) ==> v.well_named(),
        find_folded(members, name) matches Some((_, v)) ==> v.well_named(),
    decreases members.len(),
{
    if members.len() > 0 {
        assert(members[0].1.well_named());
        assert forall|i: int| 0 <= i < members.drop_first().len() implies (
        #[trigger] members.drop_first()[i]).1.well_named() by {
            assert(members.drop_first()[i] == members[i + 1]);
        }
        lemma_found_is_well_named(members.drop_first(), name);
    }
}

/// A table decoded from a well-named object has no name twice, and each of
/// its entries is what a well-named member decodes to.
proof fn lemma_table_is_well_named<T>(j: JsonValue, decode: spec_fn(JsonValue) -> Result<T, Failure>)
    requires
        j.well_named(),
        table_of(j, decode) is Ok,
    ensures
        distinct_names(table_of(j, decode)->Ok_0),
        j is Object,
        table_of(j, decode)->Ok_0.len() == j->Object_0.len(),
        forall|i: int|
            0 <= i < j->Object_0.len() ==> (#[trigger] j->Object_0[i]).1.well_named() && decode(
                j->Object_0[i].1,
            ) == Ok::<T, Failure>(table_of(j, decode)->Ok_0[i].1),
{
    let members = j->Object_0;
    let t = table_of(j, decode)->Ok_0;
    lemma_table_keeps_names(members, decode);
    assert forall|a: int, b: int| 0 <= a < b < t.len() implies (#[trigger] t[a]).0 != (#[trigger] t[b]).0 by {
        assert(t[a].0 == members[a].0);
        assert(t[b].0 == members[b].0);
    }
}

/// What every cell has, decoded from well-named members, is well named.
proof fn lemma_base_is_well_named(members: Members)
    requires
        forall|i: int| 0 <= i < members.len() ==> (#[trigger] members[i]).1.well_named(),
        base_of(members) is Ok,
    ensures
        base_of(members)->Ok_0.well_named(),
{
    lemma_found_is_well_named(members, "attributes"@);
    lemma_found_is_well_named(members, "port_directions"@);
    lemma_found_is_well_named(members, "connections"@);
    lemma_table_is_well_named(find(members, "attributes"@)->Some_0, |e: JsonValue| text_of(e));
    lemma_table_is_well_named(
        find(members, "port_directions"@)->Some_0,
        |e: JsonValue| direction_of(e),
    );
    lemma_table_is_well_named(find(members, "connections"@)->Some_0, |e: JsonValue| pin_of(e));
}

/// A cell decoded from a well-named value is well named.
proof fn lemma_cell_is_well_named(j: JsonValue)
    requires
        j.well_named(),
        cell_of(j) is Ok,
    ensures
        cell_of(j)->Ok_0.base().well_named(),
{
    lemma_base_is_well_named(j->Object_0);
}

/// A net decoded from a well-named value is well named.
proof fn lemma_net_is_well_named(j: JsonValue)
    requires
        j.well_named(),
        net_of(j) is Ok,
    ensures
        net_of(j)->Ok_0.well_named(),
{
    let members = j->Object_0;
    lemma_found_is_well_named(members, "attributes"@);
    lemma_table_is_well_named(find(members, "attributes"@)->Some_0, |e: JsonValue| text_of(e));
}

/// A module decoded from a well-named value is well named.
proof fn lemma_module_is_well_named(j: JsonValue)
    requires
        j.well_named(),
        module_of(j) is Ok,
    ensures
        module_of(j)->Ok_0.well_named(),
{
    let members = j->Object_0;
    let m = module_of(j)->Ok_0;
    lemma_found_is_well_named(members, "attributes"@);
    lemma_found_is_well_named(members, "parameter_default_values"@);
    lemma_found_is_well_named(members, "ports"@);
    lemma_found_is_well_named(members, "cells"@);
    lemma_found_is_well_named(members, "netnames"@);
    lemma_table_is_well_named(find(members, "attributes"@)->Some_0, |e: JsonValue| text_of(e));
    if m.parameter_default_values is Some {
        lemma_table_is_well_named(
            find(members, "parameter_default_values"@)->Some_0,
            |e: JsonValue| text_of(e),
        );
    }
    lemma_table_is_well_named(find(members, "ports"@)->Some_0, |e: JsonValue| port_of(e));
    let cells = find(members, "cells"@)->Some_0;
    lemma_table_is_well_named(cells, |e: JsonValue| cell_of(e));
    assert forall|i: int| 0 <= i < m.cells.len() implies (#[trigger] m.cells[i]).1.base().well_named() by {
        assert(cells->Object_0[i].1.well_named());
        lemma_cell_is_well_named(cells->Object_0[i].1);
    }
    let nets = find(members, "netnames"@)->Some_0;
    lemma_table_is_well_named(nets, |e: JsonValue| net_of(e));
    assert forall|i: int| 0 <= i < m.netnames.len() implies (#[trigger] m.netnames[i]).1.well_named() by {
        assert(nets->Object_0[i].1.well_named());
        lemma_net_is_well_named(nets->Object_0[i].1);
    }
}

/// Names stay distinct: the design decoded from a document in which no
/// object has two members of one name has no name twice, in any of its tables.
pub proof fn lemma_names_stay_distinct(j: JsonValue)
    requires
        j.well_named(),
        design_of(j) is Ok,
    ensures
        design_of(j)->Ok_0.well_named(),
{
    let members = j->Object_0;
    let d = design_of(j)->Ok_0;
    lemma_found_is_well_named(members, "modules"@);
    let modules = find(members, "modules"@)->Some_0;
    lemma_table_is_well_named(modules, |e: JsonValue| module_of(e));
    assert forall|i: int| 0 <= i < d.modules.len() implies (#[trigger] d.modules[i]).1.well_named() by {
        assert(modules->Object_0[i].1.well_named());
        lemma_module_is_well_named(modules->Object_0[i].1);
    }
}

/// A design fails as the first of its modules that fails does: with the
/// failure of that module, under its name, under `modules`.
pub proof fn lemma_design_fails_with_its_module(members: Members, modules: Members, i: int)
    requires
        find(members, "creator"@) matches Some(v) && v is String,
        find(members, "modules"@) == Some(JsonValue::Object(modules)),
        0 <= i < modules.len(),
        module_of(modules[i].1) is Err,
        forall|k: int| 0 <= k < i ==> module_of((#[trigger] modules[k]).1) is Ok,
    ensures
        design_of(JsonValue::Object(members)) == Err::<YosysDataView, Failure>(
            module_of(modules[i].1)->Err_0.under(Step::Key(modules[i].0)).under(
                Step::Key("modules"@),
            ),
        ),
{
    lemma_table_fails_at_first(modules, |e: JsonValue| module_of(e), i);
}

/// A module whose attributes and ports decode fails as the first of its
/// cells that fails does: with the failure of that cell, under its name, under `cells`.
pub proof fn lemma_module_fails_with_its_cell(members: Members, cells: Members, i: int)
    requires
        required(members, "attributes"@, |e: JsonValue| attributes_of(e)) is Ok,
        optional(members, "parameter_default_values"@, |e: JsonValue| attributes_of(e)) is Ok,
        required(members, "ports"@, |e: JsonValue| ports_of(e)) is Ok,
        find(members, "cells"@) == Some(JsonValue::Object(cells)),
        0 <= i < cells.len(),
        cell_of(cells[i].1) is Err,
        forall|k: int| 0 <= k < i ==> cell_of((#[trigger] cells[k]).1) is Ok,
    ensures
        module_of(JsonValue::Object(members)) == Err::<ModuleView, Failure>(
            cell_of(cells[i].1)->Err_0.under(Step::Key(cells[i].0)).under(Step::Key("cells"@)),
        ),
{
    lemma_table_fails_at_first(cells, |e: JsonValue| cell_of(e), i);
}

} // verus!
