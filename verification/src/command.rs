//! The command lines that run the synthesis tool, and what is read from its first run.

use vstd::prelude::*;
use vstd::string::StringExecFns;
use crate::json::{find, lemma_view_parts, member, members_of, Json, JsonValue, Members};

verus! {

/// Texts written one after the other, with `separator` between each two.
pub open spec fn joined(parts: Seq<Seq<char>>, separator: Seq<char>) -> Seq<char>
    decreases parts.len(),
{
    if parts.len() == 0 {
        Seq::empty()
    } else if parts.len() == 1 {
        parts[0]
    } else {
        joined(parts.drop_last(), separator) + separator + parts.last()
    }
}

/// The modules to keep, as an option of the command line: nothing where
/// there are none, else `-r`, the names and a space.
pub open spec fn module_option(modules: Seq<Seq<char>>) -> Seq<char> {
    if modules.len() > 0 {
        "-r "@ + joined(modules, " "@) + " "@
    } else {
        Seq::empty()
    }
}

/// The command line of one run of the tool: the binary, the output file,
/// the commands as one script, the modules to keep, and the source file.
pub open spec fn command_text(
    binary: Seq<char>,
    output: Seq<char>,
    commands: Seq<Seq<char>>,
    modules: Seq<Seq<char>>,
    source: Seq<char>,
) -> Seq<char> {
    binary + " -o "@ + output + " -p \""@ + joined(commands, "; "@) + "\" "@ + module_option(
        modules,
    ) + source
}

/// Appends texts to `out`, with `separator` between each two.
fn push_joined(out: &mut String, parts: &Vec<&str>, separator: &str)
    ensures
        final(out)@ == old(out)@ + joined(parts.deep_view(), separator@),
{
    let ghost all = parts.deep_view();
    let ghost start = out@;
    let mut i: usize = 0;
    assert(all.take(0) =~= Seq::<Seq<char>>::empty());
    assert(start + joined(all.take(0), separator@) =~= start);
    while i < parts.len()
        invariant
            i <= parts@.len(),
            all == parts.deep_view(),
            out@ == start + joined(all.take(i as int), separator@),
        decreases parts@.len() - i,
    {
        proof {
            assert(all.take(i + 1).drop_last() =~= all.take(i as int));
            assert(all.take(i + 1).last() == parts@[i as int]@);
        }
        if i > 0 {
            out.append(separator);
        }
        out.append(parts[i]);
        proof {
            assert(out@ =~= start + joined(all.take(i + 1), separator@));
        }
        i += 1;
    }
    assert(all.take(i as int) =~= all);
}

/// Writes the command line of one run of the tool.
pub fn command_line(
    binary: &str,
    output: &str,
    commands: &Vec<&str>,
    modules: &Vec<&str>,
    source: &str,
) -> (r: String)
    ensures
        r@ == command_text(binary@, output@, commands.deep_view(), modules.deep_view(), source@),
{
    let mut out = binary.to_owned();
    out.append(" -o ");
    out.append(output);
    out.append(" -p \"");
    push_joined(&mut out, commands, "; ");
    out.append("\" ");
    if modules.len() > 0 {
        out.append("-r ");
        push_joined(&mut out, modules, " ");
        out.append(" ");
        assert(out@ =~= binary@ + " -o "@ + output@ + " -p \""@ + joined(
            commands.deep_view(),
            "; "@,
        ) + "\" "@ + module_option(modules.deep_view()));
    } else {
        assert(modules.deep_view().len() == 0);
        assert(out@ =~= binary@ + " -o "@ + output@ + " -p \""@ + joined(
            commands.deep_view(),
            "; "@,
        ) + "\" "@ + module_option(modules.deep_view()));
    }
    out.append(source);
    out
}

/// The names of the members, in their order.
pub open spec fn names(members: Members) -> Seq<Seq<char>> {
    Seq::new(members.len(), |i: int| members[i].0)
}

/// The names of the modules of a document: the names of the members of its
/// `modules`, where the document is an object that has such an object; else none.
pub open spec fn module_names_of(j: JsonValue) -> Seq<Seq<char>> {
    match j {
        JsonValue::Object(members) => match find(members, "modules"@) {
            Some(JsonValue::Object(modules)) => names(modules),
            _ => Seq::empty(),
        },
        _ => Seq::empty(),
    }
}

/// Lists the names of the modules of a document.
pub fn module_names(j: &Json) -> (r: Vec<String>)
    ensures
        r.deep_view() == module_names_of(j@),
{
    let mut out: Vec<String> = Vec::new();
    assert(out.deep_view() =~= Seq::<Seq<char>>::empty());
    match j {
        Json::Object(fields) => {
            proof {
                lemma_view_parts(*j);
            }
            match member(fields, "modules") {
                Some(Json::Object(modules)) => {
                    let ghost all = members_of(modules@);
                    proof {
                        lemma_view_parts(Json::Object(*modules));
                    }
                    let mut i: usize = 0;
                    while i < modules.len()
                        invariant
                            i <= modules@.len(),
                            all == members_of(modules@),
                            out@.len() == i,
                            forall|k: int| 0 <= k < i ==> (#[trigger] out@[k])@ == all[k].0,
                        decreases modules@.len() - i,
                    {
                        out.push(modules[i].0.clone());
                        i += 1;
                    }
                    assert(out.deep_view() =~= names(all));
                    out
                },
                _ => out,
            }
        },
        _ => out,
    }
}

/// The commands of the first run, which only lists the modules.
pub open spec fn discovery_script() -> Seq<Seq<char>> {
    seq!["proc"@]
}

/// The commands of the second run, which elaborates the design and draws it.
pub open spec fn elaboration_script() -> Seq<Seq<char>> {
    seq![
        "proc"@,
        "flatten"@,
        "wreduce"@,
        "opt"@,
        "fsm"@,
        "opt"@,
        "memory -nomap -nordff"@,
        "opt"@,
        "muxpack"@,
        "peepopt"@,
        "async2sync"@,
        "wreduce"@,
        "opt -mux_bool"@,
        "clean"@,
        "check"@,
        "show -colors 1 -format png -prefix temp"@,
    ]
}

/// The commands of the first run.
pub fn discovery_commands() -> (r: Vec<&'static str>)
    ensures
        r.deep_view() == discovery_script(),
{
    let r = vec!["proc"];
    assert(r.deep_view() =~= discovery_script());
    r
}

/// The commands of the second run.
pub fn elaboration_commands() -> (r: Vec<&'static str>)
    ensures
        r.deep_view() == elaboration_script(),
{
    let r = vec![
        "proc",
        "flatten",
        "wreduce",
        "opt",
        "fsm",
        "opt",
        "memory -nomap -nordff",
        "opt",
        "muxpack",
        "peepopt",
        "async2sync",
        "wreduce",
        "opt -mux_bool",
        "clean",
        "check",
        "show -colors 1 -format png -prefix temp",
    ];
    assert(r.deep_view() =~= elaboration_script());
    r
}

} // verus!
