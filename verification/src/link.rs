//! The renderers and the artifact selector.

use crate::model::filter_direction;
use crate::model::filter_ports;
use crate::model::identifiers_of;
use crate::model::kept_ports;
use crate::model::ports_in_direction;
use crate::model::Direction;
use crate::model::Language;
use crate::model::LinkError;
use crate::model::Net;
use crate::model::NetModel;
use crate::model::Unit;
use crate::model::UnitModel;
use crate::text::concat_pieces;
use crate::text::join_blank;
use crate::text::join_space;
use crate::text::tab_spec;
use vstd::prelude::*;
use vstd::string::StringExecFns;
use vstd::string::StrSliceExecFns;

verus! {

/// One field of the VHDL record: `    <identifier>: <type>;`.
pub open spec fn vhdl_field_line(p: NetModel) -> Seq<char> {
    tab_spec(1) + p.identifier + ": "@ + p.net_type + ";\n"@
}

/// The first `n` record fields, in port order.
pub open spec fn vhdl_field_lines(ports: Seq<NetModel>, n: int) -> Seq<char> {
    concat_pieces(n, |k: int| vhdl_field_line(ports[k]))
}

/// Everything of the VHDL record declaration that precedes the fields.
pub open spec fn vhdl_bfm_head(unit: Seq<char>) -> Seq<char> {
    "-- This record is automatically @generated by Verb.\n-- It is not intended for manual editing.\n"@
        + "type "@ + unit + "_if is record\n"@
}

/// The complete VHDL record declaration for a unit's interface.
pub open spec fn vhdl_bfm_spec(ports: Seq<NetModel>, unit: Seq<char>) -> Seq<char> {
    vhdl_bfm_head(unit) + vhdl_field_lines(ports, ports.len() as int) + "end record;"@
}

/// The VHDL instance declaration: `signal <name>: <unit>_if;`.
pub open spec fn vhdl_bfm_inst_spec(unit: Seq<char>, bfm_inst: Seq<char>) -> Seq<char> {
    "signal "@ + bfm_inst + ": "@ + unit + "_if;"@
}

/// One entry of a SystemVerilog parameter binding, `    .<g>(<g>)`, with a
/// comma after every entry but the last.
pub open spec fn sv_param_inst_entry(gens: Seq<NetModel>, k: int) -> Seq<char> {
    tab_spec(1) + "."@ + gens[k].identifier + "("@ + gens[k].identifier + ")"@ + if k + 1
        < gens.len() {
        ",\n"@
    } else {
        "\n"@
    }
}

/// The first `n` parameter-binding entries, in generic order.
pub open spec fn sv_param_inst_entries(gens: Seq<NetModel>, n: int) -> Seq<char> {
    concat_pieces(n, |k: int| sv_param_inst_entry(gens, k))
}

/// The SystemVerilog parameter-binding clause of an instance: empty when
/// there are no generics, otherwise ` #(` ... `)` with one binding per line.
pub open spec fn sv_param_inst_spec(gens: Seq<NetModel>) -> Seq<char> {
    if gens.len() == 0 {
        Seq::empty()
    } else {
        " #(\n"@ + sv_param_inst_entries(gens, gens.len() as int) + ")"@
    }
}

/// One entry of a SystemVerilog parameter declaration,
/// `    <mode> <type> <identifier>`, with a comma after every entry but the
/// last.
pub open spec fn sv_param_decl_entry(gens: Seq<NetModel>, k: int) -> Seq<char> {
    tab_spec(1) + gens[k].mode + " "@ + gens[k].net_type + " "@ + gens[k].identifier + if k + 1
        < gens.len() {
        ",\n"@
    } else {
        "\n"@
    }
}

/// The first `n` parameter-declaration entries, in generic order.
pub open spec fn sv_param_decl_entries(gens: Seq<NetModel>, n: int) -> Seq<char> {
    concat_pieces(n, |k: int| sv_param_decl_entry(gens, k))
}

/// The SystemVerilog parameter-declaration clause of an interface: empty
/// when there are no generics.
pub open spec fn sv_param_decl_spec(gens: Seq<NetModel>) -> Seq<char> {
    if gens.len() == 0 {
        Seq::empty()
    } else {
        " #(\n"@ + sv_param_decl_entries(gens, gens.len() as int) + ")"@
    }
}

/// The SystemVerilog instance declaration:
/// `<unit>_if<params> <name>();`.
pub open spec fn sv_bfm_inst_spec(unit: Seq<char>, gens: Seq<NetModel>, bfm_inst: Seq<char>) -> Seq<
    char,
> {
    unit + "_if"@ + sv_param_inst_spec(gens) + " "@ + bfm_inst + "();"@
}

/// One signal of the SystemVerilog interface: `    <type> <identifier>;`.
pub open spec fn sv_field_line(p: NetModel) -> Seq<char> {
    tab_spec(1) + p.net_type + " "@ + p.identifier + ";\n"@
}

/// The first `n` interface signals, in port order.
pub open spec fn sv_field_lines(ports: Seq<NetModel>, n: int) -> Seq<char> {
    concat_pieces(n, |k: int| sv_field_line(ports[k]))
}

/// Everything of the SystemVerilog interface declaration that precedes the
/// signals.
pub open spec fn sv_bfm_head(unit: Seq<char>, gens: Seq<NetModel>) -> Seq<char> {
    "// This interface is automatically @generated by Verb.\n// It is not intended for manual editing.\n"@
        + "interface "@ + unit + "_if"@ + sv_param_decl_spec(gens) + ";\n"@
}

/// The complete SystemVerilog interface declaration for a unit.
pub open spec fn sv_bfm_spec(ports: Seq<NetModel>, gens: Seq<NetModel>, unit: Seq<char>) -> Seq<
    char,
> {
    sv_bfm_head(unit, gens) + sv_field_lines(ports, ports.len() as int) + "endinterface"@
}

/// The comment that heads every generated VHDL procedure.
pub open spec fn vhdl_proc_comment() -> Seq<char> {
    "-- This procedure is automatically @generated by Verb.\n-- It is not intended for manual editing.\n"@
}

/// The comment that heads every generated SystemVerilog task.
pub open spec fn sv_task_comment() -> Seq<char> {
    "// This "@ + "task"@
        + " is automatically @generated by Verb.\n// It is not intended for manual editing.\n"@
}

/// One drive statement of the VHDL send procedure.
pub open spec fn vhdl_send_line(bfm_inst: Seq<char>, p: NetModel) -> Seq<char> {
    tab_spec(2) + "drive(row, "@ + bfm_inst + "."@ + p.identifier + ");\n"@
}

/// The first `n` drive statements, in port order.
pub open spec fn vhdl_send_lines(ports: Seq<NetModel>, bfm_inst: Seq<char>, n: int) -> Seq<char> {
    concat_pieces(n, |k: int| vhdl_send_line(bfm_inst, ports[k]))
}

/// Everything of the VHDL send procedure that precedes the drive statements:
/// the header comment, the signature, and the end-of-file guard around one
/// `readline`.
pub open spec fn vhdl_send_head() -> Seq<char> {
    vhdl_proc_comment() + "procedure send(file i: text) is\n"@ + tab_spec(1)
        + "variable row: line;\nbegin\n"@ + tab_spec(1) + "if endfile(i) = false then\n"@
        + tab_spec(2) + "readline(i, row);\n"@
}

/// The complete VHDL send procedure: it reads one stimulus line, when there
/// is one, and drives each given port of the instance from it, in order.
pub open spec fn vhdl_send_spec(ports: Seq<NetModel>, bfm_inst: Seq<char>) -> Seq<char> {
    vhdl_send_head() + vhdl_send_lines(ports, bfm_inst, ports.len() as int) + tab_spec(1)
        + "end if;\nend procedure;"@
}

/// One parse-and-drive statement of the SystemVerilog send task.
pub open spec fn sv_send_line(bfm_inst: Seq<char>, p: NetModel) -> Seq<char> {
    tab_spec(2) + "$sscanf(parse(line), \"%b\", "@ + bfm_inst + "."@ + p.identifier + ");\n"@
}

/// The first `n` parse-and-drive statements, in port order.
pub open spec fn sv_send_lines(ports: Seq<NetModel>, bfm_inst: Seq<char>, n: int) -> Seq<char> {
    concat_pieces(n, |k: int| sv_send_line(bfm_inst, ports[k]))
}

/// Everything of the SystemVerilog send task that precedes the drive
/// statements.
pub open spec fn sv_send_head() -> Seq<char> {
    sv_task_comment() + "task send(int fd);\n"@ + tab_spec(1) + "automatic string line;\n"@
        + tab_spec(1) + "// Read next set of input values from file\n"@ + tab_spec(1)
        + "if(!$feof(fd)) begin\n"@ + tab_spec(2) + "$fgets(line, fd);\n"@
}

/// The complete SystemVerilog send task.
pub open spec fn sv_send_spec(ports: Seq<NetModel>, bfm_inst: Seq<char>) -> Seq<char> {
    sv_send_head() + sv_send_lines(ports, bfm_inst, ports.len() as int) + tab_spec(1)
        + "end\nendtask"@
}

/// One load statement of the VHDL receive procedure: the expected value
/// goes into the model variable.
pub open spec fn vhdl_comp_load_line(p: NetModel) -> Seq<char> {
    tab_spec(2) + "load(row, mdl."@ + p.identifier + ");\n"@
}

/// The first `n` load statements, in port order.
pub open spec fn vhdl_comp_load_lines(ports: Seq<NetModel>, n: int) -> Seq<char> {
    concat_pieces(n, |k: int| vhdl_comp_load_line(ports[k]))
}

/// One check statement of the VHDL receive procedure: an assertion that
/// compares the live field against the model's, tagged with the port's
/// identifier. These stand outside the end-of-file guard.
pub open spec fn vhdl_comp_check_line(bfm_inst: Seq<char>, p: NetModel) -> Seq<char> {
    tab_spec(1) + "assert_eq(e, "@ + bfm_inst + "."@ + p.identifier + ", mdl."@ + p.identifier
        + ", \""@ + p.identifier + "\");\n"@
}

/// The first `n` check statements, in port order.
pub open spec fn vhdl_comp_check_lines(ports: Seq<NetModel>, bfm_inst: Seq<char>, n: int) -> Seq<
    char,
> {
    concat_pieces(n, |k: int| vhdl_comp_check_line(bfm_inst, ports[k]))
}

/// Everything of the VHDL receive procedure that precedes the loads.
pub open spec fn vhdl_comp_head(unit: Seq<char>) -> Seq<char> {
    vhdl_proc_comment() + "procedure recv(file e: text; file o: text) is\n"@ + tab_spec(1)
        + "variable row: line;\n"@ + tab_spec(1) + "variable mdl: "@ + unit + "_bfm;\nbegin\n"@
        + tab_spec(1) + "if endfile(o) = false then\n"@ + tab_spec(2) + "readline(o, row);\n"@
}

/// The complete VHDL receive procedure: guarded loads of the expected
/// values, then one unguarded check per port, both in port order.
pub open spec fn vhdl_comp_spec(ports: Seq<NetModel>, unit: Seq<char>, bfm_inst: Seq<char>) -> Seq<
    char,
> {
    vhdl_comp_head(unit) + vhdl_comp_load_lines(ports, ports.len() as int) + tab_spec(1)
        + "end if;\n"@ + vhdl_comp_check_lines(ports, bfm_inst, ports.len() as int)
        + "end procedure;"@
}

/// One load statement of the SystemVerilog receive task: the expected value
/// is parsed into the model instance's field.
pub open spec fn sv_comp_load_line(mdl_inst: Seq<char>, p: NetModel) -> Seq<char> {
    tab_spec(2) + "$sscanf(parse(line), \"%b\", "@ + mdl_inst + "."@ + p.identifier + ");\n"@
}

/// The first `n` load statements, in port order.
pub open spec fn sv_comp_load_lines(ports: Seq<NetModel>, mdl_inst: Seq<char>, n: int) -> Seq<
    char,
> {
    concat_pieces(n, |k: int| sv_comp_load_line(mdl_inst, ports[k]))
}

/// One check statement of the SystemVerilog receive task: an assertion that
/// compares the live field against the model's, tagged with the port's
/// identifier. These stand outside the end-of-file guard.
pub open spec fn sv_comp_check_line(bfm_inst: Seq<char>, mdl_inst: Seq<char>, p: NetModel) -> Seq<
    char,
> {
    tab_spec(1) + "assert_eq("@ + bfm_inst + "."@ + p.identifier + ", "@ + mdl_inst + "."@
        + p.identifier + ", \""@ + p.identifier + "\");\n"@
}

/// The first `n` check statements, in port order.
pub open spec fn sv_comp_check_lines(
    ports: Seq<NetModel>,
    bfm_inst: Seq<char>,
    mdl_inst: Seq<char>,
    n: int,
) -> Seq<char> {
    concat_pieces(n, |k: int| sv_comp_check_line(bfm_inst, mdl_inst, ports[k]))
}

/// Everything of the SystemVerilog receive task that precedes the loads.
pub open spec fn sv_comp_head() -> Seq<char> {
    sv_task_comment() + "task recv(int fd);\n"@ + tab_spec(1) + "automatic string line;\n"@
        + tab_spec(1) + "// Read expected output values from file\n"@ + tab_spec(1)
        + "if(!$feof(fd)) begin\n"@ + tab_spec(2) + "$fgets(line, fd);\n"@
}

/// The complete SystemVerilog receive task: guarded loads of the expected
/// values, then one unguarded check per port, both in port order.
pub open spec fn sv_comp_spec(
    ports: Seq<NetModel>,
    bfm_inst: Seq<char>,
    mdl_inst: Seq<char>,
) -> Seq<char> {
    sv_comp_head() + sv_comp_load_lines(ports, mdl_inst, ports.len() as int) + tab_spec(1)
        + "end\n"@ + tab_spec(1) + "// Compare received ouputs with expected outputs\n"@
        + sv_comp_check_lines(ports, bfm_inst, mdl_inst, ports.len() as int) + "endtask"@
}

/// The longest character length among the given identifiers, or zero when
/// there are none.
pub open spec fn longest_len(ids: Seq<Seq<char>>) -> nat
    decreases ids.len(),
{
    if ids.len() == 0 {
        0
    } else {
        let front = longest_len(ids.drop_last());
        if ids.last().len() > front {
            ids.last().len()
        } else {
            front
        }
    }
}

/// Mathematical image of a [`Link`] request.
pub ghost struct LinkModel {
    pub unit: UnitModel,
    pub bfm: bool,
    pub send: bool,
    pub comp: bool,
    pub bfm_inst: Option<Seq<Seq<char>>>,
    pub exclude: Seq<Seq<char>>,
    pub list: bool,
}

/// One render request: the unit's interface description together with the
/// caller's selection of artifacts, requested instance names and excluded
/// ports.
pub struct Link {
    json: Unit,
    bfm: bool,
    send: bool,
    comp: bool,
    bfm_inst: Option<Vec<String>>,
    exclude: Vec<String>,
    list: bool,
}

impl View for Link {
    type V = LinkModel;

    closed spec fn view(&self) -> LinkModel {
        LinkModel {
            unit: self.json@,
            bfm: self.bfm,
            send: self.send,
            comp: self.comp,
            bfm_inst: match self.bfm_inst {
                Some(names) => Some(names.deep_view()),
                None => None,
            },
            exclude: self.exclude.deep_view(),
            list: self.list,
        }
    }
}

/// The ports that remain after the request's exclusions; every artifact is
/// rendered from these.
pub open spec fn request_ports(l: LinkModel) -> Seq<NetModel> {
    kept_ports(l.unit.ports, l.exclude)
}

/// The interface-type artifact of a request. Meaningful for the supported
/// dialects only; an unsupported dialect fails the whole request instead.
pub open spec fn bfm_text(l: LinkModel) -> Seq<char> {
    match l.unit.language {
        Language::Vhdl => vhdl_bfm_spec(request_ports(l), l.unit.identifier),
        Language::SystemVerilog => sv_bfm_spec(
            request_ports(l),
            l.unit.generics,
            l.unit.identifier,
        ),
        Language::Verilog => Seq::empty(),
    }
}

/// The instance-declaration artifact for one requested instance name.
pub open spec fn inst_text(l: LinkModel, name: Seq<char>) -> Seq<char> {
    match l.unit.language {
        Language::Vhdl => vhdl_bfm_inst_spec(l.unit.identifier, name),
        Language::SystemVerilog => sv_bfm_inst_spec(l.unit.identifier, l.unit.generics, name),
        Language::Verilog => Seq::empty(),
    }
}

/// The send-routine artifact of a request: it covers exactly the
/// input-direction ports that survive the filter.
pub open spec fn send_text(l: LinkModel, bfm_inst: Seq<char>) -> Seq<char> {
    match l.unit.language {
        Language::Vhdl => vhdl_send_spec(
            ports_in_direction(request_ports(l), Direction::Input),
            bfm_inst,
        ),
        Language::SystemVerilog => sv_send_spec(
            ports_in_direction(request_ports(l), Direction::Input),
            bfm_inst,
        ),
        Language::Verilog => Seq::empty(),
    }
}

/// The receive-routine artifact of a request: it covers exactly the
/// output-direction ports that survive the filter.
pub open spec fn comp_text(l: LinkModel, bfm_inst: Seq<char>, mdl_inst: Seq<char>) -> Seq<char> {
    match l.unit.language {
        Language::Vhdl => vhdl_comp_spec(
            ports_in_direction(request_ports(l), Direction::Output),
            l.unit.identifier,
            bfm_inst,
        ),
        Language::SystemVerilog => sv_comp_spec(
            ports_in_direction(request_ports(l), Direction::Output),
            bfm_inst,
            mdl_inst,
        ),
        Language::Verilog => Seq::empty(),
    }
}

/// The artifacts a request selects, in their fixed order: interface type,
/// then one instance declaration per requested name in the order requested,
/// then the send routine, then the receive routine.
pub open spec fn artifact_parts(l: LinkModel, bfm_inst: Seq<char>, mdl_inst: Seq<char>) -> Seq<
    Seq<char>,
> {
    (if l.bfm {
        seq![bfm_text(l)]
    } else {
        Seq::empty()
    }) + (match l.bfm_inst {
        Some(names) => names.map_values(|nm: Seq<char>| inst_text(l, nm)),
        None => Seq::empty(),
    }) + (if l.send {
        seq![send_text(l, bfm_inst)]
    } else {
        Seq::empty()
    }) + (if l.comp {
        seq![comp_text(l, bfm_inst, mdl_inst)]
    } else {
        Seq::empty()
    })
}

/// Whether the request asks for at least one rendered artifact (the
/// port-order listing asks for none).
pub open spec fn requests_artifact(l: LinkModel) -> bool {
    l.bfm || l.send || l.comp || (match l.bfm_inst {
        Some(names) => names.len() > 0,
        None => false,
    })
}

/// Whether a request must fail: its dialect has no renderer and at least
/// one artifact is actually asked for.
pub open spec fn render_fails(l: LinkModel) -> bool {
    l.unit.language == Language::Verilog && !l.list && requests_artifact(l)
}

/// The two-line port-order listing: the identifiers of the filtered
/// input-direction ports, then of the filtered output-direction ports.
pub open spec fn list_spec(ports: Seq<NetModel>) -> Seq<char> {
    join_space(identifiers_of(ports_in_direction(ports, Direction::Input))) + "\n"@ + join_space(
        identifiers_of(ports_in_direction(ports, Direction::Output)),
    )
}

/// Everything a successful request returns: the port-order listing when
/// `list` is set, otherwise the selected artifacts joined by blank lines.
pub open spec fn output_spec(l: LinkModel, bfm_inst: Seq<char>, mdl_inst: Seq<char>) -> Seq<char> {
    if l.list {
        list_spec(request_ports(l))
    } else {
        join_blank(artifact_parts(l, bfm_inst, mdl_inst))
    }
}

/// The identifiers of the given ports, joined by single spaces.
fn join_identifiers(ports: &Vec<&Net>) -> (r: String)
    ensures
        r@ == join_space(identifiers_of(ports.deep_view())),
{
    let ghost ids = identifiers_of(ports.deep_view());
    let mut result = String::new();
    let n: usize = ports.len();
    let mut i: usize = 0;
    while i < n
        invariant
            i <= n,
            n == ports.len(),
            ids == identifiers_of(ports.deep_view()),
            result@ == join_space(ids.take(i as int)),
        decreases n - i,
    {
        if i > 0 {
            result.append(" ");
        }
        result.append(ports[i].get_identifier().as_str());
        proof {
            let next = ids.take(i as int + 1);
            assert(next.drop_last() =~= ids.take(i as int));
            assert(next.last() == ids[i as int]);
            assert(result@ =~= join_space(next));
        }
        i = i + 1;
    }
    proof {
        assert(ids.take(n as int) =~= ids);
    }
    result
}

impl Link {
    /// Render the VHDL record type that mirrors the unit's interface: one field
    /// per port, in port order, each field's type copied verbatim.
    pub fn vhdl_to_string_bfm(ports: &Vec<&Net>, unit: &str) -> (r: String)
        ensures
            r@ == vhdl_bfm_spec(ports.deep_view(), unit@),
    {
        let ghost pm = ports.deep_view();
        let t1 = Self::tab(1);
        let mut result = String::from_str(
            "-- This record is automatically @generated by Verb.\n-- It is not intended for manual editing.\n",
        );
        result.append("type ");
        result.append(unit);
        result.append("_if is record\n");
        proof {
            assert(result@ =~= vhdl_bfm_head(unit@) + vhdl_field_lines(pm, 0));
        }
        let n: usize = ports.len();
        let mut i: usize = 0;
        while i < n
            invariant
                i <= n,
                n == ports.len(),
                pm == ports.deep_view(),
                t1@ == tab_spec(1),
                result@ == vhdl_bfm_head(unit@) + vhdl_field_lines(pm, i as int),
            decreases n - i,
        {
            result.append(t1.as_str());
            result.append(ports[i].get_identifier().as_str());
            result.append(": ");
            result.append(ports[i].get_type().as_str());
            result.append(";\n");
            proof {
                assert(result@ =~= vhdl_bfm_head(unit@) + vhdl_field_lines(pm, i as int + 1));
            }
            i = i + 1;
        }
        result.append("end record;");
        result
    }

    /// Render the VHDL declaration of one interface instance.
    pub fn vhdl_to_string_bfm_inst(unit: &str, bfm_inst: &str) -> (r: String)
        ensures
            r@ == vhdl_bfm_inst_spec(unit@, bfm_inst@),
    {
        let mut result = String::from_str("signal ");
        result.append(bfm_inst);
        result.append(": ");
        result.append(unit);
        result.append("_if;");
        proof {
            assert(result@ =~= vhdl_bfm_inst_spec(unit@, bfm_inst@));
        }
        result
    }

    /// Render the parameter-binding clause of a SystemVerilog instance: each
    /// generic bound to the actual of the same name, one per line, no comma
    /// after the last; no clause at all without generics.
    pub fn sv_generate_param_inst(generics: &Vec<Net>) -> (r: String)
        ensures
            r@ == sv_param_inst_spec(generics.deep_view()),
    {
        let ghost gm = generics.deep_view();
        let n: usize = generics.len();
        if n == 0 {
            return String::new();
        }
        let t1 = Self::tab(1);
        let mut result = String::from_str(" #(\n");
        let mut i: usize = 0;
        while i < n
            invariant
                i <= n,
                n == generics.len(),
                n > 0,
                gm == generics.deep_view(),
                t1@ == tab_spec(1),
                result@ == " #(\n"@ + sv_param_inst_entries(gm, i as int),
            decreases n - i,
        {
            result.append(t1.as_str());
            result.append(".");
            result.append(generics[i].get_identifier().as_str());
            result.append("(");
            result.append(generics[i].get_identifier().as_str());
            result.append(")");
            if i + 1 < n {
                result.append(",\n");
            } else {
                result.append("\n");
            }
            proof {
                assert(result@ =~= " #(\n"@ + sv_param_inst_entries(gm, i as int + 1));
            }
            i = i + 1;
        }
        result.append(")");
        result
    }

    /// Render the parameter-declaration clause of a SystemVerilog interface:
    /// `<mode> <type> <identifier>` per generic, one per line, no comma after
    /// the last; no clause at all without generics.
    pub fn sv_generate_param_decl(generics: &Vec<Net>) -> (r: String)
        ensures
            r@ == sv_param_decl_spec(generics.deep_view()),
    {
        let ghost gm = generics.deep_view();
        let n: usize = generics.len();
        if n == 0 {
            return String::new();
        }
        let t1 = Self::tab(1);
        let mut result = String::from_str(" #(\n");
        let mut i: usize = 0;
        while i < n
            invariant
                i <= n,
                n == generics.len(),
                n > 0,
                gm == generics.deep_view(),
                t1@ == tab_spec(1),
                result@ == " #(\n"@ + sv_param_decl_entries(gm, i as int),
            decreases n - i,
        {
            result.append(t1.as_str());
            result.append(generics[i].get_mode().as_str());
            result.append(" ");
            result.append(generics[i].get_type().as_str());
            result.append(" ");
            result.append(generics[i].get_identifier().as_str());
            if i + 1 < n {
                result.append(",\n");
            } else {
                result.append("\n");
            }
            proof {
                assert(result@ =~= " #(\n"@ + sv_param_decl_entries(gm, i as int + 1));
            }
            i = i + 1;
        }
        result.append(")");
        result
    }

    /// Render the SystemVerilog declaration of one interface instance, with its
    /// parameter bindings when the unit has generics.
    pub fn sv_to_string_bfm_inst(unit: &str, generics: &Vec<Net>, bfm_inst: &str) -> (r: String)
        ensures
            r@ == sv_bfm_inst_spec(unit@, generics.deep_view(), bfm_inst@),
    {
        let params = Self::sv_generate_param_inst(generics);
        let mut result = String::from_str(unit);
        result.append("_if");
        result.append(params.as_str());
        result.append(" ");
        result.append(bfm_inst);
        result.append("();");
        proof {
            assert(result@ =~= sv_bfm_inst_spec(unit@, generics.deep_view(), bfm_inst@));
        }
        result
    }

    /// Render the SystemVerilog interface that mirrors the unit's interface:
    /// one signal per port, in port order, parameterized by the unit's generics.
    pub fn sv_to_string_bfm(ports: &Vec<&Net>, generics: &Vec<Net>, unit: &str) -> (r: String)
        ensures
            r@ == sv_bfm_spec(ports.deep_view(), generics.deep_view(), unit@),
    {
        let ghost pm = ports.deep_view();
        let ghost gm = generics.deep_view();
        let t1 = Self::tab(1);
        let params = Self::sv_generate_param_decl(generics);
        let mut result = String::from_str(
            "// This interface is automatically @generated by Verb.\n// It is not intended for manual editing.\n",
        );
        result.append("interface ");
        result.append(unit);
        result.append("_if");
        result.append(params.as_str());
        result.append(";\n");
        proof {
            assert(result@ =~= sv_bfm_head(unit@, gm) + sv_field_lines(pm, 0));
        }
        let n: usize = ports.len();
        let mut i: usize = 0;
        while i < n
            invariant
                i <= n,
                n == ports.len(),
                pm == ports.deep_view(),
                t1@ == tab_spec(1),
                result@ == sv_bfm_head(unit@, gm) + sv_field_lines(pm, i as int),
            decreases n - i,
        {
            result.append(t1.as_str());
            result.append(ports[i].get_type().as_str());
            result.append(" ");
            result.append(ports[i].get_identifier().as_str());
            result.append(";\n");
            proof {
                assert(result@ =~= sv_bfm_head(unit@, gm) + sv_field_lines(pm, i as int + 1));
            }
            i = i + 1;
        }
        result.append("endinterface");
        result
    }

    /// Render the VHDL procedure `send`: it reads one whitespace-delimited
    /// stimulus line, when the input file has one left, and drives each given
    /// port of `bfm_inst` from it, in port order. The caller passes only
    /// input-direction ports.
    pub fn vhdl_to_string_send(ports: &Vec<&Net>, bfm_inst: &str) -> (r: String)
        ensures
            r@ == vhdl_send_spec(ports.deep_view(), bfm_inst@),
    {
        let ghost pm = ports.deep_view();
        let t1 = Self::tab(1);
        let t2 = Self::tab(2);
        let mut result = String::from_str(
            "-- This procedure is automatically @generated by Verb.\n-- It is not intended for manual editing.\n",
        );
        result.append("procedure send(file i: text) is\n");
        result.append(t1.as_str());
        result.append("variable row: line;\nbegin\n");
        result.append(t1.as_str());
        result.append("if endfile(i) = false then\n");
        result.append(t2.as_str());
        result.append("readline(i, row);\n");
        proof {
            assert(result@ =~= vhdl_send_head() + vhdl_send_lines(pm, bfm_inst@, 0));
        }
        let n: usize = ports.len();
        let mut i: usize = 0;
        while i < n
            invariant
                i <= n,
                n == ports.len(),
                pm == ports.deep_view(),
                t2@ == tab_spec(2),
                result@ == vhdl_send_head() + vhdl_send_lines(pm, bfm_inst@, i as int),
            decreases n - i,
        {
            result.append(t2.as_str());
            result.append("drive(row, ");
            result.append(bfm_inst);
            result.append(".");
            result.append(ports[i].get_identifier().as_str());
            result.append(");\n");
            proof {
                assert(result@ =~= vhdl_send_head() + vhdl_send_lines(pm, bfm_inst@, i as int + 1));
            }
            i = i + 1;
        }
        result.append(t1.as_str());
        result.append("end if;\nend procedure;");
        result
    }

    /// Render the SystemVerilog task `send`: it reads one stimulus line, when
    /// the file has one left, and parses each given port's value onto
    /// `bfm_inst`, in port order. The caller passes only input-direction ports.
    pub fn sv_to_string_send(ports: &Vec<&Net>, bfm_inst: &str) -> (r: String)
        ensures
            r@ == sv_send_spec(ports.deep_view(), bfm_inst@),
    {
        let ghost pm = ports.deep_view();
        let t1 = Self::tab(1);
        let t2 = Self::tab(2);
        let mut result = String::from_str("// This ");
        result.append("task");
        result.append(
            " is automatically @generated by Verb.\n// It is not intended for manual editing.\n",
        );
        result.append("task send(int fd);\n");
        result.append(t1.as_str());
        result.append("automatic string line;\n");
        result.append(t1.as_str());
        result.append("// Read next set of input values from file\n");
        result.append(t1.as_str());
        result.append("if(!$feof(fd)) begin\n");
        result.append(t2.as_str());
        result.append("$fgets(line, fd);\n");
        proof {
            assert(result@ =~= sv_send_head() + sv_send_lines(pm, bfm_inst@, 0));
        }
        let n: usize = ports.len();
        let mut i: usize = 0;
        while i < n
            invariant
                i <= n,
                n == ports.len(),
                pm == ports.deep_view(),
                t2@ == tab_spec(2),
                result@ == sv_send_head() + sv_send_lines(pm, bfm_inst@, i as int),
            decreases n - i,
        {
            result.append(t2.as_str());
            result.append("$sscanf(parse(line), \"%b\", ");
            result.append(bfm_inst);
            result.append(".");
            result.append(ports[i].get_identifier().as_str());
            result.append(");\n");
            proof {
                assert(result@ =~= sv_send_head() + sv_send_lines(pm, bfm_inst@, i as int + 1));
            }
            i = i + 1;
        }
        result.append(t1.as_str());
        result.append("end\nendtask");
        result
    }

    /// Render the VHDL procedure `recv`: guarded by an end-of-file check it
    /// reads one expected-output line and loads each given port's expected
    /// value into a model variable; then, outside the guard, it asserts each
    /// live field of `bfm_inst` equal to the model's, tagged with the port's
    /// identifier — both passes in port order. The caller passes only
    /// output-direction ports.
    pub fn vhdl_to_string_comp(ports: &Vec<&Net>, unit: &str, bfm_inst: &str) -> (r: String)
        ensures
            r@ == vhdl_comp_spec(ports.deep_view(), unit@, bfm_inst@),
    {
        let ghost pm = ports.deep_view();
        let t1 = Self::tab(1);
        let t2 = Self::tab(2);
        let mut result = String::from_str(
            "-- This procedure is automatically @generated by Verb.\n-- It is not intended for manual editing.\n",
        );
        result.append("procedure recv(file e: text; file o: text) is\n");
        result.append(t1.as_str());
        result.append("variable row: line;\n");
        result.append(t1.as_str());
        result.append("variable mdl: ");
        result.append(unit);
        result.append("_bfm;\nbegin\n");
        result.append(t1.as_str());
        result.append("if endfile(o) = false then\n");
        result.append(t2.as_str());
        result.append("readline(o, row);\n");
        proof {
            assert(result@ =~= vhdl_comp_head(unit@) + vhdl_comp_load_lines(pm, 0));
        }
        let n: usize = ports.len();
        let mut i: usize = 0;
        while i < n
            invariant
                i <= n,
                n == ports.len(),
                pm == ports.deep_view(),
                t2@ == tab_spec(2),
                result@ == vhdl_comp_head(unit@) + vhdl_comp_load_lines(pm, i as int),
            decreases n - i,
        {
            result.append(t2.as_str());
            result.append("load(row, mdl.");
            result.append(ports[i].get_identifier().as_str());
            result.append(");\n");
            proof {
                assert(result@ =~= vhdl_comp_head(unit@) + vhdl_comp_load_lines(pm, i as int + 1));
            }
            i = i + 1;
        }
        result.append(t1.as_str());
        result.append("end if;\n");
        let ghost loaded = result@;
        proof {
            assert(loaded =~= vhdl_comp_head(unit@) + vhdl_comp_load_lines(pm, pm.len() as int)
                + tab_spec(1) + "end if;\n"@);
        }
        let mut i: usize = 0;
        while i < n
            invariant
                i <= n,
                n == ports.len(),
                pm == ports.deep_view(),
                t1@ == tab_spec(1),
                result@ == loaded + vhdl_comp_check_lines(pm, bfm_inst@, i as int),
            decreases n - i,
        {
            result.append(t1.as_str());
            result.append("assert_eq(e, ");
            result.append(bfm_inst);
            result.append(".");
            result.append(ports[i].get_identifier().as_str());
            result.append(", mdl.");
            result.append(ports[i].get_identifier().as_str());
            result.append(", \"");
            result.append(ports[i].get_identifier().as_str());
            result.append("\");\n");
            proof {
                assert(result@ =~= loaded + vhdl_comp_check_lines(pm, bfm_inst@, i as int + 1));
            }
            i = i + 1;
        }
        result.append("end procedure;");
        proof {
            assert(result@ =~= vhdl_comp_spec(pm, unit@, bfm_inst@));
        }
        result
    }

    /// Render the SystemVerilog task `recv`: guarded by an end-of-file check it
    /// reads one expected-output line and parses each given port's expected
    /// value into `mdl_inst`; then, outside the guard, it asserts each live
    /// field of `bfm_inst` equal to the model's, tagged with the port's
    /// identifier — both passes in port order. The caller passes only
    /// output-direction ports.
    pub fn sv_to_string_comp(ports: &Vec<&Net>, _unit: &str, bfm_inst: &str, mdl_inst: &str) -> (r:
        String)
        ensures
            r@ == sv_comp_spec(ports.deep_view(), bfm_inst@, mdl_inst@),
    {
        let ghost pm = ports.deep_view();
        let t1 = Self::tab(1);
        let t2 = Self::tab(2);
        let mut result = String::from_str("// This ");
        result.append("task");
        result.append(
            " is automatically @generated by Verb.\n// It is not intended for manual editing.\n",
        );
        result.append("task recv(int fd);\n");
        result.append(t1.as_str());
        result.append("automatic string line;\n");
        result.append(t1.as_str());
        result.append("// Read expected output values from file\n");
        result.append(t1.as_str());
        result.append("if(!$feof(fd)) begin\n");
        result.append(t2.as_str());
        result.append("$fgets(line, fd);\n");
        proof {
            assert(result@ =~= sv_comp_head() + sv_comp_load_lines(pm, mdl_inst@, 0));
        }
        let n: usize = ports.len();
        let mut i: usize = 0;
        while i < n
            invariant
                i <= n,
                n == ports.len(),
                pm == ports.deep_view(),
                t2@ == tab_spec(2),
                result@ == sv_comp_head() + sv_comp_load_lines(pm, mdl_inst@, i as int),
            decreases n - i,
        {
            result.append(t2.as_str());
            result.append("$sscanf(parse(line), \"%b\", ");
            result.append(mdl_inst);
            result.append(".");
            result.append(ports[i].get_identifier().as_str());
            result.append(");\n");
            proof {
                assert(result@ =~= sv_comp_head() + sv_comp_load_lines(pm, mdl_inst@, i as int + 1));
            }
            i = i + 1;
        }
        result.append(t1.as_str());
        result.append("end\n");
        result.append(t1.as_str());
        result.append("// Compare received ouputs with expected outputs\n");
        let ghost loaded = result@;
        proof {
            assert(loaded =~= sv_comp_head() + sv_comp_load_lines(pm, mdl_inst@, pm.len() as int)
                + tab_spec(1) + "end\n"@ + tab_spec(1)
                + "// Compare received ouputs with expected outputs\n"@);
        }
        let mut i: usize = 0;
        while i < n
            invariant
                i <= n,
                n == ports.len(),
                pm == ports.deep_view(),
                t1@ == tab_spec(1),
                result@ == loaded + sv_comp_check_lines(pm, bfm_inst@, mdl_inst@, i as int),
            decreases n - i,
        {
            result.append(t1.as_str());
            result.append("assert_eq(");
            result.append(bfm_inst);
            result.append(".");
            result.append(ports[i].get_identifier().as_str());
            result.append(", ");
            result.append(mdl_inst);
            result.append(".");
            result.append(ports[i].get_identifier().as_str());
            result.append(", \"");
            result.append(ports[i].get_identifier().as_str());
            result.append("\");\n");
            proof {
                assert(result@ =~= loaded + sv_comp_check_lines(
                    pm,
                    bfm_inst@,
                    mdl_inst@,
                    i as int + 1,
                ));
            }
            i = i + 1;
        }
        result.append("endtask");
        proof {
            assert(result@ =~= sv_comp_spec(pm, bfm_inst@, mdl_inst@));
        }
        result
    }

    /// Four spaces of indentation per nesting level.
    pub fn tab(n: usize) -> (r: String)
        ensures
            r@ == tab_spec(n as nat),
    {
        let spacing = "    ";
        let mut result = String::new();
        let mut i: usize = 0;
        while i < n
            invariant
                i <= n,
                result@ == tab_spec(i as nat),
                spacing@ == "    "@,
            decreases n - i,
        {
            result.append(spacing);
            i = i + 1;
        }
        result
    }

    /// The number of characters the longest of the given identifiers needs,
    /// or zero when none are given.
    pub fn _longest_id_len(ids: Vec<&String>) -> (r: usize)
        ensures
            r as nat == longest_len(ids.deep_view()),
    {
        let ghost im = ids.deep_view();
        let n: usize = ids.len();
        let mut best: usize = 0;
        let mut i: usize = 0;
        while i < n
            invariant
                i <= n,
                n == ids.len(),
                im == ids.deep_view(),
                best as nat == longest_len(im.take(i as int)),
            decreases n - i,
        {
            let len = ids[i].as_str().unicode_len();
            proof {
                let next = im.take(i as int + 1);
                assert(next.drop_last() =~= im.take(i as int));
                assert(next.last() == im[i as int]);
            }
            if len > best {
                best = len;
            }
            i = i + 1;
        }
        proof {
            assert(im.take(n as int) =~= im);
        }
        best
    }

    /// Bundle an interface description with the caller's selection into one
    /// render request.
    pub fn new(
        json: Unit,
        bfm: bool,
        send: bool,
        comp: bool,
        bfm_inst: Option<Vec<String>>,
        exclude: Vec<String>,
        list: bool,
    ) -> (r: Link)
        ensures
            r@ == (LinkModel {
                unit: json@,
                bfm: bfm,
                send: send,
                comp: comp,
                bfm_inst: match bfm_inst {
                    Some(names) => Some(names.deep_view()),
                    None => None,
                },
                exclude: exclude.deep_view(),
                list: list,
            }),
    {
        Link { json, bfm, send, comp, bfm_inst, exclude, list }
    }

    /// Carry out the whole request: filter the ports once, then either list
    /// the port order or render the selected artifacts in their fixed order,
    /// one blank line between consecutive artifacts. A request that asks for
    /// an artifact in a dialect with no renderer fails as a whole, without
    /// any partial text. `bfm_inst` and `mdl_inst` name the instances the
    /// send and receive routines address.
    pub fn render(&self, bfm_inst: &str, mdl_inst: &str) -> (r: Result<String, LinkError>)
        ensures
            r is Ok <==> !render_fails(self@),
            r matches Ok(text) ==> text@ == output_spec(self@, bfm_inst@, mdl_inst@),
            r matches Err(e) ==> e == LinkError::UnsupportedDialect,
    {
        let ghost lm = self@;
        let filtered: Vec<&Net> = filter_ports(self.json.get_ports(), &self.exclude);
        proof {
            assert(filtered.deep_view() == request_ports(lm));
        }
        if self.list {
            let inputs = filter_direction(&filtered, Direction::Input);
            let outputs = filter_direction(&filtered, Direction::Output);
            let mut out = join_identifiers(&inputs);
            out.append("\n");
            let second = join_identifiers(&outputs);
            out.append(second.as_str());
            proof {
                assert(out@ =~= list_spec(request_ports(lm)));
            }
            return Ok(out);
        }
        let requested = self.bfm || self.send || self.comp || (match &self.bfm_inst {
            Some(names) => names.len() > 0,
            None => false,
        });
        let unsupported = match self.json.get_language() {
            Language::Verilog => true,
            _ => false,
        };
        if unsupported && requested {
            return Err(LinkError::UnsupportedDialect);
        }
        let ghost p_bfm: Seq<Seq<char>> = if lm.bfm {
            seq![bfm_text(lm)]
        } else {
            Seq::empty()
        };
        let ghost p_inst: Seq<Seq<char>> = match lm.bfm_inst {
            Some(names) => names.map_values(|nm: Seq<char>| inst_text(lm, nm)),
            None => Seq::empty(),
        };
        let ghost p_send: Seq<Seq<char>> = if lm.send {
            seq![send_text(lm, bfm_inst@)]
        } else {
            Seq::empty()
        };
        let ghost p_comp: Seq<Seq<char>> = if lm.comp {
            seq![comp_text(lm, bfm_inst@, mdl_inst@)]
        } else {
            Seq::empty()
        };
        let mut parts: Vec<String> = Vec::new();
        if self.bfm {
            let text = match self.json.get_language() {
                Language::Vhdl => Self::vhdl_to_string_bfm(
                    &filtered,
                    self.json.get_identifier().as_str(),
                ),
                Language::SystemVerilog => Self::sv_to_string_bfm(
                    &filtered,
                    self.json.get_generics(),
                    self.json.get_identifier().as_str(),
                ),
                Language::Verilog => String::new(),
            };
            parts.push(text);
        }
        proof {
            assert(parts.deep_view() =~~= p_bfm);
        }
        if let Some(names) = &self.bfm_inst {
            let m: usize = names.len();
            let mut j: usize = 0;
            while j < m
                invariant
                    j <= m,
                    m == names.len(),
                    lm == self@,
                    lm.bfm_inst matches Some(nm_seq) && nm_seq == names.deep_view(),
                    p_inst == names.deep_view().map_values(|nm: Seq<char>| inst_text(lm, nm)),
                    parts.deep_view() == p_bfm + p_inst.take(j as int),
                decreases m - j,
            {
                let text = match self.json.get_language() {
                    Language::Vhdl => Self::vhdl_to_string_bfm_inst(
                        self.json.get_identifier().as_str(),
                        names[j].as_str(),
                    ),
                    Language::SystemVerilog => Self::sv_to_string_bfm_inst(
                        self.json.get_identifier().as_str(),
                        self.json.get_generics(),
                        names[j].as_str(),
                    ),
                    Language::Verilog => String::new(),
                };
                let ghost prev_dv = parts.deep_view();
                let ghost tv = text@;
                parts.push(text);
                proof {
                    assert(parts.deep_view() =~~= prev_dv.push(tv));
                    assert(prev_dv.push(tv) =~~= p_bfm + p_inst.take(j as int + 1));
                }
                j = j + 1;
            }
            proof {
                assert(p_inst.take(m as int) =~~= p_inst);
            }
        }
        proof {
            assert(parts.deep_view() =~~= p_bfm + p_inst);
        }
        if self.send {
            let inputs = filter_direction(&filtered, Direction::Input);
            let text = match self.json.get_language() {
                Language::Vhdl => Self::vhdl_to_string_send(&inputs, bfm_inst),
                Language::SystemVerilog => Self::sv_to_string_send(&inputs, bfm_inst),
                Language::Verilog => String::new(),
            };
            parts.push(text);
        }
        proof {
            assert(parts.deep_view() =~~= p_bfm + p_inst + p_send);
        }
        if self.comp {
            let outputs = filter_direction(&filtered, Direction::Output);
            let text = match self.json.get_language() {
                Language::Vhdl => Self::vhdl_to_string_comp(
                    &outputs,
                    self.json.get_identifier().as_str(),
                    bfm_inst,
                ),
                Language::SystemVerilog => Self::sv_to_string_comp(
                    &outputs,
                    self.json.get_identifier().as_str(),
                    bfm_inst,
                    mdl_inst,
                ),
                Language::Verilog => String::new(),
            };
            parts.push(text);
        }
        proof {
            assert(parts.deep_view() =~~= p_bfm + p_inst + p_send + p_comp);
            assert(parts.deep_view() =~~= artifact_parts(lm, bfm_inst@, mdl_inst@));
        }
        let ghost pd = parts.deep_view();
        let mut result = String::new();
        let total: usize = parts.len();
        let mut i: usize = 0;
        while i < total
            invariant
                i <= total,
                total == parts.len(),
                pd == parts.deep_view(),
                result@ == join_blank(pd.take(i as int)),
            decreases total - i,
        {
            if i > 0 {
                result.append("\n\n");
            }
            result.append(parts[i].as_str());
            proof {
                let next = pd.take(i as int + 1);
                assert(next.drop_last() =~= pd.take(i as int));
                assert(next.last() == pd[i as int]);
                assert(result@ =~= join_blank(next));
            }
            i = i + 1;
        }
        proof {
            assert(pd.take(total as int) =~= pd);
        }
        Ok(result)
    }
}

} // verus!
