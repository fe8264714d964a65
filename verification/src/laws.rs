//! The laws this library promises, stated and proved once: order
//! preservation of rendered lists, correctness of the port filter, the
//! direction split between the send and receive routines, the shape of the
//! generics clause, and determinism of rendering.

use crate::link::output_spec;
use crate::link::sv_bfm_head;
use crate::link::sv_bfm_spec;
use crate::link::sv_comp_check_line;
use crate::link::sv_comp_check_lines;
use crate::link::sv_comp_head;
use crate::link::sv_comp_load_line;
use crate::link::sv_comp_load_lines;
use crate::link::sv_comp_spec;
use crate::link::sv_field_line;
use crate::link::sv_field_lines;
use crate::link::sv_param_decl_entries;
use crate::link::sv_param_decl_entry;
use crate::link::sv_param_decl_spec;
use crate::link::sv_param_inst_entries;
use crate::link::sv_param_inst_entry;
use crate::link::sv_param_inst_spec;
use crate::link::sv_send_head;
use crate::link::sv_send_line;
use crate::link::sv_send_lines;
use crate::link::sv_send_spec;
use crate::link::vhdl_bfm_head;
use crate::link::vhdl_bfm_spec;
use crate::link::vhdl_comp_check_line;
use crate::link::vhdl_comp_check_lines;
use crate::link::vhdl_comp_head;
use crate::link::vhdl_comp_load_line;
use crate::link::vhdl_comp_load_lines;
use crate::link::vhdl_comp_spec;
use crate::link::vhdl_field_line;
use crate::link::vhdl_field_lines;
use crate::link::vhdl_send_head;
use crate::link::vhdl_send_line;
use crate::link::vhdl_send_lines;
use crate::link::vhdl_send_spec;
use crate::link::LinkModel;
use crate::model::kept_ports;
use crate::model::ports_in_direction;
use crate::model::Direction;
use crate::model::NetModel;
use crate::text::concat_pieces;
use crate::text::tab_spec;
use vstd::prelude::*;

verus! {

broadcast use vstd::seq_lib::lemma_seq_contains_after_push;

/// Longer piece lists render to text at least as long.
pub proof fn lemma_concat_pieces_len_le(n: int, m: int, piece: spec_fn(int) -> Seq<char>)
    requires
        0 <= m <= n,
    ensures
        concat_pieces(m, piece).len() <= concat_pieces(n, piece).len(),
    decreases n,
{
    if m < n {
        lemma_concat_pieces_len_le(n - 1, m, piece);
    }
}

/// The text of the first `m` pieces is a prefix of the text of the first
/// `n` pieces: later pieces never disturb earlier ones.
pub proof fn lemma_concat_pieces_prefix(n: int, m: int, piece: spec_fn(int) -> Seq<char>)
    requires
        0 <= m <= n,
    ensures
        concat_pieces(n, piece).subrange(0, concat_pieces(m, piece).len() as int) == concat_pieces(
            m,
            piece,
        ),
    decreases n,
{
    lemma_concat_pieces_len_le(n, m, piece);
    if m == n {
        assert(concat_pieces(n, piece).subrange(0, concat_pieces(m, piece).len() as int)
            =~= concat_pieces(m, piece));
    } else {
        lemma_concat_pieces_len_le(n - 1, m, piece);
        lemma_concat_pieces_prefix(n - 1, m, piece);
        assert(concat_pieces(n, piece).subrange(0, concat_pieces(m, piece).len() as int)
            =~= concat_pieces(n - 1, piece).subrange(0, concat_pieces(m, piece).len() as int));
    }
}

/// Order preservation, at the text level: in the concatenation of `n`
/// pieces, piece `k` stands exactly where the first `k` pieces end. Each
/// rendered list therefore lays its entries out in index order.
pub proof fn lemma_concat_pieces_segment(n: int, k: int, piece: spec_fn(int) -> Seq<char>)
    requires
        0 <= k < n,
    ensures
        concat_pieces(k, piece).len() + piece(k).len() <= concat_pieces(n, piece).len(),
        concat_pieces(n, piece).subrange(
            concat_pieces(k, piece).len() as int,
            concat_pieces(k, piece).len() as int + piece(k).len() as int,
        ) == piece(k),
    decreases n,
{
    let start = concat_pieces(k, piece).len() as int;
    if k == n - 1 {
        assert(concat_pieces(n, piece).subrange(start, start + piece(k).len()) =~= piece(k));
    } else {
        lemma_concat_pieces_segment(n - 1, k, piece);
        assert(concat_pieces(n, piece).subrange(start, start + piece(k).len()) =~= concat_pieces(
            n - 1,
            piece,
        ).subrange(start, start + piece(k).len()));
    }
}

/// Order preservation in the VHDL record declaration: port `k`'s field line
/// stands exactly where the declaration's head and the first `k` field
/// lines end, so the rendered field order is the port order.
pub proof fn lemma_vhdl_record_order(ports: Seq<NetModel>, unit: Seq<char>, k: int)
    requires
        0 <= k < ports.len(),
    ensures
        ({
            let start = vhdl_bfm_head(unit).len() as int + vhdl_field_lines(ports, k).len() as int;
            vhdl_bfm_spec(ports, unit).subrange(
                start,
                start + vhdl_field_line(ports[k]).len() as int,
            ) == vhdl_field_line(ports[k])
        }),
{
    let piece = |k2: int| vhdl_field_line(ports[k2]);
    lemma_concat_pieces_segment(ports.len() as int, k, piece);
    let lines = vhdl_field_lines(ports, ports.len() as int);
    let s = vhdl_field_lines(ports, k).len() as int;
    let fl = vhdl_field_line(ports[k]);
    let h = vhdl_bfm_head(unit).len() as int;
    assert(vhdl_bfm_spec(ports, unit).subrange(h + s, h + s + fl.len() as int) =~= lines.subrange(
        s,
        s + fl.len() as int,
    ));
}

/// Order preservation in the SystemVerilog interface declaration: port
/// `k`'s signal line stands exactly where the declaration's head and the
/// first `k` signal lines end.
pub proof fn lemma_sv_interface_order(
    ports: Seq<NetModel>,
    gens: Seq<NetModel>,
    unit: Seq<char>,
    k: int,
)
    requires
        0 <= k < ports.len(),
    ensures
        ({
            let start = sv_bfm_head(unit, gens).len() as int + sv_field_lines(ports, k).len() as int;
            sv_bfm_spec(ports, gens, unit).subrange(
                start,
                start + sv_field_line(ports[k]).len() as int,
            ) == sv_field_line(ports[k])
        }),
{
    let piece = |k2: int| sv_field_line(ports[k2]);
    lemma_concat_pieces_segment(ports.len() as int, k, piece);
    let lines = sv_field_lines(ports, ports.len() as int);
    let s = sv_field_lines(ports, k).len() as int;
    let fl = sv_field_line(ports[k]);
    let h = sv_bfm_head(unit, gens).len() as int;
    assert(sv_bfm_spec(ports, gens, unit).subrange(h + s, h + s + fl.len() as int) =~= lines
        .subrange(s, s + fl.len() as int));
}

/// Order preservation in the VHDL send procedure: port `k`'s drive
/// statement stands exactly where the procedure's head and the first `k`
/// drive statements end.
pub proof fn lemma_vhdl_send_order(ports: Seq<NetModel>, bfm_inst: Seq<char>, k: int)
    requires
        0 <= k < ports.len(),
    ensures
        ({
            let start = vhdl_send_head().len() as int + vhdl_send_lines(ports, bfm_inst, k).len()
                as int;
            vhdl_send_spec(ports, bfm_inst).subrange(
                start,
                start + vhdl_send_line(bfm_inst, ports[k]).len() as int,
            ) == vhdl_send_line(bfm_inst, ports[k])
        }),
{
    let piece = |k2: int| vhdl_send_line(bfm_inst, ports[k2]);
    lemma_concat_pieces_segment(ports.len() as int, k, piece);
    let lines = vhdl_send_lines(ports, bfm_inst, ports.len() as int);
    let s = vhdl_send_lines(ports, bfm_inst, k).len() as int;
    let fl = vhdl_send_line(bfm_inst, ports[k]);
    let h = vhdl_send_head().len() as int;
    assert(vhdl_send_spec(ports, bfm_inst).subrange(h + s, h + s + fl.len() as int) =~= lines
        .subrange(s, s + fl.len() as int));
}

/// Order preservation in the SystemVerilog send task, as in the VHDL one.
pub proof fn lemma_sv_send_order(ports: Seq<NetModel>, bfm_inst: Seq<char>, k: int)
    requires
        0 <= k < ports.len(),
    ensures
        ({
            let start = sv_send_head().len() as int + sv_send_lines(ports, bfm_inst, k).len()
                as int;
            sv_send_spec(ports, bfm_inst).subrange(
                start,
                start + sv_send_line(bfm_inst, ports[k]).len() as int,
            ) == sv_send_line(bfm_inst, ports[k])
        }),
{
    let piece = |k2: int| sv_send_line(bfm_inst, ports[k2]);
    lemma_concat_pieces_segment(ports.len() as int, k, piece);
    let lines = sv_send_lines(ports, bfm_inst, ports.len() as int);
    let s = sv_send_lines(ports, bfm_inst, k).len() as int;
    let fl = sv_send_line(bfm_inst, ports[k]);
    let h = sv_send_head().len() as int;
    assert(sv_send_spec(ports, bfm_inst).subrange(h + s, h + s + fl.len() as int) =~= lines
        .subrange(s, s + fl.len() as int));
}

/// Order preservation in the VHDL receive procedure, for both of its
/// passes: the load statements stand in port order after the procedure's
/// head, and the check statements stand in port order after the guard
/// closes.
pub proof fn lemma_vhdl_comp_order(
    ports: Seq<NetModel>,
    unit: Seq<char>,
    bfm_inst: Seq<char>,
    k: int,
)
    requires
        0 <= k < ports.len(),
    ensures
        ({
            let start = vhdl_comp_head(unit).len() as int + vhdl_comp_load_lines(ports, k).len()
                as int;
            vhdl_comp_spec(ports, unit, bfm_inst).subrange(
                start,
                start + vhdl_comp_load_line(ports[k]).len() as int,
            ) == vhdl_comp_load_line(ports[k])
        }),
        ({
            let mid = vhdl_comp_head(unit) + vhdl_comp_load_lines(ports, ports.len() as int)
                + tab_spec(1) + "end if;\n"@;
            let start = mid.len() as int + vhdl_comp_check_lines(ports, bfm_inst, k).len() as int;
            vhdl_comp_spec(ports, unit, bfm_inst).subrange(
                start,
                start + vhdl_comp_check_line(bfm_inst, ports[k]).len() as int,
            ) == vhdl_comp_check_line(bfm_inst, ports[k])
        }),
{
    let n = ports.len() as int;
    let whole = vhdl_comp_spec(ports, unit, bfm_inst);
    let load_piece = |k2: int| vhdl_comp_load_line(ports[k2]);
    lemma_concat_pieces_segment(n, k, load_piece);
    let loads = vhdl_comp_load_lines(ports, n);
    let s1 = vhdl_comp_load_lines(ports, k).len() as int;
    let l1 = vhdl_comp_load_line(ports[k]);
    let h1 = vhdl_comp_head(unit).len() as int;
    assert(whole.subrange(h1 + s1, h1 + s1 + l1.len() as int) =~= loads.subrange(
        s1,
        s1 + l1.len() as int,
    ));
    let check_piece = |k2: int| vhdl_comp_check_line(bfm_inst, ports[k2]);
    lemma_concat_pieces_segment(n, k, check_piece);
    let checks = vhdl_comp_check_lines(ports, bfm_inst, n);
    let mid = vhdl_comp_head(unit) + loads + tab_spec(1) + "end if;\n"@;
    let s2 = vhdl_comp_check_lines(ports, bfm_inst, k).len() as int;
    let l2 = vhdl_comp_check_line(bfm_inst, ports[k]);
    let h2 = mid.len() as int;
    assert(whole.subrange(h2 + s2, h2 + s2 + l2.len() as int) =~= checks.subrange(
        s2,
        s2 + l2.len() as int,
    ));
}

/// Order preservation in the SystemVerilog receive task, for both of its
/// passes: the load statements stand in port order after the task's head,
/// and the check statements stand in port order after the loads.
pub proof fn lemma_sv_comp_order(
    ports: Seq<NetModel>,
    bfm_inst: Seq<char>,
    mdl_inst: Seq<char>,
    k: int,
)
    requires
        0 <= k < ports.len(),
    ensures
        ({
            let start = sv_comp_head().len() as int + sv_comp_load_lines(
                ports,
                mdl_inst,
                k,
            ).len() as int;
            sv_comp_spec(ports, bfm_inst, mdl_inst).subrange(
                start,
                start + sv_comp_load_line(mdl_inst, ports[k]).len() as int,
            ) == sv_comp_load_line(mdl_inst, ports[k])
        }),
        ({
            let mid = sv_comp_head() + sv_comp_load_lines(ports, mdl_inst, ports.len() as int)
                + tab_spec(1) + "end\n"@ + tab_spec(1)
                + "// Compare received ouputs with expected outputs\n"@;
            let start = mid.len() as int + sv_comp_check_lines(
                ports,
                bfm_inst,
                mdl_inst,
                k,
            ).len() as int;
            sv_comp_spec(ports, bfm_inst, mdl_inst).subrange(
                start,
                start + sv_comp_check_line(bfm_inst, mdl_inst, ports[k]).len() as int,
            ) == sv_comp_check_line(bfm_inst, mdl_inst, ports[k])
        }),
{
    let n = ports.len() as int;
    let whole = sv_comp_spec(ports, bfm_inst, mdl_inst);
    let load_piece = |k2: int| sv_comp_load_line(mdl_inst, ports[k2]);
    lemma_concat_pieces_segment(n, k, load_piece);
    let loads = sv_comp_load_lines(ports, mdl_inst, n);
    let s1 = sv_comp_load_lines(ports, mdl_inst, k).len() as int;
    let l1 = sv_comp_load_line(mdl_inst, ports[k]);
    let h1 = sv_comp_head().len() as int;
    assert(whole.subrange(h1 + s1, h1 + s1 + l1.len() as int) =~= loads.subrange(
        s1,
        s1 + l1.len() as int,
    ));
    let check_piece = |k2: int| sv_comp_check_line(bfm_inst, mdl_inst, ports[k2]);
    lemma_concat_pieces_segment(n, k, check_piece);
    let checks = sv_comp_check_lines(ports, bfm_inst, mdl_inst, n);
    let mid = sv_comp_head() + loads + tab_spec(1) + "end\n"@ + tab_spec(1)
        + "// Compare received ouputs with expected outputs\n"@;
    let s2 = sv_comp_check_lines(ports, bfm_inst, mdl_inst, k).len() as int;
    let l2 = sv_comp_check_line(bfm_inst, mdl_inst, ports[k]);
    let h2 = mid.len() as int;
    assert(whole.subrange(h2 + s2, h2 + s2 + l2.len() as int) =~= checks.subrange(
        s2,
        s2 + l2.len() as int,
    ));
}

/// Order preservation in the parameter-binding clause of a SystemVerilog
/// instance: generic `k`'s binding stands exactly where the clause's opener
/// and the first `k` bindings end.
pub proof fn lemma_sv_param_inst_order(gens: Seq<NetModel>, k: int)
    requires
        0 <= k < gens.len(),
    ensures
        ({
            let start = " #(\n"@.len() as int + sv_param_inst_entries(gens, k).len() as int;
            sv_param_inst_spec(gens).subrange(
                start,
                start + sv_param_inst_entry(gens, k).len() as int,
            ) == sv_param_inst_entry(gens, k)
        }),
{
    let piece = |k2: int| sv_param_inst_entry(gens, k2);
    lemma_concat_pieces_segment(gens.len() as int, k, piece);
    let entries = sv_param_inst_entries(gens, gens.len() as int);
    let s = sv_param_inst_entries(gens, k).len() as int;
    let e = sv_param_inst_entry(gens, k);
    let h = " #(\n"@.len() as int;
    assert(sv_param_inst_spec(gens).subrange(h + s, h + s + e.len() as int) =~= entries.subrange(
        s,
        s + e.len() as int,
    ));
}

/// Order preservation in the parameter-declaration clause of a
/// SystemVerilog interface, as in the binding clause.
pub proof fn lemma_sv_param_decl_order(gens: Seq<NetModel>, k: int)
    requires
        0 <= k < gens.len(),
    ensures
        ({
            let start = " #(\n"@.len() as int + sv_param_decl_entries(gens, k).len() as int;
            sv_param_decl_spec(gens).subrange(
                start,
                start + sv_param_decl_entry(gens, k).len() as int,
            ) == sv_param_decl_entry(gens, k)
        }),
{
    let piece = |k2: int| sv_param_decl_entry(gens, k2);
    lemma_concat_pieces_segment(gens.len() as int, k, piece);
    let entries = sv_param_decl_entries(gens, gens.len() as int);
    let s = sv_param_decl_entries(gens, k).len() as int;
    let e = sv_param_decl_entry(gens, k);
    let h = " #(\n"@.len() as int;
    assert(sv_param_decl_spec(gens).subrange(h + s, h + s + e.len() as int) =~= entries.subrange(
        s,
        s + e.len() as int,
    ));
}

/// Filter correctness: a port passes the filter exactly when it stands in
/// the input and its identifier is not excluded. An excluded identifier
/// that matches no port excludes nothing.
pub proof fn lemma_kept_ports_membership(ports: Seq<NetModel>, excluded: Seq<Seq<char>>)
    ensures
        forall|x: NetModel| #[trigger]
            kept_ports(ports, excluded).contains(x) <==> (ports.contains(x) && !excluded.contains(
                x.identifier,
            )),
    decreases ports.len(),
{
    if ports.len() > 0 {
        let front = ports.drop_last();
        let last = ports.last();
        lemma_kept_ports_membership(front, excluded);
        assert forall|x: NetModel| #[trigger]
            kept_ports(ports, excluded).contains(x) <==> (ports.contains(x) && !excluded.contains(
                x.identifier,
            )) by {
            assert(kept_ports(front, excluded).contains(x) <==> (front.contains(x)
                && !excluded.contains(x.identifier)));
            vstd::seq_lib::lemma_seq_contains_after_push(kept_ports(front, excluded), last, x);
            if ports.contains(x) {
                let i = choose|i: int| 0 <= i < ports.len() && ports[i] == x;
                if i < ports.len() - 1 {
                    assert(front[i] == x);
                    assert(front.contains(x));
                }
            }
            if front.contains(x) {
                let i = choose|i: int| 0 <= i < front.len() && front[i] == x;
                assert(ports[i] == x);
                assert(ports.contains(x));
            }
            assert(ports[ports.len() - 1] == last);
            assert(ports.contains(last));
        }
    }
}

/// Direction partitioning, first half: every port of the
/// direction-filtered sequence has that direction. The send routine is
/// rendered from the input-direction selection and the receive routine
/// from the output-direction selection, so neither mentions a port of the
/// other direction.
pub proof fn lemma_direction_only(ports: Seq<NetModel>, dir: Direction)
    ensures
        forall|i: int|
            0 <= i < ports_in_direction(ports, dir).len() ==> (#[trigger] ports_in_direction(
                ports,
                dir,
            )[i]).direction == dir,
    decreases ports.len(),
{
    if ports.len() > 0 {
        lemma_direction_only(ports.drop_last(), dir);
    }
}

/// Direction partitioning, second half: a port of the asked-for direction
/// is kept by the direction filter, and one of the other direction is not.
pub proof fn lemma_direction_membership(ports: Seq<NetModel>, dir: Direction)
    ensures
        forall|x: NetModel| #[trigger]
            ports_in_direction(ports, dir).contains(x) <==> (ports.contains(x) && x.direction
                == dir),
    decreases ports.len(),
{
    if ports.len() > 0 {
        let front = ports.drop_last();
        let last = ports.last();
        lemma_direction_membership(front, dir);
        assert forall|x: NetModel| #[trigger]
            ports_in_direction(ports, dir).contains(x) <==> (ports.contains(x) && x.direction
                == dir) by {
            assert(ports_in_direction(front, dir).contains(x) <==> (front.contains(x)
                && x.direction == dir));
            vstd::seq_lib::lemma_seq_contains_after_push(ports_in_direction(front, dir), last, x);
            if ports.contains(x) {
                let i = choose|i: int| 0 <= i < ports.len() && ports[i] == x;
                if i < ports.len() - 1 {
                    assert(front[i] == x);
                    assert(front.contains(x));
                }
            }
            if front.contains(x) {
                let i = choose|i: int| 0 <= i < front.len() && front[i] == x;
                assert(ports[i] == x);
                assert(ports.contains(x));
            }
            assert(ports[ports.len() - 1] == last);
            assert(ports.contains(last));
        }
    }
}

/// Generics round-trip: without generics there is no parameter clause at
/// all; with generics, the declaration clause holds one entry per generic
/// and the last entry carries no comma.
pub proof fn lemma_param_decl_shape(gens: Seq<NetModel>)
    ensures
        gens.len() == 0 ==> sv_param_decl_spec(gens) == Seq::<char>::empty(),
        gens.len() > 0 ==> sv_param_decl_spec(gens) == " #(\n"@ + sv_param_decl_entries(
            gens,
            gens.len() - 1,
        ) + (tab_spec(1) + gens.last().mode + " "@ + gens.last().net_type + " "@
            + gens.last().identifier + "\n"@) + ")"@,
{
    if gens.len() > 0 {
        let n = gens.len() as int;
        assert(sv_param_decl_entries(gens, n) == sv_param_decl_entries(gens, n - 1)
            + sv_param_decl_entry(gens, n - 1));
        assert(sv_param_decl_entry(gens, n - 1) == tab_spec(1) + gens.last().mode + " "@
            + gens.last().net_type + " "@ + gens.last().identifier + "\n"@);
        assert(sv_param_decl_spec(gens) =~= " #(\n"@ + sv_param_decl_entries(gens, n - 1) + (
        tab_spec(1) + gens.last().mode + " "@ + gens.last().net_type + " "@
            + gens.last().identifier + "\n"@) + ")"@);
    }
}

/// The parameter-binding clause of an instance follows the same shape: no
/// clause without generics, a comma after every binding but the last.
pub proof fn lemma_param_inst_shape(gens: Seq<NetModel>)
    ensures
        gens.len() == 0 ==> sv_param_inst_spec(gens) == Seq::<char>::empty(),
        gens.len() > 0 ==> sv_param_inst_spec(gens) == " #(\n"@ + sv_param_inst_entries(
            gens,
            gens.len() - 1,
        ) + (tab_spec(1) + "."@ + gens.last().identifier + "("@ + gens.last().identifier + ")"@
            + "\n"@) + ")"@,
{
    if gens.len() > 0 {
        let n = gens.len() as int;
        assert(sv_param_inst_entries(gens, n) == sv_param_inst_entries(gens, n - 1)
            + sv_param_inst_entry(gens, n - 1));
        assert(sv_param_inst_entry(gens, n - 1) =~= tab_spec(1) + "."@ + gens.last().identifier
            + "("@ + gens.last().identifier + ")"@ + "\n"@);
        assert(sv_param_inst_spec(gens) =~= " #(\n"@ + sv_param_inst_entries(gens, n - 1) + (
        tab_spec(1) + "."@ + gens.last().identifier + "("@ + gens.last().identifier + ")"@ + "\n"@)
            + ")"@);
    }
}

/// Idempotence: what a request renders is a function of the request and
/// the chosen instance names alone, so rendering the same input twice
/// yields byte-identical text. `Link::render` pins its result to
/// `output_spec`, of which this is stated.
pub proof fn lemma_render_deterministic(
    l: LinkModel,
    bfm_inst: Seq<char>,
    mdl_inst: Seq<char>,
    r1: Seq<char>,
    r2: Seq<char>,
)
    requires
        r1 == output_spec(l, bfm_inst, mdl_inst),
        r2 == output_spec(l, bfm_inst, mdl_inst),
    ensures
        r1 == r2,
{
}

} // verus!
