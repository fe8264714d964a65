use verb::link::Link;
use verb::model::contains_string;
use verb::model::filter_ports;
use verb::model::Direction;
use verb::model::Language;
use verb::model::LinkError;
use verb::model::Net;
use verb::model::Unit;

fn port(id: &str, dir: Direction, ty: &str) -> Net {
    Net::new(id.to_string(), dir, ty.to_string(), String::new())
}

fn adder(language: Language) -> Unit {
    Unit::new(
        "adder".to_string(),
        language,
        vec![
            port("clk", Direction::Input, "std_logic"),
            port("a", Direction::Input, "std_logic_vector(7:0)"),
            port("sum", Direction::Output, "std_logic_vector(8:0)"),
        ],
        Vec::new(),
    )
}

fn request(
    unit: Unit,
    bfm: bool,
    send: bool,
    comp: bool,
    bfm_inst: Option<Vec<String>>,
    exclude: Vec<String>,
    list: bool,
) -> Link {
    Link::new(unit, bfm, send, comp, bfm_inst, exclude, list)
}

#[test]
fn list_only_partitions_directions_in_order() {
    let link = request(adder(Language::Vhdl), false, false, false, None, Vec::new(), true);
    let out = link.render("bfm", "mdl").unwrap();
    assert_eq!(out, "clk a\nsum");
}

#[test]
fn list_only_wins_over_other_selectors() {
    let link = request(
        adder(Language::Vhdl),
        true,
        true,
        true,
        Some(vec!["b0".to_string()]),
        Vec::new(),
        true,
    );
    let out = link.render("bfm", "mdl").unwrap();
    assert_eq!(out, "clk a\nsum");
}

#[test]
fn interface_type_for_dialect_a() {
    let link = request(adder(Language::Vhdl), true, false, false, None, Vec::new(), false);
    let out = link.render("bfm", "mdl").unwrap();
    assert_eq!(
        out,
        "-- This record is automatically @generated by Verb.\n-- It is not intended for manual editing.\ntype adder_if is record\n    clk: std_logic;\n    a: std_logic_vector(7:0);\n    sum: std_logic_vector(8:0);\nend record;"
    );
}

#[test]
fn excluded_port_is_absent_unknown_exclusion_ignored() {
    let link = request(
        adder(Language::Vhdl),
        false,
        false,
        false,
        None,
        vec!["clk".to_string(), "no_such_port".to_string()],
        true,
    );
    let out = link.render("bfm", "mdl").unwrap();
    assert_eq!(out, "a\nsum");
}

#[test]
fn send_mentions_inputs_only() {
    let link = request(adder(Language::Vhdl), false, true, false, None, Vec::new(), false);
    let out = link.render("bfm", "mdl").unwrap();
    assert!(out.contains("drive(row, bfm.clk);"));
    assert!(out.contains("drive(row, bfm.a);"));
    assert!(!out.contains("bfm.sum"));
}

#[test]
fn recv_mentions_outputs_only() {
    let link = request(adder(Language::Vhdl), false, false, true, None, Vec::new(), false);
    let out = link.render("bfm", "mdl").unwrap();
    assert!(out.contains("load(row, mdl.sum);"));
    assert!(out.contains("assert_eq(e, bfm.sum, mdl.sum, \"sum\");"));
    assert!(!out.contains("bfm.clk"));
    assert!(!out.contains("bfm.a,"));
}

#[test]
fn one_blank_line_between_artifacts_none_around() {
    let link = request(adder(Language::Vhdl), true, true, false, None, Vec::new(), false);
    let out = link.render("bfm", "mdl").unwrap();
    let pieces: Vec<&str> = out.split("\n\n").collect();
    assert_eq!(pieces.len(), 2);
    assert!(pieces[0].ends_with("end record;"));
    assert!(pieces[1].starts_with("-- This procedure"));
    assert!(pieces[1].ends_with("end procedure;"));
    assert!(!out.ends_with('\n'));
}

#[test]
fn instances_render_in_requested_order() {
    let link = request(
        adder(Language::Vhdl),
        false,
        false,
        false,
        Some(vec!["b1".to_string(), "b0".to_string()]),
        Vec::new(),
        false,
    );
    let out = link.render("bfm", "mdl").unwrap();
    assert_eq!(out, "signal b1: adder_if;\n\nsignal b0: adder_if;");
}

#[test]
fn unsupported_dialect_fails_without_text() {
    let link = request(adder(Language::Verilog), true, false, false, None, Vec::new(), false);
    let out = link.render("bfm", "mdl");
    assert_eq!(out, Err(LinkError::UnsupportedDialect));
}

#[test]
fn unsupported_dialect_fails_each_selector() {
    for (bfm, send, comp, inst) in [
        (false, true, false, None),
        (false, false, true, None),
        (false, false, false, Some(vec!["b0".to_string()])),
    ] {
        let link = request(adder(Language::Verilog), bfm, send, comp, inst, Vec::new(), false);
        assert_eq!(link.render("bfm", "mdl"), Err(LinkError::UnsupportedDialect));
    }
}

#[test]
fn unsupported_dialect_with_nothing_selected_is_empty() {
    let link = request(adder(Language::Verilog), false, false, false, None, Vec::new(), false);
    assert_eq!(link.render("bfm", "mdl").unwrap(), "");
}

#[test]
fn unsupported_dialect_still_lists_ports() {
    let link = request(adder(Language::Verilog), false, false, false, None, Vec::new(), true);
    assert_eq!(link.render("bfm", "mdl").unwrap(), "clk a\nsum");
}

#[test]
fn rendering_twice_is_byte_identical() {
    let make = || {
        request(
            adder(Language::SystemVerilog),
            true,
            true,
            true,
            Some(vec!["b0".to_string()]),
            Vec::new(),
            false,
        )
    };
    let first = make().render("bfm", "mdl").unwrap();
    let second = make().render("bfm", "mdl").unwrap();
    assert_eq!(first, second);
}

#[test]
fn full_selection_for_dialect_b() {
    let link = request(adder(Language::SystemVerilog), true, true, true, None, Vec::new(), false);
    let out = link.render("bfm", "mdl").unwrap();
    let pieces: Vec<&str> = out.split("\n\n").collect();
    assert_eq!(pieces.len(), 3);
    assert!(pieces[0].starts_with("// This interface"));
    assert!(pieces[0].ends_with("endinterface"));
    assert!(pieces[1].contains("task send(int fd);"));
    assert!(pieces[2].contains("task recv(int fd);"));
}

#[test]
fn filter_keeps_order_and_drops_excluded() {
    let ports = vec![
        port("clk", Direction::Input, "std_logic"),
        port("a", Direction::Input, "std_logic"),
        port("sum", Direction::Output, "std_logic"),
    ];
    let kept = filter_ports(&ports, &vec!["a".to_string()]);
    let ids: Vec<&str> = kept.iter().map(|n| n.get_identifier().as_str()).collect();
    assert_eq!(ids, vec!["clk", "sum"]);
}

#[test]
fn contains_string_finds_exact_matches_only() {
    let haystack = vec!["clk".to_string(), "sum".to_string()];
    assert!(contains_string(&haystack, &"sum".to_string()));
    assert!(!contains_string(&haystack, &"su".to_string()));
    assert!(!contains_string(&Vec::new(), &"clk".to_string()));
}
