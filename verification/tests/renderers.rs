use verb::link::Link;
use verb::model::Direction;
use verb::model::Net;

fn port(id: &str, dir: Direction, ty: &str) -> Net {
    Net::new(id.to_string(), dir, ty.to_string(), String::new())
}

fn generic(id: &str, ty: &str, mode: &str) -> Net {
    Net::new(id.to_string(), Direction::Input, ty.to_string(), mode.to_string())
}

fn adder_ports() -> Vec<Net> {
    vec![
        port("clk", Direction::Input, "std_logic"),
        port("a", Direction::Input, "std_logic_vector(7:0)"),
        port("sum", Direction::Output, "std_logic_vector(8:0)"),
    ]
}

const VHDL_RECORD_NOTE: &str = "-- This record is automatically @generated by Verb.\n-- It is not intended for manual editing.\n";
const VHDL_PROC_NOTE: &str = "-- This procedure is automatically @generated by Verb.\n-- It is not intended for manual editing.\n";
const SV_IFACE_NOTE: &str = "// This interface is automatically @generated by Verb.\n// It is not intended for manual editing.\n";
fn sv_task_note() -> String {
    format!(
        "// This {} is automatically @generated by Verb.\n// It is not intended for manual editing.\n",
        "task"
    )
}

#[test]
fn vhdl_record_three_fields() {
    let ports = adder_ports();
    let refs: Vec<&Net> = ports.iter().collect();
    let text = Link::vhdl_to_string_bfm(&refs, "adder");
    let expected = format!(
        "{}type adder_if is record\n    clk: std_logic;\n    a: std_logic_vector(7:0);\n    sum: std_logic_vector(8:0);\nend record;",
        VHDL_RECORD_NOTE
    );
    assert_eq!(text, expected);
}

#[test]
fn vhdl_record_empty_ports() {
    let refs: Vec<&Net> = Vec::new();
    let text = Link::vhdl_to_string_bfm(&refs, "adder");
    let expected = format!("{}type adder_if is record\nend record;", VHDL_RECORD_NOTE);
    assert_eq!(text, expected);
}

#[test]
fn vhdl_instance_declaration() {
    let text = Link::vhdl_to_string_bfm_inst("adder", "bfm0");
    assert_eq!(text, "signal bfm0: adder_if;");
}

#[test]
fn sv_param_inst_empty_renders_nothing() {
    let gens: Vec<Net> = Vec::new();
    assert_eq!(Link::sv_generate_param_inst(&gens), "");
}

#[test]
fn sv_param_inst_two_entries_no_trailing_comma() {
    let gens = vec![generic("WORD_SIZE", "int", "parameter"), generic("DEPTH", "int", "parameter")];
    assert_eq!(
        Link::sv_generate_param_inst(&gens),
        " #(\n    .WORD_SIZE(WORD_SIZE),\n    .DEPTH(DEPTH)\n)"
    );
}

#[test]
fn sv_param_decl_empty_renders_nothing() {
    let gens: Vec<Net> = Vec::new();
    assert_eq!(Link::sv_generate_param_decl(&gens), "");
}

#[test]
fn sv_param_decl_two_entries_no_trailing_comma() {
    let gens = vec![generic("WORD_SIZE", "int", "parameter"), generic("DEPTH", "int", "parameter")];
    assert_eq!(
        Link::sv_generate_param_decl(&gens),
        " #(\n    parameter int WORD_SIZE,\n    parameter int DEPTH\n)"
    );
}

#[test]
fn sv_instance_with_parameters() {
    let gens = vec![generic("WORD_SIZE", "int", "parameter")];
    let text = Link::sv_to_string_bfm_inst("add", &gens, "bfm");
    assert_eq!(text, "add_if #(\n    .WORD_SIZE(WORD_SIZE)\n) bfm();");
}

#[test]
fn sv_instance_without_parameters() {
    let gens: Vec<Net> = Vec::new();
    let text = Link::sv_to_string_bfm_inst("add", &gens, "bfm");
    assert_eq!(text, "add_if bfm();");
}

#[test]
fn sv_interface_with_parameters() {
    let ports = adder_ports();
    let refs: Vec<&Net> = ports.iter().collect();
    let gens = vec![generic("WORD_SIZE", "int", "parameter")];
    let text = Link::sv_to_string_bfm(&refs, &gens, "adder");
    let expected = format!(
        "{}interface adder_if #(\n    parameter int WORD_SIZE\n);\n    std_logic clk;\n    std_logic_vector(7:0) a;\n    std_logic_vector(8:0) sum;\nendinterface",
        SV_IFACE_NOTE
    );
    assert_eq!(text, expected);
}

#[test]
fn sv_interface_without_parameters() {
    let ports = vec![port("clk", Direction::Input, "logic")];
    let refs: Vec<&Net> = ports.iter().collect();
    let gens: Vec<Net> = Vec::new();
    let text = Link::sv_to_string_bfm(&refs, &gens, "adder");
    let expected = format!("{}interface adder_if;\n    logic clk;\nendinterface", SV_IFACE_NOTE);
    assert_eq!(text, expected);
}

#[test]
fn vhdl_send_drives_in_port_order() {
    let inputs =
        vec![port("clk", Direction::Input, "std_logic"), port("a", Direction::Input, "std_logic")];
    let refs: Vec<&Net> = inputs.iter().collect();
    let text = Link::vhdl_to_string_send(&refs, "bfm");
    let expected = format!(
        "{}procedure send(file i: text) is\n    variable row: line;\nbegin\n    if endfile(i) = false then\n        readline(i, row);\n        drive(row, bfm.clk);\n        drive(row, bfm.a);\n    end if;\nend procedure;",
        VHDL_PROC_NOTE
    );
    assert_eq!(text, expected);
}

#[test]
fn sv_send_drives_in_port_order() {
    let inputs =
        vec![port("clk", Direction::Input, "logic"), port("a", Direction::Input, "logic")];
    let refs: Vec<&Net> = inputs.iter().collect();
    let text = Link::sv_to_string_send(&refs, "bfm");
    let expected = format!(
        "{}task send(int fd);\n    automatic string line;\n    // Read next set of input values from file\n    if(!$feof(fd)) begin\n        $fgets(line, fd);\n        $sscanf(parse(line), \"%b\", bfm.clk);\n        $sscanf(parse(line), \"%b\", bfm.a);\n    end\nendtask",
        sv_task_note()
    );
    assert_eq!(text, expected);
}

#[test]
fn vhdl_recv_checks_stand_outside_the_guard() {
    let outputs =
        vec![port("sum", Direction::Output, "std_logic_vector(8:0)"), port("c", Direction::Output, "std_logic")];
    let refs: Vec<&Net> = outputs.iter().collect();
    let text = Link::vhdl_to_string_comp(&refs, "adder", "bfm");
    let expected = format!(
        "{}procedure recv(file e: text; file o: text) is\n    variable row: line;\n    variable mdl: adder_bfm;\nbegin\n    if endfile(o) = false then\n        readline(o, row);\n        load(row, mdl.sum);\n        load(row, mdl.c);\n    end if;\n    assert_eq(e, bfm.sum, mdl.sum, \"sum\");\n    assert_eq(e, bfm.c, mdl.c, \"c\");\nend procedure;",
        VHDL_PROC_NOTE
    );
    assert_eq!(text, expected);
}

#[test]
fn sv_recv_checks_stand_outside_the_guard() {
    let outputs =
        vec![port("sum", Direction::Output, "logic"), port("c", Direction::Output, "logic")];
    let refs: Vec<&Net> = outputs.iter().collect();
    let text = Link::sv_to_string_comp(&refs, "adder", "bfm", "mdl");
    let expected = format!(
        "{}task recv(int fd);\n    automatic string line;\n    // Read expected output values from file\n    if(!$feof(fd)) begin\n        $fgets(line, fd);\n        $sscanf(parse(line), \"%b\", mdl.sum);\n        $sscanf(parse(line), \"%b\", mdl.c);\n    end\n    // Compare received ouputs with expected outputs\n    assert_eq(bfm.sum, mdl.sum, \"sum\");\n    assert_eq(bfm.c, mdl.c, \"c\");\nendtask",
        sv_task_note()
    );
    assert_eq!(text, expected);
}

#[test]
fn tab_width_is_four_spaces_per_level() {
    assert_eq!(Link::tab(0), "");
    assert_eq!(Link::tab(1), "    ");
    assert_eq!(Link::tab(3), "            ");
}

#[test]
fn longest_id_len_takes_the_maximum() {
    let a = "clk".to_string();
    let b = "word_size".to_string();
    assert_eq!(Link::_longest_id_len(vec![&a, &b]), 9);
    assert_eq!(Link::_longest_id_len(Vec::new()), 0);
}
