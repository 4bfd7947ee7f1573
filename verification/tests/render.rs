use vast::common;
use vast::doc::Doc;
use vast::layout::render_doc;
use vast::subset::ast::{Binop, EventTy, Expr, ExprConcat, InstancePath, Instance, Radix, Terop};
use vast::v05::ast::{
    Decl as V05Decl, Module as V05Module, Parallel as V05Parallel, Port as V05Port,
    Sequential as V05Sequential, SequentialIfElse, ParallelAlways, Stmt as V05Stmt, Ty as V05Ty,
};
use vast::v05::render::decl_to_string;
use vast::v17::ast::{
    Decl as V17Decl, Module as V17Module, Parallel as V17Parallel, Port as V17Port,
    Sequential as V17Sequential, Ty as V17Ty,
};

#[test]
fn logical_negation() {
    assert_eq!("!".to_string(), common::Unop::LogicalNegation.to_pretty());
}

#[test]
fn unop_symbols_pairwise_distinct() {
    let symbols = vec![
        common::Unop::LogicalNegation.to_pretty(),
        common::Unop::BitwiseNegation.to_pretty(),
        common::Unop::BitwiseAnd.to_pretty(),
        common::Unop::BitwiseNand.to_pretty(),
        common::Unop::BitwiseOr.to_pretty(),
        common::Unop::BitwiseNor.to_pretty(),
        common::Unop::BitwiseXor.to_pretty(),
        common::Unop::BitwiseXnor.to_pretty(),
    ];
    for i in 0..symbols.len() {
        for j in 0..symbols.len() {
            if i != j {
                assert_ne!(symbols[i], symbols[j]);
            }
        }
    }
}

#[test]
fn unop_symbol_table() {
    assert_eq!("~", common::Unop::BitwiseNegation.to_pretty());
    assert_eq!("&", common::Unop::BitwiseAnd.to_pretty());
    assert_eq!("~&", common::Unop::BitwiseNand.to_pretty());
    assert_eq!("|", common::Unop::BitwiseOr.to_pretty());
    assert_eq!("~|", common::Unop::BitwiseNor.to_pretty());
    assert_eq!("^", common::Unop::BitwiseXor.to_pretty());
    assert_eq!("~^", common::Unop::BitwiseXnor.to_pretty());
}

#[test]
fn unop_renders_prefix_adjacent() {
    let e = common::Expr::Unop(
        common::Unop::BitwiseAnd,
        Box::new(common::Expr::Ref("bus".to_string())),
    );
    assert_eq!("&bus", e.to_pretty());
}

#[test]
fn width_one_renders_empty_range() {
    let w: common::Width = 1;
    assert_eq!("", render_doc(&common::width_to_doc(&w), 80));
}

#[test]
fn width_renders_high_to_zero_range() {
    let w: common::Width = 5;
    assert_eq!("[4:0]", render_doc(&common::width_to_doc(&w), 80));
    let w2: common::Width = 32;
    assert_eq!("[31:0]", render_doc(&common::width_to_doc(&w2), 80));
}

#[test]
fn ulit_literals_render_width_radix_digits() {
    assert_eq!("32'd42", Expr::new_ulit_dec(32, "42").to_pretty());
    assert_eq!("8'hff", Expr::new_ulit_hex(8, "ff").to_pretty());
    assert_eq!("4'b1010", Expr::new_ulit_bin(4, "1010").to_pretty());
}

#[test]
fn int_literals_render_signed_decimal() {
    assert_eq!("-5", Expr::Int(-5).to_pretty());
    assert_eq!("0", Expr::Int(0).to_pretty());
    assert_eq!("2147483647", Expr::Int(i32::MAX).to_pretty());
    assert_eq!("-2147483648", Expr::Int(i32::MIN).to_pretty());
}

#[test]
fn string_literal_renders_quoted() {
    assert_eq!("\"fifo\"", Expr::new_str("fifo").to_pretty());
}

#[test]
fn signed_cast_renders_call() {
    let e = Expr::Signed(Box::new(Expr::new_ref("x")));
    assert_eq!("$signed(x)", e.to_pretty());
}

#[test]
fn instance_path_renders_scope_separators_and_index() {
    let p = InstancePath { path: vec!["top".to_string(), "u0".to_string(), "q".to_string()] };
    let e = Expr::IPath(p, Some(Box::new(Expr::Int(3))));
    assert_eq!("top.u0.q[3]", e.to_pretty());
}

#[test]
fn binary_and_ternary_templates() {
    let a = || Box::new(Expr::new_ref("a"));
    let b = || Box::new(Expr::new_ref("b"));
    let c = || Box::new(Expr::new_ref("c"));
    assert_eq!("a + b", Expr::Binop(Binop::Add, a(), b()).to_pretty());
    assert_eq!("a[b]", Expr::Binop(Binop::IndexBit, a(), b()).to_pretty());
    assert_eq!("a ? b : c", Expr::Terop(Terop::Mux, a(), b(), c()).to_pretty());
    assert_eq!("a[b:c]", Expr::Terop(Terop::Slice, a(), b(), c()).to_pretty());
    assert_eq!("a[b +: c]", Expr::Terop(Terop::IndexSlice, a(), b(), c()).to_pretty());
}

#[test]
fn concat_renders_braced_comma_list() {
    let e = Expr::Concat(ExprConcat {
        exprs: vec![Expr::new_ref("hi"), Expr::new_ref("mid"), Expr::new_ref("lo")],
    });
    assert_eq!("{hi, mid, lo}", e.to_pretty());
}

#[test]
fn call_renders_name_and_args() {
    let e = Expr::Call("clog2".to_string(), vec![Expr::new_ref("depth")]);
    assert_eq!("clog2(depth)", e.to_pretty());
}

#[test]
fn scenario_and2_module() {
    let mut m = V05Module::new("and2");
    m.add_input("a", 1);
    m.add_input("b", 1);
    m.add_output("y", 1);
    let rhs = Expr::Binop(
        Binop::And,
        Box::new(Expr::new_ref("a")),
        Box::new(Expr::new_ref("b")),
    );
    m.add_stmt(V05Stmt::new_parallel(V05Parallel::Assign(Expr::new_ref("y"), rhs)));
    let text = m.to_pretty_with_width(80);
    assert_eq!(
        "module and2 (\n    input wire a,\n    input wire b,\n    output wire y\n);\n    assign y = a & b;\nendmodule",
        text,
    );
    assert!(text.contains("input wire a"));
    assert!(text.contains("input wire b"));
    assert!(text.contains("output wire y"));
    assert!(!text.contains("[0:0]"));
    assert!(text.contains("assign y = a & b;"));
}

#[test]
fn scenario_sized_register() {
    let d = V05Decl::new_reg("cnt", 8);
    let text = decl_to_string(&d);
    assert_eq!("reg [7:0] cnt", text);
    assert!(text.contains("[7:0] cnt"));

    let mut m = V05Module::new("counter");
    m.add_output_reg("cnt", 8);
    let text = m.to_pretty_with_width(80);
    assert!(text.contains("[7:0] cnt"));
}

#[test]
fn scenario_binding_order_is_immaterial() {
    let mut a = Instance::new("u0", "ram");
    a.add_param_uint("WIDTH", 4);
    a.add_param_uint("DEPTH", 8);
    a.connect_ref("clk", "clk");

    let mut b = Instance::new("u0", "ram");
    b.add_param_uint("DEPTH", 8);
    b.add_param_uint("WIDTH", 4);
    b.connect_ref("clk", "clk");

    let ta = a.to_pretty();
    let tb = b.to_pretty();
    assert_eq!(ta, tb);
    let depth = ta.find(".DEPTH(").unwrap();
    let width = ta.find(".WIDTH(").unwrap();
    assert!(depth < width);
    assert!(ta.contains(".DEPTH(32'd8)"));
    assert!(ta.contains(".WIDTH(32'd4)"));
}

#[test]
fn binding_replaces_same_name() {
    let mut a = Instance::new("u0", "ram");
    a.add_param_uint("WIDTH", 4);
    a.add_param_uint("WIDTH", 16);
    let text = a.to_pretty();
    assert!(text.contains(".WIDTH(32'd16)"));
    assert!(!text.contains(".WIDTH(32'd4)"));
}

#[test]
fn scenario_clocked_assertion() {
    let mut m = V17Module::new("checker");
    m.add_port(V17Port::Input(V17Decl::Logic("clk".to_string(), V17Ty::Width(1))));
    let body = vec![V17Sequential::Assert(Expr::new_ref("ok"), None)];
    let ev = V17Sequential::Event(EventTy::Posedge, Expr::new_ref("clk"));
    m.add_stmt(vast::subset::ast::GenericStmt::Parallel(V17Parallel::AlwaysFF(ev, body)));
    let text = m.to_pretty_with_width(80);
    assert!(text.contains("always_ff @(posedge clk) begin"));
    assert!(text.contains("assert (ok);"));
    assert!(!text.contains("else"));
    let assert_at = text.find("assert (ok);").unwrap();
    let begin_at = text.find("always_ff @(posedge clk) begin").unwrap();
    let end_at = text.rfind("end").unwrap();
    assert!(begin_at < assert_at && assert_at < end_at);
}

#[test]
fn rendering_twice_is_identical() {
    let mut m = V05Module::new("top");
    m.add_param_uint("WIDTH", 32);
    m.add_input("clk", 1);
    m.add_output_reg("q", 32);
    let mut ife = SequentialIfElse::new(Expr::new_ref("rst"));
    ife.add_seq(V05Sequential::new_nonblk_assign(
        Expr::new_ref("q"),
        Expr::new_ulit_dec(32, "0"),
    ));
    ife.set_else(V05Sequential::new_blk_assign(Expr::new_ref("q"), Expr::new_ref("d")));
    let mut alw = ParallelAlways::new(V05Sequential::new_posedge("clk"));
    alw.add_seq(V05Sequential::from(ife));
    m.add_stmt(V05Stmt::from(alw));
    let first = m.to_pretty_with_width(80);
    let second = m.to_pretty_with_width(80);
    assert_eq!(first, second);
    assert!(first.contains("if (rst) begin"));
    assert!(first.contains("q <= 32'd0;"));
    assert!(first.contains("end else begin"));
    assert!(first.contains("q = d;"));
    assert!(first.contains("always @(posedge clk) begin"));
    assert!(first.contains("parameter WIDTH = 32'd32"));
}

#[test]
fn ports_read_back_in_insertion_order_v05() {
    let mut m = V05Module::new("pass");
    m.add_input("a", 1);
    m.add_input("b", 2);
    m.add_output("y", 3);
    let ports = m.ports();
    assert_eq!(3, ports.len());
    let names: Vec<String> = ports
        .iter()
        .map(|p| match p {
            V05Port::Input(V05Decl::Wire(n, _)) => format!("in {}", n),
            V05Port::Output(V05Decl::Wire(n, _)) => format!("out {}", n),
            _ => "other".to_string(),
        })
        .collect();
    assert_eq!(vec!["in a".to_string(), "in b".to_string(), "out y".to_string()], names);
}

#[test]
fn ports_read_back_in_insertion_order_v17() {
    let mut m = V17Module::new("pass");
    m.add_port(V17Port::Input(V17Decl::Logic("a".to_string(), V17Ty::Width(1))));
    m.add_port(V17Port::Input(V17Decl::Logic("b".to_string(), V17Ty::Width(2))));
    m.add_port(V17Port::Output(V17Decl::Logic("y".to_string(), V17Ty::Width(3))));
    let ports = m.ports();
    assert_eq!(3, ports.len());
    let names: Vec<String> = ports
        .iter()
        .map(|p| match p {
            V17Port::Input(V17Decl::Logic(n, _)) => format!("in {}", n),
            V17Port::Output(V17Decl::Logic(n, _)) => format!("out {}", n),
            _ => "other".to_string(),
        })
        .collect();
    assert_eq!(vec!["in a".to_string(), "in b".to_string(), "out y".to_string()], names);
}

#[test]
fn v17_comb_process_renders_block() {
    let mut m = V17Module::new("mux");
    let body = vec![V17Sequential::If(
        Expr::new_ref("sel"),
        vec![],
        vec![],
    )];
    m.add_stmt(vast::subset::ast::GenericStmt::Parallel(V17Parallel::AlwaysComb(body)));
    m.add_stmt(vast::subset::ast::GenericStmt::Parallel(V17Parallel::Assign(
        Expr::new_ref("y"),
        Expr::new_ref("a"),
    )));
    let text = m.to_pretty_with_width(80);
    assert!(text.contains("always_comb begin"));
    assert!(text.contains("if (sel) begin"));
    assert!(text.contains("assign y = a;"));
}

#[test]
fn v17_function_declaration_renders_block() {
    let f = V17Decl::Function(
        "inc".to_string(),
        V17Ty::Width(8),
        vec![V17Port::Input(V17Decl::Logic("x".to_string(), V17Ty::Width(8)))],
        vec![V17Decl::Logic("t".to_string(), V17Ty::Width(8))],
        vec![],
        );
    let mut m = V17Module::new("wrap");
    m.add_stmt(vast::subset::ast::GenericStmt::Decl(f));
    let text = m.to_pretty_with_width(80);
    assert!(text.contains("function logic [7:0] inc(input logic [7:0] x);"));
    assert!(text.contains("logic [7:0] t;"));
    assert!(text.contains("endfunction"));
}

#[test]
fn instance_in_module_body() {
    let mut i = Instance::new("u0", "ram");
    i.add_param_uint("DEPTH", 8);
    i.connect_ref("clk", "clk");
    i.connect("din", Expr::new_ulit_hex(8, "aa"));
    let mut m = V05Module::new("top");
    m.add_input("clk", 1);
    m.add_instance(i);
    let text = m.to_pretty_with_width(80);
    assert!(text.contains("ram #("));
    assert!(text.contains(".DEPTH(32'd8)"));
    assert!(text.contains(") u0 ("));
    assert!(text.contains(".clk(clk),"));
    assert!(text.contains(".din(8'haa)"));
    assert!(text.contains(");"));
}

#[test]
fn document_groups_wrap_against_budget() {
    let d = Doc::text("alpha".to_string())
        .cat(Doc::line())
        .cat(Doc::text("beta".to_string()))
        .group();
    assert_eq!("alpha beta", render_doc(&d, 40));
    assert_eq!("alpha\nbeta", render_doc(&d, 4));
}

#[test]
fn expression_accessors() {
    let e = Expr::new_ref("lhs");
    assert_eq!("lhs", e.id());
    let mut i = Instance::new("u1", "rom");
    assert_eq!("u1", i.id());
    assert_eq!("rom", i.prim());
    i.set_id("u2");
    i.set_prim("ram");
    assert_eq!("u2", i.id());
    assert_eq!("ram", i.prim());
    assert_eq!(0, i.param_map().len());
    i.add_param_str("INIT", "zeros");
    assert_eq!(1, i.param_map().len());
    let ty = V05Ty::new_width(8);
    assert_eq!(8, ty.width());
    let par = V05Parallel::new_inst(Instance::new("u3", "rom"));
    assert_eq!("u3", par.id());
    let asn = V05Parallel::Assign(Expr::new_ref("q"), Expr::new_ref("d"));
    assert_eq!("q", asn.id());
}
