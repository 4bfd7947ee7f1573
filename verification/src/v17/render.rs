//! Renderer for the newer dialect. Every contract pins the produced text
//! exactly, line by line.

use vstd::prelude::*;
use vstd::string::StringExecFns;
use crate::common::width_text;
use crate::doc::{
    Doc, doc_flat, doc_plain, join_lines, line_views, lines_to_doc, lemma_line_views_concat,
    lemma_concat_assoc,
};
use crate::layout::render_doc;
use crate::strutil::u64_to_dec;
use crate::subset::ast::{EventTy, GenericPort, GenericStmt};
use crate::subset::render::{expr_text, expr_to_string, ind, inst_lines};
use crate::v17::ast::{
    Decl, Module, Parallel, Port, Sequential, Stmt, Ty, decl_wf, module_wf, port_wf,
    simple_decl_wf, simple_port_wf, stmt_wf, ty_wf,
};

verus! {

/// The range prefix of a sized type before a name.
pub open spec fn range_pre(t: Ty) -> Seq<char> {
    match t {
        Ty::Void => Seq::empty(),
        Ty::Int => Seq::empty(),
        Ty::Width(w) => if w <= 1 {
            Seq::empty()
        } else {
            width_text(w as nat) + " "@
        },
    }
}

/// The type prefix of a function's return type.
pub open spec fn ty_pre(t: Ty) -> Seq<char> {
    match t {
        Ty::Void => "void "@,
        Ty::Int => "int "@,
        Ty::Width(_w) => "logic "@ + range_pre(t),
    }
}

/// The type prefix of a typed parameter.
pub open spec fn param_ty_pre(t: Ty) -> Seq<char> {
    match t {
        Ty::Void => Seq::empty(),
        Ty::Int => "int "@,
        Ty::Width(_w) => "logic "@ + range_pre(t),
    }
}

/// The text of a plain declaration, without the closing semicolon; a
/// function declaration renders through `decl_lines` instead.
pub open spec fn decl_text(d: Decl) -> Seq<char> {
    match d {
        Decl::Int(n, _t) => "int "@ + n@,
        Decl::Logic(n, t) => "logic "@ + range_pre(t) + n@,
        Decl::Function(n, _t, _ports, _decls, _body) => n@,
        Decl::Param(n, t, e) => "parameter "@ + param_ty_pre(t) + n@ + " = "@ + expr_text(e),
    }
}

/// The text of a port declaration.
pub open spec fn port_text(p: Port) -> Seq<char> {
    match p {
        GenericPort::Input(d) => "input "@ + decl_text(d),
        GenericPort::Output(d) => "output "@ + decl_text(d),
    }
}

/// The comma-joined input ports of a function header.
pub open spec fn fn_ports_text(ps: Seq<Port>, i: int) -> Seq<char>
    decreases ps.len() - i,
{
    if i < 0 || i >= ps.len() {
        Seq::empty()
    } else if i == ps.len() - 1 {
        port_text(ps[i])
    } else {
        port_text(ps[i]) + ", "@ + fn_ports_text(ps, i + 1)
    }
}

/// The text of a triggering event.
pub open spec fn event_text(s: Sequential) -> Seq<char> {
    match s {
        Sequential::Event(EventTy::Posedge, e) => "posedge "@ + expr_text(e),
        Sequential::Event(EventTy::Negedge, e) => "negedge "@ + expr_text(e),
        _ => Seq::empty(),
    }
}

/// The lines of a sequential statement under a prefix. An assertion with
/// no else action emits no else clause.
pub open spec fn seq_lines(s: Sequential, p: Seq<char>) -> Seq<Seq<char>>
    decreases s, 0int, 0int,
{
    match s {
        Sequential::Event(_ty, _e) => seq![p + "@("@ + event_text(s) + ");"@],
        Sequential::If(c, thn, els) => seq![p + "if ("@ + expr_text(c) + ") begin"@]
            + seq_list_lines(thn@, ind(p), 0) + (if els.len() == 0 {
            seq![p + "end"@]
        } else {
            seq![p + "end else begin"@] + seq_list_lines(els@, ind(p), 0) + seq![p + "end"@]
        }),
        Sequential::Assert(e, act) => match act {
            Option::None => seq![p + "assert ("@ + expr_text(e) + ");"@],
            Option::Some(a) => seq![p + "assert ("@ + expr_text(e) + ") else begin"@] + seq_lines(
                *a,
                ind(p),
            ) + seq![p + "end"@],
        },
    }
}

/// The lines of a list of sequential statements from position `i` on.
pub open spec fn seq_list_lines(ss: Seq<Sequential>, p: Seq<char>, i: int) -> Seq<Seq<char>>
    decreases ss, 1int, ss.len() - i,
{
    if i < 0 || i >= ss.len() {
        Seq::empty()
    } else {
        seq_lines(ss[i], p) + seq_list_lines(ss, p, i + 1)
    }
}

/// One line per plain local declaration of a function.
pub open spec fn simple_decl_lines(ds: Seq<Decl>, p: Seq<char>, i: int) -> Seq<Seq<char>>
    decreases ds.len() - i,
{
    if i < 0 || i >= ds.len() {
        Seq::empty()
    } else {
        seq![p + decl_text(ds[i]) + ";"@] + simple_decl_lines(ds, p, i + 1)
    }
}

/// The lines of a declaration under a prefix: one line for a plain
/// declaration, a header/locals/body/closing block for a function.
pub open spec fn decl_lines(d: Decl, p: Seq<char>) -> Seq<Seq<char>> {
    match d {
        Decl::Function(n, ret, ports, decls, body) => seq![
            p + "function "@ + ty_pre(ret) + n@ + "("@ + fn_ports_text(ports@, 0) + ");"@,
        ] + simple_decl_lines(decls@, ind(p), 0) + seq_list_lines(body@, ind(p), 0) + seq![
            p + "endfunction"@,
        ],
        _ => seq![p + decl_text(d) + ";"@],
    }
}

/// The lines of a concurrent statement under a prefix.
pub open spec fn par_lines(par: Parallel, p: Seq<char>) -> Seq<Seq<char>> {
    match par {
        Parallel::Inst(inst) => inst_lines(inst, p),
        Parallel::Assign(l, r) => seq![p + "assign "@ + expr_text(l) + " = "@ + expr_text(r) + ";"@],
        Parallel::AlwaysComb(body) => seq![p + "always_comb begin"@] + seq_list_lines(
            body@,
            ind(p),
            0,
        ) + seq![p + "end"@],
        Parallel::AlwaysFF(ev, body) => seq![p + "always_ff @("@ + event_text(ev) + ") begin"@]
            + seq_list_lines(body@, ind(p), 0) + seq![p + "end"@],
    }
}

/// The lines of a module item under a prefix.
pub open spec fn stmt_lines(s: Stmt, p: Seq<char>) -> Seq<Seq<char>> {
    match s {
        GenericStmt::Decl(d) => decl_lines(d, p),
        GenericStmt::Parallel(par) => par_lines(par, p),
    }
}

/// The indented, comma-separated parameter lines of a module header.
pub open spec fn param_lines(ps: Seq<Decl>, i: int) -> Seq<Seq<char>>
    decreases ps.len() - i,
{
    if i < 0 || i >= ps.len() {
        Seq::empty()
    } else {
        seq![
            "    "@ + decl_text(ps[i]) + (if i == ps.len() - 1 {
                Seq::<char>::empty()
            } else {
                ","@
            }),
        ] + param_lines(ps, i + 1)
    }
}

/// The indented, comma-separated port lines of a module header.
pub open spec fn port_lines(ps: Seq<Port>, i: int) -> Seq<Seq<char>>
    decreases ps.len() - i,
{
    if i < 0 || i >= ps.len() {
        Seq::empty()
    } else {
        seq![
            "    "@ + port_text(ps[i]) + (if i == ps.len() - 1 {
                Seq::<char>::empty()
            } else {
                ","@
            }),
        ] + port_lines(ps, i + 1)
    }
}

/// The indented body lines of a module from position `i` on.
pub open spec fn body_lines(b: Seq<Stmt>, i: int) -> Seq<Seq<char>>
    decreases b.len() - i,
{
    if i < 0 || i >= b.len() {
        Seq::empty()
    } else {
        stmt_lines(b[i], "    "@) + body_lines(b, i + 1)
    }
}

/// The lines of a whole module.
pub open spec fn module_lines(m: Module) -> Seq<Seq<char>> {
    (if m.params@.len() == 0 {
        seq!["module "@ + m.name@ + " ("@]
    } else {
        seq!["module "@ + m.name@ + " #("@] + param_lines(m.params@, 0) + seq![") ("@]
    }) + port_lines(m.ports@, 0) + seq![");"@] + body_lines(m.body@, 0) + seq!["endmodule"@]
}

fn push_one(out: &mut Vec<String>, line: String)
    ensures
        line_views(final(out)@) == line_views(old(out)@).push(line@),
{
    let ghost pre = out@;
    out.push(line);
    proof {
        assert(line_views(out@) =~= line_views(pre).push(out@[out@.len() - 1]@));
    }
}

fn range_pre_str(t: &Ty) -> (r: String)
    requires
        ty_wf(*t),
    ensures
        r@ == range_pre(*t),
{
    match t {
        Ty::Void => String::new(),
        Ty::Int => String::new(),
        Ty::Width(w) => {
            if *w <= 1 {
                String::new()
            } else {
                let mut s = "[".to_owned();
                let digits = u64_to_dec(*w - 1);
                s.append(digits.as_str());
                s.append(":0]");
                s.append(" ");
                proof {
                    assert(s@ =~= width_text(*w as nat) + " "@);
                }
                s
            }
        },
    }
}

/// Renders a plain declaration, without the closing semicolon.
pub fn decl_to_string(d: &Decl) -> (r: String)
    requires
        simple_decl_wf(*d),
    ensures
        r@ == decl_text(*d),
{
    match d {
        Decl::Int(n, _t) => {
            let mut s = "int ".to_owned();
            s.append(n.as_str());
            s
        },
        Decl::Logic(n, t) => {
            let mut s = "logic ".to_owned();
            let rp = range_pre_str(t);
            s.append(rp.as_str());
            s.append(n.as_str());
            s
        },
        Decl::Function(n, _t, _ports, _decls, _body) => n.clone(),
        Decl::Param(n, t, e) => {
            let mut s = "parameter ".to_owned();
            match t {
                Ty::Void => {},
                Ty::Int => s.append("int "),
                Ty::Width(_w) => {
                    s.append("logic ");
                    let rp = range_pre_str(t);
                    s.append(rp.as_str());
                },
            }
            s.append(n.as_str());
            s.append(" = ");
            let et = expr_to_string(e);
            s.append(et.as_str());
            s
        },
    }
}

fn port_to_string(p: &Port) -> (r: String)
    requires
        simple_port_wf(*p),
    ensures
        r@ == port_text(*p),
{
    match p {
        GenericPort::Input(d) => {
            let mut s = "input ".to_owned();
            let t = decl_to_string(d);
            s.append(t.as_str());
            s
        },
        GenericPort::Output(d) => {
            let mut s = "output ".to_owned();
            let t = decl_to_string(d);
            s.append(t.as_str());
            s
        },
    }
}

fn fn_ports_to_string(ps: &Vec<Port>, i: usize) -> (r: String)
    requires
        forall|j: int| 0 <= j < ps@.len() ==> simple_port_wf(#[trigger] ps@[j]),
    ensures
        r@ == fn_ports_text(ps@, i as int),
    decreases ps@.len() - i,
{
    if i >= ps.len() {
        String::new()
    } else if i == ps.len() - 1 {
        port_to_string(&ps[i])
    } else {
        let mut s = port_to_string(&ps[i]);
        s.append(", ");
        let rest = fn_ports_to_string(ps, i + 1);
        s.append(rest.as_str());
        s
    }
}

fn event_to_string(s: &Sequential) -> (r: String)
    ensures
        r@ == event_text(*s),
{
    match s {
        Sequential::Event(ty, e) => {
            let mut line = match ty {
                EventTy::Posedge => "posedge ".to_owned(),
                EventTy::Negedge => "negedge ".to_owned(),
            };
            let t = expr_to_string(e);
            line.append(t.as_str());
            line
        },
        _ => String::new(),
    }
}

fn push_seq_lines(s: &Sequential, p: &str, out: &mut Vec<String>)
    ensures
        line_views(final(out)@) == line_views(old(out)@) + seq_lines(*s, p@),
    decreases *s, 0int,
{
    let ghost base = line_views(out@);
    match s {
        Sequential::Event(_ty, _e) => {
            let mut line = p.to_owned();
            line.append("@(");
            let ev = event_to_string(s);
            line.append(ev.as_str());
            line.append(");");
            push_one(out, line);
            proof {
                assert(line_views(out@) =~= base + seq_lines(*s, p@));
            }
        },
        Sequential::If(c, thn, els) => {
            let mut head = p.to_owned();
            head.append("if (");
            let ct = expr_to_string(c);
            head.append(ct.as_str());
            head.append(") begin");
            push_one(out, head);
            let mut indent = p.to_owned();
            indent.append("    ");
            push_seq_list(thn, indent.as_str(), out);
            if els.len() == 0 {
                let mut e = p.to_owned();
                e.append("end");
                push_one(out, e);
                proof {
                    assert(line_views(out@) =~= base + seq_lines(*s, p@));
                }
            } else {
                let mut e = p.to_owned();
                e.append("end else begin");
                push_one(out, e);
                push_seq_list(els, indent.as_str(), out);
                let mut e2 = p.to_owned();
                e2.append("end");
                push_one(out, e2);
                proof {
                    assert(line_views(out@) =~= base + seq_lines(*s, p@));
                }
            }
        },
        Sequential::Assert(e, act) => {
            let mut head = p.to_owned();
            head.append("assert (");
            let et = expr_to_string(e);
            head.append(et.as_str());
            match act {
                Option::None => {
                    head.append(");");
                    push_one(out, head);
                    proof {
                        assert(line_views(out@) =~= base + seq_lines(*s, p@));
                    }
                },
                Option::Some(a) => {
                    head.append(") else begin");
                    push_one(out, head);
                    let mut indent = p.to_owned();
                    indent.append("    ");
                    push_seq_lines(&**a, indent.as_str(), out);
                    let mut e2 = p.to_owned();
                    e2.append("end");
                    push_one(out, e2);
                    proof {
                        assert(line_views(out@) =~= base + seq_lines(*s, p@));
                    }
                },
            }
        },
    }
}

fn push_seq_list(v: &Vec<Sequential>, p: &str, out: &mut Vec<String>)
    ensures
        line_views(final(out)@) == line_views(old(out)@) + seq_list_lines(v@, p@, 0),
    decreases v@, 1int,
{
    let mut i: usize = 0;
    while i < v.len()
        invariant
            i <= v@.len(),
            line_views(out@) + seq_list_lines(v@, p@, i as int) == line_views(old(out)@)
                + seq_list_lines(v@, p@, 0),
        decreases v@.len() - i,
    {
        let ghost pre = line_views(out@);
        push_seq_lines(&v[i], p, out);
        proof {
            lemma_concat_assoc(pre, seq_lines(v@[i as int], p@), seq_list_lines(v@, p@, i as int + 1));
        }
        i += 1;
    }
    proof {
        assert(line_views(out@) + seq_list_lines(v@, p@, v@.len() as int) =~= line_views(out@));
    }
}

fn push_decl_lines(d: &Decl, p: &str, out: &mut Vec<String>)
    requires
        decl_wf(*d),
    ensures
        line_views(final(out)@) == line_views(old(out)@) + decl_lines(*d, p@),
{
    let ghost base = line_views(out@);
    match d {
        Decl::Function(n, ret, ports, decls, body) => {
            let mut head = p.to_owned();
            head.append("function ");
            match ret {
                Ty::Void => head.append("void "),
                Ty::Int => head.append("int "),
                Ty::Width(_w) => {
                    head.append("logic ");
                    let rp = range_pre_str(ret);
                    head.append(rp.as_str());
                },
            }
            head.append(n.as_str());
            head.append("(");
            let pt = fn_ports_to_string(ports, 0);
            head.append(pt.as_str());
            head.append(");");
            proof {
                assert(head@ =~= p@ + "function "@ + ty_pre(*ret) + n@ + "("@ + fn_ports_text(
                    ports@,
                    0,
                ) + ");"@);
            }
            push_one(out, head);
            let ghost afterhead = line_views(out@);
            let mut indent = p.to_owned();
            indent.append("    ");
            let mut i: usize = 0;
            while i < decls.len()
                invariant
                    i <= decls@.len(),
                    forall|j: int| 0 <= j < decls@.len() ==> simple_decl_wf(#[trigger] decls@[j]),
                    indent@ == ind(p@),
                    line_views(out@) + simple_decl_lines(decls@, ind(p@), i as int) == afterhead
                        + simple_decl_lines(decls@, ind(p@), 0),
                decreases decls@.len() - i,
            {
                let mut line = indent.clone();
                let t = decl_to_string(&decls[i]);
                line.append(t.as_str());
                line.append(";");
                let ghost lv = line@;
                let ghost pre = line_views(out@);
                push_one(out, line);
                proof {
                    let sline = ind(p@) + decl_text(decls@[i as int]) + ";"@;
                    assert(lv =~= sline);
                    assert(pre.push(lv) + simple_decl_lines(decls@, ind(p@), i as int + 1)
                        =~= pre + simple_decl_lines(decls@, ind(p@), i as int));
                }
                i += 1;
            }
            proof {
                assert(line_views(out@) + simple_decl_lines(decls@, ind(p@), decls@.len() as int)
                    =~= line_views(out@));
            }
            push_seq_list(body, indent.as_str(), out);
            let mut tail = p.to_owned();
            tail.append("endfunction");
            push_one(out, tail);
            proof {
                assert(line_views(out@) =~= base + decl_lines(*d, p@));
            }
        },
        _ => {
            let mut line = p.to_owned();
            let t = decl_to_string(d);
            line.append(t.as_str());
            line.append(";");
            push_one(out, line);
            proof {
                assert(line_views(out@) =~= base + decl_lines(*d, p@));
            }
        },
    }
}

fn push_par_lines(par: &Parallel, p: &str, out: &mut Vec<String>)
    ensures
        line_views(final(out)@) == line_views(old(out)@) + par_lines(*par, p@),
{
    let ghost base = line_views(out@);
    match par {
        Parallel::Inst(inst) => {
            let ghost pre = out@;
            let mut lines = inst.render_lines(p);
            let ghost lv = lines@;
            out.append(&mut lines);
            proof {
                lemma_line_views_concat(pre, lv);
            }
        },
        Parallel::Assign(l, r) => {
            let mut line = p.to_owned();
            line.append("assign ");
            let lt = expr_to_string(l);
            line.append(lt.as_str());
            line.append(" = ");
            let rt = expr_to_string(r);
            line.append(rt.as_str());
            line.append(";");
            push_one(out, line);
            proof {
                assert(line_views(out@) =~= base + par_lines(*par, p@));
            }
        },
        Parallel::AlwaysComb(body) => {
            let mut head = p.to_owned();
            head.append("always_comb begin");
            push_one(out, head);
            let mut indent = p.to_owned();
            indent.append("    ");
            push_seq_list(body, indent.as_str(), out);
            let mut tail = p.to_owned();
            tail.append("end");
            push_one(out, tail);
            proof {
                assert(line_views(out@) =~= base + par_lines(*par, p@));
            }
        },
        Parallel::AlwaysFF(ev, body) => {
            let mut head = p.to_owned();
            head.append("always_ff @(");
            let et = event_to_string(ev);
            head.append(et.as_str());
            head.append(") begin");
            push_one(out, head);
            let mut indent = p.to_owned();
            indent.append("    ");
            push_seq_list(body, indent.as_str(), out);
            let mut tail = p.to_owned();
            tail.append("end");
            push_one(out, tail);
            proof {
                assert(line_views(out@) =~= base + par_lines(*par, p@));
            }
        },
    }
}

fn push_stmt_lines(s: &Stmt, out: &mut Vec<String>)
    requires
        stmt_wf(*s),
    ensures
        line_views(final(out)@) == line_views(old(out)@) + stmt_lines(*s, "    "@),
{
    match s {
        GenericStmt::Decl(d) => {
            push_decl_lines(d, "    ", out);
        },
        GenericStmt::Parallel(par) => {
            push_par_lines(par, "    ", out);
        },
    }
}

fn push_param_lines(ps: &Vec<Decl>, out: &mut Vec<String>)
    requires
        forall|i: int| 0 <= i < ps@.len() ==> simple_decl_wf(#[trigger] ps@[i]),
    ensures
        line_views(final(out)@) == line_views(old(out)@) + param_lines(ps@, 0),
{
    let mut i: usize = 0;
    while i < ps.len()
        invariant
            i <= ps@.len(),
            forall|j: int| 0 <= j < ps@.len() ==> simple_decl_wf(#[trigger] ps@[j]),
            line_views(out@) + param_lines(ps@, i as int) == line_views(old(out)@) + param_lines(
                ps@,
                0,
            ),
        decreases ps@.len() - i,
    {
        let ghost pre = line_views(out@);
        let mut line = "    ".to_owned();
        let t = decl_to_string(&ps[i]);
        line.append(t.as_str());
        if i + 1 < ps.len() {
            line.append(",");
        }
        let ghost lv = line@;
        push_one(out, line);
        proof {
            let sline = "    "@ + decl_text(ps@[i as int]) + (if i as int == ps@.len() - 1 {
                Seq::<char>::empty()
            } else {
                ","@
            });
            assert(lv =~= sline);
            assert(pre.push(lv) + param_lines(ps@, i as int + 1) =~= pre + param_lines(
                ps@,
                i as int,
            ));
        }
        i += 1;
    }
    proof {
        assert(line_views(out@) + param_lines(ps@, ps@.len() as int) =~= line_views(out@));
    }
}

fn push_port_lines(ps: &Vec<Port>, out: &mut Vec<String>)
    requires
        forall|i: int| 0 <= i < ps@.len() ==> port_wf(#[trigger] ps@[i]),
    ensures
        line_views(final(out)@) == line_views(old(out)@) + port_lines(ps@, 0),
{
    let mut i: usize = 0;
    while i < ps.len()
        invariant
            i <= ps@.len(),
            forall|j: int| 0 <= j < ps@.len() ==> port_wf(#[trigger] ps@[j]),
            line_views(out@) + port_lines(ps@, i as int) == line_views(old(out)@) + port_lines(
                ps@,
                0,
            ),
        decreases ps@.len() - i,
    {
        let ghost pre = line_views(out@);
        let mut line = "    ".to_owned();
        let t = port_to_string(&ps[i]);
        line.append(t.as_str());
        if i + 1 < ps.len() {
            line.append(",");
        }
        let ghost lv = line@;
        push_one(out, line);
        proof {
            let sline = "    "@ + port_text(ps@[i as int]) + (if i as int == ps@.len() - 1 {
                Seq::<char>::empty()
            } else {
                ","@
            });
            assert(lv =~= sline);
            assert(pre.push(lv) + port_lines(ps@, i as int + 1) =~= pre + port_lines(
                ps@,
                i as int,
            ));
        }
        i += 1;
    }
    proof {
        assert(line_views(out@) + port_lines(ps@, ps@.len() as int) =~= line_views(out@));
    }
}

fn push_body_lines(b: &Vec<Stmt>, out: &mut Vec<String>)
    requires
        forall|i: int| 0 <= i < b@.len() ==> stmt_wf(#[trigger] b@[i]),
    ensures
        line_views(final(out)@) == line_views(old(out)@) + body_lines(b@, 0),
{
    let mut i: usize = 0;
    while i < b.len()
        invariant
            i <= b@.len(),
            forall|j: int| 0 <= j < b@.len() ==> stmt_wf(#[trigger] b@[j]),
            line_views(out@) + body_lines(b@, i as int) == line_views(old(out)@) + body_lines(
                b@,
                0,
            ),
        decreases b@.len() - i,
    {
        let ghost pre = line_views(out@);
        push_stmt_lines(&b[i], out);
        proof {
            lemma_concat_assoc(pre, stmt_lines(b@[i as int], "    "@), body_lines(b@, i as int + 1));
        }
        i += 1;
    }
    proof {
        assert(line_views(out@) + body_lines(b@, b@.len() as int) =~= line_views(out@));
    }
}

impl Module {
    fn render_lines(&self) -> (v: Vec<String>)
        requires
            module_wf(*self),
        ensures
            line_views(v@) == module_lines(*self),
    {
        let mut out: Vec<String> = Vec::new();
        proof {
            assert(line_views(out@) =~= Seq::<Seq<char>>::empty());
        }
        if self.params.len() == 0 {
            let mut h = "module ".to_owned();
            h.append(self.name.as_str());
            h.append(" (");
            push_one(&mut out, h);
            proof {
                assert(line_views(out@) =~= seq!["module "@ + self.name@ + " ("@]);
            }
        } else {
            let mut h = "module ".to_owned();
            h.append(self.name.as_str());
            h.append(" #(");
            push_one(&mut out, h);
            proof {
                assert(line_views(out@) =~= seq!["module "@ + self.name@ + " #("@]);
            }
            push_param_lines(&self.params, &mut out);
            push_one(&mut out, ") (".to_owned());
            proof {
                assert(line_views(out@) =~= seq!["module "@ + self.name@ + " #("@] + param_lines(
                    self.params@,
                    0,
                ) + seq![") ("@]);
            }
        }
        let ghost head = line_views(out@);
        push_port_lines(&self.ports, &mut out);
        push_one(&mut out, ");".to_owned());
        proof {
            assert(line_views(out@) =~= head + port_lines(self.ports@, 0) + seq![");"@]);
        }
        let ghost mid = line_views(out@);
        push_body_lines(&self.body, &mut out);
        push_one(&mut out, "endmodule".to_owned());
        proof {
            assert(line_views(out@) =~= mid + body_lines(self.body@, 0) + seq!["endmodule"@]);
            assert(line_views(out@) =~= module_lines(*self));
        }
        out
    }

    /// Renders the module as a document: text lines joined by hard breaks.
    pub fn to_doc(&self) -> (d: Doc)
        requires
            module_wf(*self),
        ensures
            doc_plain(d.dv()),
            doc_flat(d.dv()) == join_lines(module_lines(*self)),
    {
        let lines = self.render_lines();
        lines_to_doc(&lines)
    }

    /// The module's text under a width budget.
    pub fn to_pretty_with_width(&self, width: usize) -> (r: String)
        requires
            module_wf(*self),
        ensures
            r@ == join_lines(module_lines(*self)),
    {
        render_doc(&self.to_doc(), width)
    }

    /// The module's text under the default width budget.
    pub fn to_pretty(&self) -> (r: String)
        requires
            module_wf(*self),
        ensures
            r@ == join_lines(module_lines(*self)),
    {
        self.to_pretty_with_width(100)
    }
}

} // verus!
