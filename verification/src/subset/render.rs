//! Renderers for the shared syntax: expressions and instances.
//!
//! Expressions render to single-line text; an instance renders to a list
//! of lines with its bindings in name-sorted order. Every contract pins
//! the produced text exactly.

use vstd::prelude::*;
use vstd::string::StringExecFns;
use crate::doc::{Doc, doc_flat, doc_plain, join_lines, line_views, lines_to_doc};
use crate::doc::{lemma_line_views_push, lemma_push_mid};
use crate::layout::render_doc;
use crate::strutil::{dec_text, int_text, u64_to_dec, i32_to_dec};
use crate::subset::ast::{Binop, Expr, ExprMap, Instance, Radix, Terop, Unop};
use crate::subset::ast::lemma_map_view_determines_entries;

verus! {

/// The render table of the unary operators.
pub open spec fn unop_sym(op: Unop) -> Seq<char> {
    match op {
        Unop::LogNot => "!"@,
        Unop::Not => "~"@,
        Unop::And => "&"@,
        Unop::Nand => "~&"@,
        Unop::Or => "|"@,
        Unop::Nor => "~|"@,
        Unop::Xor => "^"@,
        Unop::Xnor => "~^"@,
    }
}

/// The unary render table maps distinct operators to distinct symbols:
/// with totality this makes it a bijection between the tag set and the
/// symbol set.
pub proof fn lemma_unop_sym_injective(a: Unop, b: Unop)
    ensures
        unop_sym(a) == unop_sym(b) ==> a == b,
{
    reveal_strlit("!");
    reveal_strlit("~");
    reveal_strlit("&");
    reveal_strlit("~&");
    reveal_strlit("|");
    reveal_strlit("~|");
    reveal_strlit("^");
    reveal_strlit("~^");
    if unop_sym(a) == unop_sym(b) {
        assert(unop_sym(a).len() == unop_sym(b).len());
        assert(unop_sym(a)[0] == unop_sym(b)[0]);
        if unop_sym(a).len() == 2 {
            assert(unop_sym(a)[1] == unop_sym(b)[1]);
        }
    }
}

/// The render table of the binary operators; the bit index renders as a
/// bracketed suffix instead of an infix symbol.
pub open spec fn binop_sym(op: Binop) -> Seq<char> {
    match op {
        Binop::LogOr => "||"@,
        Binop::LogAnd => "&&"@,
        Binop::And => "&"@,
        Binop::Add => "+"@,
        Binop::Mul => "*"@,
        Binop::Gt => ">"@,
        Binop::Lt => "<"@,
        Binop::Geq => ">="@,
        Binop::Leq => "<="@,
        Binop::Equal => "=="@,
        Binop::NotEqual => "!="@,
        Binop::IndexBit => Seq::empty(),
    }
}

/// The marker of a literal's numeral base.
pub open spec fn radix_sym(r: Radix) -> Seq<char> {
    match r {
        Radix::Dec => "'d"@,
        Radix::Bin => "'b"@,
        Radix::Hex => "'h"@,
    }
}

/// The text of an expression. The tree encodes grouping structurally, so
/// each node renders through a fixed template.
pub open spec fn expr_text(e: Expr) -> Seq<char>
    decreases e, 0int, 0int,
{
    match e {
        Expr::Ref(id) => id@,
        Expr::Int(v) => int_text(v as int),
        Expr::ULit(w, r, digits) => dec_text(w as nat) + radix_sym(r) + digits@,
        Expr::Str(s) => "\""@ + s@ + "\""@,
        Expr::Signed(a) => "$signed("@ + expr_text(*a) + ")"@,
        Expr::IPath(p, idx) => match idx {
            Option::None => ids_text(p.path@, 0),
            Option::Some(b) => ids_text(p.path@, 0) + "["@ + expr_text(*b) + "]"@,
        },
        Expr::Unop(op, a) => unop_sym(op) + expr_text(*a),
        Expr::Binop(op, a, b) => match op {
            Binop::IndexBit => expr_text(*a) + "["@ + expr_text(*b) + "]"@,
            _ => expr_text(*a) + " "@ + binop_sym(op) + " "@ + expr_text(*b),
        },
        Expr::Terop(op, a, b, c) => match op {
            Terop::Mux => expr_text(*a) + " ? "@ + expr_text(*b) + " : "@ + expr_text(*c),
            Terop::Slice => expr_text(*a) + "["@ + expr_text(*b) + ":"@ + expr_text(*c) + "]"@,
            Terop::IndexSlice => expr_text(*a) + "["@ + expr_text(*b) + " +: "@ + expr_text(*c)
                + "]"@,
        },
        Expr::Concat(c) => "{"@ + exprs_text(c.exprs@, 0) + "}"@,
        Expr::Call(id, args) => id@ + "("@ + exprs_text(args@, 0) + ")"@,
    }
}

/// The comma-joined texts of the expressions from position `i` on.
pub open spec fn exprs_text(s: Seq<Expr>, i: int) -> Seq<char>
    decreases s, 1int, s.len() - i,
{
    if i < 0 || i >= s.len() {
        Seq::empty()
    } else if i == s.len() - 1 {
        expr_text(s[i])
    } else {
        expr_text(s[i]) + ", "@ + exprs_text(s, i + 1)
    }
}

/// The dot-joined names from position `i` on.
pub open spec fn ids_text(s: Seq<String>, i: int) -> Seq<char>
    decreases s.len() - i,
{
    if i < 0 || i >= s.len() {
        Seq::empty()
    } else if i == s.len() - 1 {
        s[i]@
    } else {
        s[i]@ + "."@ + ids_text(s, i + 1)
    }
}

fn unop_sym_str(op: &Unop) -> (s: &'static str)
    ensures
        s@ == unop_sym(*op),
{
    match op {
        Unop::LogNot => "!",
        Unop::Not => "~",
        Unop::And => "&",
        Unop::Nand => "~&",
        Unop::Or => "|",
        Unop::Nor => "~|",
        Unop::Xor => "^",
        Unop::Xnor => "~^",
    }
}

fn binop_sym_str(op: &Binop) -> (s: &'static str)
    requires
        !(op is IndexBit),
    ensures
        s@ == binop_sym(*op),
{
    match op {
        Binop::LogOr => "||",
        Binop::LogAnd => "&&",
        Binop::And => "&",
        Binop::Add => "+",
        Binop::Mul => "*",
        Binop::Gt => ">",
        Binop::Lt => "<",
        Binop::Geq => ">=",
        Binop::Leq => "<=",
        Binop::Equal => "==",
        Binop::NotEqual => "!=",
        Binop::IndexBit => "",
    }
}

fn radix_sym_str(r: &Radix) -> (s: &'static str)
    ensures
        s@ == radix_sym(*r),
{
    match r {
        Radix::Dec => "'d",
        Radix::Bin => "'b",
        Radix::Hex => "'h",
    }
}

/// Renders an expression as text.
pub fn expr_to_string(e: &Expr) -> (r: String)
    ensures
        r@ == expr_text(*e),
    decreases *e, 0int, 0int,
{
    match e {
        Expr::Ref(id) => id.clone(),
        Expr::Int(v) => i32_to_dec(*v),
        Expr::ULit(w, rad, digits) => {
            let mut s = u64_to_dec(*w as u64);
            s.append(radix_sym_str(rad));
            s.append(digits.as_str());
            s
        },
        Expr::Str(v) => {
            let mut s = "\"".to_owned();
            s.append(v.as_str());
            s.append("\"");
            s
        },
        Expr::Signed(a) => {
            let mut s = "$signed(".to_owned();
            let inner = expr_to_string(&**a);
            s.append(inner.as_str());
            s.append(")");
            s
        },
        Expr::IPath(p, idx) => {
            let mut s = ids_to_string(&p.path, 0);
            match idx {
                Option::None => {},
                Option::Some(b) => {
                    s.append("[");
                    let t = expr_to_string(&**b);
                    s.append(t.as_str());
                    s.append("]");
                },
            }
            s
        },
        Expr::Unop(op, a) => {
            let mut s = unop_sym_str(op).to_owned();
            let inner = expr_to_string(&**a);
            s.append(inner.as_str());
            s
        },
        Expr::Binop(op, a, b) => {
            match op {
                Binop::IndexBit => {
                    let mut s = expr_to_string(&**a);
                    s.append("[");
                    let t = expr_to_string(&**b);
                    s.append(t.as_str());
                    s.append("]");
                    s
                },
                _ => {
                    let mut s = expr_to_string(&**a);
                    s.append(" ");
                    s.append(binop_sym_str(op));
                    s.append(" ");
                    let t = expr_to_string(&**b);
                    s.append(t.as_str());
                    s
                },
            }
        },
        Expr::Terop(op, a, b, c) => {
            match op {
                Terop::Mux => {
                    let mut s = expr_to_string(&**a);
                    s.append(" ? ");
                    let t = expr_to_string(&**b);
                    s.append(t.as_str());
                    s.append(" : ");
                    let u = expr_to_string(&**c);
                    s.append(u.as_str());
                    s
                },
                Terop::Slice => {
                    let mut s = expr_to_string(&**a);
                    s.append("[");
                    let t = expr_to_string(&**b);
                    s.append(t.as_str());
                    s.append(":");
                    let u = expr_to_string(&**c);
                    s.append(u.as_str());
                    s.append("]");
                    s
                },
                Terop::IndexSlice => {
                    let mut s = expr_to_string(&**a);
                    s.append("[");
                    let t = expr_to_string(&**b);
                    s.append(t.as_str());
                    s.append(" +: ");
                    let u = expr_to_string(&**c);
                    s.append(u.as_str());
                    s.append("]");
                    s
                },
            }
        },
        Expr::Concat(c) => {
            let mut s = "{".to_owned();
            let t = exprs_to_string(&c.exprs, 0);
            s.append(t.as_str());
            s.append("}");
            s
        },
        Expr::Call(id, args) => {
            let mut s = id.clone();
            s.append("(");
            let t = exprs_to_string(args, 0);
            s.append(t.as_str());
            s.append(")");
            s
        },
    }
}

fn exprs_to_string(v: &Vec<Expr>, i: usize) -> (r: String)
    ensures
        r@ == exprs_text(v@, i as int),
    decreases v@, 1int, v@.len() - i,
{
    if i >= v.len() {
        String::new()
    } else if i == v.len() - 1 {
        expr_to_string(&v[i])
    } else {
        let mut s = expr_to_string(&v[i]);
        s.append(", ");
        let rest = exprs_to_string(v, i + 1);
        s.append(rest.as_str());
        s
    }
}

fn ids_to_string(v: &Vec<String>, i: usize) -> (r: String)
    ensures
        r@ == ids_text(v@, i as int),
    decreases v@.len() - i,
{
    if i >= v.len() {
        String::new()
    } else if i == v.len() - 1 {
        v[i].clone()
    } else {
        let mut s = v[i].clone();
        s.append(".");
        let rest = ids_to_string(v, i + 1);
        s.append(rest.as_str());
        s
    }
}

impl Expr {
    /// Renders the expression as a document.
    pub fn to_doc(&self) -> (d: Doc)
        ensures
            doc_plain(d.dv()),
            doc_flat(d.dv()) == expr_text(*self),
    {
        Doc::text(expr_to_string(self))
    }

    /// The expression's text, through the layout engine.
    pub fn to_pretty(&self) -> (r: String)
        ensures
            r@ == expr_text(*self),
    {
        render_doc(&self.to_doc(), 100)
    }
}

/// An indentation step under a prefix.
pub open spec fn ind(p: Seq<char>) -> Seq<char> {
    p + "    "@
}

/// The lines of a binding list from position `i` on: `.name(expr)`, a
/// comma after each binding but the last.
pub open spec fn bind_lines(bs: Seq<(Seq<char>, Expr)>, p: Seq<char>, i: int) -> Seq<Seq<char>>
    decreases bs.len() - i,
{
    if i < 0 || i >= bs.len() {
        Seq::empty()
    } else {
        let line = p + "."@ + bs[i].0 + "("@ + expr_text(bs[i].1) + ")"@ + (if i == bs.len() - 1 {
            Seq::<char>::empty()
        } else {
            ","@
        });
        seq![line] + bind_lines(bs, p, i + 1)
    }
}

/// The lines of an instance over the views of its parts: bindings in
/// name-sorted order, as they stand in storage.
pub open spec fn inst_lines_v(
    id: Seq<char>,
    prim: Seq<char>,
    params: Seq<(Seq<char>, Expr)>,
    ports: Seq<(Seq<char>, Expr)>,
    p: Seq<char>,
) -> Seq<Seq<char>> {
    (if params.len() == 0 {
        seq![p + prim + " "@ + id + " ("@]
    } else {
        seq![p + prim + " #("@] + bind_lines(params, ind(p), 0) + seq![p + ") "@ + id + " ("@]
    }) + bind_lines(ports, ind(p), 0) + seq![p + ");"@]
}

/// The lines of an instance under a prefix.
pub open spec fn inst_lines(inst: Instance, p: Seq<char>) -> Seq<Seq<char>> {
    inst_lines_v(inst.id@, inst.prim@, inst.params.entries_view(), inst.ports.entries_view(), p)
}

fn push_bind_lines(m: &ExprMap, p: &str, out: &mut Vec<String>)
    ensures
        line_views(final(out)@) == line_views(old(out)@) + bind_lines(m.entries_view(), p@, 0),
{
    let ghost bs = m.entries_view();
    let n = m.len();
    let mut i: usize = 0;
    while i < n
        invariant
            n == bs.len(),
            bs == m.entries_view(),
            i <= n,
            line_views(out@) + bind_lines(bs, p@, i as int) == line_views(old(out)@) + bind_lines(
                bs,
                p@,
                0,
            ),
        decreases n - i,
    {
        let e = m.entry_at(i);
        let mut line = p.to_owned();
        line.append(".");
        line.append(e.0.as_str());
        line.append("(");
        let t = expr_to_string(&e.1);
        line.append(t.as_str());
        line.append(")");
        if i + 1 < n {
            line.append(",");
        }
        let ghost lv = line@;
        let ghost pre = out@;
        out.push(line);
        proof {
            let sline = p@ + "."@ + bs[i as int].0 + "("@ + expr_text(bs[i as int].1) + ")"@ + (
            if i as int == bs.len() - 1 {
                Seq::<char>::empty()
            } else {
                ","@
            });
            assert(lv =~= sline);
            lemma_line_views_push(pre, out@[out@.len() - 1]);
            assert(line_views(out@) == line_views(pre).push(lv));
            lemma_push_mid(line_views(pre), sline, bind_lines(bs, p@, i as int + 1));
            assert(seq![sline] + bind_lines(bs, p@, i as int + 1) == bind_lines(bs, p@, i as int));
        }
        i += 1;
    }
    proof {
        assert(line_views(out@) =~= line_views(out@) + bind_lines(bs, p@, n as int));
    }
}

impl Instance {
    pub(crate) fn render_lines(&self, p: &str) -> (v: Vec<String>)
        ensures
            line_views(v@) == inst_lines(*self, p@),
    {
        let mut out: Vec<String> = Vec::new();
        let ghost params = self.params.entries_view();
        let ghost ports = self.ports.entries_view();
        let indent = {
            let mut q = p.to_owned();
            q.append("    ");
            q
        };
        if self.params.len() == 0 {
            let mut line = p.to_owned();
            line.append(self.prim.as_str());
            line.append(" ");
            line.append(self.id.as_str());
            line.append(" (");
            let ghost lv = line@;
            out.push(line);
            proof {
                lemma_line_views_push(Seq::empty(), out@[0]);
                assert(line_views(Seq::<String>::empty()) =~= Seq::<Seq<char>>::empty());
                assert(line_views(out@) =~= seq![lv]);
            }
        } else {
            let mut line = p.to_owned();
            line.append(self.prim.as_str());
            line.append(" #(");
            let ghost lv = line@;
            out.push(line);
            proof {
                lemma_line_views_push(Seq::empty(), out@[0]);
                assert(line_views(Seq::<String>::empty()) =~= Seq::<Seq<char>>::empty());
                assert(line_views(out@) =~= seq![lv]);
            }
            push_bind_lines(&self.params, indent.as_str(), &mut out);
            let mut close = p.to_owned();
            close.append(") ");
            close.append(self.id.as_str());
            close.append(" (");
            let ghost cv = close@;
            let ghost pre = out@;
            out.push(close);
            proof {
                lemma_line_views_push(pre, out@[out@.len() - 1]);
                assert(line_views(out@) =~= (seq![lv] + bind_lines(params, ind(p@), 0)).push(cv));
                assert((seq![lv] + bind_lines(params, ind(p@), 0)).push(cv) =~= seq![lv]
                    + bind_lines(params, ind(p@), 0) + seq![cv]);
            }
        }
        let ghost head = line_views(out@);
        push_bind_lines(&self.ports, indent.as_str(), &mut out);
        let mut tail = p.to_owned();
        tail.append(");");
        let ghost tv = tail@;
        let ghost pre2 = out@;
        out.push(tail);
        proof {
            lemma_line_views_push(pre2, out@[out@.len() - 1]);
            assert(line_views(out@) =~= head + bind_lines(ports, ind(p@), 0) + seq![tv]);
            assert(line_views(out@) =~= inst_lines(*self, p@));
        }
        out
    }

    /// Renders the instance as a document: one line per binding, bindings
    /// in name-sorted order.
    pub fn to_doc(&self) -> (d: Doc)
        ensures
            doc_plain(d.dv()),
            doc_flat(d.dv()) == join_lines(inst_lines(*self, Seq::empty())),
    {
        proof {
            reveal_strlit("");
            assert(("")@ =~= Seq::<char>::empty());
        }
        let lines = self.render_lines("");
        lines_to_doc(&lines)
    }

    /// The instance's text, through the layout engine.
    pub fn to_pretty(&self) -> (r: String)
        ensures
            r@ == join_lines(inst_lines(*self, Seq::empty())),
    {
        render_doc(&self.to_doc(), 100)
    }
}

/// Binding insertion order leaves no trace in rendered text: two instances
/// that hold the same bindings render the same lines, because bindings
/// render in name-sorted order from unordered maps.
pub proof fn lemma_inst_text_order_independent(a: Instance, b: Instance, p: Seq<char>)
    requires
        a.id@ == b.id@,
        a.prim@ == b.prim@,
        a.params.wf(),
        b.params.wf(),
        a.params@ == b.params@,
        a.ports.wf(),
        b.ports.wf(),
        a.ports@ == b.ports@,
    ensures
        inst_lines(a, p) == inst_lines(b, p),
{
    lemma_map_view_determines_entries(a.params, b.params);
    lemma_map_view_determines_entries(a.ports, b.ports);
}

} // verus!
