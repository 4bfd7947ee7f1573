//! Dialect-independent vocabulary: names, bit-widths, the unary reduce
//! operators and a minimal expression shape, with their renderers.

use vstd::prelude::*;
use vstd::string::StringExecFns;
use crate::doc::{Doc, doc_flat, doc_plain};
use crate::layout::render_doc;
use crate::strutil::{dec_text, u64_to_dec};

verus! {

/// An opaque name; value equality, no scoping rules.
pub type Id = String;

/// A bit-count; every meaningful width is at least one.
pub type Width = u64;

/// The range suffix of a width: nothing for a scalar, `[w-1:0]` for a
/// multi-bit value.
pub open spec fn width_text(w: nat) -> Seq<char> {
    if w <= 1 {
        Seq::empty()
    } else {
        "["@ + dec_text((w - 1) as nat) + ":0]"@
    }
}

/// Renders a width as its range suffix. A zero width is meaningless; it is
/// a caller error and is ruled out here as it is at construction.
pub fn width_to_doc(w: &Width) -> (d: Doc)
    requires
        *w >= 1,
    ensures
        doc_plain(d.dv()),
        doc_flat(d.dv()) == width_text(*w as nat),
{
    if *w == 1 {
        Doc::text(String::new())
    } else {
        let mut s = "[".to_owned();
        let digits = u64_to_dec(*w - 1);
        s.append(digits.as_str());
        s.append(":0]");
        Doc::text(s)
    }
}

/// The unary reduce and negation operators.
#[derive(Clone, Debug)]
pub enum Unop {
    LogicalNegation,
    BitwiseNegation,
    BitwiseAnd,
    BitwiseNand,
    BitwiseOr,
    BitwiseNor,
    BitwiseXor,
    BitwiseXnor,
}

/// The fixed render table of the unary operators.
pub open spec fn unop_text(op: Unop) -> Seq<char> {
    match op {
        Unop::LogicalNegation => "!"@,
        Unop::BitwiseNegation => "~"@,
        Unop::BitwiseAnd => "&"@,
        Unop::BitwiseNand => "~&"@,
        Unop::BitwiseOr => "|"@,
        Unop::BitwiseNor => "~|"@,
        Unop::BitwiseXor => "^"@,
        Unop::BitwiseXnor => "~^"@,
    }
}

impl Unop {
    /// Renders the operator's symbol.
    pub fn to_doc(&self) -> (d: Doc)
        ensures
            doc_plain(d.dv()),
            doc_flat(d.dv()) == unop_text(*self),
    {
        let s: &str = match self {
            Unop::LogicalNegation => "!",
            Unop::BitwiseNegation => "~",
            Unop::BitwiseAnd => "&",
            Unop::BitwiseNand => "~&",
            Unop::BitwiseOr => "|",
            Unop::BitwiseNor => "~|",
            Unop::BitwiseXor => "^",
            Unop::BitwiseXnor => "~^",
        };
        Doc::text(s.to_owned())
    }

    /// The operator's symbol as text, through the layout engine.
    pub fn to_pretty(&self) -> (r: String)
        ensures
            r@ == unop_text(*self),
    {
        render_doc(&self.to_doc(), 100)
    }
}

/// The unary render table maps distinct operators to distinct symbols: with
/// totality this makes it a bijection between the tag set and the symbol
/// set.
pub proof fn lemma_unop_table_injective(a: Unop, b: Unop)
    ensures
        unop_text(a) == unop_text(b) ==> a == b,
{
    reveal_strlit("!");
    reveal_strlit("~");
    reveal_strlit("&");
    reveal_strlit("~&");
    reveal_strlit("|");
    reveal_strlit("~|");
    reveal_strlit("^");
    reveal_strlit("~^");
    if unop_text(a) == unop_text(b) {
        assert(unop_text(a).len() == unop_text(b).len());
        assert(unop_text(a)[0] == unop_text(b)[0]);
        if unop_text(a).len() == 2 {
            assert(unop_text(a)[1] == unop_text(b)[1]);
        }
    }
}

/// The range suffix of a sized declaration: empty for width one, `[w-1:0]`
/// above one; a zero width is excluded at construction and at rendering.
pub proof fn lemma_width_range(w: Width)
    requires
        w >= 1,
    ensures
        w == 1 ==> width_text(w as nat) == Seq::<char>::empty(),
        w > 1 ==> width_text(w as nat) == "["@ + dec_text((w - 1) as nat) + ":0]"@,
{
}

/// A minimal expression: a name, or a unary operator applied to one.
#[derive(Debug)]
pub enum Expr {
    Ref(Id),
    Unop(Unop, Box<Expr>),
}

/// The text of an expression: operators render prefix-adjacent with no
/// separator.
pub open spec fn expr_text(e: Expr) -> Seq<char>
    decreases e,
{
    match e {
        Expr::Ref(name) => name@,
        Expr::Unop(op, arg) => unop_text(op) + expr_text(*arg),
    }
}

impl Expr {
    /// Renders the expression.
    pub fn to_doc(&self) -> (d: Doc)
        ensures
            doc_plain(d.dv()),
            doc_flat(d.dv()) == expr_text(*self),
        decreases *self,
    {
        match self {
            Expr::Ref(name) => Doc::text(name.clone()),
            Expr::Unop(op, arg) => op.to_doc().cat((&**arg).to_doc()),
        }
    }

    /// The expression's text, through the layout engine.
    pub fn to_pretty(&self) -> (r: String)
        ensures
            r@ == expr_text(*self),
    {
        render_doc(&self.to_doc(), 100)
    }
}

/// A module item: a declaration or a concurrent statement.
#[derive(Clone, Debug)]
pub enum GenericStmt<T, U> {
    Decl(T),
    Par(U),
}

/// The minimal module shape: an ordered statement list.
#[derive(Clone, Debug)]
pub struct GenericModule<T, U> {
    pub stmt: Vec<GenericStmt<T, U>>,
}

} // verus!
