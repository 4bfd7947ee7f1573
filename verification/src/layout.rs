//! The boundary to the external layout engine (the `pretty` crate).
//!
//! The engine takes an abstract document and a positive maximum column
//! width and returns text: a group stays on one line when it fits the
//! budget, otherwise it breaks across indented lines. The layout itself is
//! deterministic: it depends on the document and the width alone, which is
//! what `layout_of` names.

use vstd::prelude::*;
use crate::doc::{Doc, doc_flat, doc_plain};
use crate::doc::DocV;

verus! {

/// The text that the layout engine prints for a document under a width
/// budget. Named, not spelled out: the line-breaking algorithm belongs to
/// the engine; it is a pure function of the document and the width.
pub uninterp spec fn layout_of(d: DocV, width: usize) -> Seq<char>;

#[verifier::external_type_specification]
#[verifier::external_body]
#[verifier::reject_recursive_types(A)]
pub struct ExRcDoc<'a, A>(pretty::RcDoc<'a, A>);

/// Relies on pretty's document constructors (`RcDoc::nil`, `text`, `line`,
/// `hardline`, `append`, `group`, `nest`): builds the engine's document with
/// the same shape and the same text as `d`.
#[verifier::external_body]
fn to_rc_doc(d: &Doc) -> pretty::RcDoc<'static, ()> {
    match d {
        Doc::Nil => pretty::RcDoc::nil(),
        Doc::Text(s) => pretty::RcDoc::text(s.clone()),
        Doc::Line => pretty::RcDoc::line(),
        Doc::Hardline => pretty::RcDoc::hardline(),
        Doc::Concat(a, b) => to_rc_doc(a).append(to_rc_doc(b)),
        Doc::Group(a) => to_rc_doc(a).group(),
        Doc::Nest(n, a) => to_rc_doc(a).nest(*n as isize),
    }
}

/// Relies on pretty's `Doc::render`: a deterministic, width-budgeted layout
/// of the document. Text nodes are written verbatim and a hard break is
/// written as a newline, so a plain document (no soft break, group or
/// indentation) prints exactly its flat text under every width budget.
#[verifier::external_body]
pub fn render_doc(d: &Doc, width: usize) -> (r: String)
    ensures
        r@ == layout_of(d.dv(), width),
        doc_plain(d.dv()) ==> r@ == doc_flat(d.dv()),
{
    let mut buf: Vec<u8> = Vec::new();
    to_rc_doc(d).render(width, &mut buf).unwrap();
    String::from_utf8(buf).unwrap()
}

/// Rendering the same tree twice with the same width budget yields
/// byte-identical text: the layout is a function of the document and the
/// width alone, so there is no hidden state to change between two calls.
pub proof fn lemma_layout_deterministic(d1: DocV, d2: DocV, w1: usize, w2: usize)
    requires
        d1 == d2,
        w1 == w2,
    ensures
        layout_of(d1, w1) == layout_of(d2, w2),
{
}

} // verus!
