//! Abstract layout documents.
//!
//! A renderer turns syntax nodes into a `Doc`: literal text, concatenation,
//! hard line breaks, soft line breaks, grouped blocks and indented blocks.
//! The layout engine (see `layout`) turns a `Doc` plus a width budget into
//! text. The contracts here speak about `DocV`, the mathematical shape of a
//! document.

use vstd::prelude::*;

verus! {

/// The mathematical shape of an abstract document.
pub enum DocV {
    Nil,
    Text(Seq<char>),
    Line,
    Hardline,
    Concat(Box<DocV>, Box<DocV>),
    Group(Box<DocV>),
    Nest(nat, Box<DocV>),
}

/// The text of a document when every soft break prints as a space and every
/// hard break prints as a newline.
pub open spec fn doc_flat(d: DocV) -> Seq<char>
    decreases d,
{
    match d {
        DocV::Nil => Seq::empty(),
        DocV::Text(s) => s,
        DocV::Line => seq![' '],
        DocV::Hardline => seq!['\n'],
        DocV::Concat(a, b) => doc_flat(*a) + doc_flat(*b),
        DocV::Group(a) => doc_flat(*a),
        DocV::Nest(_n, a) => doc_flat(*a),
    }
}

/// A plain document holds no soft break, group or indentation, so the layout
/// engine prints it the same way under every width budget: exactly its flat
/// text.
pub open spec fn doc_plain(d: DocV) -> bool
    decreases d,
{
    match d {
        DocV::Nil => true,
        DocV::Text(_s) => true,
        DocV::Line => false,
        DocV::Hardline => true,
        DocV::Concat(a, b) => doc_plain(*a) && doc_plain(*b),
        DocV::Group(_a) => false,
        DocV::Nest(_n, _a) => false,
    }
}

/// An abstract document: what every render path produces and the layout
/// engine consumes.
#[derive(Debug)]
pub enum Doc {
    Nil,
    Text(String),
    Line,
    Hardline,
    Concat(Box<Doc>, Box<Doc>),
    Group(Box<Doc>),
    Nest(usize, Box<Doc>),
}

impl Doc {
    /// The shape of this document.
    pub open spec fn dv(self) -> DocV
        decreases self,
    {
        match self {
            Doc::Nil => DocV::Nil,
            Doc::Text(s) => DocV::Text(s@),
            Doc::Line => DocV::Line,
            Doc::Hardline => DocV::Hardline,
            Doc::Concat(a, b) => DocV::Concat(Box::new((*a).dv()), Box::new((*b).dv())),
            Doc::Group(a) => DocV::Group(Box::new((*a).dv())),
            Doc::Nest(n, a) => DocV::Nest(n as nat, Box::new((*a).dv())),
        }
    }

    /// The empty document.
    pub fn nil() -> (d: Doc)
        ensures
            d.dv() == DocV::Nil,
    {
        Doc::Nil
    }

    /// A literal text leaf.
    pub fn text(s: String) -> (d: Doc)
        ensures
            d.dv() == DocV::Text(s@),
    {
        Doc::Text(s)
    }

    /// A soft line break: a space when its group fits, a newline otherwise.
    pub fn line() -> (d: Doc)
        ensures
            d.dv() == DocV::Line,
    {
        Doc::Line
    }

    /// A hard line break: always a newline.
    pub fn hardline() -> (d: Doc)
        ensures
            d.dv() == DocV::Hardline,
    {
        Doc::Hardline
    }

    /// `self` followed by `other`.
    pub fn cat(self, other: Doc) -> (d: Doc)
        ensures
            d.dv() == DocV::Concat(Box::new(self.dv()), Box::new(other.dv())),
            doc_flat(d.dv()) == doc_flat(self.dv()) + doc_flat(other.dv()),
            doc_plain(d.dv()) == (doc_plain(self.dv()) && doc_plain(other.dv())),
    {
        Doc::Concat(Box::new(self), Box::new(other))
    }

    /// A group: kept on one line when it fits the width budget.
    pub fn group(self) -> (d: Doc)
        ensures
            d.dv() == DocV::Group(Box::new(self.dv())),
    {
        Doc::Group(Box::new(self))
    }

    /// An indented block: line breaks inside it indent by `n` columns.
    pub fn nest(self, n: usize) -> (d: Doc)
        ensures
            d.dv() == DocV::Nest(n as nat, Box::new(self.dv())),
    {
        Doc::Nest(n, Box::new(self))
    }
}

/// The texts of a list of lines.
pub open spec fn line_views(s: Seq<String>) -> Seq<Seq<char>> {
    s.map_values(|l: String| l@)
}

/// Lines joined by newlines, no trailing newline.
pub open spec fn join_lines(ls: Seq<Seq<char>>) -> Seq<char>
    decreases ls.len(),
{
    if ls.len() == 0 {
        Seq::empty()
    } else if ls.len() == 1 {
        ls[0]
    } else {
        join_lines(ls.drop_last()) + seq!['\n'] + ls.last()
    }
}

pub proof fn lemma_line_views_push(s: Seq<String>, l: String)
    ensures
        line_views(s.push(l)) == line_views(s).push(l@),
{
    assert(line_views(s.push(l)) =~= line_views(s).push(l@));
}

pub proof fn lemma_push_mid(a: Seq<Seq<char>>, x: Seq<char>, b: Seq<Seq<char>>)
    ensures
        a.push(x) + b == a + (seq![x] + b),
{
    assert(a.push(x) + b =~= a + (seq![x] + b));
}

pub proof fn lemma_line_views_concat(a: Seq<String>, b: Seq<String>)
    ensures
        line_views(a + b) == line_views(a) + line_views(b),
{
    assert(line_views(a + b) =~= line_views(a) + line_views(b));
}

pub proof fn lemma_concat_assoc<A>(a: Seq<A>, b: Seq<A>, c: Seq<A>)
    ensures
        (a + b) + c == a + (b + c),
{
    assert((a + b) + c =~= a + (b + c));
}

/// Turns a list of lines into a document: text leaves joined by hard
/// breaks.
pub fn lines_to_doc(v: &Vec<String>) -> (d: Doc)
    ensures
        doc_plain(d.dv()),
        doc_flat(d.dv()) == join_lines(line_views(v@)),
{
    let mut d = Doc::nil();
    let mut i: usize = 0;
    while i < v.len()
        invariant
            i <= v@.len(),
            doc_plain(d.dv()),
            doc_flat(d.dv()) == join_lines(line_views(v@).take(i as int)),
        decreases v@.len() - i,
    {
        let ghost lv = line_views(v@);
        if i > 0 {
            d = d.cat(Doc::hardline());
        }
        d = d.cat(Doc::text(v[i].clone()));
        proof {
            assert(lv.take(i as int + 1).drop_last() =~= lv.take(i as int));
            assert(lv.take(i as int + 1).last() == v@[i as int]@);
            assert(lv.take(i as int + 1).len() == i + 1);
            if i == 0 {
                assert(Seq::empty() + v@[0]@ =~= v@[0]@);
            }
        }
        i += 1;
    }
    proof {
        assert(line_views(v@).take(v@.len() as int) =~= line_views(v@));
    }
    d
}

} // verus!
