//! The shared abstract syntax: operators, expressions, attributes,
//! instances and the generic module shapes.

use vstd::prelude::*;
use crate::strutil::{
    lex_lt, lemma_lex_irrefl, lemma_lex_asym, lemma_lex_total, lemma_lex_trans, str_lt, str_eq,
};

verus! {

/// An opaque name; value equality, no scoping rules.
pub type Id = String;

/// The unary reduce and negation operators.
#[derive(Clone, Debug)]
pub enum Unop {
    LogNot,
    Not,
    And,
    Nand,
    Or,
    Nor,
    Xor,
    Xnor,
}

/// The binary operators.
#[derive(Clone, Debug)]
pub enum Binop {
    LogOr,
    LogAnd,
    And,
    Add,
    Mul,
    Gt,
    Lt,
    Geq,
    Leq,
    Equal,
    NotEqual,
    IndexBit,
}

/// The ternary operators: multiplexer, static slice, indexed slice.
#[derive(Clone, Debug)]
pub enum Terop {
    Mux,
    Slice,
    IndexSlice,
}

/// The numeral base of a sized literal's digits.
#[derive(Clone, Debug)]
pub enum Radix {
    Dec,
    Bin,
    Hex,
}

/// A hierarchical path through instances.
#[derive(Debug)]
pub struct InstancePath {
    pub path: Vec<Id>,
}

/// An ordered list of concatenated expressions.
#[derive(Debug)]
pub struct ExprConcat {
    pub exprs: Vec<Expr>,
}

/// An expression: an immutable, acyclic, purely syntactic tree.
#[derive(Debug)]
pub enum Expr {
    Ref(Id),
    Int(i32),
    ULit(u32, Radix, String),
    Str(String),
    Signed(Box<Expr>),
    IPath(InstancePath, Option<Box<Expr>>),
    Unop(Unop, Box<Expr>),
    Binop(Binop, Box<Expr>, Box<Expr>),
    Terop(Terop, Box<Expr>, Box<Expr>, Box<Expr>),
    Concat(ExprConcat),
    Call(Id, Vec<Expr>),
}

/// One annotation entry: a bare value or a key/value pair.
#[derive(Clone, Debug)]
pub enum AttributeTy {
    Val(String),
    Stmt(Id, String),
}

/// An ordered annotation list.
#[derive(Clone, Debug)]
pub struct Attribute {
    pub attrs: Vec<AttributeTy>,
}

impl Default for Attribute {
    /// The empty annotation list.
    fn default() -> (r: Attribute)
        ensures
            r.attrs@ == Seq::<AttributeTy>::empty(),
    {
        Attribute { attrs: Vec::new() }
    }
}

/// The edge of a triggering event.
#[derive(Clone, Debug)]
pub enum EventTy {
    Posedge,
    Negedge,
}

/// Whether a procedural assignment takes effect immediately or deferred.
#[derive(Clone, Debug)]
pub enum AssignTy {
    Blocking,
    NonBlocking,
}

/// A name-to-expression binding map. Storage keeps the bindings sorted by
/// name, so reading them out for rendering is deterministic whatever order
/// they were inserted in; the abstract value is the unordered map.
#[derive(Debug)]
pub struct ExprMap {
    entries: Vec<(String, Expr)>,
}

/// The views of a binding list: each name as its character sequence.
pub open spec fn entry_views(s: Seq<(String, Expr)>) -> Seq<(Seq<char>, Expr)> {
    s.map_values(|e: (String, Expr)| (e.0@, e.1))
}

/// Binding names strictly increase: sorted, and no name twice.
pub open spec fn keys_sorted(s: Seq<(String, Expr)>) -> bool {
    forall|i: int, j: int| 0 <= i < j < s.len() ==> lex_lt(s[i].0@, s[j].0@)
}

/// The unordered map a binding list stands for.
pub open spec fn as_map(s: Seq<(String, Expr)>) -> Map<Seq<char>, Expr>
    decreases s.len(),
{
    if s.len() == 0 {
        Map::empty()
    } else {
        as_map(s.drop_last()).insert(s.last().0@, s.last().1)
    }
}

proof fn lemma_as_map_contains_of_index(s: Seq<(String, Expr)>, i: int)
    requires
        0 <= i < s.len(),
    ensures
        as_map(s).contains_key(s[i].0@),
    decreases s.len(),
{
    if i < s.len() - 1 {
        lemma_as_map_contains_of_index(s.drop_last(), i);
    }
}

proof fn lemma_as_map_key_to_index(s: Seq<(String, Expr)>, k: Seq<char>)
    requires
        as_map(s).contains_key(k),
    ensures
        exists|i: int| 0 <= i < s.len() && s[i].0@ == k,
    decreases s.len(),
{
    if s.len() > 0 {
        if s.last().0@ == k {
            assert(s[s.len() - 1].0@ == k);
        } else {
            lemma_as_map_key_to_index(s.drop_last(), k);
            let i = choose|i: int| 0 <= i < s.drop_last().len() && s.drop_last()[i].0@ == k;
            assert(s[i].0@ == k);
        }
    }
}

proof fn lemma_as_map_drop_last(s: Seq<(String, Expr)>)
    requires
        keys_sorted(s),
        s.len() > 0,
    ensures
        !as_map(s.drop_last()).contains_key(s.last().0@),
        as_map(s.drop_last()) == as_map(s).remove(s.last().0@),
{
    let k = s.last().0@;
    if as_map(s.drop_last()).contains_key(k) {
        lemma_as_map_key_to_index(s.drop_last(), k);
        let i = choose|i: int| 0 <= i < s.drop_last().len() && s.drop_last()[i].0@ == k;
        assert(lex_lt(s[i].0@, k));
        lemma_lex_irrefl(k);
    }
    assert(as_map(s.drop_last()) =~= as_map(s).remove(k));
}

proof fn lemma_sorted_as_map_entries(s1: Seq<(String, Expr)>, s2: Seq<(String, Expr)>)
    requires
        keys_sorted(s1),
        keys_sorted(s2),
        as_map(s1) == as_map(s2),
    ensures
        entry_views(s1) == entry_views(s2),
    decreases s1.len(),
{
    if s1.len() == 0 {
        if s2.len() > 0 {
            lemma_as_map_contains_of_index(s2, s2.len() - 1);
        }
        assert(entry_views(s1) =~= entry_views(s2));
    } else if s2.len() == 0 {
        lemma_as_map_contains_of_index(s1, s1.len() - 1);
    } else {
        let k1 = s1.last().0@;
        let k2 = s2.last().0@;
        lemma_as_map_contains_of_index(s1, s1.len() - 1);
        lemma_as_map_contains_of_index(s2, s2.len() - 1);
        lemma_as_map_key_to_index(s2, k1);
        lemma_as_map_key_to_index(s1, k2);
        let i2 = choose|i: int| 0 <= i < s2.len() && s2[i].0@ == k1;
        let i1 = choose|i: int| 0 <= i < s1.len() && s1[i].0@ == k2;
        if i2 < s2.len() - 1 {
            assert(lex_lt(k1, k2));
        }
        if i1 < s1.len() - 1 {
            assert(lex_lt(k2, k1));
        }
        lemma_lex_asym(k1, k2);
        assert(k1 == k2);
        assert(as_map(s1)[k1] == s1.last().1);
        assert(as_map(s2)[k1] == s2.last().1);
        lemma_as_map_drop_last(s1);
        lemma_as_map_drop_last(s2);
        assert(keys_sorted(s1.drop_last()));
        assert(keys_sorted(s2.drop_last()));
        lemma_sorted_as_map_entries(s1.drop_last(), s2.drop_last());
        assert(entry_views(s1.drop_last()).len() == s1.drop_last().len());
        assert(entry_views(s2.drop_last()).len() == s2.drop_last().len());
        assert(s1.len() == s2.len());
        assert forall|i: int| 0 <= i < s1.len() implies entry_views(s1)[i] == entry_views(s2)[i] by {
            if i < s1.len() - 1 {
                assert(entry_views(s1.drop_last())[i] == entry_views(s2.drop_last())[i]);
                assert(entry_views(s1.drop_last())[i] == (s1[i].0@, s1[i].1));
                assert(entry_views(s2.drop_last())[i] == (s2[i].0@, s2[i].1));
            }
        }
        assert(entry_views(s1) =~= entry_views(s2));
    }
}

proof fn lemma_as_map_insert_middle(u: Seq<(String, Expr)>, e: (String, Expr), w: Seq<(String, Expr)>)
    requires
        forall|j: int| 0 <= j < w.len() ==> w[j].0@ != e.0@,
    ensures
        as_map(u + seq![e] + w) == as_map(u + w).insert(e.0@, e.1),
    decreases w.len(),
{
    if w.len() == 0 {
        assert(u + seq![e] + w =~= (u + w).push(e));
        assert((u + w).push(e).drop_last() =~= u + w);
    } else {
        let wl = w.drop_last();
        let le = w.last();
        assert(forall|j: int| 0 <= j < wl.len() ==> wl[j] == w[j]);
        lemma_as_map_insert_middle(u, e, wl);
        assert(u + seq![e] + w =~= (u + seq![e] + wl).push(le));
        assert((u + seq![e] + wl).push(le).drop_last() =~= u + seq![e] + wl);
        assert(u + w =~= (u + wl).push(le));
        assert((u + wl).push(le).drop_last() =~= u + wl);
        assert(le.0@ != e.0@);
        assert(as_map(u + wl).insert(e.0@, e.1).insert(le.0@, le.1) =~= as_map(u + wl).insert(
            le.0@,
            le.1,
        ).insert(e.0@, e.1));
    }
}

impl View for ExprMap {
    type V = Map<Seq<char>, Expr>;

    /// The unordered name-to-expression map.
    closed spec fn view(&self) -> Map<Seq<char>, Expr> {
        as_map(self.entries@)
    }
}

impl ExprMap {
    /// The bindings in storage order: sorted by name.
    pub closed spec fn entries_view(self) -> Seq<(Seq<char>, Expr)> {
        entry_views(self.entries@)
    }

    /// Bindings sit in strictly increasing name order.
    #[verifier::type_invariant]
    pub closed spec fn wf(self) -> bool {
        keys_sorted(self.entries@)
    }

    /// The empty binding map.
    pub fn new() -> (m: ExprMap)
        ensures
            m@ == Map::<Seq<char>, Expr>::empty(),
            m.entries_view() == Seq::<(Seq<char>, Expr)>::empty(),
    {
        let m = ExprMap { entries: Vec::new() };
        proof {
            assert(m.entries_view() =~= Seq::<(Seq<char>, Expr)>::empty());
        }
        m
    }

    /// How many bindings the map holds.
    pub fn len(&self) -> (n: usize)
        ensures
            n == self.entries_view().len(),
    {
        self.entries.len()
    }

    /// The binding at a position of the sorted order.
    pub fn entry_at(&self, i: usize) -> (e: &(String, Expr))
        requires
            i < self.entries_view().len(),
        ensures
            e.0@ == self.entries_view()[i as int].0,
            e.1 == self.entries_view()[i as int].1,
    {
        &self.entries[i]
    }

    /// Binds `key` to `value`, replacing an earlier binding of the same
    /// name.
    pub fn insert(&mut self, key: &str, value: Expr)
        ensures
            final(self)@ == old(self)@.insert(key@, value),
    {
        proof {
            use_type_invariant(&*self);
        }
        let mut tmp = ExprMap { entries: Vec::new() };
        core::mem::swap(self, &mut tmp);
        let ExprMap { mut entries } = tmp;
        let ghost s0 = entries@;
        let i = Self::find_pos(&entries, key);
        let ghost u = s0.take(i as int);
        if i < entries.len() && str_eq(entries[i].0.as_str(), key) {
            let ghost w = s0.skip(i as int + 1);
            let ghost oldpair = s0[i as int];
            entries.remove(i);
            entries.insert(i, (key.to_owned(), value));
            proof {
                let pair = entries@[i as int];
                assert(pair.0@ == key@);
                assert forall|j: int| 0 <= j < w.len() implies w[j].0@ != key@ by {
                    assert(w[j] == s0[i as int + 1 + j]);
                    assert(lex_lt(s0[i as int].0@, s0[i as int + 1 + j].0@));
                    if w[j].0@ == key@ {
                        lemma_lex_irrefl(key@);
                    }
                }
                assert(s0 =~= u + seq![oldpair] + w);
                assert(entries@ =~= u + seq![pair] + w);
                lemma_as_map_insert_middle(u, oldpair, w);
                lemma_as_map_insert_middle(u, pair, w);
                assert(as_map(entries@) =~= as_map(s0).insert(key@, value));
                assert forall|x: int, y: int| 0 <= x < y < entries@.len() implies lex_lt(
                    entries@[x].0@,
                    entries@[y].0@,
                ) by {
                    assert(s0[x].0@ == entries@[x].0@);
                    assert(s0[y].0@ == entries@[y].0@);
                    assert(lex_lt(s0[x].0@, s0[y].0@));
                }
            }
            *self = ExprMap { entries };
        } else {
            let ghost w = s0.skip(i as int);
            entries.insert(i, (key.to_owned(), value));
            proof {
                let pair = entries@[i as int];
                assert(pair.0@ == key@);
                if i < s0.len() {
                    lemma_lex_total(key@, s0[i as int].0@);
                    assert(lex_lt(key@, s0[i as int].0@));
                }
                assert forall|j: int| 0 <= j < w.len() implies lex_lt(key@, w[j].0@) by {
                    assert(w[j] == s0[i as int + j]);
                    assert(lex_lt(key@, s0[i as int].0@));
                    if j > 0 {
                        assert(lex_lt(s0[i as int].0@, s0[i as int + j].0@));
                        lemma_lex_trans(key@, s0[i as int].0@, s0[i as int + j].0@);
                    }
                }
                assert forall|j: int| 0 <= j < w.len() implies w[j].0@ != key@ by {
                    if w[j].0@ == key@ {
                        lemma_lex_irrefl(key@);
                    }
                }
                assert(s0 =~= u + w);
                assert(entries@ =~= u + seq![pair] + w);
                lemma_as_map_insert_middle(u, pair, w);
                assert(as_map(entries@) =~= as_map(s0).insert(key@, value));
                assert forall|x: int, y: int| 0 <= x < y < entries@.len() implies lex_lt(
                    entries@[x].0@,
                    entries@[y].0@,
                ) by {
                    if y < i {
                        assert(entries@[x] == s0[x] && entries@[y] == s0[y]);
                    } else if x < i && y == i {
                        assert(entries@[x] == s0[x]);
                        assert(lex_lt(s0[x].0@, key@));
                    } else if x < i && y > i {
                        assert(entries@[x] == s0[x] && entries@[y] == s0[y - 1]);
                    } else if x == i {
                        assert(entries@[y] == s0[y - 1]);
                        assert(w[y - 1 - i] == s0[y - 1]);
                        assert(lex_lt(key@, w[y - 1 - i].0@));
                    } else {
                        assert(entries@[x] == s0[x - 1] && entries@[y] == s0[y - 1]);
                    }
                }
            }
            *self = ExprMap { entries };
        }
    }

    fn find_pos(entries: &Vec<(String, Expr)>, key: &str) -> (i: usize)
        requires
            keys_sorted(entries@),
        ensures
            i <= entries@.len(),
            forall|j: int| 0 <= j < i ==> lex_lt(entries@[j].0@, key@),
            i < entries@.len() ==> !lex_lt(entries@[i as int].0@, key@),
    {
        let mut i: usize = 0;
        while i < entries.len()
            invariant
                i <= entries@.len(),
                forall|j: int| 0 <= j < i ==> lex_lt(entries@[j].0@, key@),
            decreases entries@.len() - i,
        {
            let e = &entries[i];
            if !str_lt(e.0.as_str(), key) {
                return i;
            }
            i += 1;
        }
        i
    }
}

/// Bindings with the same contents stand in the same storage order: the
/// stored bindings of a map are determined by its unordered value, so
/// insertion order leaves no trace.
pub proof fn lemma_map_view_determines_entries(a: ExprMap, b: ExprMap)
    requires
        a.wf(),
        b.wf(),
        a@ == b@,
    ensures
        a.entries_view() == b.entries_view(),
{
    lemma_sorted_as_map_entries(a.entries@, b.entries@);
}

/// A submodule instantiation: parameter and port bindings are unordered
/// maps that render in name-sorted order.
#[derive(Debug)]
pub struct Instance {
    pub id: Id,
    pub prim: Id,
    pub params: ExprMap,
    pub ports: ExprMap,
    pub attr: Attribute,
}

/// One branch of a case construct, generic over the sequential statement
/// type.
#[derive(Debug)]
pub struct GenericCaseBranch<T> {
    pub cond: Expr,
    pub body: Vec<T>,
}

/// The fallback branch of a case construct.
#[derive(Debug)]
pub struct GenericCaseDefault<T> {
    pub body: Vec<T>,
}

/// A case construct: a selector, branches, and an optional fallback.
#[derive(Debug)]
pub struct GenericCase<T> {
    pub cond: Expr,
    pub branches: Vec<GenericCaseBranch<T>>,
    pub default: Option<GenericCaseDefault<T>>,
}

/// A port: an input or output declaration, generic over the declaration
/// type.
#[derive(Debug)]
pub enum GenericPort<T> {
    Input(T),
    Output(T),
}

/// A function declaration, generic over declarations, sequential
/// statements and data types.
#[derive(Debug)]
pub struct GenericFunction<T, U, V> {
    pub name: Id,
    pub inputs: Vec<GenericPort<T>>,
    pub decls: Vec<T>,
    pub body: Vec<U>,
    pub ret: V,
}

/// A module item: a declaration or a concurrent statement, generic over
/// both.
#[derive(Debug)]
pub enum GenericStmt<T, U> {
    Decl(T),
    Parallel(U),
}

/// A module: name, ordered parameters, ordered ports, ordered body,
/// attributes; generic over the declaration and concurrent statement types.
#[derive(Debug)]
pub struct GenericModule<T, U> {
    pub name: String,
    pub params: Vec<T>,
    pub ports: Vec<GenericPort<T>>,
    pub body: Vec<GenericStmt<T, U>>,
    pub attr: Attribute,
}

} // verus!
