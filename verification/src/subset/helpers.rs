//! Builder and accessor methods for the shared syntax.

use vstd::prelude::*;
use crate::subset::ast::{
    Attribute, AttributeTy, Expr, ExprMap, GenericModule, GenericPort, GenericStmt, Instance,
    Radix,
};
use crate::strutil::{dec_text, u64_to_dec};
use vstd::pervasive::unreached;

verus! {

impl<T, U> GenericModule<T, U> {
    /// A fresh, empty module with the given name.
    pub fn new(name: &str) -> (m: Self)
        ensures
            m.name@ == name@,
            m.params@ == Seq::<T>::empty(),
            m.ports@ == Seq::<GenericPort<T>>::empty(),
            m.body@ == Seq::<GenericStmt<T, U>>::empty(),
            m.attr.attrs@ == Seq::<AttributeTy>::empty(),
    {
        GenericModule {
            name: name.to_owned(),
            params: Vec::new(),
            ports: Vec::new(),
            body: Vec::new(),
            attr: Attribute::default(),
        }
    }

    /// The module's name.
    pub fn name(&self) -> (r: String)
        ensures
            r@ == self.name@,
    {
        self.name.clone()
    }

    /// The module's body, in insertion order.
    pub fn body(&self) -> (r: &Vec<GenericStmt<T, U>>)
        ensures
            r@ == self.body@,
    {
        &self.body
    }

    /// The module's ports, in insertion order.
    pub fn ports(&self) -> (r: &Vec<GenericPort<T>>)
        ensures
            r@ == self.ports@,
    {
        &self.ports
    }

    /// The module's parameters, in insertion order.
    pub fn params(&self) -> (r: &Vec<T>)
        ensures
            r@ == self.params@,
    {
        &self.params
    }

    /// The module's attributes.
    pub fn attr(&self) -> (r: &Attribute)
        ensures
            r.attrs@ == self.attr.attrs@,
    {
        &self.attr
    }

    /// Appends a port.
    pub fn add_port(&mut self, port: GenericPort<T>)
        ensures
            final(self).ports@ == old(self).ports@.push(port),
            final(self).name == old(self).name,
            final(self).params == old(self).params,
            final(self).body == old(self).body,
            final(self).attr == old(self).attr,
    {
        self.ports.push(port);
    }

    /// Appends a statement to the body.
    pub fn add_stmt(&mut self, stmt: GenericStmt<T, U>)
        ensures
            final(self).body@ == old(self).body@.push(stmt),
            final(self).name == old(self).name,
            final(self).params == old(self).params,
            final(self).ports == old(self).ports,
            final(self).attr == old(self).attr,
    {
        self.body.push(stmt);
    }

    /// Replaces the module's attributes.
    pub fn set_attr(&mut self, attr: Attribute)
        ensures
            final(self).attr == attr,
            final(self).name == old(self).name,
            final(self).params == old(self).params,
            final(self).ports == old(self).ports,
            final(self).body == old(self).body,
    {
        self.attr = attr;
    }
}

/// Adding ports appends them one by one, so after any run of additions the
/// port list is the old list followed by the added ports: reading N added
/// ports back yields the same N ports in insertion order, in either
/// dialect.
pub proof fn lemma_ports_insertion_order<T>(
    before: Seq<GenericPort<T>>,
    added: Seq<GenericPort<T>>,
)
    ensures
        (before + added).len() == before.len() + added.len(),
        forall|i: int| 0 <= i < added.len() ==> (before + added)[before.len() + i] == added[i],
        forall|i: int| 0 <= i < before.len() ==> (before + added)[i] == before[i],
{
}

impl Expr {
    /// The name of a bare reference. Only a reference has one: callers
    /// invoke this only where the expression is statically known to be a
    /// reference, as on assignment left-hand sides.
    pub fn id(&self) -> (r: String)
        requires
            self is Ref,
        ensures
            r@ == self->Ref_0@,
    {
        match self {
            Expr::Ref(id) => id.clone(),
            _ => unreached(),
        }
    }

    /// A reference to a name.
    pub fn new_ref(name: &str) -> (e: Expr)
        ensures
            e is Ref,
            e->Ref_0@ == name@,
    {
        Expr::Ref(name.to_owned())
    }

    /// A string literal.
    pub fn new_str(value: &str) -> (e: Expr)
        ensures
            e is Str,
            e->Str_0@ == value@,
    {
        Expr::Str(value.to_owned())
    }

    /// A sized unsigned literal with decimal digits; a zero width is a
    /// caller error and is ruled out.
    pub fn new_ulit_dec(width: u32, value: &str) -> (e: Expr)
        requires
            width > 0,
        ensures
            e == Expr::ULit(width, Radix::Dec, e->ULit_2),
            e->ULit_2@ == value@,
    {
        Expr::ULit(width, Radix::Dec, value.to_owned())
    }

    /// A sized unsigned literal with hexadecimal digits.
    pub fn new_ulit_hex(width: u32, value: &str) -> (e: Expr)
        requires
            width > 0,
        ensures
            e == Expr::ULit(width, Radix::Hex, e->ULit_2),
            e->ULit_2@ == value@,
    {
        Expr::ULit(width, Radix::Hex, value.to_owned())
    }

    /// A sized unsigned literal with binary digits.
    pub fn new_ulit_bin(width: u32, value: &str) -> (e: Expr)
        requires
            width > 0,
        ensures
            e == Expr::ULit(width, Radix::Bin, e->ULit_2),
            e->ULit_2@ == value@,
    {
        Expr::ULit(width, Radix::Bin, value.to_owned())
    }
}

impl Instance {
    /// A fresh instance of child module `prim` named `id`, with no
    /// bindings.
    pub fn new(id: &str, prim: &str) -> (r: Instance)
        ensures
            r.id@ == id@,
            r.prim@ == prim@,
            r.params@ == Map::<Seq<char>, Expr>::empty(),
            r.params.entries_view() == Seq::<(Seq<char>, Expr)>::empty(),
            r.ports@ == Map::<Seq<char>, Expr>::empty(),
            r.ports.entries_view() == Seq::<(Seq<char>, Expr)>::empty(),
            r.attr.attrs@ == Seq::<crate::subset::ast::AttributeTy>::empty(),
    {
        Instance {
            id: id.to_owned(),
            prim: prim.to_owned(),
            params: ExprMap::new(),
            ports: ExprMap::new(),
            attr: Attribute::default(),
        }
    }

    /// Renames the instance.
    pub fn set_id(&mut self, id: &str)
        ensures
            final(self).id@ == id@,
            final(self).prim == old(self).prim,
            final(self).params == old(self).params,
            final(self).ports == old(self).ports,
            final(self).attr == old(self).attr,
    {
        self.id = id.to_owned();
    }

    /// Repoints the instance at another child module.
    pub fn set_prim(&mut self, prim: &str)
        ensures
            final(self).prim@ == prim@,
            final(self).id == old(self).id,
            final(self).params == old(self).params,
            final(self).ports == old(self).ports,
            final(self).attr == old(self).attr,
    {
        self.prim = prim.to_owned();
    }

    /// Binds a parameter to an expression.
    pub fn add_param(&mut self, param: &str, value: Expr)
        ensures
            final(self).params@ == old(self).params@.insert(param@, value),
            final(self).id == old(self).id,
            final(self).prim == old(self).prim,
            final(self).ports == old(self).ports,
            final(self).attr == old(self).attr,
    {
        self.params.insert(param, value);
    }

    /// Binds a parameter to a 32-bit decimal literal.
    pub fn add_param_uint(&mut self, param: &str, value: u32)
        ensures
            exists|s: String|
                s@ == dec_text(value as nat) && final(self).params@ == old(self).params@.insert(
                    param@,
                    Expr::ULit(32, Radix::Dec, s),
                ),
            final(self).id == old(self).id,
            final(self).prim == old(self).prim,
            final(self).ports == old(self).ports,
            final(self).attr == old(self).attr,
    {
        let digits = u64_to_dec(value as u64);
        let e = Expr::new_ulit_dec(32, digits.as_str());
        self.params.insert(param, e);
    }

    /// Binds a parameter to a string literal.
    pub fn add_param_str(&mut self, param: &str, value: &str)
        ensures
            exists|s: String|
                s@ == value@ && final(self).params@ == old(self).params@.insert(
                    param@,
                    Expr::Str(s),
                ),
            final(self).id == old(self).id,
            final(self).prim == old(self).prim,
            final(self).ports == old(self).ports,
            final(self).attr == old(self).attr,
    {
        let e = Expr::new_str(value);
        self.params.insert(param, e);
    }

    /// Connects a port to an expression.
    pub fn connect(&mut self, port: &str, expr: Expr)
        ensures
            final(self).ports@ == old(self).ports@.insert(port@, expr),
            final(self).id == old(self).id,
            final(self).prim == old(self).prim,
            final(self).params == old(self).params,
            final(self).attr == old(self).attr,
    {
        self.ports.insert(port, expr);
    }

    /// Connects a port to a named signal.
    pub fn connect_ref(&mut self, port: &str, id: &str)
        ensures
            exists|s: String|
                s@ == id@ && final(self).ports@ == old(self).ports@.insert(port@, Expr::Ref(s)),
            final(self).id == old(self).id,
            final(self).prim == old(self).prim,
            final(self).params == old(self).params,
            final(self).attr == old(self).attr,
    {
        let e = Expr::new_ref(id);
        self.ports.insert(port, e);
    }

    /// The instance's name.
    pub fn id(&self) -> (r: String)
        ensures
            r@ == self.id@,
    {
        self.id.clone()
    }

    /// The instantiated child module's name.
    pub fn prim(&self) -> (r: String)
        ensures
            r@ == self.prim@,
    {
        self.prim.clone()
    }

    /// The parameter bindings.
    pub fn param_map(&self) -> (r: &ExprMap)
        ensures
            r == &self.params,
    {
        &self.params
    }

    /// The port bindings.
    pub fn port_map(&self) -> (r: &ExprMap)
        ensures
            r == &self.ports,
    {
        &self.ports
    }
}

} // verus!
