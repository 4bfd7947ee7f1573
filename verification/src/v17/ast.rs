//! Abstract syntax of the newer dialect.

use vstd::prelude::*;
use crate::subset::ast::{GenericModule, GenericPort, GenericStmt};

verus! {

pub type Id = crate::subset::ast::Id;

pub type Expr = crate::subset::ast::Expr;

pub type EventTy = crate::subset::ast::EventTy;

pub type Instance = crate::subset::ast::Instance;

pub type Stmt = GenericStmt<Decl, Parallel>;

pub type Port = GenericPort<Decl>;

pub type Module = GenericModule<Decl, Parallel>;

/// A data type: void (for statement-only functions), an unconstrained
/// integer, or a fixed bit-width.
#[derive(Clone, Debug)]
pub enum Ty {
    Void,
    Int,
    Width(u64),
}

/// A declaration: integer variable, variable-width logic net, first-class
/// function, or typed parameter.
#[derive(Debug)]
pub enum Decl {
    Int(Id, Ty),
    Logic(Id, Ty),
    Function(Id, Ty, Vec<Port>, Vec<Decl>, Vec<Sequential>),
    Param(Id, Ty, Expr),
}

/// A sequential statement: edge wait, conditional, or an assertion with an
/// optional else action.
#[derive(Debug)]
pub enum Sequential {
    Event(EventTy, Expr),
    If(Expr, Vec<Sequential>, Vec<Sequential>),
    Assert(Expr, Option<Box<Sequential>>),
}

/// A concurrent statement: an instantiation, a continuous assignment, a
/// combinational process (no explicit trigger), or an edge-triggered
/// process carrying its event.
#[derive(Debug)]
pub enum Parallel {
    Inst(Instance),
    Assign(Expr, Expr),
    AlwaysComb(Vec<Sequential>),
    AlwaysFF(Sequential, Vec<Sequential>),
}

/// Every fixed width is at least one bit.
pub open spec fn ty_wf(t: Ty) -> bool {
    match t {
        Ty::Void => true,
        Ty::Int => true,
        Ty::Width(w) => w >= 1,
    }
}

/// A declaration without a nested function, with a sound width.
pub open spec fn simple_decl_wf(d: Decl) -> bool {
    match d {
        Decl::Int(_n, t) => ty_wf(t),
        Decl::Logic(_n, t) => ty_wf(t),
        Decl::Function(_n, _t, _ports, _decls, _body) => false,
        Decl::Param(_n, t, _e) => ty_wf(t),
    }
}

pub open spec fn simple_port_wf(p: Port) -> bool {
    match p {
        GenericPort::Input(d) => simple_decl_wf(d),
        GenericPort::Output(d) => simple_decl_wf(d),
    }
}

/// Sound widths everywhere; a function holds only simple declarations and
/// ports.
pub open spec fn decl_wf(d: Decl) -> bool {
    match d {
        Decl::Function(_n, ret, ports, decls, _body) => {
            &&& ty_wf(ret)
            &&& forall|i: int| 0 <= i < ports@.len() ==> simple_port_wf(#[trigger] ports@[i])
            &&& forall|i: int| 0 <= i < decls@.len() ==> simple_decl_wf(#[trigger] decls@[i])
        },
        _ => simple_decl_wf(d),
    }
}

pub open spec fn port_wf(p: Port) -> bool {
    match p {
        GenericPort::Input(d) => simple_decl_wf(d),
        GenericPort::Output(d) => simple_decl_wf(d),
    }
}

pub open spec fn stmt_wf(s: Stmt) -> bool {
    match s {
        GenericStmt::Decl(d) => decl_wf(d),
        GenericStmt::Parallel(_p) => true,
    }
}

/// Every width in the module is at least one bit, and header parameters
/// are plain declarations.
pub open spec fn module_wf(m: Module) -> bool {
    &&& forall|i: int| 0 <= i < m.params@.len() ==> simple_decl_wf(#[trigger] m.params@[i])
    &&& forall|i: int| 0 <= i < m.ports@.len() ==> port_wf(#[trigger] m.ports@[i])
    &&& forall|i: int| 0 <= i < m.body@.len() ==> stmt_wf(#[trigger] m.body@[i])
}

} // verus!
