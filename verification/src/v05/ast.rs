//! Abstract syntax of the older dialect.

use vstd::prelude::*;
use crate::subset::ast::{GenericModule, GenericPort, GenericStmt};

verus! {

pub type Id = crate::subset::ast::Id;

pub type Expr = crate::subset::ast::Expr;

pub type EventTy = crate::subset::ast::EventTy;

pub type AssignTy = crate::subset::ast::AssignTy;

pub type Instance = crate::subset::ast::Instance;

pub type Stmt = GenericStmt<Decl, Parallel>;

pub type Port = GenericPort<Decl>;

pub type Module = GenericModule<Decl, Parallel>;

/// A data type: an unconstrained integer or a fixed bit-width.
#[derive(Clone, Debug)]
pub enum Ty {
    Int,
    Width(u64),
}

/// A declaration: integer variable, sized net, sized stateful variable, or
/// parameter.
#[derive(Debug)]
pub enum Decl {
    Int(Id, Ty),
    Wire(Id, Ty),
    Reg(Id, Ty),
    Param(Id, Expr),
}

/// A conditional with an optional condition (none for a bare block), a
/// body, and an optional else branch, itself a sequential statement.
#[derive(Debug)]
pub struct SequentialIfElse {
    pub cond: Option<Expr>,
    pub body: Vec<Sequential>,
    pub elsebr: Option<Box<Sequential>>,
}

/// A sequential statement: no-op, edge wait, conditional, or a tagged
/// immediate/deferred assignment.
#[derive(Debug)]
pub enum Sequential {
    Wildcard,
    Event(EventTy, Expr),
    IfElse(SequentialIfElse),
    Assign(Expr, Expr, AssignTy),
}

/// A process triggered by an event, with a sequential body.
#[derive(Debug)]
pub struct ParallelAlways {
    pub event: Sequential,
    pub body: Vec<Sequential>,
}

/// A concurrent statement: an instantiation, a continuous assignment, or a
/// process.
#[derive(Debug)]
pub enum Parallel {
    Inst(Instance),
    Assign(Expr, Expr),
    Always(ParallelAlways),
}

/// Every fixed width is at least one bit.
pub open spec fn ty_wf(t: Ty) -> bool {
    match t {
        Ty::Int => true,
        Ty::Width(w) => w >= 1,
    }
}

pub open spec fn decl_wf(d: Decl) -> bool {
    match d {
        Decl::Int(_n, t) => ty_wf(t),
        Decl::Wire(_n, t) => ty_wf(t),
        Decl::Reg(_n, t) => ty_wf(t),
        Decl::Param(_n, _e) => true,
    }
}

pub open spec fn port_wf(p: Port) -> bool {
    match p {
        GenericPort::Input(d) => decl_wf(d),
        GenericPort::Output(d) => decl_wf(d),
    }
}

pub open spec fn stmt_wf(s: Stmt) -> bool {
    match s {
        GenericStmt::Decl(d) => decl_wf(d),
        GenericStmt::Parallel(_p) => true,
    }
}

/// Every width in the module is at least one bit: what the builders
/// enforce and the renderer relies on.
pub open spec fn module_wf(m: Module) -> bool {
    &&& forall|i: int| 0 <= i < m.params@.len() ==> decl_wf(#[trigger] m.params@[i])
    &&& forall|i: int| 0 <= i < m.ports@.len() ==> port_wf(#[trigger] m.ports@[i])
    &&& forall|i: int| 0 <= i < m.body@.len() ==> stmt_wf(#[trigger] m.body@[i])
}

} // verus!
