//! Conversions that lift instances, processes and declarations into the
//! generic statement shapes without an intermediate wrapper.

use vstd::prelude::*;
use crate::v05::ast::{Decl, Instance, Parallel, ParallelAlways, Sequential, SequentialIfElse, Stmt};

verus! {

impl From<Instance> for Parallel {
    /// Lifts an instantiation into a concurrent statement.
    fn from(inst: Instance) -> (r: Self) {
        Parallel::Inst(inst)
    }
}

impl vstd::std_specs::convert::FromSpecImpl<Instance> for Parallel {
    open spec fn obeys_from_spec() -> bool {
        true
    }

    open spec fn from_spec(inst: Instance) -> Self {
        Parallel::Inst(inst)
    }
}

impl From<Decl> for Stmt {
    /// Lifts a declaration into a module statement.
    fn from(decl: Decl) -> (r: Self) {
        Stmt::Decl(decl)
    }
}

impl vstd::std_specs::convert::FromSpecImpl<Decl> for Stmt {
    open spec fn obeys_from_spec() -> bool {
        true
    }

    open spec fn from_spec(decl: Decl) -> Self {
        Stmt::Decl(decl)
    }
}

impl From<SequentialIfElse> for Sequential {
    /// Lifts a conditional into a sequential statement.
    fn from(seq: SequentialIfElse) -> (r: Self) {
        Sequential::IfElse(seq)
    }
}

impl vstd::std_specs::convert::FromSpecImpl<SequentialIfElse> for Sequential {
    open spec fn obeys_from_spec() -> bool {
        true
    }

    open spec fn from_spec(seq: SequentialIfElse) -> Self {
        Sequential::IfElse(seq)
    }
}

impl From<ParallelAlways> for Parallel {
    /// Lifts a process into a concurrent statement.
    fn from(always: ParallelAlways) -> (r: Self) {
        Parallel::Always(always)
    }
}

impl vstd::std_specs::convert::FromSpecImpl<ParallelAlways> for Parallel {
    open spec fn obeys_from_spec() -> bool {
        true
    }

    open spec fn from_spec(always: ParallelAlways) -> Self {
        Parallel::Always(always)
    }
}

impl From<ParallelAlways> for Stmt {
    /// Lifts a process straight into a module statement.
    fn from(always: ParallelAlways) -> (r: Self) {
        Stmt::Parallel(Parallel::Always(always))
    }
}

impl vstd::std_specs::convert::FromSpecImpl<ParallelAlways> for Stmt {
    open spec fn obeys_from_spec() -> bool {
        true
    }

    open spec fn from_spec(always: ParallelAlways) -> Self {
        Stmt::Parallel(Parallel::Always(always))
    }
}

impl From<Parallel> for Stmt {
    /// Lifts a concurrent statement into a module statement.
    fn from(par: Parallel) -> (r: Self) {
        Stmt::Parallel(par)
    }
}

impl vstd::std_specs::convert::FromSpecImpl<Parallel> for Stmt {
    open spec fn obeys_from_spec() -> bool {
        true
    }

    open spec fn from_spec(par: Parallel) -> Self {
        Stmt::Parallel(par)
    }
}

impl From<Instance> for Stmt {
    /// Lifts an instantiation straight into a module statement.
    fn from(inst: Instance) -> (r: Self) {
        Stmt::Parallel(Parallel::Inst(inst))
    }
}

impl vstd::std_specs::convert::FromSpecImpl<Instance> for Stmt {
    open spec fn obeys_from_spec() -> bool {
        true
    }

    open spec fn from_spec(inst: Instance) -> Self {
        Stmt::Parallel(Parallel::Inst(inst))
    }
}

} // verus!
