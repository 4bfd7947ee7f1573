//! Builders and accessors for the older dialect.

use vstd::prelude::*;
use vstd::pervasive::unreached;
use crate::strutil::dec_text;
use crate::strutil::u64_to_dec;
use crate::subset::ast::{AssignTy, EventTy, GenericStmt, Radix};
use crate::v05::ast::{
    Decl, Expr, Instance, Module, Parallel, ParallelAlways, Port, Sequential, SequentialIfElse,
    Stmt, Ty, decl_wf, module_wf, port_wf, stmt_wf, ty_wf,
};

verus! {

impl Ty {
    /// The unconstrained integer type.
    pub fn new_int() -> (t: Ty)
        ensures
            t == Ty::Int,
    {
        Ty::Int
    }

    /// A fixed-width type; a zero width is meaningless and is a caller
    /// error, ruled out here.
    pub fn new_width(width: u64) -> (t: Ty)
        requires
            width > 0,
        ensures
            t == Ty::Width(width),
            ty_wf(t),
    {
        Ty::Width(width)
    }

    /// The width of a fixed-width type. Only a fixed-width type has one:
    /// callers invoke this only where the type is statically known to be
    /// sized.
    pub fn width(&self) -> (w: u64)
        requires
            self is Width,
        ensures
            w == self->Width_0,
    {
        match self {
            Ty::Width(w) => *w,
            _ => unreached(),
        }
    }
}

impl Decl {
    /// An integer variable declaration.
    pub fn new_int(name: &str) -> (d: Decl)
        ensures
            d is Int,
            d->Int_0@ == name@,
            d->Int_1 == Ty::Int,
            decl_wf(d),
    {
        Decl::Int(name.to_owned(), Ty::new_int())
    }

    /// A sized net declaration.
    pub fn new_wire(name: &str, width: u64) -> (d: Decl)
        requires
            width > 0,
        ensures
            d is Wire,
            d->Wire_0@ == name@,
            d->Wire_1 == Ty::Width(width),
            decl_wf(d),
    {
        Decl::Wire(name.to_owned(), Ty::new_width(width))
    }

    /// A sized stateful variable declaration.
    pub fn new_reg(name: &str, width: u64) -> (d: Decl)
        requires
            width > 0,
        ensures
            d is Reg,
            d->Reg_0@ == name@,
            d->Reg_1 == Ty::Width(width),
            decl_wf(d),
    {
        Decl::Reg(name.to_owned(), Ty::new_width(width))
    }

    /// A parameter bound to a 32-bit decimal literal.
    pub fn new_param_uint(name: &str, value: u32) -> (d: Decl)
        ensures
            d is Param,
            d->Param_0@ == name@,
            d->Param_1 == Expr::ULit(32, Radix::Dec, d->Param_1->ULit_2),
            d->Param_1->ULit_2@ == dec_text(value as nat),
            decl_wf(d),
    {
        let digits = u64_to_dec(value as u64);
        Decl::Param(name.to_owned(), Expr::new_ulit_dec(32, digits.as_str()))
    }

    /// A parameter bound to a string literal.
    pub fn new_param_str(name: &str, value: &str) -> (d: Decl)
        ensures
            d is Param,
            d->Param_0@ == name@,
            d->Param_1 is Str,
            d->Param_1->Str_0@ == value@,
            decl_wf(d),
    {
        Decl::Param(name.to_owned(), Expr::new_str(value))
    }
}

impl Port {
    /// An input port backed by a sized net.
    pub fn new_input(name: &str, width: u64) -> (p: Port)
        requires
            width > 0,
        ensures
            p is Input,
            p->Input_0 is Wire,
            p->Input_0->Wire_0@ == name@,
            p->Input_0->Wire_1 == Ty::Width(width),
            port_wf(p),
    {
        let ty = Ty::new_width(width);
        let wire = Decl::Wire(name.to_owned(), ty);
        Port::Input(wire)
    }

    /// An output port backed by a sized net.
    pub fn new_output(name: &str, width: u64) -> (p: Port)
        requires
            width > 0,
        ensures
            p is Output,
            p->Output_0 is Wire,
            p->Output_0->Wire_0@ == name@,
            p->Output_0->Wire_1 == Ty::Width(width),
            port_wf(p),
    {
        let ty = Ty::new_width(width);
        let wire = Decl::Wire(name.to_owned(), ty);
        Port::Output(wire)
    }

    /// An output port backed by a sized stateful variable.
    pub fn new_output_reg(name: &str, width: u64) -> (p: Port)
        requires
            width > 0,
        ensures
            p is Output,
            p->Output_0 is Reg,
            p->Output_0->Reg_0@ == name@,
            p->Output_0->Reg_1 == Ty::Width(width),
            port_wf(p),
    {
        let ty = Ty::new_width(width);
        let reg = Decl::Reg(name.to_owned(), ty);
        Port::Output(reg)
    }
}

impl SequentialIfElse {
    /// A conditional on `cond` with an empty body and no else branch.
    pub fn new(cond: Expr) -> (s: Self)
        ensures
            s.cond == Some(cond),
            s.body@ == Seq::<Sequential>::empty(),
            s.elsebr is None,
    {
        SequentialIfElse { cond: Some(cond), body: Vec::new(), elsebr: None }
    }

    /// The condition, if one is set.
    pub fn cond(&self) -> (r: Option<&Expr>)
        ensures
            r is Some <==> self.cond is Some,
            r is Some ==> *r->0 == self.cond->0,
    {
        self.cond.as_ref()
    }

    /// The body, in insertion order.
    pub fn body(&self) -> (r: &Vec<Sequential>)
        ensures
            r@ == self.body@,
    {
        &self.body
    }

    /// The else branch, if one is set.
    pub fn else_branch(&self) -> (r: Option<&Sequential>)
        ensures
            r is Some <==> self.elsebr is Some,
            r is Some ==> *r->0 == *self.elsebr->0,
    {
        match &self.elsebr {
            Option::None => Option::None,
            Option::Some(s) => Option::Some(&**s),
        }
    }

    /// Appends a statement to the body.
    pub fn add_seq(&mut self, seq: Sequential)
        ensures
            final(self).body@ == old(self).body@.push(seq),
            final(self).cond == old(self).cond,
            final(self).elsebr == old(self).elsebr,
    {
        self.body.push(seq);
    }

    /// Sets the else branch.
    pub fn set_else(&mut self, seq: Sequential)
        ensures
            final(self).elsebr == Some(Box::new(seq)),
            final(self).cond == old(self).cond,
            final(self).body == old(self).body,
    {
        self.elsebr = Some(Box::new(seq));
    }
}

impl Sequential {
    /// A wait on the rising edge of a named signal.
    pub fn new_posedge(name: &str) -> (s: Self)
        ensures
            s is Event,
            s->Event_0 == EventTy::Posedge,
            s->Event_1 is Ref,
            s->Event_1->Ref_0@ == name@,
    {
        let expr = Expr::new_ref(name);
        Sequential::Event(EventTy::Posedge, expr)
    }

    /// An immediate (blocking) assignment.
    pub fn new_blk_assign(lexpr: Expr, rexpr: Expr) -> (s: Sequential)
        ensures
            s == Sequential::Assign(lexpr, rexpr, AssignTy::Blocking),
    {
        Sequential::Assign(lexpr, rexpr, AssignTy::Blocking)
    }

    /// A deferred (non-blocking) assignment.
    pub fn new_nonblk_assign(lexpr: Expr, rexpr: Expr) -> (s: Sequential)
        ensures
            s == Sequential::Assign(lexpr, rexpr, AssignTy::NonBlocking),
    {
        Sequential::Assign(lexpr, rexpr, AssignTy::NonBlocking)
    }
}

impl ParallelAlways {
    /// A process triggered by `event`, with an empty body.
    pub fn new(event: Sequential) -> (p: Self)
        ensures
            p.event == event,
            p.body@ == Seq::<Sequential>::empty(),
    {
        ParallelAlways { event, body: Vec::new() }
    }

    /// The triggering event.
    pub fn event(&self) -> (r: &Sequential)
        ensures
            *r == self.event,
    {
        &self.event
    }

    /// The body, in insertion order.
    pub fn body(&self) -> (r: &Vec<Sequential>)
        ensures
            r@ == self.body@,
    {
        &self.body
    }

    /// Appends a statement to the body.
    pub fn add_seq(&mut self, seq: Sequential)
        ensures
            final(self).body@ == old(self).body@.push(seq),
            final(self).event == old(self).event,
    {
        self.body.push(seq);
    }
}

impl Parallel {
    /// Lifts an instantiation into a concurrent statement.
    pub fn new_inst(inst: Instance) -> (p: Parallel)
        ensures
            p == Parallel::Inst(inst),
    {
        Parallel::Inst(inst)
    }

    /// The name on the left of a concurrent statement: the instance name,
    /// or the assigned reference. A process has none: callers invoke this
    /// only on instances and on assignments to a bare reference.
    pub fn id(&self) -> (r: String)
        requires
            !(self is Always),
            self is Assign ==> self->Assign_0 is Ref,
        ensures
            self is Inst ==> r@ == self->Inst_0.id@,
            self is Assign ==> r@ == self->Assign_0->Ref_0@,
    {
        match self {
            Parallel::Inst(inst) => inst.id(),
            Parallel::Assign(lexpr, _rexpr) => lexpr.id(),
            _ => unreached(),
        }
    }
}

impl Stmt {
    /// Wraps a concurrent statement.
    pub fn new_parallel(par: Parallel) -> (s: Stmt)
        ensures
            s == GenericStmt::<Decl, Parallel>::Parallel(par),
    {
        Stmt::Parallel(par)
    }

    /// Wraps a declaration.
    pub fn new_decl(decl: Decl) -> (s: Stmt)
        ensures
            s == GenericStmt::<Decl, Parallel>::Decl(decl),
    {
        Stmt::Decl(decl)
    }
}

impl Module {
    /// Appends a parameter bound to a 32-bit decimal literal.
    pub fn add_param_uint(&mut self, name: &str, value: u32)
        ensures
            final(self).params@.len() == old(self).params@.len() + 1,
            final(self).params@.last() is Param,
            final(self).params@.last()->Param_0@ == name@,
            final(self).params@.last()->Param_1->ULit_2@ == dec_text(value as nat),
            final(self).params@.drop_last() == old(self).params@,
            decl_wf(final(self).params@.last()),
            final(self).name == old(self).name,
            final(self).ports == old(self).ports,
            final(self).body == old(self).body,
            final(self).attr == old(self).attr,
    {
        let d = Decl::new_param_uint(name, value);
        self.params.push(d);
        proof {
            assert(self.params@.drop_last() =~= old(self).params@);
        }
    }

    /// Appends a parameter bound to a string literal.
    pub fn add_param_str(&mut self, name: &str, value: &str)
        ensures
            final(self).params@.len() == old(self).params@.len() + 1,
            final(self).params@.last() is Param,
            final(self).params@.last()->Param_0@ == name@,
            final(self).params@.last()->Param_1->Str_0@ == value@,
            final(self).params@.drop_last() == old(self).params@,
            decl_wf(final(self).params@.last()),
            final(self).name == old(self).name,
            final(self).ports == old(self).ports,
            final(self).body == old(self).body,
            final(self).attr == old(self).attr,
    {
        let d = Decl::new_param_str(name, value);
        self.params.push(d);
        proof {
            assert(self.params@.drop_last() =~= old(self).params@);
        }
    }

    /// Appends an input port backed by a sized net.
    pub fn add_input(&mut self, name: &str, width: u64)
        requires
            width > 0,
        ensures
            final(self).ports@.len() == old(self).ports@.len() + 1,
            final(self).ports@.drop_last() == old(self).ports@,
            final(self).ports@.last() is Input,
            final(self).ports@.last()->Input_0 is Wire,
            final(self).ports@.last()->Input_0->Wire_0@ == name@,
            final(self).ports@.last()->Input_0->Wire_1 == Ty::Width(width),
            port_wf(final(self).ports@.last()),
            final(self).name == old(self).name,
            final(self).params == old(self).params,
            final(self).body == old(self).body,
            final(self).attr == old(self).attr,
    {
        let p = Port::new_input(name, width);
        self.ports.push(p);
        proof {
            assert(self.ports@.drop_last() =~= old(self).ports@);
        }
    }

    /// Appends an output port backed by a sized net.
    pub fn add_output(&mut self, name: &str, width: u64)
        requires
            width > 0,
        ensures
            final(self).ports@.len() == old(self).ports@.len() + 1,
            final(self).ports@.drop_last() == old(self).ports@,
            final(self).ports@.last() is Output,
            final(self).ports@.last()->Output_0 is Wire,
            final(self).ports@.last()->Output_0->Wire_0@ == name@,
            final(self).ports@.last()->Output_0->Wire_1 == Ty::Width(width),
            port_wf(final(self).ports@.last()),
            final(self).name == old(self).name,
            final(self).params == old(self).params,
            final(self).body == old(self).body,
            final(self).attr == old(self).attr,
    {
        let p = Port::new_output(name, width);
        self.ports.push(p);
        proof {
            assert(self.ports@.drop_last() =~= old(self).ports@);
        }
    }

    /// Appends an output port backed by a sized stateful variable.
    pub fn add_output_reg(&mut self, name: &str, width: u64)
        requires
            width > 0,
        ensures
            final(self).ports@.len() == old(self).ports@.len() + 1,
            final(self).ports@.drop_last() == old(self).ports@,
            final(self).ports@.last() is Output,
            final(self).ports@.last()->Output_0 is Reg,
            final(self).ports@.last()->Output_0->Reg_0@ == name@,
            final(self).ports@.last()->Output_0->Reg_1 == Ty::Width(width),
            port_wf(final(self).ports@.last()),
            final(self).name == old(self).name,
            final(self).params == old(self).params,
            final(self).body == old(self).body,
            final(self).attr == old(self).attr,
    {
        let p = Port::new_output_reg(name, width);
        self.ports.push(p);
        proof {
            assert(self.ports@.drop_last() =~= old(self).ports@);
        }
    }

    /// Appends an instantiation to the body.
    pub fn add_instance(&mut self, inst: Instance)
        ensures
            final(self).body@ == old(self).body@.push(
                GenericStmt::Parallel(Parallel::Inst(inst)),
            ),
            final(self).name == old(self).name,
            final(self).params == old(self).params,
            final(self).ports == old(self).ports,
            final(self).attr == old(self).attr,
    {
        self.body.push(Stmt::new_parallel(Parallel::new_inst(inst)));
    }

    /// Builders only add one-bit-or-wider declarations, so a module built
    /// through them stays well formed.
    pub proof fn lemma_builders_preserve_wf(m0: Module, m1: Module)
        requires
            module_wf(m0),
            m1.params@ == m0.params@ || (m1.params@.len() == m0.params@.len() + 1
                && m1.params@.drop_last() == m0.params@ && decl_wf(m1.params@.last())),
            m1.ports@ == m0.ports@ || (m1.ports@.len() == m0.ports@.len() + 1
                && m1.ports@.drop_last() == m0.ports@ && port_wf(m1.ports@.last())),
            m1.body@ == m0.body@ || (m1.body@.len() == m0.body@.len() + 1
                && m1.body@.drop_last() == m0.body@ && stmt_wf(m1.body@.last())),
        ensures
            module_wf(m1),
    {
        assert forall|i: int| 0 <= i < m1.params@.len() implies decl_wf(#[trigger] m1.params@[i]) by {
            if m1.params@ != m0.params@ && i < m1.params@.len() - 1 {
                assert(m1.params@[i] == m1.params@.drop_last()[i]);
            }
        }
        assert forall|i: int| 0 <= i < m1.ports@.len() implies port_wf(#[trigger] m1.ports@[i]) by {
            if m1.ports@ != m0.ports@ && i < m1.ports@.len() - 1 {
                assert(m1.ports@[i] == m1.ports@.drop_last()[i]);
            }
        }
        assert forall|i: int| 0 <= i < m1.body@.len() implies stmt_wf(#[trigger] m1.body@[i]) by {
            if m1.body@ != m0.body@ && i < m1.body@.len() - 1 {
                assert(m1.body@[i] == m1.body@.drop_last()[i]);
            }
        }
    }
}

} // verus!
