//! Instructions that write local variables.
use crate::frame::Frame;
use crate::value::{Kind, Value};
use vstd::prelude::*;

verus! {

impl Frame {
    /// Pops an `int` into the local slot named by the byte operand.
    pub fn istore(&mut self)
        requires
            old(self)@.wf(),
            old(self)@.operands(1),
            old(self)@.local_is(old(self)@.u1(old(self)@.pc) as int, Kind::Any),
            old(self)@.can(seq![Kind::Int], 0),
        ensures
            final(self)@.wf(),
            final(self)@.op_pc == old(self)@.op_pc,
            final(self)@ == old(self)@.at(old(self)@.pc + 1).popped(1).with_local(old(self)@.u1(old(self)@.pc) as int, old(self)@.top(0)),
    {
        proof {
            self@.lemma_pops(seq![Kind::Int], 0);
        }
        let pos = self.read_u1();
        let v = self.pop_value();
        self.set_local(pos as usize, v);
    }

    /// Pops a `long` into the local slot named by the byte operand.
    pub fn lstore(&mut self)
        requires
            old(self)@.wf(),
            old(self)@.operands(1),
            old(self)@.local_is(old(self)@.u1(old(self)@.pc) as int, Kind::Any),
            old(self)@.can(seq![Kind::Long], 0),
        ensures
            final(self)@.wf(),
            final(self)@.op_pc == old(self)@.op_pc,
            final(self)@ == old(self)@.at(old(self)@.pc + 1).popped(1).with_local(old(self)@.u1(old(self)@.pc) as int, old(self)@.top(0)),
    {
        proof {
            self@.lemma_pops(seq![Kind::Long], 0);
        }
        let pos = self.read_u1();
        let v = self.pop_value();
        self.set_local(pos as usize, v);
    }

    /// Pops a `float` into the local slot named by the byte operand.
    pub fn fstore(&mut self)
        requires
            old(self)@.wf(),
            old(self)@.operands(1),
            old(self)@.local_is(old(self)@.u1(old(self)@.pc) as int, Kind::Any),
            old(self)@.can(seq![Kind::Float], 0),
        ensures
            final(self)@.wf(),
            final(self)@.op_pc == old(self)@.op_pc,
            final(self)@ == old(self)@.at(old(self)@.pc + 1).popped(1).with_local(old(self)@.u1(old(self)@.pc) as int, old(self)@.top(0)),
    {
        proof {
            self@.lemma_pops(seq![Kind::Float], 0);
        }
        let pos = self.read_u1();
        let v = self.pop_value();
        self.set_local(pos as usize, v);
    }

    /// Pops a `double` into the local slot named by the byte operand.
    pub fn dstore(&mut self)
        requires
            old(self)@.wf(),
            old(self)@.operands(1),
            old(self)@.local_is(old(self)@.u1(old(self)@.pc) as int, Kind::Any),
            old(self)@.can(seq![Kind::Double], 0),
        ensures
            final(self)@.wf(),
            final(self)@.op_pc == old(self)@.op_pc,
            final(self)@ == old(self)@.at(old(self)@.pc + 1).popped(1).with_local(old(self)@.u1(old(self)@.pc) as int, old(self)@.top(0)),
    {
        proof {
            self@.lemma_pops(seq![Kind::Double], 0);
        }
        let pos = self.read_u1();
        let v = self.pop_value();
        self.set_local(pos as usize, v);
    }

    /// Pops a reference into the local slot named by the byte operand.
    pub fn astore(&mut self)
        requires
            old(self)@.wf(),
            old(self)@.operands(1),
            old(self)@.local_is(old(self)@.u1(old(self)@.pc) as int, Kind::Any),
            old(self)@.can(seq![Kind::Ref], 0),
        ensures
            final(self)@.wf(),
            final(self)@.op_pc == old(self)@.op_pc,
            final(self)@ == old(self)@.at(old(self)@.pc + 1).popped(1).with_local(old(self)@.u1(old(self)@.pc) as int, old(self)@.top(0)),
    {
        proof {
            self@.lemma_pops(seq![Kind::Ref], 0);
        }
        let pos = self.read_u1();
        let v = self.pop_value();
        self.set_local(pos as usize, v);
    }

    /// Pops an `int` into local slot 0.
    pub fn istore_0(&mut self)
        requires
            old(self)@.wf(),
            old(self)@.local_is(0, Kind::Any),
            old(self)@.can(seq![Kind::Int], 0),
        ensures
            final(self)@.wf(),
            final(self)@.op_pc == old(self)@.op_pc,
            final(self)@ == old(self)@.popped(1).with_local(0, old(self)@.top(0)),
    {
        proof {
            self@.lemma_pops(seq![Kind::Int], 0);
        }
        let v = self.pop_value();
        self.set_local(0, v);
    }

    /// Pops a `long` into local slot 0.
    pub fn lstore_0(&mut self)
        requires
            old(self)@.wf(),
            old(self)@.local_is(0, Kind::Any),
            old(self)@.can(seq![Kind::Long], 0),
        ensures
            final(self)@.wf(),
            final(self)@.op_pc == old(self)@.op_pc,
            final(self)@ == old(self)@.popped(1).with_local(0, old(self)@.top(0)),
    {
        proof {
            self@.lemma_pops(seq![Kind::Long], 0);
        }
        let v = self.pop_value();
        self.set_local(0, v);
    }

    /// Pops a `float` into local slot 0.
    pub fn fstore_0(&mut self)
        requires
            old(self)@.wf(),
            old(self)@.local_is(0, Kind::Any),
            old(self)@.can(seq![Kind::Float], 0),
        ensures
            final(self)@.wf(),
            final(self)@.op_pc == old(self)@.op_pc,
            final(self)@ == old(self)@.popped(1).with_local(0, old(self)@.top(0)),
    {
        proof {
            self@.lemma_pops(seq![Kind::Float], 0);
        }
        let v = self.pop_value();
        self.set_local(0, v);
    }

    /// Pops a `double` into local slot 0.
    pub fn dstore_0(&mut self)
        requires
            old(self)@.wf(),
            old(self)@.local_is(0, Kind::Any),
            old(self)@.can(seq![Kind::Double], 0),
        ensures
            final(self)@.wf(),
            final(self)@.op_pc == old(self)@.op_pc,
            final(self)@ == old(self)@.popped(1).with_local(0, old(self)@.top(0)),
    {
        proof {
            self@.lemma_pops(seq![Kind::Double], 0);
        }
        let v = self.pop_value();
        self.set_local(0, v);
    }

    /// Pops a reference into local slot 0.
    pub fn astore_0(&mut self)
        requires
            old(self)@.wf(),
            old(self)@.local_is(0, Kind::Any),
            old(self)@.can(seq![Kind::Ref], 0),
        ensures
            final(self)@.wf(),
            final(self)@.op_pc == old(self)@.op_pc,
            final(self)@ == old(self)@.popped(1).with_local(0, old(self)@.top(0)),
    {
        proof {
            self@.lemma_pops(seq![Kind::Ref], 0);
        }
        let v = self.pop_value();
        self.set_local(0, v);
    }

    /// Pops an `int` into local slot 1.
    pub fn istore_1(&mut self)
        requires
            old(self)@.wf(),
            old(self)@.local_is(1, Kind::Any),
            old(self)@.can(seq![Kind::Int], 0),
        ensures
            final(self)@.wf(),
            final(self)@.op_pc == old(self)@.op_pc,
            final(self)@ == old(self)@.popped(1).with_local(1, old(self)@.top(0)),
    {
        proof {
            self@.lemma_pops(seq![Kind::Int], 0);
        }
        let v = self.pop_value();
        self.set_local(1, v);
    }

    /// Pops a `long` into local slot 1.
    pub fn lstore_1(&mut self)
        requires
            old(self)@.wf(),
            old(self)@.local_is(1, Kind::Any),
            old(self)@.can(seq![Kind::Long], 0),
        ensures
            final(self)@.wf(),
            final(self)@.op_pc == old(self)@.op_pc,
            final(self)@ == old(self)@.popped(1).with_local(1, old(self)@.top(0)),
    {
        proof {
            self@.lemma_pops(seq![Kind::Long], 0);
        }
        let v = self.pop_value();
        self.set_local(1, v);
    }

    /// Pops a `float` into local slot 1.
    pub fn fstore_1(&mut self)
        requires
            old(self)@.wf(),
            old(self)@.local_is(1, Kind::Any),
            old(self)@.can(seq![Kind::Float], 0),
        ensures
            final(self)@.wf(),
            final(self)@.op_pc == old(self)@.op_pc,
            final(self)@ == old(self)@.popped(1).with_local(1, old(self)@.top(0)),
    {
        proof {
            self@.lemma_pops(seq![Kind::Float], 0);
        }
        let v = self.pop_value();
        self.set_local(1, v);
    }

    /// Pops a `double` into local slot 1.
    pub fn dstore_1(&mut self)
        requires
            old(self)@.wf(),
            old(self)@.local_is(1, Kind::Any),
            old(self)@.can(seq![Kind::Double], 0),
        ensures
            final(self)@.wf(),
            final(self)@.op_pc == old(self)@.op_pc,
            final(self)@ == old(self)@.popped(1).with_local(1, old(self)@.top(0)),
    {
        proof {
            self@.lemma_pops(seq![Kind::Double], 0);
        }
        let v = self.pop_value();
        self.set_local(1, v);
    }

    /// Pops a reference into local slot 1.
    pub fn astore_1(&mut self)
        requires
            old(self)@.wf(),
            old(self)@.local_is(1, Kind::Any),
            old(self)@.can(seq![Kind::Ref], 0),
        ensures
            final(self)@.wf(),
            final(self)@.op_pc == old(self)@.op_pc,
            final(self)@ == old(self)@.popped(1).with_local(1, old(self)@.top(0)),
    {
        proof {
            self@.lemma_pops(seq![Kind::Ref], 0);
        }
        let v = self.pop_value();
        self.set_local(1, v);
    }

    /// Pops an `int` into local slot 2.
    pub fn istore_2(&mut self)
        requires
            old(self)@.wf(),
            old(self)@.local_is(2, Kind::Any),
            old(self)@.can(seq![Kind::Int], 0),
        ensures
            final(self)@.wf(),
            final(self)@.op_pc == old(self)@.op_pc,
            final(self)@ == old(self)@.popped(1).with_local(2, old(self)@.top(0)),
    {
        proof {
            self@.lemma_pops(seq![Kind::Int], 0);
        }
        let v = self.pop_value();
        self.set_local(2, v);
    }

    /// Pops a `long` into local slot 2.
    pub fn lstore_2(&mut self)
        requires
            old(self)@.wf(),
            old(self)@.local_is(2, Kind::Any),
            old(self)@.can(seq![Kind::Long], 0),
        ensures
            final(self)@.wf(),
            final(self)@.op_pc == old(self)@.op_pc,
            final(self)@ == old(self)@.popped(1).with_local(2, old(self)@.top(0)),
    {
        proof {
            self@.lemma_pops(seq![Kind::Long], 0);
        }
        let v = self.pop_value();
        self.set_local(2, v);
    }

    /// Pops a `float` into local slot 2.
    pub fn fstore_2(&mut self)
        requires
            old(self)@.wf(),
            old(self)@.local_is(2, Kind::Any),
            old(self)@.can(seq![Kind::Float], 0),
        ensures
            final(self)@.wf(),
            final(self)@.op_pc == old(self)@.op_pc,
            final(self)@ == old(self)@.popped(1).with_local(2, old(self)@.top(0)),
    {
        proof {
            self@.lemma_pops(seq![Kind::Float], 0);
        }
        let v = self.pop_value();
        self.set_local(2, v);
    }

    /// Pops a `double` into local slot 2.
    pub fn dstore_2(&mut self)
        requires
            old(self)@.wf(),
            old(self)@.local_is(2, Kind::Any),
            old(self)@.can(seq![Kind::Double], 0),
        ensures
            final(self)@.wf(),
            final(self)@.op_pc == old(self)@.op_pc,
            final(self)@ == old(self)@.popped(1).with_local(2, old(self)@.top(0)),
    {
        proof {
            self@.lemma_pops(seq![Kind::Double], 0);
        }
        let v = self.pop_value();
        self.set_local(2, v);
    }

    /// Pops a reference into local slot 2.
    pub fn astore_2(&mut self)
        requires
            old(self)@.wf(),
            old(self)@.local_is(2, Kind::Any),
            old(self)@.can(seq![Kind::Ref], 0),
        ensures
            final(self)@.wf(),
            final(self)@.op_pc == old(self)@.op_pc,
            final(self)@ == old(self)@.popped(1).with_local(2, old(self)@.top(0)),
    {
        proof {
            self@.lemma_pops(seq![Kind::Ref], 0);
        }
        let v = self.pop_value();
        self.set_local(2, v);
    }

    /// Pops an `int` into local slot 3.
    pub fn istore_3(&mut self)
        requires
            old(self)@.wf(),
            old(self)@.local_is(3, Kind::Any),
            old(self)@.can(seq![Kind::Int], 0),
        ensures
            final(self)@.wf(),
            final(self)@.op_pc == old(self)@.op_pc,
            final(self)@ == old(self)@.popped(1).with_local(3, old(self)@.top(0)),
    {
        proof {
            self@.lemma_pops(seq![Kind::Int], 0);
        }
        let v = self.pop_value();
        self.set_local(3, v);
    }

    /// Pops a `long` into local slot 3.
    pub fn lstore_3(&mut self)
        requires
            old(self)@.wf(),
            old(self)@.local_is(3, Kind::Any),
            old(self)@.can(seq![Kind::Long], 0),
        ensures
            final(self)@.wf(),
            final(self)@.op_pc == old(self)@.op_pc,
            final(self)@ == old(self)@.popped(1).with_local(3, old(self)@.top(0)),
    {
        proof {
            self@.lemma_pops(seq![Kind::Long], 0);
        }
        let v = self.pop_value();
        self.set_local(3, v);
    }

    /// Pops a `float` into local slot 3.
    pub fn fstore_3(&mut self)
        requires
            old(self)@.wf(),
            old(self)@.local_is(3, Kind::Any),
            old(self)@.can(seq![Kind::Float], 0),
        ensures
            final(self)@.wf(),
            final(self)@.op_pc == old(self)@.op_pc,
            final(self)@ == old(self)@.popped(1).with_local(3, old(self)@.top(0)),
    {
        proof {
            self@.lemma_pops(seq![Kind::Float], 0);
        }
        let v = self.pop_value();
        self.set_local(3, v);
    }

    /// Pops a `double` into local slot 3.
    pub fn dstore_3(&mut self)
        requires
            old(self)@.wf(),
            old(self)@.local_is(3, Kind::Any),
            old(self)@.can(seq![Kind::Double], 0),
        ensures
            final(self)@.wf(),
            final(self)@.op_pc == old(self)@.op_pc,
            final(self)@ == old(self)@.popped(1).with_local(3, old(self)@.top(0)),
    {
        proof {
            self@.lemma_pops(seq![Kind::Double], 0);
        }
        let v = self.pop_value();
        self.set_local(3, v);
    }

    /// Pops a reference into local slot 3.
    pub fn astore_3(&mut self)
        requires
            old(self)@.wf(),
            old(self)@.local_is(3, Kind::Any),
            old(self)@.can(seq![Kind::Ref], 0),
        ensures
            final(self)@.wf(),
            final(self)@.op_pc == old(self)@.op_pc,
            final(self)@ == old(self)@.popped(1).with_local(3, old(self)@.top(0)),
    {
        proof {
            self@.lemma_pops(seq![Kind::Ref], 0);
        }
        let v = self.pop_value();
        self.set_local(3, v);
    }

    /// Adds the signed byte operand to the `int` in the local slot named by the first operand,
    /// wrapping.
    pub fn iinc(&mut self)
        requires
            old(self)@.wf(),
            old(self)@.operands(2),
            old(self)@.local_is(old(self)@.u1(old(self)@.pc) as int, Kind::Int),
        ensures
            final(self)@.wf(),
            final(self)@.op_pc == old(self)@.op_pc,
            final(self)@ == old(self)@.at(old(self)@.pc + 2).with_local(old(self)@.u1(old(self)@.pc) as int, Value::Int(old(self)@.locals[old(self)@.u1(old(self)@.pc) as int]->Int_0.wrapping_add(old(self)@.i1(old(self)@.pc + 1)))),
    {
        let pos = self.read_u1();
        let factor = self.read_i1();
        match self.local(pos as usize) {
            Value::Int(v) => self.set_local(pos as usize, Value::Int(v.wrapping_add(factor))),
            _ => {},
        }
    }
}

} // verus!
