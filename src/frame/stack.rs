//! Instructions that rearrange the operand stack.
use crate::frame::Frame;
use crate::value::{Kind, Value};
use vstd::prelude::*;

verus! {

impl Frame {
    /// Discards the top value.
    pub fn pop(&mut self)
        requires
            old(self)@.wf(),
            old(self)@.can(seq![Kind::Any], 0),
        ensures
            final(self)@.wf(),
            final(self)@.op_pc == old(self)@.op_pc,
            final(self)@ == old(self)@.popped(1),
    {
        proof {
            self@.lemma_pops(seq![Kind::Any], 0);
        }
        self.pop_value();
    }

    /// Discards the top two values.
    pub fn pop2(&mut self)
        requires
            old(self)@.wf(),
            old(self)@.can(seq![Kind::Any, Kind::Any], 0),
        ensures
            final(self)@.wf(),
            final(self)@.op_pc == old(self)@.op_pc,
            final(self)@ == old(self)@.popped(2),
    {
        proof {
            self@.lemma_pops(seq![Kind::Any, Kind::Any], 0);
        }
        self.pop_value();
        self.pop_value();
    }

    /// Duplicates the top value.
    pub fn dup(&mut self)
        requires
            old(self)@.wf(),
            old(self)@.can(seq![Kind::Any], 2),
        ensures
            final(self)@.wf(),
            final(self)@.op_pc == old(self)@.op_pc,
            final(self)@ == old(self)@.pushed(old(self)@.top(0)),
    {
        proof {
            self@.lemma_pops(seq![Kind::Any], 2);
        }
        let v = self.pop_value();
        self.push_value(v);
        self.push_value(v);
    }

    /// Duplicates the top value beneath the second.
    pub fn dup_x1(&mut self)
        requires
            old(self)@.wf(),
            old(self)@.can(seq![Kind::Any, Kind::Any], 3),
        ensures
            final(self)@.wf(),
            final(self)@.op_pc == old(self)@.op_pc,
            final(self)@ == old(self)@.popped(2).pushed(old(self)@.top(0)).pushed(old(self)@.top(1)).pushed(old(self)@.top(0)),
    {
        proof {
            self@.lemma_pops(seq![Kind::Any, Kind::Any], 3);
        }
        let v1 = self.pop_value();
        let v2 = self.pop_value();
        self.push_value(v1);
        self.push_value(v2);
        self.push_value(v1);
    }

    /// Duplicates the top value beneath the third.
    pub fn dup_x2(&mut self)
        requires
            old(self)@.wf(),
            old(self)@.can(seq![Kind::Any, Kind::Any, Kind::Any], 4),
        ensures
            final(self)@.wf(),
            final(self)@.op_pc == old(self)@.op_pc,
            final(self)@ == old(self)@.popped(3).pushed(old(self)@.top(0)).pushed(old(self)@.top(2)).pushed(old(self)@.top(1)).pushed(old(self)@.top(0)),
    {
        proof {
            self@.lemma_pops(seq![Kind::Any, Kind::Any, Kind::Any], 4);
        }
        let v1 = self.pop_value();
        let v2 = self.pop_value();
        let v3 = self.pop_value();
        self.push_value(v1);
        self.push_value(v3);
        self.push_value(v2);
        self.push_value(v1);
    }

    /// Duplicates the top two values.
    pub fn dup2(&mut self)
        requires
            old(self)@.wf(),
            old(self)@.can(seq![Kind::Any, Kind::Any], 4),
        ensures
            final(self)@.wf(),
            final(self)@.op_pc == old(self)@.op_pc,
            final(self)@ == old(self)@.pushed(old(self)@.top(1)).pushed(old(self)@.top(0)),
    {
        proof {
            self@.lemma_pops(seq![Kind::Any, Kind::Any], 4);
        }
        let v1 = self.pop_value();
        let v2 = self.pop_value();
        self.push_value(v2);
        self.push_value(v1);
        self.push_value(v2);
        self.push_value(v1);
    }

    /// Duplicates the top two values beneath the third.
    pub fn dup2_x1(&mut self)
        requires
            old(self)@.wf(),
            old(self)@.can(seq![Kind::Any, Kind::Any, Kind::Any], 5),
        ensures
            final(self)@.wf(),
            final(self)@.op_pc == old(self)@.op_pc,
            final(self)@ == old(self)@.popped(3).pushed(old(self)@.top(1)).pushed(old(self)@.top(0)).pushed(old(self)@.top(2)).pushed(old(self)@.top(1)).pushed(old(self)@.top(0)),
    {
        proof {
            self@.lemma_pops(seq![Kind::Any, Kind::Any, Kind::Any], 5);
        }
        let v1 = self.pop_value();
        let v2 = self.pop_value();
        let v3 = self.pop_value();
        self.push_value(v2);
        self.push_value(v1);
        self.push_value(v3);
        self.push_value(v2);
        self.push_value(v1);
    }

    /// Duplicates the top two values beneath the fourth.
    pub fn dup2_x2(&mut self)
        requires
            old(self)@.wf(),
            old(self)@.can(seq![Kind::Any, Kind::Any, Kind::Any, Kind::Any], 6),
        ensures
            final(self)@.wf(),
            final(self)@.op_pc == old(self)@.op_pc,
            final(self)@ == old(self)@.popped(4).pushed(old(self)@.top(1)).pushed(old(self)@.top(0)).pushed(old(self)@.top(3)).pushed(old(self)@.top(2)).pushed(old(self)@.top(1)).pushed(old(self)@.top(0)),
    {
        proof {
            self@.lemma_pops(seq![Kind::Any, Kind::Any, Kind::Any, Kind::Any], 6);
        }
        let v1 = self.pop_value();
        let v2 = self.pop_value();
        let v3 = self.pop_value();
        let v4 = self.pop_value();
        self.push_value(v2);
        self.push_value(v1);
        self.push_value(v4);
        self.push_value(v3);
        self.push_value(v2);
        self.push_value(v1);
    }

    /// Exchanges the top two values.
    pub fn swap(&mut self)
        requires
            old(self)@.wf(),
            old(self)@.can(seq![Kind::Any, Kind::Any], 2),
        ensures
            final(self)@.wf(),
            final(self)@.op_pc == old(self)@.op_pc,
            final(self)@ == old(self)@.popped(2).pushed(old(self)@.top(0)).pushed(old(self)@.top(1)),
    {
        proof {
            self@.lemma_pops(seq![Kind::Any, Kind::Any], 2);
        }
        let v1 = self.pop_value();
        let v2 = self.pop_value();
        self.push_value(v1);
        self.push_value(v2);
    }
}

} // verus!
