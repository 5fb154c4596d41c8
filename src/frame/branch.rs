//! Conditional and unconditional branches.
use crate::frame::Frame;
use crate::value::{Kind, Value};
use vstd::prelude::*;

verus! {

impl Frame {
    /// Pops an `int` and branches by the signed two-byte offset when it is zero. The offset is
    /// relative to the branch instruction; otherwise execution goes on after the two offset bytes.
    pub fn ifeq(&mut self)
        requires
            old(self)@.wf(),
            old(self)@.operands(2),
            old(self)@.can(seq![Kind::Int], 0),
        ensures
            final(self)@.wf(),
            final(self)@.op_pc == old(self)@.op_pc,
            (old(self)@.top(0)->Int_0 == 0) ==> final(self)@ == old(self)@.popped(1).at(old(self)@.op_pc + old(self)@.i2(old(self)@.pc)),
            !(old(self)@.top(0)->Int_0 == 0) ==> final(self)@ == old(self)@.popped(1).at(old(self)@.pc + 2),
    {
        proof {
            self@.lemma_pops(seq![Kind::Int], 0);
        }
        let v = self.pop_int();
        if v == 0 {
            let branch = self.read_i2();
            let target = self.op_pc() + branch;
            self.goto_abs(target);
        } else {
            let next = self.pc() + 2;
            self.goto_abs(next);
        }
    }

    /// Pops an `int` and branches by the signed two-byte offset when it is not zero. The offset is
    /// relative to the branch instruction; otherwise execution goes on after the two offset bytes.
    pub fn ifne(&mut self)
        requires
            old(self)@.wf(),
            old(self)@.operands(2),
            old(self)@.can(seq![Kind::Int], 0),
        ensures
            final(self)@.wf(),
            final(self)@.op_pc == old(self)@.op_pc,
            (old(self)@.top(0)->Int_0 != 0) ==> final(self)@ == old(self)@.popped(1).at(old(self)@.op_pc + old(self)@.i2(old(self)@.pc)),
            !(old(self)@.top(0)->Int_0 != 0) ==> final(self)@ == old(self)@.popped(1).at(old(self)@.pc + 2),
    {
        proof {
            self@.lemma_pops(seq![Kind::Int], 0);
        }
        let v = self.pop_int();
        if v != 0 {
            let branch = self.read_i2();
            let target = self.op_pc() + branch;
            self.goto_abs(target);
        } else {
            let next = self.pc() + 2;
            self.goto_abs(next);
        }
    }

    /// Pops an `int` and branches by the signed two-byte offset when it is negative. The offset is
    /// relative to the branch instruction; otherwise execution goes on after the two offset bytes.
    pub fn iflt(&mut self)
        requires
            old(self)@.wf(),
            old(self)@.operands(2),
            old(self)@.can(seq![Kind::Int], 0),
        ensures
            final(self)@.wf(),
            final(self)@.op_pc == old(self)@.op_pc,
            (old(self)@.top(0)->Int_0 < 0) ==> final(self)@ == old(self)@.popped(1).at(old(self)@.op_pc + old(self)@.i2(old(self)@.pc)),
            !(old(self)@.top(0)->Int_0 < 0) ==> final(self)@ == old(self)@.popped(1).at(old(self)@.pc + 2),
    {
        proof {
            self@.lemma_pops(seq![Kind::Int], 0);
        }
        let v = self.pop_int();
        if v < 0 {
            let branch = self.read_i2();
            let target = self.op_pc() + branch;
            self.goto_abs(target);
        } else {
            let next = self.pc() + 2;
            self.goto_abs(next);
        }
    }

    /// Pops an `int` and branches by the signed two-byte offset when it is not negative. The offset
    /// is relative to the branch instruction; otherwise execution goes on after the two offset
    /// bytes.
    pub fn ifge(&mut self)
        requires
            old(self)@.wf(),
            old(self)@.operands(2),
            old(self)@.can(seq![Kind::Int], 0),
        ensures
            final(self)@.wf(),
            final(self)@.op_pc == old(self)@.op_pc,
            (old(self)@.top(0)->Int_0 >= 0) ==> final(self)@ == old(self)@.popped(1).at(old(self)@.op_pc + old(self)@.i2(old(self)@.pc)),
            !(old(self)@.top(0)->Int_0 >= 0) ==> final(self)@ == old(self)@.popped(1).at(old(self)@.pc + 2),
    {
        proof {
            self@.lemma_pops(seq![Kind::Int], 0);
        }
        let v = self.pop_int();
        if v >= 0 {
            let branch = self.read_i2();
            let target = self.op_pc() + branch;
            self.goto_abs(target);
        } else {
            let next = self.pc() + 2;
            self.goto_abs(next);
        }
    }

    /// Pops an `int` and branches by the signed two-byte offset when it is positive. The offset is
    /// relative to the branch instruction; otherwise execution goes on after the two offset bytes.
    pub fn ifgt(&mut self)
        requires
            old(self)@.wf(),
            old(self)@.operands(2),
            old(self)@.can(seq![Kind::Int], 0),
        ensures
            final(self)@.wf(),
            final(self)@.op_pc == old(self)@.op_pc,
            (old(self)@.top(0)->Int_0 > 0) ==> final(self)@ == old(self)@.popped(1).at(old(self)@.op_pc + old(self)@.i2(old(self)@.pc)),
            !(old(self)@.top(0)->Int_0 > 0) ==> final(self)@ == old(self)@.popped(1).at(old(self)@.pc + 2),
    {
        proof {
            self@.lemma_pops(seq![Kind::Int], 0);
        }
        let v = self.pop_int();
        if v > 0 {
            let branch = self.read_i2();
            let target = self.op_pc() + branch;
            self.goto_abs(target);
        } else {
            let next = self.pc() + 2;
            self.goto_abs(next);
        }
    }

    /// Pops an `int` and branches by the signed two-byte offset when it is not positive. The offset
    /// is relative to the branch instruction; otherwise execution goes on after the two offset
    /// bytes.
    pub fn ifle(&mut self)
        requires
            old(self)@.wf(),
            old(self)@.operands(2),
            old(self)@.can(seq![Kind::Int], 0),
        ensures
            final(self)@.wf(),
            final(self)@.op_pc == old(self)@.op_pc,
            (old(self)@.top(0)->Int_0 <= 0) ==> final(self)@ == old(self)@.popped(1).at(old(self)@.op_pc + old(self)@.i2(old(self)@.pc)),
            !(old(self)@.top(0)->Int_0 <= 0) ==> final(self)@ == old(self)@.popped(1).at(old(self)@.pc + 2),
    {
        proof {
            self@.lemma_pops(seq![Kind::Int], 0);
        }
        let v = self.pop_int();
        if v <= 0 {
            let branch = self.read_i2();
            let target = self.op_pc() + branch;
            self.goto_abs(target);
        } else {
            let next = self.pc() + 2;
            self.goto_abs(next);
        }
    }

    /// Pops two `int`s and branches by the signed two-byte offset when the one pushed first is
    /// equal to the other. The offset is relative to the branch instruction; otherwise execution
    /// goes on after the two offset bytes.
    pub fn if_icmpeq(&mut self)
        requires
            old(self)@.wf(),
            old(self)@.operands(2),
            old(self)@.can(seq![Kind::Int, Kind::Int], 0),
        ensures
            final(self)@.wf(),
            final(self)@.op_pc == old(self)@.op_pc,
            (old(self)@.top(1)->Int_0 == old(self)@.top(0)->Int_0) ==> final(self)@ == old(self)@.popped(2).at(old(self)@.op_pc + old(self)@.i2(old(self)@.pc)),
            !(old(self)@.top(1)->Int_0 == old(self)@.top(0)->Int_0) ==> final(self)@ == old(self)@.popped(2).at(old(self)@.pc + 2),
    {
        proof {
            self@.lemma_pops(seq![Kind::Int, Kind::Int], 0);
        }
        let v2 = self.pop_int();
        let v1 = self.pop_int();
        if v1 == v2 {
            let branch = self.read_i2();
            let target = self.op_pc() + branch;
            self.goto_abs(target);
        } else {
            let next = self.pc() + 2;
            self.goto_abs(next);
        }
    }

    /// Pops two `int`s and branches by the signed two-byte offset when the one pushed first is
    /// different from the other. The offset is relative to the branch instruction; otherwise
    /// execution goes on after the two offset bytes.
    pub fn if_icmpne(&mut self)
        requires
            old(self)@.wf(),
            old(self)@.operands(2),
            old(self)@.can(seq![Kind::Int, Kind::Int], 0),
        ensures
            final(self)@.wf(),
            final(self)@.op_pc == old(self)@.op_pc,
            (old(self)@.top(1)->Int_0 != old(self)@.top(0)->Int_0) ==> final(self)@ == old(self)@.popped(2).at(old(self)@.op_pc + old(self)@.i2(old(self)@.pc)),
            !(old(self)@.top(1)->Int_0 != old(self)@.top(0)->Int_0) ==> final(self)@ == old(self)@.popped(2).at(old(self)@.pc + 2),
    {
        proof {
            self@.lemma_pops(seq![Kind::Int, Kind::Int], 0);
        }
        let v2 = self.pop_int();
        let v1 = self.pop_int();
        if v1 != v2 {
            let branch = self.read_i2();
            let target = self.op_pc() + branch;
            self.goto_abs(target);
        } else {
            let next = self.pc() + 2;
            self.goto_abs(next);
        }
    }

    /// Pops two `int`s and branches by the signed two-byte offset when the one pushed first is
    /// below the other. The offset is relative to the branch instruction; otherwise execution goes
    /// on after the two offset bytes.
    pub fn if_icmplt(&mut self)
        requires
            old(self)@.wf(),
            old(self)@.operands(2),
            old(self)@.can(seq![Kind::Int, Kind::Int], 0),
        ensures
            final(self)@.wf(),
            final(self)@.op_pc == old(self)@.op_pc,
            (old(self)@.top(1)->Int_0 < old(self)@.top(0)->Int_0) ==> final(self)@ == old(self)@.popped(2).at(old(self)@.op_pc + old(self)@.i2(old(self)@.pc)),
            !(old(self)@.top(1)->Int_0 < old(self)@.top(0)->Int_0) ==> final(self)@ == old(self)@.popped(2).at(old(self)@.pc + 2),
    {
        proof {
            self@.lemma_pops(seq![Kind::Int, Kind::Int], 0);
        }
        let v2 = self.pop_int();
        let v1 = self.pop_int();
        if v1 < v2 {
            let branch = self.read_i2();
            let target = self.op_pc() + branch;
            self.goto_abs(target);
        } else {
            let next = self.pc() + 2;
            self.goto_abs(next);
        }
    }

    /// Pops two `int`s and branches by the signed two-byte offset when the one pushed first is not
    /// below the other. The offset is relative to the branch instruction; otherwise execution goes
    /// on after the two offset bytes.
    pub fn if_icmpge(&mut self)
        requires
            old(self)@.wf(),
            old(self)@.operands(2),
            old(self)@.can(seq![Kind::Int, Kind::Int], 0),
        ensures
            final(self)@.wf(),
            final(self)@.op_pc == old(self)@.op_pc,
            (old(self)@.top(1)->Int_0 >= old(self)@.top(0)->Int_0) ==> final(self)@ == old(self)@.popped(2).at(old(self)@.op_pc + old(self)@.i2(old(self)@.pc)),
            !(old(self)@.top(1)->Int_0 >= old(self)@.top(0)->Int_0) ==> final(self)@ == old(self)@.popped(2).at(old(self)@.pc + 2),
    {
        proof {
            self@.lemma_pops(seq![Kind::Int, Kind::Int], 0);
        }
        let v2 = self.pop_int();
        let v1 = self.pop_int();
        if v1 >= v2 {
            let branch = self.read_i2();
            let target = self.op_pc() + branch;
            self.goto_abs(target);
        } else {
            let next = self.pc() + 2;
            self.goto_abs(next);
        }
    }

    /// Pops two `int`s and branches by the signed two-byte offset when the one pushed first is
    /// above the other. The offset is relative to the branch instruction; otherwise execution goes
    /// on after the two offset bytes.
    pub fn if_icmpgt(&mut self)
        requires
            old(self)@.wf(),
            old(self)@.operands(2),
            old(self)@.can(seq![Kind::Int, Kind::Int], 0),
        ensures
            final(self)@.wf(),
            final(self)@.op_pc == old(self)@.op_pc,
            (old(self)@.top(1)->Int_0 > old(self)@.top(0)->Int_0) ==> final(self)@ == old(self)@.popped(2).at(old(self)@.op_pc + old(self)@.i2(old(self)@.pc)),
            !(old(self)@.top(1)->Int_0 > old(self)@.top(0)->Int_0) ==> final(self)@ == old(self)@.popped(2).at(old(self)@.pc + 2),
    {
        proof {
            self@.lemma_pops(seq![Kind::Int, Kind::Int], 0);
        }
        let v2 = self.pop_int();
        let v1 = self.pop_int();
        if v1 > v2 {
            let branch = self.read_i2();
            let target = self.op_pc() + branch;
            self.goto_abs(target);
        } else {
            let next = self.pc() + 2;
            self.goto_abs(next);
        }
    }

    /// Pops two `int`s and branches by the signed two-byte offset when the one pushed first is not
    /// above the other. The offset is relative to the branch instruction; otherwise execution goes
    /// on after the two offset bytes.
    pub fn if_icmple(&mut self)
        requires
            old(self)@.wf(),
            old(self)@.operands(2),
            old(self)@.can(seq![Kind::Int, Kind::Int], 0),
        ensures
            final(self)@.wf(),
            final(self)@.op_pc == old(self)@.op_pc,
            (old(self)@.top(1)->Int_0 <= old(self)@.top(0)->Int_0) ==> final(self)@ == old(self)@.popped(2).at(old(self)@.op_pc + old(self)@.i2(old(self)@.pc)),
            !(old(self)@.top(1)->Int_0 <= old(self)@.top(0)->Int_0) ==> final(self)@ == old(self)@.popped(2).at(old(self)@.pc + 2),
    {
        proof {
            self@.lemma_pops(seq![Kind::Int, Kind::Int], 0);
        }
        let v2 = self.pop_int();
        let v1 = self.pop_int();
        if v1 <= v2 {
            let branch = self.read_i2();
            let target = self.op_pc() + branch;
            self.goto_abs(target);
        } else {
            let next = self.pc() + 2;
            self.goto_abs(next);
        }
    }

    /// Pops two references and branches by the signed two-byte offset when they are the same
    /// reference. The offset is relative to the branch instruction; otherwise execution goes on
    /// after the two offset bytes.
    pub fn if_acmpeq(&mut self)
        requires
            old(self)@.wf(),
            old(self)@.operands(2),
            old(self)@.can(seq![Kind::Ref, Kind::Ref], 0),
        ensures
            final(self)@.wf(),
            final(self)@.op_pc == old(self)@.op_pc,
            (old(self)@.top(1) == old(self)@.top(0)) ==> final(self)@ == old(self)@.popped(2).at(old(self)@.op_pc + old(self)@.i2(old(self)@.pc)),
            !(old(self)@.top(1) == old(self)@.top(0)) ==> final(self)@ == old(self)@.popped(2).at(old(self)@.pc + 2),
    {
        proof {
            self@.lemma_pops(seq![Kind::Ref, Kind::Ref], 0);
        }
        let v2 = self.pop_value();
        let v1 = self.pop_value();
        if v1 == v2 {
            let branch = self.read_i2();
            let target = self.op_pc() + branch;
            self.goto_abs(target);
        } else {
            let next = self.pc() + 2;
            self.goto_abs(next);
        }
    }

    /// Pops two references and branches by the signed two-byte offset when they are different
    /// references. The offset is relative to the branch instruction; otherwise execution goes on
    /// after the two offset bytes.
    pub fn if_acmpne(&mut self)
        requires
            old(self)@.wf(),
            old(self)@.operands(2),
            old(self)@.can(seq![Kind::Ref, Kind::Ref], 0),
        ensures
            final(self)@.wf(),
            final(self)@.op_pc == old(self)@.op_pc,
            (old(self)@.top(1) != old(self)@.top(0)) ==> final(self)@ == old(self)@.popped(2).at(old(self)@.op_pc + old(self)@.i2(old(self)@.pc)),
            !(old(self)@.top(1) != old(self)@.top(0)) ==> final(self)@ == old(self)@.popped(2).at(old(self)@.pc + 2),
    {
        proof {
            self@.lemma_pops(seq![Kind::Ref, Kind::Ref], 0);
        }
        let v2 = self.pop_value();
        let v1 = self.pop_value();
        if v1 != v2 {
            let branch = self.read_i2();
            let target = self.op_pc() + branch;
            self.goto_abs(target);
        } else {
            let next = self.pc() + 2;
            self.goto_abs(next);
        }
    }

    /// Pops a reference and branches by the signed two-byte offset when it is null. The offset is
    /// relative to the branch instruction; otherwise execution goes on after the two offset bytes.
    pub fn if_null(&mut self)
        requires
            old(self)@.wf(),
            old(self)@.operands(2),
            old(self)@.can(seq![Kind::Ref], 0),
        ensures
            final(self)@.wf(),
            final(self)@.op_pc == old(self)@.op_pc,
            (old(self)@.top(0) is Null) ==> final(self)@ == old(self)@.popped(1).at(old(self)@.op_pc + old(self)@.i2(old(self)@.pc)),
            !(old(self)@.top(0) is Null) ==> final(self)@ == old(self)@.popped(1).at(old(self)@.pc + 2),
    {
        proof {
            self@.lemma_pops(seq![Kind::Ref], 0);
        }
        let v = self.pop_value();
        if v == Value::Null {
            let branch = self.read_i2();
            let target = self.op_pc() + branch;
            self.goto_abs(target);
        } else {
            let next = self.pc() + 2;
            self.goto_abs(next);
        }
    }

    /// Pops a reference and branches by the signed two-byte offset when it is not null. The offset
    /// is relative to the branch instruction; otherwise execution goes on after the two offset
    /// bytes.
    pub fn if_non_null(&mut self)
        requires
            old(self)@.wf(),
            old(self)@.operands(2),
            old(self)@.can(seq![Kind::Ref], 0),
        ensures
            final(self)@.wf(),
            final(self)@.op_pc == old(self)@.op_pc,
            (!(old(self)@.top(0) is Null)) ==> final(self)@ == old(self)@.popped(1).at(old(self)@.op_pc + old(self)@.i2(old(self)@.pc)),
            !(!(old(self)@.top(0) is Null)) ==> final(self)@ == old(self)@.popped(1).at(old(self)@.pc + 2),
    {
        proof {
            self@.lemma_pops(seq![Kind::Ref], 0);
        }
        let v = self.pop_value();
        if v != Value::Null {
            let branch = self.read_i2();
            let target = self.op_pc() + branch;
            self.goto_abs(target);
        } else {
            let next = self.pc() + 2;
            self.goto_abs(next);
        }
    }

    /// Branches by the signed two-byte offset, relative to this instruction.
    pub fn goto(&mut self)
        requires
            old(self)@.wf(),
            old(self)@.operands(2),
        ensures
            final(self)@.wf(),
            final(self)@.op_pc == old(self)@.op_pc,
            final(self)@ == old(self)@.at(old(self)@.op_pc + old(self)@.i2(old(self)@.pc)),
    {
        let branch = self.read_i2();
        let target = self.op_pc() + branch;
        self.goto_abs(target);
    }
}

} // verus!
