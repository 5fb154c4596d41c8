//! Instructions that push constants and local variables.
use crate::frame::Frame;
use crate::value::{Kind, Value};
use vstd::prelude::*;

verus! {

impl Frame {
    /// Does nothing.
    pub fn nop(&mut self)
        requires
            old(self)@.wf(),
        ensures
            final(self)@.wf(),
            final(self)@.op_pc == old(self)@.op_pc,
            final(self)@ == old(self)@,
    {
    }

    /// Pushes null.
    pub fn aconst_null(&mut self)
        requires
            old(self)@.wf(),
            old(self)@.can(seq![], 1),
        ensures
            final(self)@.wf(),
            final(self)@.op_pc == old(self)@.op_pc,
            final(self)@ == old(self)@.pushed(Value::Null),
    {
        self.push_value(Value::Null);
    }

    /// Pushes the `int` -1.
    pub fn iconst_m1(&mut self)
        requires
            old(self)@.wf(),
            old(self)@.can(seq![], 1),
        ensures
            final(self)@.wf(),
            final(self)@.op_pc == old(self)@.op_pc,
            final(self)@ == old(self)@.pushed(Value::Int(-1i32)),
    {
        self.push_value(Value::Int(-1));
    }

    /// Pushes the `int` 0.
    pub fn iconst_0(&mut self)
        requires
            old(self)@.wf(),
            old(self)@.can(seq![], 1),
        ensures
            final(self)@.wf(),
            final(self)@.op_pc == old(self)@.op_pc,
            final(self)@ == old(self)@.pushed(Value::Int(0)),
    {
        self.push_value(Value::Int(0));
    }

    /// Pushes the `int` 1.
    pub fn iconst_1(&mut self)
        requires
            old(self)@.wf(),
            old(self)@.can(seq![], 1),
        ensures
            final(self)@.wf(),
            final(self)@.op_pc == old(self)@.op_pc,
            final(self)@ == old(self)@.pushed(Value::Int(1)),
    {
        self.push_value(Value::Int(1));
    }

    /// Pushes the `int` 2.
    pub fn iconst_2(&mut self)
        requires
            old(self)@.wf(),
            old(self)@.can(seq![], 1),
        ensures
            final(self)@.wf(),
            final(self)@.op_pc == old(self)@.op_pc,
            final(self)@ == old(self)@.pushed(Value::Int(2)),
    {
        self.push_value(Value::Int(2));
    }

    /// Pushes the `int` 3.
    pub fn iconst_3(&mut self)
        requires
            old(self)@.wf(),
            old(self)@.can(seq![], 1),
        ensures
            final(self)@.wf(),
            final(self)@.op_pc == old(self)@.op_pc,
            final(self)@ == old(self)@.pushed(Value::Int(3)),
    {
        self.push_value(Value::Int(3));
    }

    /// Pushes the `int` 4.
    pub fn iconst_4(&mut self)
        requires
            old(self)@.wf(),
            old(self)@.can(seq![], 1),
        ensures
            final(self)@.wf(),
            final(self)@.op_pc == old(self)@.op_pc,
            final(self)@ == old(self)@.pushed(Value::Int(4)),
    {
        self.push_value(Value::Int(4));
    }

    /// Pushes the `int` 5.
    pub fn iconst_5(&mut self)
        requires
            old(self)@.wf(),
            old(self)@.can(seq![], 1),
        ensures
            final(self)@.wf(),
            final(self)@.op_pc == old(self)@.op_pc,
            final(self)@ == old(self)@.pushed(Value::Int(5)),
    {
        self.push_value(Value::Int(5));
    }

    /// Pushes the `long` 0.
    pub fn lconst_0(&mut self)
        requires
            old(self)@.wf(),
            old(self)@.can(seq![], 1),
        ensures
            final(self)@.wf(),
            final(self)@.op_pc == old(self)@.op_pc,
            final(self)@ == old(self)@.pushed(Value::Long(0)),
    {
        self.push_value(Value::Long(0));
    }

    /// Pushes the `long` 1.
    pub fn lconst_1(&mut self)
        requires
            old(self)@.wf(),
            old(self)@.can(seq![], 1),
        ensures
            final(self)@.wf(),
            final(self)@.op_pc == old(self)@.op_pc,
            final(self)@ == old(self)@.pushed(Value::Long(1)),
    {
        self.push_value(Value::Long(1));
    }

    /// Pushes the `float` 0.0.
    pub fn fconst_0(&mut self)
        requires
            old(self)@.wf(),
            old(self)@.can(seq![], 1),
        ensures
            final(self)@.wf(),
            final(self)@.op_pc == old(self)@.op_pc,
            final(self)@ == old(self)@.pushed(Value::Float(0)),
    {
        self.push_value(Value::Float(0));
    }

    /// Pushes the `float` 1.0.
    pub fn fconst_1(&mut self)
        requires
            old(self)@.wf(),
            old(self)@.can(seq![], 1),
        ensures
            final(self)@.wf(),
            final(self)@.op_pc == old(self)@.op_pc,
            final(self)@ == old(self)@.pushed(Value::Float(0x3f80_0000)),
    {
        self.push_value(Value::Float(0x3f80_0000));
    }

    /// Pushes the `float` 2.0.
    pub fn fconst_2(&mut self)
        requires
            old(self)@.wf(),
            old(self)@.can(seq![], 1),
        ensures
            final(self)@.wf(),
            final(self)@.op_pc == old(self)@.op_pc,
            final(self)@ == old(self)@.pushed(Value::Float(0x4000_0000)),
    {
        self.push_value(Value::Float(0x4000_0000));
    }

    /// Pushes the `double` 0.0.
    pub fn dconst_0(&mut self)
        requires
            old(self)@.wf(),
            old(self)@.can(seq![], 1),
        ensures
            final(self)@.wf(),
            final(self)@.op_pc == old(self)@.op_pc,
            final(self)@ == old(self)@.pushed(Value::Double(0)),
    {
        self.push_value(Value::Double(0));
    }

    /// Pushes the `double` 1.0.
    pub fn dconst_1(&mut self)
        requires
            old(self)@.wf(),
            old(self)@.can(seq![], 1),
        ensures
            final(self)@.wf(),
            final(self)@.op_pc == old(self)@.op_pc,
            final(self)@ == old(self)@.pushed(Value::Double(0x3ff0_0000_0000_0000)),
    {
        self.push_value(Value::Double(0x3ff0_0000_0000_0000));
    }

    /// Pushes the sign-extended byte operand.
    pub fn bipush(&mut self)
        requires
            old(self)@.wf(),
            old(self)@.operands(1),
            old(self)@.can(seq![], 1),
        ensures
            final(self)@.wf(),
            final(self)@.op_pc == old(self)@.op_pc,
            final(self)@ == old(self)@.at(old(self)@.pc + 1).pushed(Value::Int(old(self)@.i1(old(self)@.pc))),
    {
        let v = self.read_i1();
        self.push_value(Value::Int(v));
    }

    /// Pushes the signed two-byte operand.
    pub fn sipush(&mut self)
        requires
            old(self)@.wf(),
            old(self)@.operands(2),
            old(self)@.can(seq![], 1),
        ensures
            final(self)@.wf(),
            final(self)@.op_pc == old(self)@.op_pc,
            final(self)@ == old(self)@.at(old(self)@.pc + 2).pushed(Value::Int(old(self)@.i2(old(self)@.pc))),
    {
        let v = self.read_i2();
        self.push_value(Value::Int(v));
    }

    /// Pushes an `int` from the local slot named by the byte operand.
    pub fn iload(&mut self)
        requires
            old(self)@.wf(),
            old(self)@.operands(1),
            old(self)@.local_is(old(self)@.u1(old(self)@.pc) as int, Kind::Int),
            old(self)@.can(seq![], 1),
        ensures
            final(self)@.wf(),
            final(self)@.op_pc == old(self)@.op_pc,
            final(self)@ == old(self)@.at(old(self)@.pc + 1).pushed(old(self)@.locals[old(self)@.u1(old(self)@.pc) as int]),
    {
        let pos = self.read_u1();
        let v = self.local(pos as usize);
        self.push_value(v);
    }

    /// Pushes a `long` from the local slot named by the byte operand.
    pub fn lload(&mut self)
        requires
            old(self)@.wf(),
            old(self)@.operands(1),
            old(self)@.local_is(old(self)@.u1(old(self)@.pc) as int, Kind::Long),
            old(self)@.can(seq![], 1),
        ensures
            final(self)@.wf(),
            final(self)@.op_pc == old(self)@.op_pc,
            final(self)@ == old(self)@.at(old(self)@.pc + 1).pushed(old(self)@.locals[old(self)@.u1(old(self)@.pc) as int]),
    {
        let pos = self.read_u1();
        let v = self.local(pos as usize);
        self.push_value(v);
    }

    /// Pushes a `float` from the local slot named by the byte operand.
    pub fn fload(&mut self)
        requires
            old(self)@.wf(),
            old(self)@.operands(1),
            old(self)@.local_is(old(self)@.u1(old(self)@.pc) as int, Kind::Float),
            old(self)@.can(seq![], 1),
        ensures
            final(self)@.wf(),
            final(self)@.op_pc == old(self)@.op_pc,
            final(self)@ == old(self)@.at(old(self)@.pc + 1).pushed(old(self)@.locals[old(self)@.u1(old(self)@.pc) as int]),
    {
        let pos = self.read_u1();
        let v = self.local(pos as usize);
        self.push_value(v);
    }

    /// Pushes a `double` from the local slot named by the byte operand.
    pub fn dload(&mut self)
        requires
            old(self)@.wf(),
            old(self)@.operands(1),
            old(self)@.local_is(old(self)@.u1(old(self)@.pc) as int, Kind::Double),
            old(self)@.can(seq![], 1),
        ensures
            final(self)@.wf(),
            final(self)@.op_pc == old(self)@.op_pc,
            final(self)@ == old(self)@.at(old(self)@.pc + 1).pushed(old(self)@.locals[old(self)@.u1(old(self)@.pc) as int]),
    {
        let pos = self.read_u1();
        let v = self.local(pos as usize);
        self.push_value(v);
    }

    /// Pushes a reference from the local slot named by the byte operand.
    pub fn aload(&mut self)
        requires
            old(self)@.wf(),
            old(self)@.operands(1),
            old(self)@.local_is(old(self)@.u1(old(self)@.pc) as int, Kind::Ref),
            old(self)@.can(seq![], 1),
        ensures
            final(self)@.wf(),
            final(self)@.op_pc == old(self)@.op_pc,
            final(self)@ == old(self)@.at(old(self)@.pc + 1).pushed(old(self)@.locals[old(self)@.u1(old(self)@.pc) as int]),
    {
        let pos = self.read_u1();
        let v = self.local(pos as usize);
        self.push_value(v);
    }

    /// Pushes an `int` from local slot 0.
    pub fn iload_0(&mut self)
        requires
            old(self)@.wf(),
            old(self)@.local_is(0, Kind::Int),
            old(self)@.can(seq![], 1),
        ensures
            final(self)@.wf(),
            final(self)@.op_pc == old(self)@.op_pc,
            final(self)@ == old(self)@.pushed(old(self)@.locals[0]),
    {
        let v = self.local(0);
        self.push_value(v);
    }

    /// Pushes a `long` from local slot 0.
    pub fn lload_0(&mut self)
        requires
            old(self)@.wf(),
            old(self)@.local_is(0, Kind::Long),
            old(self)@.can(seq![], 1),
        ensures
            final(self)@.wf(),
            final(self)@.op_pc == old(self)@.op_pc,
            final(self)@ == old(self)@.pushed(old(self)@.locals[0]),
    {
        let v = self.local(0);
        self.push_value(v);
    }

    /// Pushes a `float` from local slot 0.
    pub fn fload_0(&mut self)
        requires
            old(self)@.wf(),
            old(self)@.local_is(0, Kind::Float),
            old(self)@.can(seq![], 1),
        ensures
            final(self)@.wf(),
            final(self)@.op_pc == old(self)@.op_pc,
            final(self)@ == old(self)@.pushed(old(self)@.locals[0]),
    {
        let v = self.local(0);
        self.push_value(v);
    }

    /// Pushes a `double` from local slot 0.
    pub fn dload_0(&mut self)
        requires
            old(self)@.wf(),
            old(self)@.local_is(0, Kind::Double),
            old(self)@.can(seq![], 1),
        ensures
            final(self)@.wf(),
            final(self)@.op_pc == old(self)@.op_pc,
            final(self)@ == old(self)@.pushed(old(self)@.locals[0]),
    {
        let v = self.local(0);
        self.push_value(v);
    }

    /// Pushes a reference from local slot 0.
    pub fn aload_0(&mut self)
        requires
            old(self)@.wf(),
            old(self)@.local_is(0, Kind::Ref),
            old(self)@.can(seq![], 1),
        ensures
            final(self)@.wf(),
            final(self)@.op_pc == old(self)@.op_pc,
            final(self)@ == old(self)@.pushed(old(self)@.locals[0]),
    {
        let v = self.local(0);
        self.push_value(v);
    }

    /// Pushes an `int` from local slot 1.
    pub fn iload_1(&mut self)
        requires
            old(self)@.wf(),
            old(self)@.local_is(1, Kind::Int),
            old(self)@.can(seq![], 1),
        ensures
            final(self)@.wf(),
            final(self)@.op_pc == old(self)@.op_pc,
            final(self)@ == old(self)@.pushed(old(self)@.locals[1]),
    {
        let v = self.local(1);
        self.push_value(v);
    }

    /// Pushes a `long` from local slot 1.
    pub fn lload_1(&mut self)
        requires
            old(self)@.wf(),
            old(self)@.local_is(1, Kind::Long),
            old(self)@.can(seq![], 1),
        ensures
            final(self)@.wf(),
            final(self)@.op_pc == old(self)@.op_pc,
            final(self)@ == old(self)@.pushed(old(self)@.locals[1]),
    {
        let v = self.local(1);
        self.push_value(v);
    }

    /// Pushes a `float` from local slot 1.
    pub fn fload_1(&mut self)
        requires
            old(self)@.wf(),
            old(self)@.local_is(1, Kind::Float),
            old(self)@.can(seq![], 1),
        ensures
            final(self)@.wf(),
            final(self)@.op_pc == old(self)@.op_pc,
            final(self)@ == old(self)@.pushed(old(self)@.locals[1]),
    {
        let v = self.local(1);
        self.push_value(v);
    }

    /// Pushes a `double` from local slot 1.
    pub fn dload_1(&mut self)
        requires
            old(self)@.wf(),
            old(self)@.local_is(1, Kind::Double),
            old(self)@.can(seq![], 1),
        ensures
            final(self)@.wf(),
            final(self)@.op_pc == old(self)@.op_pc,
            final(self)@ == old(self)@.pushed(old(self)@.locals[1]),
    {
        let v = self.local(1);
        self.push_value(v);
    }

    /// Pushes a reference from local slot 1.
    pub fn aload_1(&mut self)
        requires
            old(self)@.wf(),
            old(self)@.local_is(1, Kind::Ref),
            old(self)@.can(seq![], 1),
        ensures
            final(self)@.wf(),
            final(self)@.op_pc == old(self)@.op_pc,
            final(self)@ == old(self)@.pushed(old(self)@.locals[1]),
    {
        let v = self.local(1);
        self.push_value(v);
    }

    /// Pushes an `int` from local slot 2.
    pub fn iload_2(&mut self)
        requires
            old(self)@.wf(),
            old(self)@.local_is(2, Kind::Int),
            old(self)@.can(seq![], 1),
        ensures
            final(self)@.wf(),
            final(self)@.op_pc == old(self)@.op_pc,
            final(self)@ == old(self)@.pushed(old(self)@.locals[2]),
    {
        let v = self.local(2);
        self.push_value(v);
    }

    /// Pushes a `long` from local slot 2.
    pub fn lload_2(&mut self)
        requires
            old(self)@.wf(),
            old(self)@.local_is(2, Kind::Long),
            old(self)@.can(seq![], 1),
        ensures
            final(self)@.wf(),
            final(self)@.op_pc == old(self)@.op_pc,
            final(self)@ == old(self)@.pushed(old(self)@.locals[2]),
    {
        let v = self.local(2);
        self.push_value(v);
    }

    /// Pushes a `float` from local slot 2.
    pub fn fload_2(&mut self)
        requires
            old(self)@.wf(),
            old(self)@.local_is(2, Kind::Float),
            old(self)@.can(seq![], 1),
        ensures
            final(self)@.wf(),
            final(self)@.op_pc == old(self)@.op_pc,
            final(self)@ == old(self)@.pushed(old(self)@.locals[2]),
    {
        let v = self.local(2);
        self.push_value(v);
    }

    /// Pushes a `double` from local slot 2.
    pub fn dload_2(&mut self)
        requires
            old(self)@.wf(),
            old(self)@.local_is(2, Kind::Double),
            old(self)@.can(seq![], 1),
        ensures
            final(self)@.wf(),
            final(self)@.op_pc == old(self)@.op_pc,
            final(self)@ == old(self)@.pushed(old(self)@.locals[2]),
    {
        let v = self.local(2);
        self.push_value(v);
    }

    /// Pushes a reference from local slot 2.
    pub fn aload_2(&mut self)
        requires
            old(self)@.wf(),
            old(self)@.local_is(2, Kind::Ref),
            old(self)@.can(seq![], 1),
        ensures
            final(self)@.wf(),
            final(self)@.op_pc == old(self)@.op_pc,
            final(self)@ == old(self)@.pushed(old(self)@.locals[2]),
    {
        let v = self.local(2);
        self.push_value(v);
    }

    /// Pushes an `int` from local slot 3.
    pub fn iload_3(&mut self)
        requires
            old(self)@.wf(),
            old(self)@.local_is(3, Kind::Int),
            old(self)@.can(seq![], 1),
        ensures
            final(self)@.wf(),
            final(self)@.op_pc == old(self)@.op_pc,
            final(self)@ == old(self)@.pushed(old(self)@.locals[3]),
    {
        let v = self.local(3);
        self.push_value(v);
    }

    /// Pushes a `long` from local slot 3.
    pub fn lload_3(&mut self)
        requires
            old(self)@.wf(),
            old(self)@.local_is(3, Kind::Long),
            old(self)@.can(seq![], 1),
        ensures
            final(self)@.wf(),
            final(self)@.op_pc == old(self)@.op_pc,
            final(self)@ == old(self)@.pushed(old(self)@.locals[3]),
    {
        let v = self.local(3);
        self.push_value(v);
    }

    /// Pushes a `float` from local slot 3.
    pub fn fload_3(&mut self)
        requires
            old(self)@.wf(),
            old(self)@.local_is(3, Kind::Float),
            old(self)@.can(seq![], 1),
        ensures
            final(self)@.wf(),
            final(self)@.op_pc == old(self)@.op_pc,
            final(self)@ == old(self)@.pushed(old(self)@.locals[3]),
    {
        let v = self.local(3);
        self.push_value(v);
    }

    /// Pushes a `double` from local slot 3.
    pub fn dload_3(&mut self)
        requires
            old(self)@.wf(),
            old(self)@.local_is(3, Kind::Double),
            old(self)@.can(seq![], 1),
        ensures
            final(self)@.wf(),
            final(self)@.op_pc == old(self)@.op_pc,
            final(self)@ == old(self)@.pushed(old(self)@.locals[3]),
    {
        let v = self.local(3);
        self.push_value(v);
    }

    /// Pushes a reference from local slot 3.
    pub fn aload_3(&mut self)
        requires
            old(self)@.wf(),
            old(self)@.local_is(3, Kind::Ref),
            old(self)@.can(seq![], 1),
        ensures
            final(self)@.wf(),
            final(self)@.op_pc == old(self)@.op_pc,
            final(self)@ == old(self)@.pushed(old(self)@.locals[3]),
    {
        let v = self.local(3);
        self.push_value(v);
    }
}

} // verus!
