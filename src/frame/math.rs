//! Integer arithmetic, bitwise and shift instructions.
use crate::frame::{fault_heap, fault_ref, Frame};
use crate::heap::{Heap, ARITHMETIC_CLASS};
use crate::numeric::{div_i32, div_i64, divide_by_zero_message, int_div, int_rem, long_div, long_rem, make_divide_by_zero_message, rem_i32, rem_i64};
use crate::value::{Kind, Value};
use vstd::prelude::*;

verus! {

impl Frame {
    /// Adds two `int`s, wrapping.
    pub fn iadd(&mut self)
        requires
            old(self)@.wf(),
            old(self)@.can(seq![Kind::Int, Kind::Int], 1),
        ensures
            final(self)@.wf(),
            final(self)@.op_pc == old(self)@.op_pc,
            final(self)@ == old(self)@.popped(2).pushed(Value::Int(old(self)@.top(1)->Int_0.wrapping_add(old(self)@.top(0)->Int_0))),
    {
        proof {
            self@.lemma_pops(seq![Kind::Int, Kind::Int], 1);
        }
        let v2 = self.pop_int();
        let v1 = self.pop_int();
        self.push_value(Value::Int(v1.wrapping_add(v2)));
    }

    /// Subtracts the top `int` from the one beneath it, wrapping.
    pub fn isub(&mut self)
        requires
            old(self)@.wf(),
            old(self)@.can(seq![Kind::Int, Kind::Int], 1),
        ensures
            final(self)@.wf(),
            final(self)@.op_pc == old(self)@.op_pc,
            final(self)@ == old(self)@.popped(2).pushed(Value::Int(old(self)@.top(1)->Int_0.wrapping_sub(old(self)@.top(0)->Int_0))),
    {
        proof {
            self@.lemma_pops(seq![Kind::Int, Kind::Int], 1);
        }
        let v2 = self.pop_int();
        let v1 = self.pop_int();
        self.push_value(Value::Int(v1.wrapping_sub(v2)));
    }

    /// Multiplies two `int`s, wrapping.
    pub fn imul(&mut self)
        requires
            old(self)@.wf(),
            old(self)@.can(seq![Kind::Int, Kind::Int], 1),
        ensures
            final(self)@.wf(),
            final(self)@.op_pc == old(self)@.op_pc,
            final(self)@ == old(self)@.popped(2).pushed(Value::Int(old(self)@.top(1)->Int_0.wrapping_mul(old(self)@.top(0)->Int_0))),
    {
        proof {
            self@.lemma_pops(seq![Kind::Int, Kind::Int], 1);
        }
        let v2 = self.pop_int();
        let v1 = self.pop_int();
        self.push_value(Value::Int(v1.wrapping_mul(v2)));
    }

    /// Bitwise and of two `int`s.
    pub fn iand(&mut self)
        requires
            old(self)@.wf(),
            old(self)@.can(seq![Kind::Int, Kind::Int], 1),
        ensures
            final(self)@.wf(),
            final(self)@.op_pc == old(self)@.op_pc,
            final(self)@ == old(self)@.popped(2).pushed(Value::Int(old(self)@.top(1)->Int_0 & old(self)@.top(0)->Int_0)),
    {
        proof {
            self@.lemma_pops(seq![Kind::Int, Kind::Int], 1);
        }
        let v2 = self.pop_int();
        let v1 = self.pop_int();
        self.push_value(Value::Int(v1 & v2));
    }

    /// Bitwise or of two `int`s.
    pub fn ior(&mut self)
        requires
            old(self)@.wf(),
            old(self)@.can(seq![Kind::Int, Kind::Int], 1),
        ensures
            final(self)@.wf(),
            final(self)@.op_pc == old(self)@.op_pc,
            final(self)@ == old(self)@.popped(2).pushed(Value::Int(old(self)@.top(1)->Int_0 | old(self)@.top(0)->Int_0)),
    {
        proof {
            self@.lemma_pops(seq![Kind::Int, Kind::Int], 1);
        }
        let v2 = self.pop_int();
        let v1 = self.pop_int();
        self.push_value(Value::Int(v1 | v2));
    }

    /// Bitwise exclusive or of two `int`s.
    pub fn ixor(&mut self)
        requires
            old(self)@.wf(),
            old(self)@.can(seq![Kind::Int, Kind::Int], 1),
        ensures
            final(self)@.wf(),
            final(self)@.op_pc == old(self)@.op_pc,
            final(self)@ == old(self)@.popped(2).pushed(Value::Int(old(self)@.top(1)->Int_0 ^ old(self)@.top(0)->Int_0)),
    {
        proof {
            self@.lemma_pops(seq![Kind::Int, Kind::Int], 1);
        }
        let v2 = self.pop_int();
        let v1 = self.pop_int();
        self.push_value(Value::Int(v1 ^ v2));
    }

    /// Negates an `int`, wrapping.
    pub fn ineg(&mut self)
        requires
            old(self)@.wf(),
            old(self)@.can(seq![Kind::Int], 1),
        ensures
            final(self)@.wf(),
            final(self)@.op_pc == old(self)@.op_pc,
            final(self)@ == old(self)@.popped(1).pushed(Value::Int(0i32.wrapping_sub(old(self)@.top(0)->Int_0))),
    {
        proof {
            self@.lemma_pops(seq![Kind::Int], 1);
        }
        let v = self.pop_int();
        self.push_value(Value::Int(0i32.wrapping_sub(v)));
    }

    /// Divides the `int` beneath the top by the top one, truncating toward zero; a zero divisor
    /// raises an arithmetic fault with the message `divide by zero`.
    pub fn idiv(&mut self, heap: &mut Heap)
        requires
            old(self)@.wf(),
            old(heap)@.wf(),
            old(self)@.can(seq![Kind::Int, Kind::Int], 1),
        ensures
            final(self)@.wf(),
            final(self)@.op_pc == old(self)@.op_pc,
            final(heap)@.wf(),
            old(self)@.top(0)->Int_0 == 0 ==> final(heap)@ == fault_heap(old(heap)@, ARITHMETIC_CLASS, Some(divide_by_zero_message())),
            old(self)@.top(0)->Int_0 == 0 ==> final(self)@ == old(self)@.thrown(fault_ref(old(heap)@), final(heap)@),
            old(self)@.top(0)->Int_0 != 0 ==> final(heap)@ == old(heap)@,
            old(self)@.top(0)->Int_0 != 0 ==> final(self)@ == old(self)@.popped(2).pushed(Value::Int(int_div(old(self)@.top(1)->Int_0, old(self)@.top(0)->Int_0))),
    {
        proof {
            self@.lemma_pops(seq![Kind::Int, Kind::Int], 1);
        }
        let v2 = self.pop_int();
        let v1 = self.pop_int();
        if v2 == 0 {
            let msg = make_divide_by_zero_message();
            self.raise(heap, ARITHMETIC_CLASS, Some(msg));
            assert(final(self)@ =~= old(self)@.thrown(fault_ref(old(heap)@), final(heap)@));
        } else {
            self.push_value(Value::Int(div_i32(v1, v2)));
        }
    }

    /// Takes the remainder `a - (a / b) * b`, with truncating division, of the `int` beneath the
    /// top by the top one; a zero divisor raises an arithmetic fault with the message `divide by
    /// zero`.
    pub fn irem(&mut self, heap: &mut Heap)
        requires
            old(self)@.wf(),
            old(heap)@.wf(),
            old(self)@.can(seq![Kind::Int, Kind::Int], 1),
        ensures
            final(self)@.wf(),
            final(self)@.op_pc == old(self)@.op_pc,
            final(heap)@.wf(),
            old(self)@.top(0)->Int_0 == 0 ==> final(heap)@ == fault_heap(old(heap)@, ARITHMETIC_CLASS, Some(divide_by_zero_message())),
            old(self)@.top(0)->Int_0 == 0 ==> final(self)@ == old(self)@.thrown(fault_ref(old(heap)@), final(heap)@),
            old(self)@.top(0)->Int_0 != 0 ==> final(heap)@ == old(heap)@,
            old(self)@.top(0)->Int_0 != 0 ==> final(self)@ == old(self)@.popped(2).pushed(Value::Int(int_rem(old(self)@.top(1)->Int_0, old(self)@.top(0)->Int_0))),
    {
        proof {
            self@.lemma_pops(seq![Kind::Int, Kind::Int], 1);
        }
        let v2 = self.pop_int();
        let v1 = self.pop_int();
        if v2 == 0 {
            let msg = make_divide_by_zero_message();
            self.raise(heap, ARITHMETIC_CLASS, Some(msg));
            assert(final(self)@ =~= old(self)@.thrown(fault_ref(old(heap)@), final(heap)@));
        } else {
            self.push_value(Value::Int(rem_i32(v1, v2)));
        }
    }

    /// Adds two `long`s, wrapping.
    pub fn ladd(&mut self)
        requires
            old(self)@.wf(),
            old(self)@.can(seq![Kind::Long, Kind::Long], 1),
        ensures
            final(self)@.wf(),
            final(self)@.op_pc == old(self)@.op_pc,
            final(self)@ == old(self)@.popped(2).pushed(Value::Long(old(self)@.top(1)->Long_0.wrapping_add(old(self)@.top(0)->Long_0))),
    {
        proof {
            self@.lemma_pops(seq![Kind::Long, Kind::Long], 1);
        }
        let v2 = self.pop_long();
        let v1 = self.pop_long();
        self.push_value(Value::Long(v1.wrapping_add(v2)));
    }

    /// Subtracts the top `long` from the one beneath it, wrapping.
    pub fn lsub(&mut self)
        requires
            old(self)@.wf(),
            old(self)@.can(seq![Kind::Long, Kind::Long], 1),
        ensures
            final(self)@.wf(),
            final(self)@.op_pc == old(self)@.op_pc,
            final(self)@ == old(self)@.popped(2).pushed(Value::Long(old(self)@.top(1)->Long_0.wrapping_sub(old(self)@.top(0)->Long_0))),
    {
        proof {
            self@.lemma_pops(seq![Kind::Long, Kind::Long], 1);
        }
        let v2 = self.pop_long();
        let v1 = self.pop_long();
        self.push_value(Value::Long(v1.wrapping_sub(v2)));
    }

    /// Multiplies two `long`s, wrapping.
    pub fn lmul(&mut self)
        requires
            old(self)@.wf(),
            old(self)@.can(seq![Kind::Long, Kind::Long], 1),
        ensures
            final(self)@.wf(),
            final(self)@.op_pc == old(self)@.op_pc,
            final(self)@ == old(self)@.popped(2).pushed(Value::Long(old(self)@.top(1)->Long_0.wrapping_mul(old(self)@.top(0)->Long_0))),
    {
        proof {
            self@.lemma_pops(seq![Kind::Long, Kind::Long], 1);
        }
        let v2 = self.pop_long();
        let v1 = self.pop_long();
        self.push_value(Value::Long(v1.wrapping_mul(v2)));
    }

    /// Bitwise and of two `long`s.
    pub fn land(&mut self)
        requires
            old(self)@.wf(),
            old(self)@.can(seq![Kind::Long, Kind::Long], 1),
        ensures
            final(self)@.wf(),
            final(self)@.op_pc == old(self)@.op_pc,
            final(self)@ == old(self)@.popped(2).pushed(Value::Long(old(self)@.top(1)->Long_0 & old(self)@.top(0)->Long_0)),
    {
        proof {
            self@.lemma_pops(seq![Kind::Long, Kind::Long], 1);
        }
        let v2 = self.pop_long();
        let v1 = self.pop_long();
        self.push_value(Value::Long(v1 & v2));
    }

    /// Bitwise or of two `long`s.
    pub fn lor(&mut self)
        requires
            old(self)@.wf(),
            old(self)@.can(seq![Kind::Long, Kind::Long], 1),
        ensures
            final(self)@.wf(),
            final(self)@.op_pc == old(self)@.op_pc,
            final(self)@ == old(self)@.popped(2).pushed(Value::Long(old(self)@.top(1)->Long_0 | old(self)@.top(0)->Long_0)),
    {
        proof {
            self@.lemma_pops(seq![Kind::Long, Kind::Long], 1);
        }
        let v2 = self.pop_long();
        let v1 = self.pop_long();
        self.push_value(Value::Long(v1 | v2));
    }

    /// Bitwise exclusive or of two `long`s.
    pub fn lxor(&mut self)
        requires
            old(self)@.wf(),
            old(self)@.can(seq![Kind::Long, Kind::Long], 1),
        ensures
            final(self)@.wf(),
            final(self)@.op_pc == old(self)@.op_pc,
            final(self)@ == old(self)@.popped(2).pushed(Value::Long(old(self)@.top(1)->Long_0 ^ old(self)@.top(0)->Long_0)),
    {
        proof {
            self@.lemma_pops(seq![Kind::Long, Kind::Long], 1);
        }
        let v2 = self.pop_long();
        let v1 = self.pop_long();
        self.push_value(Value::Long(v1 ^ v2));
    }

    /// Negates a `long`, wrapping.
    pub fn lneg(&mut self)
        requires
            old(self)@.wf(),
            old(self)@.can(seq![Kind::Long], 1),
        ensures
            final(self)@.wf(),
            final(self)@.op_pc == old(self)@.op_pc,
            final(self)@ == old(self)@.popped(1).pushed(Value::Long(0i64.wrapping_sub(old(self)@.top(0)->Long_0))),
    {
        proof {
            self@.lemma_pops(seq![Kind::Long], 1);
        }
        let v = self.pop_long();
        self.push_value(Value::Long(0i64.wrapping_sub(v)));
    }

    /// Divides the `long` beneath the top by the top one, truncating toward zero; a zero divisor
    /// raises an arithmetic fault with the message `divide by zero`.
    pub fn ldiv(&mut self, heap: &mut Heap)
        requires
            old(self)@.wf(),
            old(heap)@.wf(),
            old(self)@.can(seq![Kind::Long, Kind::Long], 1),
        ensures
            final(self)@.wf(),
            final(self)@.op_pc == old(self)@.op_pc,
            final(heap)@.wf(),
            old(self)@.top(0)->Long_0 == 0 ==> final(heap)@ == fault_heap(old(heap)@, ARITHMETIC_CLASS, Some(divide_by_zero_message())),
            old(self)@.top(0)->Long_0 == 0 ==> final(self)@ == old(self)@.thrown(fault_ref(old(heap)@), final(heap)@),
            old(self)@.top(0)->Long_0 != 0 ==> final(heap)@ == old(heap)@,
            old(self)@.top(0)->Long_0 != 0 ==> final(self)@ == old(self)@.popped(2).pushed(Value::Long(long_div(old(self)@.top(1)->Long_0, old(self)@.top(0)->Long_0))),
    {
        proof {
            self@.lemma_pops(seq![Kind::Long, Kind::Long], 1);
        }
        let v2 = self.pop_long();
        let v1 = self.pop_long();
        if v2 == 0 {
            let msg = make_divide_by_zero_message();
            self.raise(heap, ARITHMETIC_CLASS, Some(msg));
            assert(final(self)@ =~= old(self)@.thrown(fault_ref(old(heap)@), final(heap)@));
        } else {
            self.push_value(Value::Long(div_i64(v1, v2)));
        }
    }

    /// Takes the remainder `a - (a / b) * b`, with truncating division, of the `long` beneath the
    /// top by the top one; a zero divisor raises an arithmetic fault with the message `divide by
    /// zero`.
    pub fn lrem(&mut self, heap: &mut Heap)
        requires
            old(self)@.wf(),
            old(heap)@.wf(),
            old(self)@.can(seq![Kind::Long, Kind::Long], 1),
        ensures
            final(self)@.wf(),
            final(self)@.op_pc == old(self)@.op_pc,
            final(heap)@.wf(),
            old(self)@.top(0)->Long_0 == 0 ==> final(heap)@ == fault_heap(old(heap)@, ARITHMETIC_CLASS, Some(divide_by_zero_message())),
            old(self)@.top(0)->Long_0 == 0 ==> final(self)@ == old(self)@.thrown(fault_ref(old(heap)@), final(heap)@),
            old(self)@.top(0)->Long_0 != 0 ==> final(heap)@ == old(heap)@,
            old(self)@.top(0)->Long_0 != 0 ==> final(self)@ == old(self)@.popped(2).pushed(Value::Long(long_rem(old(self)@.top(1)->Long_0, old(self)@.top(0)->Long_0))),
    {
        proof {
            self@.lemma_pops(seq![Kind::Long, Kind::Long], 1);
        }
        let v2 = self.pop_long();
        let v1 = self.pop_long();
        if v2 == 0 {
            let msg = make_divide_by_zero_message();
            self.raise(heap, ARITHMETIC_CLASS, Some(msg));
            assert(final(self)@ =~= old(self)@.thrown(fault_ref(old(heap)@), final(heap)@));
        } else {
            self.push_value(Value::Long(rem_i64(v1, v2)));
        }
    }

    /// Shifts left by the low 5 bits of the top `int`.
    pub fn ishl(&mut self)
        requires
            old(self)@.wf(),
            old(self)@.can(seq![Kind::Int, Kind::Int], 1),
        ensures
            final(self)@.wf(),
            final(self)@.op_pc == old(self)@.op_pc,
            final(self)@ == old(self)@.popped(2).pushed(Value::Int(old(self)@.top(1)->Int_0 << ((old(self)@.top(0)->Int_0 & 0x1fi32) as u32))),
    {
        proof {
            self@.lemma_pops(seq![Kind::Int, Kind::Int], 1);
        }
        let v2 = self.pop_int();
        let v1 = self.pop_int();
        assert(0 <= (v2 & 0x1fi32) < 32) by (bit_vector);
        let s = (v2 & 0x1fi32) as u32;
        self.push_value(Value::Int(v1 << s));
    }

    /// Shifts right arithmetically by the low 5 bits of the top `int`.
    pub fn ishr(&mut self)
        requires
            old(self)@.wf(),
            old(self)@.can(seq![Kind::Int, Kind::Int], 1),
        ensures
            final(self)@.wf(),
            final(self)@.op_pc == old(self)@.op_pc,
            final(self)@ == old(self)@.popped(2).pushed(Value::Int(old(self)@.top(1)->Int_0 >> ((old(self)@.top(0)->Int_0 & 0x1fi32) as u32))),
    {
        proof {
            self@.lemma_pops(seq![Kind::Int, Kind::Int], 1);
        }
        let v2 = self.pop_int();
        let v1 = self.pop_int();
        assert(0 <= (v2 & 0x1fi32) < 32) by (bit_vector);
        let s = (v2 & 0x1fi32) as u32;
        self.push_value(Value::Int(v1 >> s));
    }

    /// Shifts right logically (filling with zeros) by the low 5 bits of the top `int`.
    pub fn iushr(&mut self)
        requires
            old(self)@.wf(),
            old(self)@.can(seq![Kind::Int, Kind::Int], 1),
        ensures
            final(self)@.wf(),
            final(self)@.op_pc == old(self)@.op_pc,
            final(self)@ == old(self)@.popped(2).pushed(Value::Int(((old(self)@.top(1)->Int_0 as u32) >> ((old(self)@.top(0)->Int_0 & 0x1fi32) as u32)) as i32)),
    {
        proof {
            self@.lemma_pops(seq![Kind::Int, Kind::Int], 1);
        }
        let v2 = self.pop_int();
        let v1 = self.pop_int();
        assert(0 <= (v2 & 0x1fi32) < 32) by (bit_vector);
        let s = (v2 & 0x1fi32) as u32;
        self.push_value(Value::Int(((v1 as u32) >> s) as i32));
    }

    /// Shifts left by the low 6 bits of the top `int`.
    pub fn lshl(&mut self)
        requires
            old(self)@.wf(),
            old(self)@.can(seq![Kind::Long, Kind::Int], 1),
        ensures
            final(self)@.wf(),
            final(self)@.op_pc == old(self)@.op_pc,
            final(self)@ == old(self)@.popped(2).pushed(Value::Long(old(self)@.top(1)->Long_0 << ((old(self)@.top(0)->Int_0 & 0x3fi32) as u32))),
    {
        proof {
            self@.lemma_pops(seq![Kind::Long, Kind::Int], 1);
        }
        let v2 = self.pop_int();
        let v1 = self.pop_long();
        assert(0 <= (v2 & 0x3fi32) < 64) by (bit_vector);
        let s = (v2 & 0x3fi32) as u32;
        self.push_value(Value::Long(v1 << s));
    }

    /// Shifts right arithmetically by the low 6 bits of the top `int`.
    pub fn lshr(&mut self)
        requires
            old(self)@.wf(),
            old(self)@.can(seq![Kind::Long, Kind::Int], 1),
        ensures
            final(self)@.wf(),
            final(self)@.op_pc == old(self)@.op_pc,
            final(self)@ == old(self)@.popped(2).pushed(Value::Long(old(self)@.top(1)->Long_0 >> ((old(self)@.top(0)->Int_0 & 0x3fi32) as u32))),
    {
        proof {
            self@.lemma_pops(seq![Kind::Long, Kind::Int], 1);
        }
        let v2 = self.pop_int();
        let v1 = self.pop_long();
        assert(0 <= (v2 & 0x3fi32) < 64) by (bit_vector);
        let s = (v2 & 0x3fi32) as u32;
        self.push_value(Value::Long(v1 >> s));
    }

    /// Shifts right logically (filling with zeros) by the low 6 bits of the top `int`.
    pub fn lushr(&mut self)
        requires
            old(self)@.wf(),
            old(self)@.can(seq![Kind::Long, Kind::Int], 1),
        ensures
            final(self)@.wf(),
            final(self)@.op_pc == old(self)@.op_pc,
            final(self)@ == old(self)@.popped(2).pushed(Value::Long(((old(self)@.top(1)->Long_0 as u64) >> ((old(self)@.top(0)->Int_0 & 0x3fi32) as u32)) as i64)),
    {
        proof {
            self@.lemma_pops(seq![Kind::Long, Kind::Int], 1);
        }
        let v2 = self.pop_int();
        let v1 = self.pop_long();
        assert(0 <= (v2 & 0x3fi32) < 64) by (bit_vector);
        let s = (v2 & 0x3fi32) as u32;
        self.push_value(Value::Long(((v1 as u64) >> s) as i64));
    }
}

} // verus!
