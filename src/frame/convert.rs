//! Conversion and comparison instructions.
use crate::frame::Frame;
use crate::numeric::{compare_doubles, compare_floats, d2i, d2l, dcmp, double_to_int, double_to_long, f2i, f2l, fcmp, float_to_int, float_to_long, sign_of_cmp};
use crate::value::{Kind, Value};
use vstd::prelude::*;

verus! {

impl Frame {
    /// Widens an `int` to a `long`.
    pub fn i2l(&mut self)
        requires
            old(self)@.wf(),
            old(self)@.can(seq![Kind::Int], 1),
        ensures
            final(self)@.wf(),
            final(self)@.op_pc == old(self)@.op_pc,
            final(self)@ == old(self)@.popped(1).pushed(Value::Long(old(self)@.top(0)->Int_0 as i64)),
    {
        proof {
            self@.lemma_pops(seq![Kind::Int], 1);
        }
        let v = self.pop_int();
        self.push_value(Value::Long(v as i64));
    }

    /// Narrows a `long` to its low 32 bits.
    pub fn l2i(&mut self)
        requires
            old(self)@.wf(),
            old(self)@.can(seq![Kind::Long], 1),
        ensures
            final(self)@.wf(),
            final(self)@.op_pc == old(self)@.op_pc,
            final(self)@ == old(self)@.popped(1).pushed(Value::Int(old(self)@.top(0)->Long_0 as i32)),
    {
        proof {
            self@.lemma_pops(seq![Kind::Long], 1);
        }
        let v = self.pop_long();
        self.push_value(Value::Int(v as i32));
    }

    /// Narrows an `int` to a byte and sign-extends it back.
    pub fn i2b(&mut self)
        requires
            old(self)@.wf(),
            old(self)@.can(seq![Kind::Int], 1),
        ensures
            final(self)@.wf(),
            final(self)@.op_pc == old(self)@.op_pc,
            final(self)@ == old(self)@.popped(1).pushed(Value::Int((old(self)@.top(0)->Int_0 as i8) as i32)),
    {
        proof {
            self@.lemma_pops(seq![Kind::Int], 1);
        }
        let v = self.pop_int();
        self.push_value(Value::Int((v as i8) as i32));
    }

    /// Narrows an `int` to a `char` and zero-extends it back.
    pub fn i2c(&mut self)
        requires
            old(self)@.wf(),
            old(self)@.can(seq![Kind::Int], 1),
        ensures
            final(self)@.wf(),
            final(self)@.op_pc == old(self)@.op_pc,
            final(self)@ == old(self)@.popped(1).pushed(Value::Int((old(self)@.top(0)->Int_0 as u16) as i32)),
    {
        proof {
            self@.lemma_pops(seq![Kind::Int], 1);
        }
        let v = self.pop_int();
        self.push_value(Value::Int((v as u16) as i32));
    }

    /// Narrows an `int` to a `short` and sign-extends it back.
    pub fn i2s(&mut self)
        requires
            old(self)@.wf(),
            old(self)@.can(seq![Kind::Int], 1),
        ensures
            final(self)@.wf(),
            final(self)@.op_pc == old(self)@.op_pc,
            final(self)@ == old(self)@.popped(1).pushed(Value::Int((old(self)@.top(0)->Int_0 as i16) as i32)),
    {
        proof {
            self@.lemma_pops(seq![Kind::Int], 1);
        }
        let v = self.pop_int();
        self.push_value(Value::Int((v as i16) as i32));
    }

    /// Converts a `float` to an `int`: NaN gives 0, infinities the bounds, others truncate toward
    /// zero and saturate.
    pub fn f2i(&mut self)
        requires
            old(self)@.wf(),
            old(self)@.can(seq![Kind::Float], 1),
        ensures
            final(self)@.wf(),
            final(self)@.op_pc == old(self)@.op_pc,
            final(self)@ == old(self)@.popped(1).pushed(Value::Int(f2i(old(self)@.top(0)->Float_0))),
    {
        proof {
            self@.lemma_pops(seq![Kind::Float], 1);
        }
        let v = self.pop_float();
        self.push_value(Value::Int(float_to_int(v)));
    }

    /// Converts a `float` to a `long`: NaN gives 0, infinities the bounds, others truncate toward
    /// zero and saturate.
    pub fn f2l(&mut self)
        requires
            old(self)@.wf(),
            old(self)@.can(seq![Kind::Float], 1),
        ensures
            final(self)@.wf(),
            final(self)@.op_pc == old(self)@.op_pc,
            final(self)@ == old(self)@.popped(1).pushed(Value::Long(f2l(old(self)@.top(0)->Float_0))),
    {
        proof {
            self@.lemma_pops(seq![Kind::Float], 1);
        }
        let v = self.pop_float();
        self.push_value(Value::Long(float_to_long(v)));
    }

    /// Converts a `double` to an `int`: NaN gives 0, infinities the bounds, others truncate toward
    /// zero and saturate.
    pub fn d2i(&mut self)
        requires
            old(self)@.wf(),
            old(self)@.can(seq![Kind::Double], 1),
        ensures
            final(self)@.wf(),
            final(self)@.op_pc == old(self)@.op_pc,
            final(self)@ == old(self)@.popped(1).pushed(Value::Int(d2i(old(self)@.top(0)->Double_0))),
    {
        proof {
            self@.lemma_pops(seq![Kind::Double], 1);
        }
        let v = self.pop_double();
        self.push_value(Value::Int(double_to_int(v)));
    }

    /// Converts a `double` to a `long`: NaN gives 0, infinities the bounds, others truncate toward
    /// zero and saturate.
    pub fn d2l(&mut self)
        requires
            old(self)@.wf(),
            old(self)@.can(seq![Kind::Double], 1),
        ensures
            final(self)@.wf(),
            final(self)@.op_pc == old(self)@.op_pc,
            final(self)@ == old(self)@.popped(1).pushed(Value::Long(d2l(old(self)@.top(0)->Double_0))),
    {
        proof {
            self@.lemma_pops(seq![Kind::Double], 1);
        }
        let v = self.pop_double();
        self.push_value(Value::Long(double_to_long(v)));
    }

    /// Compares two `long`s: -1, 0 or 1 as the one pushed first is below, equal to or above the one
    /// pushed last.
    pub fn lcmp(&mut self)
        requires
            old(self)@.wf(),
            old(self)@.can(seq![Kind::Long, Kind::Long], 1),
        ensures
            final(self)@.wf(),
            final(self)@.op_pc == old(self)@.op_pc,
            final(self)@ == old(self)@.popped(2).pushed(Value::Int(sign_of_cmp(old(self)@.top(1)->Long_0 as int, old(self)@.top(0)->Long_0 as int))),
    {
        proof {
            self@.lemma_pops(seq![Kind::Long, Kind::Long], 1);
        }
        let v1 = self.pop_long();
        let v2 = self.pop_long();
        if v1 > v2 {
            self.push_value(Value::Int(-1));
        } else if v1 < v2 {
            self.push_value(Value::Int(1));
        } else {
            self.push_value(Value::Int(0));
        }
    }

    /// Compares two `float`s: -1, 0 or 1 as the one pushed first is below, equal to or above the
    /// one pushed last; -1 when either is NaN.
    pub fn fcmpl(&mut self)
        requires
            old(self)@.wf(),
            old(self)@.can(seq![Kind::Float, Kind::Float], 1),
        ensures
            final(self)@.wf(),
            final(self)@.op_pc == old(self)@.op_pc,
            final(self)@ == old(self)@.popped(2).pushed(Value::Int(fcmp(old(self)@.top(1)->Float_0, old(self)@.top(0)->Float_0, -1i32))),
    {
        proof {
            self@.lemma_pops(seq![Kind::Float, Kind::Float], 1);
        }
        let v2 = self.pop_float();
        let v1 = self.pop_float();
        self.push_value(Value::Int(compare_floats(v1, v2, -1)));
    }

    /// Compares two `float`s: -1, 0 or 1 as the one pushed first is below, equal to or above the
    /// one pushed last; 1 when either is NaN.
    pub fn fcmpg(&mut self)
        requires
            old(self)@.wf(),
            old(self)@.can(seq![Kind::Float, Kind::Float], 1),
        ensures
            final(self)@.wf(),
            final(self)@.op_pc == old(self)@.op_pc,
            final(self)@ == old(self)@.popped(2).pushed(Value::Int(fcmp(old(self)@.top(1)->Float_0, old(self)@.top(0)->Float_0, 1i32))),
    {
        proof {
            self@.lemma_pops(seq![Kind::Float, Kind::Float], 1);
        }
        let v2 = self.pop_float();
        let v1 = self.pop_float();
        self.push_value(Value::Int(compare_floats(v1, v2, 1)));
    }

    /// Compares two `double`s: -1, 0 or 1 as the one pushed first is below, equal to or above the
    /// one pushed last; -1 when either is NaN.
    pub fn dcmpl(&mut self)
        requires
            old(self)@.wf(),
            old(self)@.can(seq![Kind::Double, Kind::Double], 1),
        ensures
            final(self)@.wf(),
            final(self)@.op_pc == old(self)@.op_pc,
            final(self)@ == old(self)@.popped(2).pushed(Value::Int(dcmp(old(self)@.top(1)->Double_0, old(self)@.top(0)->Double_0, -1i32))),
    {
        proof {
            self@.lemma_pops(seq![Kind::Double, Kind::Double], 1);
        }
        let v2 = self.pop_double();
        let v1 = self.pop_double();
        self.push_value(Value::Int(compare_doubles(v1, v2, -1)));
    }

    /// Compares two `double`s: -1, 0 or 1 as the one pushed first is below, equal to or above the
    /// one pushed last; 1 when either is NaN.
    pub fn dcmpg(&mut self)
        requires
            old(self)@.wf(),
            old(self)@.can(seq![Kind::Double, Kind::Double], 1),
        ensures
            final(self)@.wf(),
            final(self)@.op_pc == old(self)@.op_pc,
            final(self)@ == old(self)@.popped(2).pushed(Value::Int(dcmp(old(self)@.top(1)->Double_0, old(self)@.top(0)->Double_0, 1i32))),
    {
        proof {
            self@.lemma_pops(seq![Kind::Double, Kind::Double], 1);
        }
        let v2 = self.pop_double();
        let v1 = self.pop_double();
        self.push_value(Value::Int(compare_doubles(v1, v2, 1)));
    }
}

} // verus!
