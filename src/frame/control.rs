//! Returns, invocations, `switch` tables and the retired instructions.
use crate::frame::{invoked, Fatal, Frame, FrameView, Invoke};
use crate::value::{Kind, Value};
use vstd::prelude::*;

verus! {

/// Where the operands of a `switch` start: the first offset after the
/// opcode that is a multiple of 4 from the start of the code.
pub open spec fn switch_base(f: FrameView) -> int {
    let p = f.op_pc + 1;
    p + (4 - p % 4) % 4
}

/// A `tableswitch` whose default, bounds and jump table lie in the code, and
/// whose bounds are ordered.
pub open spec fn table_fits(f: FrameView) -> bool {
    let b = switch_base(f);
    &&& b + 12 <= f.code.len()
    &&& f.i4(b + 4) <= f.i4(b + 8)
    &&& b + 12 + 4 * (f.i4(b + 8) - f.i4(b + 4) + 1) <= f.code.len()
}

/// The target of a `tableswitch` on `key`: the table entry for a key
/// within the bounds, else the default; relative to the instruction.
pub open spec fn table_target(f: FrameView, key: i32) -> int {
    let b = switch_base(f);
    let low = f.i4(b + 4);
    let high = f.i4(b + 8);
    if key < low || key > high {
        f.op_pc + f.i4(b)
    } else {
        f.op_pc + f.i4(b + 12 + 4 * (key - low))
    }
}

/// A `lookupswitch` whose default, pair count and pairs lie in the code.
pub open spec fn lookup_fits(f: FrameView) -> bool {
    let b = switch_base(f);
    &&& b + 8 <= f.code.len()
    &&& 0 <= f.i4(b + 4)
    &&& b + 8 + 8 * f.i4(b + 4) <= f.code.len()
}

/// The match value of pair `l` of the pairs from `start`.
pub open spec fn pair_match(f: FrameView, start: int, l: int) -> i32 {
    f.i4(start + 8 * l)
}

/// The first of the `n` match/offset pairs from `start` whose match is `key`.
pub open spec fn first_pair(f: FrameView, start: int, n: int, key: i32) -> Option<int>
    decreases n,
{
    if n <= 0 {
        None
    } else {
        match first_pair(f, start, n - 1, key) {
            Some(j) => Some(j),
            None => if pair_match(f, start, n - 1) == key {
                Some(n - 1)
            } else {
                None
            },
        }
    }
}

/// The target of a `lookupswitch` on `key`: the offset of the first pair
/// whose match is `key`, else the default; relative to the instruction.
pub open spec fn lookup_target(f: FrameView, key: i32) -> int {
    let b = switch_base(f);
    match first_pair(f, b + 8, f.i4(b + 4) as int, key) {
        Some(j) => f.op_pc + f.i4(b + 8 + 8 * j + 4),
        None => f.op_pc + f.i4(b),
    }
}

proof fn lemma_first_pair(f: FrameView, start: int, n: int, key: i32)
    ensures
        match first_pair(f, start, n, key) {
            Some(j) => 0 <= j < n && pair_match(f, start, j) == key && forall|l: int| 0 <= l < j ==> #[trigger] pair_match(f, start, l) != key,
            None => forall|l: int| 0 <= l < n ==> #[trigger] pair_match(f, start, l) != key,
        },
    decreases n,
{
    if n > 0 {
        lemma_first_pair(f, start, n - 1, key);
    }
}

impl Frame {
    /// The four bytes at `at`, read as an `i4`.
    fn code_i4(&self, at: usize) -> (r: i32)
        requires
            self@.wf(),
            at + 4 <= self@.code.len(),
        ensures
            r == self@.i4(at as int),
    {
        let b0 = (self.code_at(at) as i8) as i32;
        let b1 = (self.code_at(at + 1) as i8) as i32;
        let b2 = (self.code_at(at + 2) as i8) as i32;
        let b3 = (self.code_at(at + 3) as i8) as i32;
        (((b0 << 8u32) | b1) << 16u32) | ((b2 << 8u32) | b3)
    }

    fn switch_start(&self) -> (r: usize)
        requires
            self@.wf(),
        ensures
            r == switch_base(self@),
    {
        let p = (self.op_pc() as usize) + 1;
        p + (4 - p % 4) % 4
    }

    /// The target of the `tableswitch` at the current instruction for the
    /// `int` on top of the stack, when the table fits in the code.
    fn table_switch_target(&self) -> (r: Option<i64>)
        requires
            self@.wf(),
            self@.can(seq![Kind::Int], 0),
        ensures
            r is Some == table_fits(self@),
            r matches Some(t) ==> t == table_target(self@, self@.top(0)->Int_0),
    {
        proof {
            self@.lemma_pops(seq![Kind::Int], 0);
        }
        let b = self.switch_start();
        let len = self.code_len();
        if b + 12 > len {
            return None;
        }
        let low = self.code_i4(b + 4) as i64;
        let high = self.code_i4(b + 8) as i64;
        if low > high || (b as i64) + 12 + 4 * (high - low + 1) > len as i64 {
            return None;
        }
        let key = match self.peek(0) {
            Value::Int(k) => k as i64,
            _ => 0,
        };
        let off = if key < low || key > high {
            self.code_i4(b)
        } else {
            self.code_i4(b + 12 + 4 * ((key - low) as usize))
        };
        Some(self.op_pc() as i64 + off as i64)
    }

    /// The target of the `lookupswitch` at the current instruction for the
    /// `int` on top of the stack, when its pairs fit in the code.
    fn lookup_switch_target(&self) -> (r: Option<i64>)
        requires
            self@.wf(),
            self@.can(seq![Kind::Int], 0),
        ensures
            r is Some == lookup_fits(self@),
            r matches Some(t) ==> t == lookup_target(self@, self@.top(0)->Int_0),
    {
        proof {
            self@.lemma_pops(seq![Kind::Int], 0);
        }
        let b = self.switch_start();
        let len = self.code_len();
        if b + 8 > len {
            return None;
        }
        let n = self.code_i4(b + 4);
        if n < 0 || (b as i64) + 8 + 8 * (n as i64) > len as i64 {
            return None;
        }
        let key = match self.peek(0) {
            Value::Int(k) => k,
            _ => 0,
        };
        let start = b + 8;
        let ghost f = self@;
        proof {
            lemma_first_pair(f, start as int, n as int, key);
        }
        let mut j: usize = 0;
        while j < n as usize
            invariant
                f == self@,
                f.wf(),
                j <= n,
                start + 8 * n <= self@.code.len(),
                forall|l: int| 0 <= l < j ==> #[trigger] pair_match(f, start as int, l) != key,
                start == switch_base(f) + 8,
                key == f.top(0)->Int_0,
                n == f.i4(switch_base(f) + 4),
            decreases n - j,
        {
            if self.code_i4(start + 8 * j) == key {
                proof {
                    lemma_first_pair(f, start as int, n as int, key);
                    match first_pair(f, start as int, n as int, key) {
                        Some(k) => {
                            if k > j {
                                assert(pair_match(f, start as int, j as int) != key);
                            }
                            if k < j {
                                assert(pair_match(f, start as int, k) != key);
                            }
                        },
                        None => {
                            assert(pair_match(f, start as int, j as int) != key);
                        },
                    }
                }
                let off = self.code_i4(start + 8 * j + 4);
                return Some(self.op_pc() as i64 + off as i64);
            }
            j = j + 1;
        }
        proof {
            lemma_first_pair(f, start as int, n as int, key);
            match first_pair(f, start as int, n as int, key) {
                Some(k) => {
                    assert(pair_match(f, start as int, k) != key);
                },
                None => {},
            }
        }
        Some(self.op_pc() as i64 + self.code_i4(b) as i64)
    }

    /// Pops an `int` and jumps through the `tableswitch` table that follows
    /// the opcode. Returns false, changing nothing, when the table or its
    /// target does not lie in the code.
    pub fn table_switch(&mut self) -> (ok: bool)
        requires
            old(self)@.wf(),
            old(self)@.can(seq![Kind::Int], 0),
        ensures
            final(self)@.wf(),
            final(self)@.op_pc == old(self)@.op_pc,
            ok == (table_fits(old(self)@) && 0 <= table_target(old(self)@, old(self)@.top(0)->Int_0) < old(self)@.code.len()),
            ok ==> final(self)@ == old(self)@.popped(1).at(table_target(old(self)@, old(self)@.top(0)->Int_0)),
            !ok ==> final(self)@ == old(self)@,
    {
        proof {
            self@.lemma_pops(seq![Kind::Int], 0);
        }
        match self.table_switch_target() {
            Some(t) => {
                if 0 <= t && t < self.code_len() as i64 {
                    self.pop_value();
                    self.goto_abs(t as i32);
                    true
                } else {
                    false
                }
            },
            None => false,
        }
    }

    /// Pops an `int` and jumps through the `lookupswitch` pairs that follow
    /// the opcode. Returns false, changing nothing, when the pairs or the
    /// target do not lie in the code.
    pub fn lookup_switch(&mut self) -> (ok: bool)
        requires
            old(self)@.wf(),
            old(self)@.can(seq![Kind::Int], 0),
        ensures
            final(self)@.wf(),
            final(self)@.op_pc == old(self)@.op_pc,
            ok == (lookup_fits(old(self)@) && 0 <= lookup_target(old(self)@, old(self)@.top(0)->Int_0) < old(self)@.code.len()),
            ok ==> final(self)@ == old(self)@.popped(1).at(lookup_target(old(self)@, old(self)@.top(0)->Int_0)),
            !ok ==> final(self)@ == old(self)@,
    {
        proof {
            self@.lemma_pops(seq![Kind::Int], 0);
        }
        match self.lookup_switch_target() {
            Some(t) => {
                if 0 <= t && t < self.code_len() as i64 {
                    self.pop_value();
                    self.goto_abs(t as i32);
                    true
                } else {
                    false
                }
            },
            None => false,
        }
    }

    /// `jsr` is retired: it never appears in the output of a supported
    /// compiler, and execution stops here.
    pub fn jsr(&self) -> (r: Fatal)
        ensures
            r == (Fatal::Deprecated { opcode: 0xa8u8, pc: self@.op_pc as i32 }),
    {
        Fatal::Deprecated { opcode: 0xa8, pc: self.op_pc() }
    }

    /// `ret` is retired: it never appears in the output of a supported
    /// compiler, and execution stops here.
    pub fn ret(&self) -> (r: Fatal)
        ensures
            r == (Fatal::Deprecated { opcode: 0xa9u8, pc: self@.op_pc as i32 }),
    {
        Fatal::Deprecated { opcode: 0xa9, pc: self.op_pc() }
    }

    /// `wide` is retired: it never appears in the output of a supported
    /// compiler, and execution stops here.
    pub fn wide(&self) -> (r: Fatal)
        ensures
            r == (Fatal::Deprecated { opcode: 0xc4u8, pc: self@.op_pc as i32 }),
    {
        Fatal::Deprecated { opcode: 0xc4, pc: self.op_pc() }
    }

    /// `goto_w` is retired: it never appears in the output of a supported
    /// compiler, and execution stops here.
    pub fn goto_w(&self) -> (r: Fatal)
        ensures
            r == (Fatal::Deprecated { opcode: 0xc8u8, pc: self@.op_pc as i32 }),
    {
        Fatal::Deprecated { opcode: 0xc8, pc: self.op_pc() }
    }

    /// `jsr_w` is retired: it never appears in the output of a supported
    /// compiler, and execution stops here.
    pub fn jsr_w(&self) -> (r: Fatal)
        ensures
            r == (Fatal::Deprecated { opcode: 0xc9u8, pc: self@.op_pc as i32 }),
    {
        Fatal::Deprecated { opcode: 0xc9, pc: self.op_pc() }
    }

    /// `frem` is retired: it never appears in the output of a supported
    /// compiler, and execution stops here.
    pub fn frem(&self) -> (r: Fatal)
        ensures
            r == (Fatal::Deprecated { opcode: 0x72u8, pc: self@.op_pc as i32 }),
    {
        Fatal::Deprecated { opcode: 0x72, pc: self.op_pc() }
    }

    /// `drem` is retired: it never appears in the output of a supported
    /// compiler, and execution stops here.
    pub fn drem(&self) -> (r: Fatal)
        ensures
            r == (Fatal::Deprecated { opcode: 0x73u8, pc: self@.op_pc as i32 }),
    {
        Fatal::Deprecated { opcode: 0x73, pc: self.op_pc() }
    }

    /// `fneg` is retired: it never appears in the output of a supported
    /// compiler, and execution stops here.
    pub fn fneg(&self) -> (r: Fatal)
        ensures
            r == (Fatal::Deprecated { opcode: 0x76u8, pc: self@.op_pc as i32 }),
    {
        Fatal::Deprecated { opcode: 0x76, pc: self.op_pc() }
    }

    /// `dneg` is retired: it never appears in the output of a supported
    /// compiler, and execution stops here.
    pub fn dneg(&self) -> (r: Fatal)
        ensures
            r == (Fatal::Deprecated { opcode: 0x77u8, pc: self@.op_pc as i32 }),
    {
        Fatal::Deprecated { opcode: 0x77, pc: self.op_pc() }
    }

    /// The byte at the current instruction is no opcode: execution stops.
    pub fn other_wise(&self) -> (r: Fatal)
        requires
            self@.wf(),
            self@.op_pc < self@.code.len(),
        ensures
            r == (Fatal::Undefined { opcode: self@.code[self@.op_pc], pc: self@.op_pc as i32 }),
    {
        let pc = self.op_pc();
        Fatal::Undefined { opcode: self.code_at(pc as usize), pc }
    }

    /// Pops an `int` and makes it the frame's result.
    pub fn ireturn(&mut self)
        requires
            old(self)@.wf(),
            old(self)@.can(seq![Kind::Int], 0),
        ensures
            final(self)@.wf(),
            final(self)@.op_pc == old(self)@.op_pc,
            final(self)@ == (FrameView { return_v: Some(old(self)@.top(0)), ..old(self)@.popped(1) }),
    {
        proof {
            self@.lemma_pops(seq![Kind::Int], 0);
        }
        let v = self.pop_value();
        self.set_return(v);
    }

    /// Pops a `long` and makes it the frame's result.
    pub fn lreturn(&mut self)
        requires
            old(self)@.wf(),
            old(self)@.can(seq![Kind::Long], 0),
        ensures
            final(self)@.wf(),
            final(self)@.op_pc == old(self)@.op_pc,
            final(self)@ == (FrameView { return_v: Some(old(self)@.top(0)), ..old(self)@.popped(1) }),
    {
        proof {
            self@.lemma_pops(seq![Kind::Long], 0);
        }
        let v = self.pop_value();
        self.set_return(v);
    }

    /// Pops a `float` and makes it the frame's result.
    pub fn freturn(&mut self)
        requires
            old(self)@.wf(),
            old(self)@.can(seq![Kind::Float], 0),
        ensures
            final(self)@.wf(),
            final(self)@.op_pc == old(self)@.op_pc,
            final(self)@ == (FrameView { return_v: Some(old(self)@.top(0)), ..old(self)@.popped(1) }),
    {
        proof {
            self@.lemma_pops(seq![Kind::Float], 0);
        }
        let v = self.pop_value();
        self.set_return(v);
    }

    /// Pops a `double` and makes it the frame's result.
    pub fn dreturn(&mut self)
        requires
            old(self)@.wf(),
            old(self)@.can(seq![Kind::Double], 0),
        ensures
            final(self)@.wf(),
            final(self)@.op_pc == old(self)@.op_pc,
            final(self)@ == (FrameView { return_v: Some(old(self)@.top(0)), ..old(self)@.popped(1) }),
    {
        proof {
            self@.lemma_pops(seq![Kind::Double], 0);
        }
        let v = self.pop_value();
        self.set_return(v);
    }

    /// Pops a reference and makes it the frame's result.
    pub fn areturn(&mut self)
        requires
            old(self)@.wf(),
            old(self)@.can(seq![Kind::Ref], 0),
        ensures
            final(self)@.wf(),
            final(self)@.op_pc == old(self)@.op_pc,
            final(self)@ == (FrameView { return_v: Some(old(self)@.top(0)), ..old(self)@.popped(1) }),
    {
        proof {
            self@.lemma_pops(seq![Kind::Ref], 0);
        }
        let v = self.pop_value();
        self.set_return(v);
    }

    /// Ends a `void` method: the frame's result is null.
    pub fn return_(&mut self)
        requires
            old(self)@.wf(),
        ensures
            final(self)@.wf(),
            final(self)@.op_pc == old(self)@.op_pc,
            final(self)@ == (FrameView { return_v: Some(Value::Null), ..old(self)@ }),
    {
        self.set_return(Value::Null);
    }

    /// Records a call of an instance method, dispatched on the receiver's class, named by the two-
    /// byte constant-pool operand, for the invoker to perform.
    pub fn invoke_virtual(&mut self)
        requires
            old(self)@.wf(),
            old(self)@.operands(2),
        ensures
            final(self)@.wf(),
            final(self)@.op_pc == old(self)@.op_pc,
            final(self)@ == invoked(old(self)@, 0xb6u8, 2),
    {
        let index = self.read_u2();
        self.set_invoke(Invoke { opcode: 0xb6, index });
    }

    /// Records a call of an instance method without dispatch, named by the two-byte constant-pool
    /// operand, for the invoker to perform.
    pub fn invoke_special(&mut self)
        requires
            old(self)@.wf(),
            old(self)@.operands(2),
        ensures
            final(self)@.wf(),
            final(self)@.op_pc == old(self)@.op_pc,
            final(self)@ == invoked(old(self)@, 0xb7u8, 2),
    {
        let index = self.read_u2();
        self.set_invoke(Invoke { opcode: 0xb7, index });
    }

    /// Records a call of a static method, named by the two-byte constant-pool operand, for the
    /// invoker to perform.
    pub fn invoke_static(&mut self)
        requires
            old(self)@.wf(),
            old(self)@.operands(2),
        ensures
            final(self)@.wf(),
            final(self)@.op_pc == old(self)@.op_pc,
            final(self)@ == invoked(old(self)@, 0xb8u8, 2),
    {
        let index = self.read_u2();
        self.set_invoke(Invoke { opcode: 0xb8, index });
    }

    /// Records a call of an interface method, named by the two-byte constant-pool operand, for the
    /// invoker to perform.
    pub fn invoke_interface(&mut self)
        requires
            old(self)@.wf(),
            old(self)@.operands(4),
        ensures
            final(self)@.wf(),
            final(self)@.op_pc == old(self)@.op_pc,
            final(self)@ == invoked(old(self)@, 0xb9u8, 4),
    {
        let index = self.read_u2();
        let _count = self.read_u1();
        let _zero = self.read_u1();
        self.set_invoke(Invoke { opcode: 0xb9, index });
    }

    /// Records a call of a dynamically-computed call site, named by the two-byte constant-pool
    /// operand, for the invoker to perform.
    pub fn invoke_dynamic(&mut self)
        requires
            old(self)@.wf(),
            old(self)@.operands(4),
        ensures
            final(self)@.wf(),
            final(self)@.op_pc == old(self)@.op_pc,
            final(self)@ == invoked(old(self)@, 0xbau8, 4),
    {
        let index = self.read_u2();
        let _count = self.read_u1();
        let _zero = self.read_u1();
        self.set_invoke(Invoke { opcode: 0xba, index });
    }
}

} // verus!
