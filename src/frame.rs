//! One method activation: program counter, operand stack, local variables,
//! and the machinery the instruction handlers share (operand decoding,
//! typed stack access, exception dispatch).
use crate::heap::{defaults, Heap, HeapView, ObjectView, INDEX_OUT_OF_BOUNDS_CLASS, NULL_POINTER_CLASS};
use crate::numeric::bounds_message;

pub use array::{array_class_ref, array_type, atype, dim_counts, int_kinds, loaded, multi_built, multi_dimensions, multi_element, multi_ok, stored};
pub use dispatch::{float_pops, is_defined, is_float_op, is_retired};
pub use control::{first_pair, lookup_fits, lookup_target, switch_base, table_fits, table_target};
pub use object::{class_ref, field_class, field_ok, field_ref, field_slot, field_type, invoked, loadable, loaded_constant, operand_class, operand_field, static_ok};
use crate::method::{first_handler, find_handler, Class, Constant, Handler, Method};
use crate::thread::JavaThread;
use crate::value::{Kind, Value};
use vstd::prelude::*;

mod array;
mod branch;
mod control;
mod convert;
mod dispatch;
mod load;
mod object;
mod math;
mod stack;
mod store;

verus! {

/// A call the frame cannot perform itself: the invoking instruction's opcode
/// and the constant-pool index of the method (or call site) it names.
#[derive(Clone, Copy, PartialEq, Eq, Debug, Structural)]
pub struct Invoke {
    pub opcode: u8,
    pub index: u16,
}

/// Why execution cannot go on: the bytecode breaks the contract that a
/// supported compiler's output meets.
#[derive(Clone, Copy, PartialEq, Eq, Debug, Structural)]
pub enum Fatal {
    /// A retired instruction (`jsr`, `ret`, `wide`, `goto_w`, `jsr_w`, and the
    /// float/double `neg` and `rem`).
    Deprecated { opcode: u8, pc: i32 },
    /// A byte that is no opcode.
    Undefined { opcode: u8, pc: i32 },
    /// A constant the frame cannot push (a class literal, or an entry that is
    /// no loadable constant).
    Unsupported { opcode: u8, pc: i32 },
    /// Operands, locals, constants or handles that are not what the
    /// instruction requires.
    Malformed { opcode: u8, pc: i32 },
    /// The program counter left the code array.
    PcOutOfRange { pc: i32 },
}

/// What a step leaves for the invoker to do.
#[derive(Clone, Copy, PartialEq, Eq, Debug, Structural)]
pub enum Step {
    /// The next instruction can run.
    Continue,
    /// The frame has a result: a returned value, or an exception that no
    /// handler here takes.
    Done,
    /// A call that the invoker performs; it then pushes the result, if any.
    Invoke(Invoke),
    /// A floating-point instruction whose arithmetic the invoker performs on
    /// the operand stack.
    FloatOp(u8),
}

#[verifier::ext_equal]
pub struct FrameView {
    pub pc: int,
    pub op_pc: int,
    pub stack: Seq<Value>,
    pub locals: Seq<Value>,
    pub max_stack: nat,
    pub code: Seq<u8>,
    pub handlers: Seq<Handler>,
    pub cp: Seq<Constant>,
    pub class_id: u32,
    pub return_v: Option<Value>,
    pub exception: Option<Value>,
    pub invoke: Option<Invoke>,
}

/// A byte read as a signed value.
pub open spec fn sext(b: u8) -> i32 {
    (b as i8) as i32
}

impl FrameView {
    pub open spec fn wf(self) -> bool {
        &&& self.stack.len() <= self.max_stack
        &&& self.max_stack <= 0xffff
        &&& self.locals.len() <= 0xffff
        &&& self.code.len() <= 0xffff
        &&& 0 <= self.op_pc <= 0xffff
        &&& -0x10_0000 <= self.pc <= 0x10_0000
    }

    /// The value `k` slots below the top of the stack (0 is the top).
    pub open spec fn top(self, k: int) -> Value {
        self.stack[self.stack.len() - 1 - k]
    }

    /// The top `pops.len()` slots hold the kinds listed (bottom first), and
    /// after popping them `pushes` values fit.
    pub open spec fn can(self, pops: Seq<Kind>, pushes: nat) -> bool {
        &&& pops.len() <= self.stack.len()
        &&& forall|i: int| 0 <= i < pops.len() ==> #[trigger] self.stack[self.stack.len() - pops.len() + i].has_kind(pops[i])
        &&& self.stack.len() - pops.len() + pushes <= self.max_stack
    }

    /// `n` operand bytes follow the program counter inside the code.
    pub open spec fn operands(self, n: int) -> bool {
        0 <= self.pc && self.pc + n <= self.code.len()
    }

    /// Local `i` exists and holds kind `k`.
    pub open spec fn local_is(self, i: int, k: Kind) -> bool {
        0 <= i < self.locals.len() && self.locals[i].has_kind(k)
    }

    pub open spec fn u1(self, at: int) -> u8 {
        self.code[at]
    }

    pub open spec fn i1(self, at: int) -> i32 {
        sext(self.code[at])
    }

    /// Two bytes, each sign-extended, the first shifted left by 8 and or-ed
    /// with the second.
    pub open spec fn i2(self, at: int) -> i32 {
        (self.i1(at) << 8u32) | self.i1(at + 1)
    }

    /// Two `i2` reads, the first shifted left by 16 and or-ed with the second.
    pub open spec fn i4(self, at: int) -> i32 {
        (self.i2(at) << 16u32) | self.i2(at + 2)
    }

    /// Two unsigned bytes, big-endian.
    pub open spec fn u2(self, at: int) -> u16 {
        (self.code[at] as int * 256 + self.code[at + 1] as int) as u16
    }

    pub open spec fn popped(self, n: int) -> FrameView {
        FrameView { stack: self.stack.subrange(0, self.stack.len() - n), ..self }
    }

    pub open spec fn pushed(self, v: Value) -> FrameView {
        FrameView { stack: self.stack.push(v), ..self }
    }

    pub open spec fn at(self, pc: int) -> FrameView {
        FrameView { pc, ..self }
    }

    pub open spec fn with_local(self, i: int, v: Value) -> FrameView {
        FrameView { locals: self.locals.update(i, v), ..self }
    }

    /// What `can` gives the instruction handlers: the kind of each slot they
    /// pop, and how popping one at a time composes.
    pub proof fn lemma_pops(self, pops: Seq<Kind>, pushes: nat)
        requires
            self.can(pops, pushes),
        ensures
            self.popped(0) == self,
            forall|k: int| 0 <= k < pops.len() ==> (#[trigger] self.top(k)).has_kind(pops[pops.len() - 1 - k]),
            forall|k: int| 0 <= k < pops.len() ==> #[trigger] self.popped(k).top(0) == self.top(k),
            forall|k: int| 0 <= k < pops.len() ==> #[trigger] self.popped(k).popped(1) == self.popped(k + 1),
            forall|k: int| 0 <= k <= pops.len() ==> #[trigger] self.popped(k).stack.len() == self.stack.len() - k,
    {
        assert(self.popped(0) =~= self);
        assert forall|k: int| 0 <= k < pops.len() implies (#[trigger] self.top(k)).has_kind(pops[pops.len() - 1 - k]) by {
            let i = pops.len() - 1 - k;
            assert(self.stack[self.stack.len() - pops.len() + i].has_kind(pops[i]));
        }
        assert forall|k: int| 0 <= k < pops.len() implies #[trigger] self.popped(k).popped(1) == self.popped(k + 1) by {
            assert(self.popped(k).popped(1) =~= self.popped(k + 1));
        }
    }

    /// The frame after `exc` is thrown at the current instruction: the stack
    /// holds only the exception and the pending slot is clear; then either
    /// the first handler in table order that covers the instruction and
    /// matches the exception's class takes it, or the exception becomes the
    /// frame's result.
    pub open spec fn thrown(self, exc: Value, heap: HeapView) -> FrameView {
        match first_handler(self.handlers, self.op_pc, heap.classes, heap.class_of(exc)) {
            Some(i) => FrameView {
                stack: seq![exc],
                pc: self.handlers[i].handler_pc as int,
                exception: None,
                ..self
            },
            None => FrameView { stack: seq![], return_v: Some(exc), exception: None, ..self },
        }
    }
}

/// The heap after a fault of class `cls` with message `msg` is constructed.
pub open spec fn fault_heap(heap: HeapView, cls: u32, msg: Option<Seq<u8>>) -> HeapView {
    heap.with_object(ObjectView {
        class_id: cls,
        fields: defaults(heap.classes[cls as int].field_types),
        text: msg,
        locks: 0,
    })
}

/// The frame and heap after a fault of class `cls` carrying `msg` is
/// constructed and thrown at the current instruction.
pub open spec fn faulted(f: FrameView, h: HeapView, cls: u32, msg: Option<Seq<u8>>, f2: FrameView, h2: HeapView) -> bool {
    &&& h2 == fault_heap(h, cls, msg)
    &&& f2 == f.thrown(fault_ref(h), h2)
}

/// The reference to a fault constructed on `heap`.
pub open spec fn fault_ref(heap: HeapView) -> Value {
    Value::Reference(heap.objects.len() as usize)
}

/// Binary instructions take their right operand from the top: after `a` and
/// then `b` are pushed, `b` is on top, `a` beneath it, and popping both
/// gives the frame back; so `isub` (and every binary instruction, which
/// pushes `op(top(1), top(0))`) computes `a - b`, not `b - a`.
pub proof fn lemma_operand_order(f: FrameView, a: Value, b: Value)
    ensures
        f.pushed(a).pushed(b).top(1) == a,
        f.pushed(a).pushed(b).top(0) == b,
        f.pushed(a).pushed(b).popped(2) == f,
        a is Int && b is Int ==> ({
            let g = f.pushed(a).pushed(b);
            g.popped(2).pushed(Value::Int(g.top(1)->Int_0.wrapping_sub(g.top(0)->Int_0)))
                == f.pushed(Value::Int(a->Int_0.wrapping_sub(b->Int_0)))
        }),
{
    assert(f.pushed(a).pushed(b).popped(2) =~= f);
}

/// An exception that no handler of the frame takes leaves the thread's
/// pending slot clear and becomes the frame's result; one that a handler
/// takes leaves the slot clear too, with the exception alone on the stack
/// at the handler's offset.
pub proof fn lemma_unhandled_round_trip(f: FrameView, exc: Value, h: HeapView)
    ensures
        first_handler(f.handlers, f.op_pc, h.classes, h.class_of(exc)) is None ==> {
            &&& f.thrown(exc, h).exception is None
            &&& f.thrown(exc, h).return_v == Some(exc)
        },
        first_handler(f.handlers, f.op_pc, h.classes, h.class_of(exc)) matches Some(i) ==> {
            &&& f.thrown(exc, h).exception is None
            &&& f.thrown(exc, h).stack == seq![exc]
            &&& f.thrown(exc, h).pc == f.handlers[i].handler_pc
            &&& f.thrown(exc, h).return_v == f.return_v
        },
{
}

/// An array access at an index equal to the length, or below zero, raises
/// an index-out-of-bounds fault whose message names both; a null array
/// raises a null-pointer fault instead, whatever the index.
pub proof fn lemma_bounds_faults(f: FrameView, h: HeapView, f2: FrameView, h2: HeapView, a: usize)
    ensures
        loaded(f, h, f2, h2) && f.top(1) is Null ==> faulted(f, h, NULL_POINTER_CLASS, None, f2, h2),
        loaded(f, h, f2, h2) && f.top(1) == Value::Array(a) && (f.top(0)->Int_0 < 0
            || f.top(0)->Int_0 == h.arrays[a as int].elems.len()) ==> faulted(f, h, INDEX_OUT_OF_BOUNDS_CLASS,
            Some(bounds_message(h.arrays[a as int].elems.len() as int, f.top(0)->Int_0 as int)), f2, h2),
        stored(f, h, f2, h2) && f.top(2) is Null ==> faulted(f, h, NULL_POINTER_CLASS, None, f2, h2),
        stored(f, h, f2, h2) && f.top(2) == Value::Array(a) && (f.top(1)->Int_0 < 0
            || f.top(1)->Int_0 == h.arrays[a as int].elems.len()) ==> faulted(f, h, INDEX_OUT_OF_BOUNDS_CLASS,
            Some(bounds_message(h.arrays[a as int].elems.len() as int, f.top(1)->Int_0 as int)), f2, h2),
{
}

pub struct Frame {
    thread: JavaThread,
    method: Method,
    local: Vec<Value>,
    stack: Vec<Value>,
    pc: i32,
    op_pc: i32,
    class: Class,
    return_v: Option<Value>,
    invoke: Option<Invoke>,
}

impl View for Frame {
    type V = FrameView;

    closed spec fn view(&self) -> FrameView {
        FrameView {
            pc: self.pc as int,
            op_pc: self.op_pc as int,
            stack: self.stack@,
            locals: self.local@,
            max_stack: self.method.max_stack as nat,
            code: self.method.code@,
            handlers: self.method.handlers@,
            cp: self.class.cp@,
            class_id: self.class.id,
            return_v: self.return_v,
            exception: self.thread@,
            invoke: self.invoke,
        }
    }
}

impl Frame {
    /// A frame for `method` of `class`, at offset 0 with an empty stack and
    /// every local slot null.
    pub fn new(thread: JavaThread, class: Class, method: Method) -> (f: Frame)
        requires
            method.code@.len() <= 0xffff,
        ensures
            f@.wf(),
            f@.pc == 0,
            f@.op_pc == 0,
            f@.stack == Seq::<Value>::empty(),
            f@.locals == Seq::new(method.max_locals as nat, |i: int| Value::Null),
            f@.max_stack == method.max_stack,
            f@.code == method.code@,
            f@.handlers == method.handlers@,
            f@.cp == class.cp@,
            f@.class_id == class.id,
            f@.return_v is None,
            f@.exception == thread@,
            f@.invoke is None,
    {
        let mut local: Vec<Value> = Vec::new();
        let mut i: u16 = 0;
        while i < method.max_locals
            invariant
                i <= method.max_locals,
                local@ =~= Seq::new(i as nat, |k: int| Value::Null),
            decreases method.max_locals - i,
        {
            local.push(Value::Null);
            i = i + 1;
        }
        let f = Frame {
            thread,
            method,
            local,
            stack: Vec::new(),
            pc: 0,
            op_pc: 0,
            class,
            return_v: None,
            invoke: None,
        };
        assert(f@.stack =~= Seq::<Value>::empty());
        f
    }

    pub fn pc(&self) -> (r: i32)
        ensures
            r == self@.pc,
    {
        self.pc
    }

    /// The offset of the instruction being (or last) executed.
    pub fn op_pc(&self) -> (r: i32)
        ensures
            r == self@.op_pc,
    {
        self.op_pc
    }

    /// The frame's result: the returned value (null for a `void` return) or
    /// the exception that left it.
    pub fn return_value(&self) -> (r: Option<Value>)
        ensures
            r == self@.return_v,
    {
        self.return_v
    }

    /// The thread's pending exception, if any.
    pub fn pending_exception(&self) -> (r: Option<Value>)
        ensures
            r == self@.exception,
    {
        self.thread.exception()
    }

    /// The call the frame is waiting for, if any.
    pub fn pending_invoke(&self) -> (r: Option<Invoke>)
        ensures
            r == self@.invoke,
    {
        self.invoke
    }

    pub fn stack_len(&self) -> (r: usize)
        ensures
            r == self@.stack.len(),
    {
        self.stack.len()
    }

    pub fn max_stack(&self) -> (r: usize)
        ensures
            r == self@.max_stack,
    {
        self.method.max_stack as usize
    }

    pub fn code_len(&self) -> (r: usize)
        ensures
            r == self@.code.len(),
    {
        self.method.code.len()
    }

    /// The value `k` slots below the top (0 is the top).
    pub fn peek(&self, k: usize) -> (r: Value)
        requires
            k < self@.stack.len(),
        ensures
            r == self@.top(k as int),
    {
        self.stack[self.stack.len() - 1 - k]
    }

    /// Local slot `i`.
    pub fn local(&self, i: usize) -> (r: Value)
        requires
            i < self@.locals.len(),
        ensures
            r == self@.locals[i as int],
    {
        self.local[i]
    }

    pub fn local_count(&self) -> (r: usize)
        ensures
            r == self@.locals.len(),
    {
        self.local.len()
    }

    pub fn code_at(&self, i: usize) -> (r: u8)
        requires
            i < self@.code.len(),
        ensures
            r == self@.code[i as int],
    {
        self.method.code[i]
    }

    /// The constant-pool entry at `i`.
    pub fn constant(&self, i: usize) -> (r: &Constant)
        requires
            i < self@.cp.len(),
        ensures
            *r == self@.cp[i as int],
    {
        &self.class.cp[i]
    }

    pub fn cp_len(&self) -> (r: usize)
        ensures
            r == self@.cp.len(),
    {
        self.class.cp.len()
    }

    /// Whether the top slots hold `pops` (bottom first) and, once they are
    /// popped, `pushes` values fit.
    pub fn can(&self, pops: &[Kind], pushes: usize) -> (r: bool)
        ensures
            r == self@.can(pops@, pushes as nat),
    {
        let n = self.stack.len();
        if pops.len() > n {
            return false;
        }
        let base = n - pops.len();
        let mut i: usize = 0;
        while i < pops.len()
            invariant
                base == self@.stack.len() - pops@.len(),
                n == self@.stack.len(),
                pops@.len() <= n,
                i <= pops@.len(),
                forall|j: int| 0 <= j < i ==> #[trigger] self@.stack[self@.stack.len() - pops@.len() + j].has_kind(pops@[j]),
            decreases pops@.len() - i,
        {
            if !self.stack[base + i].is_kind(pops[i]) {
                return false;
            }
            i = i + 1;
        }
        let m = self.method.max_stack as usize;
        pushes <= m && base <= m - pushes
    }

    /// `can` for one slot.
    pub fn can1(&self, a: Kind, pushes: usize) -> (r: bool)
        ensures
            r == self@.can(seq![a], pushes as nat),
    {
        let pops = [a];
        assert(pops@ =~= seq![a]);
        self.can(&pops, pushes)
    }

    /// `can` for two slots, bottom first.
    pub fn can2(&self, a: Kind, b: Kind, pushes: usize) -> (r: bool)
        ensures
            r == self@.can(seq![a, b], pushes as nat),
    {
        let pops = [a, b];
        assert(pops@ =~= seq![a, b]);
        self.can(&pops, pushes)
    }

    /// `can` for three slots, bottom first.
    pub fn can3(&self, a: Kind, b: Kind, c: Kind, pushes: usize) -> (r: bool)
        ensures
            r == self@.can(seq![a, b, c], pushes as nat),
    {
        let pops = [a, b, c];
        assert(pops@ =~= seq![a, b, c]);
        self.can(&pops, pushes)
    }

    /// `can` for four slots, bottom first.
    pub fn can4(&self, a: Kind, b: Kind, c: Kind, d: Kind, pushes: usize) -> (r: bool)
        ensures
            r == self@.can(seq![a, b, c, d], pushes as nat),
    {
        let pops = [a, b, c, d];
        assert(pops@ =~= seq![a, b, c, d]);
        self.can(&pops, pushes)
    }

    /// `can` for no slot: whether `pushes` values fit.
    pub fn can0(&self, pushes: usize) -> (r: bool)
        ensures
            r == self@.can(seq![], pushes as nat),
    {
        let pops: [Kind; 0] = [];
        assert(pops@ =~= seq![]);
        self.can(&pops, pushes)
    }

    /// Whether `n` operand bytes follow the program counter.
    pub fn has_operands(&self, n: usize) -> (r: bool)
        requires
            n <= 8,
            self@.wf(),
        ensures
            r == self@.operands(n as int),
    {
        self.pc >= 0 && (self.pc as usize) + n <= self.method.code.len()
    }

    /// Whether local `i` exists and holds kind `k`.
    pub fn local_is(&self, i: usize, k: Kind) -> (r: bool)
        ensures
            r == self@.local_is(i as int, k),
    {
        i < self.local.len() && self.local[i].is_kind(k)
    }

    pub fn push_value(&mut self, v: Value)
        requires
            old(self)@.stack.len() < old(self)@.max_stack,
        ensures
            final(self)@ == old(self)@.pushed(v),
    {
        self.stack.push(v);
        assert(self@ =~= old(self)@.pushed(v));
    }

    pub fn pop_value(&mut self) -> (r: Value)
        requires
            old(self)@.stack.len() > 0,
        ensures
            r == old(self)@.top(0),
            final(self)@ == old(self)@.popped(1),
    {
        let r = self.stack.pop().unwrap();
        assert(self@ =~= old(self)@.popped(1));
        r
    }

    pub fn pop_int(&mut self) -> (r: i32)
        requires
            old(self)@.stack.len() > 0,
            old(self)@.top(0) is Int,
        ensures
            Value::Int(r) == old(self)@.top(0),
            final(self)@ == old(self)@.popped(1),
    {
        match self.pop_value() {
            Value::Int(v) => v,
            _ => 0,
        }
    }

    pub fn pop_long(&mut self) -> (r: i64)
        requires
            old(self)@.stack.len() > 0,
            old(self)@.top(0) is Long,
        ensures
            Value::Long(r) == old(self)@.top(0),
            final(self)@ == old(self)@.popped(1),
    {
        match self.pop_value() {
            Value::Long(v) => v,
            _ => 0,
        }
    }

    /// Pops a `float`, as its bit pattern.
    pub fn pop_float(&mut self) -> (r: u32)
        requires
            old(self)@.stack.len() > 0,
            old(self)@.top(0) is Float,
        ensures
            Value::Float(r) == old(self)@.top(0),
            final(self)@ == old(self)@.popped(1),
    {
        match self.pop_value() {
            Value::Float(v) => v,
            _ => 0,
        }
    }

    /// Pops a `double`, as its bit pattern.
    pub fn pop_double(&mut self) -> (r: u64)
        requires
            old(self)@.stack.len() > 0,
            old(self)@.top(0) is Double,
        ensures
            Value::Double(r) == old(self)@.top(0),
            final(self)@ == old(self)@.popped(1),
    {
        match self.pop_value() {
            Value::Double(v) => v,
            _ => 0,
        }
    }

    pub fn clear_stack(&mut self)
        ensures
            final(self)@ == (FrameView { stack: seq![], ..old(self)@ }),
    {
        self.stack.clear();
        assert(self@ =~= (FrameView { stack: seq![], ..old(self)@ }));
    }

    pub fn set_local(&mut self, i: usize, v: Value)
        requires
            i < old(self)@.locals.len(),
        ensures
            final(self)@ == old(self)@.with_local(i as int, v),
    {
        self.local.set(i, v);
        assert(self@ =~= old(self)@.with_local(i as int, v));
    }

    pub fn read_u1(&mut self) -> (r: u8)
        requires
            old(self)@.wf(),
            old(self)@.operands(1),
        ensures
            r == old(self)@.u1(old(self)@.pc),
            final(self)@ == old(self)@.at(old(self)@.pc + 1),
    {
        let v = self.method.code[self.pc as usize];
        self.pc = self.pc + 1;
        assert(self@ =~= old(self)@.at(old(self)@.pc + 1));
        v
    }

    /// One byte, sign-extended.
    pub fn read_i1(&mut self) -> (r: i32)
        requires
            old(self)@.wf(),
            old(self)@.operands(1),
        ensures
            r == old(self)@.i1(old(self)@.pc),
            -128 <= r <= 127,
            final(self)@ == old(self)@.at(old(self)@.pc + 1),
    {
        let v = self.read_u1();
        (v as i8) as i32
    }

    pub fn read_u2(&mut self) -> (r: u16)
        requires
            old(self)@.wf(),
            old(self)@.operands(2),
        ensures
            r == old(self)@.u2(old(self)@.pc),
            final(self)@ == old(self)@.at(old(self)@.pc + 2),
    {
        let hi = self.read_u1();
        let lo = self.read_u1();
        (hi as u16) * 256 + (lo as u16)
    }

    pub fn read_i2(&mut self) -> (r: i32)
        requires
            old(self)@.wf(),
            old(self)@.operands(2),
        ensures
            r == old(self)@.i2(old(self)@.pc),
            -0x8000 <= r <= 0x7fff,
            final(self)@ == old(self)@.at(old(self)@.pc + 2),
    {
        let hi = self.read_i1();
        let lo = self.read_i1();
        assert(-0x8000 <= ((hi << 8u32) | lo) <= 0x7fff) by (bit_vector)
            requires
                -128 <= hi <= 127,
                -128 <= lo <= 127,
        ;
        (hi << 8u32) | lo
    }

    pub fn read_i4(&mut self) -> (r: i32)
        requires
            old(self)@.wf(),
            old(self)@.operands(4),
        ensures
            r == old(self)@.i4(old(self)@.pc),
            final(self)@ == old(self)@.at(old(self)@.pc + 4),
    {
        let hi = self.read_i2();
        let lo = self.read_i2();
        (hi << 16u32) | lo
    }

    /// Sets the program counter to an absolute offset.
    pub fn goto_abs(&mut self, pc: i32)
        ensures
            final(self)@ == old(self)@.at(pc as int),
    {
        self.pc = pc;
        assert(self@ =~= old(self)@.at(pc as int));
    }

    /// Records the frame's result.
    pub fn set_return(&mut self, v: Value)
        ensures
            final(self)@ == (FrameView { return_v: Some(v), ..old(self)@ }),
    {
        self.return_v = Some(v);
        assert(self@ =~= (FrameView { return_v: Some(v), ..old(self)@ }));
    }

    /// Records a call for the invoker to perform.
    pub fn set_invoke(&mut self, inv: Invoke)
        ensures
            final(self)@ == (FrameView { invoke: Some(inv), ..old(self)@ }),
    {
        self.invoke = Some(inv);
        assert(self@ =~= (FrameView { invoke: Some(inv), ..old(self)@ }));
    }

    /// Takes the recorded call, leaving none.
    pub fn take_invoke(&mut self) -> (r: Option<Invoke>)
        ensures
            r == old(self)@.invoke,
            final(self)@ == (FrameView { invoke: None, ..old(self)@ }),
    {
        let r = self.invoke;
        self.invoke = None;
        assert(self@ =~= (FrameView { invoke: None, ..old(self)@ }));
        r
    }

    /// Marks the start of the instruction at the program counter.
    pub fn begin_instruction(&mut self)
        requires
            old(self)@.wf(),
            0 <= old(self)@.pc < old(self)@.code.len(),
        ensures
            final(self)@ == (FrameView { op_pc: old(self)@.pc, ..old(self)@ }),
    {
        self.op_pc = self.pc;
        assert(self@ =~= (FrameView { op_pc: old(self)@.pc, ..old(self)@ }));
    }

    /// Dispatches the pending exception of the thread: the stack is reset to
    /// hold only it, the pending slot is cleared, and the handler table is
    /// searched for the current instruction.
    pub fn handle_exception(&mut self, heap: &Heap)
        requires
            old(self)@.wf(),
            old(self)@.max_stack >= 1,
            heap@.wf(),
            old(self)@.exception matches Some(e) && (e is Reference || e is Null) && heap@.valid(e),
        ensures
            final(self)@ == old(self)@.thrown(old(self)@.exception->0, heap@),
    {
        let ext = self.thread.exception().unwrap();
        self.clear_stack();
        self.push_value(ext);
        self.thread.clear_ext();
        assert(self@ =~= (FrameView { stack: seq![ext], exception: None, ..old(self)@ }));
        self.dispatch(heap, ext);
    }

    /// Searches the handler table for `exc`, thrown at the current
    /// instruction with the stack already holding only it.
    fn dispatch(&mut self, heap: &Heap, exc: Value)
        requires
            old(self)@.wf(),
            heap@.wf(),
            heap@.valid(exc),
            old(self)@.stack == seq![exc],
            old(self)@.exception is None,
        ensures
            final(self)@ == old(self)@.thrown(exc, heap@),
    {
        let cls = heap.class_of(exc);
        match find_handler(&self.method.handlers, self.op_pc, heap, cls) {
            Some(i) => {
                let target = self.method.handlers[i].handler_pc as i32;
                self.goto_abs(target);
                assert(self@ =~= old(self)@.thrown(exc, heap@));
            },
            None => {
                self.clear_stack();
                self.set_return(exc);
                assert(self@ =~= old(self)@.thrown(exc, heap@));
            },
        }
    }

    /// Throws `exc` at the current instruction, as `athrow` does with a
    /// non-null reference.
    pub fn throw(&mut self, heap: &Heap, exc: Value)
        requires
            old(self)@.wf(),
            old(self)@.max_stack >= 1,
            heap@.wf(),
            heap@.valid(exc),
            exc is Reference,
        ensures
            final(self)@ == old(self)@.thrown(exc, heap@),
    {
        self.thread.throw_ext(exc);
        assert(self@ =~= (FrameView { exception: Some(exc), ..old(self)@ }));
        self.handle_exception(heap);
        assert(self@ =~= old(self)@.thrown(exc, heap@));
    }

    /// Constructs a fault of class `cls` carrying `msg`, records it as the
    /// pending exception and dispatches it.
    pub fn raise(&mut self, heap: &mut Heap, cls: u32, msg: Option<Vec<u8>>)
        requires
            old(self)@.wf(),
            old(self)@.max_stack >= 1,
            old(heap)@.wf(),
            cls < old(heap)@.classes.len(),
        ensures
            final(heap)@.wf(),
            final(heap)@ == fault_heap(old(heap)@, cls, match msg {
                Some(m) => Some(m@),
                None => None,
            }),
            final(self)@ == old(self)@.thrown(fault_ref(old(heap)@), final(heap)@),
    {
        let exc = match msg {
            Some(m) => heap.new_with_text(cls, m),
            None => heap.new_object(cls),
        };
        self.throw(heap, exc);
    }
}

} // verus!
