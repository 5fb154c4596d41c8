//! Array element access, array length and array allocation.
use crate::frame::{faulted, FrameView, Frame};
use crate::heap::{build, Heap, HeapView, INDEX_OUT_OF_BOUNDS_CLASS, NEGATIVE_ARRAY_SIZE_CLASS, NULL_POINTER_CLASS};
use crate::method::Constant;
use crate::numeric::{bounds_message, make_bounds_message};
use crate::value::{Kind, Value, ValueType};
use vstd::prelude::*;

verus! {

/// The outcome of an array load: the element pushed when the index is in
/// bounds; a null-pointer fault for a null array, checked first; an
/// index-out-of-bounds fault otherwise.
pub open spec fn loaded(f: FrameView, h: HeapView, f2: FrameView, h2: HeapView) -> bool {
    let index = f.top(0)->Int_0;
    match f.top(1) {
        Value::Array(a) => {
            let elems = h.arrays[a as int].elems;
            if 0 <= index < elems.len() {
                h2 == h && f2 == f.popped(2).pushed(elems[index as int])
            } else {
                faulted(f, h, INDEX_OUT_OF_BOUNDS_CLASS, Some(bounds_message(elems.len() as int, index as int)), f2, h2)
            }
        },
        _ => faulted(f, h, NULL_POINTER_CLASS, None, f2, h2),
    }
}

/// The outcome of an array store of the top value at the index beneath it
/// into the array beneath that, with the same faults as a load.
pub open spec fn stored(f: FrameView, h: HeapView, f2: FrameView, h2: HeapView) -> bool {
    let index = f.top(1)->Int_0;
    match f.top(2) {
        Value::Array(a) => {
            let elems = h.arrays[a as int].elems;
            if 0 <= index < elems.len() {
                h2 == h.with_element(a as int, index as int, f.top(0)) && f2 == f.popped(3)
            } else {
                faulted(f, h, INDEX_OUT_OF_BOUNDS_CLASS, Some(bounds_message(elems.len() as int, index as int)), f2, h2)
            }
        },
        _ => faulted(f, h, NULL_POINTER_CLASS, None, f2, h2),
    }
}

/// The element type that a `newarray` type code names.
pub open spec fn atype(code: u8) -> Option<ValueType> {
    if code == 4 {
        Some(ValueType::Boolean)
    } else if code == 5 {
        Some(ValueType::Char)
    } else if code == 6 {
        Some(ValueType::Float)
    } else if code == 7 {
        Some(ValueType::Double)
    } else if code == 8 {
        Some(ValueType::Byte)
    } else if code == 9 {
        Some(ValueType::Short)
    } else if code == 10 {
        Some(ValueType::Int)
    } else if code == 11 {
        Some(ValueType::Long)
    } else {
        None
    }
}

/// The element type that a `newarray` type code names.
pub fn array_type(code: u8) -> (r: Option<ValueType>)
    ensures
        r == atype(code),
{
    match code {
        4 => Some(ValueType::Boolean),
        5 => Some(ValueType::Char),
        6 => Some(ValueType::Float),
        7 => Some(ValueType::Double),
        8 => Some(ValueType::Byte),
        9 => Some(ValueType::Short),
        10 => Some(ValueType::Int),
        11 => Some(ValueType::Long),
        _ => None,
    }
}

/// The array class that constant-pool entry `idx` names: its dimensions and
/// its innermost element type.
pub open spec fn array_class_ref(cp: Seq<Constant>, idx: int) -> Option<(u8, ValueType)> {
    if 0 <= idx < cp.len() {
        match cp[idx] {
            Constant::ArrayClass { dimensions, element } => Some((dimensions, element)),
            _ => None,
        }
    } else {
        None
    }
}

/// The dimensions of the array class that the two-byte operand names.
pub open spec fn multi_dimensions(f: FrameView) -> nat {
    match array_class_ref(f.cp, f.u2(f.pc) as int) {
        Some((d, _)) => d as nat,
        None => 0,
    }
}

/// The innermost element type of the array class that the two-byte operand
/// names.
pub open spec fn multi_element(f: FrameView) -> ValueType {
    match array_class_ref(f.cp, f.u2(f.pc) as int) {
        Some((_, e)) => e,
        None => ValueType::Int,
    }
}

/// `n` copies of the `int` kind.
pub open spec fn int_kinds(n: nat) -> Seq<Kind> {
    Seq::new(n, |i: int| Kind::Int)
}

/// The `n` counts on top of the stack, the first pushed first.
pub open spec fn dim_counts(f: FrameView, n: nat) -> Seq<i32> {
    Seq::new(n, |i: int| f.stack[f.stack.len() - n + i]->Int_0)
}

/// A `multianewarray` whose operands name an array class with at least as
/// many dimensions as the count byte, with that many `int` counts on the
/// stack.
pub open spec fn multi_ok(f: FrameView) -> bool {
    &&& f.operands(3)
    &&& array_class_ref(f.cp, f.u2(f.pc) as int) matches Some(ac)
    &&& 1 <= f.u1(f.pc + 2) <= ac.0
    &&& f.can(int_kinds(f.u1(f.pc + 2) as nat), 1)
}

/// The outcome of `multianewarray` with `dims` counts for an array class of
/// `dimensions` dimensions and innermost element type `element`: a negative
/// count raises a negative-array-size fault before anything is allocated.
pub open spec fn multi_built(f: FrameView, h: HeapView, dims: nat, dimensions: nat, element: ValueType, f2: FrameView, h2: HeapView) -> bool {
    let counts = dim_counts(f, dims);
    let built = build(h, counts, 0, dimensions, element);
    if forall|i: int| 0 <= i < dims ==> #[trigger] counts[i] >= 0 {
        h2 == built.0 && f2 == f.popped(dims as int).pushed(built.1)
    } else {
        faulted(f, h, NEGATIVE_ARRAY_SIZE_CLASS, None, f2, h2)
    }
}

fn all_non_negative(v: &Vec<i32>) -> (r: bool)
    ensures
        r == forall|i: int| 0 <= i < v@.len() ==> #[trigger] v@[i] >= 0,
{
    let mut i: usize = 0;
    while i < v.len()
        invariant
            i <= v@.len(),
            forall|q: int| 0 <= q < i ==> #[trigger] v@[q] >= 0,
        decreases v@.len() - i,
    {
        if v[i] < 0 {
            return false;
        }
        i = i + 1;
    }
    true
}

impl Frame {
    fn load_element(&mut self, heap: &mut Heap)
        requires
            old(self)@.wf(),
            old(heap)@.wf(),
            old(self)@.can(seq![Kind::ArrayRef, Kind::Int], 1),
            old(heap)@.valid(old(self)@.top(1)),
        ensures
            final(heap)@.wf(),
            loaded(old(self)@, old(heap)@, final(self)@, final(heap)@),
    {
        proof {
            self@.lemma_pops(seq![Kind::ArrayRef, Kind::Int], 1);
        }
        let pos = self.pop_int();
        let rf = self.pop_value();
        match rf {
            Value::Array(a) => {
                let len = heap.array_length(a);
                if pos < 0 || pos as usize >= len {
                    let msg = make_bounds_message(len, pos);
                    self.raise(heap, INDEX_OUT_OF_BOUNDS_CLASS, Some(msg));
                    assert(final(self)@ =~= old(self)@.thrown(crate::frame::fault_ref(old(heap)@), final(heap)@));
                } else {
                    let v = heap.array_get(a, pos as usize);
                    self.push_value(v);
                }
            },
            _ => {
                self.raise(heap, NULL_POINTER_CLASS, None);
                assert(final(self)@ =~= old(self)@.thrown(crate::frame::fault_ref(old(heap)@), final(heap)@));
            },
        }
    }

    fn store_element(&mut self, heap: &mut Heap, k: Kind)
        requires
            old(self)@.wf(),
            old(heap)@.wf(),
            old(self)@.can(seq![Kind::ArrayRef, Kind::Int, k], 0),
            old(heap)@.valid(old(self)@.top(2)),
        ensures
            final(heap)@.wf(),
            stored(old(self)@, old(heap)@, final(self)@, final(heap)@),
    {
        proof {
            self@.lemma_pops(seq![Kind::ArrayRef, Kind::Int, k], 0);
        }
        let v = self.pop_value();
        let pos = self.pop_int();
        let rf = self.pop_value();
        match rf {
            Value::Array(a) => {
                let len = heap.array_length(a);
                if pos < 0 || pos as usize >= len {
                    let msg = make_bounds_message(len, pos);
                    self.raise(heap, INDEX_OUT_OF_BOUNDS_CLASS, Some(msg));
                    assert(final(self)@ =~= old(self)@.thrown(crate::frame::fault_ref(old(heap)@), final(heap)@));
                } else {
                    heap.array_set(a, pos as usize, v);
                }
            },
            _ => {
                self.raise(heap, NULL_POINTER_CLASS, None);
                assert(final(self)@ =~= old(self)@.thrown(crate::frame::fault_ref(old(heap)@), final(heap)@));
            },
        }
    }
    /// Pops an index and an array and pushes an `int` element; faults on a null array or an index
    /// out of bounds.
    pub fn iaload(&mut self, heap: &mut Heap)
        requires
            old(self)@.wf(),
            old(heap)@.wf(),
            old(self)@.can(seq![Kind::ArrayRef, Kind::Int], 1),
            old(heap)@.valid(old(self)@.top(1)),
        ensures
            final(self)@.wf(),
            final(self)@.op_pc == old(self)@.op_pc,
            final(heap)@.wf(),
            loaded(old(self)@, old(heap)@, final(self)@, final(heap)@),
    {
        proof {
            self@.lemma_pops(seq![Kind::ArrayRef, Kind::Int], 1);
        }
        self.load_element(heap);
    }

    /// Pops an index and an array and pushes a `long` element; faults on a null array or an index
    /// out of bounds.
    pub fn laload(&mut self, heap: &mut Heap)
        requires
            old(self)@.wf(),
            old(heap)@.wf(),
            old(self)@.can(seq![Kind::ArrayRef, Kind::Int], 1),
            old(heap)@.valid(old(self)@.top(1)),
        ensures
            final(self)@.wf(),
            final(self)@.op_pc == old(self)@.op_pc,
            final(heap)@.wf(),
            loaded(old(self)@, old(heap)@, final(self)@, final(heap)@),
    {
        proof {
            self@.lemma_pops(seq![Kind::ArrayRef, Kind::Int], 1);
        }
        self.load_element(heap);
    }

    /// Pops an index and an array and pushes a `float` element; faults on a null array or an index
    /// out of bounds.
    pub fn faload(&mut self, heap: &mut Heap)
        requires
            old(self)@.wf(),
            old(heap)@.wf(),
            old(self)@.can(seq![Kind::ArrayRef, Kind::Int], 1),
            old(heap)@.valid(old(self)@.top(1)),
        ensures
            final(self)@.wf(),
            final(self)@.op_pc == old(self)@.op_pc,
            final(heap)@.wf(),
            loaded(old(self)@, old(heap)@, final(self)@, final(heap)@),
    {
        proof {
            self@.lemma_pops(seq![Kind::ArrayRef, Kind::Int], 1);
        }
        self.load_element(heap);
    }

    /// Pops an index and an array and pushes a `double` element; faults on a null array or an index
    /// out of bounds.
    pub fn daload(&mut self, heap: &mut Heap)
        requires
            old(self)@.wf(),
            old(heap)@.wf(),
            old(self)@.can(seq![Kind::ArrayRef, Kind::Int], 1),
            old(heap)@.valid(old(self)@.top(1)),
        ensures
            final(self)@.wf(),
            final(self)@.op_pc == old(self)@.op_pc,
            final(heap)@.wf(),
            loaded(old(self)@, old(heap)@, final(self)@, final(heap)@),
    {
        proof {
            self@.lemma_pops(seq![Kind::ArrayRef, Kind::Int], 1);
        }
        self.load_element(heap);
    }

    /// Pops an index and an array and pushes a reference element; faults on a null array or an
    /// index out of bounds.
    pub fn aaload(&mut self, heap: &mut Heap)
        requires
            old(self)@.wf(),
            old(heap)@.wf(),
            old(self)@.can(seq![Kind::ArrayRef, Kind::Int], 1),
            old(heap)@.valid(old(self)@.top(1)),
        ensures
            final(self)@.wf(),
            final(self)@.op_pc == old(self)@.op_pc,
            final(heap)@.wf(),
            loaded(old(self)@, old(heap)@, final(self)@, final(heap)@),
    {
        proof {
            self@.lemma_pops(seq![Kind::ArrayRef, Kind::Int], 1);
        }
        self.load_element(heap);
    }

    /// Pops an index and an array and pushes a `byte` or `boolean` element; faults on a null array
    /// or an index out of bounds.
    pub fn baload(&mut self, heap: &mut Heap)
        requires
            old(self)@.wf(),
            old(heap)@.wf(),
            old(self)@.can(seq![Kind::ArrayRef, Kind::Int], 1),
            old(heap)@.valid(old(self)@.top(1)),
        ensures
            final(self)@.wf(),
            final(self)@.op_pc == old(self)@.op_pc,
            final(heap)@.wf(),
            loaded(old(self)@, old(heap)@, final(self)@, final(heap)@),
    {
        proof {
            self@.lemma_pops(seq![Kind::ArrayRef, Kind::Int], 1);
        }
        self.load_element(heap);
    }

    /// Pops an index and an array and pushes a `char` element; faults on a null array or an index
    /// out of bounds.
    pub fn caload(&mut self, heap: &mut Heap)
        requires
            old(self)@.wf(),
            old(heap)@.wf(),
            old(self)@.can(seq![Kind::ArrayRef, Kind::Int], 1),
            old(heap)@.valid(old(self)@.top(1)),
        ensures
            final(self)@.wf(),
            final(self)@.op_pc == old(self)@.op_pc,
            final(heap)@.wf(),
            loaded(old(self)@, old(heap)@, final(self)@, final(heap)@),
    {
        proof {
            self@.lemma_pops(seq![Kind::ArrayRef, Kind::Int], 1);
        }
        self.load_element(heap);
    }

    /// Pops an index and an array and pushes a `short` element; faults on a null array or an index
    /// out of bounds.
    pub fn saload(&mut self, heap: &mut Heap)
        requires
            old(self)@.wf(),
            old(heap)@.wf(),
            old(self)@.can(seq![Kind::ArrayRef, Kind::Int], 1),
            old(heap)@.valid(old(self)@.top(1)),
        ensures
            final(self)@.wf(),
            final(self)@.op_pc == old(self)@.op_pc,
            final(heap)@.wf(),
            loaded(old(self)@, old(heap)@, final(self)@, final(heap)@),
    {
        proof {
            self@.lemma_pops(seq![Kind::ArrayRef, Kind::Int], 1);
        }
        self.load_element(heap);
    }

    /// Pops an `int`, an index and an array and stores the value at the index; faults on a null
    /// array or an index out of bounds.
    pub fn iastore(&mut self, heap: &mut Heap)
        requires
            old(self)@.wf(),
            old(heap)@.wf(),
            old(self)@.can(seq![Kind::ArrayRef, Kind::Int, Kind::Int], 0),
            old(heap)@.valid(old(self)@.top(2)),
        ensures
            final(self)@.wf(),
            final(self)@.op_pc == old(self)@.op_pc,
            final(heap)@.wf(),
            stored(old(self)@, old(heap)@, final(self)@, final(heap)@),
    {
        proof {
            self@.lemma_pops(seq![Kind::ArrayRef, Kind::Int, Kind::Int], 0);
        }
        self.store_element(heap, Kind::Int);
    }

    /// Pops a `long`, an index and an array and stores the value at the index; faults on a null
    /// array or an index out of bounds.
    pub fn lastore(&mut self, heap: &mut Heap)
        requires
            old(self)@.wf(),
            old(heap)@.wf(),
            old(self)@.can(seq![Kind::ArrayRef, Kind::Int, Kind::Long], 0),
            old(heap)@.valid(old(self)@.top(2)),
        ensures
            final(self)@.wf(),
            final(self)@.op_pc == old(self)@.op_pc,
            final(heap)@.wf(),
            stored(old(self)@, old(heap)@, final(self)@, final(heap)@),
    {
        proof {
            self@.lemma_pops(seq![Kind::ArrayRef, Kind::Int, Kind::Long], 0);
        }
        self.store_element(heap, Kind::Long);
    }

    /// Pops a `float`, an index and an array and stores the value at the index; faults on a null
    /// array or an index out of bounds.
    pub fn fastore(&mut self, heap: &mut Heap)
        requires
            old(self)@.wf(),
            old(heap)@.wf(),
            old(self)@.can(seq![Kind::ArrayRef, Kind::Int, Kind::Float], 0),
            old(heap)@.valid(old(self)@.top(2)),
        ensures
            final(self)@.wf(),
            final(self)@.op_pc == old(self)@.op_pc,
            final(heap)@.wf(),
            stored(old(self)@, old(heap)@, final(self)@, final(heap)@),
    {
        proof {
            self@.lemma_pops(seq![Kind::ArrayRef, Kind::Int, Kind::Float], 0);
        }
        self.store_element(heap, Kind::Float);
    }

    /// Pops a `double`, an index and an array and stores the value at the index; faults on a null
    /// array or an index out of bounds.
    pub fn dastore(&mut self, heap: &mut Heap)
        requires
            old(self)@.wf(),
            old(heap)@.wf(),
            old(self)@.can(seq![Kind::ArrayRef, Kind::Int, Kind::Double], 0),
            old(heap)@.valid(old(self)@.top(2)),
        ensures
            final(self)@.wf(),
            final(self)@.op_pc == old(self)@.op_pc,
            final(heap)@.wf(),
            stored(old(self)@, old(heap)@, final(self)@, final(heap)@),
    {
        proof {
            self@.lemma_pops(seq![Kind::ArrayRef, Kind::Int, Kind::Double], 0);
        }
        self.store_element(heap, Kind::Double);
    }

    /// Pops a reference, an index and an array and stores the value at the index; faults on a null
    /// array or an index out of bounds.
    pub fn aastore(&mut self, heap: &mut Heap)
        requires
            old(self)@.wf(),
            old(heap)@.wf(),
            old(self)@.can(seq![Kind::ArrayRef, Kind::Int, Kind::Ref], 0),
            old(heap)@.valid(old(self)@.top(2)),
        ensures
            final(self)@.wf(),
            final(self)@.op_pc == old(self)@.op_pc,
            final(heap)@.wf(),
            stored(old(self)@, old(heap)@, final(self)@, final(heap)@),
    {
        proof {
            self@.lemma_pops(seq![Kind::ArrayRef, Kind::Int, Kind::Ref], 0);
        }
        self.store_element(heap, Kind::Ref);
    }

    /// Pops a `byte` or `boolean`, an index and an array and stores the value at the index; faults
    /// on a null array or an index out of bounds.
    pub fn bastore(&mut self, heap: &mut Heap)
        requires
            old(self)@.wf(),
            old(heap)@.wf(),
            old(self)@.can(seq![Kind::ArrayRef, Kind::Int, Kind::Int], 0),
            old(heap)@.valid(old(self)@.top(2)),
        ensures
            final(self)@.wf(),
            final(self)@.op_pc == old(self)@.op_pc,
            final(heap)@.wf(),
            stored(old(self)@, old(heap)@, final(self)@, final(heap)@),
    {
        proof {
            self@.lemma_pops(seq![Kind::ArrayRef, Kind::Int, Kind::Int], 0);
        }
        self.store_element(heap, Kind::Int);
    }

    /// Pops a `char`, an index and an array and stores the value at the index; faults on a null
    /// array or an index out of bounds.
    pub fn castore(&mut self, heap: &mut Heap)
        requires
            old(self)@.wf(),
            old(heap)@.wf(),
            old(self)@.can(seq![Kind::ArrayRef, Kind::Int, Kind::Int], 0),
            old(heap)@.valid(old(self)@.top(2)),
        ensures
            final(self)@.wf(),
            final(self)@.op_pc == old(self)@.op_pc,
            final(heap)@.wf(),
            stored(old(self)@, old(heap)@, final(self)@, final(heap)@),
    {
        proof {
            self@.lemma_pops(seq![Kind::ArrayRef, Kind::Int, Kind::Int], 0);
        }
        self.store_element(heap, Kind::Int);
    }

    /// Pops a `short`, an index and an array and stores the value at the index; faults on a null
    /// array or an index out of bounds.
    pub fn sastore(&mut self, heap: &mut Heap)
        requires
            old(self)@.wf(),
            old(heap)@.wf(),
            old(self)@.can(seq![Kind::ArrayRef, Kind::Int, Kind::Int], 0),
            old(heap)@.valid(old(self)@.top(2)),
        ensures
            final(self)@.wf(),
            final(self)@.op_pc == old(self)@.op_pc,
            final(heap)@.wf(),
            stored(old(self)@, old(heap)@, final(self)@, final(heap)@),
    {
        proof {
            self@.lemma_pops(seq![Kind::ArrayRef, Kind::Int, Kind::Int], 0);
        }
        self.store_element(heap, Kind::Int);
    }

    /// Pops an array and pushes its length; faults on null.
    pub fn array_length(&mut self, heap: &mut Heap)
        requires
            old(self)@.wf(),
            old(heap)@.wf(),
            old(self)@.can(seq![Kind::ArrayRef], 1),
            old(heap)@.valid(old(self)@.top(0)),
        ensures
            final(self)@.wf(),
            final(self)@.op_pc == old(self)@.op_pc,
            final(heap)@.wf(),
            old(self)@.top(0) matches Value::Array(a) ==> final(heap)@ == old(heap)@ && final(self)@ == old(self)@.popped(1).pushed(Value::Int(old(heap)@.arrays[a as int].elems.len() as i32)),
            old(self)@.top(0) is Null ==> faulted(old(self)@, old(heap)@, NULL_POINTER_CLASS, None, final(self)@, final(heap)@),
    {
        proof {
            self@.lemma_pops(seq![Kind::ArrayRef], 1);
        }
        let rf = self.pop_value();
        match rf {
            Value::Array(a) => {
                let len = heap.array_length(a);
                self.push_value(Value::Int(len as i32));
            },
            _ => {
                self.raise(heap, NULL_POINTER_CLASS, None);
                assert(final(self)@ =~= old(self)@.thrown(crate::frame::fault_ref(old(heap)@), final(heap)@));
            },
        }
    }

    /// Pops a count and pushes a new array of it of the primitive type the byte operand names,
    /// every element at its default; a negative count raises a negative-array-size fault.
    pub fn new_array(&mut self, heap: &mut Heap)
        requires
            old(self)@.wf(),
            old(heap)@.wf(),
            old(self)@.operands(1),
            atype(old(self)@.u1(old(self)@.pc)) is Some,
            old(self)@.can(seq![Kind::Int], 1),
        ensures
            final(self)@.wf(),
            final(self)@.op_pc == old(self)@.op_pc,
            final(heap)@.wf(),
            old(self)@.top(0)->Int_0 >= 0 ==> final(heap)@ == old(heap)@.with_array(crate::heap::ArrayView { component: atype(old(self)@.u1(old(self)@.pc))->0, elems: Seq::new(old(self)@.top(0)->Int_0 as nat, |i: int| atype(old(self)@.u1(old(self)@.pc))->0.spec_default_value()), locks: 0 }),
            old(self)@.top(0)->Int_0 >= 0 ==> final(self)@ == old(self)@.at(old(self)@.pc + 1).popped(1).pushed(Value::Array(old(heap)@.arrays.len() as usize)),
            old(self)@.top(0)->Int_0 < 0 ==> faulted(old(self)@.at(old(self)@.pc + 1), old(heap)@, NEGATIVE_ARRAY_SIZE_CLASS, None, final(self)@, final(heap)@),
    {
        proof {
            self@.lemma_pops(seq![Kind::Int], 1);
        }
        let code = self.read_u1();
        let count = self.pop_int();
        match array_type(code) {
            Some(t) => {
                if count < 0 {
                    self.raise(heap, NEGATIVE_ARRAY_SIZE_CLASS, None);
                    assert(final(self)@ =~= old(self)@.at(old(self)@.pc + 1).thrown(crate::frame::fault_ref(old(heap)@), final(heap)@));
                } else {
                    let r = heap.new_array(t, count as usize);
                    self.push_value(r);
                }
            },
            None => {},
        }
    }

    /// Pops a count and pushes a new array of it of references to the class the two-byte constant-
    /// pool index names, every element null; a negative count raises a negative-array-size fault.
    pub fn anew_array(&mut self, heap: &mut Heap)
        requires
            old(self)@.wf(),
            old(heap)@.wf(),
            old(self)@.operands(2),
            old(self)@.can(seq![Kind::Int], 1),
        ensures
            final(self)@.wf(),
            final(self)@.op_pc == old(self)@.op_pc,
            final(heap)@.wf(),
            old(self)@.top(0)->Int_0 >= 0 ==> final(heap)@ == old(heap)@.with_array(crate::heap::ArrayView { component: ValueType::Object, elems: Seq::new(old(self)@.top(0)->Int_0 as nat, |i: int| Value::Null), locks: 0 }),
            old(self)@.top(0)->Int_0 >= 0 ==> final(self)@ == old(self)@.at(old(self)@.pc + 2).popped(1).pushed(Value::Array(old(heap)@.arrays.len() as usize)),
            old(self)@.top(0)->Int_0 < 0 ==> faulted(old(self)@.at(old(self)@.pc + 2), old(heap)@, NEGATIVE_ARRAY_SIZE_CLASS, None, final(self)@, final(heap)@),
    {
        proof {
            self@.lemma_pops(seq![Kind::Int], 1);
        }
        let _index = self.read_u2();
        let count = self.pop_int();
        if count < 0 {
            self.raise(heap, NEGATIVE_ARRAY_SIZE_CLASS, None);
            assert(final(self)@ =~= old(self)@.at(old(self)@.pc + 2).thrown(crate::frame::fault_ref(old(heap)@), final(heap)@));
        } else {
            let r = heap.new_array(ValueType::Object, count as usize);
            assert(final(heap)@.arrays.last().elems =~= Seq::new(old(self)@.top(0)->Int_0 as nat, |i: int| Value::Null));
            self.push_value(r);
        }
    }

    fn array_class_at(&self, idx: u16) -> (r: Option<(u8, ValueType)>)
        ensures
            r == array_class_ref(self@.cp, idx as int),
    {
        if (idx as usize) < self.cp_len() {
            match self.constant(idx as usize) {
                Constant::ArrayClass { dimensions, element } => Some((*dimensions, *element)),
                _ => None,
            }
        } else {
            None
        }
    }

    /// Whether the current instruction's operands and stack suit
    /// `multianewarray`.
    pub fn multi_ready(&self) -> (r: bool)
        requires
            self@.wf(),
        ensures
            r == multi_ok(self@),
    {
        if !self.has_operands(3) {
            return false;
        }
        let pc = self.pc() as usize;
        let idx = (self.code_at(pc) as u16) * 256 + (self.code_at(pc + 1) as u16);
        let dims = self.code_at(pc + 2);
        match self.array_class_at(idx) {
            Some((dimensions, _)) => {
                if dims < 1 || dims > dimensions {
                    return false;
                }
                let mut kinds: Vec<Kind> = Vec::new();
                let mut i: u8 = 0;
                while i < dims
                    invariant
                        i <= dims,
                        kinds@ =~= int_kinds(i as nat),
                    decreases dims - i,
                {
                    kinds.push(Kind::Int);
                    i = i + 1;
                }
                self.can(kinds.as_slice(), 1)
            },
            None => false,
        }
    }

    /// Pops as many `int` counts as the byte operand says and pushes a new
    /// multi-dimensional array of the array class that the two-byte
    /// constant-pool operand names, one dimension per count; a negative count
    /// raises a negative-array-size fault.
    pub fn multi_anew_array(&mut self, heap: &mut Heap)
        requires
            old(self)@.wf(),
            old(heap)@.wf(),
            multi_ok(old(self)@),
        ensures
            final(self)@.wf(),
            final(self)@.op_pc == old(self)@.op_pc,
            final(heap)@.wf(),
            multi_built(
                old(self)@.at(old(self)@.pc + 3),
                old(heap)@,
                old(self)@.u1(old(self)@.pc + 2) as nat,
                multi_dimensions(old(self)@),
                multi_element(old(self)@),
                final(self)@,
                final(heap)@,
            ),
    {
        let idx = self.read_u2();
        let dims = self.read_u1();
        let (dimensions, element) = match self.array_class_at(idx) {
            Some(ac) => ac,
            None => {
                return;
            },
        };
        let n = dims as usize;
        let ghost f0 = self@;
        proof {
            f0.lemma_pops(int_kinds(n as nat), 1);
        }
        let mut counts: Vec<i32> = Vec::new();
        let mut k: usize = 0;
        while k < n
            invariant
                self@ == f0,
                f0.wf(),
                n <= 255,
                f0.can(int_kinds(n as nat), 1),
                k <= n,
                counts@ =~= dim_counts(f0, n as nat).subrange(0, k as int),
            decreases n - k,
        {
            proof {
                f0.lemma_pops(int_kinds(n as nat), 1);
                assert(f0.top((n - 1 - k) as int) == f0.stack[f0.stack.len() - n + k]);
                assert(f0.top((n - 1 - k) as int) is Int);
            }
            let c = match self.peek(n - 1 - k) {
                crate::value::Value::Int(c) => c,
                _ => 0,
            };
            counts.push(c);
            k = k + 1;
        }
        assert(counts@ =~= dim_counts(f0, n as nat));
        let mut j: usize = 0;
        while j < n
            invariant
                self@ == f0.popped(j as int),
                f0.wf(),
                f0.can(int_kinds(n as nat), 1),
                j <= n,
                forall|q: int| 0 <= q < n ==> #[trigger] f0.popped(q).popped(1) == f0.popped(q + 1),
                forall|q: int| 0 <= q <= n ==> #[trigger] f0.popped(q).stack.len() == f0.stack.len() - q,
            decreases n - j,
        {
            self.pop_value();
            j = j + 1;
        }
        if !all_non_negative(&counts) {
            self.raise(heap, NEGATIVE_ARRAY_SIZE_CLASS, None);
            assert(final(self)@ =~= f0.thrown(crate::frame::fault_ref(old(heap)@), final(heap)@));
        } else {
            let v = heap.new_multi_array(&counts, 0, dimensions, element);
            self.push_value(v);
        }
    }
}

} // verus!
