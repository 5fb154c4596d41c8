//! Field access, object creation, type tests, `athrow`, monitors, returns
//! and the invocation instructions.
use crate::frame::{faulted, fault_ref, Frame, FrameView, Invoke};
use crate::heap::{defaults, Heap, HeapView, ObjectView, CLASS_CAST_CLASS, ILLEGAL_MONITOR_STATE_CLASS, NULL_POINTER_CLASS, STRING_CLASS};
use crate::method::Constant;
use crate::numeric::copy_bytes;
use crate::value::{Kind, Value, ValueType};
use vstd::prelude::*;

verus! {

/// The resolved field that constant-pool entry `idx` names: its class, its
/// slot and its declared type.
pub open spec fn field_ref(cp: Seq<Constant>, idx: int) -> Option<(u32, u16, ValueType)> {
    if 0 <= idx < cp.len() {
        match cp[idx] {
            Constant::FieldRef { class_id, slot, value_type } => Some((class_id, slot, value_type)),
            _ => None,
        }
    } else {
        None
    }
}

/// The class that constant-pool entry `idx` names.
pub open spec fn class_ref(cp: Seq<Constant>, idx: int) -> Option<u32> {
    if 0 <= idx < cp.len() {
        match cp[idx] {
            Constant::Class { class_id } => Some(class_id),
            _ => None,
        }
    } else {
        None
    }
}

/// The field named by the two-byte operand of the current instruction.
pub open spec fn operand_field(f: FrameView) -> Option<(u32, u16, ValueType)> {
    field_ref(f.cp, f.u2(f.pc) as int)
}

/// The class, slot and declared type of the operand's field.
pub open spec fn field_class(f: FrameView) -> u32 {
    match operand_field(f) {
        Some((c, _, _)) => c,
        None => 0,
    }
}

pub open spec fn field_slot(f: FrameView) -> u16 {
    match operand_field(f) {
        Some((_, s, _)) => s,
        None => 0,
    }
}

pub open spec fn field_type(f: FrameView) -> ValueType {
    match operand_field(f) {
        Some((_, _, t)) => t,
        None => ValueType::Int,
    }
}

/// The class named by the two-byte operand of the current instruction.
pub open spec fn operand_class(f: FrameView) -> Option<u32> {
    class_ref(f.cp, f.u2(f.pc) as int)
}

/// The operand names a static field that exists.
pub open spec fn static_ok(f: FrameView, h: HeapView) -> bool {
    operand_field(f) is Some && field_class(f) < h.classes.len() && field_slot(f) < h.classes[field_class(f) as int].statics.len()
}

/// The operand names a field, and the object `v` (if any) has its slot.
pub open spec fn field_ok(f: FrameView, h: HeapView, v: Value) -> bool {
    &&& operand_field(f) is Some
    &&& h.valid(v)
    &&& v matches Value::Reference(o) ==> field_slot(f) < h.objects[o as int].fields.len()
}

/// What the invocation instructions record.
pub open spec fn invoked(f: FrameView, opcode: u8, width: int) -> FrameView {
    FrameView { invoke: Some(Invoke { opcode, index: f.u2(f.pc) }), ..f.at(f.pc + width) }
}

impl Frame {
    fn operand_field_at(&self, idx: u16) -> (r: Option<(u32, u16, ValueType)>)
        ensures
            r == field_ref(self@.cp, idx as int),
    {
        if (idx as usize) < self.cp_len() {
            match self.constant(idx as usize) {
                Constant::FieldRef { class_id, slot, value_type } => Some((*class_id, *slot, *value_type)),
                _ => None,
            }
        } else {
            None
        }
    }

    fn operand_class_at(&self, idx: u16) -> (r: Option<u32>)
        ensures
            r == class_ref(self@.cp, idx as int),
    {
        if (idx as usize) < self.cp_len() {
            match self.constant(idx as usize) {
                Constant::Class { class_id } => Some(*class_id),
                _ => None,
            }
        } else {
            None
        }
    }

    /// Pushes the static field that the two-byte constant-pool operand names.
    pub fn get_static(&mut self, heap: &Heap)
        requires
            old(self)@.wf(),
            heap@.wf(),
            old(self)@.operands(2),
            static_ok(old(self)@, heap@),
            old(self)@.can(seq![], 1),
        ensures
            final(self)@.wf(),
            final(self)@.op_pc == old(self)@.op_pc,
            final(self)@ == old(self)@.at(old(self)@.pc + 2).pushed(
                heap@.classes[field_class(old(self)@) as int].statics[field_slot(old(self)@) as int]),
    {
        let idx = self.read_u2();
        match self.operand_field_at(idx) {
            Some((c, slot, _)) => {
                let v = heap.get_static(c, slot as usize);
                self.push_value(v);
            },
            None => {},
        }
    }

    /// Pops a value of the declared type of the static field that the
    /// two-byte constant-pool operand names, and stores it there.
    pub fn put_static(&mut self, heap: &mut Heap)
        requires
            old(self)@.wf(),
            old(heap)@.wf(),
            old(self)@.operands(2),
            static_ok(old(self)@, old(heap)@),
            old(self)@.can(seq![field_type(old(self)@).spec_kind()], 0),
        ensures
            final(self)@.wf(),
            final(self)@.op_pc == old(self)@.op_pc,
            final(heap)@.wf(),
            final(heap)@ == old(heap)@.with_static(
                field_class(old(self)@) as int,
                field_slot(old(self)@) as int,
                old(self)@.top(0),
            ),
            final(self)@ == old(self)@.at(old(self)@.pc + 2).popped(1),
    {
        let idx = self.read_u2();
        match self.operand_field_at(idx) {
            Some((c, slot, _)) => {
                let v = self.pop_value();
                heap.put_static(c, slot as usize, v);
            },
            None => {},
        }
    }

    /// Pops an object and pushes its field that the two-byte constant-pool
    /// operand names; a null object raises a null-pointer fault.
    pub fn get_field(&mut self, heap: &mut Heap)
        requires
            old(self)@.wf(),
            old(heap)@.wf(),
            old(self)@.operands(2),
            old(self)@.can(seq![Kind::ObjectRef], 1),
            field_ok(old(self)@, old(heap)@, old(self)@.top(0)),
        ensures
            final(self)@.wf(),
            final(self)@.op_pc == old(self)@.op_pc,
            final(heap)@.wf(),
            old(self)@.top(0) matches Value::Reference(o) ==> final(heap)@ == old(heap)@
                && final(self)@ == old(self)@.at(old(self)@.pc + 2).popped(1).pushed(
                old(heap)@.objects[o as int].fields[field_slot(old(self)@) as int]),
            old(self)@.top(0) is Null ==> faulted(old(self)@.at(old(self)@.pc + 2), old(heap)@, NULL_POINTER_CLASS, None, final(self)@, final(heap)@),
    {
        proof {
            self@.lemma_pops(seq![Kind::ObjectRef], 1);
        }
        let idx = self.read_u2();
        let rf = self.pop_value();
        match rf {
            Value::Reference(o) => match self.operand_field_at(idx) {
                Some((_, slot, _)) => {
                    let v = heap.get_field(o, slot as usize);
                    self.push_value(v);
                },
                None => {},
            },
            _ => {
                self.raise(heap, NULL_POINTER_CLASS, None);
                assert(final(self)@ =~= old(self)@.at(old(self)@.pc + 2).thrown(fault_ref(old(heap)@), final(heap)@));
            },
        }
    }

    /// Pops a value of the field's declared type and an object, and stores
    /// the value in the object's field that the two-byte constant-pool
    /// operand names; a null object raises a null-pointer fault.
    pub fn put_field(&mut self, heap: &mut Heap)
        requires
            old(self)@.wf(),
            old(heap)@.wf(),
            old(self)@.operands(2),
            operand_field(old(self)@) is Some,
            old(self)@.can(seq![Kind::ObjectRef, field_type(old(self)@).spec_kind()], 0),
            field_ok(old(self)@, old(heap)@, old(self)@.top(1)),
        ensures
            final(self)@.wf(),
            final(self)@.op_pc == old(self)@.op_pc,
            final(heap)@.wf(),
            old(self)@.top(1) matches Value::Reference(o) ==> final(heap)@ == old(heap)@.with_field(
                o as int,
                field_slot(old(self)@) as int,
                old(self)@.top(0),
            ) && final(self)@ == old(self)@.at(old(self)@.pc + 2).popped(2),
            old(self)@.top(1) is Null ==> faulted(old(self)@.at(old(self)@.pc + 2), old(heap)@, NULL_POINTER_CLASS, None, final(self)@, final(heap)@),
    {
        proof {
            self@.lemma_pops(seq![Kind::ObjectRef, field_type(self@).spec_kind()], 0);
        }
        let idx = self.read_u2();
        let v = self.pop_value();
        let rf = self.pop_value();
        match rf {
            Value::Reference(o) => match self.operand_field_at(idx) {
                Some((_, slot, _)) => {
                    heap.put_field(o, slot as usize, v);
                },
                None => {},
            },
            _ => {
                self.raise(heap, NULL_POINTER_CLASS, None);
                assert(final(self)@ =~= old(self)@.at(old(self)@.pc + 2).thrown(fault_ref(old(heap)@), final(heap)@));
            },
        }
    }

    /// Pushes a new instance of the class that the two-byte constant-pool
    /// operand names, every field at its default.
    pub fn new_(&mut self, heap: &mut Heap)
        requires
            old(self)@.wf(),
            old(heap)@.wf(),
            old(self)@.operands(2),
            operand_class(old(self)@) matches Some(c) && c < old(heap)@.classes.len(),
            old(self)@.can(seq![], 1),
        ensures
            final(self)@.wf(),
            final(self)@.op_pc == old(self)@.op_pc,
            final(heap)@.wf(),
            final(heap)@ == old(heap)@.with_object(ObjectView {
                class_id: operand_class(old(self)@)->0,
                fields: defaults(old(heap)@.classes[operand_class(old(self)@)->0 as int].field_types),
                text: None,
                locks: 0,
            }),
            final(self)@ == old(self)@.at(old(self)@.pc + 2).pushed(Value::Reference(old(heap)@.objects.len() as usize)),
    {
        let idx = self.read_u2();
        match self.operand_class_at(idx) {
            Some(c) => {
                let v = heap.new_object(c);
                self.push_value(v);
            },
            None => {},
        }
    }

    /// Throws the exception on top of the stack; a null reference raises a
    /// null-pointer fault instead.
    pub fn athrow(&mut self, heap: &mut Heap)
        requires
            old(self)@.wf(),
            old(heap)@.wf(),
            old(self)@.can(seq![Kind::ObjectRef], 0),
            old(heap)@.valid(old(self)@.top(0)),
        ensures
            final(self)@.wf(),
            final(self)@.op_pc == old(self)@.op_pc,
            final(heap)@.wf(),
            old(self)@.top(0) is Reference ==> final(heap)@ == old(heap)@
                && final(self)@ == old(self)@.thrown(old(self)@.top(0), old(heap)@),
            old(self)@.top(0) is Null ==> faulted(old(self)@, old(heap)@, NULL_POINTER_CLASS, None, final(self)@, final(heap)@),
    {
        proof {
            self@.lemma_pops(seq![Kind::ObjectRef], 0);
        }
        let rf = self.pop_value();
        match rf {
            Value::Reference(_) => {
                self.throw(heap, rf);
                assert(final(self)@ =~= old(self)@.thrown(old(self)@.top(0), old(heap)@));
            },
            _ => {
                self.raise(heap, NULL_POINTER_CLASS, None);
                assert(final(self)@ =~= old(self)@.thrown(fault_ref(old(heap)@), final(heap)@));
            },
        }
    }

    /// Checks that the reference on top of the stack is null or an instance
    /// of the class that the two-byte constant-pool operand names; otherwise
    /// raises a class-cast fault.
    pub fn check_cast(&mut self, heap: &mut Heap)
        requires
            old(self)@.wf(),
            old(heap)@.wf(),
            old(self)@.operands(2),
            operand_class(old(self)@) is Some,
            old(self)@.can(seq![Kind::Ref], 1),
            old(heap)@.valid(old(self)@.top(0)),
        ensures
            final(self)@.wf(),
            final(self)@.op_pc == old(self)@.op_pc,
            final(heap)@.wf(),
            (old(self)@.top(0) is Null || old(heap)@.instance_of(old(self)@.top(0), operand_class(old(self)@)->0 as nat))
                ==> final(heap)@ == old(heap)@ && final(self)@ == old(self)@.at(old(self)@.pc + 2),
            !(old(self)@.top(0) is Null || old(heap)@.instance_of(old(self)@.top(0), operand_class(old(self)@)->0 as nat))
                ==> faulted(old(self)@.at(old(self)@.pc + 2), old(heap)@, CLASS_CAST_CLASS, None, final(self)@, final(heap)@),
    {
        proof {
            self@.lemma_pops(seq![Kind::Ref], 1);
        }
        let idx = self.read_u2();
        let v = self.peek(0);
        match self.operand_class_at(idx) {
            Some(c) => {
                if v != Value::Null && !heap.instance_of(v, c) {
                    self.raise(heap, CLASS_CAST_CLASS, None);
                }
            },
            None => {},
        }
    }

    /// Pops a reference and pushes 1 when it is an instance of the class
    /// that the two-byte constant-pool operand names, else 0 (also for null).
    pub fn instance_of(&mut self, heap: &Heap)
        requires
            old(self)@.wf(),
            heap@.wf(),
            old(self)@.operands(2),
            operand_class(old(self)@) is Some,
            old(self)@.can(seq![Kind::Ref], 1),
            heap@.valid(old(self)@.top(0)),
        ensures
            final(self)@.wf(),
            final(self)@.op_pc == old(self)@.op_pc,
            final(self)@ == old(self)@.at(old(self)@.pc + 2).popped(1).pushed(Value::Int(
                if heap@.instance_of(old(self)@.top(0), operand_class(old(self)@)->0 as nat) { 1i32 } else { 0i32 })),
    {
        proof {
            self@.lemma_pops(seq![Kind::Ref], 1);
        }
        let idx = self.read_u2();
        let v = self.pop_value();
        match self.operand_class_at(idx) {
            Some(c) => {
                let r: i32 = if heap.instance_of(v, c) { 1 } else { 0 };
                self.push_value(Value::Int(r));
            },
            None => {},
        }
    }

    /// Pops a reference and enters its monitor; null raises a null-pointer
    /// fault, and a monitor that cannot be entered once more an
    /// illegal-monitor-state fault.
    pub fn monitor_enter(&mut self, heap: &mut Heap)
        requires
            old(self)@.wf(),
            old(heap)@.wf(),
            old(self)@.can(seq![Kind::Ref], 0),
            old(heap)@.valid(old(self)@.top(0)),
        ensures
            final(self)@.wf(),
            final(self)@.op_pc == old(self)@.op_pc,
            final(heap)@.wf(),
            old(self)@.top(0) is Null ==> faulted(old(self)@, old(heap)@, NULL_POINTER_CLASS, None, final(self)@, final(heap)@),
            !(old(self)@.top(0) is Null) && old(heap)@.locks_of(old(self)@.top(0)) < u32::MAX ==> final(self)@ == old(self)@.popped(1)
                && final(heap)@ == old(heap)@.with_locks(old(self)@.top(0), (old(heap)@.locks_of(old(self)@.top(0)) + 1) as u32),
            !(old(self)@.top(0) is Null) && old(heap)@.locks_of(old(self)@.top(0)) == u32::MAX ==> faulted(old(self)@, old(heap)@,
                ILLEGAL_MONITOR_STATE_CLASS, None, final(self)@, final(heap)@),
    {
        proof {
            self@.lemma_pops(seq![Kind::Ref], 0);
        }
        let rf = self.pop_value();
        if rf == Value::Null {
            self.raise(heap, NULL_POINTER_CLASS, None);
            assert(final(self)@ =~= old(self)@.thrown(fault_ref(old(heap)@), final(heap)@));
        } else if !heap.monitor_enter(rf) {
            self.raise(heap, ILLEGAL_MONITOR_STATE_CLASS, None);
            assert(final(self)@ =~= old(self)@.thrown(fault_ref(old(heap)@), final(heap)@));
        }
    }

    /// Pops a reference and leaves its monitor; null raises a null-pointer
    /// fault, and a monitor that is not held an illegal-monitor-state fault.
    pub fn monitor_exit(&mut self, heap: &mut Heap)
        requires
            old(self)@.wf(),
            old(heap)@.wf(),
            old(self)@.can(seq![Kind::Ref], 0),
            old(heap)@.valid(old(self)@.top(0)),
        ensures
            final(self)@.wf(),
            final(self)@.op_pc == old(self)@.op_pc,
            final(heap)@.wf(),
            old(self)@.top(0) is Null ==> faulted(old(self)@, old(heap)@, NULL_POINTER_CLASS, None, final(self)@, final(heap)@),
            !(old(self)@.top(0) is Null) && old(heap)@.locks_of(old(self)@.top(0)) > 0 ==> final(self)@ == old(self)@.popped(1)
                && final(heap)@ == old(heap)@.with_locks(old(self)@.top(0), (old(heap)@.locks_of(old(self)@.top(0)) - 1) as u32),
            !(old(self)@.top(0) is Null) && old(heap)@.locks_of(old(self)@.top(0)) == 0 ==> faulted(old(self)@, old(heap)@,
                ILLEGAL_MONITOR_STATE_CLASS, None, final(self)@, final(heap)@),
    {
        proof {
            self@.lemma_pops(seq![Kind::Ref], 0);
        }
        let rf = self.pop_value();
        if rf == Value::Null {
            self.raise(heap, NULL_POINTER_CLASS, None);
            assert(final(self)@ =~= old(self)@.thrown(fault_ref(old(heap)@), final(heap)@));
        } else if !heap.monitor_exit(rf) {
            self.raise(heap, ILLEGAL_MONITOR_STATE_CLASS, None);
            assert(final(self)@ =~= old(self)@.thrown(fault_ref(old(heap)@), final(heap)@));
        }
    }

    /// Pushes the constant at pool index `pos`: a number as itself, a string
    /// as a new string object. Returns false, changing nothing, for any other
    /// entry.
    pub fn load_constant(&mut self, heap: &mut Heap, pos: usize) -> (ok: bool)
        requires
            old(self)@.wf(),
            old(heap)@.wf(),
            old(self)@.can(seq![], 1),
        ensures
            final(self)@.wf(),
            final(self)@.op_pc == old(self)@.op_pc,
            final(heap)@.wf(),
            ok == loadable(old(self)@.cp, pos as int),
            !ok ==> final(self)@ == old(self)@ && final(heap)@ == old(heap)@,
            ok ==> loaded_constant(old(self)@, old(heap)@, pos as int, final(self)@, final(heap)@),
    {
        if pos >= self.cp_len() {
            return false;
        }
        let v = match self.constant(pos) {
            Constant::Integer(v) => Value::Int(*v),
            Constant::Float(v) => Value::Float(*v),
            Constant::Long(v) => Value::Long(*v),
            Constant::Double(v) => Value::Double(*v),
            Constant::String { string_index } => {
                let si = *string_index as usize;
                if si >= self.cp_len() {
                    return false;
                }
                let text = match self.constant(si) {
                    Constant::Utf8(bytes) => copy_bytes(bytes),
                    _ => {
                        return false;
                    },
                };
                heap.new_with_text(STRING_CLASS, text)
            },
            _ => {
                return false;
            },
        };
        self.push_value(v);
        true
    }

    /// Pushes the constant that the byte operand indexes.
    pub fn ldc(&mut self, heap: &mut Heap) -> (ok: bool)
        requires
            old(self)@.wf(),
            old(heap)@.wf(),
            old(self)@.operands(1),
            old(self)@.can(seq![], 1),
        ensures
            final(self)@.wf(),
            final(self)@.op_pc == old(self)@.op_pc,
            final(heap)@.wf(),
            ok == loadable(old(self)@.cp, old(self)@.u1(old(self)@.pc) as int),
            !ok ==> final(self)@ == old(self)@.at(old(self)@.pc + 1) && final(heap)@ == old(heap)@,
            ok ==> loaded_constant(old(self)@.at(old(self)@.pc + 1), old(heap)@, old(self)@.u1(old(self)@.pc) as int, final(self)@, final(heap)@),
    {
        let pos = self.read_u1();
        self.load_constant(heap, pos as usize)
    }

    /// Pushes the constant that the two-byte operand indexes.
    pub fn ldc_w(&mut self, heap: &mut Heap) -> (ok: bool)
        requires
            old(self)@.wf(),
            old(heap)@.wf(),
            old(self)@.operands(2),
            old(self)@.can(seq![], 1),
        ensures
            final(self)@.wf(),
            final(self)@.op_pc == old(self)@.op_pc,
            final(heap)@.wf(),
            ok == loadable(old(self)@.cp, old(self)@.u2(old(self)@.pc) as int),
            !ok ==> final(self)@ == old(self)@.at(old(self)@.pc + 2) && final(heap)@ == old(heap)@,
            ok ==> loaded_constant(old(self)@.at(old(self)@.pc + 2), old(heap)@, old(self)@.u2(old(self)@.pc) as int, final(self)@, final(heap)@),
    {
        let pos = self.read_u2();
        self.load_constant(heap, pos as usize)
    }

    /// Pushes the `long` or `double` constant that the two-byte operand
    /// indexes.
    pub fn ldc2_w(&mut self, heap: &mut Heap) -> (ok: bool)
        requires
            old(self)@.wf(),
            old(heap)@.wf(),
            old(self)@.operands(2),
            old(self)@.can(seq![], 1),
        ensures
            final(self)@.wf(),
            final(self)@.op_pc == old(self)@.op_pc,
            final(heap)@.wf(),
            ok == loadable(old(self)@.cp, old(self)@.u2(old(self)@.pc) as int),
            !ok ==> final(self)@ == old(self)@.at(old(self)@.pc + 2) && final(heap)@ == old(heap)@,
            ok ==> loaded_constant(old(self)@.at(old(self)@.pc + 2), old(heap)@, old(self)@.u2(old(self)@.pc) as int, final(self)@, final(heap)@),
    {
        self.ldc_w(heap)
    }
}

/// Whether pool entry `pos` is a constant the frame can push.
pub open spec fn loadable(cp: Seq<Constant>, pos: int) -> bool {
    0 <= pos < cp.len() && match cp[pos] {
        Constant::Integer(_) | Constant::Float(_) | Constant::Long(_) | Constant::Double(_) => true,
        Constant::String { string_index } => string_index < cp.len() && cp[string_index as int] is Utf8,
        _ => false,
    }
}

/// The frame and heap after pushing pool entry `pos`.
pub open spec fn loaded_constant(f: FrameView, h: HeapView, pos: int, f2: FrameView, h2: HeapView) -> bool {
    match f.cp[pos] {
        Constant::Integer(v) => h2 == h && f2 == f.pushed(Value::Int(v)),
        Constant::Float(v) => h2 == h && f2 == f.pushed(Value::Float(v)),
        Constant::Long(v) => h2 == h && f2 == f.pushed(Value::Long(v)),
        Constant::Double(v) => h2 == h && f2 == f.pushed(Value::Double(v)),
        Constant::String { string_index } => {
            &&& h2 == h.with_object(ObjectView {
                class_id: STRING_CLASS,
                fields: defaults(h.classes[STRING_CLASS as int].field_types),
                text: Some(f.cp[string_index as int]->Utf8_0@),
                locks: 0,
            })
            &&& f2 == f.pushed(Value::Reference(h.objects.len() as usize))
        },
        _ => false,
    }
}

} // verus!
