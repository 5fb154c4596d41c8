//! The fetch-decode-execute step: one instruction per call.
use crate::frame::{Fatal, Frame, FrameView, Invoke, Step, array_type, atype, fault_heap, fault_ref, faulted, field_class, field_ok, field_slot, field_type, invoked, loadable, loaded, loaded_constant, lookup_fits, lookup_target, multi_built, multi_dimensions, multi_element, multi_ok, operand_class, operand_field, static_ok, stored, table_fits, table_target};
use crate::heap::{ARITHMETIC_CLASS, ArrayView, CLASS_CAST_CLASS, Heap, HeapView, ILLEGAL_MONITOR_STATE_CLASS, NEGATIVE_ARRAY_SIZE_CLASS, NULL_POINTER_CLASS, Object, ObjectView, defaults};
use crate::method::{Class, Constant};
use crate::numeric::{d2i, d2l, dcmp, divide_by_zero_message, f2i, f2l, fcmp, int_div, int_rem, long_div, long_rem, sign_of_cmp};
use crate::value::{Kind, Value, ValueType};
use vstd::prelude::*;

verus! {

/// The retired opcodes: `frem`, `drem`, `fneg`, `dneg`, `jsr`, `ret`,
/// `wide`, `goto_w` and `jsr_w`.
pub open spec fn is_retired(op: u8) -> bool {
    op == 0x72 || op == 0x73 || op == 0x76 || op == 0x77 || op == 0xa8 || op == 0xa9 || op == 0xc4 || op == 0xc8 || op == 0xc9
}

/// The opcodes whose floating-point arithmetic the invoker performs:
/// `fadd`..`ddiv` and the conversions that produce or widen a float.
pub open spec fn is_float_op(op: u8) -> bool {
    op == 0x62 || op == 0x63 || op == 0x66 || op == 0x67 || op == 0x6a || op == 0x6b || op == 0x6e || op == 0x6f || op == 0x86 || op == 0x87 || op == 0x89 || op == 0x8a || op == 0x8d || op == 0x90
}

/// What a floating-point instruction pops, bottom first.
pub open spec fn float_pops(op: u8) -> Seq<Kind> {
    if op == 0x00 {
        seq![]
    } else if op == 0x62 {
        seq![Kind::Float, Kind::Float]
    } else if op == 0x63 {
        seq![Kind::Double, Kind::Double]
    } else if op == 0x66 {
        seq![Kind::Float, Kind::Float]
    } else if op == 0x67 {
        seq![Kind::Double, Kind::Double]
    } else if op == 0x6a {
        seq![Kind::Float, Kind::Float]
    } else if op == 0x6b {
        seq![Kind::Double, Kind::Double]
    } else if op == 0x6e {
        seq![Kind::Float, Kind::Float]
    } else if op == 0x6f {
        seq![Kind::Double, Kind::Double]
    } else if op == 0x86 {
        seq![Kind::Int]
    } else if op == 0x87 {
        seq![Kind::Int]
    } else if op == 0x89 {
        seq![Kind::Long]
    } else if op == 0x8a {
        seq![Kind::Long]
    } else if op == 0x8d {
        seq![Kind::Float]
    } else if op == 0x90 {
        seq![Kind::Double]
    } else {
        seq![]
    }
}

/// Every byte up to `jsr_w` (0xc9) is an opcode.
pub open spec fn is_defined(op: u8) -> bool {
    op <= 0xc9
}

/// Whether the operands, stack, locals, constants and handles suit opcode
/// `op` for the frame `f` positioned after the opcode byte: what the
/// instruction's handler requires. Retired opcodes admit nothing.
pub open spec fn admits(op: u8, f: FrameView, h: HeapView) -> bool {
    match op {
        0x00 => {
            f.can(seq![], 0)
        },
        0x01 => {
            f.can(seq![], 1)
        },
        0x02 => {
            f.can(seq![], 1)
        },
        0x03 => {
            f.can(seq![], 1)
        },
        0x04 => {
            f.can(seq![], 1)
        },
        0x05 => {
            f.can(seq![], 1)
        },
        0x06 => {
            f.can(seq![], 1)
        },
        0x07 => {
            f.can(seq![], 1)
        },
        0x08 => {
            f.can(seq![], 1)
        },
        0x09 => {
            f.can(seq![], 1)
        },
        0x0a => {
            f.can(seq![], 1)
        },
        0x0b => {
            f.can(seq![], 1)
        },
        0x0c => {
            f.can(seq![], 1)
        },
        0x0d => {
            f.can(seq![], 1)
        },
        0x0e => {
            f.can(seq![], 1)
        },
        0x0f => {
            f.can(seq![], 1)
        },
        0x10 => {
            f.operands(1)
            && f.can(seq![], 1)
        },
        0x11 => {
            f.operands(2)
            && f.can(seq![], 1)
        },
        0x12 => {
            f.operands(1)
            && f.can(seq![], 1)
        },
        0x13 => {
            f.operands(2)
            && f.can(seq![], 1)
        },
        0x14 => {
            f.operands(2)
            && f.can(seq![], 1)
        },
        0x15 => {
            f.operands(1)
            && f.can(seq![], 1)
            && f.local_is(f.u1(f.pc) as int, Kind::Int)
        },
        0x16 => {
            f.operands(1)
            && f.can(seq![], 1)
            && f.local_is(f.u1(f.pc) as int, Kind::Long)
        },
        0x17 => {
            f.operands(1)
            && f.can(seq![], 1)
            && f.local_is(f.u1(f.pc) as int, Kind::Float)
        },
        0x18 => {
            f.operands(1)
            && f.can(seq![], 1)
            && f.local_is(f.u1(f.pc) as int, Kind::Double)
        },
        0x19 => {
            f.operands(1)
            && f.can(seq![], 1)
            && f.local_is(f.u1(f.pc) as int, Kind::Ref)
        },
        0x1a => {
            f.can(seq![], 1)
            && f.local_is(0, Kind::Int)
        },
        0x1b => {
            f.can(seq![], 1)
            && f.local_is(1, Kind::Int)
        },
        0x1c => {
            f.can(seq![], 1)
            && f.local_is(2, Kind::Int)
        },
        0x1d => {
            f.can(seq![], 1)
            && f.local_is(3, Kind::Int)
        },
        0x1e => {
            f.can(seq![], 1)
            && f.local_is(0, Kind::Long)
        },
        0x1f => {
            f.can(seq![], 1)
            && f.local_is(1, Kind::Long)
        },
        0x20 => {
            f.can(seq![], 1)
            && f.local_is(2, Kind::Long)
        },
        0x21 => {
            f.can(seq![], 1)
            && f.local_is(3, Kind::Long)
        },
        0x22 => {
            f.can(seq![], 1)
            && f.local_is(0, Kind::Float)
        },
        0x23 => {
            f.can(seq![], 1)
            && f.local_is(1, Kind::Float)
        },
        0x24 => {
            f.can(seq![], 1)
            && f.local_is(2, Kind::Float)
        },
        0x25 => {
            f.can(seq![], 1)
            && f.local_is(3, Kind::Float)
        },
        0x26 => {
            f.can(seq![], 1)
            && f.local_is(0, Kind::Double)
        },
        0x27 => {
            f.can(seq![], 1)
            && f.local_is(1, Kind::Double)
        },
        0x28 => {
            f.can(seq![], 1)
            && f.local_is(2, Kind::Double)
        },
        0x29 => {
            f.can(seq![], 1)
            && f.local_is(3, Kind::Double)
        },
        0x2a => {
            f.can(seq![], 1)
            && f.local_is(0, Kind::Ref)
        },
        0x2b => {
            f.can(seq![], 1)
            && f.local_is(1, Kind::Ref)
        },
        0x2c => {
            f.can(seq![], 1)
            && f.local_is(2, Kind::Ref)
        },
        0x2d => {
            f.can(seq![], 1)
            && f.local_is(3, Kind::Ref)
        },
        0x2e => {
            f.can(seq![Kind::ArrayRef, Kind::Int], 1)
            && h.valid(f.top(1))
        },
        0x2f => {
            f.can(seq![Kind::ArrayRef, Kind::Int], 1)
            && h.valid(f.top(1))
        },
        0x30 => {
            f.can(seq![Kind::ArrayRef, Kind::Int], 1)
            && h.valid(f.top(1))
        },
        0x31 => {
            f.can(seq![Kind::ArrayRef, Kind::Int], 1)
            && h.valid(f.top(1))
        },
        0x32 => {
            f.can(seq![Kind::ArrayRef, Kind::Int], 1)
            && h.valid(f.top(1))
        },
        0x33 => {
            f.can(seq![Kind::ArrayRef, Kind::Int], 1)
            && h.valid(f.top(1))
        },
        0x34 => {
            f.can(seq![Kind::ArrayRef, Kind::Int], 1)
            && h.valid(f.top(1))
        },
        0x35 => {
            f.can(seq![Kind::ArrayRef, Kind::Int], 1)
            && h.valid(f.top(1))
        },
        0x36 => {
            f.operands(1)
            && f.can(seq![Kind::Int], 0)
            && f.local_is(f.u1(f.pc) as int, Kind::Any)
        },
        0x37 => {
            f.operands(1)
            && f.can(seq![Kind::Long], 0)
            && f.local_is(f.u1(f.pc) as int, Kind::Any)
        },
        0x38 => {
            f.operands(1)
            && f.can(seq![Kind::Float], 0)
            && f.local_is(f.u1(f.pc) as int, Kind::Any)
        },
        0x39 => {
            f.operands(1)
            && f.can(seq![Kind::Double], 0)
            && f.local_is(f.u1(f.pc) as int, Kind::Any)
        },
        0x3a => {
            f.operands(1)
            && f.can(seq![Kind::Ref], 0)
            && f.local_is(f.u1(f.pc) as int, Kind::Any)
        },
        0x3b => {
            f.can(seq![Kind::Int], 0)
            && f.local_is(0, Kind::Any)
        },
        0x3c => {
            f.can(seq![Kind::Int], 0)
            && f.local_is(1, Kind::Any)
        },
        0x3d => {
            f.can(seq![Kind::Int], 0)
            && f.local_is(2, Kind::Any)
        },
        0x3e => {
            f.can(seq![Kind::Int], 0)
            && f.local_is(3, Kind::Any)
        },
        0x3f => {
            f.can(seq![Kind::Long], 0)
            && f.local_is(0, Kind::Any)
        },
        0x40 => {
            f.can(seq![Kind::Long], 0)
            && f.local_is(1, Kind::Any)
        },
        0x41 => {
            f.can(seq![Kind::Long], 0)
            && f.local_is(2, Kind::Any)
        },
        0x42 => {
            f.can(seq![Kind::Long], 0)
            && f.local_is(3, Kind::Any)
        },
        0x43 => {
            f.can(seq![Kind::Float], 0)
            && f.local_is(0, Kind::Any)
        },
        0x44 => {
            f.can(seq![Kind::Float], 0)
            && f.local_is(1, Kind::Any)
        },
        0x45 => {
            f.can(seq![Kind::Float], 0)
            && f.local_is(2, Kind::Any)
        },
        0x46 => {
            f.can(seq![Kind::Float], 0)
            && f.local_is(3, Kind::Any)
        },
        0x47 => {
            f.can(seq![Kind::Double], 0)
            && f.local_is(0, Kind::Any)
        },
        0x48 => {
            f.can(seq![Kind::Double], 0)
            && f.local_is(1, Kind::Any)
        },
        0x49 => {
            f.can(seq![Kind::Double], 0)
            && f.local_is(2, Kind::Any)
        },
        0x4a => {
            f.can(seq![Kind::Double], 0)
            && f.local_is(3, Kind::Any)
        },
        0x4b => {
            f.can(seq![Kind::Ref], 0)
            && f.local_is(0, Kind::Any)
        },
        0x4c => {
            f.can(seq![Kind::Ref], 0)
            && f.local_is(1, Kind::Any)
        },
        0x4d => {
            f.can(seq![Kind::Ref], 0)
            && f.local_is(2, Kind::Any)
        },
        0x4e => {
            f.can(seq![Kind::Ref], 0)
            && f.local_is(3, Kind::Any)
        },
        0x4f => {
            f.can(seq![Kind::ArrayRef, Kind::Int, Kind::Int], 0)
            && h.valid(f.top(2))
        },
        0x50 => {
            f.can(seq![Kind::ArrayRef, Kind::Int, Kind::Long], 0)
            && h.valid(f.top(2))
        },
        0x51 => {
            f.can(seq![Kind::ArrayRef, Kind::Int, Kind::Float], 0)
            && h.valid(f.top(2))
        },
        0x52 => {
            f.can(seq![Kind::ArrayRef, Kind::Int, Kind::Double], 0)
            && h.valid(f.top(2))
        },
        0x53 => {
            f.can(seq![Kind::ArrayRef, Kind::Int, Kind::Ref], 0)
            && h.valid(f.top(2))
        },
        0x54 => {
            f.can(seq![Kind::ArrayRef, Kind::Int, Kind::Int], 0)
            && h.valid(f.top(2))
        },
        0x55 => {
            f.can(seq![Kind::ArrayRef, Kind::Int, Kind::Int], 0)
            && h.valid(f.top(2))
        },
        0x56 => {
            f.can(seq![Kind::ArrayRef, Kind::Int, Kind::Int], 0)
            && h.valid(f.top(2))
        },
        0x57 => {
            f.can(seq![Kind::Any], 0)
        },
        0x58 => {
            f.can(seq![Kind::Any, Kind::Any], 0)
        },
        0x59 => {
            f.can(seq![Kind::Any], 2)
        },
        0x5a => {
            f.can(seq![Kind::Any, Kind::Any], 3)
        },
        0x5b => {
            f.can(seq![Kind::Any, Kind::Any, Kind::Any], 4)
        },
        0x5c => {
            f.can(seq![Kind::Any, Kind::Any], 4)
        },
        0x5d => {
            f.can(seq![Kind::Any, Kind::Any, Kind::Any], 5)
        },
        0x5e => {
            f.can(seq![Kind::Any, Kind::Any, Kind::Any, Kind::Any], 6)
        },
        0x5f => {
            f.can(seq![Kind::Any, Kind::Any], 2)
        },
        0x60 => {
            f.can(seq![Kind::Int, Kind::Int], 1)
        },
        0x61 => {
            f.can(seq![Kind::Long, Kind::Long], 1)
        },
        0x62 => {
            f.can(seq![Kind::Float, Kind::Float], 1)
        },
        0x63 => {
            f.can(seq![Kind::Double, Kind::Double], 1)
        },
        0x64 => {
            f.can(seq![Kind::Int, Kind::Int], 1)
        },
        0x65 => {
            f.can(seq![Kind::Long, Kind::Long], 1)
        },
        0x66 => {
            f.can(seq![Kind::Float, Kind::Float], 1)
        },
        0x67 => {
            f.can(seq![Kind::Double, Kind::Double], 1)
        },
        0x68 => {
            f.can(seq![Kind::Int, Kind::Int], 1)
        },
        0x69 => {
            f.can(seq![Kind::Long, Kind::Long], 1)
        },
        0x6a => {
            f.can(seq![Kind::Float, Kind::Float], 1)
        },
        0x6b => {
            f.can(seq![Kind::Double, Kind::Double], 1)
        },
        0x6c => {
            f.can(seq![Kind::Int, Kind::Int], 1)
        },
        0x6d => {
            f.can(seq![Kind::Long, Kind::Long], 1)
        },
        0x6e => {
            f.can(seq![Kind::Float, Kind::Float], 1)
        },
        0x6f => {
            f.can(seq![Kind::Double, Kind::Double], 1)
        },
        0x70 => {
            f.can(seq![Kind::Int, Kind::Int], 1)
        },
        0x71 => {
            f.can(seq![Kind::Long, Kind::Long], 1)
        },
        0x72 => {
            false
        },
        0x73 => {
            false
        },
        0x74 => {
            f.can(seq![Kind::Int], 1)
        },
        0x75 => {
            f.can(seq![Kind::Long], 1)
        },
        0x76 => {
            false
        },
        0x77 => {
            false
        },
        0x78 => {
            f.can(seq![Kind::Int, Kind::Int], 1)
        },
        0x79 => {
            f.can(seq![Kind::Long, Kind::Int], 1)
        },
        0x7a => {
            f.can(seq![Kind::Int, Kind::Int], 1)
        },
        0x7b => {
            f.can(seq![Kind::Long, Kind::Int], 1)
        },
        0x7c => {
            f.can(seq![Kind::Int, Kind::Int], 1)
        },
        0x7d => {
            f.can(seq![Kind::Long, Kind::Int], 1)
        },
        0x7e => {
            f.can(seq![Kind::Int, Kind::Int], 1)
        },
        0x7f => {
            f.can(seq![Kind::Long, Kind::Long], 1)
        },
        0x80 => {
            f.can(seq![Kind::Int, Kind::Int], 1)
        },
        0x81 => {
            f.can(seq![Kind::Long, Kind::Long], 1)
        },
        0x82 => {
            f.can(seq![Kind::Int, Kind::Int], 1)
        },
        0x83 => {
            f.can(seq![Kind::Long, Kind::Long], 1)
        },
        0x84 => {
            f.operands(2)
            && f.can(seq![], 0)
            && f.local_is(f.u1(f.pc) as int, Kind::Int)
        },
        0x85 => {
            f.can(seq![Kind::Int], 1)
        },
        0x86 => {
            f.can(seq![Kind::Int], 1)
        },
        0x87 => {
            f.can(seq![Kind::Int], 1)
        },
        0x88 => {
            f.can(seq![Kind::Long], 1)
        },
        0x89 => {
            f.can(seq![Kind::Long], 1)
        },
        0x8a => {
            f.can(seq![Kind::Long], 1)
        },
        0x8b => {
            f.can(seq![Kind::Float], 1)
        },
        0x8c => {
            f.can(seq![Kind::Float], 1)
        },
        0x8d => {
            f.can(seq![Kind::Float], 1)
        },
        0x8e => {
            f.can(seq![Kind::Double], 1)
        },
        0x8f => {
            f.can(seq![Kind::Double], 1)
        },
        0x90 => {
            f.can(seq![Kind::Double], 1)
        },
        0x91 => {
            f.can(seq![Kind::Int], 1)
        },
        0x92 => {
            f.can(seq![Kind::Int], 1)
        },
        0x93 => {
            f.can(seq![Kind::Int], 1)
        },
        0x94 => {
            f.can(seq![Kind::Long, Kind::Long], 1)
        },
        0x95 => {
            f.can(seq![Kind::Float, Kind::Float], 1)
        },
        0x96 => {
            f.can(seq![Kind::Float, Kind::Float], 1)
        },
        0x97 => {
            f.can(seq![Kind::Double, Kind::Double], 1)
        },
        0x98 => {
            f.can(seq![Kind::Double, Kind::Double], 1)
        },
        0x99 => {
            f.operands(2)
            && f.can(seq![Kind::Int], 0)
        },
        0x9a => {
            f.operands(2)
            && f.can(seq![Kind::Int], 0)
        },
        0x9b => {
            f.operands(2)
            && f.can(seq![Kind::Int], 0)
        },
        0x9c => {
            f.operands(2)
            && f.can(seq![Kind::Int], 0)
        },
        0x9d => {
            f.operands(2)
            && f.can(seq![Kind::Int], 0)
        },
        0x9e => {
            f.operands(2)
            && f.can(seq![Kind::Int], 0)
        },
        0x9f => {
            f.operands(2)
            && f.can(seq![Kind::Int, Kind::Int], 0)
        },
        0xa0 => {
            f.operands(2)
            && f.can(seq![Kind::Int, Kind::Int], 0)
        },
        0xa1 => {
            f.operands(2)
            && f.can(seq![Kind::Int, Kind::Int], 0)
        },
        0xa2 => {
            f.operands(2)
            && f.can(seq![Kind::Int, Kind::Int], 0)
        },
        0xa3 => {
            f.operands(2)
            && f.can(seq![Kind::Int, Kind::Int], 0)
        },
        0xa4 => {
            f.operands(2)
            && f.can(seq![Kind::Int, Kind::Int], 0)
        },
        0xa5 => {
            f.operands(2)
            && f.can(seq![Kind::Ref, Kind::Ref], 0)
        },
        0xa6 => {
            f.operands(2)
            && f.can(seq![Kind::Ref, Kind::Ref], 0)
        },
        0xa7 => {
            f.operands(2)
            && f.can(seq![], 0)
        },
        0xa8 => {
            false
        },
        0xa9 => {
            false
        },
        0xaa => {
            f.can(seq![Kind::Int], 0)
            && table_fits(f) && 0 <= table_target(f, f.top(0)->Int_0) < f.code.len()
        },
        0xab => {
            f.can(seq![Kind::Int], 0)
            && lookup_fits(f) && 0 <= lookup_target(f, f.top(0)->Int_0) < f.code.len()
        },
        0xac => {
            f.can(seq![Kind::Int], 0)
        },
        0xad => {
            f.can(seq![Kind::Long], 0)
        },
        0xae => {
            f.can(seq![Kind::Float], 0)
        },
        0xaf => {
            f.can(seq![Kind::Double], 0)
        },
        0xb0 => {
            f.can(seq![Kind::Ref], 0)
        },
        0xb1 => {
            f.can(seq![], 0)
        },
        0xb2 => {
            f.operands(2)
            && f.can(seq![], 1)
            && static_ok(f, h)
        },
        0xb3 => {
            f.operands(2)
            && static_ok(f, h)
            && f.can(seq![field_type(f).spec_kind()], 0)
        },
        0xb4 => {
            f.operands(2)
            && f.can(seq![Kind::ObjectRef], 1)
            && field_ok(f, h, f.top(0))
        },
        0xb5 => {
            f.operands(2)
            && operand_field(f) is Some
            && f.can(seq![Kind::ObjectRef, field_type(f).spec_kind()], 0)
            && field_ok(f, h, f.top(1))
        },
        0xb6 => {
            f.operands(2)
            && f.can(seq![], 0)
        },
        0xb7 => {
            f.operands(2)
            && f.can(seq![], 0)
        },
        0xb8 => {
            f.operands(2)
            && f.can(seq![], 0)
        },
        0xb9 => {
            f.operands(4)
            && f.can(seq![], 0)
        },
        0xba => {
            f.operands(4)
            && f.can(seq![], 0)
        },
        0xbb => {
            f.operands(2)
            && f.can(seq![], 1)
            && (operand_class(f) matches Some(c) && c < h.classes.len())
        },
        0xbc => {
            f.operands(1)
            && f.can(seq![Kind::Int], 1)
            && atype(f.u1(f.pc)) is Some
        },
        0xbd => {
            f.operands(2)
            && f.can(seq![Kind::Int], 1)
        },
        0xbe => {
            f.can(seq![Kind::ArrayRef], 1)
            && h.valid(f.top(0))
        },
        0xbf => {
            f.can(seq![Kind::ObjectRef], 0)
            && h.valid(f.top(0))
        },
        0xc0 => {
            f.operands(2)
            && f.can(seq![Kind::Ref], 1)
            && h.valid(f.top(0))
            && operand_class(f) is Some
        },
        0xc1 => {
            f.operands(2)
            && f.can(seq![Kind::Ref], 1)
            && h.valid(f.top(0))
            && operand_class(f) is Some
        },
        0xc2 => {
            f.can(seq![Kind::Ref], 0)
            && h.valid(f.top(0))
        },
        0xc3 => {
            f.can(seq![Kind::Ref], 0)
            && h.valid(f.top(0))
        },
        0xc4 => {
            false
        },
        0xc5 => {
            multi_ok(f)
        },
        0xc6 => {
            f.operands(2)
            && f.can(seq![Kind::Ref], 0)
        },
        0xc7 => {
            f.operands(2)
            && f.can(seq![Kind::Ref], 0)
        },
        0xc8 => {
            false
        },
        0xc9 => {
            false
        },
        _ => false,
    }
}

/// What executing opcode `op` does to the frame `f` (positioned after the
/// opcode byte) and the heap `h`, giving `f2` and `h2`: the contract of the
/// instruction's handler.
pub open spec fn executed(op: u8, f: FrameView, h: HeapView, f2: FrameView, h2: HeapView) -> bool {
    match op {
        0x00 => {
            &&& f2 == f
            &&& h2 == h
        },
        0x01 => {
            &&& f2 == f.pushed(Value::Null)
            &&& h2 == h
        },
        0x02 => {
            &&& f2 == f.pushed(Value::Int(-1i32))
            &&& h2 == h
        },
        0x03 => {
            &&& f2 == f.pushed(Value::Int(0))
            &&& h2 == h
        },
        0x04 => {
            &&& f2 == f.pushed(Value::Int(1))
            &&& h2 == h
        },
        0x05 => {
            &&& f2 == f.pushed(Value::Int(2))
            &&& h2 == h
        },
        0x06 => {
            &&& f2 == f.pushed(Value::Int(3))
            &&& h2 == h
        },
        0x07 => {
            &&& f2 == f.pushed(Value::Int(4))
            &&& h2 == h
        },
        0x08 => {
            &&& f2 == f.pushed(Value::Int(5))
            &&& h2 == h
        },
        0x09 => {
            &&& f2 == f.pushed(Value::Long(0))
            &&& h2 == h
        },
        0x0a => {
            &&& f2 == f.pushed(Value::Long(1))
            &&& h2 == h
        },
        0x0b => {
            &&& f2 == f.pushed(Value::Float(0))
            &&& h2 == h
        },
        0x0c => {
            &&& f2 == f.pushed(Value::Float(0x3f80_0000))
            &&& h2 == h
        },
        0x0d => {
            &&& f2 == f.pushed(Value::Float(0x4000_0000))
            &&& h2 == h
        },
        0x0e => {
            &&& f2 == f.pushed(Value::Double(0))
            &&& h2 == h
        },
        0x0f => {
            &&& f2 == f.pushed(Value::Double(0x3ff0_0000_0000_0000))
            &&& h2 == h
        },
        0x10 => {
            &&& f2 == f.at(f.pc + 1).pushed(Value::Int(f.i1(f.pc)))
            &&& h2 == h
        },
        0x11 => {
            &&& f2 == f.at(f.pc + 2).pushed(Value::Int(f.i2(f.pc)))
            &&& h2 == h
        },
        0x12 => {
            loaded_constant(f.at(f.pc + 1), h, f.u1(f.pc) as int, f2, h2)
        },
        0x13 => {
            loaded_constant(f.at(f.pc + 2), h, f.u2(f.pc) as int, f2, h2)
        },
        0x14 => {
            loaded_constant(f.at(f.pc + 2), h, f.u2(f.pc) as int, f2, h2)
        },
        0x15 => {
            &&& f2 == f.at(f.pc + 1).pushed(f.locals[f.u1(f.pc) as int])
            &&& h2 == h
        },
        0x16 => {
            &&& f2 == f.at(f.pc + 1).pushed(f.locals[f.u1(f.pc) as int])
            &&& h2 == h
        },
        0x17 => {
            &&& f2 == f.at(f.pc + 1).pushed(f.locals[f.u1(f.pc) as int])
            &&& h2 == h
        },
        0x18 => {
            &&& f2 == f.at(f.pc + 1).pushed(f.locals[f.u1(f.pc) as int])
            &&& h2 == h
        },
        0x19 => {
            &&& f2 == f.at(f.pc + 1).pushed(f.locals[f.u1(f.pc) as int])
            &&& h2 == h
        },
        0x1a => {
            &&& f2 == f.pushed(f.locals[0])
            &&& h2 == h
        },
        0x1b => {
            &&& f2 == f.pushed(f.locals[1])
            &&& h2 == h
        },
        0x1c => {
            &&& f2 == f.pushed(f.locals[2])
            &&& h2 == h
        },
        0x1d => {
            &&& f2 == f.pushed(f.locals[3])
            &&& h2 == h
        },
        0x1e => {
            &&& f2 == f.pushed(f.locals[0])
            &&& h2 == h
        },
        0x1f => {
            &&& f2 == f.pushed(f.locals[1])
            &&& h2 == h
        },
        0x20 => {
            &&& f2 == f.pushed(f.locals[2])
            &&& h2 == h
        },
        0x21 => {
            &&& f2 == f.pushed(f.locals[3])
            &&& h2 == h
        },
        0x22 => {
            &&& f2 == f.pushed(f.locals[0])
            &&& h2 == h
        },
        0x23 => {
            &&& f2 == f.pushed(f.locals[1])
            &&& h2 == h
        },
        0x24 => {
            &&& f2 == f.pushed(f.locals[2])
            &&& h2 == h
        },
        0x25 => {
            &&& f2 == f.pushed(f.locals[3])
            &&& h2 == h
        },
        0x26 => {
            &&& f2 == f.pushed(f.locals[0])
            &&& h2 == h
        },
        0x27 => {
            &&& f2 == f.pushed(f.locals[1])
            &&& h2 == h
        },
        0x28 => {
            &&& f2 == f.pushed(f.locals[2])
            &&& h2 == h
        },
        0x29 => {
            &&& f2 == f.pushed(f.locals[3])
            &&& h2 == h
        },
        0x2a => {
            &&& f2 == f.pushed(f.locals[0])
            &&& h2 == h
        },
        0x2b => {
            &&& f2 == f.pushed(f.locals[1])
            &&& h2 == h
        },
        0x2c => {
            &&& f2 == f.pushed(f.locals[2])
            &&& h2 == h
        },
        0x2d => {
            &&& f2 == f.pushed(f.locals[3])
            &&& h2 == h
        },
        0x2e => {
            loaded(f, h, f2, h2)
        },
        0x2f => {
            loaded(f, h, f2, h2)
        },
        0x30 => {
            loaded(f, h, f2, h2)
        },
        0x31 => {
            loaded(f, h, f2, h2)
        },
        0x32 => {
            loaded(f, h, f2, h2)
        },
        0x33 => {
            loaded(f, h, f2, h2)
        },
        0x34 => {
            loaded(f, h, f2, h2)
        },
        0x35 => {
            loaded(f, h, f2, h2)
        },
        0x36 => {
            &&& f2 == f.at(f.pc + 1).popped(1).with_local(f.u1(f.pc) as int, f.top(0))
            &&& h2 == h
        },
        0x37 => {
            &&& f2 == f.at(f.pc + 1).popped(1).with_local(f.u1(f.pc) as int, f.top(0))
            &&& h2 == h
        },
        0x38 => {
            &&& f2 == f.at(f.pc + 1).popped(1).with_local(f.u1(f.pc) as int, f.top(0))
            &&& h2 == h
        },
        0x39 => {
            &&& f2 == f.at(f.pc + 1).popped(1).with_local(f.u1(f.pc) as int, f.top(0))
            &&& h2 == h
        },
        0x3a => {
            &&& f2 == f.at(f.pc + 1).popped(1).with_local(f.u1(f.pc) as int, f.top(0))
            &&& h2 == h
        },
        0x3b => {
            &&& f2 == f.popped(1).with_local(0, f.top(0))
            &&& h2 == h
        },
        0x3c => {
            &&& f2 == f.popped(1).with_local(1, f.top(0))
            &&& h2 == h
        },
        0x3d => {
            &&& f2 == f.popped(1).with_local(2, f.top(0))
            &&& h2 == h
        },
        0x3e => {
            &&& f2 == f.popped(1).with_local(3, f.top(0))
            &&& h2 == h
        },
        0x3f => {
            &&& f2 == f.popped(1).with_local(0, f.top(0))
            &&& h2 == h
        },
        0x40 => {
            &&& f2 == f.popped(1).with_local(1, f.top(0))
            &&& h2 == h
        },
        0x41 => {
            &&& f2 == f.popped(1).with_local(2, f.top(0))
            &&& h2 == h
        },
        0x42 => {
            &&& f2 == f.popped(1).with_local(3, f.top(0))
            &&& h2 == h
        },
        0x43 => {
            &&& f2 == f.popped(1).with_local(0, f.top(0))
            &&& h2 == h
        },
        0x44 => {
            &&& f2 == f.popped(1).with_local(1, f.top(0))
            &&& h2 == h
        },
        0x45 => {
            &&& f2 == f.popped(1).with_local(2, f.top(0))
            &&& h2 == h
        },
        0x46 => {
            &&& f2 == f.popped(1).with_local(3, f.top(0))
            &&& h2 == h
        },
        0x47 => {
            &&& f2 == f.popped(1).with_local(0, f.top(0))
            &&& h2 == h
        },
        0x48 => {
            &&& f2 == f.popped(1).with_local(1, f.top(0))
            &&& h2 == h
        },
        0x49 => {
            &&& f2 == f.popped(1).with_local(2, f.top(0))
            &&& h2 == h
        },
        0x4a => {
            &&& f2 == f.popped(1).with_local(3, f.top(0))
            &&& h2 == h
        },
        0x4b => {
            &&& f2 == f.popped(1).with_local(0, f.top(0))
            &&& h2 == h
        },
        0x4c => {
            &&& f2 == f.popped(1).with_local(1, f.top(0))
            &&& h2 == h
        },
        0x4d => {
            &&& f2 == f.popped(1).with_local(2, f.top(0))
            &&& h2 == h
        },
        0x4e => {
            &&& f2 == f.popped(1).with_local(3, f.top(0))
            &&& h2 == h
        },
        0x4f => {
            stored(f, h, f2, h2)
        },
        0x50 => {
            stored(f, h, f2, h2)
        },
        0x51 => {
            stored(f, h, f2, h2)
        },
        0x52 => {
            stored(f, h, f2, h2)
        },
        0x53 => {
            stored(f, h, f2, h2)
        },
        0x54 => {
            stored(f, h, f2, h2)
        },
        0x55 => {
            stored(f, h, f2, h2)
        },
        0x56 => {
            stored(f, h, f2, h2)
        },
        0x57 => {
            &&& f2 == f.popped(1)
            &&& h2 == h
        },
        0x58 => {
            &&& f2 == f.popped(2)
            &&& h2 == h
        },
        0x59 => {
            &&& f2 == f.pushed(f.top(0))
            &&& h2 == h
        },
        0x5a => {
            &&& f2 == f.popped(2).pushed(f.top(0)).pushed(f.top(1)).pushed(f.top(0))
            &&& h2 == h
        },
        0x5b => {
            &&& f2 == f.popped(3).pushed(f.top(0)).pushed(f.top(2)).pushed(f.top(1)).pushed(f.top(0))
            &&& h2 == h
        },
        0x5c => {
            &&& f2 == f.pushed(f.top(1)).pushed(f.top(0))
            &&& h2 == h
        },
        0x5d => {
            &&& f2 == f.popped(3).pushed(f.top(1)).pushed(f.top(0)).pushed(f.top(2)).pushed(f.top(1)).pushed(f.top(0))
            &&& h2 == h
        },
        0x5e => {
            &&& f2 == f.popped(4).pushed(f.top(1)).pushed(f.top(0)).pushed(f.top(3)).pushed(f.top(2)).pushed(f.top(1)).pushed(f.top(0))
            &&& h2 == h
        },
        0x5f => {
            &&& f2 == f.popped(2).pushed(f.top(0)).pushed(f.top(1))
            &&& h2 == h
        },
        0x60 => {
            &&& f2 == f.popped(2).pushed(Value::Int(f.top(1)->Int_0.wrapping_add(f.top(0)->Int_0)))
            &&& h2 == h
        },
        0x61 => {
            &&& f2 == f.popped(2).pushed(Value::Long(f.top(1)->Long_0.wrapping_add(f.top(0)->Long_0)))
            &&& h2 == h
        },
        0x62 => {
f2 == f && h2 == h
        },
        0x63 => {
f2 == f && h2 == h
        },
        0x64 => {
            &&& f2 == f.popped(2).pushed(Value::Int(f.top(1)->Int_0.wrapping_sub(f.top(0)->Int_0)))
            &&& h2 == h
        },
        0x65 => {
            &&& f2 == f.popped(2).pushed(Value::Long(f.top(1)->Long_0.wrapping_sub(f.top(0)->Long_0)))
            &&& h2 == h
        },
        0x66 => {
f2 == f && h2 == h
        },
        0x67 => {
f2 == f && h2 == h
        },
        0x68 => {
            &&& f2 == f.popped(2).pushed(Value::Int(f.top(1)->Int_0.wrapping_mul(f.top(0)->Int_0)))
            &&& h2 == h
        },
        0x69 => {
            &&& f2 == f.popped(2).pushed(Value::Long(f.top(1)->Long_0.wrapping_mul(f.top(0)->Long_0)))
            &&& h2 == h
        },
        0x6a => {
f2 == f && h2 == h
        },
        0x6b => {
f2 == f && h2 == h
        },
        0x6c => {
            &&& f.top(0)->Int_0 == 0 ==> h2 == fault_heap(h, ARITHMETIC_CLASS, Some(divide_by_zero_message()))
            &&& f.top(0)->Int_0 == 0 ==> f2 == f.thrown(fault_ref(h), h2)
            &&& f.top(0)->Int_0 != 0 ==> h2 == h
            &&& f.top(0)->Int_0 != 0 ==> f2 == f.popped(2).pushed(Value::Int(int_div(f.top(1)->Int_0, f.top(0)->Int_0)))
        },
        0x6d => {
            &&& f.top(0)->Long_0 == 0 ==> h2 == fault_heap(h, ARITHMETIC_CLASS, Some(divide_by_zero_message()))
            &&& f.top(0)->Long_0 == 0 ==> f2 == f.thrown(fault_ref(h), h2)
            &&& f.top(0)->Long_0 != 0 ==> h2 == h
            &&& f.top(0)->Long_0 != 0 ==> f2 == f.popped(2).pushed(Value::Long(long_div(f.top(1)->Long_0, f.top(0)->Long_0)))
        },
        0x6e => {
f2 == f && h2 == h
        },
        0x6f => {
f2 == f && h2 == h
        },
        0x70 => {
            &&& f.top(0)->Int_0 == 0 ==> h2 == fault_heap(h, ARITHMETIC_CLASS, Some(divide_by_zero_message()))
            &&& f.top(0)->Int_0 == 0 ==> f2 == f.thrown(fault_ref(h), h2)
            &&& f.top(0)->Int_0 != 0 ==> h2 == h
            &&& f.top(0)->Int_0 != 0 ==> f2 == f.popped(2).pushed(Value::Int(int_rem(f.top(1)->Int_0, f.top(0)->Int_0)))
        },
        0x71 => {
            &&& f.top(0)->Long_0 == 0 ==> h2 == fault_heap(h, ARITHMETIC_CLASS, Some(divide_by_zero_message()))
            &&& f.top(0)->Long_0 == 0 ==> f2 == f.thrown(fault_ref(h), h2)
            &&& f.top(0)->Long_0 != 0 ==> h2 == h
            &&& f.top(0)->Long_0 != 0 ==> f2 == f.popped(2).pushed(Value::Long(long_rem(f.top(1)->Long_0, f.top(0)->Long_0)))
        },
        0x72 => {
true
        },
        0x73 => {
true
        },
        0x74 => {
            &&& f2 == f.popped(1).pushed(Value::Int(0i32.wrapping_sub(f.top(0)->Int_0)))
            &&& h2 == h
        },
        0x75 => {
            &&& f2 == f.popped(1).pushed(Value::Long(0i64.wrapping_sub(f.top(0)->Long_0)))
            &&& h2 == h
        },
        0x76 => {
true
        },
        0x77 => {
true
        },
        0x78 => {
            &&& f2 == f.popped(2).pushed(Value::Int(f.top(1)->Int_0 << ((f.top(0)->Int_0 & 0x1fi32) as u32)))
            &&& h2 == h
        },
        0x79 => {
            &&& f2 == f.popped(2).pushed(Value::Long(f.top(1)->Long_0 << ((f.top(0)->Int_0 & 0x3fi32) as u32)))
            &&& h2 == h
        },
        0x7a => {
            &&& f2 == f.popped(2).pushed(Value::Int(f.top(1)->Int_0 >> ((f.top(0)->Int_0 & 0x1fi32) as u32)))
            &&& h2 == h
        },
        0x7b => {
            &&& f2 == f.popped(2).pushed(Value::Long(f.top(1)->Long_0 >> ((f.top(0)->Int_0 & 0x3fi32) as u32)))
            &&& h2 == h
        },
        0x7c => {
            &&& f2 == f.popped(2).pushed(Value::Int(((f.top(1)->Int_0 as u32) >> ((f.top(0)->Int_0 & 0x1fi32) as u32)) as i32))
            &&& h2 == h
        },
        0x7d => {
            &&& f2 == f.popped(2).pushed(Value::Long(((f.top(1)->Long_0 as u64) >> ((f.top(0)->Int_0 & 0x3fi32) as u32)) as i64))
            &&& h2 == h
        },
        0x7e => {
            &&& f2 == f.popped(2).pushed(Value::Int(f.top(1)->Int_0 & f.top(0)->Int_0))
            &&& h2 == h
        },
        0x7f => {
            &&& f2 == f.popped(2).pushed(Value::Long(f.top(1)->Long_0 & f.top(0)->Long_0))
            &&& h2 == h
        },
        0x80 => {
            &&& f2 == f.popped(2).pushed(Value::Int(f.top(1)->Int_0 | f.top(0)->Int_0))
            &&& h2 == h
        },
        0x81 => {
            &&& f2 == f.popped(2).pushed(Value::Long(f.top(1)->Long_0 | f.top(0)->Long_0))
            &&& h2 == h
        },
        0x82 => {
            &&& f2 == f.popped(2).pushed(Value::Int(f.top(1)->Int_0 ^ f.top(0)->Int_0))
            &&& h2 == h
        },
        0x83 => {
            &&& f2 == f.popped(2).pushed(Value::Long(f.top(1)->Long_0 ^ f.top(0)->Long_0))
            &&& h2 == h
        },
        0x84 => {
            &&& f2 == f.at(f.pc + 2).with_local(f.u1(f.pc) as int, Value::Int(f.locals[f.u1(f.pc) as int]->Int_0.wrapping_add(f.i1(f.pc + 1))))
            &&& h2 == h
        },
        0x85 => {
            &&& f2 == f.popped(1).pushed(Value::Long(f.top(0)->Int_0 as i64))
            &&& h2 == h
        },
        0x86 => {
f2 == f && h2 == h
        },
        0x87 => {
f2 == f && h2 == h
        },
        0x88 => {
            &&& f2 == f.popped(1).pushed(Value::Int(f.top(0)->Long_0 as i32))
            &&& h2 == h
        },
        0x89 => {
f2 == f && h2 == h
        },
        0x8a => {
f2 == f && h2 == h
        },
        0x8b => {
            &&& f2 == f.popped(1).pushed(Value::Int(f2i(f.top(0)->Float_0)))
            &&& h2 == h
        },
        0x8c => {
            &&& f2 == f.popped(1).pushed(Value::Long(f2l(f.top(0)->Float_0)))
            &&& h2 == h
        },
        0x8d => {
f2 == f && h2 == h
        },
        0x8e => {
            &&& f2 == f.popped(1).pushed(Value::Int(d2i(f.top(0)->Double_0)))
            &&& h2 == h
        },
        0x8f => {
            &&& f2 == f.popped(1).pushed(Value::Long(d2l(f.top(0)->Double_0)))
            &&& h2 == h
        },
        0x90 => {
f2 == f && h2 == h
        },
        0x91 => {
            &&& f2 == f.popped(1).pushed(Value::Int((f.top(0)->Int_0 as i8) as i32))
            &&& h2 == h
        },
        0x92 => {
            &&& f2 == f.popped(1).pushed(Value::Int((f.top(0)->Int_0 as u16) as i32))
            &&& h2 == h
        },
        0x93 => {
            &&& f2 == f.popped(1).pushed(Value::Int((f.top(0)->Int_0 as i16) as i32))
            &&& h2 == h
        },
        0x94 => {
            &&& f2 == f.popped(2).pushed(Value::Int(sign_of_cmp(f.top(1)->Long_0 as int, f.top(0)->Long_0 as int)))
            &&& h2 == h
        },
        0x95 => {
            &&& f2 == f.popped(2).pushed(Value::Int(fcmp(f.top(1)->Float_0, f.top(0)->Float_0, -1i32)))
            &&& h2 == h
        },
        0x96 => {
            &&& f2 == f.popped(2).pushed(Value::Int(fcmp(f.top(1)->Float_0, f.top(0)->Float_0, 1i32)))
            &&& h2 == h
        },
        0x97 => {
            &&& f2 == f.popped(2).pushed(Value::Int(dcmp(f.top(1)->Double_0, f.top(0)->Double_0, -1i32)))
            &&& h2 == h
        },
        0x98 => {
            &&& f2 == f.popped(2).pushed(Value::Int(dcmp(f.top(1)->Double_0, f.top(0)->Double_0, 1i32)))
            &&& h2 == h
        },
        0x99 => {
            &&& (f.top(0)->Int_0 == 0) ==> f2 == f.popped(1).at(f.op_pc + f.i2(f.pc))
            &&& !(f.top(0)->Int_0 == 0) ==> f2 == f.popped(1).at(f.pc + 2)
            &&& h2 == h
        },
        0x9a => {
            &&& (f.top(0)->Int_0 != 0) ==> f2 == f.popped(1).at(f.op_pc + f.i2(f.pc))
            &&& !(f.top(0)->Int_0 != 0) ==> f2 == f.popped(1).at(f.pc + 2)
            &&& h2 == h
        },
        0x9b => {
            &&& (f.top(0)->Int_0 < 0) ==> f2 == f.popped(1).at(f.op_pc + f.i2(f.pc))
            &&& !(f.top(0)->Int_0 < 0) ==> f2 == f.popped(1).at(f.pc + 2)
            &&& h2 == h
        },
        0x9c => {
            &&& (f.top(0)->Int_0 >= 0) ==> f2 == f.popped(1).at(f.op_pc + f.i2(f.pc))
            &&& !(f.top(0)->Int_0 >= 0) ==> f2 == f.popped(1).at(f.pc + 2)
            &&& h2 == h
        },
        0x9d => {
            &&& (f.top(0)->Int_0 > 0) ==> f2 == f.popped(1).at(f.op_pc + f.i2(f.pc))
            &&& !(f.top(0)->Int_0 > 0) ==> f2 == f.popped(1).at(f.pc + 2)
            &&& h2 == h
        },
        0x9e => {
            &&& (f.top(0)->Int_0 <= 0) ==> f2 == f.popped(1).at(f.op_pc + f.i2(f.pc))
            &&& !(f.top(0)->Int_0 <= 0) ==> f2 == f.popped(1).at(f.pc + 2)
            &&& h2 == h
        },
        0x9f => {
            &&& (f.top(1)->Int_0 == f.top(0)->Int_0) ==> f2 == f.popped(2).at(f.op_pc + f.i2(f.pc))
            &&& !(f.top(1)->Int_0 == f.top(0)->Int_0) ==> f2 == f.popped(2).at(f.pc + 2)
            &&& h2 == h
        },
        0xa0 => {
            &&& (f.top(1)->Int_0 != f.top(0)->Int_0) ==> f2 == f.popped(2).at(f.op_pc + f.i2(f.pc))
            &&& !(f.top(1)->Int_0 != f.top(0)->Int_0) ==> f2 == f.popped(2).at(f.pc + 2)
            &&& h2 == h
        },
        0xa1 => {
            &&& (f.top(1)->Int_0 < f.top(0)->Int_0) ==> f2 == f.popped(2).at(f.op_pc + f.i2(f.pc))
            &&& !(f.top(1)->Int_0 < f.top(0)->Int_0) ==> f2 == f.popped(2).at(f.pc + 2)
            &&& h2 == h
        },
        0xa2 => {
            &&& (f.top(1)->Int_0 >= f.top(0)->Int_0) ==> f2 == f.popped(2).at(f.op_pc + f.i2(f.pc))
            &&& !(f.top(1)->Int_0 >= f.top(0)->Int_0) ==> f2 == f.popped(2).at(f.pc + 2)
            &&& h2 == h
        },
        0xa3 => {
            &&& (f.top(1)->Int_0 > f.top(0)->Int_0) ==> f2 == f.popped(2).at(f.op_pc + f.i2(f.pc))
            &&& !(f.top(1)->Int_0 > f.top(0)->Int_0) ==> f2 == f.popped(2).at(f.pc + 2)
            &&& h2 == h
        },
        0xa4 => {
            &&& (f.top(1)->Int_0 <= f.top(0)->Int_0) ==> f2 == f.popped(2).at(f.op_pc + f.i2(f.pc))
            &&& !(f.top(1)->Int_0 <= f.top(0)->Int_0) ==> f2 == f.popped(2).at(f.pc + 2)
            &&& h2 == h
        },
        0xa5 => {
            &&& (f.top(1) == f.top(0)) ==> f2 == f.popped(2).at(f.op_pc + f.i2(f.pc))
            &&& !(f.top(1) == f.top(0)) ==> f2 == f.popped(2).at(f.pc + 2)
            &&& h2 == h
        },
        0xa6 => {
            &&& (f.top(1) != f.top(0)) ==> f2 == f.popped(2).at(f.op_pc + f.i2(f.pc))
            &&& !(f.top(1) != f.top(0)) ==> f2 == f.popped(2).at(f.pc + 2)
            &&& h2 == h
        },
        0xa7 => {
            &&& f2 == f.at(f.op_pc + f.i2(f.pc))
            &&& h2 == h
        },
        0xa8 => {
true
        },
        0xa9 => {
true
        },
        0xaa => {
            &&& f2 == f.popped(1).at(table_target(f, f.top(0)->Int_0))
            &&& h2 == h
        },
        0xab => {
            &&& f2 == f.popped(1).at(lookup_target(f, f.top(0)->Int_0))
            &&& h2 == h
        },
        0xac => {
            &&& f2 == (FrameView { return_v: Some(f.top(0)), ..f.popped(1) })
            &&& h2 == h
        },
        0xad => {
            &&& f2 == (FrameView { return_v: Some(f.top(0)), ..f.popped(1) })
            &&& h2 == h
        },
        0xae => {
            &&& f2 == (FrameView { return_v: Some(f.top(0)), ..f.popped(1) })
            &&& h2 == h
        },
        0xaf => {
            &&& f2 == (FrameView { return_v: Some(f.top(0)), ..f.popped(1) })
            &&& h2 == h
        },
        0xb0 => {
            &&& f2 == (FrameView { return_v: Some(f.top(0)), ..f.popped(1) })
            &&& h2 == h
        },
        0xb1 => {
            &&& f2 == (FrameView { return_v: Some(Value::Null), ..f })
            &&& h2 == h
        },
        0xb2 => {
            &&& f2 == f.at(f.pc + 2).pushed(h.classes[field_class(f) as int].statics[field_slot(f) as int])
            &&& h2 == h
        },
        0xb3 => {
            &&& h2 == h.with_static(field_class(f) as int, field_slot(f) as int, f.top(0))
            &&& f2 == f.at(f.pc + 2).popped(1)
        },
        0xb4 => {
            &&& f.top(0) matches Value::Reference(o) ==> h2 == h && f2 == f.at(f.pc + 2).popped(1).pushed(h.objects[o as int].fields[field_slot(f) as int])
            &&& f.top(0) is Null ==> faulted(f.at(f.pc + 2), h, NULL_POINTER_CLASS, None, f2, h2)
        },
        0xb5 => {
            &&& f.top(1) matches Value::Reference(o) ==> h2 == h.with_field(o as int, field_slot(f) as int, f.top(0)) && f2 == f.at(f.pc + 2).popped(2)
            &&& f.top(1) is Null ==> faulted(f.at(f.pc + 2), h, NULL_POINTER_CLASS, None, f2, h2)
        },
        0xb6 => {
            &&& f2 == invoked(f, 0xb6u8, 2)
            &&& h2 == h
        },
        0xb7 => {
            &&& f2 == invoked(f, 0xb7u8, 2)
            &&& h2 == h
        },
        0xb8 => {
            &&& f2 == invoked(f, 0xb8u8, 2)
            &&& h2 == h
        },
        0xb9 => {
            &&& f2 == invoked(f, 0xb9u8, 4)
            &&& h2 == h
        },
        0xba => {
            &&& f2 == invoked(f, 0xbau8, 4)
            &&& h2 == h
        },
        0xbb => {
            &&& h2 == h.with_object(ObjectView { class_id: operand_class(f)->0, fields: defaults(h.classes[operand_class(f)->0 as int].field_types), text: None, locks: 0, })
            &&& f2 == f.at(f.pc + 2).pushed(Value::Reference(h.objects.len() as usize))
        },
        0xbc => {
            &&& f.top(0)->Int_0 >= 0 ==> h2 == h.with_array(crate::heap::ArrayView { component: atype(f.u1(f.pc))->0, elems: Seq::new(f.top(0)->Int_0 as nat, |i: int| atype(f.u1(f.pc))->0.spec_default_value()), locks: 0 })
            &&& f.top(0)->Int_0 >= 0 ==> f2 == f.at(f.pc + 1).popped(1).pushed(Value::Array(h.arrays.len() as usize))
            &&& f.top(0)->Int_0 < 0 ==> faulted(f.at(f.pc + 1), h, NEGATIVE_ARRAY_SIZE_CLASS, None, f2, h2)
        },
        0xbd => {
            &&& f.top(0)->Int_0 >= 0 ==> h2 == h.with_array(crate::heap::ArrayView { component: ValueType::Object, elems: Seq::new(f.top(0)->Int_0 as nat, |i: int| Value::Null), locks: 0 })
            &&& f.top(0)->Int_0 >= 0 ==> f2 == f.at(f.pc + 2).popped(1).pushed(Value::Array(h.arrays.len() as usize))
            &&& f.top(0)->Int_0 < 0 ==> faulted(f.at(f.pc + 2), h, NEGATIVE_ARRAY_SIZE_CLASS, None, f2, h2)
        },
        0xbe => {
            &&& f.top(0) matches Value::Array(a) ==> h2 == h && f2 == f.popped(1).pushed(Value::Int(h.arrays[a as int].elems.len() as i32))
            &&& f.top(0) is Null ==> faulted(f, h, NULL_POINTER_CLASS, None, f2, h2)
        },
        0xbf => {
            &&& f.top(0) is Reference ==> h2 == h && f2 == f.thrown(f.top(0), h)
            &&& f.top(0) is Null ==> faulted(f, h, NULL_POINTER_CLASS, None, f2, h2)
        },
        0xc0 => {
            &&& (f.top(0) is Null || h.instance_of(f.top(0), operand_class(f)->0 as nat)) ==> h2 == h && f2 == f.at(f.pc + 2)
            &&& !(f.top(0) is Null || h.instance_of(f.top(0), operand_class(f)->0 as nat)) ==> faulted(f.at(f.pc + 2), h, CLASS_CAST_CLASS, None, f2, h2)
        },
        0xc1 => {
            &&& f2 == f.at(f.pc + 2).popped(1).pushed(Value::Int(if h.instance_of(f.top(0), operand_class(f)->0 as nat) { 1i32 } else { 0i32 }))
            &&& h2 == h
        },
        0xc2 => {
            &&& f.top(0) is Null ==> faulted(f, h, NULL_POINTER_CLASS, None, f2, h2)
            &&& !(f.top(0) is Null) && h.locks_of(f.top(0)) < u32::MAX ==> f2 == f.popped(1) && h2 == h.with_locks(f.top(0), (h.locks_of(f.top(0)) + 1) as u32)
            &&& !(f.top(0) is Null) && h.locks_of(f.top(0)) == u32::MAX ==> faulted(f, h, ILLEGAL_MONITOR_STATE_CLASS, None, f2, h2)
        },
        0xc3 => {
            &&& f.top(0) is Null ==> faulted(f, h, NULL_POINTER_CLASS, None, f2, h2)
            &&& !(f.top(0) is Null) && h.locks_of(f.top(0)) > 0 ==> f2 == f.popped(1) && h2 == h.with_locks(f.top(0), (h.locks_of(f.top(0)) - 1) as u32)
            &&& !(f.top(0) is Null) && h.locks_of(f.top(0)) == 0 ==> faulted(f, h, ILLEGAL_MONITOR_STATE_CLASS, None, f2, h2)
        },
        0xc4 => {
true
        },
        0xc5 => {
            multi_built(f.at(f.pc + 3), h, f.u1(f.pc + 2) as nat, multi_dimensions(f), multi_element(f), f2, h2)
        },
        0xc6 => {
            &&& (f.top(0) is Null) ==> f2 == f.popped(1).at(f.op_pc + f.i2(f.pc))
            &&& !(f.top(0) is Null) ==> f2 == f.popped(1).at(f.pc + 2)
            &&& h2 == h
        },
        0xc7 => {
            &&& (!(f.top(0) is Null)) ==> f2 == f.popped(1).at(f.op_pc + f.i2(f.pc))
            &&& !(!(f.top(0) is Null)) ==> f2 == f.popped(1).at(f.pc + 2)
            &&& h2 == h
        },
        0xc8 => {
true
        },
        0xc9 => {
true
        },
        _ => true,
    }
}
/// The `ldc` family.
pub open spec fn is_ldc(op: u8) -> bool {
    op == 0x12 || op == 0x13 || op == 0x14
}

/// The invocation instructions.
pub open spec fn is_invoke(op: u8) -> bool {
    0xb6 <= op <= 0xba
}

/// The constant-pool index an `ldc`-family instruction names.
pub open spec fn constant_index(op: u8, f: FrameView) -> int {
    if op == 0x12 { f.u1(f.pc) as int } else { f.u2(f.pc) as int }
}

/// How one step on opcode `op` ends, for the frame `f` positioned after the
/// opcode byte: the handler runs exactly when the instruction's operands
/// suit it (a constant that cannot be pushed aside), with the handler's
/// effect, and the step reports whether the frame now has a result or waits
/// for a call.
pub open spec fn outcome(op: u8, f: FrameView, h: HeapView, r: Result<Step, Fatal>, f2: FrameView, h2: HeapView) -> bool {
    let pc = f.op_pc as i32;
    &&& r is Ok ==> executed(op, f, h, f2, h2)
    &&& is_defined(op) && !is_retired(op) ==> (admits(op, f, h) <==> r != Err::<Step, Fatal>(Fatal::Malformed { opcode: op, pc }))
    &&& admits(op, f, h) && !is_ldc(op) ==> r is Ok
    &&& admits(op, f, h) && is_ldc(op) ==> (r is Ok <==> loadable(f.cp, constant_index(op, f)))
    &&& admits(op, f, h) && is_ldc(op) && !loadable(f.cp, constant_index(op, f)) ==> r == Err::<Step, Fatal>(Fatal::Unsupported { opcode: op, pc })
    &&& r is Ok && !is_float_op(op) && !is_invoke(op) ==> r == Ok::<Step, Fatal>(if f2.return_v is Some { Step::Done } else { Step::Continue })
    &&& r is Ok && is_invoke(op) ==> f2.invoke is Some && r == Ok::<Step, Fatal>(Step::Invoke(f2.invoke->0))
}

impl Frame {
    fn after(&self) -> (r: Step)
        ensures
            r == (if self@.return_v is Some { Step::Done } else { Step::Continue }),
    {
        if self.return_value().is_some() {
            Step::Done
        } else {
            Step::Continue
        }
    }

    fn invoke_step(&self) -> (r: Step)
        ensures
            self@.invoke matches Some(i) ==> r == Step::Invoke(i),
    {
        match self.pending_invoke() {
            Some(i) => Step::Invoke(i),
            None => Step::Continue,
        }
    }

    fn static_ready(&self, heap: &Heap) -> (r: bool)
        requires
            self@.wf(),
            self@.operands(2),
        ensures
            r == static_ok(self@, heap@),
    {
        match self.operand_field_entry() {
            Some((c, slot, _)) => (c as usize) < heap.class_count() && (slot as usize) < heap.static_count(c),
            None => false,
        }
    }

    fn operand_field_entry(&self) -> (r: Option<(u32, u16, crate::value::ValueType)>)
        requires
            self@.wf(),
            self@.operands(2),
        ensures
            r == operand_field(self@),
    {
        let hi = self.code_at(self.pc() as usize);
        let lo = self.code_at(self.pc() as usize + 1);
        let idx = (hi as usize) * 256 + (lo as usize);
        if idx < self.cp_len() {
            match self.constant(idx) {
                crate::method::Constant::FieldRef { class_id, slot, value_type } => Some((*class_id, *slot, *value_type)),
                _ => None,
            }
        } else {
            None
        }
    }

    fn operand_class_entry(&self) -> (r: Option<u32>)
        requires
            self@.wf(),
            self@.operands(2),
        ensures
            r == operand_class(self@),
    {
        let hi = self.code_at(self.pc() as usize);
        let lo = self.code_at(self.pc() as usize + 1);
        let idx = (hi as usize) * 256 + (lo as usize);
        if idx < self.cp_len() {
            match self.constant(idx) {
                crate::method::Constant::Class { class_id } => Some(*class_id),
                _ => None,
            }
        } else {
            None
        }
    }

    fn operand_field_kind_ok(&self) -> (r: bool)
        requires
            self@.wf(),
            self@.operands(2),
        ensures
            r == operand_field(self@) is Some,
    {
        self.operand_field_entry().is_some()
    }

    fn operand_field_kind(&self) -> (r: Kind)
        requires
            self@.wf(),
            self@.operands(2),
        ensures
            r == field_type(self@).spec_kind(),
    {
        match self.operand_field_entry() {
            Some((_, _, t)) => t.kind(),
            None => Kind::Int,
        }
    }

    fn field_ready(&self, heap: &Heap, depth: usize) -> (r: bool)
        requires
            self@.wf(),
            self@.operands(2),
            depth < self@.stack.len(),
        ensures
            r == field_ok(self@, heap@, self@.top(depth as int)),
    {
        match self.operand_field_entry() {
            Some((_, slot, _)) => {
                let v = self.peek(depth);
                heap.is_valid(v) && match v {
                    crate::value::Value::Reference(o) => (slot as usize) < heap.field_count(o),
                    _ => true,
                }
            },
            None => false,
        }
    }

    fn class_ready(&self, heap: &Heap) -> (r: bool)
        requires
            self@.wf(),
            self@.operands(2),
        ensures
            r == (operand_class(self@) matches Some(c) && c < heap@.classes.len()),
    {
        match self.operand_class_entry() {
            Some(c) => (c as usize) < heap.class_count(),
            None => false,
        }
    }

    fn class_named(&self) -> (r: bool)
        requires
            self@.wf(),
            self@.operands(2),
        ensures
            r == operand_class(self@) is Some,
    {
        self.operand_class_entry().is_some()
    }

    #[verifier::rlimit(100)]
    #[verifier::rlimit(100)]
    #[verifier::rlimit(100)]
    fn exec_constants(&mut self, heap: &mut Heap, opcode: u8) -> (r: Result<Step, Fatal>)
        requires
            old(self)@.wf(),
            old(heap)@.wf(),
            0x00 <= opcode <= 0x14,
            0 <= old(self)@.op_pc < old(self)@.code.len(),
            opcode == old(self)@.code[old(self)@.op_pc],
        ensures
            final(self)@.wf(),
            final(heap)@.wf(),
            final(self)@.op_pc == old(self)@.op_pc,
            is_retired(opcode) ==> r == Err::<Step, Fatal>(Fatal::Deprecated { opcode, pc: old(self)@.op_pc as i32 }),
            !is_defined(opcode) ==> r == Err::<Step, Fatal>(Fatal::Undefined { opcode, pc: old(self)@.op_pc as i32 }),
            is_float_op(opcode) ==> r == Err::<Step, Fatal>(Fatal::Malformed { opcode, pc: old(self)@.op_pc as i32 })
                || (r == Ok::<Step, Fatal>(Step::FloatOp(opcode)) && final(self)@ == old(self)@ && old(self)@.can(float_pops(opcode), 1)),
            outcome(opcode, old(self)@, old(heap)@, r, final(self)@, final(heap)@),
    {
        let pc = self.op_pc();
        match opcode {
            0x00 => {
                if self.can0(0) {
                    self.nop();
                    Ok(self.after())
                } else {
                    Err(Fatal::Malformed { opcode, pc })
                }
            },
            0x01 => {
                if self.can0(1) {
                    self.aconst_null();
                    Ok(self.after())
                } else {
                    Err(Fatal::Malformed { opcode, pc })
                }
            },
            0x02 => {
                if self.can0(1) {
                    self.iconst_m1();
                    Ok(self.after())
                } else {
                    Err(Fatal::Malformed { opcode, pc })
                }
            },
            0x03 => {
                if self.can0(1) {
                    self.iconst_0();
                    Ok(self.after())
                } else {
                    Err(Fatal::Malformed { opcode, pc })
                }
            },
            0x04 => {
                if self.can0(1) {
                    self.iconst_1();
                    Ok(self.after())
                } else {
                    Err(Fatal::Malformed { opcode, pc })
                }
            },
            0x05 => {
                if self.can0(1) {
                    self.iconst_2();
                    Ok(self.after())
                } else {
                    Err(Fatal::Malformed { opcode, pc })
                }
            },
            0x06 => {
                if self.can0(1) {
                    self.iconst_3();
                    Ok(self.after())
                } else {
                    Err(Fatal::Malformed { opcode, pc })
                }
            },
            0x07 => {
                if self.can0(1) {
                    self.iconst_4();
                    Ok(self.after())
                } else {
                    Err(Fatal::Malformed { opcode, pc })
                }
            },
            0x08 => {
                if self.can0(1) {
                    self.iconst_5();
                    Ok(self.after())
                } else {
                    Err(Fatal::Malformed { opcode, pc })
                }
            },
            0x09 => {
                if self.can0(1) {
                    self.lconst_0();
                    Ok(self.after())
                } else {
                    Err(Fatal::Malformed { opcode, pc })
                }
            },
            0x0a => {
                if self.can0(1) {
                    self.lconst_1();
                    Ok(self.after())
                } else {
                    Err(Fatal::Malformed { opcode, pc })
                }
            },
            0x0b => {
                if self.can0(1) {
                    self.fconst_0();
                    Ok(self.after())
                } else {
                    Err(Fatal::Malformed { opcode, pc })
                }
            },
            0x0c => {
                if self.can0(1) {
                    self.fconst_1();
                    Ok(self.after())
                } else {
                    Err(Fatal::Malformed { opcode, pc })
                }
            },
            0x0d => {
                if self.can0(1) {
                    self.fconst_2();
                    Ok(self.after())
                } else {
                    Err(Fatal::Malformed { opcode, pc })
                }
            },
            0x0e => {
                if self.can0(1) {
                    self.dconst_0();
                    Ok(self.after())
                } else {
                    Err(Fatal::Malformed { opcode, pc })
                }
            },
            0x0f => {
                if self.can0(1) {
                    self.dconst_1();
                    Ok(self.after())
                } else {
                    Err(Fatal::Malformed { opcode, pc })
                }
            },
            0x10 => {
                if self.has_operands(1) && self.can0(1) {
                    self.bipush();
                    Ok(self.after())
                } else {
                    Err(Fatal::Malformed { opcode, pc })
                }
            },
            0x11 => {
                if self.has_operands(2) && self.can0(1) {
                    self.sipush();
                    Ok(self.after())
                } else {
                    Err(Fatal::Malformed { opcode, pc })
                }
            },
            0x12 => {
                if self.has_operands(1) && self.can0(1) {
                    if !self.ldc(heap) {
                        return Err(Fatal::Unsupported { opcode, pc });
                    }
                    Ok(self.after())
                } else {
                    Err(Fatal::Malformed { opcode, pc })
                }
            },
            0x13 => {
                if self.has_operands(2) && self.can0(1) {
                    if !self.ldc_w(heap) {
                        return Err(Fatal::Unsupported { opcode, pc });
                    }
                    Ok(self.after())
                } else {
                    Err(Fatal::Malformed { opcode, pc })
                }
            },
            0x14 => {
                if self.has_operands(2) && self.can0(1) {
                    if !self.ldc2_w(heap) {
                        return Err(Fatal::Unsupported { opcode, pc });
                    }
                    Ok(self.after())
                } else {
                    Err(Fatal::Malformed { opcode, pc })
                }
            },
            _ => Err(self.other_wise()),
        }
    }

    #[verifier::rlimit(100)]
    fn exec_loads(&mut self, heap: &mut Heap, opcode: u8) -> (r: Result<Step, Fatal>)
        requires
            old(self)@.wf(),
            old(heap)@.wf(),
            0x15 <= opcode <= 0x2d,
            0 <= old(self)@.op_pc < old(self)@.code.len(),
            opcode == old(self)@.code[old(self)@.op_pc],
        ensures
            final(self)@.wf(),
            final(heap)@.wf(),
            final(self)@.op_pc == old(self)@.op_pc,
            is_retired(opcode) ==> r == Err::<Step, Fatal>(Fatal::Deprecated { opcode, pc: old(self)@.op_pc as i32 }),
            !is_defined(opcode) ==> r == Err::<Step, Fatal>(Fatal::Undefined { opcode, pc: old(self)@.op_pc as i32 }),
            is_float_op(opcode) ==> r == Err::<Step, Fatal>(Fatal::Malformed { opcode, pc: old(self)@.op_pc as i32 })
                || (r == Ok::<Step, Fatal>(Step::FloatOp(opcode)) && final(self)@ == old(self)@ && old(self)@.can(float_pops(opcode), 1)),
            outcome(opcode, old(self)@, old(heap)@, r, final(self)@, final(heap)@),
    {
        let pc = self.op_pc();
        match opcode {
            0x15 => {
                if self.has_operands(1) && self.can0(1) && self.local_is(self.code_at(self.pc() as usize) as usize, Kind::Int) {
                    self.iload();
                    Ok(self.after())
                } else {
                    Err(Fatal::Malformed { opcode, pc })
                }
            },
            0x16 => {
                if self.has_operands(1) && self.can0(1) && self.local_is(self.code_at(self.pc() as usize) as usize, Kind::Long) {
                    self.lload();
                    Ok(self.after())
                } else {
                    Err(Fatal::Malformed { opcode, pc })
                }
            },
            0x17 => {
                if self.has_operands(1) && self.can0(1) && self.local_is(self.code_at(self.pc() as usize) as usize, Kind::Float) {
                    self.fload();
                    Ok(self.after())
                } else {
                    Err(Fatal::Malformed { opcode, pc })
                }
            },
            0x18 => {
                if self.has_operands(1) && self.can0(1) && self.local_is(self.code_at(self.pc() as usize) as usize, Kind::Double) {
                    self.dload();
                    Ok(self.after())
                } else {
                    Err(Fatal::Malformed { opcode, pc })
                }
            },
            0x19 => {
                if self.has_operands(1) && self.can0(1) && self.local_is(self.code_at(self.pc() as usize) as usize, Kind::Ref) {
                    self.aload();
                    Ok(self.after())
                } else {
                    Err(Fatal::Malformed { opcode, pc })
                }
            },
            0x1a => {
                if self.can0(1) && self.local_is(0, Kind::Int) {
                    self.iload_0();
                    Ok(self.after())
                } else {
                    Err(Fatal::Malformed { opcode, pc })
                }
            },
            0x1b => {
                if self.can0(1) && self.local_is(1, Kind::Int) {
                    self.iload_1();
                    Ok(self.after())
                } else {
                    Err(Fatal::Malformed { opcode, pc })
                }
            },
            0x1c => {
                if self.can0(1) && self.local_is(2, Kind::Int) {
                    self.iload_2();
                    Ok(self.after())
                } else {
                    Err(Fatal::Malformed { opcode, pc })
                }
            },
            0x1d => {
                if self.can0(1) && self.local_is(3, Kind::Int) {
                    self.iload_3();
                    Ok(self.after())
                } else {
                    Err(Fatal::Malformed { opcode, pc })
                }
            },
            0x1e => {
                if self.can0(1) && self.local_is(0, Kind::Long) {
                    self.lload_0();
                    Ok(self.after())
                } else {
                    Err(Fatal::Malformed { opcode, pc })
                }
            },
            0x1f => {
                if self.can0(1) && self.local_is(1, Kind::Long) {
                    self.lload_1();
                    Ok(self.after())
                } else {
                    Err(Fatal::Malformed { opcode, pc })
                }
            },
            0x20 => {
                if self.can0(1) && self.local_is(2, Kind::Long) {
                    self.lload_2();
                    Ok(self.after())
                } else {
                    Err(Fatal::Malformed { opcode, pc })
                }
            },
            0x21 => {
                if self.can0(1) && self.local_is(3, Kind::Long) {
                    self.lload_3();
                    Ok(self.after())
                } else {
                    Err(Fatal::Malformed { opcode, pc })
                }
            },
            0x22 => {
                if self.can0(1) && self.local_is(0, Kind::Float) {
                    self.fload_0();
                    Ok(self.after())
                } else {
                    Err(Fatal::Malformed { opcode, pc })
                }
            },
            0x23 => {
                if self.can0(1) && self.local_is(1, Kind::Float) {
                    self.fload_1();
                    Ok(self.after())
                } else {
                    Err(Fatal::Malformed { opcode, pc })
                }
            },
            0x24 => {
                if self.can0(1) && self.local_is(2, Kind::Float) {
                    self.fload_2();
                    Ok(self.after())
                } else {
                    Err(Fatal::Malformed { opcode, pc })
                }
            },
            0x25 => {
                if self.can0(1) && self.local_is(3, Kind::Float) {
                    self.fload_3();
                    Ok(self.after())
                } else {
                    Err(Fatal::Malformed { opcode, pc })
                }
            },
            0x26 => {
                if self.can0(1) && self.local_is(0, Kind::Double) {
                    self.dload_0();
                    Ok(self.after())
                } else {
                    Err(Fatal::Malformed { opcode, pc })
                }
            },
            0x27 => {
                if self.can0(1) && self.local_is(1, Kind::Double) {
                    self.dload_1();
                    Ok(self.after())
                } else {
                    Err(Fatal::Malformed { opcode, pc })
                }
            },
            0x28 => {
                if self.can0(1) && self.local_is(2, Kind::Double) {
                    self.dload_2();
                    Ok(self.after())
                } else {
                    Err(Fatal::Malformed { opcode, pc })
                }
            },
            0x29 => {
                if self.can0(1) && self.local_is(3, Kind::Double) {
                    self.dload_3();
                    Ok(self.after())
                } else {
                    Err(Fatal::Malformed { opcode, pc })
                }
            },
            0x2a => {
                if self.can0(1) && self.local_is(0, Kind::Ref) {
                    self.aload_0();
                    Ok(self.after())
                } else {
                    Err(Fatal::Malformed { opcode, pc })
                }
            },
            0x2b => {
                if self.can0(1) && self.local_is(1, Kind::Ref) {
                    self.aload_1();
                    Ok(self.after())
                } else {
                    Err(Fatal::Malformed { opcode, pc })
                }
            },
            0x2c => {
                if self.can0(1) && self.local_is(2, Kind::Ref) {
                    self.aload_2();
                    Ok(self.after())
                } else {
                    Err(Fatal::Malformed { opcode, pc })
                }
            },
            0x2d => {
                if self.can0(1) && self.local_is(3, Kind::Ref) {
                    self.aload_3();
                    Ok(self.after())
                } else {
                    Err(Fatal::Malformed { opcode, pc })
                }
            },
            _ => Err(self.other_wise()),
        }
    }

    #[verifier::rlimit(100)]
    fn exec_array_loads(&mut self, heap: &mut Heap, opcode: u8) -> (r: Result<Step, Fatal>)
        requires
            old(self)@.wf(),
            old(heap)@.wf(),
            0x2e <= opcode <= 0x35,
            0 <= old(self)@.op_pc < old(self)@.code.len(),
            opcode == old(self)@.code[old(self)@.op_pc],
        ensures
            final(self)@.wf(),
            final(heap)@.wf(),
            final(self)@.op_pc == old(self)@.op_pc,
            is_retired(opcode) ==> r == Err::<Step, Fatal>(Fatal::Deprecated { opcode, pc: old(self)@.op_pc as i32 }),
            !is_defined(opcode) ==> r == Err::<Step, Fatal>(Fatal::Undefined { opcode, pc: old(self)@.op_pc as i32 }),
            is_float_op(opcode) ==> r == Err::<Step, Fatal>(Fatal::Malformed { opcode, pc: old(self)@.op_pc as i32 })
                || (r == Ok::<Step, Fatal>(Step::FloatOp(opcode)) && final(self)@ == old(self)@ && old(self)@.can(float_pops(opcode), 1)),
            outcome(opcode, old(self)@, old(heap)@, r, final(self)@, final(heap)@),
    {
        let pc = self.op_pc();
        match opcode {
            0x2e => {
                if self.can2(Kind::ArrayRef, Kind::Int, 1) && heap.is_valid(self.peek(1)) {
                    self.iaload(heap);
                    Ok(self.after())
                } else {
                    Err(Fatal::Malformed { opcode, pc })
                }
            },
            0x2f => {
                if self.can2(Kind::ArrayRef, Kind::Int, 1) && heap.is_valid(self.peek(1)) {
                    self.laload(heap);
                    Ok(self.after())
                } else {
                    Err(Fatal::Malformed { opcode, pc })
                }
            },
            0x30 => {
                if self.can2(Kind::ArrayRef, Kind::Int, 1) && heap.is_valid(self.peek(1)) {
                    self.faload(heap);
                    Ok(self.after())
                } else {
                    Err(Fatal::Malformed { opcode, pc })
                }
            },
            0x31 => {
                if self.can2(Kind::ArrayRef, Kind::Int, 1) && heap.is_valid(self.peek(1)) {
                    self.daload(heap);
                    Ok(self.after())
                } else {
                    Err(Fatal::Malformed { opcode, pc })
                }
            },
            0x32 => {
                if self.can2(Kind::ArrayRef, Kind::Int, 1) && heap.is_valid(self.peek(1)) {
                    self.aaload(heap);
                    Ok(self.after())
                } else {
                    Err(Fatal::Malformed { opcode, pc })
                }
            },
            0x33 => {
                if self.can2(Kind::ArrayRef, Kind::Int, 1) && heap.is_valid(self.peek(1)) {
                    self.baload(heap);
                    Ok(self.after())
                } else {
                    Err(Fatal::Malformed { opcode, pc })
                }
            },
            0x34 => {
                if self.can2(Kind::ArrayRef, Kind::Int, 1) && heap.is_valid(self.peek(1)) {
                    self.caload(heap);
                    Ok(self.after())
                } else {
                    Err(Fatal::Malformed { opcode, pc })
                }
            },
            0x35 => {
                if self.can2(Kind::ArrayRef, Kind::Int, 1) && heap.is_valid(self.peek(1)) {
                    self.saload(heap);
                    Ok(self.after())
                } else {
                    Err(Fatal::Malformed { opcode, pc })
                }
            },
            _ => Err(self.other_wise()),
        }
    }

    #[verifier::rlimit(100)]
    fn exec_stores(&mut self, heap: &mut Heap, opcode: u8) -> (r: Result<Step, Fatal>)
        requires
            old(self)@.wf(),
            old(heap)@.wf(),
            0x36 <= opcode <= 0x4e,
            0 <= old(self)@.op_pc < old(self)@.code.len(),
            opcode == old(self)@.code[old(self)@.op_pc],
        ensures
            final(self)@.wf(),
            final(heap)@.wf(),
            final(self)@.op_pc == old(self)@.op_pc,
            is_retired(opcode) ==> r == Err::<Step, Fatal>(Fatal::Deprecated { opcode, pc: old(self)@.op_pc as i32 }),
            !is_defined(opcode) ==> r == Err::<Step, Fatal>(Fatal::Undefined { opcode, pc: old(self)@.op_pc as i32 }),
            is_float_op(opcode) ==> r == Err::<Step, Fatal>(Fatal::Malformed { opcode, pc: old(self)@.op_pc as i32 })
                || (r == Ok::<Step, Fatal>(Step::FloatOp(opcode)) && final(self)@ == old(self)@ && old(self)@.can(float_pops(opcode), 1)),
            outcome(opcode, old(self)@, old(heap)@, r, final(self)@, final(heap)@),
    {
        let pc = self.op_pc();
        match opcode {
            0x36 => {
                if self.has_operands(1) && self.can1(Kind::Int, 0) && self.local_is(self.code_at(self.pc() as usize) as usize, Kind::Any) {
                    self.istore();
                    Ok(self.after())
                } else {
                    Err(Fatal::Malformed { opcode, pc })
                }
            },
            0x37 => {
                if self.has_operands(1) && self.can1(Kind::Long, 0) && self.local_is(self.code_at(self.pc() as usize) as usize, Kind::Any) {
                    self.lstore();
                    Ok(self.after())
                } else {
                    Err(Fatal::Malformed { opcode, pc })
                }
            },
            0x38 => {
                if self.has_operands(1) && self.can1(Kind::Float, 0) && self.local_is(self.code_at(self.pc() as usize) as usize, Kind::Any) {
                    self.fstore();
                    Ok(self.after())
                } else {
                    Err(Fatal::Malformed { opcode, pc })
                }
            },
            0x39 => {
                if self.has_operands(1) && self.can1(Kind::Double, 0) && self.local_is(self.code_at(self.pc() as usize) as usize, Kind::Any) {
                    self.dstore();
                    Ok(self.after())
                } else {
                    Err(Fatal::Malformed { opcode, pc })
                }
            },
            0x3a => {
                if self.has_operands(1) && self.can1(Kind::Ref, 0) && self.local_is(self.code_at(self.pc() as usize) as usize, Kind::Any) {
                    self.astore();
                    Ok(self.after())
                } else {
                    Err(Fatal::Malformed { opcode, pc })
                }
            },
            0x3b => {
                if self.can1(Kind::Int, 0) && self.local_is(0, Kind::Any) {
                    self.istore_0();
                    Ok(self.after())
                } else {
                    Err(Fatal::Malformed { opcode, pc })
                }
            },
            0x3c => {
                if self.can1(Kind::Int, 0) && self.local_is(1, Kind::Any) {
                    self.istore_1();
                    Ok(self.after())
                } else {
                    Err(Fatal::Malformed { opcode, pc })
                }
            },
            0x3d => {
                if self.can1(Kind::Int, 0) && self.local_is(2, Kind::Any) {
                    self.istore_2();
                    Ok(self.after())
                } else {
                    Err(Fatal::Malformed { opcode, pc })
                }
            },
            0x3e => {
                if self.can1(Kind::Int, 0) && self.local_is(3, Kind::Any) {
                    self.istore_3();
                    Ok(self.after())
                } else {
                    Err(Fatal::Malformed { opcode, pc })
                }
            },
            0x3f => {
                if self.can1(Kind::Long, 0) && self.local_is(0, Kind::Any) {
                    self.lstore_0();
                    Ok(self.after())
                } else {
                    Err(Fatal::Malformed { opcode, pc })
                }
            },
            0x40 => {
                if self.can1(Kind::Long, 0) && self.local_is(1, Kind::Any) {
                    self.lstore_1();
                    Ok(self.after())
                } else {
                    Err(Fatal::Malformed { opcode, pc })
                }
            },
            0x41 => {
                if self.can1(Kind::Long, 0) && self.local_is(2, Kind::Any) {
                    self.lstore_2();
                    Ok(self.after())
                } else {
                    Err(Fatal::Malformed { opcode, pc })
                }
            },
            0x42 => {
                if self.can1(Kind::Long, 0) && self.local_is(3, Kind::Any) {
                    self.lstore_3();
                    Ok(self.after())
                } else {
                    Err(Fatal::Malformed { opcode, pc })
                }
            },
            0x43 => {
                if self.can1(Kind::Float, 0) && self.local_is(0, Kind::Any) {
                    self.fstore_0();
                    Ok(self.after())
                } else {
                    Err(Fatal::Malformed { opcode, pc })
                }
            },
            0x44 => {
                if self.can1(Kind::Float, 0) && self.local_is(1, Kind::Any) {
                    self.fstore_1();
                    Ok(self.after())
                } else {
                    Err(Fatal::Malformed { opcode, pc })
                }
            },
            0x45 => {
                if self.can1(Kind::Float, 0) && self.local_is(2, Kind::Any) {
                    self.fstore_2();
                    Ok(self.after())
                } else {
                    Err(Fatal::Malformed { opcode, pc })
                }
            },
            0x46 => {
                if self.can1(Kind::Float, 0) && self.local_is(3, Kind::Any) {
                    self.fstore_3();
                    Ok(self.after())
                } else {
                    Err(Fatal::Malformed { opcode, pc })
                }
            },
            0x47 => {
                if self.can1(Kind::Double, 0) && self.local_is(0, Kind::Any) {
                    self.dstore_0();
                    Ok(self.after())
                } else {
                    Err(Fatal::Malformed { opcode, pc })
                }
            },
            0x48 => {
                if self.can1(Kind::Double, 0) && self.local_is(1, Kind::Any) {
                    self.dstore_1();
                    Ok(self.after())
                } else {
                    Err(Fatal::Malformed { opcode, pc })
                }
            },
            0x49 => {
                if self.can1(Kind::Double, 0) && self.local_is(2, Kind::Any) {
                    self.dstore_2();
                    Ok(self.after())
                } else {
                    Err(Fatal::Malformed { opcode, pc })
                }
            },
            0x4a => {
                if self.can1(Kind::Double, 0) && self.local_is(3, Kind::Any) {
                    self.dstore_3();
                    Ok(self.after())
                } else {
                    Err(Fatal::Malformed { opcode, pc })
                }
            },
            0x4b => {
                if self.can1(Kind::Ref, 0) && self.local_is(0, Kind::Any) {
                    self.astore_0();
                    Ok(self.after())
                } else {
                    Err(Fatal::Malformed { opcode, pc })
                }
            },
            0x4c => {
                if self.can1(Kind::Ref, 0) && self.local_is(1, Kind::Any) {
                    self.astore_1();
                    Ok(self.after())
                } else {
                    Err(Fatal::Malformed { opcode, pc })
                }
            },
            0x4d => {
                if self.can1(Kind::Ref, 0) && self.local_is(2, Kind::Any) {
                    self.astore_2();
                    Ok(self.after())
                } else {
                    Err(Fatal::Malformed { opcode, pc })
                }
            },
            0x4e => {
                if self.can1(Kind::Ref, 0) && self.local_is(3, Kind::Any) {
                    self.astore_3();
                    Ok(self.after())
                } else {
                    Err(Fatal::Malformed { opcode, pc })
                }
            },
            _ => Err(self.other_wise()),
        }
    }

    #[verifier::rlimit(100)]
    fn exec_stack(&mut self, heap: &mut Heap, opcode: u8) -> (r: Result<Step, Fatal>)
        requires
            old(self)@.wf(),
            old(heap)@.wf(),
            0x4f <= opcode <= 0x5f,
            0 <= old(self)@.op_pc < old(self)@.code.len(),
            opcode == old(self)@.code[old(self)@.op_pc],
        ensures
            final(self)@.wf(),
            final(heap)@.wf(),
            final(self)@.op_pc == old(self)@.op_pc,
            is_retired(opcode) ==> r == Err::<Step, Fatal>(Fatal::Deprecated { opcode, pc: old(self)@.op_pc as i32 }),
            !is_defined(opcode) ==> r == Err::<Step, Fatal>(Fatal::Undefined { opcode, pc: old(self)@.op_pc as i32 }),
            is_float_op(opcode) ==> r == Err::<Step, Fatal>(Fatal::Malformed { opcode, pc: old(self)@.op_pc as i32 })
                || (r == Ok::<Step, Fatal>(Step::FloatOp(opcode)) && final(self)@ == old(self)@ && old(self)@.can(float_pops(opcode), 1)),
            outcome(opcode, old(self)@, old(heap)@, r, final(self)@, final(heap)@),
    {
        let pc = self.op_pc();
        match opcode {
            0x4f => {
                if self.can3(Kind::ArrayRef, Kind::Int, Kind::Int, 0) && heap.is_valid(self.peek(2)) {
                    self.iastore(heap);
                    Ok(self.after())
                } else {
                    Err(Fatal::Malformed { opcode, pc })
                }
            },
            0x50 => {
                if self.can3(Kind::ArrayRef, Kind::Int, Kind::Long, 0) && heap.is_valid(self.peek(2)) {
                    self.lastore(heap);
                    Ok(self.after())
                } else {
                    Err(Fatal::Malformed { opcode, pc })
                }
            },
            0x51 => {
                if self.can3(Kind::ArrayRef, Kind::Int, Kind::Float, 0) && heap.is_valid(self.peek(2)) {
                    self.fastore(heap);
                    Ok(self.after())
                } else {
                    Err(Fatal::Malformed { opcode, pc })
                }
            },
            0x52 => {
                if self.can3(Kind::ArrayRef, Kind::Int, Kind::Double, 0) && heap.is_valid(self.peek(2)) {
                    self.dastore(heap);
                    Ok(self.after())
                } else {
                    Err(Fatal::Malformed { opcode, pc })
                }
            },
            0x53 => {
                if self.can3(Kind::ArrayRef, Kind::Int, Kind::Ref, 0) && heap.is_valid(self.peek(2)) {
                    self.aastore(heap);
                    Ok(self.after())
                } else {
                    Err(Fatal::Malformed { opcode, pc })
                }
            },
            0x54 => {
                if self.can3(Kind::ArrayRef, Kind::Int, Kind::Int, 0) && heap.is_valid(self.peek(2)) {
                    self.bastore(heap);
                    Ok(self.after())
                } else {
                    Err(Fatal::Malformed { opcode, pc })
                }
            },
            0x55 => {
                if self.can3(Kind::ArrayRef, Kind::Int, Kind::Int, 0) && heap.is_valid(self.peek(2)) {
                    self.castore(heap);
                    Ok(self.after())
                } else {
                    Err(Fatal::Malformed { opcode, pc })
                }
            },
            0x56 => {
                if self.can3(Kind::ArrayRef, Kind::Int, Kind::Int, 0) && heap.is_valid(self.peek(2)) {
                    self.sastore(heap);
                    Ok(self.after())
                } else {
                    Err(Fatal::Malformed { opcode, pc })
                }
            },
            0x57 => {
                if self.can1(Kind::Any, 0) {
                    self.pop();
                    Ok(self.after())
                } else {
                    Err(Fatal::Malformed { opcode, pc })
                }
            },
            0x58 => {
                if self.can2(Kind::Any, Kind::Any, 0) {
                    self.pop2();
                    Ok(self.after())
                } else {
                    Err(Fatal::Malformed { opcode, pc })
                }
            },
            0x59 => {
                if self.can1(Kind::Any, 2) {
                    self.dup();
                    Ok(self.after())
                } else {
                    Err(Fatal::Malformed { opcode, pc })
                }
            },
            0x5a => {
                if self.can2(Kind::Any, Kind::Any, 3) {
                    self.dup_x1();
                    Ok(self.after())
                } else {
                    Err(Fatal::Malformed { opcode, pc })
                }
            },
            0x5b => {
                if self.can3(Kind::Any, Kind::Any, Kind::Any, 4) {
                    self.dup_x2();
                    Ok(self.after())
                } else {
                    Err(Fatal::Malformed { opcode, pc })
                }
            },
            0x5c => {
                if self.can2(Kind::Any, Kind::Any, 4) {
                    self.dup2();
                    Ok(self.after())
                } else {
                    Err(Fatal::Malformed { opcode, pc })
                }
            },
            0x5d => {
                if self.can3(Kind::Any, Kind::Any, Kind::Any, 5) {
                    self.dup2_x1();
                    Ok(self.after())
                } else {
                    Err(Fatal::Malformed { opcode, pc })
                }
            },
            0x5e => {
                if self.can4(Kind::Any, Kind::Any, Kind::Any, Kind::Any, 6) {
                    self.dup2_x2();
                    Ok(self.after())
                } else {
                    Err(Fatal::Malformed { opcode, pc })
                }
            },
            0x5f => {
                if self.can2(Kind::Any, Kind::Any, 2) {
                    self.swap();
                    Ok(self.after())
                } else {
                    Err(Fatal::Malformed { opcode, pc })
                }
            },
            _ => Err(self.other_wise()),
        }
    }

    #[verifier::rlimit(100)]
    fn exec_arith(&mut self, heap: &mut Heap, opcode: u8) -> (r: Result<Step, Fatal>)
        requires
            old(self)@.wf(),
            old(heap)@.wf(),
            0x60 <= opcode <= 0x73,
            0 <= old(self)@.op_pc < old(self)@.code.len(),
            opcode == old(self)@.code[old(self)@.op_pc],
        ensures
            final(self)@.wf(),
            final(heap)@.wf(),
            final(self)@.op_pc == old(self)@.op_pc,
            is_retired(opcode) ==> r == Err::<Step, Fatal>(Fatal::Deprecated { opcode, pc: old(self)@.op_pc as i32 }),
            !is_defined(opcode) ==> r == Err::<Step, Fatal>(Fatal::Undefined { opcode, pc: old(self)@.op_pc as i32 }),
            is_float_op(opcode) ==> r == Err::<Step, Fatal>(Fatal::Malformed { opcode, pc: old(self)@.op_pc as i32 })
                || (r == Ok::<Step, Fatal>(Step::FloatOp(opcode)) && final(self)@ == old(self)@ && old(self)@.can(float_pops(opcode), 1)),
            outcome(opcode, old(self)@, old(heap)@, r, final(self)@, final(heap)@),
    {
        let pc = self.op_pc();
        match opcode {
            0x60 => {
                if self.can2(Kind::Int, Kind::Int, 1) {
                    self.iadd();
                    Ok(self.after())
                } else {
                    Err(Fatal::Malformed { opcode, pc })
                }
            },
            0x61 => {
                if self.can2(Kind::Long, Kind::Long, 1) {
                    self.ladd();
                    Ok(self.after())
                } else {
                    Err(Fatal::Malformed { opcode, pc })
                }
            },
            0x62 => {
                if self.can2(Kind::Float, Kind::Float, 1) {
                    Ok(Step::FloatOp(opcode))
                } else {
                    Err(Fatal::Malformed { opcode, pc })
                }
            },
            0x63 => {
                if self.can2(Kind::Double, Kind::Double, 1) {
                    Ok(Step::FloatOp(opcode))
                } else {
                    Err(Fatal::Malformed { opcode, pc })
                }
            },
            0x64 => {
                if self.can2(Kind::Int, Kind::Int, 1) {
                    self.isub();
                    Ok(self.after())
                } else {
                    Err(Fatal::Malformed { opcode, pc })
                }
            },
            0x65 => {
                if self.can2(Kind::Long, Kind::Long, 1) {
                    self.lsub();
                    Ok(self.after())
                } else {
                    Err(Fatal::Malformed { opcode, pc })
                }
            },
            0x66 => {
                if self.can2(Kind::Float, Kind::Float, 1) {
                    Ok(Step::FloatOp(opcode))
                } else {
                    Err(Fatal::Malformed { opcode, pc })
                }
            },
            0x67 => {
                if self.can2(Kind::Double, Kind::Double, 1) {
                    Ok(Step::FloatOp(opcode))
                } else {
                    Err(Fatal::Malformed { opcode, pc })
                }
            },
            0x68 => {
                if self.can2(Kind::Int, Kind::Int, 1) {
                    self.imul();
                    Ok(self.after())
                } else {
                    Err(Fatal::Malformed { opcode, pc })
                }
            },
            0x69 => {
                if self.can2(Kind::Long, Kind::Long, 1) {
                    self.lmul();
                    Ok(self.after())
                } else {
                    Err(Fatal::Malformed { opcode, pc })
                }
            },
            0x6a => {
                if self.can2(Kind::Float, Kind::Float, 1) {
                    Ok(Step::FloatOp(opcode))
                } else {
                    Err(Fatal::Malformed { opcode, pc })
                }
            },
            0x6b => {
                if self.can2(Kind::Double, Kind::Double, 1) {
                    Ok(Step::FloatOp(opcode))
                } else {
                    Err(Fatal::Malformed { opcode, pc })
                }
            },
            0x6c => {
                if self.can2(Kind::Int, Kind::Int, 1) {
                    self.idiv(heap);
                    Ok(self.after())
                } else {
                    Err(Fatal::Malformed { opcode, pc })
                }
            },
            0x6d => {
                if self.can2(Kind::Long, Kind::Long, 1) {
                    self.ldiv(heap);
                    Ok(self.after())
                } else {
                    Err(Fatal::Malformed { opcode, pc })
                }
            },
            0x6e => {
                if self.can2(Kind::Float, Kind::Float, 1) {
                    Ok(Step::FloatOp(opcode))
                } else {
                    Err(Fatal::Malformed { opcode, pc })
                }
            },
            0x6f => {
                if self.can2(Kind::Double, Kind::Double, 1) {
                    Ok(Step::FloatOp(opcode))
                } else {
                    Err(Fatal::Malformed { opcode, pc })
                }
            },
            0x70 => {
                if self.can2(Kind::Int, Kind::Int, 1) {
                    self.irem(heap);
                    Ok(self.after())
                } else {
                    Err(Fatal::Malformed { opcode, pc })
                }
            },
            0x71 => {
                if self.can2(Kind::Long, Kind::Long, 1) {
                    self.lrem(heap);
                    Ok(self.after())
                } else {
                    Err(Fatal::Malformed { opcode, pc })
                }
            },
            0x72 => {
                Err(self.frem())
            },
            0x73 => {
                Err(self.drem())
            },
            _ => Err(self.other_wise()),
        }
    }

    #[verifier::rlimit(100)]
    fn exec_bits(&mut self, heap: &mut Heap, opcode: u8) -> (r: Result<Step, Fatal>)
        requires
            old(self)@.wf(),
            old(heap)@.wf(),
            0x74 <= opcode <= 0x83,
            0 <= old(self)@.op_pc < old(self)@.code.len(),
            opcode == old(self)@.code[old(self)@.op_pc],
        ensures
            final(self)@.wf(),
            final(heap)@.wf(),
            final(self)@.op_pc == old(self)@.op_pc,
            is_retired(opcode) ==> r == Err::<Step, Fatal>(Fatal::Deprecated { opcode, pc: old(self)@.op_pc as i32 }),
            !is_defined(opcode) ==> r == Err::<Step, Fatal>(Fatal::Undefined { opcode, pc: old(self)@.op_pc as i32 }),
            is_float_op(opcode) ==> r == Err::<Step, Fatal>(Fatal::Malformed { opcode, pc: old(self)@.op_pc as i32 })
                || (r == Ok::<Step, Fatal>(Step::FloatOp(opcode)) && final(self)@ == old(self)@ && old(self)@.can(float_pops(opcode), 1)),
            outcome(opcode, old(self)@, old(heap)@, r, final(self)@, final(heap)@),
    {
        let pc = self.op_pc();
        match opcode {
            0x74 => {
                if self.can1(Kind::Int, 1) {
                    self.ineg();
                    Ok(self.after())
                } else {
                    Err(Fatal::Malformed { opcode, pc })
                }
            },
            0x75 => {
                if self.can1(Kind::Long, 1) {
                    self.lneg();
                    Ok(self.after())
                } else {
                    Err(Fatal::Malformed { opcode, pc })
                }
            },
            0x76 => {
                Err(self.fneg())
            },
            0x77 => {
                Err(self.dneg())
            },
            0x78 => {
                if self.can2(Kind::Int, Kind::Int, 1) {
                    self.ishl();
                    Ok(self.after())
                } else {
                    Err(Fatal::Malformed { opcode, pc })
                }
            },
            0x79 => {
                if self.can2(Kind::Long, Kind::Int, 1) {
                    self.lshl();
                    Ok(self.after())
                } else {
                    Err(Fatal::Malformed { opcode, pc })
                }
            },
            0x7a => {
                if self.can2(Kind::Int, Kind::Int, 1) {
                    self.ishr();
                    Ok(self.after())
                } else {
                    Err(Fatal::Malformed { opcode, pc })
                }
            },
            0x7b => {
                if self.can2(Kind::Long, Kind::Int, 1) {
                    self.lshr();
                    Ok(self.after())
                } else {
                    Err(Fatal::Malformed { opcode, pc })
                }
            },
            0x7c => {
                if self.can2(Kind::Int, Kind::Int, 1) {
                    self.iushr();
                    Ok(self.after())
                } else {
                    Err(Fatal::Malformed { opcode, pc })
                }
            },
            0x7d => {
                if self.can2(Kind::Long, Kind::Int, 1) {
                    self.lushr();
                    Ok(self.after())
                } else {
                    Err(Fatal::Malformed { opcode, pc })
                }
            },
            0x7e => {
                if self.can2(Kind::Int, Kind::Int, 1) {
                    self.iand();
                    Ok(self.after())
                } else {
                    Err(Fatal::Malformed { opcode, pc })
                }
            },
            0x7f => {
                if self.can2(Kind::Long, Kind::Long, 1) {
                    self.land();
                    Ok(self.after())
                } else {
                    Err(Fatal::Malformed { opcode, pc })
                }
            },
            0x80 => {
                if self.can2(Kind::Int, Kind::Int, 1) {
                    self.ior();
                    Ok(self.after())
                } else {
                    Err(Fatal::Malformed { opcode, pc })
                }
            },
            0x81 => {
                if self.can2(Kind::Long, Kind::Long, 1) {
                    self.lor();
                    Ok(self.after())
                } else {
                    Err(Fatal::Malformed { opcode, pc })
                }
            },
            0x82 => {
                if self.can2(Kind::Int, Kind::Int, 1) {
                    self.ixor();
                    Ok(self.after())
                } else {
                    Err(Fatal::Malformed { opcode, pc })
                }
            },
            0x83 => {
                if self.can2(Kind::Long, Kind::Long, 1) {
                    self.lxor();
                    Ok(self.after())
                } else {
                    Err(Fatal::Malformed { opcode, pc })
                }
            },
            _ => Err(self.other_wise()),
        }
    }

    #[verifier::rlimit(100)]
    fn exec_convert(&mut self, heap: &mut Heap, opcode: u8) -> (r: Result<Step, Fatal>)
        requires
            old(self)@.wf(),
            old(heap)@.wf(),
            0x84 <= opcode <= 0x98,
            0 <= old(self)@.op_pc < old(self)@.code.len(),
            opcode == old(self)@.code[old(self)@.op_pc],
        ensures
            final(self)@.wf(),
            final(heap)@.wf(),
            final(self)@.op_pc == old(self)@.op_pc,
            is_retired(opcode) ==> r == Err::<Step, Fatal>(Fatal::Deprecated { opcode, pc: old(self)@.op_pc as i32 }),
            !is_defined(opcode) ==> r == Err::<Step, Fatal>(Fatal::Undefined { opcode, pc: old(self)@.op_pc as i32 }),
            is_float_op(opcode) ==> r == Err::<Step, Fatal>(Fatal::Malformed { opcode, pc: old(self)@.op_pc as i32 })
                || (r == Ok::<Step, Fatal>(Step::FloatOp(opcode)) && final(self)@ == old(self)@ && old(self)@.can(float_pops(opcode), 1)),
            outcome(opcode, old(self)@, old(heap)@, r, final(self)@, final(heap)@),
    {
        let pc = self.op_pc();
        match opcode {
            0x84 => {
                if self.has_operands(2) && self.can0(0) && self.local_is(self.code_at(self.pc() as usize) as usize, Kind::Int) {
                    self.iinc();
                    Ok(self.after())
                } else {
                    Err(Fatal::Malformed { opcode, pc })
                }
            },
            0x85 => {
                if self.can1(Kind::Int, 1) {
                    self.i2l();
                    Ok(self.after())
                } else {
                    Err(Fatal::Malformed { opcode, pc })
                }
            },
            0x86 => {
                if self.can1(Kind::Int, 1) {
                    Ok(Step::FloatOp(opcode))
                } else {
                    Err(Fatal::Malformed { opcode, pc })
                }
            },
            0x87 => {
                if self.can1(Kind::Int, 1) {
                    Ok(Step::FloatOp(opcode))
                } else {
                    Err(Fatal::Malformed { opcode, pc })
                }
            },
            0x88 => {
                if self.can1(Kind::Long, 1) {
                    self.l2i();
                    Ok(self.after())
                } else {
                    Err(Fatal::Malformed { opcode, pc })
                }
            },
            0x89 => {
                if self.can1(Kind::Long, 1) {
                    Ok(Step::FloatOp(opcode))
                } else {
                    Err(Fatal::Malformed { opcode, pc })
                }
            },
            0x8a => {
                if self.can1(Kind::Long, 1) {
                    Ok(Step::FloatOp(opcode))
                } else {
                    Err(Fatal::Malformed { opcode, pc })
                }
            },
            0x8b => {
                if self.can1(Kind::Float, 1) {
                    self.f2i();
                    Ok(self.after())
                } else {
                    Err(Fatal::Malformed { opcode, pc })
                }
            },
            0x8c => {
                if self.can1(Kind::Float, 1) {
                    self.f2l();
                    Ok(self.after())
                } else {
                    Err(Fatal::Malformed { opcode, pc })
                }
            },
            0x8d => {
                if self.can1(Kind::Float, 1) {
                    Ok(Step::FloatOp(opcode))
                } else {
                    Err(Fatal::Malformed { opcode, pc })
                }
            },
            0x8e => {
                if self.can1(Kind::Double, 1) {
                    self.d2i();
                    Ok(self.after())
                } else {
                    Err(Fatal::Malformed { opcode, pc })
                }
            },
            0x8f => {
                if self.can1(Kind::Double, 1) {
                    self.d2l();
                    Ok(self.after())
                } else {
                    Err(Fatal::Malformed { opcode, pc })
                }
            },
            0x90 => {
                if self.can1(Kind::Double, 1) {
                    Ok(Step::FloatOp(opcode))
                } else {
                    Err(Fatal::Malformed { opcode, pc })
                }
            },
            0x91 => {
                if self.can1(Kind::Int, 1) {
                    self.i2b();
                    Ok(self.after())
                } else {
                    Err(Fatal::Malformed { opcode, pc })
                }
            },
            0x92 => {
                if self.can1(Kind::Int, 1) {
                    self.i2c();
                    Ok(self.after())
                } else {
                    Err(Fatal::Malformed { opcode, pc })
                }
            },
            0x93 => {
                if self.can1(Kind::Int, 1) {
                    self.i2s();
                    Ok(self.after())
                } else {
                    Err(Fatal::Malformed { opcode, pc })
                }
            },
            0x94 => {
                if self.can2(Kind::Long, Kind::Long, 1) {
                    self.lcmp();
                    Ok(self.after())
                } else {
                    Err(Fatal::Malformed { opcode, pc })
                }
            },
            0x95 => {
                if self.can2(Kind::Float, Kind::Float, 1) {
                    self.fcmpl();
                    Ok(self.after())
                } else {
                    Err(Fatal::Malformed { opcode, pc })
                }
            },
            0x96 => {
                if self.can2(Kind::Float, Kind::Float, 1) {
                    self.fcmpg();
                    Ok(self.after())
                } else {
                    Err(Fatal::Malformed { opcode, pc })
                }
            },
            0x97 => {
                if self.can2(Kind::Double, Kind::Double, 1) {
                    self.dcmpl();
                    Ok(self.after())
                } else {
                    Err(Fatal::Malformed { opcode, pc })
                }
            },
            0x98 => {
                if self.can2(Kind::Double, Kind::Double, 1) {
                    self.dcmpg();
                    Ok(self.after())
                } else {
                    Err(Fatal::Malformed { opcode, pc })
                }
            },
            _ => Err(self.other_wise()),
        }
    }

    #[verifier::rlimit(100)]
    fn exec_branch(&mut self, heap: &mut Heap, opcode: u8) -> (r: Result<Step, Fatal>)
        requires
            old(self)@.wf(),
            old(heap)@.wf(),
            0x99 <= opcode <= 0xa6,
            0 <= old(self)@.op_pc < old(self)@.code.len(),
            opcode == old(self)@.code[old(self)@.op_pc],
        ensures
            final(self)@.wf(),
            final(heap)@.wf(),
            final(self)@.op_pc == old(self)@.op_pc,
            is_retired(opcode) ==> r == Err::<Step, Fatal>(Fatal::Deprecated { opcode, pc: old(self)@.op_pc as i32 }),
            !is_defined(opcode) ==> r == Err::<Step, Fatal>(Fatal::Undefined { opcode, pc: old(self)@.op_pc as i32 }),
            is_float_op(opcode) ==> r == Err::<Step, Fatal>(Fatal::Malformed { opcode, pc: old(self)@.op_pc as i32 })
                || (r == Ok::<Step, Fatal>(Step::FloatOp(opcode)) && final(self)@ == old(self)@ && old(self)@.can(float_pops(opcode), 1)),
            outcome(opcode, old(self)@, old(heap)@, r, final(self)@, final(heap)@),
    {
        let pc = self.op_pc();
        match opcode {
            0x99 => {
                if self.has_operands(2) && self.can1(Kind::Int, 0) {
                    self.ifeq();
                    Ok(self.after())
                } else {
                    Err(Fatal::Malformed { opcode, pc })
                }
            },
            0x9a => {
                if self.has_operands(2) && self.can1(Kind::Int, 0) {
                    self.ifne();
                    Ok(self.after())
                } else {
                    Err(Fatal::Malformed { opcode, pc })
                }
            },
            0x9b => {
                if self.has_operands(2) && self.can1(Kind::Int, 0) {
                    self.iflt();
                    Ok(self.after())
                } else {
                    Err(Fatal::Malformed { opcode, pc })
                }
            },
            0x9c => {
                if self.has_operands(2) && self.can1(Kind::Int, 0) {
                    self.ifge();
                    Ok(self.after())
                } else {
                    Err(Fatal::Malformed { opcode, pc })
                }
            },
            0x9d => {
                if self.has_operands(2) && self.can1(Kind::Int, 0) {
                    self.ifgt();
                    Ok(self.after())
                } else {
                    Err(Fatal::Malformed { opcode, pc })
                }
            },
            0x9e => {
                if self.has_operands(2) && self.can1(Kind::Int, 0) {
                    self.ifle();
                    Ok(self.after())
                } else {
                    Err(Fatal::Malformed { opcode, pc })
                }
            },
            0x9f => {
                if self.has_operands(2) && self.can2(Kind::Int, Kind::Int, 0) {
                    self.if_icmpeq();
                    Ok(self.after())
                } else {
                    Err(Fatal::Malformed { opcode, pc })
                }
            },
            0xa0 => {
                if self.has_operands(2) && self.can2(Kind::Int, Kind::Int, 0) {
                    self.if_icmpne();
                    Ok(self.after())
                } else {
                    Err(Fatal::Malformed { opcode, pc })
                }
            },
            0xa1 => {
                if self.has_operands(2) && self.can2(Kind::Int, Kind::Int, 0) {
                    self.if_icmplt();
                    Ok(self.after())
                } else {
                    Err(Fatal::Malformed { opcode, pc })
                }
            },
            0xa2 => {
                if self.has_operands(2) && self.can2(Kind::Int, Kind::Int, 0) {
                    self.if_icmpge();
                    Ok(self.after())
                } else {
                    Err(Fatal::Malformed { opcode, pc })
                }
            },
            0xa3 => {
                if self.has_operands(2) && self.can2(Kind::Int, Kind::Int, 0) {
                    self.if_icmpgt();
                    Ok(self.after())
                } else {
                    Err(Fatal::Malformed { opcode, pc })
                }
            },
            0xa4 => {
                if self.has_operands(2) && self.can2(Kind::Int, Kind::Int, 0) {
                    self.if_icmple();
                    Ok(self.after())
                } else {
                    Err(Fatal::Malformed { opcode, pc })
                }
            },
            0xa5 => {
                if self.has_operands(2) && self.can2(Kind::Ref, Kind::Ref, 0) {
                    self.if_acmpeq();
                    Ok(self.after())
                } else {
                    Err(Fatal::Malformed { opcode, pc })
                }
            },
            0xa6 => {
                if self.has_operands(2) && self.can2(Kind::Ref, Kind::Ref, 0) {
                    self.if_acmpne();
                    Ok(self.after())
                } else {
                    Err(Fatal::Malformed { opcode, pc })
                }
            },
            _ => Err(self.other_wise()),
        }
    }

    #[verifier::rlimit(100)]
    fn exec_jump(&mut self, heap: &mut Heap, opcode: u8) -> (r: Result<Step, Fatal>)
        requires
            old(self)@.wf(),
            old(heap)@.wf(),
            0xa7 <= opcode <= 0xb1,
            0 <= old(self)@.op_pc < old(self)@.code.len(),
            opcode == old(self)@.code[old(self)@.op_pc],
        ensures
            final(self)@.wf(),
            final(heap)@.wf(),
            final(self)@.op_pc == old(self)@.op_pc,
            is_retired(opcode) ==> r == Err::<Step, Fatal>(Fatal::Deprecated { opcode, pc: old(self)@.op_pc as i32 }),
            !is_defined(opcode) ==> r == Err::<Step, Fatal>(Fatal::Undefined { opcode, pc: old(self)@.op_pc as i32 }),
            is_float_op(opcode) ==> r == Err::<Step, Fatal>(Fatal::Malformed { opcode, pc: old(self)@.op_pc as i32 })
                || (r == Ok::<Step, Fatal>(Step::FloatOp(opcode)) && final(self)@ == old(self)@ && old(self)@.can(float_pops(opcode), 1)),
            outcome(opcode, old(self)@, old(heap)@, r, final(self)@, final(heap)@),
    {
        let pc = self.op_pc();
        match opcode {
            0xa7 => {
                if self.has_operands(2) && self.can0(0) {
                    self.goto();
                    Ok(self.after())
                } else {
                    Err(Fatal::Malformed { opcode, pc })
                }
            },
            0xa8 => {
                Err(self.jsr())
            },
            0xa9 => {
                Err(self.ret())
            },
            0xaa => {
                if self.can1(Kind::Int, 0) {
                    if !self.table_switch() {
                        return Err(Fatal::Malformed { opcode, pc });
                    }
                    Ok(self.after())
                } else {
                    Err(Fatal::Malformed { opcode, pc })
                }
            },
            0xab => {
                if self.can1(Kind::Int, 0) {
                    if !self.lookup_switch() {
                        return Err(Fatal::Malformed { opcode, pc });
                    }
                    Ok(self.after())
                } else {
                    Err(Fatal::Malformed { opcode, pc })
                }
            },
            0xac => {
                if self.can1(Kind::Int, 0) {
                    self.ireturn();
                    Ok(self.after())
                } else {
                    Err(Fatal::Malformed { opcode, pc })
                }
            },
            0xad => {
                if self.can1(Kind::Long, 0) {
                    self.lreturn();
                    Ok(self.after())
                } else {
                    Err(Fatal::Malformed { opcode, pc })
                }
            },
            0xae => {
                if self.can1(Kind::Float, 0) {
                    self.freturn();
                    Ok(self.after())
                } else {
                    Err(Fatal::Malformed { opcode, pc })
                }
            },
            0xaf => {
                if self.can1(Kind::Double, 0) {
                    self.dreturn();
                    Ok(self.after())
                } else {
                    Err(Fatal::Malformed { opcode, pc })
                }
            },
            0xb0 => {
                if self.can1(Kind::Ref, 0) {
                    self.areturn();
                    Ok(self.after())
                } else {
                    Err(Fatal::Malformed { opcode, pc })
                }
            },
            0xb1 => {
                if self.can0(0) {
                    self.return_();
                    Ok(self.after())
                } else {
                    Err(Fatal::Malformed { opcode, pc })
                }
            },
            _ => Err(self.other_wise()),
        }
    }

    #[verifier::rlimit(100)]
    fn exec_fields(&mut self, heap: &mut Heap, opcode: u8) -> (r: Result<Step, Fatal>)
        requires
            old(self)@.wf(),
            old(heap)@.wf(),
            0xb2 <= opcode <= 0xba,
            0 <= old(self)@.op_pc < old(self)@.code.len(),
            opcode == old(self)@.code[old(self)@.op_pc],
        ensures
            final(self)@.wf(),
            final(heap)@.wf(),
            final(self)@.op_pc == old(self)@.op_pc,
            is_retired(opcode) ==> r == Err::<Step, Fatal>(Fatal::Deprecated { opcode, pc: old(self)@.op_pc as i32 }),
            !is_defined(opcode) ==> r == Err::<Step, Fatal>(Fatal::Undefined { opcode, pc: old(self)@.op_pc as i32 }),
            is_float_op(opcode) ==> r == Err::<Step, Fatal>(Fatal::Malformed { opcode, pc: old(self)@.op_pc as i32 })
                || (r == Ok::<Step, Fatal>(Step::FloatOp(opcode)) && final(self)@ == old(self)@ && old(self)@.can(float_pops(opcode), 1)),
            outcome(opcode, old(self)@, old(heap)@, r, final(self)@, final(heap)@),
    {
        let pc = self.op_pc();
        match opcode {
            0xb2 => {
                if self.has_operands(2) && self.can0(1) && self.static_ready(heap) {
                    self.get_static(&*heap);
                    Ok(self.after())
                } else {
                    Err(Fatal::Malformed { opcode, pc })
                }
            },
            0xb3 => {
                if self.has_operands(2) && self.static_ready(heap) && self.can1(self.operand_field_kind(), 0) {
                    self.put_static(heap);
                    Ok(self.after())
                } else {
                    Err(Fatal::Malformed { opcode, pc })
                }
            },
            0xb4 => {
                if self.has_operands(2) && self.can1(Kind::ObjectRef, 1) && self.field_ready(heap, 0) {
                    self.get_field(heap);
                    Ok(self.after())
                } else {
                    Err(Fatal::Malformed { opcode, pc })
                }
            },
            0xb5 => {
                if self.has_operands(2) && self.operand_field_kind_ok() && self.can2(Kind::ObjectRef, self.operand_field_kind(), 0) && self.field_ready(heap, 1) {
                    self.put_field(heap);
                    Ok(self.after())
                } else {
                    Err(Fatal::Malformed { opcode, pc })
                }
            },
            0xb6 => {
                if self.has_operands(2) && self.can0(0) {
                    self.invoke_virtual();
                    Ok(self.invoke_step())
                } else {
                    Err(Fatal::Malformed { opcode, pc })
                }
            },
            0xb7 => {
                if self.has_operands(2) && self.can0(0) {
                    self.invoke_special();
                    Ok(self.invoke_step())
                } else {
                    Err(Fatal::Malformed { opcode, pc })
                }
            },
            0xb8 => {
                if self.has_operands(2) && self.can0(0) {
                    self.invoke_static();
                    Ok(self.invoke_step())
                } else {
                    Err(Fatal::Malformed { opcode, pc })
                }
            },
            0xb9 => {
                if self.has_operands(4) && self.can0(0) {
                    self.invoke_interface();
                    Ok(self.invoke_step())
                } else {
                    Err(Fatal::Malformed { opcode, pc })
                }
            },
            0xba => {
                if self.has_operands(4) && self.can0(0) {
                    self.invoke_dynamic();
                    Ok(self.invoke_step())
                } else {
                    Err(Fatal::Malformed { opcode, pc })
                }
            },
            _ => Err(self.other_wise()),
        }
    }

    #[verifier::rlimit(100)]
    fn exec_object(&mut self, heap: &mut Heap, opcode: u8) -> (r: Result<Step, Fatal>)
        requires
            old(self)@.wf(),
            old(heap)@.wf(),
            0xbb <= opcode,
            0 <= old(self)@.op_pc < old(self)@.code.len(),
            opcode == old(self)@.code[old(self)@.op_pc],
        ensures
            final(self)@.wf(),
            final(heap)@.wf(),
            final(self)@.op_pc == old(self)@.op_pc,
            is_retired(opcode) ==> r == Err::<Step, Fatal>(Fatal::Deprecated { opcode, pc: old(self)@.op_pc as i32 }),
            !is_defined(opcode) ==> r == Err::<Step, Fatal>(Fatal::Undefined { opcode, pc: old(self)@.op_pc as i32 }),
            is_float_op(opcode) ==> r == Err::<Step, Fatal>(Fatal::Malformed { opcode, pc: old(self)@.op_pc as i32 })
                || (r == Ok::<Step, Fatal>(Step::FloatOp(opcode)) && final(self)@ == old(self)@ && old(self)@.can(float_pops(opcode), 1)),
            outcome(opcode, old(self)@, old(heap)@, r, final(self)@, final(heap)@),
    {
        let pc = self.op_pc();
        match opcode {
            0xbb => {
                if self.has_operands(2) && self.can0(1) && self.class_ready(heap) {
                    self.new_(heap);
                    Ok(self.after())
                } else {
                    Err(Fatal::Malformed { opcode, pc })
                }
            },
            0xbc => {
                if self.has_operands(1) && self.can1(Kind::Int, 1) && array_type(self.code_at(self.pc() as usize)).is_some() {
                    self.new_array(heap);
                    Ok(self.after())
                } else {
                    Err(Fatal::Malformed { opcode, pc })
                }
            },
            0xbd => {
                if self.has_operands(2) && self.can1(Kind::Int, 1) {
                    self.anew_array(heap);
                    Ok(self.after())
                } else {
                    Err(Fatal::Malformed { opcode, pc })
                }
            },
            0xbe => {
                if self.can1(Kind::ArrayRef, 1) && heap.is_valid(self.peek(0)) {
                    self.array_length(heap);
                    Ok(self.after())
                } else {
                    Err(Fatal::Malformed { opcode, pc })
                }
            },
            0xbf => {
                if self.can1(Kind::ObjectRef, 0) && heap.is_valid(self.peek(0)) {
                    self.athrow(heap);
                    Ok(self.after())
                } else {
                    Err(Fatal::Malformed { opcode, pc })
                }
            },
            0xc0 => {
                if self.has_operands(2) && self.can1(Kind::Ref, 1) && heap.is_valid(self.peek(0)) && self.class_named() {
                    self.check_cast(heap);
                    Ok(self.after())
                } else {
                    Err(Fatal::Malformed { opcode, pc })
                }
            },
            0xc1 => {
                if self.has_operands(2) && self.can1(Kind::Ref, 1) && heap.is_valid(self.peek(0)) && self.class_named() {
                    self.instance_of(&*heap);
                    Ok(self.after())
                } else {
                    Err(Fatal::Malformed { opcode, pc })
                }
            },
            0xc2 => {
                if self.can1(Kind::Ref, 0) && heap.is_valid(self.peek(0)) {
                    self.monitor_enter(heap);
                    Ok(self.after())
                } else {
                    Err(Fatal::Malformed { opcode, pc })
                }
            },
            0xc3 => {
                if self.can1(Kind::Ref, 0) && heap.is_valid(self.peek(0)) {
                    self.monitor_exit(heap);
                    Ok(self.after())
                } else {
                    Err(Fatal::Malformed { opcode, pc })
                }
            },
            0xc4 => {
                Err(self.wide())
            },
            0xc5 => {
                if self.multi_ready() {
                    self.multi_anew_array(heap);
                    Ok(self.after())
                } else {
                    Err(Fatal::Malformed { opcode, pc })
                }
            },
            0xc6 => {
                if self.has_operands(2) && self.can1(Kind::Ref, 0) {
                    self.if_null();
                    Ok(self.after())
                } else {
                    Err(Fatal::Malformed { opcode, pc })
                }
            },
            0xc7 => {
                if self.has_operands(2) && self.can1(Kind::Ref, 0) {
                    self.if_non_null();
                    Ok(self.after())
                } else {
                    Err(Fatal::Malformed { opcode, pc })
                }
            },
            0xc8 => {
                Err(self.goto_w())
            },
            0xc9 => {
                Err(self.jsr_w())
            },
            _ => Err(self.other_wise()),
        }
    }

    /// Executes the instruction at the program counter. A fault that the
    /// bytecode raises is dispatched inside the frame; what comes back is
    /// what the invoker has to do next, or why execution cannot go on.
    pub fn step(&mut self, heap: &mut Heap) -> (r: Result<Step, Fatal>)
        requires
            old(self)@.wf(),
            old(heap)@.wf(),
        ensures
            final(self)@.wf(),
            final(heap)@.wf(),
            !(0 <= old(self)@.pc < old(self)@.code.len()) ==> r == Err::<Step, Fatal>(Fatal::PcOutOfRange { pc: old(self)@.pc as i32 })
                && final(self)@ == old(self)@ && final(heap)@ == old(heap)@,
            0 <= old(self)@.pc < old(self)@.code.len() ==> ({
                let op = old(self)@.code[old(self)@.pc];
                let pc = old(self)@.pc as i32;
                let at = (FrameView { op_pc: old(self)@.pc, pc: old(self)@.pc + 1, ..old(self)@ });
                &&& final(self)@.op_pc == old(self)@.pc
                &&& outcome(op, at, old(heap)@, r, final(self)@, final(heap)@)
                &&& is_retired(op) ==> r == Err::<Step, Fatal>(Fatal::Deprecated { opcode: op, pc })
                &&& !is_defined(op) ==> r == Err::<Step, Fatal>(Fatal::Undefined { opcode: op, pc })
                &&& is_float_op(op) ==> r == Err::<Step, Fatal>(Fatal::Malformed { opcode: op, pc })
                    || (r == Ok::<Step, Fatal>(Step::FloatOp(op)) && final(self)@ == at && at.can(float_pops(op), 1))
            }),
    {
        let pc = self.pc();
        if pc < 0 || pc as usize >= self.code_len() {
            return Err(Fatal::PcOutOfRange { pc });
        }
        self.begin_instruction();
        let opcode = self.read_u1();
        if opcode <= 0x14 {
            self.exec_constants(heap, opcode)
        } else if opcode <= 0x2d {
            self.exec_loads(heap, opcode)
        } else if opcode <= 0x35 {
            self.exec_array_loads(heap, opcode)
        } else if opcode <= 0x4e {
            self.exec_stores(heap, opcode)
        } else if opcode <= 0x5f {
            self.exec_stack(heap, opcode)
        } else if opcode <= 0x73 {
            self.exec_arith(heap, opcode)
        } else if opcode <= 0x83 {
            self.exec_bits(heap, opcode)
        } else if opcode <= 0x98 {
            self.exec_convert(heap, opcode)
        } else if opcode <= 0xa6 {
            self.exec_branch(heap, opcode)
        } else if opcode <= 0xb1 {
            self.exec_jump(heap, opcode)
        } else if opcode <= 0xba {
            self.exec_fields(heap, opcode)
        } else {
            self.exec_object(heap, opcode)
        }
    }
}

} // verus!
