//! What a frame executes: the method (bytecode, stack and local sizes,
//! exception-handler table) and the constant pool of its declaring class.
use crate::heap::{is_subclass, ClassView, Heap};
use crate::value::ValueType;
use vstd::prelude::*;

verus! {

/// A constant-pool entry, with class and field references already resolved
/// to class ids and field slots.
pub enum Constant {
    Unused,
    Utf8(Vec<u8>),
    Integer(i32),
    /// A `float`, as its bit pattern.
    Float(u32),
    Long(i64),
    /// A `double`, as its bit pattern.
    Double(u64),
    Class { class_id: u32 },
    /// An array class: its number of dimensions and the type of the
    /// elements of its innermost dimension.
    ArrayClass { dimensions: u8, element: ValueType },
    String { string_index: u16 },
    /// A field of class `class_id`: its slot among the instance fields (or
    /// the static fields, for a static access) and its declared type.
    FieldRef { class_id: u32, slot: u16, value_type: ValueType },
    MethodRef { class_index: u16, name_and_type_index: u16 },
}

/// The declaring class of a method, as far as the frame needs it.
pub struct Class {
    pub id: u32,
    pub cp: Vec<Constant>,
}

/// One entry of a method's exception-handler table: the half-open code range
/// `[start_pc, end_pc)` it guards, where it jumps, and the class it catches
/// (`None` catches everything).
#[derive(Clone, Copy, PartialEq, Eq, Debug, Structural)]
pub struct Handler {
    pub start_pc: u16,
    pub end_pc: u16,
    pub handler_pc: u16,
    pub catch_class: Option<u32>,
}

/// A method body.
pub struct Method {
    pub code: Vec<u8>,
    pub max_stack: u16,
    pub max_locals: u16,
    pub handlers: Vec<Handler>,
}

/// Whether handler `h` takes an exception of class `exc_class` raised at `pc`.
pub open spec fn catches(h: Handler, pc: int, classes: Seq<ClassView>, exc_class: nat) -> bool {
    &&& h.start_pc <= pc < h.end_pc
    &&& match h.catch_class {
        None => true,
        Some(c) => is_subclass(classes, exc_class, c as nat),
    }
}

/// The index of the handler that takes the exception: the first in table
/// order that covers `pc` and whose catch class matches.
pub open spec fn first_handler(hs: Seq<Handler>, pc: int, classes: Seq<ClassView>, exc_class: nat) -> Option<int>
    decreases hs.len(),
{
    if hs.len() == 0 {
        None
    } else {
        match first_handler(hs.drop_last(), pc, classes, exc_class) {
            Some(i) => Some(i),
            None => if catches(hs.last(), pc, classes, exc_class) {
                Some(hs.len() - 1)
            } else {
                None
            },
        }
    }
}

/// Handler search is decided by table order alone: the entry chosen covers
/// the faulting offset and matches the exception's class, and no entry
/// before it does, however specific a later entry may be; when none is
/// chosen, no entry covers and matches.
pub proof fn lemma_first_handler_is_first(hs: Seq<Handler>, pc: int, classes: Seq<ClassView>, exc_class: nat)
    ensures
        match first_handler(hs, pc, classes, exc_class) {
            Some(i) => {
                &&& 0 <= i < hs.len()
                &&& catches(hs[i], pc, classes, exc_class)
                &&& forall|j: int| 0 <= j < i ==> !catches(#[trigger] hs[j], pc, classes, exc_class)
            },
            None => forall|j: int| 0 <= j < hs.len() ==> !catches(#[trigger] hs[j], pc, classes, exc_class),
        },
    decreases hs.len(),
{
    if hs.len() > 0 {
        lemma_first_handler_is_first(hs.drop_last(), pc, classes, exc_class);
        let p = hs.drop_last();
        assert(forall|j: int| 0 <= j < p.len() ==> #[trigger] p[j] == hs[j]);
        match first_handler(p, pc, classes, exc_class) {
            Some(i) => {
                assert forall|j: int| 0 <= j < i implies !catches(#[trigger] hs[j], pc, classes, exc_class) by {
                    assert(p[j] == hs[j]);
                }
            },
            None => {
                assert forall|j: int| 0 <= j < hs.len() - 1 implies !catches(#[trigger] hs[j], pc, classes, exc_class) by {
                    assert(p[j] == hs[j]);
                }
            },
        }
    }
}

/// Finds the handler that takes an exception of class `exc_class` raised at
/// `pc`, by table order.
pub fn find_handler(handlers: &Vec<Handler>, pc: i32, heap: &Heap, exc_class: u32) -> (r: Option<usize>)
    requires
        heap@.wf(),
    ensures
        r matches Some(i) ==> i < handlers@.len(),
        r matches Some(i) ==> first_handler(handlers@, pc as int, heap@.classes, exc_class as nat) == Some(i as int),
        r is None ==> first_handler(handlers@, pc as int, heap@.classes, exc_class as nat) is None,
{
    proof {
        lemma_first_handler_is_first(handlers@, pc as int, heap@.classes, exc_class as nat);
    }
    let mut i: usize = 0;
    while i < handlers.len()
        invariant
            i <= handlers@.len(),
            heap@.wf(),
            forall|j: int| 0 <= j < i ==> !catches(#[trigger] handlers@[j], pc as int, heap@.classes, exc_class as nat),
        decreases handlers@.len() - i,
    {
        let h = handlers[i];
        let covers = (h.start_pc as i32) <= pc && pc < (h.end_pc as i32);
        let matches_class = match h.catch_class {
            None => true,
            Some(c) => heap.is_subclass(exc_class, c),
        };
        if covers && matches_class {
            proof {
                let ghost hs = handlers@;
                let ghost cl = heap@.classes;
                lemma_first_handler_is_first(hs, pc as int, cl, exc_class as nat);
                assert(hs[i as int] == h);
                assert(catches(hs[i as int], pc as int, cl, exc_class as nat));
                match first_handler(hs, pc as int, cl, exc_class as nat) {
                    Some(k) => {
                        if k > i {
                            assert(!catches(hs[i as int], pc as int, cl, exc_class as nat));
                        }
                        if k < i {
                            assert(!catches(hs[k], pc as int, cl, exc_class as nat));
                        }
                    },
                    None => {
                        assert(!catches(hs[i as int], pc as int, cl, exc_class as nat));
                    },
                }
            }
            return Some(i);
        }
        assert(!catches(handlers@[i as int], pc as int, heap@.classes, exc_class as nat));
        i = i + 1;
    }
    None
}

} // verus!
