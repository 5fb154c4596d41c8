//! The object model that the frame reads and writes: instances, arrays and
//! the class table (superclass links, instance field layout, static storage).
use crate::value::{Kind, Value, ValueType};
use vstd::prelude::*;

verus! {

/// Class ids that every heap has from the start.
pub const OBJECT_CLASS: u32 = 0;
pub const STRING_CLASS: u32 = 1;
pub const THROWABLE_CLASS: u32 = 2;
pub const EXCEPTION_CLASS: u32 = 3;
pub const RUNTIME_EXCEPTION_CLASS: u32 = 4;
pub const NULL_POINTER_CLASS: u32 = 5;
pub const ARITHMETIC_CLASS: u32 = 6;
pub const INDEX_OUT_OF_BOUNDS_CLASS: u32 = 7;
pub const NEGATIVE_ARRAY_SIZE_CLASS: u32 = 8;
pub const CLASS_CAST_CLASS: u32 = 9;
pub const ILLEGAL_MONITOR_STATE_CLASS: u32 = 10;
pub const BUILTIN_CLASSES: u32 = 11;

/// An instance: its class, its instance fields, the text it carries (a
/// string's contents or an exception's message) and its monitor depth.
pub struct Object {
    pub class_id: u32,
    pub fields: Vec<Value>,
    pub text: Option<Vec<u8>>,
    pub locks: u32,
}

pub struct ObjectView {
    pub class_id: u32,
    pub fields: Seq<Value>,
    pub text: Option<Seq<u8>>,
    pub locks: u32,
}

impl View for Object {
    type V = ObjectView;

    open spec fn view(&self) -> ObjectView {
        ObjectView {
            class_id: self.class_id,
            fields: self.fields@,
            text: match self.text {
                Some(t) => Some(t@),
                None => None,
            },
            locks: self.locks,
        }
    }
}

/// An array: the type of its elements, the elements and its monitor depth.
pub struct ArrayObject {
    pub component: ValueType,
    pub elems: Vec<Value>,
    pub locks: u32,
}

pub struct ArrayView {
    pub component: ValueType,
    pub elems: Seq<Value>,
    pub locks: u32,
}

impl View for ArrayObject {
    type V = ArrayView;

    open spec fn view(&self) -> ArrayView {
        ArrayView { component: self.component, elems: self.elems@, locks: self.locks }
    }
}

/// A loaded class: its superclass, the types of its instance fields and its
/// static field storage.
pub struct ClassEntry {
    pub super_class: Option<u32>,
    pub field_types: Vec<ValueType>,
    pub statics: Vec<Value>,
}

pub struct ClassView {
    pub super_class: Option<u32>,
    pub field_types: Seq<ValueType>,
    pub statics: Seq<Value>,
}

impl View for ClassEntry {
    type V = ClassView;

    open spec fn view(&self) -> ClassView {
        ClassView {
            super_class: self.super_class,
            field_types: self.field_types@,
            statics: self.statics@,
        }
    }
}

#[verifier::ext_equal]
pub struct HeapView {
    pub objects: Seq<ObjectView>,
    pub arrays: Seq<ArrayView>,
    pub classes: Seq<ClassView>,
}

/// Whether class `c` is `target` or inherits from it. Superclass links always
/// point to a smaller id, which is what makes the walk finite.
pub open spec fn is_subclass(classes: Seq<ClassView>, c: nat, target: nat) -> bool
    decreases c,
{
    if c == target {
        true
    } else if c < classes.len() {
        match classes[c as int].super_class {
            Some(s) => if (s as nat) < c {
                is_subclass(classes, s as nat, target)
            } else {
                false
            },
            None => false,
        }
    } else {
        false
    }
}

impl HeapView {
    pub open spec fn wf(self) -> bool {
        &&& self.classes.len() >= BUILTIN_CLASSES
        &&& self.classes.len() <= u32::MAX
        &&& forall|c: int|
            0 <= c < self.classes.len() ==> match #[trigger] self.classes[c].super_class {
                Some(s) => s < c,
                None => true,
            }
        &&& forall|o: int|
            0 <= o < self.objects.len() ==> #[trigger] self.objects[o].class_id
                < self.classes.len()
        &&& forall|a: int| 0 <= a < self.arrays.len() ==> #[trigger] self.arrays[a].elems.len() <= i32::MAX
    }

    /// Whether a value names something that exists in this heap.
    pub open spec fn valid(self, v: Value) -> bool {
        match v {
            Value::Reference(o) => o < self.objects.len(),
            Value::Array(a) => a < self.arrays.len(),
            _ => true,
        }
    }

    /// The class of an object reference.
    pub open spec fn class_of(self, v: Value) -> nat {
        match v {
            Value::Reference(o) => self.objects[o as int].class_id as nat,
            _ => OBJECT_CLASS as nat,
        }
    }

    /// Whether a non-null value may be treated as an instance of class
    /// `target`: an object whose class inherits from it, or an array when the
    /// target is the root class.
    pub open spec fn instance_of(self, v: Value, target: nat) -> bool {
        match v {
            Value::Reference(o) => is_subclass(self.classes, self.objects[o as int].class_id as nat, target),
            Value::Array(_) => target == OBJECT_CLASS,
            _ => false,
        }
    }

    /// The heap after a new object is appended.
    pub open spec fn with_object(self, o: ObjectView) -> HeapView {
        HeapView { objects: self.objects.push(o), ..self }
    }

    /// The heap after a new array is appended.
    pub open spec fn with_array(self, a: ArrayView) -> HeapView {
        HeapView { arrays: self.arrays.push(a), ..self }
    }

    /// The elements of an array after one of them is replaced.
    pub open spec fn with_element(self, a: int, i: int, v: Value) -> HeapView {
        HeapView {
            arrays: self.arrays.update(a, ArrayView { elems: self.arrays[a].elems.update(i, v), ..self.arrays[a] }),
            ..self
        }
    }

    pub open spec fn with_field(self, o: int, i: int, v: Value) -> HeapView {
        HeapView {
            objects: self.objects.update(o, ObjectView { fields: self.objects[o].fields.update(i, v), ..self.objects[o] }),
            ..self
        }
    }

    pub open spec fn with_static(self, c: int, i: int, v: Value) -> HeapView {
        HeapView {
            classes: self.classes.update(c, ClassView { statics: self.classes[c].statics.update(i, v), ..self.classes[c] }),
            ..self
        }
    }

    /// The monitor depth of the object or array that `v` names.
    pub open spec fn locks_of(self, v: Value) -> u32 {
        match v {
            Value::Reference(o) => self.objects[o as int].locks,
            Value::Array(a) => self.arrays[a as int].locks,
            _ => 0,
        }
    }

    /// The heap with the monitor depth of what `v` names set to `n`.
    pub open spec fn with_locks(self, v: Value, n: u32) -> HeapView {
        match v {
            Value::Reference(o) => HeapView {
                objects: self.objects.update(o as int, ObjectView { locks: n, ..self.objects[o as int] }),
                ..self
            },
            Value::Array(a) => HeapView {
                arrays: self.arrays.update(a as int, ArrayView { locks: n, ..self.arrays[a as int] }),
                ..self
            },
            _ => self,
        }
    }
}


/// The heap and the array after allocating, from dimension `level` on, a
/// multi-dimensional array whose type has `depth` dimensions at that level:
/// one array of `counts[level]` elements. At the last counted dimension the
/// elements are defaults (of `element` when no dimension of the type remains
/// below, else null); above it each element is a fresh array for the next
/// dimension, and those are allocated in order before the array itself.
pub open spec fn build(h: HeapView, counts: Seq<i32>, level: nat, depth: nat, element: ValueType) -> (HeapView, Value)
    decreases counts.len() - level, 0nat,
{
    if level + 1 < counts.len() {
        let built = build_many(h, counts, level + 1, sub_depth(depth), element, counts[level as int] as nat);
        (
            built.0.with_array(ArrayView { component: ValueType::Array, elems: built.1, locks: 0 }),
            Value::Array(built.0.arrays.len() as usize),
        )
    } else {
        let component = if depth <= 1 { element } else { ValueType::Array };
        (
            h.with_array(ArrayView {
                component,
                elems: Seq::new(counts[level as int] as nat, |i: int| component.spec_default_value()),
                locks: 0,
            }),
            Value::Array(h.arrays.len() as usize),
        )
    }
}

/// `n` arrays for dimension `level`, allocated one after another.
pub open spec fn build_many(h: HeapView, counts: Seq<i32>, level: nat, depth: nat, element: ValueType, n: nat) -> (HeapView, Seq<Value>)
    decreases counts.len() - level, n,
{
    if n == 0 {
        (h, seq![])
    } else {
        let before = build_many(h, counts, level, depth, element, (n - 1) as nat);
        let one = build(before.0, counts, level, depth, element);
        (one.0, before.1.push(one.1))
    }
}

/// The number of dimensions one level down.
pub open spec fn sub_depth(depth: nat) -> nat {
    if depth > 0 { (depth - 1) as nat } else { 0 }
}

/// The default value of each type, in order.
pub open spec fn defaults(types: Seq<ValueType>) -> Seq<Value> {
    types.map_values(|t: ValueType| t.spec_default_value())
}

/// The superclass of each class that a heap starts with.
pub open spec fn builtin_super(c: nat) -> Option<u32> {
    if c == OBJECT_CLASS as nat {
        None
    } else if c == STRING_CLASS as nat || c == THROWABLE_CLASS as nat {
        Some(OBJECT_CLASS)
    } else if c == EXCEPTION_CLASS as nat {
        Some(THROWABLE_CLASS)
    } else if c == RUNTIME_EXCEPTION_CLASS as nat {
        Some(EXCEPTION_CLASS)
    } else {
        Some(RUNTIME_EXCEPTION_CLASS)
    }
}

fn default_values(types: &Vec<ValueType>) -> (r: Vec<Value>)
    ensures
        r@ == defaults(types@),
{
    let mut r: Vec<Value> = Vec::new();
    let mut i: usize = 0;
    while i < types.len()
        invariant
            i <= types@.len(),
            r@ == defaults(types@.subrange(0, i as int)),
        decreases types@.len() - i,
    {
        r.push(types[i].default_value());
        i = i + 1;
        assert(defaults(types@.subrange(0, i as int)) =~= defaults(types@.subrange(0, i - 1)).push(
            types@[i - 1].spec_default_value()));
    }
    assert(types@.subrange(0, types@.len() as int) =~= types@);
    r
}


/// All instances, arrays and classes that frames share.
pub struct Heap {
    objects: Vec<Object>,
    arrays: Vec<ArrayObject>,
    classes: Vec<ClassEntry>,
}

impl View for Heap {
    type V = HeapView;

    closed spec fn view(&self) -> HeapView {
        HeapView {
            objects: self.objects@.map_values(|o: Object| o@),
            arrays: self.arrays@.map_values(|a: ArrayObject| a@),
            classes: self.classes@.map_values(|c: ClassEntry| c@),
        }
    }
}

impl Heap {
    proof fn lemma_view_objects(&self)
        ensures
            self@.objects.len() == self.objects@.len(),
            forall|i: int| 0 <= i < self.objects@.len() ==> #[trigger] self@.objects[i] == self.objects@[i]@,
            self@.arrays.len() == self.arrays@.len(),
            forall|i: int| 0 <= i < self.arrays@.len() ==> #[trigger] self@.arrays[i] == self.arrays@[i]@,
            self@.classes.len() == self.classes@.len(),
            forall|i: int| 0 <= i < self.classes@.len() ==> #[trigger] self@.classes[i] == self.classes@[i]@,
    {
    }

    fn push_class(&mut self, super_class: Option<u32>)
        ensures
            final(self)@ == (HeapView {
                classes: old(self)@.classes.push(ClassView { super_class, field_types: seq![], statics: seq![] }),
                ..old(self)@
            }),
    {
        self.classes.push(ClassEntry { super_class, field_types: Vec::new(), statics: Vec::new() });
        assert(self@.classes =~= old(self)@.classes.push(ClassView { super_class, field_types: seq![], statics: seq![] }));
        assert(self@ =~= (HeapView {
                classes: old(self)@.classes.push(ClassView { super_class, field_types: seq![], statics: seq![] }),
                ..old(self)@
            }));
    }

    /// An empty heap whose class table holds the root class, the string class
    /// and the throwable classes that the frame raises.
    pub fn new() -> (h: Heap)
        ensures
            h@.wf(),
            h@.objects.len() == 0,
            h@.arrays.len() == 0,
            h@.classes.len() == BUILTIN_CLASSES,
            forall|c: int| 0 <= c < BUILTIN_CLASSES ==> #[trigger] h@.classes[c] == (ClassView {
                super_class: builtin_super(c as nat), field_types: seq![], statics: seq![] }),
    {
        let mut h = Heap { objects: Vec::new(), arrays: Vec::new(), classes: Vec::new() };
        assert(h@.objects =~= seq![]);
        assert(h@.arrays =~= seq![]);
        assert(h@.classes =~= seq![]);
        h.push_class(None);
        h.push_class(Some(OBJECT_CLASS));
        h.push_class(Some(OBJECT_CLASS));
        h.push_class(Some(THROWABLE_CLASS));
        h.push_class(Some(EXCEPTION_CLASS));
        let mut c: u32 = NULL_POINTER_CLASS;
        while c < BUILTIN_CLASSES
            invariant
                NULL_POINTER_CLASS <= c <= BUILTIN_CLASSES,
                h@.classes.len() == c,
                h@.objects.len() == 0,
                h@.arrays.len() == 0,
                forall|k: int| 0 <= k < c ==> #[trigger] h@.classes[k] == (ClassView {
                    super_class: builtin_super(k as nat), field_types: seq![], statics: seq![] }),
            decreases BUILTIN_CLASSES - c,
        {
            h.push_class(Some(RUNTIME_EXCEPTION_CLASS));
            c = c + 1;
        }
        h
    }

    /// Whether `v` names something that exists in this heap.
    pub fn is_valid(&self, v: Value) -> (r: bool)
        ensures
            r == self@.valid(v),
    {
        proof { self.lemma_view_objects(); }
        match v {
            Value::Reference(o) => o < self.objects.len(),
            Value::Array(a) => a < self.arrays.len(),
            _ => true,
        }
    }

    pub fn class_count(&self) -> (r: usize)
        ensures
            r == self@.classes.len(),
    {
        proof { self.lemma_view_objects(); }
        self.classes.len()
    }

    /// Adds a class under `super_class`; its static fields start at their
    /// types' default values. Returns the new class's id.
    pub fn add_class(&mut self, super_class: u32, field_types: Vec<ValueType>, static_types: Vec<ValueType>) -> (id: u32)
        requires
            old(self)@.wf(),
            super_class < old(self)@.classes.len(),
            old(self)@.classes.len() < u32::MAX,
        ensures
            final(self)@.wf(),
            id == old(self)@.classes.len(),
            final(self)@ == (HeapView {
                classes: old(self)@.classes.push(ClassView {
                    super_class: Some(super_class),
                    field_types: field_types@,
                    statics: defaults(static_types@),
                }),
                ..old(self)@
            }),
    {
        proof { self.lemma_view_objects(); }
        let id = self.classes.len() as u32;
        let statics = default_values(&static_types);
        let entry = ClassEntry { super_class: Some(super_class), field_types, statics };
        self.classes.push(entry);
        let ghost want = HeapView {
            classes: old(self)@.classes.push(entry@),
            ..old(self)@
        };
        assert(self@.classes =~= want.classes);
        assert(self@ =~= want);
        id
    }

    /// The class of an object, or the root class for anything else.
    pub fn class_of(&self, v: Value) -> (r: u32)
        requires
            self@.valid(v),
        ensures
            r == self@.class_of(v),
    {
        proof { self.lemma_view_objects(); }
        match v {
            Value::Reference(o) => self.objects[o].class_id,
            _ => OBJECT_CLASS,
        }
    }

    /// Whether class `c` is `target` or inherits from it.
    pub fn is_subclass(&self, c: u32, target: u32) -> (r: bool)
        requires
            self@.wf(),
        ensures
            r == is_subclass(self@.classes, c as nat, target as nat),
    {
        proof { self.lemma_view_objects(); }
        let mut cur = c;
        loop
            invariant
                self@.wf(),
                is_subclass(self@.classes, c as nat, target as nat) == is_subclass(self@.classes, cur as nat, target as nat),
            decreases cur,
        {
            if cur == target {
                return true;
            }
            if cur as usize >= self.classes.len() {
                return false;
            }
            match self.classes[cur as usize].super_class {
                Some(s) => {
                    if s < cur {
                        cur = s;
                    } else {
                        return false;
                    }
                },
                None => {
                    return false;
                },
            }
        }
    }

    /// Whether a value is an instance of class `target` (null never is).
    pub fn instance_of(&self, v: Value, target: u32) -> (r: bool)
        requires
            self@.wf(),
            self@.valid(v),
        ensures
            r == self@.instance_of(v, target as nat),
    {
        proof { self.lemma_view_objects(); }
        match v {
            Value::Reference(o) => self.is_subclass(self.objects[o].class_id, target),
            Value::Array(_) => target == OBJECT_CLASS,
            _ => false,
        }
    }

    /// Allocates an instance of `class_id` with every field at its default.
    pub fn new_object(&mut self, class_id: u32) -> (r: Value)
        requires
            old(self)@.wf(),
            class_id < old(self)@.classes.len(),
        ensures
            final(self)@.wf(),
            r == Value::Reference(old(self)@.objects.len() as usize),
            final(self)@ == old(self)@.with_object(ObjectView {
                class_id,
                fields: defaults(old(self)@.classes[class_id as int].field_types),
                text: None,
                locks: 0,
            }),
    {
        proof { self.lemma_view_objects(); }
        let fields = default_values(&self.classes[class_id as usize].field_types);
        self.allocate(Object { class_id, fields, text: None, locks: 0 })
    }

    /// Allocates an instance of `class_id` that carries `text`.
    pub fn new_with_text(&mut self, class_id: u32, text: Vec<u8>) -> (r: Value)
        requires
            old(self)@.wf(),
            class_id < old(self)@.classes.len(),
        ensures
            final(self)@.wf(),
            r == Value::Reference(old(self)@.objects.len() as usize),
            final(self)@ == old(self)@.with_object(ObjectView {
                class_id,
                fields: defaults(old(self)@.classes[class_id as int].field_types),
                text: Some(text@),
                locks: 0,
            }),
    {
        proof { self.lemma_view_objects(); }
        let fields = default_values(&self.classes[class_id as usize].field_types);
        self.allocate(Object { class_id, fields, text: Some(text), locks: 0 })
    }

    fn allocate(&mut self, o: Object) -> (r: Value)
        requires
            old(self)@.wf(),
            o.class_id < old(self)@.classes.len(),
        ensures
            final(self)@.wf(),
            r == Value::Reference(old(self)@.objects.len() as usize),
            final(self)@ == old(self)@.with_object(o@),
    {
        proof { self.lemma_view_objects(); }
        let r = Value::Reference(self.objects.len());
        self.objects.push(o);
        assert(self@.objects =~= old(self)@.objects.push(o@));
        assert(self@ =~= old(self)@.with_object(o@));
        r
    }

    /// The text an object carries, if any.
    pub fn text_of(&self, v: Value) -> (r: Option<Vec<u8>>)
        requires
            self@.valid(v),
        ensures
            match v {
                Value::Reference(o) => match self@.objects[o as int].text {
                    Some(t) => r is Some && r->0@ == t,
                    None => r is None,
                },
                _ => r is None,
            },
    {
        proof { self.lemma_view_objects(); }
        match v {
            Value::Reference(o) => match &self.objects[o].text {
                Some(t) => Some(crate::numeric::copy_bytes(t)),
                None => None,
            },
            _ => None,
        }
    }

    /// Allocates an array of `len` elements of `component`, each at its
    /// default value.
    pub fn new_array(&mut self, component: ValueType, len: usize) -> (r: Value)
        requires
            old(self)@.wf(),
            len <= i32::MAX,
        ensures
            final(self)@.wf(),
            r == Value::Array(old(self)@.arrays.len() as usize),
            final(self)@ == old(self)@.with_array(ArrayView {
                component,
                elems: Seq::new(len as nat, |i: int| component.spec_default_value()),
                locks: 0,
            }),
    {
        proof { self.lemma_view_objects(); }
        let d = component.default_value();
        let mut elems: Vec<Value> = Vec::new();
        let mut i: usize = 0;
        while i < len
            invariant
                i <= len,
                d == component.spec_default_value(),
                elems@ =~= Seq::new(i as nat, |k: int| component.spec_default_value()),
            decreases len - i,
        {
            elems.push(d);
            i = i + 1;
        }
        let r = Value::Array(self.arrays.len());
        let a = ArrayObject { component, elems, locks: 0 };
        self.arrays.push(a);
        assert(self@.arrays =~= old(self)@.arrays.push(a@));
        assert(self@ =~= old(self)@.with_array(a@));
        r
    }

    /// Allocates an array holding exactly `elems`.
    pub fn new_array_of(&mut self, component: ValueType, elems: Vec<Value>) -> (r: Value)
        requires
            old(self)@.wf(),
            elems@.len() <= i32::MAX,
        ensures
            final(self)@.wf(),
            r == Value::Array(old(self)@.arrays.len() as usize),
            final(self)@ == old(self)@.with_array(ArrayView { component, elems: elems@, locks: 0 }),
    {
        proof { self.lemma_view_objects(); }
        let r = Value::Array(self.arrays.len());
        let a = ArrayObject { component, elems, locks: 0 };
        self.arrays.push(a);
        assert(self@.arrays =~= old(self)@.arrays.push(a@));
        assert(self@ =~= old(self)@.with_array(a@));
        r
    }

    pub fn array_length(&self, a: usize) -> (r: usize)
        requires
            a < self@.arrays.len(),
        ensures
            r == self@.arrays[a as int].elems.len(),
    {
        proof { self.lemma_view_objects(); }
        self.arrays[a].elems.len()
    }

    pub fn array_get(&self, a: usize, i: usize) -> (r: Value)
        requires
            a < self@.arrays.len(),
            i < self@.arrays[a as int].elems.len(),
        ensures
            r == self@.arrays[a as int].elems[i as int],
    {
        proof { self.lemma_view_objects(); }
        self.arrays[a].elems[i]
    }

    pub fn array_set(&mut self, a: usize, i: usize, v: Value)
        requires
            old(self)@.wf(),
            a < old(self)@.arrays.len(),
            i < old(self)@.arrays[a as int].elems.len(),
        ensures
            final(self)@.wf(),
            final(self)@ == old(self)@.with_element(a as int, i as int, v),
    {
        proof { self.lemma_view_objects(); }
        self.arrays[a].elems.set(i, v);
        assert(self@.arrays =~= old(self)@.with_element(a as int, i as int, v).arrays);
        assert(self@ =~= old(self)@.with_element(a as int, i as int, v));
    }

    pub fn field_count(&self, o: usize) -> (r: usize)
        requires
            o < self@.objects.len(),
        ensures
            r == self@.objects[o as int].fields.len(),
    {
        proof { self.lemma_view_objects(); }
        self.objects[o].fields.len()
    }

    pub fn get_field(&self, o: usize, i: usize) -> (r: Value)
        requires
            o < self@.objects.len(),
            i < self@.objects[o as int].fields.len(),
        ensures
            r == self@.objects[o as int].fields[i as int],
    {
        proof { self.lemma_view_objects(); }
        self.objects[o].fields[i]
    }

    pub fn put_field(&mut self, o: usize, i: usize, v: Value)
        requires
            old(self)@.wf(),
            o < old(self)@.objects.len(),
            i < old(self)@.objects[o as int].fields.len(),
        ensures
            final(self)@.wf(),
            final(self)@ == old(self)@.with_field(o as int, i as int, v),
    {
        proof { self.lemma_view_objects(); }
        self.objects[o].fields.set(i, v);
        assert(self@.objects =~= old(self)@.with_field(o as int, i as int, v).objects);
        assert(self@ =~= old(self)@.with_field(o as int, i as int, v));
    }

    pub fn static_count(&self, c: u32) -> (r: usize)
        requires
            c < self@.classes.len(),
        ensures
            r == self@.classes[c as int].statics.len(),
    {
        proof { self.lemma_view_objects(); }
        self.classes[c as usize].statics.len()
    }

    pub fn get_static(&self, c: u32, i: usize) -> (r: Value)
        requires
            c < self@.classes.len(),
            i < self@.classes[c as int].statics.len(),
        ensures
            r == self@.classes[c as int].statics[i as int],
    {
        proof { self.lemma_view_objects(); }
        self.classes[c as usize].statics[i]
    }

    pub fn put_static(&mut self, c: u32, i: usize, v: Value)
        requires
            old(self)@.wf(),
            c < old(self)@.classes.len(),
            i < old(self)@.classes[c as int].statics.len(),
        ensures
            final(self)@.wf(),
            final(self)@ == old(self)@.with_static(c as int, i as int, v),
    {
        proof { self.lemma_view_objects(); }
        self.classes[c as usize].statics.set(i, v);
        assert(self@.classes =~= old(self)@.with_static(c as int, i as int, v).classes);
        assert(self@ =~= old(self)@.with_static(c as int, i as int, v));
    }

    /// The monitor depth of what `v` names (0 for anything else).
    pub fn locks_of(&self, v: Value) -> (r: u32)
        requires
            self@.valid(v),
        ensures
            r == self@.locks_of(v),
    {
        proof { self.lemma_view_objects(); }
        match v {
            Value::Reference(o) => self.objects[o].locks,
            Value::Array(a) => self.arrays[a].locks,
            _ => 0,
        }
    }

    fn set_locks(&mut self, v: Value, n: u32)
        requires
            old(self)@.wf(),
            old(self)@.valid(v),
        ensures
            final(self)@.wf(),
            final(self)@ == old(self)@.with_locks(v, n),
    {
        proof { self.lemma_view_objects(); }
        match v {
            Value::Reference(o) => {
                self.objects[o].locks = n;
                assert(self@.objects =~= old(self)@.with_locks(v, n).objects);
            },
            Value::Array(a) => {
                self.arrays[a].locks = n;
                assert(self@.arrays =~= old(self)@.with_locks(v, n).arrays);
            },
            _ => {},
        }
        assert(self@ =~= old(self)@.with_locks(v, n));
    }

    /// Enters the monitor of what `v` names, one level deeper. Returns false,
    /// changing nothing, when the depth cannot grow.
    pub fn monitor_enter(&mut self, v: Value) -> (r: bool)
        requires
            old(self)@.wf(),
            old(self)@.valid(v),
            v is Reference || v is Array,
        ensures
            final(self)@.wf(),
            r == (old(self)@.locks_of(v) < u32::MAX),
            r ==> final(self)@ == old(self)@.with_locks(v, (old(self)@.locks_of(v) + 1) as u32),
            !r ==> final(self)@ == old(self)@,
    {
        let n = self.locks_of(v);
        if n < u32::MAX {
            self.set_locks(v, n + 1);
            true
        } else {
            false
        }
    }

    /// Leaves the monitor of what `v` names, one level. Returns false,
    /// changing nothing, when it is not held.
    pub fn monitor_exit(&mut self, v: Value) -> (r: bool)
        requires
            old(self)@.wf(),
            old(self)@.valid(v),
            v is Reference || v is Array,
        ensures
            final(self)@.wf(),
            r == (old(self)@.locks_of(v) > 0),
            r ==> final(self)@ == old(self)@.with_locks(v, (old(self)@.locks_of(v) - 1) as u32),
            !r ==> final(self)@ == old(self)@,
    {
        let n = self.locks_of(v);
        if n > 0 {
            self.set_locks(v, n - 1);
            true
        } else {
            false
        }
    }

    /// Allocates the multi-dimensional array that `build` describes, from
    /// dimension `level` on.
    pub fn new_multi_array(&mut self, counts: &Vec<i32>, level: usize, depth: u8, element: ValueType) -> (r: Value)
        requires
            old(self)@.wf(),
            level < counts@.len(),
            counts@.len() <= 255,
            forall|i: int| 0 <= i < counts@.len() ==> counts@[i] >= 0,
        ensures
            final(self)@.wf(),
            (final(self)@, r) == build(old(self)@, counts@, level as nat, depth as nat, element),
        decreases counts@.len() - level,
    {
        let c = counts[level];
        if level + 1 < counts.len() {
            let sub: u8 = if depth > 0 { depth - 1 } else { 0 };
            let ghost h0 = self@;
            let mut subs: Vec<Value> = Vec::new();
            let mut i: i32 = 0;
            while i < c
                invariant
                    0 <= i <= c,
                    c == counts@[level as int],
                    level + 1 < counts@.len(),
                    counts@.len() <= 255,
                    forall|k: int| 0 <= k < counts@.len() ==> counts@[k] >= 0,
                    sub == sub_depth(depth as nat),
                    self@.wf(),
                    subs@.len() == i,
                    (self@, subs@) == build_many(h0, counts@, (level + 1) as nat, sub as nat, element, i as nat),
                decreases c - i,
            {
                let v = self.new_multi_array(counts, level + 1, sub, element);
                subs.push(v);
                i = i + 1;
            }
            self.new_array_of(ValueType::Array, subs)
        } else {
            let component = if depth <= 1 { element } else { ValueType::Array };
            self.new_array(component, c as usize)
        }
    }
}

} // verus!
