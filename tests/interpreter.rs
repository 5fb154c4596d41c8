use jvm::frame::{Fatal, Frame, Invoke, Step};
use jvm::heap::{
    Heap, ARITHMETIC_CLASS, CLASS_CAST_CLASS, EXCEPTION_CLASS, ILLEGAL_MONITOR_STATE_CLASS,
    INDEX_OUT_OF_BOUNDS_CLASS, NEGATIVE_ARRAY_SIZE_CLASS, NULL_POINTER_CLASS, OBJECT_CLASS,
    RUNTIME_EXCEPTION_CLASS, STRING_CLASS,
};
use jvm::method::{find_handler, Class, Constant, Handler, Method};
use jvm::thread::JavaThread;
use jvm::value::{Value, ValueType};

fn frame_with(code: Vec<u8>, max_stack: u16, max_locals: u16, handlers: Vec<Handler>, cp: Vec<Constant>) -> Frame {
    Frame::new(JavaThread::new(), Class { id: 0, cp }, Method { code, max_stack, max_locals, handlers })
}

fn frame(code: Vec<u8>) -> Frame {
    frame_with(code, 8, 4, vec![], vec![])
}

fn run(f: &mut Frame, heap: &mut Heap) -> Result<Step, Fatal> {
    for _ in 0..1000 {
        match f.step(heap) {
            Ok(Step::Continue) => {}
            other => return other,
        }
    }
    Ok(Step::Continue)
}

#[test]
fn isub_takes_right_operand_from_top() {
    // bipush 7; bipush 3; isub; ireturn
    let mut f = frame(vec![0x10, 7, 0x10, 3, 0x64, 0xac]);
    let mut heap = Heap::new();
    assert_eq!(run(&mut f, &mut heap), Ok(Step::Done));
    assert_eq!(f.return_value(), Some(Value::Int(4)));
}

#[test]
fn long_and_int_arithmetic_wraps() {
    // ldc 1 (int MAX); iconst_1; iadd; ireturn
    let mut f = frame_with(vec![0x12, 1, 0x04, 0x60, 0xac], 4, 0, vec![], vec![Constant::Unused, Constant::Integer(i32::MAX)]);
    let mut heap = Heap::new();
    assert_eq!(run(&mut f, &mut heap), Ok(Step::Done));
    assert_eq!(f.return_value(), Some(Value::Int(i32::MIN)));
    // ldc2_w 1 (long MIN); lneg; lreturn
    let mut f = frame_with(vec![0x14, 0, 1, 0x75, 0xad], 4, 0, vec![], vec![Constant::Unused, Constant::Long(i64::MIN)]);
    assert_eq!(run(&mut f, &mut heap), Ok(Step::Done));
    assert_eq!(f.return_value(), Some(Value::Long(i64::MIN)));
}

#[test]
fn idiv_by_zero_raises_arithmetic_fault() {
    // iconst_1; iconst_0; idiv; ireturn
    let mut f = frame(vec![0x04, 0x03, 0x6c, 0xac]);
    let mut heap = Heap::new();
    assert_eq!(run(&mut f, &mut heap), Ok(Step::Done));
    let exc = f.return_value().unwrap();
    assert_eq!(f.pending_exception(), None);
    assert_eq!(heap.class_of(exc), ARITHMETIC_CLASS);
    assert_eq!(heap.text_of(exc), Some(b"divide by zero".to_vec()));
}

#[test]
fn lrem_by_zero_raises_arithmetic_fault() {
    // lconst_1; lconst_0; lrem; lreturn
    let mut f = frame(vec![0x0a, 0x09, 0x71, 0xad]);
    let mut heap = Heap::new();
    assert_eq!(run(&mut f, &mut heap), Ok(Step::Done));
    let exc = f.return_value().unwrap();
    assert_eq!(heap.class_of(exc), ARITHMETIC_CLASS);
    assert_eq!(heap.text_of(exc), Some(b"divide by zero".to_vec()));
}

#[test]
fn irem_and_idiv_values() {
    // bipush -7; iconst_2; irem; ireturn
    let mut f = frame(vec![0x10, 0xf9, 0x05, 0x70, 0xac]);
    let mut heap = Heap::new();
    assert_eq!(run(&mut f, &mut heap), Ok(Step::Done));
    assert_eq!(f.return_value(), Some(Value::Int(-1)));
    // bipush -7; iconst_2; idiv; ireturn
    let mut f = frame(vec![0x10, 0xf9, 0x05, 0x6c, 0xac]);
    assert_eq!(run(&mut f, &mut heap), Ok(Step::Done));
    assert_eq!(f.return_value(), Some(Value::Int(-3)));
}

#[test]
fn float_division_is_left_to_the_invoker() {
    // fconst_1; fconst_0; fdiv
    let mut f = frame(vec![0x0c, 0x0b, 0x6e]);
    let mut heap = Heap::new();
    assert_eq!(f.step(&mut heap), Ok(Step::Continue));
    assert_eq!(f.step(&mut heap), Ok(Step::Continue));
    assert_eq!(f.step(&mut heap), Ok(Step::FloatOp(0x6e)));
    assert_eq!(f.pending_exception(), None);
    let b = f.pop_float();
    let a = f.pop_float();
    assert_eq!(f32::from_bits(a) / f32::from_bits(b), f32::INFINITY);
}

#[test]
fn shifts_mask_and_fill() {
    // iconst_m1; bipush 28; iushr; ireturn
    let mut f = frame(vec![0x02, 0x10, 28, 0x7c, 0xac]);
    let mut heap = Heap::new();
    assert_eq!(run(&mut f, &mut heap), Ok(Step::Done));
    assert_eq!(f.return_value(), Some(Value::Int(15)));
    // iconst_1; bipush 33; ishl; ireturn  (33 & 31 == 1)
    let mut f = frame(vec![0x04, 0x10, 33, 0x78, 0xac]);
    assert_eq!(run(&mut f, &mut heap), Ok(Step::Done));
    assert_eq!(f.return_value(), Some(Value::Int(2)));
    // iconst_m1; i2l; bipush 64; lushr; lreturn  (64 & 63 == 0)
    let mut f = frame(vec![0x02, 0x85, 0x10, 64, 0x7d, 0xad]);
    assert_eq!(run(&mut f, &mut heap), Ok(Step::Done));
    assert_eq!(f.return_value(), Some(Value::Long(-1)));
    // iconst_m1; i2l; bipush 60; lushr; lreturn
    let mut f = frame(vec![0x02, 0x85, 0x10, 60, 0x7d, 0xad]);
    assert_eq!(run(&mut f, &mut heap), Ok(Step::Done));
    assert_eq!(f.return_value(), Some(Value::Long(15)));
    // bipush -16; iconst_2; ishr; ireturn
    let mut f = frame(vec![0x10, 0xf0, 0x05, 0x7a, 0xac]);
    assert_eq!(run(&mut f, &mut heap), Ok(Step::Done));
    assert_eq!(f.return_value(), Some(Value::Int(-4)));
}

#[test]
fn narrowing_int_conversions() {
    let mut heap = Heap::new();
    // sipush 200; i2b; ireturn
    let mut f = frame(vec![0x11, 0x00, 200, 0x91, 0xac]);
    assert_eq!(run(&mut f, &mut heap), Ok(Step::Done));
    assert_eq!(f.return_value(), Some(Value::Int(-56)));
    // iconst_m1; i2c; ireturn
    let mut f = frame(vec![0x02, 0x92, 0xac]);
    assert_eq!(run(&mut f, &mut heap), Ok(Step::Done));
    assert_eq!(f.return_value(), Some(Value::Int(65535)));
    // ldc 1 (70000); i2s; ireturn
    let mut f = frame_with(vec![0x12, 1, 0x93, 0xac], 2, 0, vec![], vec![Constant::Unused, Constant::Integer(70000)]);
    assert_eq!(run(&mut f, &mut heap), Ok(Step::Done));
    assert_eq!(f.return_value(), Some(Value::Int(4464)));
}

#[test]
fn f2i_on_the_stack() {
    let cp = vec![Constant::Unused, Constant::Float(f32::NAN.to_bits()), Constant::Float(f32::NEG_INFINITY.to_bits()), Constant::Double(f64::INFINITY.to_bits())];
    let mut heap = Heap::new();
    // ldc 1; f2i; ireturn
    let mut f = frame_with(vec![0x12, 1, 0x8b, 0xac], 2, 0, vec![], cp.iter().map(copy_constant).collect());
    assert_eq!(run(&mut f, &mut heap), Ok(Step::Done));
    assert_eq!(f.return_value(), Some(Value::Int(0)));
    // ldc 2; f2l; lreturn
    let mut f = frame_with(vec![0x12, 2, 0x8c, 0xad], 2, 0, vec![], cp.iter().map(copy_constant).collect());
    assert_eq!(run(&mut f, &mut heap), Ok(Step::Done));
    assert_eq!(f.return_value(), Some(Value::Long(i64::MIN)));
    // ldc2_w 3; d2i; ireturn
    let mut f = frame_with(vec![0x14, 0, 3, 0x8e, 0xac], 2, 0, vec![], cp.iter().map(copy_constant).collect());
    assert_eq!(run(&mut f, &mut heap), Ok(Step::Done));
    assert_eq!(f.return_value(), Some(Value::Int(i32::MAX)));
}

fn copy_constant(c: &Constant) -> Constant {
    match c {
        Constant::Float(v) => Constant::Float(*v),
        Constant::Double(v) => Constant::Double(*v),
        Constant::Integer(v) => Constant::Integer(*v),
        Constant::Long(v) => Constant::Long(*v),
        _ => Constant::Unused,
    }
}

#[test]
fn fcmpl_and_fcmpg_with_nan() {
    let cp = vec![Constant::Unused, Constant::Float(f32::NAN.to_bits())];
    let mut heap = Heap::new();
    // ldc 1; fconst_1; fcmpl; ireturn
    let mut f = frame_with(vec![0x12, 1, 0x0c, 0x95, 0xac], 2, 0, vec![], cp.iter().map(copy_constant).collect());
    assert_eq!(run(&mut f, &mut heap), Ok(Step::Done));
    assert_eq!(f.return_value(), Some(Value::Int(-1)));
    // ldc 1; ldc 1; fcmpg; ireturn
    let mut f = frame_with(vec![0x12, 1, 0x12, 1, 0x96, 0xac], 2, 0, vec![], cp.iter().map(copy_constant).collect());
    assert_eq!(run(&mut f, &mut heap), Ok(Step::Done));
    assert_eq!(f.return_value(), Some(Value::Int(1)));
}

#[test]
fn lcmp_orders_first_pushed_against_last() {
    let mut heap = Heap::new();
    // lconst_0; lconst_1; lcmp; ireturn   (0 < 1)
    let mut f = frame(vec![0x09, 0x0a, 0x94, 0xac]);
    assert_eq!(run(&mut f, &mut heap), Ok(Step::Done));
    assert_eq!(f.return_value(), Some(Value::Int(-1)));
    // lconst_1; lconst_0; lcmp; ireturn
    let mut f = frame(vec![0x0a, 0x09, 0x94, 0xac]);
    assert_eq!(run(&mut f, &mut heap), Ok(Step::Done));
    assert_eq!(f.return_value(), Some(Value::Int(1)));
}

fn array_frame(code: Vec<u8>) -> (Frame, Heap) {
    let mut heap = Heap::new();
    let arr = heap.new_array_of(ValueType::Int, vec![Value::Int(10), Value::Int(20), Value::Int(30)]);
    let mut f = frame(code);
    f.set_local(0, arr);
    (f, heap)
}

#[test]
fn array_load_in_bounds() {
    // aload_0; iconst_2; iaload; ireturn
    let (mut f, mut heap) = array_frame(vec![0x2a, 0x05, 0x2e, 0xac]);
    assert_eq!(run(&mut f, &mut heap), Ok(Step::Done));
    assert_eq!(f.return_value(), Some(Value::Int(30)));
}

#[test]
fn array_load_at_length_is_out_of_bounds() {
    // aload_0; iconst_3; iaload; ireturn
    let (mut f, mut heap) = array_frame(vec![0x2a, 0x06, 0x2e, 0xac]);
    assert_eq!(run(&mut f, &mut heap), Ok(Step::Done));
    let exc = f.return_value().unwrap();
    assert_eq!(heap.class_of(exc), INDEX_OUT_OF_BOUNDS_CLASS);
    assert_eq!(heap.text_of(exc), Some(b"length is 3, but index is 3".to_vec()));
}

#[test]
fn array_store_below_zero_is_out_of_bounds() {
    // aload_0; iconst_m1; iconst_5; iastore; return
    let (mut f, mut heap) = array_frame(vec![0x2a, 0x02, 0x08, 0x4f, 0xb1]);
    assert_eq!(run(&mut f, &mut heap), Ok(Step::Done));
    let exc = f.return_value().unwrap();
    assert_eq!(heap.class_of(exc), INDEX_OUT_OF_BOUNDS_CLASS);
    assert_eq!(heap.text_of(exc), Some(b"length is 3, but index is -1".to_vec()));
}

#[test]
fn array_store_then_load() {
    // aload_0; iconst_1; bipush 99; iastore; aload_0; iconst_1; iaload; ireturn
    let (mut f, mut heap) = array_frame(vec![0x2a, 0x04, 0x10, 99, 0x4f, 0x2a, 0x04, 0x2e, 0xac]);
    assert_eq!(run(&mut f, &mut heap), Ok(Step::Done));
    assert_eq!(f.return_value(), Some(Value::Int(99)));
}

#[test]
fn null_array_is_checked_before_bounds() {
    // aconst_null; bipush 100; iaload; ireturn
    let mut f = frame(vec![0x01, 0x10, 100, 0x2e, 0xac]);
    let mut heap = Heap::new();
    assert_eq!(run(&mut f, &mut heap), Ok(Step::Done));
    let exc = f.return_value().unwrap();
    assert_eq!(heap.class_of(exc), NULL_POINTER_CLASS);
    assert_eq!(heap.text_of(exc), None);
}

#[test]
fn array_length_and_new_array() {
    // bipush 5; newarray int; arraylength; ireturn
    let mut f = frame(vec![0x10, 5, 0xbc, 10, 0xbe, 0xac]);
    let mut heap = Heap::new();
    assert_eq!(run(&mut f, &mut heap), Ok(Step::Done));
    assert_eq!(f.return_value(), Some(Value::Int(5)));
    // iconst_m1; newarray long
    let mut f = frame(vec![0x02, 0xbc, 11, 0xb1]);
    assert_eq!(run(&mut f, &mut heap), Ok(Step::Done));
    assert_eq!(heap.class_of(f.return_value().unwrap()), NEGATIVE_ARRAY_SIZE_CLASS);
}

#[test]
fn branch_offset_is_relative_to_the_instruction() {
    // eight nops, iconst_1 at 8, iconst_1 at 9, if_icmpeq +5 at 10
    let mut code = vec![0x00; 8];
    code.extend_from_slice(&[0x04, 0x04, 0x9f, 0x00, 0x05, 0x00, 0x00, 0x00, 0x00]);
    let mut f = frame(code);
    let mut heap = Heap::new();
    for _ in 0..10 {
        assert_eq!(f.step(&mut heap), Ok(Step::Continue));
    }
    assert_eq!(f.pc(), 10);
    assert_eq!(f.step(&mut heap), Ok(Step::Continue));
    assert_eq!(f.op_pc(), 10);
    assert_eq!(f.pc(), 15);
}

#[test]
fn branch_not_taken_skips_its_offset() {
    // iconst_1; iconst_2; if_icmpeq +5; iconst_3; ireturn
    let mut f = frame(vec![0x04, 0x05, 0x9f, 0x00, 0x05, 0x06, 0xac]);
    let mut heap = Heap::new();
    assert_eq!(run(&mut f, &mut heap), Ok(Step::Done));
    assert_eq!(f.return_value(), Some(Value::Int(3)));
}

#[test]
fn backward_goto_loops() {
    // 0: iconst_0; 1: istore_0; 2: iinc 0 1; 5: iload_0; 6: bipush 3; 8: if_icmplt -6 (to 2); 11: iload_0; 12: ireturn
    let mut f = frame(vec![0x03, 0x3b, 0x84, 0, 1, 0x1a, 0x10, 3, 0xa1, 0xff, 0xfa, 0x1a, 0xac]);
    let mut heap = Heap::new();
    assert_eq!(run(&mut f, &mut heap), Ok(Step::Done));
    assert_eq!(f.return_value(), Some(Value::Int(3)));
}

#[test]
fn unhandled_athrow_becomes_the_result() {
    let mut heap = Heap::new();
    let exc = heap.new_object(EXCEPTION_CLASS);
    // aload_0; athrow
    let mut f = frame(vec![0x2a, 0xbf]);
    f.set_local(0, exc);
    assert_eq!(run(&mut f, &mut heap), Ok(Step::Done));
    assert_eq!(f.return_value(), Some(exc));
    assert_eq!(f.pending_exception(), None);
    assert_eq!(f.stack_len(), 0);
}

#[test]
fn athrow_null_raises_null_pointer_fault() {
    // aconst_null; athrow
    let mut f = frame(vec![0x01, 0xbf]);
    let mut heap = Heap::new();
    assert_eq!(run(&mut f, &mut heap), Ok(Step::Done));
    assert_eq!(heap.class_of(f.return_value().unwrap()), NULL_POINTER_CLASS);
}

#[test]
fn first_matching_handler_in_table_order_wins() {
    // 0: iconst_1; 1: iconst_0; 2: idiv; 3: ireturn; 4: pop; 5: iconst_1; 6: ireturn; 7: pop; 8: iconst_2; 9: ireturn
    let code = vec![0x04, 0x03, 0x6c, 0xac, 0x57, 0x04, 0xac, 0x57, 0x05, 0xac];
    let handlers = vec![
        Handler { start_pc: 0, end_pc: 4, handler_pc: 4, catch_class: Some(RUNTIME_EXCEPTION_CLASS) },
        Handler { start_pc: 1, end_pc: 3, handler_pc: 7, catch_class: Some(ARITHMETIC_CLASS) },
    ];
    let mut f = frame_with(code, 4, 0, handlers, vec![]);
    let mut heap = Heap::new();
    assert_eq!(run(&mut f, &mut heap), Ok(Step::Done));
    assert_eq!(f.return_value(), Some(Value::Int(1)));
}

#[test]
fn handler_search_skips_ranges_and_classes() {
    let heap = Heap::new();
    let handlers = vec![
        Handler { start_pc: 0, end_pc: 5, handler_pc: 50, catch_class: None },
        Handler { start_pc: 5, end_pc: 20, handler_pc: 60, catch_class: Some(NULL_POINTER_CLASS) },
        Handler { start_pc: 5, end_pc: 20, handler_pc: 70, catch_class: Some(OBJECT_CLASS) },
    ];
    assert_eq!(find_handler(&handlers, 10, &heap, ARITHMETIC_CLASS), Some(2));
    assert_eq!(find_handler(&handlers, 10, &heap, NULL_POINTER_CLASS), Some(1));
    assert_eq!(find_handler(&handlers, 4, &heap, NULL_POINTER_CLASS), Some(0));
    assert_eq!(find_handler(&handlers, 20, &heap, NULL_POINTER_CLASS), None);
}

#[test]
fn caught_exception_is_alone_on_the_stack() {
    // 0: iconst_5; 1: aconst_null; 2: arraylength; 3: ireturn; 4: areturn
    let handlers = vec![Handler { start_pc: 0, end_pc: 4, handler_pc: 4, catch_class: None }];
    let mut f = frame_with(vec![0x08, 0x01, 0xbe, 0xac, 0xb0], 4, 0, handlers, vec![]);
    let mut heap = Heap::new();
    assert_eq!(f.step(&mut heap), Ok(Step::Continue));
    assert_eq!(f.step(&mut heap), Ok(Step::Continue));
    assert_eq!(f.step(&mut heap), Ok(Step::Continue));
    assert_eq!(f.pc(), 4);
    assert_eq!(f.stack_len(), 1);
    assert_eq!(f.pending_exception(), None);
    assert_eq!(f.step(&mut heap), Ok(Step::Done));
    assert_eq!(heap.class_of(f.return_value().unwrap()), NULL_POINTER_CLASS);
}

#[test]
fn retired_and_undefined_opcodes_stop() {
    let mut heap = Heap::new();
    let mut f = frame(vec![0x00, 0xa8, 0x00, 0x00]);
    assert_eq!(run(&mut f, &mut heap), Err(Fatal::Deprecated { opcode: 0xa8, pc: 1 }));
    let mut f = frame(vec![0x76]);
    assert_eq!(run(&mut f, &mut heap), Err(Fatal::Deprecated { opcode: 0x76, pc: 0 }));
    let mut f = frame(vec![0x00, 0x00, 0xcb]);
    assert_eq!(run(&mut f, &mut heap), Err(Fatal::Undefined { opcode: 0xcb, pc: 2 }));
}

#[test]
fn malformed_and_out_of_range() {
    let mut heap = Heap::new();
    // iadd on an empty stack
    let mut f = frame(vec![0x60]);
    assert_eq!(f.step(&mut heap), Err(Fatal::Malformed { opcode: 0x60, pc: 0 }));
    // falls off the end of the code
    let mut f = frame(vec![0x00]);
    assert_eq!(f.step(&mut heap), Ok(Step::Continue));
    assert_eq!(f.step(&mut heap), Err(Fatal::PcOutOfRange { pc: 1 }));
    // ldc of a class literal
    let mut f = frame_with(vec![0x12, 1], 2, 0, vec![], vec![Constant::Unused, Constant::Class { class_id: 0 }]);
    assert_eq!(f.step(&mut heap), Err(Fatal::Unsupported { opcode: 0x12, pc: 0 }));
}

#[test]
fn ldc_string_makes_a_string_object() {
    let cp = vec![Constant::Unused, Constant::Utf8(b"hi".to_vec()), Constant::String { string_index: 1 }];
    // ldc 2; areturn
    let mut f = frame_with(vec![0x12, 2, 0xb0], 2, 0, vec![], cp);
    let mut heap = Heap::new();
    assert_eq!(run(&mut f, &mut heap), Ok(Step::Done));
    let s = f.return_value().unwrap();
    assert_eq!(heap.class_of(s), STRING_CLASS);
    assert_eq!(heap.text_of(s), Some(b"hi".to_vec()));
}

#[test]
fn fields_and_statics() {
    let mut heap = Heap::new();
    let point = heap.add_class(OBJECT_CLASS, vec![ValueType::Int, ValueType::Long], vec![ValueType::Int]);
    let cp = vec![
        Constant::Unused,
        Constant::Class { class_id: point },
        Constant::FieldRef { class_id: point, slot: 1, value_type: ValueType::Long },
        Constant::FieldRef { class_id: point, slot: 0, value_type: ValueType::Int },
    ];
    // new #1; dup; astore_0; lconst_1; putfield #2; bipush 9; putstatic #3;
    // aload_0; getfield #2; l2i; getstatic #3; iadd; ireturn
    let code = vec![
        0xbb, 0, 1, 0x59, 0x4b, 0x0a, 0xb5, 0, 2, 0x10, 9, 0xb3, 0, 3, 0x2a, 0xb4, 0, 2, 0x88, 0xb2, 0, 3, 0x60, 0xac,
    ];
    let mut f = frame_with(code, 4, 1, vec![], cp);
    assert_eq!(run(&mut f, &mut heap), Ok(Step::Done));
    assert_eq!(f.return_value(), Some(Value::Int(10)));
    assert_eq!(heap.get_static(point, 0), Value::Int(9));
}

#[test]
fn getfield_on_null_raises_null_pointer_fault() {
    let mut heap = Heap::new();
    let cp = vec![Constant::Unused, Constant::FieldRef { class_id: 0, slot: 0, value_type: ValueType::Int }];
    // aconst_null; getfield #1; ireturn
    let mut f = frame_with(vec![0x01, 0xb4, 0, 1, 0xac], 2, 0, vec![], cp);
    assert_eq!(run(&mut f, &mut heap), Ok(Step::Done));
    assert_eq!(heap.class_of(f.return_value().unwrap()), NULL_POINTER_CLASS);
}

#[test]
fn type_tests() {
    let mut heap = Heap::new();
    let cp = vec![Constant::Unused, Constant::Class { class_id: RUNTIME_EXCEPTION_CLASS }, Constant::Class { class_id: STRING_CLASS }];
    let obj = heap.new_object(ARITHMETIC_CLASS);
    // aload_0; instanceof #1; ireturn
    let mut f = frame_with(vec![0x2a, 0xc1, 0, 1, 0xac], 2, 1, vec![], cp.iter().map(copy_class).collect());
    f.set_local(0, obj);
    assert_eq!(run(&mut f, &mut heap), Ok(Step::Done));
    assert_eq!(f.return_value(), Some(Value::Int(1)));
    // aload_0; checkcast #2; areturn
    let mut f = frame_with(vec![0x2a, 0xc0, 0, 2, 0xb0], 2, 1, vec![], cp.iter().map(copy_class).collect());
    f.set_local(0, obj);
    assert_eq!(run(&mut f, &mut heap), Ok(Step::Done));
    assert_eq!(heap.class_of(f.return_value().unwrap()), CLASS_CAST_CLASS);
}

fn copy_class(c: &Constant) -> Constant {
    match c {
        Constant::Class { class_id } => Constant::Class { class_id: *class_id },
        _ => Constant::Unused,
    }
}

#[test]
fn monitors_enter_and_exit() {
    let mut heap = Heap::new();
    let obj = heap.new_object(OBJECT_CLASS);
    // aload_0; monitorenter; aload_0; monitorenter; aload_0; monitorexit; return
    let mut f = frame_with(vec![0x2a, 0xc2, 0x2a, 0xc2, 0x2a, 0xc3, 0xb1], 2, 1, vec![], vec![]);
    f.set_local(0, obj);
    assert_eq!(run(&mut f, &mut heap), Ok(Step::Done));
    assert_eq!(heap.locks_of(obj), 1);
    // aload_0; monitorexit; aload_0; monitorexit; return
    let mut f = frame_with(vec![0x2a, 0xc3, 0x2a, 0xc3, 0xb1], 2, 1, vec![], vec![]);
    f.set_local(0, obj);
    assert_eq!(run(&mut f, &mut heap), Ok(Step::Done));
    assert_eq!(heap.class_of(f.return_value().unwrap()), ILLEGAL_MONITOR_STATE_CLASS);
    // aconst_null; monitorenter
    let mut f = frame(vec![0x01, 0xc2, 0xb1]);
    assert_eq!(run(&mut f, &mut heap), Ok(Step::Done));
    assert_eq!(heap.class_of(f.return_value().unwrap()), NULL_POINTER_CLASS);
}

#[test]
fn invocations_are_handed_to_the_invoker() {
    let mut heap = Heap::new();
    // invokestatic #7; invokeinterface #8 count 1 0
    let mut f = frame(vec![0xb8, 0, 7, 0xb9, 0, 8, 1, 0]);
    assert_eq!(f.step(&mut heap), Ok(Step::Invoke(Invoke { opcode: 0xb8, index: 7 })));
    assert_eq!(f.take_invoke(), Some(Invoke { opcode: 0xb8, index: 7 }));
    assert_eq!(f.step(&mut heap), Ok(Step::Invoke(Invoke { opcode: 0xb9, index: 8 })));
    assert_eq!(f.pc(), 8);
}

#[test]
fn table_switch_jumps() {
    // 0: bipush k; 2: tableswitch, one byte of padding, default, low = 1, high = 2, two offsets
    let mut code = vec![0x10, 2, 0xaa, 0x00];
    code.extend_from_slice(&[0, 0, 0, 28]); // default -> 2 + 28 = 30
    code.extend_from_slice(&[0, 0, 0, 1]); // low
    code.extend_from_slice(&[0, 0, 0, 2]); // high
    code.extend_from_slice(&[0, 0, 0, 22]); // 1 -> 24
    code.extend_from_slice(&[0, 0, 0, 25]); // 2 -> 27
    assert_eq!(code.len(), 24);
    code.extend_from_slice(&[0x04, 0xac, 0x00, 0x05, 0xac, 0x00, 0x06, 0xac]);
    let mut heap = Heap::new();
    let mut f = frame(code.clone());
    assert_eq!(run(&mut f, &mut heap), Ok(Step::Done));
    assert_eq!(f.return_value(), Some(Value::Int(2)));
    code[1] = 9;
    let mut f = frame(code.clone());
    assert_eq!(run(&mut f, &mut heap), Ok(Step::Done));
    assert_eq!(f.return_value(), Some(Value::Int(3)));
    code[1] = 1;
    let mut f = frame(code);
    assert_eq!(run(&mut f, &mut heap), Ok(Step::Done));
    assert_eq!(f.return_value(), Some(Value::Int(1)));
}

#[test]
fn lookup_switch_jumps() {
    // 0: bipush k; 2: lookupswitch (pad 1) default npairs=2 (5 -> a, 7 -> b)
    let mut code = vec![0x10, 7, 0xab, 0x00];
    code.extend_from_slice(&[0, 0, 0, 34]); // default -> 36
    code.extend_from_slice(&[0, 0, 0, 2]);
    code.extend_from_slice(&[0, 0, 0, 5, 0, 0, 0, 28]); // 5 -> 30
    code.extend_from_slice(&[0, 0, 0, 7, 0, 0, 0, 31]); // 7 -> 33
    assert_eq!(code.len(), 28);
    code.extend_from_slice(&[0x00, 0x00, 0x04, 0xac, 0x00, 0x05, 0xac, 0x00, 0x06, 0xac]);
    let mut heap = Heap::new();
    let mut f = frame(code.clone());
    assert_eq!(run(&mut f, &mut heap), Ok(Step::Done));
    assert_eq!(f.return_value(), Some(Value::Int(2)));
    code[1] = 5;
    let mut f = frame(code.clone());
    assert_eq!(run(&mut f, &mut heap), Ok(Step::Done));
    assert_eq!(f.return_value(), Some(Value::Int(1)));
    code[1] = 6;
    let mut f = frame(code);
    assert_eq!(run(&mut f, &mut heap), Ok(Step::Done));
    assert_eq!(f.return_value(), Some(Value::Int(3)));
}

#[test]
fn stack_shuffles() {
    // iconst_1; iconst_2; iconst_3; dup_x2; pop; swap; isub; iadd; ireturn
    // after dup_x2: 3 1 2 3; pop -> 3 1 2; swap -> 3 2 1; isub -> 3 1; iadd -> 4
    let mut f = frame(vec![0x04, 0x05, 0x06, 0x5b, 0x57, 0x5f, 0x64, 0x60, 0xac]);
    let mut heap = Heap::new();
    assert_eq!(run(&mut f, &mut heap), Ok(Step::Done));
    assert_eq!(f.return_value(), Some(Value::Int(4)));
}

#[test]
fn void_return_yields_null() {
    let mut f = frame(vec![0xb1]);
    let mut heap = Heap::new();
    assert_eq!(run(&mut f, &mut heap), Ok(Step::Done));
    assert_eq!(f.return_value(), Some(Value::Null));
}

#[test]
fn multi_dimensional_arrays() {
    let cp = vec![Constant::Unused, Constant::ArrayClass { dimensions: 2, element: ValueType::Int }];
    let mut heap = Heap::new();
    // iconst_2; iconst_3; multianewarray #1 2; areturn
    let mut f = frame_with(vec![0x05, 0x06, 0xc5, 0, 1, 2, 0xb0], 2, 0, vec![], cp);
    assert_eq!(run(&mut f, &mut heap), Ok(Step::Done));
    let outer = match f.return_value() {
        Some(Value::Array(a)) => a,
        other => panic!("not an array: {:?}", other),
    };
    assert_eq!(heap.array_length(outer), 2);
    for i in 0..2 {
        let inner = match heap.array_get(outer, i) {
            Value::Array(a) => a,
            other => panic!("not an array: {:?}", other),
        };
        assert_eq!(heap.array_length(inner), 3);
        assert_eq!(heap.array_get(inner, 2), Value::Int(0));
    }
}

#[test]
fn multi_array_with_fewer_counts_leaves_nulls() {
    let cp = vec![Constant::Unused, Constant::ArrayClass { dimensions: 2, element: ValueType::Long }];
    let mut heap = Heap::new();
    // iconst_2; multianewarray #1 1; areturn
    let mut f = frame_with(vec![0x05, 0xc5, 0, 1, 1, 0xb0], 2, 0, vec![], cp);
    assert_eq!(run(&mut f, &mut heap), Ok(Step::Done));
    let outer = match f.return_value() {
        Some(Value::Array(a)) => a,
        other => panic!("not an array: {:?}", other),
    };
    assert_eq!(heap.array_length(outer), 2);
    assert_eq!(heap.array_get(outer, 1), Value::Null);
}

#[test]
fn multi_array_negative_count_faults() {
    let cp = vec![Constant::Unused, Constant::ArrayClass { dimensions: 3, element: ValueType::Int }];
    let mut heap = Heap::new();
    // iconst_2; iconst_m1; multianewarray #1 2; areturn
    let mut f = frame_with(vec![0x05, 0x02, 0xc5, 0, 1, 2, 0xb0], 2, 0, vec![], cp);
    assert_eq!(run(&mut f, &mut heap), Ok(Step::Done));
    assert_eq!(heap.class_of(f.return_value().unwrap()), NEGATIVE_ARRAY_SIZE_CLASS);
}
