//! A bytecode interpreter frame for a stack-based virtual machine that follows
//! the Java Virtual Machine instruction set.
//!
//! - `value`: the tagged runtime value (floats as IEEE 754 bit patterns).
//! - `numeric`: truncating division, float-to-integer narrowing and the
//!   floating-point comparisons on bit patterns, fault messages.
//! - `heap`: instances, arrays and the class table that frames share.
//! - `method`: bytecode, constant pool and the exception-handler search.
//! - `thread`: the pending-exception slot.
//! - `frame`: one activation, its instruction handlers and the step that
//!   dispatches them.
//!
//! Floating-point arithmetic itself (`fadd`, `i2f`, ...) is handed back to
//! the caller of `Frame::step` as `Step::FloatOp`.
pub mod frame;
pub mod heap;
pub mod method;
pub mod numeric;
pub mod thread;
pub mod value;
