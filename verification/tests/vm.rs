use lp_core::dec32::{Dec32, Vec2, Vec3, Vec4};
use lp_core::vm::opcodes::comparisons_new::{exec_eq_dec32, exec_greater_dec32, exec_less_dec32, exec_not_eq_dec32};
use lp_core::vm::opcodes::fixed_basic::{exec_abs_dec32, exec_add_dec32, exec_div_dec32, exec_max_dec32, exec_min_dec32, exec_mul_dec32, exec_neg_dec32, exec_sub_dec32};
use lp_core::vm::opcodes::textures::{exec_texture_sample_r, exec_texture_sample_rgba};
use lp_core::vm::{LpsVmError, ValueStack};

/// The fixed-point value nearest below `x` (16 fractional bits).
fn dec(x: f64) -> Dec32 {
    Dec32((x * 65536.0) as i32)
}

/// The value of a fixed-point number as a float.
fn to_f32(d: Dec32) -> f32 {
    d.0 as f32 / 65536.0
}

type Stack = ValueStack;

#[test]
fn test_stack_creation() {
    let stack = ValueStack::new(64);
    assert_eq!(stack.sp(), 0);
    assert_eq!(stack.raw_slice().len(), 64);
}

#[test]
fn test_push_pop_dec32() {
    let mut stack = ValueStack::new(64);

    stack.push_dec32(dec(1.5)).unwrap();
    stack.push_dec32(dec(2.5)).unwrap();

    assert_eq!(stack.sp(), 2);

    let b = stack.pop_dec32().unwrap();
    let a = stack.pop_dec32().unwrap();

    assert_eq!(to_f32(a), 1.5);
    assert_eq!(to_f32(b), 2.5);
    assert_eq!(stack.sp(), 0);
}

#[test]
fn test_push_pop_int32() {
    let mut stack = ValueStack::new(64);

    stack.push_int32(42).unwrap();
    stack.push_int32(99).unwrap();

    assert_eq!(stack.sp(), 2);

    let b = stack.pop_int32().unwrap();
    let a = stack.pop_int32().unwrap();

    assert_eq!(a, 42);
    assert_eq!(b, 99);
    assert_eq!(stack.sp(), 0);
}

#[test]
fn test_pop2() {
    let mut stack = ValueStack::new(64);

    stack.push_int32(10).unwrap();
    stack.push_int32(20).unwrap();

    let (a, b) = stack.pop2().unwrap();
    assert_eq!(a, 10);
    assert_eq!(b, 20);
    assert_eq!(stack.sp(), 0);
}

#[test]
fn test_pop3() {
    let mut stack = ValueStack::new(64);

    stack.push_int32(10).unwrap();
    stack.push_int32(20).unwrap();
    stack.push_int32(30).unwrap();

    let (a, b, c) = stack.pop3().unwrap();
    assert_eq!(a, 10);
    assert_eq!(b, 20);
    assert_eq!(c, 30);
    assert_eq!(stack.sp(), 0);
}

#[test]
fn test_pop4() {
    let mut stack = ValueStack::new(64);

    stack.push_int32(10).unwrap();
    stack.push_int32(20).unwrap();
    stack.push_int32(30).unwrap();
    stack.push_int32(40).unwrap();

    let (a, b, c, d) = stack.pop4().unwrap();
    assert_eq!(a, 10);
    assert_eq!(b, 20);
    assert_eq!(c, 30);
    assert_eq!(d, 40);
    assert_eq!(stack.sp(), 0);
}

#[test]
fn test_push2() {
    let mut stack = ValueStack::new(64);

    stack.push2(10, 20).unwrap();

    assert_eq!(stack.sp(), 2);
    let (a, b) = stack.pop2().unwrap();
    assert_eq!(a, 10);
    assert_eq!(b, 20);
}

#[test]
fn test_push3() {
    let mut stack = ValueStack::new(64);

    stack.push3(10, 20, 30).unwrap();

    assert_eq!(stack.sp(), 3);
    let (a, b, c) = stack.pop3().unwrap();
    assert_eq!(a, 10);
    assert_eq!(b, 20);
    assert_eq!(c, 30);
}

#[test]
fn test_push4() {
    let mut stack = ValueStack::new(64);

    stack.push4(10, 20, 30, 40).unwrap();

    assert_eq!(stack.sp(), 4);
    let (a, b, c, d) = stack.pop4().unwrap();
    assert_eq!(a, 10);
    assert_eq!(b, 20);
    assert_eq!(c, 30);
    assert_eq!(d, 40);
}

#[test]
fn test_push_pop_vec2() {
    let mut stack = ValueStack::new(64);

    let v = Vec2::new(dec(1.5), dec(2.5));
    stack.push_vec2(v).unwrap();

    assert_eq!(stack.sp(), 2);

    let result = stack.pop_vec2().unwrap();
    assert_eq!(to_f32(result.x), 1.5);
    assert_eq!(to_f32(result.y), 2.5);
    assert_eq!(stack.sp(), 0);
}

#[test]
fn test_push_pop_vec3() {
    let mut stack = ValueStack::new(64);

    let v = Vec3::new(dec(1.5), dec(2.5), dec(3.5));
    stack.push_vec3(v).unwrap();

    assert_eq!(stack.sp(), 3);

    let result = stack.pop_vec3().unwrap();
    assert_eq!(to_f32(result.x), 1.5);
    assert_eq!(to_f32(result.y), 2.5);
    assert_eq!(to_f32(result.z), 3.5);
    assert_eq!(stack.sp(), 0);
}

#[test]
fn test_push_pop_vec4() {
    let mut stack = ValueStack::new(64);

    let v = Vec4::new(
        dec(1.5),
        dec(2.5),
        dec(3.5),
        dec(4.5),
    );
    stack.push_vec4(v).unwrap();

    assert_eq!(stack.sp(), 4);

    let result = stack.pop_vec4().unwrap();
    assert_eq!(to_f32(result.x), 1.5);
    assert_eq!(to_f32(result.y), 2.5);
    assert_eq!(to_f32(result.z), 3.5);
    assert_eq!(to_f32(result.w), 4.5);
    assert_eq!(stack.sp(), 0);
}

#[test]
fn test_stack_overflow() {
    let mut stack = ValueStack::new(2);

    stack.push_int32(1).unwrap();
    stack.push_int32(2).unwrap();

    let result = stack.push_int32(3);
    assert!(matches!(result, Err(LpsVmError::StackOverflow { sp: 2 })));
}

#[test]
fn test_stack_underflow() {
    let mut stack = ValueStack::new(64);

    let result = stack.pop_int32();
    assert!(matches!(
        result,
        Err(LpsVmError::StackUnderflow {
            required: 1,
            actual: 0
        })
    ));
}

#[test]
fn value_stack_test_reset() {
    let mut stack = ValueStack::new(64);

    stack.push_int32(1).unwrap();
    stack.push_int32(2).unwrap();
    stack.push_int32(3).unwrap();

    assert_eq!(stack.sp(), 3);

    stack.reset();
    assert_eq!(stack.sp(), 0);
}

#[test]
fn test_dup1() {
    let mut stack = ValueStack::new(64);

    stack.push_int32(42).unwrap();
    stack.dup1().unwrap();

    assert_eq!(stack.sp(), 2);
    assert_eq!(stack.raw_slice()[0], 42);
    assert_eq!(stack.raw_slice()[1], 42);
}

#[test]
fn test_dup2() {
    let mut stack = ValueStack::new(64);

    stack.push_int32(10).unwrap();
    stack.push_int32(20).unwrap();
    stack.dup2().unwrap();

    assert_eq!(stack.sp(), 4);
    assert_eq!(stack.raw_slice()[0], 10);
    assert_eq!(stack.raw_slice()[1], 20);
    assert_eq!(stack.raw_slice()[2], 10);
    assert_eq!(stack.raw_slice()[3], 20);
}

#[test]
fn test_dup3() {
    let mut stack = ValueStack::new(64);

    stack.push_int32(10).unwrap();
    stack.push_int32(20).unwrap();
    stack.push_int32(30).unwrap();
    stack.dup3().unwrap();

    assert_eq!(stack.sp(), 6);
    assert_eq!(stack.raw_slice()[0], 10);
    assert_eq!(stack.raw_slice()[1], 20);
    assert_eq!(stack.raw_slice()[2], 30);
    assert_eq!(stack.raw_slice()[3], 10);
    assert_eq!(stack.raw_slice()[4], 20);
    assert_eq!(stack.raw_slice()[5], 30);
}

#[test]
fn test_dup4() {
    let mut stack = ValueStack::new(64);

    stack.push_int32(10).unwrap();
    stack.push_int32(20).unwrap();
    stack.push_int32(30).unwrap();
    stack.push_int32(40).unwrap();
    stack.dup4().unwrap();

    assert_eq!(stack.sp(), 8);
    assert_eq!(stack.raw_slice()[0], 10);
    assert_eq!(stack.raw_slice()[1], 20);
    assert_eq!(stack.raw_slice()[2], 30);
    assert_eq!(stack.raw_slice()[3], 40);
    assert_eq!(stack.raw_slice()[4], 10);
    assert_eq!(stack.raw_slice()[5], 20);
    assert_eq!(stack.raw_slice()[6], 30);
    assert_eq!(stack.raw_slice()[7], 40);
}

#[test]
fn test_drop1() {
    let mut stack = ValueStack::new(64);

    stack.push_int32(10).unwrap();
    stack.push_int32(20).unwrap();
    stack.drop1().unwrap();

    assert_eq!(stack.sp(), 1);
    assert_eq!(stack.raw_slice()[0], 10);
}

#[test]
fn test_drop2() {
    let mut stack = ValueStack::new(64);

    stack.push_int32(10).unwrap();
    stack.push_int32(20).unwrap();
    stack.push_int32(30).unwrap();
    stack.drop2().unwrap();

    assert_eq!(stack.sp(), 1);
    assert_eq!(stack.raw_slice()[0], 10);
}

#[test]
fn test_drop3() {
    let mut stack = ValueStack::new(64);

    stack.push_int32(10).unwrap();
    stack.push_int32(20).unwrap();
    stack.push_int32(30).unwrap();
    stack.push_int32(40).unwrap();
    stack.drop3().unwrap();

    assert_eq!(stack.sp(), 1);
    assert_eq!(stack.raw_slice()[0], 10);
}

#[test]
fn test_drop4() {
    let mut stack = ValueStack::new(64);

    stack.push_int32(10).unwrap();
    stack.push_int32(20).unwrap();
    stack.push_int32(30).unwrap();
    stack.push_int32(40).unwrap();
    stack.push_int32(50).unwrap();
    stack.drop4().unwrap();

    assert_eq!(stack.sp(), 1);
    assert_eq!(stack.raw_slice()[0], 10);
}

#[test]
fn test_swap() {
    let mut stack = ValueStack::new(64);

    stack.push_int32(10).unwrap();
    stack.push_int32(20).unwrap();
    stack.swap().unwrap();

    assert_eq!(stack.sp(), 2);
    assert_eq!(stack.raw_slice()[0], 20);
    assert_eq!(stack.raw_slice()[1], 10);
}

#[test]
fn test_swizzle3to2_xy() {
    let mut stack = ValueStack::new(64);

    // Push vec3(10, 20, 30)
    stack.push3(10, 20, 30).unwrap();

    // Swizzle to .xy (indices 0, 1)
    stack.swizzle3to2(0, 1).unwrap();

    assert_eq!(stack.sp(), 2);
    assert_eq!(stack.raw_slice()[0], 10);
    assert_eq!(stack.raw_slice()[1], 20);
}

#[test]
fn test_swizzle3to2_yz() {
    let mut stack = ValueStack::new(64);

    // Push vec3(10, 20, 30)
    stack.push3(10, 20, 30).unwrap();

    // Swizzle to .yz (indices 1, 2)
    stack.swizzle3to2(1, 2).unwrap();

    assert_eq!(stack.sp(), 2);
    assert_eq!(stack.raw_slice()[0], 20);
    assert_eq!(stack.raw_slice()[1], 30);
}

#[test]
fn test_swizzle3to3_zyx() {
    let mut stack = ValueStack::new(64);

    // Push vec3(10, 20, 30)
    stack.push3(10, 20, 30).unwrap();

    // Swizzle to .zyx (indices 2, 1, 0)
    stack.swizzle3to3(2, 1, 0).unwrap();

    assert_eq!(stack.sp(), 3);
    assert_eq!(stack.raw_slice()[0], 30);
    assert_eq!(stack.raw_slice()[1], 20);
    assert_eq!(stack.raw_slice()[2], 10);
}

#[test]
fn test_swizzle4to2_xy() {
    let mut stack = ValueStack::new(64);

    // Push vec4(10, 20, 30, 40)
    stack.push4(10, 20, 30, 40).unwrap();

    // Swizzle to .xy (indices 0, 1)
    stack.swizzle4to2(0, 1).unwrap();

    assert_eq!(stack.sp(), 2);
    assert_eq!(stack.raw_slice()[0], 10);
    assert_eq!(stack.raw_slice()[1], 20);
}

#[test]
fn test_swizzle4to2_zw() {
    let mut stack = ValueStack::new(64);

    // Push vec4(10, 20, 30, 40)
    stack.push4(10, 20, 30, 40).unwrap();

    // Swizzle to .zw (indices 2, 3)
    stack.swizzle4to2(2, 3).unwrap();

    assert_eq!(stack.sp(), 2);
    assert_eq!(stack.raw_slice()[0], 30);
    assert_eq!(stack.raw_slice()[1], 40);
}

#[test]
fn test_swizzle4to3_xyz() {
    let mut stack = ValueStack::new(64);

    // Push vec4(10, 20, 30, 40)
    stack.push4(10, 20, 30, 40).unwrap();

    // Swizzle to .xyz (indices 0, 1, 2)
    stack.swizzle4to3(0, 1, 2).unwrap();

    assert_eq!(stack.sp(), 3);
    assert_eq!(stack.raw_slice()[0], 10);
    assert_eq!(stack.raw_slice()[1], 20);
    assert_eq!(stack.raw_slice()[2], 30);
}

#[test]
fn test_swizzle4to4_wzyx() {
    let mut stack = ValueStack::new(64);

    // Push vec4(10, 20, 30, 40)
    stack.push4(10, 20, 30, 40).unwrap();

    // Swizzle to .wzyx (indices 3, 2, 1, 0)
    stack.swizzle4to4(3, 2, 1, 0).unwrap();

    assert_eq!(stack.sp(), 4);
    assert_eq!(stack.raw_slice()[0], 40);
    assert_eq!(stack.raw_slice()[1], 30);
    assert_eq!(stack.raw_slice()[2], 20);
    assert_eq!(stack.raw_slice()[3], 10);
}

#[test]
fn test_dup_underflow() {
    let mut stack = ValueStack::new(64);

    let result = stack.dup1();
    assert!(matches!(
        result,
        Err(LpsVmError::StackUnderflow {
            required: 1,
            actual: 0
        })
    ));
}

#[test]
fn test_drop_underflow() {
    let mut stack = ValueStack::new(64);

    let result = stack.drop1();
    assert!(matches!(
        result,
        Err(LpsVmError::StackUnderflow {
            required: 1,
            actual: 0
        })
    ));
}

#[test]
fn test_swizzle_underflow() {
    let mut stack = ValueStack::new(64);

    stack.push2(10, 20).unwrap(); // Only 2 values on stack

    let result = stack.swizzle3to2(0, 1);
    assert!(matches!(
        result,
        Err(LpsVmError::StackUnderflow {
            required: 3,
            actual: 2
        })
    ));
}

#[test]
fn test_greater() {
    let mut stack = Stack::new(64);
    stack.push_dec32(dec(5.0)).unwrap();
    stack.push_dec32(dec(3.0)).unwrap();
    exec_greater_dec32(&mut stack).unwrap();
    assert_eq!(stack.pop_int32().unwrap(), Dec32::one().0);
}

#[test]
fn test_less() {
    let mut stack = Stack::new(64);
    stack.push_dec32(dec(3.0)).unwrap();
    stack.push_dec32(dec(5.0)).unwrap();
    exec_less_dec32(&mut stack).unwrap();
    assert_eq!(stack.pop_int32().unwrap(), Dec32::one().0);
}

#[test]
fn test_eq() {
    let mut stack = Stack::new(64);
    stack.push_dec32(dec(5.0)).unwrap();
    stack.push_dec32(dec(5.0)).unwrap();
    exec_eq_dec32(&mut stack).unwrap();
    assert_eq!(stack.pop_int32().unwrap(), Dec32::one().0);
}

#[test]
fn test_not_eq() {
    let mut stack = Stack::new(64);
    stack.push_dec32(dec(5.0)).unwrap();
    stack.push_dec32(dec(3.0)).unwrap();
    exec_not_eq_dec32(&mut stack).unwrap();
    assert_eq!(stack.pop_int32().unwrap(), Dec32::one().0);
}

#[test]
fn fixed_basic_test_add() {
    let mut stack = ValueStack::new(64);

    stack.push_dec32(dec(2.0)).unwrap();
    stack.push_dec32(dec(3.0)).unwrap();

    exec_add_dec32(&mut stack).unwrap();

    assert_eq!(stack.sp(), 1);
    assert_eq!(to_f32(stack.pop_dec32().unwrap()), 5.0);
}

#[test]
fn fixed_basic_test_sub() {
    let mut stack = ValueStack::new(64);

    stack.push_dec32(dec(5.0)).unwrap();
    stack.push_dec32(dec(3.0)).unwrap();

    exec_sub_dec32(&mut stack).unwrap();

    assert_eq!(stack.sp(), 1);
    assert_eq!(to_f32(stack.pop_dec32().unwrap()), 2.0);
}

#[test]
fn test_mul() {
    let mut stack = ValueStack::new(64);

    stack.push_dec32(dec(4.0)).unwrap();
    stack.push_dec32(dec(3.0)).unwrap();

    exec_mul_dec32(&mut stack).unwrap();

    assert_eq!(stack.sp(), 1);
    assert_eq!(to_f32(stack.pop_dec32().unwrap()), 12.0);
}

#[test]
fn test_div() {
    let mut stack = ValueStack::new(64);

    stack.push_dec32(dec(12.0)).unwrap();
    stack.push_dec32(dec(4.0)).unwrap();

    exec_div_dec32(&mut stack).unwrap();

    assert_eq!(stack.sp(), 1);
    assert_eq!(to_f32(stack.pop_dec32().unwrap()), 3.0);
}

#[test]
fn test_div_by_zero() {
    let mut stack = ValueStack::new(64);

    stack.push_dec32(dec(5.0)).unwrap();
    stack.push_dec32(dec(0.0)).unwrap();

    let result = exec_div_dec32(&mut stack);
    assert!(matches!(result, Err(LpsVmError::DivisionByZero)));
}

#[test]
fn test_neg() {
    let mut stack = ValueStack::new(64);

    stack.push_dec32(dec(5.0)).unwrap();

    exec_neg_dec32(&mut stack).unwrap();

    assert_eq!(stack.sp(), 1);
    assert_eq!(to_f32(stack.pop_dec32().unwrap()), -5.0);
}

#[test]
fn test_abs() {
    let mut stack = ValueStack::new(64);

    stack.push_dec32(dec(-5.0)).unwrap();

    exec_abs_dec32(&mut stack).unwrap();

    assert_eq!(stack.sp(), 1);
    assert_eq!(to_f32(stack.pop_dec32().unwrap()), 5.0);
}

#[test]
fn test_min() {
    let mut stack = ValueStack::new(64);

    stack.push_dec32(dec(5.0)).unwrap();
    stack.push_dec32(dec(3.0)).unwrap();

    exec_min_dec32(&mut stack).unwrap();

    assert_eq!(stack.sp(), 1);
    assert_eq!(to_f32(stack.pop_dec32().unwrap()), 3.0);
}

#[test]
fn test_max() {
    let mut stack = ValueStack::new(64);

    stack.push_dec32(dec(5.0)).unwrap();
    stack.push_dec32(dec(3.0)).unwrap();

    exec_max_dec32(&mut stack).unwrap();

    assert_eq!(stack.sp(), 1);
    assert_eq!(to_f32(stack.pop_dec32().unwrap()), 5.0);
}

#[test]
fn test_texture_sample_r_stub() {
    let mut stack = ValueStack::new(64);

    // Push UV coordinates
    stack.push_dec32(dec(0.5)).unwrap(); // u
    stack.push_dec32(dec(0.5)).unwrap(); // v

    exec_texture_sample_r(&mut stack, 0).unwrap();

    assert_eq!(stack.sp(), 1);
    assert_eq!(to_f32(Dec32(stack.raw_slice()[0])), 0.5);
}

#[test]
fn test_texture_sample_rgba_stub() {
    let mut stack = ValueStack::new(64);

    // Push UV coordinates
    stack.push_dec32(dec(0.5)).unwrap(); // u
    stack.push_dec32(dec(0.5)).unwrap(); // v

    exec_texture_sample_rgba(&mut stack, 0).unwrap();

    assert_eq!(stack.sp(), 4);
    assert_eq!(to_f32(Dec32(stack.raw_slice()[0])), 0.5);
    assert_eq!(to_f32(Dec32(stack.raw_slice()[1])), 0.5);
    assert_eq!(to_f32(Dec32(stack.raw_slice()[2])), 0.5);
    assert_eq!(to_f32(Dec32(stack.raw_slice()[3])), 1.0);
}

#[test]
fn test_texture_sample_underflow() {
    let mut stack = ValueStack::new(64);
    stack.push_int32(1).unwrap(); // Only 1 value, need 2 (UV)

    let result = exec_texture_sample_r(&mut stack, 0);
    assert!(matches!(
        result,
        Err(LpsVmError::StackUnderflow {
            required: 2,
            actual: 1
        })
    ));
}
