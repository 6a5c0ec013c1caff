//! The value stack of the script virtual machine.
use vstd::prelude::*;

use super::error::LpsVmError;
use crate::dec32::dec32::Dec32;
use crate::dec32::mat3::Mat3;
use crate::dec32::vec2::Vec2;
use crate::dec32::vec3::Vec3;
use crate::fixed::vec4::Vec4;

verus! {

/// `s` with the values `vals` written from position `at` on.
pub open spec fn written(s: Seq<i32>, at: int, vals: Seq<i32>) -> Seq<i32> {
    Seq::new(s.len(), |i: int| if at <= i < at + vals.len() { vals[i - at] } else { s[i] })
}

/// Values pushed at depth `d` are what the following pops read back, in order, and
/// the values below `d` are left as they were.
pub proof fn lemma_push_then_pop(s: Seq<i32>, d: int, vals: Seq<i32>)
    requires
        0 <= d,
        d + vals.len() <= s.len(),
    ensures
        written(s, d, vals).subrange(d, d + vals.len()) == vals,
        written(s, d, vals).subrange(0, d) == s.subrange(0, d),
        written(s, d, vals).len() == s.len(),
{
    assert(written(s, d, vals).subrange(d, d + vals.len()) =~= vals);
    assert(written(s, d, vals).subrange(0, d) =~= s.subrange(0, d));
}

/// The first stack has the same contents, depth and limit as the second.
pub open spec fn unchanged(a: ValueStack, b: ValueStack) -> bool {
    a.slots() == b.slots() && a.depth() == b.depth() && a.limit() == b.limit()
}

/// The error of an operation that needs `n` values on a stack holding `depth`.
pub open spec fn underflow(n: nat, depth: nat) -> LpsVmError {
    LpsVmError::StackUnderflow { required: n as usize, actual: depth as usize }
}

/// The error of an operation that finds the stack full at `depth`.
pub open spec fn overflow(depth: nat) -> LpsVmError {
    LpsVmError::StackOverflow { sp: depth as usize }
}

/// Stack of raw 32-bit values for the VM.
///
/// Values are stored untyped (`i32`); the typed push and pop operations move
/// fixed-point numbers, integers, vectors and matrices as one, two, three, four
/// or nine slots.
pub struct ValueStack {
    data: Vec<i32>,
    sp: usize,
    max_size: usize,
}

impl ValueStack {
    /// All slots of the stack (live ones below `depth()`, stale ones above).
    pub closed spec fn slots(&self) -> Seq<i32> {
        self.data@
    }

    /// The number of live values (the stack pointer).
    pub closed spec fn depth(&self) -> nat {
        self.sp as nat
    }

    /// The maximum number of values.
    pub closed spec fn limit(&self) -> nat {
        self.max_size as nat
    }

    /// The stack is well formed: one slot per possible value, the depth within the
    /// limit, and the limit small enough that slot arithmetic cannot overflow.
    pub open spec fn wf(&self) -> bool {
        &&& self.slots().len() == self.limit()
        &&& self.depth() <= self.limit()
        &&& self.limit() <= usize::MAX / 8
    }

    /// The value `k` places below the top (`1` is the top).
    pub open spec fn peek(&self, k: int) -> i32 {
        self.slots()[self.depth() - k]
    }

    /// The live values, bottom first.
    pub open spec fn live(&self) -> Seq<i32> {
        self.slots().subrange(0, self.depth() as int)
    }

    /// Create a new stack with the given maximum size.
    pub fn try_new(max_size: usize) -> (r: Result<ValueStack, LpsVmError>)
        requires
            max_size <= usize::MAX / 8,
        ensures
            r is Ok,
            r matches Ok(s) && s.wf() && s.depth() == 0 && s.limit() == max_size
                && s.slots() == Seq::new(max_size as nat, |i: int| 0i32),
    {
        Ok(ValueStack::new(max_size))
    }

    /// Create a new stack with the given maximum size, all slots zero.
    pub fn new(max_size: usize) -> (r: ValueStack)
        requires
            max_size <= usize::MAX / 8,
        ensures
            r.wf(),
            r.depth() == 0,
            r.limit() == max_size,
            r.slots() == Seq::new(max_size as nat, |i: int| 0i32),
    {
        let data: Vec<i32> = if max_size > 0 {
            vec![0; max_size]
        } else {
            Vec::new()
        };
        assert(data@ =~= Seq::new(max_size as nat, |i: int| 0i32));
        ValueStack { data, sp: 0, max_size }
    }

    /// Reset the stack pointer to 0.
    pub fn reset(&mut self)
        requires
            old(self).wf(),
        ensures
            final(self).wf(),
            final(self).depth() == 0,
            final(self).slots() == old(self).slots(),
            final(self).limit() == old(self).limit(),
    {
        self.sp = 0;
    }

    /// The current stack pointer.
    pub fn sp(&self) -> (r: usize)
        ensures
            r == self.depth(),
    {
        self.sp
    }

    /// All slots, read-only.
    pub fn raw_slice(&self) -> (r: &[i32])
        ensures
            r@ == self.slots(),
    {
        self.data.as_slice()
    }

    /// All slots, writable.
    pub fn raw_slice_mut(&mut self) -> (r: &mut [i32])
        requires
            old(self).wf(),
        ensures
            r@ == old(self).slots(),
            final(r)@ == final(self).slots(),
            final(self).depth() == old(self).depth(),
            final(self).limit() == old(self).limit(),
    {
        self.data.as_mut_slice()
    }

    /// The live values as fixed-point numbers, bottom first.
    pub fn to_vec_dec32(&self) -> (r: Vec<Dec32>)
        requires
            self.wf(),
        ensures
            r@.len() == self.depth(),
            forall|i: int| 0 <= i < self.depth() ==> #[trigger] r@[i] == Dec32(self.slots()[i]),
    {
        let mut out: Vec<Dec32> = Vec::new();
        let mut i: usize = 0;
        while i < self.sp
            invariant
                self.wf(),
                i <= self.sp,
                out@.len() == i,
                forall|j: int| 0 <= j < i ==> #[trigger] out@[j] == Dec32(self.slots()[j]),
            decreases self.sp - i,
        {
            out.push(Dec32(self.data[i]));
            i = i + 1;
        }
        out
    }

    // === Single values ===

    /// Push a fixed-point value.
    pub fn push_dec32(&mut self, val: Dec32) -> (r: Result<(), LpsVmError>)
        requires
            old(self).wf(),
        ensures
            final(self).wf(),
            final(self).limit() == old(self).limit(),
            old(self).depth() + 1 <= old(self).limit() ==> r == Ok::<(), LpsVmError>(())
                && final(self).depth() == old(self).depth() + 1
                && final(self).slots() == written(old(self).slots(), old(self).depth() as int, seq![val.0]),
            old(self).depth() + 1 > old(self).limit() ==> r == Err::<(), LpsVmError>(overflow(old(self).depth()))
                && unchanged(*old(self), *final(self)),
    {
        if self.sp + 1 > self.max_size {
            return Err(LpsVmError::StackOverflow { sp: self.sp });
        }
        let ghost d = self.sp as int;
        self.data.set(self.sp + 0, val.0);
        self.sp = self.sp + 1;
        assert(self.data@ =~= written(old(self).data@, d, seq![val.0]));
        Ok(())
    }

    /// Pop a fixed-point value.
    pub fn pop_dec32(&mut self) -> (r: Result<Dec32, LpsVmError>)
        requires
            old(self).wf(),
        ensures
            final(self).wf(),
            final(self).limit() == old(self).limit(),
            final(self).slots() == old(self).slots(),
            old(self).depth() >= 1 ==> r == Ok::<Dec32, LpsVmError>(Dec32(old(self).peek(1)))
                && final(self).depth() == old(self).depth() - 1,
            old(self).depth() < 1 ==> r == Err::<Dec32, LpsVmError>(underflow(1, old(self).depth()))
                && final(self).depth() == old(self).depth(),
    {
        if self.sp == 0 {
            return Err(LpsVmError::StackUnderflow { required: 1, actual: 0 });
        }
        self.sp = self.sp - 1;
        Ok(Dec32(self.data[self.sp]))
    }

    /// Push an integer value.
    pub fn push_int32(&mut self, val: i32) -> (r: Result<(), LpsVmError>)
        requires
            old(self).wf(),
        ensures
            final(self).wf(),
            final(self).limit() == old(self).limit(),
            old(self).depth() + 1 <= old(self).limit() ==> r == Ok::<(), LpsVmError>(())
                && final(self).depth() == old(self).depth() + 1
                && final(self).slots() == written(old(self).slots(), old(self).depth() as int, seq![val]),
            old(self).depth() + 1 > old(self).limit() ==> r == Err::<(), LpsVmError>(overflow(old(self).depth()))
                && unchanged(*old(self), *final(self)),
    {
        if self.sp + 1 > self.max_size {
            return Err(LpsVmError::StackOverflow { sp: self.sp });
        }
        let ghost d = self.sp as int;
        self.data.set(self.sp + 0, val);
        self.sp = self.sp + 1;
        assert(self.data@ =~= written(old(self).data@, d, seq![val]));
        Ok(())
    }

    /// Pop an integer value.
    pub fn pop_int32(&mut self) -> (r: Result<i32, LpsVmError>)
        requires
            old(self).wf(),
        ensures
            final(self).wf(),
            final(self).limit() == old(self).limit(),
            final(self).slots() == old(self).slots(),
            old(self).depth() >= 1 ==> r == Ok::<i32, LpsVmError>(old(self).peek(1))
                && final(self).depth() == old(self).depth() - 1,
            old(self).depth() < 1 ==> r == Err::<i32, LpsVmError>(underflow(1, old(self).depth()))
                && final(self).depth() == old(self).depth(),
    {
        if self.sp == 0 {
            return Err(LpsVmError::StackUnderflow { required: 1, actual: 0 });
        }
        self.sp = self.sp - 1;
        Ok(self.data[self.sp])
    }

    // === Several raw values ===

    /// Pop two raw values, returned bottom first.
    pub fn pop2(&mut self) -> (r: Result<(i32, i32), LpsVmError>)
        requires
            old(self).wf(),
        ensures
            final(self).wf(),
            final(self).limit() == old(self).limit(),
            final(self).slots() == old(self).slots(),
            old(self).depth() >= 2 ==> r == Ok::<(i32, i32), LpsVmError>((old(self).peek(2), old(self).peek(1)))
                && final(self).depth() == old(self).depth() - 2,
            old(self).depth() < 2 ==> r == Err::<(i32, i32), LpsVmError>(underflow(2, old(self).depth()))
                && final(self).depth() == old(self).depth(),
    {
        if self.sp < 2 {
            return Err(LpsVmError::StackUnderflow { required: 2, actual: self.sp });
        }
        self.sp = self.sp - 1;
        let b = self.data[self.sp];
        self.sp = self.sp - 1;
        let a = self.data[self.sp];
        Ok((a, b))
    }

    /// Pop three raw values, returned bottom first.
    pub fn pop3(&mut self) -> (r: Result<(i32, i32, i32), LpsVmError>)
        requires
            old(self).wf(),
        ensures
            final(self).wf(),
            final(self).limit() == old(self).limit(),
            final(self).slots() == old(self).slots(),
            old(self).depth() >= 3 ==> r == Ok::<(i32, i32, i32), LpsVmError>((old(self).peek(3), old(self).peek(2), old(self).peek(1)))
                && final(self).depth() == old(self).depth() - 3,
            old(self).depth() < 3 ==> r == Err::<(i32, i32, i32), LpsVmError>(underflow(3, old(self).depth()))
                && final(self).depth() == old(self).depth(),
    {
        if self.sp < 3 {
            return Err(LpsVmError::StackUnderflow { required: 3, actual: self.sp });
        }
        self.sp = self.sp - 1;
        let c = self.data[self.sp];
        self.sp = self.sp - 1;
        let b = self.data[self.sp];
        self.sp = self.sp - 1;
        let a = self.data[self.sp];
        Ok((a, b, c))
    }

    /// Pop four raw values, returned bottom first.
    pub fn pop4(&mut self) -> (r: Result<(i32, i32, i32, i32), LpsVmError>)
        requires
            old(self).wf(),
        ensures
            final(self).wf(),
            final(self).limit() == old(self).limit(),
            final(self).slots() == old(self).slots(),
            old(self).depth() >= 4 ==> r == Ok::<(i32, i32, i32, i32), LpsVmError>((old(self).peek(4), old(self).peek(3), old(self).peek(2), old(self).peek(1)))
                && final(self).depth() == old(self).depth() - 4,
            old(self).depth() < 4 ==> r == Err::<(i32, i32, i32, i32), LpsVmError>(underflow(4, old(self).depth()))
                && final(self).depth() == old(self).depth(),
    {
        if self.sp < 4 {
            return Err(LpsVmError::StackUnderflow { required: 4, actual: self.sp });
        }
        self.sp = self.sp - 1;
        let d = self.data[self.sp];
        self.sp = self.sp - 1;
        let c = self.data[self.sp];
        self.sp = self.sp - 1;
        let b = self.data[self.sp];
        self.sp = self.sp - 1;
        let a = self.data[self.sp];
        Ok((a, b, c, d))
    }

    /// Push two raw values.
    pub fn push2(&mut self, v0: i32, v1: i32) -> (r: Result<(), LpsVmError>)
        requires
            old(self).wf(),
        ensures
            final(self).wf(),
            final(self).limit() == old(self).limit(),
            old(self).depth() + 2 <= old(self).limit() ==> r == Ok::<(), LpsVmError>(())
                && final(self).depth() == old(self).depth() + 2
                && final(self).slots() == written(old(self).slots(), old(self).depth() as int, seq![v0, v1]),
            old(self).depth() + 2 > old(self).limit() ==> r == Err::<(), LpsVmError>(overflow(old(self).depth()))
                && unchanged(*old(self), *final(self)),
    {
        if self.sp + 2 > self.max_size {
            return Err(LpsVmError::StackOverflow { sp: self.sp });
        }
        let ghost d = self.sp as int;
        self.data.set(self.sp + 0, v0);
        self.data.set(self.sp + 1, v1);
        self.sp = self.sp + 2;
        assert(self.data@ =~= written(old(self).data@, d, seq![v0, v1]));
        Ok(())
    }

    /// Push three raw values.
    pub fn push3(&mut self, v0: i32, v1: i32, v2: i32) -> (r: Result<(), LpsVmError>)
        requires
            old(self).wf(),
        ensures
            final(self).wf(),
            final(self).limit() == old(self).limit(),
            old(self).depth() + 3 <= old(self).limit() ==> r == Ok::<(), LpsVmError>(())
                && final(self).depth() == old(self).depth() + 3
                && final(self).slots() == written(old(self).slots(), old(self).depth() as int, seq![v0, v1, v2]),
            old(self).depth() + 3 > old(self).limit() ==> r == Err::<(), LpsVmError>(overflow(old(self).depth()))
                && unchanged(*old(self), *final(self)),
    {
        if self.sp + 3 > self.max_size {
            return Err(LpsVmError::StackOverflow { sp: self.sp });
        }
        let ghost d = self.sp as int;
        self.data.set(self.sp + 0, v0);
        self.data.set(self.sp + 1, v1);
        self.data.set(self.sp + 2, v2);
        self.sp = self.sp + 3;
        assert(self.data@ =~= written(old(self).data@, d, seq![v0, v1, v2]));
        Ok(())
    }

    /// Push four raw values.
    pub fn push4(&mut self, v0: i32, v1: i32, v2: i32, v3: i32) -> (r: Result<(), LpsVmError>)
        requires
            old(self).wf(),
        ensures
            final(self).wf(),
            final(self).limit() == old(self).limit(),
            old(self).depth() + 4 <= old(self).limit() ==> r == Ok::<(), LpsVmError>(())
                && final(self).depth() == old(self).depth() + 4
                && final(self).slots() == written(old(self).slots(), old(self).depth() as int, seq![v0, v1, v2, v3]),
            old(self).depth() + 4 > old(self).limit() ==> r == Err::<(), LpsVmError>(overflow(old(self).depth()))
                && unchanged(*old(self), *final(self)),
    {
        if self.sp + 4 > self.max_size {
            return Err(LpsVmError::StackOverflow { sp: self.sp });
        }
        let ghost d = self.sp as int;
        self.data.set(self.sp + 0, v0);
        self.data.set(self.sp + 1, v1);
        self.data.set(self.sp + 2, v2);
        self.data.set(self.sp + 3, v3);
        self.sp = self.sp + 4;
        assert(self.data@ =~= written(old(self).data@, d, seq![v0, v1, v2, v3]));
        Ok(())
    }

    // === Vectors and matrices ===

    /// Push a 2D vector as two values.
    pub fn push_vec2(&mut self, v: Vec2) -> (r: Result<(), LpsVmError>)
        requires
            old(self).wf(),
        ensures
            final(self).wf(),
            final(self).limit() == old(self).limit(),
            old(self).depth() + 2 <= old(self).limit() ==> r == Ok::<(), LpsVmError>(())
                && final(self).depth() == old(self).depth() + 2
                && final(self).slots() == written(old(self).slots(), old(self).depth() as int, seq![v.x.0, v.y.0]),
            old(self).depth() + 2 > old(self).limit() ==> r == Err::<(), LpsVmError>(overflow(old(self).depth()))
                && unchanged(*old(self), *final(self)),
    {
        self.push2(v.x.0, v.y.0)
    }

    /// Pop a 2D vector.
    pub fn pop_vec2(&mut self) -> (r: Result<Vec2, LpsVmError>)
        requires
            old(self).wf(),
        ensures
            final(self).wf(),
            final(self).limit() == old(self).limit(),
            final(self).slots() == old(self).slots(),
            old(self).depth() >= 2 ==> r == Ok::<Vec2, LpsVmError>(Vec2 { x: Dec32(old(self).peek(2)), y: Dec32(old(self).peek(1)) })
                && final(self).depth() == old(self).depth() - 2,
            old(self).depth() < 2 ==> r == Err::<Vec2, LpsVmError>(underflow(2, old(self).depth()))
                && final(self).depth() == old(self).depth(),
    {
        let (x, y) = self.pop2()?;
        Ok(Vec2::new(Dec32(x), Dec32(y)))
    }

    /// Push a 3D vector as three values.
    pub fn push_vec3(&mut self, v: Vec3) -> (r: Result<(), LpsVmError>)
        requires
            old(self).wf(),
        ensures
            final(self).wf(),
            final(self).limit() == old(self).limit(),
            old(self).depth() + 3 <= old(self).limit() ==> r == Ok::<(), LpsVmError>(())
                && final(self).depth() == old(self).depth() + 3
                && final(self).slots() == written(old(self).slots(), old(self).depth() as int, seq![v.x.0, v.y.0, v.z.0]),
            old(self).depth() + 3 > old(self).limit() ==> r == Err::<(), LpsVmError>(overflow(old(self).depth()))
                && unchanged(*old(self), *final(self)),
    {
        self.push3(v.x.0, v.y.0, v.z.0)
    }

    /// Pop a 3D vector.
    pub fn pop_vec3(&mut self) -> (r: Result<Vec3, LpsVmError>)
        requires
            old(self).wf(),
        ensures
            final(self).wf(),
            final(self).limit() == old(self).limit(),
            final(self).slots() == old(self).slots(),
            old(self).depth() >= 3 ==> r == Ok::<Vec3, LpsVmError>(Vec3 { x: Dec32(old(self).peek(3)), y: Dec32(old(self).peek(2)), z: Dec32(old(self).peek(1)) })
                && final(self).depth() == old(self).depth() - 3,
            old(self).depth() < 3 ==> r == Err::<Vec3, LpsVmError>(underflow(3, old(self).depth()))
                && final(self).depth() == old(self).depth(),
    {
        let (x, y, z) = self.pop3()?;
        Ok(Vec3::new(Dec32(x), Dec32(y), Dec32(z)))
    }

    /// Push a 4D vector as four values.
    pub fn push_vec4(&mut self, v: Vec4) -> (r: Result<(), LpsVmError>)
        requires
            old(self).wf(),
        ensures
            final(self).wf(),
            final(self).limit() == old(self).limit(),
            old(self).depth() + 4 <= old(self).limit() ==> r == Ok::<(), LpsVmError>(())
                && final(self).depth() == old(self).depth() + 4
                && final(self).slots() == written(old(self).slots(), old(self).depth() as int, seq![v.x.0, v.y.0, v.z.0, v.w.0]),
            old(self).depth() + 4 > old(self).limit() ==> r == Err::<(), LpsVmError>(overflow(old(self).depth()))
                && unchanged(*old(self), *final(self)),
    {
        self.push4(v.x.0, v.y.0, v.z.0, v.w.0)
    }

    /// Pop a 4D vector.
    pub fn pop_vec4(&mut self) -> (r: Result<Vec4, LpsVmError>)
        requires
            old(self).wf(),
        ensures
            final(self).wf(),
            final(self).limit() == old(self).limit(),
            final(self).slots() == old(self).slots(),
            old(self).depth() >= 4 ==> r == Ok::<Vec4, LpsVmError>(Vec4 { x: Dec32(old(self).peek(4)), y: Dec32(old(self).peek(3)), z: Dec32(old(self).peek(2)), w: Dec32(old(self).peek(1)) })
                && final(self).depth() == old(self).depth() - 4,
            old(self).depth() < 4 ==> r == Err::<Vec4, LpsVmError>(underflow(4, old(self).depth()))
                && final(self).depth() == old(self).depth(),
    {
        let (x, y, z, w) = self.pop4()?;
        Ok(Vec4::new(Dec32(x), Dec32(y), Dec32(z), Dec32(w)))
    }

    /// Push nine raw values.
    pub fn push9(&mut self, v0: i32, v1: i32, v2: i32, v3: i32, v4: i32, v5: i32, v6: i32, v7: i32, v8: i32) -> (r: Result<(), LpsVmError>)
        requires
            old(self).wf(),
        ensures
            final(self).wf(),
            final(self).limit() == old(self).limit(),
            old(self).depth() + 9 <= old(self).limit() ==> r == Ok::<(), LpsVmError>(())
                && final(self).depth() == old(self).depth() + 9
                && final(self).slots() == written(old(self).slots(), old(self).depth() as int, seq![v0, v1, v2, v3, v4, v5, v6, v7, v8]),
            old(self).depth() + 9 > old(self).limit() ==> r == Err::<(), LpsVmError>(overflow(old(self).depth()))
                && unchanged(*old(self), *final(self)),
    {
        if self.sp + 9 > self.max_size {
            return Err(LpsVmError::StackOverflow { sp: self.sp });
        }
        let ghost d = self.sp as int;
        self.data.set(self.sp + 0, v0);
        self.data.set(self.sp + 1, v1);
        self.data.set(self.sp + 2, v2);
        self.data.set(self.sp + 3, v3);
        self.data.set(self.sp + 4, v4);
        self.data.set(self.sp + 5, v5);
        self.data.set(self.sp + 6, v6);
        self.data.set(self.sp + 7, v7);
        self.data.set(self.sp + 8, v8);
        self.sp = self.sp + 9;
        assert(self.data@ =~= written(old(self).data@, d, seq![v0, v1, v2, v3, v4, v5, v6, v7, v8]));
        Ok(())
    }

    /// Pop nine raw values, returned bottom first.
    pub fn pop9(&mut self) -> (r: Result<(i32, i32, i32, i32, i32, i32, i32, i32, i32), LpsVmError>)
        requires
            old(self).wf(),
        ensures
            final(self).wf(),
            final(self).limit() == old(self).limit(),
            final(self).slots() == old(self).slots(),
            old(self).depth() >= 9 ==> r == Ok::<(i32, i32, i32, i32, i32, i32, i32, i32, i32), LpsVmError>((old(self).peek(9), old(self).peek(8), old(self).peek(7), old(self).peek(6), old(self).peek(5), old(self).peek(4), old(self).peek(3), old(self).peek(2), old(self).peek(1)))
                && final(self).depth() == old(self).depth() - 9,
            old(self).depth() < 9 ==> r == Err::<(i32, i32, i32, i32, i32, i32, i32, i32, i32), LpsVmError>(underflow(9, old(self).depth()))
                && final(self).depth() == old(self).depth(),
    {
        if self.sp < 9 {
            return Err(LpsVmError::StackUnderflow { required: 9, actual: self.sp });
        }
        self.sp = self.sp - 1;
        let i = self.data[self.sp];
        self.sp = self.sp - 1;
        let h = self.data[self.sp];
        self.sp = self.sp - 1;
        let g = self.data[self.sp];
        self.sp = self.sp - 1;
        let f = self.data[self.sp];
        self.sp = self.sp - 1;
        let e = self.data[self.sp];
        self.sp = self.sp - 1;
        let d = self.data[self.sp];
        self.sp = self.sp - 1;
        let c = self.data[self.sp];
        self.sp = self.sp - 1;
        let b = self.data[self.sp];
        self.sp = self.sp - 1;
        let a = self.data[self.sp];
        Ok((a, b, c, d, e, f, g, h, i))
    }

    /// Push a matrix as nine values (storage order).
    pub fn push_mat3(&mut self, m: Mat3) -> (r: Result<(), LpsVmError>)
        requires
            old(self).wf(),
        ensures
            final(self).wf(),
            final(self).limit() == old(self).limit(),
            old(self).depth() + 9 <= old(self).limit() ==> r == Ok::<(), LpsVmError>(())
                && final(self).depth() == old(self).depth() + 9
                && final(self).slots() == written(old(self).slots(), old(self).depth() as int, seq![m.m[0].0, m.m[1].0, m.m[2].0, m.m[3].0, m.m[4].0, m.m[5].0, m.m[6].0, m.m[7].0, m.m[8].0]),
            old(self).depth() + 9 > old(self).limit() ==> r == Err::<(), LpsVmError>(overflow(old(self).depth()))
                && unchanged(*old(self), *final(self)),
    {
        self.push9(
            m.m[0].0,
            m.m[1].0,
            m.m[2].0,
            m.m[3].0,
            m.m[4].0,
            m.m[5].0,
            m.m[6].0,
            m.m[7].0,
            m.m[8].0,
        )
    }

    /// Pop a matrix (nine values, storage order).
    pub fn pop_mat3(&mut self) -> (r: Result<Mat3, LpsVmError>)
        requires
            old(self).wf(),
        ensures
            final(self).wf(),
            final(self).limit() == old(self).limit(),
            final(self).slots() == old(self).slots(),
            old(self).depth() >= 9 ==> r is Ok && final(self).depth() == old(self).depth() - 9
                && (forall|i: int| 0 <= i < 9 ==> #[trigger] r->Ok_0.m[i] == Dec32(old(self).peek(9 - i))),
            old(self).depth() < 9 ==> r == Err::<Mat3, LpsVmError>(underflow(9, old(self).depth()))
                && final(self).depth() == old(self).depth(),
    {
        let (m00, m10, m20, m01, m11, m21, m02, m12, m22) = self.pop9()?;
        Ok(
            Mat3::new(
                Dec32(m00),
                Dec32(m10),
                Dec32(m20),
                Dec32(m01),
                Dec32(m11),
                Dec32(m21),
                Dec32(m02),
                Dec32(m12),
                Dec32(m22),
            ),
        )
    }

    // === Stack manipulation ===

    /// Duplicate the top 1 value.
    pub fn dup1(&mut self) -> (r: Result<(), LpsVmError>)
        requires
            old(self).wf(),
        ensures
            final(self).wf(),
            final(self).limit() == old(self).limit(),
            old(self).depth() < 1 ==> r == Err::<(), LpsVmError>(underflow(1, old(self).depth()))
                && unchanged(*old(self), *final(self)),
            1 <= old(self).depth() && old(self).depth() + 1 > old(self).limit()
                ==> r == Err::<(), LpsVmError>(overflow(old(self).depth()))
                && unchanged(*old(self), *final(self)),
            1 <= old(self).depth() && old(self).depth() + 1 <= old(self).limit()
                ==> r == Ok::<(), LpsVmError>(()) && final(self).depth() == old(self).depth() + 1
                && final(self).slots() == written(
                old(self).slots(),
                old(self).depth() as int,
                old(self).slots().subrange(old(self).depth() - 1, old(self).depth() as int),
            ),
    {
        if self.sp < 1 {
            return Err(LpsVmError::StackUnderflow { required: 1, actual: self.sp });
        }
        if self.sp + 1 > self.max_size {
            return Err(LpsVmError::StackOverflow { sp: self.sp });
        }
        let ghost d = self.sp as int;
        let ghost s0 = self.data@;
        let v = self.data[self.sp - 1];
        self.data.set(self.sp, v);
        self.sp = self.sp + 1;
        assert(self.data@ =~= written(s0, d, s0.subrange(d - 1, d)));
        Ok(())
    }

    /// Duplicate the top 2 values.
    pub fn dup2(&mut self) -> (r: Result<(), LpsVmError>)
        requires
            old(self).wf(),
        ensures
            final(self).wf(),
            final(self).limit() == old(self).limit(),
            old(self).depth() < 2 ==> r == Err::<(), LpsVmError>(underflow(2, old(self).depth()))
                && unchanged(*old(self), *final(self)),
            2 <= old(self).depth() && old(self).depth() + 2 > old(self).limit()
                ==> r == Err::<(), LpsVmError>(overflow(old(self).depth()))
                && unchanged(*old(self), *final(self)),
            2 <= old(self).depth() && old(self).depth() + 2 <= old(self).limit()
                ==> r == Ok::<(), LpsVmError>(()) && final(self).depth() == old(self).depth() + 2
                && final(self).slots() == written(
                old(self).slots(),
                old(self).depth() as int,
                old(self).slots().subrange(old(self).depth() - 2, old(self).depth() as int),
            ),
    {
        if self.sp < 2 {
            return Err(LpsVmError::StackUnderflow { required: 2, actual: self.sp });
        }
        if self.sp + 2 > self.max_size {
            return Err(LpsVmError::StackOverflow { sp: self.sp });
        }
        let ghost d = self.sp as int;
        let ghost s0 = self.data@;
        let mut i: usize = 0;
        while i < 2
            invariant
                d == self.sp,
                d >= 2,
                d + 2 <= self.max_size,
                self.data@.len() == s0.len(),
                self.max_size == s0.len(),
                self.max_size <= usize::MAX / 8,
                i <= 2,
                forall|j: int| 0 <= j < s0.len() ==> #[trigger] self.data@[j] == (if d <= j < d + i { s0[j - 2] } else { s0[j] }),
            decreases 2 - i,
        {
            let v = self.data[self.sp - 2 + i];
            self.data.set(self.sp + i, v);
            i = i + 1;
        }
        self.sp = self.sp + 2;
        assert(self.data@ =~= written(s0, d, s0.subrange(d - 2, d)));
        Ok(())
    }

    /// Duplicate the top 3 values.
    pub fn dup3(&mut self) -> (r: Result<(), LpsVmError>)
        requires
            old(self).wf(),
        ensures
            final(self).wf(),
            final(self).limit() == old(self).limit(),
            old(self).depth() < 3 ==> r == Err::<(), LpsVmError>(underflow(3, old(self).depth()))
                && unchanged(*old(self), *final(self)),
            3 <= old(self).depth() && old(self).depth() + 3 > old(self).limit()
                ==> r == Err::<(), LpsVmError>(overflow(old(self).depth()))
                && unchanged(*old(self), *final(self)),
            3 <= old(self).depth() && old(self).depth() + 3 <= old(self).limit()
                ==> r == Ok::<(), LpsVmError>(()) && final(self).depth() == old(self).depth() + 3
                && final(self).slots() == written(
                old(self).slots(),
                old(self).depth() as int,
                old(self).slots().subrange(old(self).depth() - 3, old(self).depth() as int),
            ),
    {
        if self.sp < 3 {
            return Err(LpsVmError::StackUnderflow { required: 3, actual: self.sp });
        }
        if self.sp + 3 > self.max_size {
            return Err(LpsVmError::StackOverflow { sp: self.sp });
        }
        let ghost d = self.sp as int;
        let ghost s0 = self.data@;
        let mut i: usize = 0;
        while i < 3
            invariant
                d == self.sp,
                d >= 3,
                d + 3 <= self.max_size,
                self.data@.len() == s0.len(),
                self.max_size == s0.len(),
                self.max_size <= usize::MAX / 8,
                i <= 3,
                forall|j: int| 0 <= j < s0.len() ==> #[trigger] self.data@[j] == (if d <= j < d + i { s0[j - 3] } else { s0[j] }),
            decreases 3 - i,
        {
            let v = self.data[self.sp - 3 + i];
            self.data.set(self.sp + i, v);
            i = i + 1;
        }
        self.sp = self.sp + 3;
        assert(self.data@ =~= written(s0, d, s0.subrange(d - 3, d)));
        Ok(())
    }

    /// Duplicate the top 4 values.
    pub fn dup4(&mut self) -> (r: Result<(), LpsVmError>)
        requires
            old(self).wf(),
        ensures
            final(self).wf(),
            final(self).limit() == old(self).limit(),
            old(self).depth() < 4 ==> r == Err::<(), LpsVmError>(underflow(4, old(self).depth()))
                && unchanged(*old(self), *final(self)),
            4 <= old(self).depth() && old(self).depth() + 4 > old(self).limit()
                ==> r == Err::<(), LpsVmError>(overflow(old(self).depth()))
                && unchanged(*old(self), *final(self)),
            4 <= old(self).depth() && old(self).depth() + 4 <= old(self).limit()
                ==> r == Ok::<(), LpsVmError>(()) && final(self).depth() == old(self).depth() + 4
                && final(self).slots() == written(
                old(self).slots(),
                old(self).depth() as int,
                old(self).slots().subrange(old(self).depth() - 4, old(self).depth() as int),
            ),
    {
        if self.sp < 4 {
            return Err(LpsVmError::StackUnderflow { required: 4, actual: self.sp });
        }
        if self.sp + 4 > self.max_size {
            return Err(LpsVmError::StackOverflow { sp: self.sp });
        }
        let ghost d = self.sp as int;
        let ghost s0 = self.data@;
        let mut i: usize = 0;
        while i < 4
            invariant
                d == self.sp,
                d >= 4,
                d + 4 <= self.max_size,
                self.data@.len() == s0.len(),
                self.max_size == s0.len(),
                self.max_size <= usize::MAX / 8,
                i <= 4,
                forall|j: int| 0 <= j < s0.len() ==> #[trigger] self.data@[j] == (if d <= j < d + i { s0[j - 4] } else { s0[j] }),
            decreases 4 - i,
        {
            let v = self.data[self.sp - 4 + i];
            self.data.set(self.sp + i, v);
            i = i + 1;
        }
        self.sp = self.sp + 4;
        assert(self.data@ =~= written(s0, d, s0.subrange(d - 4, d)));
        Ok(())
    }

    /// Remove the top 1 value.
    pub fn drop1(&mut self) -> (r: Result<(), LpsVmError>)
        requires
            old(self).wf(),
        ensures
            final(self).wf(),
            final(self).limit() == old(self).limit(),
            final(self).slots() == old(self).slots(),
            old(self).depth() >= 1 ==> r == Ok::<(), LpsVmError>(()) && final(self).depth() == old(self).depth() - 1,
            old(self).depth() < 1 ==> r == Err::<(), LpsVmError>(underflow(1, old(self).depth()))
                && final(self).depth() == old(self).depth(),
    {
        if self.sp < 1 {
            return Err(LpsVmError::StackUnderflow { required: 1, actual: self.sp });
        }
        self.sp = self.sp - 1;
        Ok(())
    }

    /// Remove the top 2 values.
    pub fn drop2(&mut self) -> (r: Result<(), LpsVmError>)
        requires
            old(self).wf(),
        ensures
            final(self).wf(),
            final(self).limit() == old(self).limit(),
            final(self).slots() == old(self).slots(),
            old(self).depth() >= 2 ==> r == Ok::<(), LpsVmError>(()) && final(self).depth() == old(self).depth() - 2,
            old(self).depth() < 2 ==> r == Err::<(), LpsVmError>(underflow(2, old(self).depth()))
                && final(self).depth() == old(self).depth(),
    {
        if self.sp < 2 {
            return Err(LpsVmError::StackUnderflow { required: 2, actual: self.sp });
        }
        self.sp = self.sp - 2;
        Ok(())
    }

    /// Remove the top 3 values.
    pub fn drop3(&mut self) -> (r: Result<(), LpsVmError>)
        requires
            old(self).wf(),
        ensures
            final(self).wf(),
            final(self).limit() == old(self).limit(),
            final(self).slots() == old(self).slots(),
            old(self).depth() >= 3 ==> r == Ok::<(), LpsVmError>(()) && final(self).depth() == old(self).depth() - 3,
            old(self).depth() < 3 ==> r == Err::<(), LpsVmError>(underflow(3, old(self).depth()))
                && final(self).depth() == old(self).depth(),
    {
        if self.sp < 3 {
            return Err(LpsVmError::StackUnderflow { required: 3, actual: self.sp });
        }
        self.sp = self.sp - 3;
        Ok(())
    }

    /// Remove the top 4 values.
    pub fn drop4(&mut self) -> (r: Result<(), LpsVmError>)
        requires
            old(self).wf(),
        ensures
            final(self).wf(),
            final(self).limit() == old(self).limit(),
            final(self).slots() == old(self).slots(),
            old(self).depth() >= 4 ==> r == Ok::<(), LpsVmError>(()) && final(self).depth() == old(self).depth() - 4,
            old(self).depth() < 4 ==> r == Err::<(), LpsVmError>(underflow(4, old(self).depth()))
                && final(self).depth() == old(self).depth(),
    {
        if self.sp < 4 {
            return Err(LpsVmError::StackUnderflow { required: 4, actual: self.sp });
        }
        self.sp = self.sp - 4;
        Ok(())
    }

    /// Duplicate the top 9 values.
    pub fn dup9(&mut self) -> (r: Result<(), LpsVmError>)
        requires
            old(self).wf(),
        ensures
            final(self).wf(),
            final(self).limit() == old(self).limit(),
            old(self).depth() < 9 ==> r == Err::<(), LpsVmError>(underflow(9, old(self).depth()))
                && unchanged(*old(self), *final(self)),
            9 <= old(self).depth() && old(self).depth() + 9 > old(self).limit()
                ==> r == Err::<(), LpsVmError>(overflow(old(self).depth()))
                && unchanged(*old(self), *final(self)),
            9 <= old(self).depth() && old(self).depth() + 9 <= old(self).limit()
                ==> r == Ok::<(), LpsVmError>(()) && final(self).depth() == old(self).depth() + 9
                && final(self).slots() == written(
                old(self).slots(),
                old(self).depth() as int,
                old(self).slots().subrange(old(self).depth() - 9, old(self).depth() as int),
            ),
    {
        if self.sp < 9 {
            return Err(LpsVmError::StackUnderflow { required: 9, actual: self.sp });
        }
        if self.sp + 9 > self.max_size {
            return Err(LpsVmError::StackOverflow { sp: self.sp });
        }
        let ghost d = self.sp as int;
        let ghost s0 = self.data@;
        let mut i: usize = 0;
        while i < 9
            invariant
                d == self.sp,
                d >= 9,
                d + 9 <= self.max_size,
                self.data@.len() == s0.len(),
                self.max_size == s0.len(),
                self.max_size <= usize::MAX / 8,
                i <= 9,
                forall|j: int| 0 <= j < s0.len() ==> #[trigger] self.data@[j] == (if d <= j < d + i { s0[j - 9] } else { s0[j] }),
            decreases 9 - i,
        {
            let v = self.data[self.sp - 9 + i];
            self.data.set(self.sp + i, v);
            i = i + 1;
        }
        self.sp = self.sp + 9;
        assert(self.data@ =~= written(s0, d, s0.subrange(d - 9, d)));
        Ok(())
    }

    /// Remove the top 9 values.
    pub fn drop9(&mut self) -> (r: Result<(), LpsVmError>)
        requires
            old(self).wf(),
        ensures
            final(self).wf(),
            final(self).limit() == old(self).limit(),
            final(self).slots() == old(self).slots(),
            old(self).depth() >= 9 ==> r == Ok::<(), LpsVmError>(()) && final(self).depth() == old(self).depth() - 9,
            old(self).depth() < 9 ==> r == Err::<(), LpsVmError>(underflow(9, old(self).depth()))
                && final(self).depth() == old(self).depth(),
    {
        if self.sp < 9 {
            return Err(LpsVmError::StackUnderflow { required: 9, actual: self.sp });
        }
        self.sp = self.sp - 9;
        Ok(())
    }

    /// Swap the top two values.
    pub fn swap(&mut self) -> (r: Result<(), LpsVmError>)
        requires
            old(self).wf(),
        ensures
            final(self).wf(),
            final(self).limit() == old(self).limit(),
            final(self).depth() == old(self).depth(),
            old(self).depth() >= 2 ==> r == Ok::<(), LpsVmError>(())
                && final(self).slots() == written(
                old(self).slots(),
                old(self).depth() - 2,
                seq![old(self).peek(1), old(self).peek(2)],
            ),
            old(self).depth() < 2 ==> r == Err::<(), LpsVmError>(underflow(2, old(self).depth()))
                && final(self).slots() == old(self).slots(),
    {
        if self.sp < 2 {
            return Err(LpsVmError::StackUnderflow { required: 2, actual: self.sp });
        }
        let ghost d = self.sp as int;
        let a = self.data[self.sp - 2];
        let b = self.data[self.sp - 1];
        self.data.set(self.sp - 2, b);
        self.data.set(self.sp - 1, a);
        assert(self.data@ =~= written(old(self).data@, d - 2, seq![b, a]));
        Ok(())
    }

    // === Swizzles ===

    /// Replace the top 3 values by the 2 of them picked by the indices
    /// (index 0 is the deepest of the 3).
    pub fn swizzle3to2(&mut self, idx0: u8, idx1: u8) -> (r: Result<(), LpsVmError>)
        requires
            old(self).wf(),
            old(self).depth() >= 3 ==> idx0 < 3 && idx1 < 3,
        ensures
            final(self).wf(),
            final(self).limit() == old(self).limit(),
            old(self).depth() >= 3 ==> r == Ok::<(), LpsVmError>(())
                && final(self).depth() == old(self).depth() - 3 + 2
                && final(self).slots() == written(
                old(self).slots(),
                old(self).depth() - 3,
                seq![old(self).slots()[old(self).depth() - 3 + idx0], old(self).slots()[old(self).depth() - 3 + idx1]],
            ),
            old(self).depth() < 3 ==> r == Err::<(), LpsVmError>(underflow(3, old(self).depth()))
                && unchanged(*old(self), *final(self)),
    {
        if self.sp < 3 {
            return Err(LpsVmError::StackUnderflow { required: 3, actual: self.sp });
        }
        let ghost d = self.sp as int;
        let c2 = self.data[self.sp - 1];
        let c1 = self.data[self.sp - 2];
        let c0 = self.data[self.sp - 3];
        let components = [c0, c1, c2];
        let result0 = components[idx0 as usize];
        let result1 = components[idx1 as usize];
        self.sp = self.sp - 3;
        self.data.set(self.sp, result0);
        self.data.set(self.sp + 1, result1);
        self.sp = self.sp + 2;
        assert(self.data@ =~= written(old(self).data@, d - 3, seq![result0, result1]));
        Ok(())
    }

    /// Replace the top 3 values by the 3 of them picked by the indices
    /// (index 0 is the deepest of the 3).
    pub fn swizzle3to3(&mut self, idx0: u8, idx1: u8, idx2: u8) -> (r: Result<(), LpsVmError>)
        requires
            old(self).wf(),
            old(self).depth() >= 3 ==> idx0 < 3 && idx1 < 3 && idx2 < 3,
        ensures
            final(self).wf(),
            final(self).limit() == old(self).limit(),
            old(self).depth() >= 3 ==> r == Ok::<(), LpsVmError>(())
                && final(self).depth() == old(self).depth() - 3 + 3
                && final(self).slots() == written(
                old(self).slots(),
                old(self).depth() - 3,
                seq![old(self).slots()[old(self).depth() - 3 + idx0], old(self).slots()[old(self).depth() - 3 + idx1], old(self).slots()[old(self).depth() - 3 + idx2]],
            ),
            old(self).depth() < 3 ==> r == Err::<(), LpsVmError>(underflow(3, old(self).depth()))
                && unchanged(*old(self), *final(self)),
    {
        if self.sp < 3 {
            return Err(LpsVmError::StackUnderflow { required: 3, actual: self.sp });
        }
        let ghost d = self.sp as int;
        let c2 = self.data[self.sp - 1];
        let c1 = self.data[self.sp - 2];
        let c0 = self.data[self.sp - 3];
        let components = [c0, c1, c2];
        let result0 = components[idx0 as usize];
        let result1 = components[idx1 as usize];
        let result2 = components[idx2 as usize];
        self.sp = self.sp - 3;
        self.data.set(self.sp, result0);
        self.data.set(self.sp + 1, result1);
        self.data.set(self.sp + 2, result2);
        self.sp = self.sp + 3;
        assert(self.data@ =~= written(old(self).data@, d - 3, seq![result0, result1, result2]));
        Ok(())
    }

    /// Replace the top 4 values by the 2 of them picked by the indices
    /// (index 0 is the deepest of the 4).
    pub fn swizzle4to2(&mut self, idx0: u8, idx1: u8) -> (r: Result<(), LpsVmError>)
        requires
            old(self).wf(),
            old(self).depth() >= 4 ==> idx0 < 4 && idx1 < 4,
        ensures
            final(self).wf(),
            final(self).limit() == old(self).limit(),
            old(self).depth() >= 4 ==> r == Ok::<(), LpsVmError>(())
                && final(self).depth() == old(self).depth() - 4 + 2
                && final(self).slots() == written(
                old(self).slots(),
                old(self).depth() - 4,
                seq![old(self).slots()[old(self).depth() - 4 + idx0], old(self).slots()[old(self).depth() - 4 + idx1]],
            ),
            old(self).depth() < 4 ==> r == Err::<(), LpsVmError>(underflow(4, old(self).depth()))
                && unchanged(*old(self), *final(self)),
    {
        if self.sp < 4 {
            return Err(LpsVmError::StackUnderflow { required: 4, actual: self.sp });
        }
        let ghost d = self.sp as int;
        let c3 = self.data[self.sp - 1];
        let c2 = self.data[self.sp - 2];
        let c1 = self.data[self.sp - 3];
        let c0 = self.data[self.sp - 4];
        let components = [c0, c1, c2, c3];
        let result0 = components[idx0 as usize];
        let result1 = components[idx1 as usize];
        self.sp = self.sp - 4;
        self.data.set(self.sp, result0);
        self.data.set(self.sp + 1, result1);
        self.sp = self.sp + 2;
        assert(self.data@ =~= written(old(self).data@, d - 4, seq![result0, result1]));
        Ok(())
    }

    /// Replace the top 4 values by the 3 of them picked by the indices
    /// (index 0 is the deepest of the 4).
    pub fn swizzle4to3(&mut self, idx0: u8, idx1: u8, idx2: u8) -> (r: Result<(), LpsVmError>)
        requires
            old(self).wf(),
            old(self).depth() >= 4 ==> idx0 < 4 && idx1 < 4 && idx2 < 4,
        ensures
            final(self).wf(),
            final(self).limit() == old(self).limit(),
            old(self).depth() >= 4 ==> r == Ok::<(), LpsVmError>(())
                && final(self).depth() == old(self).depth() - 4 + 3
                && final(self).slots() == written(
                old(self).slots(),
                old(self).depth() - 4,
                seq![old(self).slots()[old(self).depth() - 4 + idx0], old(self).slots()[old(self).depth() - 4 + idx1], old(self).slots()[old(self).depth() - 4 + idx2]],
            ),
            old(self).depth() < 4 ==> r == Err::<(), LpsVmError>(underflow(4, old(self).depth()))
                && unchanged(*old(self), *final(self)),
    {
        if self.sp < 4 {
            return Err(LpsVmError::StackUnderflow { required: 4, actual: self.sp });
        }
        let ghost d = self.sp as int;
        let c3 = self.data[self.sp - 1];
        let c2 = self.data[self.sp - 2];
        let c1 = self.data[self.sp - 3];
        let c0 = self.data[self.sp - 4];
        let components = [c0, c1, c2, c3];
        let result0 = components[idx0 as usize];
        let result1 = components[idx1 as usize];
        let result2 = components[idx2 as usize];
        self.sp = self.sp - 4;
        self.data.set(self.sp, result0);
        self.data.set(self.sp + 1, result1);
        self.data.set(self.sp + 2, result2);
        self.sp = self.sp + 3;
        assert(self.data@ =~= written(old(self).data@, d - 4, seq![result0, result1, result2]));
        Ok(())
    }

    /// Replace the top 4 values by the 4 of them picked by the indices
    /// (index 0 is the deepest of the 4).
    pub fn swizzle4to4(&mut self, idx0: u8, idx1: u8, idx2: u8, idx3: u8) -> (r: Result<(), LpsVmError>)
        requires
            old(self).wf(),
            old(self).depth() >= 4 ==> idx0 < 4 && idx1 < 4 && idx2 < 4 && idx3 < 4,
        ensures
            final(self).wf(),
            final(self).limit() == old(self).limit(),
            old(self).depth() >= 4 ==> r == Ok::<(), LpsVmError>(())
                && final(self).depth() == old(self).depth() - 4 + 4
                && final(self).slots() == written(
                old(self).slots(),
                old(self).depth() - 4,
                seq![old(self).slots()[old(self).depth() - 4 + idx0], old(self).slots()[old(self).depth() - 4 + idx1], old(self).slots()[old(self).depth() - 4 + idx2], old(self).slots()[old(self).depth() - 4 + idx3]],
            ),
            old(self).depth() < 4 ==> r == Err::<(), LpsVmError>(underflow(4, old(self).depth()))
                && unchanged(*old(self), *final(self)),
    {
        if self.sp < 4 {
            return Err(LpsVmError::StackUnderflow { required: 4, actual: self.sp });
        }
        let ghost d = self.sp as int;
        let c3 = self.data[self.sp - 1];
        let c2 = self.data[self.sp - 2];
        let c1 = self.data[self.sp - 3];
        let c0 = self.data[self.sp - 4];
        let components = [c0, c1, c2, c3];
        let result0 = components[idx0 as usize];
        let result1 = components[idx1 as usize];
        let result2 = components[idx2 as usize];
        let result3 = components[idx3 as usize];
        self.sp = self.sp - 4;
        self.data.set(self.sp, result0);
        self.data.set(self.sp + 1, result1);
        self.data.set(self.sp + 2, result2);
        self.data.set(self.sp + 3, result3);
        self.sp = self.sp + 4;
        assert(self.data@ =~= written(old(self).data@, d - 4, seq![result0, result1, result2, result3]));
        Ok(())
    }
}

} // verus!
