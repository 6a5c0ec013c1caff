//! Errors of the memory pool.
use vstd::prelude::*;
use vstd::string::StringExecFns;

verus! {

/// Errors that can occur during memory allocation.
#[derive(Clone, Copy, Debug, PartialEq, Eq, Structural)]
pub enum AllocError {
    /// Out of memory: more was requested than is available.
    OutOfMemory { requested: usize, available: usize },
    /// No free block can hold the request.
    PoolExhausted,
    /// The size or alignment of a request is invalid.
    InvalidLayout,
}

impl AllocError {
    /// The full text of the error, with the numbers of an out-of-memory error.
    pub fn to_string(&self) -> (r: String)
        ensures
            r@ == error_text(*self),
    {
        match self {
            AllocError::OutOfMemory { requested, available } => {
                let mut s = String::new();
                s.append("Out of memory: requested ");
                push_decimal(&mut s, *requested);
                s.append(" bytes, ");
                push_decimal(&mut s, *available);
                s.append(" available");
                s
            },
            AllocError::PoolExhausted => {
                let mut s = String::new();
                s.append("Pool exhausted - no more blocks available");
                s
            },
            AllocError::InvalidLayout => {
                let mut s = String::new();
                s.append("Invalid layout - alignment or size requirements invalid");
                s
            },
        }
    }

    /// A description of the error.
    pub fn message(&self) -> (r: &'static str)
        ensures
            r == error_message(*self),
    {
        match self {
            AllocError::OutOfMemory { .. } => "Out of memory",
            AllocError::PoolExhausted => "Pool exhausted - no more blocks available",
            AllocError::InvalidLayout => "Invalid layout - alignment or size requirements invalid",
        }
    }
}

/// The character of the decimal digit `d`.
pub open spec fn digit_char(d: int) -> char {
    (d + 48) as char
}

/// The decimal digits of `n`, most significant first, without leading zeros.
pub open spec fn decimal(n: nat) -> Seq<char>
    decreases n,
{
    if n < 10 {
        seq![digit_char(n as int)]
    } else {
        decimal(n / 10) + seq![digit_char((n % 10) as int)]
    }
}

/// The full text of each error, with the numbers of an out-of-memory error.
pub open spec fn error_text(e: AllocError) -> Seq<char> {
    match e {
        AllocError::OutOfMemory { requested, available } => "Out of memory: requested "@ + decimal(
            requested as nat,
        ) + " bytes, "@ + decimal(available as nat) + " available"@,
        AllocError::PoolExhausted => "Pool exhausted - no more blocks available"@,
        AllocError::InvalidLayout => "Invalid layout - alignment or size requirements invalid"@,
    }
}

/// The text of the decimal digit `d`.
fn digit_str(d: usize) -> (r: &'static str)
    requires
        d < 10,
    ensures
        r@ == seq![digit_char(d as int)],
{
    proof {
        reveal_strlit("0");
        reveal_strlit("1");
        reveal_strlit("2");
        reveal_strlit("3");
        reveal_strlit("4");
        reveal_strlit("5");
        reveal_strlit("6");
        reveal_strlit("7");
        reveal_strlit("8");
        reveal_strlit("9");
    }
    if d == 0 {
        "0"
    } else if d == 1 {
        "1"
    } else if d == 2 {
        "2"
    } else if d == 3 {
        "3"
    } else if d == 4 {
        "4"
    } else if d == 5 {
        "5"
    } else if d == 6 {
        "6"
    } else if d == 7 {
        "7"
    } else if d == 8 {
        "8"
    } else {
        "9"
    }
}

/// Append the decimal digits of `n` to `s`.
fn push_decimal(s: &mut String, n: usize)
    ensures
        final(s)@ == old(s)@ + decimal(n as nat),
    decreases n,
{
    if n >= 10 {
        push_decimal(s, n / 10);
    }
    s.append(digit_str(n % 10));
}

/// The description of each error.
pub open spec fn error_message(e: AllocError) -> &'static str {
    match e {
        AllocError::OutOfMemory { .. } => "Out of memory",
        AllocError::PoolExhausted => "Pool exhausted - no more blocks available",
        AllocError::InvalidLayout => "Invalid layout - alignment or size requirements invalid",
    }
}

} // verus!
