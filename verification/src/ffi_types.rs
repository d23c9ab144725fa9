//! Status codes, wide integers and error values shared by every C entry
//! point, and the checks applied to the versioned option structs.
use vstd::prelude::*;

use crate::text::{decimal, owned, push_char, push_decimal, push_str};

verus! {

/// Result code of a C entry point.
#[derive(Copy, Clone, Debug, PartialEq, Eq, Structural)]
pub enum FiberFfiStatus {
    Success,
    NullPointer,
    InvalidArgument,
    StartupFailed,
    AlreadyStopped,
    Panic,
    NotReady,
}

/// The C value of each status.
pub open spec fn status_code(s: FiberFfiStatus) -> i32 {
    match s {
        FiberFfiStatus::Success => 0,
        FiberFfiStatus::NullPointer => 1,
        FiberFfiStatus::InvalidArgument => 2,
        FiberFfiStatus::StartupFailed => 3,
        FiberFfiStatus::AlreadyStopped => 4,
        FiberFfiStatus::Panic => 5,
        FiberFfiStatus::NotReady => 6,
    }
}

impl FiberFfiStatus {
    /// The value this status has in the C ABI.
    pub fn code(self) -> (c: i32)
        ensures
            c == status_code(self),
    {
        match self {
            FiberFfiStatus::Success => 0,
            FiberFfiStatus::NullPointer => 1,
            FiberFfiStatus::InvalidArgument => 2,
            FiberFfiStatus::StartupFailed => 3,
            FiberFfiStatus::AlreadyStopped => 4,
            FiberFfiStatus::Panic => 5,
            FiberFfiStatus::NotReady => 6,
        }
    }
}

/// A 128-bit amount split into two 64-bit halves for C callers.
#[derive(Copy, Clone, Debug, PartialEq, Eq, Structural)]
pub struct FiberU128 {
    pub low: u64,
    pub high: u64,
}

/// The amount a split value stands for.
pub open spec fn u128_value(v: FiberU128) -> nat {
    v.high as nat * 0x1_0000_0000_0000_0000 + v.low as nat
}

impl FiberU128 {
    /// The 128-bit amount `high * 2^64 + low`.
    pub fn to_u128(self) -> (r: u128)
        ensures
            r as nat == u128_value(self),
    {
        let high = self.high;
        let low = self.low;
        let r = ((high as u128) << 64u128) | (low as u128);
        assert(r == (high as u128) * 0x1_0000_0000_0000_0000u128 + (low as u128)) by (bit_vector)
            requires
                r == ((high as u128) << 64u128) | (low as u128),
        ;
        r
    }

    /// Splits a 128-bit amount into its halves.
    pub fn from_u128(value: u128) -> (r: Self)
        ensures
            u128_value(r) == value as nat,
    {
        let low = (value & 0xffff_ffff_ffff_ffffu128) as u64;
        let high = (value >> 64u128) as u64;
        assert(value == (high as u128) * 0x1_0000_0000_0000_0000u128 + (low as u128)) by (bit_vector)
            requires
                low == (value & 0xffff_ffff_ffff_ffffu128) as u64,
                high == (value >> 64u128) as u64,
        ;
        FiberU128 { low, high }
    }
}

/// A 128-bit amount has exactly one split: every split value stands for an
/// amount that fits in 128 bits, and two split values that stand for the
/// same amount are equal. With the contracts of `from_u128` and `to_u128`,
/// joining the halves of a split amount gives the amount back, and splitting
/// a joined value gives the same halves.
pub proof fn lemma_u128_split_round_trip(v: FiberU128, w: FiberU128)
    ensures
        u128_value(v) < 0x1_0000_0000_0000_0000_0000_0000_0000_0000,
        u128_value(w) == u128_value(v) ==> w == v,
{
    if u128_value(w) == u128_value(v) {
        assert(w.high == v.high) by (nonlinear_arith)
            requires
                w.high as nat * 0x1_0000_0000_0000_0000 + w.low as nat == v.high as nat
                    * 0x1_0000_0000_0000_0000 + v.low as nat,
                w.low < 0x1_0000_0000_0000_0000,
                v.low < 0x1_0000_0000_0000_0000,
        ;
    }
}

/// An error of a C entry point: the status to return and the message kept
/// as the thread's last error.
#[derive(Clone, Debug)]
pub struct FfiError {
    pub status: FiberFfiStatus,
    pub message: String,
}

/// `s` with every NUL character written as the two characters `\0`, so the
/// message fits in a C string.
pub open spec fn sanitized(s: Seq<char>) -> Seq<char>
    decreases s.len(),
{
    if s.len() == 0 {
        s
    } else {
        sanitized(s.drop_last()) + if s.last() == '\0' {
            seq!['\\', '0']
        } else {
            seq![s.last()]
        }
    }
}

/// Replaces every NUL character of `message` by `\0`.
pub fn sanitize_error_message(message: &str) -> (r: String)
    ensures
        r@ == sanitized(message@),
{
    let chars = crate::text::chars_of(message);
    let mut r = String::new();
    let mut i: usize = 0;
    while i < chars.len()
        invariant
            i <= chars.len(),
            chars@ == message@,
            r@ == sanitized(chars@.take(i as int)),
        decreases chars.len() - i,
    {
        let c = chars[i];
        if c == '\0' {
            push_char(&mut r, '\\');
            push_char(&mut r, '0');
        } else {
            push_char(&mut r, c);
        }
        proof {
            let t = chars@.take(i + 1);
            assert(t.drop_last() =~= chars@.take(i as int));
            assert(r@ =~= sanitized(t));
        }
        i = i + 1;
    }
    proof {
        assert(chars@.take(chars.len() as int) =~= chars@);
    }
    r
}

/// An error with the given status and a C-safe copy of `message`.
pub fn ffi_error(status: FiberFfiStatus, message: &str) -> (e: FfiError)
    ensures
        e.status == status,
        e.message@ == sanitized(message@),
{
    FfiError { status, message: sanitize_error_message(message) }
}

/// An error reported by a Fiber RPC call, returned as an invalid argument.
pub fn rpc_ffi_error(message: &str) -> (e: FfiError)
    ensures
        e.status == FiberFfiStatus::InvalidArgument,
        e.message@ == sanitized(message@),
{
    ffi_error(FiberFfiStatus::InvalidArgument, message)
}

/// Why a versioned option struct is rejected, if it is.
pub open spec fn options_struct_rejection(
    struct_size: u32,
    flags: u32,
    expected_size: usize,
    name: Seq<char>,
) -> Option<Seq<char>> {
    if struct_size == 0 {
        Some(name + ".struct_size must be set to sizeof("@ + name + ")"@)
    } else if (struct_size as nat) < expected_size as nat {
        Some(name + ".struct_size is too small: got "@ + decimal(struct_size as nat)
            + ", expected at least "@ + decimal(expected_size as nat))
    } else if flags != 0 {
        Some(name + ".flags must be 0"@)
    } else {
        None
    }
}

/// Checks the `struct_size` and `flags` header of a versioned option struct
/// whose current layout is `expected_size` bytes: the size must be set and
/// at least the current one, and no flag may be set.
pub fn validate_options_struct(struct_size: u32, flags: u32, expected_size: usize, name: &str) -> (r:
    Result<(), FfiError>)
    ensures
        match options_struct_rejection(struct_size, flags, expected_size, name@) {
            Some(m) => r matches Err(e) && e.status == FiberFfiStatus::InvalidArgument
                && e.message@ == sanitized(m),
            None => r is Ok,
        },
{
    if struct_size == 0 {
        let mut m = owned(name);
        push_str(&mut m, ".struct_size must be set to sizeof(");
        push_str(&mut m, name);
        push_str(&mut m, ")");
        return Err(ffi_error(FiberFfiStatus::InvalidArgument, m.as_str()));
    }
    if (struct_size as usize) < expected_size {
        let mut m = owned(name);
        push_str(&mut m, ".struct_size is too small: got ");
        push_decimal(&mut m, struct_size as u64);
        push_str(&mut m, ", expected at least ");
        push_decimal(&mut m, expected_size as u64);
        return Err(ffi_error(FiberFfiStatus::InvalidArgument, m.as_str()));
    }
    if flags != 0 {
        let mut m = owned(name);
        push_str(&mut m, ".flags must be 0");
        return Err(ffi_error(FiberFfiStatus::InvalidArgument, m.as_str()));
    }
    Ok(())
}

/// Reads a C optional: `has_value` 0 means absent, 1 present; any other
/// flag is an invalid argument naming `field`.
pub fn optional_u64(has_value: i32, value: u64, field: &str) -> (r: Result<Option<u64>, FfiError>)
    ensures
        has_value == 0 ==> r matches Ok(None),
        has_value == 1 ==> r == Ok::<Option<u64>, FfiError>(Some(value)),
        has_value != 0 && has_value != 1 ==> (r matches Err(e) && e.status
            == FiberFfiStatus::InvalidArgument && e.message@ == sanitized(
            field@ + " must be 0 or 1"@,
        )),
{
    if has_value == 0 {
        Ok(None)
    } else if has_value == 1 {
        Ok(Some(value))
    } else {
        let mut m = owned(field);
        push_str(&mut m, " must be 0 or 1");
        Err(ffi_error(FiberFfiStatus::InvalidArgument, m.as_str()))
    }
}


/// How many bytes of a last-error message of `message_len` bytes are copied
/// into a caller's buffer of `buffer_len` bytes: as many as fit before the
/// terminating NUL.
pub fn error_copy_length(message_len: usize, buffer_len: usize) -> (r: usize)
    requires
        buffer_len > 0,
    ensures
        r == if message_len <= buffer_len - 1 { message_len as int } else { buffer_len - 1 },
{
    if message_len < buffer_len - 1 { message_len } else { buffer_len - 1 }
}

} // verus!
