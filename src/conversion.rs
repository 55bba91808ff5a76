use vstd::prelude::*;
use vstd::string::StringSliceAdditionalSpecFns;

use crate::error::ErrorKind;

verus! {

/// Total, infallible conversion of a value into the primitive form that the kernel reads.
pub trait ToFfi<T> {
    /// The kernel representation of `self`.
    spec fn spec_to_ffi(&self) -> T;

    fn to_ffi(&self) -> (r: T)
        ensures
            r == self.spec_to_ffi(),
    ;
}

impl ToFfi<u8> for bool {
    /// `1` for true, `0` for false.
    open spec fn spec_to_ffi(&self) -> u8 {
        if *self {
            1
        } else {
            0
        }
    }

    fn to_ffi(&self) -> (r: u8) {
        if *self {
            1
        } else {
            0
        }
    }
}


/// The bytes that the kernel reads for a string with the bytes `b`: each byte reinterpreted
/// as a C `char`, followed by the terminating zero.
pub open spec fn spec_c_string(b: Seq<u8>) -> Seq<i8> {
    b.map_values(|x: u8| #[verifier::truncate] (x as i8)).push(0i8)
}

/// Whether a string with the bytes `b` can be written into a buffer of `capacity` bytes:
/// it leaves room for the terminator and holds no zero byte of its own.
pub open spec fn spec_fits_c_buffer(b: Seq<u8>, capacity: int) -> bool {
    b.len() < capacity && !b.contains(0u8)
}

/// Copies `src` into the fixed-size, zero-terminated buffer `dst`, starting at its first
/// byte. A string that leaves no room for the terminator, or that holds a zero byte, is
/// refused before anything is written. Bytes after the terminator are left as they were.
pub fn copy_str_to(src: &str, dst: &mut [i8]) -> (r: Result<(), ErrorKind>)
    ensures
        r is Ok <==> spec_fits_c_buffer(src.spec_bytes(), old(dst)@.len() as int),
        r is Ok ==> final(dst)@ == spec_c_string(src.spec_bytes()) + old(dst)@.skip(
            src.spec_bytes().len() + 1int,
        ),
        r is Err ==> final(dst)@ == old(dst)@,
{
    let bytes = src.as_bytes();
    let n = bytes.len();
    if n >= dst.len() {
        return Err(ErrorKind::InvalidArgument("String does not fit destination"));
    }
    let mut i: usize = 0;
    while i < n
        invariant
            i <= n,
            n == bytes@.len(),
            bytes@ == src.spec_bytes(),
            n < dst@.len(),
            dst@ == old(dst)@,
            forall|j: int| 0 <= j < i ==> bytes@[j] != 0u8,
        decreases n - i,
    {
        if bytes[i] == 0 {
            assert(bytes@[i as int] == 0u8);
            assert(bytes@.contains(0u8));
            return Err(ErrorKind::InvalidArgument("String has null byte"));
        }
        i += 1;
    }
    let mut k: usize = 0;
    while k < n
        invariant
            k <= n,
            n == bytes@.len(),
            bytes@ == src.spec_bytes(),
            n < dst@.len(),
            dst@.len() == old(dst)@.len(),
            forall|j: int| 0 <= j < k ==> dst@[j] == #[verifier::truncate] (bytes@[j] as i8),
            forall|j: int| k <= j < dst@.len() ==> dst@[j] == old(dst)@[j],
        decreases n - k,
    {
        dst[k] = #[verifier::truncate] (bytes[k] as i8);
        k += 1;
    }
    dst[n] = 0;
    assert(final(dst)@ =~= spec_c_string(bytes@) + old(dst)@.skip(n + 1int));
    Ok(())
}

} // verus!
