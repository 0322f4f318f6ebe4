//! A small boundary-contract library: three stateless operations meant to sit
//! behind a foreign-function surface.
//!
//! The operations are an integer addition with wrapping overflow, a greeting
//! builder that absorbs bad input into diagnostic text instead of failing, and
//! a release operation that consumes an owned buffer exactly once.  The owned
//! buffer is a distinct type, so a borrowed input can never be released and a
//! handle cannot be released twice.

pub mod buffer;
pub mod encoding;
pub mod messages;

use vstd::prelude::*;

verus! {

/// The sum of two 32-bit values with wrapping on overflow, as a function on
/// unbounded integers: the mathematical sum, brought back into the signed
/// 32-bit range by adding or subtracting one full period.
pub open spec fn wrapping_sum(a: int, b: int) -> int {
    if a + b > i32::MAX {
        a + b - 0x1_0000_0000
    } else if a + b < i32::MIN {
        a + b + 0x1_0000_0000
    } else {
        a + b
    }
}

/// Adds two 32-bit integers, wrapping silently on overflow.
pub fn add(a: i32, b: i32) -> (r: i32)
    ensures
        r as int == wrapping_sum(a as int, b as int),
{
    a.wrapping_add(b)
}

/// The wrapping sum does not depend on the order of its arguments.
pub proof fn lemma_wrapping_sum_commutes(a: i32, b: i32)
    ensures
        wrapping_sum(a as int, b as int) == wrapping_sum(b as int, a as int),
{
}

/// The exact text of the buffer that `heavy_computation` answers with.
///
/// A missing name yields a fixed diagnostic; a name that is not valid UTF-8
/// is replaced by a fixed diagnostic inside the greeting; otherwise the
/// greeting embeds the name itself.  All three answers have the same shape:
/// the caller must read the text to tell them apart.
pub open spec fn computed_text(name: Option<Seq<u8>>) -> Seq<u8> {
    match name {
        Option::None => messages::null_input_text(),
        Option::Some(b) => messages::greeting_prefix() + (if vstd::utf8::valid_utf8(b) {
            b
        } else {
            messages::invalid_utf8_text()
        }) + messages::greeting_suffix(),
    }
}

/// Builds the greeting for `name` and hands the result to the caller as a
/// freshly allocated owned buffer.
///
/// Absent or undecodable input is absorbed into diagnostic text rather than
/// reported out of band, so the call never fails.  The name is borrowed: the
/// caller keeps ownership of it, and takes ownership of the returned buffer,
/// which it must eventually pass to `free_string` exactly once.  The name may
/// not contain the sentinel byte 0, since the buffer terminates its text with
/// that sentinel.
///
/// The simulated-work stall that gives the operation its name is the
/// embedding's affair: the foreign-function layer blocks its calling thread
/// around this call, while the library itself only builds the text.
pub fn heavy_computation(name: Option<&[u8]>) -> (r: buffer::OwnedBuffer)
    requires
        name matches Some(b) ==> forall|i: int| 0 <= i < b@.len() ==> b@[i] != 0u8,
    ensures
        r.wf(),
        r.payload() == computed_text(
            match name {
                Some(b) => Some(b@),
                None => None,
            },
        ),
{
    match name {
        None => {
            let text = messages::null_input_text_vec();
            buffer::OwnedBuffer::seal(text)
        },
        Some(b) => {
            let mut text = messages::greeting_prefix_vec();
            if encoding::validate_utf8(b) {
                text.extend_from_slice(b);
            } else {
                let substitute = messages::invalid_utf8_text_vec();
                text.extend_from_slice(substitute.as_slice());
            }
            let suffix = messages::greeting_suffix_vec();
            text.extend_from_slice(suffix.as_slice());
            buffer::OwnedBuffer::seal(text)
        },
    }
}

/// Consumes a buffer previously returned by `heavy_computation`, reclaiming
/// its storage; `None` stands for a missing handle and is ignored.
///
/// Because the buffer is taken by value, a released handle is gone: releasing
/// it twice, or releasing a borrowed input in its place, is rejected by the
/// type system rather than left as a runtime hazard.
pub fn free_string(s: Option<buffer::OwnedBuffer>) {
    let _owned = s;
}

} // verus!
