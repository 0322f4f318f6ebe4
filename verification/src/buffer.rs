use vstd::prelude::*;

verus! {

/// A heap-allocated, immutable text buffer terminated by a sentinel byte,
/// owned by whoever holds the value.
///
/// Exactly one party owns the buffer at any time.  Release is consumption:
/// `free_string` takes the buffer by value, so the type system rejects
/// releasing a borrowed input and releasing the same handle twice.
pub struct OwnedBuffer {
    bytes: Vec<u8>,
}

impl View for OwnedBuffer {
    type V = Seq<u8>;

    closed spec fn view(&self) -> Seq<u8> {
        self.bytes@
    }
}

impl OwnedBuffer {
    /// The buffer ends with the sentinel value 0, which appears nowhere in
    /// the payload before it.
    pub open spec fn wf(&self) -> bool {
        &&& self@.len() >= 1
        &&& self@[self@.len() - 1] == 0u8
        &&& forall|i: int| 0 <= i < self@.len() - 1 ==> self@[i] != 0u8
    }

    /// The text carried by the buffer: every byte before the sentinel.
    pub open spec fn payload(&self) -> Seq<u8> {
        self@.subrange(0, self@.len() - 1)
    }

    /// Seals a sentinel-free payload into an owned buffer by appending the
    /// sentinel byte.
    pub fn seal(text: Vec<u8>) -> (r: OwnedBuffer)
        requires
            forall|i: int| 0 <= i < text@.len() ==> text@[i] != 0u8,
        ensures
            r.wf(),
            r.payload() == text@,
    {
        let ghost t = text@;
        let mut bytes = text;
        bytes.push(0u8);
        let r = OwnedBuffer { bytes };
        proof {
            assert(r.payload() =~= t);
        }
        r
    }

    /// Borrows the text without the sentinel.
    pub fn contents(&self) -> (r: &[u8])
        requires
            self.wf(),
        ensures
            r@ == self.payload(),
    {
        vstd::slice::slice_subrange(self.bytes.as_slice(), 0, self.bytes.len() - 1)
    }
}

} // verus!
