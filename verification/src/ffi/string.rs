//! Strings handed across the C interface: UTF-8 text with no NUL byte, given
//! out with a NUL terminator.
use vstd::prelude::*;

verus! {

/// Why a string could not be made or copied out.
#[derive(Debug, Clone, Copy, PartialEq, Eq, Structural)]
pub enum StringError {
    /// the bytes are not UTF-8
    InvalidUtf8,
    /// the text holds a NUL byte
    InteriorNul,
    /// the destination buffer cannot hold the text and its terminator
    BufferTooSmall,
}

/// Trusted: calls `std::str::from_utf8`, which per its documentation succeeds
/// exactly when the bytes are valid UTF-8, and then holds the text they encode.
#[verifier::external_body]
fn decode_utf8(bytes: &[u8]) -> (r: Option<&str>)
    ensures
        r is Some <==> vstd::utf8::valid_utf8(bytes@),
        r matches Some(s) ==> s@ == vstd::utf8::decode_utf8(bytes@),
{
    std::str::from_utf8(bytes).ok()
}

/// A C string: the bytes of a UTF-8 text that holds no NUL byte.
#[derive(Debug)]
pub struct TegoString {
    bytes: Vec<u8>,
}

impl View for TegoString {
    type V = Seq<u8>;

    closed spec fn view(&self) -> Seq<u8> {
        self.bytes@
    }
}

impl TegoString {
    /// The string holds no NUL byte, is UTF-8, and its size with the
    /// terminator fits in a `usize`.
    pub closed spec fn wf(&self) -> bool {
        &&& !self.bytes@.contains(0u8)
        &&& vstd::utf8::valid_utf8(self.bytes@)
        &&& self.bytes@.len() < usize::MAX
    }

    /// A string from bytes: refused when they are not UTF-8, or hold a NUL byte.
    pub fn new(data: &[u8]) -> (r: Result<TegoString, StringError>)
        requires
            data@.len() < usize::MAX,
        ensures
            !vstd::utf8::valid_utf8(data@) ==> r == Err::<TegoString, StringError>(StringError::InvalidUtf8),
            vstd::utf8::valid_utf8(data@) && data@.contains(0u8) ==> r == Err::<TegoString, StringError>(
                StringError::InteriorNul,
            ),
            vstd::utf8::valid_utf8(data@) && !data@.contains(0u8) ==> (r matches Ok(s) && s@ == data@ && s.wf()),
    {
        if decode_utf8(data).is_none() {
            return Err(StringError::InvalidUtf8);
        }
        let n = data.len();
        let mut bytes: Vec<u8> = Vec::new();
        let mut i: usize = 0;
        while i < n
            invariant
                n == data@.len(),
                i <= n,
                bytes@ == data@.take(i as int),
                !bytes@.contains(0u8),
                vstd::utf8::valid_utf8(data@),
            decreases n - i,
        {
            let b = data[i];
            if b == 0 {
                proof {
                    assert(data@[i as int] == 0u8);
                }
                return Err(StringError::InteriorNul);
            }
            bytes.push(b);
            i += 1;
            proof {
                assert(bytes@ =~= data@.take(i as int));
                if bytes@.contains(0u8) {
                    let k = choose|k: int| 0 <= k < bytes@.len() && bytes@[k] == 0u8;
                    if k < i - 1 {
                        assert(data@.take(i - 1).contains(0u8)) by {
                            assert(data@.take(i - 1)[k] == 0u8);
                        }
                    }
                }
            }
        }
        proof {
            assert(data@.take(n as int) =~= data@);
        }
        Ok(TegoString { bytes })
    }

    /// The number of bytes the string takes with its terminator.
    pub fn size(&self) -> (n: usize)
        requires
            self.wf(),
        ensures
            n == self@.len() + 1,
    {
        self.bytes.len() + 1
    }

    /// What is copied into a buffer of `buffer_size` bytes: the string and its
    /// NUL terminator, at the buffer's start; refused when they do not fit.
    pub fn data_with_nul(&self, buffer_size: usize) -> (r: Result<Vec<u8>, StringError>)
        requires
            self.wf(),
        ensures
            self@.len() + 1 > buffer_size ==> r == Err::<Vec<u8>, StringError>(StringError::BufferTooSmall),
            self@.len() + 1 <= buffer_size ==> (r matches Ok(b) && b@ == self@.push(0u8)),
    {
        if self.bytes.len() + 1 > buffer_size {
            return Err(StringError::BufferTooSmall);
        }
        let mut out: Vec<u8> = Vec::new();
        let n = self.bytes.len();
        let mut i: usize = 0;
        while i < n
            invariant
                n == self.bytes@.len(),
                i <= n,
                out@ == self.bytes@.take(i as int),
            decreases n - i,
        {
            out.push(self.bytes[i]);
            i += 1;
            proof {
                assert(out@ =~= self.bytes@.take(i as int));
            }
        }
        out.push(0u8);
        proof {
            assert(self.bytes@.take(n as int) =~= self.bytes@);
        }
        Ok(out)
    }
}

} // verus!
