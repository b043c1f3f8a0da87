//! The hash of a transferred file, written out in lowercase hexadecimal.
use vstd::prelude::*;

verus! {

/// The lowercase hexadecimal digit of a number below 16.
pub open spec fn hex_digit(n: int) -> char {
    if n < 10 {
        ((48 + n) as u32) as char
    } else {
        ((87 + n) as u32) as char
    }
}

/// Bytes in lowercase hexadecimal, two digits a byte, high nibble first.
pub open spec fn hex_lower(bytes: Seq<u8>) -> Seq<char>
    decreases bytes.len(),
{
    if bytes.len() == 0 {
        Seq::empty()
    } else {
        hex_lower(bytes.drop_last()) + seq![hex_digit((bytes.last() / 16) as int), hex_digit((bytes.last() % 16) as int)]
    }
}

/// Written out, a hash takes two characters a byte.
pub proof fn lemma_hex_lower_len(bytes: Seq<u8>)
    ensures
        hex_lower(bytes).len() == 2 * bytes.len(),
    decreases bytes.len(),
{
    if bytes.len() > 0 {
        lemma_hex_lower_len(bytes.drop_last());
    }
}

/// Trusted: calls `data_encoding::HEXLOWER.encode`, which per the crate's
/// documentation writes each byte as two lowercase hexadecimal digits, high
/// nibble first, with no padding or separators.
#[verifier::external_body]
fn encode_hex_lower(data: &[u8]) -> (s: String)
    ensures
        s@ == hex_lower(data@),
{
    data_encoding::HEXLOWER.encode(data)
}

/// Why a file hash could not be written out.
#[derive(Debug, Clone, Copy, PartialEq, Eq, Structural)]
pub enum FileHashError {
    /// the destination buffer cannot hold the text and its terminator
    BufferTooSmall,
}

#[derive(Debug)]
pub struct FileHash {
    data: Vec<u8>,
}

impl View for FileHash {
    type V = Seq<u8>;

    closed spec fn view(&self) -> Seq<u8> {
        self.data@
    }
}

impl FileHash {
    pub fn new(data: Vec<u8>) -> (h: FileHash)
        ensures
            h@ == data@,
    {
        FileHash { data }
    }

    /// The hash in lowercase hexadecimal.
    pub fn to_hex(&self) -> (s: String)
        ensures
            s@ == hex_lower(self@),
    {
        encode_hex_lower(self.data.as_slice())
    }

    /// The number of bytes the written-out hash takes with its NUL terminator.
    pub fn string_size(&self) -> (n: usize)
        requires
            2 * self@.len() + 1 <= usize::MAX,
        ensures
            n == 2 * self@.len() + 1,
    {
        2 * self.data.len() + 1
    }

    /// The hash written out for a buffer of `buffer_size` bytes (the caller
    /// adds the NUL terminator); refused when text and terminator do not fit.
    pub fn to_string_for_buffer(&self, buffer_size: usize) -> (r: Result<String, FileHashError>)
        requires
            2 * self@.len() + 1 <= usize::MAX,
        ensures
            buffer_size < 2 * self@.len() + 1 ==> r == Err::<String, FileHashError>(FileHashError::BufferTooSmall),
            buffer_size >= 2 * self@.len() + 1 ==> (r matches Ok(s) && s@ == hex_lower(self@)),
    {
        if buffer_size < self.string_size() {
            return Err(FileHashError::BufferTooSmall);
        }
        Ok(self.to_hex())
    }
}

} // verus!
