use vstd::prelude::*;
use base64::Engine;

verus! {

/// The standard base64 text, with padding, of a run of bytes.
pub uninterp spec fn base64_of(b: Seq<u8>) -> Seq<char>;

/// Relies on base64's `STANDARD` engine and its `encode`: the standard
/// alphabet, with padding.
#[verifier::external_body]
pub(crate) fn base64_encode(b: &Vec<u8>) -> (r: String)
    ensures
        r@ == base64_of(b@),
{
    base64::engine::general_purpose::STANDARD.encode(b)
}

/// The bytes of an image loaded from the assets directory.
pub struct Image {
    data: Vec<u8>,
}

impl Image {
    /// An image holding `data`.
    pub fn from_bytes(data: Vec<u8>) -> (r: Image)
        ensures
            r.spec_bytes() == data@,
    {
        Image { data }
    }

    /// The bytes of the image.
    pub closed spec fn spec_bytes(&self) -> Seq<u8> {
        self.data@
    }

    /// A copy of the bytes of the image.
    pub fn bytes(&self) -> (r: Vec<u8>)
        ensures
            r@ == self.spec_bytes(),
    {
        let mut out: Vec<u8> = Vec::new();
        let n = self.data.len();
        let mut i: usize = 0;
        while i < n
            invariant
                n == self.data@.len(),
                0 <= i <= n,
                out@ == self.data@.take(i as int),
            decreases n - i,
        {
            out.push(self.data[i]);
            assert(out@ =~= self.data@.take(i + 1));
            i = i + 1;
        }
        assert(out@ =~= self.data@);
        out
    }

    /// The image's bytes as standard base64 text.
    pub fn base64(&self) -> (r: String)
        ensures
            r@ == base64_of(self.spec_bytes()),
    {
        base64_encode(&self.data)
    }
}

} // verus!
