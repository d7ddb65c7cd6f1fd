use vstd::prelude::*;
use sha2::Digest;

verus! {

/// The lower-case hexadecimal SHA-256 digest of the UTF-8 encoding of `s`.
pub uninterp spec fn sha256_hex(s: Seq<char>) -> Seq<char>;

/// Relies on sha2's `Sha256::digest` over the bytes of `s`, printed with
/// `{:x}`: two lower-case hex digits for each of the 32 bytes.
#[verifier::external_body]
fn sha256_hex_of(s: &str) -> (r: String)
    ensures
        r@ == sha256_hex(s@),
        r@.len() == 64,
{
    format!("{:x}", sha2::Sha256::digest(s.as_bytes()))
}

/// The identity of this machine.
#[derive(Debug, Clone, PartialEq, Eq)]
pub struct DeviceId {
    id: String,
}

impl View for DeviceId {
    type V = Seq<char>;

    closed spec fn view(&self) -> Seq<char> {
        self.id@
    }
}

impl DeviceId {
    pub fn new(id: String) -> (r: DeviceId)
        ensures
            r@ == id@,
    {
        DeviceId { id }
    }

    /// The anonymised identifier sent to servers.
    pub fn get_hash_hex_id(&self) -> (r: String)
        ensures
            r@ == sha256_hex(self@),
    {
        sha256_hex_of(self.id.as_str())
    }
}

} // verus!
