use vstd::prelude::*;

verus! {

/// A 32-byte account address.
#[derive(Clone, Copy, Debug, Eq)]
pub struct Pubkey {
    pub bytes: [u8; 32],
}

impl View for Pubkey {
    type V = Seq<u8>;

    open spec fn view(&self) -> Seq<u8> {
        self.bytes@
    }
}

impl PartialEq for Pubkey {
    fn eq(&self, other: &Pubkey) -> (r: bool) {
        let mut i: usize = 0;
        while i < 32
            invariant
                i <= 32,
                forall|j: int| 0 <= j < i ==> self.bytes[j] == other.bytes[j],
            decreases 32 - i,
        {
            if self.bytes[i] != other.bytes[i] {
                return false;
            }
            i += 1;
        }
        assert(self.bytes =~= other.bytes);
        true
    }
}

impl vstd::std_specs::cmp::PartialEqSpecImpl for Pubkey {
    open spec fn obeys_eq_spec() -> bool {
        true
    }

    open spec fn eq_spec(&self, other: &Pubkey) -> bool {
        *self == *other
    }
}

impl Pubkey {
    pub fn new_from_array(bytes: [u8; 32]) -> (key: Pubkey)
        ensures
            key.bytes == bytes,
    {
        Pubkey { bytes }
    }

    pub fn to_bytes(&self) -> (bytes: [u8; 32])
        ensures
            bytes == self.bytes,
    {
        self.bytes
    }

    /// Two addresses are the same address exactly when they hold the same
    /// byte sequence.
    pub proof fn lemma_equal_by_view(a: Pubkey, b: Pubkey)
        ensures
            (a == b) <==> (a@ == b@),
    {
        if a@ == b@ {
            assert(a.bytes =~= b.bytes);
        }
    }
}

/// The address that a base58 string denotes, where it denotes one.
pub uninterp spec fn base58_address(text: Seq<char>) -> Option<Seq<u8>>;

/// Decodes a base58 string with `anchor_lang::prelude::Pubkey::from_str`.
///
/// Trusted: the result is the address that `from_str` decodes from `text`,
/// and `None` where `from_str` reports a parse error. The decoding depends
/// on the characters of `text` alone.
#[verifier::external_body]
pub(crate) fn parse_pubkey(text: &str) -> (key: Option<Pubkey>)
    ensures
        match key {
            Some(k) => base58_address(text@) == Some(k@),
            None => base58_address(text@) is None,
        },
{
    match text.parse::<anchor_lang::prelude::Pubkey>() {
        Ok(parsed) => Some(Pubkey { bytes: parsed.to_bytes() }),
        Err(_) => None,
    }
}

} // verus!
