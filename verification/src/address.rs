use vstd::prelude::*;

verus! {

/// A fixed-size on-chain address: the 32-byte public identifier of a program
/// or an account, as the host runtime hands it to a program.
pub struct Address {
    bytes: Vec<u8>,
}

/// The base58 text that the host runtime's key type renders for 32 key bytes.
pub uninterp spec fn base58_of(bytes: Seq<u8>) -> Seq<char>;

/// Relies on the `Debug` impl of `anchor_lang::prelude::Pubkey`: it writes the
/// base58 text of the key's 32 bytes, a function of those bytes alone.
#[verifier::external_body]
fn base58_text(bytes: &Vec<u8>) -> (r: String)
    requires
        bytes@.len() == 32,
    ensures
        r@ == base58_of(bytes@),
{
    let mut key = [0u8; 32];
    key.copy_from_slice(bytes.as_slice());
    format!("{:?}", anchor_lang::prelude::Pubkey::new_from_array(key))
}

impl View for Address {
    type V = Seq<u8>;

    closed spec fn view(&self) -> Seq<u8> {
        self.bytes@
    }
}

impl Address {
    /// A well-formed address holds exactly 32 bytes.
    pub open spec fn wf(&self) -> bool {
        self@.len() == 32
    }

    /// Builds an address from exactly 32 bytes.
    pub fn new(bytes: Vec<u8>) -> (r: Address)
        requires
            bytes@.len() == 32,
        ensures
            r.wf(),
            r@ == bytes@,
    {
        Address { bytes }
    }

    /// Accepts exactly 32 bytes; any other length is rejected.
    pub fn from_bytes(bytes: Vec<u8>) -> (r: Option<Address>)
        ensures
            r is Some <==> bytes@.len() == 32,
            r matches Some(a) ==> a.wf() && a@ == bytes@,
    {
        if bytes.len() == 32 {
            Some(Address { bytes })
        } else {
            None
        }
    }

    /// The base58 text of this address: what the runtime logs for it.
    pub fn to_base58(&self) -> (r: String)
        requires
            self.wf(),
        ensures
            r@ == base58_of(self@),
    {
        base58_text(&self.bytes)
    }
}

} // verus!
