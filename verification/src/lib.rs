pub mod accounts;
pub mod address;
pub mod error;
pub mod logs;
pub mod starter;

use vstd::prelude::*;

verus! {

/// The 32 bytes of the program's deployed identifier: the address, fixed at
/// deployment time and embedded in the binary, under which the host runtime
/// routes invocations to this program.
pub open spec fn declared_id_bytes() -> Seq<u8> {
    seq![
        33u8, 97, 138, 33, 246, 202, 2, 69, 147, 191, 43, 176, 85, 187, 246, 217, 185, 21, 135,
        139, 253, 63, 179, 216, 164, 225, 78, 122, 69, 39, 100, 146,
    ]
}

/// The program's own deployed identifier, as an address value.
pub fn declared_id() -> (r: address::Address)
    ensures
        r.wf(),
        r@ == declared_id_bytes(),
{
    let bytes: Vec<u8> = vec![
        33u8, 97, 138, 33, 246, 202, 2, 69, 147, 191, 43, 176, 85, 187, 246, 217, 185, 21, 135,
        139, 253, 63, 179, 216, 164, 225, 78, 122, 69, 39, 100, 146,
    ];
    proof {
        assert(bytes@ =~= declared_id_bytes());
    }
    address::Address::new(bytes)
}

} // verus!
