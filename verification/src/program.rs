use crate::address::Address;
use vstd::prelude::*;

verus! {

/// The address of this program, `71gmhF6PWXzKV1xhkv4DmQikAhCL5zXSQGccLwurzZd5`.
pub const ID: [u8; 32] = [
    89, 83, 23, 29, 235, 32, 241, 153, 121, 161, 1, 75, 57, 219, 61, 226, 206, 107, 135, 149, 98,
    71, 61, 223, 117, 11, 64, 219, 47, 28, 146, 36,
];

/// The address of the Jupiter aggregator,
/// `JUP6LkbZbjS1jKKwapdHNy74zcZ3tLUZoi5QNyVTaV4`.
pub const JUPITER_ID: [u8; 32] = [
    4, 121, 213, 91, 242, 49, 192, 110, 238, 116, 197, 110, 206, 104, 21, 7, 253, 177, 178, 222,
    163, 244, 142, 81, 2, 177, 205, 162, 86, 188, 19, 143,
];

/// The address of this program.
pub fn id() -> (id: Address)
    ensures
        id.bytes == ID,
{
    Address { bytes: ID }
}

/// The Jupiter aggregator program.
#[derive(Clone, Copy, Debug, PartialEq, Eq)]
pub struct Jupiter;

impl Jupiter {
    /// The address of the Jupiter aggregator.
    pub open spec fn address() -> Address {
        Address { bytes: JUPITER_ID }
    }

    pub fn id() -> (id: Address)
        ensures
            id == Jupiter::address(),
    {
        Address { bytes: JUPITER_ID }
    }
}

/// The accounts of the instruction that sets the program up: none.
#[derive(Clone, Copy, Debug, PartialEq, Eq)]
pub struct Initialize {}

} // verus!
