//! The values that pass between the contract and its host.

use vstd::prelude::*;

verus! {

/// Identifies an NFT class.
pub type ClassId = u32;

/// Identifies a token within its class.
pub type TokenId = u64;

/// How many units of one token: a token may be held in more than one unit.
pub type Quantity = u64;

/// A block height of the chain.
pub type BlockNumber = u32;

/// A URI or descriptor blob, which the contract never looks into.
pub type Metadata = Vec<u8>;

/// Bytes that are meant as UTF-8 text.
pub type Chars = Vec<u8>;

/// A bitfield whose meaning the host defines.
pub type Properties = u8;

/// The randomness that the host hands out.
pub type RandomSeed = [u8; 32];

/// The account identifier of the chain, `ink_env::AccountId`: 32 bytes that the contract
/// carries from a message to the host and from the host into an event without reading them.
#[verifier::external_type_specification]
#[verifier::external_body]
pub struct ExAccountId(ink_env::AccountId);

/// `Clone::clone` of `ink_env::AccountId`, which that crate derives for its 32 bytes: the
/// clone is the account it was taken from.
pub assume_specification[ <ink_env::AccountId as Clone>::clone ](
    account: &ink_env::AccountId,
) -> (copy: ink_env::AccountId)
    ensures
        copy == *account,
;

/// Why the host refused an operation. The host reports a status code with every reply;
/// zero is success and every other code is one error of the host's own list. The contract
/// hands the error on as it came, so the code is kept as it is.
#[derive(Clone, Copy, Debug, PartialEq, Eq, Structural)]
pub struct NFTMartErr {
    pub code: u32,
}

impl NFTMartErr {
    /// Reads the status code of a host reply: `Ok` for zero, else the error with that code.
    pub fn from_status_code(status_code: u32) -> (r: Result<(), NFTMartErr>)
        ensures
            r == Self::lift(status_code),
    {
        if status_code == 0 {
            Ok(())
        } else {
            Err(NFTMartErr { code: status_code })
        }
    }

    /// What a status code means.
    pub open spec fn lift(status_code: u32) -> Result<(), NFTMartErr> {
        if status_code == 0 {
            Ok(())
        } else {
            Err(NFTMartErr { code: status_code })
        }
    }
}

/// What the host records of a token beside its metadata and quantity.
#[derive(Clone, Debug, PartialEq, Eq)]
pub struct TokenData {
    pub create_block: BlockNumber,
}

/// The host's record of one token, as far as the contract reads it.
#[derive(Clone, Debug, PartialEq, Eq)]
pub struct ContractTokenInfo {
    pub metadata: Metadata,
    pub quantity: Quantity,
    pub data: TokenData,
}

} // verus!
