//! The channel to the host: which operations it offers, what each is asked with and what
//! it replies.

use ink_env::AccountId;
use vstd::prelude::*;

use crate::types::{
    Chars, ClassId, ContractTokenInfo, Metadata, NFTMartErr, Properties, Quantity, RandomSeed,
    TokenId,
};

verus! {

/// The privileged operations that can be attributed to one of several accounts.
#[derive(Clone, Copy, Debug, PartialEq, Eq, Structural)]
pub enum Family {
    /// Creating an NFT class.
    CreateClass,
    /// Minting a token of a class.
    Mint,
}

/// Which account a privileged operation is attributed to, without the account itself.
#[derive(Clone, Copy, Debug, PartialEq, Eq, Structural)]
pub enum OriginatorKind {
    /// An account that the message names.
    Account,
    /// The account that invoked the contract.
    Caller,
    /// The contract's own account.
    Contract,
}

/// The account that a privileged operation is attributed to. The host, not the contract,
/// checks that the caller may act for it.
#[derive(Clone, Copy, Debug, PartialEq, Eq)]
pub enum Originator {
    /// The account given, on whose behalf the caller claims to act.
    Account(AccountId),
    /// The account that invoked the contract.
    Caller,
    /// The contract's own account.
    Contract,
}

/// The operations of the host. Each is one numbered function of the host.
#[derive(Clone, Copy, Debug, PartialEq, Eq, Structural)]
pub enum Operation {
    Tokens,
    CreateClass,
    CreateClassByCaller,
    CreateClassByContract,
    ProxyMint,
    ProxyMintByCaller,
    ProxyMintByContract,
    Transfer,
    FetchRandom,
}

/// What an operation replies with when it succeeds.
#[derive(Clone, Copy, Debug, PartialEq, Eq, Structural)]
pub enum ReplyShape {
    /// A token's record, or nothing where there is no such token.
    Tokens,
    /// The owner and the identifier of a new class.
    ClassCreated,
    /// The class owner, the beneficiary, the class, the new token and its quantity.
    Minted,
    /// Nothing.
    Transferred,
    /// A random seed.
    Random,
}

impl Originator {
    /// The kind of this originator.
    pub open spec fn spec_kind(&self) -> OriginatorKind {
        match *self {
            Originator::Account(_) => OriginatorKind::Account,
            Originator::Caller => OriginatorKind::Caller,
            Originator::Contract => OriginatorKind::Contract,
        }
    }

    /// The kind of this originator.
    #[verifier::when_used_as_spec(spec_kind)]
    pub fn kind(&self) -> (k: OriginatorKind)
        ensures
            k == self.spec_kind(),
    {
        match self {
            Originator::Account(_) => OriginatorKind::Account,
            Originator::Caller => OriginatorKind::Caller,
            Originator::Contract => OriginatorKind::Contract,
        }
    }
}

impl Operation {
    /// The host operation that carries out `family` in the name of an originator of the
    /// given kind: one row for each pair.
    pub open spec fn spec_select(family: Family, kind: OriginatorKind) -> Operation {
        match (family, kind) {
            (Family::CreateClass, OriginatorKind::Account) => Operation::CreateClass,
            (Family::CreateClass, OriginatorKind::Caller) => Operation::CreateClassByCaller,
            (Family::CreateClass, OriginatorKind::Contract) => Operation::CreateClassByContract,
            (Family::Mint, OriginatorKind::Account) => Operation::ProxyMint,
            (Family::Mint, OriginatorKind::Caller) => Operation::ProxyMintByCaller,
            (Family::Mint, OriginatorKind::Contract) => Operation::ProxyMintByContract,
        }
    }

    /// The host operation that carries out `family` in the name of an originator of the
    /// given kind.
    #[verifier::when_used_as_spec(spec_select)]
    pub fn select(family: Family, kind: OriginatorKind) -> (op: Operation)
        ensures
            op == Operation::spec_select(family, kind),
    {
        match family {
            Family::CreateClass => match kind {
                OriginatorKind::Account => Operation::CreateClass,
                OriginatorKind::Caller => Operation::CreateClassByCaller,
                OriginatorKind::Contract => Operation::CreateClassByContract,
            },
            Family::Mint => match kind {
                OriginatorKind::Account => Operation::ProxyMint,
                OriginatorKind::Caller => Operation::ProxyMintByCaller,
                OriginatorKind::Contract => Operation::ProxyMintByContract,
            },
        }
    }

    /// The family of a privileged operation; `None` for the others.
    pub open spec fn spec_family(&self) -> Option<Family> {
        match self {
            Operation::CreateClass
            | Operation::CreateClassByCaller
            | Operation::CreateClassByContract => Some(Family::CreateClass),
            Operation::ProxyMint
            | Operation::ProxyMintByCaller
            | Operation::ProxyMintByContract => Some(Family::Mint),
            Operation::Tokens | Operation::Transfer | Operation::FetchRandom => None,
        }
    }

    /// The family of a privileged operation; `None` for the others.
    #[verifier::when_used_as_spec(spec_family)]
    pub fn family(&self) -> (f: Option<Family>)
        ensures
            f == self.spec_family(),
    {
        match self {
            Operation::CreateClass => Some(Family::CreateClass),
            Operation::CreateClassByCaller => Some(Family::CreateClass),
            Operation::CreateClassByContract => Some(Family::CreateClass),
            Operation::ProxyMint => Some(Family::Mint),
            Operation::ProxyMintByCaller => Some(Family::Mint),
            Operation::ProxyMintByContract => Some(Family::Mint),
            Operation::Tokens => None,
            Operation::Transfer => None,
            Operation::FetchRandom => None,
        }
    }

    /// What this operation replies with when it succeeds.
    pub open spec fn spec_reply_shape(&self) -> ReplyShape {
        match self {
            Operation::Tokens => ReplyShape::Tokens,
            Operation::CreateClass
            | Operation::CreateClassByCaller
            | Operation::CreateClassByContract => ReplyShape::ClassCreated,
            Operation::ProxyMint
            | Operation::ProxyMintByCaller
            | Operation::ProxyMintByContract => ReplyShape::Minted,
            Operation::Transfer => ReplyShape::Transferred,
            Operation::FetchRandom => ReplyShape::Random,
        }
    }

    /// What this operation replies with when it succeeds.
    #[verifier::when_used_as_spec(spec_reply_shape)]
    pub fn reply_shape(&self) -> (s: ReplyShape)
        ensures
            s == self.spec_reply_shape(),
    {
        match self {
            Operation::Tokens => ReplyShape::Tokens,
            Operation::CreateClass => ReplyShape::ClassCreated,
            Operation::CreateClassByCaller => ReplyShape::ClassCreated,
            Operation::CreateClassByContract => ReplyShape::ClassCreated,
            Operation::ProxyMint => ReplyShape::Minted,
            Operation::ProxyMintByCaller => ReplyShape::Minted,
            Operation::ProxyMintByContract => ReplyShape::Minted,
            Operation::Transfer => ReplyShape::Transferred,
            Operation::FetchRandom => ReplyShape::Random,
        }
    }
}

/// One request to the host: an operation together with its arguments.
#[derive(Clone, Debug, PartialEq, Eq)]
pub enum HostCall {
    /// Asks for the record of one token.
    Tokens { class_id: ClassId, token_id: TokenId },
    /// Asks for a new class, attributed to `originator`.
    CreateClass {
        originator: Originator,
        metadata: Metadata,
        name: Chars,
        description: Chars,
        properties: Properties,
    },
    /// Asks for a new token of `class_id`, minted to `to` and attributed to `originator`.
    ProxyMint {
        originator: Originator,
        to: AccountId,
        class_id: ClassId,
        metadata: Metadata,
        quantity: Quantity,
        charge_royalty: Option<bool>,
    },
    /// Asks to move `quantity` units of a token to `to`.
    Transfer { to: AccountId, class_id: ClassId, token_id: TokenId, quantity: Quantity },
    /// Asks for fresh randomness.
    FetchRandom,
}

impl HostCall {
    /// The host operation that this request names.
    pub open spec fn spec_operation(&self) -> Operation {
        match self {
            HostCall::Tokens { .. } => Operation::Tokens,
            HostCall::CreateClass { originator, .. } => Operation::spec_select(
                Family::CreateClass,
                originator.spec_kind(),
            ),
            HostCall::ProxyMint { originator, .. } => Operation::spec_select(
                Family::Mint,
                originator.spec_kind(),
            ),
            HostCall::Transfer { .. } => Operation::Transfer,
            HostCall::FetchRandom => Operation::FetchRandom,
        }
    }

    /// The host operation that this request names.
    #[verifier::when_used_as_spec(spec_operation)]
    pub fn operation(&self) -> (op: Operation)
        ensures
            op == self.spec_operation(),
    {
        match self {
            HostCall::Tokens { .. } => Operation::Tokens,
            HostCall::CreateClass { originator, .. } => Operation::select(
                Family::CreateClass,
                originator.kind(),
            ),
            HostCall::ProxyMint { originator, .. } => Operation::select(
                Family::Mint,
                originator.kind(),
            ),
            HostCall::Transfer { .. } => Operation::Transfer,
            HostCall::FetchRandom => Operation::FetchRandom,
        }
    }
}

/// What the host replies to a request that it carried out.
#[derive(Clone, Debug, PartialEq, Eq)]
pub enum HostReply {
    /// The record of the token asked for, or `None` where there is no such token.
    Tokens(Option<ContractTokenInfo>),
    /// The owner and the identifier of the class created.
    ClassCreated { owner: AccountId, class_id: ClassId },
    /// What was minted, and for whom.
    Minted {
        class_owner: AccountId,
        beneficiary: AccountId,
        class_id: ClassId,
        token_id: TokenId,
        quantity: Quantity,
    },
    /// The transfer was made.
    Transferred,
    /// The randomness asked for.
    Random(RandomSeed),
}

impl HostReply {
    /// The shape of this reply.
    pub open spec fn spec_shape(&self) -> ReplyShape {
        match self {
            HostReply::Tokens(_) => ReplyShape::Tokens,
            HostReply::ClassCreated { .. } => ReplyShape::ClassCreated,
            HostReply::Minted { .. } => ReplyShape::Minted,
            HostReply::Transferred => ReplyShape::Transferred,
            HostReply::Random(_) => ReplyShape::Random,
        }
    }

    /// The shape of this reply.
    #[verifier::when_used_as_spec(spec_shape)]
    pub fn shape(&self) -> (s: ReplyShape)
        ensures
            s == self.spec_shape(),
    {
        match self {
            HostReply::Tokens(_) => ReplyShape::Tokens,
            HostReply::ClassCreated { .. } => ReplyShape::ClassCreated,
            HostReply::Minted { .. } => ReplyShape::Minted,
            HostReply::Transferred => ReplyShape::Transferred,
            HostReply::Random(_) => ReplyShape::Random,
        }
    }
}

/// What comes back from the host: the reply, or the error that its status code stands for.
pub type HostResult = Result<HostReply, NFTMartErr>;

/// Whether `result` can be what the host hands back for `operation`: an error, or a
/// reply of the shape that the operation declares.
pub open spec fn spec_answers(operation: Operation, result: &HostResult) -> bool {
    match *result {
        Ok(reply) => reply.spec_shape() == operation.spec_reply_shape(),
        Err(_) => true,
    }
}

/// Whether `result` can be what the host hands back for `operation`.
#[verifier::when_used_as_spec(spec_answers)]
pub fn answers(operation: Operation, result: &HostResult) -> (b: bool)
    ensures
        b == spec_answers(operation, result),
{
    match result {
        Ok(reply) => reply.shape() == operation.reply_shape(),
        Err(_) => true,
    }
}

} // verus!
