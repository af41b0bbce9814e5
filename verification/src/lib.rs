//! The decisions of a small NFT marketplace contract, apart from the chain that hosts it.
//!
//! Every privileged operation of the contract is carried out by the host chain. The
//! contract itself decides which host operation a message asks for, what the message
//! answers once the host has replied, which events it publishes and how its single
//! storage cell changes. Those decisions are written here as a state machine: a message
//! of [`ContractDemo`] yields a [`Step`]; where the step asks for a host call, the
//! embedding makes it and hands what came back to [`ContractDemo::resume`], which yields
//! the next step; where the step is done, the embedding publishes its events and returns
//! its output.

pub mod contract;
pub mod events;
pub mod host;
pub mod laws;
pub mod types;

pub use contract::{ContractDemo, Output, Pending, Receipt, Step, TransferItem};
pub use events::{CreateClassFromContract, Event, RandomUpdated, Topic};
pub use host::{
    answers, Family, HostCall, HostReply, HostResult, Operation, Originator, OriginatorKind,
    ReplyShape,
};
pub use types::{
    BlockNumber, Chars, ClassId, ContractTokenInfo, Metadata, NFTMartErr, Properties, Quantity,
    RandomSeed, TokenData, TokenId,
};
