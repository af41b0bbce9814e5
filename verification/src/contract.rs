//! The contract: its storage cell, its messages and what each does with the host's reply.

use ink_env::AccountId;
use vstd::prelude::*;

use crate::events::{CreateClassFromContract, Event, RandomUpdated};
use crate::host::{spec_answers, HostCall, HostReply, HostResult, Originator};
use crate::types::{
    BlockNumber, Chars, ClassId, Metadata, NFTMartErr, Properties, Quantity, RandomSeed, TokenId,
};

verus! {

/// One item of a batch of transfers: the class, the token and how many units of it.
pub type TransferItem = (ClassId, TokenId, Quantity);

/// What a message hands back to whoever invoked it.
#[derive(Debug, PartialEq, Eq)]
pub enum Output {
    /// The answer of `tokens`: metadata, quantity and the block of creation.
    Tokens(Metadata, Quantity, BlockNumber),
    /// The answer of every other message that asks the host.
    Status(Result<(), NFTMartErr>),
}

/// An [`Output`] as a mathematical value.
pub enum OutputView {
    Tokens(Seq<u8>, Quantity, BlockNumber),
    Status(Result<(), NFTMartErr>),
}

impl View for Output {
    type V = OutputView;

    open spec fn view(&self) -> OutputView {
        match *self {
            Output::Tokens(metadata, quantity, create_block) => OutputView::Tokens(
                metadata@,
                quantity,
                create_block,
            ),
            Output::Status(status) => OutputView::Status(status),
        }
    }
}

/// How a message ended: the events to publish, in this order, and what to hand back.
#[derive(Debug, PartialEq, Eq)]
pub struct Receipt {
    pub events: Vec<Event>,
    pub output: Output,
}

/// A [`Receipt`] as a mathematical value.
pub struct ReceiptView {
    pub events: Seq<Event>,
    pub output: OutputView,
}

impl View for Receipt {
    type V = ReceiptView;

    open spec fn view(&self) -> ReceiptView {
        ReceiptView { events: self.events@, output: self.output@ }
    }
}

/// A message that waits for the host: the request to make, and for a batch of transfers
/// the items that are still to follow it.
#[derive(Debug, PartialEq, Eq)]
pub struct Pending {
    call: HostCall,
    items: Vec<TransferItem>,
    next: usize,
}

/// A [`Pending`] as a mathematical value.
pub struct PendingView {
    /// The request that the host is to be asked.
    pub call: HostCall,
    /// The transfers that follow once the host has made this one.
    pub later: Seq<TransferItem>,
}

impl PendingView {
    /// Only a transfer has others that follow it.
    pub open spec fn wf(self) -> bool {
        self.later.len() > 0 ==> self.call is Transfer
    }
}

impl View for Pending {
    type V = PendingView;

    closed spec fn view(&self) -> PendingView {
        PendingView { call: self.call, later: self.items@.skip(self.next as int) }
    }
}

impl Pending {
    #[verifier::type_invariant]
    spec fn inv(self) -> bool {
        &&& self.next <= self.items.len()
        &&& self.next < self.items.len() ==> self.call is Transfer
    }

    /// The request that the host is to be asked now.
    pub fn call(&self) -> (call: &HostCall)
        ensures
            *call == self@.call,
            self@.wf(),
    {
        proof {
            use_type_invariant(self);
        }
        &self.call
    }
}

/// Where a message stands.
#[derive(Debug, PartialEq, Eq)]
pub enum Step {
    /// The host is to be asked; the message goes on with its reply.
    Ask(Pending),
    /// The message has ended.
    Done(Receipt),
}

/// A [`Step`] as a mathematical value.
pub enum StepView {
    Ask(PendingView),
    Done(ReceiptView),
}

impl View for Step {
    type V = StepView;

    open spec fn view(&self) -> StepView {
        match *self {
            Step::Ask(pending) => StepView::Ask(pending@),
            Step::Done(receipt) => StepView::Done(receipt@),
        }
    }
}

/// The step that asks the host for `call` and for nothing after it.
pub open spec fn ask(call: HostCall) -> StepView {
    StepView::Ask(PendingView { call, later: Seq::empty() })
}

/// The step that ends a message with `events` and `output`.
pub open spec fn done(events: Seq<Event>, output: OutputView) -> StepView {
    StepView::Done(ReceiptView { events, output })
}

/// What `tokens` answers: the three fields of the record that the host found, and
/// nothing, zero and zero where it found none or failed.
pub open spec fn projection(result: HostResult) -> OutputView {
    match result {
        Ok(HostReply::Tokens(Some(info))) => OutputView::Tokens(
            info.metadata@,
            info.quantity,
            info.data.create_block,
        ),
        _ => OutputView::Tokens(Seq::empty(), 0, 0),
    }
}

/// The step of `transfer_all` that stands before `items`: the end of the message where
/// none is left, else the transfer of the first with the others to follow.
pub open spec fn transfer_from(to: AccountId, items: Seq<TransferItem>) -> StepView {
    if items.len() == 0 {
        done(Seq::empty(), OutputView::Status(Ok(())))
    } else {
        StepView::Ask(
            PendingView {
                call: HostCall::Transfer {
                    to,
                    class_id: items[0].0,
                    token_id: items[0].1,
                    quantity: items[0].2,
                },
                later: items.skip(1),
            },
        )
    }
}

/// How a pending message goes on when the host hands back `result`: the stored seed
/// afterwards, and the next step.
///
/// An error ends the message at once, with no event and the seed as it was; `tokens`
/// then answers as for a token that does not exist, every other message hands the error
/// back. A reply ends the message too, but for a transfer that others follow.
pub open spec fn next(seed: RandomSeed, pending: PendingView, result: HostResult) -> (
    RandomSeed,
    StepView,
) {
    match result {
        Err(e) => match pending.call {
            HostCall::Tokens { .. } => (seed, done(Seq::empty(), projection(result))),
            _ => (seed, done(Seq::empty(), OutputView::Status(Err(e)))),
        },
        Ok(HostReply::Tokens(_)) => (seed, done(Seq::empty(), projection(result))),
        Ok(HostReply::ClassCreated { owner, class_id }) => (
            seed,
            done(
                seq![Event::CreateClassFromContract(CreateClassFromContract { owner, class_id })],
                OutputView::Status(Ok(())),
            ),
        ),
        Ok(HostReply::Minted { .. }) => (seed, done(Seq::empty(), OutputView::Status(Ok(())))),
        Ok(HostReply::Transferred) => match pending.call {
            HostCall::Transfer { to, .. } => (seed, transfer_from(to, pending.later)),
            _ => (seed, done(Seq::empty(), OutputView::Status(Ok(())))),
        },
        Ok(HostReply::Random(new)) => (
            new,
            done(seq![Event::RandomUpdated(RandomUpdated { new })], OutputView::Status(Ok(()))),
        ),
    }
}

/// The seed of a fresh contract: 32 zero bytes.
pub open spec fn zero_seed() -> Seq<u8> {
    Seq::new(32, |i: int| 0u8)
}

/// The contract. All that it stores is the seed that the host handed out last.
#[derive(Clone, Copy, Debug, PartialEq, Eq)]
pub struct ContractDemo {
    value: RandomSeed,
}

impl View for ContractDemo {
    type V = RandomSeed;

    closed spec fn view(&self) -> RandomSeed {
        self.value
    }
}

impl ContractDemo {
    /// A fresh contract, whose seed is all zero.
    pub fn new() -> (contract: Self)
        ensures
            contract@@ == zero_seed(),
    {
        ContractDemo { value: [0u8; 32] }
    }

    /// The contract as it was stored, with `value` as its seed.
    pub fn restore(value: RandomSeed) -> (contract: Self)
        ensures
            contract@ == value,
    {
        ContractDemo { value }
    }

    /// The stored seed.
    pub fn get(&self) -> (seed: RandomSeed)
        ensures
            seed == self@,
    {
        self.value
    }

    /// Reads the record of a token: asks the host for it.
    pub fn tokens(&self, class_id: ClassId, token_id: TokenId) -> (step: Step)
        ensures
            step@ == ask(HostCall::Tokens { class_id, token_id }),
    {
        single(HostCall::Tokens { class_id, token_id })
    }

    /// Creates a class in the name of `creator`.
    pub fn create_class(
        &self,
        creator: AccountId,
        metadata: Metadata,
        name: Chars,
        description: Chars,
        properties: Properties,
    ) -> (step: Step)
        ensures
            step@ == ask(
                HostCall::CreateClass {
                    originator: Originator::Account(creator),
                    metadata,
                    name,
                    description,
                    properties,
                },
            ),
    {
        create_class_as(Originator::Account(creator), metadata, name, description, properties)
    }

    /// Creates a class in the name of whoever invoked the contract.
    pub fn create_class_by_caller(
        &self,
        metadata: Metadata,
        name: Chars,
        description: Chars,
        properties: Properties,
    ) -> (step: Step)
        ensures
            step@ == ask(
                HostCall::CreateClass {
                    originator: Originator::Caller,
                    metadata,
                    name,
                    description,
                    properties,
                },
            ),
    {
        create_class_as(Originator::Caller, metadata, name, description, properties)
    }

    /// Creates a class in the name of the contract itself.
    pub fn create_class_by_contract(
        &self,
        metadata: Metadata,
        name: Chars,
        description: Chars,
        properties: Properties,
    ) -> (step: Step)
        ensures
            step@ == ask(
                HostCall::CreateClass {
                    originator: Originator::Contract,
                    metadata,
                    name,
                    description,
                    properties,
                },
            ),
    {
        create_class_as(Originator::Contract, metadata, name, description, properties)
    }

    /// Mints `quantity` units of a new token of `class_id` to `to`, in the name of `creator`.
    pub fn mint_nft(
        &self,
        creator: AccountId,
        to: AccountId,
        class_id: ClassId,
        metadata: Metadata,
        quantity: Quantity,
        charge_royalty: Option<bool>,
    ) -> (step: Step)
        ensures
            step@ == ask(
                HostCall::ProxyMint {
                    originator: Originator::Account(creator),
                    to,
                    class_id,
                    metadata,
                    quantity,
                    charge_royalty,
                },
            ),
    {
        mint_as(Originator::Account(creator), to, class_id, metadata, quantity, charge_royalty)
    }

    /// Mints to `to` in the name of whoever invoked the contract.
    pub fn mint_nft_by_caller(
        &self,
        to: AccountId,
        class_id: ClassId,
        metadata: Metadata,
        quantity: Quantity,
        charge_royalty: Option<bool>,
    ) -> (step: Step)
        ensures
            step@ == ask(
                HostCall::ProxyMint {
                    originator: Originator::Caller,
                    to,
                    class_id,
                    metadata,
                    quantity,
                    charge_royalty,
                },
            ),
    {
        mint_as(Originator::Caller, to, class_id, metadata, quantity, charge_royalty)
    }

    /// Mints to `to` in the name of the contract itself.
    pub fn mint_nft_by_contract(
        &self,
        to: AccountId,
        class_id: ClassId,
        metadata: Metadata,
        quantity: Quantity,
        charge_royalty: Option<bool>,
    ) -> (step: Step)
        ensures
            step@ == ask(
                HostCall::ProxyMint {
                    originator: Originator::Contract,
                    to,
                    class_id,
                    metadata,
                    quantity,
                    charge_royalty,
                },
            ),
    {
        mint_as(Originator::Contract, to, class_id, metadata, quantity, charge_royalty)
    }

    /// Moves `quantity` units of a token to `to`.
    pub fn transfer(
        &self,
        to: AccountId,
        class_id: ClassId,
        token_id: TokenId,
        quantity: Quantity,
    ) -> (step: Step)
        ensures
            step@ == ask(HostCall::Transfer { to, class_id, token_id, quantity }),
    {
        single(HostCall::Transfer { to, class_id, token_id, quantity })
    }

    /// Moves every item of `items` to `to`, one host call for each, in the order given.
    /// With no item the message ends at once; else it asks for the first transfer and
    /// keeps the others for later.
    pub fn transfer_all(&self, to: AccountId, items: Vec<TransferItem>) -> (step: Step)
        ensures
            step@ == transfer_from(to, items@),
    {
        assert(items@.skip(0) =~= items@);
        batch(to, items, 0)
    }

    /// Replaces the stored seed: asks the host for fresh randomness.
    pub fn update(&self) -> (step: Step)
        ensures
            step@ == ask(HostCall::FetchRandom),
    {
        single(HostCall::FetchRandom)
    }

    /// Goes on with a pending message, given what the host handed back for its request.
    ///
    /// `result` must be an error or a reply of the shape that the request's operation
    /// declares: `answers` tells.
    pub fn resume(&mut self, pending: Pending, result: HostResult) -> (step: Step)
        requires
            spec_answers(pending@.call.spec_operation(), &result),
        ensures
            (final(self)@, step@) == next(old(self)@, pending@, result),
    {
        proof {
            use_type_invariant(&pending);
        }
        let Pending { call, items, next } = pending;
        match result {
            Err(e) => match call {
                HostCall::Tokens { .. } => finish(Vec::new(), Output::Tokens(Vec::new(), 0, 0)),
                _ => finish(Vec::new(), Output::Status(Err(e))),
            },
            Ok(HostReply::Tokens(found)) => match found {
                Some(info) => finish(
                    Vec::new(),
                    Output::Tokens(info.metadata, info.quantity, info.data.create_block),
                ),
                None => finish(Vec::new(), Output::Tokens(Vec::new(), 0, 0)),
            },
            Ok(HostReply::ClassCreated { owner, class_id }) => {
                let mut events: Vec<Event> = Vec::new();
                events.push(Event::CreateClassFromContract(CreateClassFromContract { owner, class_id }));
                finish(events, Output::Status(Ok(())))
            },
            Ok(HostReply::Minted { .. }) => finish(Vec::new(), Output::Status(Ok(()))),
            Ok(HostReply::Transferred) => match call {
                HostCall::Transfer { to, .. } => batch(to, items, next),
                _ => finish(Vec::new(), Output::Status(Ok(()))),
            },
            Ok(HostReply::Random(new)) => {
                self.value = new;
                let mut events: Vec<Event> = Vec::new();
                events.push(Event::RandomUpdated(RandomUpdated { new }));
                finish(events, Output::Status(Ok(())))
            },
        }
    }
}

/// The step that asks for `call` alone.
fn single(call: HostCall) -> (step: Step)
    ensures
        step@ == ask(call),
{
    let items: Vec<TransferItem> = Vec::new();
    assert(items@.skip(0) =~= Seq::empty());
    Step::Ask(Pending { call, items, next: 0 })
}

/// The step that ends a message.
fn finish(events: Vec<Event>, output: Output) -> (step: Step)
    ensures
        step@ == done(events@, output@),
{
    Step::Done(Receipt { events, output })
}

/// The request for a new class in the name of `originator`.
fn create_class_as(
    originator: Originator,
    metadata: Metadata,
    name: Chars,
    description: Chars,
    properties: Properties,
) -> (step: Step)
    ensures
        step@ == ask(HostCall::CreateClass { originator, metadata, name, description, properties }),
{
    single(HostCall::CreateClass { originator, metadata, name, description, properties })
}

/// The request for a new token in the name of `originator`.
fn mint_as(
    originator: Originator,
    to: AccountId,
    class_id: ClassId,
    metadata: Metadata,
    quantity: Quantity,
    charge_royalty: Option<bool>,
) -> (step: Step)
    ensures
        step@ == ask(
            HostCall::ProxyMint { originator, to, class_id, metadata, quantity, charge_royalty },
        ),
{
    single(HostCall::ProxyMint { originator, to, class_id, metadata, quantity, charge_royalty })
}

/// The step of a batch of transfers to `to` that stands before the item at `next`.
fn batch(to: AccountId, items: Vec<TransferItem>, next: usize) -> (step: Step)
    requires
        next <= items.len(),
    ensures
        step@ == transfer_from(to, items@.skip(next as int)),
{
    if next < items.len() {
        let (class_id, token_id, quantity) = items[next];
        assert(items@.skip(next as int).skip(1) =~= items@.skip(next + 1));
        Step::Ask(
            Pending {
                call: HostCall::Transfer { to, class_id, token_id, quantity },
                items,
                next: next + 1,
            },
        )
    } else {
        finish(Vec::new(), Output::Status(Ok(())))
    }
}

} // verus!
