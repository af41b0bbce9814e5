//! What holds of every message, stated over the model of the contract and proved.

use ink_env::AccountId;
use vstd::prelude::*;

use crate::contract::{
    ask, done, next, projection, transfer_from, OutputView, PendingView, StepView, TransferItem,
};
use crate::events::{CreateClassFromContract, Event, RandomUpdated};
use crate::host::{
    spec_answers, Family, HostCall, HostReply, HostResult, Operation, OriginatorKind,
};
use crate::types::{NFTMartErr, RandomSeed};

verus! {

/// A message as far as it has run: the stored seed, the requests that the host was asked
/// so far, in order, and where the message stands.
pub struct Trace {
    pub seed: RandomSeed,
    pub calls: Seq<HostCall>,
    pub step: StepView,
}

/// Runs a message from `step` against a host that hands back `results` one after the
/// other: each request that the message asks takes the next result, until the message
/// ends or the results run out.
pub open spec fn run(seed: RandomSeed, step: StepView, results: Seq<HostResult>) -> Trace
    decreases results.len(),
{
    match step {
        StepView::Ask(pending) => if results.len() > 0 {
            let (seed_then, step_then) = next(seed, pending, results[0]);
            let rest = run(seed_then, step_then, results.skip(1));
            Trace { seed: rest.seed, calls: seq![pending.call] + rest.calls, step: rest.step }
        } else {
            Trace { seed, calls: Seq::empty(), step }
        },
        StepView::Done(_) => Trace { seed, calls: Seq::empty(), step },
    }
}

/// The requests that move `items` to `to`, one for each item and in their order.
pub open spec fn transfers(to: AccountId, items: Seq<TransferItem>) -> Seq<HostCall> {
    Seq::new(
        items.len(),
        |i: int|
            HostCall::Transfer {
                to,
                class_id: items[i].0,
                token_id: items[i].1,
                quantity: items[i].2,
            },
    )
}

/// Every privileged operation and every kind of originator has a host operation of its
/// own: the selected operation belongs to the family asked for, and two selections agree
/// only where family and kind do.
pub proof fn selection_is_faithful(
    family: Family,
    kind: OriginatorKind,
    other_family: Family,
    other_kind: OriginatorKind,
)
    ensures
        Operation::spec_select(family, kind).spec_family() == Some(family),
        Operation::spec_select(family, kind) == Operation::spec_select(other_family, other_kind)
            <==> family == other_family && kind == other_kind,
{
}

/// When the host fails a request, the message ends there: the stored seed is what it
/// was and no event is published. `tokens` answers as for a token that does not exist;
/// every other message hands the host's error back unchanged.
pub proof fn failure_leaves_no_trace(seed: RandomSeed, pending: PendingView, error: NFTMartErr)
    ensures
        next(seed, pending, Err(error)).0 == seed,
        pending.call is Tokens ==> next(seed, pending, Err(error)).1 == done(
            Seq::empty(),
            OutputView::Tokens(Seq::empty(), 0, 0),
        ),
        !(pending.call is Tokens) ==> next(seed, pending, Err(error)).1 == done(
            Seq::empty(),
            OutputView::Status(Err(error)),
        ),
{
}

/// A message publishes events only when the host carried out its request.
pub proof fn events_follow_success(seed: RandomSeed, pending: PendingView, result: HostResult)
    requires
        next(seed, pending, result).1 matches StepView::Done(receipt) && receipt.events.len() > 0,
    ensures
        result is Ok,
{
}

/// After an `update` that the host carried out, the stored seed is the one that the
/// host handed out, and the one event published is `RandomUpdated` with that seed: what
/// `get` returns next is what the event says.
pub proof fn update_stores_what_it_announces(seed: RandomSeed, pending: PendingView, new: RandomSeed)
    requires
        pending.call is FetchRandom,
    ensures
        next(seed, pending, Ok(HostReply::Random(new))) == (
            new,
            done(seq![Event::RandomUpdated(RandomUpdated { new })], OutputView::Status(Ok(()))),
        ),
{
}

/// The stored seed changes only when `update` gets its randomness, and then to that.
pub proof fn seed_changes_by_update_alone(seed: RandomSeed, pending: PendingView, result: HostResult)
    requires
        spec_answers(pending.call.spec_operation(), &result),
        next(seed, pending, result).0 != seed,
    ensures
        pending.call is FetchRandom,
        result == Ok::<HostReply, NFTMartErr>(HostReply::Random(next(seed, pending, result).0)),
{
}

/// `tokens` answers with the metadata, the quantity and the block of creation of the
/// record that the host found, byte for byte, and with no metadata, zero and zero where
/// the host found none. It changes nothing and publishes nothing.
pub proof fn tokens_projects_the_record(seed: RandomSeed, pending: PendingView, result: HostResult)
    requires
        pending.call is Tokens,
        spec_answers(pending.call.spec_operation(), &result),
    ensures
        next(seed, pending, result) == (seed, done(Seq::empty(), projection(result))),
        result matches Ok(HostReply::Tokens(Some(info))) ==> projection(result)
            == OutputView::Tokens(info.metadata@, info.quantity, info.data.create_block),
        result == Ok::<HostReply, NFTMartErr>(HostReply::Tokens(None)) ==> projection(result)
            == OutputView::Tokens(Seq::empty(), 0, 0),
{
}

/// When the host has created a class, the message publishes one event, which names
/// the owner and the class that the host replied with, and succeeds.
pub proof fn class_event_repeats_the_reply(
    seed: RandomSeed,
    pending: PendingView,
    owner: AccountId,
    class_id: u32,
)
    requires
        pending.call is CreateClass,
    ensures
        next(seed, pending, Ok(HostReply::ClassCreated { owner, class_id })) == (
            seed,
            done(
                seq![Event::CreateClassFromContract(CreateClassFromContract { owner, class_id })],
                OutputView::Status(Ok(())),
            ),
        ),
{
}

/// Minting and transferring publish no event of the contract, whatever the host replies.
pub proof fn mint_and_transfer_are_silent(seed: RandomSeed, pending: PendingView, result: HostResult)
    requires
        pending.call is ProxyMint || pending.call is Transfer,
        spec_answers(pending.call.spec_operation(), &result),
        next(seed, pending, result).1 is Done,
    ensures
        next(seed, pending, result).1->Done_0.events == Seq::<Event>::empty(),
        next(seed, pending, result).1->Done_0.output == OutputView::Status(
            match result {
                Ok(_) => Ok(()),
                Err(e) => Err(e),
            },
        ),
{
}

/// A message that asks for one request ends with the host's answer to it: the host is
/// asked that request and no other.
pub proof fn one_request_one_call(seed: RandomSeed, call: HostCall, results: Seq<HostResult>)
    requires
        results.len() > 0,
    ensures
        run(seed, ask(call), results).calls == seq![call],
        run(seed, ask(call), results).step is Done,
        run(seed, ask(call), results).seed == next(seed, ask(call)->Ask_0, results[0]).0,
        run(seed, ask(call), results).step == next(seed, ask(call)->Ask_0, results[0]).1,
{
    let pending = ask(call)->Ask_0;
    let (seed_then, step_then) = next(seed, pending, results[0]);
    assert(step_then is Done);
    assert(run(seed_then, step_then, results.skip(1)).calls == Seq::<HostCall>::empty());
    assert(seq![call] + Seq::<HostCall>::empty() =~= seq![call]);
}

/// `transfer_all` stops at the first transfer that the host fails. Where the host makes
/// the first `failed` transfers and fails the next with `error`, the host is asked for
/// those transfers, in the order of the items, and for none after them; the message
/// hands `error` back.
pub proof fn transfer_all_stops_at_first_failure(
    seed: RandomSeed,
    to: AccountId,
    items: Seq<TransferItem>,
    results: Seq<HostResult>,
    failed: int,
    error: NFTMartErr,
)
    requires
        0 <= failed < items.len(),
        failed < results.len(),
        forall|i: int| 0 <= i < failed ==> results[i] == Ok::<HostReply, NFTMartErr>(
            HostReply::Transferred,
        ),
        results[failed] == Err::<HostReply, NFTMartErr>(error),
    ensures
        run(seed, transfer_from(to, items), results) == (Trace {
            seed,
            calls: transfers(to, items).take(failed + 1),
            step: done(Seq::empty(), OutputView::Status(Err(error))),
        }),
    decreases failed,
{
    let first = transfers(to, items)[0];
    let pending = PendingView { call: first, later: items.skip(1) };
    assert(transfer_from(to, items) == StepView::Ask(pending));
    let (seed_then, step_then) = next(seed, pending, results[0]);
    let rest = run(seed_then, step_then, results.skip(1));
    if failed == 0 {
        assert(rest.calls == Seq::<HostCall>::empty());
        assert(seq![first] + rest.calls =~= transfers(to, items).take(1));
    } else {
        assert(results[0] == Ok::<HostReply, NFTMartErr>(HostReply::Transferred));
        assert(step_then == transfer_from(to, items.skip(1)));
        assert forall|i: int| 0 <= i < failed - 1 implies results.skip(1)[i] == Ok::<
            HostReply,
            NFTMartErr,
        >(HostReply::Transferred) by {
            assert(results.skip(1)[i] == results[i + 1]);
        }
        transfer_all_stops_at_first_failure(
            seed,
            to,
            items.skip(1),
            results.skip(1),
            failed - 1,
            error,
        );
        assert(seq![first] + transfers(to, items.skip(1)).take(failed) =~= transfers(
            to,
            items,
        ).take(failed + 1));
    }
}

/// `transfer_all` asks the host for every item, in the order given, when the host
/// makes every transfer, and then succeeds.
pub proof fn transfer_all_moves_every_item(
    seed: RandomSeed,
    to: AccountId,
    items: Seq<TransferItem>,
    results: Seq<HostResult>,
)
    requires
        items.len() <= results.len(),
        forall|i: int| 0 <= i < items.len() ==> results[i] == Ok::<HostReply, NFTMartErr>(
            HostReply::Transferred,
        ),
    ensures
        run(seed, transfer_from(to, items), results) == (Trace {
            seed,
            calls: transfers(to, items),
            step: done(Seq::empty(), OutputView::Status(Ok(()))),
        }),
    decreases items.len(),
{
    if items.len() == 0 {
        assert(transfers(to, items) =~= Seq::<HostCall>::empty());
    } else {
        let first = transfers(to, items)[0];
        let pending = PendingView { call: first, later: items.skip(1) };
        assert(transfer_from(to, items) == StepView::Ask(pending));
        assert(results[0] == Ok::<HostReply, NFTMartErr>(HostReply::Transferred));
        assert(next(seed, pending, results[0]) == (seed, transfer_from(to, items.skip(1))));
        assert forall|i: int| 0 <= i < items.skip(1).len() implies results.skip(1)[i] == Ok::<
            HostReply,
            NFTMartErr,
        >(HostReply::Transferred) by {
            assert(results.skip(1)[i] == results[i + 1]);
        }
        transfer_all_moves_every_item(seed, to, items.skip(1), results.skip(1));
        assert(seq![first] + transfers(to, items.skip(1)) =~= transfers(to, items));
    }
}

} // verus!
