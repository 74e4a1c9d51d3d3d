//! What holds of a log across several operations, stated over the model that
//! the operations' contracts use.
use std::sync::Arc;
use futures::task::AtomicWaker;
use vstd::prelude::*;
use crate::log::{message_at, other_than, without_reader, LogView};

verus! {

/// Everything a reader at `pos` receives, one receive step after another
/// (each hands out `message_at` its position and moves past it), until the
/// log has nothing more for it.
pub open spec fn deliveries(messages: Seq<Seq<u8>>, pos: nat) -> Seq<Seq<u8>>
    decreases messages.len() - pos,
{
    match message_at(messages, pos) {
        Some(m) => seq![m] + deliveries(messages, pos + 1),
        None => Seq::empty(),
    }
}

/// A reader at `pos` receives the rest of the log from `pos` on, in order.
pub proof fn lemma_deliveries(messages: Seq<Seq<u8>>, pos: nat)
    requires
        pos <= messages.len(),
    ensures
        deliveries(messages, pos) == messages.subrange(pos as int, messages.len() as int),
    decreases messages.len() - pos,
{
    if pos < messages.len() {
        lemma_deliveries(messages, pos + 1);
        assert(deliveries(messages, pos) =~= messages.subrange(pos as int, messages.len() as int));
    } else {
        assert(deliveries(messages, pos) =~= messages.subrange(pos as int, messages.len() as int));
    }
}

/// Ordering: a reader that starts at position 0 of an empty log and is never
/// moved receives the messages appended to it exactly, in append order, with
/// no gap and no repeat.
pub proof fn law_ordering(appended: Seq<Seq<u8>>)
    ensures
        deliveries(Seq::<Seq<u8>>::empty() + appended, 0) == appended,
{
    let all = Seq::<Seq<u8>>::empty() + appended;
    assert(all =~= appended);
    lemma_deliveries(appended, 0);
    assert(appended.subrange(0, appended.len() as int) =~= appended);
}

/// Independence: whatever position a reader has reached in the log as it
/// stood (by its own receives, which leave the log and every other reader's
/// position unchanged), it still receives every message appended afterwards,
/// in order, after the rest of what it had not yet received.
pub proof fn law_reader_independence(before: Seq<Seq<u8>>, appended: Seq<Seq<u8>>, pos: nat)
    requires
        pos <= before.len(),
    ensures
        deliveries(before + appended, pos) == before.subrange(pos as int, before.len() as int)
            + appended,
{
    let all = before + appended;
    lemma_deliveries(all, pos);
    assert(all.subrange(pos as int, all.len() as int) =~= before.subrange(
        pos as int,
        before.len() as int,
    ) + appended);
}

/// Late join: a reader moved to position 0 after some messages were appended
/// receives all of them first, then those appended later.
pub proof fn law_late_join(before: Seq<Seq<u8>>, appended: Seq<Seq<u8>>)
    ensures
        deliveries(before + appended, 0) == before + appended,
{
    law_reader_independence(before, appended, 0);
    assert(before.subrange(0, before.len() as int) =~= before);
}

/// Waiting: a reader at the end of the log has nothing to receive; once
/// messages are appended, it receives the first of them.
pub proof fn law_wait_then_wake(before: Seq<Seq<u8>>, appended: Seq<Seq<u8>>)
    requires
        appended.len() > 0,
    ensures
        message_at(before, before.len()) is None,
        message_at(before + appended, before.len()) == Some(appended[0]),
{
}

/// A reader that was never registered has no entry in the registry.
proof fn lemma_without_absent(readers: Seq<(usize, Arc<AtomicWaker>)>, id: usize)
    requires
        forall|k: int| 0 <= k < readers.len() ==> readers[k].0 != id,
    ensures
        without_reader(readers, id) == readers,
    decreases readers.len(),
{
    if readers.len() > 0 {
        let rest = readers.drop_last();
        assert(rest.push(readers.last()) =~= readers);
        assert forall|k: int| 0 <= k < rest.len() implies rest[k].0 != id by {
            assert(readers[k] == rest[k]);
        }
        lemma_without_absent(rest, id);
        rest.lemma_filter_push(readers.last(), other_than(id));
    } else {
        assert(readers.filter(other_than(id)) =~= readers);
    }
}

/// Cleanup: registering a reader with any wake slot and then removing it
/// leaves the registry as it was, slots included, so create/destroy cycles
/// never grow it and leave no stale slot behind.
pub proof fn law_register_unregister(log: LogView, slot: Arc<AtomicWaker>)
    requires
        log.wf(),
        log.next_reader < usize::MAX,
    ensures
        without_reader(log.readers.push((log.next_reader as usize, slot)), log.next_reader as usize)
            == log.readers,
{
    let id = log.next_reader as usize;
    lemma_without_absent(log.readers, id);
    log.readers.lemma_filter_push((id, slot), other_than(id));
}

/// A receive step and the sequence of deliveries agree: a reader whose
/// receive hands out `message_at` its position receives that message first,
/// then the deliveries from the next position; one with nothing there
/// receives nothing.
pub proof fn lemma_deliveries_step(messages: Seq<Seq<u8>>, pos: nat)
    ensures
        message_at(messages, pos) matches Some(m) ==> deliveries(messages, pos) == seq![m]
            + deliveries(messages, pos + 1),
        message_at(messages, pos) is None ==> deliveries(messages, pos) == Seq::<Seq<u8>>::empty(),
{
}

} // verus!
