use vstd::prelude::*;

use crate::contract::stored_or_zero;

verus! {

/// The records of an instance that started empty and then saw the
/// successful writes `writes`, in order, each an identity and its value.
pub open spec fn replay(writes: Seq<(Seq<u8>, u32)>) -> Map<Seq<u8>, u32>
    decreases writes.len(),
{
    if writes.len() == 0 {
        Map::empty()
    } else {
        replay(writes.drop_last()).insert(writes.last().0, writes.last().1)
    }
}

/// One more successful write extends the history exactly as the write
/// itself changes the records: by setting that one identity's value.
pub proof fn lemma_replay_step(writes: Seq<(Seq<u8>, u32)>, addr: Seq<u8>, value: u32)
    ensures
        replay(writes.push((addr, value))) == replay(writes).insert(addr, value),
{
    assert(writes.push((addr, value)).drop_last() =~= writes);
}

/// A record exists for an identity exactly when at least one successful
/// write named it.
pub proof fn lemma_record_iff_written(writes: Seq<(Seq<u8>, u32)>, addr: Seq<u8>)
    ensures
        replay(writes).contains_key(addr) <==> exists|i: int|
            0 <= i < writes.len() && #[trigger] writes[i].0 == addr,
    decreases writes.len(),
{
    if writes.len() > 0 {
        let prefix = writes.drop_last();
        lemma_record_iff_written(prefix, addr);
        if replay(prefix).contains_key(addr) {
            let i = choose|i: int| 0 <= i < prefix.len() && #[trigger] prefix[i].0 == addr;
            assert(writes[i].0 == addr);
        }
        if exists|i: int| 0 <= i < writes.len() && #[trigger] writes[i].0 == addr {
            let i = choose|i: int| 0 <= i < writes.len() && #[trigger] writes[i].0 == addr;
            if i < prefix.len() {
                assert(prefix[i].0 == addr);
            }
        }
    }
}

/// An identity that no successful write named reads as 0.
pub proof fn lemma_read_before_write(writes: Seq<(Seq<u8>, u32)>, addr: Seq<u8>)
    requires
        forall|i: int| 0 <= i < writes.len() ==> #[trigger] writes[i].0 != addr,
    ensures
        stored_or_zero(replay(writes), addr) == 0,
{
    lemma_record_iff_written(writes, addr);
}

/// After a successful write of `value` under `addr`, a read of `addr`
/// returns `value`.
pub proof fn lemma_write_then_read(records: Map<Seq<u8>, u32>, addr: Seq<u8>, value: u32)
    ensures
        stored_or_zero(records.insert(addr, value), addr) == value,
{
}

/// Of two successful writes under the same identity, the later one is what
/// a read returns: nothing of the earlier value survives.
pub proof fn lemma_last_write_wins(
    records: Map<Seq<u8>, u32>,
    addr: Seq<u8>,
    first: u32,
    second: u32,
)
    ensures
        stored_or_zero(records.insert(addr, first).insert(addr, second), addr) == second,
{
}

} // verus!
