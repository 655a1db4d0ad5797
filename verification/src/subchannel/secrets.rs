//! The revocation secrets that the remote party has revealed.
//!
//! The secrets are kept in Lightning's store of commitment secrets, which expects its first
//! secret at index `2^48 - 1` and every further one at the index just below. The secret of
//! update index `n` is therefore kept at index `2^48 - 1 - n`.

use lightning::ln::chan_utils::CounterpartyCommitmentSecrets;
use vstd::prelude::*;

use crate::error::Error;

verus! {

/// The pairs of a secret and its index that a store holds, by position.
pub uninterp spec fn secret_slots(store: CounterpartyCommitmentSecrets) -> Seq<(Seq<u8>, u64)>;

/// The secret of index `idx` as the store derives it from a secret it holds, of whose index
/// `idx` differs in the lowest `bits` bits at most.
pub uninterp spec fn derived_secret(secret: Seq<u8>, bits: u8, idx: u64) -> Seq<u8>;

/// One more than the greatest index of a secret: `2^48`.
pub const INDEX_LIMIT: u64 = 0x1_0000_0000_0000;

/// The number with the lowest `bits` bits set.
pub open spec fn low_mask(bits: u64) -> u64 {
    ((1u64 << bits) - 1) as u64
}

/// The position at which the store keeps the secret of index `idx`: that of the lowest bit
/// set in `idx`, found from `from` on, and 48 where none of the lowest 48 bits is set.
pub open spec fn secret_position_from(idx: u64, from: u64) -> u64
    decreases 48 - from,
{
    if from >= 48 {
        48
    } else if idx & (1u64 << from) == (1u64 << from) {
        from
    } else {
        secret_position_from(idx, (from + 1) as u64)
    }
}

/// The position at which the store keeps the secret of index `idx`.
pub open spec fn secret_position(idx: u64) -> u64 {
    secret_position_from(idx, 0)
}

/// Whether the secret of index `idx` derives from the one kept at `position` with index
/// `slot_index`: the two indices agree above the lowest `position` bits, which are clear in
/// `slot_index`.
pub open spec fn slot_matches(slot_index: u64, position: u64, idx: u64) -> bool {
    idx & !low_mask(position) == slot_index
}

/// The first position from `from` on whose secret derives that of index `idx`; 49 where there
/// is none.
pub open spec fn first_matching_slot(slots: Seq<(Seq<u8>, u64)>, idx: u64, from: int) -> int
    decreases 49 - from,
{
    if from >= 49 {
        49
    } else if slot_matches(slots[from].1, from as u64, idx) {
        from
    } else {
        first_matching_slot(slots, idx, from + 1)
    }
}

/// The least index among those of the slots, and `2^48` where none is below it.
pub open spec fn min_seen_index(slots: Seq<(Seq<u8>, u64)>) -> u64
    decreases slots.len(),
{
    if slots.len() == 0 {
        INDEX_LIMIT
    } else {
        let rest = min_seen_index(slots.drop_last());
        if slots.last().1 < rest {
            slots.last().1
        } else {
            rest
        }
    }
}

/// The secret of index `idx` as the store gives it: derived from the first slot that matches.
pub open spec fn secret_at(slots: Seq<(Seq<u8>, u64)>, idx: u64) -> Option<Seq<u8>> {
    let position = first_matching_slot(slots, idx, 0);
    if position < 49 {
        Some(derived_secret(slots[position].0, position as u8, idx))
    } else {
        None
    }
}

/// Whether `secret`, offered for index `idx`, derives the secret of every slot below its
/// position.
pub open spec fn secret_consistent(slots: Seq<(Seq<u8>, u64)>, idx: u64, secret: Seq<u8>) -> bool {
    forall|i: int|
        0 <= i < secret_position(idx) ==> derived_secret(
            secret,
            secret_position(idx) as u8,
            (#[trigger] slots[i]).1,
        ) == slots[i].0
}

/// The slots of a store after `secret` was offered to it for index `idx`: the secret takes
/// its position if it is consistent and its index is below every index held; otherwise
/// nothing changes.
pub open spec fn slots_after_provide(slots: Seq<(Seq<u8>, u64)>, idx: u64, secret: Seq<u8>) -> Seq<
    (Seq<u8>, u64),
> {
    if secret_consistent(slots, idx, secret) && idx < min_seen_index(slots) {
        slots.update(secret_position(idx) as int, (secret, idx))
    } else {
        slots
    }
}

/// The slots of a store that holds no secret: 49 times the zero secret with index `2^48`.
pub open spec fn empty_slots() -> Seq<(Seq<u8>, u64)> {
    Seq::new(49, |i: int| (Seq::new(32, |k: int| 0u8), INDEX_LIMIT))
}

/// `CounterpartyCommitmentSecrets::new`: a store whose 49 slots hold the zero secret with
/// index `2^48`.
#[verifier::external_body]
pub(crate) fn new_store() -> (store: CounterpartyCommitmentSecrets)
    ensures
        secret_slots(store) == empty_slots(),
{
    CounterpartyCommitmentSecrets::new()
}

/// `CounterpartyCommitmentSecrets::get_min_seen_secret`: the least index among the slots,
/// and `2^48` where none is below it.
#[verifier::external_body]
pub(crate) fn min_seen_secret(store: &CounterpartyCommitmentSecrets) -> (min: u64)
    ensures
        min == min_seen_index(secret_slots(*store)),
{
    store.get_min_seen_secret()
}

/// `CounterpartyCommitmentSecrets::provide_secret`, with `true` for `Ok`. The secret is
/// refused, and the store left alone, unless it derives the secret of every slot below its
/// position. A secret that passes is stored at its position only if its index is below all
/// those held.
#[verifier::external_body]
pub(crate) fn provide_secret(
    store: &mut CounterpartyCommitmentSecrets,
    idx: u64,
    secret: [u8; 32],
) -> (accepted: bool)
    ensures
        accepted == secret_consistent(secret_slots(*old(store)), idx, secret@),
        secret_slots(*final(store)) == slots_after_provide(
            secret_slots(*old(store)),
            idx,
            secret@,
        ),
        !accepted ==> *final(store) == *old(store),
{
    store.provide_secret(idx, secret).is_ok()
}

/// `CounterpartyCommitmentSecrets::get_secret`: the secret derived from the first slot that
/// matches `idx`, and `None` where no slot does. The derivation leaves the secret of the slot
/// as it is where `idx` has none of the bits set that it may differ in. The store panics
/// where no slot matches an index that is not below all those held, so such a call is left
/// out.
#[verifier::external_body]
pub(crate) fn get_secret(store: &CounterpartyCommitmentSecrets, idx: u64) -> (secret: Option<
    [u8; 32],
>)
    requires
        first_matching_slot(secret_slots(*store), idx, 0) < 49 || idx < min_seen_index(
            secret_slots(*store),
        ),
    ensures
        secret is Some <==> first_matching_slot(secret_slots(*store), idx, 0) < 49,
        secret matches Some(bytes) ==> bytes@ == derived_secret(
            secret_slots(*store)[first_matching_slot(secret_slots(*store), idx, 0)].0,
            first_matching_slot(secret_slots(*store), idx, 0) as u8,
            idx,
        ),
        idx & low_mask(first_matching_slot(secret_slots(*store), idx, 0) as u64) == 0 ==> (
        secret matches Some(bytes) ==> bytes@ == secret_slots(*store)[first_matching_slot(
            secret_slots(*store),
            idx,
            0,
        )].0),
{
    store.get_secret(idx)
}

/// Whether the lowest bit set in `x` is bit `position`, or, for position 48, whether none of
/// the lowest 48 bits is set.
pub open spec fn has_position(x: u64, position: u64) -> bool {
    position <= 48 && x & low_mask(position) == 0 && (position < 48 ==> x & (1u64 << position)
        != 0)
}

/// The index that the slot at `position` holds once every secret from index `min` up to
/// `2^48 - 1` was revealed in turn: the least index from `min` on that belongs at the
/// position, and `2^48` where there is none.
pub open spec fn settled_index(min: u64, position: u64) -> u64 {
    if position >= 48 {
        if min == 0 {
            0
        } else {
            INDEX_LIMIT
        }
    } else {
        let rounded = ((min + low_mask(position)) as u64) & !low_mask(position);
        let least = rounded | (1u64 << position);
        if least >= INDEX_LIMIT {
            INDEX_LIMIT
        } else {
            least
        }
    }
}

/// Whether the slots are those of a store to which the secrets were revealed in turn, from
/// index `2^48 - 1` down to the least index it holds.
pub open spec fn slots_well_formed(slots: Seq<(Seq<u8>, u64)>) -> bool {
    &&& slots.len() == 49
    &&& forall|i: int|
        0 <= i < 49 ==> (#[trigger] slots[i]).1 == settled_index(min_seen_index(slots), i as u64)
}

/// The number of secrets that were revealed to a store with these slots.
pub open spec fn revealed_count(slots: Seq<(Seq<u8>, u64)>) -> int {
    INDEX_LIMIT - min_seen_index(slots)
}

/// The secret that was revealed last to a store with these slots.
pub open spec fn latest_secret(slots: Seq<(Seq<u8>, u64)>) -> Seq<u8> {
    slots[secret_position(min_seen_index(slots)) as int].0
}

/// The index at which the store keeps the secret of update index `update_idx`.
pub open spec fn store_index(update_idx: u64) -> u64 {
    (INDEX_LIMIT - 1 - update_idx) as u64
}

proof fn lemma_position_step(x: u64, from: u64)
    by (bit_vector)
    requires
        from < 48,
        x & low_mask(from) == 0,
    ensures
        x & (1u64 << from) == (1u64 << from) <==> x & (1u64 << from) != 0,
        x & (1u64 << from) == 0 ==> x & low_mask((from + 1) as u64) == 0,
{
}

proof fn lemma_position_from(x: u64, from: u64)
    requires
        from <= 48,
        x & low_mask(from) == 0,
    ensures
        has_position(x, secret_position_from(x, from)),
    decreases 48 - from,
{
    if from < 48 {
        lemma_position_step(x, from);
        if x & (1u64 << from) != (1u64 << from) {
            lemma_position_from(x, (from + 1) as u64);
        }
    }
}

/// The position of an index is where its lowest set bit is.
pub proof fn lemma_secret_position(x: u64)
    ensures
        has_position(x, secret_position(x)),
        secret_position(x) <= 48,
{
    assert(x & low_mask(0) == 0) by (bit_vector);
    lemma_position_from(x, 0);
}

proof fn lemma_settled_bounds(min: u64, position: u64)
    by (bit_vector)
    requires
        min <= INDEX_LIMIT,
        position <= 48,
    ensures
        min <= settled_index(min, position) <= INDEX_LIMIT,
{
}

proof fn lemma_settled_step(below: u64, min: u64, position: u64, i: u64)
    by (bit_vector)
    requires
        below < INDEX_LIMIT,
        min == below + 1,
        has_position(below, position),
        i <= 48,
    ensures
        i == position ==> settled_index(below, i) == below,
        i != position ==> settled_index(below, i) == settled_index(min, i),
        slot_matches(below, position, below),
{
}

proof fn lemma_masked_below(idx: u64, position: u64)
    by (bit_vector)
    requires
        position <= 48,
    ensures
        idx & !low_mask(position) <= idx,
{
}

proof fn lemma_cover_step(below: u64, min: u64, position: u64, idx: u64, next: u64, up: u64)
    by (bit_vector)
    requires
        below < INDEX_LIMIT,
        min == below + 1,
        has_position(below, position),
        min <= idx < INDEX_LIMIT,
        slot_matches(settled_index(min, position), position, idx),
        next == below + (1u64 << position),
        has_position(next, up),
    ensures
        up != position,
        slot_matches(settled_index(min, up), up, idx),
{
}

proof fn lemma_shift_bound(position: u64)
    by (bit_vector)
    requires
        position <= 48,
    ensures
        (1u64 << position) <= INDEX_LIMIT,
{
}

/// Once every secret from index `min` up was revealed in turn, the secret of each index from
/// `min` up derives from the slot at the position that is handed out.
pub proof fn lemma_settled_cover(min: u64, idx: u64) -> (position: u64)
    requires
        min <= idx < INDEX_LIMIT,
    ensures
        position <= 48,
        slot_matches(settled_index(min, position), position, idx),
    decreases idx - min,
{
    let above = (min + 1) as u64;
    let own = secret_position(min);
    lemma_secret_position(min);
    if idx == min {
        lemma_settled_step(min, above, own, own);
        own
    } else {
        let found = lemma_settled_cover(above, idx);
        lemma_settled_step(min, above, own, found);
        if found != own {
            found
        } else {
            lemma_shift_bound(own);
            let next = (min + (1u64 << own)) as u64;
            let up = secret_position(next);
            lemma_secret_position(next);
            lemma_cover_step(min, above, own, idx, next, up);
            lemma_settled_step(min, above, own, up);
            up
        }
    }
}

proof fn lemma_min_seen_below(slots: Seq<(Seq<u8>, u64)>)
    ensures
        min_seen_index(slots) <= INDEX_LIMIT,
        forall|i: int| 0 <= i < slots.len() ==> min_seen_index(slots) <= (#[trigger] slots[i]).1,
        min_seen_index(slots) == INDEX_LIMIT || exists|i: int|
            0 <= i < slots.len() && (#[trigger] slots[i]).1 == min_seen_index(slots),
    decreases slots.len(),
{
    if slots.len() > 0 {
        let front = slots.drop_last();
        lemma_min_seen_below(front);
        assert forall|i: int| 0 <= i < slots.len() implies min_seen_index(slots) <= (
        #[trigger] slots[i]).1 by {
            if i < front.len() {
                assert(front[i] == slots[i]);
            }
        }
        if min_seen_index(slots) != INDEX_LIMIT {
            if slots.last().1 < min_seen_index(front) {
                assert(slots[slots.len() - 1].1 == min_seen_index(slots));
            } else {
                let k = choose|k: int|
                    0 <= k < front.len() && (#[trigger] front[k]).1 == min_seen_index(front);
                assert(slots[k] == front[k]);
            }
        }
    }
}

/// The least index is the one that some slot holds and none goes below.
proof fn lemma_min_seen_is(slots: Seq<(Seq<u8>, u64)>, least: u64, at: int)
    requires
        least <= INDEX_LIMIT,
        0 <= at < slots.len(),
        slots[at].1 == least,
        forall|i: int| 0 <= i < slots.len() ==> least <= (#[trigger] slots[i]).1,
    ensures
        min_seen_index(slots) == least,
{
    lemma_min_seen_below(slots);
}

proof fn lemma_first_match_found(slots: Seq<(Seq<u8>, u64)>, idx: u64, from: int, at: int)
    requires
        0 <= from <= at < 49,
        slot_matches(slots[at].1, at as u64, idx),
    ensures
        from <= first_matching_slot(slots, idx, from) <= at,
        slot_matches(
            slots[first_matching_slot(slots, idx, from)].1,
            first_matching_slot(slots, idx, from) as u64,
            idx,
        ),
    decreases at - from,
{
    if !slot_matches(slots[from].1, from as u64, idx) {
        lemma_first_match_found(slots, idx, from + 1, at);
    }
}

proof fn lemma_first_match_none(slots: Seq<(Seq<u8>, u64)>, idx: u64, from: int)
    requires
        0 <= from <= 49,
        forall|i: int| from <= i < 49 ==> !slot_matches((#[trigger] slots[i]).1, i as u64, idx),
    ensures
        first_matching_slot(slots, idx, from) == 49,
    decreases 49 - from,
{
    if from < 49 {
        lemma_first_match_none(slots, idx, from + 1);
    }
}

/// Of the indices below `2^48`, a well-formed store matches exactly those from the least one
/// it holds on.
pub proof fn lemma_matches_revealed(slots: Seq<(Seq<u8>, u64)>, idx: u64)
    requires
        slots_well_formed(slots),
        idx < INDEX_LIMIT,
    ensures
        first_matching_slot(slots, idx, 0) < 49 <==> min_seen_index(slots) <= idx,
{
    let min = min_seen_index(slots);
    lemma_min_seen_below(slots);
    if min <= idx {
        let at = lemma_settled_cover(min, idx);
        assert(slots[at as int].1 == settled_index(min, at));
        lemma_first_match_found(slots, idx, 0, at as int);
    } else {
        assert forall|i: int| 0 <= i < 49 implies !slot_matches(
            (#[trigger] slots[i]).1,
            i as u64,
            idx,
        ) by {
            lemma_masked_below(idx, i as u64);
            lemma_settled_bounds(min, i as u64);
        }
        lemma_first_match_none(slots, idx, 0);
    }
}

/// In a well-formed store, the first slot that matches the least index held is the one at
/// the position of that index.
proof fn lemma_latest_slot(slots: Seq<(Seq<u8>, u64)>)
    requires
        slots_well_formed(slots),
        min_seen_index(slots) < INDEX_LIMIT,
    ensures
        first_matching_slot(slots, min_seen_index(slots), 0) == secret_position(
            min_seen_index(slots),
        ),
        min_seen_index(slots) & low_mask(secret_position(min_seen_index(slots))) == 0,
{
    let min = min_seen_index(slots);
    let above = (min + 1) as u64;
    let own = secret_position(min);
    lemma_secret_position(min);
    lemma_settled_step(min, above, own, own);
    assert(slots[own as int].1 == settled_index(min, own));
    lemma_first_match_found(slots, min, 0, own as int);
    let first = first_matching_slot(slots, min, 0);
    if first != own {
        assert(slots[first].1 == settled_index(min, first as u64));
        lemma_masked_below(min, first as u64);
        lemma_settled_step(min, above, own, first as u64);
        lemma_settled_bounds(above, first as u64);
    }
}

/// A store that holds no secret is well formed.
pub proof fn lemma_empty_well_formed()
    ensures
        slots_well_formed(empty_slots()),
        revealed_count(empty_slots()) == 0,
{
    let slots = empty_slots();
    lemma_min_seen_below(slots);
    assert(slots[0].1 == INDEX_LIMIT);
    assert(min_seen_index(slots) == INDEX_LIMIT);
    assert forall|i: int| 0 <= i < 49 implies (#[trigger] slots[i]).1 == settled_index(
        INDEX_LIMIT,
        i as u64,
    ) by {
        lemma_settled_bounds(INDEX_LIMIT, i as u64);
    }
}

/// What revealing `secret` as the one of update index `update_idx` makes of the slots of a
/// store. The secrets are revealed in the order of the update indices, none left out: the
/// update index must be the number of secrets revealed before. The secret then goes in at the
/// index just below the least one held, unless the store is full or the secret does not
/// derive those that it must.
pub open spec fn spec_reveal(slots: Seq<(Seq<u8>, u64)>, update_idx: u64, secret: Seq<u8>) -> Result<
    Seq<(Seq<u8>, u64)>,
    Error,
> {
    let min = min_seen_index(slots);
    let below = (min - 1) as u64;
    if update_idx != revealed_count(slots) {
        Err(Error::InvalidUpdateIndex)
    } else if min == 0 {
        Err(Error::SecretsExhausted)
    } else if !secret_consistent(slots, below, secret) {
        Err(Error::InvalidSecret)
    } else {
        Ok(slots.update(secret_position(below) as int, (secret, below)))
    }
}

/// Revealing a secret to a well-formed store leaves it well formed, with one secret more.
pub proof fn lemma_reveal_keeps_well_formed(
    slots: Seq<(Seq<u8>, u64)>,
    update_idx: u64,
    secret: Seq<u8>,
)
    requires
        slots_well_formed(slots),
        spec_reveal(slots, update_idx, secret) is Ok,
    ensures
        slots_well_formed(spec_reveal(slots, update_idx, secret)->Ok_0),
        revealed_count(spec_reveal(slots, update_idx, secret)->Ok_0) == update_idx + 1,
        latest_secret(spec_reveal(slots, update_idx, secret)->Ok_0) == secret,
{
    let min = min_seen_index(slots);
    let below = (min - 1) as u64;
    let position = secret_position(below);
    let next = spec_reveal(slots, update_idx, secret)->Ok_0;
    lemma_min_seen_below(slots);
    lemma_secret_position(below);
    assert forall|i: int| 0 <= i < 49 implies below <= (#[trigger] next[i]).1 && next[i].1
        == settled_index(below, i as u64) by {
        lemma_settled_bounds(min, i as u64);
        lemma_settled_step(below, min, position, i as u64);
        if i != position {
            assert(next[i] == slots[i]);
        }
    }
    lemma_min_seen_is(next, below, position as int);
}

/// A new store of revocation secrets, which holds none.
pub fn new_secrets() -> (store: CounterpartyCommitmentSecrets)
    ensures
        secret_slots(store) == empty_slots(),
        slots_well_formed(secret_slots(store)),
        revealed_count(secret_slots(store)) == 0,
{
    proof {
        lemma_empty_well_formed();
    }
    new_store()
}

/// The number of secrets that were revealed to the store.
pub fn revealed_secrets(store: &CounterpartyCommitmentSecrets) -> (count: u64)
    ensures
        count == revealed_count(secret_slots(*store)),
{
    proof {
        lemma_min_seen_below(secret_slots(*store));
    }
    INDEX_LIMIT - min_seen_secret(store)
}

/// Takes in the secret that the remote party reveals to revoke the split of update index
/// `update_idx`. The secrets are taken in the order of the update indices: one that is not
/// next in turn is refused, and so is one that does not derive the secrets that it must. A
/// refusal leaves the store as it was.
pub fn reveal_secret(
    store: &mut CounterpartyCommitmentSecrets,
    update_idx: u64,
    secret: [u8; 32],
) -> (result: Result<(), Error>)
    requires
        slots_well_formed(secret_slots(*old(store))),
    ensures
        slots_well_formed(secret_slots(*final(store))),
        match spec_reveal(secret_slots(*old(store)), update_idx, secret@) {
            Ok(next) => result is Ok && secret_slots(*final(store)) == next,
            Err(error) => result == Err::<(), Error>(error) && *final(store) == *old(store),
        },
{
    let min = min_seen_secret(store);
    proof {
        lemma_min_seen_below(secret_slots(*store));
    }
    if update_idx != INDEX_LIMIT - min {
        return Err(Error::InvalidUpdateIndex);
    }
    if min == 0 {
        return Err(Error::SecretsExhausted);
    }
    proof {
        if spec_reveal(secret_slots(*store), update_idx, secret@) is Ok {
            lemma_reveal_keeps_well_formed(secret_slots(*store), update_idx, secret@);
        }
    }
    if provide_secret(store, min - 1, secret) {
        Ok(())
    } else {
        Err(Error::InvalidSecret)
    }
}

/// The secret that revokes the split of update index `update_idx`, if the remote party has
/// revealed it: the secrets are revealed in the order of the update indices, so the store
/// knows the secret exactly when `update_idx` is below the number of secrets revealed. The
/// secret revealed last is handed out as it was revealed, the earlier ones as the store
/// derives them.
pub fn revealed_secret(store: &CounterpartyCommitmentSecrets, update_idx: u64) -> (secret: Option<
    [u8; 32],
>)
    requires
        slots_well_formed(secret_slots(*store)),
    ensures
        secret is Some <==> update_idx < revealed_count(secret_slots(*store)),
        secret matches Some(bytes) ==> secret_at(
            secret_slots(*store),
            store_index(update_idx),
        ) == Some(bytes@),
        update_idx + 1 == revealed_count(secret_slots(*store)) ==> (secret matches Some(bytes)
            ==> bytes@ == latest_secret(secret_slots(*store))),
{
    proof {
        lemma_min_seen_below(secret_slots(*store));
    }
    if update_idx >= INDEX_LIMIT {
        return None;
    }
    let idx = INDEX_LIMIT - 1 - update_idx;
    proof {
        lemma_matches_revealed(secret_slots(*store), idx);
        if idx == min_seen_index(secret_slots(*store)) {
            lemma_latest_slot(secret_slots(*store));
        }
    }
    if idx < min_seen_secret(store) {
        None
    } else {
        get_secret(store, idx)
    }
}

} // verus!
