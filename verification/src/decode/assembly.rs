//! Laws of multi-fragment assembly: the fragments of a message may arrive in
//! any order, with the sentences of other messages between them.

use vstd::prelude::*;
use crate::decode::nmea::{
    NmeaError, NmeaView, PendingView, all_received, empty_slots, joined_payload, key_index,
    keys_unique, spec_add_fragment, spec_assemble, spec_payload_to_binary, opt_bytes,
};

verus! {

/// `perm` is a permutation of `0..n`.
pub open spec fn is_permutation(perm: Seq<int>, n: nat) -> bool {
    &&& perm.len() == n
    &&& forall|k: int| 0 <= k < n ==> 0 <= #[trigger] perm[k] < n
    &&& forall|k1: int, k2: int|
        #![trigger perm[k1], perm[k2]]
        0 <= k1 < n && 0 <= k2 < n && k1 != k2 ==> perm[k1] != perm[k2]
    &&& forall|j: int| 0 <= j < n ==> #[trigger] placed(perm, n as int, j)
}

/// `ordered` are the fragments, in fragment order, of one multi-fragment
/// message with id `id`: fragment `j` carries number `j + 1` and the count
/// of all of them.
pub open spec fn fragments_of(ordered: Seq<NmeaView>, id: Seq<char>) -> bool {
    &&& 2 <= ordered.len() <= 255
    &&& forall|j: int|
        0 <= j < ordered.len() ==> {
            &&& (#[trigger] ordered[j]).fragment_count == ordered.len()
            &&& ordered[j].fragment_number == j + 1
            &&& ordered[j].message_id == Some(id)
        }
}

/// The fragments `ordered[perm[0]], ordered[perm[1]], ...`.
pub open spec fn in_order_of(ordered: Seq<NmeaView>, perm: Seq<int>) -> Seq<NmeaView> {
    Seq::new(perm.len(), |k: int| ordered[perm[k]])
}

/// All fragments received, in fragment order.
pub open spec fn all_slots(ordered: Seq<NmeaView>) -> Seq<Option<NmeaView>> {
    Seq::new(ordered.len(), |j: int| Some(ordered[j]))
}

/// Whether fragment `j` is among the first `k` fragments sent.
pub open spec fn placed(perm: Seq<int>, k: int, j: int) -> bool {
    exists|q: int| 0 <= q < k && #[trigger] perm[q] == j
}

/// The slots once the first `k` fragments sent have arrived.
pub open spec fn slots_after(ordered: Seq<NmeaView>, perm: Seq<int>, k: int) -> Seq<Option<NmeaView>> {
    Seq::new(
        ordered.len(),
        |j: int|
            if placed(perm, k, j) {
                Some(ordered[j])
            } else {
                None
            },
    )
}

proof fn lemma_entry_after_push(p: PendingView, id: Seq<char>, s: Seq<Option<NmeaView>>)
    requires
        key_index(p, id) is None,
    ensures
        key_index(p.push((id, s)), id) == Some(p.len() as int),
{
    let q = p.push((id, s));
    assert(q[p.len() as int].0 == id);
    let i = choose|i: int| 0 <= i < q.len() && (#[trigger] q[i]).0 == id;
    if i < p.len() {
        assert(p[i] == q[i]);
    }
}

proof fn lemma_slots_step(ordered: Seq<NmeaView>, perm: Seq<int>, k: int)
    requires
        is_permutation(perm, ordered.len()),
        0 <= k < ordered.len(),
    ensures
        slots_after(ordered, perm, k).update(perm[k], Some(ordered[perm[k]])) =~= slots_after(
            ordered,
            perm,
            k + 1,
        ),
{
    let n = ordered.len();
    let a = slots_after(ordered, perm, k).update(perm[k], Some(ordered[perm[k]]));
    let b = slots_after(ordered, perm, k + 1);
    assert forall|j: int| 0 <= j < n implies a[j] == b[j] by {
        if j == perm[k] {
            assert(placed(perm, k + 1, j));
        } else {
            if placed(perm, k + 1, j) {
                let q = choose|q: int| 0 <= q < k + 1 && #[trigger] perm[q] == j;
                assert(q != k);
                assert(placed(perm, k, j));
            }
            if placed(perm, k, j) {
                let q = choose|q: int| 0 <= q < k && #[trigger] perm[q] == j;
                assert(placed(perm, k + 1, j));
            }
        }
    }
}

proof fn lemma_slots_start(ordered: Seq<NmeaView>, perm: Seq<int>)
    ensures
        slots_after(ordered, perm, 0) =~= empty_slots(ordered.len()),
{
    assert forall|j: int| 0 <= j < ordered.len() implies !placed(perm, 0, j) by {}
}

proof fn lemma_slots_end(ordered: Seq<NmeaView>, perm: Seq<int>)
    requires
        is_permutation(perm, ordered.len()),
    ensures
        slots_after(ordered, perm, ordered.len() as int) =~= all_slots(ordered),
{
    let n = ordered.len();
    assert forall|j: int| 0 <= j < n implies placed(perm, n as int, j) by {}
}

/// Until the last fragment sent, one slot (that of the last one) is empty.
proof fn lemma_slots_incomplete(ordered: Seq<NmeaView>, perm: Seq<int>, k: int)
    requires
        is_permutation(perm, ordered.len()),
        0 <= k < ordered.len(),
    ensures
        !all_received(slots_after(ordered, perm, k)),
{
    let n = ordered.len() as int;
    let last = perm[n - 1];
    if placed(perm, k, last) {
        let q = choose|q: int| 0 <= q < k && #[trigger] perm[q] == last;
        assert(perm[q] != perm[n - 1]);
    }
    assert(slots_after(ordered, perm, k)[last] is None);
}

/// Adding fragment `k` to the pending entries holding the first `k`.
proof fn lemma_add_step(
    p: PendingView,
    ordered: Seq<NmeaView>,
    id: Seq<char>,
    perm: Seq<int>,
    k: int,
)
    requires
        keys_unique(p),
        key_index(p, id) is None,
        fragments_of(ordered, id),
        is_permutation(perm, ordered.len()),
        0 <= k < ordered.len(),
    ensures
        ({
            let before = if k == 0 {
                p
            } else {
                p.push((id, slots_after(ordered, perm, k)))
            };
            let (p2, r) = spec_add_fragment(before, ordered[perm[k]]);
            if k + 1 < ordered.len() {
                &&& r == Ok::<Option<Seq<u8>>, crate::decode::nmea::NmeaError>(None)
                &&& p2 == p.push((id, slots_after(ordered, perm, k + 1)))
            } else {
                r == opt_bytes(
                    spec_payload_to_binary(
                        joined_payload(all_slots(ordered)),
                        ordered[ordered.len() - 1].fill_bits,
                    ),
                )
            }
        }),
{
    let n = ordered.len() as int;
    let m = ordered[perm[k]];
    assert(m.fragment_count == n);
    assert(m.fragment_number == perm[k] + 1);
    lemma_slots_start(ordered, perm);
    lemma_entry_after_push(p, id, slots_after(ordered, perm, k));
    let p1 = p.push((id, slots_after(ordered, perm, k)));
    assert(p1[p.len() as int] == (id, slots_after(ordered, perm, k)));
    lemma_slots_step(ordered, perm, k);
    let s2 = slots_after(ordered, perm, k + 1);
    if k + 1 < n {
        lemma_slots_incomplete(ordered, perm, k + 1);
        assert(p1.update(p.len() as int, (id, s2)) =~= p.push((id, s2)));
    } else {
        lemma_slots_end(ordered, perm);
        assert(s2.last() == Some(ordered[n - 1]));
    }
}

proof fn lemma_assemble_suffix(
    p: PendingView,
    ordered: Seq<NmeaView>,
    id: Seq<char>,
    perm: Seq<int>,
    k: int,
)
    requires
        keys_unique(p),
        key_index(p, id) is None,
        fragments_of(ordered, id),
        is_permutation(perm, ordered.len()),
        0 <= k < ordered.len(),
    ensures
        spec_assemble(
            if k == 0 {
                p
            } else {
                p.push((id, slots_after(ordered, perm, k)))
            },
            in_order_of(ordered, perm).subrange(k, ordered.len() as int),
        ) == spec_payload_to_binary(
            joined_payload(all_slots(ordered)),
            ordered[ordered.len() - 1].fill_bits,
        ),
    decreases ordered.len() - k,
{
    let n = ordered.len() as int;
    let msgs = in_order_of(ordered, perm).subrange(k, n);
    assert(msgs[0] == ordered[perm[k]]);
    lemma_add_step(p, ordered, id, perm, k);
    if k + 1 < n {
        lemma_assemble_suffix(p, ordered, id, perm, k + 1);
        assert(msgs.drop_first() =~= in_order_of(ordered, perm).subrange(k + 1, n));
    }
}

/// Fragments of one message may arrive in any order: fed to an assembler
/// that holds no fragment of that message, they give nothing until the last
/// one arrives, which gives the binary message of their payloads joined in
/// fragment order, with the fill bits of the last fragment.
pub proof fn lemma_fragments_in_any_order(
    p: PendingView,
    ordered: Seq<NmeaView>,
    id: Seq<char>,
    perm: Seq<int>,
)
    requires
        keys_unique(p),
        key_index(p, id) is None,
        fragments_of(ordered, id),
        is_permutation(perm, ordered.len()),
    ensures
        spec_assemble(p, in_order_of(ordered, perm)) == spec_payload_to_binary(
            joined_payload(all_slots(ordered)),
            ordered[ordered.len() - 1].fill_bits,
        ),
{
    lemma_assemble_suffix(p, ordered, id, perm, 0);
    assert(in_order_of(ordered, perm).subrange(0, ordered.len() as int) =~= in_order_of(
        ordered,
        perm,
    ));
}

/// The fragments received so far of the message with id `id`, if any are
/// pending.
pub open spec fn entry_of(p: PendingView, id: Seq<char>) -> Option<Seq<Option<NmeaView>>> {
    match key_index(p, id) {
        Some(i) => Some(p[i].1),
        None => None,
    }
}

/// Feeding the sentences `ms` in order to an assembler with pending entries
/// `p`: the pending entries afterwards, and the result of each call.
pub open spec fn feed(p: PendingView, ms: Seq<NmeaView>) -> (
    PendingView,
    Seq<Result<Option<Seq<u8>>, NmeaError>>,
)
    decreases ms.len(),
{
    if ms.len() == 0 {
        (p, Seq::empty())
    } else {
        let (q, rs) = feed(p, ms.drop_last());
        let (q2, r) = spec_add_fragment(q, ms.last());
        (q2, rs.push(r))
    }
}

/// Whether sentence `m` is a fragment that the assembler files under `id`.
pub open spec fn concerns(m: NmeaView, id: Seq<char>) -> bool {
    !(m.fragment_count == 1 && m.fragment_number == 1) && m.message_id == Some(id)
}

/// Whether `i` is one of the positions `pos`.
pub open spec fn is_position(pos: Seq<int>, i: int) -> bool {
    exists|k: int| 0 <= k < pos.len() && #[trigger] pos[k] == i
}

/// `ms` carries the fragments `ordered[perm[0]], ordered[perm[1]], ...` at
/// the increasing positions `pos`, and none of its other sentences is a
/// fragment filed under `id`.
pub open spec fn interleaved(
    ms: Seq<NmeaView>,
    ordered: Seq<NmeaView>,
    id: Seq<char>,
    perm: Seq<int>,
    pos: Seq<int>,
) -> bool {
    &&& pos.len() == ordered.len()
    &&& forall|k: int|
        0 <= k < pos.len() ==> 0 <= #[trigger] pos[k] < ms.len() && ms[pos[k]] == ordered[perm[k]]
    &&& forall|k1: int, k2: int|
        #![trigger pos[k1], pos[k2]]
        0 <= k1 < k2 < pos.len() ==> pos[k1] < pos[k2]
    &&& forall|i: int| 0 <= i < ms.len() && !is_position(pos, i) ==> !concerns(#[trigger] ms[i], id)
}

/// The entry for a key that only index `i` holds is at `i`.
proof fn lemma_index_unique(p: PendingView, i: int, k: Seq<char>)
    requires
        keys_unique(p),
        0 <= i < p.len(),
        p[i].0 == k,
    ensures
        key_index(p, k) == Some(i),
{
    let j = choose|j: int| 0 <= j < p.len() && (#[trigger] p[j]).0 == k;
    assert(p[j].0 == k);
}

/// Where the entry for a key is.
proof fn lemma_index_found(p: PendingView, k: Seq<char>)
    ensures
        key_index(p, k) matches Some(i) ==> 0 <= i < p.len() && p[i].0 == k,
        key_index(p, k) is None ==> forall|i: int| 0 <= i < p.len() ==> (#[trigger] p[i]).0 != k,
{
}

/// Adding a sentence not filed under `id` keeps the keys unique and the
/// entry for `id` as it was.
proof fn lemma_other_step(p: PendingView, m: NmeaView, id: Seq<char>)
    requires
        keys_unique(p),
        !concerns(m, id),
    ensures
        keys_unique(spec_add_fragment(p, m).0),
        entry_of(spec_add_fragment(p, m).0, id) == entry_of(p, id),
{
    if !(m.fragment_count == 1 && m.fragment_number == 1) {
        if let Some(id2) = m.message_id {
            assert(id2 != id);
            lemma_index_found(p, id2);
            lemma_index_found(p, id);
            let (p1, j) = crate::decode::nmea::with_entry(p, id2, m.fragment_count);
            if key_index(p, id2) is None {
                assert(p1 == p.push((id2, empty_slots(m.fragment_count as nat))));
                assert forall|a: int, b: int|
                    0 <= a < p1.len() && 0 <= b < p1.len() && a != b implies (#[trigger] p1[a]).0
                    != (#[trigger] p1[b]).0 by {
                    if a < p.len() && b < p.len() {
                        assert(p1[a] == p[a] && p1[b] == p[b]);
                    }
                }
            }
            assert(keys_unique(p1));
            assert(0 <= j < p1.len() && p1[j].0 == id2);
            // the entry for `id` in `p1`
            if let Some(i) = key_index(p, id) {
                assert(p1[i] == p[i]);
                lemma_index_unique(p1, i, id);
            } else {
                assert forall|a: int| 0 <= a < p1.len() implies (#[trigger] p1[a]).0 != id by {
                    if a < p.len() {
                        assert(p1[a] == p[a]);
                    }
                }
                lemma_index_found(p1, id);
                assert(!(exists|a: int| 0 <= a < p1.len() && (#[trigger] p1[a]).0 == id));
            }
            let p2 = spec_add_fragment(p, m).0;
            assert(p2 == p1 || (exists|s2: Seq<Option<NmeaView>>| p2 == p1.update(j, (id2, s2)))
                || p2 == p1.remove(j));
            if p2 == p1 {
            } else if p2 == p1.remove(j) {
                assert forall|a: int, b: int|
                    0 <= a < p2.len() && 0 <= b < p2.len() && a != b implies (#[trigger] p2[a]).0
                    != (#[trigger] p2[b]).0 by {
                    let a1 = if a < j { a } else { a + 1 };
                    let b1 = if b < j { b } else { b + 1 };
                    assert(p2[a] == p1[a1] && p2[b] == p1[b1]);
                }
                if let Some(i) = key_index(p1, id) {
                    lemma_index_found(p1, id);
                    assert(i != j);
                    let i2 = if i < j { i } else { i - 1 };
                    assert(p2[i2] == p1[i]);
                    lemma_index_unique(p2, i2, id);
                } else {
                    lemma_index_found(p1, id);
                    assert forall|a: int| 0 <= a < p2.len() implies (#[trigger] p2[a]).0 != id by {
                        let a1 = if a < j { a } else { a + 1 };
                        assert(p2[a] == p1[a1]);
                    }
                    lemma_index_found(p2, id);
                    assert(!(exists|a: int| 0 <= a < p2.len() && (#[trigger] p2[a]).0 == id));
                }
            } else {
                let s2 = choose|s2: Seq<Option<NmeaView>>| p2 == p1.update(j, (id2, s2));
                assert(p2 == p1.update(j, (id2, s2)));
                assert forall|a: int, b: int|
                    0 <= a < p2.len() && 0 <= b < p2.len() && a != b implies (#[trigger] p2[a]).0
                    != (#[trigger] p2[b]).0 by {
                    assert(p2[a].0 == p1[a].0 && p2[b].0 == p1[b].0);
                }
                if let Some(i) = key_index(p1, id) {
                    lemma_index_found(p1, id);
                    assert(i != j);
                    assert(p2[i] == p1[i]);
                    lemma_index_unique(p2, i, id);
                } else {
                    lemma_index_found(p1, id);
                    assert forall|a: int| 0 <= a < p2.len() implies (#[trigger] p2[a]).0 != id by {
                        assert(p2[a].0 == p1[a].0);
                    }
                    lemma_index_found(p2, id);
                    assert(!(exists|a: int| 0 <= a < p2.len() && (#[trigger] p2[a]).0 == id));
                }
            }
        }
    }
}

/// Adding fragment `k` of the message with id `id`, when its first `k`
/// fragments are pending.
proof fn lemma_own_step(
    p: PendingView,
    ordered: Seq<NmeaView>,
    id: Seq<char>,
    perm: Seq<int>,
    k: int,
)
    requires
        keys_unique(p),
        fragments_of(ordered, id),
        is_permutation(perm, ordered.len()),
        0 <= k < ordered.len(),
        entry_of(p, id) == (if k == 0 {
            None
        } else {
            Some(slots_after(ordered, perm, k))
        }),
    ensures
        keys_unique(spec_add_fragment(p, ordered[perm[k]]).0),
        k + 1 < ordered.len() ==> {
            &&& spec_add_fragment(p, ordered[perm[k]]).1 == Ok::<
                Option<Seq<u8>>,
                NmeaError,
            >(None)
            &&& entry_of(spec_add_fragment(p, ordered[perm[k]]).0, id) == Some(
                slots_after(ordered, perm, k + 1),
            )
        },
        k + 1 == ordered.len() ==> {
            &&& spec_add_fragment(p, ordered[perm[k]]).1 == opt_bytes(
                spec_payload_to_binary(
                    joined_payload(all_slots(ordered)),
                    ordered[ordered.len() - 1].fill_bits,
                ),
            )
            &&& entry_of(spec_add_fragment(p, ordered[perm[k]]).0, id) is None
        },
{
    let n = ordered.len() as int;
    let m = ordered[perm[k]];
    assert(m.fragment_count == n);
    assert(m.fragment_number == perm[k] + 1);
    assert(m.message_id == Some(id));
    lemma_slots_start(ordered, perm);
    lemma_index_found(p, id);
    let (p1, i) = crate::decode::nmea::with_entry(p, id, m.fragment_count);
    if k == 0 {
        lemma_entry_after_push(p, id, empty_slots(n as nat));
        assert forall|a: int, b: int|
            0 <= a < p1.len() && 0 <= b < p1.len() && a != b implies (#[trigger] p1[a]).0
            != (#[trigger] p1[b]).0 by {
            if a < p.len() && b < p.len() {
                assert(p1[a] == p[a] && p1[b] == p[b]);
            }
        }
    }
    assert(keys_unique(p1));
    assert(0 <= i < p1.len() && p1[i].0 == id);
    assert(p1[i].1 == slots_after(ordered, perm, k));
    lemma_slots_step(ordered, perm, k);
    let s2 = slots_after(ordered, perm, k + 1);
    let p2 = spec_add_fragment(p, m).0;
    if k + 1 < n {
        lemma_slots_incomplete(ordered, perm, k + 1);
        assert(p2 == p1.update(i, (id, s2)));
        assert forall|a: int, b: int|
            0 <= a < p2.len() && 0 <= b < p2.len() && a != b implies (#[trigger] p2[a]).0
            != (#[trigger] p2[b]).0 by {
            assert(p2[a].0 == p1[a].0 && p2[b].0 == p1[b].0);
        }
        lemma_index_unique(p2, i, id);
    } else {
        lemma_slots_end(ordered, perm);
        assert(s2.last() == Some(ordered[n - 1]));
        assert(p2 == p1.remove(i));
        assert forall|a: int, b: int|
            0 <= a < p2.len() && 0 <= b < p2.len() && a != b implies (#[trigger] p2[a]).0
            != (#[trigger] p2[b]).0 by {
            let a1 = if a < i { a } else { a + 1 };
            let b1 = if b < i { b } else { b + 1 };
            assert(p2[a] == p1[a1] && p2[b] == p1[b1]);
        }
        assert forall|a: int| 0 <= a < p2.len() implies (#[trigger] p2[a]).0 != id by {
            let a1 = if a < i { a } else { a + 1 };
            assert(p2[a] == p1[a1]);
            assert(a1 != i);
        }
        lemma_index_found(p2, id);
        assert(!(exists|a: int| 0 <= a < p2.len() && (#[trigger] p2[a]).0 == id));
    }
}

/// What feeding the first `t` sentences of `ms` gives, when the first `k`
/// fragments of the message are among them and the others are not.
proof fn lemma_feed_prefix(
    p: PendingView,
    ms: Seq<NmeaView>,
    ordered: Seq<NmeaView>,
    id: Seq<char>,
    perm: Seq<int>,
    pos: Seq<int>,
    t: int,
    k: int,
)
    requires
        keys_unique(p),
        entry_of(p, id) is None,
        fragments_of(ordered, id),
        is_permutation(perm, ordered.len()),
        interleaved(ms, ordered, id, perm, pos),
        0 <= t <= ms.len(),
        0 <= k <= ordered.len(),
        k == 0 || pos[k - 1] < t,
        k == ordered.len() || t <= pos[k],
    ensures
        keys_unique(feed(p, ms.take(t)).0),
        feed(p, ms.take(t)).1.len() == t,
        entry_of(feed(p, ms.take(t)).0, id) == (if k == 0 || k == ordered.len() {
            None
        } else {
            Some(slots_after(ordered, perm, k))
        }),
        forall|j: int|
            0 <= j < k ==> #[trigger] feed(p, ms.take(t)).1[pos[j]] == if j + 1 < ordered.len() {
                Ok::<Option<Seq<u8>>, NmeaError>(None)
            } else {
                opt_bytes(
                    spec_payload_to_binary(
                        joined_payload(all_slots(ordered)),
                        ordered[ordered.len() - 1].fill_bits,
                    ),
                )
            },
    decreases t,
{
    let n = ordered.len() as int;
    if t == 0 {
        if k > 0 {
            assert(0 <= pos[k - 1]);
        }
        assert(ms.take(0) =~= Seq::<NmeaView>::empty());
    } else {
        assert(ms.take(t).drop_last() =~= ms.take(t - 1));
        assert(ms.take(t).last() == ms[t - 1]);
        let own = k > 0 && pos[k - 1] == t - 1;
        let k0 = if own {
            k - 1
        } else {
            k
        };
        if own && k0 > 0 {
            assert(pos[k0 - 1] < pos[k0]);
        }
        lemma_feed_prefix(p, ms, ordered, id, perm, pos, t - 1, k0);
        let (q, rs) = feed(p, ms.take(t - 1));
        if own {
            lemma_own_step(q, ordered, id, perm, k0);
        } else {
            assert(!is_position(pos, t - 1)) by {
                if is_position(pos, t - 1) {
                    let q2 = choose|q2: int| 0 <= q2 < pos.len() && #[trigger] pos[q2] == t - 1;
                    if q2 < k {
                        if q2 < k - 1 {
                            assert(pos[q2] < pos[k - 1]);
                        }
                    } else {
                        if q2 > k {
                            assert(pos[k] < pos[q2]);
                        }
                    }
                }
            }
            lemma_other_step(q, ms[t - 1], id);
        }
        let rs2 = feed(p, ms.take(t)).1;
        assert(rs2 == rs.push(spec_add_fragment(q, ms[t - 1]).1));
        assert forall|j: int| 0 <= j < k implies #[trigger] rs2[pos[j]] == if j + 1 < n {
            Ok::<Option<Seq<u8>>, NmeaError>(None)
        } else {
            opt_bytes(
                spec_payload_to_binary(
                    joined_payload(all_slots(ordered)),
                    ordered[ordered.len() - 1].fill_bits,
                ),
            )
        } by {
            if j < k0 {
                if j < k0 - 1 || k0 == k {
                    assert(pos[j] < t - 1) by {
                        if j < k - 1 {
                            assert(pos[j] < pos[k - 1]);
                        }
                    }
                } else {
                    assert(pos[j] < pos[k0]);
                }
                assert(rs2[pos[j]] == rs[pos[j]]);
            } else {
                assert(own && j == k0 && pos[j] == t - 1);
            }
        }
    }
}

/// Fragments of a message may arrive in any order, with sentences of other
/// messages between them: fed to an assembler that holds no fragment of
/// that message, each of its fragments but the last gives `Ok(None)`, the
/// last gives the binary message of their payloads joined in fragment order
/// with the fill bits of the last fragment (whatever the order of arrival),
/// and afterwards nothing is pending for its id.
pub proof fn lemma_interleaved_fragments(
    p: PendingView,
    ms: Seq<NmeaView>,
    ordered: Seq<NmeaView>,
    id: Seq<char>,
    perm: Seq<int>,
    pos: Seq<int>,
)
    requires
        keys_unique(p),
        entry_of(p, id) is None,
        fragments_of(ordered, id),
        is_permutation(perm, ordered.len()),
        interleaved(ms, ordered, id, perm, pos),
    ensures
        keys_unique(feed(p, ms).0),
        entry_of(feed(p, ms).0, id) is None,
        forall|k: int|
            0 <= k < ordered.len() - 1 ==> #[trigger] feed(p, ms).1[pos[k]] == Ok::<
                Option<Seq<u8>>,
                NmeaError,
            >(None),
        feed(p, ms).1[pos[ordered.len() - 1]] == opt_bytes(
            spec_payload_to_binary(
                joined_payload(all_slots(ordered)),
                ordered[ordered.len() - 1].fill_bits,
            ),
        ),
{
    let n = ordered.len() as int;
    assert(0 <= pos[n - 1] < ms.len());
    lemma_feed_prefix(p, ms, ordered, id, perm, pos, ms.len() as int, n);
    assert(ms.take(ms.len() as int) =~= ms);
    let rs = feed(p, ms).1;
    assert(rs[pos[n - 1]] == opt_bytes(
        spec_payload_to_binary(joined_payload(all_slots(ordered)), ordered[n - 1].fill_bits),
    ));
}

/// A single-sentence message never waits: adding it gives its payload's
/// binary message (or the payload's error) and leaves the pending fragments
/// of other messages as they were.
pub proof fn lemma_single_sentence(p: PendingView, m: NmeaView)
    requires
        m.fragment_count == 1,
        m.fragment_number == 1,
    ensures
        spec_add_fragment(p, m).0 == p,
        spec_add_fragment(p, m).1 == opt_bytes(spec_payload_to_binary(m.payload, m.fill_bits)),
{
}

} // verus!
