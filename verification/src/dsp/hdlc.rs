//! Frames as a transmitter sends them: training sequence, flag, the message
//! and its frame check sequence with bit stuffing, closing flag, all NRZI
//! coded; and the law that the frame decoder gives back their message.

use vstd::prelude::*;
use vstd::arithmetic::power2::{lemma2_to64, pow2};
use crate::dsp::ais::{
    DecoderView, State, step_spec, frame_message, drop_flag, pack_lsb, lsb_value, crc16_spec,
    plausible, EXPECTED_CRC, MAX_AIS_LENGTH, MIN_TRAINING_BITS,
};
use crate::dsp::frame_check::{fcs_of, lemma_fcs_residue};

verus! {

/// The bits of `bytes`, eight per byte, least significant bit first.
pub open spec fn lsb_bits(bytes: Seq<u8>) -> Seq<u8> {
    Seq::new(8 * bytes.len(), |i: int| (bytes[i / 8] >> ((i % 8) as u8)) & 1u8)
}

/// Bit stuffing of `u`, when `c` ones precede it: a zero is sent after
/// every five consecutive ones.
pub open spec fn stuff(u: Seq<u8>, c: nat) -> Seq<u8>
    decreases u.len(),
{
    if u.len() == 0 {
        Seq::empty()
    } else if u[0] == 1 {
        if c == 4 {
            seq![1u8, 0u8] + stuff(u.drop_first(), 0)
        } else {
            seq![1u8] + stuff(u.drop_first(), c + 1)
        }
    } else {
        seq![0u8] + stuff(u.drop_first(), 0)
    }
}

/// The number of consecutive ones at the end of the stuffed bits.
pub open spec fn stuff_count(u: Seq<u8>, c: nat) -> nat
    decreases u.len(),
{
    if u.len() == 0 {
        c
    } else if u[0] == 1 {
        if c == 4 {
            stuff_count(u.drop_first(), 0)
        } else {
            stuff_count(u.drop_first(), c + 1)
        }
    } else {
        stuff_count(u.drop_first(), 0)
    }
}

/// The HDLC flag that opens and closes a frame.
pub open spec fn hdlc_flag() -> Seq<u8> {
    seq![0u8, 1u8, 1u8, 1u8, 1u8, 1u8, 1u8, 0u8]
}

/// A training sequence: at least 20 alternating bits.
pub open spec fn is_training(p: Seq<u8>) -> bool {
    &&& p.len() >= 20
    &&& forall|i: int| 0 <= i < p.len() ==> #[trigger] p[i] <= 1
    &&& forall|i: int| 1 <= i < p.len() ==> #[trigger] p[i] != p[i - 1]
}

/// The bits of a frame carrying `data` after the training sequence `p`.
pub open spec fn frame_bits(p: Seq<u8>, data: Seq<u8>) -> Seq<u8> {
    p + hdlc_flag() + stuff(lsb_bits(data + fcs_of(data)), 0) + hdlc_flag()
}

/// NRZI coding of `bits` after the symbol `d0`: a one repeats the previous
/// symbol, a zero changes it.
pub open spec fn nrzi(bits: Seq<u8>, d0: u8) -> Seq<u8>
    decreases bits.len(),
{
    if bits.len() == 0 {
        Seq::empty()
    } else {
        let prev = nrzi(bits.drop_last(), d0);
        let d = if prev.len() == 0 {
            d0
        } else {
            prev.last()
        };
        prev.push(
            if bits.last() == 1 {
                d
            } else {
                (1 - d) as u8
            },
        )
    }
}

/// The frame decoder after the symbol decisions `ds`, and the messages it
/// gave, in order.
pub open spec fn run(v: DecoderView, ds: Seq<u8>) -> (DecoderView, Seq<Seq<u8>>)
    decreases ds.len(),
{
    if ds.len() == 0 {
        (v, Seq::empty())
    } else {
        let (w, outs) = run(v, ds.drop_last());
        let (z, out) = step_spec(w, ds.last());
        (
            z,
            match out {
                Some(m) => outs.push(m),
                None => outs,
            },
        )
    }
}

/// The symbol that the decoder reads as the bit `b`.
spec fn symbol_for(v: DecoderView, b: u8) -> u8 {
    if b == 1 {
        v.prev_d
    } else {
        (1 - v.prev_d) as u8
    }
}

/// The decoder fed the bits `bits`, each coded against its previous symbol.
spec fn run_bits(v: DecoderView, bits: Seq<u8>) -> (DecoderView, Seq<Seq<u8>>)
    decreases bits.len(),
{
    if bits.len() == 0 {
        (v, Seq::empty())
    } else {
        let (w, outs) = run_bits(v, bits.drop_last());
        let (z, out) = step_spec(w, symbol_for(w, bits.last()));
        (
            z,
            match out {
                Some(m) => outs.push(m),
                None => outs,
            },
        )
    }
}

proof fn lemma_nrzi_run(v: DecoderView, bits: Seq<u8>)
    requires
        v.prev_d <= 1,
    ensures
        run(v, nrzi(bits, v.prev_d)) == run_bits(v, bits),
        nrzi(bits, v.prev_d).len() == bits.len(),
        run_bits(v, bits).0.prev_d <= 1,
        bits.len() > 0 ==> run_bits(v, bits).0.prev_d == nrzi(bits, v.prev_d).last(),
    decreases bits.len(),
{
    if bits.len() > 0 {
        lemma_nrzi_run(v, bits.drop_last());
        let ds = nrzi(bits, v.prev_d);
        assert(ds.drop_last() =~= nrzi(bits.drop_last(), v.prev_d));
    }
}

proof fn lemma_run_append(v: DecoderView, a: Seq<u8>, b: Seq<u8>)
    ensures
        run_bits(v, a + b) == (
            run_bits(run_bits(v, a).0, b).0,
            run_bits(v, a).1 + run_bits(run_bits(v, a).0, b).1,
        ),
    decreases b.len(),
{
    if b.len() == 0 {
        assert(a + b =~= a);
        assert(run_bits(v, a).1 + Seq::<Seq<u8>>::empty() =~= run_bits(v, a).1);
    } else {
        lemma_run_append(v, a, b.drop_last());
        assert((a + b).drop_last() =~= a + b.drop_last());
        let w = run_bits(v, a).0;
        let oa = run_bits(v, a).1;
        let ob = run_bits(w, b.drop_last()).1;
        let z = run_bits(w, b.drop_last()).0;
        let out = step_spec(z, symbol_for(z, b.last())).1;
        if let Some(m) = out {
            assert((oa + ob).push(m) =~= oa + ob.push(m));
        }
    }
}

/// One bit: the decoder steps on the symbol it reads as that bit.
proof fn lemma_run_one(v: DecoderView, b: u8)
    ensures
        run_bits(v, seq![b]) == (
            step_spec(v, symbol_for(v, b)).0,
            match step_spec(v, symbol_for(v, b)).1 {
                Some(m) => seq![m],
                None => Seq::<Seq<u8>>::empty(),
            },
        ),
{
    assert(seq![b].drop_last() =~= Seq::<u8>::empty());
    assert(run_bits(v, Seq::<u8>::empty()) == (v, Seq::<Seq<u8>>::empty()));
    if let Some(m) = step_spec(v, symbol_for(v, b)).1 {
        assert(Seq::<Seq<u8>>::empty().push(m) =~= seq![m]);
    }
}

/// Appending one bit.
proof fn lemma_run_push(v: DecoderView, a: Seq<u8>, b: u8)
    ensures
        run_bits(v, a.push(b)) == (
            step_spec(run_bits(v, a).0, symbol_for(run_bits(v, a).0, b)).0,
            match step_spec(run_bits(v, a).0, symbol_for(run_bits(v, a).0, b)).1 {
                Some(m) => run_bits(v, a).1.push(m),
                None => run_bits(v, a).1,
            },
        ),
{
    assert(a.push(b).drop_last() =~= a);
}

proof fn lemma_training(v: DecoderView, p: Seq<u8>, k: int)
    requires
        v.state == State::Training,
        0 <= v.position <= MIN_TRAINING_BITS,
        v.prev_d <= 1,
        forall|i: int| 0 <= i < p.len() ==> #[trigger] p[i] <= 1,
        forall|i: int| 1 <= i < p.len() ==> #[trigger] p[i] != p[i - 1],
        1 <= k <= p.len(),
    ensures
        run_bits(v, p.take(k)).0.state == State::Training,
        run_bits(v, p.take(k)).0.position >= k - 1,
        run_bits(v, p.take(k)).0.last_bit == p[k - 1],
        run_bits(v, p.take(k)).0.prev_d <= 1,
        run_bits(v, p.take(k)).1.len() == 0,
    decreases k,
{
    if k > 1 {
        lemma_training(v, p, k - 1);
        assert(p.take(k) =~= p.take(k - 1).push(p[k - 1]));
        lemma_run_push(v, p.take(k - 1), p[k - 1]);
        assert(p[k - 1] != p[k - 2]);
    } else {
        assert(p.take(1) =~= seq![p[0]]);
        lemma_run_one(v, p[0]);
    }
}

/// The opening flag, after a training sequence, starts collection.
proof fn lemma_open_flag(w: DecoderView)
    requires
        w.state == State::Training,
        w.position > MIN_TRAINING_BITS,
        w.last_bit <= 1,
        w.prev_d <= 1,
    ensures
        run_bits(w, hdlc_flag()).0.state == State::DataFcs,
        run_bits(w, hdlc_flag()).0.msg_bits == Seq::<u8>::empty(),
        run_bits(w, hdlc_flag()).0.one_seq_count == 0,
        run_bits(w, hdlc_flag()).0.prev_d <= 1,
        run_bits(w, hdlc_flag()).1.len() == 0,
{
    let s1 = seq![0u8];
    let s2 = s1.push(1u8);
    let s3 = s2.push(1u8);
    let s4 = s3.push(1u8);
    let s5 = s4.push(1u8);
    let s6 = s5.push(1u8);
    let s7 = s6.push(1u8);
    let s8 = s7.push(0u8);
    assert(s8 =~= hdlc_flag());
    lemma_run_one(w, 0u8);
    let w1 = run_bits(w, s1).0;
    assert(w1.state == State::Training || w1.state == State::StartFlag);
    assert(w1.state == State::Training ==> w1.position > MIN_TRAINING_BITS && w1.last_bit == 0);
    assert(w1.state == State::StartFlag ==> w1.position == 1);
    lemma_run_push(w, s1, 1u8);
    let w2 = run_bits(w, s2).0;
    assert(w2.state == State::StartFlag && w2.position == 2 || w2.state == State::Training
        && w2.position > MIN_TRAINING_BITS && w2.last_bit == 1);
    lemma_run_push(w, s2, 1u8);
    let w3 = run_bits(w, s3).0;
    assert(w3.state == State::StartFlag && w3.position == 3);
    lemma_run_push(w, s3, 1u8);
    lemma_run_push(w, s4, 1u8);
    lemma_run_push(w, s5, 1u8);
    lemma_run_push(w, s6, 1u8);
    let w7 = run_bits(w, s7).0;
    assert(w7.state == State::StartFlag && w7.position == 7);
    lemma_run_push(w, s7, 0u8);
}

/// Stuffed bits are collected unstuffed.
proof fn lemma_stuffed(w: DecoderView, u: Seq<u8>, c: nat)
    requires
        w.state == State::DataFcs,
        w.one_seq_count == c,
        c <= 4,
        w.prev_d <= 1,
        forall|i: int| 0 <= i < u.len() ==> #[trigger] u[i] <= 1,
        w.msg_bits.len() + u.len() < MAX_AIS_LENGTH,
    ensures
        run_bits(w, stuff(u, c)).0.state == State::DataFcs,
        run_bits(w, stuff(u, c)).0.msg_bits == w.msg_bits + u,
        run_bits(w, stuff(u, c)).0.one_seq_count == stuff_count(u, c),
        stuff_count(u, c) <= 4,
        run_bits(w, stuff(u, c)).0.prev_d <= 1,
        run_bits(w, stuff(u, c)).1.len() == 0,
    decreases u.len(),
{
    if u.len() == 0 {
        assert(w.msg_bits + u =~= w.msg_bits);
    } else {
        let rest = u.drop_first();
        assert forall|i: int| 0 <= i < rest.len() implies #[trigger] rest[i] <= 1 by {
            assert(rest[i] == u[i + 1]);
        }
        if u[0] == 1 {
            if c == 4 {
                let h = seq![1u8, 0u8];
                assert(h =~= seq![1u8].push(0u8));
                lemma_run_one(w, 1u8);
                lemma_run_push(w, seq![1u8], 0u8);
                let w1 = run_bits(w, h).0;
                assert(w1.msg_bits =~= w.msg_bits.push(1u8));
                lemma_stuffed(w1, rest, 0);
                lemma_run_append(w, h, stuff(rest, 0));
                assert(w.msg_bits.push(1u8) + rest =~= w.msg_bits + u);
            } else {
                let h = seq![1u8];
                lemma_run_one(w, 1u8);
                let w1 = run_bits(w, h).0;
                assert(w1.msg_bits =~= w.msg_bits.push(1u8));
                lemma_stuffed(w1, rest, c + 1);
                lemma_run_append(w, h, stuff(rest, c + 1));
                assert(w.msg_bits.push(1u8) + rest =~= w.msg_bits + u);
            }
        } else {
            let h = seq![0u8];
            lemma_run_one(w, 0u8);
            let w1 = run_bits(w, h).0;
            assert(w1.msg_bits =~= w.msg_bits.push(0u8));
            lemma_stuffed(w1, rest, 0);
            lemma_run_append(w, h, stuff(rest, 0));
            assert(w.msg_bits.push(0u8) + rest =~= w.msg_bits + u);
        }
    }
}

/// The closing flag ends the frame.
proof fn lemma_close_flag(z: DecoderView)
    requires
        z.state == State::DataFcs,
        z.one_seq_count <= 4,
        z.prev_d <= 1,
        z.msg_bits.len() + 6 < MAX_AIS_LENGTH,
    ensures
        run_bits(z, hdlc_flag()).1 == match frame_message(
            z.msg_bits + seq![0u8, 1u8, 1u8, 1u8, 1u8, 1u8, 1u8],
        ) {
            Some(m) => seq![m],
            None => Seq::<Seq<u8>>::empty(),
        },
{
    let s1 = seq![0u8];
    let s2 = s1.push(1u8);
    let s3 = s2.push(1u8);
    let s4 = s3.push(1u8);
    let s5 = s4.push(1u8);
    let s6 = s5.push(1u8);
    let s7 = s6.push(1u8);
    let s8 = s7.push(0u8);
    assert(s8 =~= hdlc_flag());
    let m = z.msg_bits;
    lemma_run_one(z, 0u8);
    let z1 = run_bits(z, s1).0;
    assert(z1.state == State::DataFcs && z1.one_seq_count == 0 && z1.msg_bits =~= m.push(0u8));
    lemma_run_push(z, s1, 1u8);
    lemma_run_push(z, s2, 1u8);
    lemma_run_push(z, s3, 1u8);
    lemma_run_push(z, s4, 1u8);
    lemma_run_push(z, s5, 1u8);
    let z6 = run_bits(z, s6).0;
    assert(z6.state == State::DataFcs && z6.one_seq_count == 5 && z6.msg_bits =~= m + seq![
        0u8,
        1u8,
        1u8,
        1u8,
        1u8,
        1u8,
    ]);
    lemma_run_push(z, s6, 1u8);
    assert(z6.msg_bits.push(1u8) =~= m + seq![0u8, 1u8, 1u8, 1u8, 1u8, 1u8, 1u8]);
    let z7 = run_bits(z, s7).0;
    assert(z7.state == State::Training);
    lemma_run_push(z, s7, 0u8);
    if let Some(msg) = frame_message(m + seq![0u8, 1u8, 1u8, 1u8, 1u8, 1u8, 1u8]) {
        assert(Seq::<Seq<u8>>::empty().push(msg) =~= seq![msg]);
    }
}

proof fn lemma_byte_of_bits(x: Seq<u8>, j: int)
    requires
        0 <= j < x.len(),
    ensures
        lsb_value(lsb_bits(x), j, 8) == x[j],
{
    let bits = lsb_bits(x);
    let b = x[j];
    lemma2_to64();
    assert(bits[8 * j + 0] == (b >> 0u8) & 1u8);
    assert(bits[8 * j + 1] == (b >> 1u8) & 1u8);
    assert(bits[8 * j + 2] == (b >> 2u8) & 1u8);
    assert(bits[8 * j + 3] == (b >> 3u8) & 1u8);
    assert(bits[8 * j + 4] == (b >> 4u8) & 1u8);
    assert(bits[8 * j + 5] == (b >> 5u8) & 1u8);
    assert(bits[8 * j + 6] == (b >> 6u8) & 1u8);
    assert(bits[8 * j + 7] == (b >> 7u8) & 1u8);
    let t0: int = if (b >> 0u8) & 1u8 != 0 { 1 } else { 0 };
    let t1: int = if (b >> 1u8) & 1u8 != 0 { 2 } else { 0 };
    let t2: int = if (b >> 2u8) & 1u8 != 0 { 4 } else { 0 };
    let t3: int = if (b >> 3u8) & 1u8 != 0 { 8 } else { 0 };
    let t4: int = if (b >> 4u8) & 1u8 != 0 { 16 } else { 0 };
    let t5: int = if (b >> 5u8) & 1u8 != 0 { 32 } else { 0 };
    let t6: int = if (b >> 6u8) & 1u8 != 0 { 64 } else { 0 };
    let t7: int = if (b >> 7u8) & 1u8 != 0 { 128 } else { 0 };
    assert(lsb_value(bits, j, 0) == 0);
    assert(lsb_value(bits, j, 1) == t0);
    assert(lsb_value(bits, j, 2) == t0 + t1);
    assert(lsb_value(bits, j, 3) == t0 + t1 + t2);
    assert(lsb_value(bits, j, 4) == t0 + t1 + t2 + t3);
    assert(lsb_value(bits, j, 5) == t0 + t1 + t2 + t3 + t4);
    assert(lsb_value(bits, j, 6) == t0 + t1 + t2 + t3 + t4 + t5);
    assert(lsb_value(bits, j, 7) == t0 + t1 + t2 + t3 + t4 + t5 + t6);
    assert(lsb_value(bits, j, 8) == t0 + t1 + t2 + t3 + t4 + t5 + t6 + t7);
    assert(b == (if (b >> 0u8) & 1u8 != 0 { 1u8 } else { 0u8 }) + (if (b >> 1u8) & 1u8 != 0 {
        2u8
    } else {
        0u8
    }) + (if (b >> 2u8) & 1u8 != 0 {
        4u8
    } else {
        0u8
    }) + (if (b >> 3u8) & 1u8 != 0 {
        8u8
    } else {
        0u8
    }) + (if (b >> 4u8) & 1u8 != 0 {
        16u8
    } else {
        0u8
    }) + (if (b >> 5u8) & 1u8 != 0 {
        32u8
    } else {
        0u8
    }) + (if (b >> 6u8) & 1u8 != 0 {
        64u8
    } else {
        0u8
    }) + (if (b >> 7u8) & 1u8 != 0 {
        128u8
    } else {
        0u8
    })) by (bit_vector);
}

/// Packing the bits of bytes gives the bytes back.
proof fn lemma_pack_lsb_bits(x: Seq<u8>)
    ensures
        pack_lsb(lsb_bits(x)) =~= x,
{
    assert((8 * x.len() + 7) / 8 == x.len());
    assert forall|j: int| 0 <= j < x.len() implies #[trigger] pack_lsb(lsb_bits(x))[j] == x[j] by {
        lemma_byte_of_bits(x, j);
    }
}

/// The closed frame of a plausible message and its frame check sequence
/// gives the message.
proof fn lemma_frame_message_of(data: Seq<u8>)
    requires
        data.len() >= 1,
        plausible(data),
    ensures
        frame_message(lsb_bits(data + fcs_of(data)) + seq![0u8, 1u8, 1u8, 1u8, 1u8, 1u8, 1u8])
            == Some(data),
{
    let x = data + fcs_of(data);
    let u = lsb_bits(x);
    let bits = u + seq![0u8, 1u8, 1u8, 1u8, 1u8, 1u8, 1u8];
    assert(drop_flag(bits) =~= u);
    lemma_pack_lsb_bits(x);
    lemma_fcs_residue(data);
    assert(x.take(x.len() - 2) =~= data);
}

/// A frame as a transmitter sends it (a training sequence of at least 20
/// alternating bits, a flag, the message and its frame check sequence,
/// least significant bit first and bit-stuffed, and a closing flag, all
/// NRZI coded from the decoder's previous symbol) gives a decoder that is
/// searching for a preamble exactly that message, once: for every plausible
/// message of 1 to 125 bytes (longer frames are abandoned as runaway).
pub proof fn lemma_decoder_recovers_frame(v: DecoderView, p: Seq<u8>, data: Seq<u8>)
    requires
        v.state == State::Training,
        0 <= v.position <= MIN_TRAINING_BITS,
        v.prev_d <= 1,
        is_training(p),
        1 <= data.len() <= 125,
        plausible(data),
    ensures
        run(v, nrzi(frame_bits(p, data), v.prev_d)).1 == seq![data],
{
    let x = data + fcs_of(data);
    let u = lsb_bits(x);
    let st = stuff(u, 0);
    lemma_nrzi_run(v, frame_bits(p, data));
    lemma_training(v, p, p.len() as int);
    assert(p.take(p.len() as int) =~= p);
    let w = run_bits(v, p).0;
    lemma_open_flag(w);
    lemma_run_append(v, p, hdlc_flag());
    let w1 = run_bits(v, p + hdlc_flag()).0;
    assert forall|i: int| 0 <= i < u.len() implies #[trigger] u[i] <= 1 by {
        let b = x[i / 8];
        let s = (i % 8) as u8;
        assert((b >> s) & 1u8 <= 1) by (bit_vector);
    }
    lemma_stuffed(w1, u, 0);
    assert(w1.msg_bits + u =~= u);
    lemma_run_append(v, p + hdlc_flag(), st);
    let w2 = run_bits(v, p + hdlc_flag() + st).0;
    lemma_close_flag(w2);
    lemma_run_append(v, p + hdlc_flag() + st, hdlc_flag());
    lemma_frame_message_of(data);
    assert(Seq::<Seq<u8>>::empty() + Seq::<Seq<u8>>::empty() =~= Seq::<Seq<u8>>::empty());
    assert(Seq::<Seq<u8>>::empty() + seq![data] =~= seq![data]);
}

} // verus!
