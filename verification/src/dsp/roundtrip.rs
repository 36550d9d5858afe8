//! Encoding a received message as NMEA sentences and parsing the sentences
//! again gives the message back.

use vstd::prelude::*;
use crate::decode::mmsi::{dec_chars, digit_char};
use crate::decode::ais::{Message, MessageError, nmea_binary, nmea_safe, parse_all};
use crate::decode::nmea::{
    NmeaError, NmeaView, PendingView, all_received, assemble_safe, is_ais_sentence_type,
    joined_payload, key_index, spec_assemble, spec_parse, spec_parse_fields, strip_bang, with_entry,
};
use crate::dsp::ais::{
    armor, armor_char, armor_count, armor_fill, fragment_count, framed, hex2, hex_digit,
    lemma_armor_roundtrip, nmea_sentences, sentence_body,
};
use crate::text::{
    all_digits, digit_value, digits_value, is_ws, parse_uint, split, trim, trim_end, trim_start,
    xor_utf8,
};

verus! {

/// Text without the separator is one field.
proof fn lemma_split_single(a: Seq<char>, sep: char)
    requires
        forall|i: int| 0 <= i < a.len() ==> a[i] != sep,
    ensures
        split(a, sep) == seq![a],
    decreases a.len(),
{
    if a.len() > 0 {
        lemma_split_single(a.drop_last(), sep);
        assert(a.drop_last().push(a.last()) =~= a);
    } else {
        assert(a =~= Seq::<char>::empty());
    }
}

/// Splitting text joined by the separator splits each side.
proof fn lemma_split_join(a: Seq<char>, b: Seq<char>, sep: char)
    ensures
        split(a + seq![sep] + b, sep) == split(a, sep) + split(b, sep),
    decreases b.len(),
{
    if b.len() == 0 {
        assert(a + seq![sep] + b =~= a.push(sep));
        assert((a.push(sep)).drop_last() =~= a);
        assert(split(b, sep) =~= seq![Seq::<char>::empty()]);
        assert(split(a, sep).push(Seq::<char>::empty()) =~= split(a, sep) + split(b, sep));
    } else {
        let b0 = b.drop_last();
        lemma_split_join(a, b0, sep);
        assert((a + seq![sep] + b).drop_last() =~= a + seq![sep] + b0);
        crate::text::lemma_split_nonempty(b0, sep);
        crate::text::lemma_split_nonempty(a, sep);
        let l = split(a, sep);
        let r = split(b0, sep);
        if b.last() == sep {
            assert((l + r).push(Seq::<char>::empty()) =~= l + r.push(Seq::<char>::empty()));
        } else {
            assert((l + r).update((l + r).len() - 1, (l + r).last().push(b.last())) =~= l + r.update(
                r.len() - 1,
                r.last().push(b.last()),
            ));
        }
    }
}

/// Decimal digits are digits.
proof fn lemma_dec_chars(n: nat)
    ensures
        dec_chars(n).len() >= 1,
        forall|i: int| 0 <= i < dec_chars(n).len() ==> '0' <= #[trigger] dec_chars(n)[i] <= '9',
        all_digits(dec_chars(n), 10),
        digits_value(dec_chars(n), 10) == n,
    decreases n,
{
    let d = dec_chars(n);
    assert(digit_value(digit_char(n % 10), 10) == Some(n % 10));
    if n >= 10 {
        lemma_dec_chars(n / 10);
        assert(d.drop_last() =~= dec_chars(n / 10));
        assert forall|i: int| 0 <= i < d.len() implies #[trigger] digit_value(d[i], 10) is Some by {
            if i < d.len() - 1 {
                assert(d[i] == dec_chars(n / 10)[i]);
            }
        }
        assert(digits_value(d, 10) == digits_value(dec_chars(n / 10), 10) * 10 + n % 10);
    } else {
        assert(d.drop_last() =~= Seq::<char>::empty());
        assert(digits_value(d, 10) == digits_value(Seq::<char>::empty(), 10) * 10 + n % 10);
    }
}

/// Reading decimal digits back gives the number.
proof fn lemma_parse_dec(n: nat, max: nat)
    requires
        n <= max,
    ensures
        parse_uint(dec_chars(n), 10, max) == Some(n),
{
    lemma_dec_chars(n);
}

/// Reading two hexadecimal digits back gives the byte.
proof fn lemma_parse_hex2(x: u8)
    ensures
        parse_uint(hex2(x), 16, 255) == Some(x as nat),
        hex2(x)[0] != '*' && hex2(x)[1] != '*',
        !is_ws(hex2(x)[1]),
{
    let h = hex2(x);
    let hi = (x / 16) as nat;
    let lo = (x % 16) as nat;
    assert(digit_value(hex_digit(hi), 16) == Some(hi));
    assert(digit_value(hex_digit(lo), 16) == Some(lo));
    assert(h[0] == hex_digit(hi) && h[1] == hex_digit(lo));
    assert(all_digits(h, 16));
    assert(h.drop_last() =~= seq![hex_digit(hi)]);
    assert(h.drop_last().drop_last() =~= Seq::<char>::empty());
    assert(digits_value(h.drop_last().drop_last(), 16) == 0);
    assert(digits_value(h.drop_last(), 16) == hi);
    assert(digits_value(h, 16) == hi * 16 + lo);
}

/// The fields that fragment `i` of the encoding of `b` parses to.
pub open spec fn encoded_view(b: Seq<u8>, ch: char, i: nat) -> NmeaView {
    let p = armor(b);
    let count = fragment_count(p.len());
    let end: int = if 56 * (i + 1) < p.len() {
        56 * (i as int + 1)
    } else {
        p.len() as int
    };
    let fill: nat = if i == count - 1 {
        armor_fill(b.len())
    } else {
        0
    };
    NmeaView {
        message_type: seq!['A', 'I', 'V', 'D', 'M'],
        fragment_count: count,
        fragment_number: (i + 1) as u8,
        message_id: if count > 1 {
            Some(seq!['1'])
        } else {
            None
        },
        channel: ch,
        payload: p.subrange(56 * (i as int), end),
        fill_bits: fill as u8,
        checksum: xor_utf8(sentence_body(p, b.len(), ch, count, i)),
    }
}

/// The fields of fragment `i` of the encoding of `b` parse back.
#[verifier::rlimit(100)]
proof fn lemma_encoded_fields(b: Seq<u8>, ch: char, i: nat)
    requires
        ch != ',',
        i < fragment_count(armor(b).len()),
    ensures
        spec_parse_fields(
            sentence_body(armor(b), b.len(), ch, fragment_count(armor(b).len()), i),
            xor_utf8(sentence_body(armor(b), b.len(), ch, fragment_count(armor(b).len()), i)),
        ) == Ok::<NmeaView, NmeaError>(encoded_view(b, ch, i)),
{
    let p = armor(b);
    let count = fragment_count(p.len());
    let v = encoded_view(b, ch, i);
    let body = sentence_body(p, b.len(), ch, count, i);
    let fill: nat = if i == count - 1 {
        armor_fill(b.len())
    } else {
        0
    };
    let id: Seq<char> = if count > 1 {
        seq!['1']
    } else {
        Seq::empty()
    };
    let d1 = dec_chars(count as nat);
    let d2 = dec_chars(i + 1);
    let d3 = dec_chars(fill);
    let frag = v.payload;
    let c = seq![','];
    let name = seq!['A', 'I', 'V', 'D', 'M'];
    assert(body =~= name + c + (d1 + c + (d2 + c + (id + c + (seq![ch] + c + (frag + c + d3))))));
    lemma_dec_chars(count as nat);
    lemma_dec_chars(i + 1);
    lemma_dec_chars(fill);
    assert forall|k: int| 0 <= k < frag.len() implies frag[k] != ',' by {
        assert(frag[k] == p[56 * (i as int) + k]);
    }
    lemma_split_join(name, d1 + c + (d2 + c + (id + c + (seq![ch] + c + (frag + c + d3)))), ',');
    lemma_split_join(d1, d2 + c + (id + c + (seq![ch] + c + (frag + c + d3))), ',');
    lemma_split_join(d2, id + c + (seq![ch] + c + (frag + c + d3)), ',');
    lemma_split_join(id, seq![ch] + c + (frag + c + d3), ',');
    lemma_split_join(seq![ch], frag + c + d3, ',');
    lemma_split_join(frag, d3, ',');
    lemma_split_single(name, ',');
    lemma_split_single(d1, ',');
    lemma_split_single(d2, ',');
    lemma_split_single(id, ',');
    lemma_split_single(seq![ch], ',');
    lemma_split_single(frag, ',');
    lemma_split_single(d3, ',');
    let f = split(body, ',');
    assert(f =~= seq![name, d1, d2, id, seq![ch], frag, d3]);
    assert(is_ais_sentence_type(f[0]));
    lemma_parse_dec(count as nat, 255);
    lemma_parse_dec(i + 1, 255);
    lemma_parse_dec(fill, 255);
}

/// A sentence framed around fields without `*` parses as its fields, with
/// the checksum it was framed with.
proof fn lemma_framed_parses(body: Seq<char>)
    requires
        forall|k: int| 0 <= k < body.len() ==> body[k] != '*',
    ensures
        spec_parse(framed(body)) == spec_parse_fields(body, xor_utf8(body)),
{
    let cs = xor_utf8(body);
    let s = framed(body);
    lemma_parse_hex2(cs);
    assert(s =~= seq!['!'] + (body + seq!['*'] + hex2(cs)));
    assert(trim_start(s) == s);
    assert(s.last() == hex2(cs)[1]);
    assert(trim_end(s) == s);
    assert(strip_bang(s) =~= body + seq!['*'] + hex2(cs));
    lemma_split_join(body, hex2(cs), '*');
    lemma_split_single(body, '*');
    lemma_split_single(hex2(cs), '*');
    assert(split(strip_bang(trim(s)), '*') =~= seq![body, hex2(cs)]);
}

/// Every sentence of the encoding of a message received on a channel that
/// is neither `,` nor `*` parses to the fields it was written with.
#[verifier::rlimit(100)]
pub proof fn lemma_encoded_sentence_parses(b: Seq<u8>, ch: char, i: nat)
    requires
        ch != ',',
        ch != '*',
        i < nmea_sentences(b, ch).len(),
    ensures
        spec_parse(nmea_sentences(b, ch)[i as int]) == Ok::<NmeaView, NmeaError>(
            encoded_view(b, ch, i),
        ),
{
    let p = armor(b);
    let count = fragment_count(p.len());
    let body = sentence_body(p, b.len(), ch, count, i);
    assert(nmea_sentences(b, ch)[i as int] == framed(body));
    lemma_encoded_fields(b, ch, i);
    let fill: nat = if i == count - 1 {
        armor_fill(b.len())
    } else {
        0
    };
    let id: Seq<char> = if count > 1 {
        seq!['1']
    } else {
        Seq::empty()
    };
    let end: int = if 56 * (i + 1) < p.len() {
        56 * (i as int + 1)
    } else {
        p.len() as int
    };
    let frag = p.subrange(56 * (i as int), end);
    let rest = dec_chars(count as nat) + seq![','] + dec_chars(i + 1) + seq![','] + id + seq![','] + seq![ch]
        + seq![','] + frag + seq![','] + dec_chars(fill);
    assert(body =~= seq!['A', 'I', 'V', 'D', 'M', ','] + rest);
    lemma_dec_chars(count as nat);
    lemma_dec_chars(i + 1);
    lemma_dec_chars(fill);
    assert forall|k: int| 0 <= k < body.len() implies body[k] != '*' by {
        if k >= 6 {
            assert(body[k] == rest[k - 6]);
            let a = dec_chars(count as nat) + seq![','] + dec_chars(i + 1) + seq![','] + id + seq![','] + seq![ch] + seq![','];
            if k - 6 >= a.len() + frag.len() + 1 {
                assert(rest[k - 6] == dec_chars(fill)[k - 6 - a.len() - frag.len() - 1]);
            } else if k - 6 >= a.len() && k - 6 < a.len() + frag.len() {
                assert(rest[k - 6] == frag[k - 6 - a.len()]);
                assert(frag[k - 6 - a.len()] == p[56 * (i as int) + k - 6 - a.len()]);
            }
        }
    }
    lemma_framed_parses(body);
}

/// The fields of every sentence of the encoding of `b`.
pub open spec fn encoded_views(b: Seq<u8>, ch: char) -> Seq<NmeaView> {
    Seq::new(fragment_count(armor(b).len()) as nat, |i: int| encoded_view(b, ch, i as nat))
}

/// All the sentences of the encoding parse.
proof fn lemma_encoded_parse_all(b: Seq<u8>, ch: char, k: int)
    requires
        ch != ',',
        ch != '*',
        0 <= k <= nmea_sentences(b, ch).len(),
    ensures
        parse_all(nmea_sentences(b, ch).take(k)) == Ok::<Seq<NmeaView>, NmeaError>(
            encoded_views(b, ch).take(k),
        ),
    decreases k,
{
    let s = nmea_sentences(b, ch);
    if k > 0 {
        lemma_encoded_parse_all(b, ch, k - 1);
        assert(s.take(k).drop_last() =~= s.take(k - 1));
        lemma_encoded_sentence_parses(b, ch, (k - 1) as nat);
        assert(encoded_views(b, ch).take(k - 1).push(encoded_view(b, ch, (k - 1) as nat))
            =~= encoded_views(b, ch).take(k));
    } else {
        assert(s.take(0) =~= Seq::<Seq<char>>::empty());
        assert(encoded_views(b, ch).take(0) =~= Seq::<NmeaView>::empty());
    }
}

/// The first `k` slots of a message of `count` fragments received in order.
pub open spec fn slots_after(ms: Seq<NmeaView>, count: nat, k: int) -> Seq<Option<NmeaView>> {
    Seq::new(count, |j: int| if j < k {
        Some(ms[j])
    } else {
        None
    })
}

/// The pending entries after the first `k` fragments of the encoding.
pub open spec fn pending_after(ms: Seq<NmeaView>, count: nat, k: int) -> PendingView {
    if k == 0 {
        Seq::empty()
    } else {
        seq![(seq!['1'], slots_after(ms, count, k))]
    }
}

/// The payloads of the first `m` fragments, joined, are the first characters
/// of the payload.
proof fn lemma_joined_fragments(b: Seq<u8>, ch: char, m: int)
    requires
        0 <= m <= fragment_count(armor(b).len()),
        fragment_count(armor(b).len()) as int == (armor(b).len() + 55) / 56,
    ensures
        joined_payload(Seq::new(m as nat, |j: int| Some(encoded_views(b, ch)[j]))) == armor(b).take(
            if 56 * m < armor(b).len() {
                56 * m
            } else {
                armor(b).len() as int
            },
        ),
    decreases m,
{
    let p = armor(b);
    let s = Seq::new(m as nat, |j: int| Some(encoded_views(b, ch)[j]));
    if m > 0 {
        lemma_joined_fragments(b, ch, m - 1);
        assert(s.drop_last() =~= Seq::new((m - 1) as nat, |j: int| Some(encoded_views(b, ch)[j])));
        let prev_end: int = if 56 * (m - 1) < p.len() {
            56 * (m - 1)
        } else {
            p.len() as int
        };
        assert(56 * (m - 1) < p.len());
        let frag = encoded_view(b, ch, (m - 1) as nat).payload;
        let end: int = if 56 * m < p.len() {
            56 * m
        } else {
            p.len() as int
        };
        assert(frag =~= p.subrange(56 * (m - 1), end));
        assert(p.take(prev_end) + frag =~= p.take(end));
    } else {
        assert(p.take(0) =~= Seq::<char>::empty());
    }
}

/// Adding the fragments of the encoding in order assembles the message.
#[verifier::rlimit(100)]
proof fn lemma_assemble_encoded(b: Seq<u8>, ch: char, k: int)
    requires
        ch != ',',
        ch != '*',
        2 <= fragment_count(armor(b).len()),
        fragment_count(armor(b).len()) as int == (armor(b).len() + 55) / 56,
        0 <= k < fragment_count(armor(b).len()),
    ensures
        spec_assemble(
            pending_after(encoded_views(b, ch), fragment_count(armor(b).len()) as nat, k),
            encoded_views(b, ch).skip(k),
        ) == Ok::<Seq<u8>, NmeaError>(b),
        assemble_safe(
            pending_after(encoded_views(b, ch), fragment_count(armor(b).len()) as nat, k),
            encoded_views(b, ch).skip(k),
        ),
    decreases fragment_count(armor(b).len()) - k,
{
    let p = armor(b);
    let count = fragment_count(p.len());
    let ms = encoded_views(b, ch);
    let pk = pending_after(ms, count as nat, k);
    let m = ms[k];
    let id = seq!['1'];
    assert(m == encoded_view(b, ch, k as nat));
    assert(m.message_id == Some(id));
    let (p1, gi) = with_entry(pk, id, count);
    if k == 0 {
        assert(key_index(pk, id) is None);
        assert(p1[gi].1 =~= slots_after(ms, count as nat, 0));
    } else {
        assert(pk[0].0 == id);
        assert(key_index(pk, id) == Some(0int));
        assert(p1[gi].1 == slots_after(ms, count as nat, k));
    }
    let s2 = p1[gi].1.update(k, Some(m));
    assert(s2 =~= slots_after(ms, count as nat, k + 1));
    assert(ms.skip(k)[0] == m);
    assert(ms.skip(k).drop_first() =~= ms.skip(k + 1));
    if k + 1 < count {
        assert(!all_received(s2)) by {
            assert(s2[k + 1] is None);
        }
        assert(p1.update(gi, (id, s2)) =~= pending_after(ms, count as nat, k + 1));
        lemma_assemble_encoded(b, ch, k + 1);
    } else {
        assert(all_received(s2));
        assert(s2 =~= Seq::new(count as nat, |j: int| Some(ms[j])));
        lemma_joined_fragments(b, ch, count as int);
        assert(p.take(p.len() as int) =~= p);
        lemma_armor_roundtrip(b);
        assert(s2.last()->Some_0.fill_bits == armor_fill(b.len()) as u8);
    }
}

/// Encoding a message as NMEA sentences (on a channel that is neither `,`
/// nor `*`) and decoding the sentences gives the message back, when it is
/// not empty and fits in 255 sentences.
pub proof fn lemma_nmea_roundtrip(b: Seq<u8>, ch: char)
    requires
        ch != ',',
        ch != '*',
        0 < b.len(),
        armor_count(b.len()) <= 56 * 255,
    ensures
        nmea_safe(nmea_sentences(b, ch)),
        nmea_binary(nmea_sentences(b, ch)) == Ok::<Seq<u8>, NmeaError>(b),
{
    let p = armor(b);
    let count = fragment_count(p.len());
    assert(count as int == (p.len() + 55) / 56);
    assert(count >= 1);
    let s = nmea_sentences(b, ch);
    lemma_armor_roundtrip(b);
    if count == 1 {
        lemma_encoded_sentence_parses(b, ch, 0);
        assert(encoded_view(b, ch, 0).payload =~= p);
    } else {
        lemma_encoded_parse_all(b, ch, s.len() as int);
        assert(s.take(s.len() as int) =~= s);
        assert(encoded_views(b, ch).take(count as int) =~= encoded_views(b, ch));
        lemma_assemble_encoded(b, ch, 0);
        assert(encoded_views(b, ch).skip(0) =~= encoded_views(b, ch));
    }
}

/// Decoding the NMEA encoding of a message gives what decoding the
/// message's bytes gives.
pub proof fn lemma_encoded_message_decodes(b: Seq<u8>, ch: char)
    requires
        ch != ',',
        ch != '*',
        0 < b.len(),
        armor_count(b.len()) <= 56 * 255,
    ensures
        Message::nmea_outcome(nmea_sentences(b, ch)) == match Message::outcome(b) {
            Ok(_) => Ok::<(), MessageError>(()),
            Err(e) => Err(MessageError::Decode(e)),
        },
{
    lemma_nmea_roundtrip(b, ch);
}

} // verus!
