//! Snapshot encoding and the named-section container.
//!
//! A state record is serialized into a self-describing byte layout: a
//! one-byte record tag, then each field in declaration order, little-endian,
//! with each register list preceded by its 32-bit element count (the eight
//! ITS table descriptors are a fixed-size field and carry no count).  Field
//! order and widths are the durable migration contract.  The payload is
//! wrapped in a named section inside a [`Snapshot`]; restore locates the
//! section by name, failing with a distinct error when the section is
//! absent, and with another when its bytes are malformed.

use vstd::prelude::*;

use crate::gicv3::Gicv3State;
use crate::gicv3_its::Gicv3ITSState;

verus! {

/// Record tag of a GICv3 state record.
pub const TAG_GICV3: u8 = 1;

/// Record tag of a GICv3-ITS state record.
pub const TAG_GICV3_ITS: u8 = 2;

/// Little-endian bytes of a 32-bit value.
pub open spec fn le32(x: u32) -> Seq<u8> {
    seq![
        (x & 0xff) as u8,
        ((x >> 8u32) & 0xff) as u8,
        ((x >> 16u32) & 0xff) as u8,
        ((x >> 24u32) & 0xff) as u8,
    ]
}

/// Little-endian bytes of a 64-bit value.
pub open spec fn le64(x: u64) -> Seq<u8> {
    seq![
        (x & 0xff) as u8,
        ((x >> 8u64) & 0xff) as u8,
        ((x >> 16u64) & 0xff) as u8,
        ((x >> 24u64) & 0xff) as u8,
        ((x >> 32u64) & 0xff) as u8,
        ((x >> 40u64) & 0xff) as u8,
        ((x >> 48u64) & 0xff) as u8,
        ((x >> 56u64) & 0xff) as u8,
    ]
}

/// The 32-bit value read out of four little-endian bytes.
pub open spec fn word32_of(b0: u8, b1: u8, b2: u8, b3: u8) -> u32 {
    (b0 as u32) | ((b1 as u32) << 8u32) | ((b2 as u32) << 16u32) | ((b3 as u32) << 24u32)
}

/// The 64-bit value read out of eight little-endian bytes.
pub open spec fn word64_of(b0: u8, b1: u8, b2: u8, b3: u8, b4: u8, b5: u8, b6: u8, b7: u8) -> u64 {
    (b0 as u64) | ((b1 as u64) << 8u64) | ((b2 as u64) << 16u64) | ((b3 as u64) << 24u64) | ((b4
        as u64) << 32u64) | ((b5 as u64) << 40u64) | ((b6 as u64) << 48u64) | ((b7 as u64)
        << 56u64)
}

/// The 32-bit word starting at byte `p`.
pub open spec fn word32_at(b: Seq<u8>, p: int) -> u32 {
    word32_of(b[p], b[p + 1], b[p + 2], b[p + 3])
}

/// The 64-bit word starting at byte `p`.
pub open spec fn word64_at(b: Seq<u8>, p: int) -> u64 {
    word64_of(b[p], b[p + 1], b[p + 2], b[p + 3], b[p + 4], b[p + 5], b[p + 6], b[p + 7])
}

/// Reassembling the bytes of a 32-bit value gives the value back.
pub proof fn lemma_le32_round(x: u32)
    ensures
        word32_of(le32(x)[0], le32(x)[1], le32(x)[2], le32(x)[3]) == x,
{
    assert(((x & 0xff) as u8) as u32 | ((((x >> 8u32) & 0xff) as u8) as u32) << 8u32 | ((((x
        >> 16u32) & 0xff) as u8) as u32) << 16u32 | ((((x >> 24u32) & 0xff) as u8) as u32)
        << 24u32 == x) by (bit_vector);
}

/// The bytes of a reassembled 32-bit value are the original bytes.
pub proof fn lemma_le32_of_bytes(b0: u8, b1: u8, b2: u8, b3: u8)
    ensures
        le32(word32_of(b0, b1, b2, b3)) == seq![b0, b1, b2, b3],
{
    let w = word32_of(b0, b1, b2, b3);
    assert((((b0 as u32) | ((b1 as u32) << 8u32) | ((b2 as u32) << 16u32) | ((b3 as u32)
        << 24u32)) & 0xff) as u8 == b0) by (bit_vector);
    assert(((((b0 as u32) | ((b1 as u32) << 8u32) | ((b2 as u32) << 16u32) | ((b3 as u32)
        << 24u32)) >> 8u32) & 0xff) as u8 == b1) by (bit_vector);
    assert(((((b0 as u32) | ((b1 as u32) << 8u32) | ((b2 as u32) << 16u32) | ((b3 as u32)
        << 24u32)) >> 16u32) & 0xff) as u8 == b2) by (bit_vector);
    assert(((((b0 as u32) | ((b1 as u32) << 8u32) | ((b2 as u32) << 16u32) | ((b3 as u32)
        << 24u32)) >> 24u32) & 0xff) as u8 == b3) by (bit_vector);
    assert(le32(w) =~= seq![b0, b1, b2, b3]);
}

/// Reassembling the bytes of a 64-bit value gives the value back.
pub proof fn lemma_le64_round(x: u64)
    ensures
        word64_of(
            le64(x)[0],
            le64(x)[1],
            le64(x)[2],
            le64(x)[3],
            le64(x)[4],
            le64(x)[5],
            le64(x)[6],
            le64(x)[7],
        ) == x,
{
    assert(((x & 0xff) as u8) as u64 | ((((x >> 8u64) & 0xff) as u8) as u64) << 8u64 | ((((x
        >> 16u64) & 0xff) as u8) as u64) << 16u64 | ((((x >> 24u64) & 0xff) as u8) as u64)
        << 24u64 | ((((x >> 32u64) & 0xff) as u8) as u64) << 32u64 | ((((x >> 40u64) & 0xff) as u8)
        as u64) << 40u64 | ((((x >> 48u64) & 0xff) as u8) as u64) << 48u64 | ((((x >> 56u64)
        & 0xff) as u8) as u64) << 56u64 == x) by (bit_vector);
}

/// The bytes of a reassembled 64-bit value are the original bytes.
pub proof fn lemma_le64_of_bytes(b0: u8, b1: u8, b2: u8, b3: u8, b4: u8, b5: u8, b6: u8, b7: u8)
    ensures
        le64(word64_of(b0, b1, b2, b3, b4, b5, b6, b7)) == seq![b0, b1, b2, b3, b4, b5, b6, b7],
{
    let w = word64_of(b0, b1, b2, b3, b4, b5, b6, b7);
    assert((w & 0xff) as u8 == b0 && ((w >> 8u64) & 0xff) as u8 == b1 && ((w >> 16u64) & 0xff) as u8
        == b2 && ((w >> 24u64) & 0xff) as u8 == b3 && ((w >> 32u64) & 0xff) as u8 == b4 && ((w
        >> 40u64) & 0xff) as u8 == b5 && ((w >> 48u64) & 0xff) as u8 == b6 && ((w >> 56u64) & 0xff)
        as u8 == b7) by (bit_vector)
        requires
            w == (b0 as u64) | ((b1 as u64) << 8u64) | ((b2 as u64) << 16u64) | ((b3 as u64)
                << 24u64) | ((b4 as u64) << 32u64) | ((b5 as u64) << 40u64) | ((b6 as u64)
                << 48u64) | ((b7 as u64) << 56u64),
    ;
    assert(le64(w) =~= seq![b0, b1, b2, b3, b4, b5, b6, b7]);
}

/// The little-endian encoding of a word list.
pub open spec fn enc32s(s: Seq<u32>) -> Seq<u8>
    decreases s.len(),
{
    if s.len() == 0 {
        Seq::empty()
    } else {
        enc32s(s.drop_last()) + le32(s.last())
    }
}

/// The little-endian encoding of a 64-bit word list.
pub open spec fn enc64s(s: Seq<u64>) -> Seq<u8>
    decreases s.len(),
{
    if s.len() == 0 {
        Seq::empty()
    } else {
        enc64s(s.drop_last()) + le64(s.last())
    }
}

/// Length and byte-level content of an encoded word list.
pub proof fn lemma_enc32s_props(s: Seq<u32>)
    ensures
        enc32s(s).len() == 4 * s.len(),
        forall|i: int|
            0 <= i < 4 * s.len() ==> #[trigger] enc32s(s)[i] == le32(s[i / 4])[i % 4],
    decreases s.len(),
{
    if s.len() > 0 {
        lemma_enc32s_props(s.drop_last());
        let n = s.len() as int;
        assert forall|i: int| 0 <= i < 4 * n implies #[trigger] enc32s(s)[i] == le32(s[i / 4])[i
            % 4] by {
            if i < 4 * (n - 1) {
                assert(enc32s(s)[i] == enc32s(s.drop_last())[i]);
                assert(s.drop_last()[i / 4] == s[i / 4]) by {
                    vstd::arithmetic::div_mod::lemma_fundamental_div_mod(i, 4);
                }
            } else {
                assert(enc32s(s)[i] == le32(s.last())[i - 4 * (n - 1)]);
                vstd::arithmetic::div_mod::lemma_fundamental_div_mod_converse(
                    i,
                    4,
                    n - 1,
                    i - 4 * (n - 1),
                );
            }
        }
    }
}

/// Length and byte-level content of an encoded 64-bit word list.
pub proof fn lemma_enc64s_props(s: Seq<u64>)
    ensures
        enc64s(s).len() == 8 * s.len(),
        forall|i: int|
            0 <= i < 8 * s.len() ==> #[trigger] enc64s(s)[i] == le64(s[i / 8])[i % 8],
    decreases s.len(),
{
    if s.len() > 0 {
        lemma_enc64s_props(s.drop_last());
        let n = s.len() as int;
        assert forall|i: int| 0 <= i < 8 * n implies #[trigger] enc64s(s)[i] == le64(s[i / 8])[i
            % 8] by {
            if i < 8 * (n - 1) {
                assert(enc64s(s)[i] == enc64s(s.drop_last())[i]);
                assert(s.drop_last()[i / 8] == s[i / 8]) by {
                    vstd::arithmetic::div_mod::lemma_fundamental_div_mod(i, 8);
                }
            } else {
                assert(enc64s(s)[i] == le64(s.last())[i - 8 * (n - 1)]);
                vstd::arithmetic::div_mod::lemma_fundamental_div_mod_converse(
                    i,
                    8,
                    n - 1,
                    i - 8 * (n - 1),
                );
            }
        }
    }
}

/// The encoded GIC-block fields: each register list behind its element
/// count, then the control register.
pub open spec fn enc_v3_body(st: Gicv3State) -> Seq<u8> {
    le32(st.dist@.len() as u32) + enc32s(st.dist@) + le32(st.rdist@.len() as u32) + enc32s(
        st.rdist@,
    ) + le32(st.icc@.len() as u32) + enc32s(st.icc@) + le32(st.gicd_ctlr)
}

/// The encoded GICv3 state record.
pub open spec fn enc_v3(st: Gicv3State) -> Seq<u8> {
    seq![TAG_GICV3] + enc_v3_body(st)
}

/// The encoded ITS fields, in record order.
pub open spec fn enc_its_body(st: Gicv3ITSState) -> Seq<u8> {
    le64(st.its_ctlr) + le64(st.its_iidr) + le64(st.its_cbaser) + le64(st.its_cwriter) + le64(
        st.its_creadr,
    ) + enc64s(st.its_baser@)
}

/// The encoded GICv3-ITS state record: the GIC block, then the ITS block.
pub open spec fn enc_its(st: Gicv3ITSState) -> Seq<u8> {
    seq![TAG_GICV3_ITS] + enc_v3_body(st.gic) + enc_its_body(st)
}

/// Append the little-endian bytes of a 32-bit value.
fn push_le32(out: &mut Vec<u8>, x: u32)
    ensures
        final(out)@ == old(out)@ + le32(x),
{
    proof {
        assert((x & 0xff) < 256 && ((x >> 8u32) & 0xff) < 256 && ((x >> 16u32) & 0xff) < 256 && ((x
            >> 24u32) & 0xff) < 256) by (bit_vector);
    }
    out.push((x & 0xff) as u8);
    out.push(((x >> 8u32) & 0xff) as u8);
    out.push(((x >> 16u32) & 0xff) as u8);
    out.push(((x >> 24u32) & 0xff) as u8);
    proof {
        assert(out@ =~= old(out)@ + le32(x));
    }
}

/// Append the little-endian bytes of a 64-bit value.
fn push_le64(out: &mut Vec<u8>, x: u64)
    ensures
        final(out)@ == old(out)@ + le64(x),
{
    proof {
        assert((x & 0xff) < 256 && ((x >> 8u64) & 0xff) < 256 && ((x >> 16u64) & 0xff) < 256 && ((x
            >> 24u64) & 0xff) < 256 && ((x >> 32u64) & 0xff) < 256 && ((x >> 40u64) & 0xff) < 256
            && ((x >> 48u64) & 0xff) < 256 && ((x >> 56u64) & 0xff) < 256) by (bit_vector);
    }
    out.push((x & 0xff) as u8);
    out.push(((x >> 8u64) & 0xff) as u8);
    out.push(((x >> 16u64) & 0xff) as u8);
    out.push(((x >> 24u64) & 0xff) as u8);
    out.push(((x >> 32u64) & 0xff) as u8);
    out.push(((x >> 40u64) & 0xff) as u8);
    out.push(((x >> 48u64) & 0xff) as u8);
    out.push(((x >> 56u64) & 0xff) as u8);
    proof {
        assert(out@ =~= old(out)@ + le64(x));
    }
}

/// Append the encoding of a word list.
fn push_words32(out: &mut Vec<u8>, words: &Vec<u32>)
    ensures
        final(out)@ == old(out)@ + enc32s(words@),
{
    let mut i: usize = 0;
    while i < words.len()
        invariant
            i <= words@.len(),
            out@ == old(out)@ + enc32s(words@.take(i as int)),
        decreases words@.len() - i,
    {
        push_le32(out, words[i]);
        proof {
            assert(words@.take(i as int + 1).drop_last() =~= words@.take(i as int));
            assert(words@.take(i as int + 1).last() == words@[i as int]);
            assert(out@ =~= old(out)@ + enc32s(words@.take(i as int + 1)));
        }
        i = i + 1;
    }
    proof {
        assert(words@.take(words@.len() as int) =~= words@);
    }
}

/// Append the encoding of a 64-bit word list.
fn push_words64(out: &mut Vec<u8>, words: &Vec<u64>)
    ensures
        final(out)@ == old(out)@ + enc64s(words@),
{
    let mut i: usize = 0;
    while i < words.len()
        invariant
            i <= words@.len(),
            out@ == old(out)@ + enc64s(words@.take(i as int)),
        decreases words@.len() - i,
    {
        push_le64(out, words[i]);
        proof {
            assert(words@.take(i as int + 1).drop_last() =~= words@.take(i as int));
            assert(words@.take(i as int + 1).last() == words@[i as int]);
            assert(out@ =~= old(out)@ + enc64s(words@.take(i as int + 1)));
        }
        i = i + 1;
    }
    proof {
        assert(words@.take(words@.len() as int) =~= words@);
    }
}

/// Append the GIC-block fields.
fn push_v3_body(out: &mut Vec<u8>, state: &Gicv3State)
    requires
        state.dist@.len() < 0x1_0000_0000,
        state.rdist@.len() < 0x1_0000_0000,
        state.icc@.len() < 0x1_0000_0000,
    ensures
        final(out)@ == old(out)@ + enc_v3_body(*state),
{
    push_le32(out, state.dist.len() as u32);
    push_words32(out, &state.dist);
    push_le32(out, state.rdist.len() as u32);
    push_words32(out, &state.rdist);
    push_le32(out, state.icc.len() as u32);
    push_words32(out, &state.icc);
    push_le32(out, state.gicd_ctlr);
    proof {
        assert(out@ =~= old(out)@ + enc_v3_body(*state));
    }
}

/// Serialize a GICv3 state record.
pub fn encode_gicv3_state(state: &Gicv3State) -> (r: Vec<u8>)
    requires
        state.dist@.len() < 0x1_0000_0000,
        state.rdist@.len() < 0x1_0000_0000,
        state.icc@.len() < 0x1_0000_0000,
    ensures
        r@ == enc_v3(*state),
{
    let mut out: Vec<u8> = Vec::new();
    out.push(TAG_GICV3);
    assert(out@ =~= seq![TAG_GICV3]);
    push_v3_body(&mut out, state);
    out
}

/// Serialize a GICv3-ITS state record.
pub fn encode_gicv3_its_state(state: &Gicv3ITSState) -> (r: Vec<u8>)
    requires
        state.gic.dist@.len() < 0x1_0000_0000,
        state.gic.rdist@.len() < 0x1_0000_0000,
        state.gic.icc@.len() < 0x1_0000_0000,
        state.its_baser@.len() == 8,
    ensures
        r@ == enc_its(*state),
{
    let mut out: Vec<u8> = Vec::new();
    out.push(TAG_GICV3_ITS);
    assert(out@ =~= seq![TAG_GICV3_ITS]);
    push_v3_body(&mut out, &state.gic);
    push_le64(&mut out, state.its_ctlr);
    push_le64(&mut out, state.its_iidr);
    push_le64(&mut out, state.its_cbaser);
    push_le64(&mut out, state.its_cwriter);
    push_le64(&mut out, state.its_creadr);
    push_words64(&mut out, &state.its_baser);
    proof {
        assert(out@ =~= enc_its(*state));
    }
    out
}

/// The eight bytes at `p` are the encoding of the word read there.
proof fn lemma_le64_at(b: Seq<u8>, p: int, x: u64)
    requires
        0 <= p,
        p + 8 <= b.len(),
        x == word64_at(b, p),
    ensures
        le64(x) == b.subrange(p, p + 8),
{
    lemma_le64_of_bytes(b[p], b[p + 1], b[p + 2], b[p + 3], b[p + 4], b[p + 5], b[p + 6], b[p + 7]);
    assert(le64(x) =~= b.subrange(p, p + 8));
}

/// Assembling an ITS record from its parsed pieces.
proof fn lemma_assemble_its(b: Seq<u8>, st: Gicv3ITSState, q: int)
    requires
        1 <= q <= b.len(),
        b.len() - q == 104,
        b[0] == TAG_GICV3_ITS,
        enc_v3_body(st.gic) == b.subrange(1, q),
        le64(st.its_ctlr) == b.subrange(q, q + 8),
        le64(st.its_iidr) == b.subrange(q + 8, q + 16),
        le64(st.its_cbaser) == b.subrange(q + 16, q + 24),
        le64(st.its_cwriter) == b.subrange(q + 24, q + 32),
        le64(st.its_creadr) == b.subrange(q + 32, q + 40),
        enc64s(st.its_baser@) == b.subrange(q + 40, q + 104),
    ensures
        b == enc_its(st),
{
    assert(enc_its_body(st) =~= b.subrange(q, q + 104));
    assert(b =~= enc_its(st));
}

/// Whether a well-formed GIC-block body starts at `p`: three counted word
/// lists and the control register, all within bounds.
pub open spec fn v3_body_ok(b: Seq<u8>, p: int) -> bool {
    &&& p + 4 <= b.len()
    &&& {
        let nd = word32_at(b, p) as int;
        &&& p + 8 + 4 * nd <= b.len()
        &&& {
            let nr = word32_at(b, p + 4 + 4 * nd) as int;
            &&& p + 12 + 4 * nd + 4 * nr <= b.len()
            &&& {
                let ni = word32_at(b, p + 8 + 4 * nd + 4 * nr) as int;
                p + 16 + 4 * nd + 4 * nr + 4 * ni <= b.len()
            }
        }
    }
}

/// Where the GIC-block body starting at `p` ends.
pub open spec fn v3_body_end(b: Seq<u8>, p: int) -> int {
    let nd = word32_at(b, p) as int;
    let nr = word32_at(b, p + 4 + 4 * nd) as int;
    let ni = word32_at(b, p + 8 + 4 * nd + 4 * nr) as int;
    p + 16 + 4 * nd + 4 * nr + 4 * ni
}

/// Whether `b` is a well-formed GICv3 record: the tag, one body, nothing
/// after it.
pub open spec fn v3_shape_ok(b: Seq<u8>) -> bool {
    &&& b.len() >= 1
    &&& b[0] == TAG_GICV3
    &&& v3_body_ok(b, 1)
    &&& v3_body_end(b, 1) == b.len()
}

/// Whether `b` is a well-formed GICv3-ITS record: the tag, one GIC body,
/// then the fixed 104 bytes of the ITS block, nothing after them.
pub open spec fn its_shape_ok(b: Seq<u8>) -> bool {
    &&& b.len() >= 1
    &&& b[0] == TAG_GICV3_ITS
    &&& v3_body_ok(b, 1)
    &&& v3_body_end(b, 1) + 104 == b.len()
}

/// Index into a seven-segment concatenation, segment by segment.
proof fn lemma_concat7_index(
    t1: Seq<u8>,
    t2: Seq<u8>,
    t3: Seq<u8>,
    t4: Seq<u8>,
    t5: Seq<u8>,
    t6: Seq<u8>,
    t7: Seq<u8>,
    i: int,
)
    requires
        0 <= i < t1.len() + t2.len() + t3.len() + t4.len() + t5.len() + t6.len() + t7.len(),
    ensures
        ({
            let s = t1 + t2 + t3 + t4 + t5 + t6 + t7;
            let n1 = t1.len() as int;
            let n2 = n1 + t2.len();
            let n3 = n2 + t3.len();
            let n4 = n3 + t4.len();
            let n5 = n4 + t5.len();
            let n6 = n5 + t6.len();
            &&& (i < n1 ==> s[i] == t1[i])
            &&& (n1 <= i < n2 ==> s[i] == t2[i - n1])
            &&& (n2 <= i < n3 ==> s[i] == t3[i - n2])
            &&& (n3 <= i < n4 ==> s[i] == t4[i - n3])
            &&& (n4 <= i < n5 ==> s[i] == t5[i - n4])
            &&& (n5 <= i < n6 ==> s[i] == t6[i - n5])
            &&& (n6 <= i ==> s[i] == t7[i - n6])
        }),
{
    let u2 = t1 + t2;
    let u3 = u2 + t3;
    let u4 = u3 + t4;
    let u5 = u4 + t5;
    let u6 = u5 + t6;
    let s = u6 + t7;
    assert(s == t1 + t2 + t3 + t4 + t5 + t6 + t7);
    if i < u6.len() {
        assert(s[i] == u6[i]);
        if i < u5.len() {
            assert(u6[i] == u5[i]);
            if i < u4.len() {
                assert(u5[i] == u4[i]);
                if i < u3.len() {
                    assert(u4[i] == u3[i]);
                    if i < u2.len() {
                        assert(u3[i] == u2[i]);
                        if i < t1.len() {
                            assert(u2[i] == t1[i]);
                        } else {
                            assert(u2[i] == t2[i - t1.len()]);
                        }
                    } else {
                        assert(u3[i] == t3[i - u2.len()]);
                    }
                } else {
                    assert(u4[i] == t4[i - u3.len()]);
                }
            } else {
                assert(u5[i] == t5[i - u4.len()]);
            }
        } else {
            assert(u6[i] == t6[i - u5.len()]);
        }
    } else {
        assert(s[i] == t7[i - u6.len()]);
    }
}

/// What the GIC-block body bytes say, byte for byte: the counts, every
/// register word, and the control register can be read back out of any byte
/// sequence that carries an encoded body at `p`.
#[verifier::rlimit(100)]
proof fn lemma_v3_body_parts(st: Gicv3State, b: Seq<u8>, p: int)
    requires
        0 <= p,
        st.dist@.len() < 0x1_0000_0000,
        st.rdist@.len() < 0x1_0000_0000,
        st.icc@.len() < 0x1_0000_0000,
        p + 16 + 4 * (st.dist@.len() + st.rdist@.len() + st.icc@.len()) <= b.len(),
        b.subrange(p, p + 16 + 4 * (st.dist@.len() + st.rdist@.len() + st.icc@.len()))
            == enc_v3_body(st),
    ensures
        word32_at(b, p) as int == st.dist@.len(),
        word32_at(b, p + 4 + 4 * st.dist@.len()) as int == st.rdist@.len(),
        word32_at(b, p + 8 + 4 * (st.dist@.len() + st.rdist@.len())) as int == st.icc@.len(),
        word32_at(b, p + 12 + 4 * (st.dist@.len() + st.rdist@.len() + st.icc@.len()))
            == st.gicd_ctlr,
        forall|j: int|
            0 <= j < st.dist@.len() ==> word32_at(b, p + 4 + 4 * j) == #[trigger] st.dist@[j],
        forall|j: int|
            0 <= j < st.rdist@.len() ==> word32_at(b, p + 8 + 4 * st.dist@.len() + 4 * j)
                == #[trigger] st.rdist@[j],
        forall|j: int|
            0 <= j < st.icc@.len() ==> word32_at(
                b,
                p + 12 + 4 * (st.dist@.len() + st.rdist@.len()) + 4 * j,
            ) == #[trigger] st.icc@[j],
        v3_body_ok(b, p),
        v3_body_end(b, p) == p + 16 + 4 * (st.dist@.len() + st.rdist@.len() + st.icc@.len()),
{
    let nd = st.dist@.len() as int;
    let nr = st.rdist@.len() as int;
    let ni = st.icc@.len() as int;
    let body = enc_v3_body(st);
    let t1 = le32(st.dist@.len() as u32);
    let t2 = enc32s(st.dist@);
    let t3 = le32(st.rdist@.len() as u32);
    let t4 = enc32s(st.rdist@);
    let t5 = le32(st.icc@.len() as u32);
    let t6 = enc32s(st.icc@);
    let t7 = le32(st.gicd_ctlr);
    lemma_enc32s_props(st.dist@);
    lemma_enc32s_props(st.rdist@);
    lemma_enc32s_props(st.icc@);
    assert(body.len() == 16 + 4 * (nd + nr + ni));
    assert forall|i: int| 0 <= i < body.len() implies b[p + i] == #[trigger] body[i] by {
        assert(body[i] == b.subrange(p, p + 16 + 4 * (nd + nr + ni))[i]);
    }
    assert forall|i: int| 0 <= i < 4 implies body[i] == t1[i] && body[4 + 4 * nd + i] == t3[i]
        && body[8 + 4 * nd + 4 * nr + i] == t5[i] && body[12 + 4 * (nd + nr + ni) + i]
        == t7[i] by {
        lemma_concat7_index(t1, t2, t3, t4, t5, t6, t7, i);
        lemma_concat7_index(t1, t2, t3, t4, t5, t6, t7, 4 + 4 * nd + i);
        lemma_concat7_index(t1, t2, t3, t4, t5, t6, t7, 8 + 4 * nd + 4 * nr + i);
        lemma_concat7_index(t1, t2, t3, t4, t5, t6, t7, 12 + 4 * (nd + nr + ni) + i);
    }
    lemma_le32_round(st.dist@.len() as u32);
    lemma_le32_round(st.rdist@.len() as u32);
    lemma_le32_round(st.icc@.len() as u32);
    lemma_le32_round(st.gicd_ctlr);
    assert(word32_at(b, p) == word32_of(t1[0], t1[1], t1[2], t1[3]));
    assert(word32_at(b, p + 4 + 4 * nd) == word32_of(t3[0], t3[1], t3[2], t3[3]));
    assert(word32_at(b, p + 8 + 4 * nd + 4 * nr) == word32_of(t5[0], t5[1], t5[2], t5[3]));
    assert(word32_at(b, p + 12 + 4 * (nd + nr + ni)) == word32_of(t7[0], t7[1], t7[2], t7[3]));
    assert forall|j: int| 0 <= j < nd implies word32_at(b, p + 4 + 4 * j)
        == #[trigger] st.dist@[j] by {
        assert forall|c: int| 0 <= c < 4 implies body[4 + 4 * j + c] == le32(st.dist@[j])[c] by {
            lemma_concat7_index(t1, t2, t3, t4, t5, t6, t7, 4 + 4 * j + c);
            vstd::arithmetic::div_mod::lemma_fundamental_div_mod_converse(4 * j + c, 4, j, c);
            assert(t2[4 * j + c] == le32(st.dist@[(4 * j + c) / 4])[(4 * j + c) % 4]);
        }
        lemma_le32_round(st.dist@[j]);
    }
    assert forall|j: int| 0 <= j < nr implies word32_at(b, p + 8 + 4 * nd + 4 * j)
        == #[trigger] st.rdist@[j] by {
        assert forall|c: int| 0 <= c < 4 implies body[8 + 4 * nd + 4 * j + c] == le32(
            st.rdist@[j],
        )[c] by {
            lemma_concat7_index(t1, t2, t3, t4, t5, t6, t7, 8 + 4 * nd + 4 * j + c);
            vstd::arithmetic::div_mod::lemma_fundamental_div_mod_converse(4 * j + c, 4, j, c);
            assert(t4[4 * j + c] == le32(st.rdist@[(4 * j + c) / 4])[(4 * j + c) % 4]);
        }
        lemma_le32_round(st.rdist@[j]);
    }
    assert forall|j: int| 0 <= j < ni implies word32_at(b, p + 12 + 4 * (nd + nr) + 4 * j)
        == #[trigger] st.icc@[j] by {
        assert forall|c: int| 0 <= c < 4 implies body[12 + 4 * nd + 4 * nr + 4 * j + c] == le32(
            st.icc@[j],
        )[c] by {
            lemma_concat7_index(t1, t2, t3, t4, t5, t6, t7, 12 + 4 * nd + 4 * nr + 4 * j + c);
            vstd::arithmetic::div_mod::lemma_fundamental_div_mod_converse(4 * j + c, 4, j, c);
            assert(t6[4 * j + c] == le32(st.icc@[(4 * j + c) / 4])[(4 * j + c) % 4]);
        }
        lemma_le32_round(st.icc@[j]);
    }
}

/// Everything an encoded GICv3 record says about its bytes, at once.
proof fn lemma_v3_extract(st: Gicv3State, bs: Seq<u8>)
    requires
        bs == enc_v3(st),
        st.dist@.len() < 0x1_0000_0000,
        st.rdist@.len() < 0x1_0000_0000,
        st.icc@.len() < 0x1_0000_0000,
    ensures
        bs.len() == 17 + 4 * (st.dist@.len() + st.rdist@.len() + st.icc@.len()),
        bs[0] == TAG_GICV3,
        word32_at(bs, 1) as int == st.dist@.len(),
        word32_at(bs, 5 + 4 * st.dist@.len() as int) as int == st.rdist@.len(),
        word32_at(bs, 9 + 4 * (st.dist@.len() + st.rdist@.len()) as int) as int == st.icc@.len(),
        word32_at(bs, 13 + 4 * (st.dist@.len() + st.rdist@.len() + st.icc@.len()) as int)
            == st.gicd_ctlr,
        forall|j: int|
            0 <= j < st.dist@.len() ==> word32_at(bs, 5 + 4 * j) == #[trigger] st.dist@[j],
        forall|j: int|
            0 <= j < st.rdist@.len() ==> word32_at(bs, 9 + 4 * st.dist@.len() + 4 * j)
                == #[trigger] st.rdist@[j],
        forall|j: int|
            0 <= j < st.icc@.len() ==> word32_at(
                bs,
                13 + 4 * (st.dist@.len() + st.rdist@.len()) + 4 * j,
            ) == #[trigger] st.icc@[j],
        v3_body_ok(bs, 1),
        v3_body_end(bs, 1) == bs.len(),
{
    let body = enc_v3_body(st);
    lemma_enc32s_props(st.dist@);
    lemma_enc32s_props(st.rdist@);
    lemma_enc32s_props(st.icc@);
    assert(bs[0] == TAG_GICV3) by {
        assert(bs[0] == (seq![TAG_GICV3] + body)[0]);
    }
    assert forall|i: int| 0 <= i < body.len() implies bs[1 + i] == #[trigger] body[i] by {
        assert(bs[1 + i] == (seq![TAG_GICV3] + body)[1 + i]);
    }
    assert(bs.subrange(1, 1 + body.len() as int) =~= body);
    lemma_v3_body_parts(st, bs, 1);
}

/// An encoded GICv3 record is well-shaped.
pub proof fn lemma_enc_v3_shape(st: Gicv3State)
    requires
        st.dist@.len() < 0x1_0000_0000,
        st.rdist@.len() < 0x1_0000_0000,
        st.icc@.len() < 0x1_0000_0000,
    ensures
        v3_shape_ok(enc_v3(st)),
{
    lemma_v3_extract(st, enc_v3(st));
}

/// The encoding of a GICv3 record determines the record: two records with
/// the same encoding have the same fields.
pub proof fn lemma_enc_v3_injective(a: Gicv3State, b: Gicv3State)
    requires
        enc_v3(a) == enc_v3(b),
        a.dist@.len() < 0x1_0000_0000,
        a.rdist@.len() < 0x1_0000_0000,
        a.icc@.len() < 0x1_0000_0000,
        b.dist@.len() < 0x1_0000_0000,
        b.rdist@.len() < 0x1_0000_0000,
        b.icc@.len() < 0x1_0000_0000,
    ensures
        a.dist@ == b.dist@,
        a.rdist@ == b.rdist@,
        a.icc@ == b.icc@,
        a.gicd_ctlr == b.gicd_ctlr,
{
    let bs = enc_v3(a);
    lemma_v3_extract(a, bs);
    lemma_v3_extract(b, bs);
    assert(a.dist@ =~= b.dist@);
    assert(a.rdist@ =~= b.rdist@);
    assert(a.icc@ =~= b.icc@);
}

/// Index into a three-segment concatenation.
proof fn lemma_concat3_index(t1: Seq<u8>, t2: Seq<u8>, t3: Seq<u8>, i: int)
    requires
        0 <= i < t1.len() + t2.len() + t3.len(),
    ensures
        ({
            let s = t1 + t2 + t3;
            let n1 = t1.len() as int;
            let n2 = n1 + t2.len();
            &&& (i < n1 ==> s[i] == t1[i])
            &&& (n1 <= i < n2 ==> s[i] == t2[i - n1])
            &&& (n2 <= i ==> s[i] == t3[i - n2])
        }),
{
    let u2 = t1 + t2;
    let s = u2 + t3;
    if i < u2.len() {
        assert(s[i] == u2[i]);
    } else {
        assert(s[i] == t3[i - u2.len()]);
    }
}

/// What the ITS tail bytes say, byte for byte.
#[verifier::rlimit(100)]
proof fn lemma_its_tail_parts(st: Gicv3ITSState, b: Seq<u8>, q: int)
    requires
        0 <= q,
        st.its_baser@.len() == 8,
        q + 104 <= b.len(),
        b.subrange(q, q + 104) == enc_its_body(st),
    ensures
        word64_at(b, q) == st.its_ctlr,
        word64_at(b, q + 8) == st.its_iidr,
        word64_at(b, q + 16) == st.its_cbaser,
        word64_at(b, q + 24) == st.its_cwriter,
        word64_at(b, q + 32) == st.its_creadr,
        forall|j: int|
            0 <= j < 8 ==> word64_at(b, q + 40 + 8 * j) == #[trigger] st.its_baser@[j],
{
    let tail = enc_its_body(st);
    let t1 = le64(st.its_ctlr);
    let t2 = le64(st.its_iidr);
    let t3 = le64(st.its_cbaser);
    let t4 = le64(st.its_cwriter);
    let t5 = le64(st.its_creadr);
    let t6 = enc64s(st.its_baser@);
    let t7 = Seq::<u8>::empty();
    lemma_enc64s_props(st.its_baser@);
    assert(tail.len() == 104);
    assert(tail =~= t1 + t2 + t3 + t4 + t5 + t6 + t7);
    assert forall|i: int| 0 <= i < 104 implies b[q + i] == #[trigger] tail[i] by {
        assert(tail[i] == b.subrange(q, q + 104)[i]);
    }
    assert forall|i: int| 0 <= i < 8 implies tail[i] == t1[i] && tail[8 + i] == t2[i] && tail[16
        + i] == t3[i] && tail[24 + i] == t4[i] && tail[32 + i] == t5[i] by {
        lemma_concat7_index(t1, t2, t3, t4, t5, t6, t7, i);
        lemma_concat7_index(t1, t2, t3, t4, t5, t6, t7, 8 + i);
        lemma_concat7_index(t1, t2, t3, t4, t5, t6, t7, 16 + i);
        lemma_concat7_index(t1, t2, t3, t4, t5, t6, t7, 24 + i);
        lemma_concat7_index(t1, t2, t3, t4, t5, t6, t7, 32 + i);
    }
    lemma_le64_round(st.its_ctlr);
    lemma_le64_round(st.its_iidr);
    lemma_le64_round(st.its_cbaser);
    lemma_le64_round(st.its_cwriter);
    lemma_le64_round(st.its_creadr);
    assert(word64_at(b, q) == word64_of(t1[0], t1[1], t1[2], t1[3], t1[4], t1[5], t1[6], t1[7]));
    assert(word64_at(b, q + 8) == word64_of(t2[0], t2[1], t2[2], t2[3], t2[4], t2[5], t2[6], t2[7]));
    assert(word64_at(b, q + 16) == word64_of(t3[0], t3[1], t3[2], t3[3], t3[4], t3[5], t3[6], t3[7]));
    assert(word64_at(b, q + 24) == word64_of(t4[0], t4[1], t4[2], t4[3], t4[4], t4[5], t4[6], t4[7]));
    assert(word64_at(b, q + 32) == word64_of(t5[0], t5[1], t5[2], t5[3], t5[4], t5[5], t5[6], t5[7]));
    assert forall|j: int| 0 <= j < 8 implies word64_at(b, q + 40 + 8 * j)
        == #[trigger] st.its_baser@[j] by {
        assert forall|c: int| 0 <= c < 8 implies tail[40 + 8 * j + c] == le64(
            st.its_baser@[j],
        )[c] by {
            lemma_concat7_index(t1, t2, t3, t4, t5, t6, t7, 40 + 8 * j + c);
            vstd::arithmetic::div_mod::lemma_fundamental_div_mod_converse(8 * j + c, 8, j, c);
            assert(t6[8 * j + c] == le64(st.its_baser@[(8 * j + c) / 8])[(8 * j + c) % 8]);
        }
        lemma_le64_round(st.its_baser@[j]);
    }
}

/// Where the GIC-block body sits inside an encoded GICv3-ITS record.
#[verifier::rlimit(100)]
proof fn lemma_its_body_slice(st: Gicv3ITSState, bs: Seq<u8>)
    requires
        bs == enc_its(st),
        st.gic.dist@.len() < 0x1_0000_0000,
        st.gic.rdist@.len() < 0x1_0000_0000,
        st.gic.icc@.len() < 0x1_0000_0000,
        st.its_baser@.len() == 8,
    ensures
        ({
            let q = 17 + 4 * (st.gic.dist@.len() + st.gic.rdist@.len() + st.gic.icc@.len()) as int;
            &&& bs.len() == q + 104
            &&& bs[0] == TAG_GICV3_ITS
            &&& bs.subrange(1, q) == enc_v3_body(st.gic)
            &&& bs.subrange(q, q + 104) == enc_its_body(st)
        }),
{
    let body = enc_v3_body(st.gic);
    let tail = enc_its_body(st);
    lemma_enc32s_props(st.gic.dist@);
    lemma_enc32s_props(st.gic.rdist@);
    lemma_enc32s_props(st.gic.icc@);
    lemma_enc64s_props(st.its_baser@);
    let q = 17 + 4 * (st.gic.dist@.len() + st.gic.rdist@.len() + st.gic.icc@.len()) as int;
    assert(bs[0] == TAG_GICV3_ITS) by {
        lemma_concat3_index(seq![TAG_GICV3_ITS], body, tail, 0);
    }
    assert forall|i: int| 0 <= i < body.len() implies bs[1 + i] == #[trigger] body[i] by {
        lemma_concat3_index(seq![TAG_GICV3_ITS], body, tail, 1 + i);
    }
    assert(bs.subrange(1, q) =~= body);
    assert forall|i: int| 0 <= i < 104 implies bs[q + i] == #[trigger] tail[i] by {
        lemma_concat3_index(seq![TAG_GICV3_ITS], body, tail, q + i);
    }
    assert(bs.subrange(q, q + 104) =~= tail);
}

/// The GIC-block half of an encoded GICv3-ITS record.
#[verifier::rlimit(100)]
proof fn lemma_its_extract_gic(st: Gicv3ITSState, bs: Seq<u8>)
    requires
        bs == enc_its(st),
        st.gic.dist@.len() < 0x1_0000_0000,
        st.gic.rdist@.len() < 0x1_0000_0000,
        st.gic.icc@.len() < 0x1_0000_0000,
        st.its_baser@.len() == 8,
    ensures
        ({
            let q = 17 + 4 * (st.gic.dist@.len() + st.gic.rdist@.len() + st.gic.icc@.len()) as int;
            &&& bs.len() == q + 104
            &&& bs[0] == TAG_GICV3_ITS
            &&& word32_at(bs, 1) as int == st.gic.dist@.len()
            &&& word32_at(bs, 5 + 4 * st.gic.dist@.len() as int) as int == st.gic.rdist@.len()
            &&& word32_at(bs, 9 + 4 * (st.gic.dist@.len() + st.gic.rdist@.len()) as int) as int
                == st.gic.icc@.len()
            &&& word32_at(bs, q - 4) == st.gic.gicd_ctlr
            &&& (forall|j: int|
                0 <= j < st.gic.dist@.len() ==> word32_at(bs, 5 + 4 * j)
                    == #[trigger] st.gic.dist@[j])
            &&& (forall|j: int|
                0 <= j < st.gic.rdist@.len() ==> word32_at(bs, 9 + 4 * st.gic.dist@.len() + 4 * j)
                    == #[trigger] st.gic.rdist@[j])
            &&& (forall|j: int|
                0 <= j < st.gic.icc@.len() ==> word32_at(
                    bs,
                    13 + 4 * (st.gic.dist@.len() + st.gic.rdist@.len()) + 4 * j,
                ) == #[trigger] st.gic.icc@[j])
            &&& v3_body_ok(bs, 1)
            &&& v3_body_end(bs, 1) == q
        }),
{
    lemma_its_body_slice(st, bs);
    lemma_enc32s_props(st.gic.dist@);
    lemma_enc32s_props(st.gic.rdist@);
    lemma_enc32s_props(st.gic.icc@);
    lemma_v3_body_parts(st.gic, bs, 1);
}

/// The ITS half of an encoded GICv3-ITS record.
#[verifier::rlimit(100)]
proof fn lemma_its_extract_tail(st: Gicv3ITSState, bs: Seq<u8>)
    requires
        bs == enc_its(st),
        st.gic.dist@.len() < 0x1_0000_0000,
        st.gic.rdist@.len() < 0x1_0000_0000,
        st.gic.icc@.len() < 0x1_0000_0000,
        st.its_baser@.len() == 8,
    ensures
        ({
            let q = 17 + 4 * (st.gic.dist@.len() + st.gic.rdist@.len() + st.gic.icc@.len()) as int;
            &&& word64_at(bs, q) == st.its_ctlr
            &&& word64_at(bs, q + 8) == st.its_iidr
            &&& word64_at(bs, q + 16) == st.its_cbaser
            &&& word64_at(bs, q + 24) == st.its_cwriter
            &&& word64_at(bs, q + 32) == st.its_creadr
            &&& (forall|j: int|
                0 <= j < 8 ==> word64_at(bs, q + 40 + 8 * j) == #[trigger] st.its_baser@[j])
        }),
{
    lemma_its_body_slice(st, bs);
    let q = 17 + 4 * (st.gic.dist@.len() + st.gic.rdist@.len() + st.gic.icc@.len()) as int;
    lemma_its_tail_parts(st, bs, q);
}

/// An encoded GICv3-ITS record is well-shaped.
pub proof fn lemma_enc_its_shape(st: Gicv3ITSState)
    requires
        st.gic.dist@.len() < 0x1_0000_0000,
        st.gic.rdist@.len() < 0x1_0000_0000,
        st.gic.icc@.len() < 0x1_0000_0000,
        st.its_baser@.len() == 8,
    ensures
        its_shape_ok(enc_its(st)),
{
    lemma_its_extract_gic(st, enc_its(st));
}

/// The encoding of a GICv3-ITS record determines the record.
pub proof fn lemma_enc_its_injective(a: Gicv3ITSState, b: Gicv3ITSState)
    requires
        enc_its(a) == enc_its(b),
        a.gic.dist@.len() < 0x1_0000_0000,
        a.gic.rdist@.len() < 0x1_0000_0000,
        a.gic.icc@.len() < 0x1_0000_0000,
        a.its_baser@.len() == 8,
        b.gic.dist@.len() < 0x1_0000_0000,
        b.gic.rdist@.len() < 0x1_0000_0000,
        b.gic.icc@.len() < 0x1_0000_0000,
        b.its_baser@.len() == 8,
    ensures
        a.gic.dist@ == b.gic.dist@,
        a.gic.rdist@ == b.gic.rdist@,
        a.gic.icc@ == b.gic.icc@,
        a.gic.gicd_ctlr == b.gic.gicd_ctlr,
        a.its_ctlr == b.its_ctlr,
        a.its_iidr == b.its_iidr,
        a.its_cbaser == b.its_cbaser,
        a.its_cwriter == b.its_cwriter,
        a.its_creadr == b.its_creadr,
        a.its_baser@ == b.its_baser@,
{
    let bs = enc_its(a);
    lemma_its_extract_gic(a, bs);
    lemma_its_extract_gic(b, bs);
    lemma_its_extract_tail(a, bs);
    lemma_its_extract_tail(b, bs);
    assert(a.gic.dist@ =~= b.gic.dist@);
    assert(a.gic.rdist@ =~= b.gic.rdist@);
    assert(a.gic.icc@ =~= b.gic.icc@);
    assert(a.its_baser@ =~= b.its_baser@);
}

/// Read the 32-bit word at `p`.
fn read_u32_at(bytes: &Vec<u8>, p: usize) -> (r: u32)
    requires
        p + 4 <= bytes@.len(),
    ensures
        r == word32_at(bytes@, p as int),
{
    let n: usize = bytes.len();
    (bytes[p] as u32) | ((bytes[p + 1] as u32) << 8u32) | ((bytes[p + 2] as u32) << 16u32) | ((
    bytes[p + 3] as u32) << 24u32)
}

/// Read the 64-bit word at `p`.
fn read_u64_at(bytes: &Vec<u8>, p: usize) -> (r: u64)
    requires
        p + 8 <= bytes@.len(),
    ensures
        r == word64_at(bytes@, p as int),
{
    let n: usize = bytes.len();
    (bytes[p] as u64) | ((bytes[p + 1] as u64) << 8u64) | ((bytes[p + 2] as u64) << 16u64) | ((
    bytes[p + 3] as u64) << 24u64) | ((bytes[p + 4] as u64) << 32u64) | ((bytes[p + 5] as u64)
        << 40u64) | ((bytes[p + 6] as u64) << 48u64) | ((bytes[p + 7] as u64) << 56u64)
}

/// Parse `count` little-endian words starting at `p`.  Succeeds exactly
/// when the bytes suffice; the parsed words re-encode to the consumed bytes.
fn parse_words32(bytes: &Vec<u8>, p: usize, count: u32) -> (r: Option<Vec<u32>>)
    requires
        p <= bytes@.len(),
    ensures
        r is Some <==> p + 4 * count <= bytes@.len(),
        r matches Some(w) ==> w@.len() == count && enc32s(w@) == bytes@.subrange(
            p as int,
            p + 4 * count,
        ),
{
    if ((bytes.len() - p) as u64) < 4 * (count as u64) {
        return None;
    }
    let n: usize = bytes.len();
    let mut w: Vec<u32> = Vec::new();
    let mut i: usize = 0;
    while i < count as usize
        invariant
            bytes@.len() == n,
            p + 4 * count <= bytes@.len(),
            i <= count,
            w@.len() == i,
            enc32s(w@) == bytes@.subrange(p as int, p + 4 * i),
        decreases count - i,
    {
        let pos: usize = p + 4 * i;
        let x = read_u32_at(bytes, pos);
        proof {
            let ghost b = bytes@;
            lemma_le32_of_bytes(
                b[pos as int],
                b[pos as int + 1],
                b[pos as int + 2],
                b[pos as int + 3],
            );
            assert(le32(x) =~= b.subrange(pos as int, pos as int + 4));
        }
        let ghost w0 = w@;
        w.push(x);
        proof {
            assert(w@.drop_last() =~= w0);
            assert(enc32s(w@) =~= bytes@.subrange(p as int, p + 4 * (i + 1)));
        }
        i = i + 1;
    }
    Some(w)
}

/// Parse `count` little-endian 64-bit words starting at `p`.
fn parse_words64(bytes: &Vec<u8>, p: usize, count: u32) -> (r: Option<Vec<u64>>)
    requires
        p <= bytes@.len(),
    ensures
        r is Some <==> p + 8 * count <= bytes@.len(),
        r matches Some(w) ==> w@.len() == count && enc64s(w@) == bytes@.subrange(
            p as int,
            p + 8 * count,
        ),
{
    if ((bytes.len() - p) as u64) < 8 * (count as u64) {
        return None;
    }
    let n: usize = bytes.len();
    let mut w: Vec<u64> = Vec::new();
    let mut i: usize = 0;
    while i < count as usize
        invariant
            bytes@.len() == n,
            p + 8 * count <= bytes@.len(),
            i <= count,
            w@.len() == i,
            enc64s(w@) == bytes@.subrange(p as int, p + 8 * i),
        decreases count - i,
    {
        let pos: usize = p + 8 * i;
        let x = read_u64_at(bytes, pos);
        proof {
            let ghost b = bytes@;
            lemma_le64_of_bytes(
                b[pos as int],
                b[pos as int + 1],
                b[pos as int + 2],
                b[pos as int + 3],
                b[pos as int + 4],
                b[pos as int + 5],
                b[pos as int + 6],
                b[pos as int + 7],
            );
            assert(le64(x) =~= b.subrange(pos as int, pos as int + 8));
        }
        let ghost w0 = w@;
        w.push(x);
        proof {
            assert(w@.drop_last() =~= w0);
            assert(enc64s(w@) =~= bytes@.subrange(p as int, p + 8 * (i + 1)));
        }
        i = i + 1;
    }
    Some(w)
}

/// Parse one GIC-block body starting at `p`.  Succeeds exactly when the
/// body shape is well-formed there.
fn parse_v3_body(bytes: &Vec<u8>, p: usize) -> (r: Option<(Gicv3State, usize)>)
    requires
        p <= bytes@.len(),
    ensures
        r is Some <==> v3_body_ok(bytes@, p as int),
        r matches Some(sq) ==> ({
            &&& enc_v3_body(sq.0) == bytes@.subrange(p as int, sq.1 as int)
            &&& sq.1 as int == v3_body_end(bytes@, p as int)
            &&& sq.1 <= bytes@.len()
            &&& sq.0.dist@.len() < 0x1_0000_0000
            &&& sq.0.rdist@.len() < 0x1_0000_0000
            &&& sq.0.icc@.len() < 0x1_0000_0000
        }),
{
    if bytes.len() - p < 4 {
        return None;
    }
    let nd = read_u32_at(bytes, p);
    let dist = match parse_words32(bytes, p + 4, nd) {
        Some(w) => w,
        None => {
            return None;
        },
    };
    let p1: usize = p + 4 + 4 * (nd as usize);
    if bytes.len() - p1 < 4 {
        return None;
    }
    let nr = read_u32_at(bytes, p1);
    let rdist = match parse_words32(bytes, p1 + 4, nr) {
        Some(w) => w,
        None => {
            return None;
        },
    };
    let p2: usize = p1 + 4 + 4 * (nr as usize);
    if bytes.len() - p2 < 4 {
        return None;
    }
    let ni = read_u32_at(bytes, p2);
    let icc = match parse_words32(bytes, p2 + 4, ni) {
        Some(w) => w,
        None => {
            return None;
        },
    };
    let p3: usize = p2 + 4 + 4 * (ni as usize);
    if bytes.len() - p3 < 4 {
        return None;
    }
    let gicd_ctlr = read_u32_at(bytes, p3);
    let q: usize = p3 + 4;
    let st = Gicv3State { dist, rdist, icc, gicd_ctlr };
    proof {
        let b = bytes@;
        let pi = p as int;
        lemma_le32_of_bytes(b[pi], b[pi + 1], b[pi + 2], b[pi + 3]);
        assert(le32(nd) =~= b.subrange(pi, pi + 4));
        lemma_le32_of_bytes(b[p1 as int], b[p1 as int + 1], b[p1 as int + 2], b[p1 as int + 3]);
        assert(le32(nr) =~= b.subrange(p1 as int, p1 as int + 4));
        lemma_le32_of_bytes(b[p2 as int], b[p2 as int + 1], b[p2 as int + 2], b[p2 as int + 3]);
        assert(le32(ni) =~= b.subrange(p2 as int, p2 as int + 4));
        lemma_le32_of_bytes(b[p3 as int], b[p3 as int + 1], b[p3 as int + 2], b[p3 as int + 3]);
        assert(le32(gicd_ctlr) =~= b.subrange(p3 as int, p3 as int + 4));
        assert(st.dist@.len() as u32 == nd);
        assert(st.rdist@.len() as u32 == nr);
        assert(st.icc@.len() as u32 == ni);
        assert(enc_v3_body(st) =~= b.subrange(pi, q as int));
    }
    Some((st, q))
}

/// Deserialize a GICv3 state record.  Succeeds exactly on well-shaped
/// bytes, and every accepted input is the encoding of its result.
pub fn decode_gicv3_state(bytes: &Vec<u8>) -> (r: Option<Gicv3State>)
    ensures
        r is Some <==> v3_shape_ok(bytes@),
        r matches Some(st) ==> ({
            &&& bytes@ == enc_v3(st)
            &&& st.dist@.len() < 0x1_0000_0000
            &&& st.rdist@.len() < 0x1_0000_0000
            &&& st.icc@.len() < 0x1_0000_0000
        }),
{
    if bytes.len() < 1 {
        return None;
    }
    if bytes[0] != TAG_GICV3 {
        return None;
    }
    let (st, q) = match parse_v3_body(bytes, 1) {
        Some(sq) => sq,
        None => {
            return None;
        },
    };
    if q != bytes.len() {
        return None;
    }
    proof {
        assert(bytes@ =~= enc_v3(st));
    }
    Some(st)
}

/// Deserialize a GICv3-ITS state record.  Succeeds exactly on well-shaped
/// bytes, and every accepted input is the encoding of its result.
#[verifier::rlimit(60)]
pub fn decode_gicv3_its_state(bytes: &Vec<u8>) -> (r: Option<Gicv3ITSState>)
    ensures
        r is Some <==> its_shape_ok(bytes@),
        r matches Some(st) ==> ({
            &&& bytes@ == enc_its(st)
            &&& st.gic.dist@.len() < 0x1_0000_0000
            &&& st.gic.rdist@.len() < 0x1_0000_0000
            &&& st.gic.icc@.len() < 0x1_0000_0000
            &&& st.its_baser@.len() == 8
        }),
{
    if bytes.len() < 1 {
        return None;
    }
    if bytes[0] != TAG_GICV3_ITS {
        return None;
    }
    let (gic, q) = match parse_v3_body(bytes, 1) {
        Some(sq) => sq,
        None => {
            return None;
        },
    };
    if bytes.len() - q != 104 {
        return None;
    }
    let its_ctlr = read_u64_at(bytes, q);
    let its_iidr = read_u64_at(bytes, q + 8);
    let its_cbaser = read_u64_at(bytes, q + 16);
    let its_cwriter = read_u64_at(bytes, q + 24);
    let its_creadr = read_u64_at(bytes, q + 32);
    let its_baser = match parse_words64(bytes, q + 40, 8) {
        Some(w) => w,
        None => {
            proof {
                assert(false);
            }
            return None;
        },
    };
    let st = Gicv3ITSState { gic, its_ctlr, its_iidr, its_cbaser, its_cwriter, its_creadr, its_baser };
    proof {
        let b = bytes@;
        let qi = q as int;
        lemma_le64_at(b, qi, its_ctlr);
        lemma_le64_at(b, qi + 8, its_iidr);
        lemma_le64_at(b, qi + 16, its_cbaser);
        lemma_le64_at(b, qi + 24, its_cwriter);
        lemma_le64_at(b, qi + 32, its_creadr);
        lemma_assemble_its(b, st, qi);
    }
    Some(st)
}

/// One named payload inside a snapshot.
pub struct SnapshotDataSection {
    /// The section's name.
    pub id: String,
    /// The serialized state record.
    pub snapshot: Vec<u8>,
}

/// A named snapshot: an identifier and its data sections.
pub struct Snapshot {
    /// The snapshot's identifier.
    pub id: String,
    /// The data sections, in the order they were added.
    pub sections: Vec<SnapshotDataSection>,
}

/// A capture/restore engine failure of either device variant.
#[derive(Clone, Copy, Debug, PartialEq, Eq)]
pub enum GicError {
    /// A failure of the plain GICv3 engine.
    V3(crate::gicv3::Error),
    /// A failure of the GICv3-ITS engine.
    Its(crate::gicv3_its::Error),
}

/// Errors of the snapshot/restore entry points.
#[derive(Clone, Copy, Debug, PartialEq, Eq)]
pub enum MigratableError {
    /// The register capture failed; the payload names class and direction.
    Snapshot(GicError),
    /// The register restore failed; the payload names class and direction.
    Restore(GicError),
    /// The snapshot holds no section under the expected name.  No register
    /// was touched and no deserialization was attempted.
    SectionNotFound,
    /// The section's bytes are not a well-formed state record.  No register
    /// was touched.
    DeserializeFailed,
}

/// Whether some section of `s` carries the name `id`.
pub open spec fn has_section(s: Snapshot, id: Seq<char>) -> bool {
    exists|i: int| 0 <= i < s.sections@.len() && #[trigger] s.sections@[i].id@ == id
}

impl Snapshot {
    /// An empty snapshot under the given identifier.
    pub fn new(id: &str) -> (r: Snapshot)
        ensures
            r.id@ == id@,
            r.sections@.len() == 0,
    {
        Snapshot { id: id.to_owned(), sections: Vec::new() }
    }

    /// Append one data section.
    pub fn add_data_section(&mut self, section: SnapshotDataSection)
        ensures
            final(self).id@ == old(self).id@,
            final(self).sections@ == old(self).sections@.push(section),
    {
        self.sections.push(section);
    }

    /// Find a section by name.
    pub fn find_section(&self, id: &String) -> (r: Option<usize>)
        ensures
            r matches Some(i) ==> i < self.sections@.len() && self.sections@[i as int].id@ == id@,
            r is None ==> !has_section(*self, id@),
    {
        let mut i: usize = 0;
        while i < self.sections.len()
            invariant
                i <= self.sections@.len(),
                forall|j: int| 0 <= j < i ==> #[trigger] self.sections@[j].id@ != id@,
            decreases self.sections@.len() - i,
        {
            if self.sections[i].id == *id {
                return Some(i);
            }
            i = i + 1;
        }
        None
    }
}

} // verus!
