//! Architected register enumerations.
//!
//! A capture or restore moves an ordered list of register words per register
//! class.  This module fixes those lists — they are the stable layout of the
//! state record — and proves that each list addresses pairwise-distinct
//! registers, which is what makes a restore followed by a capture read back
//! exactly what was written.
//!
//! The distributor list depends on the number of supported interrupt lines,
//! read from the distributor type register: a register bank that spends
//! `bpi` bits on each interrupt contributes one 32-bit word per 32/`bpi`
//! interrupts, starting at interrupt 32 (the first 32 are per-CPU and live in
//! the redistributors).  The redistributor and CPU-interface lists carry one
//! fixed block per vCPU, addressed by the affinity half of that vCPU's
//! redistributor type value, not by the vCPU index.

use vstd::prelude::*;

verus! {

/// Distributor control register offset.
pub const GICD_CTLR: u64 = 0x0000;

/// Distributor type register offset (read-only; sizes the enumeration).
pub const GICD_TYPER: u64 = 0x0004;

/// Distributor status register offset.
pub const GICD_STATUSR: u64 = 0x0010;

/// Interrupt group banks.
pub const GICD_IGROUPR: u64 = 0x0080;

/// Set-enable banks.
pub const GICD_ISENABLER: u64 = 0x0100;

/// Clear-enable banks.
pub const GICD_ICENABLER: u64 = 0x0180;

/// Set-pending banks.
pub const GICD_ISPENDR: u64 = 0x0200;

/// Clear-pending banks.
pub const GICD_ICPENDR: u64 = 0x0280;

/// Set-active banks.
pub const GICD_ISACTIVER: u64 = 0x0300;

/// Clear-active banks.
pub const GICD_ICACTIVER: u64 = 0x0380;

/// Priority banks (eight bits per interrupt).
pub const GICD_IPRIORITYR: u64 = 0x0400;

/// Configuration banks (two bits per interrupt).
pub const GICD_ICFGR: u64 = 0x0C00;

/// Affinity routing registers (64 bits per interrupt, two words each).
pub const GICD_IROUTER: u64 = 0x6000;

/// The words of one shared-interrupt register bank, for `lines * 32`
/// interrupt lines at `bpi` bits per interrupt: the bank's words covering
/// interrupts 32 and up.
pub open spec fn spi_range(base: u64, bpi: u64, lines: u64) -> Seq<u64> {
    Seq::new(
        (((lines - 1) * bpi) as nat),
        |i: int| (base + 4 * bpi + 4 * i) as u64,
    )
}

/// The ordered distributor register list for `lines * 32` interrupt lines.
/// This order is the layout of the distributor part of the state record.
pub open spec fn dist_attrs(lines: u64) -> Seq<u64> {
    seq![GICD_STATUSR] + spi_range(GICD_IGROUPR, 1, lines) + spi_range(GICD_ISENABLER, 1, lines)
        + spi_range(GICD_ICENABLER, 1, lines) + spi_range(GICD_ISPENDR, 1, lines) + spi_range(
        GICD_ICPENDR,
        1,
        lines,
    ) + spi_range(GICD_ISACTIVER, 1, lines) + spi_range(GICD_ICACTIVER, 1, lines) + spi_range(
        GICD_IPRIORITYR,
        8,
        lines,
    ) + spi_range(GICD_ICFGR, 2, lines) + spi_range(GICD_IROUTER, 64, lines)
}

/// A strictly increasing attribute list.
pub open spec fn strictly_inc(s: Seq<u64>) -> bool {
    forall|i: int, j: int| 0 <= i < j < s.len() ==> #[trigger] s[i] < #[trigger] s[j]
}

/// Every element lies in `[lo, hi]`.
pub open spec fn in_range(s: Seq<u64>, lo: int, hi: int) -> bool {
    forall|i: int| 0 <= i < s.len() ==> lo <= #[trigger] s[i] <= hi
}

/// Element formula and length of one shared-interrupt bank.
proof fn lemma_spi_range_elems(base: u64, bpi: u64, lines: u64)
    requires
        1 <= lines <= 32,
        1 <= bpi <= 64,
        base <= 0x6000,
    ensures
        spi_range(base, bpi, lines).len() == (lines - 1) * bpi,
        forall|i: int|
            0 <= i < spi_range(base, bpi, lines).len() ==> #[trigger] spi_range(
                base,
                bpi,
                lines,
            )[i] == base + 4 * bpi + 4 * i,
        strictly_inc(spi_range(base, bpi, lines)),
        in_range(spi_range(base, bpi, lines), base + 4 * bpi, base + 4 * bpi + 4 * ((lines - 1)
            * bpi - 1)),
{
    assert((lines - 1) * bpi <= 31 * 64) by (nonlinear_arith)
        requires
            1 <= lines <= 32,
            1 <= bpi <= 64,
    ;
    assert forall|i: int| 0 <= i < spi_range(base, bpi, lines).len() implies #[trigger] spi_range(
        base,
        bpi,
        lines,
    )[i] == base + 4 * bpi + 4 * i by {
        assert(base + 4 * bpi + 4 * i <= 0x6000 + 256 + 4 * (31 * 64 - 1));
    }
}

/// Concatenating an increasing list with a strictly larger increasing list
/// gives an increasing list.
proof fn lemma_concat_inc(s1: Seq<u64>, s2: Seq<u64>, lo1: int, hi1: int, lo2: int, hi2: int)
    requires
        strictly_inc(s1),
        strictly_inc(s2),
        in_range(s1, lo1, hi1),
        in_range(s2, lo2, hi2),
        hi1 < lo2,
        lo1 <= hi1 || s1.len() == 0,
        lo1 <= lo2,
        hi1 <= hi2,
    ensures
        strictly_inc(s1 + s2),
        in_range(s1 + s2, lo1, hi2),
{
    let s = s1 + s2;
    assert forall|i: int| 0 <= i < s.len() implies lo1 <= #[trigger] s[i] <= hi2 by {
        if i < s1.len() {
            assert(s[i] == s1[i]);
        } else {
            assert(s[i] == s2[i - s1.len()]);
        }
    }
    assert forall|i: int, j: int| 0 <= i < j < s.len() implies #[trigger] s[i] < #[trigger] s[j] by {
        if i < s1.len() {
            assert(s[i] == s1[i]);
        } else {
            assert(s[i] == s2[i - s1.len()]);
        }
        if j < s1.len() {
            assert(s[j] == s1[j]);
        } else {
            assert(s[j] == s2[j - s1.len()]);
        }
    }
}

/// The distributor list is strictly increasing — so pairwise distinct — and
/// every element lies strictly between the type register and the end of the
/// register frame.  In particular neither the control register (offset 0)
/// nor the type register (offset 4) is in the list.
pub proof fn lemma_dist_attrs_wf(lines: u64)
    requires
        1 <= lines <= 32,
    ensures
        strictly_inc(dist_attrs(lines)),
        in_range(dist_attrs(lines), 0x10, 0x7ffc),
{
    lemma_spi_range_elems(GICD_IGROUPR, 1, lines);
    lemma_spi_range_elems(GICD_ISENABLER, 1, lines);
    lemma_spi_range_elems(GICD_ICENABLER, 1, lines);
    lemma_spi_range_elems(GICD_ISPENDR, 1, lines);
    lemma_spi_range_elems(GICD_ICPENDR, 1, lines);
    lemma_spi_range_elems(GICD_ISACTIVER, 1, lines);
    lemma_spi_range_elems(GICD_ICACTIVER, 1, lines);
    lemma_spi_range_elems(GICD_IPRIORITYR, 8, lines);
    lemma_spi_range_elems(GICD_ICFGR, 2, lines);
    lemma_spi_range_elems(GICD_IROUTER, 64, lines);
    let s0 = seq![GICD_STATUSR];
    assert(strictly_inc(s0));
    assert(in_range(s0, 0x10, 0x10));
    let s1 = s0 + spi_range(GICD_IGROUPR, 1, lines);
    lemma_concat_inc(s0, spi_range(GICD_IGROUPR, 1, lines), 0x10, 0x10, 0x84, 0xfc);
    let s2 = s1 + spi_range(GICD_ISENABLER, 1, lines);
    lemma_concat_inc(s1, spi_range(GICD_ISENABLER, 1, lines), 0x10, 0xfc, 0x104, 0x17c);
    let s3 = s2 + spi_range(GICD_ICENABLER, 1, lines);
    lemma_concat_inc(s2, spi_range(GICD_ICENABLER, 1, lines), 0x10, 0x17c, 0x184, 0x1fc);
    let s4 = s3 + spi_range(GICD_ISPENDR, 1, lines);
    lemma_concat_inc(s3, spi_range(GICD_ISPENDR, 1, lines), 0x10, 0x1fc, 0x204, 0x27c);
    let s5 = s4 + spi_range(GICD_ICPENDR, 1, lines);
    lemma_concat_inc(s4, spi_range(GICD_ICPENDR, 1, lines), 0x10, 0x27c, 0x284, 0x2fc);
    let s6 = s5 + spi_range(GICD_ISACTIVER, 1, lines);
    lemma_concat_inc(s5, spi_range(GICD_ISACTIVER, 1, lines), 0x10, 0x2fc, 0x304, 0x37c);
    let s7 = s6 + spi_range(GICD_ICACTIVER, 1, lines);
    lemma_concat_inc(s6, spi_range(GICD_ICACTIVER, 1, lines), 0x10, 0x37c, 0x384, 0x3fc);
    let s8 = s7 + spi_range(GICD_IPRIORITYR, 8, lines);
    lemma_concat_inc(s7, spi_range(GICD_IPRIORITYR, 8, lines), 0x10, 0x3fc, 0x420, 0x7fc);
    let s9 = s8 + spi_range(GICD_ICFGR, 2, lines);
    lemma_concat_inc(s8, spi_range(GICD_ICFGR, 2, lines), 0x10, 0x7fc, 0xc08, 0xcfc);
    let s10 = s9 + spi_range(GICD_IROUTER, 64, lines);
    lemma_concat_inc(s9, spi_range(GICD_IROUTER, 64, lines), 0x10, 0xcfc, 0x6100, 0x7ffc);
    assert(dist_attrs(lines) == s10);
}

/// How long the distributor list is: one status word plus 81 words per
/// 32 interrupt lines past the first 32.
pub proof fn lemma_dist_attrs_len(lines: u64)
    requires
        1 <= lines <= 32,
    ensures
        dist_attrs(lines).len() == 1 + (lines - 1) * 81,
        dist_attrs(lines).len() <= 2512,
{
}

/// The per-redistributor word offsets, in record order: the control frame
/// (control, status, wake, property and pending table base registers, 64-bit
/// ones as two words), then the per-CPU interrupt frame 64 KiB above it.
pub open spec fn redist_offsets() -> Seq<u64> {
    seq![
        0x0000,
        0x0010,
        0x0014,
        0x0070,
        0x0074,
        0x0078,
        0x007c,
        0x10080,
        0x10100,
        0x10180,
        0x10200,
        0x10280,
        0x10300,
        0x10380,
        0x10400,
        0x10404,
        0x10408,
        0x1040c,
        0x10410,
        0x10414,
        0x10418,
        0x1041c,
        0x10c00,
        0x10c04,
    ]
}

/// CPU-interface system register: system register enable.
pub const SYS_ICC_SRE_EL1: u64 = 0xc665;

/// CPU-interface system register: control.
pub const SYS_ICC_CTLR_EL1: u64 = 0xc664;

/// CPU-interface system register: group 0 enable.
pub const SYS_ICC_IGRPEN0_EL1: u64 = 0xc666;

/// CPU-interface system register: group 1 enable.
pub const SYS_ICC_IGRPEN1_EL1: u64 = 0xc667;

/// CPU-interface system register: priority mask.
pub const SYS_ICC_PMR_EL1: u64 = 0xc230;

/// CPU-interface system register: group 0 binary point.
pub const SYS_ICC_BPR0_EL1: u64 = 0xc643;

/// CPU-interface system register: group 1 binary point.
pub const SYS_ICC_BPR1_EL1: u64 = 0xc663;

/// The per-vCPU CPU-interface register list, in record order.  The encoded
/// values pack the architectural `op0, op1, CRn, CRm, op2` fields with
/// shifts 14, 11, 7, 3 and 0; the four group 0 and four group 1 active
/// priority registers follow the binary point registers.
pub open spec fn icc_offsets() -> Seq<u64> {
    seq![
        SYS_ICC_SRE_EL1,
        SYS_ICC_CTLR_EL1,
        SYS_ICC_IGRPEN0_EL1,
        SYS_ICC_IGRPEN1_EL1,
        SYS_ICC_PMR_EL1,
        SYS_ICC_BPR0_EL1,
        SYS_ICC_BPR1_EL1,
        0xc644,
        0xc645,
        0xc646,
        0xc647,
        0xc648,
        0xc649,
        0xc64a,
        0xc64b,
    ]
}

/// The redistributor offsets are pairwise distinct and fit below the
/// affinity half of a block attribute.
pub proof fn lemma_redist_offsets_wf()
    ensures
        redist_offsets().len() == 24,
        forall|p: int, q: int|
            0 <= p < q < redist_offsets().len() ==> #[trigger] redist_offsets()[p]
                != #[trigger] redist_offsets()[q],
        forall|l: int|
            0 <= l < redist_offsets().len() ==> #[trigger] redist_offsets()[l] < 0x1_0000_0000,
{
}

/// The CPU-interface offsets are pairwise distinct and fit below the
/// affinity half of a block attribute.
pub proof fn lemma_icc_offsets_wf()
    ensures
        icc_offsets().len() == 15,
        forall|p: int, q: int|
            0 <= p < q < icc_offsets().len() ==> #[trigger] icc_offsets()[p]
                != #[trigger] icc_offsets()[q],
        forall|l: int| 0 <= l < icc_offsets().len() ==> #[trigger] icc_offsets()[l] < 0x1_0000_0000,
{
}

/// The attribute addressing one register of one vCPU's block: the affinity
/// half of the redistributor type value above the register offset.
pub open spec fn vcpu_attr(typer: u64, off: u64) -> u64 {
    ((typer >> 32u64) << 32u64) | off
}

/// The attribute list covering one block per vCPU, vCPU-major, in the order
/// of `offs` within each block.
pub open spec fn per_vcpu_attrs(typers: Seq<u64>, offs: Seq<u64>) -> Seq<u64> {
    Seq::new(
        typers.len() * offs.len(),
        |i: int| vcpu_attr(typers[i / (offs.len() as int)], offs[i % (offs.len() as int)]),
    )
}

/// Redistributors are told apart by the affinity half of their type values.
pub open spec fn distinct_affinities(typers: Seq<u64>) -> bool {
    forall|p: int, q: int|
        0 <= p < q < typers.len() ==> #[trigger] (typers[p] >> 32u64) != #[trigger] (typers[q]
            >> 32u64)
}

/// Two block attributes coincide exactly when both the affinity halves and
/// the offsets coincide.
proof fn lemma_vcpu_attr_inj(t1: u64, t2: u64, o1: u64, o2: u64)
    requires
        o1 < 0x1_0000_0000,
        o2 < 0x1_0000_0000,
    ensures
        (vcpu_attr(t1, o1) == vcpu_attr(t2, o2)) <==> (t1 >> 32u64 == t2 >> 32u64 && o1 == o2),
{
    assert((((t1 >> 32u64) << 32u64) | o1 == ((t2 >> 32u64) << 32u64) | o2) <==> (t1 >> 32u64 == t2
        >> 32u64 && o1 == o2)) by (bit_vector)
        requires
            o1 < 0x1_0000_0000u64,
            o2 < 0x1_0000_0000u64,
    ;
}

/// With distinct affinities and distinct in-block offsets below 2^32, the
/// per-vCPU attribute list is pairwise distinct.
pub proof fn lemma_per_vcpu_attrs_distinct(typers: Seq<u64>, offs: Seq<u64>)
    requires
        offs.len() > 0,
        distinct_affinities(typers),
        forall|p: int, q: int| 0 <= p < q < offs.len() ==> #[trigger] offs[p] != #[trigger] offs[q],
        forall|l: int| 0 <= l < offs.len() ==> #[trigger] offs[l] < 0x1_0000_0000,
    ensures
        forall|p: int, q: int|
            0 <= p < q < per_vcpu_attrs(typers, offs).len() ==> #[trigger] per_vcpu_attrs(
                typers,
                offs,
            )[p] != #[trigger] per_vcpu_attrs(typers, offs)[q],
{
    let s = per_vcpu_attrs(typers, offs);
    let ll = offs.len() as int;
    assert forall|p: int, q: int| 0 <= p < q < s.len() implies #[trigger] s[p] != #[trigger] s[q] by {
        lemma_index_decomposition(typers.len() as int, ll, p);
        lemma_index_decomposition(typers.len() as int, ll, q);
        lemma_vcpu_attr_inj(typers[p / ll], typers[q / ll], offs[p % ll], offs[q % ll]);
        if p / ll == q / ll {
            assert(p % ll != q % ll) by {
                vstd::arithmetic::div_mod::lemma_fundamental_div_mod(p, ll);
                vstd::arithmetic::div_mod::lemma_fundamental_div_mod(q, ll);
            }
        }
    }
}

/// A position below `n * ll` splits into a block index below `n` and an
/// offset index below `ll`.
proof fn lemma_index_decomposition(n: int, ll: int, i: int)
    requires
        0 < ll,
        0 <= i < n * ll,
    ensures
        0 <= i / ll < n,
        0 <= i % ll < ll,
{
    vstd::arithmetic::div_mod::lemma_fundamental_div_mod(i, ll);
    assert(0 <= i / ll < n) by (nonlinear_arith)
        requires
            0 < ll,
            0 <= i < n * ll,
            i == ll * (i / ll) + (i % ll),
            0 <= i % ll < ll,
    ;
}

/// Build the distributor attribute list.
pub fn dist_attr_vec(lines: u64) -> (v: Vec<u64>)
    requires
        1 <= lines <= 32,
    ensures
        v@ == dist_attrs(lines),
{
    let mut v: Vec<u64> = Vec::new();
    v.push(GICD_STATUSR);
    assert(v@ =~= seq![GICD_STATUSR]);
    push_spi_range(&mut v, GICD_IGROUPR, 1, lines);
    push_spi_range(&mut v, GICD_ISENABLER, 1, lines);
    push_spi_range(&mut v, GICD_ICENABLER, 1, lines);
    push_spi_range(&mut v, GICD_ISPENDR, 1, lines);
    push_spi_range(&mut v, GICD_ICPENDR, 1, lines);
    push_spi_range(&mut v, GICD_ISACTIVER, 1, lines);
    push_spi_range(&mut v, GICD_ICACTIVER, 1, lines);
    push_spi_range(&mut v, GICD_IPRIORITYR, 8, lines);
    push_spi_range(&mut v, GICD_ICFGR, 2, lines);
    push_spi_range(&mut v, GICD_IROUTER, 64, lines);
    v
}

/// Append one shared-interrupt bank's words.
fn push_spi_range(v: &mut Vec<u64>, base: u64, bpi: u64, lines: u64)
    requires
        1 <= lines <= 32,
        1 <= bpi <= 64,
        base <= 0x6000,
    ensures
        final(v)@ == old(v)@ + spi_range(base, bpi, lines),
{
    proof {
        lemma_spi_range_elems(base, bpi, lines);
        assert((lines - 1) * bpi <= 31 * 64) by (nonlinear_arith)
            requires
                1 <= lines <= 32,
                1 <= bpi <= 64,
        ;
    }
    let count: u64 = (lines - 1) * bpi;
    let mut i: u64 = 0;
    while i < count
        invariant
            count == (lines - 1) * bpi,
            count <= 31 * 64,
            1 <= bpi <= 64,
            base <= 0x6000,
            i <= count,
            spi_range(base, bpi, lines).len() == count,
            forall|j: int|
                0 <= j < count ==> #[trigger] spi_range(base, bpi, lines)[j] == base + 4 * bpi + 4
                    * j,
            v@ == old(v)@ + spi_range(base, bpi, lines).take(i as int),
        decreases count - i,
    {
        v.push(base + 4 * bpi + 4 * i);
        proof {
            assert(v@ =~= old(v)@ + spi_range(base, bpi, lines).take(i as int + 1));
        }
        i = i + 1;
    }
    proof {
        assert(spi_range(base, bpi, lines).take(count as int) =~= spi_range(base, bpi, lines));
    }
}

/// Build the per-redistributor word offsets.
pub fn redist_offset_vec() -> (v: Vec<u64>)
    ensures
        v@ == redist_offsets(),
{
    let v: Vec<u64> = vec![
        0x0000, 0x0010, 0x0014, 0x0070, 0x0074, 0x0078, 0x007c, 0x10080, 0x10100, 0x10180, 0x10200,
        0x10280, 0x10300, 0x10380, 0x10400, 0x10404, 0x10408, 0x1040c, 0x10410, 0x10414, 0x10418,
        0x1041c, 0x10c00, 0x10c04,
    ];
    assert(v@ =~= redist_offsets());
    v
}

/// Build the per-vCPU CPU-interface register list.
pub fn icc_offset_vec() -> (v: Vec<u64>)
    ensures
        v@ == icc_offsets(),
{
    let v: Vec<u64> = vec![
        SYS_ICC_SRE_EL1, SYS_ICC_CTLR_EL1, SYS_ICC_IGRPEN0_EL1, SYS_ICC_IGRPEN1_EL1,
        SYS_ICC_PMR_EL1, SYS_ICC_BPR0_EL1, SYS_ICC_BPR1_EL1, 0xc644, 0xc645, 0xc646, 0xc647,
        0xc648, 0xc649, 0xc64a, 0xc64b,
    ];
    assert(v@ =~= icc_offsets());
    v
}

/// Build the attribute list for one block per vCPU.
pub fn per_vcpu_attr_vec(typers: &Vec<u64>, offs: &Vec<u64>) -> (v: Vec<u64>)
    requires
        offs@.len() > 0,
    ensures
        v@ == per_vcpu_attrs(typers@, offs@),
{
    let ghost target = per_vcpu_attrs(typers@, offs@);
    let ll: usize = offs.len();
    let mut v: Vec<u64> = Vec::new();
    let mut k: usize = 0;
    while k < typers.len()
        invariant
            ll == offs@.len(),
            ll > 0,
            k <= typers@.len(),
            target == per_vcpu_attrs(typers@, offs@),
            target.len() == typers@.len() * ll,
            v@.len() == k * ll,
            forall|j: int| 0 <= j < v@.len() ==> #[trigger] v@[j] == target[j],
        decreases typers@.len() - k,
    {
        proof {
            assert((k + 1) * ll == k * ll + ll) by (nonlinear_arith);
            assert(k * ll + ll <= typers@.len() * ll) by (nonlinear_arith)
                requires
                    k < typers@.len(),
                    0 < ll,
            ;
        }
        let t: u64 = typers[k];
        let mut l: usize = 0;
        while l < ll
            invariant
                ll == offs@.len(),
                k < typers@.len(),
                t == typers@[k as int],
                l <= ll,
                target == per_vcpu_attrs(typers@, offs@),
                target.len() == typers@.len() * ll,
                k * ll + ll <= target.len(),
                v@.len() == k * ll + l,
                forall|j: int| 0 <= j < v@.len() ==> #[trigger] v@[j] == target[j],
            decreases ll - l,
        {
            let off: u64 = offs[l];
            let a: u64 = ((t >> 32u64) << 32u64) | off;
            proof {
                let idx = (k * ll + l) as int;
                vstd::arithmetic::div_mod::lemma_fundamental_div_mod_converse(
                    idx,
                    ll as int,
                    k as int,
                    l as int,
                );
                assert(target[idx] == vcpu_attr(typers@[k as int], offs@[l as int]));
            }
            v.push(a);
            l = l + 1;
        }
        k = k + 1;
    }
    proof {
        assert(v@ =~= target);
    }
    v
}

} // verus!
