use vstd::prelude::*;

use crate::error::{spec_unexpected_named, unexpected, UnexpectedValue};

verus! {

/// A decoded PCI base address register (BAR).
///
/// A BAR with bit 0 set maps a region of I/O space; its address is the
/// register with the two low bits cleared. Otherwise it maps memory: bits 1-2
/// give the memory type (`0b00` for a 32-bit address, `0b10` for a 64-bit
/// address whose upper half is held by the next BAR), bit 3 says whether the
/// region is prefetchable, and the address is the register with the four low
/// bits cleared.
#[derive(Copy, Clone, Debug, PartialEq, Eq)]
#[allow(inconsistent_fields)]
pub enum BaseAddress {
    /// A region of memory below 4 GiB.
    Memory32 { prefetchable: bool, addr: u32 },
    /// A region of memory anywhere in the 64-bit address space.
    Memory64 { prefetchable: bool, addr: u64 },
    /// A region of I/O space.
    Io(u32),
}

/// The field name reported for a memory BAR whose type bits are reserved.
pub const MEMORY_TYPE_FIELD: &'static str = "BAR memory type";

/// The field name reported for a 64-bit memory BAR that has no following
/// register to hold the upper half of its address.
pub const UPPER_HALF_FIELD: &'static str = "64-bit BAR upper half";

/// Whether a BAR maps I/O space.
pub open spec fn bar_is_io(bar: u32) -> bool {
    bar & 1 == 1
}

/// The memory type bits of a memory BAR.
pub open spec fn bar_memory_type(bar: u32) -> u32 {
    (bar >> 1u32) & 0b11
}

/// Whether a memory BAR is prefetchable.
pub open spec fn bar_prefetchable(bar: u32) -> bool {
    bar & 0b1000 != 0
}

/// The address held by an I/O BAR.
pub open spec fn bar_io_addr(bar: u32) -> u32 {
    bar & 0xFFFF_FFFC
}

/// The address held by a memory BAR (the low half, for a 64-bit BAR).
pub open spec fn bar_memory_addr(bar: u32) -> u32 {
    bar & 0xFFFF_FFF0
}

/// The address held by a 64-bit memory BAR `low` and the BAR `high` after it.
pub open spec fn bar_memory64_addr(low: u32, high: u32) -> u64 {
    (bar_memory_addr(low) as u64) | ((high as u64) << 32u64)
}

/// Puts `prefix` in front of a successfully decoded rest; passes errors on.
pub open spec fn prepend_decoded(
    prefix: Seq<Option<BaseAddress>>,
    rest: Result<Seq<Option<BaseAddress>>, UnexpectedValue<u32>>,
) -> Result<Seq<Option<BaseAddress>>, UnexpectedValue<u32>> {
    match rest {
        Ok(s) => Ok(prefix + s),
        Err(e) => Err(e),
    }
}

/// Decodes the BARs `bars[i..]`, one slot per register.
///
/// The slot of a register that holds the upper half of a 64-bit address is
/// `None`. The first register that cannot be decoded is reported: a memory
/// BAR with reserved type bits (`0b01` or `0b11`), or a 64-bit memory BAR in
/// the last slot.
pub open spec fn decode_bars_from(bars: Seq<u32>, i: int) -> Result<
    Seq<Option<BaseAddress>>,
    UnexpectedValue<u32>,
>
    decreases bars.len() - i,
{
    if i < 0 || i >= bars.len() {
        Ok(Seq::empty())
    } else {
        let bar = bars[i];
        if bar_is_io(bar) {
            prepend_decoded(seq![Some(BaseAddress::Io(bar_io_addr(bar)))], decode_bars_from(bars, i + 1))
        } else if bar_memory_type(bar) == 0 {
            prepend_decoded(
                seq![Some(BaseAddress::Memory32 { prefetchable: bar_prefetchable(bar), addr: bar_memory_addr(bar) })],
                decode_bars_from(bars, i + 1),
            )
        } else if bar_memory_type(bar) == 2 {
            if i + 1 < bars.len() {
                prepend_decoded(
                    seq![
                        Some(BaseAddress::Memory64 {
                            prefetchable: bar_prefetchable(bar),
                            addr: bar_memory64_addr(bar, bars[i + 1]),
                        }),
                        None,
                    ],
                    decode_bars_from(bars, i + 2),
                )
            } else {
                Err(spec_unexpected_named(bar, UPPER_HALF_FIELD))
            }
        } else {
            Err(spec_unexpected_named(bar, MEMORY_TYPE_FIELD))
        }
    }
}

/// Decodes a whole array of BARs.
pub open spec fn spec_decode_bars(bars: Seq<u32>) -> Result<Seq<Option<BaseAddress>>, UnexpectedValue<u32>> {
    decode_bars_from(bars, 0)
}

proof fn lemma_prepend_assoc(
    p: Seq<Option<BaseAddress>>,
    q: Seq<Option<BaseAddress>>,
    r: Result<Seq<Option<BaseAddress>>, UnexpectedValue<u32>>,
)
    ensures
        prepend_decoded(p, prepend_decoded(q, r)) == prepend_decoded(p + q, r),
{
    if let Ok(s) = r {
        assert(p + (q + s) =~= (p + q) + s);
    }
}

/// What slot `k` of `decoded` says of the registers `bars[i..]`: an I/O or
/// 32-bit memory slot describes its own register, a 64-bit memory slot
/// describes its register and the next one, and an empty slot is the upper
/// half of the 64-bit slot before it.
pub open spec fn slot_describes(bars: Seq<u32>, i: int, decoded: Seq<Option<BaseAddress>>, k: int) -> bool {
    let bar = bars[i + k];
    match decoded[k] {
        Some(BaseAddress::Io(addr)) => bar_is_io(bar) && addr == bar_io_addr(bar),
        Some(BaseAddress::Memory32 { prefetchable, addr }) => {
            &&& !bar_is_io(bar)
            &&& bar_memory_type(bar) == 0
            &&& prefetchable == bar_prefetchable(bar)
            &&& addr == bar_memory_addr(bar)
        },
        Some(BaseAddress::Memory64 { prefetchable, addr }) => {
            &&& !bar_is_io(bar)
            &&& bar_memory_type(bar) == 2
            &&& k + 1 < decoded.len()
            &&& decoded[k + 1] is None
            &&& prefetchable == bar_prefetchable(bar)
            &&& addr == bar_memory64_addr(bar, bars[i + k + 1])
        },
        None => k > 0 && decoded[k - 1] matches Some(BaseAddress::Memory64 { .. }),
    }
}

proof fn lemma_decode_from_slots(bars: Seq<u32>, i: int)
    requires
        0 <= i <= bars.len(),
        decode_bars_from(bars, i) is Ok,
    ensures
        decode_bars_from(bars, i)->Ok_0.len() == bars.len() - i,
        forall|k: int|
            0 <= k < bars.len() - i ==> #[trigger] slot_describes(bars, i, decode_bars_from(bars, i)->Ok_0, k),
    decreases bars.len() - i,
{
    if i < bars.len() {
        let bar = bars[i];
        let d = decode_bars_from(bars, i)->Ok_0;
        if bar_is_io(bar) || bar_memory_type(bar) == 0 {
            lemma_decode_from_slots(bars, i + 1);
            let rest = decode_bars_from(bars, i + 1)->Ok_0;
            assert forall|k: int| 0 <= k < bars.len() - i implies #[trigger] slot_describes(bars, i, d, k) by {
                if k > 0 {
                    assert(d[k] == rest[k - 1]);
                    assert(slot_describes(bars, i + 1, rest, k - 1));
                    if k > 1 {
                        assert(d[k - 1] == rest[k - 2]);
                    }
                    if k + 1 < d.len() {
                        assert(d[k + 1] == rest[k]);
                    }
                    assert(i + 1 + (k - 1) == i + k);
                    assert(i + 1 + (k - 1) + 1 == i + k + 1);
                }
            }
        } else {
            lemma_decode_from_slots(bars, i + 2);
            let rest = decode_bars_from(bars, i + 2)->Ok_0;
            assert forall|k: int| 0 <= k < bars.len() - i implies #[trigger] slot_describes(bars, i, d, k) by {
                if k > 1 {
                    assert(d[k] == rest[k - 2]);
                    assert(slot_describes(bars, i + 2, rest, k - 2));
                    if k > 2 {
                        assert(d[k - 1] == rest[k - 3]);
                    }
                    if k + 1 < d.len() {
                        assert(d[k + 1] == rest[k - 1]);
                    }
                    assert(i + 2 + (k - 2) == i + k);
                    assert(i + 2 + (k - 2) + 1 == i + k + 1);
                }
            }
        }
    }
}

/// A successful decode has one slot per register; each I/O or 32-bit memory
/// slot describes its own register, each 64-bit memory slot describes its
/// register together with the next one, and each empty slot is the upper
/// half of the 64-bit slot just before it.
pub proof fn lemma_decoded_slots(bars: Seq<u32>)
    requires
        spec_decode_bars(bars) is Ok,
    ensures
        spec_decode_bars(bars)->Ok_0.len() == bars.len(),
        forall|k: int| 0 <= k < bars.len() ==> #[trigger] slot_describes(bars, 0, spec_decode_bars(bars)->Ok_0, k),
{
    lemma_decode_from_slots(bars, 0);
}

/// Decoding fails exactly on a memory register with reserved type bits, or
/// on a 64-bit memory register whose upper half is missing; the error
/// carries the register's value.
pub proof fn lemma_decode_error(bars: Seq<u32>, i: int)
    requires
        0 <= i <= bars.len(),
        decode_bars_from(bars, i) is Err,
    ensures
        exists|k: int|
            i <= k < bars.len() && #[trigger] bars[k] == decode_bars_from(bars, i)->Err_0.value && !bar_is_io(bars[k]) && (
            bar_memory_type(bars[k]) == 1 || bar_memory_type(bars[k]) == 3 || (bar_memory_type(bars[k]) == 2 && k
                == bars.len() - 1)),
    decreases bars.len() - i,
{
    let bar = bars[i];
    if bar_is_io(bar) || bar_memory_type(bar) == 0 {
        lemma_decode_error(bars, i + 1);
    } else if bar_memory_type(bar) == 2 && i + 1 < bars.len() {
        lemma_decode_error(bars, i + 2);
    } else {
        assert(bar_memory_type(bar) < 4) by (bit_vector)
            requires bar_memory_type(bar) == (bar >> 1u32) & 0b11;
        assert(bars[i] == decode_bars_from(bars, i)->Err_0.value);
    }
}

/// The address of a 64-bit memory register pair: the low register's address
/// bits plus the high register shifted up by 32 bits.
pub proof fn lemma_memory64_addr(low: u32, high: u32)
    ensures
        bar_memory64_addr(low, high) as int == bar_memory_addr(low) as int + high as int * 0x1_0000_0000,
{
    let a = bar_memory_addr(low);
    assert(((a as u64) | ((high as u64) << 32u64)) == (a as u64) + (high as u64) * 0x1_0000_0000u64) by (bit_vector);
}

/// The bits of a register value in plain arithmetic: bit 0, the two memory
/// type bits 1-2, the prefetchable bit 3, and the value with its two or
/// four low bits cleared.
proof fn lemma_bar_bits_arith(v: u32)
    ensures
        bar_is_io(v) == (v % 2 == 1),
        bar_memory_type(v) == (v / 2) % 4,
        bar_prefetchable(v) == ((v / 8) % 2 == 1),
        bar_io_addr(v) == v - v % 4,
        bar_memory_addr(v) == v - v % 16,
{
    assert((v & 1 == 1) == (v % 2 == 1)) by (bit_vector);
    assert(((v >> 1u32) & 0b11) == (v / 2) % 4) by (bit_vector);
    assert((v & 0b1000 != 0) == ((v / 8) % 2 == 1)) by (bit_vector);
    assert((v & 0xFFFF_FFFC) == v - v % 4) by (bit_vector);
    assert((v & 0xFFFF_FFF0) == v - v % 16) by (bit_vector);
}

/// What slot `k` of a decode says of register `k`, in plain arithmetic on
/// the register values: an I/O slot is a register with bit 0 set, at that
/// value with the two low bits cleared; a 32-bit memory slot is a register
/// with bit 0 clear and type bits `0b00`, at that value with the four low
/// bits cleared and prefetchable when bit 3 is set; a 64-bit memory slot has
/// type bits `0b10`, takes the next register as the high 32 bits of its
/// address, and is followed by an empty slot; an empty slot follows a
/// 64-bit memory slot.
pub open spec fn slot_meaning(bars: Seq<u32>, decoded: Seq<Option<BaseAddress>>, k: int) -> bool {
    let v = bars[k] as int;
    match decoded[k] {
        Some(BaseAddress::Io(addr)) => v % 2 == 1 && addr as int == v - v % 4,
        Some(BaseAddress::Memory32 { prefetchable, addr }) => {
            &&& v % 2 == 0
            &&& (v / 2) % 4 == 0
            &&& prefetchable == ((v / 8) % 2 == 1)
            &&& addr as int == v - v % 16
        },
        Some(BaseAddress::Memory64 { prefetchable, addr }) => {
            &&& v % 2 == 0
            &&& (v / 2) % 4 == 2
            &&& k + 1 < decoded.len()
            &&& decoded[k + 1] is None
            &&& prefetchable == ((v / 8) % 2 == 1)
            &&& addr as int == v - v % 16 + bars[k + 1] as int * 0x1_0000_0000
        },
        None => k > 0 && decoded[k - 1] matches Some(BaseAddress::Memory64 { .. }),
    }
}

/// A successful decode has one slot per register, and every slot means what
/// the PCI BAR layout says of its register (see `slot_meaning`).
pub proof fn lemma_decoded_slot_meaning(bars: Seq<u32>)
    requires
        spec_decode_bars(bars) is Ok,
    ensures
        spec_decode_bars(bars)->Ok_0.len() == bars.len(),
        forall|k: int| 0 <= k < bars.len() ==> #[trigger] slot_meaning(bars, spec_decode_bars(bars)->Ok_0, k),
{
    let d = spec_decode_bars(bars)->Ok_0;
    lemma_decode_from_slots(bars, 0);
    assert forall|k: int| 0 <= k < bars.len() implies #[trigger] slot_meaning(bars, d, k) by {
        assert(slot_describes(bars, 0, d, k));
        lemma_bar_bits_arith(bars[k]);
        if let Some(BaseAddress::Memory64 { .. }) = d[k] {
            lemma_memory64_addr(bars[k], bars[k + 1]);
        }
    }
}

/// Decoding fails only on a register that is read as a memory BAR (bit 0
/// clear) and whose type bits are reserved (`0b01` or `0b11`), or are
/// `0b10` with no register after it; the error carries that register's
/// value.
pub proof fn lemma_decode_error_arith(bars: Seq<u32>)
    requires
        spec_decode_bars(bars) is Err,
    ensures
        exists|k: int|
            0 <= k < bars.len() && #[trigger] bars[k] == spec_decode_bars(bars)->Err_0.value && bars[k] % 2 == 0 && (
            (bars[k] / 2) % 4 == 1 || (bars[k] / 2) % 4 == 3 || ((bars[k] / 2) % 4 == 2 && k == bars.len() - 1)),
{
    lemma_decode_error(bars, 0);
    let k = choose|k: int|
        0 <= k < bars.len() && #[trigger] bars[k] == decode_bars_from(bars, 0)->Err_0.value && !bar_is_io(bars[k]) && (
        bar_memory_type(bars[k]) == 1 || bar_memory_type(bars[k]) == 3 || (bar_memory_type(bars[k]) == 2 && k
            == bars.len() - 1));
    lemma_bar_bits_arith(bars[k]);
}

/// Decoding from position `j` reads only the registers from `j` on.
proof fn lemma_decode_reads_suffix(a: Seq<u32>, b: Seq<u32>, j: int)
    requires
        a.len() == b.len(),
        0 <= j,
        forall|k: int| j <= k < a.len() ==> a[k] == b[k],
    ensures
        decode_bars_from(a, j) == decode_bars_from(b, j),
    decreases a.len() - j,
{
    if j < a.len() {
        assert(a[j] == b[j]);
        lemma_decode_reads_suffix(a, b, j + 1);
        if j + 1 < a.len() {
            assert(a[j + 1] == b[j + 1]);
            lemma_decode_reads_suffix(a, b, j + 2);
        }
    }
}

/// The register after a 64-bit memory BAR is only the upper half of that
/// BAR's address, never a BAR of its own: whatever value it holds, decoding
/// from the 64-bit BAR succeeds exactly when decoding the registers after
/// the pair succeeds, and then the BAR's slot holds its address with that
/// value as the high 32 bits, and the upper half's slot is empty.
pub proof fn lemma_upper_half_is_not_a_bar(bars: Seq<u32>, i: int, high: u32)
    requires
        0 <= i,
        i + 1 < bars.len(),
        bars[i] % 2 == 0,
        (bars[i] / 2) % 4 == 2,
    ensures
        decode_bars_from(bars.update(i + 1, high), i) is Ok <==> decode_bars_from(bars, i + 2) is Ok,
        decode_bars_from(bars.update(i + 1, high), i) matches Ok(d) ==> {
            &&& d.len() >= 2
            &&& d[0] matches Some(BaseAddress::Memory64 { prefetchable, addr }) && prefetchable
                == ((bars[i] / 8) % 2 == 1) && addr as int == bars[i] - bars[i] % 16 + high as int
                * 0x1_0000_0000
            &&& d[1] is None
        },
{
    let b2 = bars.update(i + 1, high);
    lemma_decode_reads_suffix(bars, b2, i + 2);
    lemma_memory64_addr(bars[i], high);
    lemma_bar_bits_arith(bars[i]);
    assert(b2[i] == bars[i]);
    assert(b2[i + 1] == high);
}

impl BaseAddress {
    /// Decodes an array of base address registers.
    ///
    /// Each register decodes into the slot at its own index; the register
    /// after a 64-bit memory BAR holds the upper half of that BAR's address,
    /// and its slot is `None`.
    pub fn decode_bars<const N: usize>(bars: &[u32; N]) -> (r: Result<
        [Option<BaseAddress>; N],
        UnexpectedValue<u32>,
    >)
        ensures
            match r {
                Ok(decoded) => spec_decode_bars(bars@) == Ok::<Seq<Option<BaseAddress>>, UnexpectedValue<u32>>(decoded@),
                Err(e) => spec_decode_bars(bars@) == Err::<Seq<Option<BaseAddress>>, UnexpectedValue<u32>>(e),
            },
    {
        let mut decoded: [Option<BaseAddress>; N] = [None; N];
        let mut i: usize = 0;
        assert(decoded@.take(0) =~= Seq::<Option<BaseAddress>>::empty());
        assert(decode_bars_from(bars@, 0) == prepend_decoded(decoded@.take(0), decode_bars_from(bars@, 0))) by {
            if let Ok(s) = decode_bars_from(bars@, 0) {
                assert(Seq::<Option<BaseAddress>>::empty() + s =~= s);
            }
        }
        while i < N
            invariant
                i <= N,
                bars@.len() == N,
                decoded@.len() == N,
                decode_bars_from(bars@, 0) == prepend_decoded(decoded@.take(i as int), decode_bars_from(bars@, i as int)),
            decreases N - i,
        {
            let ghost before = decoded@;
            let bar = bars[i];
            if bar & 1 == 1 {
                let x = Some(BaseAddress::Io(bar & 0xFFFF_FFFC));
                decoded[i] = x;
                proof {
                    assert(decoded@.take(i + 1) =~= before.take(i as int) + seq![x]);
                    lemma_prepend_assoc(before.take(i as int), seq![x], decode_bars_from(bars@, i + 1));
                }
                i = i + 1;
            } else {
                let memory_type = (bar >> 1u32) & 0b11;
                let prefetchable = bar & 0b1000 != 0;
                if memory_type == 0 {
                    let x = Some(BaseAddress::Memory32 { prefetchable, addr: bar & 0xFFFF_FFF0 });
                    decoded[i] = x;
                    proof {
                        assert(decoded@.take(i + 1) =~= before.take(i as int) + seq![x]);
                        lemma_prepend_assoc(before.take(i as int), seq![x], decode_bars_from(bars@, i + 1));
                    }
                    i = i + 1;
                } else if memory_type == 2 {
                    if i + 1 < N {
                        let high = bars[i + 1];
                        let addr: u64 = ((bar & 0xFFFF_FFF0) as u64) | ((high as u64) << 32u64);
                        let x = Some(BaseAddress::Memory64 { prefetchable, addr });
                        decoded[i] = x;
                        decoded[i + 1] = None;
                        proof {
                            assert(decoded@.take(i + 2) =~= before.take(i as int) + seq![x, None]);
                            lemma_prepend_assoc(before.take(i as int), seq![x, None], decode_bars_from(bars@, i + 2));
                        }
                        i = i + 2;
                    } else {
                        return Err(unexpected(bar).named(UPPER_HALF_FIELD));
                    }
                } else {
                    return Err(unexpected(bar).named(MEMORY_TYPE_FIELD));
                }
            }
        }
        assert(decoded@.take(N as int) =~= decoded@);
        assert(decode_bars_from(bars@, N as int) == Ok::<Seq<Option<BaseAddress>>, UnexpectedValue<u32>>(Seq::empty()));
        assert(decoded@ + Seq::<Option<BaseAddress>>::empty() =~= decoded@);
        Ok(decoded)
    }
}

} // verus!
