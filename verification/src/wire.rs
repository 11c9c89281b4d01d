//! Little-endian, fixed-width integers on the wire.
//!
//! Every numeric field of an instruction is a run of bytes, least significant
//! byte first, with no padding and no length prefix. This module says what
//! number such a run spells (`le_value`), which run spells a given number
//! (`le_bytes`), proves that the two undo each other, and gives the
//! executable readers and writers for the widths that the format uses.
use vstd::prelude::*;
use vstd::slice::slice_subrange;

verus! {

/// 256 to the power `n`: how many numbers `n` bytes can tell apart.
pub open spec fn pow256(n: nat) -> nat
    decreases n,
{
    if n == 0 {
        1
    } else {
        256 * pow256((n - 1) as nat)
    }
}

/// The number that the bytes of `s` spell, least significant byte first.
pub open spec fn le_value(s: Seq<u8>) -> nat
    decreases s.len(),
{
    if s.len() == 0 {
        0
    } else {
        s[0] as nat + 256 * le_value(s.skip(1))
    }
}

/// The `width` low-order bytes of `x`, least significant byte first.
pub open spec fn le_bytes(x: nat, width: nat) -> Seq<u8>
    decreases width,
{
    if width == 0 {
        Seq::empty()
    } else {
        seq![(x % 256) as u8] + le_bytes(x / 256, (width - 1) as nat)
    }
}

/// The number spelled by the `width` bytes of `s` that start at `at`.
pub open spec fn field(s: Seq<u8>, at: int, width: int) -> nat {
    le_value(s.subrange(at, at + width))
}

/// The 16-bit field of `s` at `at`.
pub open spec fn u16_at(s: Seq<u8>, at: int) -> u16 {
    field(s, at, 2) as u16
}

/// The 32-bit field of `s` at `at`.
pub open spec fn u32_at(s: Seq<u8>, at: int) -> u32 {
    field(s, at, 4) as u32
}

/// The 64-bit field of `s` at `at`.
pub open spec fn u64_at(s: Seq<u8>, at: int) -> u64 {
    field(s, at, 8) as u64
}

/// The 128-bit field of `s` at `at`.
pub open spec fn u128_at(s: Seq<u8>, at: int) -> u128 {
    field(s, at, 16) as u128
}

/// The powers of 256 at the widths of the format are the sizes of the
/// unsigned integer types of those widths.
pub proof fn lemma_pow256_widths()
    ensures
        pow256(0) == 1,
        pow256(1) == 0x100,
        pow256(2) == 0x1_0000,
        pow256(4) == 0x1_0000_0000,
        pow256(8) == 0x1_0000_0000_0000_0000,
        pow256(16) == 0x1_0000_0000_0000_0000_0000_0000_0000_0000,
{
    reveal_with_fuel(pow256, 17);
}

/// More bytes never tell fewer numbers apart.
pub proof fn lemma_pow256_monotonic(a: nat, b: nat)
    requires
        a <= b,
    ensures
        1 <= pow256(a) <= pow256(b),
    decreases b,
{
    if b == 0 {
    } else if a == b {
        lemma_pow256_monotonic((a - 1) as nat, (b - 1) as nat);
    } else {
        lemma_pow256_monotonic(a, (b - 1) as nat);
    }
}

/// `le_bytes` yields exactly `width` bytes.
pub proof fn lemma_le_bytes_len(x: nat, width: nat)
    ensures
        le_bytes(x, width).len() == width,
    decreases width,
{
    if width > 0 {
        lemma_le_bytes_len(x / 256, (width - 1) as nat);
    }
}

/// A run of `n` bytes spells a number below `256^n`.
pub proof fn lemma_le_value_bound(s: Seq<u8>)
    ensures
        le_value(s) < pow256(s.len()),
    decreases s.len(),
{
    if s.len() > 0 {
        lemma_le_value_bound(s.skip(1));
    }
}

/// Reading back what was written gives the number that was written, as long
/// as it fits the width.
pub proof fn lemma_le_value_of_le_bytes(x: nat, width: nat)
    requires
        x < pow256(width),
    ensures
        le_value(le_bytes(x, width)) == x,
    decreases width,
{
    if width > 0 {
        let rest = le_bytes(x / 256, (width - 1) as nat);
        let all = le_bytes(x, width);
        lemma_le_value_of_le_bytes(x / 256, (width - 1) as nat);
        assert(all.skip(1) =~= rest);
        assert(all[0] == (x % 256) as u8);
    }
}

/// Writing the number that a run spells, at the run's width, gives the run.
pub proof fn lemma_le_bytes_of_le_value(s: Seq<u8>)
    ensures
        le_bytes(le_value(s), s.len()) == s,
    decreases s.len(),
{
    if s.len() > 0 {
        lemma_le_bytes_of_le_value(s.skip(1));
        let x = le_value(s);
        assert(x % 256 == s[0] as nat);
        assert(x / 256 == le_value(s.skip(1)));
        assert(le_bytes(x, s.len()) =~= s);
    } else {
        assert(le_bytes(le_value(s), s.len()) =~= s);
    }
}

/// Reads the little-endian number that the whole of `input` spells.
pub fn read_le(input: &[u8]) -> (x: u128)
    requires
        input@.len() <= 16,
    ensures
        x == le_value(input@),
{
    let width: usize = input.len();
    let mut i: usize = width;
    let mut x: u128 = 0;
    proof {
        assert(input@.subrange(width as int, width as int) =~= Seq::<u8>::empty());
    }
    while i > 0
        invariant
            width == input@.len(),
            width <= 16,
            i <= width,
            x == le_value(input@.subrange(i as int, width as int)),
        decreases i,
    {
        proof {
            let tail = input@.subrange(i as int, width as int);
            lemma_le_value_bound(tail);
            lemma_pow256_monotonic(tail.len(), 15);
            reveal_with_fuel(pow256, 16);
            let next = input@.subrange(i - 1, width as int);
            assert(next.skip(1) =~= tail);
            assert(next[0] == input@[i - 1]);
        }
        i = i - 1;
        x = x * 256 + input[i] as u128;
    }
    proof {
        assert(input@.subrange(0, width as int) =~= input@);
    }
    x
}

/// Reads the 16-bit little-endian number that stands at `at` in `input`.
pub fn read_u16(input: &[u8], at: usize) -> (x: u16)
    requires
        at + 2 <= input@.len(),
    ensures
        x == field(input@, at as int, 2),
        x == u16_at(input@, at as int),
{
    assert(input.len() == input@.len());
    let run = slice_subrange(input, at, at + 2);
    proof {
        lemma_le_value_bound(run@);
        lemma_pow256_widths();
    }
    read_le(run) as u16
}

/// Reads the 32-bit little-endian number that stands at `at` in `input`.
pub fn read_u32(input: &[u8], at: usize) -> (x: u32)
    requires
        at + 4 <= input@.len(),
    ensures
        x == field(input@, at as int, 4),
        x == u32_at(input@, at as int),
{
    assert(input.len() == input@.len());
    let run = slice_subrange(input, at, at + 4);
    proof {
        lemma_le_value_bound(run@);
        lemma_pow256_widths();
    }
    read_le(run) as u32
}

/// Reads the 64-bit little-endian number that stands at `at` in `input`.
pub fn read_u64(input: &[u8], at: usize) -> (x: u64)
    requires
        at + 8 <= input@.len(),
    ensures
        x == field(input@, at as int, 8),
        x == u64_at(input@, at as int),
{
    assert(input.len() == input@.len());
    let run = slice_subrange(input, at, at + 8);
    proof {
        lemma_le_value_bound(run@);
        lemma_pow256_widths();
    }
    read_le(run) as u64
}

/// Reads the 128-bit little-endian number that stands at `at` in `input`.
pub fn read_u128(input: &[u8], at: usize) -> (x: u128)
    requires
        at + 16 <= input@.len(),
    ensures
        x == field(input@, at as int, 16),
        x == u128_at(input@, at as int),
{
    assert(input.len() == input@.len());
    let run = slice_subrange(input, at, at + 16);
    proof {
        lemma_le_value_bound(run@);
        lemma_pow256_widths();
    }
    read_le(run) as u128
}

/// Copies the `N` bytes that stand at `at` in `input` into an array.
pub fn array_at<const N: usize>(input: &[u8], at: usize) -> (run: [u8; N])
    requires
        at + N <= input@.len(),
    ensures
        run@ == input@.subrange(at as int, at + N),
{
    let mut run = [0u8; N];
    let mut i: usize = 0;
    assert(input.len() == input@.len());
    while i < N
        invariant
            i <= N,
            at + N <= input@.len() <= usize::MAX,
            run@.len() == N,
            forall|j: int| 0 <= j < i ==> run@[j] == input@[at + j],
        decreases N - i,
    {
        run[i] = input[at + i];
        i = i + 1;
    }
    proof {
        assert(run@ =~= input@.subrange(at as int, at + N));
    }
    run
}

/// Appends the `width` low-order bytes of `x` to `out`, least significant
/// byte first.
pub fn write_le(out: &mut Vec<u8>, x: u128, width: usize)
    ensures
        final(out)@ == old(out)@ + le_bytes(x as nat, width as nat),
{
    let ghost start = out@;
    let ghost mut written = Seq::<u8>::empty();
    let mut rest: u128 = x;
    let mut done: usize = 0;
    proof {
        assert(out@ =~= start + written);
        assert(written + le_bytes(x as nat, width as nat) =~= le_bytes(x as nat, width as nat));
    }
    while done < width
        invariant
            done <= width,
            out@ == start + written,
            written + le_bytes(rest as nat, (width - done) as nat) == le_bytes(
                x as nat,
                width as nat,
            ),
        decreases width - done,
    {
        let low: u8 = (rest % 256) as u8;
        out.push(low);
        proof {
            let tail = le_bytes((rest / 256) as nat, (width - done - 1) as nat);
            assert(written.push(low) + tail =~= written + le_bytes(
                rest as nat,
                (width - done) as nat,
            ));
            assert(out@ =~= start + written.push(low));
            written = written.push(low);
        }
        rest = rest / 256;
        done = done + 1;
    }
    proof {
        assert(written + Seq::<u8>::empty() =~= written);
    }
}

/// Appends `x` as 2 little-endian bytes.
pub fn write_u16(out: &mut Vec<u8>, x: u16)
    ensures
        final(out)@ == old(out)@ + le_bytes(x as nat, 2),
{
    write_le(out, x as u128, 2);
}

/// Appends `x` as 4 little-endian bytes.
pub fn write_u32(out: &mut Vec<u8>, x: u32)
    ensures
        final(out)@ == old(out)@ + le_bytes(x as nat, 4),
{
    write_le(out, x as u128, 4);
}

/// Appends `x` as 8 little-endian bytes.
pub fn write_u64(out: &mut Vec<u8>, x: u64)
    ensures
        final(out)@ == old(out)@ + le_bytes(x as nat, 8),
{
    write_le(out, x as u128, 8);
}

/// Appends `x` as 16 little-endian bytes.
pub fn write_u128(out: &mut Vec<u8>, x: u128)
    ensures
        final(out)@ == old(out)@ + le_bytes(x as nat, 16),
{
    write_le(out, x, 16);
}

} // verus!
