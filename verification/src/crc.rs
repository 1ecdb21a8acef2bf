//! The CRC-32 checksum that guards every chunk of a PNG stream.

use vstd::prelude::*;

verus! {

/// The reversed generator polynomial of CRC-32.
pub const POLYNOMIAL: u32 = 0xedb8_8320;

/// One shift of the checksum register: the low bit leaves, and where it was
/// set the polynomial is folded in.
pub open spec fn shift_once(register: u32) -> u32 {
    if register & 1 == 1 {
        (register >> 1) ^ POLYNOMIAL
    } else {
        register >> 1
    }
}

/// The register after one more byte: the byte is folded into the low eight
/// bits, then the register is shifted eight times.
pub open spec fn absorb(register: u32, byte: u8) -> u32 {
    shift_once(
        shift_once(
            shift_once(
                shift_once(
                    shift_once(shift_once(shift_once(shift_once(register ^ (byte as u32))))),
                ),
            ),
        ),
    )
}

/// The register after the first `n` bytes of `data`, starting from all ones.
pub open spec fn register_after(data: Seq<u8>, n: nat) -> u32
    recommends
        n <= data.len(),
    decreases n,
{
    if n == 0 {
        0xffff_ffffu32
    } else {
        absorb(register_after(data, (n - 1) as nat), data[n - 1])
    }
}

/// The CRC-32 of `data`: the register after all of it, inverted.
pub open spec fn crc32(data: Seq<u8>) -> u32 {
    register_after(data, data.len()) ^ 0xffff_ffffu32
}

/// One shift of the checksum register.
fn shift(register: u32) -> (next: u32)
    ensures
        next == shift_once(register),
{
    if register & 1 == 1 {
        (register >> 1) ^ POLYNOMIAL
    } else {
        register >> 1
    }
}

/// The register after one more byte.
pub fn absorb_byte(register: u32, byte: u8) -> (next: u32)
    ensures
        next == absorb(register, byte),
{
    shift(shift(shift(shift(shift(shift(shift(shift(register ^ (byte as u32)))))))))
}

/// The CRC-32 of the bytes of `data` from `start` up to `end`.
pub fn checksum(data: &[u8], start: usize, end: usize) -> (sum: u32)
    requires
        start <= end <= data@.len(),
    ensures
        sum == crc32(data@.subrange(start as int, end as int)),
{
    let ghost part = data@.subrange(start as int, end as int);
    let mut register: u32 = 0xffff_ffff;
    let mut i: usize = start;
    while i < end
        invariant
            start <= i <= end <= data@.len(),
            part == data@.subrange(start as int, end as int),
            register == register_after(part, (i - start) as nat),
        decreases end - i,
    {
        register = absorb_byte(register, data[i]);
        i += 1;
    }
    register ^ 0xffff_ffff
}

/// Two registers that shift to the same value are the same: the top bit of
/// the result tells whether the polynomial was folded in.
pub proof fn lemma_shift_once_injective(a: u32, b: u32)
    requires
        shift_once(a) == shift_once(b),
    ensures
        a == b,
{
    assert(a == b) by (bit_vector)
        requires
            (if a & 1 == 1 {
                (a >> 1) ^ 0xedb8_8320u32
            } else {
                a >> 1
            }) == (if b & 1 == 1 {
                (b >> 1) ^ 0xedb8_8320u32
            } else {
                b >> 1
            }),
    ;
}

/// Eight shifts keep two different registers apart.
proof fn lemma_eight_shifts_injective(a: u32, b: u32)
    requires
        shift_once(shift_once(shift_once(shift_once(shift_once(shift_once(shift_once(shift_once(a))))))))
            == shift_once(
            shift_once(shift_once(shift_once(shift_once(shift_once(shift_once(shift_once(b))))))),
        ),
    ensures
        a == b,
{
    let a1 = shift_once(a);
    let a2 = shift_once(a1);
    let a3 = shift_once(a2);
    let a4 = shift_once(a3);
    let a5 = shift_once(a4);
    let a6 = shift_once(a5);
    let a7 = shift_once(a6);
    let b1 = shift_once(b);
    let b2 = shift_once(b1);
    let b3 = shift_once(b2);
    let b4 = shift_once(b3);
    let b5 = shift_once(b4);
    let b6 = shift_once(b5);
    let b7 = shift_once(b6);
    lemma_shift_once_injective(a7, b7);
    lemma_shift_once_injective(a6, b6);
    lemma_shift_once_injective(a5, b5);
    lemma_shift_once_injective(a4, b4);
    lemma_shift_once_injective(a3, b3);
    lemma_shift_once_injective(a2, b2);
    lemma_shift_once_injective(a1, b1);
    lemma_shift_once_injective(a, b);
}

/// The same byte takes two different registers to two different registers.
pub proof fn lemma_absorb_keeps_registers_apart(a: u32, b: u32, byte: u8)
    requires
        a != b,
    ensures
        absorb(a, byte) != absorb(b, byte),
{
    let v = byte as u32;
    if absorb(a, byte) == absorb(b, byte) {
        lemma_eight_shifts_injective(a ^ v, b ^ v);
        assert(a == b) by (bit_vector)
            requires
                a ^ v == b ^ v,
        ;
    }
}

/// Two different bytes take the same register to two different registers.
pub proof fn lemma_absorb_tells_bytes_apart(register: u32, x: u8, y: u8)
    requires
        x != y,
    ensures
        absorb(register, x) != absorb(register, y),
{
    if absorb(register, x) == absorb(register, y) {
        lemma_eight_shifts_injective(register ^ (x as u32), register ^ (y as u32));
        assert(x == y) by (bit_vector)
            requires
                register ^ (x as u32) == register ^ (y as u32),
        ;
    }
}

/// Where two byte strings of one length differ at `at` and nowhere else,
/// their registers agree up to `at` and differ from there on.
proof fn lemma_registers_diverge(data: Seq<u8>, changed: Seq<u8>, at: int, n: nat)
    requires
        data.len() == changed.len(),
        0 <= at < data.len(),
        data[at] != changed[at],
        forall|j: int| 0 <= j < data.len() && j != at ==> data[j] == changed[j],
        n <= data.len(),
    ensures
        n <= at ==> register_after(data, n) == register_after(changed, n),
        n > at ==> register_after(data, n) != register_after(changed, n),
    decreases n,
{
    if n > 0 {
        let m = (n - 1) as nat;
        lemma_registers_diverge(data, changed, at, m);
        if m == at {
            lemma_absorb_tells_bytes_apart(register_after(data, m), data[at], changed[at]);
        } else if m > at {
            lemma_absorb_keeps_registers_apart(
                register_after(data, m),
                register_after(changed, m),
                data[m as int],
            );
        }
    }
}

/// CRC-32 tells apart any two byte strings of one length that differ in
/// exactly one byte.
pub proof fn lemma_single_change_detected(data: Seq<u8>, changed: Seq<u8>, at: int)
    requires
        data.len() == changed.len(),
        0 <= at < data.len(),
        data[at] != changed[at],
        forall|j: int| 0 <= j < data.len() && j != at ==> data[j] == changed[j],
    ensures
        crc32(data) != crc32(changed),
{
    lemma_registers_diverge(data, changed, at, data.len());
    let a = register_after(data, data.len());
    let b = register_after(changed, changed.len());
    assert(a ^ 0xffff_ffffu32 != b ^ 0xffff_ffffu32) by (bit_vector)
        requires
            a != b,
    ;
}

} // verus!
