//! Byte-order, checksum and alignment helpers shared by the bootloader.

use vstd::prelude::*;
use vstd::slice::slice_subrange;

verus! {

/// `256^n`.
pub open spec fn pow256(n: nat) -> nat
    decreases n,
{
    if n == 0 {
        1
    } else {
        256 * pow256((n - 1) as nat)
    }
}

/// The number that `bytes` spells in little-endian order: byte `i` weighs `256^i`.
pub open spec fn le_value(bytes: Seq<u8>) -> nat
    decreases bytes.len(),
{
    if bytes.len() == 0 {
        0
    } else {
        le_value(bytes.drop_last()) + bytes.last() as nat * pow256((bytes.len() - 1) as nat)
    }
}

/// A little-endian byte string of length `n` spells a number below `256^n`.
pub proof fn lemma_le_value_bound(bytes: Seq<u8>)
    ensures
        le_value(bytes) < pow256(bytes.len()),
    decreases bytes.len(),
{
    if bytes.len() > 0 {
        lemma_le_value_bound(bytes.drop_last());
        let n = (bytes.len() - 1) as nat;
        assert(bytes.last() as nat * pow256(n) <= 255 * pow256(n)) by (nonlinear_arith)
            requires
                bytes.last() as nat <= 255,
        ;
    }
}

/// The first powers of 256, written out.
pub proof fn lemma_pow256_small()
    ensures
        pow256(0) == 1,
        pow256(1) == 0x100,
        pow256(2) == 0x1_0000,
        pow256(3) == 0x100_0000,
        pow256(4) == 0x1_0000_0000,
{
    reveal_with_fuel(pow256, 5);
}

proof fn lemma_or_shifted_byte(value: u32, byte: u8, i: u32)
    requires
        i < 4,
        value < pow256(i as nat),
    ensures
        value | ((byte as u32) << (i * 8)) == value + byte * pow256(i as nat),
{
    lemma_pow256_small();
    let b = byte as u32;
    if i == 0 {
        assert(value == 0 ==> value | (b << 0) == b) by (bit_vector);
    } else if i == 1 {
        assert(value < 0x100 && b < 0x100 ==> value | (b << 8) == value + b * 0x100)
            by (bit_vector);
    } else if i == 2 {
        assert(value < 0x1_0000 && b < 0x100 ==> value | (b << 16) == value + b * 0x1_0000)
            by (bit_vector);
    } else {
        assert(value < 0x100_0000 && b < 0x100 ==> value | (b << 24) == value + b * 0x100_0000)
            by (bit_vector);
    }
}

/// Reads up to four bytes as a little-endian number.
pub fn bytes_to_u32(bytes: &[u8]) -> (value: u32)
    requires
        bytes@.len() <= 4,
    ensures
        value == le_value(bytes@),
{
    let mut value: u32 = 0;
    let mut i: usize = 0;
    while i < bytes.len()
        invariant
            i <= bytes@.len() <= 4,
            value == le_value(bytes@.take(i as int)),
        decreases bytes@.len() - i,
    {
        let byte: u8 = bytes[i];
        let shift: u32 = (i as u32) * 8;
        proof {
            lemma_le_value_bound(bytes@.take(i as int));
            lemma_or_shifted_byte(value, byte, i as u32);
            assert(bytes@.take(i + 1).drop_last() == bytes@.take(i as int));
        }
        value = value | ((byte as u32) << shift);
        i += 1;
    }
    proof {
        assert(bytes@.take(i as int) == bytes@);
    }
    value
}

/// The four little-endian bytes of `value`.
pub open spec fn le_bytes(value: u32) -> Seq<u8> {
    seq![
        (value % 0x100) as u8,
        ((value / 0x100) % 0x100) as u8,
        ((value / 0x1_0000) % 0x100) as u8,
        (value / 0x100_0000) as u8,
    ]
}

/// Splits a number into its four little-endian bytes.
pub fn u32_to_bytes(value: u32) -> (bytes: [u8; 4])
    ensures
        bytes@ == le_bytes(value),
        le_value(bytes@) == value,
{
    let b0: u8 = (value & 0xFF) as u8;
    let b1: u8 = ((value >> 8) & 0xFF) as u8;
    let b2: u8 = ((value >> 16) & 0xFF) as u8;
    let b3: u8 = ((value >> 24) & 0xFF) as u8;
    let bytes: [u8; 4] = [b0, b1, b2, b3];
    proof {
        assert(value & 0xFF == value % 0x100) by (bit_vector);
        assert((value >> 8) & 0xFF == (value / 0x100) % 0x100) by (bit_vector);
        assert((value >> 16) & 0xFF == (value / 0x1_0000) % 0x100) by (bit_vector);
        assert((value >> 24) & 0xFF == value / 0x100_0000) by (bit_vector);
        lemma_le_value_of_four(bytes@);
        assert(bytes@ =~= le_bytes(value));
    }
    bytes
}

/// The value of a four-byte string, written out.
pub proof fn lemma_le_value_of_four(bytes: Seq<u8>)
    requires
        bytes.len() == 4,
    ensures
        le_value(bytes) == bytes[0] + 0x100 * bytes[1] + 0x1_0000 * bytes[2] + 0x100_0000
            * bytes[3],
{
    lemma_pow256_small();
    let s3 = bytes.drop_last();
    let s2 = s3.drop_last();
    let s1 = s2.drop_last();
    let s0 = s1.drop_last();
    assert(s0.len() == 0);
    assert(le_value(s0) == 0);
    assert(le_value(s1) == le_value(s0) + bytes[0] as nat * pow256(0));
    assert(le_value(s2) == le_value(s1) + bytes[1] as nat * pow256(1));
    assert(le_value(s3) == le_value(s2) + bytes[2] as nat * pow256(2));
    assert(le_value(bytes) == le_value(s3) + bytes[3] as nat * pow256(3));
}

/// Word `index` of `bytes`: the four bytes from `4 * index`, little-endian.
pub open spec fn word_at(bytes: Seq<u8>, index: int) -> u32 {
    le_value(bytes.subrange(4 * index, 4 * index + 4)) as u32
}

/// Exclusive-or of the first `count` words of `bytes`.
pub open spec fn xor_words(bytes: Seq<u8>, count: nat) -> u32
    decreases count,
{
    if count == 0 {
        0
    } else {
        xor_words(bytes, (count - 1) as nat) ^ word_at(bytes, count - 1)
    }
}

/// The checksum of `bytes`: the exclusive-or of its whole little-endian words.
/// Bytes after the last whole word do not count.
pub open spec fn xor_checksum(bytes: Seq<u8>) -> u32 {
    xor_words(bytes, bytes.len() / 4)
}

/// Computes the exclusive-or checksum of `data`.
pub fn calculate_checksum(data: &[u8]) -> (checksum: u32)
    ensures
        checksum == xor_checksum(data@),
{
    let words: usize = data.len() / 4;
    let mut checksum: u32 = 0;
    let mut i: usize = 0;
    while i < words
        invariant
            words == data@.len() / 4,
            data@.len() <= usize::MAX,
            i <= words,
            checksum == xor_words(data@, i as nat),
        decreases words - i,
    {
        assert(4 * i + 4 <= data@.len());
        let word = bytes_to_u32(slice_subrange(data, 4 * i, 4 * i + 4));
        proof {
            lemma_le_value_bound(data@.subrange(4 * i, 4 * i + 4));
            lemma_pow256_small();
        }
        checksum = checksum ^ word;
        i += 1;
    }
    checksum
}

/// Two byte strings of the same length that differ in exactly one byte have
/// different checksums, as long as that byte lies in a whole word.
pub proof fn lemma_checksum_detects_changed_byte(before: Seq<u8>, after: Seq<u8>, index: int)
    requires
        before.len() == after.len(),
        0 <= index < 4 * (before.len() / 4),
        before[index] != after[index],
        forall|i: int| 0 <= i < before.len() && i != index ==> before[i] == after[i],
    ensures
        xor_checksum(before) != xor_checksum(after),
{
    let w = index / 4;
    let x = word_at(before, w);
    let y = word_at(after, w);
    assert(x != y) by {
        let p = before.subrange(4 * w, 4 * w + 4);
        let q = after.subrange(4 * w, 4 * w + 4);
        lemma_le_value_of_four(p);
        lemma_le_value_of_four(q);
        let k = index - 4 * w;
        assert(p[k] == before[index]);
        assert(q[k] == after[index]);
        assert(forall|j: int| 0 <= j < 4 && j != k ==> p[j] == q[j]);
    }
    lemma_xor_words_changed_word(before, after, w, (before.len() / 4) as nat);
    let a = xor_words(before, (before.len() / 4) as nat);
    let b = xor_words(after, (before.len() / 4) as nat);
    assert(a ^ b == x ^ y ==> x != y ==> a != b) by (bit_vector);
}

proof fn lemma_xor_words_changed_word(before: Seq<u8>, after: Seq<u8>, w: int, count: nat)
    requires
        before.len() == after.len(),
        0 <= w,
        count <= before.len() / 4,
        forall|i: int| 0 <= i < before.len() && !(4 * w <= i < 4 * w + 4) ==> before[i] == after[i],
    ensures
        count <= w ==> xor_words(before, count) == xor_words(after, count),
        count > w ==> xor_words(before, count) ^ xor_words(after, count) == word_at(before, w)
            ^ word_at(after, w),
    decreases count,
{
    if count > 0 {
        let n: int = count - 1;
        lemma_xor_words_changed_word(before, after, w, n as nat);
        let p = xor_words(before, n as nat);
        let q = xor_words(after, n as nat);
        let x = word_at(before, n);
        let y = word_at(after, n);
        if n != w {
            assert(before.subrange(4 * n, 4 * n + 4) =~= after.subrange(4 * n, 4 * n + 4));
            assert(x == y);
            assert((p ^ x) ^ (q ^ x) == p ^ q) by (bit_vector);
        } else {
            assert(p == q);
            assert((p ^ x) ^ (p ^ y) == x ^ y) by (bit_vector);
        }
    } else {
        assert(0u32 ^ 0u32 == 0u32) by (bit_vector);
    }
}

/// The checksum of erased flash: nothing for an even number of whole words,
/// and one erased word for an odd number.
pub proof fn lemma_checksum_of_erased(bytes: Seq<u8>)
    requires
        all_erased(bytes),
    ensures
        xor_checksum(bytes) == if (bytes.len() / 4) % 2 == 0 {
            0u32
        } else {
            0xFFFF_FFFFu32
        },
{
    lemma_xor_words_of_erased(bytes, (bytes.len() / 4) as nat);
}

proof fn lemma_xor_words_of_erased(bytes: Seq<u8>, count: nat)
    requires
        all_erased(bytes),
        count <= bytes.len() / 4,
    ensures
        xor_words(bytes, count) == if count % 2 == 0 {
            0u32
        } else {
            0xFFFF_FFFFu32
        },
    decreases count,
{
    if count > 0 {
        let last: int = count - 1;
        lemma_xor_words_of_erased(bytes, last as nat);
        let word = bytes.subrange(4 * last, 4 * last + 4);
        lemma_le_value_of_four(word);
        assert(word[0] == 0xFF && word[1] == 0xFF && word[2] == 0xFF && word[3] == 0xFF);
        assert(word_at(bytes, last) == 0xFFFF_FFFFu32);
        assert(0u32 ^ 0xFFFF_FFFFu32 == 0xFFFF_FFFFu32) by (bit_vector);
        assert(0xFFFF_FFFFu32 ^ 0xFFFF_FFFFu32 == 0u32) by (bit_vector);
    }
}

/// One step of the bitwise CRC-32 division: shift right, and fold in the
/// reflected polynomial where a one fell out.
pub open spec fn crc32_shift(crc: u32) -> u32 {
    if crc & 1 == 1 {
        (crc >> 1) ^ 0xEDB8_8320
    } else {
        crc >> 1
    }
}

/// `steps` division steps in a row.
pub open spec fn crc32_shifts(crc: u32, steps: nat) -> u32
    decreases steps,
{
    if steps == 0 {
        crc
    } else {
        crc32_shift(crc32_shifts(crc, (steps - 1) as nat))
    }
}

/// The CRC-32 register after `data` has gone through it.
pub open spec fn crc32_register(data: Seq<u8>) -> u32
    decreases data.len(),
{
    if data.len() == 0 {
        0xFFFF_FFFF
    } else {
        crc32_shifts(crc32_register(data.drop_last()) ^ (data.last() as u32), 8)
    }
}

/// CRC-32 of `data`: reflected polynomial `0xEDB88320`, register preset to all
/// ones, result inverted.
pub open spec fn crc32(data: Seq<u8>) -> u32 {
    crc32_register(data) ^ 0xFFFF_FFFF
}

/// Calculate CRC32 of data
pub fn calculate_crc32(data: &[u8]) -> (crc: u32)
    ensures
        crc == crc32(data@),
{
    let mut register: u32 = 0xFFFF_FFFF;
    let mut i: usize = 0;
    while i < data.len()
        invariant
            i <= data@.len(),
            register == crc32_register(data@.take(i as int)),
        decreases data@.len() - i,
    {
        let start: u32 = register ^ (data[i] as u32);
        register = start;
        let mut bit: u8 = 0;
        while bit < 8
            invariant
                bit <= 8,
                register == crc32_shifts(start, bit as nat),
            decreases 8 - bit,
        {
            if register & 1 == 1 {
                register = (register >> 1) ^ 0xEDB8_8320;
            } else {
                register = register >> 1;
            }
            bit += 1;
        }
        proof {
            assert(data@.take(i + 1).drop_last() == data@.take(i as int));
        }
        i += 1;
    }
    proof {
        assert(data@.take(i as int) == data@);
    }
    register ^ 0xFFFF_FFFF
}

/// Verify firmware checksum
pub fn verify_checksum(data: &[u8], expected_checksum: u32) -> (matches: bool)
    ensures
        matches == (crc32(data@) == expected_checksum),
{
    let calculated = calculate_crc32(data);
    calculated == expected_checksum
}

/// A buffer of `length` zero bytes.
pub fn zeroed(length: usize) -> (buffer: Vec<u8>)
    ensures
        buffer@ == Seq::new(length as nat, |i: int| 0u8),
{
    let mut buffer: Vec<u8> = Vec::new();
    while buffer.len() < length
        invariant
            buffer@.len() <= length,
            forall|i: int| 0 <= i < buffer@.len() ==> buffer@[i] == 0,
        decreases length - buffer@.len(),
    {
        buffer.push(0);
    }
    assert(buffer@ =~= Seq::new(length as nat, |i: int| 0u8));
    buffer
}

/// Whether every byte of `data` reads as erased flash.
pub open spec fn all_erased(data: Seq<u8>) -> bool {
    forall|i: int| 0 <= i < data.len() ==> data[i] == 0xFF
}

/// Tells whether `data` is erased flash throughout.
pub fn is_flash_erased(data: &[u8]) -> (erased: bool)
    ensures
        erased == all_erased(data@),
{
    let mut i: usize = 0;
    while i < data.len()
        invariant
            i <= data@.len(),
            forall|j: int| 0 <= j < i ==> data@[j] == 0xFF,
        decreases data@.len() - i,
    {
        if data[i] != 0xFF {
            return false;
        }
        i += 1;
    }
    true
}

/// Tells whether `address` is a multiple of `alignment`.
pub fn is_address_aligned(address: u32, alignment: u32) -> (aligned: bool)
    requires
        alignment != 0,
    ensures
        aligned == (address % alignment == 0),
{
    address % alignment == 0
}

/// The bytes of a number spell that number.
pub proof fn lemma_le_value_of_le_bytes(value: u32)
    ensures
        le_value(le_bytes(value)) == value,
{
    let bytes = le_bytes(value);
    lemma_le_value_of_four(bytes);
    let whole = value as int;
    let above0 = whole / 0x100;
    let above1 = above0 / 0x100;
    let above2 = above1 / 0x100;
    assert(whole == whole % 0x100 + 0x100 * above0);
    assert(above0 == above0 % 0x100 + 0x100 * above1);
    assert(above1 == above1 % 0x100 + 0x100 * above2);
    assert(above1 == whole / 0x1_0000);
    assert(above2 == whole / 0x100_0000);
    assert(above2 < 0x100);
    assert(bytes[0] as int == whole % 0x100);
    assert(bytes[1] as int == above0 % 0x100);
    assert(bytes[2] as int == above1 % 0x100);
    assert(bytes[3] as int == above2);
}

/// A number of the form `low + 256 * rest` has `low` as its lowest byte and
/// `rest` above it.
proof fn lemma_lowest_byte(low: int, rest: int)
    requires
        0 <= low < 256,
        0 <= rest,
    ensures
        (low + 256 * rest) % 256 == low,
        (low + 256 * rest) / 256 == rest,
{
}

/// A four-byte string is the bytes of the number that it spells.
pub proof fn lemma_le_bytes_of_le_value(bytes: Seq<u8>)
    requires
        bytes.len() == 4,
    ensures
        le_value(bytes) <= u32::MAX,
        le_bytes(le_value(bytes) as u32) == bytes,
{
    lemma_le_value_of_four(bytes);
    let b0 = bytes[0] as int;
    let b1 = bytes[1] as int;
    let b2 = bytes[2] as int;
    let b3 = bytes[3] as int;
    let value = le_value(bytes) as int;
    let above0 = b1 + 256 * (b2 + 256 * b3);
    let above1 = b2 + 256 * b3;
    assert(value == b0 + 256 * above0);
    lemma_lowest_byte(b0, above0);
    lemma_lowest_byte(b1, above1);
    lemma_lowest_byte(b2, b3);
    assert(value / 0x100 == above0);
    assert(above0 / 0x100 == above1);
    assert(value / 0x1_0000 == above1);
    assert(above1 / 0x100 == b3);
    assert(value / 0x100_0000 == b3);
    let spelled = le_bytes(value as u32);
    assert(spelled[0] == bytes[0]);
    assert(spelled[1] == bytes[1]);
    assert(spelled[2] == bytes[2]);
    assert(spelled[3] == bytes[3]);
    assert(spelled =~= bytes);
}

} // verus!
