//! Unsigned integers as bytes, in the byte order of the machine.
use vstd::prelude::*;

verus! {

/// Which byte of an integer comes first.
#[derive(Debug, Clone, Copy, PartialEq, Eq, Structural)]
pub enum ByteOrder {
    Little,
    Big,
}

/// The bytes of a 16-bit integer, in an order.
pub open spec fn u16_bytes(x: u16, order: ByteOrder) -> Seq<u8> {
    let low = (x % 256) as u8;
    let high = (x / 256) as u8;
    match order {
        ByteOrder::Little => seq![low, high],
        ByteOrder::Big => seq![high, low],
    }
}

/// The byte order of the machine.
pub open spec fn machine_order() -> ByteOrder {
    match vstd::endian::endianness() {
        vstd::endian::Endian::Little => ByteOrder::Little,
        vstd::endian::Endian::Big => ByteOrder::Big,
    }
}

/// `zerocopy::IntoBytes::as_bytes` of a `u16`: the bytes of the integer as they lie in
/// memory, that is, in the byte order of the machine.
#[verifier::external_body]
fn memory_bytes(x: u16) -> (bytes: Vec<u8>)
    ensures
        bytes@ == u16_bytes(x, machine_order()),
{
    zerocopy::IntoBytes::as_bytes(&x).to_vec()
}

/// The byte order of the machine.
pub fn native_order() -> (order: ByteOrder)
    ensures
        order == machine_order(),
{
    let bytes = memory_bytes(1);
    if bytes[0] == 1 {
        ByteOrder::Little
    } else {
        ByteOrder::Big
    }
}

/// The bytes of a 32-bit integer, the least significant first.
pub open spec fn u32_digits(x: u32) -> Seq<u8> {
    seq![
        (x % 256) as u8,
        (x / 256 % 256) as u8,
        (x / 65536 % 256) as u8,
        (x / 16777216 % 256) as u8,
    ]
}

/// The bytes of a 64-bit integer, the least significant first.
pub open spec fn u64_digits(x: u64) -> Seq<u8> {
    u32_digits((x % 4294967296) as u32) + u32_digits((x / 4294967296) as u32)
}

/// `digits` in an order; they are given with the least significant first.
pub open spec fn ordered(digits: Seq<u8>, order: ByteOrder) -> Seq<u8> {
    match order {
        ByteOrder::Little => digits,
        ByteOrder::Big => digits.reverse(),
    }
}

/// The bytes of a 32-bit integer, in an order.
pub open spec fn u32_bytes(x: u32, order: ByteOrder) -> Seq<u8> {
    ordered(u32_digits(x), order)
}

/// The bytes of a 64-bit integer, in an order.
pub open spec fn u64_bytes(x: u64, order: ByteOrder) -> Seq<u8> {
    ordered(u64_digits(x), order)
}

/// The 32-bit integer that four digits make up, the least significant first.
pub open spec fn u32_from_digits(d: Seq<u8>) -> u32 {
    (d[0] + 256 * d[1] + 65536 * d[2] + 16777216 * d[3]) as u32
}

/// The 32-bit integer that four bytes in an order make up.
pub open spec fn u32_of(bytes: Seq<u8>, order: ByteOrder) -> u32 {
    u32_from_digits(ordered(bytes, order))
}

/// The 64-bit integer that eight bytes in an order make up.
pub open spec fn u64_of(bytes: Seq<u8>, order: ByteOrder) -> u64 {
    let d = ordered(bytes, order);
    (u32_from_digits(d.subrange(0, 4)) + 4294967296 * u32_from_digits(d.subrange(4, 8))) as u64
}

/// Putting bytes in an order twice changes nothing.
proof fn lemma_ordered_twice(bytes: Seq<u8>, order: ByteOrder)
    ensures
        ordered(ordered(bytes, order), order) == bytes,
{
    assert(bytes.reverse().reverse() =~= bytes);
}

/// The halves of an integer that is put together from two halves.
proof fn lemma_halves_of(x: u64, low: u32, high: u32)
    requires
        x == low + 4294967296 * high,
    ensures
        (x % 4294967296) as u32 == low,
        (x / 4294967296) as u32 == high,
{
}

/// The digits of an integer that is put together from four digits.
proof fn lemma_digits_of(x: u32, d0: u8, d1: u8, d2: u8, d3: u8)
    requires
        x == d0 + 256 * d1 + 65536 * d2 + 16777216 * d3,
    ensures
        x % 256 == d0,
        x / 256 % 256 == d1,
        x / 65536 % 256 == d2,
        x / 16777216 % 256 == d3,
{
    assert(x / 256 == d1 + 256 * d2 + 65536 * d3);
    assert(x / 65536 == d2 + 256 * d3);
    assert(x / 16777216 == d3);
}

/// The bytes of a 32-bit integer make up that integer.
pub proof fn u32_round_trip(x: u32, order: ByteOrder)
    ensures
        u32_bytes(x, order).len() == 4,
        u32_of(u32_bytes(x, order), order) == x,
{
    lemma_ordered_twice(u32_digits(x), order);
}

/// Four bytes are the bytes of the integer that they make up.
pub proof fn u32_round_trip_back(bytes: Seq<u8>, order: ByteOrder)
    requires
        bytes.len() == 4,
    ensures
        u32_bytes(u32_of(bytes, order), order) == bytes,
{
    let d = ordered(bytes, order);
    lemma_digits_of(u32_from_digits(d), d[0], d[1], d[2], d[3]);
    assert(u32_digits(u32_from_digits(d)) =~= d);
    lemma_ordered_twice(bytes, order);
}

/// The bytes of a 64-bit integer make up that integer.
pub proof fn u64_round_trip(x: u64, order: ByteOrder)
    ensures
        u64_bytes(x, order).len() == 8,
        u64_of(u64_bytes(x, order), order) == x,
{
    let low = (x % 4294967296) as u32;
    let high = (x / 4294967296) as u32;
    let d = u64_digits(x);
    lemma_ordered_twice(d, order);
    assert(d.subrange(0, 4) =~= u32_digits(low));
    assert(d.subrange(4, 8) =~= u32_digits(high));
    u32_round_trip(low, ByteOrder::Little);
    u32_round_trip(high, ByteOrder::Little);
}

/// Eight bytes are the bytes of the integer that they make up.
pub proof fn u64_round_trip_back(bytes: Seq<u8>, order: ByteOrder)
    requires
        bytes.len() == 8,
    ensures
        u64_bytes(u64_of(bytes, order), order) == bytes,
{
    let d = ordered(bytes, order);
    let low = u32_from_digits(d.subrange(0, 4));
    let high = u32_from_digits(d.subrange(4, 8));
    lemma_halves_of(u64_of(bytes, order), low, high);
    u32_round_trip_back(d.subrange(0, 4), ByteOrder::Little);
    u32_round_trip_back(d.subrange(4, 8), ByteOrder::Little);
    assert(d.subrange(0, 4) + d.subrange(4, 8) =~= d);
    lemma_ordered_twice(bytes, order);
}

/// Appends the bytes of a 32-bit integer.
pub fn put_u32(out: &mut Vec<u8>, x: u32, order: ByteOrder)
    ensures
        final(out)@ == old(out)@ + u32_bytes(x, order),
{
    let d0: u8 = (x % 256) as u8;
    let d1: u8 = (x / 256 % 256) as u8;
    let d2: u8 = (x / 65536 % 256) as u8;
    let d3: u8 = (x / 16777216 % 256) as u8;
    match order {
        ByteOrder::Little => {
            out.push(d0);
            out.push(d1);
            out.push(d2);
            out.push(d3);
        },
        ByteOrder::Big => {
            out.push(d3);
            out.push(d2);
            out.push(d1);
            out.push(d0);
        },
    }
    assert(out@ =~= old(out)@ + u32_bytes(x, order));
}

/// The bytes of a 64-bit integer are those of its two halves.
proof fn lemma_u64_halves(x: u64, order: ByteOrder)
    ensures
        u64_bytes(x, order) == match order {
            ByteOrder::Little => u32_bytes((x % 4294967296) as u32, order) + u32_bytes(
                (x / 4294967296) as u32,
                order,
            ),
            ByteOrder::Big => u32_bytes((x / 4294967296) as u32, order) + u32_bytes(
                (x % 4294967296) as u32,
                order,
            ),
        },
{
    let low = u32_digits((x % 4294967296) as u32);
    let high = u32_digits((x / 4294967296) as u32);
    assert((low + high).reverse() =~= high.reverse() + low.reverse());
}

/// Appends the bytes of a 64-bit integer.
pub fn put_u64(out: &mut Vec<u8>, x: u64, order: ByteOrder)
    ensures
        final(out)@ == old(out)@ + u64_bytes(x, order),
{
    proof {
        lemma_u64_halves(x, order);
    }
    let low: u32 = (x % 4294967296) as u32;
    let high: u32 = (x / 4294967296) as u32;
    match order {
        ByteOrder::Little => {
            put_u32(out, low, order);
            put_u32(out, high, order);
        },
        ByteOrder::Big => {
            put_u32(out, high, order);
            put_u32(out, low, order);
        },
    }
    assert(out@ =~= old(out)@ + u64_bytes(x, order));
}

/// The 32-bit integer whose bytes stand at `at`.
pub fn get_u32(bytes: &[u8], at: usize, order: ByteOrder) -> (x: u32)
    requires
        at + 4 <= bytes@.len(),
    ensures
        x == u32_of(bytes@.subrange(at as int, at + 4), order),
{
    assert(bytes.len() == bytes@.len());
    let (d0, d1, d2, d3) = match order {
        ByteOrder::Little => (bytes[at], bytes[at + 1], bytes[at + 2], bytes[at + 3]),
        ByteOrder::Big => (bytes[at + 3], bytes[at + 2], bytes[at + 1], bytes[at]),
    };
    d0 as u32 + 256 * d1 as u32 + 65536 * d2 as u32 + 16777216 * d3 as u32
}

/// The 64-bit integer whose bytes stand at `at`.
pub fn get_u64(bytes: &[u8], at: usize, order: ByteOrder) -> (x: u64)
    requires
        at + 8 <= bytes@.len(),
    ensures
        x == u64_of(bytes@.subrange(at as int, at + 8), order),
{
    assert(bytes.len() == bytes@.len());
    let first = get_u32(bytes, at, order);
    let second = get_u32(bytes, at + 4, order);
    let (low, high) = match order {
        ByteOrder::Little => (first, second),
        ByteOrder::Big => (second, first),
    };
    proof {
        let all = bytes@.subrange(at as int, at + 8);
        let d = ordered(all, order);
        let one = bytes@.subrange(at as int, at + 4);
        let two = bytes@.subrange(at + 4, at + 8);
        match order {
            ByteOrder::Little => {
                assert(d.subrange(0, 4) =~= one);
                assert(d.subrange(4, 8) =~= two);
            },
            ByteOrder::Big => {
                assert(d.subrange(0, 4) =~= two.reverse());
                assert(d.subrange(4, 8) =~= one.reverse());
            },
        }
    }
    low as u64 + 4294967296 * high as u64
}

/// A copy of some bytes.
pub fn copy_bytes(bytes: &Vec<u8>) -> (copy: Vec<u8>)
    ensures
        copy@ == bytes@,
{
    let copy = bytes.clone();
    assert(copy@ =~= bytes@);
    copy
}

/// The bytes of a 32-bit integer are its digits to the base 256, the least significant first
/// in one order and last in the other.
pub proof fn u32_bytes_are_its_digits(x: u32)
    ensures
        ({
            let b = u32_bytes(x, ByteOrder::Little);
            &&& b.len() == 4
            &&& x == b[0] + 256 * b[1] + 65536 * b[2] + 16777216 * b[3]
            &&& u32_bytes(x, ByteOrder::Big) == seq![b[3], b[2], b[1], b[0]]
        }),
{
    let b = u32_bytes(x, ByteOrder::Little);
    assert(x / 65536 == x / 256 / 256);
    assert(x / 16777216 == x / 65536 / 256);
    assert(u32_bytes(x, ByteOrder::Big) =~= seq![b[3], b[2], b[1], b[0]]);
}

/// The bytes of a 64-bit integer are its digits to the base 256, the least significant first
/// in one order and last in the other.
pub proof fn u64_bytes_are_its_digits(x: u64)
    ensures
        ({
            let b = u64_bytes(x, ByteOrder::Little);
            &&& b.len() == 8
            &&& x == (b[0] + 256 * b[1] + 65536 * b[2] + 16777216 * b[3]) + 4294967296 * (b[4]
                + 256 * b[5] + 65536 * b[6] + 16777216 * b[7])
            &&& u64_bytes(x, ByteOrder::Big) == seq![
                b[7],
                b[6],
                b[5],
                b[4],
                b[3],
                b[2],
                b[1],
                b[0],
            ]
        }),
{
    let low = (x % 4294967296) as u32;
    let high = (x / 4294967296) as u32;
    u32_bytes_are_its_digits(low);
    u32_bytes_are_its_digits(high);
    let b = u64_bytes(x, ByteOrder::Little);
    assert(forall|i: int| 0 <= i < 4 ==> b[i] == u32_digits(low)[i]);
    assert(forall|i: int| 0 <= i < 4 ==> b[4 + i] == u32_digits(high)[i]);
    assert(u64_bytes(x, ByteOrder::Big) =~= seq![
        b[7],
        b[6],
        b[5],
        b[4],
        b[3],
        b[2],
        b[1],
        b[0],
    ]);
}

} // verus!
