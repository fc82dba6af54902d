//! Primitive readers for the device's binary layout: little-endian integers,
//! word-swapped doubles and the carriage-return line terminator.
use vstd::prelude::*;

verus! {

/// The byte that ends every status line, ASCII payload and record name.
pub const CR: u8 = 13;

/// The little-endian `u16` held by the two bytes at `i` and `i + 1`.
pub open spec fn u16_le(b: Seq<u8>, i: int) -> u16 {
    (b[i] as int + 256 * (b[i + 1] as int)) as u16
}

/// The little-endian two's-complement `i16` held by the two bytes at `i`.
pub open spec fn i16_le(b: Seq<u8>, i: int) -> i16 {
    let u = u16_le(b, i) as int;
    (if u < 32768 {
        u
    } else {
        u - 65536
    }) as i16
}

/// The 8 bytes at `i` with the two halves of each 4-byte word reversed:
/// bytes 0 and 3, 1 and 2, 4 and 7, 5 and 6 change places.
pub open spec fn swapped_words(b: Seq<u8>, i: int) -> Seq<u8> {
    seq![b[i + 3], b[i + 2], b[i + 1], b[i], b[i + 7], b[i + 6], b[i + 5], b[i + 4]]
}

/// The unsigned integer that 8 bytes denote read in big-endian order.
pub open spec fn be_u64(s: Seq<u8>) -> u64 {
    (s[0] as int * 0x0100_0000_0000_0000 + s[1] as int * 0x0001_0000_0000_0000 + s[2] as int
        * 0x0000_0100_0000_0000 + s[3] as int * 0x0000_0001_0000_0000 + s[4] as int * 0x0100_0000
        + s[5] as int * 0x0001_0000 + s[6] as int * 0x0100 + s[7] as int) as u64
}

/// The IEEE-754 bit pattern of the device double stored at `i`: the device
/// swaps the halves of each word, after which the bytes read as a big-endian
/// double.
pub open spec fn double_bits(b: Seq<u8>, i: int) -> u64 {
    be_u64(swapped_words(b, i))
}

/// `j` is the first carriage return at or after `start`.
pub open spec fn first_cr(b: Seq<u8>, start: int, j: int) -> bool {
    &&& 0 <= start <= j < b.len()
    &&& b[j] == CR
    &&& forall|k: int| start <= k < j ==> b[k] != CR
}

/// No carriage return stands at or after `start`.
pub open spec fn no_cr_from(b: Seq<u8>, start: int) -> bool {
    forall|k: int| start <= k < b.len() ==> b[k] != CR
}

/// Reads the little-endian `u16` at `i`.
pub fn read_u16_le(b: &[u8], i: usize) -> (r: u16)
    requires
        i + 2 <= b@.len(),
    ensures
        r == u16_le(b@, i as int),
{
    let _n = b.len();
    b[i] as u16 + 256 * (b[i + 1] as u16)
}

/// Reads the little-endian `i16` at `i`.
pub fn read_i16_le(b: &[u8], i: usize) -> (r: i16)
    requires
        i + 2 <= b@.len(),
    ensures
        r == i16_le(b@, i as int),
{
    let u = read_u16_le(b, i);
    if u < 32768 {
        u as i16
    } else {
        ((u - 32768) as i16) - 32767 - 1
    }
}

/// Reads the device double at `i` and returns its IEEE-754 bit pattern.
pub fn read_double_bits(b: &[u8], i: usize) -> (r: u64)
    requires
        i + 8 <= b@.len(),
    ensures
        r == double_bits(b@, i as int),
{
    let _n = b.len();
    let w = [b[i + 3], b[i + 2], b[i + 1], b[i], b[i + 7], b[i + 6], b[i + 5], b[i + 4]];
    proof {
        assert(w@ =~= swapped_words(b@, i as int));
    }
    be_u64_of(&w)
}

/// Interprets 8 bytes as a big-endian unsigned integer.
pub fn be_u64_of(s: &[u8; 8]) -> (r: u64)
    ensures
        r == be_u64(s@),
{
    s[0] as u64 * 0x0100_0000_0000_0000 + s[1] as u64 * 0x0001_0000_0000_0000 + s[2] as u64
        * 0x0000_0100_0000_0000 + s[3] as u64 * 0x0000_0001_0000_0000 + s[4] as u64 * 0x0100_0000
        + s[5] as u64 * 0x0001_0000 + s[6] as u64 * 0x0100 + s[7] as u64
}

/// Decodes one device double from its 8 wire bytes into the IEEE-754 bit
/// pattern of the value (`f64::from_bits` turns it into the number).
pub fn decode_double(raw: &[u8; 8]) -> (r: u64)
    ensures
        r == double_bits(raw@, 0),
{
    read_double_bits(raw, 0)
}

/// Position of the first carriage return at or after `start`, if any.
pub fn find_cr(b: &[u8], start: usize) -> (r: Option<usize>)
    requires
        start <= b@.len(),
    ensures
        match r {
            Some(j) => first_cr(b@, start as int, j as int),
            None => no_cr_from(b@, start as int),
        },
{
    let mut k = start;
    while k < b.len()
        invariant
            start <= k <= b@.len(),
            forall|m: int| start <= m < k ==> b@[m] != CR,
        decreases b@.len() - k,
    {
        if b[k] == CR {
            return Some(k);
        }
        k = k + 1;
    }
    None
}

} // verus!
