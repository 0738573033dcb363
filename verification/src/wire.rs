//! The byte encoding that host and plugins speak: the MessagePack forms for nil, booleans,
//! unsigned integers, single-precision numbers, text, byte strings, and the length
//! headers of arrays and maps. Integers and lengths are written in their shortest form and
//! read in any form.

use vstd::prelude::*;
use vstd::utf8::*;

verus! {

/// The byte that is nil.
pub const NIL: u8 = 0xc0;

/// The byte that is false.
pub const FALSE: u8 = 0xc2;

/// The byte that is true.
pub const TRUE: u8 = 0xc3;

/// Marker of a single-precision number.
pub const FLOAT32: u8 = 0xca;

/// Marker of an unsigned integer of one byte.
pub const UINT8: u8 = 0xcc;

/// Marker of an unsigned integer of two bytes.
pub const UINT16: u8 = 0xcd;

/// Marker of an unsigned integer of four bytes.
pub const UINT32: u8 = 0xce;

/// Marker of an unsigned integer of eight bytes.
pub const UINT64: u8 = 0xcf;

/// Two bytes, most significant first.
pub open spec fn be16(n: int) -> Seq<u8> {
    seq![(n / 0x100 % 0x100) as u8, (n % 0x100) as u8]
}

/// Four bytes, most significant first.
pub open spec fn be32(n: int) -> Seq<u8> {
    seq![
        (n / 0x100_0000 % 0x100) as u8,
        (n / 0x1_0000 % 0x100) as u8,
        (n / 0x100 % 0x100) as u8,
        (n % 0x100) as u8,
    ]
}

/// Eight bytes, most significant first.
pub open spec fn be64(n: int) -> Seq<u8> {
    be32(n / 0x1_0000_0000) + be32(n % 0x1_0000_0000)
}

/// Sixteen bytes, most significant first.
pub open spec fn be128(n: int) -> Seq<u8> {
    be64(n / 0x1_0000_0000_0000_0000) + be64(n % 0x1_0000_0000_0000_0000)
}

/// The number that two bytes at `pos` spell, most significant first.
pub open spec fn from_be16(b: Seq<u8>, pos: int) -> int {
    b[pos] * 0x100 + b[pos + 1]
}

/// The number that four bytes at `pos` spell, most significant first.
pub open spec fn from_be32(b: Seq<u8>, pos: int) -> int {
    b[pos] * 0x100_0000 + b[pos + 1] * 0x1_0000 + b[pos + 2] * 0x100 + b[pos + 3]
}

/// The number that eight bytes at `pos` spell, most significant first.
pub open spec fn from_be64(b: Seq<u8>, pos: int) -> int {
    from_be32(b, pos) * 0x1_0000_0000 + from_be32(b, pos + 4)
}

/// The number that sixteen bytes at `pos` spell, most significant first.
pub open spec fn from_be128(b: Seq<u8>, pos: int) -> int {
    from_be64(b, pos) * 0x1_0000_0000_0000_0000 + from_be64(b, pos + 8)
}

/// `pat` stands in `b` at `pos`.
pub open spec fn starts_with_at(b: Seq<u8>, pos: int, pat: Seq<u8>) -> bool {
    &&& 0 <= pos
    &&& pos + pat.len() <= b.len()
    &&& b.subrange(pos, pos + pat.len()) == pat
}

/// Where a concatenation stands, its two parts stand one behind the other.
pub proof fn lemma_starts_with_split(b: Seq<u8>, pos: int, first: Seq<u8>, second: Seq<u8>)
    requires
        starts_with_at(b, pos, first + second),
    ensures
        starts_with_at(b, pos, first),
        starts_with_at(b, pos + first.len(), second),
{
    let whole = first + second;
    assert(b.subrange(pos, pos + first.len()) =~= whole.subrange(0, first.len() as int));
    assert(whole.subrange(0, first.len() as int) =~= first);
    assert(b.subrange(pos + first.len(), pos + first.len() + second.len()) =~= whole.subrange(
        first.len() as int,
        whole.len() as int,
    ));
    assert(whole.subrange(first.len() as int, whole.len() as int) =~= second);
}

/// A sequence stands at its own start.
pub proof fn lemma_starts_with_self(b: Seq<u8>)
    ensures
        starts_with_at(b, 0, b),
{
    assert(b.subrange(0, b.len() as int) =~= b);
}

/// The four kinds of value that begin with a length.
#[derive(Debug, Clone, Copy, PartialEq, Eq, Structural)]
pub enum Family {
    Text,
    Bytes,
    List,
    Table,
}

impl Family {
    /// Lengths below this bound are written into the marker byte itself.
    pub open spec fn fix_limit(self) -> int {
        match self {
            Family::Text => 32,
            Family::Bytes => 0,
            Family::List => 16,
            Family::Table => 16,
        }
    }

    /// The marker byte for length zero, where the family has such markers.
    pub open spec fn fix_base(self) -> int {
        match self {
            Family::Text => 0xa0,
            Family::Bytes => 0,
            Family::List => 0x90,
            Family::Table => 0x80,
        }
    }

    /// Whether the family has a form with one length byte.
    pub open spec fn has_len8(self) -> bool {
        self is Text || self is Bytes
    }

    /// Marker of the form with one length byte.
    pub open spec fn marker8(self) -> int {
        match self {
            Family::Text => 0xd9,
            _ => 0xc4,
        }
    }

    /// Marker of the form with two length bytes.
    pub open spec fn marker16(self) -> int {
        match self {
            Family::Text => 0xda,
            Family::Bytes => 0xc5,
            Family::List => 0xdc,
            Family::Table => 0xde,
        }
    }

    /// Marker of the form with four length bytes.
    pub open spec fn marker32(self) -> int {
        match self {
            Family::Text => 0xdb,
            Family::Bytes => 0xc6,
            Family::List => 0xdd,
            Family::Table => 0xdf,
        }
    }

    fn exec_fix_limit(self) -> (r: u8)
        ensures
            r == self.fix_limit(),
    {
        match self {
            Family::Text => 32,
            Family::Bytes => 0,
            Family::List => 16,
            Family::Table => 16,
        }
    }

    fn exec_fix_base(self) -> (r: u8)
        ensures
            r == self.fix_base(),
    {
        match self {
            Family::Text => 0xa0,
            Family::Bytes => 0,
            Family::List => 0x90,
            Family::Table => 0x80,
        }
    }

    fn exec_has_len8(self) -> (r: bool)
        ensures
            r == self.has_len8(),
    {
        match self {
            Family::Text | Family::Bytes => true,
            _ => false,
        }
    }

    fn exec_marker8(self) -> (r: u8)
        ensures
            r == self.marker8(),
    {
        match self {
            Family::Text => 0xd9,
            _ => 0xc4,
        }
    }

    fn exec_marker16(self) -> (r: u8)
        ensures
            r == self.marker16(),
    {
        match self {
            Family::Text => 0xda,
            Family::Bytes => 0xc5,
            Family::List => 0xdc,
            Family::Table => 0xde,
        }
    }

    fn exec_marker32(self) -> (r: u8)
        ensures
            r == self.marker32(),
    {
        match self {
            Family::Text => 0xdb,
            Family::Bytes => 0xc6,
            Family::List => 0xdd,
            Family::Table => 0xdf,
        }
    }
}

/// The largest length the encoding can state.
pub const MAX_LEN: u32 = 0xffff_ffff;

/// The shortest header that states length `n` for a family.
pub open spec fn enc_len(family: Family, n: int) -> Seq<u8> {
    if n < family.fix_limit() {
        seq![(family.fix_base() + n) as u8]
    } else if family.has_len8() && n < 0x100 {
        seq![family.marker8() as u8, n as u8]
    } else if n < 0x1_0000 {
        seq![family.marker16() as u8] + be16(n)
    } else {
        seq![family.marker32() as u8] + be32(n)
    }
}

/// The length that a header of the family at `pos` states, in whichever form, and where
/// the header ends.
pub open spec fn dec_len(family: Family, b: Seq<u8>, pos: int) -> Option<(int, int)> {
    if !(0 <= pos < b.len()) {
        None
    } else if family.fix_base() <= b[pos] < family.fix_base() + family.fix_limit() {
        Some((b[pos] - family.fix_base(), pos + 1))
    } else if family.has_len8() && b[pos] == family.marker8() && pos + 2 <= b.len() {
        Some((b[pos + 1] as int, pos + 2))
    } else if b[pos] == family.marker16() && pos + 3 <= b.len() {
        Some((from_be16(b, pos + 1), pos + 3))
    } else if b[pos] == family.marker32() && pos + 5 <= b.len() {
        Some((from_be32(b, pos + 1), pos + 5))
    } else {
        None
    }
}

/// An unsigned integer in its shortest form.
pub open spec fn enc_uint(n: int) -> Seq<u8> {
    if n < 0x80 {
        seq![n as u8]
    } else if n < 0x100 {
        seq![UINT8, n as u8]
    } else if n < 0x1_0000 {
        seq![UINT16] + be16(n)
    } else if n < 0x1_0000_0000 {
        seq![UINT32] + be32(n)
    } else {
        seq![UINT64] + be64(n)
    }
}

/// The unsigned integer at `pos`, in whichever form, and where it ends.
pub open spec fn dec_uint(b: Seq<u8>, pos: int) -> Option<(int, int)> {
    if !(0 <= pos < b.len()) {
        None
    } else if b[pos] < 0x80 {
        Some((b[pos] as int, pos + 1))
    } else if b[pos] == UINT8 && pos + 2 <= b.len() {
        Some((b[pos + 1] as int, pos + 2))
    } else if b[pos] == UINT16 && pos + 3 <= b.len() {
        Some((from_be16(b, pos + 1), pos + 3))
    } else if b[pos] == UINT32 && pos + 5 <= b.len() {
        Some((from_be32(b, pos + 1), pos + 5))
    } else if b[pos] == UINT64 && pos + 9 <= b.len() {
        Some((from_be64(b, pos + 1), pos + 9))
    } else {
        None
    }
}

/// A boolean.
pub open spec fn enc_bool(v: bool) -> Seq<u8> {
    seq![if v { TRUE } else { FALSE }]
}

/// The boolean at `pos`, and where it ends.
pub open spec fn dec_bool(b: Seq<u8>, pos: int) -> Option<(bool, int)> {
    if 0 <= pos < b.len() && (b[pos] == TRUE || b[pos] == FALSE) {
        Some((b[pos] == TRUE, pos + 1))
    } else {
        None
    }
}

/// A single-precision number, given by its bit pattern.
pub open spec fn enc_f32(bits: int) -> Seq<u8> {
    seq![FLOAT32] + be32(bits)
}

/// The bit pattern of the single-precision number at `pos`, and where it ends.
pub open spec fn dec_f32(b: Seq<u8>, pos: int) -> Option<(int, int)> {
    if 0 <= pos && pos + 5 <= b.len() && b[pos] == FLOAT32 {
        Some((from_be32(b, pos + 1), pos + 5))
    } else {
        None
    }
}

/// A byte string.
pub open spec fn enc_bin(bytes: Seq<u8>) -> Seq<u8> {
    enc_len(Family::Bytes, bytes.len() as int) + bytes
}

/// The byte string at `pos`, and where it ends.
pub open spec fn dec_bin(b: Seq<u8>, pos: int) -> Option<(Seq<u8>, int)> {
    match dec_len(Family::Bytes, b, pos) {
        Some((n, p)) => if p + n <= b.len() {
            Some((b.subrange(p, p + n), p + n))
        } else {
            None
        },
        None => None,
    }
}

/// Text, as the UTF-8 bytes of its characters behind their count.
pub open spec fn enc_str(chars: Seq<char>) -> Seq<u8> {
    enc_len(Family::Text, encode_utf8(chars).len() as int) + encode_utf8(chars)
}

/// The text at `pos`, and where it ends. Bytes that are not UTF-8 are no text.
pub open spec fn dec_str(b: Seq<u8>, pos: int) -> Option<(Seq<char>, int)> {
    match dec_len(Family::Text, b, pos) {
        Some((n, p)) => if p + n <= b.len() && valid_utf8(b.subrange(p, p + n)) {
            Some((decode_utf8(b.subrange(p, p + n)), p + n))
        } else {
            None
        },
        None => None,
    }
}

/// A 128-bit identifier: a byte string of its sixteen bytes, most significant first.
pub open spec fn enc_id(id: int) -> Seq<u8> {
    seq![0xc4u8, 16u8] + be128(id)
}

/// The 128-bit identifier at `pos`, and where it ends.
pub open spec fn dec_id(b: Seq<u8>, pos: int) -> Option<(int, int)> {
    match dec_len(Family::Bytes, b, pos) {
        Some((n, p)) => if n == 16 && p + 16 <= b.len() {
            Some((from_be128(b, p), p + 16))
        } else {
            None
        },
        None => None,
    }
}

/// Whether nil stands at `pos`.
pub open spec fn nil_at(b: Seq<u8>, pos: int) -> bool {
    0 <= pos < b.len() && b[pos] == NIL
}


/// Two bytes spell the number they were written from.
pub proof fn lemma_be16_roundtrip(b: Seq<u8>, pos: int, n: int)
    requires
        0 <= n < 0x1_0000,
        starts_with_at(b, pos, be16(n)),
    ensures
        from_be16(b, pos) == n,
{
    let w = b.subrange(pos, pos + 2);
    assert(b[pos] == w[0] && b[pos + 1] == w[1]);
}

/// Four bytes spell the number they were written from.
pub proof fn lemma_be32_roundtrip(b: Seq<u8>, pos: int, n: int)
    requires
        0 <= n < 0x1_0000_0000,
        starts_with_at(b, pos, be32(n)),
    ensures
        from_be32(b, pos) == n,
{
    let w = b.subrange(pos, pos + 4);
    assert(b[pos] == w[0] && b[pos + 1] == w[1] && b[pos + 2] == w[2] && b[pos + 3] == w[3]);
}

/// Eight bytes spell the number they were written from.
pub proof fn lemma_be64_roundtrip(b: Seq<u8>, pos: int, n: int)
    requires
        0 <= n < 0x1_0000_0000_0000_0000,
        starts_with_at(b, pos, be64(n)),
    ensures
        from_be64(b, pos) == n,
{
    lemma_starts_with_split(b, pos, be32(n / 0x1_0000_0000), be32(n % 0x1_0000_0000));
    lemma_be32_roundtrip(b, pos, n / 0x1_0000_0000);
    lemma_be32_roundtrip(b, pos + 4, n % 0x1_0000_0000);
}

/// Sixteen bytes spell the number they were written from.
pub proof fn lemma_be128_roundtrip(b: Seq<u8>, pos: int, n: int)
    requires
        0 <= n < 0x1_0000_0000_0000_0000_0000_0000_0000_0000,
        starts_with_at(b, pos, be128(n)),
    ensures
        from_be128(b, pos) == n,
{
    lemma_starts_with_split(
        b,
        pos,
        be64(n / 0x1_0000_0000_0000_0000),
        be64(n % 0x1_0000_0000_0000_0000),
    );
    lemma_be64_roundtrip(b, pos, n / 0x1_0000_0000_0000_0000);
    lemma_be64_roundtrip(b, pos + 8, n % 0x1_0000_0000_0000_0000);
}

/// A header in its shortest form is read as the length it was written from.
pub proof fn lemma_len_roundtrip(family: Family, b: Seq<u8>, pos: int, n: int)
    requires
        0 <= n <= MAX_LEN,
        starts_with_at(b, pos, enc_len(family, n)),
    ensures
        dec_len(family, b, pos) == Some((n, pos + enc_len(family, n).len())),
{
    let e = enc_len(family, n);
    let w = b.subrange(pos, pos + e.len());
    assert(b[pos] == w[0]);
    if n < family.fix_limit() {
    } else if family.has_len8() && n < 0x100 {
        assert(b[pos + 1] == w[1]);
    } else if n < 0x1_0000 {
        lemma_starts_with_split(b, pos, seq![family.marker16() as u8], be16(n));
        lemma_be16_roundtrip(b, pos + 1, n);
    } else {
        lemma_starts_with_split(b, pos, seq![family.marker32() as u8], be32(n));
        lemma_be32_roundtrip(b, pos + 1, n);
    }
}

/// An unsigned integer in its shortest form is read as the number it was written from.
pub proof fn lemma_uint_roundtrip(b: Seq<u8>, pos: int, n: int)
    requires
        0 <= n <= u64::MAX,
        starts_with_at(b, pos, enc_uint(n)),
    ensures
        dec_uint(b, pos) == Some((n, pos + enc_uint(n).len())),
{
    let e = enc_uint(n);
    let w = b.subrange(pos, pos + e.len());
    assert(b[pos] == w[0]);
    if n < 0x80 {
    } else if n < 0x100 {
        assert(b[pos + 1] == w[1]);
    } else if n < 0x1_0000 {
        lemma_starts_with_split(b, pos, seq![UINT16], be16(n));
        lemma_be16_roundtrip(b, pos + 1, n);
    } else if n < 0x1_0000_0000 {
        lemma_starts_with_split(b, pos, seq![UINT32], be32(n));
        lemma_be32_roundtrip(b, pos + 1, n);
    } else {
        lemma_starts_with_split(b, pos, seq![UINT64], be64(n));
        lemma_be64_roundtrip(b, pos + 1, n);
    }
}

/// A boolean is read as it was written.
pub proof fn lemma_bool_roundtrip(b: Seq<u8>, pos: int, v: bool)
    requires
        starts_with_at(b, pos, enc_bool(v)),
    ensures
        dec_bool(b, pos) == Some((v, pos + 1)),
{
    let w = b.subrange(pos, pos + 1);
    assert(b[pos] == w[0]);
}

/// A single-precision number is read with the bit pattern it was written from.
pub proof fn lemma_f32_roundtrip(b: Seq<u8>, pos: int, bits: int)
    requires
        0 <= bits <= u32::MAX,
        starts_with_at(b, pos, enc_f32(bits)),
    ensures
        dec_f32(b, pos) == Some((bits, pos + 5)),
{
    let w = b.subrange(pos, pos + 5);
    assert(b[pos] == w[0]);
    lemma_starts_with_split(b, pos, seq![FLOAT32], be32(bits));
    lemma_be32_roundtrip(b, pos + 1, bits);
}

/// A byte string is read as it was written.
pub proof fn lemma_bin_roundtrip(b: Seq<u8>, pos: int, bytes: Seq<u8>)
    requires
        bytes.len() <= MAX_LEN,
        starts_with_at(b, pos, enc_bin(bytes)),
    ensures
        dec_bin(b, pos) == Some((bytes, pos + enc_bin(bytes).len())),
{
    let head = enc_len(Family::Bytes, bytes.len() as int);
    lemma_starts_with_split(b, pos, head, bytes);
    lemma_len_roundtrip(Family::Bytes, b, pos, bytes.len() as int);
}

/// Text is read as it was written.
pub proof fn lemma_str_roundtrip(b: Seq<u8>, pos: int, chars: Seq<char>)
    requires
        encode_utf8(chars).len() <= MAX_LEN,
        starts_with_at(b, pos, enc_str(chars)),
    ensures
        dec_str(b, pos) == Some((chars, pos + enc_str(chars).len())),
{
    let utf8 = encode_utf8(chars);
    let head = enc_len(Family::Text, utf8.len() as int);
    lemma_starts_with_split(b, pos, head, utf8);
    lemma_len_roundtrip(Family::Text, b, pos, utf8.len() as int);
    encode_utf8_valid_utf8(chars);
    encode_utf8_decode_utf8(chars);
}

/// A 128-bit identifier is read as it was written.
pub proof fn lemma_id_roundtrip(b: Seq<u8>, pos: int, id: int)
    requires
        0 <= id <= u128::MAX,
        starts_with_at(b, pos, enc_id(id)),
    ensures
        dec_id(b, pos) == Some((id, pos + 18)),
{
    let head = seq![0xc4u8, 16u8];
    assert(head == enc_len(Family::Bytes, 16));
    lemma_starts_with_split(b, pos, head, be128(id));
    lemma_len_roundtrip(Family::Bytes, b, pos, 16);
    lemma_be128_roundtrip(b, pos + 2, id);
}


/// What a reader of a 32-bit value found, in mathematical integers.
pub open spec fn found32(r: Option<(u32, usize)>) -> Option<(int, int)> {
    match r {
        Some((v, p)) => Some((v as int, p as int)),
        None => None,
    }
}

/// What a reader of a 64-bit value found, in mathematical integers.
pub open spec fn found64(r: Option<(u64, usize)>) -> Option<(int, int)> {
    match r {
        Some((v, p)) => Some((v as int, p as int)),
        None => None,
    }
}

/// What a reader of a 128-bit value found, in mathematical integers.
pub open spec fn found128(r: Option<(u128, usize)>) -> Option<(int, int)> {
    match r {
        Some((v, p)) => Some((v as int, p as int)),
        None => None,
    }
}

/// What a reader of a boolean found.
pub open spec fn found_bool(r: Option<(bool, usize)>) -> Option<(bool, int)> {
    match r {
        Some((v, p)) => Some((v, p as int)),
        None => None,
    }
}

/// What a reader of a byte string found.
pub open spec fn found_bin(r: Option<(Vec<u8>, usize)>) -> Option<(Seq<u8>, int)> {
    match r {
        Some((v, p)) => Some((v@, p as int)),
        None => None,
    }
}

/// What a reader of text found.
pub open spec fn found_str(r: Option<(String, usize)>) -> Option<(Seq<char>, int)> {
    match r {
        Some((v, p)) => Some((v@, p as int)),
        None => None,
    }
}

/// `String::from_utf8`: the text that the bytes spell in UTF-8, and nothing where they are
/// not UTF-8.
#[verifier::external_body]
fn string_from_utf8(bytes: Vec<u8>) -> (r: Option<String>)
    ensures
        match r {
            Some(s) => valid_utf8(bytes@) && s@ == decode_utf8(bytes@),
            None => !valid_utf8(bytes@),
        },
{
    String::from_utf8(bytes).ok()
}

fn put_be16(out: &mut Vec<u8>, n: u16)
    ensures
        final(out)@ == old(out)@ + be16(n as int),
{
    out.push((n / 0x100) as u8);
    out.push((n % 0x100) as u8);
    assert(final(out)@ =~= old(out)@ + be16(n as int));
}

fn put_be32(out: &mut Vec<u8>, n: u32)
    ensures
        final(out)@ == old(out)@ + be32(n as int),
{
    out.push((n / 0x100_0000) as u8);
    out.push((n / 0x1_0000 % 0x100) as u8);
    out.push((n / 0x100 % 0x100) as u8);
    out.push((n % 0x100) as u8);
    assert(final(out)@ =~= old(out)@ + be32(n as int));
}

fn put_be64(out: &mut Vec<u8>, n: u64)
    ensures
        final(out)@ == old(out)@ + be64(n as int),
{
    put_be32(out, (n / 0x1_0000_0000) as u32);
    put_be32(out, (n % 0x1_0000_0000) as u32);
    assert(final(out)@ =~= old(out)@ + be64(n as int));
}

fn put_be128(out: &mut Vec<u8>, n: u128)
    ensures
        final(out)@ == old(out)@ + be128(n as int),
{
    put_be64(out, (n / 0x1_0000_0000_0000_0000) as u64);
    put_be64(out, (n % 0x1_0000_0000_0000_0000) as u64);
    assert(final(out)@ =~= old(out)@ + be128(n as int));
}

fn get_be16(b: &[u8], pos: usize) -> (r: u16)
    requires
        pos + 2 <= b@.len(),
    ensures
        r == from_be16(b@, pos as int),
{
    let hi: u16 = b[pos] as u16;
    let lo: u16 = b[pos + 1] as u16;
    hi * 0x100 + lo
}

fn get_be32(b: &[u8], pos: usize) -> (r: u32)
    requires
        pos + 4 <= b@.len(),
    ensures
        r == from_be32(b@, pos as int),
{
    let b0: u32 = b[pos] as u32;
    let b1: u32 = b[pos + 1] as u32;
    let b2: u32 = b[pos + 2] as u32;
    let b3: u32 = b[pos + 3] as u32;
    b0 * 0x100_0000 + b1 * 0x1_0000 + b2 * 0x100 + b3
}

fn get_be64(b: &[u8], pos: usize) -> (r: u64)
    requires
        pos + 8 <= b@.len() <= usize::MAX,
    ensures
        r == from_be64(b@, pos as int),
{
    let hi: u64 = get_be32(b, pos) as u64;
    let lo: u64 = get_be32(b, pos + 4) as u64;
    hi * 0x1_0000_0000 + lo
}

fn get_be128(b: &[u8], pos: usize) -> (r: u128)
    requires
        pos + 16 <= b@.len() <= usize::MAX,
    ensures
        r == from_be128(b@, pos as int),
{
    let hi: u128 = get_be64(b, pos) as u128;
    let lo: u128 = get_be64(b, pos + 8) as u128;
    hi * 0x1_0000_0000_0000_0000 + lo
}

/// Appends nil.
pub fn put_nil(out: &mut Vec<u8>)
    ensures
        final(out)@ == old(out)@ + seq![NIL],
{
    out.push(NIL);
    assert(final(out)@ =~= old(out)@ + seq![NIL]);
}

/// Appends a boolean.
pub fn put_bool(out: &mut Vec<u8>, v: bool)
    ensures
        final(out)@ == old(out)@ + enc_bool(v),
{
    out.push(if v { TRUE } else { FALSE });
    assert(final(out)@ =~= old(out)@ + enc_bool(v));
}

/// Appends the shortest header that states length `n`.
pub fn put_len(out: &mut Vec<u8>, family: Family, n: u32)
    ensures
        final(out)@ == old(out)@ + enc_len(family, n as int),
{
    if n < family.exec_fix_limit() as u32 {
        out.push(family.exec_fix_base() + n as u8);
        assert(final(out)@ =~= old(out)@ + enc_len(family, n as int));
    } else if family.exec_has_len8() && n < 0x100 {
        out.push(family.exec_marker8());
        out.push(n as u8);
        assert(final(out)@ =~= old(out)@ + enc_len(family, n as int));
    } else if n < 0x1_0000 {
        out.push(family.exec_marker16());
        put_be16(out, n as u16);
        assert(final(out)@ =~= old(out)@ + enc_len(family, n as int));
    } else {
        out.push(family.exec_marker32());
        put_be32(out, n);
        assert(final(out)@ =~= old(out)@ + enc_len(family, n as int));
    }
}

/// Appends an unsigned integer in its shortest form.
pub fn put_uint(out: &mut Vec<u8>, n: u64)
    ensures
        final(out)@ == old(out)@ + enc_uint(n as int),
{
    if n < 0x80 {
        out.push(n as u8);
    } else if n < 0x100 {
        out.push(UINT8);
        out.push(n as u8);
    } else if n < 0x1_0000 {
        out.push(UINT16);
        put_be16(out, n as u16);
    } else if n < 0x1_0000_0000 {
        out.push(UINT32);
        put_be32(out, n as u32);
    } else {
        out.push(UINT64);
        put_be64(out, n);
    }
    assert(final(out)@ =~= old(out)@ + enc_uint(n as int));
}

/// Appends a single-precision number, given by its bit pattern.
pub fn put_f32(out: &mut Vec<u8>, bits: u32)
    ensures
        final(out)@ == old(out)@ + enc_f32(bits as int),
{
    out.push(FLOAT32);
    put_be32(out, bits);
    assert(final(out)@ =~= old(out)@ + enc_f32(bits as int));
}

/// Appends a 128-bit identifier.
pub fn put_id(out: &mut Vec<u8>, id: u128)
    ensures
        final(out)@ == old(out)@ + enc_id(id as int),
{
    out.push(0xc4);
    out.push(16);
    put_be128(out, id);
    assert(final(out)@ =~= old(out)@ + enc_id(id as int));
}

fn put_bytes(out: &mut Vec<u8>, bytes: &[u8])
    ensures
        final(out)@ == old(out)@ + bytes@,
{
    let mut i: usize = 0;
    while i < bytes.len()
        invariant
            i <= bytes@.len(),
            out@ == old(out)@ + bytes@.subrange(0, i as int),
        decreases bytes@.len() - i,
    {
        out.push(bytes[i]);
        i += 1;
        assert(out@ =~= old(out)@ + bytes@.subrange(0, i as int));
    }
    assert(bytes@.subrange(0, bytes@.len() as int) =~= bytes@);
}

/// Appends a byte string, if its length can be stated; else leaves `out` as it was.
pub fn put_bin(out: &mut Vec<u8>, bytes: &[u8]) -> (done: bool)
    ensures
        done == (bytes@.len() <= MAX_LEN),
        done ==> final(out)@ == old(out)@ + enc_bin(bytes@),
        !done ==> final(out)@ == old(out)@,
{
    if bytes.len() > MAX_LEN as usize {
        return false;
    }
    put_len(out, Family::Bytes, bytes.len() as u32);
    put_bytes(out, bytes);
    assert(final(out)@ =~= old(out)@ + enc_bin(bytes@));
    true
}

/// Appends text, if the length of its UTF-8 form can be stated; else leaves `out` as it
/// was.
pub fn put_str(out: &mut Vec<u8>, text: &str) -> (done: bool)
    ensures
        done == (encode_utf8(text@).len() <= MAX_LEN),
        done ==> final(out)@ == old(out)@ + enc_str(text@),
        !done ==> final(out)@ == old(out)@,
{
    let bytes = text.as_bytes();
    if bytes.len() > MAX_LEN as usize {
        return false;
    }
    put_len(out, Family::Text, bytes.len() as u32);
    put_bytes(out, bytes);
    assert(final(out)@ =~= old(out)@ + enc_str(text@));
    true
}

/// Whether nil stands at `pos`.
pub fn is_nil(b: &[u8], pos: usize) -> (r: bool)
    ensures
        r == nil_at(b@, pos as int),
        r ==> pos < usize::MAX,
{
    pos < b.len() && b[pos] == NIL
}

/// Reads a length header of the family at `pos`.
pub fn read_len(family: Family, b: &[u8], pos: usize) -> (r: Option<(u32, usize)>)
    ensures
        found32(r) == dec_len(family, b@, pos as int),
{
    if pos >= b.len() {
        return None;
    }
    let first: u8 = b[pos];
    let base: u8 = family.exec_fix_base();
    let limit: u8 = family.exec_fix_limit();
    if base <= first && (first as u16) < base as u16 + limit as u16 {
        Some(((first - base) as u32, pos + 1))
    } else if family.exec_has_len8() && first == family.exec_marker8() && b.len() - pos >= 2 {
        Some((b[pos + 1] as u32, pos + 2))
    } else if first == family.exec_marker16() && b.len() - pos >= 3 {
        Some((get_be16(b, pos + 1) as u32, pos + 3))
    } else if first == family.exec_marker32() && b.len() - pos >= 5 {
        Some((get_be32(b, pos + 1), pos + 5))
    } else {
        None
    }
}

/// Reads an unsigned integer at `pos`.
pub fn read_uint(b: &[u8], pos: usize) -> (r: Option<(u64, usize)>)
    ensures
        found64(r) == dec_uint(b@, pos as int),
{
    if pos >= b.len() {
        return None;
    }
    let first: u8 = b[pos];
    if first < 0x80 {
        Some((first as u64, pos + 1))
    } else if first == UINT8 && b.len() - pos >= 2 {
        Some((b[pos + 1] as u64, pos + 2))
    } else if first == UINT16 && b.len() - pos >= 3 {
        Some((get_be16(b, pos + 1) as u64, pos + 3))
    } else if first == UINT32 && b.len() - pos >= 5 {
        Some((get_be32(b, pos + 1) as u64, pos + 5))
    } else if first == UINT64 && b.len() - pos >= 9 {
        Some((get_be64(b, pos + 1), pos + 9))
    } else {
        None
    }
}

/// Reads a boolean at `pos`.
pub fn read_bool(b: &[u8], pos: usize) -> (r: Option<(bool, usize)>)
    ensures
        found_bool(r) == dec_bool(b@, pos as int),
{
    if pos < b.len() && (b[pos] == TRUE || b[pos] == FALSE) {
        Some((b[pos] == TRUE, pos + 1))
    } else {
        None
    }
}

/// Reads the bit pattern of a single-precision number at `pos`.
pub fn read_f32(b: &[u8], pos: usize) -> (r: Option<(u32, usize)>)
    ensures
        found32(r) == dec_f32(b@, pos as int),
{
    if pos < b.len() && b.len() - pos >= 5 && b[pos] == FLOAT32 {
        Some((get_be32(b, pos + 1), pos + 5))
    } else {
        None
    }
}

fn copy_range(b: &[u8], from: usize, to: usize) -> (r: Vec<u8>)
    requires
        from <= to <= b@.len(),
    ensures
        r@ == b@.subrange(from as int, to as int),
{
    let mut out: Vec<u8> = Vec::new();
    let mut i: usize = from;
    while i < to
        invariant
            from <= i <= to <= b@.len(),
            out@ == b@.subrange(from as int, i as int),
        decreases to - i,
    {
        out.push(b[i]);
        i += 1;
        assert(out@ =~= b@.subrange(from as int, i as int));
    }
    out
}

/// Reads a byte string at `pos`.
pub fn read_bin(b: &[u8], pos: usize) -> (r: Option<(Vec<u8>, usize)>)
    ensures
        found_bin(r) == dec_bin(b@, pos as int),
{
    match read_len(Family::Bytes, b, pos) {
        Some((n, p)) => {
            if n as usize <= b.len() - p {
                let end: usize = p + n as usize;
                Some((copy_range(b, p, end), end))
            } else {
                None
            }
        },
        None => None,
    }
}

/// Reads text at `pos`.
pub fn read_str(b: &[u8], pos: usize) -> (r: Option<(String, usize)>)
    ensures
        found_str(r) == dec_str(b@, pos as int),
{
    match read_len(Family::Text, b, pos) {
        Some((n, p)) => {
            if n as usize <= b.len() - p {
                let end: usize = p + n as usize;
                match string_from_utf8(copy_range(b, p, end)) {
                    Some(text) => Some((text, end)),
                    None => None,
                }
            } else {
                None
            }
        },
        None => None,
    }
}

/// Reads a 128-bit identifier at `pos`.
pub fn read_id(b: &[u8], pos: usize) -> (r: Option<(u128, usize)>)
    ensures
        found128(r) == dec_id(b@, pos as int),
{
    match read_len(Family::Bytes, b, pos) {
        Some((n, p)) => {
            if n == 16 && 16 <= b.len() - p {
                Some((get_be128(b, p), p + 16))
            } else {
                None
            }
        },
        None => None,
    }
}

/// Where the bytes behind an expected pattern begin, if the pattern stands at `pos`.
pub open spec fn dec_exact(b: Seq<u8>, pos: int, pat: Seq<u8>) -> Option<int> {
    if starts_with_at(b, pos, pat) {
        Some(pos + pat.len())
    } else {
        None
    }
}

/// What a reader that only moves forward found.
pub open spec fn found_pos(r: Option<usize>) -> Option<int> {
    match r {
        Some(p) => Some(p as int),
        None => None,
    }
}

/// Steps over `pat` if it stands at `pos`.
pub fn expect_bytes(b: &[u8], pos: usize, pat: &[u8]) -> (r: Option<usize>)
    ensures
        found_pos(r) == dec_exact(b@, pos as int, pat@),
{
    if pos > b.len() || pat.len() > b.len() - pos {
        return None;
    }
    let mut i: usize = 0;
    while i < pat.len()
        invariant
            i <= pat@.len(),
            pos + pat@.len() <= b@.len() <= usize::MAX,
            b@.subrange(pos as int, pos + i) == pat@.subrange(0, i as int),
        decreases pat@.len() - i,
    {
        if b[pos + i] != pat[i] {
            proof {
                if starts_with_at(b@, pos as int, pat@) {
                    assert(b@.subrange(pos as int, pos + pat@.len())[i as int] == pat@[i as int]);
                }
            }
            return None;
        }
        assert(b@.subrange(pos as int, pos + i + 1) =~= b@.subrange(pos as int, pos + i).push(
            b@[pos + i],
        ));
        assert(pat@.subrange(0, i + 1) =~= pat@.subrange(0, i as int).push(pat@[i as int]));
        i += 1;
    }
    assert(pat@.subrange(0, pat@.len() as int) =~= pat@);
    Some(pos + pat.len())
}

/// Steps over the header of a map of exactly `n` entries, in its shortest form.
pub fn expect_table(b: &[u8], pos: usize, n: u32) -> (r: Option<usize>)
    ensures
        found_pos(r) == dec_exact(b@, pos as int, enc_len(Family::Table, n as int)),
{
    let mut pat: Vec<u8> = Vec::new();
    put_len(&mut pat, Family::Table, n);
    assert(pat@ =~= enc_len(Family::Table, n as int));
    expect_bytes(b, pos, pat.as_slice())
}

/// Where the bytes behind the key `name` begin, if that key stands at `pos` in its shortest
/// form.
pub open spec fn dec_key(b: Seq<u8>, pos: int, name: Seq<char>) -> Option<int> {
    if encode_utf8(name).len() <= MAX_LEN {
        dec_exact(b, pos, enc_str(name))
    } else {
        None
    }
}

/// Steps over a key that spells exactly `name`, in its shortest form.
pub fn expect_key(b: &[u8], pos: usize, name: &str) -> (r: Option<usize>)
    ensures
        found_pos(r) == dec_key(b@, pos as int, name@),
{
    let mut pat: Vec<u8> = Vec::new();
    if !put_str(&mut pat, name) {
        return None;
    }
    assert(pat@ =~= enc_str(name@));
    expect_bytes(b, pos, pat.as_slice())
}

/// The elements that stand one behind the other from `pos` on, each read by `item`, up to
/// the `k`-th, and where they end.
pub open spec fn dec_items<T>(
    item: spec_fn(Seq<u8>, int) -> Option<(T, int)>,
    b: Seq<u8>,
    pos: int,
    k: nat,
) -> Option<(Seq<T>, int)>
    decreases k,
{
    if k == 0 {
        Some((Seq::empty(), pos))
    } else {
        match dec_items(item, b, pos, (k - 1) as nat) {
            Some((items, p)) => match item(b, p) {
                Some((v, q)) => Some((items.push(v), q)),
                None => None,
            },
            None => None,
        }
    }
}

/// Once an element cannot be read, no longer run of elements can be read either.
pub proof fn lemma_items_fail_on<T>(
    item: spec_fn(Seq<u8>, int) -> Option<(T, int)>,
    b: Seq<u8>,
    pos: int,
    k: nat,
    more: nat,
)
    requires
        k <= more,
        dec_items(item, b, pos, k) is None,
    ensures
        dec_items(item, b, pos, more) is None,
    decreases more,
{
    if k < more {
        lemma_items_fail_on(item, b, pos, k, (more - 1) as nat);
    }
}

/// The array at `pos`, each element read by `item`, and where it ends.
pub open spec fn dec_list<T>(
    item: spec_fn(Seq<u8>, int) -> Option<(T, int)>,
    b: Seq<u8>,
    pos: int,
) -> Option<(Seq<T>, int)> {
    match dec_len(Family::List, b, pos) {
        Some((n, p)) => dec_items(item, b, p, n as nat),
        None => None,
    }
}

} // verus!
