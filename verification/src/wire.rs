//! Numbers and texts in the byte order of the network.

use vstd::prelude::*;
use vstd::utf8::{
    decode_utf8, encode_utf8, encode_utf8_decode_utf8, encode_utf8_valid_utf8, valid_utf8,
};

use crate::text::utf8_text;

verus! {

/// The power of 256 with the given exponent.
pub open spec fn pow256(n: nat) -> nat
    decreases n,
{
    if n == 0 {
        1
    } else {
        256 * pow256((n - 1) as nat)
    }
}

/// The number that bytes stand for, the most significant one first.
pub open spec fn be_value(bytes: Seq<u8>) -> nat
    decreases bytes.len(),
{
    if bytes.len() == 0 {
        0
    } else {
        256 * be_value(bytes.drop_last()) + bytes.last() as nat
    }
}

/// The bytes of a number, the most significant one first.
pub open spec fn be_bytes(value: nat, count: nat) -> Seq<u8>
    decreases count,
{
    if count == 0 {
        Seq::empty()
    } else {
        be_bytes(value / 256, (count - 1) as nat).push((value % 256) as u8)
    }
}

/// A signed number of 64 bits as an unsigned one with the same bits.
pub open spec fn bits_of(value: i64) -> nat {
    if value >= 0 {
        value as nat
    } else {
        (value + 0x1_0000_0000_0000_0000) as nat
    }
}

/// An unsigned number of 16 bits as a signed one with the same bits.
pub open spec fn signed16(bits: nat) -> int {
    if bits < 0x8000 {
        bits as int
    } else {
        bits - 0x1_0000
    }
}

/// An unsigned number of 32 bits as a signed one with the same bits.
pub open spec fn signed32(bits: nat) -> int {
    if bits < 0x8000_0000 {
        bits as int
    } else {
        bits - 0x1_0000_0000
    }
}

proof fn lemma_be_value_bound(bytes: Seq<u8>)
    ensures
        be_value(bytes) < pow256(bytes.len()),
    decreases bytes.len(),
{
    if bytes.len() > 0 {
        lemma_be_value_bound(bytes.drop_last());
    }
}

proof fn lemma_pow256()
    ensures
        pow256(1) == 0x100,
        pow256(2) == 0x1_0000,
        pow256(4) == 0x1_0000_0000,
        pow256(8) == 0x1_0000_0000_0000_0000,
{
    reveal_with_fuel(pow256, 9);
}

proof fn lemma_pow256_grows(m: nat, n: nat)
    requires
        m <= n,
    ensures
        0 < pow256(m) <= pow256(n),
    decreases n,
{
    if m < n {
        lemma_pow256_grows(m, (n - 1) as nat);
    } else if m > 0 {
        lemma_pow256_grows((m - 1) as nat, (n - 1) as nat);
    }
}

/// A number that fits into the given number of bytes is read back from them.
pub proof fn law_numbers_read_back(value: nat, count: nat)
    requires
        value < pow256(count),
    ensures
        be_bytes(value, count).len() == count,
        be_value(be_bytes(value, count)) == value,
    decreases count,
{
    if count > 0 {
        let rest = (count - 1) as nat;
        assert(value / 256 < pow256(rest));
        law_numbers_read_back(value / 256, rest);
        assert(be_bytes(value, count).drop_last() == be_bytes(value / 256, rest));
        assert((value % 256) as u8 as nat == value % 256);
    }
}

/// Any number has as many bytes as are asked for.
pub proof fn lemma_be_bytes_len(value: nat, count: nat)
    ensures
        be_bytes(value, count).len() == count,
    decreases count,
{
    if count > 0 {
        lemma_be_bytes_len(value / 256, (count - 1) as nat);
    }
}

/// Appends a number of up to 64 bits, the most significant byte first.
pub fn push_be(out: &mut Vec<u8>, value: u64, count: usize)
    ensures
        final(out)@ == old(out)@ + be_bytes(value as nat, count as nat),
    decreases count,
{
    if count > 0 {
        push_be(out, value / 256, count - 1);
        let byte: u8 = (value % 256) as u8;
        out.push(byte);
        assert(out@ == old(out)@ + be_bytes(value as nat, count as nat));
    } else {
        assert(out@ == old(out)@ + be_bytes(value as nat, 0));
    }
}

/// A signed number as an unsigned one with the same bits.
pub fn to_bits(value: i64) -> (bits: u64)
    ensures
        bits == bits_of(value),
{
    if value >= 0 {
        value as u64
    } else {
        let below: i64 = -(value + 1);
        u64::MAX - below as u64
    }
}

/// Takes a number from the front: the number, and what follows it.
pub open spec fn take_be(data: Seq<u8>, count: nat) -> Option<(nat, Seq<u8>)> {
    if count <= data.len() {
        Some((be_value(data.take(count as int)), data.skip(count as int)))
    } else {
        None
    }
}

/// Takes bytes from the front: the bytes, and what follows them.
pub open spec fn take_bytes(data: Seq<u8>, count: int) -> Option<(Seq<u8>, Seq<u8>)> {
    if 0 <= count <= data.len() {
        Some((data.take(count), data.skip(count)))
    } else {
        None
    }
}

/// Takes a text from the front that a zero byte ends: the text, and what follows
/// the zero byte.
pub open spec fn take_text(data: Seq<u8>) -> Option<(Seq<char>, Seq<u8>)> {
    match data.index_of_first(0) {
        Some(end) => if valid_utf8(data.take(end)) {
            Some((decode_utf8(data.take(end)), data.skip(end + 1)))
        } else {
            None
        },
        None => None,
    }
}

/// Takes a text from the front whose length in bytes stands before it: the text,
/// and what follows it.
pub open spec fn take_sized_text(data: Seq<u8>) -> Option<(Seq<char>, Seq<u8>)> {
    match take_be(data, 4) {
        None => None,
        Some((size, rest)) => match take_bytes(rest, signed32(size)) {
            None => None,
            Some((bytes, rest)) => if valid_utf8(bytes) {
                Some((decode_utf8(bytes), rest))
            } else {
                None
            },
        },
    }
}

/// Reads numbers and texts from bytes, one after the other.
pub struct Reader<'a> {
    data: &'a [u8],
    at: usize,
}

impl<'a> View for Reader<'a> {
    type V = Seq<u8>;

    /// What is left to read.
    closed spec fn view(&self) -> Seq<u8> {
        self.data@.skip(self.at as int)
    }
}

impl<'a> Reader<'a> {
    #[verifier::type_invariant]
    spec fn within(self) -> bool {
        self.at <= self.data@.len()
    }

    /// A reader of all the given bytes.
    pub fn new(data: &'a [u8]) -> (reader: Reader<'a>)
        ensures
            reader@ == data@,
    {
        let reader = Reader { data, at: 0 };
        assert(reader@ == data@);
        reader
    }

    /// Reads a number of up to 64 bits.
    fn read_be(&mut self, count: usize) -> (value: Option<u64>)
        requires
            count <= 8,
        ensures
            match take_be(old(self)@, count as nat) {
                Some((v, rest)) => value == Some(v as u64) && v < pow256(count as nat) && v
                    <= u64::MAX && final(self)@ == rest,
                None => value is None,
            },
    {
        proof {
            use_type_invariant(&*self);
        }
        let ghost start = self@;
        if count > self.data.len() - self.at {
            return None;
        }
        let mut value: u64 = 0;
        let begin: usize = self.at;
        let data: &[u8] = self.data;
        for i in 0..count
            invariant
                count <= 8,
                begin + count <= data@.len(),
                begin + count <= usize::MAX,
                start == data@.skip(begin as int),
                value == be_value(start.take(i as int)),
        {
            proof {
                assert(start.take(i + 1).drop_last() == start.take(i as int));
                lemma_be_value_bound(start.take(i + 1));
                lemma_pow256_grows((i + 1) as nat, 8);
                lemma_pow256();
            }
            value = value * 256 + data[begin + i] as u64;
        }
        proof {
            lemma_be_value_bound(start.take(count as int));
        }
        self.at = begin + count;
        assert(self@ == start.skip(count as int));
        Some(value)
    }

    /// Reads a number of 8 bits.
    pub fn read_u8(&mut self) -> (value: Option<u8>)
        ensures
            match take_be(old(self)@, 1) {
                Some((v, rest)) => value == Some(v as u8) && v <= u8::MAX && final(self)@ == rest,
                None => value is None,
            },
    {
        proof {
            lemma_pow256();
        }
        match self.read_be(1) {
            Some(v) => Some(v as u8),
            None => None,
        }
    }

    /// Reads a signed number of 16 bits.
    pub fn read_i16(&mut self) -> (value: Option<i16>)
        ensures
            match take_be(old(self)@, 2) {
                Some((v, rest)) => value == Some(signed16(v) as i16) && i16::MIN <= signed16(v)
                    <= i16::MAX && final(self)@ == rest,
                None => value is None,
            },
    {
        proof {
            lemma_pow256();
        }
        match self.read_be(2) {
            Some(v) => Some(
                if v < 0x8000 {
                    v as i16
                } else {
                    (v as i64 - 0x1_0000) as i16
                },
            ),
            None => None,
        }
    }

    /// Reads a number of 32 bits.
    pub fn read_u32(&mut self) -> (value: Option<u32>)
        ensures
            match take_be(old(self)@, 4) {
                Some((v, rest)) => value == Some(v as u32) && v <= u32::MAX && final(self)@ == rest,
                None => value is None,
            },
    {
        proof {
            lemma_pow256();
        }
        match self.read_be(4) {
            Some(v) => Some(v as u32),
            None => None,
        }
    }

    /// Reads a number of 64 bits.
    pub fn read_u64(&mut self) -> (value: Option<u64>)
        ensures
            match take_be(old(self)@, 8) {
                Some((v, rest)) => value == Some(v as u64) && v <= u64::MAX && final(self)@ == rest,
                None => value is None,
            },
    {
        self.read_be(8)
    }

    /// Reads the given number of bytes.
    fn read_bytes(&mut self, count: usize) -> (bytes: Option<&'a [u8]>)
        ensures
            match take_bytes(old(self)@, count as int) {
                Some((b, rest)) => bytes is Some && bytes->0@ == b && final(self)@ == rest,
                None => bytes is None,
            },
    {
        proof {
            use_type_invariant(&*self);
        }
        let ghost start = self@;
        if count > self.data.len() - self.at {
            return None;
        }
        let begin: usize = self.at;
        let bytes = vstd::slice::slice_subrange(self.data, begin, begin + count);
        self.at = begin + count;
        assert(self@ == start.skip(count as int));
        assert(bytes@ == start.take(count as int));
        Some(bytes)
    }

    /// Reads all that is left.
    pub fn read_rest(&mut self) -> (bytes: Vec<u8>)
        ensures
            bytes@ == old(self)@,
            final(self)@ == Seq::<u8>::empty(),
    {
        proof {
            use_type_invariant(&*self);
        }
        let ghost start = self@;
        let begin: usize = self.at;
        let data: &[u8] = self.data;
        let mut bytes: Vec<u8> = Vec::new();
        for i in begin..data.len()
            invariant
                begin <= i <= data@.len(),
                start == data@.skip(begin as int),
                bytes@ == start.take(i - begin),
        {
            bytes.push(data[i]);
            assert(bytes@ == start.take(i + 1 - begin));
        }
        self.at = data.len();
        assert(bytes@ == start);
        assert(self@ == Seq::<u8>::empty());
        bytes
    }

    /// Reads a text that a zero byte ends.
    pub fn read_text(&mut self) -> (text: Option<String>)
        ensures
            match take_text(old(self)@) {
                Some((t, rest)) => text is Some && text->0@ == t && final(self)@ == rest,
                None => text is None,
            },
    {
        proof {
            use_type_invariant(&*self);
        }
        let ghost start = self@;
        proof {
            start.index_of_first_ensures(0);
        }
        let begin: usize = self.at;
        let data: &[u8] = self.data;
        let mut end: usize = begin;
        while end < data.len() && data[end] != 0
            invariant
                begin <= end <= data@.len(),
                start == data@.skip(begin as int),
                forall|j: int| 0 <= j < end - begin ==> #[trigger] start[j] != 0,
            decreases data@.len() - end,
        {
            assert(start[end - begin] != 0);
            end = end + 1;
        }
        let ghost found = end - begin;
        if end == data.len() {
            assert(found == start.len());
            assert(!start.contains(0));
            return None;
        }
        assert(start[found] == 0);
        assert(start.index_of_first(0) == Some(found));
        let bytes = vstd::slice::slice_subrange(data, begin, end);
        assert(bytes@ == start.take(found));
        let text = utf8_text(bytes);
        self.at = end + 1;
        assert(self@ == start.skip(found + 1));
        text
    }

    /// Reads a text whose length in bytes stands before it.
    pub fn read_sized_text(&mut self) -> (text: Option<String>)
        ensures
            match take_sized_text(old(self)@) {
                Some((t, rest)) => text is Some && text->0@ == t && final(self)@ == rest,
                None => text is None,
            },
    {
        let size = match self.read_u32() {
            Some(size) => size,
            None => return None,
        };
        if size >= 0x8000_0000 {
            return None;
        }
        match self.read_bytes(size as usize) {
            Some(bytes) => utf8_text(bytes),
            None => None,
        }
    }
}

/// A byte more makes a number 256 times as great, plus the byte.
pub proof fn law_each_byte_counts(bytes: Seq<u8>, byte: u8)
    ensures
        be_value(Seq::<u8>::empty()) == 0,
        be_value(bytes.push(byte)) == 256 * be_value(bytes) + byte,
{
    assert(bytes.push(byte).drop_last() == bytes);
}

/// Signed and unsigned numbers with the same bits differ by nothing, or by the number
/// of all such numbers.
pub proof fn law_signed_numbers(value: i64, bits16: nat, bits32: nat)
    requires
        bits16 < 0x1_0000,
        bits32 < 0x1_0000_0000,
    ensures
        bits_of(value) == value || bits_of(value) == value + 0x1_0000_0000_0000_0000,
        0 <= bits_of(value) < 0x1_0000_0000_0000_0000,
        signed16(bits16) == bits16 || signed16(bits16) == bits16 - 0x1_0000,
        -0x8000 <= signed16(bits16) < 0x8000,
        signed32(bits32) == bits32 || signed32(bits32) == bits32 - 0x1_0000_0000,
        -0x8000_0000 <= signed32(bits32) < 0x8000_0000,
{
}

/// What is taken from the front and what is left make up the whole.
pub proof fn law_taking_leaves_the_rest(bytes: Seq<u8>, rest: Seq<u8>, count: nat)
    ensures
        take_be(bytes + rest, bytes.len()) == Some((be_value(bytes), rest)),
        take_bytes(bytes + rest, bytes.len() as int) == Some((bytes, rest)),
        count > bytes.len() ==> take_be(bytes, count) is None,
        count > bytes.len() ==> take_bytes(bytes, count as int) is None,
{
    assert((bytes + rest).take(bytes.len() as int) == bytes);
    assert((bytes + rest).skip(bytes.len() as int) == rest);
}

/// A text that was written, with a zero byte behind it or with its length before it,
/// is read back, and what follows it is left.
pub proof fn law_texts_read_back(text: Seq<char>, rest: Seq<u8>)
    ensures
        !encode_utf8(text).contains(0) ==> take_text(encode_utf8(text) + seq![0u8] + rest) == Some(
            (text, rest),
        ),
        encode_utf8(text).len() < 0x8000_0000 ==> take_sized_text(
            be_bytes(encode_utf8(text).len(), 4) + encode_utf8(text) + rest,
        ) == Some((text, rest)),
{
    let bytes = encode_utf8(text);
    encode_utf8_valid_utf8(text);
    encode_utf8_decode_utf8(text);
    if !bytes.contains(0) {
        let data = bytes + seq![0u8] + rest;
        let end = bytes.len() as int;
        data.index_of_first_ensures(0);
        assert(data[end] == 0);
        let found = data.index_of_first(0)->0;
        if found < end {
            assert(bytes[found] == 0);
        }
        assert(data.take(end) == bytes);
        assert(data.skip(end + 1) == rest);
    }
    if bytes.len() < 0x8000_0000 {
        lemma_pow256();
        let head = be_bytes(bytes.len(), 4);
        law_numbers_read_back(bytes.len(), 4);
        let data = head + bytes + rest;
        assert(data == head + (bytes + rest));
        law_taking_leaves_the_rest(head, bytes + rest, 0);
        law_taking_leaves_the_rest(bytes, rest, 0);
    }
}

/// A text is read exactly if its end is there and its bytes are UTF-8: up to the first zero
/// byte, or of the length that stands before it, which is not negative and not more than
/// what follows.
pub proof fn law_when_a_text_is_read(bytes: Seq<u8>, rest: Seq<u8>, size: nat)
    requires
        !bytes.contains(0),
        size < 0x1_0000_0000,
    ensures
        take_text(bytes) is None,
        take_text(bytes + seq![0u8] + rest) == (if valid_utf8(bytes) {
            Some((decode_utf8(bytes), rest))
        } else {
            None
        }),
        take_sized_text(be_bytes(size, 4) + rest) == (if size < 0x8000_0000 && size <= rest.len()
            && valid_utf8(rest.take(size as int)) {
            Some((decode_utf8(rest.take(size as int)), rest.skip(size as int)))
        } else {
            None
        }),
        bytes.len() < 4 ==> take_sized_text(bytes) is None,
{
    bytes.index_of_first_ensures(0);
    let data = bytes + seq![0u8] + rest;
    let end = bytes.len() as int;
    data.index_of_first_ensures(0);
    assert(data[end] == 0);
    let found = data.index_of_first(0)->0;
    if found < end {
        assert(bytes[found] == 0);
    }
    assert(data.take(end) == bytes);
    assert(data.skip(end + 1) == rest);
    lemma_pow256();
    law_numbers_read_back(size, 4);
    law_taking_leaves_the_rest(be_bytes(size, 4), rest, 0);
}

} // verus!
