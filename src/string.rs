//! Text values and their canonical wire encoding.
//!
//! A text payload is its UTF-8 bytes, preceded by a header whose size grows
//! with the payload: one marker byte carrying the length (up to 15 bytes), or
//! a marker followed by a one-, two- or four-byte big-endian length.
use crate::errors::Error;
use crate::version::{is_string_marker, string_marker_legal, Version};
use crate::wire::{
    be16_bytes, be16_value, be32_bytes, be32_value, buf_view, bytes_view, freeze, new_sink,
    put_slice, put_u16, put_u32, put_u8, remaining, reserve, take_bytes, take_u16, take_u32,
    take_u8,
};
use bytes::{Bytes, BytesMut};
use vstd::prelude::*;
use vstd::utf8::{decode_utf8, encode_utf8, valid_utf8};

verus! {

/// Marker of a text of 0 to 15 bytes; its low nibble holds the length.
pub const TINY: u8 = 0x80;

/// Marker of a text of 16 to 255 bytes, followed by a one-byte length.
pub const SMALL: u8 = 0xD0;

/// Marker of a text of 256 to 65,535 bytes, followed by a two-byte length.
pub const MEDIUM: u8 = 0xD1;

/// Marker of a text of 65,536 to 4,294,967,295 bytes, followed by a
/// four-byte length.
pub const LARGE: u8 = 0xD2;

/// The largest payload, in bytes, that any header can announce.
pub const MAX_TEXT_BYTES: u64 = 0xFFFF_FFFF;

/// A text value of the wire format.
#[derive(Debug, PartialEq, Eq, Hash, Clone)]
pub struct BoltString {
    pub value: String,
}

/// Whether a payload of `n` bytes can be announced at all.
pub open spec fn payload_fits(n: nat) -> bool {
    n <= MAX_TEXT_BYTES
}

/// Length tier chosen for a payload of `n` bytes: 0 tiny, 1 small, 2 medium,
/// 3 large.
pub open spec fn tier_of(n: nat) -> nat {
    if n <= 15 {
        0
    } else if n <= 255 {
        1
    } else if n <= 65535 {
        2
    } else {
        3
    }
}

/// The largest payload that tier `t` can announce.
pub open spec fn tier_capacity(t: nat) -> nat {
    if t == 0 {
        15
    } else if t == 1 {
        255
    } else if t == 2 {
        65535
    } else {
        MAX_TEXT_BYTES as nat
    }
}

/// Size of the header of tier `t`.
pub open spec fn tier_header_len(t: nat) -> nat {
    if t == 0 {
        1
    } else if t == 1 {
        2
    } else if t == 2 {
        3
    } else {
        5
    }
}

/// The header announcing a payload of `n` bytes.
pub open spec fn text_header(n: nat) -> Seq<u8> {
    if n <= 15 {
        seq![(TINY as nat + n) as u8]
    } else if n <= 255 {
        seq![SMALL, n as u8]
    } else if n <= 65535 {
        seq![MEDIUM] + be16_bytes(n)
    } else {
        seq![LARGE] + be32_bytes(n)
    }
}

/// The canonical encoding of the text `s`.
pub open spec fn encoded_text(s: Seq<char>) -> Seq<u8> {
    text_header(encode_utf8(s).len()) + encode_utf8(s)
}

/// The header at the start of `b`, as (header size, announced payload
/// size), when `b` starts with a complete one.
pub open spec fn read_text_header(b: Seq<u8>) -> Option<(nat, nat)> {
    if b.len() == 0 {
        None
    } else if TINY <= b[0] && b[0] <= 0x8F {
        Some((1, (b[0] - TINY) as nat))
    } else if b[0] == SMALL && b.len() >= 2 {
        Some((2, b[1] as nat))
    } else if b[0] == MEDIUM && b.len() >= 3 {
        Some((3, be16_value(b[1], b[2])))
    } else if b[0] == LARGE && b.len() >= 5 {
        Some((5, be32_value(b[1], b[2], b[3], b[4])))
    } else {
        None
    }
}

/// Decoding a text from the start of `b`: the text and the number of bytes
/// it occupies, or the error that decoding reports.
pub open spec fn decode_text(version: Version, b: Seq<u8>) -> Result<(Seq<char>, nat), Error> {
    if b.len() == 0 {
        Err(Error::Malformed)
    } else if !string_marker_legal(version, b[0]) {
        Err(Error::InvalidMarker(b[0]))
    } else {
        match read_text_header(b) {
            None => Err(Error::Malformed),
            Some((h, n)) => if h + n > b.len() {
                Err(Error::Malformed)
            } else if !valid_utf8(b.subrange(h as int, (h + n) as int)) {
                Err(Error::Malformed)
            } else {
                Ok((decode_utf8(b.subrange(h as int, (h + n) as int)), h + n))
            },
        }
    }
}

proof fn lemma_be16_inverse(n: nat)
    requires
        n <= 0xFFFF,
    ensures
        be16_value(be16_bytes(n)[0], be16_bytes(n)[1]) == n,
{
    vstd::arithmetic::div_mod::lemma_fundamental_div_mod(n as int, 0x100);
    assert(n / 0x100 < 0x100) by (nonlinear_arith)
        requires
            n <= 0xFFFF,
    ;
}

proof fn lemma_be32_inverse(n: nat)
    requires
        n <= 0xFFFF_FFFF,
    ensures
        be32_value(be32_bytes(n)[0], be32_bytes(n)[1], be32_bytes(n)[2], be32_bytes(n)[3]) == n,
{
    let x = n as u32;
    assert(x == (x / 0x100_0000) * 0x100_0000 + ((x / 0x1_0000) % 0x100) * 0x1_0000 + ((x / 0x100)
        % 0x100) * 0x100 + x % 0x100) by (bit_vector);
    assert(x / 0x100_0000 < 0x100) by (bit_vector);
}

/// Round trip: decoding the canonical encoding of any text that fits, with
/// any bytes after it, gives back that text and consumes exactly the
/// encoding, whose size is the header of the text's tier plus the payload.
pub proof fn lemma_text_round_trip(version: Version, s: Seq<char>, rest: Seq<u8>)
    requires
        payload_fits(encode_utf8(s).len()),
    ensures
        decode_text(version, encoded_text(s) + rest) == Ok::<(Seq<char>, nat), Error>(
            (s, encoded_text(s).len()),
        ),
        encoded_text(s).len() == tier_header_len(tier_of(encode_utf8(s).len())) + encode_utf8(
            s,
        ).len(),
{
    let p = encode_utf8(s);
    let n = p.len();
    let h = text_header(n);
    let b = encoded_text(s) + rest;
    if n > 65535 {
        lemma_be32_inverse(n);
    } else if n > 255 {
        lemma_be16_inverse(n);
    }
    assert(read_text_header(b) == Some((h.len(), n)));
    assert(b.subrange(h.len() as int, (h.len() + n) as int) == p);
    vstd::utf8::encode_utf8_valid_utf8(s);
    vstd::utf8::encode_utf8_decode_utf8(s);
}

/// Canonicality: the tier chosen for a payload is the smallest that can
/// announce it, so every tier able to carry the payload has a header at
/// least as long as the one written.
pub proof fn lemma_text_canonical(n: nat, t: nat)
    requires
        payload_fits(n),
        t <= 3,
        n <= tier_capacity(t),
    ensures
        n <= tier_capacity(tier_of(n)),
        tier_of(n) <= t,
        text_header(n).len() == tier_header_len(tier_of(n)),
        tier_header_len(tier_of(n)) <= tier_header_len(t),
{
}

/// Canonicality: no byte sequence that decodes, as a whole, to a text is
/// shorter than that text's canonical encoding.
pub proof fn lemma_no_shorter_encoding(version: Version, e: Seq<u8>, s: Seq<char>)
    requires
        decode_text(version, e) == Ok::<(Seq<char>, nat), Error>((s, e.len())),
    ensures
        encoded_text(s).len() <= e.len(),
{
    let (h, n) = read_text_header(e).unwrap();
    let payload = e.subrange(h as int, (h + n) as int);
    vstd::utf8::decode_utf8_encode_utf8(payload);
    assert(encode_utf8(s) == payload);
    assert(encode_utf8(s).len() == n);
    assert(text_header(n).len() <= h);
}

/// The canonical encodings of `texts`, one after another.
pub open spec fn encoded_texts(texts: Seq<Seq<char>>) -> Seq<u8>
    decreases texts.len(),
{
    if texts.len() == 0 {
        Seq::empty()
    } else {
        encoded_text(texts[0]) + encoded_texts(texts.drop_first())
    }
}

/// Decoding `k` texts one after another from `b`, each starting where the
/// previous one ended, as `k` successive calls of `BoltString::parse` do.
pub open spec fn decode_texts(version: Version, b: Seq<u8>, k: nat) -> Result<Seq<Seq<char>>, Error>
    decreases k,
{
    if k == 0 {
        Ok(Seq::empty())
    } else {
        match decode_text(version, b) {
            Err(e) => Err(e),
            Ok((s, used)) => match decode_texts(
                version,
                b.subrange(used as int, b.len() as int),
                (k - 1) as nat,
            ) {
                Ok(more) => Ok(seq![s] + more),
                Err(e) => Err(e),
            },
        }
    }
}

/// Order: decoding texts one after another from their encodings laid end
/// to end gives them back in the order they were written.
pub proof fn lemma_texts_in_order(version: Version, texts: Seq<Seq<char>>, rest: Seq<u8>)
    requires
        forall|i: int| 0 <= i < texts.len() ==> payload_fits(#[trigger] encode_utf8(texts[i]).len()),
    ensures
        decode_texts(version, encoded_texts(texts) + rest, texts.len()) == Ok::<
            Seq<Seq<char>>,
            Error,
        >(texts),
    decreases texts.len(),
{
    if texts.len() > 0 {
        let tail = texts.drop_first();
        let after = encoded_texts(tail) + rest;
        assert(forall|i: int| 0 <= i < tail.len() ==> tail[i] == texts[i + 1]);
        lemma_texts_in_order(version, tail, rest);
        lemma_text_round_trip(version, texts[0], after);
        let b = encoded_texts(texts) + rest;
        assert(b == encoded_text(texts[0]) + after);
        let used = encoded_text(texts[0]).len();
        assert(b.subrange(used as int, b.len() as int) == after);
        assert(seq![texts[0]] + tail == texts);
        assert(decode_text(version, b) == Ok::<(Seq<char>, nat), Error>((texts[0], used)));
        assert((texts.len() - 1) as nat == tail.len());
    } else {
        assert(texts == Seq::<Seq<char>>::empty());
    }
}

/// Relies on `std::str::from_utf8`: it accepts exactly the valid UTF-8 byte
/// sequences, and then yields the text they encode.
#[verifier::external_body]
fn utf8_text(b: &[u8]) -> (r: Option<String>)
    ensures
        r is Some <==> valid_utf8(b@),
        r matches Some(s) ==> s@ == decode_utf8(b@),
{
    match std::str::from_utf8(b) {
        Ok(t) => Some(t.to_owned()),
        Err(_) => None,
    }
}

impl From<String> for BoltString {
    fn from(value: String) -> (r: Self) {
        BoltString { value }
    }
}

impl vstd::std_specs::convert::FromSpecImpl<String> for BoltString {
    open spec fn obeys_from_spec() -> bool {
        true
    }

    open spec fn from_spec(value: String) -> BoltString {
        BoltString { value }
    }
}

impl From<BoltString> for String {
    fn from(value: BoltString) -> (r: Self) {
        value.value
    }
}

impl vstd::std_specs::convert::FromSpecImpl<BoltString> for String {
    open spec fn obeys_from_spec() -> bool {
        true
    }

    open spec fn from_spec(value: BoltString) -> String {
        value.value
    }
}

impl<'a> From<&'a str> for BoltString {
    fn from(value: &'a str) -> (r: Self)
        ensures
            r.value@ == value@,
    {
        BoltString::new(value)
    }
}

// The result owns a fresh `String`, so it is pinned by its text (the
// `ensures` of `from` above) rather than by a value equal to a spec
// expression.
impl<'a> vstd::std_specs::convert::FromSpecImpl<&'a str> for BoltString {
    open spec fn obeys_from_spec() -> bool {
        false
    }

    open spec fn from_spec(value: &'a str) -> BoltString {
        vstd::pervasive::arbitrary()
    }
}

impl std::borrow::Borrow<str> for BoltString {
    fn borrow(&self) -> &str {
        self.value.as_str()
    }
}

impl BoltString {
    /// The text, as an owned `String`.
    pub fn to_string(&self) -> (r: String)
        ensures
            r == self.value,
    {
        self.value.clone()
    }

    /// A text value holding a copy of `value`.
    pub fn new(value: &str) -> (r: Self)
        ensures
            r.value@ == value@,
    {
        BoltString { value: value.to_owned() }
    }

    /// Whether the first byte of `input` opens an encoded text under
    /// `version`. Reads nothing past that byte and consumes nothing.
    pub fn can_parse(version: Version, input: &[u8]) -> (r: bool)
        ensures
            r == (input@.len() > 0 && string_marker_legal(version, input@[0])),
    {
        if input.len() == 0 {
            false
        } else {
            is_string_marker(version, input[0])
        }
    }
    /// Decodes one text from the front of `input`, consuming exactly its
    /// marker, length field and payload.
    pub fn parse(version: Version, input: &mut Bytes) -> (r: Result<BoltString, Error>)
        ensures
            match decode_text(version, bytes_view(*old(input))) {
                Ok((s, used)) => r matches Ok(v) && v.value@ == s && bytes_view(*final(input))
                    == bytes_view(*old(input)).subrange(
                    used as int,
                    bytes_view(*old(input)).len() as int,
                ),
                Err(e) => r == Err::<BoltString, Error>(e),
            },
    {
        let ghost b = bytes_view(*input);
        let avail = remaining(input);
        if avail == 0 {
            return Err(Error::Malformed);
        }
        let marker = take_u8(input);
        if !is_string_marker(version, marker) {
            return Err(Error::InvalidMarker(marker));
        }
        let header: usize;
        let length: usize;
        if marker <= 0x8F {
            header = 1;
            length = (marker - TINY) as usize;
        } else if marker == SMALL {
            if avail < 2 {
                return Err(Error::Malformed);
            }
            header = 2;
            length = take_u8(input) as usize;
        } else if marker == MEDIUM {
            if avail < 3 {
                return Err(Error::Malformed);
            }
            header = 3;
            length = take_u16(input) as usize;
        } else {
            if avail < 5 {
                return Err(Error::Malformed);
            }
            header = 5;
            length = take_u32(input) as usize;
        }
        assert(read_text_header(b) == Some((header as nat, length as nat)));
        assert(bytes_view(*input) == b.subrange(header as int, b.len() as int));
        if length > remaining(input) {
            return Err(Error::Malformed);
        }
        let payload = take_bytes(input, length);
        assert(payload@ == b.subrange(header as int, header + length));
        match utf8_text(payload.as_slice()) {
            Some(t) => Ok(BoltString { value: t }),
            None => Err(Error::Malformed),
        }
    }

    /// Appends the canonical encoding of this text to `bytes`, reserving room
    /// for all of it first. A payload beyond the largest tier is refused and
    /// leaves `bytes` as it was.
    pub fn write_into(&self, version: Version, bytes: &mut BytesMut) -> (r: Result<(), Error>)
        requires
            buf_view(*old(bytes)).len() + encode_utf8(self.value@).len() + 5 <= isize::MAX,
        ensures
            payload_fits(encode_utf8(self.value@).len()) ==> r == Ok::<(), Error>(())
                && buf_view(*final(bytes)) == buf_view(*old(bytes)) + encoded_text(self.value@),
            payload_fits(encode_utf8(self.value@).len()) ==> buf_view(*final(bytes)).len()
                == buf_view(*old(bytes)).len() + tier_header_len(
                tier_of(encode_utf8(self.value@).len()),
            ) + encode_utf8(self.value@).len(),
            !payload_fits(encode_utf8(self.value@).len()) ==> r == Err::<(), Error>(
                Error::PayloadTooLarge,
            ) && buf_view(*final(bytes)) == buf_view(*old(bytes)),
    {
        let payload = self.value.as_str().as_bytes();
        let n = payload.len();
        let ghost start = buf_view(*bytes);
        if n <= 15 {
            reserve(bytes, 1 + n);
            put_u8(bytes, TINY + n as u8);
        } else if n <= 255 {
            reserve(bytes, 2 + n);
            put_u8(bytes, SMALL);
            put_u8(bytes, n as u8);
            assert(buf_view(*bytes) == start + seq![SMALL, n as u8]);
        } else if n <= 65_535 {
            reserve(bytes, 3 + n);
            put_u8(bytes, MEDIUM);
            put_u16(bytes, n as u16);
            assert(buf_view(*bytes) == start + (seq![MEDIUM] + be16_bytes(n as nat)));
        } else if n as u64 <= MAX_TEXT_BYTES {
            reserve(bytes, 5 + n);
            put_u8(bytes, LARGE);
            put_u32(bytes, n as u32);
            assert(buf_view(*bytes) == start + (seq![LARGE] + be32_bytes(n as nat)));
        } else {
            return Err(Error::PayloadTooLarge);
        }
        put_slice(bytes, payload);
        assert(buf_view(*bytes) == start + encoded_text(self.value@));
        Ok(())
    }

    /// The canonical encoding of this text as a fresh byte cursor.
    pub fn into_bytes(&self, version: Version) -> (r: Result<Bytes, Error>)
        requires
            encode_utf8(self.value@).len() + 5 <= isize::MAX,
        ensures
            payload_fits(encode_utf8(self.value@).len()) ==> (r matches Ok(b) && bytes_view(b)
                == encoded_text(self.value@)),
            !payload_fits(encode_utf8(self.value@).len()) ==> (r matches Err(e) && e
                == Error::PayloadTooLarge),
    {
        let mut sink = new_sink();
        match self.write_into(version, &mut sink) {
            Ok(()) => Ok(freeze(sink)),
            Err(e) => Err(e),
        }
    }
}

} // verus!
