//! Records made of a numeric id and a text, and their wire format:
//! the id as four little-endian bytes, then the text as UTF-8.
use vstd::prelude::*;
use vstd::utf8::{decode_utf8, encode_utf8, valid_utf8};

use crate::udp::{fit_payload, FromUdp, ToUdp, UDP_MAX_PAYLOAD};

verus! {

/// std's error for bytes that are not UTF-8, carried through unopened.
#[verifier::external_type_specification]
#[verifier::external_body]
pub struct ExFromUtf8Error(std::string::FromUtf8Error);

/// Some data to carry: an id and a text.
#[derive(Debug, PartialEq)]
pub struct Record {
    pub id: u32,
    pub data: String,
}

/// The mathematical value of a [`Record`].
pub struct RecordView {
    pub id: u32,
    pub data: Seq<char>,
}

impl View for Record {
    type V = RecordView;

    open spec fn view(&self) -> RecordView {
        RecordView { id: self.id, data: self.data@ }
    }
}

/// What goes wrong while parsing a [`Record`] from bytes.
#[derive(Debug, PartialEq)]
pub enum ParseError {
    /// Fewer than 4 bytes were given; carries how many.
    Incomplete(usize),
    /// The bytes after the id are not valid UTF-8.
    Invalid(std::string::FromUtf8Error),
}

/// The four little-endian bytes of `n`.
pub open spec fn le_bytes(n: u32) -> Seq<u8> {
    seq![
        (n % 0x100) as u8,
        ((n / 0x100) % 0x100) as u8,
        ((n / 0x10000) % 0x100) as u8,
        (n / 0x1000000) as u8,
    ]
}

/// The integer whose little-endian bytes open `b`.
pub open spec fn le_value(b: Seq<u8>) -> int
    recommends
        b.len() >= 4,
{
    b[0] + 0x100 * b[1] + 0x10000 * b[2] + 0x1000000 * b[3]
}

/// The bytes of a record on the wire.
pub open spec fn record_bytes(id: u32, data: Seq<char>) -> Seq<u8> {
    le_bytes(id) + encode_utf8(data)
}

/// Relies on std's `String::from_utf8`: it succeeds exactly on valid UTF-8,
/// and then holds the characters that the bytes encode.
#[verifier::external_body]
fn string_from_utf8(v: Vec<u8>) -> (r: Result<String, std::string::FromUtf8Error>)
    ensures
        r is Ok <==> valid_utf8(v@),
        r is Ok ==> r->Ok_0@ == decode_utf8(v@),
{
    String::from_utf8(v)
}

/// Reads the id from the first four bytes of `buf`.
fn read_id(buf: &[u8]) -> (r: u32)
    requires
        buf@.len() >= 4,
    ensures
        r as int == le_value(buf@),
{
    let b0 = buf[0] as u32;
    let b1 = buf[1] as u32;
    let b2 = buf[2] as u32;
    let b3 = buf[3] as u32;
    b0 + 0x100 * b1 + 0x10000 * b2 + 0x1000000 * b3
}

/// Writes the four little-endian bytes of `n`.
fn id_bytes(n: u32) -> (r: Vec<u8>)
    ensures
        r@ == le_bytes(n),
{
    let mut v: Vec<u8> = Vec::new();
    v.push((n % 0x100) as u8);
    v.push(((n / 0x100) % 0x100) as u8);
    v.push(((n / 0x10000) % 0x100) as u8);
    v.push((n / 0x1000000) as u8);
    assert(v@ =~= le_bytes(n));
    v
}

/// The four little-endian bytes of an integer read back give that integer.
pub proof fn lemma_le_round_trip(n: u32)
    ensures
        le_value(le_bytes(n)) == n,
{
    let b = le_bytes(n);
    assert(b[0] == n % 0x100);
    assert(b[1] == (n / 0x100) % 0x100);
    assert(b[2] == (n / 0x10000) % 0x100);
    assert(b[3] == n / 0x1000000);
    assert(n % 0x100 + 0x100 * ((n / 0x100) % 0x100) + 0x10000 * ((n / 0x10000) % 0x100)
        + 0x1000000 * (n / 0x1000000) == n) by (nonlinear_arith)
        requires
            n <= 0xffff_ffff,
    ;
}

impl ToUdp for Record {
    open spec fn udp_bytes(&self) -> Seq<u8> {
        record_bytes(self.id, self.data@)
    }

    fn to_udp(&self) -> (r: Vec<u8>) {
        let mut v = id_bytes(self.id);
        v.extend_from_slice(self.data.as_str().as_bytes());
        v
    }
}

impl FromUdp for Record {
    type Error = ParseError;

    open spec fn udp_parsed(buf: Seq<u8>, r: Result<Record, ParseError>) -> bool {
        match r {
            Ok(rec) => buf.len() >= 4 && valid_utf8(buf.skip(4)) && rec.id == le_value(buf)
                && rec.data@ == decode_utf8(buf.skip(4)),
            Err(ParseError::Incomplete(n)) => buf.len() < 4 && n == buf.len(),
            Err(ParseError::Invalid(_)) => buf.len() >= 4 && !valid_utf8(buf.skip(4)),
        }
    }

    fn from_udp(buf: &[u8]) -> (r: Result<Record, ParseError>) {
        if buf.len() < 4 {
            return Err(ParseError::Incomplete(buf.len()));
        }
        let id = read_id(buf);
        let mut rest: Vec<u8> = Vec::new();
        let mut i: usize = 4;
        while i < buf.len()
            invariant
                4 <= i <= buf@.len(),
                rest@ == buf@.subrange(4, i as int),
            decreases buf@.len() - i,
        {
            rest.push(buf[i]);
            i = i + 1;
            assert(rest@ =~= buf@.subrange(4, i as int));
        }
        assert(rest@ =~= buf@.skip(4));
        match string_from_utf8(rest) {
            Ok(data) => Ok(Record { id, data }),
            Err(e) => Err(ParseError::Invalid(e)),
        }
    }
}

/// A record whose wire form fits in one datagram is sent whole, and the
/// payload parses back to that same record.
pub proof fn lemma_round_trip(rec: Record, r: Result<Record, ParseError>)
    requires
        4 + encode_utf8(rec.data@).len() <= UDP_MAX_PAYLOAD,
        Record::udp_parsed(fit_payload(rec.udp_bytes()), r),
    ensures
        fit_payload(rec.udp_bytes()) == rec.udp_bytes(),
        r is Ok,
        r->Ok_0@ == rec@,
{
    broadcast use vstd::utf8::encode_utf8_valid_utf8, vstd::utf8::encode_utf8_decode_utf8;

    let bytes = rec.udp_bytes();
    assert(bytes.skip(4) =~= encode_utf8(rec.data@));
    assert(bytes.take(4) =~= le_bytes(rec.id));
    lemma_le_round_trip(rec.id);
    assert(le_value(bytes) == le_value(le_bytes(rec.id)));
}

/// A buffer shorter than the id fails as incomplete, carrying its length.
pub proof fn lemma_incomplete(buf: Seq<u8>, r: Result<Record, ParseError>)
    requires
        buf.len() < 4,
        Record::udp_parsed(buf, r),
    ensures
        r matches Err(ParseError::Incomplete(n)) && n == buf.len(),
{
}

/// A buffer with an id whose remaining bytes are not valid UTF-8 fails as
/// invalid.
pub proof fn lemma_invalid(buf: Seq<u8>, r: Result<Record, ParseError>)
    requires
        buf.len() >= 4,
        !valid_utf8(buf.skip(4)),
        Record::udp_parsed(buf, r),
    ensures
        r matches Err(ParseError::Invalid(_)),
{
}

/// Parsing is a function of the bytes: two parses of one buffer agree on
/// the outcome and, when they succeed, on the record.
pub proof fn lemma_parse_deterministic(
    buf: Seq<u8>,
    r1: Result<Record, ParseError>,
    r2: Result<Record, ParseError>,
)
    requires
        Record::udp_parsed(buf, r1),
        Record::udp_parsed(buf, r2),
    ensures
        r1 is Ok <==> r2 is Ok,
        r1 is Ok ==> r1->Ok_0@ == r2->Ok_0@,
        r1 matches Err(ParseError::Incomplete(_)) <==> r2 matches Err(ParseError::Incomplete(_)),
        r1 matches Err(ParseError::Incomplete(n)) ==> r2 == Err::<Record, ParseError>(
            ParseError::Incomplete(n),
        ),
{
}

} // verus!
