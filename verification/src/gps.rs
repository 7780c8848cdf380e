//! Parsing of the NMEA 0183 sentences that the GPS receiver sends, one per
//! read of its UART.

use vstd::prelude::*;

verus! {

#[verifier::external_type_specification]
#[verifier::external_body]
pub struct ExParseResult(nmea::ParseResult);

#[verifier::external_type_specification]
#[verifier::external_body]
pub struct ExNmeaError<'a>(nmea::Error<'a>);

/// The longest sentence, in bytes, that the parser takes.
pub const SENTENCE_MAX_LEN: usize = 102;

/// The sentence that `nmea::parse_bytes` parses `data` into, if it parses.
pub uninterp spec fn nmea_parse(data: Seq<u8>) -> Option<nmea::ParseResult>;

/// Whether `nmea::parse_bytes` parses `data` into a sentence.
pub open spec fn nmea_parses(data: Seq<u8>) -> bool {
    nmea_parse(data) is Some
}

/// What every parsed sentence is: at most 102 bytes, all ASCII, starting
/// with `$`.
pub open spec fn sentence_shaped(data: Seq<u8>) -> bool {
    &&& 0 < data.len() <= SENTENCE_MAX_LEN
    &&& data[0] == 0x24u8
    &&& forall|i: int| 0 <= i < data.len() ==> data[i] < 0x80u8
}

/// Whether `b` is an ASCII digit.
pub open spec fn is_digit(b: u8) -> bool {
    0x30u8 <= b <= 0x39u8
}

/// The number of satellite fields, each a run of digits ended by a comma,
/// that `t` opens with.
pub open spec fn leading_fields(t: Seq<u8>) -> nat
    decreases t.len(),
{
    if t.len() == 0 {
        0
    } else if t[0] == 0x2Cu8 {
        1 + leading_fields(t.drop_first())
    } else if is_digit(t[0]) {
        leading_fields(t.drop_first())
    } else {
        0
    }
}

/// The number of commas that `t` opens with.
pub open spec fn leading_commas(t: Seq<u8>) -> nat
    decreases t.len(),
{
    if t.len() > 0 && t[0] == 0x2Cu8 {
        1 + leading_commas(t.drop_first())
    } else {
        0
    }
}

/// `t` opens with one or more commas and then `*`: an empty satellite list.
pub open spec fn empty_field_list(t: Seq<u8>) -> bool {
    let n = leading_commas(t);
    0 < n < t.len() && t[n as int] == 0x2Au8
}

/// The most satellite fields that the parser holds for a GSA sentence.
pub const GSA_MAX_FIELDS: usize = 18;

/// Where the satellite fields of a GSA sentence start: after `$`, the two
/// talker characters, `GSA,` and the two one-character mode fields with
/// their commas.
pub const GSA_FIELDS_START: usize = 11;

/// Bytes that `nmea::parse_bytes` would take as a GSA sentence with more
/// satellite fields than it holds: `GSA,` at bytes 3..7, and a list of
/// satellite fields from byte 11 on that is not empty and has more than 18
/// fields.
pub open spec fn gsa_list_too_long(s: Seq<u8>) -> bool {
    &&& s.len() >= GSA_FIELDS_START
    &&& s[3] == 0x47u8
    &&& s[4] == 0x53u8
    &&& s[5] == 0x41u8
    &&& s[6] == 0x2Cu8
    &&& leading_fields(s.subrange(GSA_FIELDS_START as int, s.len() as int)) > GSA_MAX_FIELDS
    &&& !empty_field_list(s.subrange(GSA_FIELDS_START as int, s.len() as int))
}

/// Calls `nmea::parse_bytes`. Trusted: the sentence that comes back is
/// `nmea_parse` of the bytes (the result depends on the bytes alone), and a
/// successful parse is of bytes that are ASCII (a non-UTF-8 or non-ASCII
/// input is refused), at most 102 long (a longer one is refused) and start
/// with `$` (the sentence grammar begins with it). Which error comes back is
/// left unsaid. The call panics on a GSA
/// sentence whose satellite list has more than 18 fields (it collects them
/// into a list of 18 and unwraps each insertion), so `requires` leaves out
/// every input of that shape.
#[verifier::external_body]
fn nmea_parse_bytes<'a>(data: &'a [u8]) -> (r: Result<nmea::ParseResult, nmea::Error<'a>>)
    requires
        !gsa_list_too_long(data@),
    ensures
        r is Ok <==> nmea_parse(data@) is Some,
        r matches Ok(v) ==> nmea_parse(data@) == Some(v),
        r is Ok ==> sentence_shaped(data@),
{
    nmea::parse_bytes(data)
}

/// The number of leading satellite fields of `s[start..]`.
fn count_leading_fields(s: &[u8], start: usize) -> (r: usize)
    requires
        start <= s@.len(),
    ensures
        r == leading_fields(s@.subrange(start as int, s@.len() as int)),
{
    let mut i: usize = start;
    let mut count: usize = 0;
    while i < s.len()
        invariant
            start <= i <= s@.len(),
            count <= i - start,
            leading_fields(s@.subrange(start as int, s@.len() as int)) == count + leading_fields(
                s@.subrange(i as int, s@.len() as int),
            ),
        decreases s@.len() - i,
    {
        let b: u8 = s[i];
        assert(s@.subrange(i as int, s@.len() as int).drop_first() =~= s@.subrange(
            i + 1,
            s@.len() as int,
        ));
        if b == 0x2C {
            count = count + 1;
        } else if !(0x30 <= b && b <= 0x39) {
            return count;
        }
        i = i + 1;
    }
    assert(s@.subrange(i as int, s@.len() as int).len() == 0);
    count
}

/// The number of leading commas of `s[start..]`.
fn count_leading_commas(s: &[u8], start: usize) -> (r: usize)
    requires
        start <= s@.len(),
    ensures
        r == leading_commas(s@.subrange(start as int, s@.len() as int)),
        start + r <= s@.len(),
{
    let mut i: usize = start;
    while i < s.len() && s[i] == 0x2C
        invariant
            start <= i <= s@.len(),
            leading_commas(s@.subrange(start as int, s@.len() as int)) == (i - start)
                + leading_commas(s@.subrange(i as int, s@.len() as int)),
        decreases s@.len() - i,
    {
        assert(s@.subrange(i as int, s@.len() as int).drop_first() =~= s@.subrange(
            i + 1,
            s@.len() as int,
        ));
        i = i + 1;
    }
    assert(leading_commas(s@.subrange(i as int, s@.len() as int)) == 0);
    i - start
}

/// Whether `data` is a GSA sentence whose satellite list is longer than the
/// parser holds.
fn check_gsa_list(data: &[u8]) -> (r: bool)
    ensures
        r == gsa_list_too_long(data@),
{
    if data.len() < GSA_FIELDS_START || data[3] != 0x47 || data[4] != 0x53 || data[5] != 0x41
        || data[6] != 0x2C {
        return false;
    }
    let fields: usize = count_leading_fields(data, GSA_FIELDS_START);
    let commas: usize = count_leading_commas(data, GSA_FIELDS_START);
    let ghost t = data@.subrange(GSA_FIELDS_START as int, data@.len() as int);
    let empty_list: bool = 0 < commas && GSA_FIELDS_START + commas < data.len() && data[
        GSA_FIELDS_START + commas] == 0x2A;
    assert(empty_list == empty_field_list(t));
    fields > GSA_MAX_FIELDS && !empty_list
}

/// Why a read of the GPS receiver yielded no sentence.
#[derive(Debug)]
pub enum GpsError<'a> {
    /// A GSA sentence lists more satellite fields than the parser holds.
    SatelliteListTooLong,
    /// The bytes are not a sentence that the parser takes.
    Sentence(nmea::Error<'a>),
}

/// Parses the first `len` bytes of `buffer`, the part of the buffer that a
/// read filled, as one NMEA sentence. A GSA sentence with more satellite
/// fields than the parser holds is refused with `SatelliteListTooLong`
/// before it reaches the parser.
pub fn parse_sentence<'a>(buffer: &'a [u8], len: usize) -> (r: Result<
    nmea::ParseResult,
    GpsError<'a>,
>)
    requires
        len <= buffer@.len(),
    ensures
        gsa_list_too_long(buffer@.take(len as int)) ==> (r matches Err(
            GpsError::SatelliteListTooLong,
        )),
        !gsa_list_too_long(buffer@.take(len as int)) ==> {
            &&& (r is Ok <==> nmea_parses(buffer@.take(len as int)))
            &&& (r matches Ok(v) ==> nmea_parse(buffer@.take(len as int)) == Some(v))
            &&& (r is Ok ==> sentence_shaped(buffer@.take(len as int)))
            &&& (r is Err ==> r matches Err(GpsError::Sentence(_)))
        },
{
    let data = vstd::slice::slice_subrange(buffer, 0, len);
    assert(data@ == buffer@.take(len as int));
    if check_gsa_list(data) {
        return Err(GpsError::SatelliteListTooLong);
    }
    match nmea_parse_bytes(data) {
        Ok(sentence) => Ok(sentence),
        Err(e) => Err(GpsError::Sentence(e)),
    }
}

} // verus!
