use rc_ctl::gps::{parse_sentence, GpsError};

const GGA: &[u8] = b"$GPGGA,092750.000,5321.6802,N,00630.3372,W,1,8,1.03,61.7,M,55.2,M,,*76";

#[test]
fn valid_gga_sentence_parses() {
    match parse_sentence(GGA, GGA.len()) {
        Ok(nmea::ParseResult::GGA(_)) => {}
        other => panic!("expected a GGA sentence, got {:?}", other.is_ok()),
    }
}

#[test]
fn only_the_filled_part_of_the_buffer_is_parsed() {
    let mut buffer = [b'#'; 128];
    buffer[..GGA.len()].copy_from_slice(GGA);
    assert!(matches!(
        parse_sentence(&buffer, GGA.len()),
        Ok(nmea::ParseResult::GGA(_))
    ));
    assert!(parse_sentence(&buffer, buffer.len()).is_err());
}

#[test]
fn truncated_sentence_is_refused() {
    assert!(matches!(
        parse_sentence(GGA, GGA.len() - 3),
        Err(GpsError::Sentence(_))
    ));
    assert!(parse_sentence(GGA, 0).is_err());
}

#[test]
fn wrong_checksum_is_refused() {
    let mut sentence = GGA.to_vec();
    let n = sentence.len();
    sentence[n - 1] = b'7';
    assert!(matches!(
        parse_sentence(&sentence, n),
        Err(GpsError::Sentence(nmea::Error::ChecksumMismatch { .. }))
    ));
}

#[test]
fn non_ascii_input_is_refused() {
    let mut sentence = GGA.to_vec();
    sentence[10] = 0xC3;
    let n = sentence.len();
    assert!(parse_sentence(&sentence, n).is_err());
}

#[test]
fn missing_dollar_is_refused() {
    let sentence = &GGA[1..];
    assert!(parse_sentence(sentence, sentence.len()).is_err());
}

#[test]
fn gsa_with_nineteen_empty_fields_is_refused() {
    let s: &[u8] = b"$GPGSA,A,3,,,,,,,,,,,,,,,,,,,,1,1,1*01";
    assert!(matches!(
        parse_sentence(s, s.len()),
        Err(GpsError::SatelliteListTooLong)
    ));
}

#[test]
fn gsa_with_nineteen_numbered_fields_is_refused() {
    let s: &[u8] = b"$GPGSA,A,3,1,1,1,1,1,1,1,1,1,1,1,1,1,1,1,1,1,1,1,1.0,1.0,1.0*2E";
    assert!(matches!(
        parse_sentence(s, s.len()),
        Err(GpsError::SatelliteListTooLong)
    ));
}

#[test]
fn gsa_with_eighteen_fields_parses() {
    let s: &[u8] = b"$GPGSA,A,3,,,,,,,,,,,,,,,,,,,1.0,1.0,1.0*33";
    assert!(matches!(
        parse_sentence(s, s.len()),
        Ok(nmea::ParseResult::GSA(_))
    ));
}

#[test]
fn gsa_with_only_commas_parses() {
    let s: &[u8] = b"$GPGSA,A,1,,,,,,,,,,,,,,,,,,,,,*1E";
    assert!(matches!(
        parse_sentence(s, s.len()),
        Ok(nmea::ParseResult::GSA(_))
    ));
}
