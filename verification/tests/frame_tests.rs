use gateway::frame::build_read_holdings;
use gateway::frame::crc16_compute;
use gateway::frame::guess_frame_len;
use gateway::frame::parse_read_holdings_response;
use gateway::frame::FrameError;

#[test]
fn request_frame_bytes() {
    // The classic frame: unit 1 reads ten holding registers from zero.
    let frame = build_read_holdings(1, 0, 10);
    assert_eq!(frame, vec![0x01, 0x03, 0x00, 0x00, 0x00, 0x0A, 0xC5, 0xCD]);
}

#[test]
fn crc_known_value() {
    let body: Vec<u8> = vec![0x01, 0x03, 0x00, 0x00, 0x00, 0x0A];
    let crc = crc16_compute(&body, 6);
    assert_eq!(crc, 0xCDC5);
}

#[test]
fn frame_len_oracle() {
    // A data response: 3 header bytes, 20 payload bytes, 2 CRC bytes.
    let prefix: Vec<u8> = vec![0x01, 0x03, 0x14, 0, 0, 0, 0, 0, 0, 0];
    assert_eq!(guess_frame_len(&prefix), 25);

    // An exception response is always five bytes.
    let prefix: Vec<u8> = vec![0x01, 0x83, 0x02, 0, 0, 0, 0, 0, 0, 0];
    assert_eq!(guess_frame_len(&prefix), 5);
}

#[test]
fn parse_good_response() {
    let response: Vec<u8> = vec![0x01, 0x03, 0x02, 0x00, 0x0A, 0x38, 0x43];
    let regs = parse_read_holdings_response(1, &response).expect("well-formed frame");
    assert_eq!(regs, vec![0x000A]);
}

#[test]
fn parse_bad_crc_skips_group() {
    // The byte stream of a short response with a corrupted checksum: the
    // group is skipped, nothing is decoded, nothing panics.
    let response: Vec<u8> = vec![0x01, 0x03, 0x02, 0x00, 0x0A, 0xDE, 0xAD];
    let crc = crc16_compute(&response, 5);
    assert_ne!((crc % 256) as u8, 0xDE);
    assert_eq!(
        parse_read_holdings_response(1, &response),
        Err(FrameError::CrcMismatch)
    );
}

#[test]
fn parse_exception_response() {
    let response: Vec<u8> = vec![0x01, 0x83, 0x02, 0x00, 0x00];
    assert_eq!(
        parse_read_holdings_response(1, &response),
        Err(FrameError::ExceptionResponse)
    );
}

#[test]
fn parse_wrong_unit() {
    let response: Vec<u8> = vec![0x02, 0x03, 0x02, 0x00, 0x0A, 0x38, 0x43];
    assert_eq!(
        parse_read_holdings_response(1, &response),
        Err(FrameError::UnitMismatch)
    );
}

#[test]
fn parse_unexpected_function() {
    let mut response: Vec<u8> = vec![0x01, 0x04, 0x02, 0x00, 0x0A];
    let crc = crc16_compute(&response, 5);
    response.push((crc % 256) as u8);
    response.push((crc / 256) as u8);
    assert_eq!(
        parse_read_holdings_response(1, &response),
        Err(FrameError::UnexpectedFunction)
    );
}

#[test]
fn parse_short_frame() {
    let response: Vec<u8> = vec![0x01, 0x03, 0x02];
    assert_eq!(
        parse_read_holdings_response(1, &response),
        Err(FrameError::TooShort)
    );
}

#[test]
fn parse_length_mismatch() {
    // The byte count claims four payload bytes but only two are present.
    let response: Vec<u8> = vec![0x01, 0x03, 0x04, 0x00, 0x0A, 0x38, 0x43];
    assert_eq!(
        parse_read_holdings_response(1, &response),
        Err(FrameError::LengthMismatch)
    );
}
