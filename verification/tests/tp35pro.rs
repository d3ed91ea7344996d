use frost_tune::eq::FilterType;
use frost_tune::tp35pro::{
    convert_to_2byte_array, parse_filter_fields, TP35ProProtocol, CMD_FLASH_EQ, CMD_GLOBAL_GAIN,
    CMD_PEQ_VALUES, CMD_TEMP_WRITE, OFFSET_CMD, OFFSET_CMD_TYPE, OFFSET_FILTER_TYPE,
    OFFSET_FREQ_H, OFFSET_FREQ_L, OFFSET_GAIN_H, OFFSET_GAIN_L, OFFSET_GAIN_VALUE, OFFSET_INDEX,
    OFFSET_NONCE, OFFSET_Q_H, OFFSET_Q_L, READ, WRITE,
};

#[test]
fn build_filter_write_packet_structure() {
    let proto = TP35ProProtocol;
    let coefficients = [0u8; 20];
    let packet = proto.build_filter_write_packet(0, &coefficients, 1000, 256, 5 * 256, FilterType::Peak);
    assert_eq!(packet[OFFSET_CMD_TYPE], WRITE);
    assert_eq!(packet[OFFSET_CMD], CMD_PEQ_VALUES);
    assert_eq!(packet[OFFSET_INDEX], 0);
    assert_eq!(packet.len(), 37);
}

#[test]
fn build_global_gain_write_packet_structure() {
    let proto = TP35ProProtocol;
    let packet = proto.build_global_gain_write_packet(5);
    assert_eq!(packet[OFFSET_CMD_TYPE], WRITE);
    assert_eq!(packet[OFFSET_CMD], CMD_GLOBAL_GAIN);
    assert_eq!(packet[OFFSET_GAIN_VALUE], 5);
}

#[test]
fn build_global_gain_write_packet_negative() {
    let proto = TP35ProProtocol;
    let packet = proto.build_global_gain_write_packet(-3);
    assert_eq!(packet[OFFSET_GAIN_VALUE] as i8, -3);
}

#[test]
fn build_commit_packets_has_two_steps() {
    let proto = TP35ProProtocol;
    let packets = proto.build_commit_packets();
    assert_eq!(packets.len(), 2);
    assert_eq!(packets[0][1], CMD_TEMP_WRITE);
    assert_eq!(packets[1][1], CMD_FLASH_EQ);
}

#[test]
fn write_timing_uses_500ms_commit_step() {
    let proto = TP35ProProtocol;
    let timing = proto.write_timing();
    assert_eq!(timing.commit_step_ms, 500);
}

#[test]
fn matches_filter_response_accepts_valid_packet() {
    let proto = TP35ProProtocol;
    let mut data = vec![0u8; 34];
    data[OFFSET_CMD_TYPE] = READ;
    data[OFFSET_CMD] = CMD_PEQ_VALUES;
    data[OFFSET_NONCE] = 0x42;
    data[OFFSET_INDEX] = 3;
    assert!(proto.matches_filter_response(&data, 3, 0x42));
}

#[test]
fn matches_filter_response_rejects_wrong_nonce() {
    let proto = TP35ProProtocol;
    let mut data = vec![0u8; 34];
    data[OFFSET_CMD_TYPE] = READ;
    data[OFFSET_CMD] = CMD_PEQ_VALUES;
    data[OFFSET_NONCE] = 0x42;
    data[OFFSET_INDEX] = 3;
    assert!(!proto.matches_filter_response(&data, 3, 0xFF));
}

#[test]
fn matches_filter_response_rejects_short_packet() {
    let proto = TP35ProProtocol;
    assert!(!proto.matches_filter_response(&[READ, CMD_PEQ_VALUES], 0, 1));
}

#[test]
fn matches_global_gain_response_accepts_valid_packet() {
    let proto = TP35ProProtocol;
    let mut data = vec![0u8; 6];
    data[OFFSET_CMD_TYPE] = READ;
    data[OFFSET_CMD] = CMD_GLOBAL_GAIN;
    data[OFFSET_GAIN_VALUE] = 3u8;
    assert!(proto.matches_global_gain_response(&data, 0));
    assert_eq!(proto.parse_global_gain_response(&data), Some(3i8));
}

#[test]
fn parse_filter_response_too_short() {
    let proto = TP35ProProtocol;
    assert!(proto.parse_filter_response(&[0u8; 10]).is_none());
}

#[test]
fn parse_filter_packet_too_short() {
    assert!(parse_filter_fields(&[0u8; 10]).is_none());
}

#[test]
fn filter_write_then_response_reads_back_fields() {
    let proto = TP35ProProtocol;
    let coefficients = [7u8; 20];
    let packet = proto.build_filter_write_packet(4, &coefficients, 1250, 362, -640, FilterType::HighShelf);
    assert_eq!(packet[OFFSET_FREQ_L], 0xE2);
    assert_eq!(packet[OFFSET_FREQ_H], 0x04);
    assert_eq!(packet[OFFSET_Q_L], 0x6A);
    assert_eq!(packet[OFFSET_Q_H], 0x01);
    assert_eq!(packet[OFFSET_GAIN_L], 0x80);
    assert_eq!(packet[OFFSET_GAIN_H], 0xFD);
    assert_eq!(packet[OFFSET_FILTER_TYPE], 3);
    let mut response = packet.clone();
    response[OFFSET_CMD_TYPE] = READ;
    let fields = proto.parse_filter_response(&response).unwrap();
    assert_eq!(fields.index, 4);
    assert_eq!(fields.freq, 1250);
    assert_eq!(fields.q_word, 362);
    assert_eq!(fields.gain_word, -640);
    assert_eq!(fields.filter_type, FilterType::HighShelf);
}

#[test]
fn global_gain_write_then_read_gives_gain_back() {
    let proto = TP35ProProtocol;
    for gain in [-128i8, -16, -1, 0, 6, 127] {
        let mut packet = proto.build_global_gain_write_packet(gain);
        packet[OFFSET_CMD_TYPE] = READ;
        assert!(proto.matches_global_gain_response(&packet, 0));
        assert_eq!(proto.parse_global_gain_response(&packet), Some(gain));
    }
}

#[test]
fn two_byte_array_is_little_endian_word() {
    assert_eq!(convert_to_2byte_array(0x1234), [0x34, 0x12]);
    assert_eq!(convert_to_2byte_array(-1), [0xFF, 0xFF]);
    assert_eq!(convert_to_2byte_array(0x12345), [0x45, 0x23]);
}

#[test]
fn filter_read_request_names_band_and_nonce() {
    let proto = TP35ProProtocol;
    assert_eq!(proto.build_filter_read_request(3, 0x42), vec![READ, CMD_PEQ_VALUES, 0x42, 0x00, 3, 0x00]);
    assert_eq!(proto.report_id(), 0x4B);
}

#[test]
fn coefficient_bytes_are_little_endian_with_negated_denominator() {
    let v = frost_tune::tp35pro::coefficient_bytes(1, -1, 0x01020304, 5, i32::MIN);
    assert_eq!(
        v,
        vec![1, 0, 0, 0, 0xFF, 0xFF, 0xFF, 0xFF, 4, 3, 2, 1, 0xFB, 0xFF, 0xFF, 0xFF, 0, 0, 0, 0x80]
    );
}
