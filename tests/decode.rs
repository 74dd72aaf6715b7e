use ntp_codec::packet::{combine_u8s, UNIX_OFFSET};
use ntp_codec::{
    get_client_request, DecodeError, KissCodes, Mode, NtpServerResponse, PacketHeaders, Stratum,
    LI,
};

#[test]
fn test_from_u8() {
    let values: [u8; 48] = [
        36, 3, 0, 232, 0, 0, 5, 139, 0, 0, 0, 39, 10, 72, 8, 222, 232, 139, 229, 188, 150, 26,
        5, 122, 0, 0, 0, 0, 0, 0, 0, 0, 232, 139, 229, 209, 125, 186, 194, 223, 232, 139, 229,
        209, 125, 239, 153, 206,
    ];

    let ntp_response: NtpServerResponse = NtpServerResponse::from(&values);
    let expected = NtpServerResponse {
        headers: PacketHeaders {
            li: LI::NoLeap,
            vn: 4,
            mode: Mode::Server,
            stratum: Stratum::SecondaryServer,
            poll: 0,
            precision: -24,
            root_delay: 1419,
            root_dispersion: 39,
            ref_id: 172493022,
            ref_time: 16756739436696962426,
            origin_time: 0,
            rx_time: 16756739526482379487,
            tx_time_seconds: 3901482449,
            tx_time_fraction: 2112854478,
            dst_time: 0,
            key_id: 0,
            msg_dgst: 0,
        },
        extension_fields: None,
    };

    assert_eq!(ntp_response, expected);
    assert_eq!(ntp_response.headers.get_unix_timestamp(), 1692493649);
}

#[test]
fn test_tx_time() {
    let values: [u8; 48] = [
        36, 2, 0, 237, 0, 0, 0, 13, 0, 0, 0, 2, 10, 1, 105, 4, 232, 140, 230, 172, 44, 61, 185,
        98, 0, 0, 0, 0, 0, 0, 0, 0, 232, 140, 230, 180, 185, 134, 172, 167, 232, 140, 230, 180,
        185, 136, 186, 218,
    ];
    let ntp_response: NtpServerResponse = NtpServerResponse::from(&values);

    assert_eq!(ntp_response.headers.tx_time_seconds, 3901548212_u32);
    assert_eq!(ntp_response.headers.get_unix_timestamp(), 1692559412);
}

#[test]
fn decode_slice_matches_array_decode() {
    let mut values: Vec<u8> = vec![
        36, 3, 0, 232, 0, 0, 5, 139, 0, 0, 0, 39, 10, 72, 8, 222, 232, 139, 229, 188, 150, 26,
        5, 122, 0, 0, 0, 0, 0, 0, 0, 0, 232, 139, 229, 209, 125, 186, 194, 223, 232, 139, 229,
        209, 125, 239, 153, 206,
    ];
    let mut fixed = [0u8; 48];
    fixed.copy_from_slice(&values);
    values.extend_from_slice(&[1, 2, 3]);
    let decoded = NtpServerResponse::decode(&values).unwrap();
    assert_eq!(decoded, NtpServerResponse::from(&fixed));
    assert_eq!(decoded.headers.ref_time, 16756739436696962426);
    assert_eq!(decoded.headers.precision, -24);
}

#[test]
fn decode_refuses_short_buffer() {
    let values = [0u8; 47];
    assert_eq!(NtpServerResponse::decode(&values), Err(DecodeError::TruncatedPacket));
    assert_eq!(NtpServerResponse::decode(&[]), Err(DecodeError::TruncatedPacket));
    let exact = [0u8; 48];
    assert!(NtpServerResponse::decode(&exact).is_ok());
}

#[test]
fn decode_signed_and_unsynchronized_fields() {
    let mut values = [0u8; 48];
    values[0] = 0b1110_0100; // LI 3, version 4, mode 4
    values[1] = 16;
    values[2] = 0xff;
    values[3] = 0x80;
    values[12..16].copy_from_slice(b"RATE");
    let h = NtpServerResponse::from(&values).headers;
    assert_eq!(h.li, LI::UnknownUnsync);
    assert_eq!(h.vn, 4);
    assert_eq!(h.mode, Mode::Server);
    assert_eq!(h.stratum, Stratum::Unsynchronized);
    assert_eq!(h.poll, -1);
    assert_eq!(h.precision, -128);
    assert_eq!(h.ref_id, 0x5241_5445);
    let code: [u8; 4] = h.ref_id.to_be_bytes();
    assert_eq!(KissCodes::from(&code), KissCodes::RateExceeded);
}

#[test]
fn combine_u8s_reads_big_endian_and_advances() {
    let buf = [0u8, 0x12, 0x34, 0x56, 0x78, 0xff, 0xff, 0xff, 0xff];
    let mut cursor: usize = 1;
    assert_eq!(combine_u8s(&buf, &mut cursor), 0x1234_5678);
    assert_eq!(cursor, 5);
    assert_eq!(combine_u8s(&buf, &mut cursor), u32::MAX);
    assert_eq!(cursor, 9);
}

#[test]
fn client_request_layout() {
    let req = get_client_request();
    assert_eq!(req.len(), 48);
    assert_eq!(req[0], 0b0010_0011);
    assert!(req[1..].iter().all(|b| *b == 0));
    let h = NtpServerResponse::from(&req).headers;
    assert_eq!(h.li, LI::NoLeap);
    assert_eq!(h.vn, 4);
    assert_eq!(h.mode, Mode::Client);
    assert_eq!(h.ref_id, 0);
}

#[test]
fn unix_timestamp_at_epoch_boundary() {
    let mut h = NtpServerResponse::from(&[0u8; 48]).headers;
    h.tx_time_seconds = UNIX_OFFSET;
    assert_eq!(h.get_unix_timestamp(), 0);
    assert_eq!(h.checked_unix_timestamp(), Some(0));
    h.tx_time_seconds = u32::MAX;
    assert_eq!(h.checked_unix_timestamp(), Some(u32::MAX - 2_208_988_800));
    h.tx_time_seconds = 3901482449;
    assert_eq!(h.checked_unix_timestamp(), Some(1692493649));
}

#[test]
fn unix_timestamp_before_epoch_fails() {
    let mut h = NtpServerResponse::from(&[0u8; 48]).headers;
    h.tx_time_seconds = 2_208_988_799;
    assert_eq!(h.checked_unix_timestamp(), None);
    h.tx_time_seconds = 0;
    assert_eq!(h.checked_unix_timestamp(), None);
}
