use mac_controller::decimal::parse_decimal;
use mac_controller::error::RelayError;
use mac_controller::request::{StreamRequest, DEFAULT_CHANNELS, DEFAULT_SAMPLE_RATE};

#[test]
fn defaults_are_cd_rate_and_mono() {
    assert_eq!(DEFAULT_SAMPLE_RATE, 44100);
    assert_eq!(DEFAULT_CHANNELS, 1);
    let request = StreamRequest::from_optional(None, None);
    assert_eq!(request, StreamRequest { requested_sample_rate: 44100, requested_channels: 1 });
}

#[test]
fn given_parameters_are_kept() {
    assert_eq!(StreamRequest::from_optional(Some(8000), None), StreamRequest::new(8000, 1));
    assert_eq!(StreamRequest::from_optional(None, Some(2)), StreamRequest::new(44100, 2));
    assert_eq!(StreamRequest::from_optional(Some(0), Some(0)), StreamRequest::new(0, 0));
}

#[test]
fn parameters_are_read_from_decimal_text() {
    let request = StreamRequest::from_text(Some(b"22050"), Some(b"2"));
    assert_eq!(request, StreamRequest::new(22050, 2));
    let request = StreamRequest::from_text(Some(b"+48000"), Some(b"006"));
    assert_eq!(request, StreamRequest::new(48000, 6));
    let request = StreamRequest::from_text(Some(b"4294967295"), Some(b"65535"));
    assert_eq!(request, StreamRequest::new(u32::MAX, u16::MAX));
}

#[test]
fn unreadable_parameters_take_the_default() {
    for bad in [
        &b""[..],
        b"+",
        b"-1",
        b" 8000",
        b"8000 ",
        b"8_000",
        b"8000.0",
        b"0x10",
        b"4294967296",
        b"99999999999999999999999",
        b"++1",
        b"1+",
        b"\xff",
        b"\xd9\xa3",
    ] {
        let request = StreamRequest::from_text(Some(bad), Some(bad));
        assert_eq!(request, StreamRequest::new(44100, 1), "{:?}", bad);
    }
    assert_eq!(StreamRequest::from_text(None, None), StreamRequest::new(44100, 1));
    assert_eq!(StreamRequest::from_text(Some(b"65536"), Some(b"65536")), StreamRequest::new(65536, 1));
}

#[test]
fn decimal_reading_agrees_with_std() {
    let texts = [
        "", "0", "00", "7", "+7", "-7", "+", "-", "++7", "+-7", "7+", "42", "0042", "255",
        "256", "65535", "65536", "4294967295", "4294967296", "4294967300", "42949672950",
        "000000000000000000000000000000001", "+000000000000000000000004294967295", " 1", "1 ",
        "1_0", "12a", "a12", "1.5", "１２", "٣", "\u{0}", "9999999999", "18446744073709551616",
        "340282366920938463463374607431768211456",
    ];
    for text in texts {
        assert_eq!(parse_decimal(text.as_bytes(), u32::MAX), text.parse::<u32>().ok(), "{:?}", text);
        assert_eq!(
            parse_decimal(text.as_bytes(), 65535).map(|v| v as u16),
            text.parse::<u16>().ok(),
            "{:?}",
            text
        );
        assert_eq!(
            parse_decimal(text.as_bytes(), 255).map(|v| v as u8),
            text.parse::<u8>().ok(),
            "{:?}",
            text
        );
    }
}

#[test]
fn decimal_reading_agrees_with_std_on_small_numbers() {
    for n in 0..70000u32 {
        let text = n.to_string();
        assert_eq!(parse_decimal(text.as_bytes(), 65535), text.parse::<u16>().ok().map(u32::from));
    }
}

#[test]
fn decimal_limit_is_inclusive() {
    assert_eq!(parse_decimal(b"100", 100), Some(100));
    assert_eq!(parse_decimal(b"101", 100), None);
    assert_eq!(parse_decimal(b"0", 0), Some(0));
    assert_eq!(parse_decimal(b"1", 0), None);
}

#[test]
fn only_a_disconnecting_peer_is_not_fatal() {
    assert!(RelayError::NoOutputDevice.is_fatal());
    assert!(RelayError::NoSupportedConfig.is_fatal());
    assert!(RelayError::StreamConstructionFailed.is_fatal());
    assert!(!RelayError::PeerDisconnected.is_fatal());
}

#[test]
fn every_condition_has_its_message() {
    assert_eq!(RelayError::NoOutputDevice.message(), "No output device available");
    assert_eq!(RelayError::NoSupportedConfig.message(), "No supported config");
    assert_eq!(RelayError::StreamConstructionFailed.message(), "Failed to build output stream");
    assert_eq!(RelayError::PeerDisconnected.message(), "Peer disconnected");
}
