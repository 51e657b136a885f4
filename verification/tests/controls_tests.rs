use mac_controller::media::clamp_percent;
use mac_controller::system::{battery_percentage, percentage_from_capture};
use mac_controller::upload::{safe_file_name, stamped_name};

#[test]
fn level_is_held_to_a_percentage() {
    assert_eq!(clamp_percent(-5), 0);
    assert_eq!(clamp_percent(0), 0);
    assert_eq!(clamp_percent(37), 37);
    assert_eq!(clamp_percent(100), 100);
    assert_eq!(clamp_percent(101), 100);
    assert_eq!(clamp_percent(i32::MIN), 0);
    assert_eq!(clamp_percent(i32::MAX), 100);
    for level in -300..300 {
        assert_eq!(clamp_percent(level), level.max(0).min(100));
    }
}

#[test]
fn slashes_and_spaces_become_underscores() {
    assert_eq!(safe_file_name(b"my voice/note 1.wav"), b"my_voice_note_1.wav".to_vec());
    assert_eq!(safe_file_name(b""), Vec::<u8>::new());
    assert_eq!(safe_file_name(b"plain.wav"), b"plain.wav".to_vec());
    assert_eq!(safe_file_name(b"//  "), b"____".to_vec());
    let name = "gr\u{fc}\u{df}e an/alle.wav";
    assert_eq!(
        String::from_utf8(safe_file_name(name.as_bytes())).unwrap(),
        name.replace('/', "_").replace(' ', "_")
    );
}

#[test]
fn stored_name_starts_with_the_stamp() {
    assert_eq!(
        stamped_name(b"20240131_235959", Some(b"a b/c.wav")),
        b"20240131_235959_a_b_c.wav".to_vec()
    );
    assert_eq!(
        stamped_name(b"20240131_235959", None),
        b"20240131_235959_audio.wav".to_vec()
    );
    assert_eq!(stamped_name(b"", Some(b"")), b"_".to_vec());
    assert_eq!(stamped_name(b"a b", Some(b"c")), b"a b_c".to_vec());
}

#[test]
fn charge_is_read_from_the_power_report() {
    let report = "Now drawing from 'Battery Power'\n -InternalBattery-0 (id=1234567)\t87%; discharging; 4:32 remaining present: true\n";
    assert_eq!(battery_percentage(report), Some(87));
    assert_eq!(battery_percentage("100%; charged"), Some(100));
    assert_eq!(battery_percentage("5% then 90%"), Some(5));
    assert_eq!(battery_percentage("id=12 7%"), Some(7));
}

#[test]
fn report_without_a_charge_gives_nothing() {
    assert_eq!(battery_percentage(""), None);
    assert_eq!(battery_percentage("No battery"), None);
    assert_eq!(battery_percentage("%"), None);
    assert_eq!(battery_percentage("87 %"), None);
}

#[test]
fn charge_that_is_no_small_number_counts_as_zero() {
    assert_eq!(battery_percentage("256%"), Some(0));
    assert_eq!(battery_percentage("99999999999999999999%"), Some(0));
    assert_eq!(battery_percentage("255%"), Some(255));
    assert_eq!(battery_percentage("\u{663}%"), Some(0));
    assert_eq!(battery_percentage("007%"), Some(7));
}

#[test]
fn captured_digits_give_the_charge() {
    assert_eq!(percentage_from_capture(None), None);
    assert_eq!(percentage_from_capture(Some(b"42")), Some(42));
    assert_eq!(percentage_from_capture(Some(b"300")), Some(0));
    assert_eq!(percentage_from_capture(Some(b"")), Some(0));
    assert_eq!(percentage_from_capture(Some(b"4x")), Some(0));
}
