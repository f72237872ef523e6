use shishabot::osr::{
    encode_byte, encode_datetime, encode_int, encode_leb128, encode_long, encode_short,
    encode_string, extend_replay_bytes, game_version, CivilDate, ScoreInfo,
};

#[test]
fn fixed_width_integers_are_little_endian() {
    let mut b = vec![9u8];
    assert_eq!(encode_byte(&mut b, 0xab), 1);
    assert_eq!(encode_short(&mut b, 0x1234), 2);
    assert_eq!(encode_int(&mut b, 0x0102_0304), 4);
    assert_eq!(encode_long(&mut b, 0x0102_0304_0506_0708), 8);
    assert_eq!(
        b,
        vec![9, 0xab, 0x34, 0x12, 4, 3, 2, 1, 8, 7, 6, 5, 4, 3, 2, 1]
    );
}

#[test]
fn leb128_lengths() {
    let mut b = Vec::new();
    assert_eq!(encode_leb128(&mut b, 0), 1);
    assert_eq!(b, vec![0]);
    let mut b = Vec::new();
    assert_eq!(encode_leb128(&mut b, 127), 1);
    assert_eq!(b, vec![0x7f]);
    let mut b = Vec::new();
    assert_eq!(encode_leb128(&mut b, 128), 2);
    assert_eq!(b, vec![0x80, 0x01]);
    let mut b = Vec::new();
    assert_eq!(encode_leb128(&mut b, 624_485), 3);
    assert_eq!(b, vec![0xe5, 0x8e, 0x26]);
}

#[test]
fn strings_are_tagged() {
    let mut b = Vec::new();
    assert_eq!(encode_string(&mut b, ""), 1);
    assert_eq!(b, vec![0x00]);
    let mut b = Vec::new();
    assert_eq!(encode_string(&mut b, "abc"), 5);
    assert_eq!(b, vec![0x0b, 3, b'a', b'b', b'c']);
    let mut b = Vec::new();
    assert_eq!(encode_string(&mut b, "é"), 4);
    assert_eq!(b, vec![0x0b, 2, 0xc3, 0xa9]);
    let long = "x".repeat(200);
    let mut b = Vec::new();
    assert_eq!(encode_string(&mut b, &long), 203);
    assert_eq!(&b[..3], &[0x0b, 0xc8, 0x01]);
}

#[test]
fn game_version_is_the_date_digits() {
    let d = CivilDate { year: 2021, month: 8, day: 10 };
    assert_eq!(game_version(d), 20210810);
    let d = CivilDate { year: 1, month: 1, day: 1 };
    assert_eq!(game_version(d), 10101);
}

#[test]
fn datetime_is_dotnet_ticks() {
    let mut b = Vec::new();
    assert_eq!(encode_datetime(&mut b, 0), 8);
    assert_eq!(b, 621_355_968_000_000_000u64.to_le_bytes().to_vec());
    let mut b = Vec::new();
    encode_datetime(&mut b, -62_135_596_800_000_000_000);
    assert_eq!(b, vec![0; 8]);
    let mut b = Vec::new();
    encode_datetime(&mut b, 1_628_594_197_123_456_789);
    let ticks: u64 = 621_355_968_000_000_000 + 16_285_941_971_234_567;
    assert_eq!(b, ticks.to_le_bytes().to_vec());
}

fn sample_score() -> ScoreInfo {
    ScoreInfo {
        mode: 0,
        ended_at_date: CivilDate { year: 2021, month: 8, day: 10 },
        ended_at_unix_nanos: 1_628_594_197_000_000_000,
        map_checksum: Some("ab".to_string()),
        username: None,
        count_300: 100,
        count_100: 2,
        count_50: 1,
        count_geki: 20,
        count_katu: 3,
        count_miss: 0,
        score: 1_000_000,
        max_combo: 300,
        perfect: true,
        mods: 72,
        score_id: 42,
    }
}

#[test]
fn replay_header_goes_in_front_and_score_id_at_the_end() {
    let data = vec![0xde, 0xad, 0xbe, 0xef];
    let mut bytes = data.clone();
    extend_replay_bytes(&mut bytes, &sample_score());
    let mut expected = vec![0u8];
    expected.extend_from_slice(&20210810u32.to_le_bytes());
    expected.extend_from_slice(&[0x0b, 2, b'a', b'b']);
    expected.push(0x00);
    expected.push(0x00);
    for c in [100u16, 2, 1, 20, 3, 0] {
        expected.extend_from_slice(&c.to_le_bytes());
    }
    expected.extend_from_slice(&1_000_000u32.to_le_bytes());
    expected.extend_from_slice(&300u16.to_le_bytes());
    expected.push(1);
    expected.extend_from_slice(&72u32.to_le_bytes());
    expected.push(0x00);
    let ticks: u64 = 621_355_968_000_000_000 + 16_285_941_970_000_000;
    expected.extend_from_slice(&ticks.to_le_bytes());
    expected.extend_from_slice(&4u32.to_le_bytes());
    expected.extend_from_slice(&data);
    expected.extend_from_slice(&42u64.to_le_bytes());
    assert_eq!(bytes, expected);
}

#[test]
fn counts_are_truncated_to_sixteen_bits() {
    let mut score = sample_score();
    score.count_300 = 70_000;
    let mut bytes = Vec::new();
    extend_replay_bytes(&mut bytes, &score);
    let at = 1 + 4 + 4 + 1 + 1;
    assert_eq!(&bytes[at..at + 2], &(70_000u32 as u16).to_le_bytes());
}

#[test]
fn leb128_bytes_carry_seven_bits_each_and_stop_at_a_clear_high_bit() {
    let mut b = Vec::new();
    assert_eq!(encode_leb128(&mut b, 300), 2);
    assert_eq!(b, vec![0xac, 0x02]);
    let mut b = vec![1];
    assert_eq!(encode_leb128(&mut b, 624_485), 3);
    assert_eq!(b, vec![1, 0xe5, 0x8e, 0x26]);
    let value: usize = b[1..].iter().enumerate().map(|(i, x)| ((x & 0x7f) as usize) << (7 * i)).sum();
    assert_eq!(value, 624_485);
    let mut b = Vec::new();
    encode_leb128(&mut b, 0);
    assert_eq!(b, vec![0]);
}
