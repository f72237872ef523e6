use shishabot::backoff::{
    after_fetch, map_download, DownloadStep, beatmap_file_name, beatmap_url_text, is_usable_map_content, ExponentialBackoff,
};

#[test]
fn download_retry_schedule() {
    let delays = ExponentialBackoff::new(2).factor(250).max_delay(10_000).take(7);
    assert_eq!(delays, vec![500, 1000, 2000, 4000, 8000, 10000, 10000]);
}

#[test]
fn delays_grow_geometrically_without_maximum() {
    let mut b = ExponentialBackoff::new(3);
    assert_eq!(b.next(), Some(3));
    assert_eq!(b.next(), Some(9));
    assert_eq!(b.next(), Some(27));
    let delays = ExponentialBackoff::new(10).factor(7).take(4);
    assert_eq!(delays, vec![70, 700, 7000, 70000]);
}

#[test]
fn kth_delay_is_the_cut_power() {
    let delays = ExponentialBackoff::new(5).factor(3).max_delay(2000).take(5);
    let expected: Vec<u128> = (1..=5u32)
        .map(|k| std::cmp::min(5u128.pow(k) * 3, 2000))
        .collect();
    assert_eq!(delays, expected);
}

#[test]
fn beatmap_content_check() {
    assert!(!is_usable_map_content(b"<html><body>"));
    assert!(!is_usable_map_content(b"<html>"));
    assert!(!is_usable_map_content(b"osu"));
    assert!(!is_usable_map_content(b""));
    assert!(is_usable_map_content(b"<htmX>"));
    assert!(is_usable_map_content(b"osu file format v14"));
}

#[test]
fn beatmap_addresses() {
    assert_eq!(beatmap_url_text("https://osu.ppy.sh/", 75), "https://osu.ppy.sh/osu/75");
    assert_eq!(beatmap_file_name(75), "75.osu");
}

#[test]
fn map_download_retries_ten_times_then_gives_up() {
    let bad = b"<html>oops".to_vec();
    let good = b"osu file format v14".to_vec();
    let mut d = map_download();
    let mut waits = Vec::new();
    loop {
        match after_fetch(&mut d, &bad) {
            DownloadStep::RetryAfter(ms) => waits.push(ms),
            DownloadStep::GiveUp => break,
            DownloadStep::Done => panic!("an error page is not usable"),
        }
    }
    assert_eq!(waits, vec![500, 1000, 2000, 4000, 8000, 10_000, 10_000, 10_000, 10_000, 10_000]);
    assert_eq!(after_fetch(&mut d, &bad), DownloadStep::GiveUp);
    let mut d = map_download();
    assert_eq!(after_fetch(&mut d, &bad), DownloadStep::RetryAfter(500));
    assert_eq!(after_fetch(&mut d, &good), DownloadStep::Done);
}
