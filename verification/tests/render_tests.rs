use shishabot::render::{
    bathbot_target, check_fetched_replay, check_replay, check_replay_mode, find_score,
    get_timestamp_from_minimized_embed, may_configure_channels, osu_user_id_of_url,
    passes_permissions_check, pick_score, queued_text, render_target, replay_length_prefixes_fit,
    timestamp_text_value, BathbotEmbed, RenderError, ScoreCandidate,
};

#[test]
fn render_target_checks() {
    assert_eq!(render_target("replay.osr", None, None, 9), Ok(9));
    assert_eq!(render_target("replay.osr", Some(1), Some(Some(4)), 9), Ok(4));
    assert_eq!(render_target("replay.osr", Some(1), Some(None), 9), Err(RenderError::NoOutputChannel));
    assert_eq!(render_target("replay.osr", Some(1), None, 9), Err(RenderError::NoOutputChannel));
    assert_eq!(render_target("replay.OSR", None, None, 9), Err(RenderError::NotOsrFile));
    assert_eq!(render_target("osr", None, None, 9), Ok(9));
    assert_eq!(render_target("a.osr.zip", None, None, 9), Err(RenderError::NotOsrFile));
}

#[test]
fn replay_modes() {
    assert_eq!(check_replay_mode(Some(0)), Ok(()));
    assert_eq!(check_replay_mode(Some(1)), Err(RenderError::NotStandard));
    assert_eq!(check_replay_mode(None), Err(RenderError::InvalidReplay));
}

fn replay_bytes(mode: osu_db::Mode) -> Vec<u8> {
    let replay = osu_db::Replay {
        mode,
        version: 20210810,
        beatmap_hash: Some("ab".to_string()),
        player_name: Some("mezo".to_string()),
        replay_hash: None,
        count_300: 1,
        count_100: 0,
        count_50: 0,
        count_geki: 0,
        count_katsu: 0,
        count_miss: 0,
        score: 300,
        max_combo: 1,
        perfect_combo: true,
        mods: osu_db::ModSet::from_bits(0),
        life_graph: None,
        timestamp: chrono::DateTime::from_timestamp(1_628_594_197, 0).unwrap(),
        replay_data: Some(Vec::new()),
        raw_replay_data: None,
        online_score_id: 42,
    };
    let mut out = Vec::new();
    replay.to_writer(&mut out, None).unwrap();
    out
}

#[test]
fn replay_files_are_parsed() {
    assert_eq!(check_replay(&replay_bytes(osu_db::Mode::Standard)), Ok(()));
    assert_eq!(check_replay(&replay_bytes(osu_db::Mode::Taiko)), Err(RenderError::NotStandard));
    assert_eq!(check_replay(&vec![0, 1, 2]), Err(RenderError::InvalidReplay));
    assert_eq!(check_fetched_replay(&replay_bytes(osu_db::Mode::Mania)), Ok(()));
    assert_eq!(check_fetched_replay(&vec![9]), Err(RenderError::ReplayUnreadable));
}

#[test]
fn profile_links() {
    assert_eq!(osu_user_id_of_url("https://osu.ppy.sh/users/13313647/osu"), Some(13313647));
    assert_eq!(osu_user_id_of_url("https://osu.ppy.sh/users/13313647"), Some(13313647));
    assert_eq!(osu_user_id_of_url("https://osu.ppy.sh/users/"), None);
    assert_eq!(osu_user_id_of_url("https://osu.ppy.sh/users/mezo"), None);
    assert_eq!(osu_user_id_of_url("https://osu.ppy.sh"), None);
}

#[test]
fn minimized_embed_timestamps() {
    assert_eq!(timestamp_text_value("7.12 ★\t<t:1628594197:R>"), Some(1628594197));
    assert_eq!(timestamp_text_value("<t:-5:R>"), Some(-5));
    assert_eq!(timestamp_text_value("<t:abc:R>"), None);
    assert_eq!(
        get_timestamp_from_minimized_embed(&Some("x\t<t:1628594197:R>".to_string())),
        Some(1628594197)
    );
    assert_eq!(get_timestamp_from_minimized_embed(&Some("x\t<t:99999999999999:R>".to_string())), None);
    assert_eq!(get_timestamp_from_minimized_embed(&None), None);
    assert_eq!(get_timestamp_from_minimized_embed(&Some("<t:-62167219201:R>".to_string())), None);
    assert_eq!(get_timestamp_from_minimized_embed(&Some("<t:253402300800:R>".to_string())), None);
    assert_eq!(get_timestamp_from_minimized_embed(&Some("<t:0:R>".to_string())), Some(0));
}

#[test]
fn bathbot_embeds() {
    let maximized = BathbotEmbed {
        author_url: Some("https://osu.ppy.sh/users/2/osu".to_string()),
        timestamp: Some(1000),
        first_field_name: None,
    };
    assert_eq!(bathbot_target(&Some(maximized)), Ok((2, 1000)));
    let minimized = BathbotEmbed {
        author_url: Some("https://osu.ppy.sh/users/3/osu".to_string()),
        timestamp: None,
        first_field_name: Some("x\t<t:1628594197:R>".to_string()),
    };
    assert_eq!(bathbot_target(&Some(minimized)), Ok((3, 1628594197)));
    let no_author = BathbotEmbed { author_url: None, timestamp: Some(1), first_field_name: None };
    assert_eq!(bathbot_target(&Some(no_author)), Err(RenderError::NotBathbotEmbed));
    assert_eq!(bathbot_target(&None), Err(RenderError::NotBathbotEmbed));
    let no_time = BathbotEmbed {
        author_url: Some("https://osu.ppy.sh/users/3/osu".to_string()),
        timestamp: None,
        first_field_name: Some("nothing".to_string()),
    };
    assert_eq!(bathbot_target(&Some(no_time)), Err(RenderError::NotBathbotEmbed));
}

#[test]
fn first_score_within_three_seconds_with_replay() {
    let scores = vec![
        ScoreCandidate { ended_at: 100, replay: Some(false) },
        ScoreCandidate { ended_at: 104, replay: Some(true) },
        ScoreCandidate { ended_at: 97, replay: None },
        ScoreCandidate { ended_at: 103, replay: Some(true) },
        ScoreCandidate { ended_at: 99, replay: Some(true) },
    ];
    assert_eq!(find_score(&scores, 100), Some(3));
    assert_eq!(find_score(&scores, 200), None);
    assert_eq!(find_score(&Vec::new(), 0), None);
    let extreme = vec![ScoreCandidate { ended_at: i64::MIN, replay: Some(true) }];
    assert_eq!(find_score(&extreme, i64::MAX), None);
}

#[test]
fn permission_bits() {
    assert!(may_configure_channels(8));
    assert!(!may_configure_channels(16));
    assert!(passes_permissions_check(16));
    assert!(passes_permissions_check(8 | 1));
    assert!(!passes_permissions_check(1 | 32));
}

#[test]
fn render_messages() {
    assert_eq!(queued_text(), "Replay has been pushed to the queue!");
    assert_eq!(RenderError::NotOsrFile.message(), "The attachment must be a .osr file!");
    assert_eq!(
        RenderError::NoOutputChannel.message(),
        "Looks like this server has not setup their output channel yet.\nBe sure to use `/setup` first."
    );
    assert_eq!(RenderError::DownloadFailed.message(), "Failed to download attachment");
    assert_eq!(RenderError::StoreFailed.message(), "Failed to store replay file");
    assert_eq!(RenderError::ScoreNotFound.message(), "Couldn't find the replay for this score");
    assert_eq!(RenderError::ReplayUnreadable.message(), "Failed to parse replay");
    assert_eq!(RenderError::NotStandard.message(), "danser only accepts osu!standard plays, sorry :(");
}

#[test]
fn completed_replay_reads_back_with_the_score() {
    let full = osu_db::Replay::from_bytes(&replay_bytes(osu_db::Mode::Standard)).unwrap();
    let raw = full.raw_replay_data.clone().unwrap();
    let score = shishabot::osr::ScoreInfo {
        mode: 0,
        ended_at_date: shishabot::osr::CivilDate { year: 2021, month: 8, day: 10 },
        ended_at_unix_nanos: 1_628_594_197_000_000_000,
        map_checksum: Some("0123456789abcdef".to_string()),
        username: Some("mezo".to_string()),
        count_300: 300,
        count_100: 20,
        count_50: 3,
        count_geki: 40,
        count_katu: 5,
        count_miss: 1,
        score: 1_234_567,
        max_combo: 456,
        perfect: false,
        mods: 24,
        score_id: 987_654_321,
    };
    let mut bytes = raw.clone();
    shishabot::osr::extend_replay_bytes(&mut bytes, &score);
    let back = osu_db::Replay::from_bytes(&bytes).unwrap();
    assert_eq!(back.mode, osu_db::Mode::Standard);
    assert_eq!(back.version, 20210810);
    assert_eq!(back.beatmap_hash.as_deref(), Some("0123456789abcdef"));
    assert_eq!(back.player_name.as_deref(), Some("mezo"));
    assert_eq!(back.replay_hash, None);
    assert_eq!((back.count_300, back.count_100, back.count_50), (300, 20, 3));
    assert_eq!((back.count_geki, back.count_katsu, back.count_miss), (40, 5, 1));
    assert_eq!(back.score, 1_234_567);
    assert_eq!(back.max_combo, 456);
    assert!(!back.perfect_combo);
    assert_eq!(back.mods.bits(), 24);
    assert_eq!(back.life_graph, None);
    assert_eq!(back.timestamp.timestamp(), 1_628_594_197);
    assert_eq!(back.raw_replay_data.as_deref(), Some(&raw[..]));
    assert_eq!(back.online_score_id, 987_654_321);
    assert_eq!(check_fetched_replay(&bytes), Ok(()));
}

fn overlong_length_prefix(continuations: usize) -> Vec<u8> {
    let mut bytes = vec![0, 1, 2, 3, 4, 0x0b];
    bytes.extend(std::iter::repeat(0x80).take(continuations));
    bytes.push(0x00);
    bytes
}

#[test]
fn overlong_string_length_prefix_is_refused() {
    let bytes = overlong_length_prefix(10);
    assert_eq!(bytes.len(), 17);
    assert!(!replay_length_prefixes_fit(&bytes));
    assert_eq!(check_replay(&bytes), Err(RenderError::InvalidReplay));
    assert_eq!(check_fetched_replay(&bytes), Err(RenderError::ReplayUnreadable));
}

#[test]
fn longest_length_prefix_that_fits_is_parsed() {
    let bytes = overlong_length_prefix(9);
    assert!(replay_length_prefixes_fit(&bytes));
    assert_eq!(check_replay(&bytes), Err(RenderError::InvalidReplay));
    assert_eq!(check_fetched_replay(&bytes), Err(RenderError::ReplayUnreadable));
}

#[test]
fn real_replays_have_fitting_length_prefixes() {
    assert!(replay_length_prefixes_fit(&replay_bytes(osu_db::Mode::Standard)));
    assert!(replay_length_prefixes_fit(&vec![]));
    assert!(replay_length_prefixes_fit(&vec![7, 0, 0, 0, 0, 0x0b, 0x80, 0x80, 0x80, 0x80, 0x80, 0x80, 0x80, 0x80, 0x80, 0x80, 0]));
    // The overlong prefix of the life graph, after three strings and 23 bytes.
    let mut bytes = vec![0, 0, 0, 0, 0, 0x00, 0x0b, 0x02, b'a', b'b', 0x00];
    bytes.extend(std::iter::repeat(0).take(23));
    bytes.push(0x0b);
    bytes.extend(std::iter::repeat(0x80).take(12));
    bytes.push(1);
    assert!(!replay_length_prefixes_fit(&bytes));
    assert_eq!(check_replay(&bytes), Err(RenderError::InvalidReplay));
}

#[test]
fn recent_scores_are_searched_before_top_scores() {
    let hit = ScoreCandidate { ended_at: 1000, replay: Some(true) };
    let miss = ScoreCandidate { ended_at: 2000, replay: Some(true) };
    let no_replay = ScoreCandidate { ended_at: 1000, replay: None };
    assert_eq!(pick_score(&vec![miss, hit], &vec![hit], 1002), Some((true, 1)));
    assert_eq!(pick_score(&vec![miss, no_replay], &vec![miss, miss, hit], 998), Some((false, 2)));
    assert_eq!(pick_score(&vec![miss], &vec![no_replay], 1000), None);
    assert_eq!(pick_score(&vec![], &vec![], 1000), None);
}

#[test]
fn minimized_timestamp_reads_back_its_seconds() {
    let name = Some("a\t<t:1628594197:R>".to_string());
    assert_eq!(get_timestamp_from_minimized_embed(&name), Some(1_628_594_197));
    let zero = Some("<t:0:R>".to_string());
    assert_eq!(get_timestamp_from_minimized_embed(&zero), Some(0));
    let year_zero = Some("<t:-62167219200:R>".to_string());
    assert_eq!(get_timestamp_from_minimized_embed(&year_zero), Some(-62_167_219_200));
    let before = Some("<t:-62167219201:R>".to_string());
    assert_eq!(get_timestamp_from_minimized_embed(&before), None);
}
