use kurec::epg::{
    map_audio_component_type, map_audio_sampling_rate, map_language_code,
    map_video_component_type, AudioType, VideoType,
};
use kurec::genre::GenreMapper;
use kurec::program::{
    convert_program, convert_programs, KurecProgram, MirakurunProgram, MirakurunService,
    ProgramAudio, ProgramGenre, ProgramSeries, ProgramVideo,
};

fn service() -> MirakurunService {
    MirakurunService {
        name: "テストチャンネル".to_string(),
        channel_type: "GR".to_string(),
        channel: "27".to_string(),
    }
}

fn audio(component_type: u32, langs: &[&str]) -> ProgramAudio {
    ProgramAudio {
        component_type,
        sampling_rate: 48000,
        langs: langs.iter().map(|l| l.to_string()).collect(),
    }
}

fn program(id: i64, name: Option<Option<&str>>) -> MirakurunProgram {
    MirakurunProgram {
        id,
        event_id: 54321,
        service_id: 101,
        network_id: 1,
        start_at: 1678886400000,
        duration: 1800000,
        is_free: true,
        name: name.map(|n| n.map(|s| s.to_string())),
        description: Some(Some("これはテスト番組です。".to_string())),
        extended: Some(serde_json::Value::Bool(true)),
        genres: Some(Some(vec![
            ProgramGenre { lv1: 0x0, lv2: 0x0 },
            ProgramGenre { lv1: 0x0, lv2: 0x1 },
        ])),
        video: Some(Some(ProgramVideo { component_type: 0xb3 })),
        audio: Some(Some(audio(3, &["jpn", "jpn"]))),
        audios: Some(vec![audio(3, &["jpn", "eng"]), audio(1, &["eng", "xyz"])]),
        series: Some(Some(ProgramSeries {
            id: 99,
            repeat: 1,
            pattern: 1,
            expire_at: 1710508800000,
            episode: 5,
            last_episode: 10,
            name: "テストシリーズ".to_string(),
        })),
    }
}

#[test]
fn genre_text_joins_both_levels() {
    let mapper = GenreMapper::new();
    assert_eq!(mapper.get_genre_text(0x0, 0x1), "ニュース・報道/天気");
    assert_eq!(mapper.get_genre_text(0x7, 0x0), "アニメ・特撮/国内アニメ");
    assert_eq!(mapper.get_genre_text(0xa, 0xc), "趣味・教育/教育問題");
    assert_eq!(mapper.get_genre_text(0xf, 0xf), "その他/その他");
}

#[test]
fn genre_text_falls_back_to_level_one_or_unknown() {
    let mapper = GenreMapper::new();
    // Unknown level-2 code: only the level-1 name.
    assert_eq!(mapper.get_genre_text(0x3, 0x9), "ドラマ");
    // Unknown level-1 code: "不明" for both, so only the level-1 fallback.
    assert_eq!(mapper.get_genre_text(0xc, 0x0), "不明");
    assert_eq!(mapper.get_genre_text(0xf, 0x0), "その他");
}

#[test]
fn video_codes_map_to_formats() {
    assert_eq!(map_video_component_type(0x01), VideoType::SD_4_3);
    assert_eq!(map_video_component_type(0x83), VideoType::UHD_16_9);
    assert_eq!(map_video_component_type(0xb3), VideoType::HD_16_9);
    assert_eq!(map_video_component_type(0xf4), VideoType::SD_Over16_9);
    assert_eq!(map_video_component_type(0x05), VideoType::Unknown);
    assert_eq!(VideoType::HD_16_9.name(), "HD_16_9");
    assert_eq!(VideoType::HD_16_9.name(), format!("{:?}", VideoType::HD_16_9));
}

#[test]
fn audio_codes_map_to_modes() {
    assert_eq!(map_audio_component_type(1), AudioType::Mono);
    assert_eq!(map_audio_component_type(3), AudioType::Stereo);
    assert_eq!(map_audio_component_type(9), AudioType::Mode3_2_LFE);
    assert_eq!(map_audio_component_type(0), AudioType::Unknown);
    assert_eq!(map_audio_component_type(10), AudioType::Unknown);
}

#[test]
fn sampling_rates_have_names() {
    assert_eq!(map_audio_sampling_rate(48000), "48kHz");
    assert_eq!(map_audio_sampling_rate(22050), "22.05kHz");
    assert_eq!(map_audio_sampling_rate(44100), "44.1kHz");
    assert_eq!(map_audio_sampling_rate(12345), "12345Hz");
    assert_eq!(map_audio_sampling_rate(0), "0Hz");
    assert_eq!(map_audio_sampling_rate(u32::MAX), format!("{}Hz", u32::MAX));
}

#[test]
fn language_codes_map_to_names() {
    assert_eq!(map_language_code("jpn"), "日本語");
    assert_eq!(map_language_code("eng"), "英語");
    assert_eq!(map_language_code("por"), "ポルトガル語");
    assert_eq!(map_language_code("xyz"), "xyz");
    assert_eq!(map_language_code(""), "");
}

#[test]
fn convert_program_builds_stored_model() {
    let mapper = GenreMapper::new();
    let k: KurecProgram =
        convert_program(program(12345, Some(Some("テスト番組"))), &service(), "http://mirakc:40772", &mapper)
            .unwrap();
    assert_eq!(k.id, 12345);
    assert_eq!(k.mirakc_url, "http://mirakc:40772");
    assert_eq!(k.service_id, 101);
    assert_eq!(k.network_id, 1);
    assert_eq!(k.event_id, 54321);
    assert_eq!(k.channel_name, "テストチャンネル");
    assert_eq!(k.channel_type, "GR");
    assert_eq!(k.channel, "27");
    assert_eq!(k.name.as_deref(), Some("テスト番組"));
    assert_eq!(k.description.as_deref(), Some("これはテスト番組です。"));
    assert_eq!(k.extended, Some(serde_json::Value::Bool(true)));
    assert_eq!(k.start_at, 1678886400000);
    assert_eq!(k.duration_millis, 1800000);
    assert!(k.is_free);
    assert_eq!(k.genres, vec!["ニュース・報道/定時・総合", "ニュース・報道/天気"]);
    assert_eq!(k.video_info.as_deref(), Some("HD_16_9"));
    // The main audio entry's languages come first, as they are; the other
    // entries add only new ones.
    assert_eq!(k.audio_infos, vec!["日本語", "日本語", "英語", "xyz"]);
    let s = k.series_info.unwrap();
    assert_eq!(s.id, 99);
    assert_eq!(s.expire_at, Some(1710508800000));
    assert_eq!(s.episode, 5);
    assert_eq!(s.last_episode, 10);
    assert_eq!(s.name, "テストシリーズ");
}

#[test]
fn convert_program_skips_program_without_name_entry() {
    let mapper = GenreMapper::new();
    assert!(convert_program(program(1, None), &service(), "u", &mapper).is_none());
    // A name entry that is itself empty is kept, with no name.
    let k = convert_program(program(2, Some(None)), &service(), "u", &mapper).unwrap();
    assert!(k.name.is_none());
}

#[test]
fn convert_program_handles_missing_details() {
    let mapper = GenreMapper::new();
    let mut p = program(3, Some(Some("x")));
    p.genres = Some(None);
    p.video = Some(Some(ProgramVideo { component_type: 0x00 }));
    p.audio = None;
    p.audios = None;
    p.series = Some(Some(ProgramSeries {
        id: 1,
        repeat: 0,
        pattern: 0,
        expire_at: 0,
        episode: 1,
        last_episode: 2,
        name: "s".to_string(),
    }));
    let k = convert_program(p, &service(), "u", &mapper).unwrap();
    assert!(k.genres.is_empty());
    assert!(k.video_info.is_none());
    assert!(k.audio_infos.is_empty());
    assert_eq!(k.series_info.unwrap().expire_at, None);
}

#[test]
fn convert_programs_keeps_named_programs_in_order() {
    let mapper = GenreMapper::new();
    let programs = vec![
        program(1, Some(Some("a"))),
        program(2, None),
        program(3, Some(Some("c"))),
    ];
    let converted = convert_programs(programs, &service(), "u", &mapper);
    let ids: Vec<i64> = converted.iter().map(|k| k.id).collect();
    assert_eq!(ids, vec![1, 3]);
    assert!(convert_programs(Vec::new(), &service(), "u", &mapper).is_empty());
}

#[test]
fn genre_tables_hold_every_broadcast_code() {
    let mapper = GenreMapper::new();
    let mut level_one = 0;
    let mut level_two = 0;
    for lv1 in 0u32..0x20 {
        let alone = mapper.get_genre_text(lv1, 0x100);
        if alone != "不明" {
            level_one += 1;
            assert!(lv1 <= 0xb || lv1 == 0xf);
            assert_eq!(mapper.get_genre_text(lv1, 0xf), format!("{}/その他", alone));
        }
        for lv2 in 0u32..0x20 {
            if mapper.get_genre_text(lv1, lv2).contains('/') {
                level_two += 1;
                assert!(lv2 <= 0xf);
                assert_ne!(alone, "不明");
            }
        }
    }
    assert_eq!(level_one, 13);
    assert_eq!(level_two, 104);
}
