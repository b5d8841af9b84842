//! EPG programs: the codes of the broadcast EPG and the program model that
//! KuRec stores.

use crate::text::{decimal_string, decimal_text, str_eq};
use vstd::prelude::*;

verus! {

/// The video format of a program (ARIB video component type).
#[allow(non_camel_case_types)]
#[derive(Debug, Clone, Copy, PartialEq, Eq, Structural)]
pub enum VideoType {
    SD_4_3,
    SD_16_9_PanVector,
    SD_16_9,
    SD_Over16_9,
    UHD_16_9,
    HD_4_3,
    HD_16_9_PanVector,
    HD_16_9,
    HD_Over16_9,
    Unknown,
}

/// The audio mode of a program (ARIB audio component type).
#[allow(non_camel_case_types)]
#[derive(Debug, Clone, Copy, PartialEq, Eq, Structural)]
pub enum AudioType {
    Mono,
    DualMono,
    Stereo,
    Mode2_1,
    Mode3_0,
    Mode2_2,
    Mode3_1,
    Mode3_2,
    Mode3_2_LFE,
    Unknown,
}

/// The video format that a component type code stands for.
pub open spec fn video_type_of(component_type: u32) -> VideoType {
    match component_type {
        0x01u32 | 0xa1u32 | 0xd1u32 | 0xf1u32 => VideoType::SD_4_3,
        0x02u32 | 0xa2u32 | 0xd2u32 | 0xf2u32 => VideoType::SD_16_9_PanVector,
        0x03u32 | 0xa3u32 | 0xd3u32 | 0xf3u32 => VideoType::SD_16_9,
        0x04u32 | 0xa4u32 | 0xd4u32 | 0xf4u32 => VideoType::SD_Over16_9,
        0x83u32 => VideoType::UHD_16_9,
        0x91u32 | 0xb1u32 | 0xc1u32 | 0xe1u32 => VideoType::HD_4_3,
        0x92u32 | 0xb2u32 | 0xc2u32 | 0xe2u32 => VideoType::HD_16_9_PanVector,
        0x93u32 | 0xb3u32 | 0xc3u32 | 0xe3u32 => VideoType::HD_16_9,
        0x94u32 | 0xb4u32 | 0xc4u32 | 0xe4u32 => VideoType::HD_Over16_9,
        _ => VideoType::Unknown,
    }
}

/// Maps a video component type code to its video format.
pub fn map_video_component_type(component_type: u32) -> (r: VideoType)
    ensures
        r == video_type_of(component_type),
{
    match component_type {
        0x01 => VideoType::SD_4_3,
        0x02 => VideoType::SD_16_9_PanVector,
        0x03 => VideoType::SD_16_9,
        0x04 => VideoType::SD_Over16_9,
        0x83 => VideoType::UHD_16_9,
        0x91 => VideoType::HD_4_3,
        0x92 => VideoType::HD_16_9_PanVector,
        0x93 => VideoType::HD_16_9,
        0x94 => VideoType::HD_Over16_9,
        0xa1 => VideoType::SD_4_3,
        0xa2 => VideoType::SD_16_9_PanVector,
        0xa3 => VideoType::SD_16_9,
        0xa4 => VideoType::SD_Over16_9,
        0xb1 => VideoType::HD_4_3,
        0xb2 => VideoType::HD_16_9_PanVector,
        0xb3 => VideoType::HD_16_9,
        0xb4 => VideoType::HD_Over16_9,
        0xc1 => VideoType::HD_4_3,
        0xc2 => VideoType::HD_16_9_PanVector,
        0xc3 => VideoType::HD_16_9,
        0xc4 => VideoType::HD_Over16_9,
        0xd1 => VideoType::SD_4_3,
        0xd2 => VideoType::SD_16_9_PanVector,
        0xd3 => VideoType::SD_16_9,
        0xd4 => VideoType::SD_Over16_9,
        0xe1 => VideoType::HD_4_3,
        0xe2 => VideoType::HD_16_9_PanVector,
        0xe3 => VideoType::HD_16_9,
        0xe4 => VideoType::HD_Over16_9,
        0xf1 => VideoType::SD_4_3,
        0xf2 => VideoType::SD_16_9_PanVector,
        0xf3 => VideoType::SD_16_9,
        0xf4 => VideoType::SD_Over16_9,
        _ => VideoType::Unknown,
    }
}

/// The variant name of a video format, as `{:?}` prints it.
pub open spec fn video_type_name(t: VideoType) -> Seq<char> {
    match t {
        VideoType::SD_4_3 => "SD_4_3"@,
        VideoType::SD_16_9_PanVector => "SD_16_9_PanVector"@,
        VideoType::SD_16_9 => "SD_16_9"@,
        VideoType::SD_Over16_9 => "SD_Over16_9"@,
        VideoType::UHD_16_9 => "UHD_16_9"@,
        VideoType::HD_4_3 => "HD_4_3"@,
        VideoType::HD_16_9_PanVector => "HD_16_9_PanVector"@,
        VideoType::HD_16_9 => "HD_16_9"@,
        VideoType::HD_Over16_9 => "HD_Over16_9"@,
        VideoType::Unknown => "Unknown"@,
    }
}

impl VideoType {
    /// The variant name, as `{:?}` prints it.
    pub fn name(&self) -> (r: &'static str)
        ensures
            r@ == video_type_name(*self),
    {
        match self {
            VideoType::SD_4_3 => "SD_4_3",
            VideoType::SD_16_9_PanVector => "SD_16_9_PanVector",
            VideoType::SD_16_9 => "SD_16_9",
            VideoType::SD_Over16_9 => "SD_Over16_9",
            VideoType::UHD_16_9 => "UHD_16_9",
            VideoType::HD_4_3 => "HD_4_3",
            VideoType::HD_16_9_PanVector => "HD_16_9_PanVector",
            VideoType::HD_16_9 => "HD_16_9",
            VideoType::HD_Over16_9 => "HD_Over16_9",
            VideoType::Unknown => "Unknown",
        }
    }
}

/// The audio mode that a component type code stands for.
pub open spec fn audio_type_of(component_type: u32) -> AudioType {
    match component_type {
        1u32 => AudioType::Mono,
        2u32 => AudioType::DualMono,
        3u32 => AudioType::Stereo,
        4u32 => AudioType::Mode2_1,
        5u32 => AudioType::Mode3_0,
        6u32 => AudioType::Mode2_2,
        7u32 => AudioType::Mode3_1,
        8u32 => AudioType::Mode3_2,
        9u32 => AudioType::Mode3_2_LFE,
        _ => AudioType::Unknown,
    }
}

/// Maps an audio component type code to its audio mode.
pub fn map_audio_component_type(component_type: u32) -> (r: AudioType)
    ensures
        r == audio_type_of(component_type),
{
    match component_type {
        0b00001 => AudioType::Mono,
        0b00010 => AudioType::DualMono,
        0b00011 => AudioType::Stereo,
        0b00100 => AudioType::Mode2_1,
        0b00101 => AudioType::Mode3_0,
        0b00110 => AudioType::Mode2_2,
        0b00111 => AudioType::Mode3_1,
        0b01000 => AudioType::Mode3_2,
        0b01001 => AudioType::Mode3_2_LFE,
        _ => AudioType::Unknown,
    }
}

/// The text of an audio sampling rate in Hz.
pub open spec fn sampling_rate_text(rate: u32) -> Seq<char> {
    if rate == 16000 {
        "16kHz"@
    } else if rate == 22050 {
        "22.05kHz"@
    } else if rate == 24000 {
        "24kHz"@
    } else if rate == 32000 {
        "32kHz"@
    } else if rate == 44100 {
        "44.1kHz"@
    } else if rate == 48000 {
        "48kHz"@
    } else {
        decimal_text(rate as nat) + "Hz"@
    }
}

/// The text of an audio sampling rate given in Hz.
pub fn map_audio_sampling_rate(rate: u32) -> (r: String)
    ensures
        r@ == sampling_rate_text(rate),
{
    if rate == 16000 {
        String::from_str("16kHz")
    } else if rate == 22050 {
        String::from_str("22.05kHz")
    } else if rate == 24000 {
        String::from_str("24kHz")
    } else if rate == 32000 {
        String::from_str("32kHz")
    } else if rate == 44100 {
        String::from_str("44.1kHz")
    } else if rate == 48000 {
        String::from_str("48kHz")
    } else {
        decimal_string(rate as u64).concat("Hz")
    }
}

/// The Japanese name of an ISO 639-2 language code; other codes stay as they are.
pub open spec fn language_name(code: Seq<char>) -> Seq<char> {
    if code == "jpn"@ {
        "日本語"@
    } else if code == "eng"@ {
        "英語"@
    } else if code == "zho"@ {
        "中国語"@
    } else if code == "kor"@ {
        "韓国語"@
    } else if code == "fra"@ {
        "フランス語"@
    } else if code == "deu"@ {
        "ドイツ語"@
    } else if code == "ita"@ {
        "イタリア語"@
    } else if code == "rus"@ {
        "ロシア語"@
    } else if code == "spa"@ {
        "スペイン語"@
    } else if code == "por"@ {
        "ポルトガル語"@
    } else {
        code
    }
}

/// Maps a language code to its Japanese name.
pub fn map_language_code(code: &str) -> (r: String)
    ensures
        r@ == language_name(code@),
{
    if str_eq(code, "jpn") {
        String::from_str("日本語")
    } else if str_eq(code, "eng") {
        String::from_str("英語")
    } else if str_eq(code, "zho") {
        String::from_str("中国語")
    } else if str_eq(code, "kor") {
        String::from_str("韓国語")
    } else if str_eq(code, "fra") {
        String::from_str("フランス語")
    } else if str_eq(code, "deu") {
        String::from_str("ドイツ語")
    } else if str_eq(code, "ita") {
        String::from_str("イタリア語")
    } else if str_eq(code, "rus") {
        String::from_str("ロシア語")
    } else if str_eq(code, "spa") {
        String::from_str("スペイン語")
    } else if str_eq(code, "por") {
        String::from_str("ポルトガル語")
    } else {
        String::from_str(code)
    }
}

/// Whether a component type code is one of ARIB's SD (480-line) groups:
/// 0x0_, 0xa_, 0xd_ or 0xf_.
pub open spec fn sd_group(c: u32) -> bool {
    let hi = c / 16;
    c < 0x100 && (hi == 0x0 || hi == 0xa || hi == 0xd || hi == 0xf)
}

/// Whether a component type code is one of ARIB's HD (1080/720-line) groups:
/// 0x9_, 0xb_, 0xc_ or 0xe_.
pub open spec fn hd_group(c: u32) -> bool {
    let hi = c / 16;
    c < 0x100 && (hi == 0x9 || hi == 0xb || hi == 0xc || hi == 0xe)
}

/// The video format of a component type code follows its two nibbles: the
/// high nibble gives the resolution (SD or HD group), the low nibble the
/// aspect (1: 4:3, 2: 16:9 with pan vector, 3: 16:9, 4: wider than 16:9);
/// 0x83 is UHD 16:9, and every other code is unknown.
pub proof fn lemma_video_type_by_nibbles(c: u32)
    ensures
        video_type_of(c) == VideoType::SD_4_3 <==> sd_group(c) && c % 16 == 1,
        video_type_of(c) == VideoType::SD_16_9_PanVector <==> sd_group(c) && c % 16 == 2,
        video_type_of(c) == VideoType::SD_16_9 <==> sd_group(c) && c % 16 == 3,
        video_type_of(c) == VideoType::SD_Over16_9 <==> sd_group(c) && c % 16 == 4,
        video_type_of(c) == VideoType::HD_4_3 <==> hd_group(c) && c % 16 == 1,
        video_type_of(c) == VideoType::HD_16_9_PanVector <==> hd_group(c) && c % 16 == 2,
        video_type_of(c) == VideoType::HD_16_9 <==> hd_group(c) && c % 16 == 3,
        video_type_of(c) == VideoType::HD_Over16_9 <==> hd_group(c) && c % 16 == 4,
        video_type_of(c) == VideoType::UHD_16_9 <==> c == 0x83,
        video_type_of(c) == VideoType::Unknown <==> c != 0x83 && !((sd_group(c) || hd_group(c))
            && 1 <= c % 16 <= 4),
{
}

/// The Japanese names of the ISO 639-2 codes that have one: `jpn` 日本語,
/// `eng` 英語, `zho` 中国語, `kor` 韓国語, `fra` フランス語, `deu` ドイツ語,
/// `ita` イタリア語, `rus` ロシア語, `spa` スペイン語, `por` ポルトガル語; any
/// other code is its own name.
pub proof fn lemma_language_names(code: Seq<char>)
    ensures
        language_name("jpn"@) == "日本語"@,
        language_name("eng"@) == "英語"@,
        language_name("zho"@) == "中国語"@,
        language_name("kor"@) == "韓国語"@,
        language_name("fra"@) == "フランス語"@,
        language_name("deu"@) == "ドイツ語"@,
        language_name("ita"@) == "イタリア語"@,
        language_name("rus"@) == "ロシア語"@,
        language_name("spa"@) == "スペイン語"@,
        language_name("por"@) == "ポルトガル語"@,
        code != "jpn"@ && code != "eng"@ && code != "zho"@ && code != "kor"@ && code != "fra"@
            && code != "deu"@ && code != "ita"@ && code != "rus"@ && code != "spa"@ && code
            != "por"@ ==> language_name(code) == code,
{
    reveal_strlit("jpn");
    // The ten codes differ in their first letter.
    assert("jpn"@[0] == 'j');
    reveal_strlit("eng");
    assert("eng"@[0] == 'e');
    reveal_strlit("zho");
    assert("zho"@[0] == 'z');
    reveal_strlit("kor");
    assert("kor"@[0] == 'k');
    reveal_strlit("fra");
    assert("fra"@[0] == 'f');
    reveal_strlit("deu");
    assert("deu"@[0] == 'd');
    reveal_strlit("ita");
    assert("ita"@[0] == 'i');
    reveal_strlit("rus");
    assert("rus"@[0] == 'r');
    reveal_strlit("spa");
    assert("spa"@[0] == 's');
    reveal_strlit("por");
    assert("por"@[0] == 'p');
}

/// The audio mode of a component type code is ARIB's numbering: 1 mono,
/// 2 dual mono, 3 stereo, 4 2/1, 5 3/0, 6 2/2, 7 3/1, 8 3/2, 9 3/2 with LFE;
/// every other code is unknown.
pub proof fn lemma_audio_type_by_code(c: u32)
    ensures
        audio_type_of(c) == AudioType::Mono <==> c == 1,
        audio_type_of(c) == AudioType::DualMono <==> c == 2,
        audio_type_of(c) == AudioType::Stereo <==> c == 3,
        audio_type_of(c) == AudioType::Mode2_1 <==> c == 4,
        audio_type_of(c) == AudioType::Mode3_0 <==> c == 5,
        audio_type_of(c) == AudioType::Mode2_2 <==> c == 6,
        audio_type_of(c) == AudioType::Mode3_1 <==> c == 7,
        audio_type_of(c) == AudioType::Mode3_2 <==> c == 8,
        audio_type_of(c) == AudioType::Mode3_2_LFE <==> c == 9,
        audio_type_of(c) == AudioType::Unknown <==> c == 0 || c > 9,
{
}

/// Each video format is printed under its own variant name.
pub proof fn lemma_video_type_names()
    ensures
        video_type_name(VideoType::SD_4_3) == "SD_4_3"@,
        video_type_name(VideoType::SD_16_9_PanVector) == "SD_16_9_PanVector"@,
        video_type_name(VideoType::SD_16_9) == "SD_16_9"@,
        video_type_name(VideoType::SD_Over16_9) == "SD_Over16_9"@,
        video_type_name(VideoType::UHD_16_9) == "UHD_16_9"@,
        video_type_name(VideoType::HD_4_3) == "HD_4_3"@,
        video_type_name(VideoType::HD_16_9_PanVector) == "HD_16_9_PanVector"@,
        video_type_name(VideoType::HD_16_9) == "HD_16_9"@,
        video_type_name(VideoType::HD_Over16_9) == "HD_Over16_9"@,
        video_type_name(VideoType::Unknown) == "Unknown"@,
{
}

/// The usual audio sampling rates have short names (16kHz, 22.05kHz, 24kHz,
/// 32kHz, 44.1kHz, 48kHz); any other rate is its number of Hz.
pub proof fn lemma_sampling_rate_texts(rate: u32)
    ensures
        sampling_rate_text(16000) == "16kHz"@,
        sampling_rate_text(22050) == "22.05kHz"@,
        sampling_rate_text(24000) == "24kHz"@,
        sampling_rate_text(32000) == "32kHz"@,
        sampling_rate_text(44100) == "44.1kHz"@,
        sampling_rate_text(48000) == "48kHz"@,
        rate != 16000 && rate != 22050 && rate != 24000 && rate != 32000 && rate != 44100 && rate
            != 48000 ==> sampling_rate_text(rate) == decimal_text(rate as nat) + "Hz"@,
{
}

} // verus!
