//! Genre codes of the broadcast EPG and their Japanese names.

use crate::text::str_eq;
use std::collections::HashMap;
use vstd::prelude::*;

verus! {

/// The name of a level-1 genre code (ARIB content nibble 1).
pub open spec fn lv1_genre_name(lv1: u32) -> Option<Seq<char>> {
    if lv1 == 0x0 {
        Some("ニュース・報道"@)
    } else if lv1 == 0x1 {
        Some("スポーツ"@)
    } else if lv1 == 0x2 {
        Some("情報・ワイドショー"@)
    } else if lv1 == 0x3 {
        Some("ドラマ"@)
    } else if lv1 == 0x4 {
        Some("音楽"@)
    } else if lv1 == 0x5 {
        Some("バラエティ"@)
    } else if lv1 == 0x6 {
        Some("映画"@)
    } else if lv1 == 0x7 {
        Some("アニメ・特撮"@)
    } else if lv1 == 0x8 {
        Some("ドキュメンタリー・教養"@)
    } else if lv1 == 0x9 {
        Some("劇場・公演"@)
    } else if lv1 == 0xa {
        Some("趣味・教育"@)
    } else if lv1 == 0xb {
        Some("福祉"@)
    } else if lv1 == 0xf {
        Some("その他"@)
    } else {
        None
    }
}

/// The names of the level-2 genre codes under level-1 code 0x0.
pub open spec fn lv2_names_0(lv2: u32) -> Option<Seq<char>> {
    if lv2 == 0x0 {
        Some("定時・総合"@)
    } else if lv2 == 0x1 {
        Some("天気"@)
    } else if lv2 == 0x2 {
        Some("特集・ドキュメント"@)
    } else if lv2 == 0x3 {
        Some("政治・国会"@)
    } else if lv2 == 0x4 {
        Some("経済・市況"@)
    } else if lv2 == 0x5 {
        Some("海外・国際"@)
    } else if lv2 == 0x6 {
        Some("解説"@)
    } else if lv2 == 0x7 {
        Some("討論・会談"@)
    } else if lv2 == 0x8 {
        Some("報道特番"@)
    } else if lv2 == 0x9 {
        Some("ローカル・地域"@)
    } else if lv2 == 0xa {
        Some("交通"@)
    } else if lv2 == 0xf {
        Some("その他"@)
    } else {
        None
    }
}

/// The names of the level-2 genre codes under level-1 code 0x1.
pub open spec fn lv2_names_1(lv2: u32) -> Option<Seq<char>> {
    if lv2 == 0x0 {
        Some("スポーツニュース"@)
    } else if lv2 == 0x1 {
        Some("野球"@)
    } else if lv2 == 0x2 {
        Some("サッカー"@)
    } else if lv2 == 0x3 {
        Some("ゴルフ"@)
    } else if lv2 == 0x4 {
        Some("その他の球技"@)
    } else if lv2 == 0x5 {
        Some("相撲・格闘技"@)
    } else if lv2 == 0x6 {
        Some("オリンピック・国際大会"@)
    } else if lv2 == 0x7 {
        Some("マラソン・陸上・水泳"@)
    } else if lv2 == 0x8 {
        Some("モータースポーツ"@)
    } else if lv2 == 0x9 {
        Some("マリン・ウィンタースポーツ"@)
    } else if lv2 == 0xa {
        Some("競馬・公営競技"@)
    } else if lv2 == 0xf {
        Some("その他"@)
    } else {
        None
    }
}

/// The names of the level-2 genre codes under level-1 code 0x2.
pub open spec fn lv2_names_2(lv2: u32) -> Option<Seq<char>> {
    if lv2 == 0x0 {
        Some("芸能・ワイドショー"@)
    } else if lv2 == 0x1 {
        Some("ファッション"@)
    } else if lv2 == 0x2 {
        Some("暮らし・住まい"@)
    } else if lv2 == 0x3 {
        Some("健康・医療"@)
    } else if lv2 == 0x4 {
        Some("ショッピング・通販"@)
    } else if lv2 == 0x5 {
        Some("グルメ・料理"@)
    } else if lv2 == 0x6 {
        Some("イベント"@)
    } else if lv2 == 0x7 {
        Some("番組紹介・お知らせ"@)
    } else if lv2 == 0xf {
        Some("その他"@)
    } else {
        None
    }
}

/// The names of the level-2 genre codes under level-1 code 0x3.
pub open spec fn lv2_names_3(lv2: u32) -> Option<Seq<char>> {
    if lv2 == 0x0 {
        Some("国内ドラマ"@)
    } else if lv2 == 0x1 {
        Some("海外ドラマ"@)
    } else if lv2 == 0x2 {
        Some("時代劇"@)
    } else if lv2 == 0xf {
        Some("その他"@)
    } else {
        None
    }
}

/// The names of the level-2 genre codes under level-1 code 0x4.
pub open spec fn lv2_names_4(lv2: u32) -> Option<Seq<char>> {
    if lv2 == 0x0 {
        Some("国内ロック・ポップス"@)
    } else if lv2 == 0x1 {
        Some("海外ロック・ポップス"@)
    } else if lv2 == 0x2 {
        Some("クラシック・オペラ"@)
    } else if lv2 == 0x3 {
        Some("ジャズ・フュージョン"@)
    } else if lv2 == 0x4 {
        Some("歌謡曲・演歌"@)
    } else if lv2 == 0x5 {
        Some("ライブ・コンサート"@)
    } else if lv2 == 0x6 {
        Some("ランキング・リクエスト"@)
    } else if lv2 == 0x7 {
        Some("カラオケ・のど自慢"@)
    } else if lv2 == 0x8 {
        Some("民謡・邦楽"@)
    } else if lv2 == 0x9 {
        Some("童謡・キッズ"@)
    } else if lv2 == 0xa {
        Some("民族音楽・ワールドミュージック"@)
    } else if lv2 == 0xf {
        Some("その他"@)
    } else {
        None
    }
}

/// The names of the level-2 genre codes under level-1 code 0x5.
pub open spec fn lv2_names_5(lv2: u32) -> Option<Seq<char>> {
    if lv2 == 0x0 {
        Some("クイズ"@)
    } else if lv2 == 0x1 {
        Some("ゲーム"@)
    } else if lv2 == 0x2 {
        Some("トークバラエティ"@)
    } else if lv2 == 0x3 {
        Some("お笑い・コメディ"@)
    } else if lv2 == 0x4 {
        Some("音楽バラエティ"@)
    } else if lv2 == 0x5 {
        Some("旅バラエティ"@)
    } else if lv2 == 0x6 {
        Some("料理バラエティ"@)
    } else if lv2 == 0xf {
        Some("その他"@)
    } else {
        None
    }
}

/// The names of the level-2 genre codes under level-1 code 0x6.
pub open spec fn lv2_names_6(lv2: u32) -> Option<Seq<char>> {
    if lv2 == 0x0 {
        Some("洋画"@)
    } else if lv2 == 0x1 {
        Some("邦画"@)
    } else if lv2 == 0x2 {
        Some("アニメ"@)
    } else if lv2 == 0xf {
        Some("その他"@)
    } else {
        None
    }
}

/// The names of the level-2 genre codes under level-1 code 0x7.
pub open spec fn lv2_names_7(lv2: u32) -> Option<Seq<char>> {
    if lv2 == 0x0 {
        Some("国内アニメ"@)
    } else if lv2 == 0x1 {
        Some("海外アニメ"@)
    } else if lv2 == 0x2 {
        Some("特撮"@)
    } else if lv2 == 0xf {
        Some("その他"@)
    } else {
        None
    }
}

/// The names of the level-2 genre codes under level-1 code 0x8.
pub open spec fn lv2_names_8(lv2: u32) -> Option<Seq<char>> {
    if lv2 == 0x0 {
        Some("社会・時事"@)
    } else if lv2 == 0x1 {
        Some("歴史・紀行"@)
    } else if lv2 == 0x2 {
        Some("自然・動物・環境"@)
    } else if lv2 == 0x3 {
        Some("宇宙・科学・医学"@)
    } else if lv2 == 0x4 {
        Some("カルチャー・伝統文化"@)
    } else if lv2 == 0x5 {
        Some("文学・文芸"@)
    } else if lv2 == 0x6 {
        Some("スポーツ"@)
    } else if lv2 == 0x7 {
        Some("ドキュメンタリー全般"@)
    } else if lv2 == 0x8 {
        Some("インタビュー・討論"@)
    } else if lv2 == 0xf {
        Some("その他"@)
    } else {
        None
    }
}

/// The names of the level-2 genre codes under level-1 code 0x9.
pub open spec fn lv2_names_9(lv2: u32) -> Option<Seq<char>> {
    if lv2 == 0x0 {
        Some("現代劇・新劇"@)
    } else if lv2 == 0x1 {
        Some("ミュージカル"@)
    } else if lv2 == 0x2 {
        Some("ダンス・バレエ"@)
    } else if lv2 == 0x3 {
        Some("落語・演芸"@)
    } else if lv2 == 0x4 {
        Some("歌舞伎・古典"@)
    } else if lv2 == 0xf {
        Some("その他"@)
    } else {
        None
    }
}

/// The names of the level-2 genre codes under level-1 code 0xa.
pub open spec fn lv2_names_a(lv2: u32) -> Option<Seq<char>> {
    if lv2 == 0x0 {
        Some("旅・釣り・アウトドア"@)
    } else if lv2 == 0x1 {
        Some("園芸・ペット・手芸"@)
    } else if lv2 == 0x2 {
        Some("音楽・美術・工芸"@)
    } else if lv2 == 0x3 {
        Some("囲碁・将棋"@)
    } else if lv2 == 0x4 {
        Some("麻雀・パチンコ"@)
    } else if lv2 == 0x5 {
        Some("車・オートバイ"@)
    } else if lv2 == 0x6 {
        Some("コンピュータ・ＴＶゲーム"@)
    } else if lv2 == 0x7 {
        Some("会話・語学"@)
    } else if lv2 == 0x8 {
        Some("幼児・小学生"@)
    } else if lv2 == 0x9 {
        Some("中学生・高校生"@)
    } else if lv2 == 0xa {
        Some("大学生・受験"@)
    } else if lv2 == 0xb {
        Some("生涯教育・資格"@)
    } else if lv2 == 0xc {
        Some("教育問題"@)
    } else if lv2 == 0xf {
        Some("その他"@)
    } else {
        None
    }
}

/// The names of the level-2 genre codes under level-1 code 0xb.
pub open spec fn lv2_names_b(lv2: u32) -> Option<Seq<char>> {
    if lv2 == 0x0 {
        Some("高齢者"@)
    } else if lv2 == 0x1 {
        Some("障害者"@)
    } else if lv2 == 0x2 {
        Some("社会福祉"@)
    } else if lv2 == 0x3 {
        Some("ボランティア"@)
    } else if lv2 == 0x4 {
        Some("手話"@)
    } else if lv2 == 0x5 {
        Some("文字(字幕)"@)
    } else if lv2 == 0x6 {
        Some("音声解説"@)
    } else if lv2 == 0xf {
        Some("その他"@)
    } else {
        None
    }
}

/// The names of the level-2 genre codes under level-1 code 0xf.
pub open spec fn lv2_names_f(lv2: u32) -> Option<Seq<char>> {
    if lv2 == 0xf {
        Some("その他"@)
    } else {
        None
    }
}

/// The name of a level-2 genre code (ARIB content nibble 2) under a level-1 code.
pub open spec fn lv2_genre_name(lv1: u32, lv2: u32) -> Option<Seq<char>> {
    if lv1 == 0x0 {
        lv2_names_0(lv2)
    } else if lv1 == 0x1 {
        lv2_names_1(lv2)
    } else if lv1 == 0x2 {
        lv2_names_2(lv2)
    } else if lv1 == 0x3 {
        lv2_names_3(lv2)
    } else if lv1 == 0x4 {
        lv2_names_4(lv2)
    } else if lv1 == 0x5 {
        lv2_names_5(lv2)
    } else if lv1 == 0x6 {
        lv2_names_6(lv2)
    } else if lv1 == 0x7 {
        lv2_names_7(lv2)
    } else if lv1 == 0x8 {
        lv2_names_8(lv2)
    } else if lv1 == 0x9 {
        lv2_names_9(lv2)
    } else if lv1 == 0xa {
        lv2_names_a(lv2)
    } else if lv1 == 0xb {
        lv2_names_b(lv2)
    } else if lv1 == 0xf {
        lv2_names_f(lv2)
    } else {
        None
    }
}
/// The map key of a (level-1, level-2) genre pair.
pub open spec fn genre_key(lv1: u32, lv2: u32) -> u64 {
    (lv1 * 0x1_0000_0000 + lv2) as u64
}

/// A genre key gives back its two codes.
pub broadcast proof fn lemma_genre_key_decode(lv1: u32, lv2: u32)
    ensures
        #[trigger] genre_key(lv1, lv2) as int / 0x1_0000_0000 == lv1,
        genre_key(lv1, lv2) as int % 0x1_0000_0000 == lv2,
{
    assert(lv1 * 0x1_0000_0000 + lv2 <= u64::MAX) by (nonlinear_arith)
        requires
            lv1 <= u32::MAX,
            lv2 <= u32::MAX,
    ;
    assert((lv1 * 0x1_0000_0000 + lv2) / 0x1_0000_0000 == lv1) by (nonlinear_arith)
        requires
            0 <= lv2 < 0x1_0000_0000,
            lv1 >= 0,
    ;
    assert((lv1 * 0x1_0000_0000 + lv2) % 0x1_0000_0000 == lv2) by (nonlinear_arith)
        requires
            0 <= lv2 < 0x1_0000_0000,
            lv1 >= 0,
    ;
}

/// The map key of a genre pair.
fn genre_key_of(lv1: u32, lv2: u32) -> (k: u64)
    ensures
        k == genre_key(lv1, lv2),
{
    proof {
        assert(lv1 * 0x1_0000_0000 + lv2 <= u64::MAX) by (nonlinear_arith)
            requires
                lv1 <= u32::MAX,
                lv2 <= u32::MAX,
        ;
    }
    lv1 as u64 * 0x1_0000_0000 + lv2 as u64
}

/// The level-1 map holds exactly the level-1 genre names.
pub open spec fn lv1_table_ok(m: Map<u32, String>) -> bool {
    forall|a: u32|
        #[trigger] lv1_genre_name(a) == (if m.contains_key(a) {
            Some(m[a]@)
        } else {
            None::<Seq<char>>
        })
}

/// The level-2 map holds the level-2 genre names of the level-1 codes in `done`.
pub open spec fn lv2_table_partial(m: Map<u64, String>, done: Set<u32>) -> bool {
    forall|a: u32, b: u32|
        #![trigger lv2_genre_name(a, b)]
        #![trigger m.contains_key(genre_key(a, b))]
        (if done.contains(a) {
            lv2_genre_name(a, b)
        } else {
            None::<Seq<char>>
        }) == (if m.contains_key(genre_key(a, b)) {
            Some(m[genre_key(a, b)]@)
        } else {
            None::<Seq<char>>
        })
}

/// The level-2 map holds exactly the level-2 genre names.
pub open spec fn lv2_table_ok(m: Map<u64, String>) -> bool {
    forall|a: u32, b: u32|
        #[trigger] lv2_genre_name(a, b) == (if m.contains_key(genre_key(a, b)) {
            Some(m[genre_key(a, b)]@)
        } else {
            None::<Seq<char>>
        })
}

/// Fills the level-1 genre names.
fn build_lv1_map() -> (m: HashMap<u32, String>)
    ensures
        lv1_table_ok(m@),
        m@.len() == 13,
{
    broadcast use vstd::std_specs::hash::group_hash_axioms;

    let mut m: HashMap<u32, String> = HashMap::new();
    m.insert(0x0, String::from_str("ニュース・報道"));
    m.insert(0x1, String::from_str("スポーツ"));
    m.insert(0x2, String::from_str("情報・ワイドショー"));
    m.insert(0x3, String::from_str("ドラマ"));
    m.insert(0x4, String::from_str("音楽"));
    m.insert(0x5, String::from_str("バラエティ"));
    m.insert(0x6, String::from_str("映画"));
    m.insert(0x7, String::from_str("アニメ・特撮"));
    m.insert(0x8, String::from_str("ドキュメンタリー・教養"));
    m.insert(0x9, String::from_str("劇場・公演"));
    m.insert(0xa, String::from_str("趣味・教育"));
    m.insert(0xb, String::from_str("福祉"));
    m.insert(0xf, String::from_str("その他"));
    m
}

/// Adds the level-2 genre names under level-1 code 0x0.
fn insert_lv2_group_0(m: &mut HashMap<u64, String>, Ghost(done): Ghost<Set<u32>>)
    requires
        lv2_table_partial(old(m)@, done),
        !done.contains(0x0u32),
    ensures
        lv2_table_partial(final(m)@, done.insert(0x0u32)),
        final(m)@.len() == old(m)@.len() + 12,
{
    broadcast use vstd::std_specs::hash::group_hash_axioms, lemma_genre_key_decode;

    m.insert(genre_key_of(0x0, 0x0), String::from_str("定時・総合"));
    m.insert(genre_key_of(0x0, 0x1), String::from_str("天気"));
    m.insert(genre_key_of(0x0, 0x2), String::from_str("特集・ドキュメント"));
    m.insert(genre_key_of(0x0, 0x3), String::from_str("政治・国会"));
    m.insert(genre_key_of(0x0, 0x4), String::from_str("経済・市況"));
    m.insert(genre_key_of(0x0, 0x5), String::from_str("海外・国際"));
    m.insert(genre_key_of(0x0, 0x6), String::from_str("解説"));
    m.insert(genre_key_of(0x0, 0x7), String::from_str("討論・会談"));
    m.insert(genre_key_of(0x0, 0x8), String::from_str("報道特番"));
    m.insert(genre_key_of(0x0, 0x9), String::from_str("ローカル・地域"));
    m.insert(genre_key_of(0x0, 0xa), String::from_str("交通"));
    m.insert(genre_key_of(0x0, 0xf), String::from_str("その他"));
}

/// Adds the level-2 genre names under level-1 code 0x1.
fn insert_lv2_group_1(m: &mut HashMap<u64, String>, Ghost(done): Ghost<Set<u32>>)
    requires
        lv2_table_partial(old(m)@, done),
        !done.contains(0x1u32),
    ensures
        lv2_table_partial(final(m)@, done.insert(0x1u32)),
        final(m)@.len() == old(m)@.len() + 12,
{
    broadcast use vstd::std_specs::hash::group_hash_axioms, lemma_genre_key_decode;

    m.insert(genre_key_of(0x1, 0x0), String::from_str("スポーツニュース"));
    m.insert(genre_key_of(0x1, 0x1), String::from_str("野球"));
    m.insert(genre_key_of(0x1, 0x2), String::from_str("サッカー"));
    m.insert(genre_key_of(0x1, 0x3), String::from_str("ゴルフ"));
    m.insert(genre_key_of(0x1, 0x4), String::from_str("その他の球技"));
    m.insert(genre_key_of(0x1, 0x5), String::from_str("相撲・格闘技"));
    m.insert(genre_key_of(0x1, 0x6), String::from_str("オリンピック・国際大会"));
    m.insert(genre_key_of(0x1, 0x7), String::from_str("マラソン・陸上・水泳"));
    m.insert(genre_key_of(0x1, 0x8), String::from_str("モータースポーツ"));
    m.insert(genre_key_of(0x1, 0x9), String::from_str("マリン・ウィンタースポーツ"));
    m.insert(genre_key_of(0x1, 0xa), String::from_str("競馬・公営競技"));
    m.insert(genre_key_of(0x1, 0xf), String::from_str("その他"));
}

/// Adds the level-2 genre names under level-1 code 0x2.
fn insert_lv2_group_2(m: &mut HashMap<u64, String>, Ghost(done): Ghost<Set<u32>>)
    requires
        lv2_table_partial(old(m)@, done),
        !done.contains(0x2u32),
    ensures
        lv2_table_partial(final(m)@, done.insert(0x2u32)),
        final(m)@.len() == old(m)@.len() + 9,
{
    broadcast use vstd::std_specs::hash::group_hash_axioms, lemma_genre_key_decode;

    m.insert(genre_key_of(0x2, 0x0), String::from_str("芸能・ワイドショー"));
    m.insert(genre_key_of(0x2, 0x1), String::from_str("ファッション"));
    m.insert(genre_key_of(0x2, 0x2), String::from_str("暮らし・住まい"));
    m.insert(genre_key_of(0x2, 0x3), String::from_str("健康・医療"));
    m.insert(genre_key_of(0x2, 0x4), String::from_str("ショッピング・通販"));
    m.insert(genre_key_of(0x2, 0x5), String::from_str("グルメ・料理"));
    m.insert(genre_key_of(0x2, 0x6), String::from_str("イベント"));
    m.insert(genre_key_of(0x2, 0x7), String::from_str("番組紹介・お知らせ"));
    m.insert(genre_key_of(0x2, 0xf), String::from_str("その他"));
}

/// Adds the level-2 genre names under level-1 code 0x3.
fn insert_lv2_group_3(m: &mut HashMap<u64, String>, Ghost(done): Ghost<Set<u32>>)
    requires
        lv2_table_partial(old(m)@, done),
        !done.contains(0x3u32),
    ensures
        lv2_table_partial(final(m)@, done.insert(0x3u32)),
        final(m)@.len() == old(m)@.len() + 4,
{
    broadcast use vstd::std_specs::hash::group_hash_axioms, lemma_genre_key_decode;

    m.insert(genre_key_of(0x3, 0x0), String::from_str("国内ドラマ"));
    m.insert(genre_key_of(0x3, 0x1), String::from_str("海外ドラマ"));
    m.insert(genre_key_of(0x3, 0x2), String::from_str("時代劇"));
    m.insert(genre_key_of(0x3, 0xf), String::from_str("その他"));
}

/// Adds the level-2 genre names under level-1 code 0x4.
fn insert_lv2_group_4(m: &mut HashMap<u64, String>, Ghost(done): Ghost<Set<u32>>)
    requires
        lv2_table_partial(old(m)@, done),
        !done.contains(0x4u32),
    ensures
        lv2_table_partial(final(m)@, done.insert(0x4u32)),
        final(m)@.len() == old(m)@.len() + 12,
{
    broadcast use vstd::std_specs::hash::group_hash_axioms, lemma_genre_key_decode;

    m.insert(genre_key_of(0x4, 0x0), String::from_str("国内ロック・ポップス"));
    m.insert(genre_key_of(0x4, 0x1), String::from_str("海外ロック・ポップス"));
    m.insert(genre_key_of(0x4, 0x2), String::from_str("クラシック・オペラ"));
    m.insert(genre_key_of(0x4, 0x3), String::from_str("ジャズ・フュージョン"));
    m.insert(genre_key_of(0x4, 0x4), String::from_str("歌謡曲・演歌"));
    m.insert(genre_key_of(0x4, 0x5), String::from_str("ライブ・コンサート"));
    m.insert(genre_key_of(0x4, 0x6), String::from_str("ランキング・リクエスト"));
    m.insert(genre_key_of(0x4, 0x7), String::from_str("カラオケ・のど自慢"));
    m.insert(genre_key_of(0x4, 0x8), String::from_str("民謡・邦楽"));
    m.insert(genre_key_of(0x4, 0x9), String::from_str("童謡・キッズ"));
    m.insert(genre_key_of(0x4, 0xa), String::from_str("民族音楽・ワールドミュージック"));
    m.insert(genre_key_of(0x4, 0xf), String::from_str("その他"));
}

/// Adds the level-2 genre names under level-1 code 0x5.
fn insert_lv2_group_5(m: &mut HashMap<u64, String>, Ghost(done): Ghost<Set<u32>>)
    requires
        lv2_table_partial(old(m)@, done),
        !done.contains(0x5u32),
    ensures
        lv2_table_partial(final(m)@, done.insert(0x5u32)),
        final(m)@.len() == old(m)@.len() + 8,
{
    broadcast use vstd::std_specs::hash::group_hash_axioms, lemma_genre_key_decode;

    m.insert(genre_key_of(0x5, 0x0), String::from_str("クイズ"));
    m.insert(genre_key_of(0x5, 0x1), String::from_str("ゲーム"));
    m.insert(genre_key_of(0x5, 0x2), String::from_str("トークバラエティ"));
    m.insert(genre_key_of(0x5, 0x3), String::from_str("お笑い・コメディ"));
    m.insert(genre_key_of(0x5, 0x4), String::from_str("音楽バラエティ"));
    m.insert(genre_key_of(0x5, 0x5), String::from_str("旅バラエティ"));
    m.insert(genre_key_of(0x5, 0x6), String::from_str("料理バラエティ"));
    m.insert(genre_key_of(0x5, 0xf), String::from_str("その他"));
}

/// Adds the level-2 genre names under level-1 code 0x6.
fn insert_lv2_group_6(m: &mut HashMap<u64, String>, Ghost(done): Ghost<Set<u32>>)
    requires
        lv2_table_partial(old(m)@, done),
        !done.contains(0x6u32),
    ensures
        lv2_table_partial(final(m)@, done.insert(0x6u32)),
        final(m)@.len() == old(m)@.len() + 4,
{
    broadcast use vstd::std_specs::hash::group_hash_axioms, lemma_genre_key_decode;

    m.insert(genre_key_of(0x6, 0x0), String::from_str("洋画"));
    m.insert(genre_key_of(0x6, 0x1), String::from_str("邦画"));
    m.insert(genre_key_of(0x6, 0x2), String::from_str("アニメ"));
    m.insert(genre_key_of(0x6, 0xf), String::from_str("その他"));
}

/// Adds the level-2 genre names under level-1 code 0x7.
fn insert_lv2_group_7(m: &mut HashMap<u64, String>, Ghost(done): Ghost<Set<u32>>)
    requires
        lv2_table_partial(old(m)@, done),
        !done.contains(0x7u32),
    ensures
        lv2_table_partial(final(m)@, done.insert(0x7u32)),
        final(m)@.len() == old(m)@.len() + 4,
{
    broadcast use vstd::std_specs::hash::group_hash_axioms, lemma_genre_key_decode;

    m.insert(genre_key_of(0x7, 0x0), String::from_str("国内アニメ"));
    m.insert(genre_key_of(0x7, 0x1), String::from_str("海外アニメ"));
    m.insert(genre_key_of(0x7, 0x2), String::from_str("特撮"));
    m.insert(genre_key_of(0x7, 0xf), String::from_str("その他"));
}

/// Adds the level-2 genre names under level-1 code 0x8.
fn insert_lv2_group_8(m: &mut HashMap<u64, String>, Ghost(done): Ghost<Set<u32>>)
    requires
        lv2_table_partial(old(m)@, done),
        !done.contains(0x8u32),
    ensures
        lv2_table_partial(final(m)@, done.insert(0x8u32)),
        final(m)@.len() == old(m)@.len() + 10,
{
    broadcast use vstd::std_specs::hash::group_hash_axioms, lemma_genre_key_decode;

    m.insert(genre_key_of(0x8, 0x0), String::from_str("社会・時事"));
    m.insert(genre_key_of(0x8, 0x1), String::from_str("歴史・紀行"));
    m.insert(genre_key_of(0x8, 0x2), String::from_str("自然・動物・環境"));
    m.insert(genre_key_of(0x8, 0x3), String::from_str("宇宙・科学・医学"));
    m.insert(genre_key_of(0x8, 0x4), String::from_str("カルチャー・伝統文化"));
    m.insert(genre_key_of(0x8, 0x5), String::from_str("文学・文芸"));
    m.insert(genre_key_of(0x8, 0x6), String::from_str("スポーツ"));
    m.insert(genre_key_of(0x8, 0x7), String::from_str("ドキュメンタリー全般"));
    m.insert(genre_key_of(0x8, 0x8), String::from_str("インタビュー・討論"));
    m.insert(genre_key_of(0x8, 0xf), String::from_str("その他"));
}

/// Adds the level-2 genre names under level-1 code 0x9.
fn insert_lv2_group_9(m: &mut HashMap<u64, String>, Ghost(done): Ghost<Set<u32>>)
    requires
        lv2_table_partial(old(m)@, done),
        !done.contains(0x9u32),
    ensures
        lv2_table_partial(final(m)@, done.insert(0x9u32)),
        final(m)@.len() == old(m)@.len() + 6,
{
    broadcast use vstd::std_specs::hash::group_hash_axioms, lemma_genre_key_decode;

    m.insert(genre_key_of(0x9, 0x0), String::from_str("現代劇・新劇"));
    m.insert(genre_key_of(0x9, 0x1), String::from_str("ミュージカル"));
    m.insert(genre_key_of(0x9, 0x2), String::from_str("ダンス・バレエ"));
    m.insert(genre_key_of(0x9, 0x3), String::from_str("落語・演芸"));
    m.insert(genre_key_of(0x9, 0x4), String::from_str("歌舞伎・古典"));
    m.insert(genre_key_of(0x9, 0xf), String::from_str("その他"));
}

/// Adds the level-2 genre names under level-1 code 0xa.
fn insert_lv2_group_a(m: &mut HashMap<u64, String>, Ghost(done): Ghost<Set<u32>>)
    requires
        lv2_table_partial(old(m)@, done),
        !done.contains(0xau32),
    ensures
        lv2_table_partial(final(m)@, done.insert(0xau32)),
        final(m)@.len() == old(m)@.len() + 14,
{
    broadcast use vstd::std_specs::hash::group_hash_axioms, lemma_genre_key_decode;

    m.insert(genre_key_of(0xa, 0x0), String::from_str("旅・釣り・アウトドア"));
    m.insert(genre_key_of(0xa, 0x1), String::from_str("園芸・ペット・手芸"));
    m.insert(genre_key_of(0xa, 0x2), String::from_str("音楽・美術・工芸"));
    m.insert(genre_key_of(0xa, 0x3), String::from_str("囲碁・将棋"));
    m.insert(genre_key_of(0xa, 0x4), String::from_str("麻雀・パチンコ"));
    m.insert(genre_key_of(0xa, 0x5), String::from_str("車・オートバイ"));
    m.insert(genre_key_of(0xa, 0x6), String::from_str("コンピュータ・ＴＶゲーム"));
    m.insert(genre_key_of(0xa, 0x7), String::from_str("会話・語学"));
    m.insert(genre_key_of(0xa, 0x8), String::from_str("幼児・小学生"));
    m.insert(genre_key_of(0xa, 0x9), String::from_str("中学生・高校生"));
    m.insert(genre_key_of(0xa, 0xa), String::from_str("大学生・受験"));
    m.insert(genre_key_of(0xa, 0xb), String::from_str("生涯教育・資格"));
    m.insert(genre_key_of(0xa, 0xc), String::from_str("教育問題"));
    m.insert(genre_key_of(0xa, 0xf), String::from_str("その他"));
}

/// Adds the level-2 genre names under level-1 code 0xb.
fn insert_lv2_group_b(m: &mut HashMap<u64, String>, Ghost(done): Ghost<Set<u32>>)
    requires
        lv2_table_partial(old(m)@, done),
        !done.contains(0xbu32),
    ensures
        lv2_table_partial(final(m)@, done.insert(0xbu32)),
        final(m)@.len() == old(m)@.len() + 8,
{
    broadcast use vstd::std_specs::hash::group_hash_axioms, lemma_genre_key_decode;

    m.insert(genre_key_of(0xb, 0x0), String::from_str("高齢者"));
    m.insert(genre_key_of(0xb, 0x1), String::from_str("障害者"));
    m.insert(genre_key_of(0xb, 0x2), String::from_str("社会福祉"));
    m.insert(genre_key_of(0xb, 0x3), String::from_str("ボランティア"));
    m.insert(genre_key_of(0xb, 0x4), String::from_str("手話"));
    m.insert(genre_key_of(0xb, 0x5), String::from_str("文字(字幕)"));
    m.insert(genre_key_of(0xb, 0x6), String::from_str("音声解説"));
    m.insert(genre_key_of(0xb, 0xf), String::from_str("その他"));
}

/// Adds the level-2 genre names under level-1 code 0xf.
fn insert_lv2_group_f(m: &mut HashMap<u64, String>, Ghost(done): Ghost<Set<u32>>)
    requires
        lv2_table_partial(old(m)@, done),
        !done.contains(0xfu32),
    ensures
        lv2_table_partial(final(m)@, done.insert(0xfu32)),
        final(m)@.len() == old(m)@.len() + 1,
{
    broadcast use vstd::std_specs::hash::group_hash_axioms, lemma_genre_key_decode;

    m.insert(genre_key_of(0xf, 0xf), String::from_str("その他"));
}

/// Fills the level-2 genre names.
fn build_lv2_map() -> (m: HashMap<u64, String>)
    ensures
        lv2_table_ok(m@),
        m@.len() == 104,
{
    broadcast use vstd::std_specs::hash::group_hash_axioms;

    let mut m: HashMap<u64, String> = HashMap::new();
    let ghost done: Set<u32> = Set::empty();
    insert_lv2_group_0(&mut m, Ghost(done));
    proof {
        done = done.insert(0x0u32);
    }
    insert_lv2_group_1(&mut m, Ghost(done));
    proof {
        done = done.insert(0x1u32);
    }
    insert_lv2_group_2(&mut m, Ghost(done));
    proof {
        done = done.insert(0x2u32);
    }
    insert_lv2_group_3(&mut m, Ghost(done));
    proof {
        done = done.insert(0x3u32);
    }
    insert_lv2_group_4(&mut m, Ghost(done));
    proof {
        done = done.insert(0x4u32);
    }
    insert_lv2_group_5(&mut m, Ghost(done));
    proof {
        done = done.insert(0x5u32);
    }
    insert_lv2_group_6(&mut m, Ghost(done));
    proof {
        done = done.insert(0x6u32);
    }
    insert_lv2_group_7(&mut m, Ghost(done));
    proof {
        done = done.insert(0x7u32);
    }
    insert_lv2_group_8(&mut m, Ghost(done));
    proof {
        done = done.insert(0x8u32);
    }
    insert_lv2_group_9(&mut m, Ghost(done));
    proof {
        done = done.insert(0x9u32);
    }
    insert_lv2_group_a(&mut m, Ghost(done));
    proof {
        done = done.insert(0xau32);
    }
    insert_lv2_group_b(&mut m, Ghost(done));
    proof {
        done = done.insert(0xbu32);
    }
    insert_lv2_group_f(&mut m, Ghost(done));
    proof {
        done = done.insert(0xfu32);
    }
    m
}
/// The name used for a code that has none.
pub open spec fn unknown_name() -> Seq<char> {
    "不明"@
}

/// The text of a genre: the level-1 name, followed by `/` and the level-2
/// name where the level-2 code has one; `不明` stands for a missing name.
pub open spec fn genre_text(lv1: u32, lv2: u32) -> Seq<char> {
    let l1 = match lv1_genre_name(lv1) {
        Some(t) => t,
        None => unknown_name(),
    };
    let l2 = match lv2_genre_name(lv1, lv2) {
        Some(t) => t,
        None => unknown_name(),
    };
    if l2.len() == 0 || l2 == unknown_name() {
        l1
    } else {
        l1 + "/"@ + l2
    }
}

/// The shape of the genre tables: the level-1 codes are 0x0 to 0xb and 0xf;
/// every level-2 code lies under a named level-1 code and is at most 0xf; and
/// under every named level-1 code, level-2 code 0xf is named `その他`.
pub proof fn lemma_genre_tables_shape(lv1: u32, lv2: u32)
    ensures
        lv1_genre_name(lv1) is Some <==> (lv1 <= 0xb || lv1 == 0xf),
        lv2_genre_name(lv1, lv2) is Some ==> lv1_genre_name(lv1) is Some && lv2 <= 0xf,
        lv1_genre_name(lv1) is Some ==> lv2_genre_name(lv1, 0xf) == Some("その他"@),
{
}

/// The level-1 genre names of ARIB STD-B10: 0x0 ニュース・報道, 0x1 スポーツ, …,
/// 0xb 福祉, 0xf その他; no other level-1 code has a name.
pub proof fn lemma_lv1_genre_table(lv1: u32)
    ensures
        lv1_genre_name(lv1) is Some <==> (lv1 == 0x0 || lv1 == 0x1 || lv1 == 0x2 || lv1 == 0x3 || lv1 == 0x4 || lv1 == 0x5 || lv1 == 0x6 || lv1 == 0x7 || lv1 == 0x8 || lv1 == 0x9 || lv1 == 0xa || lv1 == 0xb || lv1 == 0xf),
        lv1_genre_name(0x0) == Some("ニュース・報道"@),
        lv1_genre_name(0x1) == Some("スポーツ"@),
        lv1_genre_name(0x2) == Some("情報・ワイドショー"@),
        lv1_genre_name(0x3) == Some("ドラマ"@),
        lv1_genre_name(0x4) == Some("音楽"@),
        lv1_genre_name(0x5) == Some("バラエティ"@),
        lv1_genre_name(0x6) == Some("映画"@),
        lv1_genre_name(0x7) == Some("アニメ・特撮"@),
        lv1_genre_name(0x8) == Some("ドキュメンタリー・教養"@),
        lv1_genre_name(0x9) == Some("劇場・公演"@),
        lv1_genre_name(0xa) == Some("趣味・教育"@),
        lv1_genre_name(0xb) == Some("福祉"@),
        lv1_genre_name(0xf) == Some("その他"@),
{
}

/// The level-2 genre names of ARIB STD-B10 under each level-1 code (for
/// instance 0x1/0x1 野球 and 0x1/0x2 サッカー); under each named level-1
/// code the level-2 codes run from 0x0 without a gap, followed by 0xf, and no
/// other pair has a name.
pub proof fn lemma_lv2_genre_table(lv1: u32, lv2: u32)
    ensures
        lv2_genre_name(lv1, lv2) is Some <==> ((lv1 == 0x0 && (lv2 <= 0xa || lv2 == 0xf))
            || (lv1 == 0x1 && (lv2 <= 0xa || lv2 == 0xf))
            || (lv1 == 0x2 && (lv2 <= 0x7 || lv2 == 0xf))
            || (lv1 == 0x3 && (lv2 <= 0x2 || lv2 == 0xf))
            || (lv1 == 0x4 && (lv2 <= 0xa || lv2 == 0xf))
            || (lv1 == 0x5 && (lv2 <= 0x6 || lv2 == 0xf))
            || (lv1 == 0x6 && (lv2 <= 0x2 || lv2 == 0xf))
            || (lv1 == 0x7 && (lv2 <= 0x2 || lv2 == 0xf))
            || (lv1 == 0x8 && (lv2 <= 0x8 || lv2 == 0xf))
            || (lv1 == 0x9 && (lv2 <= 0x4 || lv2 == 0xf))
            || (lv1 == 0xa && (lv2 <= 0xc || lv2 == 0xf))
            || (lv1 == 0xb && (lv2 <= 0x6 || lv2 == 0xf))
            || (lv1 == 0xf && lv2 == 0xf)),
        lv2_genre_name(0x0, 0x0) == Some("定時・総合"@),
        lv2_genre_name(0x0, 0x1) == Some("天気"@),
        lv2_genre_name(0x0, 0x2) == Some("特集・ドキュメント"@),
        lv2_genre_name(0x0, 0x3) == Some("政治・国会"@),
        lv2_genre_name(0x0, 0x4) == Some("経済・市況"@),
        lv2_genre_name(0x0, 0x5) == Some("海外・国際"@),
        lv2_genre_name(0x0, 0x6) == Some("解説"@),
        lv2_genre_name(0x0, 0x7) == Some("討論・会談"@),
        lv2_genre_name(0x0, 0x8) == Some("報道特番"@),
        lv2_genre_name(0x0, 0x9) == Some("ローカル・地域"@),
        lv2_genre_name(0x0, 0xa) == Some("交通"@),
        lv2_genre_name(0x0, 0xf) == Some("その他"@),
        lv2_genre_name(0x1, 0x0) == Some("スポーツニュース"@),
        lv2_genre_name(0x1, 0x1) == Some("野球"@),
        lv2_genre_name(0x1, 0x2) == Some("サッカー"@),
        lv2_genre_name(0x1, 0x3) == Some("ゴルフ"@),
        lv2_genre_name(0x1, 0x4) == Some("その他の球技"@),
        lv2_genre_name(0x1, 0x5) == Some("相撲・格闘技"@),
        lv2_genre_name(0x1, 0x6) == Some("オリンピック・国際大会"@),
        lv2_genre_name(0x1, 0x7) == Some("マラソン・陸上・水泳"@),
        lv2_genre_name(0x1, 0x8) == Some("モータースポーツ"@),
        lv2_genre_name(0x1, 0x9) == Some("マリン・ウィンタースポーツ"@),
        lv2_genre_name(0x1, 0xa) == Some("競馬・公営競技"@),
        lv2_genre_name(0x1, 0xf) == Some("その他"@),
        lv2_genre_name(0x2, 0x0) == Some("芸能・ワイドショー"@),
        lv2_genre_name(0x2, 0x1) == Some("ファッション"@),
        lv2_genre_name(0x2, 0x2) == Some("暮らし・住まい"@),
        lv2_genre_name(0x2, 0x3) == Some("健康・医療"@),
        lv2_genre_name(0x2, 0x4) == Some("ショッピング・通販"@),
        lv2_genre_name(0x2, 0x5) == Some("グルメ・料理"@),
        lv2_genre_name(0x2, 0x6) == Some("イベント"@),
        lv2_genre_name(0x2, 0x7) == Some("番組紹介・お知らせ"@),
        lv2_genre_name(0x2, 0xf) == Some("その他"@),
        lv2_genre_name(0x3, 0x0) == Some("国内ドラマ"@),
        lv2_genre_name(0x3, 0x1) == Some("海外ドラマ"@),
        lv2_genre_name(0x3, 0x2) == Some("時代劇"@),
        lv2_genre_name(0x3, 0xf) == Some("その他"@),
        lv2_genre_name(0x4, 0x0) == Some("国内ロック・ポップス"@),
        lv2_genre_name(0x4, 0x1) == Some("海外ロック・ポップス"@),
        lv2_genre_name(0x4, 0x2) == Some("クラシック・オペラ"@),
        lv2_genre_name(0x4, 0x3) == Some("ジャズ・フュージョン"@),
        lv2_genre_name(0x4, 0x4) == Some("歌謡曲・演歌"@),
        lv2_genre_name(0x4, 0x5) == Some("ライブ・コンサート"@),
        lv2_genre_name(0x4, 0x6) == Some("ランキング・リクエスト"@),
        lv2_genre_name(0x4, 0x7) == Some("カラオケ・のど自慢"@),
        lv2_genre_name(0x4, 0x8) == Some("民謡・邦楽"@),
        lv2_genre_name(0x4, 0x9) == Some("童謡・キッズ"@),
        lv2_genre_name(0x4, 0xa) == Some("民族音楽・ワールドミュージック"@),
        lv2_genre_name(0x4, 0xf) == Some("その他"@),
        lv2_genre_name(0x5, 0x0) == Some("クイズ"@),
        lv2_genre_name(0x5, 0x1) == Some("ゲーム"@),
        lv2_genre_name(0x5, 0x2) == Some("トークバラエティ"@),
        lv2_genre_name(0x5, 0x3) == Some("お笑い・コメディ"@),
        lv2_genre_name(0x5, 0x4) == Some("音楽バラエティ"@),
        lv2_genre_name(0x5, 0x5) == Some("旅バラエティ"@),
        lv2_genre_name(0x5, 0x6) == Some("料理バラエティ"@),
        lv2_genre_name(0x5, 0xf) == Some("その他"@),
        lv2_genre_name(0x6, 0x0) == Some("洋画"@),
        lv2_genre_name(0x6, 0x1) == Some("邦画"@),
        lv2_genre_name(0x6, 0x2) == Some("アニメ"@),
        lv2_genre_name(0x6, 0xf) == Some("その他"@),
        lv2_genre_name(0x7, 0x0) == Some("国内アニメ"@),
        lv2_genre_name(0x7, 0x1) == Some("海外アニメ"@),
        lv2_genre_name(0x7, 0x2) == Some("特撮"@),
        lv2_genre_name(0x7, 0xf) == Some("その他"@),
        lv2_genre_name(0x8, 0x0) == Some("社会・時事"@),
        lv2_genre_name(0x8, 0x1) == Some("歴史・紀行"@),
        lv2_genre_name(0x8, 0x2) == Some("自然・動物・環境"@),
        lv2_genre_name(0x8, 0x3) == Some("宇宙・科学・医学"@),
        lv2_genre_name(0x8, 0x4) == Some("カルチャー・伝統文化"@),
        lv2_genre_name(0x8, 0x5) == Some("文学・文芸"@),
        lv2_genre_name(0x8, 0x6) == Some("スポーツ"@),
        lv2_genre_name(0x8, 0x7) == Some("ドキュメンタリー全般"@),
        lv2_genre_name(0x8, 0x8) == Some("インタビュー・討論"@),
        lv2_genre_name(0x8, 0xf) == Some("その他"@),
        lv2_genre_name(0x9, 0x0) == Some("現代劇・新劇"@),
        lv2_genre_name(0x9, 0x1) == Some("ミュージカル"@),
        lv2_genre_name(0x9, 0x2) == Some("ダンス・バレエ"@),
        lv2_genre_name(0x9, 0x3) == Some("落語・演芸"@),
        lv2_genre_name(0x9, 0x4) == Some("歌舞伎・古典"@),
        lv2_genre_name(0x9, 0xf) == Some("その他"@),
        lv2_genre_name(0xa, 0x0) == Some("旅・釣り・アウトドア"@),
        lv2_genre_name(0xa, 0x1) == Some("園芸・ペット・手芸"@),
        lv2_genre_name(0xa, 0x2) == Some("音楽・美術・工芸"@),
        lv2_genre_name(0xa, 0x3) == Some("囲碁・将棋"@),
        lv2_genre_name(0xa, 0x4) == Some("麻雀・パチンコ"@),
        lv2_genre_name(0xa, 0x5) == Some("車・オートバイ"@),
        lv2_genre_name(0xa, 0x6) == Some("コンピュータ・ＴＶゲーム"@),
        lv2_genre_name(0xa, 0x7) == Some("会話・語学"@),
        lv2_genre_name(0xa, 0x8) == Some("幼児・小学生"@),
        lv2_genre_name(0xa, 0x9) == Some("中学生・高校生"@),
        lv2_genre_name(0xa, 0xa) == Some("大学生・受験"@),
        lv2_genre_name(0xa, 0xb) == Some("生涯教育・資格"@),
        lv2_genre_name(0xa, 0xc) == Some("教育問題"@),
        lv2_genre_name(0xa, 0xf) == Some("その他"@),
        lv2_genre_name(0xb, 0x0) == Some("高齢者"@),
        lv2_genre_name(0xb, 0x1) == Some("障害者"@),
        lv2_genre_name(0xb, 0x2) == Some("社会福祉"@),
        lv2_genre_name(0xb, 0x3) == Some("ボランティア"@),
        lv2_genre_name(0xb, 0x4) == Some("手話"@),
        lv2_genre_name(0xb, 0x5) == Some("文字(字幕)"@),
        lv2_genre_name(0xb, 0x6) == Some("音声解説"@),
        lv2_genre_name(0xb, 0xf) == Some("その他"@),
        lv2_genre_name(0xf, 0xf) == Some("その他"@),
{
}

/// A name that is neither empty nor `不明`.
pub open spec fn not_blank(t: Seq<char>) -> bool {
    t.len() > 0 && t != unknown_name()
}

/// No genre name is empty or `不明`.
pub proof fn lemma_genre_names_not_blank(lv1: u32, lv2: u32)
    ensures
        lv1_genre_name(lv1) matches Some(t) ==> not_blank(t),
        lv2_genre_name(lv1, lv2) matches Some(t) ==> not_blank(t),
{
    assert(not_blank("その他"@)) by {
        reveal_strlit("不明");
        reveal_strlit("その他");
    }
    assert(not_blank("スポーツ"@)) by {
        reveal_strlit("不明");
        reveal_strlit("スポーツ");
    }
    if lv1 == 0x0 {
        assert(not_blank("ニュース・報道"@)) by {
            reveal_strlit("不明");
            reveal_strlit("ニュース・報道");
        }
        assert(not_blank("定時・総合"@)) by {
            reveal_strlit("不明");
            reveal_strlit("定時・総合");
        }
        assert(not_blank("天気"@)) by {
            reveal_strlit("不明");
            reveal_strlit("天気");
            assert("天気"@[0] != "不明"@[0]);
        }
        assert(not_blank("特集・ドキュメント"@)) by {
            reveal_strlit("不明");
            reveal_strlit("特集・ドキュメント");
        }
        assert(not_blank("政治・国会"@)) by {
            reveal_strlit("不明");
            reveal_strlit("政治・国会");
        }
        assert(not_blank("経済・市況"@)) by {
            reveal_strlit("不明");
            reveal_strlit("経済・市況");
        }
        assert(not_blank("海外・国際"@)) by {
            reveal_strlit("不明");
            reveal_strlit("海外・国際");
        }
        assert(not_blank("解説"@)) by {
            reveal_strlit("不明");
            reveal_strlit("解説");
            assert("解説"@[0] != "不明"@[0]);
        }
        assert(not_blank("討論・会談"@)) by {
            reveal_strlit("不明");
            reveal_strlit("討論・会談");
        }
        assert(not_blank("報道特番"@)) by {
            reveal_strlit("不明");
            reveal_strlit("報道特番");
        }
        assert(not_blank("ローカル・地域"@)) by {
            reveal_strlit("不明");
            reveal_strlit("ローカル・地域");
        }
        assert(not_blank("交通"@)) by {
            reveal_strlit("不明");
            reveal_strlit("交通");
            assert("交通"@[0] != "不明"@[0]);
        }
    } else if lv1 == 0x1 {
        assert(not_blank("スポーツニュース"@)) by {
            reveal_strlit("不明");
            reveal_strlit("スポーツニュース");
        }
        assert(not_blank("野球"@)) by {
            reveal_strlit("不明");
            reveal_strlit("野球");
            assert("野球"@[0] != "不明"@[0]);
        }
        assert(not_blank("サッカー"@)) by {
            reveal_strlit("不明");
            reveal_strlit("サッカー");
        }
        assert(not_blank("ゴルフ"@)) by {
            reveal_strlit("不明");
            reveal_strlit("ゴルフ");
        }
        assert(not_blank("その他の球技"@)) by {
            reveal_strlit("不明");
            reveal_strlit("その他の球技");
        }
        assert(not_blank("相撲・格闘技"@)) by {
            reveal_strlit("不明");
            reveal_strlit("相撲・格闘技");
        }
        assert(not_blank("オリンピック・国際大会"@)) by {
            reveal_strlit("不明");
            reveal_strlit("オリンピック・国際大会");
        }
        assert(not_blank("マラソン・陸上・水泳"@)) by {
            reveal_strlit("不明");
            reveal_strlit("マラソン・陸上・水泳");
        }
        assert(not_blank("モータースポーツ"@)) by {
            reveal_strlit("不明");
            reveal_strlit("モータースポーツ");
        }
        assert(not_blank("マリン・ウィンタースポーツ"@)) by {
            reveal_strlit("不明");
            reveal_strlit("マリン・ウィンタースポーツ");
        }
        assert(not_blank("競馬・公営競技"@)) by {
            reveal_strlit("不明");
            reveal_strlit("競馬・公営競技");
        }
    } else if lv1 == 0x2 {
        assert(not_blank("情報・ワイドショー"@)) by {
            reveal_strlit("不明");
            reveal_strlit("情報・ワイドショー");
        }
        assert(not_blank("芸能・ワイドショー"@)) by {
            reveal_strlit("不明");
            reveal_strlit("芸能・ワイドショー");
        }
        assert(not_blank("ファッション"@)) by {
            reveal_strlit("不明");
            reveal_strlit("ファッション");
        }
        assert(not_blank("暮らし・住まい"@)) by {
            reveal_strlit("不明");
            reveal_strlit("暮らし・住まい");
        }
        assert(not_blank("健康・医療"@)) by {
            reveal_strlit("不明");
            reveal_strlit("健康・医療");
        }
        assert(not_blank("ショッピング・通販"@)) by {
            reveal_strlit("不明");
            reveal_strlit("ショッピング・通販");
        }
        assert(not_blank("グルメ・料理"@)) by {
            reveal_strlit("不明");
            reveal_strlit("グルメ・料理");
        }
        assert(not_blank("イベント"@)) by {
            reveal_strlit("不明");
            reveal_strlit("イベント");
        }
        assert(not_blank("番組紹介・お知らせ"@)) by {
            reveal_strlit("不明");
            reveal_strlit("番組紹介・お知らせ");
        }
    } else if lv1 == 0x3 {
        assert(not_blank("ドラマ"@)) by {
            reveal_strlit("不明");
            reveal_strlit("ドラマ");
        }
        assert(not_blank("国内ドラマ"@)) by {
            reveal_strlit("不明");
            reveal_strlit("国内ドラマ");
        }
        assert(not_blank("海外ドラマ"@)) by {
            reveal_strlit("不明");
            reveal_strlit("海外ドラマ");
        }
        assert(not_blank("時代劇"@)) by {
            reveal_strlit("不明");
            reveal_strlit("時代劇");
        }
    } else if lv1 == 0x4 {
        assert(not_blank("音楽"@)) by {
            reveal_strlit("不明");
            reveal_strlit("音楽");
            assert("音楽"@[0] != "不明"@[0]);
        }
        assert(not_blank("国内ロック・ポップス"@)) by {
            reveal_strlit("不明");
            reveal_strlit("国内ロック・ポップス");
        }
        assert(not_blank("海外ロック・ポップス"@)) by {
            reveal_strlit("不明");
            reveal_strlit("海外ロック・ポップス");
        }
        assert(not_blank("クラシック・オペラ"@)) by {
            reveal_strlit("不明");
            reveal_strlit("クラシック・オペラ");
        }
        assert(not_blank("ジャズ・フュージョン"@)) by {
            reveal_strlit("不明");
            reveal_strlit("ジャズ・フュージョン");
        }
        assert(not_blank("歌謡曲・演歌"@)) by {
            reveal_strlit("不明");
            reveal_strlit("歌謡曲・演歌");
        }
        assert(not_blank("ライブ・コンサート"@)) by {
            reveal_strlit("不明");
            reveal_strlit("ライブ・コンサート");
        }
        assert(not_blank("ランキング・リクエスト"@)) by {
            reveal_strlit("不明");
            reveal_strlit("ランキング・リクエスト");
        }
        assert(not_blank("カラオケ・のど自慢"@)) by {
            reveal_strlit("不明");
            reveal_strlit("カラオケ・のど自慢");
        }
        assert(not_blank("民謡・邦楽"@)) by {
            reveal_strlit("不明");
            reveal_strlit("民謡・邦楽");
        }
        assert(not_blank("童謡・キッズ"@)) by {
            reveal_strlit("不明");
            reveal_strlit("童謡・キッズ");
        }
        assert(not_blank("民族音楽・ワールドミュージック"@)) by {
            reveal_strlit("不明");
            reveal_strlit("民族音楽・ワールドミュージック");
        }
    } else if lv1 == 0x5 {
        assert(not_blank("バラエティ"@)) by {
            reveal_strlit("不明");
            reveal_strlit("バラエティ");
        }
        assert(not_blank("クイズ"@)) by {
            reveal_strlit("不明");
            reveal_strlit("クイズ");
        }
        assert(not_blank("ゲーム"@)) by {
            reveal_strlit("不明");
            reveal_strlit("ゲーム");
        }
        assert(not_blank("トークバラエティ"@)) by {
            reveal_strlit("不明");
            reveal_strlit("トークバラエティ");
        }
        assert(not_blank("お笑い・コメディ"@)) by {
            reveal_strlit("不明");
            reveal_strlit("お笑い・コメディ");
        }
        assert(not_blank("音楽バラエティ"@)) by {
            reveal_strlit("不明");
            reveal_strlit("音楽バラエティ");
        }
        assert(not_blank("旅バラエティ"@)) by {
            reveal_strlit("不明");
            reveal_strlit("旅バラエティ");
        }
        assert(not_blank("料理バラエティ"@)) by {
            reveal_strlit("不明");
            reveal_strlit("料理バラエティ");
        }
    } else if lv1 == 0x6 {
        assert(not_blank("映画"@)) by {
            reveal_strlit("不明");
            reveal_strlit("映画");
            assert("映画"@[0] != "不明"@[0]);
        }
        assert(not_blank("洋画"@)) by {
            reveal_strlit("不明");
            reveal_strlit("洋画");
            assert("洋画"@[0] != "不明"@[0]);
        }
        assert(not_blank("邦画"@)) by {
            reveal_strlit("不明");
            reveal_strlit("邦画");
            assert("邦画"@[0] != "不明"@[0]);
        }
        assert(not_blank("アニメ"@)) by {
            reveal_strlit("不明");
            reveal_strlit("アニメ");
        }
    } else if lv1 == 0x7 {
        assert(not_blank("アニメ・特撮"@)) by {
            reveal_strlit("不明");
            reveal_strlit("アニメ・特撮");
        }
        assert(not_blank("国内アニメ"@)) by {
            reveal_strlit("不明");
            reveal_strlit("国内アニメ");
        }
        assert(not_blank("海外アニメ"@)) by {
            reveal_strlit("不明");
            reveal_strlit("海外アニメ");
        }
        assert(not_blank("特撮"@)) by {
            reveal_strlit("不明");
            reveal_strlit("特撮");
            assert("特撮"@[0] != "不明"@[0]);
        }
    } else if lv1 == 0x8 {
        assert(not_blank("ドキュメンタリー・教養"@)) by {
            reveal_strlit("不明");
            reveal_strlit("ドキュメンタリー・教養");
        }
        assert(not_blank("社会・時事"@)) by {
            reveal_strlit("不明");
            reveal_strlit("社会・時事");
        }
        assert(not_blank("歴史・紀行"@)) by {
            reveal_strlit("不明");
            reveal_strlit("歴史・紀行");
        }
        assert(not_blank("自然・動物・環境"@)) by {
            reveal_strlit("不明");
            reveal_strlit("自然・動物・環境");
        }
        assert(not_blank("宇宙・科学・医学"@)) by {
            reveal_strlit("不明");
            reveal_strlit("宇宙・科学・医学");
        }
        assert(not_blank("カルチャー・伝統文化"@)) by {
            reveal_strlit("不明");
            reveal_strlit("カルチャー・伝統文化");
        }
        assert(not_blank("文学・文芸"@)) by {
            reveal_strlit("不明");
            reveal_strlit("文学・文芸");
        }
        assert(not_blank("ドキュメンタリー全般"@)) by {
            reveal_strlit("不明");
            reveal_strlit("ドキュメンタリー全般");
        }
        assert(not_blank("インタビュー・討論"@)) by {
            reveal_strlit("不明");
            reveal_strlit("インタビュー・討論");
        }
    } else if lv1 == 0x9 {
        assert(not_blank("劇場・公演"@)) by {
            reveal_strlit("不明");
            reveal_strlit("劇場・公演");
        }
        assert(not_blank("現代劇・新劇"@)) by {
            reveal_strlit("不明");
            reveal_strlit("現代劇・新劇");
        }
        assert(not_blank("ミュージカル"@)) by {
            reveal_strlit("不明");
            reveal_strlit("ミュージカル");
        }
        assert(not_blank("ダンス・バレエ"@)) by {
            reveal_strlit("不明");
            reveal_strlit("ダンス・バレエ");
        }
        assert(not_blank("落語・演芸"@)) by {
            reveal_strlit("不明");
            reveal_strlit("落語・演芸");
        }
        assert(not_blank("歌舞伎・古典"@)) by {
            reveal_strlit("不明");
            reveal_strlit("歌舞伎・古典");
        }
    } else if lv1 == 0xa {
        assert(not_blank("趣味・教育"@)) by {
            reveal_strlit("不明");
            reveal_strlit("趣味・教育");
        }
        assert(not_blank("旅・釣り・アウトドア"@)) by {
            reveal_strlit("不明");
            reveal_strlit("旅・釣り・アウトドア");
        }
        assert(not_blank("園芸・ペット・手芸"@)) by {
            reveal_strlit("不明");
            reveal_strlit("園芸・ペット・手芸");
        }
        assert(not_blank("音楽・美術・工芸"@)) by {
            reveal_strlit("不明");
            reveal_strlit("音楽・美術・工芸");
        }
        assert(not_blank("囲碁・将棋"@)) by {
            reveal_strlit("不明");
            reveal_strlit("囲碁・将棋");
        }
        assert(not_blank("麻雀・パチンコ"@)) by {
            reveal_strlit("不明");
            reveal_strlit("麻雀・パチンコ");
        }
        assert(not_blank("車・オートバイ"@)) by {
            reveal_strlit("不明");
            reveal_strlit("車・オートバイ");
        }
        assert(not_blank("コンピュータ・ＴＶゲーム"@)) by {
            reveal_strlit("不明");
            reveal_strlit("コンピュータ・ＴＶゲーム");
        }
        assert(not_blank("会話・語学"@)) by {
            reveal_strlit("不明");
            reveal_strlit("会話・語学");
        }
        assert(not_blank("幼児・小学生"@)) by {
            reveal_strlit("不明");
            reveal_strlit("幼児・小学生");
        }
        assert(not_blank("中学生・高校生"@)) by {
            reveal_strlit("不明");
            reveal_strlit("中学生・高校生");
        }
        assert(not_blank("大学生・受験"@)) by {
            reveal_strlit("不明");
            reveal_strlit("大学生・受験");
        }
        assert(not_blank("生涯教育・資格"@)) by {
            reveal_strlit("不明");
            reveal_strlit("生涯教育・資格");
        }
        assert(not_blank("教育問題"@)) by {
            reveal_strlit("不明");
            reveal_strlit("教育問題");
        }
    } else if lv1 == 0xb {
        assert(not_blank("福祉"@)) by {
            reveal_strlit("不明");
            reveal_strlit("福祉");
            assert("福祉"@[0] != "不明"@[0]);
        }
        assert(not_blank("高齢者"@)) by {
            reveal_strlit("不明");
            reveal_strlit("高齢者");
        }
        assert(not_blank("障害者"@)) by {
            reveal_strlit("不明");
            reveal_strlit("障害者");
        }
        assert(not_blank("社会福祉"@)) by {
            reveal_strlit("不明");
            reveal_strlit("社会福祉");
        }
        assert(not_blank("ボランティア"@)) by {
            reveal_strlit("不明");
            reveal_strlit("ボランティア");
        }
        assert(not_blank("手話"@)) by {
            reveal_strlit("不明");
            reveal_strlit("手話");
            assert("手話"@[0] != "不明"@[0]);
        }
        assert(not_blank("文字(字幕)"@)) by {
            reveal_strlit("不明");
            reveal_strlit("文字(字幕)");
        }
        assert(not_blank("音声解説"@)) by {
            reveal_strlit("不明");
            reveal_strlit("音声解説");
        }
    } else if lv1 == 0xf {
    }
}

/// Maps genre codes to their names.
pub struct GenreMapper {
    lv1_map: HashMap<u32, String>,
    lv2_map: HashMap<u64, String>,
}

impl GenreMapper {
    #[verifier::type_invariant]
    spec fn tables_ok(self) -> bool {
        lv1_table_ok(self.lv1_map@) && lv2_table_ok(self.lv2_map@)
    }

    /// The name that the mapper holds for a level-1 code.
    pub closed spec fn lv1_name_held(&self, lv1: u32) -> Option<Seq<char>> {
        if self.lv1_map@.contains_key(lv1) {
            Some(self.lv1_map@[lv1]@)
        } else {
            None
        }
    }

    /// The name that the mapper holds for a level-2 code under a level-1 code.
    pub closed spec fn lv2_name_held(&self, lv1: u32, lv2: u32) -> Option<Seq<char>> {
        if self.lv2_map@.contains_key(genre_key(lv1, lv2)) {
            Some(self.lv2_map@[genre_key(lv1, lv2)]@)
        } else {
            None
        }
    }

    /// How many level-1 codes the mapper holds a name for.
    pub closed spec fn lv1_entry_count(&self) -> nat {
        self.lv1_map@.len()
    }

    /// How many (level-1, level-2) pairs the mapper holds a name for.
    pub closed spec fn lv2_entry_count(&self) -> nat {
        self.lv2_map@.len()
    }

    /// A mapper that knows every genre name of the broadcast EPG.
    pub fn new() -> (r: Self)
        ensures
            forall|lv1: u32| #[trigger] r.lv1_name_held(lv1) == lv1_genre_name(lv1),
            forall|lv1: u32, lv2: u32|
                #[trigger] r.lv2_name_held(lv1, lv2) == lv2_genre_name(lv1, lv2),
            r.lv1_entry_count() == 13,
            r.lv2_entry_count() == 104,
    {
        let r = GenreMapper { lv1_map: build_lv1_map(), lv2_map: build_lv2_map() };
        assert forall|lv1: u32| #[trigger] r.lv1_name_held(lv1) == lv1_genre_name(lv1) by {
            assert(lv1_genre_name(lv1) == (if r.lv1_map@.contains_key(lv1) {
                Some(r.lv1_map@[lv1]@)
            } else {
                None::<Seq<char>>
            }));
        }
        assert forall|lv1: u32, lv2: u32|
            #[trigger] r.lv2_name_held(lv1, lv2) == lv2_genre_name(lv1, lv2) by {
            assert(lv2_genre_name(lv1, lv2) == (if r.lv2_map@.contains_key(genre_key(lv1, lv2)) {
                Some(r.lv2_map@[genre_key(lv1, lv2)]@)
            } else {
                None::<Seq<char>>
            }));
        }
        r
    }

    /// The text of the genre given by its two codes.
    pub fn get_genre_text(&self, lv1: u32, lv2: u32) -> (r: String)
        ensures
            r@ == genre_text(lv1, lv2),
    {
        broadcast use vstd::std_specs::hash::group_hash_axioms;

        proof {
            use_type_invariant(self);
        }
        let lv1_text = match self.lv1_map.get(&lv1) {
            Some(t) => t.clone(),
            None => String::from_str("不明"),
        };
        assert(lv1_genre_name(lv1) == (if self.lv1_map@.contains_key(lv1) {
            Some(self.lv1_map@[lv1]@)
        } else {
            None::<Seq<char>>
        }));
        let key = genre_key_of(lv1, lv2);
        let lv2_text = match self.lv2_map.get(&key) {
            Some(t) => t.clone(),
            None => String::from_str("不明"),
        };
        assert(lv2_genre_name(lv1, lv2) == (if self.lv2_map@.contains_key(genre_key(lv1, lv2)) {
            Some(self.lv2_map@[genre_key(lv1, lv2)]@)
        } else {
            None::<Seq<char>>
        }));
        if lv2_text.as_str().is_empty() || str_eq(lv2_text.as_str(), "不明") {
            lv1_text
        } else {
            lv1_text.concat("/").concat(lv2_text.as_str())
        }
    }
}

} // verus!
