//! Conversion of the programs that mirakc reports into the program model
//! that KuRec stores.

use crate::epg::{
    language_name, map_language_code, map_video_component_type, video_type_name, video_type_of,
    VideoType,
};
use crate::genre::{genre_text, GenreMapper};
use crate::text::str_eq;
use vstd::prelude::*;

verus! {

/// A genre entry of a mirakc program.
pub struct ProgramGenre {
    pub lv1: u32,
    pub lv2: u32,
}

/// The video entry of a mirakc program.
pub struct ProgramVideo {
    pub component_type: u32,
}

/// An audio entry of a mirakc program.
pub struct ProgramAudio {
    pub component_type: u32,
    pub sampling_rate: u32,
    pub langs: Vec<String>,
}

/// The series entry of a mirakc program.
pub struct ProgramSeries {
    pub id: i32,
    pub repeat: i32,
    pub pattern: i32,
    /// Expiry, in milliseconds since the Unix epoch (UTC); 0 when unset.
    pub expire_at: i64,
    pub episode: i32,
    pub last_episode: i32,
    pub name: String,
}

/// A program as the mirakc API reports it.
pub struct MirakurunProgram {
    pub id: i64,
    pub event_id: i32,
    pub service_id: i32,
    pub network_id: i32,
    /// Start, in milliseconds since the Unix epoch (UTC).
    pub start_at: i64,
    /// Length in milliseconds.
    pub duration: i64,
    pub is_free: bool,
    pub name: Option<Option<String>>,
    pub description: Option<Option<String>>,
    pub extended: Option<serde_json::Value>,
    pub genres: Option<Option<Vec<ProgramGenre>>>,
    pub video: Option<Option<ProgramVideo>>,
    pub audio: Option<Option<ProgramAudio>>,
    pub audios: Option<Vec<ProgramAudio>>,
    pub series: Option<Option<ProgramSeries>>,
}

/// The service (channel) that programs belong to, as mirakc reports it.
pub struct MirakurunService {
    /// The channel name.
    pub name: String,
    /// The channel type ("GR", "BS", "CS", ...).
    pub channel_type: String,
    /// The channel number.
    pub channel: String,
}

/// Series information as KuRec stores it.
pub struct KurecSeriesInfo {
    pub id: i32,
    pub repeat: i32,
    pub pattern: i32,
    /// Expiry, in milliseconds since the Unix epoch (UTC).
    pub expire_at: Option<i64>,
    pub episode: i32,
    pub last_episode: i32,
    pub name: String,
}

/// A program as KuRec stores it.
pub struct KurecProgram {
    /// Mirakurun program id.
    pub id: i64,
    /// Base URL of the mirakc that reported the program.
    pub mirakc_url: String,
    pub service_id: i32,
    pub network_id: i32,
    pub event_id: i32,
    pub channel_name: String,
    pub channel_type: String,
    pub channel: String,
    pub name: Option<String>,
    pub description: Option<String>,
    pub extended: Option<serde_json::Value>,
    /// Start, in milliseconds since the Unix epoch (UTC).
    pub start_at: i64,
    pub duration_millis: i64,
    pub is_free: bool,
    pub genres: Vec<String>,
    pub video_info: Option<String>,
    pub audio_infos: Vec<String>,
    pub series_info: Option<KurecSeriesInfo>,
}

/// The characters of each string.
pub open spec fn texts(v: Seq<String>) -> Seq<Seq<char>> {
    v.map_values(|s: String| s@)
}

/// The characters of an optional string.
pub open spec fn opt_text(o: Option<String>) -> Option<Seq<char>> {
    match o {
        Some(s) => Some(s@),
        None => None,
    }
}

/// `Option<Option<String>>` flattened, as `and_then(|n| n)` does.
pub open spec fn flat_text(o: Option<Option<String>>) -> Option<Seq<char>> {
    match o {
        Some(Some(s)) => Some(s@),
        _ => None,
    }
}

/// The genre texts of a program, one per genre entry.
pub open spec fn program_genres(p: MirakurunProgram) -> Seq<Seq<char>> {
    match p.genres {
        Some(Some(list)) => list@.map_values(|g: ProgramGenre| genre_text(g.lv1, g.lv2)),
        _ => Seq::empty(),
    }
}

/// The video text of a program: the name of its video format, unless unknown.
pub open spec fn program_video_info(p: MirakurunProgram) -> Option<Seq<char>> {
    let t = match p.video {
        Some(Some(v)) => video_type_of(v.component_type),
        _ => VideoType::Unknown,
    };
    if t == VideoType::Unknown {
        None
    } else {
        Some(video_type_name(t))
    }
}

/// The language names of an audio entry, in order.
pub open spec fn audio_langs(a: ProgramAudio) -> Seq<Seq<char>> {
    a.langs@.map_values(|l: String| language_name(l@))
}

/// `acc` followed by those of `items` that it does not already hold, each once.
pub open spec fn add_unique(acc: Seq<Seq<char>>, items: Seq<Seq<char>>) -> Seq<Seq<char>>
    decreases items.len(),
{
    if items.len() == 0 {
        acc
    } else {
        let prev = add_unique(acc, items.drop_last());
        if prev.contains(items.last()) {
            prev
        } else {
            prev.push(items.last())
        }
    }
}

/// `acc` with the language names of every audio entry added, each once.
pub open spec fn add_audios(acc: Seq<Seq<char>>, audios: Seq<ProgramAudio>) -> Seq<Seq<char>>
    decreases audios.len(),
{
    if audios.len() == 0 {
        acc
    } else {
        add_unique(add_audios(acc, audios.drop_last()), audio_langs(audios.last()))
    }
}

/// The audio texts of a program: the languages of its main audio entry, then
/// the languages of its other audio entries that are not listed yet.
pub open spec fn program_audio_infos(p: MirakurunProgram) -> Seq<Seq<char>> {
    let first = match p.audio {
        Some(Some(a)) => audio_langs(a),
        _ => Seq::empty(),
    };
    match p.audios {
        Some(list) => add_audios(first, list@),
        None => first,
    }
}

/// `s` is the stored form of the series entry `src`.
pub open spec fn series_converted(s: KurecSeriesInfo, src: ProgramSeries) -> bool {
    &&& s.id == src.id
    &&& s.repeat == src.repeat
    &&& s.pattern == src.pattern
    &&& s.expire_at == (if src.expire_at > 0 {
        Some(src.expire_at)
    } else {
        None
    })
    &&& s.episode == src.episode
    &&& s.last_episode == src.last_episode
    &&& s.name@ == src.name@
}

/// `k` is the stored form of the mirakc program `p` of service `svc`,
/// reported by the mirakc at `url`.
pub open spec fn program_converted(
    k: KurecProgram,
    p: MirakurunProgram,
    svc: MirakurunService,
    url: Seq<char>,
) -> bool {
    &&& k.id == p.id
    &&& k.mirakc_url@ == url
    &&& k.service_id == p.service_id
    &&& k.network_id == p.network_id
    &&& k.event_id == p.event_id
    &&& k.channel_name@ == svc.name@
    &&& k.channel_type@ == svc.channel_type@
    &&& k.channel@ == svc.channel@
    &&& opt_text(k.name) == flat_text(p.name)
    &&& opt_text(k.description) == flat_text(p.description)
    &&& k.extended == p.extended
    &&& k.start_at == p.start_at
    &&& k.duration_millis == p.duration
    &&& k.is_free == p.is_free
    &&& texts(k.genres@) == program_genres(p)
    &&& opt_text(k.video_info) == program_video_info(p)
    &&& texts(k.audio_infos@) == program_audio_infos(p)
    &&& match (k.series_info, p.series) {
        (Some(s), Some(Some(src))) => series_converted(s, src),
        (None, Some(Some(_))) => false,
        (Some(_), _) => false,
        (None, _) => true,
    }
}

/// Whether the list holds the text.
fn contains_text(v: &Vec<String>, t: &String) -> (r: bool)
    ensures
        r == texts(v@).contains(t@),
{
    let mut i: usize = 0;
    while i < v.len()
        invariant
            i <= v.len(),
            forall|k: int| 0 <= k < i ==> v@[k]@ != t@,
        decreases v.len() - i,
    {
        if str_eq(v[i].as_str(), t.as_str()) {
            assert(texts(v@)[i as int] == t@);
            return true;
        }
        i = i + 1;
    }
    assert forall|k: int| 0 <= k < texts(v@).len() implies texts(v@)[k] != t@ by {}
    false
}

/// Adds the language names of `langs` to `acc`, skipping those already present.
fn add_unique_langs(acc: &mut Vec<String>, langs: &Vec<String>)
    ensures
        texts(final(acc)@) == add_unique(
            texts(old(acc)@),
            langs@.map_values(|l: String| language_name(l@)),
        ),
{
    let ghost start = texts(acc@);
    let ghost items = langs@.map_values(|l: String| language_name(l@));
    let mut j: usize = 0;
    while j < langs.len()
        invariant
            j <= langs.len(),
            items == langs@.map_values(|l: String| language_name(l@)),
            texts(acc@) == add_unique(start, items.take(j as int)),
        decreases langs.len() - j,
    {
        let text = map_language_code(langs[j].as_str());
        assert(items.take(j + 1).drop_last() =~= items.take(j as int));
        assert(items.take(j + 1).last() == text@);
        if !contains_text(acc, &text) {
            acc.push(text);
            assert(texts(acc@) =~= add_unique(start, items.take(j as int)).push(items[j as int]));
        }
        j = j + 1;
    }
    assert(items.take(langs.len() as int) =~= items);
}

/// Converts one mirakc program into the stored program model. A program
/// without a name entry is skipped (`None`).
pub fn convert_program(
    program: MirakurunProgram,
    service: &MirakurunService,
    mirakc_url: &str,
    mapper: &GenreMapper,
) -> (r: Option<KurecProgram>)
    ensures
        r is None <==> program.name is None,
        r matches Some(k) ==> program_converted(k, program, *service, mirakc_url@),
{
    if program.name.is_none() {
        return None;
    }
    let ghost p = program;
    let MirakurunProgram {
        id,
        event_id,
        service_id,
        network_id,
        start_at,
        duration,
        is_free,
        name,
        description,
        extended,
        genres: genre_entries,
        video,
        audio,
        audios,
        series,
    } = program;

    // Genres, one text per entry.
    let mut genres: Vec<String> = Vec::new();
    if let Some(Some(list)) = &genre_entries {
        let mut i: usize = 0;
        while i < list.len()
            invariant
                i <= list.len(),
                p.genres == Some(Some(*list)),
                texts(genres@) == list@.take(i as int).map_values(
                    |g: ProgramGenre| genre_text(g.lv1, g.lv2),
                ),
            decreases list.len() - i,
        {
            let text = mapper.get_genre_text(list[i].lv1, list[i].lv2);
            let ghost before = genres@;
            genres.push(text);
            assert(texts(genres@) =~= texts(before).push(text@));
            assert(list@.take(i + 1) =~= list@.take(i as int).push(list@[i as int]));
            assert(list@.take(i + 1).map_values(|g: ProgramGenre| genre_text(g.lv1, g.lv2))
                =~= list@.take(i as int).map_values(|g: ProgramGenre| genre_text(g.lv1, g.lv2))
                .push(genre_text(list@[i as int].lv1, list@[i as int].lv2)));
            assert(texts(genres@) =~= list@.take(i + 1).map_values(
                |g: ProgramGenre| genre_text(g.lv1, g.lv2),
            ));
            i = i + 1;
        }
        assert(list@.take(list.len() as int) =~= list@);
    } else {
        assert(texts(genres@) =~= Seq::<Seq<char>>::empty());
    }

    // Video format.
    let video_type = match &video {
        Some(Some(v)) => map_video_component_type(v.component_type),
        _ => VideoType::Unknown,
    };
    let video_info = match video_type {
        VideoType::Unknown => None,
        _ => Some(String::from_str(video_type.name())),
    };

    // Audio languages: those of the main entry, then new ones of the others.
    let mut audio_infos: Vec<String> = Vec::new();
    if let Some(Some(a)) = &audio {
        let mut j: usize = 0;
        while j < a.langs.len()
            invariant
                j <= a.langs.len(),
                texts(audio_infos@) == audio_langs(*a).take(j as int),
            decreases a.langs.len() - j,
        {
            let text = map_language_code(a.langs[j].as_str());
            let ghost before = audio_infos@;
            audio_infos.push(text);
            assert(texts(audio_infos@) =~= texts(before).push(text@));
            assert(audio_langs(*a).take(j + 1) =~= audio_langs(*a).take(j as int).push(
                language_name(a.langs@[j as int]@),
            ));
            assert(texts(audio_infos@) =~= audio_langs(*a).take(j + 1));
            j = j + 1;
        }
        assert(audio_langs(*a).take(a.langs.len() as int) =~= audio_langs(*a));
    } else {
        assert(texts(audio_infos@) =~= Seq::<Seq<char>>::empty());
    }
    let ghost first = texts(audio_infos@);
    if let Some(list) = &audios {
        let mut i: usize = 0;
        while i < list.len()
            invariant
                i <= list.len(),
                texts(audio_infos@) == add_audios(first, list@.take(i as int)),
            decreases list.len() - i,
        {
            add_unique_langs(&mut audio_infos, &list[i].langs);
            assert(list@.take(i + 1).drop_last() =~= list@.take(i as int));
            i = i + 1;
        }
        assert(list@.take(list.len() as int) =~= list@);
    }

    // Series information.
    let series_info = match series {
        Some(Some(s)) => {
            let expire_at = if s.expire_at > 0 {
                Some(s.expire_at)
            } else {
                None
            };
            Some(
                KurecSeriesInfo {
                    id: s.id,
                    repeat: s.repeat,
                    pattern: s.pattern,
                    expire_at,
                    episode: s.episode,
                    last_episode: s.last_episode,
                    name: s.name,
                },
            )
        },
        _ => None,
    };

    let name = match name {
        Some(n) => n,
        None => None,
    };
    let description = match description {
        Some(d) => d,
        None => None,
    };
    Some(
        KurecProgram {
            id,
            mirakc_url: String::from_str(mirakc_url),
            service_id,
            network_id,
            event_id,
            channel_name: service.name.clone(),
            channel_type: service.channel_type.clone(),
            channel: service.channel.clone(),
            name,
            description,
            extended,
            start_at,
            duration_millis: duration,
            is_free,
            genres,
            video_info,
            audio_infos,
            series_info,
        },
    )
}

/// The programs that have a name entry, in their order.
pub open spec fn named_programs(ps: Seq<MirakurunProgram>) -> Seq<MirakurunProgram>
    decreases ps.len(),
{
    if ps.len() == 0 {
        Seq::empty()
    } else {
        let prev = named_programs(ps.drop_last());
        if ps.last().name is Some {
            prev.push(ps.last())
        } else {
            prev
        }
    }
}

/// `ks` are the stored forms of the named programs among `ps`, in order.
pub open spec fn programs_converted(
    ks: Seq<KurecProgram>,
    ps: Seq<MirakurunProgram>,
    svc: MirakurunService,
    url: Seq<char>,
) -> bool {
    &&& ks.len() == named_programs(ps).len()
    &&& forall|i: int|
        0 <= i < ks.len() ==> #[trigger] program_converted(ks[i], named_programs(ps)[i], svc, url)
}

/// Converts the programs of a service into the stored program model, in
/// order, skipping those without a name entry.
pub fn convert_programs(
    programs: Vec<MirakurunProgram>,
    service: &MirakurunService,
    mirakc_url: &str,
    mapper: &GenreMapper,
) -> (r: Vec<KurecProgram>)
    ensures
        programs_converted(r@, programs@, *service, mirakc_url@),
{
    let ghost ps = programs@;
    let mut out: Vec<KurecProgram> = Vec::new();
    for program in iter: programs
        invariant
            iter.seq() == ps,
            programs_converted(out@, ps.take(iter.index() as int), *service, mirakc_url@),
    {
        let ghost i = iter.index() as int;
        let ghost p = program;
        assert(ps.take(i + 1).drop_last() =~= ps.take(i));
        assert(ps.take(i + 1).last() == p);
        match convert_program(program, service, mirakc_url, mapper) {
            Some(k) => {
                out.push(k);
            },
            None => {},
        }
    }
    assert(ps.take(ps.len() as int) =~= ps);
    out
}

/// Adding items keeps what was there, in front and in order; every item ends
/// up present; and nothing is listed twice that was not listed twice before.
pub proof fn lemma_add_unique(acc: Seq<Seq<char>>, items: Seq<Seq<char>>)
    ensures
        add_unique(acc, items).len() >= acc.len(),
        add_unique(acc, items).subrange(0, acc.len() as int) == acc,
        forall|i: int| 0 <= i < items.len() ==> add_unique(acc, items).contains(#[trigger] items[i]),
        forall|x: Seq<char>| #[trigger] add_unique(acc, items).contains(x) ==> acc.contains(x)
            || items.contains(x),
        acc.no_duplicates() ==> add_unique(acc, items).no_duplicates(),
    decreases items.len(),
{
    if items.len() > 0 {
        let rest = items.drop_last();
        lemma_add_unique(acc, rest);
        let prev = add_unique(acc, rest);
        assert forall|i: int| 0 <= i < items.len() implies add_unique(acc, items).contains(
            #[trigger] items[i],
        ) by {
            let r = add_unique(acc, items);
            if i < items.len() - 1 {
                assert(rest[i] == items[i]);
                assert(prev.contains(rest[i]));
                let k = choose|k: int| 0 <= k < prev.len() && prev[k] == items[i];
                assert(r[k] == items[i]);
            } else if !prev.contains(items.last()) {
                assert(r[prev.len() as int] == items[i]);
            }
        }
        assert forall|x: Seq<char>| #[trigger] add_unique(acc, items).contains(x) implies acc.contains(
            x,
        ) || items.contains(x) by {
            if prev.contains(x) {
                if rest.contains(x) {
                    let k = choose|k: int| 0 <= k < rest.len() && rest[k] == x;
                    assert(items[k] == x);
                }
            } else {
                assert(x == items.last());
            }
        }
        if !prev.contains(items.last()) {
            assert(prev.push(items.last()).subrange(0, acc.len() as int) =~= prev.subrange(
                0,
                acc.len() as int,
            ));
        }
    }
}

/// The languages of the main audio entry come first in the audio texts, and
/// the other entries add each further language once.
pub proof fn lemma_audio_infos(acc: Seq<Seq<char>>, audios: Seq<ProgramAudio>)
    ensures
        add_audios(acc, audios).len() >= acc.len(),
        add_audios(acc, audios).subrange(0, acc.len() as int) == acc,
        acc.no_duplicates() ==> add_audios(acc, audios).no_duplicates(),
        forall|i: int, j: int|
            0 <= i < audios.len() && 0 <= j < audio_langs(audios[i]).len() ==> add_audios(
                acc,
                audios,
            ).contains(#[trigger] audio_langs(audios[i])[j]),
    decreases audios.len(),
{
    if audios.len() > 0 {
        let rest = audios.drop_last();
        lemma_audio_infos(acc, rest);
        let prev = add_audios(acc, rest);
        lemma_add_unique(prev, audio_langs(audios.last()));
        assert(add_audios(acc, audios).subrange(0, acc.len() as int) =~= add_audios(
            acc,
            audios,
        ).subrange(0, prev.len() as int).subrange(0, acc.len() as int));
        assert forall|i: int, j: int|
            0 <= i < audios.len() && 0 <= j < audio_langs(audios[i]).len() implies add_audios(
            acc,
            audios,
        ).contains(#[trigger] audio_langs(audios[i])[j]) by {
            if i < audios.len() - 1 {
                assert(rest[i] == audios[i]);
                let x = audio_langs(audios[i])[j];
                assert(prev.contains(x));
                let k = choose|k: int| 0 <= k < prev.len() && prev[k] == x;
                assert(add_audios(acc, audios).subrange(0, prev.len() as int)[k] == x);
            } else {
                assert(audio_langs(audios.last())[j] == audio_langs(audios[i])[j]);
            }
        }
    }
}

/// The stored programs are those with a name entry: never more than were
/// reported, and each stored one comes from a program that had a name entry.
pub proof fn lemma_named_programs(ps: Seq<MirakurunProgram>)
    ensures
        named_programs(ps).len() <= ps.len(),
        forall|i: int| 0 <= i < named_programs(ps).len() ==> (#[trigger] named_programs(ps)[i]).name
            is Some,
        (forall|i: int| 0 <= i < ps.len() ==> (#[trigger] ps[i]).name is Some) ==> named_programs(
            ps,
        ) == ps,
    decreases ps.len(),
{
    if ps.len() > 0 {
        lemma_named_programs(ps.drop_last());
        if forall|i: int| 0 <= i < ps.len() ==> (#[trigger] ps[i]).name is Some {
            assert forall|i: int| 0 <= i < ps.drop_last().len() implies (
            #[trigger] ps.drop_last()[i]).name is Some by {
                assert(ps.drop_last()[i] == ps[i]);
            }
            assert(ps.last() == ps[ps.len() - 1]);
            assert(ps.drop_last().push(ps.last()) =~= ps);
        }
    }
}

} // verus!
