use vstd::prelude::*;

verus! {

/// The two kinds of stream an encoding may carry.
#[derive(Clone, Copy, Debug, PartialEq, Eq, Structural)]
pub enum Track {
    Audio,
    Video,
}

/// One selectable encoding of an item: its direct-fetch URL and whether it
/// carries an audio codec, a video codec, or both.
pub struct Encoding {
    pub url: String,
    pub has_audio: bool,
    pub has_video: bool,
}

/// The first direct-playable URLs of an audio-capable and of a
/// video-capable encoding of one item.
pub struct SourceRecord {
    pub audio_source: String,
    pub video_source: String,
}

impl Encoding {
    /// The encoding carries a stream of kind `t`.
    pub open spec fn carries(self, t: Track) -> bool {
        match t {
            Track::Audio => self.has_audio,
            Track::Video => self.has_video,
        }
    }
}

/// `i` is the position of the first encoding in `fs` that carries `t`.
pub open spec fn is_first_carrying(fs: Seq<Encoding>, t: Track, i: int) -> bool {
    &&& 0 <= i < fs.len()
    &&& fs[i].carries(t)
    &&& forall|j: int| 0 <= j < i ==> !(#[trigger] fs[j]).carries(t)
}

/// The URL of the first encoding in `fs` that carries `t`, if one does.
pub open spec fn first_url(fs: Seq<Encoding>, t: Track) -> Option<Seq<char>>
    decreases fs.len(),
{
    if fs.len() == 0 {
        None
    } else if fs[0].carries(t) {
        Some(fs[0].url@)
    } else {
        first_url(fs.drop_first(), t)
    }
}

/// What stands in a source record where no encoding carries `t`.
pub open spec fn missing_text(t: Track) -> Seq<char> {
    match t {
        Track::Audio => NO_AUDIO@,
        Track::Video => NO_VIDEO@,
    }
}

/// The source of kind `t` that a record over `fs` reports.
pub open spec fn source_spec(fs: Seq<Encoding>, t: Track) -> Seq<char> {
    match first_url(fs, t) {
        Some(u) => u,
        None => missing_text(t),
    }
}

/// Stands in for the audio source where no encoding carries audio.
pub const NO_AUDIO: &'static str = "No audio source found";

/// Stands in for the video source where no encoding carries video.
pub const NO_VIDEO: &'static str = "No video source found";

proof fn lemma_first_url_skip(fs: Seq<Encoding>, t: Track, i: int)
    requires
        0 <= i < fs.len(),
        !fs[i].carries(t),
    ensures
        first_url(fs.subrange(i, fs.len() as int), t) == first_url(
            fs.subrange(i + 1, fs.len() as int),
            t,
        ),
{
    assert(fs.subrange(i, fs.len() as int).drop_first() =~= fs.subrange(i + 1, fs.len() as int));
}

proof fn lemma_first_url_is_first(fs: Seq<Encoding>, t: Track, i: int)
    requires
        is_first_carrying(fs, t, i),
    ensures
        first_url(fs, t) == Some(fs[i].url@),
    decreases i,
{
    if i > 0 {
        assert(!fs[0].carries(t));
        let rest = fs.drop_first();
        assert forall|j: int| 0 <= j < i - 1 implies !(#[trigger] rest[j]).carries(t) by {
            assert(rest[j] == fs[j + 1]);
        }
        lemma_first_url_is_first(rest, t, i - 1);
    }
}

proof fn lemma_first_url_none(fs: Seq<Encoding>, t: Track)
    requires
        forall|j: int| 0 <= j < fs.len() ==> !(#[trigger] fs[j]).carries(t),
    ensures
        first_url(fs, t).is_none(),
    decreases fs.len(),
{
    if fs.len() > 0 {
        let rest = fs.drop_first();
        assert forall|j: int| 0 <= j < rest.len() implies !(#[trigger] rest[j]).carries(t) by {
            assert(rest[j] == fs[j + 1]);
        }
        lemma_first_url_none(rest, t);
    }
}

/// The position of the first encoding that carries `t`, if any.
pub fn first_carrying(fs: &Vec<Encoding>, t: Track) -> (r: Option<usize>)
    ensures
        r matches Some(i) ==> is_first_carrying(fs@, t, i as int),
        r is None ==> forall|j: int| 0 <= j < fs@.len() ==> !(#[trigger] fs@[j]).carries(t),
        r is None <==> first_url(fs@, t).is_none(),
{
    let mut k: usize = 0;
    while k < fs.len()
        invariant
            k <= fs@.len(),
            forall|j: int| 0 <= j < k ==> !(#[trigger] fs@[j]).carries(t),
        decreases fs@.len() - k,
    {
        let e = &fs[k];
        let hit = match t {
            Track::Audio => e.has_audio,
            Track::Video => e.has_video,
        };
        if hit {
            proof {
                lemma_first_url_is_first(fs@, t, k as int);
            }
            return Some(k);
        }
        k = k + 1;
    }
    proof {
        lemma_first_url_none(fs@, t);
    }
    None
}

/// The source URL of kind `t`: that of the first encoding carrying it, or
/// the text that says none does.
pub fn source_url(fs: &Vec<Encoding>, t: Track) -> (r: String)
    ensures
        r@ == source_spec(fs@, t),
{
    match first_carrying(fs, t) {
        Some(i) => {
            proof {
                lemma_first_url_is_first(fs@, t, i as int);
            }
            fs[i].url.clone()
        },
        None => match t {
            Track::Audio => String::from_str(NO_AUDIO),
            Track::Video => String::from_str(NO_VIDEO),
        },
    }
}

/// The source record of an item whose encodings are `fs`: the audio and
/// the video source are chosen independently of each other.
pub fn select_sources(fs: &Vec<Encoding>) -> (r: SourceRecord)
    ensures
        r.audio_source@ == source_spec(fs@, Track::Audio),
        r.video_source@ == source_spec(fs@, Track::Video),
{
    SourceRecord {
        audio_source: source_url(fs, Track::Audio),
        video_source: source_url(fs, Track::Video),
    }
}

/// Where no encoding carries a stream of kind `t`, its source is the text
/// that says so, while the other kind still reports the first encoding
/// that carries it, if one does.
pub proof fn missing_track_reports_text(fs: Seq<Encoding>, t: Track, other: Track, i: int)
    requires
        forall|j: int| 0 <= j < fs.len() ==> !(#[trigger] fs[j]).carries(t),
        other != t,
    ensures
        source_spec(fs, t) == missing_text(t),
        t == Track::Audio ==> source_spec(fs, t) == "No audio source found"@,
        t == Track::Video ==> source_spec(fs, t) == "No video source found"@,
        is_first_carrying(fs, other, i) ==> source_spec(fs, other) == fs[i].url@,
{
    lemma_first_url_none(fs, t);
    if is_first_carrying(fs, other, i) {
        lemma_first_url_is_first(fs, other, i);
    }
}

} // verus!
