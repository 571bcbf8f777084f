use vstd::prelude::*;
use crate::records::ItemRecord;
use crate::sources::SourceRecord;

verus! {

/// The JSON text of the string `s`, or `None` where it cannot be written.
pub uninterp spec fn json_string_of(s: Seq<char>) -> Option<Seq<char>>;

/// The characters of an optional string.
pub open spec fn text_of(o: Option<String>) -> Option<Seq<char>> {
    match o {
        Some(s) => Some(s@),
        None => None,
    }
}

/// Relies on `serde_json::to_string` on a string: the JSON string literal
/// that stands for it (quoted, escaped), or its error.
#[verifier::external_body]
fn json_string(s: &str) -> (r: Option<String>)
    ensures
        text_of(r) == json_string_of(s@),
{
    serde_json::to_string(s).ok()
}

/// The compact JSON object of an item record.
pub open spec fn item_json(title: Seq<char>, url: Seq<char>) -> Option<Seq<char>> {
    match (json_string_of(title), json_string_of(url)) {
        (Some(t), Some(u)) => Some("{\"title\":"@ + t + ",\"url\":"@ + u + "}"@),
        _ => None,
    }
}

/// The compact JSON object of a source record.
pub open spec fn sources_json(audio: Seq<char>, video: Seq<char>) -> Option<Seq<char>> {
    match (json_string_of(audio), json_string_of(video)) {
        (Some(a), Some(v)) => Some("{\"audio_source\":"@ + a + ",\"video_source\":"@ + v + "}"@),
        _ => None,
    }
}

/// The (title, URL) pairs of item records.
pub open spec fn pairs_of(rs: Seq<ItemRecord>) -> Seq<(Seq<char>, Seq<char>)> {
    rs.map_values(|r: ItemRecord| (r.title@, r.url@))
}

/// The JSON objects of the items `rs`, given as (title, URL) pairs,
/// separated by commas.
pub open spec fn items_body(rs: Seq<(Seq<char>, Seq<char>)>) -> Option<Seq<char>>
    decreases rs.len(),
{
    if rs.len() == 0 {
        Some(Seq::empty())
    } else {
        match (items_body(rs.drop_last()), item_json(rs.last().0, rs.last().1)) {
            (Some(b), Some(o)) => Some(
                if rs.len() == 1 {
                    o
                } else {
                    b + ","@ + o
                },
            ),
            _ => None,
        }
    }
}

/// The compact JSON array of the items `rs`, given as (title, URL) pairs.
pub open spec fn items_json(rs: Seq<(Seq<char>, Seq<char>)>) -> Option<Seq<char>> {
    match items_body(rs) {
        Some(b) => Some("["@ + b + "]"@),
        None => None,
    }
}

proof fn lemma_items_body_none_grows(rs: Seq<(Seq<char>, Seq<char>)>, k: int, n: int)
    requires
        0 <= k <= n <= rs.len(),
        items_body(rs.subrange(0, k)).is_none(),
    ensures
        items_body(rs.subrange(0, n)).is_none(),
    decreases n - k,
{
    if k < n {
        lemma_items_body_none_grows(rs, k, n - 1);
        assert(rs.subrange(0, n).drop_last() =~= rs.subrange(0, n - 1));
    }
}

/// The JSON object of one item record.
pub fn render_item(rec: &ItemRecord) -> (r: Option<String>)
    ensures
        text_of(r) == item_json(rec.title@, rec.url@),
{
    let t = json_string(rec.title.as_str());
    let u = json_string(rec.url.as_str());
    match (t, u) {
        (Some(t), Some(u)) => {
            let s = String::from_str("{\"title\":").concat(t.as_str()).concat(",\"url\":").concat(
                u.as_str(),
            ).concat("}");
            Some(s)
        },
        _ => None,
    }
}

/// The JSON object of a source record.
pub fn render_sources(rec: &SourceRecord) -> (r: Option<String>)
    ensures
        text_of(r) == sources_json(rec.audio_source@, rec.video_source@),
{
    let a = json_string(rec.audio_source.as_str());
    let v = json_string(rec.video_source.as_str());
    match (a, v) {
        (Some(a), Some(v)) => {
            let s = String::from_str("{\"audio_source\":").concat(a.as_str()).concat(
                ",\"video_source\":",
            ).concat(v.as_str()).concat("}");
            Some(s)
        },
        _ => None,
    }
}

/// The JSON array of the item records `rs`, in their order.
pub fn render_items(rs: &Vec<ItemRecord>) -> (r: Option<String>)
    ensures
        text_of(r) == items_json(pairs_of(rs@)),
{
    let ghost pairs = pairs_of(rs@);
    let mut body = String::new();
    let mut k: usize = 0;
    while k < rs.len()
        invariant
            k <= rs@.len(),
            pairs == pairs_of(rs@),
            items_body(pairs.subrange(0, k as int)) == Some(body@),
        decreases rs@.len() - k,
    {
        let ghost prefix = pairs.subrange(0, k as int + 1);
        proof {
            assert(prefix.drop_last() =~= pairs.subrange(0, k as int));
            assert(prefix.last() == pairs[k as int]);
        }
        match render_item(&rs[k]) {
            None => {
                proof {
                    lemma_items_body_none_grows(pairs, k as int + 1, pairs.len() as int);
                    assert(pairs.subrange(0, pairs.len() as int) =~= pairs);
                }
                return None;
            },
            Some(o) => {
                if k == 0 {
                    body = o;
                } else {
                    body = body.concat(",").concat(o.as_str());
                }
            },
        }
        k = k + 1;
    }
    assert(pairs.subrange(0, pairs.len() as int) =~= pairs);
    let s = String::from_str("[").concat(body.as_str()).concat("]");
    Some(s)
}

} // verus!
