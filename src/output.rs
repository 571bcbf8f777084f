use vstd::prelude::*;
use crate::json::{item_json, items_body, items_json, pairs_of, render_items, render_sources, sources_json, text_of};
use crate::records::{collection_records, single_item_records, watch_url, Member};
use crate::sources::{select_sources, source_spec, Encoding, Track};

verus! {

/// The (title, URL) pairs that the members of a collection yield: each
/// member's title, and the watch URL built from its identifier.
pub open spec fn collection_pairs(ms: Seq<Member>) -> Seq<(Seq<char>, Seq<char>)> {
    ms.map_values(|m: Member| (m.title@, watch_url(m.id@)))
}

/// The line printed for the stream sources of an item whose encodings are
/// `fs`; `None` where a value cannot be written as JSON.
pub fn sources_output(fs: &Vec<Encoding>) -> (r: Option<String>)
    ensures
        text_of(r) == sources_json(source_spec(fs@, Track::Audio), source_spec(fs@, Track::Video)),
{
    let rec = select_sources(fs);
    render_sources(&rec)
}

/// The line printed for a single item with the given title and the URL
/// that the provider reported: an array of that one record.
pub fn single_item_output(title: String, url: String) -> (r: Option<String>)
    ensures
        text_of(r) == items_json(seq![(title@, url@)]),
{
    let ghost pair = (title@, url@);
    let recs = single_item_records(title, url);
    assert(pairs_of(recs@) =~= seq![pair]);
    render_items(&recs)
}

/// The line printed for the members of a collection: an array of one
/// record per member, in order.
pub fn collection_output(members: &Vec<Member>) -> (r: Option<String>)
    ensures
        text_of(r) == items_json(collection_pairs(members@)),
{
    let recs = collection_records(members);
    assert(pairs_of(recs@) =~= collection_pairs(members@));
    render_items(&recs)
}

/// A single item's output is an array of exactly one object, that of the
/// record whose URL is the one the provider reported, unmodified.
pub proof fn single_item_output_is_one_record(title: Seq<char>, url: Seq<char>)
    ensures
        seq![(title, url)].len() == 1,
        items_json(seq![(title, url)]) == match item_json(title, url) {
            Some(o) => Some("["@ + o + "]"@),
            None => None,
        },
{
    let s = seq![(title, url)];
    assert(s.drop_last() =~= Seq::<(Seq<char>, Seq<char>)>::empty());
    assert(s.last() == (title, url));
    assert(items_body(s.drop_last()) == Some(Seq::<char>::empty()));
}

/// A collection's output holds one record per member returned by the
/// provider, each URL being the watch address followed by the member's
/// raw identifier.
pub proof fn collection_output_records(members: Seq<Member>)
    ensures
        collection_pairs(members).len() == members.len(),
        forall|i: int|
            0 <= i < members.len() ==> (#[trigger] collection_pairs(members)[i]).1
                == "https://www.youtube.com/watch?v="@ + members[i].id@,
{
}

} // verus!
