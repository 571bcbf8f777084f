use vstd::prelude::*;

verus! {

/// How many members of a collection are asked for at most.
pub const COLLECTION_LIMIT: u64 = 10000;

/// The address of the watch page that every item URL of a collection starts with.
pub open spec fn watch_url(video_id: Seq<char>) -> Seq<char> {
    "https://www.youtube.com/watch?v="@ + video_id
}

/// One playable item: its display title and the URL that plays it.
pub struct ItemRecord {
    pub title: String,
    pub url: String,
}

/// One member of a collection as the provider reports it: its title and
/// its raw identifier.
pub struct Member {
    pub title: String,
    pub id: String,
}

/// The canonical playable URL of the item with identifier `video_id`.
pub fn build_youtube_url(video_id: &str) -> (r: String)
    ensures
        r@ == watch_url(video_id@),
{
    let base = String::from_str("https://www.youtube.com/watch?v=");
    base.concat(video_id)
}

/// The records that a single item yields: exactly one, whose URL is the
/// one the provider reported, unchanged.
pub fn single_item_records(title: String, url: String) -> (r: Vec<ItemRecord>)
    ensures
        r@.len() == 1,
        r@[0].title@ == title@,
        r@[0].url@ == url@,
{
    let mut r: Vec<ItemRecord> = Vec::new();
    r.push(ItemRecord { title, url });
    r
}

/// The records that the members of a collection yield: one per member, in
/// order, each URL built from the member's identifier.
pub fn collection_records(members: &Vec<Member>) -> (r: Vec<ItemRecord>)
    ensures
        r@.len() == members@.len(),
        forall|i: int|
            0 <= i < r@.len() ==> {
                &&& (#[trigger] r@[i]).title@ == members@[i].title@
                &&& r@[i].url@ == watch_url(members@[i].id@)
            },
{
    let mut r: Vec<ItemRecord> = Vec::new();
    let mut k: usize = 0;
    while k < members.len()
        invariant
            k <= members@.len(),
            r@.len() == k,
            forall|i: int|
                0 <= i < k ==> {
                    &&& (#[trigger] r@[i]).title@ == members@[i].title@
                    &&& r@[i].url@ == watch_url(members@[i].id@)
                },
        decreases members@.len() - k,
    {
        let member = &members[k];
        let url = build_youtube_url(member.id.as_str());
        r.push(ItemRecord { title: member.title.clone(), url });
        k = k + 1;
    }
    r
}

} // verus!
