use ytdump::{
    build_youtube_url, collection_output, collection_records, select_sources, single_item_output,
    single_item_records, sources_output, Encoding, Member, COLLECTION_LIMIT,
};

fn enc(url: &str, has_audio: bool, has_video: bool) -> Encoding {
    Encoding { url: url.to_string(), has_audio, has_video }
}

fn member(title: &str, id: &str) -> Member {
    Member { title: title.to_string(), id: id.to_string() }
}

#[test]
fn youtube_url_is_built_from_identifier() {
    assert_eq!(build_youtube_url("dQw4w9WgXcQ"), "https://www.youtube.com/watch?v=dQw4w9WgXcQ");
    assert_eq!(build_youtube_url(""), "https://www.youtube.com/watch?v=");
}

#[test]
fn missing_audio_is_reported() {
    let fs = vec![enc("v1", false, true), enc("v2", false, true)];
    let r = select_sources(&fs);
    assert_eq!(r.audio_source, "No audio source found");
    assert_eq!(r.video_source, "v1");
}

#[test]
fn missing_video_is_reported() {
    let fs = vec![enc("a1", true, false)];
    let r = select_sources(&fs);
    assert_eq!(r.audio_source, "a1");
    assert_eq!(r.video_source, "No video source found");
}

#[test]
fn no_encodings_report_both_missing() {
    let r = select_sources(&vec![]);
    assert_eq!(r.audio_source, "No audio source found");
    assert_eq!(r.video_source, "No video source found");
}

#[test]
fn sources_are_chosen_independently() {
    let fs = vec![enc("v", false, true), enc("both", true, true), enc("a", true, false)];
    let r = select_sources(&fs);
    assert_eq!(r.audio_source, "both");
    assert_eq!(r.video_source, "v");
    assert_eq!(
        sources_output(&fs),
        Some(r#"{"audio_source":"both","video_source":"v"}"#.to_string())
    );
}

#[test]
fn sources_output_with_missing_audio() {
    let fs = vec![enc("https://cdn/x?a=1&b=2", false, true)];
    assert_eq!(
        sources_output(&fs),
        Some(r#"{"audio_source":"No audio source found","video_source":"https://cdn/x?a=1&b=2"}"#.to_string())
    );
}

#[test]
fn single_item_dump_is_one_record() {
    let recs = single_item_records("Title".to_string(), "https://www.youtube.com/watch?v=abc".to_string());
    assert_eq!(recs.len(), 1);
    assert_eq!(recs[0].url, "https://www.youtube.com/watch?v=abc");
    assert_eq!(
        single_item_output("Title".to_string(), "https://www.youtube.com/watch?v=abc".to_string()),
        Some(r#"[{"title":"Title","url":"https://www.youtube.com/watch?v=abc"}]"#.to_string())
    );
}

#[test]
fn titles_are_escaped() {
    assert_eq!(
        single_item_output("say \"hi\"\n\\".to_string(), "u".to_string()),
        Some(r#"[{"title":"say \"hi\"\n\\","url":"u"}]"#.to_string())
    );
}

#[test]
fn collection_dump_builds_urls() {
    let ms = vec![member("One", "id1"), member("Two", "id2"), member("Three", "id3")];
    let recs = collection_records(&ms);
    assert_eq!(recs.len(), 3);
    assert_eq!(recs[1].title, "Two");
    assert_eq!(recs[1].url, "https://www.youtube.com/watch?v=id2");
    assert_eq!(
        collection_output(&ms),
        Some(
            [
                r#"[{"title":"One","url":"https://www.youtube.com/watch?v=id1"},"#,
                r#"{"title":"Two","url":"https://www.youtube.com/watch?v=id2"},"#,
                r#"{"title":"Three","url":"https://www.youtube.com/watch?v=id3"}]"#,
            ]
            .join("")
        )
    );
}

#[test]
fn empty_collection_is_empty_array() {
    assert_eq!(collection_output(&vec![]), Some("[]".to_string()));
    assert_eq!(collection_records(&vec![]).len(), 0);
}

#[test]
fn collection_limit_is_ten_thousand() {
    assert_eq!(COLLECTION_LIMIT, 10000);
}
