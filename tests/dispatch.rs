use ytdump::{choose_action, classify_url, contains_str, diagnostic, usage_text, Action};

fn args(items: &[&str]) -> Vec<String> {
    items.iter().map(|s| s.to_string()).collect()
}

#[test]
fn too_few_arguments_give_usage() {
    assert_eq!(choose_action(&args(&[])), Action::Usage);
    assert_eq!(choose_action(&args(&["prog"])), Action::Usage);
    assert_eq!(choose_action(&args(&["prog", "https://www.youtube.com/watch?v=abc"])), Action::Usage);
    let a = choose_action(&args(&["prog", "x"]));
    assert!(!a.prints_json());
}

#[test]
fn usage_text_names_program() {
    let t = usage_text("ytdump");
    assert!(t.starts_with("Usage: ytdump <YouTube URL> <command>\nCommands:\n"));
    assert!(t.contains("  --get-sources        Print audio and video source URLs for a single video."));
    assert!(t.ends_with("  --dump-videos        Print array of video titles and URLs for a playlist."));
    assert_eq!(diagnostic(Action::Usage, "ytdump"), Some(t));
}

#[test]
fn malformed_url_is_reported() {
    let a = choose_action(&args(&["prog", "not a url", "--dump-videos"]));
    assert_eq!(a, Action::InvalidUrl);
    assert!(!a.prints_json());
    assert_eq!(diagnostic(a, "prog"), Some("Invalid URL provided.".to_string()));
    let b = choose_action(&args(&["prog", "not a url", "--bogus"]));
    assert_eq!(b, Action::InvalidUrl);
}

#[test]
fn unknown_command_is_reported() {
    let a = choose_action(&args(&["prog", "https://www.youtube.com/watch?v=abc", "--bogus"]));
    assert_eq!(a, Action::InvalidCommand);
    assert!(!a.prints_json());
    assert_eq!(diagnostic(a, "prog"), Some("Invalid command.".to_string()));
}

#[test]
fn known_commands_are_dispatched() {
    let single = "https://www.youtube.com/watch?v=abc";
    let list = "https://www.youtube.com/playlist?list=PL123";
    assert_eq!(choose_action(&args(&["p", single, "--get-sources"])), Action::GetSources);
    assert_eq!(choose_action(&args(&["p", list, "--get-sources"])), Action::GetSources);
    assert_eq!(choose_action(&args(&["p", single, "--dump-videos"])), Action::DumpSingle);
    assert_eq!(choose_action(&args(&["p", list, "--dump-videos"])), Action::DumpCollection);
    assert_eq!(choose_action(&args(&["p", list, "--dump-videos", "extra"])), Action::DumpCollection);
    for a in [Action::GetSources, Action::DumpSingle, Action::DumpCollection] {
        assert!(a.prints_json());
        assert_eq!(diagnostic(a, "p"), None);
    }
}

#[test]
fn collection_is_judged_by_path_only() {
    assert_eq!(classify_url("not a url"), None);
    assert_eq!(classify_url(""), None);
    assert_eq!(classify_url("https://www.youtube.com/playlist?list=PL1"), Some(true));
    assert_eq!(classify_url("https://www.youtube.com/watch?v=abc&list=playlist"), Some(false));
    assert_eq!(classify_url("https://example.com/my-playlists/1"), Some(true));
    assert_eq!(classify_url("https://example.com/"), Some(false));
}

#[test]
fn substring_search() {
    assert!(contains_str("/playlist", "playlist"));
    assert!(contains_str("abc", ""));
    assert!(contains_str("", ""));
    assert!(!contains_str("", "a"));
    assert!(!contains_str("/playlis", "playlist"));
    assert!(contains_str("xxplaylist", "playlist"));
    assert!(contains_str("aab", "ab"));
    assert!(!contains_str("ab", "abc"));
}
