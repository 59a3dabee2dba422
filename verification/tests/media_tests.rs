use oval_player::media::is_video_path;

#[test]
fn recognized_extensions_in_any_case() {
    assert!(is_video_path("clip.mp4"));
    assert!(is_video_path("clip.MP4"));
    assert!(is_video_path("Movie.MkV"));
    assert!(is_video_path("/home/someone/videos/holiday.webm"));
    assert!(is_video_path("a.mov"));
    assert!(is_video_path("b.AVI"));
    assert!(is_video_path("c.m4v"));
    assert!(is_video_path("d.TS"));
}

#[test]
fn unrecognized_extensions_are_rejected() {
    assert!(!is_video_path("notes.txt"));
    assert!(!is_video_path("archive.tar.gz"));
    assert!(!is_video_path("song.mp3"));
    assert!(!is_video_path("clip.mp44"));
    assert!(!is_video_path("clip.mp"));
}

#[test]
fn dotless_names_are_their_own_extension() {
    // With no dot the whole name is the extension, so a file literally
    // named like a suffix qualifies.
    assert!(is_video_path("mp4"));
    assert!(is_video_path("TS"));
    assert!(!is_video_path(""));
    assert!(!is_video_path("video"));
    assert!(!is_video_path("clip."));
}

#[test]
fn only_the_last_dot_counts() {
    assert!(is_video_path("two.dots.mp4"));
    assert!(!is_video_path("two.mp4.bak"));
}
