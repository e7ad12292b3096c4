use hlmv::filetype::{file_type_for_extension, get_file_type, FileType};

#[test]
fn classifies_by_extension() {
    assert_eq!(get_file_type("/media/pic.jpg"), FileType::Image);
    assert_eq!(get_file_type("movie.mkv"), FileType::Video);
    assert_eq!(get_file_type("notes.md"), FileType::Text);
    assert_eq!(get_file_type("song.flac"), FileType::Music);
    assert_eq!(get_file_type("film.srt"), FileType::Subtitles);
    assert_eq!(get_file_type("archive.zip"), FileType::Unknown);
}

#[test]
fn extension_case_does_not_matter() {
    assert_eq!(get_file_type("a.JPG"), FileType::Image);
    assert_eq!(get_file_type("movie.MKV"), FileType::Video);
    assert_eq!(get_file_type("Song.Mp3"), FileType::Music);
}

#[test]
fn files_without_extension_are_unknown() {
    assert_eq!(get_file_type("README"), FileType::Unknown);
    assert_eq!(get_file_type(".mp4"), FileType::Unknown);
    assert_eq!(get_file_type("dir.mp4/"), FileType::Video);
    assert_eq!(get_file_type("file."), FileType::Unknown);
    assert_eq!(get_file_type(""), FileType::Unknown);
}

#[test]
fn only_the_last_extension_counts() {
    assert_eq!(get_file_type("clip.mp4.txt"), FileType::Text);
    assert_eq!(get_file_type("notes.txt.mp4"), FileType::Video);
    assert_eq!(get_file_type("a.b/c"), FileType::Unknown);
}

#[test]
fn extension_lists() {
    for e in ["jpg", "jpeg", "png", "webp", "gif", "svg", "bmp", "tiff", "heic", "avif", "ico"] {
        assert_eq!(file_type_for_extension(e), FileType::Image);
    }
    for e in ["mp4", "mkv", "webm", "avi", "mov", "wmv", "flv", "m4v", "3gp", "ogv"] {
        assert_eq!(file_type_for_extension(e), FileType::Video);
    }
    for e in ["flac", "mp3", "alac", "wav", "m4a", "ogg", "opus", "aac", "wma"] {
        assert_eq!(file_type_for_extension(e), FileType::Music);
    }
    for e in ["srt", "vtt", "ass", "ssa", "sub", "idx"] {
        assert_eq!(file_type_for_extension(e), FileType::Subtitles);
    }
    assert_eq!(file_type_for_extension("sql"), FileType::Text);
    assert_eq!(file_type_for_extension("JPG"), FileType::Unknown);
    assert_eq!(file_type_for_extension(""), FileType::Unknown);
}

#[test]
fn ascii_extensions_ignore_case() {
    for (a, b) in [("x.Png", "x.png"), ("x.WEBM", "x.webm"), ("x.Md", "x.md"), ("x.SRT", "x.srt"), ("x.OpUs", "x.opus")] {
        assert_eq!(get_file_type(a), get_file_type(b));
    }
    assert_eq!(get_file_type("x.\u{212A}\u{212A}"), FileType::Unknown);
    assert_eq!(get_file_type("clip.m\u{212A}v"), FileType::Video);
}
