use vstd::prelude::*;

use crate::text::same_text;

verus! {

/// The kind of a media file, as told by its extension.
#[derive(Clone, Copy, Debug, PartialEq, Eq, Structural)]
pub enum FileType {
    Text,
    Image,
    Video,
    Music,
    Subtitles,
    Unknown,
}

/// What `std::path::Path::extension` gives for a path, as text: the part of the
/// final component after its last `.`, if that component has one that is not its
/// first character.
pub uninterp spec fn path_extension(path: Seq<char>) -> Option<Seq<char>>;

/// What `str::to_lowercase` gives: the Unicode lowercase mapping of the text.
pub uninterp spec fn lowercase(s: Seq<char>) -> Seq<char>;

/// `Path::extension` on a path given as text. The extension of a valid UTF-8
/// path is itself valid UTF-8 (it is cut at a `.`), so the conversion back to
/// text loses nothing. The contract names the result and states no more of it.
#[verifier::external_body]
fn extension_of(path: &str) -> (r: Option<String>)
    ensures
        match r {
            Some(e) => path_extension(path@) == Some(e@),
            None => path_extension(path@) is None,
        },
{
    match std::path::Path::new(path).extension() {
        Some(e) => Some(e.to_string_lossy().into_owned()),
        None => None,
    }
}

/// Every character of `s` is ASCII.
pub open spec fn all_ascii(s: Seq<char>) -> bool {
    forall|i: int| 0 <= i < s.len() ==> (#[trigger] s[i] as u32) < 128
}

/// The ASCII lowercase of a character: `A` to `Z` become `a` to `z`, every other
/// character stays.
pub open spec fn ascii_lower_char(c: char) -> char {
    if 'A' <= c && c <= 'Z' {
        ((c as u32) + 32) as char
    } else {
        c
    }
}

/// The ASCII lowercase of a text, character by character.
pub open spec fn ascii_lower(s: Seq<char>) -> Seq<char> {
    s.map_values(|c: char| ascii_lower_char(c))
}

/// `str::to_lowercase`. The contract names the result, and states that on ASCII
/// text it is the ASCII lowercase (the Unicode lowercase mapping of the ASCII
/// letters `A` to `Z` is `a` to `z`, and other ASCII characters map to
/// themselves). Of other text no more is stated.
#[verifier::external_body]
fn to_lowercase(s: &str) -> (r: String)
    ensures
        r@ == lowercase(s@),
        all_ascii(s@) ==> r@ == ascii_lower(s@),
{
    s.to_lowercase()
}

pub open spec fn is_image_extension(e: Seq<char>) -> bool {
    ||| e == "jpg"@
    ||| e == "jpeg"@
    ||| e == "png"@
    ||| e == "webp"@
    ||| e == "gif"@
    ||| e == "svg"@
    ||| e == "bmp"@
    ||| e == "tiff"@
    ||| e == "heic"@
    ||| e == "avif"@
    ||| e == "ico"@
}

pub open spec fn is_video_extension(e: Seq<char>) -> bool {
    ||| e == "mp4"@
    ||| e == "mkv"@
    ||| e == "webm"@
    ||| e == "avi"@
    ||| e == "mov"@
    ||| e == "wmv"@
    ||| e == "flv"@
    ||| e == "m4v"@
    ||| e == "3gp"@
    ||| e == "ogv"@
}

pub open spec fn is_text_extension(e: Seq<char>) -> bool {
    ||| e == "txt"@
    ||| e == "md"@
    ||| e == "rs"@
    ||| e == "cpp"@
    ||| e == "c"@
    ||| e == "h"@
    ||| e == "hpp"@
    ||| e == "cs"@
    ||| e == "py"@
    ||| e == "js"@
    ||| e == "ts"@
    ||| e == "go"@
    ||| e == "xml"@
    ||| e == "yml"@
    ||| e == "yaml"@
    ||| e == "toml"@
    ||| e == "json"@
    ||| e == "html"@
    ||| e == "css"@
    ||| e == "sh"@
    ||| e == "bat"@
    ||| e == "sql"@
}

pub open spec fn is_music_extension(e: Seq<char>) -> bool {
    ||| e == "flac"@
    ||| e == "mp3"@
    ||| e == "alac"@
    ||| e == "wav"@
    ||| e == "m4a"@
    ||| e == "ogg"@
    ||| e == "opus"@
    ||| e == "aac"@
    ||| e == "wma"@
}

pub open spec fn is_subtitles_extension(e: Seq<char>) -> bool {
    ||| e == "srt"@
    ||| e == "vtt"@
    ||| e == "ass"@
    ||| e == "ssa"@
    ||| e == "sub"@
    ||| e == "idx"@
}

/// The file type of a (lowercase) extension; the lists are tried in this order.
pub open spec fn extension_file_type(e: Seq<char>) -> FileType {
    if is_image_extension(e) {
        FileType::Image
    } else if is_video_extension(e) {
        FileType::Video
    } else if is_text_extension(e) {
        FileType::Text
    } else if is_music_extension(e) {
        FileType::Music
    } else if is_subtitles_extension(e) {
        FileType::Subtitles
    } else {
        FileType::Unknown
    }
}

/// The extension text that classification starts from: the path's extension,
/// or the empty text where it has none.
pub open spec fn extension_or_empty(path: Seq<char>) -> Seq<char> {
    match path_extension(path) {
        Some(e) => e,
        None => Seq::empty(),
    }
}

fn one_of(e: &str, list: &[&str]) -> (r: bool)
    ensures
        r == exists|i: int| 0 <= i < list@.len() && e@ == (#[trigger] list@[i])@,
{
    let mut i: usize = 0;
    while i < list.len()
        invariant
            i <= list@.len(),
            forall|k: int| 0 <= k < i ==> e@ != (#[trigger] list@[k])@,
        decreases list.len() - i,
    {
        if same_text(e, list[i]) {
            return true;
        }
        i = i + 1;
    }
    false
}

/// Classifies an extension that is already lowercase.
pub fn file_type_for_extension(e: &str) -> (r: FileType)
    ensures
        r == extension_file_type(e@),
{
    let image: [&str; 11] = ["jpg", "jpeg", "png", "webp", "gif", "svg", "bmp", "tiff", "heic", "avif", "ico"];
    let video: [&str; 10] = ["mp4", "mkv", "webm", "avi", "mov", "wmv", "flv", "m4v", "3gp", "ogv"];
    let text: [&str; 22] = [
        "txt", "md", "rs", "cpp", "c", "h", "hpp", "cs", "py", "js", "ts", "go", "xml", "yml",
        "yaml", "toml", "json", "html", "css", "sh", "bat", "sql",
    ];
    let music: [&str; 9] = ["flac", "mp3", "alac", "wav", "m4a", "ogg", "opus", "aac", "wma"];
    let subtitles: [&str; 6] = ["srt", "vtt", "ass", "ssa", "sub", "idx"];
    if one_of(e, &image) {
        FileType::Image
    } else if one_of(e, &video) {
        FileType::Video
    } else if one_of(e, &text) {
        FileType::Text
    } else if one_of(e, &music) {
        FileType::Music
    } else if one_of(e, &subtitles) {
        FileType::Subtitles
    } else {
        FileType::Unknown
    }
}

/// Classifies a file by the lowercase form of its path's extension; for an
/// ASCII extension the case of its letters does not matter.
pub fn get_file_type(path: &str) -> (r: FileType)
    ensures
        r == extension_file_type(lowercase(extension_or_empty(path@))),
        all_ascii(extension_or_empty(path@)) ==> r == extension_file_type(
            ascii_lower(extension_or_empty(path@)),
        ),
{
    let ext = match extension_of(path) {
        Some(e) => e,
        None => String::new(),
    };
    let lower = to_lowercase(ext.as_str());
    file_type_for_extension(lower.as_str())
}

/// Each extension belongs to at most one list, so the order in which the lists
/// are tried does not matter.
pub proof fn lemma_extension_lists_disjoint(e: Seq<char>)
    ensures
        is_image_extension(e) ==> !is_video_extension(e) && !is_text_extension(e)
            && !is_music_extension(e) && !is_subtitles_extension(e),
        is_video_extension(e) ==> !is_text_extension(e) && !is_music_extension(e)
            && !is_subtitles_extension(e),
        is_text_extension(e) ==> !is_music_extension(e) && !is_subtitles_extension(e),
        is_music_extension(e) ==> !is_subtitles_extension(e),
{
    reveal_strlit("jpg");
    assert("jpg"@.len() == 3 && "jpg"@[0] == 'j' && "jpg"@[1] == 'p' && "jpg"@[2] == 'g');
    reveal_strlit("jpeg");
    assert("jpeg"@.len() == 4 && "jpeg"@[0] == 'j' && "jpeg"@[1] == 'p' && "jpeg"@[2] == 'e' && "jpeg"@[3] == 'g');
    reveal_strlit("png");
    assert("png"@.len() == 3 && "png"@[0] == 'p' && "png"@[1] == 'n' && "png"@[2] == 'g');
    reveal_strlit("webp");
    assert("webp"@.len() == 4 && "webp"@[0] == 'w' && "webp"@[1] == 'e' && "webp"@[2] == 'b' && "webp"@[3] == 'p');
    reveal_strlit("gif");
    assert("gif"@.len() == 3 && "gif"@[0] == 'g' && "gif"@[1] == 'i' && "gif"@[2] == 'f');
    reveal_strlit("svg");
    assert("svg"@.len() == 3 && "svg"@[0] == 's' && "svg"@[1] == 'v' && "svg"@[2] == 'g');
    reveal_strlit("bmp");
    assert("bmp"@.len() == 3 && "bmp"@[0] == 'b' && "bmp"@[1] == 'm' && "bmp"@[2] == 'p');
    reveal_strlit("tiff");
    assert("tiff"@.len() == 4 && "tiff"@[0] == 't' && "tiff"@[1] == 'i' && "tiff"@[2] == 'f' && "tiff"@[3] == 'f');
    reveal_strlit("heic");
    assert("heic"@.len() == 4 && "heic"@[0] == 'h' && "heic"@[1] == 'e' && "heic"@[2] == 'i' && "heic"@[3] == 'c');
    reveal_strlit("avif");
    assert("avif"@.len() == 4 && "avif"@[0] == 'a' && "avif"@[1] == 'v' && "avif"@[2] == 'i' && "avif"@[3] == 'f');
    reveal_strlit("ico");
    assert("ico"@.len() == 3 && "ico"@[0] == 'i' && "ico"@[1] == 'c' && "ico"@[2] == 'o');
    reveal_strlit("mp4");
    assert("mp4"@.len() == 3 && "mp4"@[0] == 'm' && "mp4"@[1] == 'p' && "mp4"@[2] == '4');
    reveal_strlit("mkv");
    assert("mkv"@.len() == 3 && "mkv"@[0] == 'm' && "mkv"@[1] == 'k' && "mkv"@[2] == 'v');
    reveal_strlit("webm");
    assert("webm"@.len() == 4 && "webm"@[0] == 'w' && "webm"@[1] == 'e' && "webm"@[2] == 'b' && "webm"@[3] == 'm');
    reveal_strlit("avi");
    assert("avi"@.len() == 3 && "avi"@[0] == 'a' && "avi"@[1] == 'v' && "avi"@[2] == 'i');
    reveal_strlit("mov");
    assert("mov"@.len() == 3 && "mov"@[0] == 'm' && "mov"@[1] == 'o' && "mov"@[2] == 'v');
    reveal_strlit("wmv");
    assert("wmv"@.len() == 3 && "wmv"@[0] == 'w' && "wmv"@[1] == 'm' && "wmv"@[2] == 'v');
    reveal_strlit("flv");
    assert("flv"@.len() == 3 && "flv"@[0] == 'f' && "flv"@[1] == 'l' && "flv"@[2] == 'v');
    reveal_strlit("m4v");
    assert("m4v"@.len() == 3 && "m4v"@[0] == 'm' && "m4v"@[1] == '4' && "m4v"@[2] == 'v');
    reveal_strlit("3gp");
    assert("3gp"@.len() == 3 && "3gp"@[0] == '3' && "3gp"@[1] == 'g' && "3gp"@[2] == 'p');
    reveal_strlit("ogv");
    assert("ogv"@.len() == 3 && "ogv"@[0] == 'o' && "ogv"@[1] == 'g' && "ogv"@[2] == 'v');
    reveal_strlit("txt");
    assert("txt"@.len() == 3 && "txt"@[0] == 't' && "txt"@[1] == 'x' && "txt"@[2] == 't');
    reveal_strlit("md");
    assert("md"@.len() == 2 && "md"@[0] == 'm' && "md"@[1] == 'd');
    reveal_strlit("rs");
    assert("rs"@.len() == 2 && "rs"@[0] == 'r' && "rs"@[1] == 's');
    reveal_strlit("cpp");
    assert("cpp"@.len() == 3 && "cpp"@[0] == 'c' && "cpp"@[1] == 'p' && "cpp"@[2] == 'p');
    reveal_strlit("c");
    assert("c"@.len() == 1 && "c"@[0] == 'c');
    reveal_strlit("h");
    assert("h"@.len() == 1 && "h"@[0] == 'h');
    reveal_strlit("hpp");
    assert("hpp"@.len() == 3 && "hpp"@[0] == 'h' && "hpp"@[1] == 'p' && "hpp"@[2] == 'p');
    reveal_strlit("cs");
    assert("cs"@.len() == 2 && "cs"@[0] == 'c' && "cs"@[1] == 's');
    reveal_strlit("py");
    assert("py"@.len() == 2 && "py"@[0] == 'p' && "py"@[1] == 'y');
    reveal_strlit("js");
    assert("js"@.len() == 2 && "js"@[0] == 'j' && "js"@[1] == 's');
    reveal_strlit("ts");
    assert("ts"@.len() == 2 && "ts"@[0] == 't' && "ts"@[1] == 's');
    reveal_strlit("go");
    assert("go"@.len() == 2 && "go"@[0] == 'g' && "go"@[1] == 'o');
    reveal_strlit("xml");
    assert("xml"@.len() == 3 && "xml"@[0] == 'x' && "xml"@[1] == 'm' && "xml"@[2] == 'l');
    reveal_strlit("yml");
    assert("yml"@.len() == 3 && "yml"@[0] == 'y' && "yml"@[1] == 'm' && "yml"@[2] == 'l');
    reveal_strlit("yaml");
    assert("yaml"@.len() == 4 && "yaml"@[0] == 'y' && "yaml"@[1] == 'a' && "yaml"@[2] == 'm' && "yaml"@[3] == 'l');
    reveal_strlit("toml");
    assert("toml"@.len() == 4 && "toml"@[0] == 't' && "toml"@[1] == 'o' && "toml"@[2] == 'm' && "toml"@[3] == 'l');
    reveal_strlit("json");
    assert("json"@.len() == 4 && "json"@[0] == 'j' && "json"@[1] == 's' && "json"@[2] == 'o' && "json"@[3] == 'n');
    reveal_strlit("html");
    assert("html"@.len() == 4 && "html"@[0] == 'h' && "html"@[1] == 't' && "html"@[2] == 'm' && "html"@[3] == 'l');
    reveal_strlit("css");
    assert("css"@.len() == 3 && "css"@[0] == 'c' && "css"@[1] == 's' && "css"@[2] == 's');
    reveal_strlit("sh");
    assert("sh"@.len() == 2 && "sh"@[0] == 's' && "sh"@[1] == 'h');
    reveal_strlit("bat");
    assert("bat"@.len() == 3 && "bat"@[0] == 'b' && "bat"@[1] == 'a' && "bat"@[2] == 't');
    reveal_strlit("sql");
    assert("sql"@.len() == 3 && "sql"@[0] == 's' && "sql"@[1] == 'q' && "sql"@[2] == 'l');
    reveal_strlit("flac");
    assert("flac"@.len() == 4 && "flac"@[0] == 'f' && "flac"@[1] == 'l' && "flac"@[2] == 'a' && "flac"@[3] == 'c');
    reveal_strlit("mp3");
    assert("mp3"@.len() == 3 && "mp3"@[0] == 'm' && "mp3"@[1] == 'p' && "mp3"@[2] == '3');
    reveal_strlit("alac");
    assert("alac"@.len() == 4 && "alac"@[0] == 'a' && "alac"@[1] == 'l' && "alac"@[2] == 'a' && "alac"@[3] == 'c');
    reveal_strlit("wav");
    assert("wav"@.len() == 3 && "wav"@[0] == 'w' && "wav"@[1] == 'a' && "wav"@[2] == 'v');
    reveal_strlit("m4a");
    assert("m4a"@.len() == 3 && "m4a"@[0] == 'm' && "m4a"@[1] == '4' && "m4a"@[2] == 'a');
    reveal_strlit("ogg");
    assert("ogg"@.len() == 3 && "ogg"@[0] == 'o' && "ogg"@[1] == 'g' && "ogg"@[2] == 'g');
    reveal_strlit("opus");
    assert("opus"@.len() == 4 && "opus"@[0] == 'o' && "opus"@[1] == 'p' && "opus"@[2] == 'u' && "opus"@[3] == 's');
    reveal_strlit("aac");
    assert("aac"@.len() == 3 && "aac"@[0] == 'a' && "aac"@[1] == 'a' && "aac"@[2] == 'c');
    reveal_strlit("wma");
    assert("wma"@.len() == 3 && "wma"@[0] == 'w' && "wma"@[1] == 'm' && "wma"@[2] == 'a');
    reveal_strlit("srt");
    assert("srt"@.len() == 3 && "srt"@[0] == 's' && "srt"@[1] == 'r' && "srt"@[2] == 't');
    reveal_strlit("vtt");
    assert("vtt"@.len() == 3 && "vtt"@[0] == 'v' && "vtt"@[1] == 't' && "vtt"@[2] == 't');
    reveal_strlit("ass");
    assert("ass"@.len() == 3 && "ass"@[0] == 'a' && "ass"@[1] == 's' && "ass"@[2] == 's');
    reveal_strlit("ssa");
    assert("ssa"@.len() == 3 && "ssa"@[0] == 's' && "ssa"@[1] == 's' && "ssa"@[2] == 'a');
    reveal_strlit("sub");
    assert("sub"@.len() == 3 && "sub"@[0] == 's' && "sub"@[1] == 'u' && "sub"@[2] == 'b');
    reveal_strlit("idx");
    assert("idx"@.len() == 3 && "idx"@[0] == 'i' && "idx"@[1] == 'd' && "idx"@[2] == 'x');
}

/// Every extension of the classification table gets its list's type: the
/// image, video, text, music and subtitle extensions below are classified as
/// such (and, by `file_type_for_extension` and `get_file_type`, so are files
/// that carry them).
pub proof fn lemma_extension_table()
    ensures
        extension_file_type("jpg"@) == FileType::Image,
        extension_file_type("jpeg"@) == FileType::Image,
        extension_file_type("png"@) == FileType::Image,
        extension_file_type("webp"@) == FileType::Image,
        extension_file_type("gif"@) == FileType::Image,
        extension_file_type("svg"@) == FileType::Image,
        extension_file_type("bmp"@) == FileType::Image,
        extension_file_type("tiff"@) == FileType::Image,
        extension_file_type("heic"@) == FileType::Image,
        extension_file_type("avif"@) == FileType::Image,
        extension_file_type("ico"@) == FileType::Image,
        extension_file_type("mp4"@) == FileType::Video,
        extension_file_type("mkv"@) == FileType::Video,
        extension_file_type("webm"@) == FileType::Video,
        extension_file_type("avi"@) == FileType::Video,
        extension_file_type("mov"@) == FileType::Video,
        extension_file_type("wmv"@) == FileType::Video,
        extension_file_type("flv"@) == FileType::Video,
        extension_file_type("m4v"@) == FileType::Video,
        extension_file_type("3gp"@) == FileType::Video,
        extension_file_type("ogv"@) == FileType::Video,
        extension_file_type("txt"@) == FileType::Text,
        extension_file_type("md"@) == FileType::Text,
        extension_file_type("rs"@) == FileType::Text,
        extension_file_type("cpp"@) == FileType::Text,
        extension_file_type("c"@) == FileType::Text,
        extension_file_type("h"@) == FileType::Text,
        extension_file_type("hpp"@) == FileType::Text,
        extension_file_type("cs"@) == FileType::Text,
        extension_file_type("py"@) == FileType::Text,
        extension_file_type("js"@) == FileType::Text,
        extension_file_type("ts"@) == FileType::Text,
        extension_file_type("go"@) == FileType::Text,
        extension_file_type("xml"@) == FileType::Text,
        extension_file_type("yml"@) == FileType::Text,
        extension_file_type("yaml"@) == FileType::Text,
        extension_file_type("toml"@) == FileType::Text,
        extension_file_type("json"@) == FileType::Text,
        extension_file_type("html"@) == FileType::Text,
        extension_file_type("css"@) == FileType::Text,
        extension_file_type("sh"@) == FileType::Text,
        extension_file_type("bat"@) == FileType::Text,
        extension_file_type("sql"@) == FileType::Text,
        extension_file_type("flac"@) == FileType::Music,
        extension_file_type("mp3"@) == FileType::Music,
        extension_file_type("alac"@) == FileType::Music,
        extension_file_type("wav"@) == FileType::Music,
        extension_file_type("m4a"@) == FileType::Music,
        extension_file_type("ogg"@) == FileType::Music,
        extension_file_type("opus"@) == FileType::Music,
        extension_file_type("aac"@) == FileType::Music,
        extension_file_type("wma"@) == FileType::Music,
        extension_file_type("srt"@) == FileType::Subtitles,
        extension_file_type("vtt"@) == FileType::Subtitles,
        extension_file_type("ass"@) == FileType::Subtitles,
        extension_file_type("ssa"@) == FileType::Subtitles,
        extension_file_type("sub"@) == FileType::Subtitles,
        extension_file_type("idx"@) == FileType::Subtitles,
        extension_file_type(Seq::empty()) == FileType::Unknown,
{
    reveal_strlit("jpg");
    assert("jpg"@.len() == 3 && "jpg"@[0] == 'j' && "jpg"@[1] == 'p' && "jpg"@[2] == 'g');
    reveal_strlit("jpeg");
    assert("jpeg"@.len() == 4 && "jpeg"@[0] == 'j' && "jpeg"@[1] == 'p' && "jpeg"@[2] == 'e' && "jpeg"@[3] == 'g');
    reveal_strlit("png");
    assert("png"@.len() == 3 && "png"@[0] == 'p' && "png"@[1] == 'n' && "png"@[2] == 'g');
    reveal_strlit("webp");
    assert("webp"@.len() == 4 && "webp"@[0] == 'w' && "webp"@[1] == 'e' && "webp"@[2] == 'b' && "webp"@[3] == 'p');
    reveal_strlit("gif");
    assert("gif"@.len() == 3 && "gif"@[0] == 'g' && "gif"@[1] == 'i' && "gif"@[2] == 'f');
    reveal_strlit("svg");
    assert("svg"@.len() == 3 && "svg"@[0] == 's' && "svg"@[1] == 'v' && "svg"@[2] == 'g');
    reveal_strlit("bmp");
    assert("bmp"@.len() == 3 && "bmp"@[0] == 'b' && "bmp"@[1] == 'm' && "bmp"@[2] == 'p');
    reveal_strlit("tiff");
    assert("tiff"@.len() == 4 && "tiff"@[0] == 't' && "tiff"@[1] == 'i' && "tiff"@[2] == 'f' && "tiff"@[3] == 'f');
    reveal_strlit("heic");
    assert("heic"@.len() == 4 && "heic"@[0] == 'h' && "heic"@[1] == 'e' && "heic"@[2] == 'i' && "heic"@[3] == 'c');
    reveal_strlit("avif");
    assert("avif"@.len() == 4 && "avif"@[0] == 'a' && "avif"@[1] == 'v' && "avif"@[2] == 'i' && "avif"@[3] == 'f');
    reveal_strlit("ico");
    assert("ico"@.len() == 3 && "ico"@[0] == 'i' && "ico"@[1] == 'c' && "ico"@[2] == 'o');
    reveal_strlit("mp4");
    assert("mp4"@.len() == 3 && "mp4"@[0] == 'm' && "mp4"@[1] == 'p' && "mp4"@[2] == '4');
    reveal_strlit("mkv");
    assert("mkv"@.len() == 3 && "mkv"@[0] == 'm' && "mkv"@[1] == 'k' && "mkv"@[2] == 'v');
    reveal_strlit("webm");
    assert("webm"@.len() == 4 && "webm"@[0] == 'w' && "webm"@[1] == 'e' && "webm"@[2] == 'b' && "webm"@[3] == 'm');
    reveal_strlit("avi");
    assert("avi"@.len() == 3 && "avi"@[0] == 'a' && "avi"@[1] == 'v' && "avi"@[2] == 'i');
    reveal_strlit("mov");
    assert("mov"@.len() == 3 && "mov"@[0] == 'm' && "mov"@[1] == 'o' && "mov"@[2] == 'v');
    reveal_strlit("wmv");
    assert("wmv"@.len() == 3 && "wmv"@[0] == 'w' && "wmv"@[1] == 'm' && "wmv"@[2] == 'v');
    reveal_strlit("flv");
    assert("flv"@.len() == 3 && "flv"@[0] == 'f' && "flv"@[1] == 'l' && "flv"@[2] == 'v');
    reveal_strlit("m4v");
    assert("m4v"@.len() == 3 && "m4v"@[0] == 'm' && "m4v"@[1] == '4' && "m4v"@[2] == 'v');
    reveal_strlit("3gp");
    assert("3gp"@.len() == 3 && "3gp"@[0] == '3' && "3gp"@[1] == 'g' && "3gp"@[2] == 'p');
    reveal_strlit("ogv");
    assert("ogv"@.len() == 3 && "ogv"@[0] == 'o' && "ogv"@[1] == 'g' && "ogv"@[2] == 'v');
    reveal_strlit("txt");
    assert("txt"@.len() == 3 && "txt"@[0] == 't' && "txt"@[1] == 'x' && "txt"@[2] == 't');
    reveal_strlit("md");
    assert("md"@.len() == 2 && "md"@[0] == 'm' && "md"@[1] == 'd');
    reveal_strlit("rs");
    assert("rs"@.len() == 2 && "rs"@[0] == 'r' && "rs"@[1] == 's');
    reveal_strlit("cpp");
    assert("cpp"@.len() == 3 && "cpp"@[0] == 'c' && "cpp"@[1] == 'p' && "cpp"@[2] == 'p');
    reveal_strlit("c");
    assert("c"@.len() == 1 && "c"@[0] == 'c');
    reveal_strlit("h");
    assert("h"@.len() == 1 && "h"@[0] == 'h');
    reveal_strlit("hpp");
    assert("hpp"@.len() == 3 && "hpp"@[0] == 'h' && "hpp"@[1] == 'p' && "hpp"@[2] == 'p');
    reveal_strlit("cs");
    assert("cs"@.len() == 2 && "cs"@[0] == 'c' && "cs"@[1] == 's');
    reveal_strlit("py");
    assert("py"@.len() == 2 && "py"@[0] == 'p' && "py"@[1] == 'y');
    reveal_strlit("js");
    assert("js"@.len() == 2 && "js"@[0] == 'j' && "js"@[1] == 's');
    reveal_strlit("ts");
    assert("ts"@.len() == 2 && "ts"@[0] == 't' && "ts"@[1] == 's');
    reveal_strlit("go");
    assert("go"@.len() == 2 && "go"@[0] == 'g' && "go"@[1] == 'o');
    reveal_strlit("xml");
    assert("xml"@.len() == 3 && "xml"@[0] == 'x' && "xml"@[1] == 'm' && "xml"@[2] == 'l');
    reveal_strlit("yml");
    assert("yml"@.len() == 3 && "yml"@[0] == 'y' && "yml"@[1] == 'm' && "yml"@[2] == 'l');
    reveal_strlit("yaml");
    assert("yaml"@.len() == 4 && "yaml"@[0] == 'y' && "yaml"@[1] == 'a' && "yaml"@[2] == 'm' && "yaml"@[3] == 'l');
    reveal_strlit("toml");
    assert("toml"@.len() == 4 && "toml"@[0] == 't' && "toml"@[1] == 'o' && "toml"@[2] == 'm' && "toml"@[3] == 'l');
    reveal_strlit("json");
    assert("json"@.len() == 4 && "json"@[0] == 'j' && "json"@[1] == 's' && "json"@[2] == 'o' && "json"@[3] == 'n');
    reveal_strlit("html");
    assert("html"@.len() == 4 && "html"@[0] == 'h' && "html"@[1] == 't' && "html"@[2] == 'm' && "html"@[3] == 'l');
    reveal_strlit("css");
    assert("css"@.len() == 3 && "css"@[0] == 'c' && "css"@[1] == 's' && "css"@[2] == 's');
    reveal_strlit("sh");
    assert("sh"@.len() == 2 && "sh"@[0] == 's' && "sh"@[1] == 'h');
    reveal_strlit("bat");
    assert("bat"@.len() == 3 && "bat"@[0] == 'b' && "bat"@[1] == 'a' && "bat"@[2] == 't');
    reveal_strlit("sql");
    assert("sql"@.len() == 3 && "sql"@[0] == 's' && "sql"@[1] == 'q' && "sql"@[2] == 'l');
    reveal_strlit("flac");
    assert("flac"@.len() == 4 && "flac"@[0] == 'f' && "flac"@[1] == 'l' && "flac"@[2] == 'a' && "flac"@[3] == 'c');
    reveal_strlit("mp3");
    assert("mp3"@.len() == 3 && "mp3"@[0] == 'm' && "mp3"@[1] == 'p' && "mp3"@[2] == '3');
    reveal_strlit("alac");
    assert("alac"@.len() == 4 && "alac"@[0] == 'a' && "alac"@[1] == 'l' && "alac"@[2] == 'a' && "alac"@[3] == 'c');
    reveal_strlit("wav");
    assert("wav"@.len() == 3 && "wav"@[0] == 'w' && "wav"@[1] == 'a' && "wav"@[2] == 'v');
    reveal_strlit("m4a");
    assert("m4a"@.len() == 3 && "m4a"@[0] == 'm' && "m4a"@[1] == '4' && "m4a"@[2] == 'a');
    reveal_strlit("ogg");
    assert("ogg"@.len() == 3 && "ogg"@[0] == 'o' && "ogg"@[1] == 'g' && "ogg"@[2] == 'g');
    reveal_strlit("opus");
    assert("opus"@.len() == 4 && "opus"@[0] == 'o' && "opus"@[1] == 'p' && "opus"@[2] == 'u' && "opus"@[3] == 's');
    reveal_strlit("aac");
    assert("aac"@.len() == 3 && "aac"@[0] == 'a' && "aac"@[1] == 'a' && "aac"@[2] == 'c');
    reveal_strlit("wma");
    assert("wma"@.len() == 3 && "wma"@[0] == 'w' && "wma"@[1] == 'm' && "wma"@[2] == 'a');
    reveal_strlit("srt");
    assert("srt"@.len() == 3 && "srt"@[0] == 's' && "srt"@[1] == 'r' && "srt"@[2] == 't');
    reveal_strlit("vtt");
    assert("vtt"@.len() == 3 && "vtt"@[0] == 'v' && "vtt"@[1] == 't' && "vtt"@[2] == 't');
    reveal_strlit("ass");
    assert("ass"@.len() == 3 && "ass"@[0] == 'a' && "ass"@[1] == 's' && "ass"@[2] == 's');
    reveal_strlit("ssa");
    assert("ssa"@.len() == 3 && "ssa"@[0] == 's' && "ssa"@[1] == 's' && "ssa"@[2] == 'a');
    reveal_strlit("sub");
    assert("sub"@.len() == 3 && "sub"@[0] == 's' && "sub"@[1] == 'u' && "sub"@[2] == 'b');
    reveal_strlit("idx");
    assert("idx"@.len() == 3 && "idx"@[0] == 'i' && "idx"@[1] == 'd' && "idx"@[2] == 'x');
}

} // verus!
