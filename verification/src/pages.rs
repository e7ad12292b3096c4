use vstd::prelude::*;

use crate::text::{
    decimal, i32_to_decimal, lemma_decimal_has_no_brace, lemma_replace_missing_char,
    lemma_replace_whole, replace_all, replaced,
};

verus! {

pub const MEDIA_ID_MARK: &'static str = "{{MEDIA_ID}}";
pub const STREAM_PATH_MARK: &'static str = "{{STREAM_PATH}}";
pub const MEDIA_PATH_MARK: &'static str = "{{MEDIA_PATH}}";
pub const INFO_PATH_MARK: &'static str = "{{INFO_PATH}}";
pub const INFO_UPLOAD_PATH_MARK: &'static str = "{{INFO_UPLOAD_PATH}}";
pub const PLAYER_PATH_MARK: &'static str = "{{PATH}}";
pub const STREAM_BY_ID_ROUTE: &'static str = "/stream-byid/";
pub const INFO_BY_ID_ROUTE: &'static str = "/info-byid/";
pub const INFO_UPLOAD_BY_ID_ROUTE: &'static str = "/info-upload-byid/";

/// The player page for the record `id`: the template with the id and the routes
/// of its stream, its media, its progress and its progress upload filled in, in
/// that order.
pub open spec fn player_byid_page(template: Seq<char>, id: int) -> Seq<char> {
    let d = decimal(id);
    replaced(
        replaced(
            replaced(
                replaced(replaced(template, MEDIA_ID_MARK@, d), STREAM_PATH_MARK@, STREAM_BY_ID_ROUTE@ + d),
                MEDIA_PATH_MARK@,
                d,
            ),
            INFO_PATH_MARK@,
            INFO_BY_ID_ROUTE@ + d,
        ),
        INFO_UPLOAD_PATH_MARK@,
        INFO_UPLOAD_BY_ID_ROUTE@ + d,
    )
}

/// The player page for the media file at `path`; a path that is not valid text
/// (`None`) fills in the empty text.
pub open spec fn player_page(template: Seq<char>, path: Option<Seq<char>>) -> Seq<char> {
    replaced(
        template,
        PLAYER_PATH_MARK@,
        match path {
            Some(p) => p,
            None => Seq::empty(),
        },
    )
}

fn route_with_id(route: &str, id: &str) -> (r: String)
    ensures
        r@ == route@ + id@,
{
    let mut out = String::new();
    out.append(route);
    out.append(id);
    out
}

/// Fills the player template for the record `id`.
pub fn render_player_byid(template: &str, id: i32) -> (r: String)
    ensures
        r@ == player_byid_page(template@, id as int),
{
    let d = i32_to_decimal(id);
    let stream = route_with_id(STREAM_BY_ID_ROUTE, d.as_str());
    let info = route_with_id(INFO_BY_ID_ROUTE, d.as_str());
    let upload = route_with_id(INFO_UPLOAD_BY_ID_ROUTE, d.as_str());
    proof {
        reveal_strlit("{{MEDIA_ID}}");
        reveal_strlit("{{STREAM_PATH}}");
        reveal_strlit("{{MEDIA_PATH}}");
        reveal_strlit("{{INFO_PATH}}");
        reveal_strlit("{{INFO_UPLOAD_PATH}}");
    }
    let a = replace_all(template, MEDIA_ID_MARK, d.as_str());
    let b = replace_all(a.as_str(), STREAM_PATH_MARK, stream.as_str());
    let c = replace_all(b.as_str(), MEDIA_PATH_MARK, d.as_str());
    let e = replace_all(c.as_str(), INFO_PATH_MARK, info.as_str());
    replace_all(e.as_str(), INFO_UPLOAD_PATH_MARK, upload.as_str())
}

/// Fills the player template for the media file at `path`.
pub fn render_player(template: &str, path: Option<&str>) -> (r: String)
    ensures
        r@ == player_page(template@, match path { Some(p) => Some(p@), None => None }),
{
    proof {
        reveal_strlit("{{PATH}}");
    }
    let fill: &str = match path {
        Some(p) => p,
        None => "",
    };
    proof {
        reveal_strlit("");
        assert(fill@ == match path { Some(p) => p@, None => Seq::<char>::empty() });
    }
    let r = replace_all(template, PLAYER_PATH_MARK, fill);
    assert(r@ == player_page(template@, match path { Some(p) => Some(p@), None => None }));
    r
}

/// A text without `{`: no mark of the player template occurs in it.
proof fn lemma_marks_leave_braceless(t: Seq<char>, id: int)
    requires
        forall|i: int| 0 <= i < t.len() ==> #[trigger] t[i] != '{',
    ensures
        replaced(t, STREAM_PATH_MARK@, STREAM_BY_ID_ROUTE@ + decimal(id)) == t,
        replaced(t, MEDIA_PATH_MARK@, decimal(id)) == t,
        replaced(t, INFO_PATH_MARK@, INFO_BY_ID_ROUTE@ + decimal(id)) == t,
        replaced(t, INFO_UPLOAD_PATH_MARK@, INFO_UPLOAD_BY_ID_ROUTE@ + decimal(id)) == t,
{
    reveal_strlit("{{MEDIA_ID}}");
    assert("{{MEDIA_ID}}"@.len() == 12 && "{{MEDIA_ID}}"@[0] == '{' && "{{MEDIA_ID}}"@[1] == '{' && "{{MEDIA_ID}}"@[2] == 'M' && "{{MEDIA_ID}}"@[3] == 'E' && "{{MEDIA_ID}}"@[4] == 'D' && "{{MEDIA_ID}}"@[5] == 'I' && "{{MEDIA_ID}}"@[6] == 'A' && "{{MEDIA_ID}}"@[7] == '_' && "{{MEDIA_ID}}"@[8] == 'I' && "{{MEDIA_ID}}"@[9] == 'D' && "{{MEDIA_ID}}"@[10] == '}' && "{{MEDIA_ID}}"@[11] == '}');
    reveal_strlit("{{STREAM_PATH}}");
    assert("{{STREAM_PATH}}"@.len() == 15 && "{{STREAM_PATH}}"@[0] == '{' && "{{STREAM_PATH}}"@[1] == '{' && "{{STREAM_PATH}}"@[2] == 'S' && "{{STREAM_PATH}}"@[3] == 'T' && "{{STREAM_PATH}}"@[4] == 'R' && "{{STREAM_PATH}}"@[5] == 'E' && "{{STREAM_PATH}}"@[6] == 'A' && "{{STREAM_PATH}}"@[7] == 'M' && "{{STREAM_PATH}}"@[8] == '_' && "{{STREAM_PATH}}"@[9] == 'P' && "{{STREAM_PATH}}"@[10] == 'A' && "{{STREAM_PATH}}"@[11] == 'T' && "{{STREAM_PATH}}"@[12] == 'H' && "{{STREAM_PATH}}"@[13] == '}' && "{{STREAM_PATH}}"@[14] == '}');
    reveal_strlit("{{MEDIA_PATH}}");
    assert("{{MEDIA_PATH}}"@.len() == 14 && "{{MEDIA_PATH}}"@[0] == '{' && "{{MEDIA_PATH}}"@[1] == '{' && "{{MEDIA_PATH}}"@[2] == 'M' && "{{MEDIA_PATH}}"@[3] == 'E' && "{{MEDIA_PATH}}"@[4] == 'D' && "{{MEDIA_PATH}}"@[5] == 'I' && "{{MEDIA_PATH}}"@[6] == 'A' && "{{MEDIA_PATH}}"@[7] == '_' && "{{MEDIA_PATH}}"@[8] == 'P' && "{{MEDIA_PATH}}"@[9] == 'A' && "{{MEDIA_PATH}}"@[10] == 'T' && "{{MEDIA_PATH}}"@[11] == 'H' && "{{MEDIA_PATH}}"@[12] == '}' && "{{MEDIA_PATH}}"@[13] == '}');
    reveal_strlit("{{INFO_PATH}}");
    assert("{{INFO_PATH}}"@.len() == 13 && "{{INFO_PATH}}"@[0] == '{' && "{{INFO_PATH}}"@[1] == '{' && "{{INFO_PATH}}"@[2] == 'I' && "{{INFO_PATH}}"@[3] == 'N' && "{{INFO_PATH}}"@[4] == 'F' && "{{INFO_PATH}}"@[5] == 'O' && "{{INFO_PATH}}"@[6] == '_' && "{{INFO_PATH}}"@[7] == 'P' && "{{INFO_PATH}}"@[8] == 'A' && "{{INFO_PATH}}"@[9] == 'T' && "{{INFO_PATH}}"@[10] == 'H' && "{{INFO_PATH}}"@[11] == '}' && "{{INFO_PATH}}"@[12] == '}');
    reveal_strlit("{{INFO_UPLOAD_PATH}}");
    assert("{{INFO_UPLOAD_PATH}}"@.len() == 20 && "{{INFO_UPLOAD_PATH}}"@[0] == '{' && "{{INFO_UPLOAD_PATH}}"@[1] == '{' && "{{INFO_UPLOAD_PATH}}"@[2] == 'I' && "{{INFO_UPLOAD_PATH}}"@[3] == 'N' && "{{INFO_UPLOAD_PATH}}"@[4] == 'F' && "{{INFO_UPLOAD_PATH}}"@[5] == 'O' && "{{INFO_UPLOAD_PATH}}"@[6] == '_' && "{{INFO_UPLOAD_PATH}}"@[7] == 'U' && "{{INFO_UPLOAD_PATH}}"@[8] == 'P' && "{{INFO_UPLOAD_PATH}}"@[9] == 'L' && "{{INFO_UPLOAD_PATH}}"@[10] == 'O' && "{{INFO_UPLOAD_PATH}}"@[11] == 'A' && "{{INFO_UPLOAD_PATH}}"@[12] == 'D' && "{{INFO_UPLOAD_PATH}}"@[13] == '_' && "{{INFO_UPLOAD_PATH}}"@[14] == 'P' && "{{INFO_UPLOAD_PATH}}"@[15] == 'A' && "{{INFO_UPLOAD_PATH}}"@[16] == 'T' && "{{INFO_UPLOAD_PATH}}"@[17] == 'H' && "{{INFO_UPLOAD_PATH}}"@[18] == '}' && "{{INFO_UPLOAD_PATH}}"@[19] == '}');
    reveal_strlit("/stream-byid/");
    assert("/stream-byid/"@.len() == 13 && "/stream-byid/"@[0] == '/' && "/stream-byid/"@[1] == 's' && "/stream-byid/"@[2] == 't' && "/stream-byid/"@[3] == 'r' && "/stream-byid/"@[4] == 'e' && "/stream-byid/"@[5] == 'a' && "/stream-byid/"@[6] == 'm' && "/stream-byid/"@[7] == '-' && "/stream-byid/"@[8] == 'b' && "/stream-byid/"@[9] == 'y' && "/stream-byid/"@[10] == 'i' && "/stream-byid/"@[11] == 'd' && "/stream-byid/"@[12] == '/');
    reveal_strlit("/info-byid/");
    assert("/info-byid/"@.len() == 11 && "/info-byid/"@[0] == '/' && "/info-byid/"@[1] == 'i' && "/info-byid/"@[2] == 'n' && "/info-byid/"@[3] == 'f' && "/info-byid/"@[4] == 'o' && "/info-byid/"@[5] == '-' && "/info-byid/"@[6] == 'b' && "/info-byid/"@[7] == 'y' && "/info-byid/"@[8] == 'i' && "/info-byid/"@[9] == 'd' && "/info-byid/"@[10] == '/');
    reveal_strlit("/info-upload-byid/");
    assert("/info-upload-byid/"@.len() == 18 && "/info-upload-byid/"@[0] == '/' && "/info-upload-byid/"@[1] == 'i' && "/info-upload-byid/"@[2] == 'n' && "/info-upload-byid/"@[3] == 'f' && "/info-upload-byid/"@[4] == 'o' && "/info-upload-byid/"@[5] == '-' && "/info-upload-byid/"@[6] == 'u' && "/info-upload-byid/"@[7] == 'p' && "/info-upload-byid/"@[8] == 'l' && "/info-upload-byid/"@[9] == 'o' && "/info-upload-byid/"@[10] == 'a' && "/info-upload-byid/"@[11] == 'd' && "/info-upload-byid/"@[12] == '-' && "/info-upload-byid/"@[13] == 'b' && "/info-upload-byid/"@[14] == 'y' && "/info-upload-byid/"@[15] == 'i' && "/info-upload-byid/"@[16] == 'd' && "/info-upload-byid/"@[17] == '/');
    lemma_replace_missing_char(t, STREAM_PATH_MARK@, STREAM_BY_ID_ROUTE@ + decimal(id), 0);
    lemma_replace_missing_char(t, MEDIA_PATH_MARK@, decimal(id), 0);
    lemma_replace_missing_char(t, INFO_PATH_MARK@, INFO_BY_ID_ROUTE@ + decimal(id), 0);
    lemma_replace_missing_char(t, INFO_UPLOAD_PATH_MARK@, INFO_UPLOAD_BY_ID_ROUTE@ + decimal(id), 0);
}

/// The player page of record `id` fills each mark with that id: the media id
/// and media path marks become the decimal text of `id`, and the stream, info
/// and upload marks become their routes ending in it.
pub proof fn lemma_player_byid_fills_id(id: int)
    ensures
        player_byid_page("{{MEDIA_ID}}"@, id) == decimal(id),
        player_byid_page("{{STREAM_PATH}}"@, id) == "/stream-byid/"@ + decimal(id),
        player_byid_page("{{MEDIA_PATH}}"@, id) == decimal(id),
        player_byid_page("{{INFO_PATH}}"@, id) == "/info-byid/"@ + decimal(id),
        player_byid_page("{{INFO_UPLOAD_PATH}}"@, id) == "/info-upload-byid/"@ + decimal(id),
{
    reveal_strlit("{{MEDIA_ID}}");
    assert("{{MEDIA_ID}}"@.len() == 12 && "{{MEDIA_ID}}"@[0] == '{' && "{{MEDIA_ID}}"@[1] == '{' && "{{MEDIA_ID}}"@[2] == 'M' && "{{MEDIA_ID}}"@[3] == 'E' && "{{MEDIA_ID}}"@[4] == 'D' && "{{MEDIA_ID}}"@[5] == 'I' && "{{MEDIA_ID}}"@[6] == 'A' && "{{MEDIA_ID}}"@[7] == '_' && "{{MEDIA_ID}}"@[8] == 'I' && "{{MEDIA_ID}}"@[9] == 'D' && "{{MEDIA_ID}}"@[10] == '}' && "{{MEDIA_ID}}"@[11] == '}');
    reveal_strlit("{{STREAM_PATH}}");
    assert("{{STREAM_PATH}}"@.len() == 15 && "{{STREAM_PATH}}"@[0] == '{' && "{{STREAM_PATH}}"@[1] == '{' && "{{STREAM_PATH}}"@[2] == 'S' && "{{STREAM_PATH}}"@[3] == 'T' && "{{STREAM_PATH}}"@[4] == 'R' && "{{STREAM_PATH}}"@[5] == 'E' && "{{STREAM_PATH}}"@[6] == 'A' && "{{STREAM_PATH}}"@[7] == 'M' && "{{STREAM_PATH}}"@[8] == '_' && "{{STREAM_PATH}}"@[9] == 'P' && "{{STREAM_PATH}}"@[10] == 'A' && "{{STREAM_PATH}}"@[11] == 'T' && "{{STREAM_PATH}}"@[12] == 'H' && "{{STREAM_PATH}}"@[13] == '}' && "{{STREAM_PATH}}"@[14] == '}');
    reveal_strlit("{{MEDIA_PATH}}");
    assert("{{MEDIA_PATH}}"@.len() == 14 && "{{MEDIA_PATH}}"@[0] == '{' && "{{MEDIA_PATH}}"@[1] == '{' && "{{MEDIA_PATH}}"@[2] == 'M' && "{{MEDIA_PATH}}"@[3] == 'E' && "{{MEDIA_PATH}}"@[4] == 'D' && "{{MEDIA_PATH}}"@[5] == 'I' && "{{MEDIA_PATH}}"@[6] == 'A' && "{{MEDIA_PATH}}"@[7] == '_' && "{{MEDIA_PATH}}"@[8] == 'P' && "{{MEDIA_PATH}}"@[9] == 'A' && "{{MEDIA_PATH}}"@[10] == 'T' && "{{MEDIA_PATH}}"@[11] == 'H' && "{{MEDIA_PATH}}"@[12] == '}' && "{{MEDIA_PATH}}"@[13] == '}');
    reveal_strlit("{{INFO_PATH}}");
    assert("{{INFO_PATH}}"@.len() == 13 && "{{INFO_PATH}}"@[0] == '{' && "{{INFO_PATH}}"@[1] == '{' && "{{INFO_PATH}}"@[2] == 'I' && "{{INFO_PATH}}"@[3] == 'N' && "{{INFO_PATH}}"@[4] == 'F' && "{{INFO_PATH}}"@[5] == 'O' && "{{INFO_PATH}}"@[6] == '_' && "{{INFO_PATH}}"@[7] == 'P' && "{{INFO_PATH}}"@[8] == 'A' && "{{INFO_PATH}}"@[9] == 'T' && "{{INFO_PATH}}"@[10] == 'H' && "{{INFO_PATH}}"@[11] == '}' && "{{INFO_PATH}}"@[12] == '}');
    reveal_strlit("{{INFO_UPLOAD_PATH}}");
    assert("{{INFO_UPLOAD_PATH}}"@.len() == 20 && "{{INFO_UPLOAD_PATH}}"@[0] == '{' && "{{INFO_UPLOAD_PATH}}"@[1] == '{' && "{{INFO_UPLOAD_PATH}}"@[2] == 'I' && "{{INFO_UPLOAD_PATH}}"@[3] == 'N' && "{{INFO_UPLOAD_PATH}}"@[4] == 'F' && "{{INFO_UPLOAD_PATH}}"@[5] == 'O' && "{{INFO_UPLOAD_PATH}}"@[6] == '_' && "{{INFO_UPLOAD_PATH}}"@[7] == 'U' && "{{INFO_UPLOAD_PATH}}"@[8] == 'P' && "{{INFO_UPLOAD_PATH}}"@[9] == 'L' && "{{INFO_UPLOAD_PATH}}"@[10] == 'O' && "{{INFO_UPLOAD_PATH}}"@[11] == 'A' && "{{INFO_UPLOAD_PATH}}"@[12] == 'D' && "{{INFO_UPLOAD_PATH}}"@[13] == '_' && "{{INFO_UPLOAD_PATH}}"@[14] == 'P' && "{{INFO_UPLOAD_PATH}}"@[15] == 'A' && "{{INFO_UPLOAD_PATH}}"@[16] == 'T' && "{{INFO_UPLOAD_PATH}}"@[17] == 'H' && "{{INFO_UPLOAD_PATH}}"@[18] == '}' && "{{INFO_UPLOAD_PATH}}"@[19] == '}');
    reveal_strlit("/stream-byid/");
    assert("/stream-byid/"@.len() == 13 && "/stream-byid/"@[0] == '/' && "/stream-byid/"@[1] == 's' && "/stream-byid/"@[2] == 't' && "/stream-byid/"@[3] == 'r' && "/stream-byid/"@[4] == 'e' && "/stream-byid/"@[5] == 'a' && "/stream-byid/"@[6] == 'm' && "/stream-byid/"@[7] == '-' && "/stream-byid/"@[8] == 'b' && "/stream-byid/"@[9] == 'y' && "/stream-byid/"@[10] == 'i' && "/stream-byid/"@[11] == 'd' && "/stream-byid/"@[12] == '/');
    reveal_strlit("/info-byid/");
    assert("/info-byid/"@.len() == 11 && "/info-byid/"@[0] == '/' && "/info-byid/"@[1] == 'i' && "/info-byid/"@[2] == 'n' && "/info-byid/"@[3] == 'f' && "/info-byid/"@[4] == 'o' && "/info-byid/"@[5] == '-' && "/info-byid/"@[6] == 'b' && "/info-byid/"@[7] == 'y' && "/info-byid/"@[8] == 'i' && "/info-byid/"@[9] == 'd' && "/info-byid/"@[10] == '/');
    reveal_strlit("/info-upload-byid/");
    assert("/info-upload-byid/"@.len() == 18 && "/info-upload-byid/"@[0] == '/' && "/info-upload-byid/"@[1] == 'i' && "/info-upload-byid/"@[2] == 'n' && "/info-upload-byid/"@[3] == 'f' && "/info-upload-byid/"@[4] == 'o' && "/info-upload-byid/"@[5] == '-' && "/info-upload-byid/"@[6] == 'u' && "/info-upload-byid/"@[7] == 'p' && "/info-upload-byid/"@[8] == 'l' && "/info-upload-byid/"@[9] == 'o' && "/info-upload-byid/"@[10] == 'a' && "/info-upload-byid/"@[11] == 'd' && "/info-upload-byid/"@[12] == '-' && "/info-upload-byid/"@[13] == 'b' && "/info-upload-byid/"@[14] == 'y' && "/info-upload-byid/"@[15] == 'i' && "/info-upload-byid/"@[16] == 'd' && "/info-upload-byid/"@[17] == '/');
    let d = decimal(id);
    lemma_decimal_has_no_brace(id);
    let stream = STREAM_BY_ID_ROUTE@ + d;
    let info = INFO_BY_ID_ROUTE@ + d;
    let upload = INFO_UPLOAD_BY_ID_ROUTE@ + d;
    assert forall|i: int| 0 <= i < stream.len() implies #[trigger] stream[i] != '{' by {
        if i >= STREAM_BY_ID_ROUTE@.len() {
            assert(stream[i] == d[i - STREAM_BY_ID_ROUTE@.len()]);
        }
    }
    assert forall|i: int| 0 <= i < info.len() implies #[trigger] info[i] != '{' by {
        if i >= INFO_BY_ID_ROUTE@.len() {
            assert(info[i] == d[i - INFO_BY_ID_ROUTE@.len()]);
        }
    }
    assert forall|i: int| 0 <= i < upload.len() implies #[trigger] upload[i] != '{' by {
        if i >= INFO_UPLOAD_BY_ID_ROUTE@.len() {
            assert(upload[i] == d[i - INFO_UPLOAD_BY_ID_ROUTE@.len()]);
        }
    }
    // The media id mark.
    lemma_replace_whole(MEDIA_ID_MARK@, d);
    lemma_marks_leave_braceless(d, id);
    // The stream mark: `D` does not occur in it, and `{` not in its route.
    let t = STREAM_PATH_MARK@;
    lemma_replace_missing_char(t, MEDIA_ID_MARK@, d, 4);
    lemma_replace_whole(t, stream);
    lemma_marks_leave_braceless(stream, id);
    // The media path mark: the media id mark differs from it at the ninth
    // character and nowhere else can start.
    let t = MEDIA_PATH_MARK@;
    assert forall|i: int| 0 <= i <= t.len() implies !crate::text::has_prefix(
        #[trigger] t.skip(i),
        MEDIA_ID_MARK@,
    ) by {
        if i == 0 {
            assert(t.skip(0)[8] != MEDIA_ID_MARK@[8]);
        } else if i < t.len() {
            assert(t.skip(i)[0] != MEDIA_ID_MARK@[0] || t.skip(i)[1] != MEDIA_ID_MARK@[1]);
        }
    }
    crate::text::lemma_replace_absent(t, MEDIA_ID_MARK@, d);
    lemma_replace_missing_char(t, STREAM_PATH_MARK@, stream, 2);
    lemma_replace_whole(t, d);
    lemma_marks_leave_braceless(d, id);
    // The info mark: `M` and `S` do not occur in it.
    let t = INFO_PATH_MARK@;
    lemma_replace_missing_char(t, MEDIA_ID_MARK@, d, 2);
    lemma_replace_missing_char(t, STREAM_PATH_MARK@, stream, 2);
    lemma_replace_missing_char(t, MEDIA_PATH_MARK@, d, 2);
    lemma_replace_whole(t, info);
    lemma_marks_leave_braceless(info, id);
    // The upload mark: `M` and `S` do not occur in it; the info mark differs
    // from it at the eighth character and nowhere else can start.
    let t = INFO_UPLOAD_PATH_MARK@;
    lemma_replace_missing_char(t, MEDIA_ID_MARK@, d, 2);
    lemma_replace_missing_char(t, STREAM_PATH_MARK@, stream, 2);
    lemma_replace_missing_char(t, MEDIA_PATH_MARK@, d, 2);
    assert forall|i: int| 0 <= i <= t.len() implies !crate::text::has_prefix(
        #[trigger] t.skip(i),
        INFO_PATH_MARK@,
    ) by {
        if i == 0 {
            assert(t.skip(0)[7] != INFO_PATH_MARK@[7]);
        } else if i < t.len() {
            assert(t.skip(i)[0] != INFO_PATH_MARK@[0] || t.skip(i)[1] != INFO_PATH_MARK@[1]);
        }
    }
    crate::text::lemma_replace_absent(t, INFO_PATH_MARK@, info);
    lemma_replace_whole(t, upload);
}

} // verus!
