use vstd::prelude::*;

use crate::filetype::FileType;
use crate::text::{decimal, i32_to_decimal};

verus! {

/// The icons that the application keeps in its cache directory, in the order in
/// which they are put there.
#[derive(Clone, Copy, Debug, PartialEq, Eq, Structural)]
pub enum DefaultIcon {
    Text,
    Default,
    Music,
    Dir,
    EmptyDir,
}

/// The number of default icons.
pub const ICON_COUNT: usize = 5;

/// The `i`-th icon to put in place.
pub open spec fn icon_at(i: int) -> DefaultIcon {
    if i == 0 {
        DefaultIcon::Text
    } else if i == 1 {
        DefaultIcon::Default
    } else if i == 2 {
        DefaultIcon::Music
    } else if i == 3 {
        DefaultIcon::Dir
    } else {
        DefaultIcon::EmptyDir
    }
}

/// The `i`-th icon to put in place.
pub fn icon_number(i: usize) -> (r: DefaultIcon)
    requires
        i < ICON_COUNT,
    ensures
        r == icon_at(i as int),
{
    if i == 0 {
        DefaultIcon::Text
    } else if i == 1 {
        DefaultIcon::Default
    } else if i == 2 {
        DefaultIcon::Music
    } else if i == 3 {
        DefaultIcon::Dir
    } else {
        DefaultIcon::EmptyDir
    }
}

/// Where an icon is kept, relative to the application's directory.
pub open spec fn icon_path(icon: DefaultIcon) -> Seq<char> {
    match icon {
        DefaultIcon::Text => "cache/text.png"@,
        DefaultIcon::Default => "cache/default.png"@,
        DefaultIcon::Music => "cache/music.png"@,
        DefaultIcon::Dir => "cache/dir.png"@,
        DefaultIcon::EmptyDir => "cache/empty-dir.png"@,
    }
}

/// Where an icon is kept, relative to the application's directory.
pub fn icon_cache_path(icon: DefaultIcon) -> (r: &'static str)
    ensures
        r@ == icon_path(icon),
{
    match icon {
        DefaultIcon::Text => "cache/text.png",
        DefaultIcon::Default => "cache/default.png",
        DefaultIcon::Music => "cache/music.png",
        DefaultIcon::Dir => "cache/dir.png",
        DefaultIcon::EmptyDir => "cache/empty-dir.png",
    }
}

/// Where the putting in place of the default icons stands: which icon it is at
/// and what it waits for, or that it has ended.
#[derive(Clone, Copy, Debug, PartialEq, Eq, Structural)]
pub enum IconInit {
    /// Waiting to learn whether the icon file exists.
    Probing(usize),
    /// Waiting for the icon's directory to be created.
    MakingDir(usize),
    /// Waiting for the icon file to be written.
    Writing(usize),
    /// Ended.
    Finished,
}

/// What the file system answered to the last action.
#[derive(Clone, Copy, Debug, PartialEq, Eq, Structural)]
pub enum IconEvent {
    /// Whether the icon file exists.
    Probed { present: bool },
    /// Whether the directory creation or the write succeeded.
    Completed { ok: bool },
}

/// What to do next.
#[derive(Clone, Copy, Debug, PartialEq, Eq, Structural)]
pub enum IconAction {
    /// Ask whether the icon file exists.
    Probe(DefaultIcon),
    /// Create the directory that holds the icon file (with its parents).
    MakeDir(DefaultIcon),
    /// Create the icon file and write the icon into it.
    Write(DefaultIcon),
    /// All icons are in place: report success.
    Done,
    /// Report the error of the last step; the remaining icons are not handled.
    Failed,
}

/// A state that the procedure can be in.
pub open spec fn icon_state_valid(s: IconInit) -> bool {
    match s {
        IconInit::Probing(i) => i < ICON_COUNT,
        IconInit::MakingDir(i) => i < ICON_COUNT,
        IconInit::Writing(i) => i < ICON_COUNT,
        IconInit::Finished => true,
    }
}

/// An answer that fits what the state waits for.
pub open spec fn icon_event_fits(s: IconInit, e: IconEvent) -> bool {
    match s {
        IconInit::Probing(_) => e is Probed,
        IconInit::MakingDir(_) => e is Completed,
        IconInit::Writing(_) => e is Completed,
        IconInit::Finished => false,
    }
}

/// Moving on to the icon after the `i`-th.
pub open spec fn icon_advance(i: int) -> (IconInit, IconAction) {
    if i + 1 < ICON_COUNT {
        (IconInit::Probing((i + 1) as usize), IconAction::Probe(icon_at(i + 1)))
    } else {
        (IconInit::Finished, IconAction::Done)
    }
}

/// One step of putting the default icons in place: an icon that exists is left
/// alone; a missing one gets its directory and is then written; the first
/// failure ends the procedure with that failure.
pub open spec fn icon_step(s: IconInit, e: IconEvent) -> (IconInit, IconAction) {
    match (s, e) {
        (IconInit::Probing(i), IconEvent::Probed { present }) => if present {
            icon_advance(i as int)
        } else {
            (IconInit::MakingDir(i), IconAction::MakeDir(icon_at(i as int)))
        },
        (IconInit::MakingDir(i), IconEvent::Completed { ok }) => if ok {
            (IconInit::Writing(i), IconAction::Write(icon_at(i as int)))
        } else {
            (IconInit::Finished, IconAction::Failed)
        },
        (IconInit::Writing(i), IconEvent::Completed { ok }) => if ok {
            icon_advance(i as int)
        } else {
            (IconInit::Finished, IconAction::Failed)
        },
        _ => (IconInit::Finished, IconAction::Failed),
    }
}

/// The start of putting the default icons in place: ask about the first icon.
pub fn icon_init_start() -> (r: (IconInit, IconAction))
    ensures
        r == (IconInit::Probing(0), IconAction::Probe(icon_at(0))),
{
    (IconInit::Probing(0), IconAction::Probe(DefaultIcon::Text))
}

/// Decides the next step of putting the default icons in place, from where the
/// procedure stands and what the file system answered to the last action. An
/// answer that does not fit the state ends the procedure with a failure.
pub fn init_default_icon(s: IconInit, e: IconEvent) -> (r: (IconInit, IconAction))
    requires
        icon_state_valid(s),
    ensures
        r == icon_step(s, e),
        icon_state_valid(r.0),
{
    match (s, e) {
        (IconInit::Probing(i), IconEvent::Probed { present }) => {
            if present {
                advance(i)
            } else {
                (IconInit::MakingDir(i), IconAction::MakeDir(icon_number(i)))
            }
        },
        (IconInit::MakingDir(i), IconEvent::Completed { ok }) => {
            if ok {
                (IconInit::Writing(i), IconAction::Write(icon_number(i)))
            } else {
                (IconInit::Finished, IconAction::Failed)
            }
        },
        (IconInit::Writing(i), IconEvent::Completed { ok }) => {
            if ok {
                advance(i)
            } else {
                (IconInit::Finished, IconAction::Failed)
            }
        },
        _ => (IconInit::Finished, IconAction::Failed),
    }
}

fn advance(i: usize) -> (r: (IconInit, IconAction))
    requires
        i < ICON_COUNT,
    ensures
        r == icon_advance(i as int),
{
    if i + 1 < ICON_COUNT {
        (IconInit::Probing(i + 1), IconAction::Probe(icon_number(i + 1)))
    } else {
        (IconInit::Finished, IconAction::Done)
    }
}

/// How many steps at most remain from a state.
pub open spec fn icon_steps_left(s: IconInit) -> nat {
    match s {
        IconInit::Probing(i) => (3 * (ICON_COUNT - i)) as nat,
        IconInit::MakingDir(i) => (3 * (ICON_COUNT - i) - 1) as nat,
        IconInit::Writing(i) => (3 * (ICON_COUNT - i) - 2) as nat,
        IconInit::Finished => 0,
    }
}

/// Every step brings the procedure closer to its end, so it ends.
pub proof fn lemma_icon_init_ends(s: IconInit, e: IconEvent)
    requires
        icon_state_valid(s),
        icon_event_fits(s, e),
    ensures
        icon_steps_left(icon_step(s, e).0) < icon_steps_left(s),
{
}

/// An icon file is created or written only right after the file system said that
/// it does not exist (and, for the write, that its directory was made); an icon
/// that exists is never written.
pub proof fn lemma_icon_init_never_overwrites(s: IconInit, e: IconEvent)
    requires
        icon_state_valid(s),
        icon_event_fits(s, e),
    ensures
        icon_step(s, e).1 is MakeDir ==> (s is Probing && e == (IconEvent::Probed { present: false })),
        icon_step(s, e).1 is Write ==> (s is MakingDir && e == (IconEvent::Completed { ok: true })),
        e == (IconEvent::Probed { present: true }) ==> !(icon_step(s, e).1 is MakeDir) && !(
        icon_step(s, e).1 is Write),
{
}

/// The actions of the procedure from state `s` on when every icon file already
/// exists, that is, when every probe is answered with "present".
pub open spec fn actions_when_all_present(s: IconInit) -> Seq<IconAction>
    decreases icon_steps_left(s),
{
    match s {
        IconInit::Probing(i) => if i < ICON_COUNT {
            let (next, action) = icon_step(s, IconEvent::Probed { present: true });
            if next is Probing && icon_steps_left(next) < icon_steps_left(s) {
                seq![action] + actions_when_all_present(next)
            } else {
                seq![action]
            }
        } else {
            Seq::empty()
        },
        _ => Seq::empty(),
    }
}

/// When every icon file already exists (as after a successful run), the
/// procedure only probes each remaining icon in turn and then reports success:
/// it creates no directory and writes no file.
pub proof fn lemma_icon_init_rerun_writes_nothing(i: usize)
    requires
        i < ICON_COUNT,
    ensures
        actions_when_all_present(IconInit::Probing(i)).len() == ICON_COUNT - i,
        forall|k: int|
            0 <= k < ICON_COUNT - i - 1 ==> #[trigger] actions_when_all_present(IconInit::Probing(i))[k]
                == IconAction::Probe(icon_at(i + 1 + k)),
        actions_when_all_present(IconInit::Probing(i))[ICON_COUNT - i - 1] == IconAction::Done,
        forall|k: int|
            0 <= k < actions_when_all_present(IconInit::Probing(i)).len() ==> !(
            #[trigger] actions_when_all_present(IconInit::Probing(i))[k] is MakeDir) && !(
            actions_when_all_present(IconInit::Probing(i))[k] is Write),
    decreases ICON_COUNT - i,
{
    let s = IconInit::Probing(i);
    let acts = actions_when_all_present(s);
    if i + 1 < ICON_COUNT {
        let next = IconInit::Probing((i + 1) as usize);
        lemma_icon_init_rerun_writes_nothing((i + 1) as usize);
        let rest = actions_when_all_present(next);
        assert(acts == seq![IconAction::Probe(icon_at(i + 1))] + rest);
        assert forall|k: int| 0 <= k < ICON_COUNT - i - 1 implies #[trigger] acts[k]
            == IconAction::Probe(icon_at(i + 1 + k)) by {
            if k > 0 {
                assert(acts[k] == rest[k - 1]);
            }
        }
        assert forall|k: int| 0 <= k < acts.len() implies !(#[trigger] acts[k] is MakeDir) && !(
        acts[k] is Write) by {
            if k > 0 {
                assert(acts[k] == rest[k - 1]);
            }
        }
    } else {
        assert(acts == seq![IconAction::Done]);
    }
}

/// A failure of the file system ends the procedure with that failure.
pub proof fn lemma_icon_init_stops_at_failure(s: IconInit, e: IconEvent)
    requires
        icon_state_valid(s),
        icon_event_fits(s, e),
        e == (IconEvent::Completed { ok: false }),
    ensures
        icon_step(s, e) == (IconInit::Finished, IconAction::Failed),
{
}

/// The thumbnail shown for a file type that has a fixed icon, or `None` for the
/// types whose thumbnail is made from the file itself (images, videos, subtitles).
pub open spec fn fixed_thumb(ft: FileType) -> Option<Seq<char>> {
    match ft {
        FileType::Text => Some("text.png"@),
        FileType::Music => Some("music.png"@),
        FileType::Unknown => Some("default.png"@),
        _ => None,
    }
}

/// The thumbnail shown for a file type that has a fixed icon.
pub fn thumb_for_type(ft: FileType) -> (r: Option<&'static str>)
    ensures
        match r {
            Some(t) => fixed_thumb(ft) == Some(t@),
            None => fixed_thumb(ft) is None,
        },
{
    match ft {
        FileType::Text => Some("text.png"),
        FileType::Music => Some("music.png"),
        FileType::Unknown => Some("default.png"),
        _ => None,
    }
}

/// The cache file of the thumbnail made for the record `id`.
pub open spec fn thumb_name(id: int) -> Seq<char> {
    decimal(id) + ".jpg"@
}

/// The playback position of a file registered for its thumbnail: the start.
pub const NEW_RECORD_TIMESTAMP: i64 = 0;

/// The volume of a file registered for its thumbnail: full volume, the top of
/// the range (1 to 100) that the store accepts.
pub const NEW_RECORD_VOLUME: i32 = 100;

/// The thumbnail file is missing or empty (a file whose size cannot be read
/// counts as empty).
pub open spec fn thumb_missing(present: bool, size: Option<u64>) -> bool {
    !present || size is None || size == Some(0u64)
}

/// Whether the thumbnail has to be made.
pub fn needs_thumbnail(present: bool, size: Option<u64>) -> (r: bool)
    ensures
        r == thumb_missing(present, size),
{
    if !present {
        return true;
    }
    match size {
        Some(n) => n == 0,
        None => true,
    }
}

/// Where finding the thumbnail of a file stands: what it waits for, with the
/// id of the file's record once known, or that it has ended.
#[derive(Clone, Copy, Debug, PartialEq, Eq, Structural)]
pub enum ThumbState {
    /// Waiting for the store to give the file's record id.
    LookingUp,
    /// Waiting for the store to register the file.
    Registering,
    /// Waiting to learn whether the cached thumbnail of record `id` is usable.
    Checking(i32),
    /// Waiting for the thumbnail of record `id` to be made.
    Making(i32),
    /// Ended.
    Finished,
}

/// What the store or the file system answered to the last action.
#[derive(Clone, Copy, Debug, PartialEq, Eq, Structural)]
pub enum ThumbEvent {
    /// The file's record id, if it has a record.
    LookedUp(Option<i32>),
    /// The new record's id, or `None` where registering failed.
    Registered(Option<i32>),
    /// Whether the cached thumbnail exists, and its size where it can be read.
    CacheChecked { present: bool, size: Option<u64> },
    /// Whether making the thumbnail succeeded.
    Made { ok: bool },
}

/// What to do next.
pub enum ThumbAction {
    /// Ask the store for the file's record id.
    LookUpId,
    /// Register the file in the store (at `NEW_RECORD_TIMESTAMP` and
    /// `NEW_RECORD_VOLUME`) and answer the new record's id.
    Register,
    /// Look at this cache file: whether it exists and its size.
    CheckCache(String),
    /// Make the thumbnail into this cache file (creating the cache directory).
    Make(String),
    /// The thumbnail to show is this cache file.
    Answer(String),
}

/// What an action is, with its texts as character sequences.
pub enum ThumbPlan {
    LookUpId,
    Register,
    CheckCache(Seq<char>),
    Make(Seq<char>),
    Answer(Seq<char>),
}

pub open spec fn thumb_plan(a: ThumbAction) -> ThumbPlan {
    match a {
        ThumbAction::LookUpId => ThumbPlan::LookUpId,
        ThumbAction::Register => ThumbPlan::Register,
        ThumbAction::CheckCache(s) => ThumbPlan::CheckCache(s@),
        ThumbAction::Make(s) => ThumbPlan::Make(s@),
        ThumbAction::Answer(s) => ThumbPlan::Answer(s@),
    }
}

/// The start of finding a file's thumbnail: a type with a fixed icon is
/// answered at once; for the others the store is asked for the record id.
pub open spec fn thumb_begin(ft: FileType) -> (ThumbState, ThumbPlan) {
    match fixed_thumb(ft) {
        Some(t) => (ThumbState::Finished, ThumbPlan::Answer(t)),
        None => (ThumbState::LookingUp, ThumbPlan::LookUpId),
    }
}

/// One step of finding a file's thumbnail: a file without a record is
/// registered; the record's thumbnail is made only where the cached one is
/// missing or empty; where registering or making fails, or an answer does not
/// fit, the default icon is shown.
pub open spec fn thumb_transition(s: ThumbState, e: ThumbEvent) -> (ThumbState, ThumbPlan) {
    match (s, e) {
        (ThumbState::LookingUp, ThumbEvent::LookedUp(Some(n))) => (
            ThumbState::Checking(n),
            ThumbPlan::CheckCache(thumb_name(n as int)),
        ),
        (ThumbState::LookingUp, ThumbEvent::LookedUp(None)) => (ThumbState::Registering, ThumbPlan::Register),
        (ThumbState::Registering, ThumbEvent::Registered(Some(n))) => (
            ThumbState::Checking(n),
            ThumbPlan::CheckCache(thumb_name(n as int)),
        ),
        (ThumbState::Checking(n), ThumbEvent::CacheChecked { present, size }) => if thumb_missing(
            present,
            size,
        ) {
            (ThumbState::Making(n), ThumbPlan::Make(thumb_name(n as int)))
        } else {
            (ThumbState::Finished, ThumbPlan::Answer(thumb_name(n as int)))
        },
        (ThumbState::Making(n), ThumbEvent::Made { ok: true }) => (
            ThumbState::Finished,
            ThumbPlan::Answer(thumb_name(n as int)),
        ),
        _ => (ThumbState::Finished, ThumbPlan::Answer("default.png"@)),
    }
}

/// The thumbnail cache file of the record `n`, as text.
fn record_thumb_file(n: i32) -> (r: String)
    ensures
        r@ == thumb_name(n as int),
{
    let mut s = i32_to_decimal(n);
    s.append(".jpg");
    s
}

fn default_answer() -> (r: (ThumbState, ThumbAction))
    ensures
        r.0 == ThumbState::Finished,
        thumb_plan(r.1) == ThumbPlan::Answer("default.png"@),
{
    (ThumbState::Finished, ThumbAction::Answer(String::from_str("default.png")))
}

/// Starts finding the thumbnail of a file of type `ft`.
pub fn thumb_start(ft: FileType) -> (r: (ThumbState, ThumbAction))
    ensures
        (r.0, thumb_plan(r.1)) == thumb_begin(ft),
{
    match thumb_for_type(ft) {
        Some(t) => (ThumbState::Finished, ThumbAction::Answer(String::from_str(t))),
        None => (ThumbState::LookingUp, ThumbAction::LookUpId),
    }
}

/// Decides the next step of finding a file's thumbnail, from where it stands and
/// what the store or the file system answered to the last action.
pub fn get_thumb_step(s: ThumbState, e: ThumbEvent) -> (r: (ThumbState, ThumbAction))
    ensures
        (r.0, thumb_plan(r.1)) == thumb_transition(s, e),
{
    match (s, e) {
        (ThumbState::LookingUp, ThumbEvent::LookedUp(Some(n))) => (
            ThumbState::Checking(n),
            ThumbAction::CheckCache(record_thumb_file(n)),
        ),
        (ThumbState::LookingUp, ThumbEvent::LookedUp(None)) => (ThumbState::Registering, ThumbAction::Register),
        (ThumbState::Registering, ThumbEvent::Registered(Some(n))) => (
            ThumbState::Checking(n),
            ThumbAction::CheckCache(record_thumb_file(n)),
        ),
        (ThumbState::Checking(n), ThumbEvent::CacheChecked { present, size }) => {
            if needs_thumbnail(present, size) {
                (ThumbState::Making(n), ThumbAction::Make(record_thumb_file(n)))
            } else {
                (ThumbState::Finished, ThumbAction::Answer(record_thumb_file(n)))
            }
        },
        (ThumbState::Making(n), ThumbEvent::Made { ok: true }) => (
            ThumbState::Finished,
            ThumbAction::Answer(record_thumb_file(n)),
        ),
        _ => default_answer(),
    }
}

/// How many steps at most remain from a state.
pub open spec fn thumb_steps_left(s: ThumbState) -> nat {
    match s {
        ThumbState::LookingUp => 4,
        ThumbState::Registering => 3,
        ThumbState::Checking(_) => 2,
        ThumbState::Making(_) => 1,
        ThumbState::Finished => 0,
    }
}

/// Every step brings the search closer to its end, so it ends.
pub proof fn lemma_thumb_search_ends(s: ThumbState, e: ThumbEvent)
    requires
        s != ThumbState::Finished,
    ensures
        thumb_steps_left(thumb_transition(s, e).0) < thumb_steps_left(s),
{
}

/// A file is registered only right after the store said it has no record; a
/// thumbnail is made only right after the cache said it is missing or empty;
/// and a search that ends answers a record's thumbnail or the default icon.
pub proof fn lemma_thumb_search_order(s: ThumbState, e: ThumbEvent)
    ensures
        thumb_transition(s, e).1 is Register ==> (s == ThumbState::LookingUp && e == ThumbEvent::LookedUp(None)),
        thumb_transition(s, e).1 is Make ==> s is Checking && (e matches ThumbEvent::CacheChecked { present, size } && thumb_missing(present, size)),
        thumb_transition(s, e).1 matches ThumbPlan::Answer(t) ==> (t == "default.png"@ || exists|n: int| t == #[trigger] thumb_name(n)),
{
}

/// Thumbnails of different records have different cache files.
pub proof fn lemma_thumb_names_distinct(a: int, b: int)
    requires
        a != b,
    ensures
        thumb_name(a) != thumb_name(b),
{
    crate::text::lemma_decimal_injective(a, b);
    let x = thumb_name(a);
    let y = thumb_name(b);
    if x == y {
        proof_suffix_cancel(decimal(a), decimal(b), ".jpg"@);
    }
}

proof fn proof_suffix_cancel(a: Seq<char>, b: Seq<char>, c: Seq<char>)
    requires
        a + c == b + c,
    ensures
        a == b,
{
    assert((a + c).len() == a.len() + c.len());
    assert((b + c).len() == b.len() + c.len());
    assert(a.len() == b.len());
    assert forall|i: int| 0 <= i < a.len() implies a[i] == b[i] by {
        assert((a + c)[i] == a[i]);
        assert((b + c)[i] == b[i]);
    }
    assert(a =~= b);
}

/// How a thumbnail is made from a file of the given type.
#[derive(Clone, Copy, Debug, PartialEq, Eq, Structural)]
pub enum ThumbnailMethod {
    /// Decode the image and scale it down.
    Image,
    /// Take a frame of the video with ffmpeg.
    Video,
    /// No thumbnail can be made.
    Unsupported,
}

/// How a thumbnail is made from a file of the given type.
pub fn thumbnail_method(ft: FileType) -> (r: ThumbnailMethod)
    ensures
        r == (match ft {
            FileType::Image => ThumbnailMethod::Image,
            FileType::Video => ThumbnailMethod::Video,
            _ => ThumbnailMethod::Unsupported,
        }),
{
    match ft {
        FileType::Image => ThumbnailMethod::Image,
        FileType::Video => ThumbnailMethod::Video,
        _ => ThumbnailMethod::Unsupported,
    }
}

/// The side, in pixels, of the square that thumbnails fit in.
pub const THUMB_SIZE: u32 = 150;

/// The arguments of the ffmpeg run that takes the frame at one second of the
/// video `src`, scales and crops it to a 150x150 square and writes it to `dst`,
/// overwriting it.
pub open spec fn ffmpeg_args(src: Seq<char>, dst: Seq<char>) -> Seq<Seq<char>> {
    seq![
        "-y"@,
        "-i"@,
        src,
        "-ss"@,
        "00:00:01"@,
        "-frames:v"@,
        "1"@,
        "-vf"@,
        "scale=150:150:force_original_aspect_ratio=increase,crop=150:150"@,
        dst,
    ]
}

/// The arguments of the ffmpeg run that makes the thumbnail of a video.
pub fn ffmpeg_thumbnail_args(src: &str, dst: &str) -> (r: Vec<String>)
    ensures
        r@.map_values(|s: String| s@) == ffmpeg_args(src@, dst@),
{
    let mut v: Vec<String> = Vec::new();
    v.push(String::from_str("-y"));
    v.push(String::from_str("-i"));
    v.push(String::from_str(src));
    v.push(String::from_str("-ss"));
    v.push(String::from_str("00:00:01"));
    v.push(String::from_str("-frames:v"));
    v.push(String::from_str("1"));
    v.push(String::from_str("-vf"));
    v.push(String::from_str("scale=150:150:force_original_aspect_ratio=increase,crop=150:150"));
    v.push(String::from_str(dst));
    assert(v@.map_values(|s: String| s@) =~= ffmpeg_args(src@, dst@));
    v
}

#[verifier::external_type_specification]
#[verifier::external_body]
pub struct ExDynamicImage(image::DynamicImage);

/// The width and height, in pixels, of an image.
pub uninterp spec fn image_size(img: image::DynamicImage) -> (u32, u32);

/// The size that `DynamicImage::thumbnail` gives an image of width `w` and height
/// `h` for the bounds `nw` by `nh` (computed in floating point by the image crate).
pub uninterp spec fn fitted_size(w: u32, h: u32, nw: u32, nh: u32) -> (u32, u32);

/// `image::DynamicImage::thumbnail`: a new image, scaled (down, or up for a small
/// image) to the largest size that fits within the given width and height with
/// the aspect ratio kept. The contract states that the new size is the named
/// fitted size of the old one, and that it fits within bounds of at least one
/// pixel; the pixels are not stated.
#[verifier::external_body]
fn scaled_down(img: &image::DynamicImage, width: u32, height: u32) -> (r: image::DynamicImage)
    ensures
        image_size(r) == fitted_size(image_size(*img).0, image_size(*img).1, width, height),
        width >= 1 && height >= 1 ==> image_size(r).0 <= width && image_size(r).1 <= height,
{
    img.thumbnail(width, height)
}

/// The thumbnail of a decoded image: scaled to the largest size that fits in a
/// 150x150 square, keeping its aspect ratio.
pub fn make_thumbnail(img: &image::DynamicImage) -> (r: image::DynamicImage)
    ensures
        image_size(r) == fitted_size(image_size(*img).0, image_size(*img).1, THUMB_SIZE, THUMB_SIZE),
        image_size(r).0 <= THUMB_SIZE && image_size(r).1 <= THUMB_SIZE,
{
    scaled_down(img, THUMB_SIZE, THUMB_SIZE)
}

/// The search works on the thumbnail of the record it found: once the store
/// names record `n` (found or newly registered), the cache file checked, the one
/// made and the one answered are all `n` in decimal followed by `.jpg`; any
/// other answer is the default icon.
pub proof fn lemma_thumb_search_keeps_record(s: ThumbState, e: ThumbEvent)
    ensures
        s == ThumbState::LookingUp ==> (e matches ThumbEvent::LookedUp(Some(n)) ==> thumb_transition(
            s,
            e,
        ) == (ThumbState::Checking(n), ThumbPlan::CheckCache(decimal(n as int) + ".jpg"@))),
        s == ThumbState::Registering ==> (e matches ThumbEvent::Registered(Some(n)) ==> thumb_transition(
            s,
            e,
        ) == (ThumbState::Checking(n), ThumbPlan::CheckCache(decimal(n as int) + ".jpg"@))),
        s matches ThumbState::Checking(n) ==> (e is CacheChecked ==> (thumb_transition(s, e) == (
            ThumbState::Making(n),
            ThumbPlan::Make(decimal(n as int) + ".jpg"@),
        ) || thumb_transition(s, e) == (
            ThumbState::Finished,
            ThumbPlan::Answer(decimal(n as int) + ".jpg"@),
        ))),
        s matches ThumbState::Making(n) ==> (e == (ThumbEvent::Made { ok: true }) ==> thumb_transition(
            s,
            e,
        ) == (ThumbState::Finished, ThumbPlan::Answer(decimal(n as int) + ".jpg"@))),
        thumb_transition(s, e).1 matches ThumbPlan::Answer(t) ==> (t == "default.png"@ || s is Checking
            || s is Making),
{
}

/// The icon written is the icon that was just probed and found missing: when a
/// step asks to probe icon `x` (moving to `Probing(j)`), an answer "missing"
/// makes the directory for `x`, and its success writes `x`. The first icon
/// probed is the text icon, and the icons taken in turn are the text, default,
/// music, directory and empty-directory icons, each once.
pub proof fn lemma_icon_written_is_icon_probed(s: IconInit, e: IconEvent)
    requires
        icon_state_valid(s),
    ensures
        icon_step(s, e).0 is Probing && icon_step(s, e).1 is Probe ==> {
            let j = icon_step(s, e).0->Probing_0;
            let x = icon_step(s, e).1->Probe_0;
            &&& icon_step(IconInit::Probing(j), IconEvent::Probed { present: false })
                == (IconInit::MakingDir(j), IconAction::MakeDir(x))
            &&& icon_step(IconInit::MakingDir(j), IconEvent::Completed { ok: true })
                == (IconInit::Writing(j), IconAction::Write(x))
        },
        icon_step(IconInit::Probing(0), IconEvent::Probed { present: false }).1 == IconAction::MakeDir(
            DefaultIcon::Text,
        ),
        icon_step(IconInit::MakingDir(0), IconEvent::Completed { ok: true }).1 == IconAction::Write(
            DefaultIcon::Text,
        ),
        icon_at(0) == DefaultIcon::Text,
        icon_at(1) == DefaultIcon::Default,
        icon_at(2) == DefaultIcon::Music,
        icon_at(3) == DefaultIcon::Dir,
        icon_at(4) == DefaultIcon::EmptyDir,
{
}

} // verus!
