use hlmv::filetype::FileType;
use hlmv::thumb::{
    ffmpeg_thumbnail_args, icon_cache_path, icon_init_start, init_default_icon, make_thumbnail,
    needs_thumbnail, get_thumb_step, thumb_for_type, thumb_start, thumbnail_method,
    DefaultIcon, IconAction, IconEvent, IconInit, ThumbAction, ThumbEvent, ThumbState, ThumbnailMethod,
};

/// Runs the icon procedure against a set of existing icons; `fail_at` makes the
/// n-th directory creation or write fail.
fn run_icons(existing: &[DefaultIcon], fail_at: Option<usize>) -> (Vec<IconAction>, IconAction) {
    let mut actions = Vec::new();
    let (mut state, mut action) = icon_init_start();
    let mut completions = 0;
    loop {
        match action {
            IconAction::Done | IconAction::Failed => return (actions, action),
            IconAction::Probe(icon) => {
                actions.push(action);
                let e = IconEvent::Probed { present: existing.contains(&icon) };
                (state, action) = init_default_icon(state, e);
            }
            IconAction::MakeDir(_) | IconAction::Write(_) => {
                actions.push(action);
                let ok = fail_at != Some(completions);
                completions += 1;
                (state, action) = init_default_icon(state, IconEvent::Completed { ok });
            }
        }
    }
}

#[test]
fn all_icons_present_writes_nothing() {
    let (acts, end) = run_icons(&[DefaultIcon::Text, DefaultIcon::Default, DefaultIcon::Music, DefaultIcon::Dir, DefaultIcon::EmptyDir], None);
    assert_eq!(end, IconAction::Done);
    assert_eq!(
        acts,
        vec![
            IconAction::Probe(DefaultIcon::Text),
            IconAction::Probe(DefaultIcon::Default),
            IconAction::Probe(DefaultIcon::Music),
            IconAction::Probe(DefaultIcon::Dir),
            IconAction::Probe(DefaultIcon::EmptyDir)
        ]
    );
}

#[test]
fn missing_icons_are_written_in_order() {
    let (acts, end) = run_icons(&[DefaultIcon::Text, DefaultIcon::Dir, DefaultIcon::EmptyDir], None);
    assert_eq!(end, IconAction::Done);
    assert_eq!(
        acts,
        vec![
            IconAction::Probe(DefaultIcon::Text),
            IconAction::Probe(DefaultIcon::Default),
            IconAction::MakeDir(DefaultIcon::Default),
            IconAction::Write(DefaultIcon::Default),
            IconAction::Probe(DefaultIcon::Music),
            IconAction::MakeDir(DefaultIcon::Music),
            IconAction::Write(DefaultIcon::Music),
            IconAction::Probe(DefaultIcon::Dir),
            IconAction::Probe(DefaultIcon::EmptyDir)
        ]
    );
}

#[test]
fn first_failure_stops_the_procedure() {
    let (acts, end) = run_icons(&[], Some(1));
    assert_eq!(end, IconAction::Failed);
    assert_eq!(acts, vec![IconAction::Probe(DefaultIcon::Text), IconAction::MakeDir(DefaultIcon::Text), IconAction::Write(DefaultIcon::Text)]);
    let (acts, end) = run_icons(&[DefaultIcon::Text], Some(0));
    assert_eq!(end, IconAction::Failed);
    assert_eq!(acts, vec![IconAction::Probe(DefaultIcon::Text), IconAction::Probe(DefaultIcon::Default), IconAction::MakeDir(DefaultIcon::Default)]);
}

#[test]
fn second_run_after_success_writes_nothing() {
    let all = [DefaultIcon::Text, DefaultIcon::Default, DefaultIcon::Music, DefaultIcon::Dir, DefaultIcon::EmptyDir];
    let (first, end) = run_icons(&[], None);
    assert_eq!(end, IconAction::Done);
    assert_eq!(first.iter().filter(|a| matches!(a, IconAction::Write(_))).count(), 5);
    let (second, end) = run_icons(&all, None);
    assert_eq!(end, IconAction::Done);
    assert!(second.iter().all(|a| matches!(a, IconAction::Probe(_))));
}

#[test]
fn mismatched_answer_ends_in_failure() {
    let (s, a) = init_default_icon(IconInit::Probing(0), IconEvent::Completed { ok: true });
    assert_eq!((s, a), (IconInit::Finished, IconAction::Failed));
    let (s, a) = init_default_icon(IconInit::Finished, IconEvent::Probed { present: true });
    assert_eq!((s, a), (IconInit::Finished, IconAction::Failed));
}

#[test]
fn icon_step_from_last_icon_finishes() {
    let (s, a) = init_default_icon(IconInit::Writing(4), IconEvent::Completed { ok: true });
    assert_eq!((s, a), (IconInit::Finished, IconAction::Done));
}

#[test]
fn icon_paths() {
    assert_eq!(icon_cache_path(DefaultIcon::Text), "cache/text.png");
    assert_eq!(icon_cache_path(DefaultIcon::Default), "cache/default.png");
    assert_eq!(icon_cache_path(DefaultIcon::Music), "cache/music.png");
    assert_eq!(icon_cache_path(DefaultIcon::Dir), "cache/dir.png");
    assert_eq!(icon_cache_path(DefaultIcon::EmptyDir), "cache/empty-dir.png");
}

#[test]
fn fixed_thumbnails() {
    assert_eq!(thumb_for_type(FileType::Text), Some("text.png"));
    assert_eq!(thumb_for_type(FileType::Music), Some("music.png"));
    assert_eq!(thumb_for_type(FileType::Unknown), Some("default.png"));
    assert_eq!(thumb_for_type(FileType::Image), None);
    assert_eq!(thumb_for_type(FileType::Video), None);
    assert_eq!(thumb_for_type(FileType::Subtitles), None);
}

fn action_text(a: ThumbAction) -> String {
    match a {
        ThumbAction::LookUpId => "lookup".to_string(),
        ThumbAction::Register => "register".to_string(),
        ThumbAction::CheckCache(n) => format!("check {}", n),
        ThumbAction::Make(n) => format!("make {}", n),
        ThumbAction::Answer(n) => format!("answer {}", n),
    }
}

/// Runs the thumbnail search for a file of type `ft` against fixed answers.
fn run_thumb(ft: FileType, id: Option<i32>, registered: Option<i32>, cached: Option<u64>, made: bool) -> Vec<String> {
    let mut log = Vec::new();
    let (mut s, mut a) = thumb_start(ft);
    loop {
        let text = action_text(match &a {
            ThumbAction::LookUpId => ThumbAction::LookUpId,
            ThumbAction::Register => ThumbAction::Register,
            ThumbAction::CheckCache(n) => ThumbAction::CheckCache(n.clone()),
            ThumbAction::Make(n) => ThumbAction::Make(n.clone()),
            ThumbAction::Answer(n) => ThumbAction::Answer(n.clone()),
        });
        log.push(text);
        let e = match a {
            ThumbAction::Answer(_) => return log,
            ThumbAction::LookUpId => ThumbEvent::LookedUp(id),
            ThumbAction::Register => ThumbEvent::Registered(registered),
            ThumbAction::CheckCache(_) => ThumbEvent::CacheChecked { present: cached.is_some(), size: cached },
            ThumbAction::Make(_) => ThumbEvent::Made { ok: made },
        };
        (s, a) = get_thumb_step(s, e);
    }
}

#[test]
fn fixed_icon_needs_no_store() {
    assert_eq!(run_thumb(FileType::Text, Some(1), None, None, true), vec!["answer text.png"]);
    assert_eq!(run_thumb(FileType::Music, Some(1), None, None, true), vec!["answer music.png"]);
    assert_eq!(run_thumb(FileType::Unknown, Some(1), None, None, true), vec!["answer default.png"]);
}

#[test]
fn cached_thumbnail_is_used() {
    assert_eq!(
        run_thumb(FileType::Image, Some(17), None, Some(900), true),
        vec!["lookup", "check 17.jpg", "answer 17.jpg"]
    );
}

#[test]
fn missing_or_empty_thumbnail_is_made() {
    assert_eq!(
        run_thumb(FileType::Video, Some(-3), None, None, true),
        vec!["lookup", "check -3.jpg", "make -3.jpg", "answer -3.jpg"]
    );
    assert_eq!(
        run_thumb(FileType::Image, Some(4), None, Some(0), false),
        vec!["lookup", "check 4.jpg", "make 4.jpg", "answer default.png"]
    );
}

#[test]
fn file_without_record_is_registered_first() {
    assert_eq!(
        run_thumb(FileType::Subtitles, None, Some(8), Some(10), true),
        vec!["lookup", "register", "check 8.jpg", "answer 8.jpg"]
    );
    assert_eq!(
        run_thumb(FileType::Image, None, None, None, true),
        vec!["lookup", "register", "answer default.png"]
    );
}

#[test]
fn unfitting_answer_shows_default_icon() {
    let (s, a) = get_thumb_step(ThumbState::Checking(2), ThumbEvent::Made { ok: true });
    assert_eq!(s, ThumbState::Finished);
    assert_eq!(action_text(a), "answer default.png");
}

#[test]
fn thumbnail_needed_when_missing_or_empty() {
    assert!(needs_thumbnail(false, None));
    assert!(needs_thumbnail(false, Some(10)));
    assert!(needs_thumbnail(true, Some(0)));
    assert!(needs_thumbnail(true, None));
    assert!(!needs_thumbnail(true, Some(2048)));
}

#[test]
fn thumbnail_methods() {
    assert_eq!(thumbnail_method(FileType::Image), ThumbnailMethod::Image);
    assert_eq!(thumbnail_method(FileType::Video), ThumbnailMethod::Video);
    assert_eq!(thumbnail_method(FileType::Text), ThumbnailMethod::Unsupported);
    assert_eq!(thumbnail_method(FileType::Subtitles), ThumbnailMethod::Unsupported);
}

#[test]
fn ffmpeg_arguments() {
    let args = ffmpeg_thumbnail_args("/m/a.mp4", "/c/1.jpg");
    assert_eq!(
        args,
        vec![
            "-y",
            "-i",
            "/m/a.mp4",
            "-ss",
            "00:00:01",
            "-frames:v",
            "1",
            "-vf",
            "scale=150:150:force_original_aspect_ratio=increase,crop=150:150",
            "/c/1.jpg"
        ]
    );
}

#[test]
fn thumbnail_fits_in_square_keeping_aspect() {
    let img = image::DynamicImage::new_rgb8(600, 200);
    let t = make_thumbnail(&img);
    assert_eq!((t.width(), t.height()), (150, 50));
    let tall = image::DynamicImage::new_rgb8(30, 90);
    let t = make_thumbnail(&tall);
    assert_eq!((t.width(), t.height()), (50, 150));
}
