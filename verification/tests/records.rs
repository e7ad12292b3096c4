use hlmv::records::{
    database_path, info_from_lookup, recent_limit, record_was_touched, update_outcome, FileRecord,
    MediaInfo, NoSuchRecord,
};

fn rec() -> FileRecord {
    FileRecord { id: 4, file_path: "films/a.mp4".to_string(), timestamp: 95, volume: 40, last_accessed: 1700000000 }
}

#[test]
fn media_info_of_record() {
    assert_eq!(rec().into_media_info(), MediaInfo { timestamp: 95, volume: 40 });
}

#[test]
fn media_info_lookup_outcomes() {
    assert_eq!(info_from_lookup(Some(Some(rec()))), Some(MediaInfo { timestamp: 95, volume: 40 }));
    assert_eq!(info_from_lookup(Some(None)), None);
    assert_eq!(info_from_lookup(None), None);
}

#[test]
fn touched_rows_decide_the_read() {
    assert!(!record_was_touched(0));
    assert!(record_was_touched(1));
}

#[test]
fn update_without_row_is_refused() {
    assert_eq!(update_outcome(0), Err(NoSuchRecord));
    assert_eq!(update_outcome(1), Ok(()));
}

#[test]
fn recent_limit_values() {
    assert_eq!(recent_limit(10), 10);
    assert_eq!(recent_limit(0), 0);
    assert_eq!(recent_limit(usize::MAX), -1);
}

#[test]
fn database_file_location() {
    assert_eq!(database_path("/opt/app/config"), "/opt/app/config/db.splite");
}
