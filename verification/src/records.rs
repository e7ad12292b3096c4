use vstd::prelude::*;

verus! {

/// A row of the playback history: a media file, where its playback stands and
/// when it was last opened (seconds since the Unix epoch).
#[derive(Debug, Clone)]
pub struct FileRecord {
    pub id: i32,
    pub file_path: String,
    pub timestamp: i64,
    pub volume: i32,
    pub last_accessed: i64,
}

/// The playback state that the player asks for and sends back: the position
/// in seconds and the volume.
#[derive(Debug, Clone, Copy, PartialEq, Eq, Structural)]
pub struct MediaInfo {
    pub timestamp: i64,
    pub volume: i32,
}

/// The playback state that the player sends for a file given by its path.
#[derive(Debug, Clone)]
pub struct PlayerConfig {
    pub path: String,
    pub volume: i32,
    pub current_time: i64,
}

impl FileRecord {
    /// The playback state kept in the record.
    pub fn into_media_info(self) -> (r: MediaInfo)
        ensures
            r == (MediaInfo { timestamp: self.timestamp, volume: self.volume }),
    {
        MediaInfo { timestamp: self.timestamp, volume: self.volume }
    }
}

/// The playback state answered for a record id, from the outcome of looking the
/// record up: nothing where the lookup failed (`None`) or found no record.
pub fn info_from_lookup(found: Option<Option<FileRecord>>) -> (r: Option<MediaInfo>)
    ensures
        r == (match found {
            Some(Some(rec)) => Some(MediaInfo { timestamp: rec.timestamp, volume: rec.volume }),
            _ => None,
        }),
{
    match found {
        Some(Some(rec)) => Some(rec.into_media_info()),
        _ => None,
    }
}

/// A lookup that first marks the record as accessed reads the record only where
/// the mark changed a row; otherwise there is no such record.
pub fn record_was_touched(updated_rows: usize) -> (r: bool)
    ensures
        r == (updated_rows != 0),
{
    updated_rows != 0
}

/// An update by id that changed no row is refused: there is no record with that id.
#[derive(Debug, Clone, Copy, PartialEq, Eq, Structural)]
pub struct NoSuchRecord;

/// The outcome of an update by id, from the number of rows it changed.
pub fn update_outcome(updated_rows: usize) -> (r: Result<(), NoSuchRecord>)
    ensures
        r is Ok <==> updated_rows != 0,
{
    if updated_rows == 0 {
        Err(NoSuchRecord)
    } else {
        Ok(())
    }
}

/// The row limit handed to the store for the `n` most recent records: `n` as a
/// 64-bit signed integer, wrapping as `n as i64` does (a negative limit means no
/// limit to the store).
pub fn recent_limit(n: usize) -> (r: i64)
    ensures
        r == n as i64,
{
    n as i64
}

/// The database file kept in the configuration directory.
pub fn database_path(config_dir: &str) -> (r: String)
    ensures
        r@ == config_dir@ + "/db.splite"@,
{
    let mut s = String::from_str(config_dir);
    s.append("/db.splite");
    s
}

} // verus!
