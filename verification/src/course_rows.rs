//! The rows a course's videos, modules and sections are stored as, and how
//! they are read back. Read back, a stored record gives the record again
//! wherever the columns can hold it exactly.
use vstd::prelude::*;
use crate::course::{DifficultyLevel, Module, Section, VideoMetadata, clone_opt_string, clone_strings};
use crate::duration::Duration;
use crate::ieee::SinglePrecision;
use crate::notes::{json_string_list, parse_string_list, row_tags, string_list_json, write_string_list};
use crate::time::{UtcDateTime, chrono_accepts_timestamp, utc_from_timestamp};

verus! {

/// The columns of a stored video, in table order after the course id.
#[derive(Clone, Debug, PartialEq)]
pub struct VideoRow {
    pub video_index: i64,
    pub title: String,
    pub source_url: Option<String>,
    pub video_id: Option<String>,
    pub playlist_id: Option<String>,
    pub original_index: i64,
    pub duration_seconds: Option<crate::ieee::DoublePrecision>,
    pub thumbnail_url: Option<String>,
    pub description: Option<String>,
    /// Epoch seconds of the upload.
    pub upload_date: Option<i64>,
    pub author: Option<String>,
    pub view_count: Option<i64>,
    /// The tags as a JSON list; `None` where the column is empty.
    pub tags: Option<String>,
    /// 1 for a local file, 0 for a YouTube video.
    pub is_local: i64,
}

/// The upload instant a stored epoch second gives: that second, where
/// chrono represents it.
pub open spec fn stored_upload(ts: Option<i64>) -> Option<UtcDateTime> {
    match ts {
        Some(t) => if chrono_accepts_timestamp(t, 0) {
            Some(UtcDateTime { secs: t, nanos: 0 })
        } else {
            None
        },
        None => None,
    }
}

/// Whether video record `v` is what a row reads as: the texts as stored,
/// the integers converted back, the upload instant of the stored second,
/// the tags of the tags column, local for a nonzero flag.
pub open spec fn reads_as_video(row: VideoRow, v: VideoMetadata) -> bool {
    &&& v.title == row.title
    &&& v.source_url == row.source_url
    &&& v.video_id == row.video_id
    &&& v.playlist_id == row.playlist_id
    &&& v.original_index == row.original_index as usize
    &&& v.duration_seconds == row.duration_seconds
    &&& v.thumbnail_url == row.thumbnail_url
    &&& v.description == row.description
    &&& v.upload_date == stored_upload(row.upload_date)
    &&& v.author == row.author
    &&& v.view_count == match row.view_count {
        Some(c) => Some(c as u64),
        None => None,
    }
    &&& v.tags@.map_values(|x: String| x@) == row_tags(row.tags)
    &&& v.is_local == (row.is_local != 0)
}

/// Whether a video record is stored exactly: its upload instant, if any,
/// falls on a whole second that chrono represents.
pub open spec fn video_stored_exactly(v: VideoMetadata) -> bool {
    v.upload_date matches Some(d) ==> d.nanos == 0 && chrono_accepts_timestamp(d.secs, 0)
}

fn usize_to_i64(x: usize) -> (r: i64)
    ensures
        r == x as i64,
        r as usize == x,
{
    assert((x as i64) as usize == x) by (bit_vector);
    x as i64
}

fn u64_to_i64(x: u64) -> (r: i64)
    ensures
        r == x as i64,
        r as u64 == x,
{
    assert((x as i64) as u64 == x) by (bit_vector);
    x as i64
}

fn i64_to_usize(x: i64) -> (r: usize)
    ensures
        r == x as usize,
{
    x as usize
}

fn i64_to_u64(x: i64) -> (r: u64)
    ensures
        r == x as u64,
{
    x as u64
}

/// The row a video is stored as at its position in the course.
pub fn video_row(video_index: usize, v: &VideoMetadata) -> (row: VideoRow)
    ensures
        row.video_index == video_index as i64,
        row.title == v.title,
        row.source_url == v.source_url,
        row.video_id == v.video_id,
        row.playlist_id == v.playlist_id,
        row.original_index == v.original_index as i64,
        row.duration_seconds == v.duration_seconds,
        row.thumbnail_url == v.thumbnail_url,
        row.description == v.description,
        row.upload_date == match v.upload_date {
            Some(d) => Some(d.secs),
            None => None::<i64>,
        },
        row.author == v.author,
        row.view_count == match v.view_count {
            Some(c) => Some(c as i64),
            None => None::<i64>,
        },
        row.tags matches Some(j) && j@ == string_list_json(v.tags@.map_values(|x: String| x@)),
        row.is_local == if v.is_local {
            1i64
        } else {
            0i64
        },
        video_stored_exactly(*v) ==> reads_as_video(row, *v),
{
    let upload_date = match v.upload_date {
        Some(d) => Some(d.secs),
        None => None,
    };
    let view_count = match v.view_count {
        Some(c) => Some(u64_to_i64(c)),
        None => None,
    };
    let tags = write_string_list(&v.tags);
    let row = VideoRow {
        video_index: usize_to_i64(video_index),
        title: v.title.clone(),
        source_url: clone_opt_string(&v.source_url),
        video_id: clone_opt_string(&v.video_id),
        playlist_id: clone_opt_string(&v.playlist_id),
        original_index: usize_to_i64(v.original_index),
        duration_seconds: v.duration_seconds,
        thumbnail_url: clone_opt_string(&v.thumbnail_url),
        description: clone_opt_string(&v.description),
        upload_date,
        author: clone_opt_string(&v.author),
        view_count,
        tags: Some(tags),
        is_local: if v.is_local {
            1
        } else {
            0
        },
    };
    proof {
        if let Some(d) = v.upload_date {
            if video_stored_exactly(*v) {
                assert(stored_upload(row.upload_date) == Some(d));
            }
        }
    }
    row
}

/// Reads a video from its row. A stored second chrono cannot represent
/// gives no upload instant, and unreadable tags give no tags.
pub fn video_from_row(row: VideoRow) -> (v: VideoMetadata)
    ensures
        reads_as_video(row, v),
{
    let upload_date = match row.upload_date {
        Some(ts) => utc_from_timestamp(ts, 0),
        None => None,
    };
    let view_count = match row.view_count {
        Some(c) => Some(i64_to_u64(c)),
        None => None,
    };
    let tags = match &row.tags {
        Some(json) => match parse_string_list(json.as_str()) {
            Some(list) => list,
            None => {
                let empty: Vec<String> = Vec::new();
                assert(empty@.map_values(|x: String| x@) =~= seq![]);
                empty
            },
        },
        None => {
            let empty: Vec<String> = Vec::new();
            assert(empty@.map_values(|x: String| x@) =~= seq![]);
            empty
        },
    };
    VideoMetadata {
        title: row.title,
        source_url: row.source_url,
        video_id: row.video_id,
        playlist_id: row.playlist_id,
        original_index: i64_to_usize(row.original_index),
        duration_seconds: row.duration_seconds,
        thumbnail_url: row.thumbnail_url,
        description: row.description,
        upload_date,
        author: row.author,
        view_count,
        tags,
        is_local: row.is_local != 0,
    }
}

/// Two video records a row reads as agree in every field (tags by their
/// text): reading a row back is a function of the row.
pub proof fn lemma_reads_as_video_unique(row: VideoRow, a: VideoMetadata, b: VideoMetadata)
    requires
        reads_as_video(row, a),
        reads_as_video(row, b),
    ensures
        a.title == b.title,
        a.source_url == b.source_url,
        a.video_id == b.video_id,
        a.playlist_id == b.playlist_id,
        a.original_index == b.original_index,
        a.duration_seconds == b.duration_seconds,
        a.thumbnail_url == b.thumbnail_url,
        a.description == b.description,
        a.upload_date == b.upload_date,
        a.author == b.author,
        a.view_count == b.view_count,
        a.tags@.map_values(|x: String| x@) == b.tags@.map_values(|x: String| x@),
        a.is_local == b.is_local,
{
}

/// The columns of a stored section: its title, video position and whole
/// seconds of duration.
#[derive(Clone, Debug, PartialEq)]
pub struct SectionRow {
    pub title: String,
    pub video_index: i64,
    pub duration_secs: i64,
}

/// The row a section is stored as. Only whole seconds of its duration are
/// kept.
pub fn section_row(s: &Section) -> (row: SectionRow)
    ensures
        row.title == s.title,
        row.video_index == s.video_index as i64,
        row.duration_secs as u64 == s.duration@ / 1_000_000_000,
{
    SectionRow {
        title: s.title.clone(),
        video_index: usize_to_i64(s.video_index),
        duration_secs: u64_to_i64(s.duration.as_secs()),
    }
}

/// Reads a section from its row.
pub fn section_from_row(row: SectionRow) -> (s: Section)
    ensures
        s.title == row.title,
        s.video_index == row.video_index as usize,
        s.duration@ == (row.duration_secs as u64) as nat * 1_000_000_000,
{
    Section {
        title: row.title,
        video_index: i64_to_usize(row.video_index),
        duration: Duration::from_secs(i64_to_u64(row.duration_secs)),
    }
}

/// A section stored and read back is the same section, where its duration
/// is a whole number of seconds.
pub proof fn lemma_section_round_trip(s: Section, row: SectionRow, back: Section)
    requires
        s.duration@ % 1_000_000_000 == 0,
        row.title == s.title,
        row.video_index == s.video_index as i64,
        row.duration_secs as u64 == s.duration@ / 1_000_000_000,
        back.title == row.title,
        back.video_index == row.video_index as usize,
        back.duration@ == (row.duration_secs as u64) as nat * 1_000_000_000,
    ensures
        back.title == s.title,
        back.video_index == s.video_index,
        back.duration@ == s.duration@,
{
    let vi = s.video_index;
    assert((vi as i64) as usize == vi) by (bit_vector);
}

/// The columns of a stored module besides its sections: title, whole
/// seconds of total duration, similarity score, keywords as a JSON list
/// (`None` where the column is empty) and the difficulty level already
/// read from its column.
#[derive(Clone, Debug, PartialEq)]
pub struct ModuleRow {
    pub title: String,
    pub total_duration_secs: i64,
    pub similarity_score: Option<SinglePrecision>,
    pub topic_keywords: Option<String>,
    pub difficulty_level: Option<DifficultyLevel>,
}

/// The row a module is stored as, without its sections.
pub fn module_row(m: &Module) -> (row: ModuleRow)
    ensures
        row.title == m.title,
        row.total_duration_secs as u64 == m.total_duration@ / 1_000_000_000,
        row.similarity_score == m.similarity_score,
        row.topic_keywords matches Some(j) && j@ == string_list_json(
            m.topic_keywords@.map_values(|x: String| x@),
        ),
        json_string_list(row.topic_keywords->0@) == Some(m.topic_keywords@.map_values(|x: String| x@)),
        row.difficulty_level == m.difficulty_level,
{
    ModuleRow {
        title: m.title.clone(),
        total_duration_secs: u64_to_i64(m.total_duration.as_secs()),
        similarity_score: m.similarity_score,
        topic_keywords: Some(write_string_list(&m.topic_keywords)),
        difficulty_level: m.difficulty_level,
    }
}

/// Reads a module from its row and its sections, read in section order.
/// Unreadable keywords give none.
pub fn module_from_row(row: ModuleRow, sections: Vec<Section>) -> (m: Module)
    ensures
        m.title == row.title,
        m.sections == sections,
        m.total_duration@ == (row.total_duration_secs as u64) as nat * 1_000_000_000,
        m.similarity_score == row.similarity_score,
        m.topic_keywords@.map_values(|x: String| x@) == row_tags(row.topic_keywords),
        m.difficulty_level == row.difficulty_level,
{
    let topic_keywords = match &row.topic_keywords {
        Some(json) => match parse_string_list(json.as_str()) {
            Some(list) => list,
            None => {
                let empty: Vec<String> = Vec::new();
                assert(empty@.map_values(|x: String| x@) =~= seq![]);
                empty
            },
        },
        None => {
            let empty: Vec<String> = Vec::new();
            assert(empty@.map_values(|x: String| x@) =~= seq![]);
            empty
        },
    };
    Module {
        title: row.title,
        sections,
        total_duration: Duration::from_secs(i64_to_u64(row.total_duration_secs)),
        similarity_score: row.similarity_score,
        topic_keywords,
        difficulty_level: row.difficulty_level,
    }
}

} // verus!
