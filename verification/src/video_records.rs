//! Checks and repairs of video records when courses are saved and loaded.
use vstd::prelude::*;
use crate::course::{
    VideoMetadata, opt_view, placeholder_prefix, placeholder_prefix_str, is_plain_video,
    same_record,
};
use crate::text::{decimal, push_decimal, push_str_to, starts_with_str};

verus! {

/// The watch URL of a YouTube video, with its playlist where it has one.
pub open spec fn watch_url(video_id: Seq<char>, playlist_id: Option<Seq<char>>) -> Seq<char> {
    match playlist_id {
        Some(p) => "https://www.youtube.com/watch?v="@ + video_id + "&list="@ + p,
        None => "https://www.youtube.com/watch?v="@ + video_id,
    }
}

/// Why a video record cannot be saved, or `None` where it can.
pub open spec fn save_problem(v: VideoMetadata, index: nat) -> Option<Seq<char>> {
    if v.is_local {
        None
    } else {
        match (v.video_id, v.source_url) {
            (None, None) => Some(
                "Cannot save YouTube video '"@ + v.title@ + "' at index "@ + decimal(index)
                    + ": missing video_id and source_url"@,
            ),
            (None, Some(url)) => if url@.len() == 0 {
                Some(
                    "YouTube video '"@ + v.title@ + "' at index "@ + decimal(index)
                        + " has empty source_url"@,
                )
            } else {
                None
            },
            (Some(id), Some(_)) => if placeholder_prefix().is_prefix_of(id@) {
                Some(
                    "Cannot save YouTube video '"@ + v.title@ + "' at index "@ + decimal(index)
                        + ": placeholder video_id"@,
                )
            } else {
                None
            },
            (Some(_), None) => None,
        }
    }
}

/// The source a record is saved with: a YouTube record with an id but no
/// URL gets its watch URL, a local record without a path gets its title
/// as path, and any other source stays.
pub open spec fn saved_source(v: VideoMetadata) -> Option<Seq<char>> {
    if !v.is_local && v.source_url is None && v.video_id is Some {
        Some(watch_url(v.video_id->0@, opt_view(v.playlist_id)))
    } else if v.is_local && v.source_url is None {
        Some(v.title@)
    } else {
        opt_view(v.source_url)
    }
}

/// `r` is `v` with possibly another source.
pub open spec fn same_but_source(r: VideoMetadata, v: VideoMetadata) -> bool {
    same_record(VideoMetadata { source_url: v.source_url, ..r }, v)
}

/// Builds the watch URL of a video.
fn build_watch_url(video_id: &String, playlist_id: &Option<String>) -> (r: String)
    ensures
        r@ == watch_url(video_id@, opt_view(*playlist_id)),
{
    let mut url = String::from_str("https://www.youtube.com/watch?v=");
    push_str_to(&mut url, video_id.as_str());
    match playlist_id {
        Some(p) => {
            push_str_to(&mut url, "&list=");
            push_str_to(&mut url, p.as_str());
        },
        None => {},
    }
    url
}

/// "<before><title>' at index <index><after>".
fn indexed_message(before: &str, title: &String, index: usize, after: &str) -> (r: String)
    ensures
        r@ == before@ + title@ + "' at index "@ + decimal(index as nat) + after@,
{
    let mut m = String::from_str(before);
    push_str_to(&mut m, title.as_str());
    push_str_to(&mut m, "' at index ");
    push_decimal(&mut m, index as u64);
    push_str_to(&mut m, after);
    m
}

/// Checks one record for saving and fills in a missing source.
fn validate_one(video: &VideoMetadata, index: usize) -> (r: Result<VideoMetadata, String>)
    ensures
        r is Ok <==> save_problem(*video, index as nat) is None,
        r matches Err(e) ==> save_problem(*video, index as nat) == Some(e@),
        r matches Ok(v) ==> same_but_source(v, *video) && opt_view(v.source_url) == saved_source(
            *video,
        ),
{
    let mut validated = video.duplicate();
    if !video.is_local {
        match (&video.video_id, &video.source_url) {
            (None, None) => {
                return Err(
                    indexed_message(
                        "Cannot save YouTube video '",
                        &video.title,
                        index,
                        ": missing video_id and source_url",
                    ),
                );
            },
            (Some(video_id), None) => {
                validated.source_url = Some(build_watch_url(video_id, &video.playlist_id));
            },
            (None, Some(url)) => {
                if url.unicode_len() == 0 {
                    return Err(
                        indexed_message("YouTube video '", &video.title, index, " has empty source_url"),
                    );
                }
            },
            (Some(video_id), Some(_)) => {
                let prefix = placeholder_prefix_str();
                if starts_with_str(video_id.as_str(), prefix.as_str()) {
                    return Err(
                        indexed_message(
                            "Cannot save YouTube video '",
                            &video.title,
                            index,
                            ": placeholder video_id",
                        ),
                    );
                }
            },
        }
    } else if video.source_url.is_none() {
        validated.source_url = Some(video.title.clone());
    }
    Ok(validated)
}

/// Checks the records of a course before it is saved: every YouTube record
/// needs an id or a URL, a URL without an id must not be empty, and an id
/// must not be a placeholder. Records missing a source get one (see
/// `saved_source`). The first problem, in order, is reported.
pub fn validate_video_metadata(videos: &[VideoMetadata]) -> (r: Result<Vec<VideoMetadata>, String>)
    ensures
        r is Ok <==> forall|i: int|
            0 <= i < videos@.len() ==> #[trigger] save_problem(videos@[i], i as nat) is None,
        r matches Ok(out) ==> out@.len() == videos@.len() && forall|i: int|
            0 <= i < videos@.len() ==> same_but_source(#[trigger] out@[i], videos@[i]) && opt_view(
                out@[i].source_url,
            ) == saved_source(videos@[i]),
        r matches Err(e) ==> exists|k: int|
            0 <= k < videos@.len() && save_problem(videos@[k], k as nat) == Some(e@) && forall|
                j: int,
            | 0 <= j < k ==> #[trigger] save_problem(videos@[j], j as nat) is None,
{
    let mut out: Vec<VideoMetadata> = Vec::new();
    let mut i: usize = 0;
    while i < videos.len()
        invariant
            i <= videos@.len(),
            out@.len() == i,
            forall|j: int| 0 <= j < i ==> #[trigger] save_problem(videos@[j], j as nat) is None,
            forall|j: int|
                0 <= j < i ==> same_but_source(#[trigger] out@[j], videos@[j]) && opt_view(
                    out@[j].source_url,
                ) == saved_source(videos@[j]),
        decreases videos.len() - i,
    {
        match validate_one(&videos[i], i) {
            Ok(v) => {
                out.push(v);
            },
            Err(e) => {
                let ghost k = i as int;
                assert(save_problem(videos@[k], k as nat) == Some(e@));
                assert(!(forall|j: int|
                    0 <= j < videos@.len() ==> #[trigger] save_problem(videos@[j], j as nat) is None));
                return Err(e);
            },
        }
        i = i + 1;
    }
    Ok(out)
}

/// The record a loaded video is repaired to at its position: a YouTube
/// record with neither id nor URL gets a placeholder id and URL and loses
/// its playlist; one with an id but no URL gets its watch URL; a local one
/// without a path gets its title as path. Every record takes its position
/// as original index.
pub open spec fn repaired_fields(
    r: VideoMetadata,
    v: VideoMetadata,
    index: nat,
) -> bool {
    let placeholder = placeholder_prefix() + decimal(index);
    &&& r.original_index == index
    &&& r.title == v.title
    &&& r.duration_seconds == v.duration_seconds
    &&& r.thumbnail_url == v.thumbnail_url
    &&& r.description == v.description
    &&& r.upload_date == v.upload_date
    &&& r.author == v.author
    &&& r.view_count == v.view_count
    &&& r.tags@ == v.tags@
    &&& r.is_local == v.is_local
    &&& if !v.is_local && v.video_id is None && v.source_url is None {
        &&& opt_view(r.video_id) == Some(placeholder)
        &&& opt_view(r.source_url) == Some("https://www.youtube.com/watch?v="@ + placeholder)
        &&& r.playlist_id is None
    } else if !v.is_local && v.video_id is Some && v.source_url is None {
        &&& r.video_id == v.video_id
        &&& r.playlist_id == v.playlist_id
        &&& opt_view(r.source_url) == Some(watch_url(v.video_id->0@, opt_view(v.playlist_id)))
    } else if v.is_local && v.source_url is None {
        &&& r.video_id == v.video_id
        &&& r.playlist_id == v.playlist_id
        &&& opt_view(r.source_url) == Some(v.title@)
    } else {
        &&& r.video_id == v.video_id
        &&& r.playlist_id == v.playlist_id
        &&& r.source_url == v.source_url
    }
}

/// Repairs one loaded record at its position.
fn repair_one(video: VideoMetadata, index: usize) -> (r: VideoMetadata)
    ensures
        repaired_fields(r, video, index as nat),
{
    let ghost v = video;
    let mut repaired = video;
    if !repaired.is_local && repaired.video_id.is_none() && repaired.source_url.is_none() {
        let mut id = placeholder_prefix_str();
        push_decimal(&mut id, index as u64);
        let mut url = String::from_str("https://www.youtube.com/watch?v=");
        push_str_to(&mut url, id.as_str());
        repaired.video_id = Some(id);
        repaired.source_url = Some(url);
        repaired.playlist_id = None;
    } else if !repaired.is_local && repaired.video_id.is_some() && repaired.source_url.is_none() {
        let url = match &repaired.video_id {
            Some(video_id) => build_watch_url(video_id, &repaired.playlist_id),
            None => String::new(),
        };
        repaired.source_url = Some(url);
    } else if repaired.is_local && repaired.source_url.is_none() {
        repaired.source_url = Some(repaired.title.clone());
    }
    repaired.original_index = index;
    repaired
}

/// Repairs the video records of a course loaded from the legacy layout and
/// pads them with local records for titles beyond the last record, so that
/// there is a record per title. Never fails.
pub fn validate_and_repair_loaded_metadata(
    parsed_videos: Vec<VideoMetadata>,
    raw_titles: &[String],
) -> (r: Vec<VideoMetadata>)
    ensures
        r@.len() == if parsed_videos@.len() >= raw_titles@.len() {
            parsed_videos@.len()
        } else {
            raw_titles@.len()
        },
        forall|i: int|
            0 <= i < parsed_videos@.len() ==> repaired_fields(
                #[trigger] r@[i],
                parsed_videos@[i],
                i as nat,
            ),
        forall|i: int|
            parsed_videos@.len() <= i < raw_titles@.len() ==> is_plain_video(
                #[trigger] r@[i],
                raw_titles@[i]@,
                Some(raw_titles@[i]@),
                None,
                None,
                i as nat,
                true,
            ),
{
    let ghost parsed = parsed_videos@;
    let mut repaired: Vec<VideoMetadata> = Vec::new();
    let mut index: usize = 0;
    let n = parsed_videos.len();
    while index < n
        invariant
            n == parsed.len(),
            parsed_videos@ == parsed,
            index <= n,
            repaired@.len() == index,
            forall|j: int| 0 <= j < index ==> repaired_fields(#[trigger] repaired@[j], parsed[j], j as nat),
        decreases n - index,
    {
        let video = parsed_videos[index].duplicate();
        repaired.push(repair_one(video, index));
        index = index + 1;
    }
    let mut i: usize = n;
    while i < raw_titles.len()
        invariant
            n == parsed.len(),
            n <= i,
            i >= raw_titles@.len() ==> i == n || i == raw_titles@.len(),
            repaired@.len() == i,
            forall|j: int| 0 <= j < n ==> repaired_fields(#[trigger] repaired@[j], parsed[j], j as nat),
            forall|j: int|
                n <= j < i ==> is_plain_video(
                    #[trigger] repaired@[j],
                    raw_titles@[j]@,
                    Some(raw_titles@[j]@),
                    None,
                    None,
                    j as nat,
                    true,
                ),
        decreases raw_titles.len() - i,
    {
        repaired.push(
            VideoMetadata::new_local_with_index(raw_titles[i].clone(), raw_titles[i].clone(), i),
        );
        i = i + 1;
    }
    repaired
}

/// One local record per title, with the title as path, at its position.
pub fn create_fallback_video_metadata(raw_titles: &[String]) -> (r: Vec<VideoMetadata>)
    ensures
        r@.len() == raw_titles@.len(),
        forall|i: int|
            0 <= i < raw_titles@.len() ==> is_plain_video(
                #[trigger] r@[i],
                raw_titles@[i]@,
                Some(raw_titles@[i]@),
                None,
                None,
                i as nat,
                true,
            ),
{
    let mut r: Vec<VideoMetadata> = Vec::new();
    let mut i: usize = 0;
    while i < raw_titles.len()
        invariant
            i <= raw_titles@.len(),
            r@.len() == i,
            forall|j: int|
                0 <= j < i ==> is_plain_video(
                    #[trigger] r@[j],
                    raw_titles@[j]@,
                    Some(raw_titles@[j]@),
                    None,
                    None,
                    j as nat,
                    true,
                ),
        decreases raw_titles.len() - i,
    {
        r.push(VideoMetadata::new_local_with_index(raw_titles[i].clone(), raw_titles[i].clone(), i));
        i = i + 1;
    }
    r
}

/// The records a course from the legacy layout is loaded with: the
/// repaired parsed records where the stored records could be read, followed
/// by one local record for each title beyond them; else one local record
/// per title.
pub fn choose_loaded_videos(parsed: Option<Vec<VideoMetadata>>, raw_titles: &[String]) -> (r: Vec<
    VideoMetadata,
>)
    ensures
        parsed is None ==> r@.len() == raw_titles@.len() && forall|i: int|
            0 <= i < raw_titles@.len() ==> is_plain_video(
                #[trigger] r@[i],
                raw_titles@[i]@,
                Some(raw_titles@[i]@),
                None,
                None,
                i as nat,
                true,
            ),
        parsed matches Some(p) ==> r@.len() == if p@.len() >= raw_titles@.len() {
            p@.len()
        } else {
            raw_titles@.len()
        },
        parsed matches Some(p) ==> forall|i: int|
            0 <= i < p@.len() ==> repaired_fields(#[trigger] r@[i], p@[i], i as nat),
        parsed matches Some(p) ==> forall|i: int|
            p@.len() <= i < raw_titles@.len() ==> is_plain_video(
                #[trigger] r@[i],
                raw_titles@[i]@,
                Some(raw_titles@[i]@),
                None,
                None,
                i as nat,
                true,
            ),
{
    match parsed {
        Some(p) => validate_and_repair_loaded_metadata(p, raw_titles),
        None => create_fallback_video_metadata(raw_titles),
    }
}

} // verus!
