//! The course model: courses, their videos, and the module/section
//! structure produced for them.
use vstd::prelude::*;
use crate::duration::{Duration, total_nanos, max_duration_nanos, sum_durations};
use crate::ids::Uuid;
use crate::ieee::{SinglePrecision};
use crate::text::{is_blank, is_blank_str, starts_with_str};
use crate::time::{UtcDateTime, utc_now};
use crate::clustering::ClusteringMetadata;

verus! {

/// The prefix that marks a stand-in YouTube video id written during repair.
pub open spec fn placeholder_prefix() -> Seq<char> {
    seq!['P', 'L', 'A', 'C', 'E', 'H', 'O', 'L', 'D', 'E', 'R', '_']
}

/// The text `"PLACEHOLDER_"`.
pub fn placeholder_prefix_str() -> (s: String)
    ensures
        s@ == placeholder_prefix(),
{
    let s = String::from_str("PLACEHOLDER_");
    proof {
        reveal_strlit("PLACEHOLDER_");
    }
    assert(s@ =~= placeholder_prefix());
    s
}

/// Where a video can be played from.
#[derive(Clone, Debug, PartialEq)]
pub enum VideoSource {
    Local { path: String, title: String },
    YouTube { video_id: String, playlist_id: Option<String>, title: String },
}

/// Content difficulty levels, ordered from easiest to hardest.
#[derive(Clone, Copy, Debug, PartialEq, Eq, PartialOrd, Ord, Hash, Structural)]
pub enum DifficultyLevel {
    Beginner,
    Intermediate,
    Advanced,
    Expert,
}

/// Metadata of one video of a course.
#[derive(Clone, Debug, PartialEq)]
pub struct VideoMetadata {
    pub title: String,
    /// YouTube URL or local file path.
    pub source_url: Option<String>,
    pub video_id: Option<String>,
    /// Playlist the video was imported from, kept for playback context.
    pub playlist_id: Option<String>,
    /// Position in the imported order.
    pub original_index: usize,
    pub duration_seconds: Option<crate::ieee::DoublePrecision>,
    pub thumbnail_url: Option<String>,
    pub description: Option<String>,
    pub upload_date: Option<UtcDateTime>,
    pub author: Option<String>,
    pub view_count: Option<u64>,
    pub tags: Vec<String>,
    /// `true` for local files, `false` for YouTube videos.
    pub is_local: bool,
}

/// One video placed in a module.
#[derive(Clone, Debug, PartialEq)]
pub struct Section {
    pub title: String,
    pub video_index: usize,
    pub duration: Duration,
}

/// A group of sections.
#[derive(Clone, Debug, PartialEq)]
pub struct Module {
    pub title: String,
    pub sections: Vec<Section>,
    pub total_duration: Duration,
    pub similarity_score: Option<SinglePrecision>,
    pub topic_keywords: Vec<String>,
    pub difficulty_level: Option<DifficultyLevel>,
}

/// Summary data of a course structure.
#[derive(Clone, Debug, PartialEq)]
pub struct StructureMetadata {
    pub total_videos: usize,
    pub total_duration: Duration,
    pub estimated_duration_hours: Option<SinglePrecision>,
    pub difficulty_level: Option<String>,
    pub structure_quality_score: Option<SinglePrecision>,
    pub content_coherence_score: Option<SinglePrecision>,
    /// "Sequential", "Clustered", "Mixed" or "Ambiguous".
    pub content_type_detected: Option<String>,
    /// Whether the content follows its original order.
    pub original_order_preserved: Option<bool>,
    pub processing_strategy_used: Option<String>,
}

/// The modules of a course and how they were produced.
#[derive(Clone, Debug, PartialEq)]
pub struct CourseStructure {
    pub modules: Vec<Module>,
    pub metadata: StructureMetadata,
    pub clustering_metadata: Option<ClusteringMetadata>,
}

/// A course: its videos and, once structured, its modules.
#[derive(Clone, Debug, PartialEq)]
pub struct Course {
    pub id: Uuid,
    pub name: String,
    pub created_at: UtcDateTime,
    /// Video titles, kept for older stored courses.
    pub raw_titles: Vec<String>,
    pub videos: Vec<VideoMetadata>,
    pub structure: Option<CourseStructure>,
}

/// A user note on a course, or on one video of it.
#[derive(Clone, Debug, PartialEq)]
pub struct Note {
    pub id: Uuid,
    pub course_id: Uuid,
    /// `None` for course-level notes.
    pub video_id: Option<Uuid>,
    pub video_index: Option<usize>,
    pub content: String,
    /// Seconds into the video.
    pub timestamp: Option<u32>,
    pub tags: Vec<String>,
    pub created_at: UtcDateTime,
    pub updated_at: UtcDateTime,
}

/// Views of optional strings.
pub open spec fn opt_view(o: Option<String>) -> Option<Seq<char>> {
    match o {
        Some(s) => Some(s@),
        None => None,
    }
}

/// A video record with only a title, a source, a position and a kind;
/// every other field is empty.
pub open spec fn is_plain_video(
    v: VideoMetadata,
    title: Seq<char>,
    source: Option<Seq<char>>,
    video_id: Option<Seq<char>>,
    playlist_id: Option<Seq<char>>,
    index: nat,
    is_local: bool,
) -> bool {
    &&& v.title@ == title
    &&& opt_view(v.source_url) == source
    &&& opt_view(v.video_id) == video_id
    &&& opt_view(v.playlist_id) == playlist_id
    &&& v.original_index == index
    &&& v.duration_seconds is None
    &&& v.thumbnail_url is None
    &&& v.description is None
    &&& v.upload_date is None
    &&& v.author is None
    &&& v.view_count is None
    &&& v.tags@.len() == 0
    &&& v.is_local == is_local
}

/// Copies an optional string.
pub fn clone_opt_string(o: &Option<String>) -> (r: Option<String>)
    ensures
        r == *o,
{
    match o {
        Some(s) => Some(s.clone()),
        None => None,
    }
}

/// Copies a list of strings.
pub fn clone_strings(v: &Vec<String>) -> (r: Vec<String>)
    ensures
        r@ == v@,
{
    let mut r: Vec<String> = Vec::new();
    let mut i: usize = 0;
    while i < v.len()
        invariant
            i <= v@.len(),
            r@.len() == i,
            forall|j: int| 0 <= j < i ==> #[trigger] r@[j] == v@[j],
        decreases v.len() - i,
    {
        r.push(v[i].clone());
        i = i + 1;
    }
    assert(r@ =~= v@);
    r
}

/// Two records hold the same values (lists compared by contents).
pub open spec fn same_record(a: VideoMetadata, b: VideoMetadata) -> bool {
    &&& a.title == b.title
    &&& a.source_url == b.source_url
    &&& a.video_id == b.video_id
    &&& a.playlist_id == b.playlist_id
    &&& a.original_index == b.original_index
    &&& a.duration_seconds == b.duration_seconds
    &&& a.thumbnail_url == b.thumbnail_url
    &&& a.description == b.description
    &&& a.upload_date == b.upload_date
    &&& a.author == b.author
    &&& a.view_count == b.view_count
    &&& a.tags@ == b.tags@
    &&& a.is_local == b.is_local
}

impl VideoMetadata {
    /// A copy of the record.
    pub fn duplicate(&self) -> (r: VideoMetadata)
        ensures
            same_record(r, *self),
    {
        VideoMetadata {
            title: self.title.clone(),
            source_url: clone_opt_string(&self.source_url),
            video_id: clone_opt_string(&self.video_id),
            playlist_id: clone_opt_string(&self.playlist_id),
            original_index: self.original_index,
            duration_seconds: self.duration_seconds,
            thumbnail_url: clone_opt_string(&self.thumbnail_url),
            description: clone_opt_string(&self.description),
            upload_date: self.upload_date,
            author: clone_opt_string(&self.author),
            view_count: self.view_count,
            tags: clone_strings(&self.tags),
            is_local: self.is_local,
        }
    }
}

/// Whether the video fields that identify a source are complete
/// (`is_metadata_complete`).
pub open spec fn metadata_complete(v: VideoMetadata) -> bool {
    if v.is_local {
        !is_blank(v.title@) && (v.source_url matches Some(u) && !is_blank(u@))
    } else {
        &&& !is_blank(v.title@)
        &&& (v.video_id matches Some(id) && !is_blank(id@) && !placeholder_prefix().is_prefix_of(
            id@,
        ))
        &&& (v.source_url matches Some(u) && !is_blank(u@))
    }
}

/// The message `validate_metadata` reports for a video, or `None` where the
/// video is valid.
pub open spec fn metadata_problem(v: VideoMetadata) -> Option<Seq<char>> {
    if is_blank(v.title@) {
        Some("Video title is empty"@)
    } else if v.is_local {
        match v.source_url {
            None => Some("Local video missing file path"@),
            Some(p) => if is_blank(p@) {
                Some("Local video has empty file path"@)
            } else {
                None
            },
        }
    } else {
        match v.video_id {
            None => Some("YouTube video missing video_id"@),
            Some(id) => if is_blank(id@) {
                Some("YouTube video has empty video_id"@)
            } else if placeholder_prefix().is_prefix_of(id@) {
                Some("YouTube video has placeholder video_id"@)
            } else {
                match v.source_url {
                    None => Some("YouTube video missing source URL"@),
                    Some(u) => if is_blank(u@) {
                        Some("YouTube video has empty source URL"@)
                    } else {
                        None
                    },
                }
            },
        }
    }
}

/// The playback source of a video, or `None` where it has none
/// (`get_video_source`).
pub open spec fn video_source_of(v: VideoMetadata) -> Option<VideoSource> {
    if v.is_local {
        match v.source_url {
            Some(p) => if !is_blank(p@) {
                Some(VideoSource::Local { path: p, title: v.title })
            } else {
                None
            },
            None => None,
        }
    } else {
        match v.video_id {
            Some(id) => if !is_blank(id@) && !placeholder_prefix().is_prefix_of(id@) {
                Some(VideoSource::YouTube { video_id: id, playlist_id: v.playlist_id, title: v.title })
            } else {
                None
            },
            None => None,
        }
    }
}

/// Whether a source value and a video agree up to copies of their strings.
pub open spec fn source_matches(r: VideoSource, expected: VideoSource) -> bool {
    match (r, expected) {
        (VideoSource::Local { path: p1, title: t1 }, VideoSource::Local { path: p2, title: t2 }) => {
            p1@ == p2@ && t1@ == t2@
        },
        (
            VideoSource::YouTube { video_id: v1, playlist_id: l1, title: t1 },
            VideoSource::YouTube { video_id: v2, playlist_id: l2, title: t2 },
        ) => v1@ == v2@ && opt_view(l1) == opt_view(l2) && t1@ == t2@,
        _ => false,
    }
}

/// Whether `id` is a usable YouTube id: not blank and not a placeholder.
fn is_usable_video_id(id: &String) -> (r: bool)
    ensures
        r == (!is_blank(id@) && !placeholder_prefix().is_prefix_of(id@)),
{
    let prefix = placeholder_prefix_str();
    !is_blank_str(id.as_str()) && !starts_with_str(id.as_str(), prefix.as_str())
}

impl VideoMetadata {
    /// A YouTube video with an id and URL.
    pub fn new_youtube(title: String, video_id: String, url: String) -> (v: VideoMetadata)
        ensures
            is_plain_video(v, title@, Some(url@), Some(video_id@), None, 0, false),
    {
        VideoMetadata {
            title,
            source_url: Some(url),
            video_id: Some(video_id),
            playlist_id: None,
            original_index: 0,
            duration_seconds: None,
            thumbnail_url: None,
            description: None,
            upload_date: None,
            author: None,
            view_count: None,
            tags: Vec::new(),
            is_local: false,
        }
    }

    /// A YouTube video that remembers its playlist and position.
    pub fn new_youtube_with_playlist(
        title: String,
        video_id: String,
        url: String,
        playlist_id: Option<String>,
        original_index: usize,
    ) -> (v: VideoMetadata)
        ensures
            is_plain_video(
                v,
                title@,
                Some(url@),
                Some(video_id@),
                opt_view(playlist_id),
                original_index as nat,
                false,
            ),
    {
        VideoMetadata {
            title,
            source_url: Some(url),
            video_id: Some(video_id),
            playlist_id,
            original_index,
            duration_seconds: None,
            thumbnail_url: None,
            description: None,
            upload_date: None,
            author: None,
            view_count: None,
            tags: Vec::new(),
            is_local: false,
        }
    }

    /// A local video file.
    pub fn new_local(title: String, file_path: String) -> (v: VideoMetadata)
        ensures
            is_plain_video(v, title@, Some(file_path@), None, None, 0, true),
    {
        VideoMetadata::new_local_with_index(title, file_path, 0)
    }

    /// A local video file at a position of the imported order.
    pub fn new_local_with_index(title: String, file_path: String, original_index: usize) -> (v:
        VideoMetadata)
        ensures
            is_plain_video(v, title@, Some(file_path@), None, None, original_index as nat, true),
    {
        VideoMetadata {
            title,
            source_url: Some(file_path),
            video_id: None,
            playlist_id: None,
            original_index,
            duration_seconds: None,
            thumbnail_url: None,
            description: None,
            upload_date: None,
            author: None,
            view_count: None,
            tags: Vec::new(),
            is_local: true,
        }
    }

    /// A YouTube video is one that is not local and has an id.
    pub fn is_youtube(&self) -> (r: bool)
        ensures
            r == (!self.is_local && self.video_id is Some),
    {
        !self.is_local && self.video_id.is_some()
    }

    /// Where the video can be played from, if anywhere.
    pub fn get_video_source(&self) -> (r: Option<VideoSource>)
        ensures
            r is Some <==> video_source_of(*self) is Some,
            r matches Some(s) ==> source_matches(s, video_source_of(*self)->0),
    {
        if self.is_local {
            match &self.source_url {
                Some(path) => {
                    if !is_blank_str(path.as_str()) {
                        Some(VideoSource::Local { path: path.clone(), title: self.title.clone() })
                    } else {
                        None
                    }
                },
                None => None,
            }
        } else {
            match &self.video_id {
                Some(video_id) => {
                    if is_usable_video_id(video_id) {
                        Some(
                            VideoSource::YouTube {
                                video_id: video_id.clone(),
                                playlist_id: clone_opt_string(&self.playlist_id),
                                title: self.title.clone(),
                            },
                        )
                    } else {
                        None
                    }
                },
                None => None,
            }
        }
    }

    /// Whether the fields a video of its kind needs are present.
    pub fn is_metadata_complete(&self) -> (r: bool)
        ensures
            r == metadata_complete(*self),
    {
        if is_blank_str(self.title.as_str()) {
            return false;
        }
        let has_source = match &self.source_url {
            Some(url) => !is_blank_str(url.as_str()),
            None => false,
        };
        if self.is_local {
            has_source
        } else {
            let has_id = match &self.video_id {
                Some(id) => is_usable_video_id(id),
                None => false,
            };
            has_id && has_source
        }
    }

    /// Checks the fields a video of its kind needs and reports the first
    /// problem found.
    pub fn validate_metadata(&self) -> (r: Result<(), String>)
        ensures
            r is Ok <==> metadata_problem(*self) is None,
            r matches Err(e) ==> metadata_problem(*self) == Some(e@),
    {
        if is_blank_str(self.title.as_str()) {
            return Err(String::from_str("Video title is empty"));
        }
        if self.is_local {
            match &self.source_url {
                None => return Err(String::from_str("Local video missing file path")),
                Some(path) => {
                    if is_blank_str(path.as_str()) {
                        return Err(String::from_str("Local video has empty file path"));
                    }
                },
            }
        } else {
            match &self.video_id {
                None => return Err(String::from_str("YouTube video missing video_id")),
                Some(id) => {
                    if is_blank_str(id.as_str()) {
                        return Err(String::from_str("YouTube video has empty video_id"));
                    }
                    let prefix = placeholder_prefix_str();
                    if starts_with_str(id.as_str(), prefix.as_str()) {
                        return Err(String::from_str("YouTube video has placeholder video_id"));
                    }
                },
            }
            match &self.source_url {
                None => return Err(String::from_str("YouTube video missing source URL")),
                Some(url) => {
                    if is_blank_str(url.as_str()) {
                        return Err(String::from_str("YouTube video has empty source URL"));
                    }
                },
            }
        }
        Ok(())
    }
}

/// Total nanoseconds of a list of sections.
pub open spec fn sections_nanos(sections: Seq<Section>) -> nat
    decreases sections.len(),
{
    if sections.len() == 0 {
        0
    } else {
        sections_nanos(sections.drop_last()) + sections.last().duration@
    }
}

/// Total nanoseconds of the modules' recorded durations.
pub open spec fn modules_nanos(modules: Seq<Module>) -> nat
    decreases modules.len(),
{
    if modules.len() == 0 {
        0
    } else {
        modules_nanos(modules.drop_last()) + modules.last().total_duration@
    }
}

/// Number of sections over all modules.
pub open spec fn sections_count(modules: Seq<Module>) -> nat
    decreases modules.len(),
{
    if modules.len() == 0 {
        0
    } else {
        sections_count(modules.drop_last()) + modules.last().sections@.len()
    }
}

/// The durations of a list of sections, in order.
fn section_durations(sections: &Vec<Section>) -> (r: Vec<Duration>)
    ensures
        total_nanos(r@) == sections_nanos(sections@),
{
    let mut r: Vec<Duration> = Vec::new();
    let mut i: usize = 0;
    while i < sections.len()
        invariant
            i <= sections@.len(),
            r@.len() == i,
            total_nanos(r@) == sections_nanos(sections@.subrange(0, i as int)),
        decreases sections.len() - i,
    {
        let ghost before = r@;
        r.push(sections[i].duration);
        proof {
            assert(r@.drop_last() =~= before);
            assert(sections@.subrange(0, i + 1).drop_last() =~= sections@.subrange(0, i as int));
        }
        i = i + 1;
    }
    assert(sections@.subrange(0, sections@.len() as int) =~= sections@);
    r
}

/// Sums the durations of sections; the sum must fit in a duration.
pub fn sum_section_durations(sections: &Vec<Section>) -> (r: Duration)
    requires
        sections_nanos(sections@) <= max_duration_nanos(),
    ensures
        r@ == sections_nanos(sections@),
{
    let ds = section_durations(sections);
    sum_durations(&ds)
}

impl Module {
    /// The sum of the sections' durations; it must fit in a duration.
    pub fn aggregate_total_duration(&self) -> (r: Duration)
        requires
            sections_nanos(self.sections@) <= max_duration_nanos(),
        ensures
            r@ == sections_nanos(self.sections@),
    {
        sum_section_durations(&self.sections)
    }

    /// A module without clustering data; its total is the sum of its
    /// sections.
    pub fn new_basic(title: String, sections: Vec<Section>) -> (m: Module)
        requires
            sections_nanos(sections@) <= max_duration_nanos(),
        ensures
            m.title == title,
            m.sections == sections,
            m.total_duration@ == sections_nanos(sections@),
            m.similarity_score is None,
            m.topic_keywords@.len() == 0,
            m.difficulty_level is None,
    {
        let total_duration = sum_section_durations(&sections);
        Module {
            title,
            sections,
            total_duration,
            similarity_score: None,
            topic_keywords: Vec::new(),
            difficulty_level: None,
        }
    }

    /// A module produced by clustering, with its score, keywords and level.
    pub fn new_with_clustering(
        title: String,
        sections: Vec<Section>,
        similarity_score: SinglePrecision,
        topic_keywords: Vec<String>,
        difficulty_level: DifficultyLevel,
    ) -> (m: Module)
        requires
            sections_nanos(sections@) <= max_duration_nanos(),
        ensures
            m.title == title,
            m.sections == sections,
            m.total_duration@ == sections_nanos(sections@),
            m.similarity_score == Some(similarity_score),
            m.topic_keywords == topic_keywords,
            m.difficulty_level == Some(difficulty_level),
    {
        let total_duration = sum_section_durations(&sections);
        Module {
            title,
            sections,
            total_duration,
            similarity_score: Some(similarity_score),
            topic_keywords,
            difficulty_level: Some(difficulty_level),
        }
    }
}

/// The organisation label `get_content_organization_type` reports.
pub open spec fn organization_type(s: CourseStructure) -> Seq<char> {
    match s.metadata.content_type_detected {
        Some(t) => t@,
        None => if s.clustering_metadata is Some {
            "Clustered"@
        } else if s.metadata.original_order_preserved == Some(true) {
            "Sequential"@
        } else {
            "Unknown"@
        },
    }
}

/// The description `get_content_organization_description` gives for a
/// label.
pub open spec fn organization_description(t: Seq<char>) -> Seq<char> {
    if t == "Sequential"@ {
        "Content follows original order with preserved progression"@
    } else if t == "Clustered"@ {
        "Content organized by topics using intelligent clustering"@
    } else if t == "Mixed"@ {
        "Content contains both sequential and thematic elements"@
    } else if t == "Ambiguous"@ {
        "Content organization could not be clearly determined"@
    } else {
        "Content organization type unknown"@
    }
}

/// String equality by contents.
pub fn str_equal(a: &str, b: &str) -> (r: bool)
    ensures
        r == (a@ == b@),
{
    let n = a.unicode_len();
    let m = b.unicode_len();
    if n != m {
        return false;
    }
    let mut i: usize = 0;
    while i < n
        invariant
            n == a@.len(),
            m == b@.len(),
            n == m,
            i <= n,
            forall|j: int| 0 <= j < i ==> a@[j] == b@[j],
        decreases n - i,
    {
        if a.get_char(i) != b.get_char(i) {
            return false;
        }
        i = i + 1;
    }
    assert(a@ =~= b@);
    true
}

impl CourseStructure {
    /// The sum of the modules' recorded durations; it must fit.
    pub fn aggregate_total_duration(&self) -> (r: Duration)
        requires
            modules_nanos(self.modules@) <= max_duration_nanos(),
        ensures
            r@ == modules_nanos(self.modules@),
    {
        let mut ds: Vec<Duration> = Vec::new();
        let mut i: usize = 0;
        while i < self.modules.len()
            invariant
                i <= self.modules@.len(),
                ds@.len() == i,
                total_nanos(ds@) == modules_nanos(self.modules@.subrange(0, i as int)),
            decreases self.modules.len() - i,
        {
            let ghost before = ds@;
            ds.push(self.modules[i].total_duration);
            proof {
                assert(ds@.drop_last() =~= before);
                assert(self.modules@.subrange(0, i + 1).drop_last() =~= self.modules@.subrange(
                    0,
                    i as int,
                ));
            }
            i = i + 1;
        }
        assert(self.modules@.subrange(0, self.modules@.len() as int) =~= self.modules@);
        sum_durations(&ds)
    }

    /// Recomputes the video count and total duration of the metadata from
    /// the modules; both sums must fit.
    pub fn with_aggregated_metadata(self) -> (r: CourseStructure)
        requires
            modules_nanos(self.modules@) <= max_duration_nanos(),
            sections_count(self.modules@) <= usize::MAX,
        ensures
            r.modules == self.modules,
            r.clustering_metadata == self.clustering_metadata,
            r.metadata.total_videos == sections_count(self.modules@),
            r.metadata.total_duration@ == modules_nanos(self.modules@),
            r.metadata == (StructureMetadata {
                total_videos: r.metadata.total_videos,
                total_duration: r.metadata.total_duration,
                ..self.metadata
            }),
    {
        let mut total_videos: usize = 0;
        let mut i: usize = 0;
        while i < self.modules.len()
            invariant
                i <= self.modules@.len(),
                sections_count(self.modules@) <= usize::MAX,
                total_videos == sections_count(self.modules@.subrange(0, i as int)),
            decreases self.modules.len() - i,
        {
            proof {
                assert(self.modules@.subrange(0, i + 1).drop_last() =~= self.modules@.subrange(
                    0,
                    i as int,
                ));
                lemma_sections_count_prefix(self.modules@, i + 1);
            }
            total_videos = total_videos + self.modules[i].sections.len();
            i = i + 1;
        }
        assert(self.modules@.subrange(0, self.modules@.len() as int) =~= self.modules@);
        let total_duration = self.aggregate_total_duration();
        let mut s = self;
        s.metadata.total_videos = total_videos;
        s.metadata.total_duration = total_duration;
        s
    }

    /// A structure without clustering data.
    pub fn new_basic(modules: Vec<Module>, metadata: StructureMetadata) -> (s: CourseStructure)
        ensures
            s.modules == modules,
            s.metadata == metadata,
            s.clustering_metadata is None,
    {
        CourseStructure { modules, metadata, clustering_metadata: None }
    }

    /// A structure produced by clustering.
    pub fn new_with_clustering(
        modules: Vec<Module>,
        metadata: StructureMetadata,
        clustering_metadata: ClusteringMetadata,
    ) -> (s: CourseStructure)
        ensures
            s.modules == modules,
            s.metadata == metadata,
            s.clustering_metadata == Some(clustering_metadata),
    {
        CourseStructure { modules, metadata, clustering_metadata: Some(clustering_metadata) }
    }

    /// Whether the structure came from clustering.
    pub fn is_clustered(&self) -> (r: bool)
        ensures
            r == self.clustering_metadata is Some,
    {
        self.clustering_metadata.is_some()
    }

    /// How the content is organised: the detected type where one was
    /// recorded, else "Clustered", "Sequential" or "Unknown".
    pub fn get_content_organization_type(&self) -> (r: String)
        ensures
            r@ == organization_type(*self),
    {
        if let Some(content_type) = &self.metadata.content_type_detected {
            return content_type.clone();
        }
        if self.clustering_metadata.is_some() {
            String::from_str("Clustered")
        } else if matches!(self.metadata.original_order_preserved, Some(true)) {
            String::from_str("Sequential")
        } else {
            String::from_str("Unknown")
        }
    }

    /// A sentence describing how the content is organised.
    pub fn get_content_organization_description(&self) -> (r: String)
        ensures
            r@ == organization_description(organization_type(*self)),
    {
        let t = self.get_content_organization_type();
        if str_equal(t.as_str(), "Sequential") {
            String::from_str("Content follows original order with preserved progression")
        } else if str_equal(t.as_str(), "Clustered") {
            String::from_str("Content organized by topics using intelligent clustering")
        } else if str_equal(t.as_str(), "Mixed") {
            String::from_str("Content contains both sequential and thematic elements")
        } else if str_equal(t.as_str(), "Ambiguous") {
            String::from_str("Content organization could not be clearly determined")
        } else {
            String::from_str("Content organization type unknown")
        }
    }
}

/// A prefix of the modules has no more sections than all of them.
pub proof fn lemma_sections_count_prefix(modules: Seq<Module>, k: int)
    requires
        0 <= k <= modules.len(),
    ensures
        sections_count(modules.subrange(0, k)) <= sections_count(modules),
    decreases modules.len() - k,
{
    if k < modules.len() {
        lemma_sections_count_prefix(modules, k + 1);
        assert(modules.subrange(0, k + 1).drop_last() =~= modules.subrange(0, k));
    } else {
        assert(modules.subrange(0, k) =~= modules);
    }
}

/// The video records `Course::new` derives from titles: a plain record per
/// title, at its position.
pub open spec fn videos_from_titles(videos: Seq<VideoMetadata>, titles: Seq<String>) -> bool {
    &&& videos.len() == titles.len()
    &&& forall|i: int|
        0 <= i < titles.len() ==> is_plain_video(
            #[trigger] videos[i],
            titles[i]@,
            None,
            None,
            None,
            i as nat,
            false,
        )
}

impl Course {
    /// A new course from video titles: each title becomes a YouTube-kind
    /// video record with no source yet, at its position. The id is fresh
    /// and the creation time is now.
    pub fn new(name: String, raw_titles: Vec<String>) -> (c: Course)
        ensures
            c.name == name,
            c.raw_titles == raw_titles,
            videos_from_titles(c.videos@, raw_titles@),
            c.structure is None,
    {
        let mut videos: Vec<VideoMetadata> = Vec::new();
        let mut i: usize = 0;
        while i < raw_titles.len()
            invariant
                i <= raw_titles@.len(),
                videos@.len() == i,
                forall|j: int|
                    0 <= j < i ==> is_plain_video(
                        #[trigger] videos@[j],
                        raw_titles@[j]@,
                        None,
                        None,
                        None,
                        j as nat,
                        false,
                    ),
            decreases raw_titles.len() - i,
        {
            let v = VideoMetadata {
                title: raw_titles[i].clone(),
                source_url: None,
                video_id: None,
                playlist_id: None,
                original_index: i,
                duration_seconds: None,
                thumbnail_url: None,
                description: None,
                upload_date: None,
                author: None,
                view_count: None,
                tags: Vec::new(),
                is_local: false,
            };
            videos.push(v);
            i = i + 1;
        }
        Course {
            id: Uuid::new_v4(),
            name,
            created_at: utc_now(),
            raw_titles,
            videos,
            structure: None,
        }
    }

    /// A new course from video records; the titles list follows the videos.
    pub fn new_with_videos(name: String, videos: Vec<VideoMetadata>) -> (c: Course)
        ensures
            c.name == name,
            c.videos == videos,
            c.raw_titles@.len() == videos@.len(),
            forall|i: int|
                0 <= i < videos@.len() ==> #[trigger] c.raw_titles@[i]@ == videos@[i].title@,
            c.structure is None,
    {
        let mut raw_titles: Vec<String> = Vec::new();
        let mut i: usize = 0;
        while i < videos.len()
            invariant
                i <= videos@.len(),
                raw_titles@.len() == i,
                forall|j: int| 0 <= j < i ==> #[trigger] raw_titles@[j]@ == videos@[j].title@,
            decreases videos.len() - i,
        {
            raw_titles.push(videos[i].title.clone());
            i = i + 1;
        }
        Course {
            id: Uuid::new_v4(),
            name,
            created_at: utc_now(),
            raw_titles,
            videos,
            structure: None,
        }
    }

    /// The number of videos: the larger of the video and title counts.
    pub fn video_count(&self) -> (r: usize)
        ensures
            r == if self.videos@.len() >= self.raw_titles@.len() {
                self.videos@.len()
            } else {
                self.raw_titles@.len()
            },
    {
        if self.videos.len() >= self.raw_titles.len() {
            self.videos.len()
        } else {
            self.raw_titles.len()
        }
    }

    /// Whether the course has a structure.
    pub fn is_structured(&self) -> (r: bool)
        ensures
            r == self.structure is Some,
    {
        self.structure.is_some()
    }

    /// The video record at an index, if there is one.
    pub fn get_video_metadata(&self, index: usize) -> (r: Option<&VideoMetadata>)
        ensures
            index < self.videos@.len() ==> r == Some(&self.videos@[index as int]),
            index >= self.videos@.len() ==> r is None,
    {
        if index < self.videos.len() {
            Some(&self.videos[index])
        } else {
            None
        }
    }

    /// The title of the video at an index: from the video records where
    /// there is one, else from the titles list.
    pub fn get_video_title(&self, index: usize) -> (r: Option<&str>)
        ensures
            index < self.videos@.len() ==> (r matches Some(t) && t@
                == self.videos@[index as int].title@),
            index >= self.videos@.len() && index < self.raw_titles@.len() ==> (r matches Some(t)
                && t@ == self.raw_titles@[index as int]@),
            index >= self.videos@.len() && index >= self.raw_titles@.len() ==> r is None,
    {
        if index < self.videos.len() {
            Some(self.videos[index].title.as_str())
        } else if index < self.raw_titles.len() {
            Some(self.raw_titles[index].as_str())
        } else {
            None
        }
    }
}

} // verus!
