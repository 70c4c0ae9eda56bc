use vstd::prelude::*;

verus! {

/// One recorded lesson of a section's syllabus.
#[derive(Debug, Default)]
pub struct Video {
    pub lesson: LessonData,
    pub medias: Vec<Media>,
    pub has_content: bool,
    pub start_time_utc: Option<String>,
    pub end_time_utc: Option<String>,
    /// Whether the user picked this recording for download.
    pub download: bool,
}

/// The lesson that a recording belongs to.
#[derive(Debug, Default)]
pub struct LessonData {
    pub id: String,
    pub display_name: String,
}

/// One media file of a recording.
#[derive(Debug, Default)]
pub struct Media {
    pub id: String,
    pub title: String,
}

/// The heading of a group of lessons in a syllabus.
#[derive(Debug, Default)]
pub struct GroupInfo {
    pub group_id: String,
    pub name: String,
}

/// One entry of a section's syllabus: a lesson, or a named group of entries.
#[derive(Debug)]
pub enum VideoData {
    SyllabusLessonType { lesson: Video },
    SyllabusGroupType { group_info: GroupInfo, lessons: Vec<VideoData> },
}

} // verus!
