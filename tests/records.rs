use echo_task::courses::{Enrollments, Section};
use echo_task::videos::{GroupInfo, LessonData, Media, Video, VideoData};

#[test]
fn syllabus_nests_lessons_in_groups() {
    let lesson = Video {
        lesson: LessonData { id: String::from("l1"), display_name: String::from("Week 1") },
        medias: vec![Media { id: String::from("m1"), title: String::from("Lecture") }],
        has_content: true,
        start_time_utc: Some(String::from("2024-03-01T10:00:00Z")),
        end_time_utc: None,
        download: false,
    };
    let group = VideoData::SyllabusGroupType {
        group_info: GroupInfo { group_id: String::from("g1"), name: String::from("Block A") },
        lessons: vec![VideoData::SyllabusLessonType { lesson }],
    };
    match group {
        VideoData::SyllabusGroupType { group_info, lessons } => {
            assert_eq!(group_info.name, "Block A");
            assert_eq!(lessons.len(), 1);
        }
        _ => panic!("expected a group"),
    }
    let empty = Video::default();
    assert!(!empty.download);
    assert!(empty.medias.is_empty());
}

#[test]
fn enrollments_hold_sections() {
    let e = Enrollments {
        user_sections: vec![Section {
            section_id: String::from("s1"),
            section_name: String::from("Algebra"),
        }],
    };
    assert_eq!(e.user_sections[0].section_name, "Algebra");
    assert!(Enrollments::default().user_sections.is_empty());
}
