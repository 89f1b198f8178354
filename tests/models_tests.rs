use shkolo::models::{CourseGrades, Feedback, FeedbackRaw, Grade, GradeDetail, Homework, HomeworkItem, TermGrades};

#[test]
fn test_feedback_positive_badge_type() {
    let raw = FeedbackRaw {
        id: Some(1),
        badge_name: Some("Excellent work".to_string()),
        badge_icon: Some("excellence.png".to_string()),
        badge_type_id: Some(1), // 1 = positive
        text: Some("Great job!".to_string()),
        created_date: Some("19.02.2026".to_string()),
        created_by: Some("Teacher Name".to_string()),
        course_name: Some("Mathematics".to_string()),
        course_short_name: Some("Math".to_string()),
    };

    let feedback = Feedback::from_raw(&raw);

    assert!(feedback.is_positive);
    assert_eq!(feedback.badge_name, "Excellent work");
    assert_eq!(feedback.date, "19.02.2026");
    assert_eq!(feedback.subject, "Math"); // Uses short name if available
}

#[test]
fn test_feedback_negative_badge_type() {
    let raw = FeedbackRaw {
        id: Some(2),
        badge_name: Some("No homework".to_string()),
        badge_icon: Some("no-homework.png".to_string()),
        badge_type_id: Some(2), // 2 = negative
        text: Some("Missing homework".to_string()),
        created_date: Some("18.02.2026".to_string()),
        created_by: Some("Teacher Name".to_string()),
        course_name: Some("English".to_string()),
        course_short_name: None,
    };

    let feedback = Feedback::from_raw(&raw);

    assert!(!feedback.is_positive);
    assert_eq!(feedback.subject, "English"); // Falls back to course_name
}

#[test]
fn test_feedback_default_positive_when_missing_type() {
    let raw = FeedbackRaw {
        id: Some(3),
        badge_name: Some("Unknown".to_string()),
        badge_icon: None,
        badge_type_id: None, // Missing type defaults to positive
        text: None,
        created_date: None,
        created_by: None,
        course_name: None,
        course_short_name: None,
    };

    let feedback = Feedback::from_raw(&raw);

    assert!(feedback.is_positive); // Defaults to positive
    assert_eq!(feedback.date, "N/A"); // Missing date shows N/A
}

#[test]
fn test_feedback_date_parsing() {
    // Valid date
    assert_eq!(Feedback::parse_date("19.02.2026"), (2026, 2, 19));
    assert_eq!(Feedback::parse_date("01.12.2025"), (2025, 12, 1));

    // Invalid date
    assert_eq!(Feedback::parse_date("N/A"), (0, 0, 0));
    assert_eq!(Feedback::parse_date(""), (0, 0, 0));
    assert_eq!(Feedback::parse_date("invalid"), (0, 0, 0));
}

#[test]
fn test_feedback_sorting_newest_first() {
    let mut feedbacks = vec![
        Feedback {
            id: 1,
            badge_name: "Old".to_string(),
            badge_icon: None,
            comment: None,
            is_positive: true,
            date: "01.01.2025".to_string(), // Oldest
            teacher: "Teacher".to_string(),
            subject: "Math".to_string(),
        },
        Feedback {
            id: 2,
            badge_name: "Middle".to_string(),
            badge_icon: None,
            comment: None,
            is_positive: true,
            date: "15.06.2025".to_string(), // Middle
            teacher: "Teacher".to_string(),
            subject: "Math".to_string(),
        },
        Feedback {
            id: 3,
            badge_name: "New".to_string(),
            badge_icon: None,
            comment: None,
            is_positive: true,
            date: "19.02.2026".to_string(), // Newest
            teacher: "Teacher".to_string(),
            subject: "Math".to_string(),
        },
        Feedback {
            id: 4,
            badge_name: "December".to_string(),
            badge_icon: None,
            comment: None,
            is_positive: true,
            date: "31.12.2025".to_string(), // December 2025
            teacher: "Teacher".to_string(),
            subject: "Math".to_string(),
        },
    ];

    feedbacks.sort_by(Feedback::cmp_by_date);

    // Should be sorted newest first: 19.02.2026, 31.12.2025, 15.06.2025, 01.01.2025
    assert_eq!(feedbacks[0].id, 3, "Newest should be first");
    assert_eq!(feedbacks[1].id, 4, "December 2025 should be second");
    assert_eq!(feedbacks[2].id, 2, "June 2025 should be third");
    assert_eq!(feedbacks[3].id, 1, "January 2025 should be last");
}

#[test]
fn test_feedback_emoji_mapping() {
    // Test positive badge icon
    let positive = Feedback {
        id: 1,
        badge_name: "Excellent".to_string(),
        badge_icon: Some("excellence.png".to_string()),
        comment: None,
        is_positive: true,
        date: "19.02.2026".to_string(),
        teacher: "Teacher".to_string(),
        subject: "Math".to_string(),
    };
    assert_eq!(positive.emoji(), "🌟");

    // Test negative badge icon
    let negative = Feedback {
        id: 2,
        badge_name: "No homework".to_string(),
        badge_icon: Some("no-homework.png".to_string()),
        comment: None,
        is_positive: false,
        date: "19.02.2026".to_string(),
        teacher: "Teacher".to_string(),
        subject: "Math".to_string(),
    };
    assert_eq!(negative.emoji(), "📝❌");

    // Test fallback for unknown icon
    let unknown = Feedback {
        id: 3,
        badge_name: "Unknown".to_string(),
        badge_icon: Some("unknown-icon.png".to_string()),
        comment: None,
        is_positive: true,
        date: "19.02.2026".to_string(),
        teacher: "Teacher".to_string(),
        subject: "Math".to_string(),
    };
    assert_eq!(unknown.emoji(), "⭐"); // Falls back to positive default

    // Test fallback for no icon
    let no_icon = Feedback {
        id: 4,
        badge_name: "Plain".to_string(),
        badge_icon: None,
        comment: None,
        is_positive: false,
        date: "19.02.2026".to_string(),
        teacher: "Teacher".to_string(),
        subject: "Math".to_string(),
    };
    assert_eq!(no_icon.emoji(), "⚠️"); // Falls back to negative default
}

#[test]
fn test_due_date_parsing() {
    let item = HomeworkItem {
        id: Some(1),
        homework_text: Some("Do math".to_string()),
        homework_due_date: Some("25.02.2026".to_string()),
        shi_date: Some("20.02.2026".to_string()),
        shi_date_for_sort: Some("2026-02-20".to_string()),
    };

    let hw = Homework::from_item(&item, "Math");

    assert_eq!(hw.due_date, Some("25.02.2026".to_string()));
    assert_eq!(hw.due_date_sort, Some("2026-02-25".to_string()));
}

#[test]
fn test_due_date_parsing_invalid() {
    let item = HomeworkItem {
        id: Some(1),
        homework_text: Some("Do math".to_string()),
        homework_due_date: Some("invalid-date".to_string()),
        shi_date: None,
        shi_date_for_sort: None,
    };

    let hw = Homework::from_item(&item, "Math");

    assert_eq!(hw.due_date, Some("invalid-date".to_string()));
    assert_eq!(hw.due_date_sort, None); // Invalid format returns None
}

#[test]
fn test_homework_sorting_future_ascending() {
    // Future homework should be sorted by due_date ascending (soonest first)
    let mut homework = vec![
        Homework {
            id: Some(1),
            subject: "Math".to_string(),
            text: "HW 1".to_string(),
            date: "20.02.2026".to_string(),
            due_date: Some("28.02.2026".to_string()),
            date_sort: Some("2026-02-20".to_string()),
            due_date_sort: Some("2026-02-28".to_string()),
        },
        Homework {
            id: Some(2),
            subject: "English".to_string(),
            text: "HW 2".to_string(),
            date: "20.02.2026".to_string(),
            due_date: Some("22.02.2026".to_string()),
            date_sort: Some("2026-02-20".to_string()),
            due_date_sort: Some("2026-02-22".to_string()),
        },
        Homework {
            id: Some(3),
            subject: "History".to_string(),
            text: "HW 3".to_string(),
            date: "20.02.2026".to_string(),
            due_date: Some("25.02.2026".to_string()),
            date_sort: Some("2026-02-20".to_string()),
            due_date_sort: Some("2026-02-25".to_string()),
        },
    ];

    // Sort ascending by due_date (soonest first)
    homework.sort_by(|a, b| {
        let a_due = a.due_date_sort.as_deref().unwrap_or("9999-99-99");
        let b_due = b.due_date_sort.as_deref().unwrap_or("9999-99-99");
        a_due.cmp(b_due)
    });

    assert_eq!(homework[0].subject, "English"); // 22nd - soonest
    assert_eq!(homework[1].subject, "History"); // 25th
    assert_eq!(homework[2].subject, "Math");    // 28th - latest
}

#[test]
fn test_homework_sorting_past_descending() {
    // Past homework should be sorted by due_date descending (newest first)
    let mut homework = vec![
        Homework {
            id: Some(1),
            subject: "Math".to_string(),
            text: "HW 1".to_string(),
            date: "10.02.2026".to_string(),
            due_date: Some("12.02.2026".to_string()),
            date_sort: Some("2026-02-10".to_string()),
            due_date_sort: Some("2026-02-12".to_string()),
        },
        Homework {
            id: Some(2),
            subject: "English".to_string(),
            text: "HW 2".to_string(),
            date: "05.02.2026".to_string(),
            due_date: Some("07.02.2026".to_string()),
            date_sort: Some("2026-02-05".to_string()),
            due_date_sort: Some("2026-02-07".to_string()),
        },
        Homework {
            id: Some(3),
            subject: "History".to_string(),
            text: "HW 3".to_string(),
            date: "15.02.2026".to_string(),
            due_date: Some("17.02.2026".to_string()),
            date_sort: Some("2026-02-15".to_string()),
            due_date_sort: Some("2026-02-17".to_string()),
        },
    ];

    // Sort descending by due_date (newest first)
    homework.sort_by(|a, b| {
        let a_due = a.due_date_sort.as_deref().unwrap_or("0000-00-00");
        let b_due = b.due_date_sort.as_deref().unwrap_or("0000-00-00");
        b_due.cmp(a_due)
    });

    assert_eq!(homework[0].subject, "History"); // 17th - most recent
    assert_eq!(homework[1].subject, "Math");    // 12th
    assert_eq!(homework[2].subject, "English"); // 7th - oldest
}

fn detail(grade: Option<&str>, raw: Option<&str>, num: Option<&str>) -> GradeDetail {
    GradeDetail {
        grade: grade.map(|s| s.to_string()),
        grade_raw: raw.map(|s| s.to_string()),
        numerical_value: num.map(|s| s.to_string()),
        icon: None,
    }
}

#[test]
fn course_grades_follow_field_precedence() {
    let course = CourseGrades {
        target_name: None,
        course_name: Some("Physics".into()),
        term1: Some(TermGrades::List(vec![detail(Some("6"), Some("5"), None), detail(None, None, None), detail(None, Some("4"), Some("3"))])),
        term2: Some(TermGrades::Keyed(vec![("a".into(), detail(None, None, Some("5.5")))])),
        term1final: Some(TermGrades::List(vec![detail(None, None, None), detail(Some("5"), None, None)])),
        term2final: None,
        annual: Some(TermGrades::List(vec![])),
    };
    let g = Grade::from_course_grades(&course);
    assert_eq!(g.subject, "Physics");
    assert_eq!(g.term1_grades, vec!["6".to_string(), "4".to_string()]);
    assert_eq!(g.term2_grades, vec!["5.5".to_string()]);
    assert_eq!(g.term1_final, Some("5".to_string()));
    assert_eq!(g.term2_final, None);
    assert_eq!(g.annual, None);
    assert!(g.has_grades());
}
