use tmc_langs::response::{Course, CourseDetails, CourseDetailsInner, CourseDetailsWrapper};

#[test]
fn course_details_de() {
    let details = CourseDetailsWrapper {
        course: CourseDetailsInner {
            course: Course {
                id: 1,
                name: "n".to_string(),
                title: "t".to_string(),
                description: Some("d".to_string()),
                details_url: "du".to_string(),
                unlock_url: "u".to_string(),
                reviews_url: "r".to_string(),
                comet_url: "c".to_string(),
                spyware_urls: vec!["s".to_string()],
            },
            unlockables: vec!["a".to_string()],
            exercises: vec![],
        },
    };
    let details = CourseDetails::from(details);
    assert_eq!(details.course.id, 1);
    assert_eq!(details.course.name, "n");
    assert_eq!(details.course.comet_url, "c");
    assert_eq!(details.unlockables, vec!["a".to_string()]);
    assert!(details.exercises.is_empty());
}

use tmc_langs::response::ErrorResponse;

#[test]
fn error_response_message_is_the_display_text() {
    let cases = vec![
        (None, None, false),
        (Some("bad \"token\"\n".to_string()), Some(vec![]), true),
        (Some("x".to_string()), Some(vec!["a".to_string(), "tab\there".to_string(), "ä\\".to_string()]), false),
        (None, Some(vec!["only".to_string()]), true),
    ];
    for (error, errors, obsolete_client) in cases {
        let expected = format!(
            "Response contained errors: {:?}, {:#?}, obsolete client: {}",
            error, errors, obsolete_client
        );
        let response = ErrorResponse { status: Some("s".to_string()), error, errors, obsolete_client };
        assert_eq!(response.message(), expected);
    }
}

use tmc_langs::response::{SubmissionFinished, SubmissionStatus};

#[test]
fn finished_submission_keeps_its_validations() {
    let finished = SubmissionFinished {
        api_version: 7,
        all_tests_passed: Some(true),
        user_id: 1,
        login: "l".to_string(),
        course: "c".to_string(),
        exercise_name: "e".to_string(),
        status: SubmissionStatus::Okay,
        points: vec!["p".to_string()],
        valgrind: None,
        submission_url: "s".to_string(),
        solution_url: None,
        submitted_at: "t".to_string(),
        processing_time: Some(3),
        reviewed: false,
        requests_review: false,
        paste_url: None,
        message_for_paste: None,
        missing_review_points: vec![],
        test_cases: None,
        feedback_questions: None,
        feedback_answer_url: None,
        error: None,
        validations: Some("{\"strategy\":\"FAIL\",\"validation_errors\":null}".to_string()),
    };
    assert_eq!(finished.validations.as_deref(), Some("{\"strategy\":\"FAIL\",\"validation_errors\":null}"));
    assert_eq!(finished.status, SubmissionStatus::Okay);
}
