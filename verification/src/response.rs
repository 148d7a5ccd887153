//! The JSON responses of tmc-server, as plain data.

use vstd::prelude::*;
use crate::feedback::SubmissionFeedbackKind;
use crate::text::string_of;

verus! {

/// A point in time with the UTC offset it was written with: the instant as
/// whole seconds since the Unix epoch plus nanoseconds, and the offset of the
/// local time from UTC in seconds.
#[derive(Debug, Clone, Copy, PartialEq, Eq, Structural)]
pub struct OffsetDateTime {
    pub unix_seconds: i64,
    pub nanoseconds: u32,
    pub utc_offset_seconds: i32,
}

/// Represents an error response from tmc-server
#[derive(Debug)]
pub struct ErrorResponse {
    pub status: Option<String>,
    pub error: Option<String>,
    pub errors: Option<Vec<String>>,
    pub obsolete_client: bool,
}

/// What `{:?}` writes for a string: the string quoted, with its special
/// characters escaped.
pub uninterp spec fn str_debug(s: Seq<char>) -> Seq<char>;

/// `format!("{:?}", s)`: the `Debug` text of a string slice, from std.
///
/// Claimed of std: the result is `str_debug` of the string.
#[verifier::external_body]
fn debug_text(s: &str) -> (r: String)
    ensures
        r@ == str_debug(s@),
{
    format!("{:?}", s)
}

/// What `{:?}` writes for an optional string.
pub open spec fn spec_option_debug(o: Option<Seq<char>>) -> Seq<char> {
    match o {
        None => "None"@,
        Some(s) => "Some("@ + str_debug(s) + ")"@,
    }
}

/// The lines that `{:#?}` writes for the strings of a list inside an `Option`:
/// each at the second indentation level, followed by a comma.
pub open spec fn spec_pretty_items(items: Seq<Seq<char>>) -> Seq<char>
    decreases items.len(),
{
    if items.len() == 0 {
        Seq::empty()
    } else {
        spec_pretty_items(items.drop_last()) + "        "@ + str_debug(items.last()) + ",\n"@
    }
}

/// What `{:#?}` writes for an optional list of strings.
pub open spec fn spec_option_list_pretty(o: Option<Seq<Seq<char>>>) -> Seq<char> {
    match o {
        None => "None"@,
        Some(items) => if items.len() == 0 {
            "Some(\n    [],\n)"@
        } else {
            "Some(\n    [\n"@ + spec_pretty_items(items) + "    ],\n)"@
        },
    }
}

/// What `{}` writes for a boolean.
pub open spec fn spec_bool_text(b: bool) -> Seq<char> {
    if b {
        "true"@
    } else {
        "false"@
    }
}

/// The message of an error response.
pub open spec fn spec_error_response_message(e: ErrorResponse) -> Seq<char> {
    "Response contained errors: "@ + spec_option_debug(e.error.deep_view()) + ", "@
        + spec_option_list_pretty(e.errors.deep_view()) + ", obsolete client: "@ + spec_bool_text(
        e.obsolete_client,
    )
}

impl ErrorResponse {
    /// The message of this error response, as it is displayed.
    pub fn message(&self) -> (r: String)
        ensures
            r@ == spec_error_response_message(*self),
    {
        let mut s = string_of("Response contained errors: ");
        match &self.error {
            None => s.append("None"),
            Some(e) => {
                s.append("Some(");
                let d = debug_text(e.as_str());
                s.append(d.as_str());
                s.append(")");
            },
        }
        s.append(", ");
        match &self.errors {
            None => s.append("None"),
            Some(items) => {
                if items.len() == 0 {
                    s.append("Some(\n    [],\n)");
                } else {
                    s.append("Some(\n    [\n");
                    let ghost start = s@;
                    let n = items.len();
                    let mut i: usize = 0;
                    while i < n
                        invariant
                            n == items.len(),
                            i <= n,
                            s@ == start + spec_pretty_items(items.deep_view().take(i as int)),
                        decreases n - i,
                    {
                        assert(items.deep_view().take(i + 1).drop_last() =~= items.deep_view().take(
                            i as int,
                        ));
                        s.append("        ");
                        let d = debug_text(items[i].as_str());
                        s.append(d.as_str());
                        s.append(",\n");
                        i = i + 1;
                    }
                    assert(items.deep_view().take(n as int) =~= items.deep_view());
                    s.append("    ],\n)");
                }
            },
        }
        s.append(", obsolete client: ");
        if self.obsolete_client {
            s.append("true");
        } else {
            s.append("false");
        }
        s
    }
}

/// OAuth2 credentials
#[derive(Debug)]
pub struct Credentials {
    pub application_id: String,
    pub secret: String,
}

#[derive(Debug)]
pub struct User {
    pub id: usize,
    pub username: String,
    pub email: String,
    pub administrator: bool,
}

/// Organization information.
#[derive(Debug)]
pub struct Organization {
    pub name: String,
    pub information: String,
    pub slug: String,
    pub logo_path: String,
    pub pinned: bool,
}

/// Information for a course.
#[derive(Debug)]
pub struct Course {
    pub id: usize,
    pub name: String,
    pub title: String,
    pub description: Option<String>,
    pub details_url: String,
    pub unlock_url: String,
    pub reviews_url: String,
    pub comet_url: String,
    pub spyware_urls: Vec<String>,
}

/// Data for a course.
#[derive(Debug)]
pub struct CourseData {
    pub name: String,
    pub hide_after: Option<String>,
    pub hidden: bool,
    pub cache_version: Option<usize>,
    pub spreadsheet_key: Option<String>,
    pub hidden_if_registered_after: Option<String>,
    pub refreshed_at: Option<OffsetDateTime>,
    pub locked_exercise_points_visible: bool,
    pub description: Option<String>,
    pub paste_visibility: Option<String>,
    pub formal_name: Option<String>,
    pub certificate_downloadable: Option<bool>,
    pub certificate_unlock_spec: Option<String>,
    pub organization_id: Option<usize>,
    pub disabled_status: Option<String>,
    pub title: Option<String>,
    pub material_url: Option<String>,
    pub course_template_id: Option<usize>,
    pub hide_submission_results: bool,
    pub external_scoreboard_url: Option<String>,
    pub organization_slug: Option<String>,
}

/// A course details response from tmc-server, which wraps the details in a
/// `course` field; converted to the more convenient `CourseDetails`.
#[derive(Debug)]
pub struct CourseDetailsWrapper {
    pub course: CourseDetailsInner,
}

/// The details inside a course details response.
#[derive(Debug)]
pub struct CourseDetailsInner {
    pub course: Course,
    pub unlockables: Vec<String>,
    pub exercises: Vec<Exercise>,
}

/// Details for a course.
#[derive(Debug)]
pub struct CourseDetails {
    pub course: Course,
    pub unlockables: Vec<String>,
    pub exercises: Vec<Exercise>,
}

impl From<CourseDetailsWrapper> for CourseDetails {
    fn from(value: CourseDetailsWrapper) -> (r: Self)
        ensures
            r.course == value.course.course,
            r.unlockables == value.course.unlockables,
            r.exercises == value.course.exercises,
    {
        CourseDetails {
            course: value.course.course,
            unlockables: value.course.unlockables,
            exercises: value.course.exercises,
        }
    }
}

impl vstd::std_specs::convert::FromSpecImpl<CourseDetailsWrapper> for CourseDetails {
    open spec fn obeys_from_spec() -> bool {
        true
    }

    open spec fn from_spec(value: CourseDetailsWrapper) -> Self {
        CourseDetails {
            course: value.course.course,
            unlockables: value.course.unlockables,
            exercises: value.course.exercises,
        }
    }
}

#[derive(Debug)]
pub struct Exercise {
    pub id: usize,
    pub name: String,
    pub locked: bool,
    pub deadline_description: Option<String>,
    pub deadline: Option<String>,
    pub soft_deadline: Option<String>,
    pub soft_deadline_description: Option<String>,
    pub checksum: String,
    pub return_url: String,
    pub zip_url: String,
    pub returnable: bool,
    pub requires_review: bool,
    pub attempted: bool,
    pub completed: bool,
    pub reviewed: bool,
    pub all_review_points_given: bool,
    pub memory_limit: Option<usize>,
    pub runtime_params: Vec<String>,
    pub valgrind_strategy: String,
    pub code_review_requests_enabled: bool,
    pub run_tests_locally_action_enabled: bool,
    pub latest_submission_url: Option<String>,
    pub latest_submission_id: Option<usize>,
    pub solution_zip_url: Option<String>,
}

/// Exercise for a course.
#[derive(Debug)]
pub struct CourseExercise {
    pub id: usize,
    pub available_points: Vec<ExercisePoint>,
    pub awarded_points: Vec<String>,
    pub name: String,
    pub publish_time: Option<String>,
    pub solution_visible_after: Option<String>,
    pub deadline: Option<String>,
    pub soft_deadline: Option<String>,
    pub disabled: bool,
    pub unlocked: bool,
}

#[derive(Debug)]
pub struct CourseDataExercise {
    pub id: usize,
    pub available_points: Vec<ExercisePoint>,
    pub name: String,
    pub publish_time: Option<String>,
    pub solution_visible_after: Option<String>,
    pub deadline: Option<String>,
    pub disabled: bool,
}

#[derive(Debug)]
pub struct ExercisePoint {
    pub id: usize,
    pub exercise_id: usize,
    pub name: String,
    pub requires_review: bool,
}

#[derive(Debug)]
pub struct CourseDataExercisePoint {
    pub awarded_point: AwardedPoint,
    pub exercise_id: usize,
}

#[derive(Debug)]
pub struct AwardedPoint {
    pub id: usize,
    pub course_id: usize,
    pub user_id: usize,
    pub submission_id: usize,
    pub name: String,
    pub created_at: OffsetDateTime,
}

/// Details for an exercise.
#[derive(Debug)]
pub struct ExerciseDetails {
    pub course_name: String,
    pub course_id: usize,
    pub code_review_requests_enabled: bool,
    pub run_tests_locally_action_enabled: bool,
    pub exercise_name: String,
    pub exercise_id: usize,
    pub unlocked_at: Option<String>,
    pub deadline: Option<String>,
    pub submissions: Vec<ExerciseSubmission>,
}

#[derive(Debug)]
pub struct ExercisesDetails {
    pub id: usize,
    pub course_name: String,
    pub exercise_name: String,
    pub checksum: String,
}

/// Exercise submission.
#[derive(Debug)]
pub struct Submission {
    pub id: usize,
    pub user_id: usize,
    pub pretest_error: Option<String>,
    pub created_at: OffsetDateTime,
    pub exercise_name: String,
    pub course_id: usize,
    pub processed: bool,
    pub all_tests_passed: bool,
    pub points: Option<String>,
    pub processing_tried_at: Option<OffsetDateTime>,
    pub processing_began_at: Option<OffsetDateTime>,
    pub processing_completed_at: Option<OffsetDateTime>,
    pub times_sent_to_sandbox: usize,
    pub processing_attempts_started_at: OffsetDateTime,
    pub params_json: Option<String>,
    pub requires_review: bool,
    pub requests_review: bool,
    pub reviewed: bool,
    pub message_for_reviewer: String,
    pub newer_submission_reviewed: bool,
    pub review_dismissed: bool,
    pub paste_available: bool,
    pub message_for_paste: String,
    pub paste_key: Option<String>,
}

#[derive(Debug)]
pub struct ExerciseSubmission {
    pub exercise_name: String,
    pub id: usize,
    pub user_id: usize,
    pub course_id: usize,
    pub created_at: OffsetDateTime,
    pub all_tests_passed: bool,
    pub points: Option<String>,
    pub submitted_zip_url: String,
    pub paste_url: Option<String>,
    pub processing_time: Option<usize>,
    pub reviewed: bool,
    pub requests_review: bool,
}

/// The conversion of a course details response keeps what the response holds:
/// the course as it is, with every field, and the unlockables and exercises.
pub proof fn lemma_course_details_keep_response(value: CourseDetailsWrapper)
    ensures
        ({
            let r = <CourseDetails as vstd::std_specs::convert::FromSpec<CourseDetailsWrapper>>::from_spec(value);
            &&& r.course == value.course.course
            &&& r.course.id == value.course.course.id
            &&& r.course.name == value.course.course.name
            &&& r.course.title == value.course.course.title
            &&& r.course.description == value.course.course.description
            &&& r.course.details_url == value.course.course.details_url
            &&& r.course.unlock_url == value.course.course.unlock_url
            &&& r.course.reviews_url == value.course.course.reviews_url
            &&& r.course.comet_url == value.course.course.comet_url
            &&& r.course.spyware_urls == value.course.course.spyware_urls
            &&& r.unlockables == value.course.unlockables
            &&& r.exercises == value.course.exercises
        }),
{
}

/// Exercise submission.
#[derive(Debug, Clone)]
pub struct NewSubmission {
    pub show_submission_url: String,
    pub paste_url: String,
    pub submission_url: String,
}

/// The processing state of a submission: still processing, or finished.
#[derive(Debug)]
pub enum SubmissionProcessingStatus {
    Processing(SubmissionProcessing),
    Finished(Box<SubmissionFinished>),
}

#[derive(Debug)]
pub struct SubmissionProcessing {
    pub status: SubmissionStatus,
    pub sandbox_status: SandboxStatus,
}

#[derive(Debug, PartialEq, Eq, Structural)]
pub enum SandboxStatus {
    Created,
    SendingToSandbox,
    ProcessingOnSandbox,
}

#[derive(Debug, PartialEq, Eq, Structural)]
pub enum SubmissionStatus {
    Processing,
    Fail,
    /// Written `ok` on the wire; `Ok` is a reserved name here.
    Okay,
    Error,
    Hidden,
}

/// Finished submission.
///
/// `validations` is the style validation result of the submission, held as its
/// JSON text: its type belongs to the language plugins, and nothing here reads it.
#[derive(Debug, PartialEq, Eq)]
pub struct SubmissionFinished {
    pub api_version: usize,
    pub all_tests_passed: Option<bool>,
    pub user_id: usize,
    pub login: String,
    pub course: String,
    pub exercise_name: String,
    pub status: SubmissionStatus,
    pub points: Vec<String>,
    pub valgrind: Option<String>,
    pub submission_url: String,
    pub solution_url: Option<String>,
    pub submitted_at: String,
    pub processing_time: Option<usize>,
    pub reviewed: bool,
    pub requests_review: bool,
    pub paste_url: Option<String>,
    pub message_for_paste: Option<String>,
    pub missing_review_points: Vec<String>,
    pub test_cases: Option<Vec<TestCase>>,
    pub feedback_questions: Option<Vec<SubmissionFeedbackQuestion>>,
    pub feedback_answer_url: Option<String>,
    pub error: Option<String>,
    pub validations: Option<String>,
}

/// Response to feedback.
#[derive(Debug)]
pub struct SubmissionFeedbackResponse {
    pub api_version: usize,
    pub status: SubmissionStatus,
}

#[derive(Debug, PartialEq, Eq)]
pub struct TestCase {
    pub name: String,
    pub successful: bool,
    pub message: Option<String>,
    pub exception: Option<Vec<String>>,
    pub detailed_message: Option<String>,
}

#[derive(Debug, PartialEq, Eq)]
pub struct SubmissionFeedbackQuestion {
    pub id: usize,
    pub question: String,
    pub kind: SubmissionFeedbackKind,
}

/// Code review.
#[derive(Debug)]
pub struct Review {
    pub submission_id: String,
    pub exercise_name: String,
    pub id: usize,
    pub marked_as_read: bool,
    pub reviewer_name: String,
    pub review_body: String,
    pub points: Vec<String>,
    pub points_not_awarded: Vec<String>,
    pub url: String,
    pub update_url: String,
    pub created_at: OffsetDateTime,
    pub updated_at: String,
}

/// Updated exercises.
#[derive(Debug)]
pub struct UpdateResult {
    pub created: Vec<Exercise>,
    pub updated: Vec<Exercise>,
}

} // verus!
