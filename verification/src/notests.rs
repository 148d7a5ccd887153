//! The language plugin for exercises that have no tests: such an exercise
//! always passes, and its points come from the `no-tests` setting of the
//! project's `.tmcproject.yml`.

use vstd::prelude::*;
use std::collections::HashMap;
use std::time::Duration;
use crate::decimal::{decimal, usize_to_decimal};
use crate::text::{clone_strings, string_of};

verus! {

/// `nom::Err`, the error of a nom parser, declared so that `points_parser` can
/// return nom's `IResult`; Verus sees nothing inside it.
#[verifier::external_type_specification]
#[verifier::external_body]
#[verifier::reject_recursive_types(E)]
pub struct ExNomErr<E>(nom::Err<E>);

/// `nom::error::Error`, the default error value of nom's `IResult`, declared
/// with `nom::Err`; Verus sees nothing inside it.
#[verifier::external_type_specification]
#[verifier::external_body]
#[verifier::reject_recursive_types(I)]
pub struct ExNomError<I>(nom::error::Error<I>);

/// A point name as the `points` list of the `no-tests` setting may write it:
/// text, or a bare number.
#[derive(Debug, Clone, PartialEq, Eq)]
pub enum PointName {
    Text(String),
    Number(usize),
}

/// The `no-tests` setting as written: a flag, or a list of points (which
/// implies the flag).
#[derive(Debug, Clone, PartialEq, Eq)]
pub enum NoTestsSetting {
    Flag(bool),
    Points(Vec<PointName>),
}

/// The `no-tests` setting of a project.
#[derive(Debug, Clone, PartialEq, Eq)]
pub struct NoTests {
    pub flag: bool,
    pub points: Vec<String>,
}

/// What the plugin reads of a project's `.tmcproject.yml`.
#[derive(Debug, Clone, PartialEq, Eq)]
pub struct TmcProjectYml {
    pub no_tests: Option<NoTests>,
}

/// The name that a point of the `points` list stands for.
pub open spec fn spec_point_name(p: PointName) -> Seq<char> {
    match p {
        PointName::Text(s) => s@,
        PointName::Number(n) => decimal(n as nat),
    }
}

/// The flag that a setting gives.
pub open spec fn spec_setting_flag(setting: NoTestsSetting) -> bool {
    match setting {
        NoTestsSetting::Flag(flag) => flag,
        NoTestsSetting::Points(_) => true,
    }
}

/// The point names that a setting gives.
pub open spec fn spec_setting_points(setting: NoTestsSetting) -> Seq<Seq<char>> {
    match setting {
        NoTestsSetting::Flag(_) => Seq::empty(),
        NoTestsSetting::Points(points) => points@.map_values(|p: PointName| spec_point_name(p)),
    }
}

impl NoTests {
    /// The setting that a written `no-tests` value stands for.
    pub fn from_setting(setting: &NoTestsSetting) -> (r: NoTests)
        ensures
            r.flag == spec_setting_flag(*setting),
            r.points.deep_view() == spec_setting_points(*setting),
            setting matches NoTestsSetting::Flag(flag) ==> r.flag == flag && r.points.len() == 0,
            setting matches NoTestsSetting::Points(listed) ==> {
                &&& r.flag
                &&& r.points.len() == listed.len()
                &&& forall|i: int|
                    0 <= i < listed.len() ==> (#[trigger] r.points@[i])@ == (match listed@[i] {
                        PointName::Text(text) => text@,
                        PointName::Number(n) => decimal(n as nat),
                    })
            },
    {
        match setting {
            NoTestsSetting::Flag(flag) => NoTests { flag: *flag, points: Vec::new() },
            NoTestsSetting::Points(points) => {
                let mut names: Vec<String> = Vec::new();
                let n = points.len();
                let mut i: usize = 0;
                while i < n
                    invariant
                        n == points.len(),
                        i <= n,
                        names.len() == i,
                        forall|j: int| 0 <= j < i ==> #[trigger] names@[j]@ == spec_point_name(points@[j]),
                    decreases n - i,
                {
                    let name = match &points[i] {
                        PointName::Text(s) => s.clone(),
                        PointName::Number(k) => usize_to_decimal(*k),
                    };
                    names.push(name);
                    i = i + 1;
                }
                assert(names.deep_view() =~= spec_setting_points(*setting));
                NoTests { flag: true, points: names }
            },
        }
    }
}

/// The points of an exercise whose project configuration is `config`
/// (`None` where it could not be read).
pub open spec fn spec_points(config: Option<TmcProjectYml>) -> Seq<Seq<char>> {
    match config {
        Some(c) => match c.no_tests {
            Some(n) => n.points.deep_view(),
            None => Seq::empty(),
        },
        None => Seq::empty(),
    }
}

/// Whether the configuration marks the exercise as one without tests.
pub open spec fn spec_exercise_type_correct(config: Option<TmcProjectYml>) -> bool {
    match config {
        Some(c) => match c.no_tests {
            Some(n) => n.flag,
            None => false,
        },
        None => false,
    }
}

/// The points of a setting that lists points are the listed points, one for
/// each, in order: a text point as written, a number point as its decimal text.
/// A flag setting has no points.
pub proof fn lemma_setting_points_are_listed(setting: NoTestsSetting)
    ensures
        setting matches NoTestsSetting::Points(listed) ==> {
            &&& spec_setting_points(setting).len() == listed.len()
            &&& forall|i: int|
                0 <= i < listed.len() ==> #[trigger] spec_setting_points(setting)[i] == (match listed@[i] {
                    PointName::Text(text) => text@,
                    PointName::Number(n) => decimal(n as nat),
                })
        },
        setting is Flag ==> spec_setting_points(setting).len() == 0,
{
}

/// A project whose `no-tests` setting lists points is an exercise without
/// tests, worth those points; one whose setting is a flag is such an exercise
/// exactly when the flag is set, and is worth no points.
pub proof fn lemma_setting_decides(setting: NoTestsSetting, n: NoTests)
    requires
        n.flag == spec_setting_flag(setting),
        n.points.deep_view() == spec_setting_points(setting),
    ensures
        spec_exercise_type_correct(Some(TmcProjectYml { no_tests: Some(n) })) == match setting {
            NoTestsSetting::Flag(flag) => flag,
            NoTestsSetting::Points(_) => true,
        },
        spec_points(Some(TmcProjectYml { no_tests: Some(n) })) == spec_setting_points(setting),
        setting is Flag ==> spec_points(Some(TmcProjectYml { no_tests: Some(n) })).len() == 0,
{
}

/// A project without a readable configuration, or without a `no-tests`
/// setting, is not an exercise without tests, and is worth no points.
pub proof fn lemma_unset_is_not_no_tests(config: Option<TmcProjectYml>)
    requires
        config matches Some(c) ==> c.no_tests is None,
    ensures
        !spec_exercise_type_correct(config),
        spec_points(config).len() == 0,
{
}

/// A description of a test.
#[derive(Debug, Clone, PartialEq, Eq)]
pub struct TestDesc {
    pub name: String,
    pub points: Vec<String>,
}

/// A description of an exercise: its name and its tests.
#[derive(Debug, Clone, PartialEq, Eq)]
pub struct ExerciseDesc {
    pub name: String,
    pub tests: Vec<TestDesc>,
}

/// How a test run ended.
#[derive(Debug, Clone, Copy, PartialEq, Eq, Structural)]
pub enum RunStatus {
    Passed,
    TestsFailed,
    CompileFailed,
    TestrunInterrupted,
    GenericError,
}

/// The result of one test.
#[derive(Debug, Clone, PartialEq, Eq)]
pub struct TestResult {
    pub name: String,
    pub successful: bool,
    pub points: Vec<String>,
    pub message: String,
    pub exception: Vec<String>,
}

/// The result of a test run.
#[derive(Debug)]
pub struct RunResult {
    pub status: RunStatus,
    pub test_results: Vec<TestResult>,
    pub logs: HashMap<String, String>,
}

#[derive(Default)]
pub struct NoTestsPlugin {}

impl NoTestsPlugin {
    pub const PLUGIN_NAME: &'static str = "No-Tests";
    pub const LINE_COMMENT: &'static str = "//";
    pub const BLOCK_COMMENT: Option<(&'static str, &'static str)> = None;

    pub fn new() -> Self {
        Self {}
    }

    /// The points of the exercise, from its project configuration.
    pub fn get_points(config: &Option<TmcProjectYml>) -> (r: Vec<String>)
        ensures
            r.deep_view() == spec_points(*config),
            (config is Some && config->0.no_tests is Some) ==> {
                let listed = config->0.no_tests->0.points;
                &&& r.len() == listed.len()
                &&& forall|i: int| 0 <= i < r.len() ==> (#[trigger] r@[i])@ == listed@[i]@
            },
            !(config is Some && config->0.no_tests is Some) ==> r.len() == 0,
    {
        match config {
            Some(c) => match &c.no_tests {
                Some(n) => clone_strings(&n.points),
                None => Vec::new(),
            },
            None => Vec::new(),
        }
    }

    /// Describes the exercise: one test, named after the exercise, worth the
    /// exercise's points.
    pub fn scan_exercise(&self, config: &Option<TmcProjectYml>, exercise_name: String) -> (r: ExerciseDesc)
        ensures
            r.name@ == exercise_name@,
            r.tests.len() == 1,
            r.tests[0].name@ == exercise_name@ + "Test"@,
            r.tests[0].points.deep_view() == spec_points(*config),
    {
        let mut test_name = string_of(exercise_name.as_str());
        test_name.append("Test");
        ExerciseDesc {
            name: exercise_name,
            tests: vec![TestDesc { name: test_name, points: Self::get_points(config) }],
        }
    }

    /// Runs the tests, of which there are none: the run passes whatever the
    /// timeout, with one successful default test worth the exercise's points.
    pub fn run_tests_with_timeout(
        &self,
        config: &Option<TmcProjectYml>,
        _timeout: Option<Duration>,
    ) -> (r: RunResult)
        ensures
            r.status == RunStatus::Passed,
            r.test_results.len() == 1,
            r.test_results[0].name@ == "Default test"@,
            r.test_results[0].successful,
            r.test_results[0].points.deep_view() == spec_points(*config),
            r.test_results[0].message@ == ""@,
            r.test_results[0].exception.len() == 0,
            r.logs@ == Map::<String, String>::empty(),
    {
        RunResult {
            status: RunStatus::Passed,
            test_results: vec![
                TestResult {
                    name: string_of("Default test"),
                    successful: true,
                    points: Self::get_points(config),
                    message: string_of(""),
                    exception: Vec::new(),
                },
            ],
            logs: HashMap::new(),
        }
    }

    /// Whether the `no-tests` setting marks the exercise as one without tests.
    pub fn is_exercise_type_correct(config: &Option<TmcProjectYml>) -> (r: bool)
        ensures
            r == spec_exercise_type_correct(*config),
    {
        match config {
            Some(c) => match &c.no_tests {
                Some(n) => n.flag,
                None => false,
            },
            None => false,
        }
    }

    /// The project directory inside a submission archive: the archive's root.
    pub fn find_project_dir_in_zip() -> (r: String)
        ensures
            r@ == ""@,
    {
        string_of("")
    }

    /// There is nothing to clean.
    pub fn clean(&self) {
    }

    /// The student files: the `src` directory.
    pub fn get_default_student_file_paths(&self) -> (r: Vec<String>)
        ensures
            r.len() == 1,
            r[0]@ == "src"@,
    {
        vec![string_of("src")]
    }

    /// The exercise files: the `test` directory.
    pub fn get_default_exercise_file_paths(&self) -> (r: Vec<String>)
        ensures
            r.len() == 1,
            r[0]@ == "test"@,
    {
        vec![string_of("test")]
    }

    /// Finds no points in any text: succeeds with an empty point name and an
    /// empty remaining input, whatever the input.
    pub fn points_parser<'a>(_input: &'a str) -> (r: nom::IResult<&'a str, &'a str>)
        ensures
            r matches Ok((rest, points)) && rest@ == ""@ && points@ == ""@,
    {
        Ok(("", ""))
    }
}

} // verus!
