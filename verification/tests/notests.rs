use std::time::Duration;
use tmc_langs::notests::{
    NoTests, NoTestsPlugin, NoTestsSetting, PointName, RunStatus, TmcProjectYml,
};

fn config_of(setting: NoTestsSetting) -> Option<TmcProjectYml> {
    Some(TmcProjectYml { no_tests: Some(NoTests::from_setting(&setting)) })
}

#[test]
fn gets_points() {
    let config = config_of(NoTestsSetting::Points(vec![
        PointName::Text("point1".to_string()),
        PointName::Text("point2".to_string()),
        PointName::Number(3),
        PointName::Number(4),
    ]));
    let points = NoTestsPlugin::get_points(&config);
    assert_eq!(points.len(), 4)
}

#[test]
fn scans_exercise() {
    let plugin = NoTestsPlugin::new();
    let _exercise_desc = plugin.scan_exercise(&None, "ex".to_string());
}

#[test]
fn runs_tests_ignores_timeout() {
    let plugin = NoTestsPlugin::new();
    let run_result = plugin.run_tests_with_timeout(&None, Some(Duration::from_nanos(1)));
    assert_eq!(run_result.status, RunStatus::Passed);
}

#[test]
fn exercise_type_is_correct() {
    let config = config_of(NoTestsSetting::Points(vec![PointName::Text("point1".to_string())]));
    assert!(NoTestsPlugin::is_exercise_type_correct(&config));

    let config = config_of(NoTestsSetting::Flag(true));
    assert!(NoTestsPlugin::is_exercise_type_correct(&config));
}

#[test]
fn exercise_type_is_not_correct() {
    assert!(!NoTestsPlugin::is_exercise_type_correct(&None));

    let empty = Some(TmcProjectYml { no_tests: None });
    assert!(!NoTestsPlugin::is_exercise_type_correct(&empty));

    let config = config_of(NoTestsSetting::Flag(false));
    assert!(!NoTestsPlugin::is_exercise_type_correct(&config));
}

#[test]
fn points_of_numbers_are_their_decimal_text() {
    let config = config_of(NoTestsSetting::Points(vec![
        PointName::Text("point1".to_string()),
        PointName::Number(0),
        PointName::Number(1024),
    ]));
    assert_eq!(
        NoTestsPlugin::get_points(&config),
        vec!["point1".to_string(), "0".to_string(), "1024".to_string()]
    );
}

#[test]
fn flag_setting_has_no_points() {
    let config = config_of(NoTestsSetting::Flag(true));
    assert!(NoTestsPlugin::get_points(&config).is_empty());
    assert!(NoTestsPlugin::get_points(&None).is_empty());
    assert!(NoTestsPlugin::get_points(&Some(TmcProjectYml { no_tests: None })).is_empty());
}

#[test]
fn scan_names_the_single_test_after_the_exercise() {
    let plugin = NoTestsPlugin::new();
    let config = config_of(NoTestsSetting::Points(vec![PointName::Text("p".to_string())]));
    let desc = plugin.scan_exercise(&config, "ex".to_string());
    assert_eq!(desc.name, "ex");
    assert_eq!(desc.tests.len(), 1);
    assert_eq!(desc.tests[0].name, "exTest");
    assert_eq!(desc.tests[0].points, vec!["p".to_string()]);
}

#[test]
fn run_passes_with_one_default_test() {
    let plugin = NoTestsPlugin::new();
    let config = config_of(NoTestsSetting::Points(vec![PointName::Number(7)]));
    let run = plugin.run_tests_with_timeout(&config, None);
    assert_eq!(run.status, RunStatus::Passed);
    assert_eq!(run.test_results.len(), 1);
    let result = &run.test_results[0];
    assert_eq!(result.name, "Default test");
    assert!(result.successful);
    assert_eq!(result.points, vec!["7".to_string()]);
    assert_eq!(result.message, "");
    assert!(result.exception.is_empty());
    assert!(run.logs.is_empty());
}

#[test]
fn fixed_answers_of_the_plugin() {
    let plugin = NoTestsPlugin::new();
    assert_eq!(NoTestsPlugin::find_project_dir_in_zip(), "");
    assert_eq!(plugin.get_default_student_file_paths(), vec!["src".to_string()]);
    assert_eq!(plugin.get_default_exercise_file_paths(), vec!["test".to_string()]);
    assert_eq!(NoTestsPlugin::points_parser("anything"), Ok(("", "")));
    assert_eq!(NoTestsPlugin::PLUGIN_NAME, "No-Tests");
    assert_eq!(NoTestsPlugin::LINE_COMMENT, "//");
    assert_eq!(NoTestsPlugin::BLOCK_COMMENT, None);
    plugin.clean();
}
