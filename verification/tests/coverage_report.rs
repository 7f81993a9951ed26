use fmod_oxide::coverage::{
    category_from_captures, category_of, channel_control_name, collect, coverage_report,
    headings_known, try_coverage_report, CollectError, ReportLine, CATEGORY_PATTERN,
    CHANNEL_FILTER_PATTERN,
};
use fmod_oxide::patterns::Pattern;

fn category(name: &str) -> String {
    let pattern = Pattern::new(CATEGORY_PATTERN).unwrap();
    category_of(&pattern, name).unwrap()
}

fn control(name: &str) -> Option<String> {
    let filter = Pattern::new(CHANNEL_FILTER_PATTERN).unwrap();
    channel_control_name(&filter, name)
}
use indexmap::{IndexMap, IndexSet};

#[test]
fn categories_of_core_and_studio_names() {
    assert_eq!(category("FMOD_System_Create"), "System");
    assert_eq!(category("FMOD_Studio_System_Create"), "Studio System");
    assert_eq!(category("FMOD_Studio_EventInstance_Start"), "Studio EventInstance");
    assert_eq!(category("FMOD_Debug_Initialize"), "Debug");
    assert_eq!(category("printf"), "Unknown");
    assert_eq!(category("FMOD_Nothing"), "Unknown");
}

#[test]
fn studio_without_second_underscore_falls_back() {
    assert_eq!(category("FMOD_Studio_Create"), "Studio");
    assert_eq!(category("FMOD_Studio__Odd"), "Studio ");
}

#[test]
fn category_match_may_start_later() {
    assert_eq!(category("X_FMOD_Sound_Release"), "Sound");
    assert_eq!(category("FMOD_Bad\nFMOD_Good_x"), "Good");
}

#[test]
fn channel_names_map_to_channel_control() {
    assert_eq!(
        control("FMOD_Channel_SetVolume"),
        Some(String::from("FMOD_ChannelControl_SetVolume"))
    );
    assert_eq!(
        control("FMOD_ChannelGroup_Stop"),
        Some(String::from("FMOD_ChannelControl_Stop"))
    );
    assert_eq!(control("FMOD_ChannelGroup_Release"), Some(String::from("FMOD_ChannelControl_Release")));
    assert_eq!(control("FMOD_System_Create"), None);
    assert_eq!(control("FMOD_Channel_X\n"), None);
}

fn names(list: &[&str]) -> Vec<String> {
    list.iter().map(|s| s.to_string()).collect()
}

#[test]
fn collect_groups_by_first_category_order() {
    let (categories, functions) = collect(&names(&[
        "FMOD_System_Create",
        "FMOD_Studio_Bank_Unload",
        "FMOD_System_Release",
        "FMOD_Studio_Bank_Load",
        "FMOD_Sound_Release",
    ]))
    .unwrap();
    let cats: Vec<&str> = categories.iter().map(|s| s.as_str()).collect();
    assert_eq!(cats, vec!["System", "Studio Bank", "Sound"]);
    let entries: Vec<(&str, usize, bool)> =
        functions.iter().map(|(k, v)| (k.as_str(), v.0, v.1)).collect();
    assert_eq!(
        entries,
        vec![
            ("FMOD_System_Create", 0, false),
            ("FMOD_System_Release", 0, false),
            ("FMOD_Studio_Bank_Unload", 1, false),
            ("FMOD_Studio_Bank_Load", 1, false),
            ("FMOD_Sound_Release", 2, false),
        ]
    );
}

#[test]
fn collect_keeps_one_entry_per_name() {
    let (categories, functions) =
        collect(&names(&["FMOD_A_x", "FMOD_B_y", "FMOD_A_x"])).unwrap();
    assert_eq!(categories.len(), 2);
    assert_eq!(functions.len(), 2);
}

#[test]
fn report_headings_and_lines() {
    let (categories, mut functions) = collect(&names(&[
        "FMOD_Channel_SetVolume",
        "FMOD_Channel_GetVolume",
        "FMOD_ChannelControl_SetVolume",
        "FMOD_System_Create",
    ]))
    .unwrap();
    functions.get_mut("FMOD_System_Create").unwrap().1 = true;
    let filter = Pattern::new(CHANNEL_FILTER_PATTERN).unwrap();
    assert!(headings_known(&filter, &categories, &functions));
    let lines = coverage_report(&filter, &categories, &functions);
    let text: Vec<String> = lines.iter().map(|l| l.to_markdown()).collect();
    assert_eq!(
        text,
        vec![
            "## Channel",
            "- [ ] FMOD_Channel_GetVolume",
            "## ChannelControl",
            "- [ ] FMOD_ChannelControl_SetVolume",
            "## System",
            "- [x] FMOD_System_Create",
        ]
    );
    assert_eq!(lines[0], ReportLine::Category(String::from("Channel")));
    assert_eq!(
        lines[5],
        ReportLine::Function { name: String::from("FMOD_System_Create"), covered: true }
    );
}

#[test]
fn report_without_known_heading_is_refused() {
    let categories: IndexSet<String> = IndexSet::new();
    let mut functions: IndexMap<String, (usize, bool)> = IndexMap::new();
    functions.insert(String::from("FMOD_System_Create"), (0, false));
    let filter = Pattern::new(CHANNEL_FILTER_PATTERN).unwrap();
    assert!(!headings_known(&filter, &categories, &functions));
    assert!(try_coverage_report(&categories, &functions).unwrap().is_none());
    let empty: IndexMap<String, (usize, bool)> = IndexMap::new();
    assert_eq!(try_coverage_report(&categories, &empty).unwrap(), Some(Vec::new()));
}

#[test]
fn collected_report_has_each_heading_once() {
    let (categories, functions) = collect(&names(&[
        "FMOD_Sound_Release",
        "FMOD_System_Create",
        "FMOD_Sound_Lock",
        "FMOD_Studio_Bus_SetPaused",
        "FMOD_System_Close",
        "FMOD_Sound_Unlock",
    ]))
    .unwrap();
    let lines = try_coverage_report(&categories, &functions).unwrap().unwrap();
    let headings: Vec<String> = lines
        .iter()
        .map(|l| l.to_markdown())
        .filter(|l| l.starts_with('#'))
        .collect();
    assert_eq!(headings, vec!["## Sound", "## System", "## Studio Bus"]);
}

#[test]
fn category_from_given_captures() {
    let studio = Some(vec![
        Some(String::from("FMOD_Studio_Bank_Load")),
        Some(String::from("Studio_")),
        Some(String::from("Bank")),
    ]);
    assert_eq!(category_from_captures(studio), "Studio Bank");
    let core = Some(vec![Some(String::from("FMOD_Sound_Lock")), None, Some(String::from("Sound"))]);
    assert_eq!(category_from_captures(core), "Sound");
    assert_eq!(category_from_captures(None), "Unknown");
}

#[test]
fn collect_reports_an_invalid_pattern_never() {
    match collect(&names(&["FMOD_A_x"])) {
        Ok(_) => {}
        Err(CollectError::Pattern(e)) => panic!("the category pattern compiles: {e}"),
        Err(CollectError::MissingCategory(n)) => panic!("{n} has a category"),
    }
}

#[test]
fn collect_files_unmatched_names_under_unknown() {
    let (categories, functions) =
        collect(&names(&["Bogus", "FMOD_System_Create", "Other"])).unwrap();
    let cats: Vec<&str> = categories.iter().map(|s| s.as_str()).collect();
    assert_eq!(cats, vec!["Unknown", "System"]);
    let entries: Vec<(&str, usize, bool)> =
        functions.iter().map(|(k, v)| (k.as_str(), v.0, v.1)).collect();
    assert_eq!(
        entries,
        vec![("Bogus", 0, false), ("Other", 0, false), ("FMOD_System_Create", 1, false)]
    );
}
