use singer::pipeline::{
    compile_failure_message, compile_success_message, export_failure_message,
    export_success_message, no_categories_message, run_plan, Pipeline, Step,
};

fn cats(names: &[&str]) -> Vec<String> {
    names.iter().map(|n| n.to_string()).collect()
}

fn is_export(step: &Step, name: &str) -> bool {
    matches!(step, Step::RunExport { category } if category == name)
}

fn is_compile(step: &Step, name: &str) -> bool {
    matches!(step, Step::RunCompile { category } if category == name)
}

fn is_remove(step: &Step, name: &str) -> bool {
    matches!(step, Step::RemoveArtifact { category } if category == name)
}

#[test]
fn empty_category_list_does_nothing() {
    let (trace, ok, bad) = run_plan(Vec::new(), &Vec::new(), &Vec::new());
    assert!(trace.is_empty());
    assert_eq!(ok, 0);
    assert_eq!(bad, 0);
    let p = Pipeline::new(Vec::new());
    assert!(p.next_step().is_none());
    assert_eq!(no_categories_message(), "No valid category array found in config.json");
}

#[test]
fn all_success_exports_compiles_and_cleans_each_category() {
    let (trace, ok, bad) = run_plan(cats(&["ads", "cn"]), &vec![true, true], &vec![true, true]);
    assert_eq!(trace.len(), 6);
    assert!(is_export(&trace[0], "ads"));
    assert!(is_compile(&trace[1], "ads"));
    assert!(is_remove(&trace[2], "ads"));
    assert!(is_export(&trace[3], "cn"));
    assert!(is_compile(&trace[4], "cn"));
    assert!(is_remove(&trace[5], "cn"));
    assert_eq!(ok, 2);
    assert_eq!(bad, 0);
}

#[test]
fn failed_export_skips_compile_and_continues() {
    let (trace, ok, bad) = run_plan(cats(&["a", "b"]), &vec![false, true], &vec![true, true]);
    assert_eq!(trace.len(), 4);
    assert!(is_export(&trace[0], "a"));
    assert!(is_export(&trace[1], "b"));
    assert!(is_compile(&trace[2], "b"));
    assert!(is_remove(&trace[3], "b"));
    assert_eq!(ok, 1);
    assert_eq!(bad, 1);
}

#[test]
fn failed_compile_keeps_artifact_and_continues() {
    let (trace, ok, bad) = run_plan(cats(&["a", "b"]), &vec![true, true], &vec![false, true]);
    assert_eq!(trace.len(), 5);
    assert!(is_export(&trace[0], "a"));
    assert!(is_compile(&trace[1], "a"));
    assert!(is_export(&trace[2], "b"));
    assert!(is_compile(&trace[3], "b"));
    assert!(is_remove(&trace[4], "b"));
    assert_eq!(ok, 1);
    assert_eq!(bad, 1);
}

#[test]
fn partial_failure_scenario_reports_one_of_each() {
    let (trace, ok, bad) = run_plan(cats(&["ads", "cn"]), &vec![true, false], &vec![true, false]);
    assert_eq!(trace.len(), 4);
    assert!(is_export(&trace[0], "ads"));
    assert!(is_compile(&trace[1], "ads"));
    assert!(is_remove(&trace[2], "ads"));
    assert!(is_export(&trace[3], "cn"));
    assert_eq!(ok, 1);
    assert_eq!(bad, 1);
}

#[test]
fn rerunning_a_clean_run_leaves_no_artifacts_behind() {
    let names = cats(&["ads", "cn", "private"]);
    let e = vec![true, true, true];
    let k = vec![true, true, true];
    let (first, _, _) = run_plan(names.clone(), &e, &k);
    let (second, _, _) = run_plan(names.clone(), &e, &k);
    for run in [&first, &second] {
        for name in &names {
            let exported = run.iter().filter(|s| is_export(s, name)).count();
            let removed = run.iter().filter(|s| is_remove(s, name)).count();
            assert_eq!(exported, 1);
            assert_eq!(removed, 1);
        }
    }
}

#[test]
fn machine_steps_one_category_through_compile_failure() {
    let mut p = Pipeline::new(cats(&["x"]));
    let s = p.next_step().unwrap();
    assert!(is_export(&s, "x"));
    p.report_export(true);
    let s = p.next_step().unwrap();
    assert!(is_compile(&s, "x"));
    p.report_compile(false);
    assert!(p.next_step().is_none());
    assert_eq!(p.counts(), (0, 1));
}

#[test]
fn machine_counts_success_after_cleanup() {
    let mut p = Pipeline::new(cats(&["x"]));
    p.report_export(true);
    p.report_compile(true);
    let s = p.next_step().unwrap();
    assert!(is_remove(&s, "x"));
    p.note_removed();
    assert!(p.next_step().is_none());
    assert_eq!(p.counts(), (1, 0));
}

#[test]
fn report_messages() {
    assert_eq!(export_success_message("ads"), "Successfully exported ads");
    assert_eq!(export_failure_message("ads"), "Failed to export ads");
    assert_eq!(compile_success_message("cn"), "Successfully compiled cn");
    assert_eq!(compile_failure_message("cn"), "Failed to compile cn");
}
