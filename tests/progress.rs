use omu_dash::cleanup::{plan_removal, RemovalNext, RemovalRun, RemovalStep, WalkEntry};
use omu_dash::progress::{progress_step, report_due, DownloadThrottle};

#[test]
fn step_is_about_five_percent() {
    assert_eq!(progress_step(0), 1);
    assert_eq!(progress_step(1), 1);
    assert_eq!(progress_step(20), 1);
    assert_eq!(progress_step(21), 2);
    assert_eq!(progress_step(100), 5);
    assert_eq!(progress_step(101), 6);
    assert_eq!(progress_step(40000), 2000);
}

#[test]
fn reports_fall_on_multiples_of_the_step() {
    assert!(report_due(0, 100));
    assert!(!report_due(3, 100));
    assert!(report_due(5, 100));
    assert!(report_due(3, 10));
}

#[test]
fn throttle_reports_once_per_percent() {
    let mut t = DownloadThrottle::new();
    assert!(!t.observe(0, 1000));
    assert!(!t.observe(5, 1000));
    assert!(t.observe(10, 1000));
    assert_eq!(t.last_percent, 1);
    assert!(!t.observe(19, 1000));
    assert!(t.observe(500, 1000));
    assert_eq!(t.last_percent, 50);
    assert!(t.observe(1000, 1000));
    assert!(t.observe(1000, 1000));
    assert_eq!(t.last_percent, 100);
}

#[test]
fn throttle_with_unknown_total_stays_at_zero() {
    let mut t = DownloadThrottle::new();
    assert!(!t.observe(12345, 0));
    assert_eq!(t.last_percent, 0);
}

#[test]
fn removing_a_missing_tree_does_nothing() {
    let entries = vec![WalkEntry { path: "x".to_string(), is_file: true }];
    assert!(plan_removal(false, &entries).is_empty());
    assert!(plan_removal(false, &Vec::new()).is_empty());
}

#[test]
fn removal_deletes_files_then_the_root() {
    let entries = vec![
        WalkEntry { path: "root".to_string(), is_file: false },
        WalkEntry { path: "root/a".to_string(), is_file: true },
        WalkEntry { path: "root/sub".to_string(), is_file: false },
        WalkEntry { path: "root/sub/b".to_string(), is_file: true },
    ];
    let plan = plan_removal(true, &entries);
    let text: Vec<String> = plan
        .iter()
        .map(|s| match s {
            RemovalStep::Report { current, total } => format!("report {}/{}", current, total),
            RemovalStep::RemoveFile { path } => format!("rm {}", path),
            RemovalStep::RemoveRoot => "rmroot".to_string(),
        })
        .collect();
    assert_eq!(
        text,
        vec![
            "report 0/4", "report 1/4", "rm root/a", "report 2/4", "report 3/4", "rm root/sub/b", "rmroot",
        ]
    );
}

#[test]
fn removal_reports_are_bounded() {
    let entries: Vec<WalkEntry> =
        (0..1000).map(|i| WalkEntry { path: format!("f{}", i), is_file: true }).collect();
    let plan = plan_removal(true, &entries);
    let reports = plan.iter().filter(|s| matches!(s, RemovalStep::Report { .. })).count();
    assert_eq!(reports, 20);
    let removals = plan.iter().filter(|s| matches!(s, RemovalStep::RemoveFile { .. })).count();
    assert_eq!(removals, 1000);
    assert!(matches!(plan.last(), Some(RemovalStep::RemoveRoot)));
}

#[test]
fn a_failed_file_removal_ends_the_removal_naming_the_file() {
    let entries = vec![
        WalkEntry { path: "root".to_string(), is_file: false },
        WalkEntry { path: "root/a".to_string(), is_file: true },
        WalkEntry { path: "root/b".to_string(), is_file: true },
    ];
    let mut run = RemovalRun::new("root", true, &entries);
    let mut performed = Vec::new();
    let mut last = Ok(());
    let result = loop {
        match run.advance(last) {
            RemovalNext::Perform(step) => {
                last = match &step {
                    RemovalStep::RemoveFile { path } if path == "root/a" => Err("permission denied".to_string()),
                    _ => Ok(()),
                };
                performed.push(step);
            },
            RemovalNext::Done(r) => break r,
        }
    };
    assert_eq!(result, Err("Failed to remove file root/a: permission denied".to_string()));
    assert!(!performed.iter().any(|s| matches!(s, RemovalStep::RemoveFile { path } if path == "root/b")));
    assert!(!performed.iter().any(|s| matches!(s, RemovalStep::RemoveRoot)));
}

#[test]
fn a_removal_that_succeeds_performs_every_step() {
    let entries = vec![WalkEntry { path: "r/x".to_string(), is_file: true }];
    let mut run = RemovalRun::new("r", true, &entries);
    let mut count = 0;
    let mut last = Ok(());
    let result = loop {
        match run.advance(last) {
            RemovalNext::Perform(_) => {
                count += 1;
                last = Ok(());
            },
            RemovalNext::Done(r) => break r,
        }
    };
    assert_eq!(result, Ok(()));
    assert_eq!(count, 3);
    let mut missing = RemovalRun::new("gone", false, &Vec::new());
    assert!(matches!(missing.advance(Ok(())), RemovalNext::Done(Ok(()))));
}

#[test]
fn a_failed_root_removal_names_the_root() {
    let mut run = RemovalRun::new("root", true, &Vec::new());
    assert!(matches!(run.advance(Ok(())), RemovalNext::Perform(RemovalStep::RemoveRoot)));
    match run.advance(Err("busy".to_string())) {
        RemovalNext::Done(Err(msg)) => assert_eq!(msg, "Failed to remove directory root: busy"),
        other => panic!("unexpected {:?}", other),
    }
}
