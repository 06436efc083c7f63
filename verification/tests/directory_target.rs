use cortex_dispatcher::directory_target::{
    failure_code, plan_step, plan_step_to, Emission, Materialization, TargetErrorCode,
};
use cortex_dispatcher::event::FileEvent;
use cortex_dispatcher::settings::{DirectoryTarget, LocalTargetMethod};

fn target(method: LocalTargetMethod) -> DirectoryTarget {
    DirectoryTarget { name: "archive".to_string(), directory: "/data/out".to_string(), method }
}

fn event(path: &str) -> FileEvent {
    FileEvent { file_id: 7, source_name: "incoming".to_string(), path: path.to_string() }
}

#[test]
fn copy_step_goes_from_the_event_path_to_the_target_directory() {
    let step = plan_step(&target(LocalTargetMethod::Copy), &event("/data/in/report.csv")).unwrap();
    assert_eq!(
        step.operation,
        Materialization {
            method: LocalTargetMethod::Copy,
            source_path: "/data/in/report.csv".to_string(),
            target_path: "/data/out/report.csv".to_string(),
        }
    );
    assert_eq!(
        step.emitted,
        FileEvent {
            file_id: 7,
            source_name: "archive".to_string(),
            path: "/data/out/report.csv".to_string(),
        }
    );
}

#[test]
fn hardlink_step_names_both_paths() {
    let step = plan_step(&target(LocalTargetMethod::Hardlink), &event("/data/in/a.bin")).unwrap();
    assert_eq!(step.operation.method, LocalTargetMethod::Hardlink);
    assert_eq!(step.operation.source_path, "/data/in/a.bin");
    assert_eq!(step.operation.target_path, "/data/out/a.bin");
}

#[test]
fn symlink_step_refers_to_the_source_path_itself() {
    let step = plan_step(&target(LocalTargetMethod::Symlink), &event("/data/in/deep/b.bin")).unwrap();
    assert_eq!(step.operation.method, LocalTargetMethod::Symlink);
    // The link is made at the target path and refers to the source path itself.
    assert_eq!(step.operation.source_path, "/data/in/deep/b.bin");
    assert_eq!(step.operation.target_path, "/data/out/b.bin");
    assert_eq!(step.emitted.path, "/data/out/b.bin");
}

#[test]
fn a_path_without_a_file_name_has_no_step() {
    assert!(plan_step(&target(LocalTargetMethod::Copy), &event("/")).is_none());
    assert!(plan_step(&target(LocalTargetMethod::Copy), &event("/data/in/..")).is_none());
    assert!(plan_step(&target(LocalTargetMethod::Copy), &event("")).is_none());
}

#[test]
fn a_trailing_separator_is_passed_over() {
    let step = plan_step(&target(LocalTargetMethod::Copy), &event("/data/in/dir/")).unwrap();
    assert_eq!(step.operation.target_path, "/data/out/dir");
}

#[test]
fn plan_step_to_takes_the_target_path_as_given() {
    let step = plan_step_to(
        &target(LocalTargetMethod::Hardlink),
        &event("/data/in/c.txt"),
        "/elsewhere/c.txt".to_string(),
    );
    assert_eq!(step.operation.source_path, "/data/in/c.txt");
    assert_eq!(step.operation.target_path, "/elsewhere/c.txt");
    assert_eq!(step.emitted.source_name, "archive");
    assert_eq!(step.emitted.path, "/elsewhere/c.txt");
    assert_eq!(step.emitted.file_id, 7);
}

#[test]
fn each_method_has_its_own_failure_code() {
    assert_eq!(failure_code(LocalTargetMethod::Copy), TargetErrorCode::E01005);
    assert_eq!(failure_code(LocalTargetMethod::Hardlink), TargetErrorCode::E01004);
    assert_eq!(failure_code(LocalTargetMethod::Symlink), TargetErrorCode::E01007);
    assert_eq!(TargetErrorCode::E01005.as_str(), "E01005");
    assert_eq!(TargetErrorCode::E01004.as_str(), "E01004");
    assert_eq!(TargetErrorCode::E01007.as_str(), "E01007");
}

#[test]
fn the_event_is_emitted_whether_or_not_the_operation_succeeded() {
    let emitted = FileEvent {
        file_id: 7,
        source_name: "archive".to_string(),
        path: "/data/out/d.txt".to_string(),
    };
    let ok = plan_step(&target(LocalTargetMethod::Copy), &event("/data/in/d.txt")).unwrap();
    assert_eq!(ok.conclude(true), Emission { failure: None, event: emitted.clone() });
    let failed = plan_step(&target(LocalTargetMethod::Copy), &event("/data/in/d.txt")).unwrap();
    assert_eq!(
        failed.conclude(false),
        Emission { failure: Some(TargetErrorCode::E01005), event: emitted.clone() }
    );
    let linked = plan_step(&target(LocalTargetMethod::Symlink), &event("/data/in/d.txt")).unwrap();
    assert_eq!(linked.conclude(false).failure, Some(TargetErrorCode::E01007));
}
