use nanocld_core::clone_image::CloneImage;
use nanocld_core::create_image::CreateImage;
use nanocld_core::create_snapshot::CreateSnapshot;
use nanocld_core::delete_image::DeleteImage;
use nanocld_core::error::HttpError;
use nanocld_core::image::{CommandOutcome, QemuImgInfo, VmImageDb, VmImageResizePayload};
use nanocld_core::resize_image::ResizeImage;
use nanocld_core::workflow::{answers_action, Action, CloneOutcome, Event, RemovalOutcome};

fn epoch() -> chrono::NaiveDateTime {
    chrono::DateTime::from_timestamp(0, 0).unwrap().naive_utc()
}

fn image(name: &str, kind: &str, path: &str) -> VmImageDb {
    VmImageDb {
        name: name.to_string(),
        created_at: epoch(),
        kind: kind.to_string(),
        path: path.to_string(),
        format: "qcow2".to_string(),
        size_actual: 1,
        size_virtual: 2,
        parent: None,
    }
}

fn err(status: u16, msg: &str) -> HttpError {
    HttpError { status, msg: msg.to_string() }
}

fn info() -> QemuImgInfo {
    QemuImgInfo { format: "qcow2".to_string(), virtual_size: 21474836480, actual_size: 196616 }
}

fn ok_run() -> CommandOutcome {
    CommandOutcome::Exited { success: true, report: String::new(), stderr: String::new() }
}

fn failed_run(report: &str, stderr: &str) -> CommandOutcome {
    CommandOutcome::Exited { success: false, report: report.to_string(), stderr: stderr.to_string() }
}

fn args_of(a: &Action) -> Vec<String> {
    match a {
        Action::RunQemuImg { args } | Action::SpawnClone { args } => args.clone(),
        _ => panic!("not a qemu-img run"),
    }
}

fn finish_error(a: Action) -> HttpError {
    match a {
        Action::Finish { result: Err(e) } => e,
        _ => panic!("not a failure"),
    }
}

fn finish_record(a: Action) -> VmImageDb {
    match a {
        Action::Finish { result: Ok(Some(r)) } => r,
        _ => panic!("not a record"),
    }
}

fn strings(v: &[&str]) -> Vec<String> {
    v.iter().map(|s| s.to_string()).collect()
}

#[test]
fn events_answer_their_actions() {
    let lookup = Action::Lookup { name: "a".to_string() };
    assert!(answers_action(&lookup, &Event::Lookup(Err(err(500, "db")))));
    assert!(!answers_action(&lookup, &Event::FileRemoved(RemovalOutcome::Removed)));
    let done = Action::Halt;
    assert!(!answers_action(&done, &Event::FileRemoved(RemovalOutcome::Removed)));
    let finish = Action::Finish { result: Ok(None) };
    assert!(!answers_action(&finish, &Event::Info(Ok(info()))));
}

#[test]
fn delete_removes_file_then_record() {
    let (mut m, a) = DeleteImage::delete_by_name("ubuntu");
    assert!(matches!(a, Action::Lookup { ref name } if name == "ubuntu"));
    let a = m.step(Event::Lookup(Ok(Ok(image("ubuntu", "Base", "/i/ubuntu.img")))));
    assert!(matches!(a, Action::FindChildren { ref name } if name == "ubuntu"));
    let a = m.step(Event::Children(Ok(0)));
    assert!(matches!(a, Action::RemoveFile { ref path } if path == "/i/ubuntu.img"));
    let a = m.step(Event::FileRemoved(RemovalOutcome::Removed));
    assert!(matches!(a, Action::DeleteRecord { ref name } if name == "ubuntu"));
    let a = m.step(Event::Deleted(Ok(Ok(()))));
    assert!(matches!(a, Action::Finish { result: Ok(None) }));
}

#[test]
fn delete_refuses_an_image_with_children() {
    let (mut m, _) = DeleteImage::delete_by_name("ubuntu");
    m.step(Event::Lookup(Ok(Ok(image("ubuntu", "Base", "/i/ubuntu.img")))));
    let e = finish_error(m.step(Event::Children(Ok(2))));
    assert_eq!(e.status, 409);
    assert_eq!(e.msg, "Vm image ubuntu has children images please delete them first");
}

#[test]
fn delete_of_a_missing_image_answers_the_lookup_error() {
    let (mut m, _) = DeleteImage::delete_by_name("ghost");
    let e = finish_error(m.step(Event::Lookup(Ok(Err(err(404, "not found"))))));
    assert_eq!(e.status, 404);
    let (mut m, _) = DeleteImage::delete_by_name("ghost");
    let e = finish_error(m.step(Event::Lookup(Err(err(500, "pool")))));
    assert_eq!(e.msg, "pool");
}

#[test]
fn delete_passes_on_database_errors() {
    let (mut m, _) = DeleteImage::delete_by_name("ubuntu");
    m.step(Event::Lookup(Ok(Ok(image("ubuntu", "Base", "/p")))));
    m.step(Event::Children(Ok(0)));
    m.step(Event::FileRemoved(RemovalOutcome::Removed));
    let e = finish_error(m.step(Event::Deleted(Ok(Err(err(500, "locked"))))));
    assert_eq!(e.msg, "locked");
}

#[test]
fn snapshot_creation_runs_qemu_img_and_stores_a_snapshot() {
    let base = image("ubuntu", "Base", "/var/lib/nanocl/vms/images/ubuntu.img");
    let (mut m, a) = CreateSnapshot::create_snap("vm1", 50, &base, "/var/lib/nanocl");
    assert!(matches!(a, Action::Lookup { ref name } if name == "vm1"));
    let a = m.step(Event::Lookup(Ok(Err(err(404, "not found")))));
    assert_eq!(
        args_of(&a),
        strings(&[
            "create",
            "-F",
            "qcow2",
            "-f",
            "qcow2",
            "-b",
            "/var/lib/nanocl/vms/images/ubuntu.img",
            "/var/lib/nanocl/vms/images/vm1.img",
        ])
    );
    let a = m.step(Event::Command(ok_run()));
    assert_eq!(args_of(&a), strings(&["resize", "/var/lib/nanocl/vms/images/vm1.img", "50G"]));
    let a = m.step(Event::Command(ok_run()));
    assert!(matches!(a, Action::ReadInfo { ref path } if path == "/var/lib/nanocl/vms/images/vm1.img"));
    let a = m.step(Event::Info(Ok(info())));
    match a {
        Action::Insert { image } => {
            assert_eq!(image.name, "vm1");
            assert_eq!(image.kind, "Snapshot");
            assert_eq!(image.path, "/var/lib/nanocl/vms/images/vm1.img");
            assert_eq!(image.format, "qcow2");
            assert_eq!(image.size_actual, 196616);
            assert_eq!(image.size_virtual, 21474836480);
            assert_eq!(image.parent, Some("ubuntu".to_string()));
        }
        _ => panic!("expected an insertion"),
    }
    let stored = image("vm1", "Snapshot", "/var/lib/nanocl/vms/images/vm1.img");
    let r = finish_record(m.step(Event::Stored(Ok(Ok(stored)))));
    assert_eq!(r.name, "vm1");
}

#[test]
fn snapshot_of_a_used_name_is_a_conflict() {
    let base = image("ubuntu", "Base", "/b.img");
    let (mut m, _) = CreateSnapshot::create_snap("vm1", 50, &base, "/s");
    let e = finish_error(m.step(Event::Lookup(Ok(Ok(image("vm1", "Snapshot", "/x"))))));
    assert_eq!(e.status, 409);
    assert_eq!(e.msg, "Vm image vm1 already used");
}

#[test]
fn snapshot_answers_a_failed_lookup_with_its_error() {
    let base = image("ubuntu", "Base", "/b.img");
    let (mut m, _) = CreateSnapshot::create_snap("vm1", 50, &base, "/s");
    let e = finish_error(m.step(Event::Lookup(Err(err(500, "pool")))));
    assert_eq!(e.status, 500);
    assert_eq!(e.msg, "pool");
}

#[test]
fn snapshot_command_failures_name_the_base_image() {
    let base = image("ubuntu", "Base", "/b.img");
    let (mut m, _) = CreateSnapshot::create_snap("vm1", 50, &base, "/s");
    m.step(Event::Lookup(Ok(Err(err(404, "not found")))));
    let e = finish_error(m.step(Event::Command(failed_run("exit status: 1", "boom"))));
    assert_eq!(e.status, 500);
    assert_eq!(e.msg, "Failed to create snapshot of /b.img: exit status: 1");

    let (mut m, _) = CreateSnapshot::create_snap("vm1", 50, &base, "/s");
    m.step(Event::Lookup(Ok(Err(err(404, "not found")))));
    let e = finish_error(m.step(Event::Command(CommandOutcome::SpawnFailed { error: "no qemu-img".to_string() })));
    assert_eq!(e.msg, "Failed to create snapshot of /b.img: no qemu-img");

    let (mut m, _) = CreateSnapshot::create_snap("vm1", 50, &base, "/s");
    m.step(Event::Lookup(Ok(Err(err(404, "not found")))));
    m.step(Event::Command(ok_run()));
    let e = finish_error(m.step(Event::Command(failed_run("exit status: 2", ""))));
    assert_eq!(e.msg, "Failed to resize snapshot of /b.img: exit status: 2");
}

#[test]
fn clone_refuses_an_image_that_is_not_a_snapshot() {
    let (_, a) = CloneImage::clone("copy", &image("ubuntu", "Base", "/b.img"), "/s");
    let e = finish_error(a);
    assert_eq!(e.status, 400);
    assert_eq!(e.msg, "Vm image copy is not a snapshot");
}

#[test]
fn clone_converts_a_snapshot_into_a_base_image() {
    let snap = image("vm1", "Snapshot", "/s/vms/images/vm1.img");
    let (mut m, a) = CloneImage::clone("copy", &snap, "/s");
    assert!(matches!(a, Action::Lookup { ref name } if name == "copy"));
    let a = m.step(Event::Lookup(Ok(Err(err(404, "not found")))));
    assert_eq!(
        args_of(&a),
        strings(&["create", "-F", "qcow2", "-f", "qcow2", "-b", "/s/vms/images/vm1.img", "/s/vms/images/copy.img"])
    );
    let a = m.step(Event::Cloned(CloneOutcome::Exited { success: true, report: String::new() }));
    assert!(matches!(a, Action::ReadInfo { ref path } if path == "/s/vms/images/copy.img"));
    match m.step(Event::Info(Ok(info()))) {
        Action::Insert { image } => {
            assert_eq!(image.kind, "Base");
            assert_eq!(image.parent, None);
            assert_eq!(image.path, "/s/vms/images/copy.img");
        }
        _ => panic!("expected an insertion"),
    }
    let r = finish_record(m.step(Event::Stored(Ok(Ok(image("copy", "Base", "/s/vms/images/copy.img"))))));
    assert_eq!(r.name, "copy");
}

#[test]
fn clone_of_a_used_name_is_a_conflict() {
    let snap = image("vm1", "Snapshot", "/p");
    let (mut m, _) = CloneImage::clone("copy", &snap, "/s");
    let e = finish_error(m.step(Event::Lookup(Ok(Ok(image("copy", "Base", "/q"))))));
    assert_eq!(e.status, 409);
    assert_eq!(e.msg, "Vm image copy already used");
}

#[test]
fn clone_conversion_failures() {
    let snap = image("vm1", "Snapshot", "/p");
    let cases = [
        (CloneOutcome::SpawnFailed { error: "denied".to_string() }, "Failed to convert snapshot to base denied"),
        (CloneOutcome::NoStdout, "Failed to convert snapshot to base"),
        (CloneOutcome::WaitFailed { error: "lost".to_string() }, "Failed to convert snapshot to base lost"),
        (
            CloneOutcome::Exited { success: false, report: "exit status: 1".to_string() },
            "Failed to convert snapshot to base exit status: 1",
        ),
    ];
    for (outcome, msg) in cases {
        let (mut m, _) = CloneImage::clone("copy", &snap, "/s");
        m.step(Event::Lookup(Ok(Err(err(404, "not found")))));
        let e = finish_error(m.step(Event::Cloned(outcome)));
        assert_eq!(e.status, 500);
        assert_eq!(e.msg, msg);
    }
}

#[test]
fn clone_ends_silently_when_the_store_cannot_be_reached() {
    let snap = image("vm1", "Snapshot", "/p");
    let (mut m, _) = CloneImage::clone("copy", &snap, "/s");
    m.step(Event::Lookup(Ok(Err(err(404, "not found")))));
    m.step(Event::Cloned(CloneOutcome::Exited { success: true, report: String::new() }));
    m.step(Event::Info(Ok(info())));
    assert!(matches!(m.step(Event::Stored(Err(err(500, "pool")))), Action::Halt));
}

#[test]
fn resize_updates_the_recorded_sizes() {
    let img = image("ubuntu", "Base", "/b.img");
    let (mut m, a) = ResizeImage::resize(&img, &VmImageResizePayload { size: 30, shrink: true });
    assert_eq!(args_of(&a), strings(&["resize", "--shrink", "/b.img", "30G"]));
    let a = m.step(Event::Command(ok_run()));
    assert!(matches!(a, Action::ReadInfo { ref path } if path == "/b.img"));
    match m.step(Event::Info(Ok(info()))) {
        Action::Update { name, update } => {
            assert_eq!(name, "ubuntu");
            assert_eq!(update.size_actual, 196616);
            assert_eq!(update.size_virtual, 21474836480);
        }
        _ => panic!("expected an update"),
    }
    let r = finish_record(m.step(Event::Stored(Ok(Ok(image("ubuntu", "Base", "/b.img"))))));
    assert_eq!(r.name, "ubuntu");
}

#[test]
fn resize_failures_report_the_error_stream() {
    let img = image("ubuntu", "Base", "/b.img");
    let (mut m, _) = ResizeImage::resize(&img, &VmImageResizePayload { size: 1, shrink: false });
    let e = finish_error(m.step(Event::Command(failed_run("Output {..}", "Use the --shrink option"))));
    assert_eq!(e.status, 500);
    assert_eq!(e.msg, "Unable to resize image Use the --shrink option");
    let (mut m, _) = ResizeImage::resize(&img, &VmImageResizePayload { size: 1, shrink: false });
    let e = finish_error(m.step(Event::Command(CommandOutcome::SpawnFailed { error: "gone".to_string() })));
    assert_eq!(e.msg, "Unable to resize image gone");
}

#[test]
fn resize_by_name_resizes_the_found_image() {
    let payload = VmImageResizePayload { size: 40, shrink: false };
    let (mut m, a) = ResizeImage::resize_by_name("ubuntu", &payload);
    assert!(matches!(a, Action::Lookup { ref name } if name == "ubuntu"));
    let a = m.step(Event::Lookup(Ok(Ok(image("ubuntu", "Base", "/b.img")))));
    assert_eq!(args_of(&a), strings(&["resize", "/b.img", "40G"]));
    let (mut m, _) = ResizeImage::resize_by_name("ghost", &payload);
    let e = finish_error(m.step(Event::Lookup(Ok(Err(err(404, "not found"))))));
    assert_eq!(e.status, 404);
}

#[test]
fn create_records_a_base_image() {
    let (mut m, a) = CreateImage::create("ubuntu", "/upload/ubuntu.img");
    assert!(matches!(a, Action::ReadInfo { ref path } if path == "/upload/ubuntu.img"));
    match m.step(Event::Info(Ok(info()))) {
        Action::Insert { image } => {
            assert_eq!(image.name, "ubuntu");
            assert_eq!(image.kind, "Base");
            assert_eq!(image.path, "/upload/ubuntu.img");
            assert_eq!(image.parent, None);
        }
        _ => panic!("expected an insertion"),
    }
    let e = finish_error(m.step(Event::Stored(Ok(Err(err(409, "duplicate key"))))));
    assert_eq!(e.status, 409);
}

#[test]
fn create_removes_an_unreadable_file() {
    let (mut m, _) = CreateImage::create("ubuntu", "/upload/ubuntu.img");
    let a = m.step(Event::Info(Err(err(500, "Failed to parse info of /upload/ubuntu.img: eof"))));
    assert!(matches!(a, Action::RemoveFile { ref path } if path == "/upload/ubuntu.img"));
    let e = finish_error(m.step(Event::FileRemoved(RemovalOutcome::Failed { error: "busy".to_string() })));
    assert_eq!(e.msg, "Failed to parse info of /upload/ubuntu.img: eof");
}

#[test]
fn delete_goes_on_when_the_file_is_already_gone() {
    let (mut m, _) = DeleteImage::delete_by_name("ubuntu");
    m.step(Event::Lookup(Ok(Ok(image("ubuntu", "Base", "/i/ubuntu.img")))));
    m.step(Event::Children(Ok(0)));
    let a = m.step(Event::FileRemoved(RemovalOutcome::Missing));
    assert!(matches!(a, Action::DeleteRecord { ref name } if name == "ubuntu"));
}

#[test]
fn delete_goes_on_when_the_file_stays() {
    let (mut m, _) = DeleteImage::delete_by_name("ubuntu");
    m.step(Event::Lookup(Ok(Ok(image("ubuntu", "Base", "/i/ubuntu.img")))));
    m.step(Event::Children(Ok(0)));
    let a = m.step(Event::FileRemoved(RemovalOutcome::Failed { error: "Permission denied".to_string() }));
    assert!(matches!(a, Action::DeleteRecord { ref name } if name == "ubuntu"));
    let a = m.step(Event::Deleted(Ok(Ok(()))));
    assert!(matches!(a, Action::Finish { result: Ok(None) }));
}
