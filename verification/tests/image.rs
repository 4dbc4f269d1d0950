use nanocld_core::error::HttpError;
use nanocld_core::image::{
    check_info_command, image_file_path, info_args, info_parse_error,
    progress_text, resize_args, size_arg, snapshot_args, stream_line, CommandOutcome, NewVmImage,
    QemuImgInfo,
};

fn strings(v: &[&str]) -> Vec<String> {
    v.iter().map(|s| s.to_string()).collect()
}

#[test]
fn image_files_live_under_the_state_directory() {
    assert_eq!(image_file_path("/var/lib/nanocl", "ubuntu"), "/var/lib/nanocl/vms/images/ubuntu.img");
}

#[test]
fn sizes_are_given_in_gigabytes() {
    assert_eq!(size_arg(50), "50G");
    assert_eq!(size_arg(0), "0G");
}

#[test]
fn qemu_img_command_lines() {
    assert_eq!(info_args("/a.img"), strings(&["info", "--output=json", "/a.img"]));
    assert_eq!(
        snapshot_args("/base.img", "/snap.img"),
        strings(&["create", "-F", "qcow2", "-f", "qcow2", "-b", "/base.img", "/snap.img"])
    );
    assert_eq!(resize_args("/a.img", 20, false), strings(&["resize", "/a.img", "20G"]));
    assert_eq!(resize_args("/a.img", 5, true), strings(&["resize", "--shrink", "/a.img", "5G"]));
}

fn exited(success: bool) -> CommandOutcome {
    CommandOutcome::Exited { success, report: "Output { status: 1 }".to_string(), stderr: "bad".to_string() }
}

#[test]
fn info_command_success_is_accepted() {
    assert!(check_info_command("/a.img", &exited(true)).is_ok());
}

#[test]
fn info_command_failures_are_internal_errors() {
    let e: HttpError = check_info_command("/a.img", &exited(false)).err().unwrap();
    assert_eq!(e.status, 500);
    assert_eq!(e.msg, "Failed to get info of /a.img: Output { status: 1 }");
    let spawn = CommandOutcome::SpawnFailed { error: "No such file or directory".to_string() };
    let e = check_info_command("/a.img", &spawn).err().unwrap();
    assert_eq!(e.status, 500);
    assert_eq!(e.msg, "Failed to get info of /a.img: No such file or directory");
}

#[test]
fn unreadable_info_is_an_internal_error() {
    let e = info_parse_error("/a.img", "expected value at line 1 column 1");
    assert_eq!(e.status, 500);
    assert_eq!(e.msg, "Failed to parse info of /a.img: expected value at line 1 column 1");
}

#[test]
fn progress_is_read_from_qemu_img_output() {
    assert_eq!(progress_text("    (12.34/100%)\r"), "12.34");
    assert_eq!(progress_text("(100.00/100%)\r\0\0\0"), "100.00");
    assert_eq!(progress_text("  ((7.5"), "7.5");
    assert_eq!(progress_text(""), "");
}

#[test]
fn progress_matches_the_std_pipeline() {
    for chunk in ["    (0.00/100%)\r", " ( 3.1/100%)", "abc", "(/"] {
        let expected = chunk.split('/').next().unwrap().trim().trim_start_matches('(');
        assert_eq!(progress_text(chunk), expected);
    }
}

#[test]
fn stream_messages_end_with_a_line_break() {
    assert_eq!(stream_line("{\"Progress\":1.0}"), "{\"Progress\":1.0}\r\n");
}

#[test]
fn new_records_take_what_qemu_img_reports() {
    let info = QemuImgInfo { format: "qcow2".to_string(), virtual_size: 10, actual_size: 3 };
    let draft = NewVmImage::from_info("snap", "Snapshot", "/s.img", &info, Some("base".to_string()));
    let at = chrono::DateTime::from_timestamp(1_700_000_000, 0).unwrap().naive_utc();
    let record = draft.stamp(at);
    assert_eq!(record.created_at, at);
    assert_eq!(record.name, "snap");
    assert_eq!(record.kind, "Snapshot");
    assert_eq!(record.path, "/s.img");
    assert_eq!(record.format, "qcow2");
    assert_eq!(record.size_actual, 3);
    assert_eq!(record.size_virtual, 10);
    assert_eq!(record.parent, Some("base".to_string()));
}
