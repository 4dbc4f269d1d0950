//! Virtual machine images: their records, the files and `qemu-img` command
//! lines that the daemon uses for them, and the text it reads back.

use vstd::prelude::*;
use vstd::string::*;

use crate::error::{HttpError, HttpErrorView, STATUS_INTERNAL_SERVER_ERROR};
use crate::text::{
    is_white_space, lemma_count_leading_prefix, white_space, count_trailing, digits_value, is_digit, lemma_decimal_reads_back, char_test, count_leading, decimal, leading_run, lemma_count_leading_bound, trim, trim_str,
    u64_to_decimal,
};

verus! {

#[verifier::external_type_specification]
#[verifier::external_body]
pub struct ExNaiveDateTime(chrono::NaiveDateTime);

/// What `qemu-img info --output=json` reports of an image file, as far as
/// the daemon reads it.
#[derive(Clone, Debug)]
pub struct QemuImgInfo {
    pub format: String,
    pub virtual_size: i64,
    pub actual_size: i64,
}

pub struct QemuImgInfoView {
    pub format: Seq<char>,
    pub virtual_size: i64,
    pub actual_size: i64,
}

impl View for QemuImgInfo {
    type V = QemuImgInfoView;

    open spec fn view(&self) -> QemuImgInfoView {
        QemuImgInfoView {
            format: self.format@,
            virtual_size: self.virtual_size,
            actual_size: self.actual_size,
        }
    }
}

/// A stored virtual machine image.
#[derive(Debug)]
pub struct VmImageDb {
    pub name: String,
    pub created_at: chrono::NaiveDateTime,
    pub kind: String,
    pub path: String,
    pub format: String,
    pub size_actual: i64,
    pub size_virtual: i64,
    pub parent: Option<String>,
}

pub struct VmImageView {
    pub name: Seq<char>,
    pub created_at: chrono::NaiveDateTime,
    pub kind: Seq<char>,
    pub path: Seq<char>,
    pub format: Seq<char>,
    pub size_actual: i64,
    pub size_virtual: i64,
    pub parent: Option<Seq<char>>,
}

impl View for VmImageDb {
    type V = VmImageView;

    open spec fn view(&self) -> VmImageView {
        VmImageView {
            name: self.name@,
            created_at: self.created_at,
            kind: self.kind@,
            path: self.path@,
            format: self.format@,
            size_actual: self.size_actual,
            size_virtual: self.size_virtual,
            parent: self.parent.deep_view(),
        }
    }
}

/// An image record still to be stored; it gets its creation time when it is
/// stamped.
#[derive(Clone, Debug)]
pub struct NewVmImage {
    pub name: String,
    pub kind: String,
    pub path: String,
    pub format: String,
    pub size_actual: i64,
    pub size_virtual: i64,
    pub parent: Option<String>,
}

pub struct NewVmImageView {
    pub name: Seq<char>,
    pub kind: Seq<char>,
    pub path: Seq<char>,
    pub format: Seq<char>,
    pub size_actual: i64,
    pub size_virtual: i64,
    pub parent: Option<Seq<char>>,
}

impl View for NewVmImage {
    type V = NewVmImageView;

    open spec fn view(&self) -> NewVmImageView {
        NewVmImageView {
            name: self.name@,
            kind: self.kind@,
            path: self.path@,
            format: self.format@,
            size_actual: self.size_actual,
            size_virtual: self.size_virtual,
            parent: self.parent.deep_view(),
        }
    }
}

impl NewVmImageView {
    /// The stored record of this image, created at `at`.
    pub open spec fn created(self, at: chrono::NaiveDateTime) -> VmImageView {
        VmImageView {
            name: self.name,
            created_at: at,
            kind: self.kind,
            path: self.path,
            format: self.format,
            size_actual: self.size_actual,
            size_virtual: self.size_virtual,
            parent: self.parent,
        }
    }
}

/// The record of image `name` of kind `kind` whose file at `path` was
/// described by `info`, derived from `parent` if any.
pub open spec fn image_from_info(
    name: Seq<char>,
    kind: Seq<char>,
    path: Seq<char>,
    info: QemuImgInfoView,
    parent: Option<Seq<char>>,
) -> NewVmImageView {
    NewVmImageView {
        name,
        kind,
        path,
        format: info.format,
        size_actual: info.actual_size,
        size_virtual: info.virtual_size,
        parent,
    }
}

impl NewVmImage {
    pub fn from_info(
        name: &str,
        kind: &str,
        path: &str,
        info: &QemuImgInfo,
        parent: Option<String>,
    ) -> (r: NewVmImage)
        ensures
            r@ == image_from_info(name@, kind@, path@, info@, parent.deep_view()),
            r.name@ == name@,
            r.kind@ == kind@,
            r.path@ == path@,
            r.format@ == info.format@,
            r.size_actual == info.actual_size,
            r.size_virtual == info.virtual_size,
            r.parent.deep_view() == parent.deep_view(),
    {
        NewVmImage {
            name: String::from_str(name),
            kind: String::from_str(kind),
            path: String::from_str(path),
            format: info.format.clone(),
            size_actual: info.actual_size,
            size_virtual: info.virtual_size,
            parent,
        }
    }

    /// The record to store, created at `created_at`.
    pub fn stamp(self, created_at: chrono::NaiveDateTime) -> (r: VmImageDb)
        ensures
            r@ == self@.created(created_at),
            r.name@ == self.name@,
            r.created_at == created_at,
            r.kind@ == self.kind@,
            r.path@ == self.path@,
            r.format@ == self.format@,
            r.size_actual == self.size_actual,
            r.size_virtual == self.size_virtual,
            r.parent.deep_view() == self.parent.deep_view(),
    {
        VmImageDb {
            name: self.name,
            created_at,
            kind: self.kind,
            path: self.path,
            format: self.format,
            size_actual: self.size_actual,
            size_virtual: self.size_virtual,
            parent: self.parent,
        }
    }
}

/// The new sizes of a resized image.
#[derive(Clone, Copy, Debug)]
pub struct VmImageUpdateDb {
    pub size_actual: i64,
    pub size_virtual: i64,
}

/// A request to resize an image to `size` gigabytes.
#[derive(Clone, Copy, Debug)]
pub struct VmImageResizePayload {
    pub size: u64,
    pub shrink: bool,
}

/// The kind of an image made from another by `qemu-img create -b`.
pub open spec fn snapshot_kind() -> Seq<char> {
    "Snapshot"@
}

/// The kind of an image that stands on its own.
pub open spec fn base_kind() -> Seq<char> {
    "Base"@
}

/// Where the daemon keeps the file of image `name`.
pub open spec fn image_file(state_dir: Seq<char>, name: Seq<char>) -> Seq<char> {
    state_dir + "/vms/images/"@ + name + ".img"@
}

pub fn image_file_path(state_dir: &str, name: &str) -> (p: String)
    ensures
        p@ == image_file(state_dir@, name@),
        p@ == state_dir@ + "/vms/images/"@ + name@ + ".img"@,
{
    let mut p = String::from_str(state_dir);
    p.append("/vms/images/");
    p.append(name);
    p.append(".img");
    p
}

/// A size in gigabytes as `qemu-img` reads it.
pub open spec fn size_text(size: u64) -> Seq<char> {
    decimal(size as nat) + "G"@
}

pub fn size_arg(size: u64) -> (s: String)
    ensures
        s@ == size_text(size),
        gigabytes(s@, size as nat),
{
    proof {
        lemma_size_text(size);
    }
    let mut s = u64_to_decimal(size);
    s.append("G");
    s
}

/// The arguments that ask `qemu-img` to describe the image at `path` in JSON.
pub open spec fn info_command(path: Seq<char>) -> Seq<Seq<char>> {
    seq!["info"@, "--output=json"@, path]
}

pub fn info_args(path: &str) -> (args: Vec<String>)
    ensures
        args.deep_view() == info_command(path@),
        args.deep_view() == seq!["info"@, "--output=json"@, path@],
{
    let args = vec![String::from_str("info"), String::from_str("--output=json"), String::from_str(path)];
    assert(args.deep_view() =~= info_command(path@));
    args
}

/// The arguments that create a qcow2 image at `snapshot` from the qcow2
/// image at `base`, which backs it.
pub open spec fn snapshot_command(base: Seq<char>, snapshot: Seq<char>) -> Seq<Seq<char>> {
    seq!["create"@, "-F"@, "qcow2"@, "-f"@, "qcow2"@, "-b"@, base, snapshot]
}

pub fn snapshot_args(base: &str, snapshot: &str) -> (args: Vec<String>)
    ensures
        args.deep_view() == snapshot_command(base@, snapshot@),
        args.deep_view() == seq!["create"@, "-F"@, "qcow2"@, "-f"@, "qcow2"@, "-b"@, base@, snapshot@],
{
    let args = vec![
        String::from_str("create"),
        String::from_str("-F"),
        String::from_str("qcow2"),
        String::from_str("-f"),
        String::from_str("qcow2"),
        String::from_str("-b"),
        String::from_str(base),
        String::from_str(snapshot),
    ];
    assert(args.deep_view() =~= snapshot_command(base@, snapshot@));
    args
}

/// The arguments that resize the image at `path` to `size` gigabytes,
/// allowing it to shrink when `shrink` is set.
pub open spec fn resize_command(path: Seq<char>, size: u64, shrink: bool) -> Seq<Seq<char>> {
    if shrink {
        seq!["resize"@, "--shrink"@, path, size_text(size)]
    } else {
        seq!["resize"@, path, size_text(size)]
    }
}

pub fn resize_args(path: &str, size: u64, shrink: bool) -> (args: Vec<String>)
    ensures
        args.deep_view() == resize_command(path@, size, shrink),
        !shrink ==> args.deep_view() == seq!["resize"@, path@, size_text(size)],
        shrink ==> args.deep_view() == seq!["resize"@, "--shrink"@, path@, size_text(size)],
        gigabytes(args.deep_view().last(), size as nat),
{
    proof {
        lemma_size_text(size);
    }
    let mut args = vec![String::from_str("resize")];
    if shrink {
        args.push(String::from_str("--shrink"));
    }
    args.push(String::from_str(path));
    args.push(size_arg(size));
    assert(args.deep_view() =~= resize_command(path@, size, shrink));
    args
}

/// How a `qemu-img` run that the daemon waited for ended: it could not be
/// started (`error` renders the I/O error), or it exited; `report` then renders
/// the whole output (pretty debug form) and `stderr` holds what it wrote to
/// its error stream.
pub enum CommandOutcome {
    SpawnFailed { error: String },
    Exited { success: bool, report: String, stderr: String },
}

pub enum CommandOutcomeView {
    SpawnFailed { error: Seq<char> },
    Exited { success: bool, report: Seq<char>, stderr: Seq<char> },
}

impl View for CommandOutcome {
    type V = CommandOutcomeView;

    open spec fn view(&self) -> CommandOutcomeView {
        match self {
            CommandOutcome::SpawnFailed { error } => CommandOutcomeView::SpawnFailed {
                error: error@,
            },
            CommandOutcome::Exited { success, report, stderr } => CommandOutcomeView::Exited {
                success: *success,
                report: report@,
                stderr: stderr@,
            },
        }
    }
}

/// An internal server error whose message is `head`, the `subject`, a colon
/// and `detail`.
pub open spec fn failure(head: Seq<char>, subject: Seq<char>, detail: Seq<char>) -> HttpErrorView {
    HttpErrorView {
        status: STATUS_INTERNAL_SERVER_ERROR,
        msg: head + subject + ": "@ + detail,
    }
}

pub fn failure_error(head: &str, subject: &str, detail: &str) -> (e: HttpError)
    ensures
        e@ == failure(head@, subject@, detail@),
        e.status == 500,
        e.msg@ == head@ + subject@ + ": "@ + detail@,
{
    let mut msg = String::from_str(head);
    msg.append(subject);
    msg.append(": ");
    msg.append(detail);
    HttpError::new(STATUS_INTERNAL_SERVER_ERROR, msg)
}

/// The error of a `qemu-img` run described by `outcome`, with the message head
/// `head` and subject `subject`; none when it exited successfully.
pub open spec fn command_failure(
    head: Seq<char>,
    subject: Seq<char>,
    outcome: CommandOutcomeView,
) -> Option<HttpErrorView> {
    match outcome {
        CommandOutcomeView::SpawnFailed { error } => Some(failure(head, subject, error)),
        CommandOutcomeView::Exited { success, report, stderr } => if success {
            None
        } else {
            Some(failure(head, subject, report))
        },
    }
}

pub fn check_command(head: &str, subject: &str, outcome: &CommandOutcome) -> (r: Option<HttpError>)
    ensures
        match command_failure(head@, subject@, outcome@) {
            None => r is None,
            Some(e) => r matches Some(f) && f@ == e,
        },
{
    match outcome {
        CommandOutcome::SpawnFailed { error } => Some(failure_error(head, subject, error.as_str())),
        CommandOutcome::Exited { success, report, stderr } => {
            if *success {
                None
            } else {
                Some(failure_error(head, subject, report.as_str()))
            }
        },
    }
}

/// Checks how `qemu-img info` on `path` ended: it must have started and
/// succeeded.
pub fn check_info_command(path: &str, outcome: &CommandOutcome) -> (r: Result<(), HttpError>)
    ensures
        match command_failure("Failed to get info of "@, path@, outcome@) {
            None => r is Ok,
            Some(e) => r matches Err(f) && f@ == e,
        },
{
    match check_command("Failed to get info of ", path, outcome) {
        None => Ok(()),
        Some(e) => Err(e),
    }
}

/// The error answered when the report of `qemu-img info` on `path` cannot be
/// read; `error` renders why.
pub fn info_parse_error(path: &str, error: &str) -> (e: HttpError)
    ensures
        e@ == failure("Failed to parse info of "@, path@, error@),
        e.status == 500,
        e.msg@ == "Failed to parse info of "@ + path@ + ": "@ + error@,
{
    failure_error("Failed to parse info of ", path, error)
}

/// The progress figure in a chunk of `qemu-img` progress output such as
/// `"    (12.34/100%)"`: the text before the first `/`, trimmed of white space
/// and of the opening parentheses.
pub open spec fn progress_field(chunk: Seq<char>) -> Seq<char> {
    let head = chunk.take(count_leading(chunk, char_test('/', false)) as int);
    let t = trim(head);
    t.skip(count_leading(t, char_test('(', true)) as int)
}

pub fn progress_text(chunk: &str) -> (p: String)
    ensures
        p@ == progress_field(chunk@),
{
    let f = leading_run(chunk, '/', false);
    proof {
        lemma_count_leading_bound(chunk@, char_test('/', false));
    }
    let head = chunk.substring_char(0, f);
    let t = trim_str(head);
    let n = leading_run(t, '(', true);
    proof {
        lemma_count_leading_bound(t@, char_test('(', true));
    }
    let len = t.unicode_len();
    let rest = t.substring_char(n, len);
    assert(rest@ =~= t@.skip(n as int));
    String::from_str(rest)
}

/// One message of a response stream: its JSON text and a line break.
pub fn stream_line(json: &str) -> (line: String)
    ensures
        line@ == json@ + "\r\n"@,
{
    let mut line = String::from_str(json);
    line.append("\r\n");
    line
}


/// Whether `t` gives `size` gigabytes as `qemu-img` reads it: the digits of
/// `size` in decimal, without leading zero, then `G`.
pub open spec fn gigabytes(t: Seq<char>, size: nat) -> bool {
    &&& t.len() >= 2
    &&& t.last() == 'G'
    &&& forall|i: int| 0 <= i < t.len() - 1 ==> is_digit(#[trigger] t[i])
    &&& digits_value(t.drop_last()) == size
    &&& t[0] == '0' ==> size == 0
}

/// The size argument of every size is that size in gigabytes.
pub proof fn lemma_size_text(size: u64)
    ensures
        gigabytes(size_text(size), size as nat),
{
    lemma_decimal_reads_back(size as nat);
    reveal_strlit("G");
    let t = size_text(size);
    let d = decimal(size as nat);
    assert(t.drop_last() =~= d);
    assert forall|i: int| 0 <= i < t.len() - 1 implies is_digit(#[trigger] t[i]) by {
        assert(t[i] == d[i]);
    }
    assert(t[0] == d[0]);
}

/// The file of image `name` is `name.img` in the `vms/images` directory of
/// the state directory.
pub proof fn lemma_image_file(state_dir: Seq<char>, name: Seq<char>)
    ensures
        image_file(state_dir, name) == state_dir + "/vms/images/"@ + name + ".img"@,
{
}

/// The `qemu-img` command lines: `info --output=json` of a file; `create` of a
/// qcow2 image backed by a qcow2 image; `resize` to a size in gigabytes, with
/// `--shrink` exactly when shrinking is allowed.
pub proof fn lemma_command_lines(path: Seq<char>, target: Seq<char>, size: u64, shrink: bool)
    ensures
        info_command(path) == seq!["info"@, "--output=json"@, path],
        snapshot_command(path, target) == seq![
            "create"@,
            "-F"@,
            "qcow2"@,
            "-f"@,
            "qcow2"@,
            "-b"@,
            path,
            target,
        ],
        !shrink ==> resize_command(path, size, shrink) == seq!["resize"@, path, size_text(size)],
        shrink ==> resize_command(path, size, shrink) == seq![
            "resize"@,
            "--shrink"@,
            path,
            size_text(size),
        ],
        gigabytes(resize_command(path, size, shrink).last(), size as nat),
{
    lemma_size_text(size);
}

/// A record built from what `qemu-img info` reports carries the format and
/// sizes it reports, whatever they are, and the given name, kind, path and
/// parent.
pub proof fn lemma_image_from_info(
    name: Seq<char>,
    kind: Seq<char>,
    path: Seq<char>,
    info: QemuImgInfoView,
    parent: Option<Seq<char>>,
)
    ensures
        image_from_info(name, kind, path, info, parent).name == name,
        image_from_info(name, kind, path, info, parent).kind == kind,
        image_from_info(name, kind, path, info, parent).path == path,
        image_from_info(name, kind, path, info, parent).format == info.format,
        image_from_info(name, kind, path, info, parent).size_actual == info.actual_size,
        image_from_info(name, kind, path, info, parent).size_virtual == info.virtual_size,
        image_from_info(name, kind, path, info, parent).parent == parent,
{
}

/// Stamping a record with a creation time changes nothing else in it.
pub proof fn lemma_created_keeps_fields(image: NewVmImageView, at: chrono::NaiveDateTime)
    ensures
        image.created(at).name == image.name,
        image.created(at).created_at == at,
        image.created(at).kind == image.kind,
        image.created(at).path == image.path,
        image.created(at).format == image.format,
        image.created(at).size_actual == image.size_actual,
        image.created(at).size_virtual == image.size_virtual,
        image.created(at).parent == image.parent,
{
}

/// A `qemu-img` run that cannot start, or that exits unsuccessfully, is an
/// internal error whose message is the head, the subject, a colon and the
/// start error or the run's report; a successful run is no error.
pub proof fn lemma_command_failure(head: Seq<char>, subject: Seq<char>, outcome: CommandOutcomeView)
    ensures
        outcome matches CommandOutcomeView::SpawnFailed { error } ==> command_failure(
            head,
            subject,
            outcome,
        ) == Some(
            HttpErrorView { status: 500, msg: head + subject + ": "@ + error },
        ),
        outcome matches CommandOutcomeView::Exited { success, report, .. } ==> (success
            ==> command_failure(head, subject, outcome) is None) && (!success ==> command_failure(
            head,
            subject,
            outcome,
        ) == Some(HttpErrorView { status: 500, msg: head + subject + ": "@ + report })),
{
}


/// The progress figure of a chunk that starts with white space and opening
/// parentheses, then the figure, then a `/`, is that figure, whatever
/// follows: `"    (12.34/100%)"` gives `"12.34"`.
pub proof fn lemma_progress_field(
    ws: Seq<char>,
    parens: Seq<char>,
    figure: Seq<char>,
    rest: Seq<char>,
)
    requires
        forall|i: int| 0 <= i < ws.len() ==> is_white_space(#[trigger] ws[i]),
        forall|i: int| 0 <= i < parens.len() ==> #[trigger] parens[i] == '(',
        figure.len() > 0,
        figure[0] != '(',
        !is_white_space(figure[0]),
        !is_white_space(figure.last()),
        forall|i: int| 0 <= i < figure.len() ==> #[trigger] figure[i] != '/',
    ensures
        progress_field(ws + parens + figure + "/"@ + rest) == figure,
{
    reveal_strlit("/");
    let not_slash = char_test('/', false);
    let head = ws + parens + figure;
    let chunk = head + ("/"@ + rest);
    assert(ws + parens + figure + "/"@ + rest =~= chunk);
    assert forall|i: int| 0 <= i < head.len() implies not_slash(#[trigger] head[i]) by {
        if i < ws.len() {
            assert(head[i] == ws[i]);
        } else if i < ws.len() + parens.len() {
            assert(head[i] == parens[i - ws.len()]);
        } else {
            assert(head[i] == figure[i - ws.len() - parens.len()]);
        }
    }
    lemma_count_leading_prefix(head, "/"@ + rest, not_slash);
    assert(("/"@ + rest)[0] == '/');
    assert(count_leading("/"@ + rest, not_slash) == 0);
    assert(chunk.take(head.len() as int) =~= head);
    let pf = parens + figure;
    assert(head =~= ws + pf);
    lemma_count_leading_prefix(ws, pf, white_space());
    assert(!is_white_space(pf[0])) by {
        if parens.len() > 0 {
            assert(pf[0] == parens[0]);
        } else {
            assert(pf[0] == figure[0]);
        }
    }
    assert(count_leading(pf, white_space()) == 0);
    assert(head.skip(ws.len() as int) =~= pf);
    assert(pf.last() == figure.last());
    assert(count_trailing(pf, white_space()) == 0);
    assert(pf.take(pf.len() as int) =~= pf);
    lemma_count_leading_prefix(parens, figure, char_test('(', true));
    assert(count_leading(figure, char_test('(', true)) == 0);
    assert(pf.skip(parens.len() as int) =~= figure);
}

} // verus!
