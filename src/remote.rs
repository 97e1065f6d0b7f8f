//! The shell commands sent to the remote host, and how their results are
//! classified.
use vstd::prelude::*;
use vstd::string::*;

verus! {

/// What became of one step of a deployment run.
#[derive(Debug, Clone, PartialEq, Eq)]
pub enum StepOutcome {
    /// The step did what it was asked.
    Succeeded,
    /// The step failed because what it was to bring about already held.
    AlreadySatisfied,
    /// The step failed; the text is what the host or the transport said.
    Failed(String),
}

/// Whether `phrase` occurs in `text` as a run of consecutive characters.
pub open spec fn contains_phrase(text: Seq<char>, phrase: Seq<char>) -> bool {
    exists|i: int|
        0 <= i && i + phrase.len() <= text.len() && #[trigger] text.subrange(i, i + phrase.len())
            == phrase
}

/// What a failed directory creation reports when the directory is there already.
pub open spec fn already_exists_phrase() -> Seq<char> {
    "File exists"@
}

fn matches_at(text: &str, phrase: &str, i: usize, k: usize) -> (r: bool)
    requires
        k == phrase@.len(),
        i + k <= text@.len(),
        text@.len() <= usize::MAX,
    ensures
        r == (text@.subrange(i as int, i + k) == phrase@),
{
    let mut j: usize = 0;
    while j < k
        invariant
            k == phrase@.len(),
            i + k <= text@.len(),
            text@.len() <= usize::MAX,
            j <= k,
            forall|m: int| 0 <= m < j ==> text@[i + m] == phrase@[m],
        decreases k - j,
    {
        if text.get_char(i + j) != phrase.get_char(j) {
            assert(text@.subrange(i as int, i + k)[j as int] != phrase@[j as int]);
            return false;
        }
        j += 1;
    }
    assert(text@.subrange(i as int, i + k) =~= phrase@);
    true
}

/// Whether `phrase` occurs in `text`.
pub fn contains_text(text: &str, phrase: &str) -> (r: bool)
    ensures
        r == contains_phrase(text@, phrase@),
{
    let n = text.unicode_len();
    let k = phrase.unicode_len();
    if k > n {
        return false;
    }
    if k == 0 {
        assert(text@.subrange(0, 0 + phrase@.len() as int) =~= phrase@);
        return true;
    }
    let mut i: usize = 0;
    while i <= n - k
        invariant
            n == text@.len(),
            k == phrase@.len(),
            0 < k <= n,
            i <= n - k + 1,
            forall|j: int| 0 <= j < i ==> #[trigger] text@.subrange(j, j + k) != phrase@,
        decreases n - k + 1 - i,
    {
        if matches_at(text, phrase, i, k) {
            return true;
        }
        i += 1;
    }
    false
}

/// Whether a failure message says that the target of a directory creation
/// exists already.
pub fn is_already_exists_error(message: &str) -> (r: bool)
    ensures
        r == contains_phrase(message@, already_exists_phrase()),
{
    contains_text(message, "File exists")
}

/// The outcome of a directory creation: a command that ran is a success, a
/// failure that says the directory exists is benign, any other failure is
/// reported with its message.
pub open spec fn directory_outcome(result: Result<Seq<char>, Seq<char>>) -> StepOutcomeView {
    match result {
        Ok(_) => StepOutcomeView::Succeeded,
        Err(m) => if contains_phrase(m, already_exists_phrase()) {
            StepOutcomeView::AlreadySatisfied
        } else {
            StepOutcomeView::Failed(m)
        },
    }
}

/// The outcome of a service stop or start: the service manager prints nothing
/// when it succeeds, so empty output is a success and any output is the
/// failure it reports.
pub open spec fn service_outcome(result: Result<Seq<char>, Seq<char>>) -> StepOutcomeView {
    match result {
        Ok(out) => if out.len() == 0 {
            StepOutcomeView::Succeeded
        } else {
            StepOutcomeView::Failed(out)
        },
        Err(m) => StepOutcomeView::Failed(m),
    }
}

/// The value of a `StepOutcome`, with its text as characters.
pub enum StepOutcomeView {
    Succeeded,
    AlreadySatisfied,
    Failed(Seq<char>),
}

impl View for StepOutcome {
    type V = StepOutcomeView;

    open spec fn view(&self) -> StepOutcomeView {
        match self {
            StepOutcome::Succeeded => StepOutcomeView::Succeeded,
            StepOutcome::AlreadySatisfied => StepOutcomeView::AlreadySatisfied,
            StepOutcome::Failed(m) => StepOutcomeView::Failed(m@),
        }
    }
}

/// The value of a command's result, with its texts as characters.
pub open spec fn result_view(result: &Result<String, String>) -> Result<Seq<char>, Seq<char>> {
    match result {
        Ok(s) => Ok(s@),
        Err(m) => Err(m@),
    }
}

/// Classifies the result of the directory creation command.
pub fn classify_directory_result(result: Result<String, String>) -> (r: StepOutcome)
    ensures
        r@ == directory_outcome(result_view(&result)),
{
    match result {
        Ok(_) => StepOutcome::Succeeded,
        Err(m) => if is_already_exists_error(m.as_str()) {
            StepOutcome::AlreadySatisfied
        } else {
            StepOutcome::Failed(m)
        },
    }
}

/// Classifies the result of a service stop or start command.
pub fn classify_service_result(result: Result<String, String>) -> (r: StepOutcome)
    ensures
        r@ == service_outcome(result_view(&result)),
{
    match result {
        Ok(out) => if out.as_str().unicode_len() == 0 {
            StepOutcome::Succeeded
        } else {
            StepOutcome::Failed(out)
        },
        Err(m) => StepOutcome::Failed(m),
    }
}

/// A failure message that holds the already-exists phrase is benign for the
/// directory step, whatever else it says.
pub proof fn lemma_existing_directory_is_benign(prefix: Seq<char>, suffix: Seq<char>)
    ensures
        directory_outcome(Err(prefix + already_exists_phrase() + suffix))
            == StepOutcomeView::AlreadySatisfied,
{
    let m = prefix + already_exists_phrase() + suffix;
    let p = already_exists_phrase();
    assert(m.subrange(prefix.len() as int, prefix.len() + p.len() as int) =~= p);
}

pub open spec fn mkdir_command(dir: Seq<char>) -> Seq<char> {
    "mkdir "@ + dir
}

pub open spec fn stop_command(service: Seq<char>) -> Seq<char> {
    "sudo systemctl stop "@ + service
}

pub open spec fn start_command(service: Seq<char>) -> Seq<char> {
    "sudo systemctl start "@ + service
}

pub open spec fn enable_command(service: Seq<char>) -> Seq<char> {
    "sudo systemctl enable "@ + service
}

pub open spec fn reload_command() -> Seq<char> {
    "sudo systemctl daemon-reload"@
}

pub open spec fn chmod_command(path: Seq<char>) -> Seq<char> {
    "chmod +x \""@ + path + "\""@
}

/// Where the unit file of a service is installed.
pub open spec fn unit_file_path(service: Seq<char>) -> Seq<char> {
    "/etc/systemd/system/"@ + service + ".service"@
}

/// The text `a` followed by `b`.
pub fn join2(a: &str, b: &str) -> (r: String)
    ensures
        r@ == a@ + b@,
{
    let mut r = String::from_str(a);
    r.append(b);
    r
}

/// The text `a`, then `b`, then `c`.
pub fn join3(a: &str, b: &str, c: &str) -> (r: String)
    ensures
        r@ == a@ + b@ + c@,
{
    let mut r = String::from_str(a);
    r.append(b);
    r.append(c);
    r
}

/// The command that creates the directory `dir`.
pub fn make_mkdir_command(dir: &str) -> (r: String)
    ensures
        r@ == mkdir_command(dir@),
{
    join2("mkdir ", dir)
}

/// The command that stops `service`.
pub fn make_stop_command(service: &str) -> (r: String)
    ensures
        r@ == stop_command(service@),
{
    join2("sudo systemctl stop ", service)
}

/// The command that starts `service`.
pub fn make_start_command(service: &str) -> (r: String)
    ensures
        r@ == start_command(service@),
{
    join2("sudo systemctl start ", service)
}

/// The command that enables `service` at boot.
pub fn make_enable_command(service: &str) -> (r: String)
    ensures
        r@ == enable_command(service@),
{
    join2("sudo systemctl enable ", service)
}

/// The command that has the service manager reread its unit files.
pub fn make_reload_command() -> (r: String)
    ensures
        r@ == reload_command(),
{
    String::from_str("sudo systemctl daemon-reload")
}

/// The command that makes the file at `path` executable.
pub fn make_chmod_command(path: &str) -> (r: String)
    ensures
        r@ == chmod_command(path@),
{
    join3("chmod +x \"", path, "\"")
}

/// The path of the unit file of `service`.
pub fn make_unit_file_path(service: &str) -> (r: String)
    ensures
        r@ == unit_file_path(service@),
{
    join3("/etc/systemd/system/", service, ".service")
}

} // verus!
