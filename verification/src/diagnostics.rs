//! Check results, the report that carries them, and the verdict drawn from
//! them.

use vstd::prelude::*;

verus! {

/// The verdict of one check.
#[derive(Clone, Copy, Debug, PartialEq, Eq, Structural)]
pub enum CheckStatus {
    Pass,
    Warn,
    Fail,
}

/// The verdict over all checks of a report.
#[derive(Clone, Copy, Debug, PartialEq, Eq, Structural)]
pub enum OverallStatus {
    Healthy,
    Degraded,
    Unhealthy,
}

/// A remedy offered with a check: what to show, and the command behind it.
#[derive(Clone, Debug, PartialEq, Eq)]
pub struct DiagnosticAction {
    pub label: String,
    pub command: String,
}

/// The result of one health check.
#[derive(Clone, Debug, PartialEq, Eq)]
pub struct DiagnosticCheck {
    pub id: String,
    pub name: String,
    pub status: CheckStatus,
    pub message: String,
    pub metric: Option<String>,
    pub detail: Option<String>,
    pub action: Option<DiagnosticAction>,
}

/// The checks of one run, in the order in which they were made, with the
/// verdict over them.
#[derive(Debug, PartialEq, Eq)]
pub struct DiagnosticsReport {
    pub timestamp: u64,
    pub checks: Vec<DiagnosticCheck>,
    pub overall_status: OverallStatus,
}

/// Memory, disk and processor figures of the machine.
#[derive(Debug, PartialEq, Eq)]
pub struct SystemInfo {
    pub total_ram: u64,
    pub available_ram: u64,
    pub used_ram: u64,
    pub total_disk: u64,
    pub free_disk: u64,
    pub cpu_brand: String,
    pub cpu_count: usize,
}

/// The model of a [`DiagnosticAction`].
pub struct ActionView {
    pub label: Seq<char>,
    pub command: Seq<char>,
}

/// The model of a [`DiagnosticCheck`]: its texts as sequences of characters.
pub struct CheckView {
    pub id: Seq<char>,
    pub name: Seq<char>,
    pub status: CheckStatus,
    pub message: Seq<char>,
    pub metric: Option<Seq<char>>,
    pub detail: Option<Seq<char>>,
    pub action: Option<ActionView>,
}

/// The characters of an optional text.
pub open spec fn optional_text(text: Option<String>) -> Option<Seq<char>> {
    match text {
        Some(t) => Some(t@),
        None => None,
    }
}

impl View for DiagnosticAction {
    type V = ActionView;

    open spec fn view(&self) -> ActionView {
        ActionView { label: self.label@, command: self.command@ }
    }
}

impl View for DiagnosticCheck {
    type V = CheckView;

    open spec fn view(&self) -> CheckView {
        CheckView {
            id: self.id@,
            name: self.name@,
            status: self.status,
            message: self.message@,
            metric: optional_text(self.metric),
            detail: optional_text(self.detail),
            action: match self.action {
                Some(a) => Some(a@),
                None => None,
            },
        }
    }
}

/// The models of a list of checks, in order.
pub open spec fn checks_view(checks: Seq<DiagnosticCheck>) -> Seq<CheckView> {
    checks.map_values(|c: DiagnosticCheck| c@)
}

/// The name under which a status is shown.
pub open spec fn status_label(status: CheckStatus) -> Seq<char> {
    match status {
        CheckStatus::Pass => "pass"@,
        CheckStatus::Warn => "warn"@,
        CheckStatus::Fail => "fail"@,
    }
}

/// The name under which a verdict is shown.
pub open spec fn overall_label(overall: OverallStatus) -> Seq<char> {
    match overall {
        OverallStatus::Healthy => "healthy"@,
        OverallStatus::Degraded => "degraded"@,
        OverallStatus::Unhealthy => "unhealthy"@,
    }
}

/// How many of the checks have the given status.
pub open spec fn count_status(checks: Seq<DiagnosticCheck>, status: CheckStatus) -> nat
    decreases checks.len(),
{
    if checks.len() == 0 {
        0
    } else {
        count_status(checks.drop_last(), status) + if checks.last().status == status {
            1nat
        } else {
            0nat
        }
    }
}

/// Whether at least one of the checks has the given status.
pub open spec fn some_check_is(checks: Seq<DiagnosticCheck>, status: CheckStatus) -> bool {
    exists|i: int| 0 <= i < checks.len() && (#[trigger] checks[i]).status == status
}

/// The verdict over a list of checks: a failure outweighs a warning, and a
/// warning outweighs any number of passes.
pub open spec fn overall_of(checks: Seq<DiagnosticCheck>) -> OverallStatus {
    if some_check_is(checks, CheckStatus::Fail) {
        OverallStatus::Unhealthy
    } else if some_check_is(checks, CheckStatus::Warn) {
        OverallStatus::Degraded
    } else {
        OverallStatus::Healthy
    }
}

/// A status is counted at least once exactly when some check has it.
pub proof fn lemma_count_positive(checks: Seq<DiagnosticCheck>, status: CheckStatus)
    ensures
        count_status(checks, status) > 0 <==> some_check_is(checks, status),
        count_status(checks, status) <= checks.len(),
    decreases checks.len(),
{
    if checks.len() > 0 {
        let front = checks.drop_last();
        lemma_count_positive(front, status);
        if some_check_is(checks, status) {
            let i = choose|i: int| 0 <= i < checks.len() && (#[trigger] checks[i]).status == status;
            if i < front.len() {
                assert(front[i].status == status);
            }
        }
        if some_check_is(front, status) {
            let i = choose|i: int| 0 <= i < front.len() && (#[trigger] front[i]).status == status;
            assert(checks[i].status == status);
        }
        if checks.last().status == status {
            assert(checks[checks.len() - 1].status == status);
        }
    }
}

impl CheckStatus {
    /// The name under which the status is shown.
    pub fn label(&self) -> (out: &'static str)
        ensures
            out@ == status_label(*self),
    {
        match self {
            CheckStatus::Pass => "pass",
            CheckStatus::Warn => "warn",
            CheckStatus::Fail => "fail",
        }
    }
}

/// The status that is shown under a name, if there is one.
pub open spec fn status_named(label: Seq<char>) -> Option<CheckStatus> {
    if label == "pass"@ {
        Some(CheckStatus::Pass)
    } else if label == "warn"@ {
        Some(CheckStatus::Warn)
    } else if label == "fail"@ {
        Some(CheckStatus::Fail)
    } else {
        None
    }
}

/// Every status is the one that is shown under its own name.
pub proof fn law_status_is_read_back(status: CheckStatus)
    ensures
        status_named(status_label(status)) == Some(status),
{
    reveal_strlit("pass");
    reveal_strlit("warn");
    reveal_strlit("fail");
    assert("pass"@[0] != "warn"@[0]);
    assert("pass"@[0] != "fail"@[0]);
    assert("warn"@[0] != "fail"@[0]);
}

/// Reads a status from the name under which it is shown.
pub fn status_from_label(label: &str) -> (out: Option<CheckStatus>)
    ensures
        out == status_named(label@),
{
    let shown = crate::text::owned(label);
    if shown == crate::text::owned("pass") {
        Some(CheckStatus::Pass)
    } else if shown == crate::text::owned("warn") {
        Some(CheckStatus::Warn)
    } else if shown == crate::text::owned("fail") {
        Some(CheckStatus::Fail)
    } else {
        None
    }
}

impl OverallStatus {
    /// The name under which the verdict is shown.
    pub fn label(&self) -> (out: &'static str)
        ensures
            out@ == overall_label(*self),
    {
        match self {
            OverallStatus::Healthy => "healthy",
            OverallStatus::Degraded => "degraded",
            OverallStatus::Unhealthy => "unhealthy",
        }
    }
}

/// Counts the checks that have the given status.
pub fn count_checks(checks: &Vec<DiagnosticCheck>, status: CheckStatus) -> (n: usize)
    ensures
        n == count_status(checks@, status),
{
    let mut n: usize = 0;
    let mut i: usize = 0;
    while i < checks.len()
        invariant
            i <= checks.len(),
            n == count_status(checks@.subrange(0, i as int), status),
            n <= i,
        decreases checks.len() - i,
    {
        proof {
            let next = checks@.subrange(0, i + 1);
            assert(next.drop_last() == checks@.subrange(0, i as int));
            assert(next.last() == checks@[i as int]);
        }
        if checks[i].status == status {
            n += 1;
        }
        i += 1;
    }
    assert(checks@.subrange(0, checks.len() as int) == checks@);
    n
}

/// The verdict over a list of checks.
///
/// It is `Unhealthy` exactly when some check failed; otherwise `Degraded`
/// exactly when some check warned; otherwise `Healthy`.
pub fn overall_status(checks: &Vec<DiagnosticCheck>) -> (overall: OverallStatus)
    ensures
        overall == overall_of(checks@),
        overall == OverallStatus::Unhealthy <==> some_check_is(checks@, CheckStatus::Fail),
        overall == OverallStatus::Degraded <==> !some_check_is(checks@, CheckStatus::Fail)
            && some_check_is(checks@, CheckStatus::Warn),
        overall == OverallStatus::Healthy <==> !some_check_is(checks@, CheckStatus::Fail)
            && !some_check_is(checks@, CheckStatus::Warn),
{
    let fail_count = count_checks(checks, CheckStatus::Fail);
    let warn_count = count_checks(checks, CheckStatus::Warn);
    proof {
        lemma_count_positive(checks@, CheckStatus::Fail);
        lemma_count_positive(checks@, CheckStatus::Warn);
    }
    if fail_count > 0 {
        OverallStatus::Unhealthy
    } else if warn_count > 0 {
        OverallStatus::Degraded
    } else {
        OverallStatus::Healthy
    }
}

impl DiagnosticsReport {
    /// Whether the verdict is the one that the checks give.
    pub open spec fn well_formed(&self) -> bool {
        self.overall_status == overall_of(self.checks@)
    }

    /// The report over `checks`, taken at `timestamp`.
    pub fn new(timestamp: u64, checks: Vec<DiagnosticCheck>) -> (report: DiagnosticsReport)
        ensures
            report.well_formed(),
            report.timestamp == timestamp,
            report.checks == checks,
    {
        let overall_status = overall_status(&checks);
        DiagnosticsReport { timestamp, checks, overall_status }
    }
}

} // verus!
