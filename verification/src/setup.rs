//! Setup verification: checks that preparation was sufficient, and the
//! readiness verdict drawn from them.

use vstd::prelude::*;

verus! {

/// The verdict of a setup verification.
#[derive(Debug, Clone, PartialEq)]
pub enum VerificationResult {
    /// All checks passed; ready to proceed.
    Ready,
    /// Some checks failed, none of them critical.
    PartiallyReady { warnings: Vec<String> },
    /// A critical check failed.
    NotReady { failures: Vec<String> },
}

/// A verdict with its lines as text.
pub enum ResultModel {
    Ready,
    PartiallyReady { warnings: Seq<Seq<char>> },
    NotReady { failures: Seq<Seq<char>> },
}

impl View for VerificationResult {
    type V = ResultModel;

    open spec fn view(&self) -> ResultModel {
        match self {
            VerificationResult::Ready => ResultModel::Ready,
            VerificationResult::PartiallyReady { warnings } => ResultModel::PartiallyReady {
                warnings: warnings@.map_values(|s: String| s@),
            },
            VerificationResult::NotReady { failures } => ResultModel::NotReady {
                failures: failures@.map_values(|s: String| s@),
            },
        }
    }
}

/// What a verification check holds, as the contracts speak of it.
pub struct CheckModel {
    pub name: Seq<char>,
    pub description: Seq<char>,
    pub passed: bool,
    pub message: Option<Seq<char>>,
    pub critical: bool,
}

/// A single verification check.
#[derive(Debug, Clone)]
pub struct VerificationCheck {
    name: String,
    /// What this check verifies.
    pub description: String,
    passed: bool,
    message: Option<String>,
    critical: bool,
}

impl View for VerificationCheck {
    type V = CheckModel;

    closed spec fn view(&self) -> CheckModel {
        CheckModel {
            name: self.name@,
            description: self.description@,
            passed: self.passed,
            message: match &self.message {
                Some(m) => Some(m@),
                None => None,
            },
            critical: self.critical,
        }
    }
}

impl VerificationCheck {
    /// A passing, non-critical check named `name`.
    pub fn pass(name: &str) -> (r: Self)
        ensures
            r@ == (CheckModel {
                name: name@,
                description: Seq::<char>::empty(),
                passed: true,
                message: None,
                critical: false,
            }),
    {
        VerificationCheck {
            name: name.to_owned(),
            description: String::new(),
            passed: true,
            message: None,
            critical: false,
        }
    }

    /// A failing, non-critical check named `name`, failed for `reason`.
    pub fn fail(name: &str, reason: &str) -> (r: Self)
        ensures
            r@ == (CheckModel {
                name: name@,
                description: Seq::<char>::empty(),
                passed: false,
                message: Some(reason@),
                critical: false,
            }),
    {
        VerificationCheck {
            name: name.to_owned(),
            description: String::new(),
            passed: false,
            message: Some(reason.to_owned()),
            critical: false,
        }
    }

    /// Marks the check as critical: its failure means not ready.
    pub fn critical(self) -> (r: Self)
        ensures
            r@ == (CheckModel { critical: true, ..self@ }),
    {
        let mut s = self;
        s.critical = true;
        s
    }

    /// Sets the description.
    pub fn with_description(self, desc: &str) -> (r: Self)
        ensures
            r@ == (CheckModel { description: desc@, ..self@ }),
    {
        let mut s = self;
        s.description = desc.to_owned();
        s
    }
}

/// The line that reports a failed check: its name, `": "` and its message,
/// or `default` where it has none.
pub open spec fn failure_line(c: CheckModel, default: Seq<char>) -> Seq<char> {
    c.name + ": "@ + match c.message {
        Some(m) => m,
        None => default,
    }
}

/// The checks of `s` that passed.
pub open spec fn passing(s: Seq<CheckModel>) -> Seq<CheckModel> {
    s.filter(|c: CheckModel| c.passed)
}

/// The checks of `s` that failed.
pub open spec fn failing(s: Seq<CheckModel>) -> Seq<CheckModel> {
    s.filter(|c: CheckModel| !c.passed)
}

/// The report lines of the failed checks of `s`, in order.
pub open spec fn failure_lines(s: Seq<CheckModel>, default: Seq<char>) -> Seq<Seq<char>> {
    failing(s).map_values(|c: CheckModel| failure_line(c, default))
}

/// Some critical check of `s` failed.
pub open spec fn has_critical_failure(s: Seq<CheckModel>) -> bool {
    exists|i: int| 0 <= i < s.len() && #[trigger] s[i].critical && !s[i].passed
}

/// The verdict on the checks `s`: ready with no checks; not ready, listing
/// every failed check, if a critical one failed; otherwise ready if none
/// failed, and partially ready, listing the failed checks, if some did.
pub open spec fn verdict(s: Seq<CheckModel>) -> ResultModel {
    if s.len() == 0 {
        ResultModel::Ready
    } else if has_critical_failure(s) {
        ResultModel::NotReady { failures: failure_lines(s, "failed"@) }
    } else if failing(s).len() == 0 {
        ResultModel::Ready
    } else {
        ResultModel::PartiallyReady { warnings: failure_lines(s, "warning"@) }
    }
}

/// What a setup verification holds, as the contracts speak of it.
pub struct SetupModel {
    pub checks: Seq<CheckModel>,
    pub verified: bool,
}

/// The calls that change a setup verification after it is made.
pub enum SetupOp {
    AddCheck(CheckModel),
    Verify,
}

/// What the call `op` makes of a setup verification that held `before`:
/// `after`.
pub open spec fn setup_step(before: SetupModel, op: SetupOp, after: SetupModel) -> bool {
    match op {
        SetupOp::AddCheck(c) => after.checks == before.checks.push(c) && !after.verified,
        SetupOp::Verify => after.checks == before.checks && after.verified,
    }
}

/// Verifies that setup preparation was sufficient.
#[derive(Debug, Clone)]
pub struct SetupVerification {
    checks: Vec<VerificationCheck>,
    verified: bool,
}

impl View for SetupVerification {
    type V = SetupModel;

    closed spec fn view(&self) -> SetupModel {
        SetupModel {
            checks: self.checks@.map_values(|c: VerificationCheck| c@),
            verified: self.verified,
        }
    }
}

/// The report line of one failed check.
fn report_line(c: &VerificationCheck, default: &str) -> (r: String)
    ensures
        r@ == failure_line(c@, default@),
{
    let mut s = c.name.clone();
    s.append(": ");
    match &c.message {
        Some(m) => s.append(m.as_str()),
        None => s.append(default),
    }
    s
}

impl SetupVerification {
    /// A setup verification with no checks, not yet run.
    pub fn new() -> (r: Self)
        ensures
            r@.checks == Seq::<CheckModel>::empty(),
            !r@.verified,
    {
        let r = SetupVerification { checks: Vec::new(), verified: false };
        assert(r@.checks =~= Seq::<CheckModel>::empty());
        r
    }

    /// Adds a check; the verification has to be run again.
    pub fn add_check(&mut self, check: VerificationCheck)
        ensures
            final(self)@.checks == old(self)@.checks.push(check@),
            !final(self)@.verified,
            setup_step(old(self)@, SetupOp::AddCheck(check@), final(self)@),
    {
        self.checks.push(check);
        self.verified = false;
        assert(self@.checks =~= old(self)@.checks.push(check@));
    }

    /// Whether some critical check failed.
    fn any_critical_failure(&self) -> (r: bool)
        ensures
            r == has_critical_failure(self@.checks),
    {
        let ghost s = self@.checks;
        let mut i: usize = 0;
        while i < self.checks.len()
            invariant
                i <= self.checks@.len(),
                s == self@.checks,
                forall|k: int| 0 <= k < i ==> !(#[trigger] s[k].critical && !s[k].passed),
            decreases self.checks@.len() - i,
        {
            let c = &self.checks[i];
            if c.critical && !c.passed {
                assert(s[i as int].critical && !s[i as int].passed);
                return true;
            }
            i = i + 1;
        }
        false
    }

    /// The report lines of the failed checks, with `default` for a check
    /// that has no message.
    fn report(&self, default: &str) -> (r: Vec<String>)
        ensures
            r@.map_values(|s: String| s@) == failure_lines(self@.checks, default@),
    {
        let ghost s = self@.checks;
        let mut out: Vec<String> = Vec::new();
        let mut i: usize = 0;
        while i < self.checks.len()
            invariant
                i <= self.checks@.len(),
                s == self@.checks,
                out@.map_values(|t: String| t@) == failure_lines(s.take(i as int), default@),
            decreases self.checks@.len() - i,
        {
            proof {
                assert(s.take(i + 1) =~= s.take(i as int).push(s[i as int]));
                s.take(i as int).lemma_filter_push(s[i as int], |c: CheckModel| !c.passed);
            }
            let ghost before = out@;
            let c = &self.checks[i];
            if !c.passed {
                let line = report_line(c, default);
                out.push(line);
                proof {
                    assert(failing(s.take(i + 1)) == failing(s.take(i as int)).push(s[i as int]));
                    assert(failing(s.take(i as int)).push(s[i as int]).map_values(
                        |c: CheckModel| failure_line(c, default@),
                    ) =~= failure_lines(s.take(i as int), default@).push(
                        failure_line(s[i as int], default@),
                    ));
                    assert(out@.map_values(|t: String| t@) =~= before.map_values(
                        |t: String| t@,
                    ).push(line@));
                }
            } else {
                assert(failing(s.take(i + 1)) == failing(s.take(i as int)));
            }
            i = i + 1;
        }
        assert(s.take(s.len() as int) =~= s);
        out
    }

    /// Runs all checks and returns the verdict.
    pub fn verify(&mut self) -> (r: VerificationResult)
        ensures
            r@ == verdict(old(self)@.checks),
            final(self)@.checks == old(self)@.checks,
            final(self)@.verified,
            setup_step(old(self)@, SetupOp::Verify, final(self)@),
    {
        self.verified = true;
        if self.checks.len() == 0 {
            return VerificationResult::Ready;
        }
        if self.any_critical_failure() {
            let failures = self.report("failed");
            return VerificationResult::NotReady { failures };
        }
        let warnings = self.report("warning");
        assert(warnings@.map_values(|t: String| t@).len() == warnings@.len());
        if warnings.len() == 0 {
            VerificationResult::Ready
        } else {
            VerificationResult::PartiallyReady { warnings }
        }
    }

    /// Number of checks.
    pub fn check_count(&self) -> (r: usize)
        ensures
            r == self@.checks.len(),
    {
        self.checks.len()
    }

    /// Number of passing checks.
    pub fn passing_count(&self) -> (r: usize)
        ensures
            r == passing(self@.checks).len(),
    {
        let ghost s = self@.checks;
        let mut n: usize = 0;
        let mut i: usize = 0;
        while i < self.checks.len()
            invariant
                i <= self.checks@.len(),
                s == self@.checks,
                n == passing(s.take(i as int)).len(),
                n <= i,
            decreases self.checks@.len() - i,
        {
            proof {
                assert(s.take(i + 1) =~= s.take(i as int).push(s[i as int]));
                s.take(i as int).lemma_filter_push(s[i as int], |c: CheckModel| c.passed);
            }
            if self.checks[i].passed {
                n = n + 1;
            }
            i = i + 1;
        }
        assert(s.take(s.len() as int) =~= s);
        n
    }

    /// Number of failing checks.
    pub fn failing_count(&self) -> (r: usize)
        ensures
            r == failing(self@.checks).len(),
    {
        let ghost s = self@.checks;
        let mut n: usize = 0;
        let mut i: usize = 0;
        while i < self.checks.len()
            invariant
                i <= self.checks@.len(),
                s == self@.checks,
                n == failing(s.take(i as int)).len(),
                n <= i,
            decreases self.checks@.len() - i,
        {
            proof {
                assert(s.take(i + 1) =~= s.take(i as int).push(s[i as int]));
                s.take(i as int).lemma_filter_push(s[i as int], |c: CheckModel| !c.passed);
            }
            if !self.checks[i].passed {
                n = n + 1;
            }
            i = i + 1;
        }
        assert(s.take(s.len() as int) =~= s);
        n
    }

    /// Whether the verification has been run since the last check was added.
    pub fn is_verified(&self) -> (r: bool)
        ensures
            r == self@.verified,
    {
        self.verified
    }
}

impl Default for SetupVerification {
    fn default() -> (r: Self)
        ensures
            r@.checks == Seq::<CheckModel>::empty(),
            !r@.verified,
    {
        Self::new()
    }
}

} // verus!
