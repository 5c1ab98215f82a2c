//! Reports on what discovery found: a list of checks, each passed or
//! failed, that the caller gets back and can ask whether anything failed.
use vstd::prelude::*;
use crate::processes::{ProcessDescriptor, ProcessList, WalkEnd};
use crate::win::Windows;

verus! {

/// The largest process id that is taken for sound.
pub const MAX_SOUND_PID: u64 = 10000;

/// One check: what was looked at, and whether it was as it should be.
#[derive(Debug, PartialEq, Eq)]
pub struct Check {
    pub name: String,
    pub passed: bool,
}

pub struct CheckView {
    pub name: Seq<char>,
    pub passed: bool,
}

impl View for Check {
    type V = CheckView;

    open spec fn view(&self) -> CheckView {
        CheckView { name: self.name@, passed: self.passed }
    }
}

/// The checks made so far, in the order in which they were made.
#[derive(Debug, PartialEq, Eq)]
pub struct Report {
    pub checks: Vec<Check>,
}

impl View for Report {
    type V = Seq<CheckView>;

    open spec fn view(&self) -> Seq<CheckView> {
        Seq::new(self.checks@.len(), |i: int| self.checks@[i]@)
    }
}

/// The number of checks from place `from` on that failed.
pub open spec fn failures_from(checks: Seq<CheckView>, from: int) -> nat
    decreases checks.len() - from,
{
    if from < 0 || from >= checks.len() {
        0
    } else if checks[from].passed {
        failures_from(checks, from + 1)
    } else {
        1 + failures_from(checks, from + 1)
    }
}

/// The word that a report prints for a check.
pub open spec fn spec_word(passed: bool) -> Seq<char> {
    if passed {
        "ok"@
    } else {
        "error"@
    }
}

impl Report {
    /// A report without checks.
    pub fn new() -> (report: Report)
        ensures
            report@ == Seq::<CheckView>::empty(),
    {
        let report = Report { checks: Vec::new() };
        assert(report@ =~= Seq::<CheckView>::empty());
        report
    }

    /// Records a check and returns the word to print for it.
    pub fn bool_str(&mut self, name: &str, passed: bool) -> (word: &'static str)
        ensures
            final(self)@ == old(self)@.push(CheckView { name: name@, passed }),
            word@ == spec_word(passed),
    {
        self.checks.push(Check { name: name.to_owned(), passed });
        assert(self@ =~= old(self)@.push(CheckView { name: name@, passed }));
        if passed {
            "ok"
        } else {
            "error"
        }
    }

    /// Records whether a value is there.
    pub fn some_str<T>(&mut self, name: &str, value: &Option<T>) -> (word: &'static str)
        ensures
            final(self)@ == old(self)@.push(CheckView { name: name@, passed: value is Some }),
            word@ == spec_word(value is Some),
    {
        self.bool_str(name, value.is_some())
    }

    /// Records whether a call succeeded.
    pub fn ok_str<T, E>(&mut self, name: &str, result: &Result<T, E>) -> (word: &'static str)
        ensures
            final(self)@ == old(self)@.push(CheckView { name: name@, passed: result is Ok }),
            word@ == spec_word(result is Ok),
    {
        self.bool_str(name, result.is_ok())
    }

    /// The number of checks that failed.
    pub fn failures(&self) -> (n: usize)
        ensures
            n == failures_from(self@, 0),
    {
        let total = self.checks.len();
        let mut n: usize = 0;
        let mut i: usize = total;
        while i > 0
            invariant
                i <= total,
                total == self.checks@.len(),
                n == failures_from(self@, i as int),
                n <= self.checks@.len() - i,
            decreases i,
        {
            i -= 1;
            assert(self@[i as int] == self.checks@[i as int]@);
            if !self.checks[i].passed {
                n += 1;
            }
        }
        n
    }

    /// Whether any check failed.
    pub fn had_error(&self) -> (r: bool)
        ensures
            r == exists|i: int| 0 <= i < self@.len() && !self@[i].passed,
    {
        proof {
            lemma_failures_count(self@, 0);
        }
        self.failures() != 0
    }

    /// Checks what discovery found: the translation root, the base of the
    /// kernel image and the address of the system process are not zero,
    /// and there are symbols.
    pub fn kernel_checks(&mut self, context: &Windows)
        ensures
            final(self)@ == old(self)@ + spec_kernel_checks(*context),
    {
        let ghost before = self@;
        self.bool_str("dtb", context.kernel_stub_info().dtb != 0);
        self.bool_str("base", context.kernel_base() != 0);
        self.bool_str("eprocess_base", context.eprocess_base() != 0);
        self.bool_str("symbols", context.has_symbols());
        assert(self@ =~= before + spec_kernel_checks(*context));
    }

    /// Checks one process: its id is within bounds, and its translation
    /// root, its section base and its thread anchor are not zero.
    pub fn process_checks(&mut self, process: &ProcessDescriptor)
        ensures
            final(self)@ == old(self)@ + spec_process_checks(*process),
    {
        let ghost before = self@;
        self.bool_str("pid", process.pid < MAX_SOUND_PID);
        self.bool_str("dtb", process.dtb != 0);
        self.bool_str("section_base", process.section_base != 0);
        self.bool_str("ethread", process.ethread != 0);
        assert(self@ =~= before + spec_process_checks(*process));
    }

    /// Checks a list of processes: the walk closed, and it found a
    /// process.
    pub fn list_checks(&mut self, list: &ProcessList)
        ensures
            final(self)@ == old(self)@ + spec_list_checks(*list),
    {
        let ghost before = self@;
        let closed = match list.end {
            WalkEnd::Closed => true,
            _ => false,
        };
        self.bool_str("closed", closed);
        self.bool_str("processes", list.processes.len() != 0);
        assert(self@ =~= before + spec_list_checks(*list));
    }
}

/// The checks of what discovery found.
pub open spec fn spec_kernel_checks(context: Windows) -> Seq<CheckView> {
    seq![
        CheckView { name: "dtb"@, passed: context.stub().dtb != 0 },
        CheckView { name: "base"@, passed: context.base() != 0 },
        CheckView { name: "eprocess_base"@, passed: context.anchor() != 0 },
        CheckView { name: "symbols"@, passed: context.symbols() is Some },
    ]
}

/// The checks of one process.
pub open spec fn spec_process_checks(process: ProcessDescriptor) -> Seq<CheckView> {
    seq![
        CheckView { name: "pid"@, passed: process.pid < MAX_SOUND_PID },
        CheckView { name: "dtb"@, passed: process.dtb != 0 },
        CheckView { name: "section_base"@, passed: process.section_base != 0 },
        CheckView { name: "ethread"@, passed: process.ethread != 0 },
    ]
}

/// The checks of a list of processes.
pub open spec fn spec_list_checks(list: ProcessList) -> Seq<CheckView> {
    seq![
        CheckView { name: "closed"@, passed: list.end == WalkEnd::Closed },
        CheckView { name: "processes"@, passed: list.processes@.len() != 0 },
    ]
}

/// No check from `from` on failed exactly when the number of failures from
/// there on is zero.
pub proof fn lemma_failures_count(checks: Seq<CheckView>, from: int)
    requires
        0 <= from,
    ensures
        failures_from(checks, from) != 0 <==> exists|i: int|
            from <= i < checks.len() && !checks[i].passed,
        failures_from(checks, from) <= checks.len() - from || from >= checks.len(),
    decreases checks.len() - from,
{
    if from < checks.len() {
        lemma_failures_count(checks, from + 1);
        if checks[from].passed {
            assert forall|i: int| from <= i < checks.len() && !checks[i].passed implies from + 1
                <= i by {}
        }
    }
}

} // verus!
