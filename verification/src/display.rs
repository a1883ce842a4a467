use vstd::prelude::*;

verus! {

use vstd::string::StrSliceExecFns;
use vstd::string::StringExecFns;

use crate::MemtestReport;
use crate::MemtestReportList;
use crate::MemtesterError;
use crate::memtest::ErrorCause;
use crate::memtest::MemtestError;
use crate::memtest::MemtestFailure;
use crate::memtest::MemtestKind;
use crate::memtest::MemtestOutcome;

/// The decimal digit character for `d`.
pub open spec fn digit_char(d: int) -> char {
    if d == 0 {
        '0'
    } else if d == 1 {
        '1'
    } else if d == 2 {
        '2'
    } else if d == 3 {
        '3'
    } else if d == 4 {
        '4'
    } else if d == 5 {
        '5'
    } else if d == 6 {
        '6'
    } else if d == 7 {
        '7'
    } else if d == 8 {
        '8'
    } else {
        '9'
    }
}

/// The decimal digits of `n`, most significant first.
pub open spec fn dec_digits(n: nat) -> Seq<char>
    decreases n,
{
    if n < 10 {
        seq![digit_char(n as int)]
    } else {
        dec_digits(n / 10).push(digit_char((n % 10) as int))
    }
}

fn digit_str(d: usize) -> (r: &'static str)
    requires
        d < 10,
    ensures
        r@ == seq![digit_char(d as int)],
{
    proof {
        reveal_strlit("0");
        reveal_strlit("1");
        reveal_strlit("2");
        reveal_strlit("3");
        reveal_strlit("4");
        reveal_strlit("5");
        reveal_strlit("6");
        reveal_strlit("7");
        reveal_strlit("8");
        reveal_strlit("9");
    }
    let r = if d == 0 {
        "0"
    } else if d == 1 {
        "1"
    } else if d == 2 {
        "2"
    } else if d == 3 {
        "3"
    } else if d == 4 {
        "4"
    } else if d == 5 {
        "5"
    } else if d == 6 {
        "6"
    } else if d == 7 {
        "7"
    } else if d == 8 {
        "8"
    } else {
        "9"
    };
    proof {
        assert(r@ =~= seq![digit_char(d as int)]);
    }
    r
}

/// Render `n` in decimal.
pub fn decimal(n: usize) -> (s: String)
    ensures
        s@ == dec_digits(n as nat),
    decreases n,
{
    let d = n % 10;
    if n < 10 {
        String::from_str(digit_str(d))
    } else {
        let mut s = decimal(n / 10);
        s.append(digit_str(d));
        proof {
            assert(s@ =~= dec_digits(n as nat));
        }
        s
    }
}

/// A run of `n` spaces (none when `n` is not positive).
pub open spec fn spaces(n: int) -> Seq<char>
    decreases n,
{
    if n <= 0 {
        Seq::empty()
    } else {
        spaces(n - 1).push(' ')
    }
}

fn append_spaces(s: &mut String, count: usize)
    ensures
        final(s)@ == old(s)@ + spaces(count as int),
{
    let ghost base = s@;
    let mut i: usize = 0;
    while i < count
        invariant
            i <= count,
            s@ == base + spaces(i as int),
        decreases count - i,
    {
        s.append(" ");
        proof {
            reveal_strlit(" ");
            assert(s@ =~= base + spaces(i + 1));
        }
        i = i + 1;
    }
    proof {
        assert(s@ =~= old(s)@ + spaces(count as int));
    }
}

/// The label of a test kind.
pub open spec fn kind_label(kind: MemtestKind) -> Seq<char> {
    match kind {
        MemtestKind::OwnAddressBasic => "OwnAddressBasic"@,
        MemtestKind::OwnAddressRepeat => "OwnAddressRepeat"@,
        MemtestKind::RandomVal => "RandomVal"@,
        MemtestKind::Xor => "Xor"@,
        MemtestKind::Sub => "Sub"@,
        MemtestKind::Mul => "Mul"@,
        MemtestKind::Div => "Div"@,
        MemtestKind::Or => "Or"@,
        MemtestKind::And => "And"@,
        MemtestKind::SeqInc => "SeqInc"@,
        MemtestKind::SolidBits => "SolidBits"@,
        MemtestKind::Checkerboard => "Checkerboard"@,
        MemtestKind::BlockSeq => "BlockSeq"@,
    }
}

impl MemtestKind {
    /// The kind's name, as it appears in a rendered report.
    pub fn name(&self) -> (r: &'static str)
        ensures
            r@ == kind_label(*self),
    {
        match self {
            MemtestKind::OwnAddressBasic => "OwnAddressBasic",
            MemtestKind::OwnAddressRepeat => "OwnAddressRepeat",
            MemtestKind::RandomVal => "RandomVal",
            MemtestKind::Xor => "Xor",
            MemtestKind::Sub => "Sub",
            MemtestKind::Mul => "Mul",
            MemtestKind::Div => "Div",
            MemtestKind::Or => "Or",
            MemtestKind::And => "And",
            MemtestKind::SeqInc => "SeqInc",
            MemtestKind::SolidBits => "SolidBits",
            MemtestKind::Checkerboard => "Checkerboard",
            MemtestKind::BlockSeq => "BlockSeq",
        }
    }
}

/// The label of an error cause.
pub open spec fn cause_label(c: ErrorCause) -> Seq<char> {
    match c {
        ErrorCause::InsufficientMemoryLength => "insufficient memory length"@,
        ErrorCause::InsufficientMemoryLengthTwoRegions => (
        "insufficient memory length for two-regions memtest"@),
        ErrorCause::IterationCountOverflow => "total number of iterations overflowed"@,
        ErrorCause::ThreadPanicked => "thread panicked"@,
        ErrorCause::LockQuotaExceeded => "failed to lock requested memory size"@,
        ErrorCause::LockOsFailure => "memory locking failed"@,
        ErrorCause::LockDecrementedToZero => (
        "failed to lock any memory, memory size has been decremented to 0"@),
    }
}

impl ErrorCause {
    /// A short description of the cause.
    pub fn describe(&self) -> (r: &'static str)
        ensures
            r@ == cause_label(*self),
    {
        match self {
            ErrorCause::InsufficientMemoryLength => "insufficient memory length",
            ErrorCause::InsufficientMemoryLengthTwoRegions => (
            "insufficient memory length for two-regions memtest"),
            ErrorCause::IterationCountOverflow => "total number of iterations overflowed",
            ErrorCause::ThreadPanicked => "thread panicked",
            ErrorCause::LockQuotaExceeded => "failed to lock requested memory size",
            ErrorCause::LockOsFailure => "memory locking failed",
            ErrorCause::LockDecrementedToZero => (
            "failed to lock any memory, memory size has been decremented to 0"),
        }
    }
}

/// The text of a failure record.
pub open spec fn failure_text(f: MemtestFailure) -> Seq<char> {
    match f {
        MemtestFailure::UnexpectedValue { address, expected, actual } => "Fail: address "@
            + dec_digits(address as nat) + " expected "@ + dec_digits(expected as nat)
            + " actual "@ + dec_digits(actual as nat),
        MemtestFailure::MismatchedValues { address1, value1, address2, value2 } => (
        "Fail: address "@ + dec_digits(address1 as nat) + " value "@ + dec_digits(value1 as nat)
            + " differs from address "@ + dec_digits(address2 as nat) + " value "@ + dec_digits(
            value2 as nat,
        )),
    }
}

impl MemtestFailure {
    /// Render the failure record.
    pub fn describe(&self) -> (s: String)
        ensures
            s@ == failure_text(*self),
    {
        match self {
            MemtestFailure::UnexpectedValue { address, expected, actual } => {
                let mut s = String::from_str("Fail: address ");
                s.append(decimal(*address).as_str());
                s.append(" expected ");
                s.append(decimal(*expected).as_str());
                s.append(" actual ");
                s.append(decimal(*actual).as_str());
                s
            },
            MemtestFailure::MismatchedValues { address1, value1, address2, value2 } => {
                let mut s = String::from_str("Fail: address ");
                s.append(decimal(*address1).as_str());
                s.append(" value ");
                s.append(decimal(*value1).as_str());
                s.append(" differs from address ");
                s.append(decimal(*address2).as_str());
                s.append(" value ");
                s.append(decimal(*value2).as_str());
                s
            },
        }
    }
}

/// The text of a test verdict.
pub open spec fn outcome_text(o: MemtestOutcome) -> Seq<char> {
    match o {
        MemtestOutcome::Pass => "Pass"@,
        MemtestOutcome::Fail(f) => failure_text(f),
    }
}

impl MemtestOutcome {
    /// Render the verdict.
    pub fn describe(&self) -> (s: String)
        ensures
            s@ == outcome_text(*self),
    {
        match self {
            MemtestOutcome::Pass => String::from_str("Pass"),
            MemtestOutcome::Fail(f) => f.describe(),
        }
    }
}

/// The text of a test error.
pub open spec fn test_error_text(e: MemtestError) -> Seq<char> {
    match e {
        MemtestError::Timeout => "Error: timeout"@,
        MemtestError::Other(c) => "Error: "@ + cause_label(c),
    }
}

impl MemtestError {
    /// Render the error.
    pub fn describe(&self) -> (s: String)
        ensures
            s@ == test_error_text(*self),
    {
        match self {
            MemtestError::Timeout => String::from_str("Error: timeout"),
            MemtestError::Other(c) => {
                let mut s = String::from_str("Error: ");
                s.append(c.describe());
                s
            },
        }
    }
}

/// The text of a run error.
pub open spec fn run_error_text(e: MemtesterError) -> Seq<char> {
    match e {
        MemtesterError::MemLockFailed(c) => "MemLockFailed: "@ + cause_label(c),
        MemtesterError::Other(c) => "Error: "@ + cause_label(c),
    }
}

impl MemtesterError {
    /// Render the error.
    pub fn describe(&self) -> (s: String)
        ensures
            s@ == run_error_text(*self),
    {
        match self {
            MemtesterError::MemLockFailed(c) => {
                let mut s = String::from_str("MemLockFailed: ");
                s.append(c.describe());
                s
            },
            MemtesterError::Other(c) => {
                let mut s = String::from_str("Error: ");
                s.append(c.describe());
                s
            },
        }
    }
}

/// One line of a rendered report list: the test's name padded to a fixed
/// column, then its outcome or error.
pub open spec fn report_line(rep: MemtestReport) -> Seq<char> {
    let head = "Ran Test: "@ + kind_label(rep.test_type);
    let tail = match rep.outcome {
        Ok(o) => outcome_text(o),
        Err(e) => test_error_text(e),
    };
    head + spaces(30 - head.len()) + tail + "\n"@
}

/// The lines of the first `k` reports, in order.
pub open spec fn report_lines(reports: Seq<MemtestReport>, k: int) -> Seq<char>
    decreases k,
{
    if k <= 0 {
        Seq::empty()
    } else {
        report_lines(reports, k - 1) + report_line(reports[k - 1])
    }
}

/// The full rendering of a report list: a header with the tested length and
/// the lock flag, then one line per report.
pub open spec fn report_list_text(l: MemtestReportList) -> Seq<char> {
    "tested_mem_len = "@ + dec_digits(l.tested_men_len as nat) + "\n"@ + "mlocked = "@ + (
    if l.mlocked {
        "true"@
    } else {
        "false"@
    }) + "\n"@ + report_lines(l.reports@, l.reports@.len() as int)
}

fn append_report_line(s: &mut String, rep: &MemtestReport)
    ensures
        final(s)@ == old(s)@ + report_line(*rep),
{
    let ghost line_start = s@;
    s.append("Ran Test: ");
    let name = rep.test_type.name();
    s.append(name);
    let prefix_len = "Ran Test: ".unicode_len();
    let name_len = name.unicode_len();
    let pad = if prefix_len < 30 && name_len < 30 - prefix_len {
        30 - prefix_len - name_len
    } else {
        0
    };
    append_spaces(s, pad);
    proof {
        let head = "Ran Test: "@ + kind_label(rep.test_type);
        assert(spaces(pad as int) =~= spaces(30 - head.len()));
        assert(s@ =~= line_start + head + spaces(30 - head.len()));
    }
    match &rep.outcome {
        Ok(o) => {
            s.append(o.describe().as_str());
        },
        Err(e) => {
            s.append(e.describe().as_str());
        },
    }
    s.append("\n");
    proof {
        assert(s@ =~= line_start + report_line(*rep));
    }
}

impl MemtestReportList {
    /// Render the report list as a human-readable multi-line string.
    pub fn render(&self) -> (s: String)
        ensures
            s@ == report_list_text(*self),
    {
        let mut s = String::from_str("tested_mem_len = ");
        s.append(decimal(self.tested_men_len).as_str());
        s.append("\n");
        s.append("mlocked = ");
        if self.mlocked {
            s.append("true");
        } else {
            s.append("false");
        }
        s.append("\n");

        let ghost header = s@;
        let n = self.reports.len();
        let mut i: usize = 0;
        while i < n
            invariant
                i <= n,
                self.reports@.len() == n,
                s@ == header + report_lines(self.reports@, i as int),
            decreases n - i,
        {
            append_report_line(&mut s, &self.reports[i]);
            proof {
                assert(s@ =~= header + report_lines(self.reports@, i + 1));
            }
            i = i + 1;
        }
        proof {
            assert(s@ =~= report_list_text(*self));
        }
        s
    }
}

} // verus!
