use vstd::prelude::*;
use crate::error::InstallError;

verus! {

/// Exit code with which the system's task killer reports that no process
/// of the given name was running.
pub const NO_SUCH_PROCESS_CODE: i32 = 128;

/// `needle` occurs in `hay` as a contiguous run.
pub open spec fn occurs_in(needle: Seq<char>, hay: Seq<char>) -> bool {
    exists|i: int| 0 <= i <= hay.len() - needle.len() && #[trigger] hay.subrange(i, i + needle.len()) == needle
}

/// The task killer's output says that the process was not there to kill.
pub open spec fn says_not_running(stderr: Seq<char>) -> bool {
    occurs_in("not found"@, stderr) || occurs_in("not running"@, stderr)
}

/// A termination succeeded, or found nothing to terminate.
pub open spec fn spec_termination_ok(success: bool, code: Option<i32>, stderr: Seq<char>) -> bool {
    success || code == Some(NO_SUCH_PROCESS_CODE) || says_not_running(stderr)
}

/// Whether `needle` occurs in `hay`.
pub fn contains_text(hay: &str, needle: &str) -> (r: bool)
    ensures
        r == occurs_in(needle@, hay@),
{
    let n = hay.unicode_len();
    let m = needle.unicode_len();
    if m > n {
        return false;
    }
    let mut i: usize = 0;
    while i <= n - m
        invariant
            n == hay@.len(),
            m == needle@.len(),
            m <= n,
            i <= n - m + 1,
            forall|k: int| 0 <= k < i ==> #[trigger] hay@.subrange(k, k + m) != needle@,
        decreases n - m + 1 - i,
    {
        let mut j: usize = 0;
        while j < m && hay.get_char(i + j) == needle.get_char(j)
            invariant
                n == hay@.len(),
                m == needle@.len(),
                i + m <= n,
                j <= m,
                forall|t: int| 0 <= t < j ==> hay@[i + t] == needle@[t],
            decreases m - j,
        {
            j = j + 1;
        }
        if j == m {
            assert(hay@.subrange(i as int, i + m) =~= needle@);
            return true;
        }
        assert(hay@.subrange(i as int, i + m)[j as int] != needle@[j as int]);
        i = i + 1;
    }
    assert forall|k: int| 0 <= k <= n - m implies #[trigger] hay@.subrange(k, k + m) != needle@ by {
        assert(k < i);
    }
    false
}

/// What the task killer's outcome means. It succeeded, or it reported that
/// no such process was running (exit code `NO_SUCH_PROCESS_CODE`, or an error
/// text saying "not found" or "not running"): then `Ok`, since termination is
/// idempotent. Any other failure is a `ProcessFailure` with the exit code and
/// the error text.
pub fn termination_outcome(success: bool, code: Option<i32>, stderr: &str) -> (r: Result<
    (),
    InstallError,
>)
    ensures
        r is Ok <==> spec_termination_ok(success, code, stderr@),
        r matches Err(e) ==> e matches InstallError::ProcessFailure { code: c, detail }
            && c == code && detail@ == stderr@,
{
    let no_such = match code {
        Some(c) => c == NO_SUCH_PROCESS_CODE,
        None => false,
    };
    if success || no_such || contains_text(stderr, "not found") || contains_text(
        stderr,
        "not running",
    ) {
        Ok(())
    } else {
        Err(InstallError::ProcessFailure { code, detail: String::from_str(stderr) })
    }
}

/// What an installer's exit status means: success, or a `ProcessFailure`
/// that carries the exit code, when there is one.
pub fn installer_outcome(success: bool, code: Option<i32>) -> (r: Result<(), InstallError>)
    ensures
        r is Ok <==> success,
        r matches Err(e) ==> e matches InstallError::ProcessFailure { code: c, detail }
            && c == code && detail@.len() == 0,
{
    if success {
        Ok(())
    } else {
        Err(InstallError::ProcessFailure { code, detail: String::new() })
    }
}

} // verus!
