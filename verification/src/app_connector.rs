//! Talking to the mail-server process itself: the connector types, and
//! the parsing of the service manager's `MainPID=<pid>` answer. Running
//! the service commands is process I/O and happens outside; only the
//! answer's text comes here.

use vstd::arithmetic::div_mod::{lemma_fundamental_div_mod, lemma_mod_bound};
use vstd::prelude::*;
use vstd::string::StringExecFns;

use crate::text::{is_digit, is_space};

verus! {

/// The index of the first character of `s` at or after `j` that is not
/// whitespace, or the length if all of them are.
pub open spec fn skip_spaces(s: Seq<char>, j: int) -> int
    recommends
        0 <= j <= s.len(),
    decreases s.len() - j,
{
    if j < 0 || j >= s.len() {
        s.len() as int
    } else if is_space(s[j]) {
        skip_spaces(s, j + 1)
    } else {
        j
    }
}

/// The end of `s` once trailing whitespace before `e` is dropped.
pub open spec fn rskip_spaces(s: Seq<char>, e: int) -> int
    recommends
        0 <= e <= s.len(),
    decreases e,
{
    if e <= 0 || e > s.len() {
        0
    } else if is_space(s[e - 1]) {
        rskip_spaces(s, e - 1)
    } else {
        e
    }
}

/// The index of the first `=` of `s` in `[j, end)`, or `end` if none.
pub open spec fn find_eq(s: Seq<char>, j: int, end: int) -> int
    recommends
        0 <= j && end <= s.len(),
    decreases end - j,
{
    if j < 0 || j >= end {
        end
    } else if s[j] == '=' {
        j
    } else {
        find_eq(s, j + 1, end)
    }
}

/// Every character of `s` in `[lo, hi)` is a decimal digit.
pub open spec fn all_digits(s: Seq<char>, lo: int, hi: int) -> bool {
    forall|j: int| lo <= j < hi ==> is_digit(#[trigger] s[j])
}

/// The number the digit string `s` writes out in decimal.
pub open spec fn digits_value(s: Seq<char>) -> int
    decreases s.len(),
{
    if s.len() == 0 {
        0
    } else {
        digits_value(s.drop_last()) * 10 + (s.last() as int - '0' as int)
    }
}

/// A digit string's value is never negative.
proof fn lemma_digits_value_nonneg(s: Seq<char>)
    requires
        all_digits(s, 0, s.len() as int),
    ensures
        digits_value(s) >= 0,
    decreases s.len(),
{
    if s.len() > 0 {
        assert(all_digits(s.drop_last(), 0, s.drop_last().len() as int));
        lemma_digits_value_nonneg(s.drop_last());
    }
}

/// Reading more digits never shrinks the value.
proof fn lemma_digits_value_prefix_le(s: Seq<char>, k: int)
    requires
        all_digits(s, 0, s.len() as int),
        0 <= k <= s.len(),
    ensures
        digits_value(s.subrange(0, k)) <= digits_value(s),
    decreases s.len() - k,
{
    if k < s.len() {
        lemma_digits_value_prefix_le(s, k + 1);
        let shorter = s.subrange(0, k);
        let longer = s.subrange(0, k + 1);
        assert(longer.drop_last() =~= shorter);
        assert(longer.last() == s[k]);
        assert(is_digit(s[k]));
        assert(all_digits(shorter, 0, shorter.len() as int));
        lemma_digits_value_nonneg(shorter);
        assert(digits_value(longer) == digits_value(shorter) * 10 + (longer.last() as int
            - '0' as int));
        assert(digits_value(shorter) <= digits_value(longer));
    } else {
        assert(s.subrange(0, k) =~= s);
    }
}

/// Whether `s`, once trimmed, reads `<label>=<digits>` — with anything
/// after a second `=` ignored — and the digits fit a `u32`. The value
/// those digits write out.
pub open spec fn pid_value(s: Seq<char>) -> int {
    let a = skip_spaces(s, 0);
    let c = rskip_spaces(s, s.len() as int);
    let i = find_eq(s, a, c);
    let b = find_eq(s, i + 1, c);
    digits_value(s.subrange(i + 1, b))
}

/// Whether the service manager's answer is well formed; see `pid_value`.
pub open spec fn pid_line_ok(s: Seq<char>) -> bool {
    let a = skip_spaces(s, 0);
    let c = rskip_spaces(s, s.len() as int);
    let i = find_eq(s, a, c);
    let b = find_eq(s, i + 1, c);
    i < c && i + 1 < b && all_digits(s, i + 1, b) && pid_value(s) <= u32::MAX as int
}

/// Reads the PID out of the service manager's `MainPID=<pid>` answer:
/// the text is trimmed, the part between the first `=` and the next `=`
/// (or the end) must be all digits, and their value is the PID. A line
/// of any other shape, or a PID that does not fit, is an error rather
/// than a torn-down process.
#[verifier::loop_isolation(false)]
pub fn parse_pid_response(output: String) -> (r: Result<u32, ()>)
    ensures
        pid_line_ok(output@) ==> r == Ok::<u32, ()>(pid_value(output@) as u32),
        !pid_line_ok(output@) ==> r is Err,
{
    let s = output.as_str();
    let len = s.unicode_len();
    let mut a: usize = 0;
    while a < len && is_space_char(s.get_char(a))
        invariant
            len == s@.len(),
            0 <= a <= len,
            skip_spaces(s@, 0) == skip_spaces(s@, a as int),
        decreases len - a,
    {
        a += 1;
    }
    proof {
        assert(skip_spaces(s@, 0) == a as int);
    }
    let mut c: usize = len;
    while c > 0 && is_space_char(s.get_char(c - 1))
        invariant
            len == s@.len(),
            0 <= c <= len,
            rskip_spaces(s@, len as int) == rskip_spaces(s@, c as int),
        decreases c,
    {
        c -= 1;
    }
    proof {
        assert(rskip_spaces(s@, len as int) == c as int);
    }
    if a >= c {
        proof {
            assert(find_eq(s@, a as int, c as int) == c as int);
        }
        return Err(());
    }
    let mut i: usize = a;
    while i < c && s.get_char(i) != '='
        invariant
            len == s@.len(),
            a <= i <= c <= len,
            find_eq(s@, a as int, c as int) == find_eq(s@, i as int, c as int),
        decreases c - i,
    {
        i += 1;
    }
    proof {
        assert(find_eq(s@, a as int, c as int) == i as int);
    }
    if i >= c {
        return Err(());
    }
    let mut b: usize = i + 1;
    while b < c && s.get_char(b) != '='
        invariant
            len == s@.len(),
            i + 1 <= b <= c <= len,
            find_eq(s@, i + 1, c as int) == find_eq(s@, b as int, c as int),
        decreases c - b,
    {
        b += 1;
    }
    proof {
        assert(find_eq(s@, i + 1, c as int) == b as int);
    }
    if b == i + 1 {
        return Err(());
    }
    let mut value: u32 = 0;
    let mut j: usize = i + 1;
    while j < b
        invariant
            len == s@.len(),
            a as int == skip_spaces(s@, 0),
            c as int == rskip_spaces(s@, len as int),
            i as int == find_eq(s@, a as int, c as int),
            b as int == find_eq(s@, i + 1, c as int),
            a <= i < c <= len,
            i + 1 < b <= c,
            i + 1 <= j <= b,
            all_digits(s@, i + 1, j as int),
            value as int == digits_value(s@.subrange(i + 1, j as int)),
        decreases b - j,
    {
        let ch = s.get_char(j);
        if !(ch >= '0' && ch <= '9') {
            return Err(());
        }
        let d: u32 = (ch as u32) - ('0' as u32);
        let ghost upto = s@.subrange(i + 1, j + 1);
        proof {
            assert(upto.drop_last() =~= s@.subrange(i + 1, j as int));
            assert(upto.last() == s@[j as int]);
            lemma_fundamental_div_mod((u32::MAX - d) as int, 10);
            lemma_mod_bound((u32::MAX - d) as int, 10);
        }
        if value > (u32::MAX - d) / 10 {
            proof {
                assert(value as int * 10 + d > u32::MAX as int);
                assert(all_digits(s@, i + 1, j + 1));
                assert(digits_value(upto) > u32::MAX as int);
                if all_digits(s@, i + 1, b as int) {
                    lemma_shift_digits(s@, i + 1, j + 1, b as int);
                    assert(!pid_line_ok(s@));
                } else {
                    assert(!pid_line_ok(s@));
                }
            }
            return Err(());
        }
        proof {
            assert(value as int * 10 + d <= u32::MAX as int);
        }
        value = value * 10 + d;
        j += 1;
    }
    Ok(value)
}

/// Over-approximation bridge: if a (shifted) prefix of the digit span
/// already exceeds the bound, so does the whole span.
proof fn lemma_shift_digits(s: Seq<char>, lo: int, mid: int, hi: int)
    requires
        0 <= lo <= mid <= hi <= s.len(),
        all_digits(s, lo, hi),
        digits_value(s.subrange(lo, mid)) > u32::MAX as int,
    ensures
        digits_value(s.subrange(lo, hi)) > u32::MAX as int,
{
    let whole = s.subrange(lo, hi);
    assert(all_digits(whole, 0, whole.len() as int));
    assert(whole.subrange(0, mid - lo) =~= s.subrange(lo, mid));
    lemma_digits_value_prefix_le(whole, mid - lo);
}

/// Exec mirror of `is_space`.
fn is_space_char(c: char) -> (r: bool)
    ensures
        r == is_space(c),
{
    c == ' ' || c == '\t' || c == '\n' || c == '\r'
}

/// The connector for platforms without service management: every action
/// succeeds by doing nothing.
#[derive(Clone, Copy, Debug)]
pub struct NoneConnection;

impl NoneConnection {
    pub fn new() -> (r: Self) {
        NoneConnection
    }

    /// Nothing to restart.
    pub fn restart(&self) -> (r: Result<(), ()>)
        ensures
            r is Ok,
    {
        Ok(())
    }

    /// No process to name.
    pub fn get_pid(&self) -> (r: Result<u32, ()>)
        ensures
            r == Ok::<u32, ()>(0),
    {
        Ok(0)
    }
}

/// Where the mail server's service unit and the service manager binary
/// sit on a Linux host.
#[derive(Clone, Debug)]
pub struct LinuxConnectionConfig {
    pub service_path: String,
    pub systemctl_path: String,
}

impl Default for LinuxConnectionConfig {
    fn default() -> (r: Self)
        ensures
            r.service_path@ == "/etc/systemd/system/stalwart.service"@,
            r.systemctl_path@ == "/bin/systemctl"@,
    {
        Self {
            service_path: String::from_str("/etc/systemd/system/stalwart.service"),
            systemctl_path: String::from_str("/bin/systemctl"),
        }
    }
}

/// The Linux connector: holds the paths its commands run with. The
/// commands themselves are process I/O and run outside; their text
/// answers come back through `parse_pid_response`.
#[derive(Clone, Debug)]
pub struct LinuxConnection {
    pub service_path: String,
    pub systemctl_path: String,
}

impl LinuxConnection {
    pub fn new(config: LinuxConnectionConfig) -> (r: Self)
        ensures
            r.service_path@ == config.service_path@,
            r.systemctl_path@ == config.systemctl_path@,
    {
        Self { service_path: config.service_path, systemctl_path: config.systemctl_path }
    }
}

} // verus!
