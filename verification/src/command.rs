//! Construction of the transfer command line and the per-job log path.
//!
//! The transfer itself is an external tool run by the surrounding process
//! loop; everything that can be computed from plain values is built and
//! verified here: the SSH user fallback chain, the bare host split out of a
//! `HOST:PORT` machine name, the full argument vector (strict host-key
//! checking, I/O idle timeout, wildcard source suffix), and the log-file
//! path derived from the job id.

use vstd::prelude::*;
use vstd::string::StrSliceExecFns;
use vstd::string::StringExecFns;

use crate::request::RSYNC_IO_TIMEOUT;

verus! {

/// The decimal digit `d` as a character.
pub open spec fn spec_digit_char(d: int) -> char {
    if d == 0 {
        '0'
    } else if d == 1 {
        '1'
    } else if d == 2 {
        '2'
    } else if d == 3 {
        '3'
    } else if d == 4 {
        '4'
    } else if d == 5 {
        '5'
    } else if d == 6 {
        '6'
    } else if d == 7 {
        '7'
    } else if d == 8 {
        '8'
    } else {
        '9'
    }
}

/// The decimal digits of `n`, most significant first.
pub open spec fn spec_digits(n: int) -> Seq<char>
    recommends
        n >= 0,
    decreases n,
{
    if n < 10 {
        seq![spec_digit_char(n)]
    } else {
        spec_digits(n / 10).push(spec_digit_char(n % 10))
    }
}

/// The length of the longest prefix of `s` that holds no `':'`: the end of
/// the bare host in a `HOST:PORT`-like machine name.
pub open spec fn spec_host_end(s: Seq<char>) -> int
    decreases s.len(),
{
    if s.len() == 0 {
        0
    } else if s[0] == ':' {
        0
    } else {
        1 + spec_host_end(s.drop_first())
    }
}

/// The bare host of a `HOST:PORT`-like machine name: everything before the
/// first `':'`, or the whole name when it holds none.
pub open spec fn spec_host(s: Seq<char>) -> Seq<char> {
    s.subrange(0, spec_host_end(s))
}

/// The SSH user the fallback chain resolves to: the override when set, else
/// the first of the current-user variables that is set, else the fixed
/// superuser name.
pub open spec fn spec_ssh_user(
    override_user: Option<String>,
    user: Option<String>,
    username: Option<String>,
) -> Seq<char> {
    match override_user {
        Some(u) => u@,
        None => match user {
            Some(u) => u@,
            None => match username {
                Some(u) => u@,
                None => "root"@,
            },
        },
    }
}

/// A position that ends a colon-free prefix and sits on a colon (or at the
/// end) is exactly `spec_host_end`.
proof fn lemma_host_end_at(s: Seq<char>, i: int)
    requires
        0 <= i <= s.len(),
        forall|j: int| 0 <= j < i ==> s[j] != ':',
        i == s.len() || s[i] == ':',
    ensures
        spec_host_end(s) == i,
    decreases s.len(),
{
    if s.len() == 0 {
    } else if s[0] == ':' {
        if i > 0 {
            assert(s[0] != ':');
        }
    } else {
        assert(i >= 1) by {
            if i == 0 {
                assert(s[0] == ':');
            }
        }
        let t = s.drop_first();
        assert forall|j: int| 0 <= j < i - 1 implies t[j] != ':' by {
            assert(t[j] == s[j + 1]);
        }
        assert(i - 1 == t.len() || t[i - 1] == ':');
        lemma_host_end_at(t, i - 1);
    }
}

/// The decimal digit `d`, `d < 10`, as a one-character string.
fn digit_str(d: u64) -> (r: &'static str)
    requires
        d < 10,
    ensures
        r@ == seq![spec_digit_char(d as int)],
{
    let r: &'static str = match d {
        0 => "0",
        1 => "1",
        2 => "2",
        3 => "3",
        4 => "4",
        5 => "5",
        6 => "6",
        7 => "7",
        8 => "8",
        _ => "9",
    };
    proof {
        reveal_strlit("0");
        reveal_strlit("1");
        reveal_strlit("2");
        reveal_strlit("3");
        reveal_strlit("4");
        reveal_strlit("5");
        reveal_strlit("6");
        reveal_strlit("7");
        reveal_strlit("8");
        reveal_strlit("9");
        assert(r@ =~= seq![spec_digit_char(d as int)]);
    }
    r
}

/// Renders `n` in decimal.
pub fn u64_to_string(n: u64) -> (r: String)
    ensures
        r@ == spec_digits(n as int),
    decreases n,
{
    if n < 10 {
        digit_str(n).to_owned()
    } else {
        let mut s = u64_to_string(n / 10);
        s.append(digit_str(n % 10));
        proof {
            assert(s@ =~= spec_digits(n as int));
        }
        s
    }
}

/// The path of the per-job transfer log file, derived from the job id.
pub fn copier_log_fname(jid: u64) -> (r: String)
    ensures
        r@ == "/tmp/jobserver-rsync-"@ + spec_digits(jid as int) + ".log"@,
{
    let mut s = String::from_str("/tmp/jobserver-rsync-");
    let digits = u64_to_string(jid);
    s.append(digits.as_str());
    s.append(".log");
    proof {
        assert(s@ =~= "/tmp/jobserver-rsync-"@ + spec_digits(jid as int) + ".log"@);
    }
    s
}

/// The bare host of a `HOST:PORT`-like machine name: everything before the
/// first `':'`, or the whole name when it holds none.
pub fn host_of(machine: &str) -> (r: &str)
    ensures
        r@ == spec_host(machine@),
{
    let len = machine.unicode_len();
    let mut i: usize = 0;
    while i < len
        invariant
            i <= len,
            len == machine@.len(),
            forall|j: int| 0 <= j < i ==> machine@[j] != ':',
        decreases len - i,
    {
        if machine.get_char(i) == ':' {
            proof {
                lemma_host_end_at(machine@, i as int);
            }
            return machine.substring_char(0, i);
        }
        i = i + 1;
    }
    proof {
        lemma_host_end_at(machine@, len as int);
    }
    machine.substring_char(0, len)
}

/// Resolves the SSH user for the transfer. The three arguments are the
/// values of the override variable, the current-user variable, and the
/// alternate current-user variable, each if set; the chain falls back to
/// the fixed superuser name.
pub fn resolve_ssh_user(
    override_user: Option<String>,
    user: Option<String>,
    username: Option<String>,
) -> (r: String)
    ensures
        r@ == spec_ssh_user(override_user, user, username),
{
    match override_user {
        Some(u) => u,
        None => match user {
            Some(u) => u,
            None => match username {
                Some(u) => u,
                None => String::from_str("root"),
            },
        },
    }
}

/// The remote-source argument of the transfer: `user@host:from*`, with the
/// bare host split out of the machine name and the wildcard suffix appended
/// to the source path.
pub fn rsync_source_arg(ssh_user: &str, machine: &str, from: &str) -> (r: String)
    ensures
        r@ == ssh_user@ + "@"@ + spec_host(machine@) + ":"@ + from@ + "*"@,
{
    let mut s = ssh_user.to_owned();
    s.append("@");
    s.append(host_of(machine));
    s.append(":");
    s.append(from);
    s.append("*");
    s
}

/// The full argument vector of the transfer tool: archive/verbose/compress/
/// partial-progress flags, a secure-shell transport with strict host-key
/// checking (fail fast instead of prompting), the fixed I/O idle timeout,
/// the wildcarded remote source, and the destination as-is.
pub fn rsync_args(ssh_user: &str, machine: &str, from: &str, to: &str) -> (r: Vec<String>)
    ensures
        r@.len() == 6,
        r@[0]@ == "-avvzP"@,
        r@[1]@ == "-e"@,
        r@[2]@ == "ssh -o StrictHostKeyChecking=yes"@,
        r@[3]@ == "--timeout="@ + spec_digits(RSYNC_IO_TIMEOUT as int),
        r@[4]@ == ssh_user@ + "@"@ + spec_host(machine@) + ":"@ + from@ + "*"@,
        r@[5]@ == to@,
{
    let mut v: Vec<String> = Vec::new();
    v.push(String::from_str("-avvzP"));
    v.push(String::from_str("-e"));
    v.push(String::from_str("ssh -o StrictHostKeyChecking=yes"));
    let mut timeout_arg = String::from_str("--timeout=");
    timeout_arg.append(u64_to_string(RSYNC_IO_TIMEOUT).as_str());
    v.push(timeout_arg);
    v.push(rsync_source_arg(ssh_user, machine, from));
    v.push(to.to_owned());
    v
}

} // verus!
