//! The host's log file: one per run, beside the preferences file.
use vstd::prelude::*;
use crate::host_path::path_joined;
use crate::preferences::{log_dir_of, HostPreferencesStore};
use crate::text::decimal;

verus! {

/// The log file of one host run.
#[derive(Debug, Clone, PartialEq, Eq)]
pub struct HostLogWriter {
    pub path: String,
}

/// The name of a run's log file: `host-desktop-<nonce>-<pid>.log`.
pub open spec fn log_file_name_spec(nonce: nat, pid: nat) -> Seq<char> {
    "host-desktop-"@ + decimal(nonce) + "-"@ + decimal(pid) + ".log"@
}

/// The first line of a run's log file.
pub open spec fn launch_line_spec(pid: nat) -> Seq<char> {
    "host-desktop launch pid="@ + decimal(pid)
}

impl HostLogWriter {
    /// The name of a run's log file, from a nonce (the launch time) and the
    /// process id.
    pub fn file_name(nonce: u128, pid: u32) -> (r: String)
        ensures
            r@ == log_file_name_spec(nonce as nat, pid as nat),
    {
        let mut r = crate::text::joined("host-desktop-", crate::text::decimal_text_wide(nonce).as_str());
        r.append("-");
        r.append(crate::text::decimal_text(pid as u64).as_str());
        r.append(".log");
        r
    }

    /// The first line of a run's log file.
    pub fn launch_line(pid: u32) -> (r: String)
        ensures
            r@ == launch_line_spec(pid as nat),
    {
        crate::text::joined("host-desktop launch pid=", crate::text::decimal_text(pid as u64).as_str())
    }

    /// The log file of a run: its name in the log directory beside the
    /// preferences file.
    pub fn from_preferences_path(preferences_path: &str, nonce: u128, pid: u32) -> (r: Self)
        ensures
            exists|dir: Seq<char>|
                #[trigger] log_dir_of(preferences_path@, dir) && path_joined(
                    r.path@,
                    dir,
                    log_file_name_spec(nonce as nat, pid as nat),
                ),
    {
        let dir = HostPreferencesStore::log_dir_for_preferences_path(preferences_path);
        let name = Self::file_name(nonce, pid);
        proof {
            reveal_strlit("host-desktop-");
            assert(name@[0] == 'h');
            lemma_name_relative(nonce as nat, pid as nat);
        }
        let path = crate::host_path::join_path(dir.as_str(), name.as_str());
        assert(log_dir_of(preferences_path@, dir@));
        HostLogWriter { path }
    }
}

proof fn lemma_decimal_digits(n: nat)
    ensures
        decimal(n).len() > 0,
        forall|i: int| 0 <= i < decimal(n).len() ==> #[trigger] decimal(n)[i] != ':',
    decreases n,
{
    if n >= 10 {
        lemma_decimal_digits(n / 10);
        let d = decimal(n / 10).push(crate::text::digit_char(n % 10));
        assert forall|i: int| 0 <= i < d.len() implies #[trigger] d[i] != ':' by {
            if i < d.len() - 1 {
                assert(d[i] == decimal(n / 10)[i]);
            }
        }
    }
}

proof fn lemma_name_relative(nonce: nat, pid: nat)
    ensures
        crate::host_path::relative_part(log_file_name_spec(nonce, pid)),
{
    reveal_strlit("host-desktop-");
    reveal_strlit("-");
    reveal_strlit(".log");
    lemma_decimal_digits(nonce);
    lemma_decimal_digits(pid);
    let a = "host-desktop-"@;
    let b = decimal(nonce);
    let c = "-"@;
    let d = decimal(pid);
    let e = ".log"@;
    let all = a + b + c + d + e;
    assert forall|i: int| 0 <= i < all.len() implies #[trigger] all[i] != ':' by {
        if i < a.len() {
            assert(all[i] == a[i]);
        } else if i < a.len() + b.len() {
            assert(all[i] == b[i - a.len()]);
        } else if i < a.len() + b.len() + c.len() {
            assert(all[i] == c[i - a.len() - b.len()]);
        } else if i < a.len() + b.len() + c.len() + d.len() {
            assert(all[i] == d[i - a.len() - b.len() - c.len()]);
        } else {
            assert(all[i] == e[i - a.len() - b.len() - c.len() - d.len()]);
        }
    }
    assert(all[0] == 'h');
}

} // verus!
