//! Refusing to start a second copy of the tray daemon. Listing the running
//! processes is the caller's part; reading the listing is done here.

use vstd::prelude::*;
use crate::system::Platform;
use crate::text::{chars_equal, chars_of, contains, contains_seq, lines, lines_of, trim, trim_chars};

verus! {

/// Lines of the Windows task list that mention the program's executable.
pub open spec fn count_mentions(ls: Seq<Seq<char>>) -> nat
    decreases ls.len(),
{
    if ls.len() == 0 {
        0
    } else {
        count_mentions(ls.drop_last()) + if contains_seq(ls.last(), "DragonFoxVPN.exe"@) {
            1nat
        } else {
            0nat
        }
    }
}

/// No line of the `pgrep` output names a process other than this one.
pub open spec fn only_self(ls: Seq<Seq<char>>, my_pid: Seq<char>) -> bool {
    forall|k: int| 0 <= k < ls.len() ==> trim(#[trigger] ls[k]) == my_pid
}

pub open spec fn single_instance_spec(platform: Platform, listing: Option<Seq<char>>, my_pid: Seq<char>) -> bool {
    match listing {
        None => true,
        Some(out) => match platform {
            Platform::Windows => count_mentions(lines(out)) <= 1,
            Platform::Unix => only_self(lines(out), my_pid),
        },
    }
}

/// Returns false if another instance is already running, judged from the
/// process listing: the `tasklist` output on Windows (at most one line may
/// mention the executable), the `pgrep` output elsewhere (every process ID
/// it prints must be this process's, `my_pid`). A listing that could not be
/// obtained (`None`) lets the program start.
pub fn single_instance_check(platform: Platform, listing: Option<&str>, my_pid: &str) -> (r: bool)
    ensures
        r == single_instance_spec(
            platform,
            match listing {
                Some(s) => Some(s@),
                None => None,
            },
            my_pid@,
        ),
{
    match listing {
        None => true,
        Some(out) => {
            let ls = lines_of(&chars_of(out));
            let ghost all = lines(out@);
            match platform {
                Platform::Windows => {
                    let exe = chars_of("DragonFoxVPN.exe");
                    let mut count: usize = 0;
                    let mut k: usize = 0;
                    while k < ls.len()
                        invariant
                            all == lines(out@),
                            ls@.len() == all.len(),
                            forall|j: int| 0 <= j < ls@.len() ==> #[trigger] ls@[j]@ == all[j],
                            exe@ == "DragonFoxVPN.exe"@,
                            k <= ls@.len(),
                            count == count_mentions(all.take(k as int)),
                            count <= k,
                        decreases ls@.len() - k,
                    {
                        assert(all.take(k + 1).drop_last() == all.take(k as int));
                        assert(ls@[k as int]@ == all[k as int]);
                        if contains(&ls[k], &exe) {
                            count += 1;
                        }
                        k += 1;
                    }
                    assert(all.take(all.len() as int) == all);
                    count <= 1
                },
                Platform::Unix => {
                    let pid = chars_of(my_pid);
                    let mut k: usize = 0;
                    while k < ls.len()
                        invariant
                            all == lines(out@),
                            ls@.len() == all.len(),
                            forall|j: int| 0 <= j < ls@.len() ==> #[trigger] ls@[j]@ == all[j],
                            pid@ == my_pid@,
                            platform == Platform::Unix,
                            listing == Some(out),
                            k <= ls@.len(),
                            forall|j: int| 0 <= j < k ==> trim(#[trigger] all[j]) == my_pid@,
                        decreases ls@.len() - k,
                    {
                        let t = trim_chars(&ls[k]);
                        assert(ls@[k as int]@ == all[k as int]);
                        if !chars_equal(&t, &pid) {
                            assert(trim(all[k as int]) != my_pid@);
                            assert(!only_self(all, my_pid@));
                            assert(!single_instance_spec(platform, Some(out@), my_pid@));
                            return false;
                        }
                        k += 1;
                    }
                    true
                },
            }
        },
    }
}

} // verus!
