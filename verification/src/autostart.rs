//! Start-on-login through the Windows registry's `Run` key. Reading and
//! writing the registry is the caller's part; what the entry must hold and
//! whether the present one names this program are decided here.

use vstd::prelude::*;
use vstd::string::StringExecFns;
use crate::system::Platform;
use crate::text::{
    chars_equal, chars_of, contains, contains_seq, push_char, string_of, to_lowercase,
    trim_matches, trim_matches_char, unicode_lowercase,
};

verus! {

pub struct AutoStartManager;

/// What to do to the registry's `Run` entry.
pub enum AutostartChange {
    /// Store this command line under the program's name.
    SetValue(String),
    /// Remove the program's entry (it may already be absent).
    DeleteValue,
}

/// The registry value with surrounding double quotes, then single quotes,
/// removed.
pub open spec fn unquoted(v: Seq<char>) -> Seq<char> {
    trim_matches_char(trim_matches_char(v, '"'), '\'')
}

/// The command line to register: the executable's path, in double quotes
/// when it contains a space and is not quoted already.
pub open spec fn run_value_spec(exe: Seq<char>) -> Seq<char> {
    if contains_seq(exe, " "@) && !(exe.len() > 0 && exe[0] == '"') {
        seq!['"'] + exe + seq!['"']
    } else {
        exe
    }
}

impl AutoStartManager {
    /// Registry autostart exists only on Windows.
    pub fn is_available(platform: Platform) -> (r: bool)
        ensures
            r == (platform == Platform::Windows),
    {
        match platform {
            Platform::Windows => true,
            Platform::Unix => false,
        }
    }

    /// Is autostart on: does the program's `Run` entry (`None` when the key
    /// or the entry cannot be read) name this executable, ignoring quotes
    /// and letter case?
    pub fn is_enabled(registry_value: Option<&str>, exe_path: &str) -> (r: bool)
        ensures
            r == match registry_value {
                Some(v) => unicode_lowercase(unquoted(v@)) == unicode_lowercase(exe_path@),
                None => false,
            },
    {
        match registry_value {
            Some(v) => {
                let once = trim_matches(&chars_of(v), '"');
                let twice = trim_matches(&once, '\'');
                let p1 = chars_of(to_lowercase(string_of(&twice).as_str()).as_str());
                let p2 = chars_of(to_lowercase(exe_path).as_str());
                chars_equal(&p1, &p2)
            },
            None => false,
        }
    }

    /// The change that turns autostart on or off for the executable at
    /// `exe_path`.
    pub fn set_autostart(enable: bool, exe_path: &str) -> (c: AutostartChange)
        ensures
            enable ==> (c matches AutostartChange::SetValue(v) && v@ == run_value_spec(exe_path@)),
            !enable ==> c is DeleteValue,
    {
        if enable {
            let exe = chars_of(exe_path);
            let quoted_already = exe.len() > 0 && exe[0] == '"';
            if contains(&exe, &chars_of(" ")) && !quoted_already {
                let mut v = String::new();
                push_char(&mut v, '"');
                v.append(exe_path);
                push_char(&mut v, '"');
                assert(v@ == seq!['"'] + exe_path@ + seq!['"']);
                AutostartChange::SetValue(v)
            } else {
                AutostartChange::SetValue(String::from_str(exe_path))
            }
        } else {
            AutostartChange::DeleteValue
        }
    }
}

} // verus!
