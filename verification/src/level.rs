//! Verbosity levels accepted by the logging front end.

use vstd::prelude::*;
use vstd::string::StrSliceExecFns;

verus! {

/// Verbosity of the process-wide logger, from quietest to noisiest.
#[derive(Clone, Copy, Debug, PartialEq, Eq, Structural)]
pub enum Level {
    Warn,
    Info,
    Debug,
    Trace,
}

/// The argument named no known verbosity level.
#[derive(Clone, Copy, Debug, PartialEq, Eq, Structural)]
pub struct UnknownLevel;

/// Character-for-character equality of two string slices.
fn str_eq(a: &str, b: &str) -> (r: bool)
    ensures
        r == (a@ == b@),
{
    let an = a.unicode_len();
    let bn = b.unicode_len();
    if an != bn {
        return false;
    }
    let mut i: usize = 0;
    while i < an
        invariant
            i <= an,
            an == a@.len(),
            an == b@.len(),
            forall|j: int| 0 <= j < i ==> a@[j] == b@[j],
        decreases an - i,
    {
        if a.get_char(i) != b.get_char(i) {
            return false;
        }
        i += 1;
    }
    proof {
        assert(a@ =~= b@);
    }
    true
}

impl Level {
    /// Parses the textual name of a level; any other text is refused.
    pub fn from_str(s: &str) -> (r: Result<Level, UnknownLevel>)
        ensures
            s@ == "warn"@ ==> r == Ok::<Level, UnknownLevel>(Level::Warn),
            s@ == "info"@ ==> r == Ok::<Level, UnknownLevel>(Level::Info),
            s@ == "debug"@ ==> r == Ok::<Level, UnknownLevel>(Level::Debug),
            s@ == "trace"@ ==> r == Ok::<Level, UnknownLevel>(Level::Trace),
            s@ != "warn"@ && s@ != "info"@ && s@ != "debug"@ && s@ != "trace"@
                ==> r == Err::<Level, UnknownLevel>(UnknownLevel),
    {
        proof {
            reveal_strlit("warn");
            reveal_strlit("info");
            reveal_strlit("debug");
            reveal_strlit("trace");
            assert("warn"@.len() == 4);
            assert("info"@.len() == 4);
            assert("debug"@.len() == 5);
            assert("trace"@.len() == 5);
            assert("warn"@[0] == 'w');
            assert("info"@[0] == 'i');
            assert("debug"@[0] == 'd');
            assert("trace"@[0] == 't');
        }
        if str_eq(s, "warn") {
            Ok(Level::Warn)
        } else if str_eq(s, "info") {
            Ok(Level::Info)
        } else if str_eq(s, "debug") {
            Ok(Level::Debug)
        } else if str_eq(s, "trace") {
            Ok(Level::Trace)
        } else {
            Err(UnknownLevel)
        }
    }
}

} // verus!
