use vstd::prelude::*;
use vstd::string::StrSliceExecFns;

verus! {

/// The mode for a given command.
#[derive(Debug, Clone, Copy, PartialEq, Eq, Structural)]
pub enum CmdMode {
    /// Write without expecting a response.
    WriteOnly,

    /// Write and expect a response.
    WriteWithResponse,
}

/// Whether `s` and `t` hold the same characters.
fn same_chars(s: &str, t: &str) -> (r: bool)
    ensures
        r == (s@ == t@),
{
    let n = s.unicode_len();
    if n != t.unicode_len() {
        return false;
    }
    let mut i: usize = 0;
    while i < n
        invariant
            n == s@.len(),
            n == t@.len(),
            i <= n,
            forall|j: int| 0 <= j < i ==> s@[j] == t@[j],
        decreases n - i,
    {
        if s.get_char(i) != t.get_char(i) {
            return false;
        }
        i = i + 1;
    }
    assert(s@ =~= t@);
    true
}

impl CmdMode {
    /// The mode named `s`: `write` or `write_with_response`.
    pub fn parse(s: &str) -> (r: Result<CmdMode, &'static str>)
        ensures
            s@ == "write"@ ==> r == Ok::<CmdMode, &'static str>(CmdMode::WriteOnly),
            s@ == "write_with_response"@ ==> r == Ok::<CmdMode, &'static str>(
                CmdMode::WriteWithResponse,
            ),
            s@ != "write"@ && s@ != "write_with_response"@ ==> r is Err,
    {
        proof {
            reveal_strlit("write");
            reveal_strlit("write_with_response");
            assert("write"@.len() != "write_with_response"@.len());
        }
        if same_chars(s, "write") {
            Ok(CmdMode::WriteOnly)
        } else if same_chars(s, "write_with_response") {
            Ok(CmdMode::WriteWithResponse)
        } else {
            Err("invalid mode")
        }
    }
}

impl core::str::FromStr for CmdMode {
    type Err = &'static str;

    fn from_str(s: &str) -> (r: Result<Self, Self::Err>) {
        CmdMode::parse(s)
    }
}

} // verus!
