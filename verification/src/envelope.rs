//! The uniform response envelope.
//!
//! Every invocation produces exactly one `CommandResult`: a status verb,
//! an optional structured payload, and an error text that is present
//! exactly when the status is `"error"`.

use vstd::prelude::*;
use vstd::string::StringExecFns;
use crate::process::ProcessInfo;
use crate::window::WindowInfo;

verus! {

/// Structured payload carried by a successful response.
#[derive(Debug, PartialEq)]
pub enum Payload {
    /// A list of windows, as returned by `list` and `find`.
    Windows(Vec<WindowInfo>),
    /// A list of processes, as returned by process listing.
    Processes(Vec<ProcessInfo>),
    /// The window a mutating action was applied to.
    WindowRef { handle: usize, title: String },
    /// How many processes a kill-by-name request targeted.
    Count(u64),
}

/// The response envelope: the sole output of a command.
#[derive(Debug, PartialEq)]
pub struct CommandResult {
    pub status: String,
    pub data: Option<Payload>,
    pub error: Option<String>,
}

impl CommandResult {
    /// At most one of data/error is set, and the error text is present
    /// exactly on status `"error"`.
    pub open spec fn wf(self) -> bool {
        &&& self.error is Some <==> self.status@ == "error"@
        &&& self.error is Some ==> self.data is None
    }

    /// A successful response under the given status verb.
    pub fn success(status: &str, data: Option<Payload>) -> (r: CommandResult)
        requires
            status@ != "error"@,
        ensures
            r.status@ == status@,
            r.data == data,
            r.error is None,
            r.wf(),
    {
        CommandResult { status: String::from_str(status), data, error: None }
    }

    /// A failed response carrying the given error text.
    pub fn error(msg: &str) -> (r: CommandResult)
        ensures
            r.status@ == "error"@,
            r.data is None,
            r.error matches Some(e) && e@ == msg@,
            r.wf(),
    {
        CommandResult {
            status: String::from_str("error"),
            data: None,
            error: Some(String::from_str(msg)),
        }
    }
}

/// Every status verb a successful response uses is distinct from the
/// error marker.
pub proof fn lemma_statuses_not_error()
    ensures
        "success"@ != "error"@,
        "moved"@ != "error"@,
        "clicked"@ != "error"@,
        "typed"@ != "error"@,
        "pressed"@ != "error"@,
        "killed"@ != "error"@,
        "focused"@ != "error"@,
        "maximized"@ != "error"@,
        "minimized"@ != "error"@,
{
    reveal_strlit("success");
    reveal_strlit("error");
    reveal_strlit("moved");
    reveal_strlit("clicked");
    reveal_strlit("typed");
    reveal_strlit("pressed");
    reveal_strlit("killed");
    reveal_strlit("focused");
    reveal_strlit("maximized");
    reveal_strlit("minimized");
    assert("moved"@[0] != "error"@[0]);
    assert("typed"@[0] != "error"@[0]);
}

} // verus!
