//! How the bridge program is started from its path.

use vstd::prelude::*;
use vstd::string::*;

verus! {

/// The program to run and its arguments.
pub struct LaunchPlan {
    pub program: String,
    pub args: Vec<String>,
}

/// The path names a script (it ends in `.js`), which runs under `node`.
pub open spec fn is_script(path: &str) -> bool {
    let b = path.spec_bytes();
    b.len() >= 3 && b.subrange(b.len() - 3, b.len() as int) == seq![46u8, 106u8, 115u8]
}

/// A script runs as `node <path>`; any other path runs as it is.
pub fn launch_plan(path: &str) -> (r: LaunchPlan)
    ensures
        is_script(path) ==> r.program@ == "node"@ && r.args@.len() == 1 && r.args@[0]@ == path@,
        !is_script(path) ==> r.program@ == path@ && r.args@.len() == 0,
{
    let b = path.as_bytes();
    let n = b.len();
    let script = n >= 3 && b[n - 3] == 46u8 && b[n - 2] == 106u8 && b[n - 1] == 115u8;
    proof {
        let s = path.spec_bytes();
        if s.len() >= 3 {
            assert(script == (s.subrange(s.len() - 3, s.len() as int) =~= seq![46u8, 106u8, 115u8]));
        }
    }
    if script {
        let mut args: Vec<String> = Vec::new();
        args.push(String::from_str(path));
        LaunchPlan { program: String::from_str("node"), args }
    } else {
        LaunchPlan { program: String::from_str(path), args: Vec::new() }
    }
}

} // verus!
