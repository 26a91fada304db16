//! The process delegator's decisions: the fixed invocation shape handed
//! to the external interpreter, and the mapping from the child's
//! termination status to this process's exit code. Spawning itself is
//! left to the caller.

use vstd::prelude::*;
use vstd::string::*;

verus! {

/// The exit code emitted when the sync fails, the interpreter cannot be
/// launched, or the child's status is unknown.
pub const FAILURE_CODE: u8 = 1;

/// The well-known name of the external interpreter executable.
pub fn interpreter_name() -> (r: String)
    ensures
        r@ == seq!['l', 'u', 'n', 'e'],
{
    proof {
        reveal_strlit("lune");
        assert("lune"@ =~= seq!['l', 'u', 'n', 'e']);
    }
    "lune".to_owned()
}

/// The argument list handed to the interpreter: the run-mode flag, the
/// entry point, the argument separator, then every user argument in its
/// original order and count.
pub fn build_interpreter_args(entry_point: &String, user_args: &Vec<String>) -> (r: Vec<
    String,
>)
    ensures
        r@.len() == 3 + user_args@.len(),
        r@[0]@ == seq!['r', 'u', 'n'],
        r@[1]@ == entry_point@,
        r@[2]@ == seq!['-', '-'],
        forall|i: int| 0 <= i < user_args@.len() ==> r@[3 + i]@ == user_args@[i]@,
{
    proof {
        reveal_strlit("run");
        assert("run"@ =~= seq!['r', 'u', 'n']);
        reveal_strlit("--");
        assert("--"@ =~= seq!['-', '-']);
    }
    let mut r: Vec<String> = Vec::new();
    r.push("run".to_owned());
    r.push(entry_point.clone());
    r.push("--".to_owned());
    let n = user_args.len();
    let mut i: usize = 0;
    while i < n
        invariant
            i <= n,
            n == user_args@.len(),
            r@.len() == 3 + i,
            r@[0]@ == seq!['r', 'u', 'n'],
            r@[1]@ == entry_point@,
            r@[2]@ == seq!['-', '-'],
            forall|j: int| 0 <= j < i ==> r@[3 + j]@ == user_args@[j]@,
        decreases n - i,
    {
        r.push(user_args[i].clone());
        i = i + 1;
    }
    r
}

/// Maps the child's exit status to this process's exit code: the child's
/// own code, truncated to a byte as exit codes are, or the fixed failure
/// code when the status is unavailable.
pub fn exit_code_from_status(code: Option<i32>) -> (r: u8)
    ensures
        code matches Some(c) ==> r as i32 == c & 0xff,
        code is None ==> r == FAILURE_CODE,
{
    match code {
        Some(c) => {
            proof {
                assert(0 <= (c & 0xff) < 256) by (bit_vector);
            }
            let m = c & 0xff;
            m as u8
        },
        None => FAILURE_CODE,
    }
}

} // verus!
