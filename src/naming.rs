//! Decimal rendering of integers, the names of workspace directories, and
//! the text of the timeout error.

use vstd::prelude::*;
use crate::paths::join_spec;

verus! {

/// The decimal digit of `d`, for `d < 10`.
pub open spec fn digit_char(d: nat) -> char {
    if d == 0 { '0' }
    else if d == 1 { '1' }
    else if d == 2 { '2' }
    else if d == 3 { '3' }
    else if d == 4 { '4' }
    else if d == 5 { '5' }
    else if d == 6 { '6' }
    else if d == 7 { '7' }
    else if d == 8 { '8' }
    else { '9' }
}

/// The decimal notation of `n`, without leading zeros.
pub open spec fn decimal(n: nat) -> Seq<char>
    decreases n,
{
    if n < 10 {
        seq![digit_char(n)]
    } else {
        decimal(n / 10).push(digit_char(n % 10))
    }
}

/// The most attempts at a fresh name beyond the first.
pub const MAX_NAME_RETRIES: u32 = 10;

/// The last path component of the `counter`-th candidate workspace of the
/// process `process_id` at time `nanos`.
pub open spec fn workspace_leaf(process_id: nat, nanos: nat, counter: nat) -> Seq<char> {
    let stem = "runner-"@ + decimal(process_id) + "-"@ + decimal(nanos);
    if counter == 0 {
        stem
    } else {
        stem + "-"@ + decimal(counter)
    }
}

/// The full path of that candidate under the temporary directory `base`.
pub open spec fn workspace_candidate(
    base: Seq<char>,
    process_id: nat,
    nanos: nat,
    counter: nat,
) -> Seq<char> {
    join_spec(base, workspace_leaf(process_id, nanos, counter))
}

/// The message of a timeout, with what the command wrote to stderr.
pub open spec fn timeout_message_spec(seconds: nat, stderr: Seq<char>) -> Seq<char> {
    "timed out after "@ + decimal(seconds) + " seconds\n"@ + stderr
}

fn digit_str(d: u8) -> (r: &'static str)
    requires
        d < 10,
    ensures
        r@ == seq![digit_char(d as nat)],
{
    proof {
        reveal_strlit("0");
        reveal_strlit("1");
        reveal_strlit("2");
        reveal_strlit("3");
        reveal_strlit("4");
        reveal_strlit("5");
        reveal_strlit("6");
        reveal_strlit("7");
        reveal_strlit("8");
        reveal_strlit("9");
    }
    if d == 0 { "0" }
    else if d == 1 { "1" }
    else if d == 2 { "2" }
    else if d == 3 { "3" }
    else if d == 4 { "4" }
    else if d == 5 { "5" }
    else if d == 6 { "6" }
    else if d == 7 { "7" }
    else if d == 8 { "8" }
    else { "9" }
}

/// Appends the decimal notation of `n` to `out`.
pub fn push_decimal(out: &mut String, n: u128)
    ensures
        final(out)@ == old(out)@ + decimal(n as nat),
    decreases n,
{
    if n >= 10 {
        push_decimal(out, n / 10);
    }
    let d = (n % 10) as u8;
    out.append(digit_str(d));
    proof {
        if n >= 10 {
            assert(old(out)@ + decimal(n as nat) =~= old(out)@ + decimal((n / 10) as nat) + seq![
                digit_char((n % 10) as nat),
            ]);
        }
    }
}

/// The path of the `counter`-th candidate workspace directory under `base`
/// for the process `process_id` at time `nanos` (nanoseconds since the
/// epoch). The first candidate has no counter suffix.
pub fn workspace_path(base: &str, process_id: u32, nanos: u128, counter: u32) -> (r: String)
    ensures
        r@ == workspace_candidate(base@, process_id as nat, nanos as nat, counter as nat),
{
    let mut leaf = String::from_str("runner-");
    push_decimal(&mut leaf, process_id as u128);
    leaf.append("-");
    push_decimal(&mut leaf, nanos);
    if counter > 0 {
        leaf.append("-");
        push_decimal(&mut leaf, counter as u128);
    }
    assert(leaf@ =~= workspace_leaf(process_id as nat, nanos as nat, counter as nat));
    crate::paths::join_path(base, leaf.as_str())
}

/// The error text of a command that was stopped after `seconds`, followed
/// by what it had written to stderr.
pub fn timeout_message(seconds: u64, stderr: &str) -> (r: String)
    ensures
        r@ == timeout_message_spec(seconds as nat, stderr@),
{
    let mut out = String::from_str("timed out after ");
    push_decimal(&mut out, seconds as u128);
    out.append(" seconds\n");
    out.append(stderr);
    out
}

} // verus!
