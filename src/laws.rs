//! Properties of whole executions, proved over the model of the engine.

use vstd::prelude::*;
use crate::decode::lossy_text;
use crate::engine::{
    accepts, group_of, initial, next, well_formed, ActionView, EventView, ExecView, Phase,
};
use crate::naming::{decimal, digit_char, timeout_message_spec, workspace_candidate, workspace_leaf};
use crate::paths::{is_valid_name, join_spec};

verus! {

/// The state reached and the actions issued when the events `es` answer
/// one after the other, starting in `s`.
pub open spec fn run(s: ExecView, es: Seq<EventView>) -> (ExecView, Seq<ActionView>)
    decreases es.len(),
{
    if es.len() == 0 {
        (s, Seq::empty())
    } else {
        let (t, a) = next(s, es[0]);
        let (u, rest) = run(t, es.drop_first());
        (u, seq![a] + rest)
    }
}

/// Each of the events `es` answers the action before it, starting in `s`.
pub open spec fn all_accepted(s: ExecView, es: Seq<EventView>) -> bool
    decreases es.len(),
{
    es.len() == 0 || (accepts(s, es[0]) && all_accepted(next(s, es[0]).0, es.drop_first()))
}

/// The states that an execution can be in are closed under its steps.
pub proof fn lemma_next_well_formed(s: ExecView, e: EventView)
    requires
        well_formed(s),
        accepts(s, e),
    ensures
        well_formed(next(s, e).0),
{
    if s.phase is WritingFiles && e is FileWritten {
        assert(forall|i: int| 0 <= i <= s.next_file ==> is_valid_name(#[trigger] s.files[i].0));
    }
}

/// The command is only ever spawned once every file name has been found
/// valid.
pub proof fn lemma_spawn_needs_valid_names(s: ExecView, e: EventView)
    requires
        well_formed(s),
        accepts(s, e),
        next(s, e).1 is Spawn,
    ensures
        forall|i: int| 0 <= i < s.files.len() ==> is_valid_name(#[trigger] s.files[i].0),
{
    lemma_next_well_formed(s, e);
}

/// A request with an invalid file name never has its command spawned and
/// never succeeds, whatever the outcome of the file system work.
pub proof fn lemma_invalid_name_never_runs(s: ExecView, es: Seq<EventView>, k: int)
    requires
        well_formed(s),
        s.phase is Provisioning || s.phase is WritingFiles || s.phase is CleaningUp
            || s.phase is Done,
        !(s.outcome matches Some(Ok(_))),
        0 <= k < s.files.len(),
        !is_valid_name(s.files[k].0),
        all_accepted(s, es),
    ensures
        forall|j: int| 0 <= j < run(s, es).1.len() ==> !(#[trigger] run(s, es).1[j] is Spawn),
        !(run(s, es).0.outcome matches Some(Ok(_))),
    decreases es.len(),
{
    if es.len() > 0 {
        let t = next(s, es[0]).0;
        lemma_next_well_formed(s, es[0]);
        lemma_invalid_name_never_runs(t, es.drop_first(), k);
        let acts = run(s, es).1;
        let rest = run(t, es.drop_first()).1;
        assert(acts == seq![next(s, es[0]).1] + rest);
        assert forall|j: int| 0 <= j < acts.len() implies !(#[trigger] acts[j] is Spawn) by {
            if j > 0 {
                assert(acts[j] == rest[j - 1]);
            }
        }
    }
}

/// From its first state, the execution of a request that holds an invalid
/// file name spawns nothing and does not succeed.
pub proof fn lemma_invalid_request_never_runs(
    files: Seq<(Seq<char>, Seq<char>)>,
    command: Seq<char>,
    timeout_seconds: u64,
    base: Seq<char>,
    process_id: u32,
    nanos: u128,
    es: Seq<EventView>,
    k: int,
)
    requires
        0 <= k < files.len(),
        !is_valid_name(files[k].0),
        all_accepted(initial(files, command, timeout_seconds, base, process_id, nanos), es),
    ensures
        ({
            let r = run(initial(files, command, timeout_seconds, base, process_id, nanos), es);
            &&& forall|j: int| 0 <= j < r.1.len() ==> !(#[trigger] r.1[j] is Spawn)
            &&& !(r.0.outcome matches Some(Ok(_)))
        }),
{
    lemma_invalid_name_never_runs(
        initial(files, command, timeout_seconds, base, process_id, nanos),
        es,
        k,
    );
}

/// A request without files whose command exits reports exactly what the
/// command wrote to stdout and stderr, with an empty error, after the
/// workspace was removed.
pub proof fn lemma_exit_reports_output(
    command: Seq<char>,
    timeout_seconds: u64,
    base: Seq<char>,
    process_id: u32,
    nanos: u128,
    pid: Option<u32>,
    out: Seq<u8>,
    err: Seq<u8>,
)
    ensures
        ({
            let s = initial(Seq::empty(), command, timeout_seconds, base, process_id, nanos);
            let es = seq![
                EventView::DirCreated,
                EventView::Spawned(pid),
                EventView::Exited(out, err),
                EventView::DirRemoved,
            ];
            let ws = workspace_candidate(base, process_id as nat, nanos as nat, 0);
            &&& all_accepted(s, es)
            &&& run(s, es).1 == seq![
                ActionView::Spawn(command, ws),
                ActionView::Wait(timeout_seconds),
                ActionView::RemoveDir(ws),
                ActionView::Finish(lossy_text(out), lossy_text(err), Seq::empty()),
            ]
        }),
{
    let s = initial(Seq::empty(), command, timeout_seconds, base, process_id, nanos);
    let es = seq![
        EventView::DirCreated,
        EventView::Spawned(pid),
        EventView::Exited(out, err),
        EventView::DirRemoved,
    ];
    reveal_with_fuel(run, 5);
    reveal_with_fuel(all_accepted, 5);
    assert(es.drop_first() =~= seq![EventView::Spawned(pid), EventView::Exited(out, err), EventView::DirRemoved]);
    assert(es.drop_first().drop_first() =~= seq![EventView::Exited(out, err), EventView::DirRemoved]);
    assert(es.drop_first().drop_first().drop_first() =~= seq![EventView::DirRemoved]);
    assert(es.drop_first().drop_first().drop_first().drop_first() =~= Seq::<EventView>::empty());
    assert(run(s, es).1 =~= seq![
        ActionView::Spawn(command, workspace_candidate(base, process_id as nat, nanos as nat, 0)),
        ActionView::Wait(timeout_seconds),
        ActionView::RemoveDir(workspace_candidate(base, process_id as nat, nanos as nat, 0)),
        ActionView::Finish(lossy_text(out), lossy_text(err), Seq::empty()),
    ]);
}

/// A request whose files are all valid has each of them written, in order,
/// under the workspace before the command is spawned.
pub proof fn lemma_files_written_before_spawn(s: ExecView, e: EventView)
    requires
        well_formed(s),
        accepts(s, e),
        s.phase is Provisioning || s.phase is WritingFiles,
        next(s, e).1 matches ActionView::WriteFile(_, _),
    ensures
        ({
            let t = next(s, e).0;
            &&& t.phase is WritingFiles
            &&& next(s, e).1 == ActionView::WriteFile(
                join_spec(t.workspace, t.files[t.next_file as int].0),
                t.files[t.next_file as int].1,
            )
            &&& t.next_file == if s.phase is Provisioning { 0 } else { s.next_file + 1 }
        }),
{
}

/// When the deadline passes while the command runs, the whole process group
/// of the command is killed, the workspace is removed, and the request fails
/// with the timeout error, whatever the command had written to stderr.
pub proof fn lemma_deadline_kills_group(s: ExecView, err: Seq<u8>)
    requires
        well_formed(s),
        s.phase is Waiting,
        s.timeout_seconds > 0,
    ensures
        ({
            let es = seq![EventView::DeadlineElapsed, EventView::Killed(err), EventView::DirRemoved];
            &&& all_accepted(s, es)
            &&& run(s, es).1 == seq![
                ActionView::KillGroup(group_of(s.pid)),
                ActionView::RemoveDir(s.workspace),
                ActionView::Finish(
                    Seq::empty(),
                    Seq::empty(),
                    timeout_message_spec(s.timeout_seconds as nat, lossy_text(err)),
                ),
            ]
            &&& run(s, es).0.phase is Done
        }),
{
    let es = seq![EventView::DeadlineElapsed, EventView::Killed(err), EventView::DirRemoved];
    reveal_with_fuel(run, 4);
    reveal_with_fuel(all_accepted, 4);
    assert(es.drop_first() =~= seq![EventView::Killed(err), EventView::DirRemoved]);
    assert(es.drop_first().drop_first() =~= seq![EventView::DirRemoved]);
    assert(es.drop_first().drop_first().drop_first() =~= Seq::<EventView>::empty());
    assert(run(s, es).1 =~= seq![
        ActionView::KillGroup(group_of(s.pid)),
        ActionView::RemoveDir(s.workspace),
        ActionView::Finish(
            Seq::empty(),
            Seq::empty(),
            timeout_message_spec(s.timeout_seconds as nat, lossy_text(err)),
        ),
    ]);
}

/// Only the removal of the workspace leads to the response, except where no
/// workspace was ever created.
pub proof fn lemma_finish_after_cleanup(s: ExecView, e: EventView)
    requires
        well_formed(s),
        accepts(s, e),
        next(s, e).1 is Finish,
    ensures
        (s.phase is CleaningUp && e is DirRemoved) || (s.phase is Provisioning
            && !(e is DirCreated)),
{
}

/// Every step that ends the work with a workspace in place asks for its
/// removal, and the removal is answered by the response alone.
pub proof fn lemma_cleanup_removes_workspace(s: ExecView, e: EventView)
    requires
        well_formed(s),
        accepts(s, e),
        !(s.phase is CleaningUp),
        next(s, e).0.phase is CleaningUp,
    ensures
        next(s, e).1 == ActionView::RemoveDir(next(s, e).0.workspace),
        forall|f: EventView| accepts(next(s, e).0, f) ==> (f is DirRemoved && next(
            next(s, e).0,
            f,
        ).0.phase == Phase::Done),
{
}

proof fn lemma_decimal_digits(n: nat)
    ensures
        decimal(n).len() >= 1,
        forall|i: int| 0 <= i < decimal(n).len() ==> #[trigger] decimal(n)[i] != '-',
    decreases n,
{
    if n >= 10 {
        lemma_decimal_digits(n / 10);
        assert forall|i: int| 0 <= i < decimal(n).len() implies #[trigger] decimal(n)[i] != '-' by {
            if i < decimal(n / 10).len() {
                assert(decimal(n)[i] == decimal(n / 10)[i]);
            }
        }
    }
}

proof fn lemma_digit_char_injective(a: nat, b: nat)
    requires
        a < 10,
        b < 10,
        digit_char(a) == digit_char(b),
    ensures
        a == b,
{
}

proof fn lemma_decimal_injective(a: nat, b: nat)
    requires
        decimal(a) == decimal(b),
    ensures
        a == b,
    decreases a + b,
{
    lemma_decimal_digits(a / 10);
    lemma_decimal_digits(b / 10);
    if a < 10 && b < 10 {
        assert(decimal(a) == seq![digit_char(a)]);
        assert(decimal(b) == seq![digit_char(b)]);
        assert(decimal(a)[0] == digit_char(a));
        assert(decimal(b)[0] == digit_char(b));
        lemma_digit_char_injective(a, b);
    } else if a >= 10 && b >= 10 {
        let da = decimal(a);
        assert(da.last() == digit_char(a % 10));
        assert(decimal(b).last() == digit_char(b % 10));
        lemma_digit_char_injective(a % 10, b % 10);
        assert(decimal(a / 10) =~= da.drop_last());
        assert(decimal(b / 10) =~= decimal(b).drop_last());
        lemma_decimal_injective(a / 10, b / 10);
    } else if a < 10 {
        assert(decimal(a).len() == 1);
        assert(decimal(b).len() == decimal(b / 10).len() + 1);
    } else {
        assert(decimal(b).len() == 1);
        assert(decimal(a).len() == decimal(a / 10).len() + 1);
    }
}

/// `x + "-" + y == u + "-" + v` with no `-` in `x` nor `u` splits alike.
proof fn lemma_split_at_dash(x: Seq<char>, y: Seq<char>, u: Seq<char>, v: Seq<char>)
    requires
        x + seq!['-'] + y == u + seq!['-'] + v,
        forall|i: int| 0 <= i < x.len() ==> #[trigger] x[i] != '-',
        forall|i: int| 0 <= i < u.len() ==> #[trigger] u[i] != '-',
    ensures
        x == u,
        y == v,
{
    let l = x + seq!['-'] + y;
    let r = u + seq!['-'] + v;
    if x.len() < u.len() {
        assert(l[x.len() as int] == '-');
        assert(r[x.len() as int] == u[x.len() as int]);
    } else if u.len() < x.len() {
        assert(r[u.len() as int] == '-');
        assert(l[u.len() as int] == x[u.len() as int]);
    }
    assert(x =~= l.subrange(0, x.len() as int));
    assert(u =~= r.subrange(0, u.len() as int));
    assert(y =~= l.subrange(x.len() as int + 1, l.len() as int));
    assert(v =~= r.subrange(u.len() as int + 1, r.len() as int));
}

/// A decimal number with nothing after it is not a decimal number followed
/// by a `-` and more.
proof fn lemma_no_dash_tail(x: Seq<char>, u: Seq<char>, v: Seq<char>)
    requires
        forall|i: int| 0 <= i < x.len() ==> #[trigger] x[i] != '-',
    ensures
        x != u + seq!['-'] + v,
{
    if x == u + seq!['-'] + v {
        assert(x[u.len() as int] == '-');
    }
}

/// The workspace names of two executions differ unless they share the
/// process id, the time and the retry counter: requests never share a
/// workspace, nor do the attempts of one request.
pub proof fn lemma_workspace_names_distinct(
    base: Seq<char>,
    p1: nat,
    n1: nat,
    c1: nat,
    p2: nat,
    n2: nat,
    c2: nat,
)
    requires
        workspace_candidate(base, p1, n1, c1) == workspace_candidate(base, p2, n2, c2),
    ensures
        p1 == p2,
        n1 == n2,
        c1 == c2,
{
    let l1 = workspace_leaf(p1, n1, c1);
    let l2 = workspace_leaf(p2, n2, c2);
    let j1 = join_spec(base, l1);
    let j2 = join_spec(base, l2);
    let off = j1.len() - l1.len();
    assert(l1 =~= j1.subrange(off, j1.len() as int));
    assert(l2 =~= j2.subrange(off, j2.len() as int));
    lemma_leaf_injective(p1, n1, c1, p2, n2, c2);
}

#[verifier::rlimit(50)]
proof fn lemma_leaf_injective(p1: nat, n1: nat, c1: nat, p2: nat, n2: nat, c2: nat)
    requires
        workspace_leaf(p1, n1, c1) == workspace_leaf(p2, n2, c2),
    ensures
        p1 == p2,
        n1 == n2,
        c1 == c2,
{
    let l1 = workspace_leaf(p1, n1, c1);
    let l2 = workspace_leaf(p2, n2, c2);
    let pre = "runner"@;
    reveal_strlit("runner-");
    reveal_strlit("-");
    reveal_strlit("runner");
    assert(pre.len() == 6);
    assert(forall|i: int| 0 <= i < pre.len() ==> #[trigger] pre[i] != '-');
    assert("runner-"@ =~= pre + seq!['-']);
    assert("-"@ =~= seq!['-']);
    lemma_decimal_digits(p1);
    lemma_decimal_digits(p2);
    lemma_decimal_digits(n1);
    lemma_decimal_digits(n2);
    lemma_decimal_digits(c1);
    lemma_decimal_digits(c2);
    let t1 = if c1 == 0 { Seq::empty() } else { seq!['-'] + decimal(c1) };
    let t2 = if c2 == 0 { Seq::empty() } else { seq!['-'] + decimal(c2) };
    let r1 = decimal(p1) + seq!['-'] + (decimal(n1) + t1);
    let r2 = decimal(p2) + seq!['-'] + (decimal(n2) + t2);
    assert(l1 =~= pre + seq!['-'] + r1);
    assert(l2 =~= pre + seq!['-'] + r2);
    lemma_split_at_dash(pre, r1, pre, r2);
    lemma_split_at_dash(decimal(p1), decimal(n1) + t1, decimal(p2), decimal(n2) + t2);
    lemma_decimal_injective(p1, p2);
    lemma_tail_injective(n1, c1, n2, c2);
}

proof fn lemma_tail_injective(n1: nat, c1: nat, n2: nat, c2: nat)
    requires
        decimal(n1) + (if c1 == 0 { Seq::empty() } else { seq!['-'] + decimal(c1) })
            == decimal(n2) + (if c2 == 0 { Seq::empty() } else { seq!['-'] + decimal(c2) }),
    ensures
        n1 == n2,
        c1 == c2,
{
    lemma_decimal_digits(n1);
    lemma_decimal_digits(n2);
    lemma_decimal_digits(c1);
    lemma_decimal_digits(c2);
    let t1 = if c1 == 0 { Seq::empty() } else { seq!['-'] + decimal(c1) };
    let t2 = if c2 == 0 { Seq::empty() } else { seq!['-'] + decimal(c2) };
    if c1 == 0 && c2 == 0 {
        assert(decimal(n1) =~= decimal(n1) + t1);
        assert(decimal(n2) =~= decimal(n2) + t2);
        lemma_decimal_injective(n1, n2);
    } else if c1 != 0 && c2 != 0 {
        assert(decimal(n1) + t1 =~= decimal(n1) + seq!['-'] + decimal(c1));
        assert(decimal(n2) + t2 =~= decimal(n2) + seq!['-'] + decimal(c2));
        lemma_split_at_dash(decimal(n1), decimal(c1), decimal(n2), decimal(c2));
        lemma_decimal_injective(n1, n2);
        lemma_decimal_injective(c1, c2);
    } else if c1 == 0 {
        assert(decimal(n1) =~= decimal(n1) + t1);
        assert(decimal(n2) + t2 =~= decimal(n2) + seq!['-'] + decimal(c2));
        lemma_no_dash_tail(decimal(n1), decimal(n2), decimal(c2));
    } else {
        assert(decimal(n2) =~= decimal(n2) + t2);
        assert(decimal(n1) + t1 =~= decimal(n1) + seq!['-'] + decimal(c1));
        lemma_no_dash_tail(decimal(n2), decimal(n1), decimal(c1));
    }
}

} // verus!
