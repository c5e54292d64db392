//! The small decisions of the app shell around sessions, hooks, SSH and the
//! notch window: each takes the values that the shell read and says what it
//! does next.

use vstd::prelude::*;

verus! {

/// The SSH port connected to: the one asked for, else 22.
pub fn ssh_port(port: Option<u16>) -> (chosen: u16)
    ensures
        chosen == match port {
            Some(p) => p,
            None => 22u16,
        },
{
    match port {
        Some(p) => p,
        None => 22,
    }
}

/// What the periodic idle-session clean-up has just learnt.
pub enum CleanupEvent {
    /// The loop woke from its sleep and read the configured idle time-out.
    Woke { timeout_secs: u64 },
    /// The session store removed this many idle sessions.
    Cleaned { removed: usize },
}

/// What the periodic idle-session clean-up does next.
pub enum CleanupAction {
    /// Ask the session store to remove sessions idle for longer than this.
    CleanIdle { timeout_secs: u64 },
    /// Tell the window that sessions were cleaned up, then sleep.
    Announce,
    /// Sleep until the next tick.
    Sleep,
}

/// One step of the clean-up loop. On waking, it cleans only where the
/// time-out is above zero (zero switches clean-up off), handing over that
/// time-out; after a clean-up it announces only where some session was
/// removed. So each tick cleans at most once and announces at most once.
pub fn cleanup_next(event: CleanupEvent) -> (action: CleanupAction)
    ensures
        match event {
            CleanupEvent::Woke { timeout_secs } => if timeout_secs > 0 {
                action == (CleanupAction::CleanIdle { timeout_secs })
            } else {
                action is Sleep
            },
            CleanupEvent::Cleaned { removed } => if removed > 0 {
                action is Announce
            } else {
                action is Sleep
            },
        },
{
    match event {
        CleanupEvent::Woke { timeout_secs } => {
            if timeout_secs > 0 {
                CleanupAction::CleanIdle { timeout_secs }
            } else {
                CleanupAction::Sleep
            }
        },
        CleanupEvent::Cleaned { removed } => {
            if removed > 0 {
                CleanupAction::Announce
            } else {
                CleanupAction::Sleep
            }
        },
    }
}

/// The position of the first session whose id is `id`, if any: the session
/// whose terminal is brought forward.
pub fn first_index_with_id(ids: &Vec<String>, id: &String) -> (found: Option<usize>)
    ensures
        found is None <==> forall|i: int| 0 <= i < ids@.len() ==> #[trigger] ids@[i]@ != id@,
        found matches Some(i) ==> i < ids@.len() && ids@[i as int]@ == id@ && forall|j: int|
            0 <= j < i ==> #[trigger] ids@[j]@ != id@,
{
    let n = ids.len();
    let mut i: usize = 0;
    while i < n
        invariant
            n == ids.len(),
            i <= n,
            forall|j: int| 0 <= j < i ==> #[trigger] ids@[j]@ != id@,
        decreases n - i,
    {
        if ids[i] == *id {
            return Some(i);
        }
        i = i + 1;
    }
    None
}

/// Whether closing a window only hides it: the notch window stays alive.
pub fn hide_instead_of_close(label: &str) -> (hide: bool)
    ensures
        hide == (label@ == "notch"@),
{
    let label = label.to_owned();
    let notch = "notch".to_owned();
    label == notch
}

/// The lines joined with a newline between each two.
pub open spec fn joined_lines(lines: Seq<Seq<char>>) -> Seq<char>
    decreases lines.len(),
{
    if lines.len() == 0 {
        Seq::empty()
    } else if lines.len() == 1 {
        lines[0]
    } else {
        joined_lines(lines.drop_last()) + seq!['\n'] + lines.last()
    }
}

/// The report of a hook install or uninstall: what each step did, one line
/// each.
pub fn join_hook_results(results: &Vec<String>) -> (report: String)
    ensures
        report@ == joined_lines(results@.map_values(|r: String| r@)),
{
    let ghost lines = results@.map_values(|r: String| r@);
    let mut report = String::new();
    let n = results.len();
    for i in 0..n
        invariant
            n == results.len(),
            lines == results@.map_values(|r: String| r@),
            report@ == joined_lines(lines.take(i as int)),
    {
        proof {
            assert(lines.take(i + 1).drop_last() =~= lines.take(i as int));
            assert(lines.take(i + 1).last() == results[i as int]@);
        }
        if i > 0 {
            report.append("\n");
            proof {
                reveal_strlit("\n");
            }
        } else {
            proof {
                assert(lines.take(i as int) =~= Seq::<Seq<char>>::empty());
            }
        }
        report.append(results[i].as_str());
    }
    assert(lines.take(n as int) =~= lines);
    report
}

} // verus!
