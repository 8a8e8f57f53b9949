//! Process handles: the orchestrator's owned references to the external
//! processes it has spawned. A handle carries the platform it belongs to and
//! an opaque token standing for the live process; killing takes the token out
//! of the handle and hands it to the surrounding binary, which sends the
//! actual terminate signal (fire-and-forget, never waited on).

use vstd::prelude::*;
use crate::platform::Platform;

verus! {

/// One owned external process (at most), tagged with the platform whose build
/// strategy spawned it. The token identifies the process to the surrounding
/// binary; an empty slot means no process is attached.
#[derive(Clone, Copy, Debug, PartialEq, Eq, Structural)]
pub struct SimulatorWindow {
    pub platform: Platform,
    pub process: Option<u64>,
}

impl SimulatorWindow {
    /// A handle for `platform` with no process attached yet.
    pub fn new(platform: Platform) -> (r: SimulatorWindow)
        ensures
            r.platform == platform,
            r.process is None,
    {
        SimulatorWindow { platform, process: None }
    }

    /// Attaches a spawned process. Any previous token is overwritten without
    /// being killed; callers that care must kill first.
    pub fn set_process(&mut self, token: u64)
        ensures
            final(self).platform == old(self).platform,
            final(self).process == Some(token),
    {
        self.process = Some(token);
    }

    /// Takes the process out of the handle for killing; a second call returns
    /// `None` and is a no-op.
    pub fn kill_process(&mut self) -> (taken: Option<u64>)
        ensures
            final(self).platform == old(self).platform,
            final(self).process is None,
            taken == old(self).process,
    {
        self.process.take()
    }
}

/// The handles that survive a cleanup of `platform`: exactly those tagged
/// with a different platform, in their original order.
pub open spec fn spec_retained(ws: Seq<SimulatorWindow>, platform: Platform) -> Seq<
    SimulatorWindow,
>
    decreases ws.len(),
{
    if ws.len() == 0 {
        ws
    } else {
        let rest = spec_retained(ws.drop_last(), platform);
        if ws.last().platform != platform {
            rest.push(ws.last())
        } else {
            rest
        }
    }
}

/// The live process tokens of the handles a cleanup of `platform` removes:
/// exactly those tagged with that platform, in their original order.
pub open spec fn spec_removed_tokens(ws: Seq<SimulatorWindow>, platform: Platform) -> Seq<u64>
    decreases ws.len(),
{
    if ws.len() == 0 {
        Seq::empty()
    } else {
        let rest = spec_removed_tokens(ws.drop_last(), platform);
        if ws.last().platform == platform && ws.last().process is Some {
            rest.push(ws.last().process->0)
        } else {
            rest
        }
    }
}

/// The live process tokens of all handles, in order.
pub open spec fn spec_all_tokens(ws: Seq<SimulatorWindow>) -> Seq<u64>
    decreases ws.len(),
{
    if ws.len() == 0 {
        Seq::empty()
    } else {
        let rest = spec_all_tokens(ws.drop_last());
        if ws.last().process is Some {
            rest.push(ws.last().process->0)
        } else {
            rest
        }
    }
}

/// Every retained handle is tagged with a platform other than the one cleaned
/// up, and every removed token belonged to the platform cleaned up: cleanup
/// removes all and only that platform's handles.
pub proof fn lemma_cleanup_removes_all_and_only(ws: Seq<SimulatorWindow>, platform: Platform)
    ensures
        forall|i: int|
            0 <= i < spec_retained(ws, platform).len() ==> #[trigger] spec_retained(
                ws,
                platform,
            )[i].platform != platform,
        forall|i: int|
            0 <= i < ws.len() && (#[trigger] ws[i].platform) != platform ==> spec_retained(
                ws,
                platform,
            ).contains(ws[i]),
        spec_retained(ws, platform).len() + spec_removed_count(ws, platform) == ws.len(),
    decreases ws.len(),
{
    if ws.len() > 0 {
        lemma_cleanup_removes_all_and_only(ws.drop_last(), platform);
        assert forall|i: int|
            0 <= i < ws.len() && (#[trigger] ws[i].platform) != platform implies spec_retained(
            ws,
            platform,
        ).contains(ws[i]) by {
            if i < ws.len() - 1 {
                assert(ws.drop_last()[i] == ws[i]);
                let rest = spec_retained(ws.drop_last(), platform);
                assert(rest.contains(ws[i]));
                let j = choose|j: int| 0 <= j < rest.len() && rest[j] == ws[i];
                if ws.last().platform != platform {
                    assert(spec_retained(ws, platform)[j] == ws[i]);
                } else {
                    assert(spec_retained(ws, platform)[j] == ws[i]);
                }
            } else {
                assert(ws.last() == ws[i]);
                let r = spec_retained(ws, platform);
                assert(r[r.len() - 1] == ws[i]);
            }
        }
    }
}

/// How many handles a cleanup of `platform` removes.
pub open spec fn spec_removed_count(ws: Seq<SimulatorWindow>, platform: Platform) -> nat
    decreases ws.len(),
{
    if ws.len() == 0 {
        0
    } else {
        spec_removed_count(ws.drop_last(), platform) + if ws.last().platform == platform {
            1nat
        } else {
            0nat
        }
    }
}

/// Removes every handle tagged with `platform` from `windows`, returning the
/// live tokens of the removed handles so their processes can be killed.
pub fn remove_platform_windows(windows: &mut Vec<SimulatorWindow>, platform: Platform) -> (kills:
    Vec<u64>)
    ensures
        final(windows)@ == spec_retained(old(windows)@, platform),
        kills@ == spec_removed_tokens(old(windows)@, platform),
{
    let ghost all: Seq<SimulatorWindow> = windows@;
    let mut kept: Vec<SimulatorWindow> = Vec::new();
    let mut kills: Vec<u64> = Vec::new();
    let mut i: usize = 0;
    proof {
        assert(all.take(0) =~= Seq::empty());
    }
    while i < windows.len()
        invariant
            windows@ == all,
            i <= all.len(),
            kept@ == spec_retained(all.take(i as int), platform),
            kills@ == spec_removed_tokens(all.take(i as int), platform),
        decreases all.len() - i,
    {
        let w = windows[i];
        proof {
            let pre = all.take(i + 1);
            assert(pre.drop_last() =~= all.take(i as int));
            assert(pre.last() == all[i as int]);
        }
        if w.platform == platform {
            if let Some(token) = w.process {
                kills.push(token);
            }
        } else {
            kept.push(w);
        }
        i += 1;
    }
    proof {
        assert(all.take(all.len() as int) =~= all);
    }
    *windows = kept;
    kills
}

/// Empties `windows` entirely, returning every live token so that all
/// processes can be killed.
pub fn take_all_windows(windows: &mut Vec<SimulatorWindow>) -> (kills: Vec<u64>)
    ensures
        final(windows)@ == Seq::<SimulatorWindow>::empty(),
        kills@ == spec_all_tokens(old(windows)@),
{
    let ghost all: Seq<SimulatorWindow> = windows@;
    let mut kills: Vec<u64> = Vec::new();
    let mut i: usize = 0;
    proof {
        assert(all.take(0) =~= Seq::empty());
    }
    while i < windows.len()
        invariant
            windows@ == all,
            i <= all.len(),
            kills@ == spec_all_tokens(all.take(i as int)),
        decreases all.len() - i,
    {
        let w = windows[i];
        proof {
            let pre = all.take(i + 1);
            assert(pre.drop_last() =~= all.take(i as int));
            assert(pre.last() == all[i as int]);
        }
        if let Some(token) = w.process {
            kills.push(token);
        }
        i += 1;
    }
    proof {
        assert(all.take(all.len() as int) =~= all);
    }
    windows.clear();
    kills
}

} // verus!
