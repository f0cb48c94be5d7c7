//! Properties of the game that span several operations or hold of every state.

use vstd::prelude::*;

use crate::account::{AccountId, PlayerAccountView};
use crate::error::Error;
use crate::game::GameView;
use crate::probe::{flipper_verdict, probe_run, ProbeAction, ProbeEvent, ProbeState, Verdict};

verus! {

/// Reading `before`, toggling, then reading `after` ends the verification
/// with the verdict for that pair of states: a pass exactly when they differ.
pub proof fn lemma_probe_reads_decide(before: bool, after: bool)
    ensures
        probe_run(seq![ProbeEvent::Read(before), ProbeEvent::Toggled, ProbeEvent::Read(after)]).1
            == ProbeAction::Finish(flipper_verdict(before, after)),
        flipper_verdict(before, after) == Verdict::Pass <==> before != after,
{
    let events = seq![ProbeEvent::Read(before), ProbeEvent::Toggled, ProbeEvent::Read(after)];
    let two = seq![ProbeEvent::Read(before), ProbeEvent::Toggled];
    let one = seq![ProbeEvent::Read(before)];
    assert(events.drop_last() =~= two);
    assert(two.drop_last() =~= one);
    assert(one.drop_last() =~= Seq::<ProbeEvent>::empty());
    assert(probe_run(Seq::<ProbeEvent>::empty()).0 == ProbeState::Start);
    assert(probe_run(one).0 == ProbeState::ReadBefore { before });
    assert(probe_run(two).0 == ProbeState::Toggled { before });
}

/// A failed remote call at any of the three steps ends the verification as a
/// failed call, and no further call is made.
pub proof fn lemma_probe_call_failure(before: bool)
    ensures
        probe_run(seq![ProbeEvent::CallFailed]).1 == ProbeAction::Finish(Verdict::CallFailed),
        probe_run(seq![ProbeEvent::Read(before), ProbeEvent::CallFailed]).1 == ProbeAction::Finish(
            Verdict::CallFailed,
        ),
        probe_run(
            seq![ProbeEvent::Read(before), ProbeEvent::Toggled, ProbeEvent::CallFailed],
        ).1 == ProbeAction::Finish(Verdict::CallFailed),
{
    let failed = seq![ProbeEvent::CallFailed];
    assert(failed.drop_last() =~= Seq::<ProbeEvent>::empty());
    let one = seq![ProbeEvent::Read(before)];
    assert(one.drop_last() =~= Seq::<ProbeEvent>::empty());
    assert(probe_run(Seq::<ProbeEvent>::empty()).0 == ProbeState::Start);
    assert(probe_run(one).0 == ProbeState::ReadBefore { before });
    let two = seq![ProbeEvent::Read(before), ProbeEvent::CallFailed];
    assert(two.drop_last() =~= one);
    let toggled = seq![ProbeEvent::Read(before), ProbeEvent::Toggled];
    assert(toggled.drop_last() =~= one);
    assert(probe_run(toggled).0 == ProbeState::Toggled { before });
    let three = seq![ProbeEvent::Read(before), ProbeEvent::Toggled, ProbeEvent::CallFailed];
    assert(three.drop_last() =~= toggled);
}

/// Creating an account twice for one identity fails the second time with
/// `AccountExists`, and the second attempt leaves the game as the first one
/// left it.
pub proof fn lemma_single_account_per_identity(g: GameView, id: AccountId)
    ensures
        g.create(id).0.accounts.contains_key(id),
        g.create(id).0.create(id) == (g.create(id).0, Err::<PlayerAccountView, Error>(
            Error::AccountExists,
        )),
{
}

/// A player at level `L` may submit for level `k` exactly when `k <= L`; for a
/// greater level the submission fails with `SubmittedGreaterLevel` and the
/// game, submissions included, is left as it was.
pub proof fn lemma_submission_gating(g: GameView, id: AccountId, k: u32, program: AccountId)
    requires
        g.accounts.contains_key(id),
    ensures
        g.submit(id, k, program).1 is Ok <==> k <= g.accounts[id].level,
        k > g.accounts[id].level ==> g.submit(id, k, program) == (g, Err::<AccountId, Error>(
            Error::SubmittedGreaterLevel,
        )),
{
}

/// Two submissions for one level: each is accepted exactly when the level has
/// been reached, and when they are, the second program is the one stored, as
/// if the first had never been made.
pub proof fn lemma_resubmission_overwrites(
    g: GameView,
    id: AccountId,
    k: u32,
    first: AccountId,
    second: AccountId,
)
    requires
        g.accounts.contains_key(id),
    ensures
        ({
            let (g1, r1) = g.submit(id, k, first);
            let (g2, r2) = g1.submit(id, k, second);
            &&& (r1 is Ok <==> k <= g.accounts[id].level)
            &&& (r2 is Ok <==> k <= g.accounts[id].level)
            &&& k <= g.accounts[id].level ==> {
                &&& g2 == g.submit(id, k, second).0
                &&& g2.accounts[id].level_contracts[k] == second
                &&& g2.accounts[id].level == g.accounts[id].level
            }
        }),
{
    let (g1, r1) = g.submit(id, k, first);
    let (g2, r2) = g1.submit(id, k, second);
    if k <= g.accounts[id].level {
        let direct = g.submit(id, k, second).0;
        assert(g2.accounts[id].level_contracts =~= direct.accounts[id].level_contracts);
        assert(g2.accounts[id] == direct.accounts[id]);
        assert(g2.accounts =~= direct.accounts);
    }
}

/// A program whose reads around the toggle differ passes, and running the
/// player's frontier level `L < max` with it succeeds and moves the player
/// to `L + 1`, with nothing else changed.
pub proof fn lemma_frontier_pass_advances(g: GameView, id: AccountId, before: bool, after: bool)
    requires
        g.accounts.contains_key(id),
        g.accounts[id].level < g.max_level,
        g.accounts[id].level_contracts.contains_key(g.accounts[id].level),
        before != after,
    ensures
        ({
            let level = g.accounts[id].level;
            let (g2, r) = g.run(id, level, flipper_verdict(before, after));
            &&& flipper_verdict(before, after) == Verdict::Pass
            &&& r == Ok::<bool, Error>(true)
            &&& g2.accounts[id].level == level + 1
            &&& g2.accounts[id].level_contracts == g.accounts[id].level_contracts
            &&& g2.accounts == g.accounts.insert(id, g2.accounts[id])
        }),
{
    lemma_probe_reads_decide(before, after);
}

/// A program whose two reads are equal fails the run with
/// `LevelContractCallFailed`, and so does any verdict but a pass; the game is
/// left unchanged.
pub proof fn lemma_mismatch_does_not_advance(
    g: GameView,
    id: AccountId,
    k: u32,
    state: bool,
    verdict: Verdict,
)
    requires
        g.accounts.contains_key(id),
        g.accounts[id].level_contracts.contains_key(k),
        verdict != Verdict::Pass,
    ensures
        probe_run(seq![ProbeEvent::Read(state), ProbeEvent::Toggled, ProbeEvent::Read(state)]).1
            == ProbeAction::Finish(Verdict::StateUnchanged),
        g.run(id, k, Verdict::StateUnchanged) == (g, Err::<bool, Error>(
            Error::LevelContractCallFailed,
        )),
        g.run(id, k, verdict) == (g, Err::<bool, Error>(Error::LevelContractCallFailed)),
{
    lemma_probe_reads_decide(state, state);
}

/// Running again a level `k` below the player's level succeeds on a pass but
/// leaves the game unchanged.
pub proof fn lemma_replay_does_not_advance(g: GameView, id: AccountId, k: u32)
    requires
        g.accounts.contains_key(id),
        g.accounts[id].level_contracts.contains_key(k),
        k < g.accounts[id].level,
    ensures
        g.run(id, k, Verdict::Pass) == (g, Ok::<bool, Error>(true)),
{
    assert(g.run(id, k, Verdict::Pass).0.accounts =~= g.accounts);
}

/// At the cap, a pass at the cap level succeeds and the level stays there.
pub proof fn lemma_cap_is_terminal(g: GameView, id: AccountId)
    requires
        g.accounts.contains_key(id),
        g.accounts[id].level == g.max_level,
        g.accounts[id].level_contracts.contains_key(g.max_level),
    ensures
        g.run(id, g.max_level, Verdict::Pass) == (g, Ok::<bool, Error>(true)),
{
    assert(g.run(id, g.max_level, Verdict::Pass).0.accounts =~= g.accounts);
}

/// Running a level with nothing submitted for it fails with
/// `LevelContractNotExists`, whatever the verification would have said, and
/// changes nothing.
pub proof fn lemma_missing_submission(g: GameView, id: AccountId, k: u32, verdict: Verdict)
    requires
        g.accounts.contains_key(id),
        !g.accounts[id].level_contracts.contains_key(k),
    ensures
        g.run(id, k, verdict) == (g, Err::<bool, Error>(Error::LevelContractNotExists)),
{
}

/// The only change of level that a run makes is from `n` to `n + 1`, on a
/// pass at level `n` while `n` is below the cap; every operation keeps the
/// game well formed.
pub proof fn lemma_level_transitions(
    g: GameView,
    id: AccountId,
    k: u32,
    program: AccountId,
    verdict: Verdict,
)
    requires
        g.wf(),
        g.accounts.contains_key(id),
    ensures
        g.create(id).0.wf(),
        g.submit(id, k, program).0.wf(),
        g.run(id, k, verdict).0.wf(),
        g.submit(id, k, program).0.accounts[id].level == g.accounts[id].level,
        ({
            let level = g.accounts[id].level;
            let after = g.run(id, k, verdict).0.accounts[id].level;
            ||| after == level
            ||| after == level + 1 && verdict == Verdict::Pass && k == level && level < g.max_level
        }),
{
    let acc = g.accounts[id];
    if k <= acc.level {
        let s = acc.with_submission(k, program);
        assert forall|j: u32| #[trigger] s.level_contracts.contains_key(j) implies j <= s.level by {
            if j != k {
                assert(acc.level_contracts.contains_key(j));
            }
        }
    }
    let (g2, _) = g.run(id, k, verdict);
    assert forall|x: AccountId| #[trigger] g2.accounts.contains_key(x) implies g2.accounts[x].wf(
        g2.max_level,
    ) by {
        if x != id {
            assert(g.accounts.contains_key(x));
        } else {
            assert(acc.wf(g.max_level));
        }
    }
    let g3 = g.submit(id, k, program).0;
    assert forall|x: AccountId| #[trigger] g3.accounts.contains_key(x) implies g3.accounts[x].wf(
        g3.max_level,
    ) by {
        if x != id {
            assert(g.accounts.contains_key(x));
        }
    }
    let g1 = g.create(id).0;
    assert forall|x: AccountId| #[trigger] g1.accounts.contains_key(x) implies g1.accounts[x].wf(
        g1.max_level,
    ) by {
        if x != id {
            assert(g.accounts.contains_key(x));
        }
    }
}

} // verus!
