use vstd::prelude::*;
use crate::transition::{
    FADE_FULL, FADE_STEP, FADE_TICKS, TransitionPhase, next_phase, next_progress, primary_of,
    tick_alpha, tick_releases, tick_starts,
};

verus! {

/// Phase and progress after `k` update ticks from `phase` at `progress`.
pub open spec fn run<S>(phase: TransitionPhase<S>, progress: nat, k: nat) -> (TransitionPhase<S>, nat)
    decreases k,
{
    if k == 0 {
        (phase, progress)
    } else {
        let (p, n) = run(phase, progress, (k - 1) as nat);
        (next_phase(p, n), next_progress(p, n))
    }
}

/// Overlay alpha pushed by the `k`-th tick (counting from one).
pub open spec fn alpha_at<S>(phase: TransitionPhase<S>, progress: nat, k: nat) -> nat {
    let (p, n) = run(phase, progress, (k - 1) as nat);
    tick_alpha(p, n)
}

/// Whether the `k`-th tick (counting from one) starts the faded-in scene.
pub open spec fn starts_at<S>(phase: TransitionPhase<S>, progress: nat, k: nat) -> bool {
    let (p, n) = run(phase, progress, (k - 1) as nat);
    tick_starts(p, n)
}

/// Whether the `k`-th tick (counting from one) hands the outgoing scene back.
pub open spec fn releases_at<S>(phase: TransitionPhase<S>, progress: nat, k: nat) -> bool {
    let (p, n) = run(phase, progress, (k - 1) as nat);
    tick_releases(p, n)
}

proof fn lemma_run_within_fade<S>(phase: TransitionPhase<S>, k: nat)
    requires
        phase is FadingIn || phase is FadingOut,
        k < FADE_TICKS,
    ensures
        run(phase, 0, k) == (phase, k * FADE_STEP as nat),
    decreases k,
{
    if k > 0 {
        lemma_run_within_fade(phase, (k - 1) as nat);
    }
}

/// A fresh fade-in lasts `FADE_TICKS` ticks. Before the last one the scene
/// is still fading in, with progress one step per tick; the alpha pushed
/// falls strictly from full to zero, which the last tick pushes exactly;
/// the last tick, and only it, settles the scene and starts it.
pub proof fn lemma_fade_in_settles<S>(scene: S)
    ensures
        forall|k: nat|
            k < FADE_TICKS ==> #[trigger] run(TransitionPhase::FadingIn(scene), 0, k) == (
                TransitionPhase::FadingIn(scene),
                k * FADE_STEP as nat,
            ),
        run(TransitionPhase::FadingIn(scene), 0, FADE_TICKS as nat) == (
            TransitionPhase::Settled(scene),
            0nat,
        ),
        alpha_at(TransitionPhase::FadingIn(scene), 0, 1) == FADE_FULL,
        alpha_at(TransitionPhase::FadingIn(scene), 0, FADE_TICKS as nat) == 0,
        forall|k: nat|
            1 <= k < FADE_TICKS ==> #[trigger] alpha_at(TransitionPhase::FadingIn(scene), 0, k)
                > alpha_at(TransitionPhase::FadingIn(scene), 0, k + 1),
        forall|k: nat|
            1 <= k <= FADE_TICKS ==> (#[trigger] starts_at(TransitionPhase::FadingIn(scene), 0, k)
                <==> k == FADE_TICKS),
{
    let p = TransitionPhase::FadingIn(scene);
    assert forall|k: nat| k < FADE_TICKS implies #[trigger] run(p, 0, k) == (p, k * FADE_STEP as nat) by {
        lemma_run_within_fade(p, k);
    }
    lemma_run_within_fade(p, (FADE_TICKS - 1) as nat);
    assert(run(p, 0, 0) == (p, 0nat));
    assert forall|k: nat| 1 <= k < FADE_TICKS implies #[trigger] alpha_at(p, 0, k) > alpha_at(p, 0, k + 1) by {
        lemma_run_within_fade(p, (k - 1) as nat);
        lemma_run_within_fade(p, k);
    }
    assert forall|k: nat| 1 <= k <= FADE_TICKS implies (#[trigger] starts_at(p, 0, k) <==> k == FADE_TICKS) by {
        lemma_run_within_fade(p, (k - 1) as nat);
    }
}

/// A fresh fade-out lasts `FADE_TICKS` ticks. Throughout, the outgoing scene
/// is the one delegated to; the alpha pushed rises strictly from zero to
/// just under full; the last tick, and only it, hands the outgoing scene
/// back and begins the incoming scene's fade-in.
pub proof fn lemma_fade_out_hands_over<S>(from: S, to: S)
    ensures
        forall|k: nat|
            k < FADE_TICKS ==> #[trigger] run(TransitionPhase::FadingOut(from, to), 0, k) == (
                TransitionPhase::FadingOut(from, to),
                k * FADE_STEP as nat,
            ),
        forall|k: nat|
            k < FADE_TICKS ==> primary_of(#[trigger] run(TransitionPhase::FadingOut(from, to), 0, k).0)
                == from,
        run(TransitionPhase::FadingOut(from, to), 0, FADE_TICKS as nat) == (
            TransitionPhase::FadingIn(to),
            0nat,
        ),
        alpha_at(TransitionPhase::FadingOut(from, to), 0, 1) == 0,
        alpha_at(TransitionPhase::FadingOut(from, to), 0, FADE_TICKS as nat) == FADE_FULL - 1,
        forall|k: nat|
            1 <= k < FADE_TICKS ==> #[trigger] alpha_at(TransitionPhase::FadingOut(from, to), 0, k)
                < alpha_at(TransitionPhase::FadingOut(from, to), 0, k + 1),
        forall|k: nat|
            1 <= k <= FADE_TICKS ==> (#[trigger] releases_at(TransitionPhase::FadingOut(from, to), 0, k)
                <==> k == FADE_TICKS),
{
    let p = TransitionPhase::FadingOut(from, to);
    assert forall|k: nat| k < FADE_TICKS implies #[trigger] run(p, 0, k) == (p, k * FADE_STEP as nat) by {
        lemma_run_within_fade(p, k);
    }
    lemma_run_within_fade(p, (FADE_TICKS - 1) as nat);
    assert(run(p, 0, 0) == (p, 0nat));
    assert forall|k: nat| 1 <= k < FADE_TICKS implies #[trigger] alpha_at(p, 0, k) < alpha_at(p, 0, k + 1) by {
        lemma_run_within_fade(p, (k - 1) as nat);
        lemma_run_within_fade(p, k);
    }
    assert forall|k: nat| 1 <= k <= FADE_TICKS implies (#[trigger] releases_at(p, 0, k) <==> k == FADE_TICKS) by {
        lemma_run_within_fade(p, (k - 1) as nat);
    }
}

} // verus!
