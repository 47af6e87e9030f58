use vstd::prelude::*;

verus! {

/// Progress gained by one update tick, in hundredths.
pub const FADE_STEP: u32 = 3;

/// Progress, in hundredths, at which a fade half is complete.
pub const FADE_FULL: u32 = 100;

/// Update ticks that one fade half lasts: `FADE_FULL / FADE_STEP`, rounded up.
pub const FADE_TICKS: u32 = 34;

/// The phase of the controller and the scenes it owns in that phase.
pub enum TransitionPhase<S> {
    /// Fading into the held scene.
    FadingIn(S),
    /// Fading out of the first scene; the second is queued to fade in.
    FadingOut(S, S),
    /// No fade in progress; the held scene is fully active.
    Settled(S),
    /// Placeholder held only while a phase is being swapped.
    Empty,
}

/// The scenes owned in a phase, outgoing first.
pub open spec fn scenes_of<S>(phase: TransitionPhase<S>) -> Seq<S> {
    match phase {
        TransitionPhase::FadingIn(s) => seq![s],
        TransitionPhase::FadingOut(from, to) => seq![from, to],
        TransitionPhase::Settled(s) => seq![s],
        TransitionPhase::Empty => seq![],
    }
}

/// The phase with its delegated scene replaced by `s`.
pub open spec fn with_primary<S>(phase: TransitionPhase<S>, s: S) -> TransitionPhase<S> {
    match phase {
        TransitionPhase::FadingIn(_) => TransitionPhase::FadingIn(s),
        TransitionPhase::FadingOut(_, to) => TransitionPhase::FadingOut(s, to),
        TransitionPhase::Settled(_) => TransitionPhase::Settled(s),
        TransitionPhase::Empty => TransitionPhase::Empty,
    }
}

/// The scene that receives the delegated update, render and idle calls.
pub open spec fn primary_of<S>(phase: TransitionPhase<S>) -> S
    recommends
        !(phase is Empty),
{
    match phase {
        TransitionPhase::FadingIn(s) => s,
        TransitionPhase::FadingOut(from, _) => from,
        TransitionPhase::Settled(s) => s,
        TransitionPhase::Empty => arbitrary(),
    }
}

/// Whether one more step completes the current fade half.
pub open spec fn completes(progress: nat) -> bool {
    progress + FADE_STEP >= FADE_FULL
}

/// Progress after one tick; a settled controller stays at rest.
pub open spec fn next_progress<S>(phase: TransitionPhase<S>, progress: nat) -> nat {
    if phase is Settled {
        progress
    } else if completes(progress) {
        0
    } else {
        (progress + FADE_STEP) as nat
    }
}

/// Phase after one tick.
pub open spec fn next_phase<S>(phase: TransitionPhase<S>, progress: nat) -> TransitionPhase<S> {
    match phase {
        TransitionPhase::FadingIn(s) => if completes(progress) {
            TransitionPhase::Settled(s)
        } else {
            phase
        },
        TransitionPhase::FadingOut(_, to) => if completes(progress) {
            TransitionPhase::FadingIn(to)
        } else {
            phase
        },
        _ => phase,
    }
}

/// Overlay alpha, in hundredths, pushed by one tick of a fade.
pub open spec fn tick_alpha<S>(phase: TransitionPhase<S>, progress: nat) -> nat {
    match phase {
        TransitionPhase::FadingIn(_) => if completes(progress) {
            0
        } else {
            (FADE_FULL - progress) as nat
        },
        TransitionPhase::FadingOut(_, _) => progress,
        _ => 0,
    }
}

/// Whether one tick settles a fading-in scene, which must then be started.
pub open spec fn tick_starts<S>(phase: TransitionPhase<S>, progress: nat) -> bool {
    phase is FadingIn && completes(progress)
}

/// Whether one tick ends a fade-out, which hands the outgoing scene back.
pub open spec fn tick_releases<S>(phase: TransitionPhase<S>, progress: nat) -> bool {
    phase is FadingOut && completes(progress)
}

/// What one update tick of a fade asks of the host.
pub struct FadeTick<S> {
    /// Overlay alpha for this frame, in hundredths.
    pub alpha: u32,
    /// The faded-in scene has just settled and must be started now.
    pub start_scene: bool,
    /// The outgoing scene, handed back when its fade-out ends.
    pub released: Option<S>,
}

/// A transition request that the controller refused.
pub enum TransitionError<S> {
    /// A fade was already in progress; the requested scene is handed back.
    InvalidStateTransition(S),
}

/// The scenes a tick hands back to the host.
pub open spec fn released_seq<S>(released: Option<S>) -> Seq<S> {
    match released {
        Some(s) => seq![s],
        None => seq![],
    }
}

/// The controller of a cross-fade between scenes of type `S`.
pub struct SceneTransition<S> {
    active: bool,
    progress: u32,
    phase: TransitionPhase<S>,
    current_alpha: u32,
}

impl<S> SceneTransition<S> {
    /// The current phase, with the scenes it owns.
    pub closed spec fn phase(&self) -> TransitionPhase<S> {
        self.phase
    }

    /// Fade progress, in hundredths.
    pub closed spec fn progress(&self) -> nat {
        self.progress as nat
    }

    /// The overlay alpha last recorded, in hundredths.
    pub closed spec fn alpha(&self) -> nat {
        self.current_alpha as nat
    }

    /// Whether a fade is in progress.
    pub closed spec fn transitioning(&self) -> bool {
        self.active
    }

    /// Scenes owned per phase: one, or two while fading out.
    pub proof fn lemma_scene_count(&self)
        requires
            self.wf(),
        ensures
            scenes_of(self.phase()).len() == if self.phase() is FadingOut {
                2int
            } else {
                1int
            },
    {
    }

    /// The controller's invariant: a real phase, progress below a full
    /// fade, a settled controller at rest, and an alpha within range.
    pub closed spec fn wf(&self) -> bool {
        &&& !(self.phase is Empty)
        &&& self.progress < FADE_FULL
        &&& self.active == !(self.phase is Settled)
        &&& (self.phase is Settled ==> self.progress == 0)
        &&& self.current_alpha <= FADE_FULL
    }

    /// Starts fading into `game_scene`, with a transparent overlay.
    pub fn new(game_scene: S) -> (r: Self)
        ensures
            r.wf(),
            r.phase() == TransitionPhase::FadingIn(game_scene),
            r.progress() == 0,
            r.alpha() == 0,
            r.transitioning(),
    {
        SceneTransition {
            active: true,
            progress: 0,
            phase: TransitionPhase::FadingIn(game_scene),
            current_alpha: 0,
        }
    }

    /// Whether no fade is in progress.
    pub fn is_settled(&self) -> (r: bool)
        ensures
            r == (self.phase() is Settled),
    {
        match self.phase {
            TransitionPhase::Settled(_) => true,
            _ => false,
        }
    }

    /// Whether the controller is fading out of one scene into another.
    pub fn is_fading_out(&self) -> (r: bool)
        ensures
            r == (self.phase() is FadingOut),
    {
        match self.phase {
            TransitionPhase::FadingOut(_, _) => true,
            _ => false,
        }
    }

    /// Whether a fade is in progress.
    pub fn is_transitioning(&self) -> (r: bool)
        ensures
            r == self.transitioning(),
    {
        self.active
    }

    /// The overlay alpha last recorded, in hundredths.
    pub fn current_alpha(&self) -> (r: u32)
        ensures
            r == self.alpha(),
    {
        self.current_alpha
    }

    /// Fade progress, in hundredths.
    pub fn current_progress(&self) -> (r: u32)
        ensures
            r == self.progress(),
    {
        self.progress
    }

    /// The scene that receives the delegated update, render and idle calls:
    /// the outgoing one while fading out, the held one otherwise.
    pub fn active_scene_mut(&mut self) -> (r: &mut S)
        requires
            old(self).wf(),
        ensures
            *r == primary_of(old(self).phase()),
            final(self).phase() == with_primary(old(self).phase(), *final(r)),
            final(self).progress() == old(self).progress(),
            final(self).alpha() == old(self).alpha(),
            final(self).transitioning() == old(self).transitioning(),
            final(self).wf(),
    {
        match &mut self.phase {
            TransitionPhase::FadingIn(scene) => scene,
            TransitionPhase::FadingOut(from, _) => from,
            TransitionPhase::Settled(scene) => scene,
            TransitionPhase::Empty => vstd::pervasive::unreached(),
        }
    }

    /// The scene queued to fade in, while fading out; it receives only
    /// the resize and idle calls until its own fade-in begins.
    pub fn incoming_scene_mut(&mut self) -> (r: Option<&mut S>)
        requires
            old(self).wf(),
        ensures
            r is Some <==> old(self).phase() is FadingOut,
            r matches Some(to) ==> *to == old(self).phase()->FadingOut_1
                && final(self).phase() == TransitionPhase::FadingOut(
                old(self).phase()->FadingOut_0,
                *final(to),
            ),
            r is None ==> final(self).phase() == old(self).phase(),
            final(self).progress() == old(self).progress(),
            final(self).alpha() == old(self).alpha(),
            final(self).transitioning() == old(self).transitioning(),
            final(self).wf(),
    {
        match &mut self.phase {
            TransitionPhase::FadingOut(_, to) => Some(to),
            _ => None,
        }
    }

    /// The settled scene, which alone receives window events and reports
    /// its own scene type; `None` while a fade is in progress.
    pub fn settled_scene(&self) -> (r: Option<&S>)
        ensures
            r is Some <==> self.phase() is Settled,
            r matches Some(s) ==> *s == self.phase()->Settled_0,
    {
        match &self.phase {
            TransitionPhase::Settled(scene) => Some(scene),
            _ => None,
        }
    }

    /// Mutable access to the settled scene, for window events; input is
    /// swallowed (`None`) while a fade is in progress.
    pub fn settled_scene_mut(&mut self) -> (r: Option<&mut S>)
        requires
            old(self).wf(),
        ensures
            r is Some <==> old(self).phase() is Settled,
            r matches Some(s) ==> *s == old(self).phase()->Settled_0
                && final(self).phase() == TransitionPhase::Settled(*final(s)),
            r is None ==> final(self).phase() == old(self).phase(),
            final(self).progress() == old(self).progress(),
            final(self).alpha() == old(self).alpha(),
            final(self).transitioning() == old(self).transitioning(),
            final(self).wf(),
    {
        match &mut self.phase {
            TransitionPhase::Settled(scene) => Some(scene),
            _ => None,
        }
    }

    /// Render step of a frame: the scene to paint, then whether the overlay
    /// is painted over it. Neither alpha nor progress moves, so a frame may
    /// be rendered any number of times.
    pub fn render(&mut self) -> (r: (&mut S, bool))
        requires
            old(self).wf(),
        ensures
            *r.0 == primary_of(old(self).phase()),
            r.1 == (old(self).alpha() != 0),
            final(self).phase() == with_primary(old(self).phase(), *final(r.0)),
            final(self).progress() == old(self).progress(),
            final(self).alpha() == old(self).alpha(),
            final(self).transitioning() == old(self).transitioning(),
            final(self).wf(),
    {
        let paint = self.render_transition();
        (self.active_scene_mut(), paint)
    }

    /// Asks for a fade from the settled scene to `game_scene`. Refused,
    /// with nothing changed, while a fade is in progress.
    pub fn transition_to(&mut self, game_scene: S) -> (r: Result<(), TransitionError<S>>)
        requires
            old(self).wf(),
        ensures
            final(self).wf(),
            r is Ok <==> old(self).phase() is Settled,
            r is Ok ==> {
                &&& final(self).phase() == TransitionPhase::FadingOut(
                    primary_of(old(self).phase()),
                    game_scene,
                )
                &&& final(self).progress() == 0
                &&& final(self).alpha() == old(self).alpha()
                &&& final(self).transitioning()
            },
            r is Err ==> *final(self) == *old(self) && r == Err::<(), TransitionError<S>>(
                TransitionError::InvalidStateTransition(game_scene),
            ),
            scenes_of(final(self).phase()) == if r is Ok {
                scenes_of(old(self).phase()).push(game_scene)
            } else {
                scenes_of(old(self).phase())
            },
    {
        if !self.is_settled() {
            return Err(TransitionError::InvalidStateTransition(game_scene));
        }
        let mut from = TransitionPhase::Empty;
        std::mem::swap(&mut self.phase, &mut from);
        match from {
            TransitionPhase::Settled(scene) => {
                self.phase = TransitionPhase::FadingOut(scene, game_scene);
            },
            _ => {
                return vstd::pervasive::unreached();
            },
        }
        self.progress = 0;
        self.active = true;
        proof {
            assert(scenes_of(self.phase) =~= scenes_of(old(self).phase).push(game_scene));
        }
        Ok(())
    }

    /// Records the overlay alpha for the current frame.
    pub fn set_transition_alpha(&mut self, alpha: u32)
        requires
            old(self).wf(),
            alpha <= FADE_FULL,
        ensures
            final(self).wf(),
            final(self).alpha() == alpha as nat,
            final(self).phase() == old(self).phase(),
            final(self).progress() == old(self).progress(),
            final(self).transitioning() == old(self).transitioning(),
    {
        self.current_alpha = alpha;
    }

    /// Whether the overlay has anything to paint: not at zero alpha.
    pub fn render_transition(&self) -> (paint: bool)
        ensures
            paint == (self.alpha() != 0),
    {
        self.current_alpha != 0
    }

    /// Advances the fade by one tick. The host delegates the scene's own
    /// update first, to the scene `active_scene_mut` gives. A settled
    /// controller does nothing and returns `None`; otherwise the tick
    /// records and returns the overlay alpha, says whether the scene that
    /// has just faded in must be started, and hands back the scene whose
    /// fade-out has just ended.
    pub fn update(&mut self) -> (r: Option<FadeTick<S>>)
        requires
            old(self).wf(),
        ensures
            final(self).wf(),
            final(self).phase() == next_phase(old(self).phase(), old(self).progress()),
            final(self).progress() == next_progress(old(self).phase(), old(self).progress()),
            final(self).transitioning() == !(final(self).phase() is Settled),
            old(self).phase() is Settled ==> r is None && *final(self) == *old(self),
            !(old(self).phase() is Settled) ==> (r matches Some(t) && {
                &&& t.alpha == tick_alpha(old(self).phase(), old(self).progress())
                &&& final(self).alpha() == t.alpha
                &&& t.start_scene == tick_starts(old(self).phase(), old(self).progress())
                &&& t.released == if tick_releases(old(self).phase(), old(self).progress()) {
                    Some(primary_of(old(self).phase()))
                } else {
                    None::<S>
                }
                &&& scenes_of(old(self).phase()) == released_seq(t.released) + scenes_of(
                    final(self).phase(),
                )
            }),
    {
        if self.is_settled() {
            return None;
        }
        let fading_out = self.is_fading_out();
        let mut alpha: u32 = if fading_out {
            self.progress
        } else {
            FADE_FULL - self.progress
        };
        let mut start_scene = false;
        let mut released: Option<S> = None;
        self.progress = self.progress + FADE_STEP;
        if self.progress >= FADE_FULL {
            self.progress = 0;
            let mut next = TransitionPhase::Empty;
            std::mem::swap(&mut self.phase, &mut next);
            match next {
                TransitionPhase::FadingIn(scene) => {
                    self.active = false;
                    self.phase = TransitionPhase::Settled(scene);
                    start_scene = true;
                    alpha = 0;
                },
                TransitionPhase::FadingOut(from, to) => {
                    self.phase = TransitionPhase::FadingIn(to);
                    released = Some(from);
                },
                _ => {
                    return vstd::pervasive::unreached();
                },
            }
        }
        self.set_transition_alpha(alpha);
        proof {
            assert(scenes_of(old(self).phase) =~= released_seq(released) + scenes_of(self.phase));
        }
        Some(FadeTick { alpha, start_scene, released })
    }
}

} // verus!
