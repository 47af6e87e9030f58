use scene_transition::transition::{
    FadeTick, SceneTransition, TransitionError, FADE_FULL, FADE_STEP, FADE_TICKS,
};

fn tick(c: &mut SceneTransition<&'static str>) -> FadeTick<&'static str> {
    c.update().expect("a fade is in progress")
}

fn settled_on(scene: &'static str) -> SceneTransition<&'static str> {
    let mut c = SceneTransition::new(scene);
    for _ in 0..FADE_TICKS {
        tick(&mut c);
    }
    c
}

#[test]
fn new_starts_fading_in_at_rest() {
    let mut c = SceneTransition::new("a");
    assert!(c.is_transitioning());
    assert!(!c.is_settled());
    assert_eq!(c.current_alpha(), 0);
    assert_eq!(c.current_progress(), 0);
    assert!(c.settled_scene().is_none());
    assert_eq!(*c.active_scene_mut(), "a");
}

#[test]
fn fade_in_alpha_falls_to_zero_and_starts_once() {
    let mut c = SceneTransition::new("a");
    let mut last = FADE_FULL + 1;
    let mut starts = 0;
    for k in 1..=FADE_TICKS {
        let t = tick(&mut c);
        assert!(t.alpha < last);
        assert!(t.released.is_none());
        assert_eq!(c.current_alpha(), t.alpha);
        last = t.alpha;
        if t.start_scene {
            starts += 1;
            assert_eq!(k, FADE_TICKS);
        }
        if k < FADE_TICKS {
            assert!(!c.is_settled());
            assert_eq!(c.current_progress(), k * FADE_STEP);
        }
    }
    assert_eq!(last, 0);
    assert_eq!(starts, 1);
    assert!(c.is_settled());
    assert!(!c.is_transitioning());
    assert_eq!(c.settled_scene(), Some(&"a"));
    assert!(c.update().is_none());
}

#[test]
fn fade_out_alpha_rises_and_delegates_to_outgoing() {
    let mut c = settled_on("a");
    assert!(c.transition_to("b").is_ok());
    assert!(c.is_transitioning());
    assert_eq!(c.current_progress(), 0);
    let mut alphas = Vec::new();
    for k in 1..=FADE_TICKS {
        assert_eq!(*c.active_scene_mut(), "a");
        let (painted, _) = c.render();
        assert_eq!(*painted, "a");
        let t = tick(&mut c);
        assert!(!t.start_scene);
        alphas.push(t.alpha);
        if k < FADE_TICKS {
            assert!(t.released.is_none());
            assert_eq!(c.incoming_scene_mut().map(|s| *s), Some("b"));
        } else {
            assert_eq!(t.released, Some("a"));
        }
    }
    assert_eq!(alphas[0], 0);
    assert_eq!(alphas[alphas.len() - 1], 99);
    for w in alphas.windows(2) {
        assert!(w[0] < w[1]);
    }
    assert!(c.is_transitioning());
    assert!(!c.is_fading_out());
    assert_eq!(*c.active_scene_mut(), "b");
    assert_eq!(c.current_progress(), 0);
}

#[test]
fn render_repeated_changes_nothing() {
    let mut c = SceneTransition::new("a");
    tick(&mut c);
    tick(&mut c);
    let alpha = c.current_alpha();
    let progress = c.current_progress();
    for _ in 0..5 {
        let (scene, paint) = c.render();
        assert_eq!(*scene, "a");
        assert!(paint);
    }
    assert_eq!(c.current_alpha(), alpha);
    assert_eq!(c.current_progress(), progress);
    assert_eq!(tick(&mut c).alpha, FADE_FULL - 2 * FADE_STEP);
}

#[test]
fn overlay_skipped_at_zero_alpha() {
    let mut c = SceneTransition::new("a");
    assert!(!c.render_transition());
    assert!(!c.render().1);
    let c = &mut settled_on("a");
    assert_eq!(c.current_alpha(), 0);
    assert!(!c.render_transition());
    c.set_transition_alpha(1);
    assert!(c.render_transition());
    c.set_transition_alpha(0);
    assert!(!c.render_transition());
}

#[test]
fn scene_count_per_phase() {
    let mut c = SceneTransition::new("a");
    assert!(c.incoming_scene_mut().is_none());
    assert!(c.settled_scene_mut().is_none());
    let mut c = settled_on("a");
    assert!(c.incoming_scene_mut().is_none());
    assert_eq!(c.settled_scene_mut().map(|s| *s), Some("a"));
    assert!(c.transition_to("b").is_ok());
    assert_eq!(*c.active_scene_mut(), "a");
    assert_eq!(c.incoming_scene_mut().map(|s| *s), Some("b"));
    assert!(c.settled_scene_mut().is_none());
}

#[test]
fn scenario_cross_fade_a_to_b() {
    let mut c = SceneTransition::new("a");
    let t = tick(&mut c);
    assert_eq!(t.alpha, 100);
    assert_eq!(c.current_progress(), 3);
    assert!(!c.is_settled());
    assert_eq!(*c.active_scene_mut(), "a");
    let mut starts = 0;
    for _ in 0..33 {
        if tick(&mut c).start_scene {
            starts += 1;
        }
    }
    assert_eq!(starts, 1);
    assert_eq!(c.settled_scene(), Some(&"a"));
    assert_eq!(c.current_alpha(), 0);

    assert!(c.transition_to("b").is_ok());
    let t = tick(&mut c);
    assert_eq!(t.alpha, 0);
    assert!(c.is_fading_out());
    assert_eq!(c.current_progress(), 3);
    assert_eq!(*c.active_scene_mut(), "a");
    assert_eq!(c.incoming_scene_mut().map(|s| *s), Some("b"));
    let mut released = Vec::new();
    for _ in 0..33 {
        if let Some(s) = tick(&mut c).released {
            released.push(s);
        }
    }
    assert_eq!(released, vec!["a"]);
    assert!(!c.is_fading_out());
    assert!(!c.is_settled());
    assert_eq!(*c.active_scene_mut(), "b");
    assert_eq!(tick(&mut c).alpha, 100);
    assert_eq!(tick(&mut c).alpha, 97);
}

#[test]
fn transition_during_fade_is_refused() {
    let mut c = settled_on("a");
    assert!(c.transition_to("b").is_ok());
    tick(&mut c);
    let progress = c.current_progress();
    let alpha = c.current_alpha();
    match c.transition_to("c") {
        Err(TransitionError::InvalidStateTransition(s)) => assert_eq!(s, "c"),
        Ok(()) => panic!("a transition was accepted during a fade"),
    }
    assert!(c.is_fading_out());
    assert_eq!(*c.active_scene_mut(), "a");
    assert_eq!(c.incoming_scene_mut().map(|s| *s), Some("b"));
    assert_eq!(c.current_progress(), progress);
    assert_eq!(c.current_alpha(), alpha);
}

#[test]
fn transition_during_fade_in_is_refused() {
    let mut c = SceneTransition::new("a");
    assert!(matches!(
        c.transition_to("b"),
        Err(TransitionError::InvalidStateTransition("b"))
    ));
    assert!(!c.is_settled());
    assert_eq!(*c.active_scene_mut(), "a");
}
