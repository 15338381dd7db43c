//! View identities, auto-selection rules and the view state machine.
//!
//! The machine owns which view is active and decides transitions; it never
//! runs a view itself. Each call returns the lifecycle actions the caller
//! must perform, in order, so the enter/exit discipline is part of the
//! machine's contract rather than a convention.

use vstd::prelude::*;

verus! {

/// Identity of one of the six full-screen views.
#[derive(Clone, Copy, PartialEq, Eq, Structural, Debug)]
pub enum ViewId {
    NowPlaying,
    WallArt,
    Visualizer,
    Lyrics,
    Snake,
    Tetris,
}

/// Last-known state of both external services, as the state machine reads it.
#[derive(Clone, Copy, PartialEq, Eq, Structural, Debug)]
pub struct ServiceState {
    pub airplay_active: bool,
    pub spotify_playing: bool,
}

/// Predicate of one auto-selection rule.
#[derive(Clone, Copy, PartialEq, Eq, Structural, Debug)]
pub enum Condition {
    AirPlayActive,
    SpotifyPlaying,
}

/// One entry of the priority-ordered selection list: when `condition`
/// holds, `view` is the candidate. The first matching entry wins.
#[derive(Clone, Copy, PartialEq, Eq, Structural, Debug)]
pub struct SelectionRule {
    pub condition: Condition,
    pub view: ViewId,
}

/// Whether one rule's predicate holds of a service state.
pub open spec fn spec_condition_holds(c: Condition, s: ServiceState) -> bool {
    match c {
        Condition::AirPlayActive => s.airplay_active,
        Condition::SpotifyPlaying => s.spotify_playing,
    }
}

/// First-match-wins evaluation of the rule list; `default_view` when no
/// rule matches.
pub open spec fn spec_select(
    rules: Seq<SelectionRule>,
    s: ServiceState,
    default_view: ViewId,
) -> ViewId
    decreases rules.len(),
{
    if rules.len() == 0 {
        default_view
    } else if spec_condition_holds(rules[0].condition, s) {
        rules[0].view
    } else {
        spec_select(rules.drop_first(), s, default_view)
    }
}

/// Evaluates one rule's predicate.
pub fn condition_holds(c: Condition, s: &ServiceState) -> (r: bool)
    ensures
        r == spec_condition_holds(c, *s),
{
    match c {
        Condition::AirPlayActive => s.airplay_active,
        Condition::SpotifyPlaying => s.spotify_playing,
    }
}

/// Evaluates the priority-ordered rule list on a pair of service
/// snapshots: the first rule whose predicate holds selects the view, and
/// `default_view` is selected when none does.
pub fn select_view(rules: &Vec<SelectionRule>, s: &ServiceState, default_view: ViewId) -> (r:
    ViewId)
    ensures
        r == spec_select(rules@, *s, default_view),
{
    let mut i: usize = 0;
    proof {
        assert(rules@.skip(0) =~= rules@);
    }
    while i < rules.len()
        invariant
            i <= rules@.len(),
            spec_select(rules@, *s, default_view) == spec_select(
                rules@.skip(i as int),
                *s,
                default_view,
            ),
        decreases rules@.len() - i,
    {
        proof {
            assert(rules@.skip(i as int)[0] == rules@[i as int]);
            assert(rules@.skip(i as int).drop_first() =~= rules@.skip(i as int + 1));
        }
        if condition_holds(rules[i].condition, s) {
            return rules[i].view;
        }
        i = i + 1;
    }
    proof {
        assert(rules@.skip(i as int).len() == 0);
    }
    default_view
}

/// Auto-selection is a function of the snapshots alone: two evaluations of
/// the same rule list on identical service states, with the same default,
/// select the same view.
pub proof fn lemma_selection_deterministic(
    rules: Seq<SelectionRule>,
    s1: ServiceState,
    s2: ServiceState,
    default_view: ViewId,
)
    requires
        s1 == s2,
    ensures
        spec_select(rules, s1, default_view) == spec_select(rules, s2, default_view),
{
}

/// A lifecycle action the caller must perform on the named view.
#[derive(Clone, Copy, PartialEq, Eq, Structural, Debug)]
pub enum LifecycleAction {
    /// Call `on_exit` on the view.
    Exit(ViewId),
    /// Call `on_enter` on the view.
    Enter(ViewId),
}

/// The view state machine: exactly one view is active at any time after
/// the first transition, none before it.
pub struct ViewStateMachine {
    active: Option<ViewId>,
}

impl ViewStateMachine {
    /// The currently active view, `None` before the first transition.
    pub closed spec fn spec_active(&self) -> Option<ViewId> {
        self.active
    }

    /// A machine in the uninitialized pre-state: no view is active.
    pub fn new() -> (m: ViewStateMachine)
        ensures
            m.spec_active() is None,
    {
        ViewStateMachine { active: None }
    }

    /// The currently active view.
    pub fn active(&self) -> (r: Option<ViewId>)
        ensures
            r == self.spec_active(),
    {
        self.active
    }

    /// Transitions to `view`: the returned actions exit the currently
    /// active view (if any) and then enter the new one, exactly once each,
    /// in that order.
    pub fn enter(&mut self, view: ViewId) -> (actions: Vec<LifecycleAction>)
        ensures
            final(self).spec_active() == Some(view),
            match old(self).spec_active() {
                Some(prev) => actions@ == seq![
                    LifecycleAction::Exit(prev),
                    LifecycleAction::Enter(view),
                ],
                None => actions@ == seq![LifecycleAction::Enter(view)],
            },
    {
        let mut actions: Vec<LifecycleAction> = Vec::new();
        match self.active {
            Some(prev) => actions.push(LifecycleAction::Exit(prev)),
            None => (),
        }
        actions.push(LifecycleAction::Enter(view));
        self.active = Some(view);
        proof {
            match old(self).spec_active() {
                Some(prev) => {
                    assert(actions@ =~= seq![
                        LifecycleAction::Exit(prev),
                        LifecycleAction::Enter(view),
                    ]);
                },
                None => {
                    assert(actions@ =~= seq![LifecycleAction::Enter(view)]);
                },
            }
        }
        actions
    }

    /// One scheduler tick's selection step: evaluates the rules (or the
    /// explicit override, which short-circuits them) and transitions only
    /// when the selected view differs from the active one.
    pub fn tick_select(
        &mut self,
        rules: &Vec<SelectionRule>,
        s: &ServiceState,
        default_view: ViewId,
        manual_override: Option<ViewId>,
    ) -> (actions: Vec<LifecycleAction>)
        ensures
            ({
                let target = match manual_override {
                    Some(v) => v,
                    None => spec_select(rules@, *s, default_view),
                };
                &&& final(self).spec_active() == Some::<ViewId>(target)
                &&& (old(self).spec_active() == Some::<ViewId>(target) ==> actions@
                    == Seq::<LifecycleAction>::empty() && *final(self) == *old(self))
                &&& (old(self).spec_active() != Some::<ViewId>(target) ==> match old(
                    self,
                ).spec_active() {
                    Some(prev) => actions@ == seq![
                        LifecycleAction::Exit(prev),
                        LifecycleAction::Enter(target),
                    ],
                    None => actions@ == seq![LifecycleAction::Enter(target)],
                })
            }),
    {
        let target = match manual_override {
            Some(v) => v,
            None => select_view(rules, s, default_view),
        };
        let same = match self.active {
            Some(prev) => prev == target,
            None => false,
        };
        if same {
            let actions: Vec<LifecycleAction> = Vec::new();
            proof {
                assert(actions@ =~= Seq::<LifecycleAction>::empty());
            }
            actions
        } else {
            self.enter(target)
        }
    }

    /// Shutdown cleanup: exits the active view exactly once; a machine
    /// that never entered a view has nothing to exit.
    pub fn shutdown(&mut self) -> (actions: Vec<LifecycleAction>)
        ensures
            final(self).spec_active() is None,
            match old(self).spec_active() {
                Some(prev) => actions@ == seq![LifecycleAction::Exit(prev)],
                None => actions@ == Seq::<LifecycleAction>::empty(),
            },
    {
        let mut actions: Vec<LifecycleAction> = Vec::new();
        match self.active {
            Some(prev) => actions.push(LifecycleAction::Exit(prev)),
            None => (),
        }
        self.active = None;
        proof {
            match old(self).spec_active() {
                Some(prev) => {
                    assert(actions@ =~= seq![LifecycleAction::Exit(prev)]);
                },
                None => {
                    assert(actions@ =~= Seq::<LifecycleAction>::empty());
                },
            }
        }
        actions
    }
}

} // verus!
