use vstd::prelude::*;
use rand::Rng;
use crate::fighter::{instance_of, instantiate, Allegiance, FighterInstance};
use crate::presentation::{fighter_elements, render_fighter, views_of, ElementKind, Placement, VisualElement};
use crate::registry::{FighterRegistry, LookupError, ROSTER_SIZE};
use crate::timer::{next_elapsed, RefreshTimer, TICK_STEP_MS};

verus! {

/// Species shown as the ally before the first refresh.
pub const INITIAL_ALLY_ID: u32 = 143;

/// Species shown as the enemy before the first refresh.
pub const INITIAL_ENEMY_ID: u32 = 1;

/// Relies on rand's `thread_rng` and `Rng::gen_range`: a value within `lo..=hi`.
/// `gen_range` panics on an empty range, which `requires` rules out;
/// `thread_rng` panics only where the system offers no entropy to seed it.
#[verifier::external_body]
fn random_in(lo: u32, hi: u32) -> (r: u32)
    requires
        lo <= hi,
    ensures
        lo <= r <= hi,
{
    rand::thread_rng().gen_range(lo..=hi)
}

/// Draws an ally id and an enemy id, each uniformly and independently among
/// the species of the roster; the two may coincide.
pub fn draw_matchup_ids() -> (r: (u32, u32))
    ensures
        1 <= r.0 <= ROSTER_SIZE,
        1 <= r.1 <= ROSTER_SIZE,
{
    let ally_id = random_in(1, ROSTER_SIZE);
    let enemy_id = random_in(1, ROSTER_SIZE);
    (ally_id, enemy_id)
}

/// What looking up an ally id and an enemy id yields: the two fighters, or the
/// first id that the registry lacks (the ally's is looked up first).
pub open spec fn matchup_of(reg: FighterRegistry, ally_id: u32, enemy_id: u32) -> Result<
    (FighterInstance, FighterInstance),
    LookupError,
> {
    if !reg.has_id(ally_id as int) {
        Err(LookupError::IdOutOfRange { id: ally_id })
    } else if !reg.has_id(enemy_id as int) {
        Err(LookupError::IdOutOfRange { id: enemy_id })
    } else {
        Ok(
            (
                instance_of(reg.record_of(ally_id as int), Allegiance::Ally),
                instance_of(reg.record_of(enemy_id as int), Allegiance::Enemy),
            ),
        )
    }
}

/// The display of a matchup: the ally's elements, then the enemy's.
pub open spec fn matchup_elements(m: (FighterInstance, FighterInstance)) -> Seq<
    (ElementKind, Allegiance, Seq<char>, Placement),
> {
    fighter_elements(m.0) + fighter_elements(m.1)
}

/// The matchup on show and the elements on screen, which are exactly that
/// matchup's display.
struct Screen {
    matchup: Option<(FighterInstance, FighterInstance)>,
    visible: Vec<VisualElement>,
}

impl Screen {
    #[verifier::type_invariant]
    spec fn inv(&self) -> bool {
        match self.matchup {
            None => self.visible@.len() == 0,
            Some(m) => views_of(self.visible@) == matchup_elements(m),
        }
    }
}

/// The arena: the registry it draws from, its refresh timer, and its screen.
pub struct Arena {
    registry: FighterRegistry,
    timer: RefreshTimer,
    screen: Screen,
}

/// The state of an arena after a refresh with the given ids, where `pre` is
/// the state before, apart from the timer.
pub open spec fn refreshed(
    pre: Arena,
    post: Arena,
    ally_id: u32,
    enemy_id: u32,
    r: Result<(), LookupError>,
) -> bool {
    &&& post.spec_registry() == pre.spec_registry()
    &&& match matchup_of(pre.spec_registry(), ally_id, enemy_id) {
        Ok(m) => {
            &&& r is Ok
            &&& post.spec_matchup() == Some(m)
            &&& post.spec_visible() == matchup_elements(m)
        },
        Err(e) => {
            &&& r == Err::<(), LookupError>(e)
            &&& post.spec_matchup() == pre.spec_matchup()
            &&& post.spec_visible() == pre.spec_visible()
        },
    }
}

/// A successful refresh leaves on screen exactly the new pair's display, so
/// nothing of what was shown before survives it: two arenas refreshed with the
/// same ids from the same registry show the same elements, whatever they
/// showed before.
pub proof fn lemma_refresh_forgets_old_screen(
    pre1: Arena,
    post1: Arena,
    pre2: Arena,
    post2: Arena,
    ally_id: u32,
    enemy_id: u32,
)
    requires
        pre1.spec_registry() == pre2.spec_registry(),
        refreshed(pre1, post1, ally_id, enemy_id, Ok(())),
        refreshed(pre2, post2, ally_id, enemy_id, Ok(())),
    ensures
        post1.spec_visible() == post2.spec_visible(),
        post1.spec_matchup() == post2.spec_matchup(),
        post1.spec_visible() == matchup_elements(post1.spec_matchup().unwrap()),
{
}

/// The elapsed time of a timer after one scheduling step.
pub open spec fn stepped_elapsed(t: RefreshTimer) -> int {
    next_elapsed(t.spec_elapsed() as int, TICK_STEP_MS as int, t.spec_threshold() as int)
}

/// The outcome of a refresh within a step that fired.
pub open spec fn refresh_part(r: Result<bool, LookupError>) -> Result<(), LookupError> {
    match r {
        Ok(_) => Ok(()),
        Err(e) => Err(e),
    }
}

impl Arena {
    pub closed spec fn spec_registry(&self) -> FighterRegistry {
        self.registry
    }

    pub closed spec fn spec_timer(&self) -> RefreshTimer {
        self.timer
    }

    /// The ally and the enemy on show, if any.
    pub closed spec fn spec_matchup(&self) -> Option<(FighterInstance, FighterInstance)> {
        self.screen.matchup
    }

    /// The elements on screen.
    pub closed spec fn spec_visible(&self) -> Seq<(ElementKind, Allegiance, Seq<char>, Placement)> {
        views_of(self.screen.visible@)
    }

    /// An arena with nothing on show.
    pub fn new(registry: FighterRegistry, timer: RefreshTimer) -> (r: Self)
        ensures
            r.spec_registry() == registry,
            r.spec_timer() == timer,
            r.spec_matchup() is None,
            r.spec_visible().len() == 0,
    {
        let visible: Vec<VisualElement> = Vec::new();
        assert(views_of(visible@) =~= Seq::empty());
        Arena { registry, timer, screen: Screen { matchup: None, visible } }
    }

    pub fn registry(&self) -> (r: &FighterRegistry)
        ensures
            *r == self.spec_registry(),
    {
        &self.registry
    }

    pub fn timer(&self) -> (r: &RefreshTimer)
        ensures
            *r == self.spec_timer(),
    {
        &self.timer
    }

    /// The ally on show.
    pub fn ally(&self) -> (r: Option<&FighterInstance>)
        ensures
            match self.spec_matchup() {
                None => r is None,
                Some(m) => r == Some(&m.0),
            },
    {
        match &self.screen.matchup {
            Some(m) => Some(&m.0),
            None => None,
        }
    }

    /// The enemy on show.
    pub fn enemy(&self) -> (r: Option<&FighterInstance>)
        ensures
            match self.spec_matchup() {
                None => r is None,
                Some(m) => r == Some(&m.1),
            },
    {
        match &self.screen.matchup {
            Some(m) => Some(&m.1),
            None => None,
        }
    }

    /// The elements on screen: none without a matchup, and exactly the
    /// matchup's display with one.
    pub fn visible(&self) -> (r: &Vec<VisualElement>)
        ensures
            views_of(r@) == self.spec_visible(),
            match self.spec_matchup() {
                None => r@.len() == 0,
                Some(m) => views_of(r@) == matchup_elements(m),
            },
    {
        proof {
            use_type_invariant(&self.screen);
        }
        &self.screen.visible
    }

    /// Removes the matchup and every element from the screen.
    pub fn clear(&mut self)
        ensures
            final(self).spec_registry() == old(self).spec_registry(),
            final(self).spec_timer() == old(self).spec_timer(),
            final(self).spec_matchup() is None,
            final(self).spec_visible().len() == 0,
    {
        let visible: Vec<VisualElement> = Vec::new();
        assert(views_of(visible@) =~= Seq::empty());
        self.screen = Screen { matchup: None, visible };
    }

    /// Replaces the matchup on show by the given species, the first as ally and
    /// the second as enemy. When both ids are known, the old elements are all
    /// removed and the screen then shows exactly the new pair; otherwise nothing
    /// changes and the first unknown id is reported.
    pub fn refresh_with(&mut self, ally_id: u32, enemy_id: u32) -> (r: Result<(), LookupError>)
        ensures
            final(self).spec_timer() == old(self).spec_timer(),
            refreshed(*old(self), *final(self), ally_id, enemy_id, r),
    {
        let ally_rec = match self.registry.lookup(ally_id) {
            Ok(rec) => rec,
            Err(e) => return Err(e),
        };
        let enemy_rec = match self.registry.lookup(enemy_id) {
            Ok(rec) => rec,
            Err(e) => return Err(e),
        };
        let ally = instantiate(ally_rec, Allegiance::Ally);
        let enemy = instantiate(enemy_rec, Allegiance::Enemy);
        self.clear();
        let mut elements = render_fighter(&ally);
        let mut enemy_elements = render_fighter(&enemy);
        elements.append(&mut enemy_elements);
        assert(views_of(elements@) =~= fighter_elements(ally) + fighter_elements(enemy));
        self.screen = Screen { matchup: Some((ally, enemy)), visible: elements };
        Ok(())
    }

    /// One scheduling step: advances the refresh timer by a fixed step. Where
    /// that reaches the threshold, the timer starts over and the arena is
    /// refreshed with two ids drawn from the roster; the result then says
    /// `Ok(true)`, or the first id that the registry lacks. Otherwise only the
    /// timer moves and the result is `Ok(false)`.
    pub fn tick(&mut self) -> (r: Result<bool, LookupError>)
        ensures
            final(self).spec_registry() == old(self).spec_registry(),
            final(self).spec_timer().spec_threshold() == old(self).spec_timer().spec_threshold(),
            stepped_elapsed(old(self).spec_timer()) < old(self).spec_timer().spec_threshold() ==> {
                &&& r == Ok::<bool, LookupError>(false)
                &&& final(self).spec_timer().spec_elapsed() == stepped_elapsed(old(self).spec_timer())
                &&& final(self).spec_matchup() == old(self).spec_matchup()
                &&& final(self).spec_visible() == old(self).spec_visible()
            },
            stepped_elapsed(old(self).spec_timer()) >= old(self).spec_timer().spec_threshold() ==> {
                &&& r != Ok::<bool, LookupError>(false)
                &&& final(self).spec_timer().spec_elapsed() == 0
                &&& exists|ally_id: u32, enemy_id: u32|
                    {
                        &&& 1 <= ally_id <= ROSTER_SIZE
                        &&& 1 <= enemy_id <= ROSTER_SIZE
                        &&& #[trigger] refreshed(*old(self), *final(self), ally_id, enemy_id, refresh_part(r))
                    }
            },
    {
        let ghost pre = *self;
        self.timer.tick(TICK_STEP_MS);
        if !self.timer.finished() {
            return Ok(false);
        }
        self.timer.reset();
        let (ally_id, enemy_id) = draw_matchup_ids();
        let r = match self.refresh_with(ally_id, enemy_id) {
            Ok(()) => Ok(true),
            Err(e) => Err(e),
        };
        assert(refreshed(pre, *self, ally_id, enemy_id, refresh_part(r)));
        r
    }

    /// Shows the fixed opening matchup.
    pub fn initialize(&mut self) -> (r: Result<(), LookupError>)
        ensures
            final(self).spec_timer() == old(self).spec_timer(),
            refreshed(*old(self), *final(self), INITIAL_ALLY_ID, INITIAL_ENEMY_ID, r),
    {
        self.refresh_with(INITIAL_ALLY_ID, INITIAL_ENEMY_ID)
    }
}

} // verus!
