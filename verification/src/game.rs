//! The landing episode: which engine an action index selects, how a step is
//! rewarded, and when the episode ends.
//!
//! The rigid body itself is integrated by the caller. After each integration
//! the caller measures the body against the ground and the safety bounds and
//! hands the measurements over as a [`Telemetry`]; everything that is decided
//! from them is decided here.

use vstd::prelude::*;

verus! {

use crate::engine::Engine;

/// Number of steps after which the step budget counts as exceeded.
pub const MAX_STEPS: u16 = 100;

/// Number of distinct action indices that [`Game::step`] accepts.
pub const ACTION_SPACE: usize = 4;

/// Length of the observation vector the body is reduced to: its position
/// along x and y, its velocity along x and y, and its angular velocity, in
/// this order.
pub const OBSERVATION_SPACE: usize = 5;

/// Reward added when both legs touch down within the safety bounds.
pub const LANDING_BONUS: i16 = 50;

/// Reward taken away on every step made while the step budget is exceeded.
pub const BUDGET_PENALTY: i16 = 5;

/// What the lander does during one step.
#[derive(Clone, Copy, Debug, PartialEq, Eq, Structural)]
pub enum Action {
    /// Fire one engine for the length of the step.
    Fire(Engine),
    /// Fire nothing.
    Coast,
}

/// Why a step was refused.
#[derive(Clone, Copy, Debug, PartialEq, Eq, Structural)]
pub enum GameError {
    /// The action index is not below [`ACTION_SPACE`].
    InvalidAction,
}

impl Action {
    /// The action an index stands for, if any: 0 fires the right engine,
    /// 1 the left, 2 the bottom one, and 3 coasts.
    pub open spec fn decode(choice: int) -> Option<Action> {
        if choice == 0 {
            Some(Action::Fire(Engine::Right))
        } else if choice == 1 {
            Some(Action::Fire(Engine::Left))
        } else if choice == 2 {
            Some(Action::Fire(Engine::Down))
        } else if choice == 3 {
            Some(Action::Coast)
        } else {
            None
        }
    }

    /// Decodes an action index, refusing every index outside the action
    /// space.
    pub fn from_index(choice: usize) -> (r: Result<Action, GameError>)
        ensures
            r == match Action::decode(choice as int) {
                Some(action) => Ok::<Action, GameError>(action),
                None => Err::<Action, GameError>(GameError::InvalidAction),
            },
            r is Ok <==> choice < ACTION_SPACE,
    {
        if choice == 0 {
            Ok(Action::Fire(Engine::Right))
        } else if choice == 1 {
            Ok(Action::Fire(Engine::Left))
        } else if choice == 2 {
            Ok(Action::Fire(Engine::Down))
        } else if choice == 3 {
            Ok(Action::Coast)
        } else {
            Err(GameError::InvalidAction)
        }
    }
}

/// The action index a set of held keys asks for. The left key wins over the
/// right key, and either wins over the up key.
pub open spec fn key_choice(left: bool, right: bool, up: bool) -> int {
    if left {
        1
    } else if right {
        0
    } else if up {
        2
    } else {
        3
    }
}

/// Maps the keys a player holds to an action index: the left key fires the
/// left engine, the right key the right engine, the up key the bottom
/// engine, and no key coasts. The index is always one that
/// [`Action::from_index`] accepts.
pub fn choose_action(left: bool, right: bool, up: bool) -> (choice: usize)
    ensures
        choice == key_choice(left, right, up),
        Action::decode(choice as int) is Some,
{
    if left {
        1
    } else if right {
        0
    } else if up {
        2
    } else {
        3
    }
}

/// What the caller measured around one integration of the body.
#[derive(Clone, Copy, Debug, PartialEq, Eq, Structural)]
pub struct Telemetry {
    /// Whole part of a third of the margin between twice the speed limit and
    /// the vertical speed, taken after firing and before integrating.
    pub speed_margin: i16,
    /// Whether integrating brought the body closer to the centre line.
    pub moved_closer: bool,
    /// Whether the tip of the left leg is below the ground threshold.
    pub left_touching: bool,
    /// Whether the tip of the right leg is below the ground threshold.
    pub right_touching: bool,
    /// Whether the angular velocity exceeds its safety bound.
    pub over_spin: bool,
    /// Whether the speed exceeds its safety bound.
    pub over_speed: bool,
    /// Whole part of twice the excess of the vertical speed over the speed
    /// limit, taken after integrating; negative while the vertical speed is
    /// under the limit.
    pub impact_excess: i16,
}

/// A leg is on the ground while a safety bound is exceeded.
pub open spec fn crashed(t: Telemetry) -> bool {
    (t.left_touching || t.right_touching) && (t.over_spin || t.over_speed)
}

/// Both legs are on the ground and no safety bound is exceeded.
pub open spec fn landed(t: Telemetry) -> bool {
    t.left_touching && t.right_touching && !t.over_spin && !t.over_speed
}

/// The step budget is exceeded once more than [`MAX_STEPS`] steps were made.
pub open spec fn over_budget(steps: nat) -> bool {
    steps > MAX_STEPS
}

/// A step ends the episode when the budget is exceeded, on a crash and on a
/// landing.
pub open spec fn episode_ends(t: Telemetry, steps: nat) -> bool {
    over_budget(steps) || crashed(t) || landed(t)
}

/// What a crash costs: the impact excess, and nothing where the vertical
/// speed was under the limit. A crash never earns anything.
pub open spec fn crash_penalty(t: Telemetry) -> int {
    if t.impact_excess > 0 {
        t.impact_excess as int
    } else {
        0
    }
}

/// The reward of a step before it is brought into the range of `i16`.
///
/// Every step costs one point, which coasting earns back. To that come the
/// speed margin, one point for moving towards the centre line, the budget
/// penalty, and at touchdown either the landing bonus or, on a crash, the
/// crash penalty.
pub open spec fn raw_reward(action: Action, t: Telemetry, steps: nat) -> int {
    -1 + (if action == Action::Coast {
        1int
    } else {
        0int
    }) + t.speed_margin + (if t.moved_closer {
        1int
    } else {
        0int
    }) - (if over_budget(steps) {
        BUDGET_PENALTY as int
    } else {
        0int
    }) + (if crashed(t) {
        -crash_penalty(t)
    } else if landed(t) {
        LANDING_BONUS as int
    } else {
        0int
    })
}

/// The nearest value to `r` that an `i16` holds.
pub open spec fn saturate(r: int) -> int {
    if r < i16::MIN {
        i16::MIN as int
    } else if r > i16::MAX {
        i16::MAX as int
    } else {
        r
    }
}

/// Whether the measurements describe a crash.
pub fn is_crash(t: &Telemetry) -> (r: bool)
    ensures
        r == crashed(*t),
{
    (t.left_touching || t.right_touching) && (t.over_spin || t.over_speed)
}

/// Whether the measurements describe a landing.
pub fn is_landing(t: &Telemetry) -> (r: bool)
    ensures
        r == landed(*t),
{
    t.left_touching && t.right_touching && !t.over_spin && !t.over_speed
}

/// Rewards one step and says whether it ends the episode. `steps` is the
/// number of steps made before this one.
pub fn score_step(action: Action, t: &Telemetry, steps: u16) -> (r: (i16, bool))
    ensures
        r.0 == saturate(raw_reward(action, *t, steps as nat)),
        r.1 == episode_ends(*t, steps as nat),
{
    let mut score: i32 = -1;
    let mut finished = false;
    if action == Action::Coast {
        score = score + 1;
    }
    score = score + t.speed_margin as i32;
    if t.moved_closer {
        score = score + 1;
    }
    if steps > MAX_STEPS {
        score = score - BUDGET_PENALTY as i32;
        finished = true;
    }
    if is_crash(t) {
        finished = true;
        if t.impact_excess > 0 {
            score = score - t.impact_excess as i32;
        }
    } else if is_landing(t) {
        finished = true;
        score = score + LANDING_BONUS as i32;
    }
    let reward: i16 = if score < i16::MIN as i32 {
        i16::MIN
    } else if score > i16::MAX as i32 {
        i16::MAX
    } else {
        score as i16
    };
    (reward, finished)
}

/// An episode of the landing game around a body of type `B`.
///
/// The game owns the body but never looks inside it: the caller integrates
/// it through [`Game::state_mut`] and reports the outcome to [`Game::step`].
pub struct Game<B> {
    state: B,
    action_space: usize,
    observation_space: usize,
    steps: u16,
    finished: bool,
}

/// What a [`Game`] stands for.
pub struct GameView<B> {
    /// The body the episode is played with.
    pub body: B,
    /// Number of steps made since the episode began, as far as it is
    /// counted.
    pub steps: nat,
    /// Whether a step since the episode began has ended it.
    pub finished: bool,
    /// Number of action indices the game accepts.
    pub action_space: nat,
    /// Length of the observation vector.
    pub observation_space: nat,
}

/// The count after one more step. It rises by one with every step and stops
/// at the greatest count that is kept.
pub open spec fn counted(steps: nat) -> nat {
    if steps < u16::MAX {
        steps + 1
    } else {
        steps
    }
}

impl<B> GameView<B> {
    /// Whether a step with the action index `choice` is accepted: the index
    /// is one of the action space. That the episode has ended is no reason
    /// to refuse a step.
    pub open spec fn accepts(self, choice: int) -> bool {
        Action::decode(choice) is Some
    }

    /// What a step with the action index `choice` answers when `t` was
    /// measured: the reward and whether the step ends the episode, or that
    /// the index is none of the action space.
    pub open spec fn outcome(self, choice: int, t: Telemetry) -> Result<(i16, bool), GameError> {
        match Action::decode(choice) {
            None => Err(GameError::InvalidAction),
            Some(action) => Ok(
                (
                    saturate(raw_reward(action, t, self.steps)) as i16,
                    episode_ends(t, self.steps),
                ),
            ),
        }
    }

    /// The game after a step with the action index `choice` on which `t` was
    /// measured: an accepted step is counted, and an episode that it ends
    /// stays ended; a refused one changes nothing.
    pub open spec fn stepped(self, choice: int, t: Telemetry) -> Self {
        if self.accepts(choice) {
            GameView {
                steps: counted(self.steps),
                finished: self.finished || episode_ends(t, self.steps),
                ..self
            }
        } else {
            self
        }
    }

    /// The game in which a fresh episode begins with `body`.
    pub open spec fn after_reset(self, body: B) -> Self {
        GameView { body, steps: 0, finished: false, ..self }
    }

    /// The game around another body, with the episode as it is.
    pub open spec fn with_body(self, body: B) -> Self {
        GameView { body, ..self }
    }

    /// The game after a run of steps. Each step is given by the body that
    /// firing and integrating left behind, the action index, and what was
    /// measured.
    pub open spec fn played(self, trace: Seq<(B, int, Telemetry)>) -> Self
        decreases trace.len(),
    {
        if trace.len() == 0 {
            self
        } else {
            let last = trace.last();
            self.played(trace.drop_last()).with_body(last.0).stepped(last.1, last.2)
        }
    }

    /// What the steps of a run answer, in their order.
    pub open spec fn outcomes(self, trace: Seq<(B, int, Telemetry)>) -> Seq<
        Result<(i16, bool), GameError>,
    >
        decreases trace.len(),
    {
        if trace.len() == 0 {
            Seq::empty()
        } else {
            let last = trace.last();
            self.outcomes(trace.drop_last()).push(
                self.played(trace.drop_last()).outcome(last.1, last.2),
            )
        }
    }
}

impl<B> View for Game<B> {
    type V = GameView<B>;

    closed spec fn view(&self) -> GameView<B> {
        GameView {
            body: self.state,
            steps: self.steps as nat,
            finished: self.finished,
            action_space: self.action_space as nat,
            observation_space: self.observation_space as nat,
        }
    }
}

impl<B> Game<B> {
    /// A game at the start of its first episode.
    pub fn new(body: B) -> (game: Self)
        ensures
            game@ == (GameView {
                body,
                steps: 0,
                finished: false,
                action_space: ACTION_SPACE as nat,
                observation_space: OBSERVATION_SPACE as nat,
            }),
    {
        Game {
            state: body,
            action_space: ACTION_SPACE,
            observation_space: OBSERVATION_SPACE,
            steps: 0,
            finished: false,
        }
    }

    /// Accounts for one step of the episode.
    ///
    /// The caller has applied the action `choice` to the body, integrated it
    /// and measured `telemetry`. An index outside the action space is
    /// refused, and a refused step changes nothing. Every other step is
    /// rewarded as [`raw_reward`] says, brought into the range of `i16`, and
    /// counted, whether the episode has ended before or not.
    pub fn step(&mut self, choice: usize, telemetry: &Telemetry) -> (r: Result<
        (i16, bool),
        GameError,
    >)
        ensures
            r == old(self)@.outcome(choice as int, *telemetry),
            r is Ok <==> choice < ACTION_SPACE,
            final(self)@ == old(self)@.stepped(choice as int, *telemetry),
            final(self)@.steps <= u16::MAX,
    {
        let action = match Action::from_index(choice) {
            Ok(action) => action,
            Err(e) => {
                return Err(e);
            },
        };
        let (reward, done) = score_step(action, telemetry, self.steps);
        if done {
            self.finished = true;
        }
        if self.steps < u16::MAX {
            self.steps = self.steps + 1;
        }
        Ok((reward, done))
    }

    /// Begins a fresh episode with `body`, from whatever state the game is
    /// in. The sizes of the action and observation spaces stay.
    pub fn reset(&mut self, body: B)
        ensures
            final(self)@ == old(self)@.after_reset(body),
    {
        self.steps = 0;
        self.finished = false;
        self.state = body;
    }

    /// The body, to observe or draw it.
    pub fn state(&self) -> (body: &B)
        ensures
            *body == self@.body,
    {
        &self.state
    }

    /// The body, to fire its engines and integrate it. Whatever the caller
    /// does to the body, the episode stays as it is.
    pub fn state_mut(&mut self) -> (body: &mut B)
        ensures
            *body == old(self)@.body,
            final(self)@ == old(self)@.with_body(*final(body)),
    {
        &mut self.state
    }

    /// Number of steps made since the episode began.
    pub fn steps(&self) -> (n: u16)
        ensures
            n == self@.steps,
    {
        self.steps
    }

    /// Whether a step since the episode began has ended it.
    pub fn finished(&self) -> (over: bool)
        ensures
            over == self@.finished,
    {
        self.finished
    }

    /// Number of action indices the game accepts.
    pub fn action_space(&self) -> (n: usize)
        ensures
            n == self@.action_space,
    {
        self.action_space
    }

    /// Length of the observation vector.
    pub fn observation_space(&self) -> (n: usize)
        ensures
            n == self@.observation_space,
    {
        self.observation_space
    }
}

/// However an episode went, resetting the game with the body it began with
/// gives the game it began as: a reset forgets every step and every change
/// to the body.
pub proof fn lemma_reset_restores_start<B>(
    game: GameView<B>,
    start: B,
    trace: Seq<(B, int, Telemetry)>,
)
    ensures
        game.after_reset(start).played(trace).after_reset(start) == game.after_reset(start),
{
    lemma_played_keeps_spaces(game.after_reset(start), trace);
}

/// Playing changes neither the size of the action space nor that of the
/// observation space, counts no more steps than were made, and lets no
/// ended episode run again.
pub proof fn lemma_played_keeps_spaces<B>(game: GameView<B>, trace: Seq<(B, int, Telemetry)>)
    ensures
        game.played(trace).action_space == game.action_space,
        game.played(trace).observation_space == game.observation_space,
        game.steps <= game.played(trace).steps <= game.steps + trace.len(),
        game.finished ==> game.played(trace).finished,
    decreases trace.len(),
{
    if trace.len() > 0 {
        lemma_played_keeps_spaces(game, trace.drop_last());
    }
}

/// Two runs that begin at the same point of an episode and make the same
/// steps answer the same, step for step, and end at the same point. What the
/// games were played with before does not matter.
pub proof fn lemma_equal_runs_agree<B>(
    a: GameView<B>,
    b: GameView<B>,
    trace: Seq<(B, int, Telemetry)>,
)
    requires
        a.steps == b.steps,
        a.finished == b.finished,
    ensures
        a.outcomes(trace) == b.outcomes(trace),
        a.played(trace).steps == b.played(trace).steps,
        a.played(trace).finished == b.played(trace).finished,
    decreases trace.len(),
{
    if trace.len() > 0 {
        lemma_equal_runs_agree(a, b, trace.drop_last());
    }
}

/// An episode that is not reset ends: a run that has counted more than one
/// step beyond the budget has ended.
pub proof fn lemma_episode_ends<B>(game: GameView<B>, start: B, trace: Seq<(B, int, Telemetry)>)
    ensures
        game.after_reset(start).played(trace).steps >= MAX_STEPS + 2 ==> game.after_reset(
            start,
        ).played(trace).finished,
    decreases trace.len(),
{
    if trace.len() > 0 {
        lemma_episode_ends(game, start, trace.drop_last());
    }
}

/// Beyond the budget every accepted step ends the episode and pays the
/// budget penalty: it earns that much less than the same step within the
/// budget, before the reward is brought into the range of `i16`.
pub proof fn lemma_budget_penalty(action: Action, t: Telemetry, within: nat, beyond: nat)
    requires
        within <= MAX_STEPS < beyond,
    ensures
        episode_ends(t, beyond),
        raw_reward(action, t, beyond) == raw_reward(action, t, within) - BUDGET_PENALTY,
{
}

/// A landing earns the landing bonus on top of what the same step earns in
/// the air, and a crash never earns more than the same step in the air.
pub proof fn lemma_touchdown(action: Action, ground: Telemetry, air: Telemetry, steps: nat)
    requires
        air == (Telemetry { left_touching: false, right_touching: false, ..ground }),
    ensures
        landed(ground) ==> raw_reward(action, ground, steps) == raw_reward(action, air, steps)
            + LANDING_BONUS,
        crashed(ground) ==> raw_reward(action, ground, steps) <= raw_reward(action, air, steps),
        crashed(ground) || landed(ground) ==> episode_ends(ground, steps),
        !over_budget(steps) ==> !episode_ends(air, steps),
{
}

} // verus!
