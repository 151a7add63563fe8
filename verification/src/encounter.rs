//! The overworld trigger that starts a battle: the player's box against
//! the encounter zones, and the time spent inside one.
//!
//! Positions are centres of square boxes in whole world units; durations
//! are whole nanoseconds.

use vstd::prelude::*;
use crate::player::Player;
use crate::state::GameState;

verus! {

/// Time the player has to stay in an encounter zone for a battle to
/// start: 2 s.
pub const ENCOUNTER_DWELL_NANOS: u64 = 2_000_000_000;

/// Side of a tile in world units.
pub const TILE_UNITS: u32 = 1000;

/// What the player's box is narrower than a tile, in world units.
pub const PLAYER_INSET_UNITS: u32 = 100;

/// A point of the world.
#[derive(Clone, Copy, Debug, PartialEq, Eq, Structural)]
pub struct Position {
    pub x: i64,
    pub y: i64,
}

/// The sizes of the boxes that are tested against each other.
#[derive(Clone, Copy, Debug, PartialEq, Eq, Structural)]
pub struct TileGrid {
    /// Side of a tile's box.
    pub tile_size: u32,
    /// What the player's box is narrower than a tile's, so that brushing
    /// an edge does not count.
    pub inset: u32,
}

/// Time the player has spent in an encounter zone without a break.
#[derive(Clone, Copy, Debug, PartialEq, Eq, Structural)]
pub struct EncounterTracker {
    /// Time spent so far.
    pub dwell: u64,
    /// Time at which a battle starts.
    pub threshold: u64,
}

/// Whether two intervals, given by centre and length, share more than a
/// boundary point.
pub open spec fn spans_overlap(a: int, a_size: int, b: int, b_size: int) -> bool {
    2 * a - a_size < 2 * b + b_size && 2 * a + a_size > 2 * b - b_size
}

/// Whether two axis-aligned squares, given by centre and side, share more
/// than boundary points.
pub open spec fn boxes_overlap(a: Position, a_size: int, b: Position, b_size: int) -> bool {
    spans_overlap(a.x as int, a_size, b.x as int, b_size) && spans_overlap(
        a.y as int,
        a_size,
        b.y as int,
        b_size,
    )
}

impl TileGrid {
    /// The inset leaves the player a box.
    pub open spec fn wf(self) -> bool {
        self.inset <= self.tile_size
    }

    /// Side of the player's box.
    pub open spec fn player_size(self) -> int {
        self.tile_size - self.inset
    }

    /// Whether the player at `player` touches the tile at `tile`.
    pub open spec fn touches(self, player: Position, tile: Position) -> bool {
        boxes_overlap(player, self.player_size(), tile, self.tile_size as int)
    }

    /// Whether the player at `player` touches one of `tiles`.
    pub open spec fn touches_any(self, player: Position, tiles: Seq<Position>) -> bool {
        exists|i: int| 0 <= i < tiles.len() && self.touches(player, #[trigger] tiles[i])
    }

    /// The grid the game uses: tiles of 1000 units, the player's box a
    /// tenth narrower.
    pub fn standard() -> (grid: TileGrid)
        ensures
            grid == (TileGrid { tile_size: TILE_UNITS, inset: PLAYER_INSET_UNITS }),
            grid.wf(),
    {
        TileGrid { tile_size: TILE_UNITS, inset: PLAYER_INSET_UNITS }
    }
}

/// Whether two axis-aligned squares overlap.
pub fn collide(a_pos: Position, a_size: u32, b_pos: Position, b_size: u32) -> (hit: bool)
    ensures
        hit == boxes_overlap(a_pos, a_size as int, b_pos, b_size as int),
{
    let a_min_x: i128 = 2 * (a_pos.x as i128) - a_size as i128;
    let a_max_x: i128 = 2 * (a_pos.x as i128) + a_size as i128;
    let b_min_x: i128 = 2 * (b_pos.x as i128) - b_size as i128;
    let b_max_x: i128 = 2 * (b_pos.x as i128) + b_size as i128;
    let a_min_y: i128 = 2 * (a_pos.y as i128) - a_size as i128;
    let a_max_y: i128 = 2 * (a_pos.y as i128) + a_size as i128;
    let b_min_y: i128 = 2 * (b_pos.y as i128) - b_size as i128;
    let b_max_y: i128 = 2 * (b_pos.y as i128) + b_size as i128;
    a_min_x < b_max_x && a_max_x > b_min_x && a_min_y < b_max_y && a_max_y > b_min_y
}

/// Whether the player at `target_player_pos` touches the tile at
/// `wall_translation`.
pub fn wall_collision_check(
    target_player_pos: Position,
    wall_translation: Position,
    grid: &TileGrid,
) -> (hit: bool)
    requires
        grid.wf(),
    ensures
        hit == grid.touches(target_player_pos, wall_translation),
{
    collide(target_player_pos, grid.tile_size - grid.inset, wall_translation, grid.tile_size)
}

/// Whether the player at `player_pos` touches one of `tiles`.
pub fn touches_any_tile(player_pos: Position, tiles: &Vec<Position>, grid: &TileGrid) -> (hit: bool)
    requires
        grid.wf(),
    ensures
        hit == grid.touches_any(player_pos, tiles@),
{
    let mut i: usize = 0;
    while i < tiles.len()
        invariant
            grid.wf(),
            i <= tiles.len(),
            forall|j: int| 0 <= j < i ==> !grid.touches(player_pos, #[trigger] tiles@[j]),
        decreases tiles.len() - i,
    {
        if wall_collision_check(player_pos, tiles[i], grid) {
            return true;
        }
        i += 1;
    }
    false
}

impl EncounterTracker {
    /// The time spent has not passed the threshold.
    pub open spec fn wf(self) -> bool {
        self.dwell <= self.threshold
    }

    /// Whether a tick of `delta` fires the trigger.
    pub open spec fn fires(self, overlapping: bool, delta: u64) -> bool {
        overlapping && self.dwell + delta >= self.threshold
    }

    /// The tracker after a tick of `delta`: the time adds up while the
    /// player overlaps a zone and the threshold is not reached, and starts
    /// over otherwise.
    pub open spec fn advanced(self, overlapping: bool, delta: u64) -> EncounterTracker {
        if overlapping && !self.fires(overlapping, delta) {
            EncounterTracker { dwell: (self.dwell + delta) as u64, ..self }
        } else {
            EncounterTracker { dwell: 0, ..self }
        }
    }

    /// A tracker that fires after `threshold` in a zone.
    pub fn new(threshold: u64) -> (tracker: EncounterTracker)
        ensures
            tracker == (EncounterTracker { dwell: 0, threshold }),
            tracker.wf(),
    {
        EncounterTracker { dwell: 0, threshold }
    }

    /// Accounts for a tick of `delta` and says whether the trigger fired.
    pub fn tick(&mut self, overlapping: bool, delta: u64) -> (fired: bool)
        ensures
            fired == old(self).fires(overlapping, delta),
            *final(self) == old(self).advanced(overlapping, delta),
            final(self).wf(),
            fired ==> final(self).dwell == 0,
            !overlapping ==> final(self).dwell == 0,
    {
        if !overlapping {
            self.dwell = 0;
            false
        } else if self.dwell >= self.threshold || delta >= self.threshold - self.dwell {
            self.dwell = 0;
            true
        } else {
            self.dwell = self.dwell + delta;
            false
        }
    }
}

/// The player and tracker after one check of the trigger, and whether it
/// fired. The time is accounted for on every check: it adds up in a zone
/// and starts over outside one and at the threshold. The trigger fires at
/// the threshold for a player in control, and takes the control; for a
/// player without control nothing is asked for.
pub open spec fn checked(
    player: Player,
    tracker: EncounterTracker,
    overlapping: bool,
    delta: u64,
) -> (Player, EncounterTracker, bool) {
    if player.active && tracker.fires(overlapping, delta) {
        (Player { active: false, ..player }, tracker.advanced(overlapping, delta), true)
    } else {
        (player, tracker.advanced(overlapping, delta), false)
    }
}

/// Checks the trigger for one tick: the player at `player_pos`, the
/// centres of the encounter zones in `zones`, `delta` since the last
/// check. Asks for battle mode where the trigger fires.
pub fn player_encounter_checking(
    player: &mut Player,
    encounter_tracker: &mut EncounterTracker,
    player_pos: Position,
    zones: &Vec<Position>,
    grid: &TileGrid,
    delta: u64,
) -> (request: Option<GameState>)
    requires
        grid.wf(),
    ensures
        (*final(player), *final(encounter_tracker), request is Some) == checked(
            *old(player),
            *old(encounter_tracker),
            grid.touches_any(player_pos, zones@),
            delta,
        ),
        request is Some ==> request == Some(GameState::Battle),
        *final(encounter_tracker) == old(encounter_tracker).advanced(
            grid.touches_any(player_pos, zones@),
            delta,
        ),
        request is Some <==> (old(player).active && old(encounter_tracker).fires(
            grid.touches_any(player_pos, zones@),
            delta,
        )),
        request is None ==> *final(player) == *old(player),
        final(encounter_tracker).wf(),
{
    let overlapping = touches_any_tile(player_pos, zones, grid);
    let reached = encounter_tracker.tick(overlapping, delta);
    if reached && player.active {
        player.active = false;
        Some(GameState::Battle)
    } else {
        None
    }
}

/// One check of the trigger: whether the player overlaps a zone, and the
/// time since the last check.
pub struct Check {
    pub overlapping: bool,
    pub delta: u64,
}

/// Total time of a run of checks.
pub open spec fn total_time(checks: Seq<Check>) -> int
    decreases checks.len(),
{
    if checks.len() == 0 {
        0
    } else {
        checks[0].delta + total_time(checks.drop_first())
    }
}

/// Whether the player overlaps a zone at every check of a run.
pub open spec fn always_overlapping(checks: Seq<Check>) -> bool {
    forall|i: int| 0 <= i < checks.len() ==> (#[trigger] checks[i]).overlapping
}

/// Number of times the trigger fires over a run of checks.
pub open spec fn times_fired(player: Player, tracker: EncounterTracker, checks: Seq<Check>) -> nat
    decreases checks.len(),
{
    if checks.len() == 0 {
        0
    } else {
        let step = checked(player, tracker, checks[0].overlapping, checks[0].delta);
        (if step.2 { 1nat } else { 0nat }) + times_fired(step.0, step.1, checks.drop_first())
    }
}

/// The player and tracker at the end of a run of checks.
pub open spec fn after_checks(player: Player, tracker: EncounterTracker, checks: Seq<Check>) -> (
    Player,
    EncounterTracker,
)
    decreases checks.len(),
{
    if checks.len() == 0 {
        (player, tracker)
    } else {
        let step = checked(player, tracker, checks[0].overlapping, checks[0].delta);
        after_checks(step.0, step.1, checks.drop_first())
    }
}

/// Two boxes overlap exactly when their centres are closer than half the
/// sum of their sides along both axes; the test is symmetric.
pub proof fn lemma_overlap_by_distance(a: Position, a_size: int, b: Position, b_size: int)
    ensures
        boxes_overlap(a, a_size, b, b_size) <==> (2 * vstd::math::abs(a.x - b.x) < a_size + b_size
            && 2 * vstd::math::abs(a.y - b.y) < a_size + b_size),
        boxes_overlap(a, a_size, b, b_size) == boxes_overlap(b, b_size, a, a_size),
{
}

/// One check accounts for the time whoever has control: below the
/// threshold the time in a zone grows by the time of the check, outside a
/// zone it is zero afterwards, and at the threshold it starts over. The
/// check asks for a battle exactly when the threshold is reached in a zone
/// by a player in control, and only then does the player change.
pub proof fn lemma_check_accounts_for_time(
    player: Player,
    tracker: EncounterTracker,
    overlapping: bool,
    delta: u64,
)
    ensures
        (overlapping && tracker.dwell + delta < tracker.threshold) ==> {
            &&& checked(player, tracker, overlapping, delta).1.dwell == tracker.dwell + delta
            &&& !checked(player, tracker, overlapping, delta).2
            &&& checked(player, tracker, overlapping, delta).0 == player
        },
        !overlapping ==> {
            &&& checked(player, tracker, overlapping, delta).1.dwell == 0
            &&& !checked(player, tracker, overlapping, delta).2
            &&& checked(player, tracker, overlapping, delta).0 == player
        },
        (overlapping && tracker.dwell + delta >= tracker.threshold) ==> {
            &&& checked(player, tracker, overlapping, delta).1.dwell == 0
            &&& checked(player, tracker, overlapping, delta).2 == player.active
            &&& !checked(player, tracker, overlapping, delta).0.active
        },
        checked(player, tracker, overlapping, delta).1.threshold == tracker.threshold,
        checked(player, tracker, overlapping, delta).0.exp == player.exp,
{
}

/// However the time is cut into checks, a trigger that starts with the
/// threshold still ahead of the time already spent plus the time of the
/// whole run does not fire, and the player keeps control.
pub proof fn lemma_short_dwell_never_fires(
    player: Player,
    tracker: EncounterTracker,
    checks: Seq<Check>,
)
    requires
        tracker.dwell + total_time(checks) < tracker.threshold,
    ensures
        times_fired(player, tracker, checks) == 0,
        after_checks(player, tracker, checks).0 == player,
    decreases checks.len(),
{
    if checks.len() > 0 {
        let step = checked(player, tracker, checks[0].overlapping, checks[0].delta);
        lemma_total_time_nonnegative(checks.drop_first());
        lemma_short_dwell_never_fires(step.0, step.1, checks.drop_first());
    }
}

/// The total time of a run is not negative.
pub proof fn lemma_total_time_nonnegative(checks: Seq<Check>)
    ensures
        0 <= total_time(checks),
    decreases checks.len(),
{
    if checks.len() > 0 {
        lemma_total_time_nonnegative(checks.drop_first());
    }
}

/// A trigger fires at most once over any run of checks: firing takes
/// control from the player, and for a player without control nothing is
/// asked for.
pub proof fn lemma_fires_at_most_once(player: Player, tracker: EncounterTracker, checks: Seq<Check>)
    ensures
        times_fired(player, tracker, checks) <= 1,
        !player.active ==> times_fired(player, tracker, checks) == 0,
        !player.active ==> after_checks(player, tracker, checks).0 == player,
        times_fired(player, tracker, checks) == 1 ==> !after_checks(player, tracker, checks).0.active,
    decreases checks.len(),
{
    if checks.len() > 0 {
        let step = checked(player, tracker, checks[0].overlapping, checks[0].delta);
        lemma_fires_at_most_once(step.0, step.1, checks.drop_first());
    }
}

/// A player in control who stays in a zone for at least the threshold
/// fires the trigger exactly once.
pub proof fn lemma_long_dwell_fires_once(
    player: Player,
    tracker: EncounterTracker,
    checks: Seq<Check>,
)
    requires
        player.active,
        always_overlapping(checks),
        checks.len() > 0,
        tracker.dwell + total_time(checks) >= tracker.threshold,
    ensures
        times_fired(player, tracker, checks) == 1,
        !after_checks(player, tracker, checks).0.active,
    decreases checks.len(),
{
    let step = checked(player, tracker, checks[0].overlapping, checks[0].delta);
    let rest = checks.drop_first();
    assert(checks[0].overlapping);
    if tracker.fires(true, checks[0].delta) {
        lemma_fires_at_most_once(step.0, step.1, rest);
    } else {
        assert(rest.len() > 0) by {
            if rest.len() == 0 {
                assert(total_time(rest) == 0);
            }
        }
        assert(always_overlapping(rest)) by {
            assert forall|i: int| 0 <= i < rest.len() implies (#[trigger] rest[i]).overlapping by {
                assert(rest[i] == checks[i + 1]);
            }
        }
        lemma_long_dwell_fires_once(step.0, step.1, rest);
    }
}

} // verus!
