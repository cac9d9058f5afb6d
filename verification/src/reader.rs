//! The level-event model: enemy kinds, line placements, formations and the
//! event stream a scripted level produces.

use vstd::prelude::*;

use crate::components::TIME_LIMIT;
use crate::geometry::{Vec2, GEOM_LIMIT, TURN_MDEG};

verus! {

/// A level-authoring bug in a formation's parameters: fatal for the event
/// that carries it, never silently ignored.
#[derive(Clone, Copy, Debug, PartialEq, Eq, Structural)]
pub enum ConfigError {
    /// A `V` placement was asked to lay out an even number of points.
    EvenAmountInV,
    /// A `Circle` formation gave a center but no radius.
    CenterWithoutRadius,
}

/// The kinds of ball enemies a level can spawn.
#[derive(Clone, Copy, Debug, PartialEq, Eq, Structural)]
pub enum BallEnemy {
    /// A plain ball.
    Simple,
    /// A ball that splits into two `Simple` balls when destroyed.
    Double,
}

/// Which screen edge a vertical line formation enters from.
#[derive(Clone, Copy, Debug, PartialEq, Eq, Structural)]
pub enum VerticalLineSide {
    Left,
    Right,
}

/// Which screen edge a horizontal line formation enters from.
#[derive(Clone, Copy, Debug, PartialEq, Eq, Structural)]
pub enum HorizontalLineSide {
    Top,
    Bottom,
}

/// How `amount` points are laid out along a vertical line.
#[derive(Clone, Copy, Debug, PartialEq, Eq, Structural)]
pub enum VerticalLinePlacement {
    /// Spread evenly between the two margins.
    Distribute { margin: Option<i64> },
    /// Fixed spacing, growing from the top edge.
    FromTop { margin: Option<i64>, spacing: i64 },
    /// Fixed spacing, growing from the bottom edge.
    FromBottom { margin: Option<i64>, spacing: i64 },
    /// Distributed along the line, with a chevron offset on the other axis;
    /// the amount must be odd.
    V { margin: Option<i64>, spacing: i64 },
}

/// How `amount` points are laid out along a horizontal line.
#[derive(Clone, Copy, Debug, PartialEq, Eq, Structural)]
pub enum HorizontalLinePlacement {
    /// Spread evenly between the two margins.
    Distribute { margin: Option<i64> },
    /// Fixed spacing, growing from the left edge.
    FromLeft { margin: Option<i64>, spacing: i64 },
    /// Fixed spacing, growing from the right edge.
    FromRight { margin: Option<i64>, spacing: i64 },
    /// Distributed along the line, with a chevron offset on the other axis;
    /// the amount must be odd.
    V { margin: Option<i64>, spacing: i64 },
}

impl VerticalLinePlacement {
    /// The same layout read along a horizontal axis: a pure relabeling
    /// (`FromTop` becomes `FromLeft`, `FromBottom` becomes `FromRight`,
    /// `Distribute` and `V` keep their fields).
    pub fn to_horizontal(self) -> (h: HorizontalLinePlacement)
        ensures
            h == horizontal_of(self),
    {
        match self {
            VerticalLinePlacement::Distribute { margin } => HorizontalLinePlacement::Distribute {
                margin,
            },
            VerticalLinePlacement::FromTop { margin, spacing } => HorizontalLinePlacement::FromLeft {
                margin,
                spacing,
            },
            VerticalLinePlacement::FromBottom { margin, spacing } => {
                HorizontalLinePlacement::FromRight { margin, spacing }
            },
            VerticalLinePlacement::V { margin, spacing } => HorizontalLinePlacement::V {
                margin,
                spacing,
            },
        }
    }
}

impl HorizontalLinePlacement {
    /// The inverse relabeling, back onto a vertical axis.
    pub fn to_vertical(self) -> (v: VerticalLinePlacement)
        ensures
            v == vertical_of(self),
    {
        match self {
            HorizontalLinePlacement::Distribute { margin } => VerticalLinePlacement::Distribute {
                margin,
            },
            HorizontalLinePlacement::FromLeft { margin, spacing } => VerticalLinePlacement::FromTop {
                margin,
                spacing,
            },
            HorizontalLinePlacement::FromRight { margin, spacing } => {
                VerticalLinePlacement::FromBottom { margin, spacing }
            },
            HorizontalLinePlacement::V { margin, spacing } => VerticalLinePlacement::V {
                margin,
                spacing,
            },
        }
    }
}

/// The relabeling `to_horizontal` performs.
pub open spec fn horizontal_of(p: VerticalLinePlacement) -> HorizontalLinePlacement {
    match p {
        VerticalLinePlacement::Distribute { margin } => HorizontalLinePlacement::Distribute {
            margin,
        },
        VerticalLinePlacement::FromTop { margin, spacing } => HorizontalLinePlacement::FromLeft {
            margin,
            spacing,
        },
        VerticalLinePlacement::FromBottom { margin, spacing } => HorizontalLinePlacement::FromRight {
            margin,
            spacing,
        },
        VerticalLinePlacement::V { margin, spacing } => HorizontalLinePlacement::V {
            margin,
            spacing,
        },
    }
}

/// The relabeling `to_vertical` performs.
pub open spec fn vertical_of(p: HorizontalLinePlacement) -> VerticalLinePlacement {
    match p {
        HorizontalLinePlacement::Distribute { margin } => VerticalLinePlacement::Distribute {
            margin,
        },
        HorizontalLinePlacement::FromLeft { margin, spacing } => VerticalLinePlacement::FromTop {
            margin,
            spacing,
        },
        HorizontalLinePlacement::FromRight { margin, spacing } => VerticalLinePlacement::FromBottom {
            margin,
            spacing,
        },
        HorizontalLinePlacement::V { margin, spacing } => VerticalLinePlacement::V {
            margin,
            spacing,
        },
    }
}

/// Converting a vertical placement to a horizontal one and back returns the
/// placement it started from: the conversion is a pure relabeling, so margin
/// and spacing semantics (in particular of `Distribute`) are unchanged.
pub proof fn lemma_placement_round_trip(p: VerticalLinePlacement)
    ensures
        vertical_of(horizontal_of(p)) == p,
{
}

/// A declarative description of a batch of enemies: their kinds, initial
/// positions and velocities.
#[derive(Clone, Debug, PartialEq, Eq)]
pub enum Formation {
    /// One enemy at a fixed position with a fixed velocity.
    Single { enemy: BallEnemy, pos: Vec2, speed: Vec2, radius: i64 },
    /// `amount` enemies trailing behind `pos` against the direction of
    /// travel, `spacing` apart, kinds cycled from `enemies`.
    Multiple {
        enemies: Vec<BallEnemy>,
        amount: u16,
        spacing: i64,
        pos: Vec2,
        speed: Vec2,
        radius: i64,
    },
    /// A line of enemies just outside the left or right edge, moving
    /// horizontally inward.
    VerticalLine {
        enemies: Vec<BallEnemy>,
        amount: u8,
        speed: i64,
        radius: i64,
        side: VerticalLineSide,
        placement: VerticalLinePlacement,
    },
    /// A line of enemies just outside the top or bottom edge, moving
    /// vertically inward.
    HorizontalLine {
        enemies: Vec<BallEnemy>,
        amount: u8,
        speed: i64,
        radius: i64,
        side: HorizontalLineSide,
        placement: HorizontalLinePlacement,
    },
    /// `amount` enemies evenly spaced on a circle, each moving toward the
    /// center.  Giving a center without a radius is a configuration error.
    Circle {
        enemies: Vec<BallEnemy>,
        amount: u8,
        speed: i64,
        enemy_radius: i64,
        starting_angle: i64,
        formation_radius: Option<i64>,
        formation_center: Option<Vec2>,
    },
    /// Enemies on an outward spiral: a fixed angular step per index and a
    /// radius growing by `spacing` per index, each moving toward the center.
    Spiral {
        enemies: Vec<BallEnemy>,
        amount_in_circle: u16,
        amount: u16,
        spacing: i64,
        enemy_radius: i64,
        speed: i64,
    },
}

/// Radius a ball is given when a formation names none.
pub const DEFAULT_RADIUS: i64 = 20;

/// Entry speed of line and circle formations that name none.
pub const DEFAULT_SPEED: i64 = 15;

/// Trailing gap of a `Multiple` formation that names none.
pub const DEFAULT_SPACING: i64 = 5;

/// Speed of a spiral formation that names none.
pub const DEFAULT_SPIRAL_SPEED: i64 = 10;

/// `v`, or the given default where the author wrote nothing.
pub open spec fn or_default(v: Option<i64>, d: int) -> int {
    match v {
        Some(x) => x as int,
        None => d,
    }
}

/// Applies an optional scalar's default.
fn unwrap_or_i64(v: Option<i64>, d: i64) -> (r: i64)
    ensures
        r == or_default(v, d as int),
{
    match v {
        Some(x) => x,
        None => d,
    }
}

impl Formation {
    /// A `Single` formation; the radius defaults.
    pub fn single(enemy: BallEnemy, pos: Vec2, speed: Vec2, radius: Option<i64>) -> (f: Formation)
        ensures
            f == (Formation::Single {
                enemy,
                pos,
                speed,
                radius: or_default(radius, DEFAULT_RADIUS as int) as i64,
            }),
    {
        Formation::Single { enemy, pos, speed, radius: unwrap_or_i64(radius, DEFAULT_RADIUS) }
    }

    /// A `Multiple` formation; spacing and radius default.
    pub fn multiple(
        enemies: Vec<BallEnemy>,
        amount: u16,
        spacing: Option<i64>,
        pos: Vec2,
        speed: Vec2,
        radius: Option<i64>,
    ) -> (f: Formation)
        ensures
            f == (Formation::Multiple {
                enemies,
                amount,
                spacing: or_default(spacing, DEFAULT_SPACING as int) as i64,
                pos,
                speed,
                radius: or_default(radius, DEFAULT_RADIUS as int) as i64,
            }),
    {
        Formation::Multiple {
            enemies,
            amount,
            spacing: unwrap_or_i64(spacing, DEFAULT_SPACING),
            pos,
            speed,
            radius: unwrap_or_i64(radius, DEFAULT_RADIUS),
        }
    }

    /// A `VerticalLine` formation; speed and radius default.
    pub fn vertical_line(
        enemies: Vec<BallEnemy>,
        amount: u8,
        speed: Option<i64>,
        radius: Option<i64>,
        side: VerticalLineSide,
        placement: VerticalLinePlacement,
    ) -> (f: Formation)
        ensures
            f == (Formation::VerticalLine {
                enemies,
                amount,
                speed: or_default(speed, DEFAULT_SPEED as int) as i64,
                radius: or_default(radius, DEFAULT_RADIUS as int) as i64,
                side,
                placement,
            }),
    {
        Formation::VerticalLine {
            enemies,
            amount,
            speed: unwrap_or_i64(speed, DEFAULT_SPEED),
            radius: unwrap_or_i64(radius, DEFAULT_RADIUS),
            side,
            placement,
        }
    }

    /// A `HorizontalLine` formation; speed and radius default.
    pub fn horizontal_line(
        enemies: Vec<BallEnemy>,
        amount: u8,
        speed: Option<i64>,
        radius: Option<i64>,
        side: HorizontalLineSide,
        placement: HorizontalLinePlacement,
    ) -> (f: Formation)
        ensures
            f == (Formation::HorizontalLine {
                enemies,
                amount,
                speed: or_default(speed, DEFAULT_SPEED as int) as i64,
                radius: or_default(radius, DEFAULT_RADIUS as int) as i64,
                side,
                placement,
            }),
    {
        Formation::HorizontalLine {
            enemies,
            amount,
            speed: unwrap_or_i64(speed, DEFAULT_SPEED),
            radius: unwrap_or_i64(radius, DEFAULT_RADIUS),
            side,
            placement,
        }
    }

    /// A `Circle` formation; speed and enemy radius default.
    pub fn circle(
        enemies: Vec<BallEnemy>,
        amount: u8,
        speed: Option<i64>,
        enemy_radius: Option<i64>,
        starting_angle: i64,
        formation_radius: Option<i64>,
        formation_center: Option<Vec2>,
    ) -> (f: Formation)
        ensures
            f == (Formation::Circle {
                enemies,
                amount,
                speed: or_default(speed, DEFAULT_SPEED as int) as i64,
                enemy_radius: or_default(enemy_radius, DEFAULT_RADIUS as int) as i64,
                starting_angle,
                formation_radius,
                formation_center,
            }),
    {
        Formation::Circle {
            enemies,
            amount,
            speed: unwrap_or_i64(speed, DEFAULT_SPEED),
            enemy_radius: unwrap_or_i64(enemy_radius, DEFAULT_RADIUS),
            starting_angle,
            formation_radius,
            formation_center,
        }
    }

    /// A `Spiral` formation; speed and enemy radius default.
    pub fn spiral(
        enemies: Vec<BallEnemy>,
        amount_in_circle: u16,
        amount: u16,
        spacing: i64,
        enemy_radius: Option<i64>,
        speed: Option<i64>,
    ) -> (f: Formation)
        ensures
            f == (Formation::Spiral {
                enemies,
                amount_in_circle,
                amount,
                spacing,
                enemy_radius: or_default(enemy_radius, DEFAULT_RADIUS as int) as i64,
                speed: or_default(speed, DEFAULT_SPIRAL_SPEED as int) as i64,
            }),
    {
        Formation::Spiral {
            enemies,
            amount_in_circle,
            amount,
            spacing,
            enemy_radius: unwrap_or_i64(enemy_radius, DEFAULT_RADIUS),
            speed: unwrap_or_i64(speed, DEFAULT_SPIRAL_SPEED),
        }
    }
}

/// A geometric scalar a level author wrote, within `GEOM_LIMIT`.
pub open spec fn geom_ok(v: int) -> bool {
    -GEOM_LIMIT <= v <= GEOM_LIMIT
}

/// An optional margin within `GEOM_LIMIT`.
pub open spec fn margin_ok(m: Option<i64>) -> bool {
    m matches Some(v) ==> geom_ok(v as int)
}

/// The scalars of a horizontal placement are within `GEOM_LIMIT`.
pub open spec fn h_placement_ok(p: HorizontalLinePlacement) -> bool {
    match p {
        HorizontalLinePlacement::Distribute { margin } => margin_ok(margin),
        HorizontalLinePlacement::FromLeft { margin, spacing } => margin_ok(margin) && geom_ok(
            spacing as int,
        ),
        HorizontalLinePlacement::FromRight { margin, spacing } => margin_ok(margin) && geom_ok(
            spacing as int,
        ),
        HorizontalLinePlacement::V { margin, spacing } => margin_ok(margin) && geom_ok(
            spacing as int,
        ),
    }
}

/// The scalars of a vertical placement are within `GEOM_LIMIT`.
pub open spec fn v_placement_ok(p: VerticalLinePlacement) -> bool {
    h_placement_ok(horizontal_of(p))
}

/// A formation a verified expansion accepts: its scalars are bounded by the
/// machine limits, and a cycled enemy list is only empty when nothing is
/// spawned from it (cycling an empty list has nothing to hand out).
pub open spec fn formation_wf(f: Formation) -> bool {
    match f {
        Formation::Single { enemy, pos, speed, radius } => pos.bounded(GEOM_LIMIT as int)
            && speed.bounded(GEOM_LIMIT as int) && geom_ok(radius as int),
        Formation::Multiple { enemies, amount, spacing, pos, speed, radius } => pos.bounded(
            GEOM_LIMIT as int,
        ) && speed.bounded(GEOM_LIMIT as int) && geom_ok(spacing as int) && geom_ok(radius as int)
            && (amount > 0 ==> enemies@.len() > 0),
        Formation::VerticalLine { enemies, amount, speed, radius, side, placement } => geom_ok(
            speed as int,
        ) && geom_ok(radius as int) && v_placement_ok(placement) && (amount > 0 ==> enemies@.len()
            > 0),
        Formation::HorizontalLine { enemies, amount, speed, radius, side, placement } => geom_ok(
            speed as int,
        ) && geom_ok(radius as int) && h_placement_ok(placement) && (amount > 0 ==> enemies@.len()
            > 0),
        Formation::Circle {
            enemies,
            amount,
            speed,
            enemy_radius,
            starting_angle,
            formation_radius,
            formation_center,
        } => geom_ok(speed as int) && geom_ok(enemy_radius as int) && -TURN_MDEG <= starting_angle
            <= TURN_MDEG && (formation_radius matches Some(r) ==> 0 <= r <= GEOM_LIMIT) && (
        formation_center matches Some(c) ==> c.bounded(GEOM_LIMIT as int)) && (amount > 0
            ==> enemies@.len() > 0),
        Formation::Spiral { enemies, amount_in_circle, amount, spacing, enemy_radius, speed } => (
        geom_ok(speed as int) && geom_ok(enemy_radius as int) && 0 <= spacing && amount * spacing
            <= GEOM_LIMIT && (amount > 0 ==> enemies@.len() > 0)),
    }
}

/// One instruction of a scripted level, consumed in strict order.
#[derive(Clone, Debug, PartialEq, Eq)]
pub enum LevelEvent {
    /// Sleep for the given number of milliseconds.
    Wait(i64),
    /// Sleep until no enemy and no pending spawner remains.
    WaitUntilNoEnemies,
    /// Spawn a formation with the session's default telegraph duration.
    Spawn(Formation),
    /// Spawn a formation with full control over the telegraph duration and
    /// the aim override.
    CustomSpawn { formation: Formation, indicator_duration: Option<i64>, follow_player: bool },
    /// Change the session's default telegraph duration (milliseconds).
    SetDefaultIndicatorDuration(i64),
}

/// An event a verified executor accepts: bounded times and a well-formed
/// formation where one is carried.
pub open spec fn event_wf(e: LevelEvent) -> bool {
    match e {
        LevelEvent::Wait(ms) => 0 <= ms <= TIME_LIMIT,
        LevelEvent::WaitUntilNoEnemies => true,
        LevelEvent::Spawn(f) => formation_wf(f),
        LevelEvent::CustomSpawn { formation, indicator_duration, follow_player } => formation_wf(
            formation,
        ) && (indicator_duration matches Some(d) ==> -TIME_LIMIT <= d <= TIME_LIMIT),
        LevelEvent::SetDefaultIndicatorDuration(d) => -TIME_LIMIT <= d <= TIME_LIMIT,
    }
}

/// A level: a stateful producer of events, pulled one at a time until it
/// reports the end of the script with `None`.  A scripted interpreter sits
/// behind this trait; the executor asks for the next event exactly when it
/// is ready to handle one.  Scripts are finite sequences, abstracted as the
/// `queue` of events still to come: `next` hands out exactly the head of
/// that queue, so an executor tick both terminates and is pinned to the
/// script.
pub trait Level {
    /// The events this level will still produce, in order.
    spec fn queue(&self) -> Seq<LevelEvent>;

    /// Resume the script until it yields one more event, or `None` at the
    /// end: exactly the head of the queue, well formed, leaving the tail.
    fn next(&mut self) -> (e: Option<LevelEvent>)
        ensures
            e matches Some(ev) ==> event_wf(ev),
            old(self).queue().len() == 0 ==> e is None && final(self).queue() == old(
                self,
            ).queue(),
            old(self).queue().len() > 0 ==> e == Some(old(self).queue().first())
                && final(self).queue() == old(self).queue().drop_first(),
    ;
}

/// A level whose events are written out up front as a list: the simplest
/// script, and the harness an interpreter-backed level is compared to.
pub struct ScriptedLevel {
    pending: Vec<LevelEvent>,
}

impl ScriptedLevel {
    /// Every stored event is well formed.
    #[verifier::type_invariant]
    spec fn inv(&self) -> bool {
        forall|i: int| 0 <= i < self.pending@.len() ==> event_wf(#[trigger] self.pending@[i])
    }

    /// A level that will produce `events` in order.
    pub fn new(events: Vec<LevelEvent>) -> (l: ScriptedLevel)
        requires
            forall|i: int| 0 <= i < events@.len() ==> event_wf(#[trigger] events@[i]),
        ensures
            l.queue() == events@,
    {
        let mut events = events;
        let ghost total = events@.len();
        let mut pending: Vec<LevelEvent> = Vec::new();
        let ghost all = events@;
        while events.len() > 0
            invariant
                forall|i: int| 0 <= i < events@.len() ==> event_wf(#[trigger] events@[i]),
                forall|i: int| 0 <= i < pending@.len() ==> event_wf(#[trigger] pending@[i]),
                events@.len() + pending@.len() == total == all.len(),
                events@ == all.take(events@.len() as int),
                forall|i: int|
                    0 <= i < pending@.len() ==> #[trigger] pending@[i] == all[all.len() - 1 - i],
            decreases events@.len(),
        {
            let e = events.pop().unwrap();
            pending.push(e);
            proof {
                assert(events@ =~= all.take(events@.len() as int));
            }
        }
        let l = ScriptedLevel { pending };
        proof {
            assert(l.queue() =~= all);
        }
        l
    }
}

impl Level for ScriptedLevel {
    /// The stored events, last to be produced first.
    closed spec fn queue(&self) -> Seq<LevelEvent> {
        self.pending@.reverse()
    }

    fn next(&mut self) -> (e: Option<LevelEvent>) {
        proof {
            use_type_invariant(&*self);
        }
        let mut tmp = ScriptedLevel { pending: Vec::new() };
        core::mem::swap(self, &mut tmp);
        let ScriptedLevel { mut pending } = tmp;
        let e = pending.pop();
        *self = ScriptedLevel { pending };
        proof {
            if old(self).queue().len() > 0 {
                assert(final(self).queue() =~= old(self).queue().drop_first());
            }
        }
        e
    }
}

} // verus!
