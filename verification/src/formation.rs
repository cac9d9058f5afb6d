//! Expansion of a declarative `Formation` into the staged spawner records
//! that the executor defers.

use vstd::prelude::*;

use crate::geometry::{
    cos_mdeg, cos_mdeg_i64, div_trunc, div_trunc_i64, isqrt_i64, isqrt_val, sin_mdeg, sin_mdeg_i64,
    Vec2, DIR_SCALE, GEOM_LIMIT, HEIGHT, TURN_MDEG, WIDTH,
};
use crate::placement::{line_enemy_positions, line_pos, line_rejects};
use crate::reader::{
    formation_wf, horizontal_of, ConfigError, Formation, HorizontalLineSide, VerticalLineSide,
};
use crate::spawner::{cycled_enemy, spawner_fresh, EnemySpawner, EnemySpawnerLogic, SpawnSpeed};

verus! {

/// The configuration error a formation carries, if any: an even amount
/// under a `V` placement, or a circle center given without a radius.
pub open spec fn formation_error(f: Formation) -> Option<ConfigError> {
    match f {
        Formation::VerticalLine { amount, placement, .. } => if line_rejects(
            horizontal_of(placement),
            amount as int,
        ) {
            Some(ConfigError::EvenAmountInV)
        } else {
            None
        },
        Formation::HorizontalLine { amount, placement, .. } => if line_rejects(
            placement,
            amount as int,
        ) {
            Some(ConfigError::EvenAmountInV)
        } else {
            None
        },
        Formation::Circle { formation_radius, formation_center, .. } => if formation_center
            is Some && formation_radius is None {
            Some(ConfigError::CenterWithoutRadius)
        } else {
            None
        },
        _ => None,
    }
}

/// How many spawners a formation expands to: `Single` and `Multiple` stage
/// one batch each, the geometric formations one spawner per enemy.
pub open spec fn formation_count(f: Formation) -> int {
    match f {
        Formation::Single { .. } => 1,
        Formation::Multiple { .. } => 1,
        Formation::VerticalLine { amount, .. } => amount as int,
        Formation::HorizontalLine { amount, .. } => amount as int,
        Formation::Circle { amount, .. } => amount as int,
        Formation::Spiral { amount, .. } => amount as int,
    }
}

/// Entry speed and base coordinate of a vertical line: from the left edge
/// the line sits one radius outside at `-radius` and travels rightward;
/// from the right edge the speed is flipped and the line sits at
/// `WIDTH + radius`.
pub open spec fn vertical_entry(side: VerticalLineSide, speed: int, radius: int) -> (int, int) {
    if side is Left {
        (speed, -radius)
    } else {
        (-speed, WIDTH + radius)
    }
}

/// Entry speed and base coordinate of a horizontal line, over the top or
/// bottom edge.
pub open spec fn horizontal_entry(side: HorizontalLineSide, speed: int, radius: int) -> (int, int) {
    if side is Top {
        (speed, -radius)
    } else {
        (-speed, HEIGHT + radius)
    }
}

/// Center of a circle or spiral formation: as given, or the screen center.
pub open spec fn circle_center(fc: Option<Vec2>) -> (int, int) {
    match fc {
        Some(c) => (c.x as int, c.y as int),
        None => (WIDTH as int / 2, HEIGHT as int / 2),
    }
}

/// Radius of a circle or spiral formation: as given, or half the screen
/// diagonal plus one enemy radius, so the ring starts just off screen.
pub open spec fn circle_radius(fr: Option<i64>, enemy_radius: int) -> int {
    match fr {
        Some(r) => r as int,
        None => div_trunc(isqrt_val(WIDTH * WIDTH + HEIGHT * HEIGHT), 2) + enemy_radius,
    }
}

/// Angle of the `i`-th point of a circle formation, in millidegrees.
pub open spec fn circle_theta(starting_angle: int, amount: int, i: int) -> int {
    starting_angle + div_trunc(TURN_MDEG * i, amount)
}

/// The `i`-th spawner of a well-formed formation (meaningful when the
/// formation carries no configuration error and `i` is below its count).
pub open spec fn formation_spawner(f: Formation, i: int) -> EnemySpawner {
    match f {
        Formation::Single { enemy, pos, speed, radius } => EnemySpawner {
            position: pos,
            spawn_speed: SpawnSpeed::Fixed(speed),
            logic: EnemySpawnerLogic::Single { enemy, radius },
            spawn_at: 0,
        },
        Formation::Multiple { enemies, amount, spacing, pos, speed, radius } => EnemySpawner {
            position: pos,
            spawn_speed: SpawnSpeed::Fixed(speed),
            logic: EnemySpawnerLogic::Multiple { enemies, amount, spacing, radius },
            spawn_at: 0,
        },
        Formation::VerticalLine { enemies, amount, speed, radius, side, placement } => {
            let (entry_speed, base_x) = vertical_entry(side, speed as int, radius as int);
            let line = line_pos(
                horizontal_of(placement),
                i,
                amount as int,
                base_x,
                radius as int,
                HEIGHT as int,
            );
            EnemySpawner {
                position: Vec2 { x: line.1 as i64, y: line.0 as i64 },
                spawn_speed: SpawnSpeed::Fixed(Vec2 { x: entry_speed as i64, y: 0 }),
                logic: EnemySpawnerLogic::Single { enemy: cycled_enemy(enemies@, i), radius },
                spawn_at: 0,
            }
        },
        Formation::HorizontalLine { enemies, amount, speed, radius, side, placement } => {
            let (entry_speed, base_y) = horizontal_entry(side, speed as int, radius as int);
            let line = line_pos(placement, i, amount as int, base_y, radius as int, WIDTH as int);
            EnemySpawner {
                position: Vec2 { x: line.0 as i64, y: line.1 as i64 },
                spawn_speed: SpawnSpeed::Fixed(Vec2 { x: 0, y: entry_speed as i64 }),
                logic: EnemySpawnerLogic::Single { enemy: cycled_enemy(enemies@, i), radius },
                spawn_at: 0,
            }
        },
        Formation::Circle {
            enemies,
            amount,
            speed,
            enemy_radius,
            starting_angle,
            formation_radius,
            formation_center,
        } => {
            let (cx, cy) = circle_center(formation_center);
            let rr = circle_radius(formation_radius, enemy_radius as int);
            let theta = circle_theta(starting_angle as int, amount as int, i);
            let ux = sin_mdeg(theta);
            let uy = -cos_mdeg(theta);
            EnemySpawner {
                position: Vec2 {
                    x: (cx + div_trunc(ux * rr, DIR_SCALE as int)) as i64,
                    y: (cy + div_trunc(uy * rr, DIR_SCALE as int)) as i64,
                },
                spawn_speed: SpawnSpeed::Fixed(
                    Vec2 {
                        x: div_trunc(-ux * speed, DIR_SCALE as int) as i64,
                        y: div_trunc(-uy * speed, DIR_SCALE as int) as i64,
                    },
                ),
                logic: EnemySpawnerLogic::Single {
                    enemy: cycled_enemy(enemies@, i),
                    radius: enemy_radius,
                },
                spawn_at: 0,
            }
        },
        Formation::Spiral { enemies, amount_in_circle, amount, spacing, enemy_radius, speed } => {
            let cx = WIDTH as int / 2;
            let cy = HEIGHT as int / 2;
            let rr = circle_radius(None, enemy_radius as int) + i * spacing;
            let theta = div_trunc(TURN_MDEG * i, amount_in_circle as int);
            let ux = cos_mdeg(theta);
            let uy = sin_mdeg(theta);
            EnemySpawner {
                position: Vec2 {
                    x: (cx + div_trunc(ux * rr, DIR_SCALE as int)) as i64,
                    y: (cy + div_trunc(uy * rr, DIR_SCALE as int)) as i64,
                },
                spawn_speed: SpawnSpeed::Fixed(
                    Vec2 {
                        x: div_trunc(-ux * speed, DIR_SCALE as int) as i64,
                        y: div_trunc(-uy * speed, DIR_SCALE as int) as i64,
                    },
                ),
                logic: EnemySpawnerLogic::Single {
                    enemy: cycled_enemy(enemies@, i),
                    radius: enemy_radius,
                },
                spawn_at: 0,
            }
        },
    }
}

/// The full ordered expansion of a formation.
pub open spec fn formation_spawners(f: Formation) -> Seq<EnemySpawner> {
    Seq::new(formation_count(f) as nat, |i: int| formation_spawner(f, i))
}


impl Formation {
    /// Expands this formation into its ordered batch of pending spawners
    /// (each well formed, all fire timestamps still zero), or reports the
    /// configuration error that makes the formation unusable.
    pub fn get_spawners(self) -> (r: Result<Vec<EnemySpawner>, ConfigError>)
        requires
            formation_wf(self),
        ensures
            r is Err <==> formation_error(self) is Some,
            r matches Err(e) ==> formation_error(self) == Some(e),
            r matches Ok(v) ==> v@ == formation_spawners(self),
            r matches Ok(v) ==> forall|i: int| 0 <= i < v@.len() ==> spawner_fresh(#[trigger] v@[i]),
    {
        let ghost orig = self;
        match self {
            Formation::Single { enemy, pos, speed, radius } => {
                let mut v: Vec<EnemySpawner> = Vec::new();
                v.push(
                    EnemySpawner {
                        position: pos,
                        spawn_speed: SpawnSpeed::Fixed(speed),
                        logic: EnemySpawnerLogic::Single { enemy, radius },
                        spawn_at: 0,
                    },
                );
                proof {
                    assert(v@ =~= formation_spawners(orig));
                }
                Ok(v)
            },
            Formation::Multiple { enemies, amount, spacing, pos, speed, radius } => {
                let mut v: Vec<EnemySpawner> = Vec::new();
                v.push(
                    EnemySpawner {
                        position: pos,
                        spawn_speed: SpawnSpeed::Fixed(speed),
                        logic: EnemySpawnerLogic::Multiple { enemies, amount, spacing, radius },
                        spawn_at: 0,
                    },
                );
                proof {
                    assert(v@ =~= formation_spawners(orig));
                }
                Ok(v)
            },
            Formation::VerticalLine { enemies, amount, speed, radius, side, placement } => {
                let (speed2, base_x) = if side == VerticalLineSide::Left {
                    (speed, -radius)
                } else {
                    (-speed, WIDTH + radius)
                };
                let hplacement = placement.to_horizontal();
                match line_enemy_positions(base_x, radius, amount, HEIGHT, hplacement) {
                    Err(e) => Err(e),
                    Ok(coords) => {
                        let mut v: Vec<EnemySpawner> = Vec::new();
                        let mut i: usize = 0;
                        while i < coords.len()
                            invariant
                                formation_wf(orig),
                                orig == (Formation::VerticalLine {
                                    enemies,
                                    amount,
                                    speed,
                                    radius,
                                    side,
                                    placement,
                                }),
                                speed2 as int == vertical_entry(side, speed as int, radius as int).0,
                                base_x as int == vertical_entry(side, speed as int, radius as int).1,
                                -(2 * GEOM_LIMIT) <= base_x <= 2 * GEOM_LIMIT,
                                -GEOM_LIMIT <= speed2 <= GEOM_LIMIT,
                                hplacement == horizontal_of(placement),
                                coords@.len() == amount,
                                forall|k: int|
                                    0 <= k < amount ==> (#[trigger] coords@[k]).0 == line_pos(
                                        hplacement,
                                        k,
                                        amount as int,
                                        base_x as int,
                                        radius as int,
                                        HEIGHT as int,
                                    ).0 && coords@[k].1 == line_pos(
                                        hplacement,
                                        k,
                                        amount as int,
                                        base_x as int,
                                        radius as int,
                                        HEIGHT as int,
                                    ).1,
                                v@.len() == i <= amount,
                                amount > 0 ==> enemies@.len() > 0,
                                forall|k: int|
                                    0 <= k < i ==> #[trigger] v@[k] == formation_spawner(orig, k)
                                        && spawner_fresh(v@[k]),
                            decreases coords@.len() - i,
                        {
                            proof {
                                crate::placement::lemma_line_pos_bounded(
                                    hplacement,
                                    i as int,
                                    amount as int,
                                    base_x as int,
                                    radius as int,
                                    HEIGHT as int,
                                );
                            }
                            let idx = i % enemies.len();
                            let c = coords[i];
                            v.push(
                                EnemySpawner {
                                    position: Vec2 { x: c.1, y: c.0 },
                                    spawn_speed: SpawnSpeed::Fixed(Vec2 { x: speed2, y: 0 }),
                                    logic: EnemySpawnerLogic::Single {
                                        enemy: enemies[idx],
                                        radius,
                                    },
                                    spawn_at: 0,
                                },
                            );
                            i = i + 1;
                        }
                        proof {
                            assert(v@ =~= formation_spawners(orig));
                        }
                        Ok(v)
                    },
                }
            },
            Formation::HorizontalLine { enemies, amount, speed, radius, side, placement } => {
                let (speed2, base_y) = if side == HorizontalLineSide::Top {
                    (speed, -radius)
                } else {
                    (-speed, HEIGHT + radius)
                };
                match line_enemy_positions(base_y, radius, amount, WIDTH, placement) {
                    Err(e) => Err(e),
                    Ok(coords) => {
                        let mut v: Vec<EnemySpawner> = Vec::new();
                        let mut i: usize = 0;
                        while i < coords.len()
                            invariant
                                formation_wf(orig),
                                orig == (Formation::HorizontalLine {
                                    enemies,
                                    amount,
                                    speed,
                                    radius,
                                    side,
                                    placement,
                                }),
                                speed2 as int == horizontal_entry(
                                    side,
                                    speed as int,
                                    radius as int,
                                ).0,
                                base_y as int == horizontal_entry(
                                    side,
                                    speed as int,
                                    radius as int,
                                ).1,
                                -(2 * GEOM_LIMIT) <= base_y <= 2 * GEOM_LIMIT,
                                -GEOM_LIMIT <= speed2 <= GEOM_LIMIT,
                                coords@.len() == amount,
                                forall|k: int|
                                    0 <= k < amount ==> (#[trigger] coords@[k]).0 == line_pos(
                                        placement,
                                        k,
                                        amount as int,
                                        base_y as int,
                                        radius as int,
                                        WIDTH as int,
                                    ).0 && coords@[k].1 == line_pos(
                                        placement,
                                        k,
                                        amount as int,
                                        base_y as int,
                                        radius as int,
                                        WIDTH as int,
                                    ).1,
                                v@.len() == i <= amount,
                                amount > 0 ==> enemies@.len() > 0,
                                forall|k: int|
                                    0 <= k < i ==> #[trigger] v@[k] == formation_spawner(orig, k)
                                        && spawner_fresh(v@[k]),
                            decreases coords@.len() - i,
                        {
                            proof {
                                crate::placement::lemma_line_pos_bounded(
                                    placement,
                                    i as int,
                                    amount as int,
                                    base_y as int,
                                    radius as int,
                                    WIDTH as int,
                                );
                            }
                            let idx = i % enemies.len();
                            let c = coords[i];
                            v.push(
                                EnemySpawner {
                                    position: Vec2 { x: c.0, y: c.1 },
                                    spawn_speed: SpawnSpeed::Fixed(Vec2 { x: 0, y: speed2 }),
                                    logic: EnemySpawnerLogic::Single {
                                        enemy: enemies[idx],
                                        radius,
                                    },
                                    spawn_at: 0,
                                },
                            );
                            i = i + 1;
                        }
                        proof {
                            assert(v@ =~= formation_spawners(orig));
                        }
                        Ok(v)
                    },
                }
            },
            Formation::Circle {
                enemies,
                amount,
                speed,
                enemy_radius,
                starting_angle,
                formation_radius,
                formation_center,
            } => {
                if formation_center.is_some() && formation_radius.is_none() {
                    return Err(ConfigError::CenterWithoutRadius);
                }
                let v = expand_circle(
                    enemies,
                    amount,
                    speed,
                    enemy_radius,
                    starting_angle,
                    formation_radius,
                    formation_center,
                );
                Ok(v)
            },
            Formation::Spiral { enemies, amount_in_circle, amount, spacing, enemy_radius, speed } => {
                let v = expand_spiral(enemies, amount_in_circle, amount, spacing, enemy_radius, speed);
                Ok(v)
            },
        }
    }
}

/// Expands a `Circle` formation already known to be free of configuration
/// errors: `amount` spawners evenly spaced around the center, aimed inward.
fn expand_circle(
    enemies: Vec<crate::reader::BallEnemy>,
    amount: u8,
    speed: i64,
    enemy_radius: i64,
    starting_angle: i64,
    formation_radius: Option<i64>,
    formation_center: Option<Vec2>,
) -> (v: Vec<EnemySpawner>)
    requires
        formation_wf(
            Formation::Circle {
                enemies,
                amount,
                speed,
                enemy_radius,
                starting_angle,
                formation_radius,
                formation_center,
            },
        ),
    ensures
        v@ == formation_spawners(
            Formation::Circle {
                enemies,
                amount,
                speed,
                enemy_radius,
                starting_angle,
                formation_radius,
                formation_center,
            },
        ),
        forall|i: int| 0 <= i < v@.len() ==> spawner_fresh(#[trigger] v@[i]),
{
    let ghost orig = Formation::Circle {
        enemies,
        amount,
        speed,
        enemy_radius,
        starting_angle,
        formation_radius,
        formation_center,
    };
    let (cx, cy) = match formation_center {
        Some(c) => (c.x, c.y),
        None => (400, 300),
    };
    let rr = match formation_radius {
        Some(r) => r,
        None => {
            let diag = isqrt_i64(WIDTH * WIDTH + HEIGHT * HEIGHT);
            proof {
                assert(0 <= diag <= 1000) by (nonlinear_arith)
                    requires
                        diag >= 0,
                        (diag as int) * (diag as int) <= 1_000_000,
                ;
                crate::geometry::lemma_div_trunc_abs_le(
                    isqrt_val(WIDTH * WIDTH + HEIGHT * HEIGHT),
                    2,
                    1000,
                );
            }
            div_trunc_i64(diag, 2) + enemy_radius
        },
    };
    let mut v: Vec<EnemySpawner> = Vec::new();
    let mut i: u8 = 0;
    while i < amount
        invariant
            formation_wf(orig),
            orig == (Formation::Circle {
                enemies,
                amount,
                speed,
                enemy_radius,
                starting_angle,
                formation_radius,
                formation_center,
            }),
            cx as int == circle_center(formation_center).0,
            cy as int == circle_center(formation_center).1,
            -GEOM_LIMIT <= cx <= GEOM_LIMIT,
            -GEOM_LIMIT <= cy <= GEOM_LIMIT,
            rr as int == circle_radius(formation_radius, enemy_radius as int),
            -1_100_000 <= rr <= 1_100_000,
            v@.len() == i <= amount,
            amount > 0 ==> enemies@.len() > 0,
            forall|k: int|
                0 <= k < i ==> #[trigger] v@[k] == formation_spawner(orig, k) && spawner_fresh(
                    v@[k],
                ),
        decreases amount - i,
    {
        let idx = (i as usize) % enemies.len();
        let theta = starting_angle + div_trunc_i64(TURN_MDEG * (i as i64), amount as i64);
        let s = sin_mdeg_i64(theta);
        let c = cos_mdeg_i64(theta);
        let ux = s;
        let uy = -c;
        proof {
            crate::geometry::lemma_div_trunc_abs_le(
                TURN_MDEG as int * (i as int),
                amount as int,
                TURN_MDEG as int * 255,
            );
            assert(-(DIR_SCALE as int * 1_100_000) <= ux * rr <= DIR_SCALE as int * 1_100_000 && -(
            DIR_SCALE as int * 1_100_000) <= uy * rr <= DIR_SCALE as int * 1_100_000 && -(
            DIR_SCALE as int * GEOM_LIMIT) <= (-ux) * speed <= DIR_SCALE as int * GEOM_LIMIT && -(
            DIR_SCALE as int * GEOM_LIMIT) <= (-uy) * speed <= DIR_SCALE as int * GEOM_LIMIT)
                by (nonlinear_arith)
                requires
                    -DIR_SCALE <= ux <= DIR_SCALE,
                    -DIR_SCALE <= uy <= DIR_SCALE,
                    -1_100_000 <= rr <= 1_100_000,
                    -GEOM_LIMIT <= speed <= GEOM_LIMIT,
            ;
            crate::geometry::lemma_div_trunc_abs_le(ux * rr, DIR_SCALE as int, 1_100_000);
            crate::geometry::lemma_div_trunc_abs_le(uy * rr, DIR_SCALE as int, 1_100_000);
            crate::geometry::lemma_div_trunc_abs_le(
                (-ux) * speed,
                DIR_SCALE as int,
                GEOM_LIMIT as int,
            );
            crate::geometry::lemma_div_trunc_abs_le(
                (-uy) * speed,
                DIR_SCALE as int,
                GEOM_LIMIT as int,
            );
        }
        let px = cx + div_trunc_i64(ux * rr, DIR_SCALE);
        let py = cy + div_trunc_i64(uy * rr, DIR_SCALE);
        let vx = div_trunc_i64(-ux * speed, DIR_SCALE);
        let vy = div_trunc_i64(-uy * speed, DIR_SCALE);
        v.push(
            EnemySpawner {
                position: Vec2 { x: px, y: py },
                spawn_speed: SpawnSpeed::Fixed(Vec2 { x: vx, y: vy }),
                logic: EnemySpawnerLogic::Single { enemy: enemies[idx], radius: enemy_radius },
                spawn_at: 0,
            },
        );
        i = i + 1;
    }
    proof {
        assert(v@ =~= formation_spawners(orig));
    }
    v
}

/// Expands a `Spiral` formation: a fixed angular step per index, the radius
/// growing by `spacing` per index, every spawner aimed inward.
fn expand_spiral(
    enemies: Vec<crate::reader::BallEnemy>,
    amount_in_circle: u16,
    amount: u16,
    spacing: i64,
    enemy_radius: i64,
    speed: i64,
) -> (v: Vec<EnemySpawner>)
    requires
        formation_wf(
            Formation::Spiral { enemies, amount_in_circle, amount, spacing, enemy_radius, speed },
        ),
    ensures
        v@ == formation_spawners(
            Formation::Spiral { enemies, amount_in_circle, amount, spacing, enemy_radius, speed },
        ),
        forall|i: int| 0 <= i < v@.len() ==> spawner_fresh(#[trigger] v@[i]),
{
    let ghost orig = Formation::Spiral {
        enemies,
        amount_in_circle,
        amount,
        spacing,
        enemy_radius,
        speed,
    };
    let diag = isqrt_i64(WIDTH * WIDTH + HEIGHT * HEIGHT);
    proof {
        assert(0 <= diag <= 1000) by (nonlinear_arith)
            requires
                diag >= 0,
                (diag as int) * (diag as int) <= 1_000_000,
        ;
        crate::geometry::lemma_div_trunc_abs_le(
            isqrt_val(WIDTH * WIDTH + HEIGHT * HEIGHT),
            2,
            1000,
        );
    }
    let base_r = div_trunc_i64(diag, 2) + enemy_radius;
    let mut v: Vec<EnemySpawner> = Vec::new();
    let mut i: u16 = 0;
    while i < amount
        invariant
            formation_wf(orig),
            orig == (Formation::Spiral {
                enemies,
                amount_in_circle,
                amount,
                spacing,
                enemy_radius,
                speed,
            }),
            base_r as int == circle_radius(None, enemy_radius as int),
            -1_100_000 <= base_r <= 1_100_000,
            v@.len() == i <= amount,
            amount > 0 ==> enemies@.len() > 0,
            forall|k: int|
                0 <= k < i ==> #[trigger] v@[k] == formation_spawner(orig, k) && spawner_fresh(
                    v@[k],
                ),
        decreases amount - i,
    {
        let idx = (i as usize) % enemies.len();
        let theta = if amount_in_circle == 0 {
            0
        } else {
            div_trunc_i64(TURN_MDEG * (i as i64), amount_in_circle as i64)
        };
        proof {
            if amount_in_circle != 0 {
                crate::geometry::lemma_div_trunc_abs_le(
                    TURN_MDEG as int * (i as int),
                    amount_in_circle as int,
                    TURN_MDEG as int * 0x1_0000,
                );
            }
            assert(0 <= (i as int) * spacing <= GEOM_LIMIT) by (nonlinear_arith)
                requires
                    0 <= i < amount <= 0x1_0000,
                    0 <= spacing,
                    (amount as int) * spacing <= GEOM_LIMIT,
            ;
        }
        let c = cos_mdeg_i64(theta);
        let s = sin_mdeg_i64(theta);
        let ux = c;
        let uy = s;
        let rr = base_r + (i as i64) * spacing;
        proof {
            assert(-(DIR_SCALE as int * 2_100_000) <= ux * rr <= DIR_SCALE as int * 2_100_000 && -(
            DIR_SCALE as int * 2_100_000) <= uy * rr <= DIR_SCALE as int * 2_100_000 && -(
            DIR_SCALE as int * GEOM_LIMIT) <= (-ux) * speed <= DIR_SCALE as int * GEOM_LIMIT && -(
            DIR_SCALE as int * GEOM_LIMIT) <= (-uy) * speed <= DIR_SCALE as int * GEOM_LIMIT)
                by (nonlinear_arith)
                requires
                    -DIR_SCALE <= ux <= DIR_SCALE,
                    -DIR_SCALE <= uy <= DIR_SCALE,
                    -2_100_000 <= rr <= 2_100_000,
                    -GEOM_LIMIT <= speed <= GEOM_LIMIT,
            ;
            crate::geometry::lemma_div_trunc_abs_le(ux * rr, DIR_SCALE as int, 2_100_000);
            crate::geometry::lemma_div_trunc_abs_le(uy * rr, DIR_SCALE as int, 2_100_000);
            crate::geometry::lemma_div_trunc_abs_le(
                (-ux) * speed,
                DIR_SCALE as int,
                GEOM_LIMIT as int,
            );
            crate::geometry::lemma_div_trunc_abs_le(
                (-uy) * speed,
                DIR_SCALE as int,
                GEOM_LIMIT as int,
            );
        }
        let px = 400 + div_trunc_i64(ux * rr, DIR_SCALE);
        let py = 300 + div_trunc_i64(uy * rr, DIR_SCALE);
        let vx = div_trunc_i64(-ux * speed, DIR_SCALE);
        let vy = div_trunc_i64(-uy * speed, DIR_SCALE);
        v.push(
            EnemySpawner {
                position: Vec2 { x: px, y: py },
                spawn_speed: SpawnSpeed::Fixed(Vec2 { x: vx, y: vy }),
                logic: EnemySpawnerLogic::Single { enemy: enemies[idx], radius: enemy_radius },
                spawn_at: 0,
            },
        );
        i = i + 1;
    }
    proof {
        assert(v@ =~= formation_spawners(orig));
    }
    v
}

} // verus!
