use psycho_core::placement::line_enemy_positions;
use psycho_core::reader::{ConfigError, HorizontalLinePlacement, VerticalLinePlacement};

#[test]
fn test_enemy_positions() {
    assert_eq!(
        line_enemy_positions(
            -200,
            10,
            2,
            100,
            HorizontalLinePlacement::Distribute { margin: Some(10) }
        )
        .unwrap(),
        vec![(20, -200), (80, -200)],
    );
    assert_eq!(
        line_enemy_positions(
            0,
            10,
            3,
            100,
            HorizontalLinePlacement::V {
                margin: Some(10),
                spacing: 10
            }
        )
        .unwrap(),
        vec![(20, -10), (50, 0), (80, -10)],
    );
}

#[test]
fn distribute_pair_sits_at_margins() {
    let v = line_enemy_positions(
        0,
        10,
        2,
        100,
        HorizontalLinePlacement::Distribute { margin: Some(10) },
    )
    .unwrap();
    assert_eq!(v, vec![(20, 0), (80, 0)]);
}

#[test]
fn zero_amount_is_empty_for_every_placement() {
    let placements = vec![
        HorizontalLinePlacement::Distribute { margin: Some(10) },
        HorizontalLinePlacement::FromLeft {
            margin: Some(10),
            spacing: 5,
        },
        HorizontalLinePlacement::FromRight {
            margin: Some(10),
            spacing: 5,
        },
        HorizontalLinePlacement::V {
            margin: Some(10),
            spacing: 5,
        },
    ];
    for p in placements {
        let v = line_enemy_positions(0, 10, 0, 100, p).unwrap();
        assert!(v.is_empty());
    }
}

#[test]
fn v_placement_rejects_even_amounts() {
    for amount in [2u8, 4, 6, 200] {
        let r = line_enemy_positions(
            0,
            10,
            amount,
            100,
            HorizontalLinePlacement::V {
                margin: Some(10),
                spacing: 10,
            },
        );
        assert_eq!(r.unwrap_err(), ConfigError::EvenAmountInV);
    }
}

#[test]
fn distribute_gaps_are_even() {
    // margin 10, radius 2, extent 100: five circles, all gaps equal 15.
    let v = line_enemy_positions(
        0,
        2,
        5,
        100,
        HorizontalLinePlacement::Distribute { margin: Some(10) },
    )
    .unwrap();
    assert_eq!(v, vec![(12, 0), (31, 0), (50, 0), (69, 0), (88, 0)]);
    for w in v.windows(2) {
        assert_eq!(w[1].0 - w[0].0 - 4, 15);
    }
}

#[test]
fn from_left_and_right_mirror() {
    let left = line_enemy_positions(
        7,
        10,
        3,
        100,
        HorizontalLinePlacement::FromLeft {
            margin: Some(4),
            spacing: 6,
        },
    )
    .unwrap();
    assert_eq!(left, vec![(14, 7), (40, 7), (66, 7)]);
    let right = line_enemy_positions(
        7,
        10,
        3,
        100,
        HorizontalLinePlacement::FromRight {
            margin: Some(4),
            spacing: 6,
        },
    )
    .unwrap();
    assert_eq!(right, vec![(86, 7), (60, 7), (34, 7)]);
}

#[test]
fn single_circle_sits_at_center() {
    let v = line_enemy_positions(
        0,
        10,
        1,
        101,
        HorizontalLinePlacement::Distribute { margin: Some(30) },
    )
    .unwrap();
    assert_eq!(v, vec![(50, 0)]);
}

#[test]
fn placement_conversion_round_trips() {
    let placements = vec![
        VerticalLinePlacement::Distribute { margin: Some(10) },
        VerticalLinePlacement::FromTop {
            margin: None,
            spacing: 5,
        },
        VerticalLinePlacement::FromBottom {
            margin: Some(3),
            spacing: 5,
        },
        VerticalLinePlacement::V {
            margin: Some(1),
            spacing: 2,
        },
    ];
    for p in placements {
        assert_eq!(p.to_horizontal().to_vertical(), p);
    }
    assert_eq!(
        VerticalLinePlacement::Distribute { margin: Some(10) }.to_horizontal(),
        HorizontalLinePlacement::Distribute { margin: Some(10) },
    );
    assert_eq!(
        VerticalLinePlacement::FromTop {
            margin: Some(2),
            spacing: 4
        }
        .to_horizontal(),
        HorizontalLinePlacement::FromLeft {
            margin: Some(2),
            spacing: 4
        },
    );
}
