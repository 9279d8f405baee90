use aglet::{Direction4, Direction8, Direction9, Rotation};

#[test]
fn test_spin() {
    for dir4 in Direction4::DIRECTIONS {
        assert_eq!(dir4, dir4.rotate_by(0));
        assert_eq!(dir4, dir4.rotate_by(4));
    }

    for dir8 in Direction8::DIRECTIONS {
        assert_eq!(dir8, dir8.rotate_by(0));
        assert_eq!(dir8, dir8.rotate_by(8));
    }
}

#[test]
fn flip_twice_is_identity() {
    for d in Direction4::DIRECTIONS {
        assert_eq!(d, d.flip().flip());
    }
    for d in Direction8::DIRECTIONS {
        assert_eq!(d, d.flip().flip());
    }
    for d in Direction9::DIRECTIONS {
        assert_eq!(d, d.flip().flip());
    }
}

#[test]
fn flips_point_the_other_way() {
    assert_eq!(Direction4::North.flip(), Direction4::South);
    assert_eq!(Direction4::West.flip(), Direction4::East);
    assert_eq!(Direction8::NorthEast.flip(), Direction8::SouthWest);
    assert_eq!(Direction9::SouthEast.flip(), Direction9::NorthWest);
    assert_eq!(Direction9::Center.flip(), Direction9::Center);
}

#[test]
fn rotate_by_negative_and_large_steps() {
    assert_eq!(Direction4::North.rotate_by(-1), Direction4::West);
    assert_eq!(Direction4::North.rotate_by(-5), Direction4::West);
    assert_eq!(Direction4::East.rotate_by(7), Direction4::North);
    assert_eq!(Direction4::South.rotate_by(i32::MAX), Direction4::East);
    assert_eq!(Direction4::South.rotate_by(i32::MIN), Direction4::South);
    assert_eq!(Direction8::North.rotate_by(-3), Direction8::SouthWest);
    assert_eq!(Direction8::West.rotate_by(i32::MAX), Direction8::SouthWest);
    assert_eq!(Direction8::East.rotate_by(i32::MIN), Direction8::East);
    assert_eq!(Direction9::North.rotate_by(3), Direction9::SouthEast);
    assert_eq!(Direction9::Center.rotate_by(3), Direction9::Center);
}

#[test]
fn rotate_one_step() {
    assert_eq!(Direction4::West.rotate(Rotation::Clockwise), Direction4::North);
    assert_eq!(Direction4::North.rotate(Rotation::CounterClockwise), Direction4::West);
    assert_eq!(Direction8::NorthWest.rotate(Rotation::Clockwise), Direction8::North);
    assert_eq!(Direction8::North.rotate(Rotation::CounterClockwise), Direction8::NorthWest);
    assert_eq!(Direction9::West.rotate(Rotation::Clockwise), Direction9::NorthWest);
    assert_eq!(Direction9::Center.rotate(Rotation::CounterClockwise), Direction9::Center);
    assert_eq!(Rotation::Clockwise.steps_clockwise(), 1);
    assert_eq!(Rotation::CounterClockwise.steps_clockwise(), -1);
}

#[test]
fn ordinals_follow_clockwise_order() {
    for (i, d) in Direction4::DIRECTIONS.iter().enumerate() {
        assert_eq!(d.ordinal(), i);
    }
    for (i, d) in Direction8::DIRECTIONS.iter().enumerate() {
        assert_eq!(d.ordinal(), i);
    }
}

#[test]
fn deltas_are_unit_steps() {
    assert_eq!((Direction4::North.deltas().x, Direction4::North.deltas().y), (0, -1));
    assert_eq!((Direction4::East.deltas().x, Direction4::East.deltas().y), (1, 0));
    assert_eq!((Direction4::South.deltas().x, Direction4::South.deltas().y), (0, 1));
    assert_eq!((Direction4::West.deltas().x, Direction4::West.deltas().y), (-1, 0));
    assert_eq!((Direction8::NorthEast.deltas().x, Direction8::NorthEast.deltas().y), (1, -1));
    assert_eq!((Direction8::SouthWest.deltas().x, Direction8::SouthWest.deltas().y), (-1, 1));
    assert_eq!((Direction9::Center.deltas().x, Direction9::Center.deltas().y), (0, 0));
    assert_eq!((Direction9::NorthWest.deltas().x, Direction9::NorthWest.deltas().y), (-1, -1));
}

#[test]
fn horizontal_and_vertical() {
    assert!(Direction4::East.is_horizontal());
    assert!(Direction4::West.is_horizontal());
    assert!(!Direction4::North.is_horizontal());
    assert!(Direction4::North.is_vertical());
    assert!(Direction4::South.is_vertical());
    assert!(!Direction4::East.is_vertical());
}

#[test]
fn turns_from_east() {
    assert_eq!(Direction4::East.quarter_turns_from_east(), 0);
    assert_eq!(Direction4::South.quarter_turns_from_east(), 1);
    assert_eq!(Direction4::North.quarter_turns_from_east(), 3);
    assert_eq!(Direction8::East.eighth_turns_from_east(), 0);
    assert_eq!(Direction8::North.eighth_turns_from_east(), 6);
    assert_eq!(Direction8::NorthEast.eighth_turns_from_east(), 7);
}

#[test]
fn direction_conversions() {
    assert_eq!(Direction8::from(Direction4::East), Direction8::East);
    assert_eq!(Direction8::from(Direction4::West), Direction8::West);
    assert_eq!(Direction9::from(Direction8::SouthEast), Direction9::SouthEast);
    assert_eq!(Direction8::try_from(Direction9::North), Ok(Direction8::North));
    assert_eq!(Direction8::try_from(Direction9::Center), Err(()));
}
