use dns::record::loc::ORIGIN;
use dns::record::{Direction, Position, Size};

fn position(
    degrees: u32,
    arcminutes: u32,
    arcseconds: u32,
    milliarcseconds: u32,
    direction: Direction,
) -> Position {
    Position { degrees, arcminutes, arcseconds, milliarcseconds, direction }
}

#[test]
fn origin_is_two_to_the_thirty_first() {
    assert_eq!(ORIGIN, 2_147_483_648);
}

#[test]
fn hemisphere_follows_the_side_of_the_origin() {
    for raw in [ORIGIN, ORIGIN + 1, ORIGIN + 3_600_000, 0xdead_beef, u32::MAX] {
        assert_eq!(Position::from_u32(raw, true).direction, Direction::North);
        assert_eq!(Position::from_u32(raw, false).direction, Direction::East);
    }
    for raw in [0, 1, 0x1234_5678, ORIGIN - 3_600_000, ORIGIN - 1] {
        assert_eq!(Position::from_u32(raw, true).direction, Direction::South);
        assert_eq!(Position::from_u32(raw, false).direction, Direction::West);
    }
}

#[test]
fn from_u32_splits_the_offset() {
    assert_eq!(Position::from_u32(ORIGIN, true), position(0, 0, 0, 0, Direction::North));
    assert_eq!(Position::from_u32(ORIGIN + 999, true), position(0, 0, 0, 999, Direction::North));
    assert_eq!(Position::from_u32(ORIGIN + 1000, true), position(0, 0, 1, 0, Direction::North));
    assert_eq!(Position::from_u32(ORIGIN + 59_999, false), position(0, 0, 59, 999, Direction::East));
    assert_eq!(Position::from_u32(ORIGIN + 60_000, false), position(0, 1, 0, 0, Direction::East));
    assert_eq!(
        Position::from_u32(ORIGIN + 3_599_999, false),
        position(0, 59, 59, 999, Direction::East)
    );
    assert_eq!(Position::from_u32(ORIGIN + 3_600_000, false), position(1, 0, 0, 0, Direction::East));
    assert_eq!(Position::from_u32(ORIGIN - 3_600_000, false), position(1, 0, 0, 0, Direction::West));
    assert_eq!(
        Position::from_u32(ORIGIN + 90 * 3_600_000, true),
        position(90, 0, 0, 0, Direction::North)
    );
    assert_eq!(
        Position::from_u32(ORIGIN - 180 * 3_600_000, false),
        position(180, 0, 0, 0, Direction::West)
    );
    assert_eq!(Position::from_u32(2332896396, true), position(51, 30, 12, 748, Direction::North));
    assert_eq!(Position::from_u32(2147024037, false), position(0, 7, 39, 611, Direction::West));
}

#[test]
fn from_u32_takes_every_number() {
    assert_eq!(Position::from_u32(0, true), position(596, 31, 23, 648, Direction::South));
    assert_eq!(Position::from_u32(0, false), position(596, 31, 23, 648, Direction::West));
    assert_eq!(Position::from_u32(1, true), position(596, 31, 23, 647, Direction::South));
    assert_eq!(Position::from_u32(u32::MAX, true), position(596, 31, 23, 647, Direction::North));
    assert_eq!(Position::from_u32(u32::MAX, false), position(596, 31, 23, 647, Direction::East));
}

#[test]
fn mirrored_numbers_differ_in_direction_alone() {
    for distance in [1u32, 999, 1000, 611, 459_611, 185_412_748, ORIGIN - 1] {
        for vertical in [true, false] {
            let above = Position::from_u32(ORIGIN + distance, vertical);
            let below = Position::from_u32(ORIGIN - distance, vertical);
            assert_ne!(above.direction, below.direction);
            assert_eq!(Position { direction: above.direction, ..below }, above);
        }
    }
}

#[test]
fn fields_add_up_to_the_offset() {
    for raw in [0u32, 1, 0x1234_5678, ORIGIN - 1, ORIGIN, ORIGIN + 1, 0xdead_beef, u32::MAX] {
        let p = Position::from_u32(raw, true);
        assert!(p.arcminutes < 60);
        assert!(p.arcseconds < 60);
        assert!(p.milliarcseconds < 1000);
        assert!(p.degrees <= 596);
        let offset = ((p.degrees as u64 * 60 + p.arcminutes as u64) * 60 + p.arcseconds as u64)
            * 1000
            + p.milliarcseconds as u64;
        let expected = if raw >= ORIGIN { raw - ORIGIN } else { ORIGIN - raw };
        assert_eq!(offset, expected as u64);
    }
}

#[test]
fn size_splits_a_byte_into_nibbles() {
    assert_eq!(Size::from_u8(0x32), Size { base: 3, power_of_ten: 2 });
    assert_eq!(Size::from_u8(0x00), Size { base: 0, power_of_ten: 0 });
    assert_eq!(Size::from_u8(0x0f), Size { base: 0, power_of_ten: 15 });
    assert_eq!(Size::from_u8(0xf0), Size { base: 15, power_of_ten: 0 });
    assert_eq!(Size::from_u8(0xff), Size { base: 15, power_of_ten: 15 });
    assert_eq!(Size::from_u8(0x12), Size { base: 1, power_of_ten: 2 });
    for bits in 0..=255u8 {
        let size = Size::from_u8(bits);
        assert_eq!(size.base * 16 + size.power_of_ten, bits);
        assert!(size.power_of_ten < 16);
    }
}
