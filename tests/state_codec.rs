use container_manager::state::{ChildState, DecodeError};
use std::convert::TryFrom;

#[test]
fn childstate_to_u8() {
    assert_eq!(u8::try_from(ChildState::Initial).unwrap(), 0);
    assert_eq!(u8::try_from(ChildState::Created).unwrap(), 1);
    assert_eq!(u8::try_from(ChildState::Started).unwrap(), 2);
    assert_eq!(u8::try_from(ChildState::Stopped).unwrap(), 3);
    assert!(u8::try_from(ChildState::Crashed(0)).is_err());
}

#[test]
fn childstate_from_u8() {
    assert_eq!(ChildState::try_from(0u8).unwrap(), ChildState::Initial);
    assert_eq!(ChildState::try_from(1u8).unwrap(), ChildState::Created);
    assert_eq!(ChildState::try_from(2u8).unwrap(), ChildState::Started);
    assert_eq!(ChildState::try_from(3u8).unwrap(), ChildState::Stopped);
    assert!(ChildState::try_from(4u8).is_err());
}

#[test]
fn childstate_to_isize() {
    assert_eq!(isize::try_from(ChildState::Initial).unwrap(), 0);
    assert_eq!(isize::try_from(ChildState::Created).unwrap(), 1);
    assert_eq!(isize::try_from(ChildState::Started).unwrap(), 2);
    assert_eq!(isize::try_from(ChildState::Stopped).unwrap(), 3);
    assert_eq!(isize::try_from(ChildState::Crashed(0)).unwrap(), 4);

    assert_eq!(
        isize::try_from(ChildState::Crashed(-1)).unwrap(),
        ((-1 as isize) << 4) + 4
    );
    assert_eq!(
        isize::try_from(ChildState::Crashed(10)).unwrap(),
        ((10 as isize) << 4) + 4
    );
}

#[test]
fn childstate_from_isize() {
    assert_eq!(ChildState::try_from(0isize).unwrap(), ChildState::Initial);
    assert_eq!(ChildState::try_from(1isize).unwrap(), ChildState::Created);
    assert_eq!(ChildState::try_from(2isize).unwrap(), ChildState::Started);
    assert_eq!(ChildState::try_from(3isize).unwrap(), ChildState::Stopped);
    assert_eq!(
        ChildState::try_from(4isize).unwrap(),
        ChildState::Crashed(0)
    );

    assert_eq!(
        ChildState::try_from(((-1 as isize) << 4) + 4).unwrap(),
        ChildState::Crashed(-1)
    );
    assert_eq!(
        ChildState::try_from(((10 as isize) << 4) + 4).unwrap(),
        ChildState::Crashed(10)
    );
}

#[test]
fn round_trip_of_every_state() {
    let states = [
        ChildState::Initial,
        ChildState::Created,
        ChildState::Started,
        ChildState::Stopped,
        ChildState::Crashed(0),
        ChildState::Crashed(1),
        ChildState::Crashed(-1),
        ChildState::Crashed(255),
        ChildState::Crashed(-4096),
        ChildState::Crashed(isize::MAX >> 4),
        ChildState::Crashed(isize::MIN >> 4),
    ];
    for s in states.iter() {
        assert_eq!(ChildState::decode(s.encode()), Ok(*s));
    }
}

#[test]
fn invalid_tags_fail_to_decode() {
    for tag in 5isize..16 {
        for high in [0isize, 1, -1, 37, -1000].iter() {
            let v = (high << 4) | tag;
            assert_eq!(ChildState::decode(v), Err(DecodeError { value: v }));
        }
    }
}

#[test]
fn tags_ignore_high_bits() {
    assert_eq!(ChildState::decode(17), Ok(ChildState::Created));
    assert_eq!(ChildState::decode(-13), Ok(ChildState::Stopped));
}

#[test]
fn crash_seven_encodes_to_116() {
    assert_eq!(ChildState::Crashed(7).encode(), 116);
    assert_eq!(ChildState::Crashed(7).encode(), (7 << 4) | 4);
    assert_eq!(ChildState::decode(116), Ok(ChildState::Crashed(7)));
}

#[test]
fn crash_statuses_that_fit() {
    assert!(ChildState::status_fits(0));
    assert!(ChildState::status_fits(-1));
    assert!(ChildState::status_fits(isize::MAX >> 4));
    assert!(!ChildState::status_fits(isize::MAX));
    assert!(!ChildState::status_fits(isize::MIN));
}

#[test]
fn plain_numbers() {
    assert_eq!(ChildState::from_u8(3), Ok(ChildState::Stopped));
    assert_eq!(ChildState::from_u8(200), Err(DecodeError { value: 200 }));
    assert_eq!(ChildState::Crashed(5).to_u8().unwrap_err().status, 5);
}
