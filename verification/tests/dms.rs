use dms_coordinates::{Bearing, DMS};

#[test]
fn test_from_azimuth() {
    assert_eq!(
        DMS::from_azimuth((135, 0, 0.0)),
        DMS {
            degrees: 45,
            minutes: 0,
            seconds: 0.0,
            bearing: Bearing::SouthEast,
        });
    assert_eq!(
        DMS::from_azimuth((270, 0, 0.0)),
        DMS {
            degrees: 90,
            minutes: 0,
            seconds: 0.0,
            bearing: Bearing::NorthWest,
        });
}

#[test]
fn from_azimuth_quadrants() {
    assert_eq!(DMS::from_azimuth((45, 10, 1.5)), DMS::new(45, 10, 1.5, Bearing::NorthEast));
    assert_eq!(DMS::from_azimuth((90, 0, 0.0)), DMS::new(90, 0, 0.0, Bearing::SouthEast));
    assert_eq!(DMS::from_azimuth((180, 0, 0.0)), DMS::new(0, 0, 0.0, Bearing::SouthWest));
    assert_eq!(DMS::from_azimuth((200, 5, 2.0)), DMS::new(20, 5, 2.0, Bearing::SouthWest));
    assert_eq!(DMS::from_azimuth((360, 0, 0.0)), DMS::new(0, 0, 0.0, Bearing::NorthWest));
    for d in 0..=360 {
        let a = DMS::from_azimuth((d, 0, 0.0));
        assert!(0 <= a.degrees && a.degrees <= 90);
    }
}

#[test]
fn new_keeps_its_parts() {
    let d = DMS::new(40, 43, 50.196_f64, Bearing::North);
    assert_eq!(d.degrees, 40);
    assert_eq!(d.minutes, 43);
    assert_eq!(d.seconds, 50.196);
    assert_eq!(d.bearing, Bearing::North);
}

#[test]
fn to_azimuth_values() {
    assert_eq!(DMS::new(45, 30, 1.0, Bearing::SouthEast).to_azimuth(), (135, 30, 1.0));
    assert_eq!(DMS::new(20, 0, 0.0, Bearing::SouthWest).to_azimuth(), (200, 0, 0.0));
    assert_eq!(DMS::new(90, 0, 0.0, Bearing::NorthWest).to_azimuth(), (270, 0, 0.0));
    assert_eq!(DMS::new(10, 2, 3.0, Bearing::NorthEast).to_azimuth(), (10, 2, 3.0));
    assert_eq!(DMS::new(10, 2, 3.0, Bearing::North).to_azimuth(), (10, 2, 3.0));
}

#[test]
fn azimuth_round_trip() {
    for d in -400..800 {
        let a = DMS::from_azimuth((d, 7, 0.25));
        assert_eq!(a.to_azimuth(), (d, 7, 0.25));
    }
    for (d, b) in [(10, Bearing::NorthEast), (90, Bearing::SouthEast), (0, Bearing::SouthWest), (0, Bearing::NorthWest)] {
        let x = DMS::new(d, 1, 2.0, b);
        let (az, m, s) = x.clone().to_azimuth();
        assert_eq!(DMS::from_azimuth((az, m, s)), x);
    }
}

#[test]
fn add_values() {
    // 170° + 20°, 30' + 40' plus a carried minute: 191°11', South-West 11°.
    let x = DMS::new(10, 30, 1.0, Bearing::SouthEast);
    let y = DMS::new(20, 40, 2.0, Bearing::NorthEast);
    assert_eq!(x.add_with_seconds(y, 3.0, true), DMS::new(11, 11, 3.0, Bearing::SouthWest));
    // 10° + 20°, 10' + 20': North-East 30°30'.
    let x = DMS::new(10, 10, 0.0, Bearing::NorthEast);
    let y = DMS::new(20, 20, 0.0, Bearing::NorthEast);
    assert_eq!(x.add_with_seconds(y, 0.0, false), DMS::new(30, 30, 0.0, Bearing::NorthEast));
    // exactly 60 minutes stay minutes
    let x = DMS::new(1, 30, 0.0, Bearing::NorthEast);
    let y = DMS::new(1, 30, 0.0, Bearing::NorthEast);
    assert_eq!(x.add_with_seconds(y, 0.0, false), DMS::new(2, 60, 0.0, Bearing::NorthEast));
    // 350° + 20° wraps around to 10°.
    let x = DMS::new(10, 0, 0.0, Bearing::NorthWest);
    let y = DMS::new(20, 0, 0.0, Bearing::NorthEast);
    assert_eq!(x.add_with_seconds(y, 0.0, false), DMS::new(10, 0, 0.0, Bearing::NorthEast));
}

#[test]
fn checked_add_values() {
    let x = DMS::new(10, 30, 1.0, Bearing::SouthEast);
    let y = DMS::new(20, 40, 2.0, Bearing::NorthEast);
    assert_eq!(x.checked_add_with_seconds(y, 3.0, true), Some(DMS::new(11, 11, 3.0, Bearing::SouthWest)));
    let x = DMS::new(0, i32::MAX, 0.0, Bearing::NorthEast);
    let y = DMS::new(0, i32::MAX, 0.0, Bearing::NorthEast);
    assert_eq!(x.checked_add_with_seconds(y, 0.0, false), None);
    // the minutes of an i32::MAX + 60 sum still fit once 60 is taken off
    let x = DMS::new(0, i32::MAX, 0.0, Bearing::NorthEast);
    let y = DMS::new(0, 60, 0.0, Bearing::NorthEast);
    assert_eq!(x.checked_add_with_seconds(y, 0.0, false), Some(DMS::new(1, i32::MAX, 0.0, Bearing::NorthEast)));
}

#[test]
fn add_commutes() {
    let x = DMS::new(10, 30, 1.0, Bearing::SouthEast);
    let y = DMS::new(20, 40, 2.0, Bearing::NorthWest);
    assert_eq!(
        x.clone().add_with_seconds(y.clone(), 3.0, true),
        y.add_with_seconds(x, 3.0, true)
    );
}

#[test]
fn add_zero() {
    let zero = DMS::new(0, 0, 0.0, Bearing::NorthEast);
    for x in [
        DMS::new(12, 34, 5.0, Bearing::NorthEast),
        DMS::new(12, 34, 5.0, Bearing::SouthEast),
        DMS::new(12, 34, 5.0, Bearing::SouthWest),
        DMS::new(12, 34, 5.0, Bearing::NorthWest),
    ] {
        let s = x.seconds;
        assert_eq!(x.clone().add_with_seconds(zero.clone(), s, false), x);
    }
}

#[test]
fn sub_values() {
    // 10° - 20° wraps around to 350°: North-West 10°.
    let p = DMS::new(10, 0, 0.0, Bearing::NorthEast);
    let q = DMS::new(20, 0, 0.0, Bearing::NorthEast);
    assert_eq!(p.sub_with_seconds(q, 0.0, -1.0), DMS::new(10, 0, 0.0, Bearing::NorthWest));
    // 30°10' - 10°20': the minutes -10' become 60 + 10 = 70' and a second
    // is taken off; the degrees stay 20.
    let p = DMS::new(30, 10, 5.0, Bearing::NorthEast);
    let q = DMS::new(10, 20, 0.0, Bearing::NorthEast);
    assert_eq!(p.sub_with_seconds(q, 5.0, 4.0), DMS::new(20, 70, 4.0, Bearing::NorthEast));
    // 200° - 20°, 40' - 10': 180°30', South-West 0°30'.
    let p = DMS::new(20, 40, 5.0, Bearing::SouthWest);
    let q = DMS::new(20, 10, 5.0, Bearing::NorthEast);
    assert_eq!(p.sub_with_seconds(q, 0.0, -1.0), DMS::new(0, 30, 0.0, Bearing::SouthWest));
}

#[test]
fn checked_sub_values() {
    let p = DMS::new(10, 0, 0.0, Bearing::NorthEast);
    let q = DMS::new(20, 0, 0.0, Bearing::NorthEast);
    assert_eq!(p.checked_sub_with_seconds(q, 0.0, -1.0), Some(DMS::new(10, 0, 0.0, Bearing::NorthWest)));
    let p = DMS::new(0, i32::MAX, 0.0, Bearing::NorthEast);
    let q = DMS::new(0, -1, 0.0, Bearing::NorthEast);
    assert_eq!(p.checked_sub_with_seconds(q, 0.0, -1.0), None);
    let p = DMS::new(0, -1, 0.0, Bearing::NorthEast);
    let q = DMS::new(0, i32::MAX, 0.0, Bearing::NorthEast);
    assert_eq!(p.checked_sub_with_seconds(q, 0.0, -1.0), None);
}

#[test]
fn sub_itself() {
    let x = DMS::new(33, 51, 45.36, Bearing::SouthWest);
    assert_eq!(x.clone().sub_with_seconds(x, 0.0, -1.0), DMS::new(0, 0, 0.0, Bearing::NorthEast));
}

#[test]
fn add_then_sub() {
    for (a, b) in [
        (DMS::new(12, 20, 0.0, Bearing::NorthEast), DMS::new(30, 15, 0.0, Bearing::NorthEast)),
        (DMS::new(12, 20, 0.0, Bearing::SouthWest), DMS::new(80, 40, 0.0, Bearing::NorthWest)),
        (DMS::new(90, 0, 0.0, Bearing::NorthWest), DMS::new(5, 0, 0.0, Bearing::SouthEast)),
    ] {
        let r = a.clone().add_with_seconds(b.clone(), 0.0, false).sub_with_seconds(b, 0.0, -1.0);
        assert_eq!(r, a);
    }
}

#[test]
fn results_stay_in_range() {
    let bearings = [Bearing::North, Bearing::NorthEast, Bearing::SouthEast, Bearing::South,
        Bearing::SouthWest, Bearing::West, Bearing::NorthWest, Bearing::East];
    for b0 in bearings {
        for b1 in bearings {
            for d in [-500, -1, 0, 45, 90, 400] {
                let x = DMS::new(d, 10, 0.0, b0);
                let y = DMS::new(37, 55, 0.0, b1);
                let s = x.clone().add_with_seconds(y.clone(), 0.0, true);
                assert!(0 <= s.degrees && s.degrees <= 90);
                let t = x.sub_with_seconds(y, 0.0, -1.0);
                assert!(0 <= t.degrees && t.degrees <= 90);
            }
        }
    }
}

#[test]
fn checked_to_azimuth_values() {
    assert_eq!(DMS::new(45, 30, 1.0, Bearing::SouthEast).checked_to_azimuth(), Some((135, 30, 1.0)));
    assert_eq!(DMS::new(i32::MAX, 0, 0.0, Bearing::SouthWest).checked_to_azimuth(), None);
    assert_eq!(DMS::new(i32::MIN, 0, 0.0, Bearing::NorthWest).checked_to_azimuth(), None);
}
