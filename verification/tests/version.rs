use rusterizer::version::Version;
use std::cmp::Ordering;

#[test]
fn packs_most_significant_first() {
    assert_eq!(Version::new(1, 0, 0).repr(), 0x0040_0000);
    assert_eq!(Version::new(1, 0, 5).repr(), 0x0040_0005);
    assert_eq!(Version::new(0, 1, 0).repr(), 0x0000_1000);
    assert_eq!(Version::new(1023, 1023, 4095).repr(), 0xffff_ffff);
    assert_eq!(Version::new(0, 0, 0).repr(), 0);
    assert_eq!(Version::new(2, 3, 4).repr(), (2 << 22) | (3 << 12) | 4);
}

#[test]
fn unpacks_what_was_packed() {
    let triples: [(u16, u16, u16); 6] =
        [(0, 0, 0), (1, 0, 0), (1, 0, 5), (1023, 1023, 4095), (512, 1, 4095), (7, 1023, 0)];
    for (major, minor, patch) in triples {
        let got = Version::new(major, minor, patch).get();
        assert_eq!(got, (major as u32, minor as u32, patch as u32));
    }
}

#[test]
fn unpacks_every_component_of_a_sweep() {
    for major in [0u16, 1, 2, 511, 1023] {
        for minor in [0u16, 1, 500, 1023] {
            for patch in [0u16, 1, 2048, 4095] {
                assert_eq!(
                    Version::new(major, minor, patch).get(),
                    (major as u32, minor as u32, patch as u32)
                );
            }
        }
    }
}

#[test]
fn wraps_a_raw_integer_as_it_is() {
    assert_eq!(Version::from_repr(0xdead_beef).repr(), 0xdead_beef);
    assert_eq!(Version::from_repr(0x0040_0005).get(), (1, 0, 5));
    assert_eq!(Version::from_repr(0xffff_ffff).get(), (1023, 1023, 4095));
    assert_eq!(Version::from_repr(0x0080_3007).get(), (2, 3, 7));
}

#[test]
fn repacking_the_components_gives_the_integer_back() {
    for raw in [0u32, 1, 0x0fff, 0x1000, 0x003f_ffff, 0x0040_0000, 0x1234_5678, 0xffff_ffff] {
        let (major, minor, patch) = Version::from_repr(raw).get();
        assert_eq!(Version::new(major as u16, minor as u16, patch as u16).repr(), raw);
    }
}

#[test]
fn orders_as_the_triples_do() {
    assert!(Version::new(1, 0, 0) < Version::new(1, 0, 1));
    assert!(Version::new(1, 0, 4095) < Version::new(1, 1, 0));
    assert!(Version::new(1, 1023, 4095) < Version::new(2, 0, 0));
    assert!(Version::new(0, 1023, 4095) < Version::new(1, 0, 0));
    assert!(Version::new(2, 0, 0) > Version::new(1, 5, 9));
    assert!(Version::new(1, 2, 3) >= Version::new(1, 2, 3));
    assert!(Version::new(1, 2, 3) <= Version::new(1, 2, 3));
    assert!(!(Version::new(1, 2, 3) < Version::new(1, 2, 3)));
}

#[test]
fn equal_exactly_when_the_integers_are() {
    assert_eq!(Version::new(1, 2, 3), Version::from_repr((1 << 22) | (2 << 12) | 3));
    assert_ne!(Version::new(1, 2, 3), Version::new(1, 2, 4));
    assert_ne!(Version::new(1, 2, 3), Version::new(1, 3, 3));
    assert_ne!(Version::new(1, 2, 3), Version::new(2, 2, 3));
}

#[test]
fn compares_by_the_packed_integer() {
    assert_eq!(Version::new(1, 0, 0).partial_cmp(&Version::new(1, 0, 1)), Some(Ordering::Less));
    assert_eq!(Version::new(1, 0, 1).partial_cmp(&Version::new(1, 0, 1)), Some(Ordering::Equal));
    assert_eq!(Version::new(3, 0, 0).partial_cmp(&Version::new(1, 0, 1)), Some(Ordering::Greater));
}

#[test]
fn supported_window_is_exact_at_both_ends() {
    assert!(Version::new(1, 0, 0).is_supported());
    assert!(Version::new(1, 0, 5).is_supported());
    assert!(Version::new(1, 0, 0xfff).is_supported());
    assert!(!Version::from_repr(0x003f_ffff).is_supported());
    assert!(!Version::from_repr(0x0040_1000).is_supported());
    assert!(!Version::new(1, 1, 0).is_supported());
    assert!(!Version::new(0, 1023, 4095).is_supported());
    assert!(!Version::new(2, 0, 0).is_supported());
    assert!(!Version::from_repr(0).is_supported());
    assert!(!Version::from_repr(u32::MAX).is_supported());
}
