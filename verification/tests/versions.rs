//! Protocol versions and masks.

use windows_sys::Win32::Networking::WinHttp::{
    WINHTTP_FLAG_SECURE_PROTOCOL_SSL2, WINHTTP_FLAG_SECURE_PROTOCOL_SSL3,
    WINHTTP_FLAG_SECURE_PROTOCOL_TLS1, WINHTTP_FLAG_SECURE_PROTOCOL_TLS1_1,
    WINHTTP_FLAG_SECURE_PROTOCOL_TLS1_2, WINHTTP_FLAG_SECURE_PROTOCOL_TLS1_3,
};
use wrest::tls::{protocol_mask, Version, ALL};

const TLS1_0: u32 = WINHTTP_FLAG_SECURE_PROTOCOL_TLS1;
const TLS1_1: u32 = WINHTTP_FLAG_SECURE_PROTOCOL_TLS1_1;
const TLS1_2: u32 = WINHTTP_FLAG_SECURE_PROTOCOL_TLS1_2;
const TLS1_3: u32 = WINHTTP_FLAG_SECURE_PROTOCOL_TLS1_3;

struct Case {
    min: Option<Version>,
    max: Option<Version>,
    expected: Result<Option<u32>, ()>,
    label: &'static str,
}

#[test]
fn versions_are_ordered() {
    assert!(Version::TLS_1_0 < Version::TLS_1_1);
    assert!(Version::TLS_1_1 < Version::TLS_1_2);
    assert!(Version::TLS_1_2 < Version::TLS_1_3);
    assert_eq!(Version::TLS_1_2, Version::TLS_1_2);
}

#[test]
fn versions_are_shown_by_name() {
    assert_eq!(format!("{:?}", Version::TLS_1_0), "Version(Tls1_0)");
    assert_eq!(format!("{:?}", Version::TLS_1_1), "Version(Tls1_1)");
    assert_eq!(format!("{:?}", Version::TLS_1_2), "Version(Tls1_2)");
    assert_eq!(format!("{:?}", Version::TLS_1_3), "Version(Tls1_3)");
    assert_eq!(format!("{:?}", Some(Version::TLS_1_3)), "Some(Version(Tls1_3))");
    assert_eq!(format!("{:#?}", Version::TLS_1_2), "Version(\n    Tls1_2,\n)");
    assert_eq!(
        format!("{:#?}", Some(Version::TLS_1_2)),
        "Some(\n    Version(\n        Tls1_2,\n    ),\n)"
    );
}

#[test]
fn the_two_orders_agree() {
    for a in ALL {
        for b in ALL {
            assert_eq!(a.partial_cmp(&b), Some(a.cmp(&b)));
        }
    }
}

#[test]
fn protocol_mask_table() {
    let cases = [
        Case {
            min: None,
            max: None,
            expected: Ok(None),
            label: "unset -- system default",
        },
        Case {
            min: Some(Version::TLS_1_2),
            max: None,
            expected: Ok(Some(TLS1_2 | TLS1_3)),
            label: "min only -- ceiling is TLS 1.3",
        },
        Case {
            min: Some(Version::TLS_1_3),
            max: None,
            expected: Ok(Some(TLS1_3)),
            label: "TLS 1.3 only",
        },
        Case {
            min: None,
            max: Some(Version::TLS_1_2),
            expected: Ok(Some(TLS1_2)),
            label: "max only -- floor stays at TLS 1.2",
        },
        Case {
            min: None,
            max: Some(Version::TLS_1_1),
            expected: Ok(Some(TLS1_0 | TLS1_1)),
            label: "legacy max -- floor drops to TLS 1.0",
        },
        Case {
            min: Some(Version::TLS_1_0),
            max: Some(Version::TLS_1_3),
            expected: Ok(Some(TLS1_0 | TLS1_1 | TLS1_2 | TLS1_3)),
            label: "full range",
        },
        Case {
            min: Some(Version::TLS_1_1),
            max: Some(Version::TLS_1_2),
            expected: Ok(Some(TLS1_1 | TLS1_2)),
            label: "middle range",
        },
        Case {
            min: Some(Version::TLS_1_2),
            max: Some(Version::TLS_1_2),
            expected: Ok(Some(TLS1_2)),
            label: "single version",
        },
        Case {
            min: Some(Version::TLS_1_3),
            max: Some(Version::TLS_1_2),
            expected: Err(()),
            label: "inverted range",
        },
    ];

    for case in cases {
        assert_eq!(protocol_mask(case.min, case.max), case.expected, "{}", case.label);
    }
}

#[test]
fn mask_never_enables_ssl() {
    // SSL 2.0 (0x08) and SSL 3.0 (0x20) must never appear, whatever
    // the range.
    assert_eq!(
        WINHTTP_FLAG_SECURE_PROTOCOL_SSL2 | WINHTTP_FLAG_SECURE_PROTOCOL_SSL3,
        0x28
    );
    for min in ALL {
        for max in ALL {
            if let Ok(Some(mask)) = protocol_mask(Some(min), Some(max)) {
                assert_eq!(mask & 0x28, 0, "SSL bits set for {min:?}..={max:?}");
            }
        }
    }
}

#[test]
fn masks_have_the_bits_of_their_versions() {
    assert_eq!(Version::TLS_1_0.winhttp_flag(), 0x80);
    assert_eq!(Version::TLS_1_1.winhttp_flag(), 0x200);
    assert_eq!(Version::TLS_1_2.winhttp_flag(), 0x800);
    assert_eq!(Version::TLS_1_3.winhttp_flag(), 0x2000);
    assert_eq!(
        protocol_mask(Some(Version::TLS_1_0), None),
        Ok(Some(0x2a80)),
        "min alone reaches up to TLS 1.3"
    );
    assert_eq!(
        protocol_mask(None, Some(Version::TLS_1_3)),
        Ok(Some(0x2800)),
        "max alone leaves TLS 1.0 and 1.1 off"
    );
    assert_eq!(
        protocol_mask(None, Some(Version::TLS_1_0)),
        Ok(Some(0x80)),
        "the lowest maximum"
    );
}

#[test]
fn masks_enable_exactly_the_range_and_fail_only_inverted() {
    for min in ALL {
        for max in ALL {
            match protocol_mask(Some(min), Some(max)) {
                Ok(Some(mask)) => {
                    assert!(min <= max);
                    assert_ne!(mask, 0);
                    for version in ALL {
                        assert_eq!(
                            mask & version.winhttp_flag() != 0,
                            min <= version && version <= max
                        );
                    }
                }
                Ok(None) => panic!("a bounded range has a mask"),
                Err(()) => assert!(min > max),
            }
        }
    }
}
