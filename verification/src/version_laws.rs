//! What versions and protocol masks are, told from the functions' arguments
//! and results and from the bits that WinHTTP documents.

use crate::tls::{mask_enables_exactly_the_range, protocol_mask, Version, ALL};
use vstd::prelude::*;

verus! {

/// Each version is enabled by the bit that WinHTTP has for it.
pub proof fn versions_have_their_bits(version: Version, flag: u32)
    requires
        call_ensures(Version::winhttp_flag, (version,), flag),
    ensures
        flag == match version {
            Version::TLS_1_0 => 0x80u32,
            Version::TLS_1_1 => 0x200,
            Version::TLS_1_2 => 0x800,
            Version::TLS_1_3 => 0x2000,
        },
{
}

/// No two versions share a bit.
pub proof fn versions_have_bits_of_their_own(a: Version, b: Version, a_flag: u32, b_flag: u32)
    requires
        call_ensures(Version::winhttp_flag, (a,), a_flag),
        call_ensures(Version::winhttp_flag, (b,), b_flag),
        a != b,
    ensures
        a_flag != 0,
        a_flag & b_flag == 0,
{
    versions_have_their_bits(a, a_flag);
    versions_have_their_bits(b, b_flag);
    assert(a_flag & b_flag == 0) by (bit_vector)
        requires
            a_flag == 0x80 || a_flag == 0x200 || a_flag == 0x800 || a_flag == 0x2000,
            b_flag == 0x80 || b_flag == 0x200 || b_flag == 0x800 || b_flag == 0x2000,
            a_flag != b_flag,
    ;
}

/// Versions compare as their numbers do.
pub proof fn versions_compare_by_number(
    a: Version,
    b: Version,
    order: Option<core::cmp::Ordering>,
)
    requires
        call_ensures(Version::partial_cmp, (&a, &b), order),
    ensures
        ({
            let number = |version: Version|
                (match version {
                    Version::TLS_1_0 => 10int,
                    Version::TLS_1_1 => 11,
                    Version::TLS_1_2 => 12,
                    Version::TLS_1_3 => 13,
                });
            &&& order == Some(core::cmp::Ordering::Less) <==> number(a) < number(b)
            &&& order == Some(core::cmp::Ordering::Equal) <==> number(a) == number(b)
            &&& order == Some(core::cmp::Ordering::Greater) <==> number(a) > number(b)
        }),
{
}

/// Every version that there is can be enabled, and they ascend.
pub proof fn all_versions_ascend(version: Version)
    ensures
        ALL@.len() == 4,
        ALL@ == seq![Version::TLS_1_0, Version::TLS_1_1, Version::TLS_1_2, Version::TLS_1_3],
        ALL@.contains(version),
{
    assert(ALL@[0] == Version::TLS_1_0 && ALL@[1] == Version::TLS_1_1);
    assert(ALL@[2] == Version::TLS_1_2 && ALL@[3] == Version::TLS_1_3);
    assert(ALL@ =~= seq![Version::TLS_1_0, Version::TLS_1_1, Version::TLS_1_2, Version::TLS_1_3]);
}

/// A mask enables a version only between the bounds that are set, and enables
/// the bounds themselves.
///
/// With both bounds set it enables every version between them; with no upper
/// bound, every version from the lower one; with no lower bound, every version
/// up to the upper one, but TLS 1.0 and TLS 1.1 only where the upper bound is
/// one of these.  It has no other bit.
pub proof fn a_mask_keeps_to_the_bounds(
    min: Option<Version>,
    max: Option<Version>,
    mask: u32,
    version: Version,
)
    requires
        call_ensures(protocol_mask, (min, max), Ok(Some(mask))),
    ensures
        ({
            let number = |version: Version|
                (match version {
                    Version::TLS_1_0 => 10int,
                    Version::TLS_1_1 => 11,
                    Version::TLS_1_2 => 12,
                    Version::TLS_1_3 => 13,
                });
            let bit = |version: Version|
                (match version {
                    Version::TLS_1_0 => 0x80u32,
                    Version::TLS_1_1 => 0x200,
                    Version::TLS_1_2 => 0x800,
                    Version::TLS_1_3 => 0x2000,
                });
            let enabled = mask & bit(version) != 0;
            &&& enabled <==> mask & bit(version) == bit(version)
            &&& min matches Some(low) ==> {
                &&& enabled ==> number(low) <= number(version)
                &&& mask & bit(low) == bit(low)
            }
            &&& max matches Some(high) ==> {
                &&& enabled ==> number(version) <= number(high)
                &&& mask & bit(high) == bit(high)
            }
            &&& match (min, max) {
                (Some(low), Some(high)) => enabled <==> number(low) <= number(version) <= number(
                    high,
                ),
                (Some(low), None) => enabled <==> number(low) <= number(version),
                (None, Some(high)) => enabled <==> number(version) <= number(high) && (number(high)
                    >= 12 ==> number(version) >= 12),
                (None, None) => false,
            }
            &&& mask & !0x2a80u32 == 0
            &&& mask & 0x28 == 0
        }),
{
    mask_enables_exactly_the_range(min, max, mask, version);
    if let Some(low) = min {
        mask_enables_exactly_the_range(min, max, mask, low);
    }
    if let Some(high) = max {
        mask_enables_exactly_the_range(min, max, mask, high);
    }
    assert(mask & 0x80 == 0 || mask & 0x80 == 0x80) by (bit_vector);
    assert(mask & 0x200 == 0 || mask & 0x200 == 0x200) by (bit_vector);
    assert(mask & 0x800 == 0 || mask & 0x800 == 0x800) by (bit_vector);
    assert(mask & 0x2000 == 0 || mask & 0x2000 == 0x2000) by (bit_vector);
    assert(mask & !0x2a80u32 == 0 ==> mask & 0x28 == 0) by (bit_vector);
}

/// The option is left alone if and only if no bound is set; and a range fails
/// if and only if both bounds are set and the lower is the greater.
pub proof fn a_mask_is_built_where_the_bounds_allow_one(
    min: Option<Version>,
    max: Option<Version>,
    mask: Result<Option<u32>, ()>,
)
    requires
        call_ensures(protocol_mask, (min, max), mask),
    ensures
        ({
            let number = |version: Version|
                (match version {
                    Version::TLS_1_0 => 10int,
                    Version::TLS_1_1 => 11,
                    Version::TLS_1_2 => 12,
                    Version::TLS_1_3 => 13,
                });
            &&& mask == Ok::<Option<u32>, ()>(None) <==> min is None && max is None
            &&& mask is Err <==> (min matches Some(low) && max matches Some(high) && number(low)
                > number(high))
        }),
{
}

/// Widening a range at either end takes no version away.
pub proof fn a_wider_range_enables_no_less(
    low: Version,
    high: Version,
    wide_low: Version,
    wide_high: Version,
    mask: u32,
    wide_mask: u32,
)
    requires
        call_ensures(protocol_mask, (Some(low), Some(high)), Ok(Some(mask))),
        call_ensures(protocol_mask, (Some(wide_low), Some(wide_high)), Ok(Some(wide_mask))),
        wide_low == low || wide_low is TLS_1_0,
        wide_high == high || wide_high is TLS_1_3,
    ensures
        mask & wide_mask == mask,
{
    let (min, max) = (Some(low), Some(high));
    let (wide_min, wide_max) = (Some(wide_low), Some(wide_high));
    a_mask_keeps_to_the_bounds(min, max, mask, Version::TLS_1_0);
    a_mask_keeps_to_the_bounds(min, max, mask, Version::TLS_1_1);
    a_mask_keeps_to_the_bounds(min, max, mask, Version::TLS_1_2);
    a_mask_keeps_to_the_bounds(min, max, mask, Version::TLS_1_3);
    a_mask_keeps_to_the_bounds(wide_min, wide_max, wide_mask, Version::TLS_1_0);
    a_mask_keeps_to_the_bounds(wide_min, wide_max, wide_mask, Version::TLS_1_1);
    a_mask_keeps_to_the_bounds(wide_min, wide_max, wide_mask, Version::TLS_1_2);
    a_mask_keeps_to_the_bounds(wide_min, wide_max, wide_mask, Version::TLS_1_3);
    assert(mask & wide_mask == mask) by (bit_vector)
        requires
            mask & 0x80 != 0 ==> wide_mask & 0x80 != 0,
            mask & 0x200 != 0 ==> wide_mask & 0x200 != 0,
            mask & 0x800 != 0 ==> wide_mask & 0x800 != 0,
            mask & 0x2000 != 0 ==> wide_mask & 0x2000 != 0,
            mask & !0x2a80u32 == 0,
    ;
}

/// Debug output names the version, on one line or on several.
pub proof fn debug_output_names_the_version(version: Version, pretty: bool, text: &'static str)
    requires
        call_ensures(Version::debug_text, (version, pretty), text),
    ensures
        ({
            let name = match version {
                Version::TLS_1_0 => "Tls1_0"@,
                Version::TLS_1_1 => "Tls1_1"@,
                Version::TLS_1_2 => "Tls1_2"@,
                Version::TLS_1_3 => "Tls1_3"@,
            };
            text@ == if pretty {
                "Version(\n    "@ + name + ",\n)"@
            } else {
                "Version("@ + name + ")"@
            }
        }),
{
    reveal_strlit("Tls1_0");
    reveal_strlit("Tls1_1");
    reveal_strlit("Tls1_2");
    reveal_strlit("Tls1_3");
    reveal_strlit("Version(");
    reveal_strlit(")");
    reveal_strlit("Version(\n    ");
    reveal_strlit(",\n)");
    reveal_strlit("Version(Tls1_0)");
    reveal_strlit("Version(Tls1_1)");
    reveal_strlit("Version(Tls1_2)");
    reveal_strlit("Version(Tls1_3)");
    reveal_strlit("Version(\n    Tls1_0,\n)");
    reveal_strlit("Version(\n    Tls1_1,\n)");
    reveal_strlit("Version(\n    Tls1_2,\n)");
    reveal_strlit("Version(\n    Tls1_3,\n)");
}

} // verus!
