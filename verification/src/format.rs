//! The parts of `core::fmt` that debug output is written with.

use vstd::prelude::*;

verus! {

/// `core::fmt::Formatter`: where formatted text is written to.
#[verifier::external_type_specification]
#[verifier::external_body]
pub struct ExFormatter<'a>(core::fmt::Formatter<'a>);

/// `core::fmt::Error`: that writing formatted text failed.
#[verifier::external_type_specification]
#[verifier::external_body]
pub struct ExFormatError(core::fmt::Error);

/// `Formatter::write_str` writes the text to what the formatter writes to.
/// Where the text goes, and whether that succeeds, is not stated.
pub assume_specification<'a>[ core::fmt::Formatter::<'a>::write_str ](
    f: &mut core::fmt::Formatter<'a>,
    data: &str,
) -> (written: core::fmt::Result)
;

/// `Formatter::alternate` tells whether `{:#?}` was asked for in place of
/// `{:?}`.  Which it was is not stated.
pub assume_specification<'a>[ core::fmt::Formatter::<'a>::alternate ](
    f: &core::fmt::Formatter<'a>,
) -> (alternate: bool)
;

} // verus!
