//! TLS configuration types.
//!
//! [`Version`] bounds the protocol versions that WinHTTP may negotiate;
//! [`protocol_mask`] turns the bounds into the mask it is configured with.
//! [`Identity`] is a client certificate for mutual TLS.

use crate::abi;
use crate::abi::cert::{duplicate_cert_context, free_cert_context, hex, hex_thumbprint};
use crate::abi::crypt32::{Call, CallView};
use crate::abi::lookup::{find_cert_by_sha1, LookupView, StoreLookup};
use crate::error::{Error, ErrorView};
use vstd::prelude::*;
use vstd::std_specs::cmp::PartialOrdSpec;
use windows_sys::Win32::Networking::WinHttp::{
    WINHTTP_FLAG_SECURE_PROTOCOL_TLS1, WINHTTP_FLAG_SECURE_PROTOCOL_TLS1_1,
    WINHTTP_FLAG_SECURE_PROTOCOL_TLS1_2, WINHTTP_FLAG_SECURE_PROTOCOL_TLS1_3,
};

verus! {

/// The value of `windows_sys`'s `WINHTTP_FLAG_SECURE_PROTOCOL_TLS1`.
#[verifier::external_body]
fn flag_tls1() -> (flag: u32)
    ensures
        flag == 0x80,
{
    WINHTTP_FLAG_SECURE_PROTOCOL_TLS1
}

/// The value of `windows_sys`'s `WINHTTP_FLAG_SECURE_PROTOCOL_TLS1_1`.
#[verifier::external_body]
fn flag_tls1_1() -> (flag: u32)
    ensures
        flag == 0x200,
{
    WINHTTP_FLAG_SECURE_PROTOCOL_TLS1_1
}

/// The value of `windows_sys`'s `WINHTTP_FLAG_SECURE_PROTOCOL_TLS1_2`.
#[verifier::external_body]
fn flag_tls1_2() -> (flag: u32)
    ensures
        flag == 0x800,
{
    WINHTTP_FLAG_SECURE_PROTOCOL_TLS1_2
}

/// The value of `windows_sys`'s `WINHTTP_FLAG_SECURE_PROTOCOL_TLS1_3`.
#[verifier::external_body]
fn flag_tls1_3() -> (flag: u32)
    ensures
        flag == 0x2000,
{
    WINHTTP_FLAG_SECURE_PROTOCOL_TLS1_3
}

/// A TLS protocol version that WinHTTP can be asked to enable.
///
/// Values are ordered, so `Version::TLS_1_2 < Version::TLS_1_3`.  SSL 2.0 and
/// SSL 3.0 have no value: modern SChannel refuses them.
#[allow(non_camel_case_types)]
#[non_exhaustive]
#[derive(Clone, Copy, PartialEq, Eq, Ord, Structural)]
pub enum Version {
    /// Version 1.0 of the TLS protocol.
    TLS_1_0,
    /// Version 1.1 of the TLS protocol.
    TLS_1_1,
    /// Version 1.2 of the TLS protocol.
    TLS_1_2,
    /// Version 1.3 of the TLS protocol.
    TLS_1_3,
}

impl Version {
    /// The minor version number: the order of versions is the order of these.
    pub open spec fn minor(self) -> int {
        match self {
            Version::TLS_1_0 => 0,
            Version::TLS_1_1 => 1,
            Version::TLS_1_2 => 2,
            Version::TLS_1_3 => 3,
        }
    }

    /// The bit that stands for this version in a protocol mask.
    pub open spec fn flag(self) -> u32 {
        match self {
            Version::TLS_1_0 => 0x80,
            Version::TLS_1_1 => 0x200,
            Version::TLS_1_2 => 0x800,
            Version::TLS_1_3 => 0x2000,
        }
    }

    /// The minor version number.
    fn minor_number(self) -> (minor: u8)
        ensures
            minor == self.minor(),
    {
        match self {
            Version::TLS_1_0 => 0,
            Version::TLS_1_1 => 1,
            Version::TLS_1_2 => 2,
            Version::TLS_1_3 => 3,
        }
    }

    /// The `WINHTTP_FLAG_SECURE_PROTOCOL_*` bit for this version.
    pub fn winhttp_flag(self) -> (flag: u32)
        ensures
            flag == self.flag(),
    {
        match self {
            Version::TLS_1_0 => flag_tls1(),
            Version::TLS_1_1 => flag_tls1_1(),
            Version::TLS_1_2 => flag_tls1_2(),
            Version::TLS_1_3 => flag_tls1_3(),
        }
    }
}

impl Version {
    /// What debug output says of a version, on one line or on several.
    pub open spec fn debug(self, pretty: bool) -> Seq<char> {
        match (self, pretty) {
            (Version::TLS_1_0, false) => "Version(Tls1_0)"@,
            (Version::TLS_1_1, false) => "Version(Tls1_1)"@,
            (Version::TLS_1_2, false) => "Version(Tls1_2)"@,
            (Version::TLS_1_3, false) => "Version(Tls1_3)"@,
            (Version::TLS_1_0, true) => "Version(\n    Tls1_0,\n)"@,
            (Version::TLS_1_1, true) => "Version(\n    Tls1_1,\n)"@,
            (Version::TLS_1_2, true) => "Version(\n    Tls1_2,\n)"@,
            (Version::TLS_1_3, true) => "Version(\n    Tls1_3,\n)"@,
        }
    }

    /// Debug output, on one line or on several.
    pub fn debug_text(self, pretty: bool) -> (text: &'static str)
        ensures
            text@ == self.debug(pretty),
    {
        match (self, pretty) {
            (Version::TLS_1_0, false) => "Version(Tls1_0)",
            (Version::TLS_1_1, false) => "Version(Tls1_1)",
            (Version::TLS_1_2, false) => "Version(Tls1_2)",
            (Version::TLS_1_3, false) => "Version(Tls1_3)",
            (Version::TLS_1_0, true) => "Version(\n    Tls1_0,\n)",
            (Version::TLS_1_1, true) => "Version(\n    Tls1_1,\n)",
            (Version::TLS_1_2, true) => "Version(\n    Tls1_2,\n)",
            (Version::TLS_1_3, true) => "Version(\n    Tls1_3,\n)",
        }
    }
}

impl core::fmt::Debug for Version {
    fn fmt(&self, f: &mut core::fmt::Formatter<'_>) -> (written: core::fmt::Result) {
        let pretty = f.alternate();
        f.write_str(self.debug_text(pretty))
    }
}

impl PartialOrd for Version {
    fn partial_cmp(&self, other: &Self) -> (order: Option<core::cmp::Ordering>) {
        let own: u8 = self.minor_number();
        let others: u8 = other.minor_number();
        if own < others {
            Some(core::cmp::Ordering::Less)
        } else if own == others {
            Some(core::cmp::Ordering::Equal)
        } else {
            Some(core::cmp::Ordering::Greater)
        }
    }
}

impl vstd::std_specs::cmp::PartialOrdSpecImpl for Version {
    open spec fn obeys_partial_cmp_spec() -> bool {
        true
    }

    open spec fn partial_cmp_spec(&self, other: &Self) -> Option<core::cmp::Ordering> {
        if self.minor() < other.minor() {
            Some(core::cmp::Ordering::Less)
        } else if self.minor() == other.minor() {
            Some(core::cmp::Ordering::Equal)
        } else {
            Some(core::cmp::Ordering::Greater)
        }
    }
}

/// Every version that can be enabled, ascending.
pub const ALL: [Version; 4] = [
    Version::TLS_1_0,
    Version::TLS_1_1,
    Version::TLS_1_2,
    Version::TLS_1_3,
];

/// Whether `version` lies in the range from `low` to `high`, both included.
pub open spec fn in_range(version: Version, low: Version, high: Version) -> bool {
    low.minor() <= version.minor() <= high.minor()
}

/// What `version` contributes to the mask of a range.
pub open spec fn contribution(version: Version, low: Version, high: Version) -> u32 {
    if in_range(version, low, high) {
        version.flag()
    } else {
        0
    }
}

/// The mask of exactly the versions from `low` to `high`, both included.
pub open spec fn range_mask(low: Version, high: Version) -> u32 {
    contribution(Version::TLS_1_0, low, high) | contribution(Version::TLS_1_1, low, high)
        | contribution(Version::TLS_1_2, low, high) | contribution(Version::TLS_1_3, low, high)
}

/// The highest version that the bounds allow: TLS 1.3 where none is set.
pub open spec fn highest(max: Option<Version>) -> Version {
    match max {
        Some(version) => version,
        None => Version::TLS_1_3,
    }
}

/// The lowest version that the bounds allow.
///
/// Without a lower bound that is TLS 1.2, or TLS 1.0 where the upper bound
/// lies below TLS 1.2.
pub open spec fn lowest(min: Option<Version>, max: Option<Version>) -> Version {
    match min {
        Some(version) => version,
        None => if highest(max).minor() >= Version::TLS_1_2.minor() {
            Version::TLS_1_2
        } else {
            Version::TLS_1_0
        },
    }
}

/// Whether both bounds are set and the lower one lies above the upper one.
pub open spec fn inverted(min: Option<Version>, max: Option<Version>) -> bool {
    match (min, max) {
        (Some(low), Some(high)) => low.minor() > high.minor(),
        _ => false,
    }
}

/// The protocol mask for a version range.
pub open spec fn mask_for(min: Option<Version>, max: Option<Version>) -> Result<Option<u32>, ()> {
    if min is None && max is None {
        Ok(None)
    } else if inverted(min, max) {
        Err(())
    } else {
        Ok(Some(range_mask(lowest(min, max), highest(max))))
    }
}

/// The mask of the first `count` versions of [`ALL`], as far as in range.
spec fn partial_mask(low: Version, high: Version, count: nat) -> u32
    decreases count,
{
    if count == 0 {
        0
    } else {
        partial_mask(low, high, (count - 1) as nat) | contribution(
            ALL@[count - 1],
            low,
            high,
        )
    }
}

proof fn lemma_partial_mask_is_range_mask(low: Version, high: Version)
    ensures
        partial_mask(low, high, 4) == range_mask(low, high),
{
    reveal_with_fuel(partial_mask, 5);
    let first = contribution(Version::TLS_1_0, low, high);
    assert(0u32 | first == first) by (bit_vector);
}

/// Build the `WINHTTP_OPTION_SECURE_PROTOCOLS` mask for a version range.
///
/// Returns `None` when neither bound is set: the caller then leaves the
/// option untouched and WinHTTP keeps the system default.
///
/// The option is an explicit allowlist, so a one-sided range still names a
/// full set of versions.  With only `max` set the floor is TLS 1.2, so that
/// pinning a maximum never re-enables TLS 1.0 or 1.1; if `max` is itself
/// below TLS 1.2 the floor is TLS 1.0.  With only `min` set the ceiling is
/// TLS 1.3.
///
/// # Errors
///
/// Returns `Err(())` if `min > max`, which would enable nothing at all.
pub fn protocol_mask(min: Option<Version>, max: Option<Version>) -> (mask: Result<Option<u32>, ()>)
    ensures
        mask == mask_for(min, max),
{
    if min.is_none() && max.is_none() {
        return Ok(None);
    }
    let high = match max {
        Some(version) => version,
        None => Version::TLS_1_3,
    };
    let low = match min {
        Some(version) => version,
        None => if high >= Version::TLS_1_2 {
            Version::TLS_1_2
        } else {
            Version::TLS_1_0
        },
    };
    if low > high {
        return Err(());
    }
    let mut mask: u32 = 0;
    let mut next: usize = 0;
    while next < 4
        invariant
            next <= 4,
            mask == partial_mask(low, high, next as nat),
        decreases 4 - next,
    {
        let version = ALL[next];
        if version >= low && version <= high {
            mask = mask | version.winhttp_flag();
        } else {
            assert(mask | 0u32 == mask) by (bit_vector);
        }
        next = next + 1;
    }
    proof {
        lemma_partial_mask_is_range_mask(low, high);
    }
    Ok(Some(mask))
}

/// What the four contributions to a mask leave of it under other masks.
proof fn lemma_mask_bits(first: u32, second: u32, third: u32, fourth: u32)
    by (bit_vector)
    requires
        first == 0 || first == 0x80,
        second == 0 || second == 0x200,
        third == 0 || third == 0x800,
        fourth == 0 || fourth == 0x2000,
    ensures
        (first | second | third | fourth) & 0x80 == first,
        (first | second | third | fourth) & 0x200 == second,
        (first | second | third | fourth) & 0x800 == third,
        (first | second | third | fourth) & 0x2000 == fourth,
        (first | second | third | fourth) & 0x280 == first | second,
        (first | second | third | fourth) & 0x28 == 0,
        (first | second | third | fourth) & !0x2a80u32 == 0,
{
}

proof fn lemma_range_mask_bits(low: Version, high: Version)
    ensures
        forall|version: Version|
            range_mask(low, high) & #[trigger] version.flag() == contribution(version, low, high),
        range_mask(low, high) & 0x280 == contribution(Version::TLS_1_0, low, high) | contribution(
            Version::TLS_1_1,
            low,
            high,
        ),
        range_mask(low, high) & 0x28 == 0,
        range_mask(low, high) & !0x2a80u32 == 0,
{
    lemma_mask_bits(
        contribution(Version::TLS_1_0, low, high),
        contribution(Version::TLS_1_1, low, high),
        contribution(Version::TLS_1_2, low, high),
        contribution(Version::TLS_1_3, low, high),
    );
}

/// Versions are totally ordered: of two, each is less than, equal to or
/// greater than the other, equal only if they are the same; and the order is
/// transitive.
pub proof fn versions_are_totally_ordered(a: Version, b: Version, c: Version)
    ensures
        a.partial_cmp_spec(&b) is Some,
        a.partial_cmp_spec(&b) == Some(core::cmp::Ordering::Equal) <==> a == b,
        a.partial_cmp_spec(&b) == Some(core::cmp::Ordering::Less) <==> b.partial_cmp_spec(&a)
            == Some(core::cmp::Ordering::Greater),
        a.partial_cmp_spec(&b) == Some(core::cmp::Ordering::Less) && b.partial_cmp_spec(&c)
            == Some(core::cmp::Ordering::Less) ==> a.partial_cmp_spec(&c) == Some(
            core::cmp::Ordering::Less,
        ),
{
}

/// A mask enables exactly the versions in the range of its bounds, and sets
/// no bit that does not stand for a version.
pub proof fn mask_enables_exactly_the_range(
    min: Option<Version>,
    max: Option<Version>,
    mask: u32,
    version: Version,
)
    requires
        mask_for(min, max) == Ok::<Option<u32>, ()>(Some(mask)),
    ensures
        mask & version.flag() == version.flag() <==> in_range(
            version,
            lowest(min, max),
            highest(max),
        ),
        mask & !0x2a80u32 == 0,
{
    lemma_range_mask_bits(lowest(min, max), highest(max));
}

/// The bits of SSL 2.0 (0x08) and SSL 3.0 (0x20) are never set.
pub proof fn mask_never_enables_ssl(min: Option<Version>, max: Option<Version>, mask: u32)
    requires
        mask_for(min, max) == Ok::<Option<u32>, ()>(Some(mask)),
    ensures
        mask & 0x28 == 0,
{
    lemma_range_mask_bits(lowest(min, max), highest(max));
}

/// A mask enables at least one version: its highest and its lowest.
pub proof fn mask_is_never_empty(min: Option<Version>, max: Option<Version>, mask: u32)
    requires
        mask_for(min, max) == Ok::<Option<u32>, ()>(Some(mask)),
    ensures
        mask != 0,
        mask & highest(max).flag() == highest(max).flag(),
        mask & lowest(min, max).flag() == lowest(min, max).flag(),
{
    lemma_range_mask_bits(lowest(min, max), highest(max));
    let flag = highest(max).flag();
    assert(0u32 & flag == 0) by (bit_vector);
}

/// Pinning a maximum alone re-enables neither TLS 1.0 nor TLS 1.1, unless
/// the maximum is itself below TLS 1.2, which enables everything up to it.
pub proof fn maximum_alone_keeps_legacy_versions_off(max: Version, mask: u32)
    requires
        mask_for(None, Some(max)) == Ok::<Option<u32>, ()>(Some(mask)),
    ensures
        max.minor() >= Version::TLS_1_2.minor() ==> mask & (Version::TLS_1_0.flag()
            | Version::TLS_1_1.flag()) == 0,
        max.minor() < Version::TLS_1_2.minor() ==> mask == range_mask(Version::TLS_1_0, max),
{
    lemma_range_mask_bits(lowest(None, Some(max)), max);
    assert(0x80u32 | 0x200u32 == 0x280u32) by (bit_vector);
    assert(0u32 | 0u32 == 0u32) by (bit_vector);
}

/// A range fails if and only if its bounds are inverted, and then it would
/// enable no version at all.
pub proof fn only_inverted_bounds_fail(min: Option<Version>, max: Option<Version>)
    ensures
        mask_for(min, max) is Err <==> inverted(min, max),
        mask_for(min, max) is Err ==> forall|version: Version|
            !in_range(version, lowest(min, max), highest(max)),
{
}

// ---------------------------------------------------------------------------
// Client certificates
// ---------------------------------------------------------------------------

/// Which Windows system certificate store to search.
#[derive(Debug, Clone, Copy, PartialEq, Eq, Structural)]
pub enum StoreLocation {
    /// The per-user store, as shown by `certmgr.msc`.
    CurrentUser,
    /// The machine-wide store, as shown by `certlm.msc`.
    LocalMachine,
}

/// The same location, as the certificate-store interface knows it.
pub open spec fn abi_location(location: StoreLocation) -> abi::cert::StoreLocation {
    match location {
        StoreLocation::CurrentUser => abi::cert::StoreLocation::CurrentUser,
        StoreLocation::LocalMachine => abi::cert::StoreLocation::LocalMachine,
    }
}

impl From<StoreLocation> for abi::cert::StoreLocation {
    fn from(location: StoreLocation) -> (same: Self) {
        match location {
            StoreLocation::CurrentUser => abi::cert::StoreLocation::CurrentUser,
            StoreLocation::LocalMachine => abi::cert::StoreLocation::LocalMachine,
        }
    }
}

impl vstd::std_specs::convert::FromSpecImpl<StoreLocation> for abi::cert::StoreLocation {
    open spec fn obeys_from_spec() -> bool {
        true
    }

    open spec fn from_spec(location: StoreLocation) -> Self {
        abi_location(location)
    }
}

/// A client certificate for mutual TLS, referenced in the Windows
/// certificate store.
///
/// The certificate is referenced in place and no private key material is ever
/// exported, so smartcard, TPM and PIV-backed keys work.
///
/// An identity stands for one reference to a certificate context.  It comes
/// from a finished lookup or a finished duplication, and its owner makes the
/// call that [`Identity::drop`] names, once, when done with it.
pub struct Identity {
    ctx: usize,
    sha1: Option<[u8; 20]>,
}

/// The contents of an [`Identity`].
pub struct IdentityView {
    /// The certificate context.
    pub ctx: usize,
    /// The SHA-1 thumbprint, when the identity was looked up by one.  It is
    /// public data, not a secret.
    pub sha1: Option<[u8; 20]>,
}

impl View for Identity {
    type V = IdentityView;

    closed spec fn view(&self) -> IdentityView {
        IdentityView { ctx: self.ctx, sha1: self.sha1 }
    }
}

/// An identity in the making: one more reference is to be taken.
#[must_use]
pub struct Duplication {
    ctx: usize,
    sha1: Option<[u8; 20]>,
}

impl View for Duplication {
    type V = IdentityView;

    /// The context to take a reference to, and the thumbprint to note.
    closed spec fn view(&self) -> IdentityView {
        IdentityView { ctx: self.ctx, sha1: self.sha1 }
    }
}

impl Duplication {
    /// The call that takes the reference.
    pub fn call(&self) -> (call: Call)
        ensures
            call@ == (CallView::DuplicateContext { ctx: self@.ctx }),
    {
        duplicate_cert_context(self.ctx)
    }

    /// The identity, from the pointer that the call returned.
    pub fn finish(self, duplicate: usize) -> (identity: Identity)
        ensures
            identity@ == (IdentityView { ctx: duplicate, sha1: self@.sha1 }),
    {
        Identity { ctx: duplicate, sha1: self.sha1 }
    }
}

/// What a lookup makes of its outcome: the identity of the certificate found,
/// with its thumbprint, or the lookup's error.
pub open spec fn identity_outcome(lookup: LookupView) -> Option<Result<IdentityView, ErrorView>> {
    match lookup.outcome() {
        Some(Ok(ctx)) => Some(Ok(IdentityView { ctx, sha1: Some(lookup.sha1) })),
        Some(Err(error)) => Some(Err(error)),
        None => None,
    }
}

impl IdentityView {
    /// What debug output says of an identity, on one line or on several: its
    /// thumbprint when it is known.
    pub open spec fn debug(self, pretty: bool) -> Seq<char> {
        match (self.sha1, pretty) {
            (Some(sha1), false) => "Identity { sha1: \""@ + hex(sha1@) + "\" }"@,
            (Some(sha1), true) => "Identity {\n    sha1: \""@ + hex(sha1@) + "\",\n}"@,
            (None, _) => "Identity { .. }"@,
        }
    }
}

impl Identity {
    /// Look up a certificate by SHA-1 thumbprint in a system store.
    ///
    /// `store_name` is a Windows store name such as `"MY"` (the personal
    /// store, where client certificates normally live) or `"ROOT"`.
    /// `certmgr.msc` displays the thumbprint as hex.
    ///
    /// [`Identity::from_lookup`] takes the lookup when it is over.
    ///
    /// # Errors
    ///
    /// The lookup fails if the store cannot be opened, or if it holds no
    /// certificate with that thumbprint.
    pub fn from_system_store(
        location: StoreLocation,
        store_name: &str,
        sha1_thumbprint: &[u8; 20],
    ) -> (lookup: StoreLookup)
        ensures
            lookup@ == LookupView::start(abi_location(location), store_name@, *sha1_thumbprint),
    {
        find_cert_by_sha1(abi::cert::StoreLocation::from(location), store_name, sha1_thumbprint)
    }

    /// Look up a certificate by SHA-1 thumbprint in `CurrentUser\MY`.
    ///
    /// Shorthand for the common case; see
    /// [`from_system_store()`](Self::from_system_store).
    ///
    /// # Errors
    ///
    /// As [`from_system_store()`](Self::from_system_store).
    pub fn from_current_user(sha1_thumbprint: &[u8; 20]) -> (lookup: StoreLookup)
        ensures
            lookup@ == LookupView::start(
                abi::cert::StoreLocation::CurrentUser,
                "MY"@,
                *sha1_thumbprint,
            ),
    {
        Self::from_system_store(StoreLocation::CurrentUser, "MY", sha1_thumbprint)
    }

    /// The identity that a lookup came to; `None` if it is not over.
    ///
    /// # Errors
    ///
    /// The lookup's error, where it failed.
    pub fn from_lookup(lookup: StoreLookup) -> (outcome: Option<Result<Identity, Error>>)
        ensures
            match outcome {
                Some(Ok(identity)) => identity_outcome(lookup@) == Some(
                    Ok::<IdentityView, ErrorView>(identity@),
                ),
                Some(Err(error)) => identity_outcome(lookup@) == Some(
                    Err::<IdentityView, ErrorView>(error@),
                ),
                None => identity_outcome(lookup@) is None,
            },
    {
        let sha1 = lookup.sha1();
        match lookup.outcome() {
            Some(Ok(ctx)) => Some(Ok(Identity { ctx, sha1: Some(sha1) })),
            Some(Err(error)) => Some(Err(error)),
            None => None,
        }
    }

    /// Adopt a certificate context obtained elsewhere, for example from a
    /// certificate-selection dialog.
    ///
    /// This takes its own reference, so the caller keeps ownership of theirs
    /// and should release it as usual.
    #[must_use]
    pub fn from_cert_context(ctx: usize) -> (duplication: Duplication)
        ensures
            duplication@ == (IdentityView { ctx, sha1: None }),
    {
        Duplication { ctx, sha1: None }
    }

    /// The raw context, for `WINHTTP_OPTION_CLIENT_CERT_CONTEXT`.
    pub fn as_ptr(&self) -> (ctx: usize)
        ensures
            ctx == self@.ctx,
    {
        self.ctx
    }

    /// Another identity for the same certificate, with a reference of its own.
    #[must_use]
    pub fn clone(&self) -> (duplication: Duplication)
        ensures
            duplication@ == self@,
    {
        Duplication { ctx: self.ctx, sha1: self.sha1 }
    }

    /// The call that gives up the reference that this identity stands for.
    #[must_use]
    pub fn drop(self) -> (call: Call)
        ensures
            call@ == (CallView::FreeContext { ctx: self@.ctx }),
    {
        free_cert_context(self.ctx)
    }

    /// The thumbprint in hex, when it is known.
    pub fn thumbprint(&self) -> (text: Option<String>)
        ensures
            match (text, self@.sha1) {
                (Some(text), Some(sha1)) => text@ == hex(sha1@),
                (None, None) => true,
                _ => false,
            },
    {
        match &self.sha1 {
            Some(sha1) => Some(hex_thumbprint(sha1)),
            None => None,
        }
    }

    /// Debug output, on one line or on several: the thumbprint when it is
    /// known.
    pub fn debug_text(&self, pretty: bool) -> (text: String)
        ensures
            text@ == self@.debug(pretty),
    {
        match self.thumbprint() {
            Some(sha1) => {
                let mut text = if pretty {
                    String::from_str("Identity {\n    sha1: \"")
                } else {
                    String::from_str("Identity { sha1: \"")
                };
                text.append(sha1.as_str());
                text.append(if pretty {
                    "\",\n}"
                } else {
                    "\" }"
                });
                text
            },
            None => String::from_str("Identity { .. }"),
        }
    }
}

impl core::fmt::Debug for Identity {
    fn fmt(&self, f: &mut core::fmt::Formatter<'_>) -> (written: core::fmt::Result) {
        let pretty = f.alternate();
        f.write_str(self.debug_text(pretty).as_str())
    }
}

} // verus!
