//! What the operations do to the system store that they name, told from the
//! calls that reach it and from what it holds.

use crate::abi::cert::{missing_certificate, names_client_auth, StoreLocation};
use crate::abi::cert_laws::lemma_names_client_auth;
use crate::abi::crypt32::{answers, Call, CallOf, CallView, ReplyOf, ReplyView, Validity};
use crate::abi::deletion::{delete_cert_by_sha1, DeletionView, StoreDeletion};
use crate::abi::listing::{
    list_usable_certs, InfoView, ListingStage, ListingView, StoreListing,
};
use crate::abi::listing_laws::{
    listing_comes_to_the_usable_certificates, CertFacts, StoreFacts,
};
use crate::abi::lookup::{find_cert_by_sha1, LookupStage, LookupView, StoreLookup};
use crate::abi::operation::{run, Machine, Operation};
use crate::abi::wide::{decoding_undoes_encoding, to_wide, utf16, utf16_lossy};
use crate::error::{Error, ErrorView};
use vstd::prelude::*;

verus! {

// ---------------------------------------------------------------------------
// The first call
// ---------------------------------------------------------------------------

/// A listing opens the store that it was asked to list, by its whole name, at
/// its location, and for reading.
pub proof fn a_listing_opens_the_store_it_was_asked_for(
    location: StoreLocation,
    store_name: &str,
    wide: Vec<u16>,
    listing: StoreListing,
    call: Option<Call>,
)
    requires
        call_ensures(to_wide, (store_name,), wide),
        call_ensures(list_usable_certs, (location, store_name), listing),
        call_ensures(StoreListing::pending, (&listing,), call),
    ensures
        call matches Some(CallOf::OpenStore { encoding, crypt_provider, flags, name }) && {
            &&& encoding == 0
            &&& crypt_provider == 0
            &&& flags == match location {
                StoreLocation::CurrentUser => 0x18000u32,
                StoreLocation::LocalMachine => 0x28000,
            }
            &&& name@ == wide@
        },
{
    assert(0x10000u32 | 0x8000 == 0x18000) by (bit_vector);
    assert(0x20000u32 | 0x8000 == 0x28000) by (bit_vector);
}

/// A lookup opens the store that it was asked to search, by its whole name,
/// at its location, and for reading.
pub proof fn a_lookup_opens_the_store_it_was_asked_for(
    location: StoreLocation,
    store_name: &str,
    sha1: [u8; 20],
    wide: Vec<u16>,
    lookup: StoreLookup,
    call: Option<Call>,
)
    requires
        call_ensures(to_wide, (store_name,), wide),
        call_ensures(find_cert_by_sha1, (location, store_name, &sha1), lookup),
        call_ensures(StoreLookup::pending, (&lookup,), call),
    ensures
        call matches Some(CallOf::OpenStore { encoding, crypt_provider, flags, name }) && {
            &&& encoding == 0
            &&& crypt_provider == 0
            &&& flags == match location {
                StoreLocation::CurrentUser => 0x18000u32,
                StoreLocation::LocalMachine => 0x28000,
            }
            &&& name@ == wide@
        },
{
    assert(0x10000u32 | 0x8000 == 0x18000) by (bit_vector);
    assert(0x20000u32 | 0x8000 == 0x28000) by (bit_vector);
}

/// A deletion opens the store that it was asked to delete from, by its whole
/// name, at its location, and with all the access that the caller may have.
pub proof fn a_deletion_opens_the_store_it_was_asked_for(
    location: StoreLocation,
    store_name: &str,
    sha1: [u8; 20],
    wide: Vec<u16>,
    deletion: StoreDeletion,
    call: Option<Call>,
)
    requires
        call_ensures(to_wide, (store_name,), wide),
        call_ensures(delete_cert_by_sha1, (location, store_name, &sha1), deletion),
        call_ensures(StoreDeletion::pending, (&deletion,), call),
    ensures
        call matches Some(CallOf::OpenStore { encoding, crypt_provider, flags, name }) && {
            &&& encoding == 0
            &&& crypt_provider == 0
            &&& flags == match location {
                StoreLocation::CurrentUser => 0x11000u32,
                StoreLocation::LocalMachine => 0x21000,
            }
            &&& name@ == wide@
        },
{
    assert(0x10000u32 | 0x1000 == 0x11000) by (bit_vector);
    assert(0x20000u32 | 0x1000 == 0x21000) by (bit_vector);
}

/// An operation is in the state that it shows.
pub proof fn operations_are_in_the_state_they_show(
    listing: StoreListing,
    lookup: StoreLookup,
    deletion: StoreDeletion,
)
    ensures
        listing.model() == listing@,
        lookup.model() == lookup@,
        deletion.model() == deletion@,
{
}

/// An operation is over, and makes no further call, exactly when it has come
/// to something.
pub proof fn operations_are_over_when_they_came_to_something(
    listing: ListingView,
    lookup: LookupView,
    deletion: DeletionView,
)
    ensures
        listing.pending() is None <==> listing.outcome() is Some,
        lookup.pending() is None <==> lookup.outcome() is Some,
        deletion.pending() is None <==> deletion.outcome() is Some,
{
}

/// A listing whose store does not open is over at once with the Win32 error.
/// One that is told that there is no further certificate closes the store that
/// it asked, and is then over with what it has listed.
pub proof fn a_listing_closes_what_it_opened(
    location: StoreLocation,
    store_name: Seq<char>,
    open_error: u32,
    listing: ListingView,
    store: usize,
    previous: usize,
    last_error: u32,
    closed: i32,
    close_error: u32,
)
    requires
        listing.pending() == Some(CallView::NextCertificate { store, previous }),
    ensures
        ({
            let unopened = ListingView::start(location, store_name).after(
                ReplyView::Pointer { value: 0, last_error: open_error },
            );
            let closing = listing.after(ReplyView::Pointer { value: 0, last_error });
            let end = closing.after(ReplyView::Status { ok: closed, last_error: close_error });
            &&& unopened.pending() is None
            &&& unopened.outcome() == Some(
                Err::<Seq<InfoView>, ErrorView>(ErrorView::Win32(open_error)),
            )
            &&& closing.pending() == Some(CallView::CloseStore { store, flags: 0 })
            &&& closing.outcome() is None
            &&& end.pending() is None
            &&& end.outcome() == Some(Ok::<Seq<InfoView>, ErrorView>(listing.listed))
        }),
{
}

/// A listing goes on to the next certificate of the same store, with nothing
/// listed for this one, as soon as an answer rules this one out: no key, no
/// dates, not valid now, usages that cannot be sized or read, or no thumbprint.
pub proof fn a_listing_passes_over_what_is_ruled_out(listing: ListingView, reply: ReplyView)
    requires
        match (listing.pending(), reply) {
            (
                Some(CallOf::ReadProperty { property: 2, .. }),
                ReplyOf::Property { ok, .. },
            ) => ok == 0,
            (
                Some(CallOf::ReadProperty { property: 3, .. }),
                ReplyOf::Property { ok, size, .. },
            ) => ok == 0 || size != 20,
            (Some(CallOf::ReadValidity { .. }), ReplyOf::Validity(validity)) => validity is None,
            (Some(CallOf::CheckTime { .. }), ReplyOf::Time(order)) => order != 0,
            (Some(CallOf::SizeUsage { .. }), ReplyOf::UsageSize { ok, size }) => ok == 0 || size
                == 0,
            (Some(CallOf::ReadUsage { .. }), ReplyOf::Usage { ok, .. }) => ok == 0,
            _ => false,
        },
    ensures
        listing.after(reply).pending() == Some(
            CallView::NextCertificate { store: listing.store, previous: listing.ctx },
        ),
        listing.after(reply).listed == listing.listed,
{
}

// ---------------------------------------------------------------------------
// Lookups and deletions, answer by answer
// ---------------------------------------------------------------------------

/// A lookup opens a store, searches the store that was opened for its
/// thumbprint, and closes it.  It comes to what the search returned, to the
/// error that names what is missing where that is null, and to the Win32 error
/// of opening where the store did not open: then it makes no further call.
pub proof fn a_lookup_searches_what_it_opened(
    location: StoreLocation,
    store_name: &str,
    sha1: [u8; 20],
    missing: Error,
    opened: usize,
    open_error: u32,
    found: usize,
    find_error: u32,
    closed: i32,
    close_error: u32,
)
    requires
        call_ensures(missing_certificate, (location, store_name, &sha1), missing),
    ensures
        ({
            let begin = LookupView::start(location, store_name@, sha1);
            let open = begin.after(ReplyView::Pointer { value: opened, last_error: open_error });
            let find = open.after(ReplyView::Pointer { value: found, last_error: find_error });
            let end = find.after(ReplyView::Status { ok: closed, last_error: close_error });
            &&& begin.pending() is Some && begin.outcome() is None
            &&& opened == 0 ==> {
                &&& open.pending() is None
                &&& open.outcome() == Some(
                    Err::<usize, ErrorView>(ErrorView::Win32(open_error)),
                )
            }
            &&& opened != 0 ==> {
                &&& open.outcome() is None
                &&& open.pending() == Some(
                    CallView::FindCertificate {
                        store: opened,
                        encoding: 0x10001,
                        flags: 0,
                        kind: 0x10000,
                        hash: sha1,
                        previous: 0,
                    },
                )
                &&& find.outcome() is None
                &&& find.pending() == Some(CallView::CloseStore { store: opened, flags: 0 })
                &&& end.pending() is None
                &&& found != 0 ==> end.outcome() == Some(Ok::<usize, ErrorView>(found))
                &&& found == 0 ==> end.outcome() == Some(Err::<usize, ErrorView>(missing@))
            }
        }),
{
}

/// A deletion opens a store, searches the store that was opened for its
/// thumbprint, deletes what the search returned and nothing else, and closes
/// the store.  It succeeds if and only if the deleting call does, and comes to
/// the Win32 error of the call that failed.
pub proof fn a_deletion_deletes_what_it_found(
    location: StoreLocation,
    store_name: Seq<char>,
    sha1: [u8; 20],
    opened: usize,
    open_error: u32,
    found: usize,
    find_error: u32,
    deleted: i32,
    delete_error: u32,
    closed: i32,
    close_error: u32,
)
    ensures
        ({
            let begin = DeletionView::start(location, store_name, sha1);
            let open = begin.after(ReplyView::Pointer { value: opened, last_error: open_error });
            let find = open.after(ReplyView::Pointer { value: found, last_error: find_error });
            let delete = find.after(ReplyView::Status { ok: deleted, last_error: delete_error });
            let close = ReplyView::Status { ok: closed, last_error: close_error };
            &&& begin.pending() is Some && begin.outcome() is None
            &&& opened == 0 ==> {
                &&& open.pending() is None
                &&& open.outcome() == Some(Err::<(), ErrorView>(ErrorView::Win32(open_error)))
            }
            &&& opened != 0 ==> {
                &&& open.outcome() is None
                &&& open.pending() == Some(
                    CallView::FindCertificate {
                        store: opened,
                        encoding: 0x10001,
                        flags: 0,
                        kind: 0x10000,
                        hash: sha1,
                        previous: 0,
                    },
                )
                &&& find.outcome() is None
            }
            &&& opened != 0 && found == 0 ==> {
                &&& find.pending() == Some(CallView::CloseStore { store: opened, flags: 0 })
                &&& find.after(close).pending() is None
                &&& find.after(close).outcome() == Some(
                    Err::<(), ErrorView>(ErrorView::Win32(find_error)),
                )
            }
            &&& opened != 0 && found != 0 ==> {
                &&& find.pending() == Some(CallView::DeleteCertificate { ctx: found })
                &&& delete.outcome() is None
                &&& delete.pending() == Some(CallView::CloseStore { store: opened, flags: 0 })
                &&& delete.after(close).pending() is None
                &&& deleted != 0 ==> delete.after(close).outcome() == Some(
                    Ok::<(), ErrorView>(()),
                )
                &&& deleted == 0 ==> delete.after(close).outcome() == Some(
                    Err::<(), ErrorView>(ErrorView::Win32(delete_error)),
                )
            }
        }),
{
}

// ---------------------------------------------------------------------------
// Conversations with one system store
// ---------------------------------------------------------------------------

/// A system store: where it is, its name, and what it holds.
pub struct SystemStore {
    /// Where it is.
    pub location: StoreLocation,
    /// Its name.
    pub name: Seq<char>,
    /// The handle that opening it gives.
    pub store: usize,
    /// Its certificates, in its order.
    pub certs: Seq<CertFacts>,
}

impl SystemStore {
    /// Whether crypt32 can give these answers: no handle or context is null,
    /// usages are terminated, and names fill the buffers asked for.
    pub open spec fn well_formed(self) -> bool {
        &&& self.store != 0
        &&& forall|i: int|
            0 <= i < self.certs.len() ==> {
                let cert = #[trigger] self.certs[i];
                &&& cert.ctx != 0
                &&& forall|u: int|
                    0 <= u < cert.usages.len() ==> (#[trigger] cert.usages[u] matches Some(bytes)
                        ==> bytes.contains(0))
                &&& cert.subject.units.len() == cert.subject.len
                &&& cert.subject.written <= cert.subject.len + 1
                &&& cert.issuer.units.len() == cert.issuer.len
                &&& cert.issuer.written <= cert.issuer.len + 1
            }
    }

    /// Whether this store, of which `count` certificates have been handed out
    /// one by one, gives `reply` to `call`.
    ///
    /// It replies to no call for another location or name, with another
    /// handle, about a certificate other than the last one handed out, or with
    /// arguments that ask for anything else than what it has.  What a failing
    /// call writes, the last error of a call and whether a store was closed
    /// are left open.
    pub open spec fn replies(self, count: nat, call: CallView, reply: ReplyView) -> bool {
        let cert = self.certs[count - 1];
        let current = if 0 < count <= self.certs.len() {
            cert.ctx
        } else {
            0
        };
        match (call, reply) {
            (
                CallOf::OpenStore { encoding, crypt_provider, flags, name },
                ReplyOf::Pointer { value, .. },
            ) => {
                &&& encoding == 0
                &&& crypt_provider == 0
                &&& flags & 0x30000 == match self.location {
                    StoreLocation::CurrentUser => 0x10000u32,
                    StoreLocation::LocalMachine => 0x20000,
                }
                &&& name.len() > 0
                &&& name.last() == 0
                &&& utf16_lossy(name.drop_last()) == self.name
                &&& value == self.store
            },
            (CallOf::CloseStore { store, flags }, ReplyOf::Status { .. }) => {
                &&& store == self.store
                &&& flags == 0
            },
            (
                CallOf::FindCertificate { store, encoding, flags, kind, hash, previous },
                ReplyOf::Pointer { value, .. },
            ) => {
                &&& store == self.store
                &&& encoding == 0x10001
                &&& flags == 0
                &&& kind == 0x10000
                &&& previous == 0
                &&& {
                    ||| exists|i: int|
                        0 <= i < self.certs.len() && (#[trigger] self.certs[i]).ctx == value
                            && self.certs[i].hash_read != 0 && self.certs[i].hash_size == 20
                            && self.certs[i].hash == hash
                    ||| value == 0 && forall|i: int|
                        0 <= i < self.certs.len() ==> !((#[trigger] self.certs[i]).hash_read != 0
                            && self.certs[i].hash_size == 20 && self.certs[i].hash == hash)
                }
            },
            (CallOf::NextCertificate { store, previous }, ReplyOf::Pointer { value, .. }) => {
                &&& store == self.store
                &&& count <= self.certs.len()
                &&& previous == current
                &&& value == if count < self.certs.len() {
                    self.certs[count as int].ctx
                } else {
                    0
                }
            },
            (
                CallOf::ReadProperty { ctx, property, size },
                ReplyOf::Property { ok, size: taken, data },
            ) => {
                &&& ctx == current && ctx != 0
                &&& property == 2 || property == 3
                &&& property == 2 ==> size == 0 && ok == cert.key
                &&& property == 3 ==> size == 20 && ok == cert.hash_read && (ok != 0 ==> taken
                    == cert.hash_size && data == cert.hash)
            },
            (CallOf::ReadValidity { ctx }, ReplyOf::Validity(validity)) => {
                &&& ctx == current && ctx != 0
                &&& validity == cert.validity
            },
            (CallOf::CheckTime { ctx }, ReplyOf::Time(order)) => {
                &&& ctx == current && ctx != 0
                &&& order == cert.time
            },
            (CallOf::SizeUsage { ctx, flags }, ReplyOf::UsageSize { ok, size }) => {
                &&& ctx == current && ctx != 0
                &&& flags == 0
                &&& ok == cert.usage_sized
                &&& ok != 0 ==> size == cert.usage_size
            },
            (CallOf::ReadUsage { ctx, flags, size }, ReplyOf::Usage { ok, identifiers }) => {
                &&& ctx == current && ctx != 0
                &&& flags == 0
                &&& size == cert.usage_size
                &&& ok == cert.usage_read
                &&& ok != 0 ==> identifiers == cert.usages
            },
            (CallOf::SizeName { ctx, kind, flags }, ReplyOf::NameLength(len)) => {
                &&& ctx == current && ctx != 0
                &&& kind == 4
                &&& flags == 0 || flags == 1
                &&& flags == 0 ==> len == cert.subject.len
                &&& flags == 1 ==> len == cert.issuer.len
            },
            (CallOf::ReadName { ctx, kind, flags, len }, ReplyOf::Name { written, units }) => {
                &&& ctx == current && ctx != 0
                &&& kind == 4
                &&& flags == 0 || flags == 1
                &&& flags == 0 ==> len == cert.subject.len && written == cert.subject.written
                    && units == cert.subject.units
                &&& flags == 1 ==> len == cert.issuer.len && written == cert.issuer.written
                    && units == cert.issuer.units
            },
            _ => false,
        }
    }

    /// Whether an operation, after `count` certificates have been handed out,
    /// can get `replies` from this store to its next calls.
    pub open spec fn converses<O: Operation>(
        self,
        operation: O,
        count: nat,
        replies: Seq<ReplyView>,
    ) -> bool
        decreases replies.len(),
    {
        replies.len() == 0 || {
            &&& operation.pending() is Some
            &&& answers(operation.pending()->0, replies[0])
            &&& self.replies(count, operation.pending()->0, replies[0])
            &&& self.converses(
                operation.after(replies[0]),
                if operation.pending()->0 is NextCertificate {
                    count + 1
                } else {
                    count
                },
                replies.skip(1),
            )
        }
    }

    /// What it holds, wherever it is.
    spec fn facts(self) -> StoreFacts {
        StoreFacts { store: self.store, certs: self.certs }
    }

    proof fn lemma_facts_are_well_formed(self)
        requires
            self.well_formed(),
        ensures
            self.facts().well_formed(),
    {
        assert forall|i: int| 0 <= i < self.certs.len() implies (
        #[trigger] self.facts().certs[i]).well_formed() by {
            let cert = self.certs[i];
            assert(crate::abi::crypt32::identifiers_terminated(cert.usages));
        }
    }

    /// What this store replies, a store with these certificates gives.
    proof fn lemma_converses_is_told<O: Operation>(
        self,
        operation: O,
        count: nat,
        replies: Seq<ReplyView>,
    )
        requires
            self.converses(operation, count, replies),
        ensures
            self.facts().told(operation, count, replies),
        decreases replies.len(),
    {
        if replies.len() > 0 {
            let call = operation.pending()->0;
            assert(self.facts().gives(count, call, replies[0])) by {
                if let CallOf::FindCertificate { hash, .. } = call {
                    if let ReplyOf::Pointer { value, .. } = replies[0] {
                        self.lemma_finds(hash, value);
                    }
                }
            }
            self.lemma_converses_is_told(
                operation.after(replies[0]),
                StoreFacts::counted(count, call),
                replies.skip(1),
            );
        }
    }

    proof fn lemma_finds(self, sha1: [u8; 20], value: usize)
        requires
            ({
                ||| exists|i: int|
                    0 <= i < self.certs.len() && (#[trigger] self.certs[i]).ctx == value
                        && self.certs[i].hash_read != 0 && self.certs[i].hash_size == 20
                        && self.certs[i].hash == sha1
                ||| value == 0 && forall|i: int|
                    0 <= i < self.certs.len() ==> !((#[trigger] self.certs[i]).hash_read != 0
                        && self.certs[i].hash_size == 20 && self.certs[i].hash == sha1)
            }),
        ensures
            self.facts().finds(sha1, value),
    {
        assert(self.facts().certs == self.certs);
        if exists|i: int|
            0 <= i < self.certs.len() && (#[trigger] self.certs[i]).ctx == value
                && self.certs[i].hash_read != 0 && self.certs[i].hash_size == 20
                && self.certs[i].hash == sha1 {
            let i = choose|i: int|
                0 <= i < self.certs.len() && (#[trigger] self.certs[i]).ctx == value
                    && self.certs[i].hash_read != 0 && self.certs[i].hash_size == 20
                    && self.certs[i].hash == sha1;
            assert(self.facts().certs[i].ctx == value && self.facts().certs[i].sha1() == Some(
                sha1,
            ));
        }
    }

    /// Whether a listing of this store can be at this point.
    spec fn listing_is_here(self, listing: ListingView, count: nat) -> bool {
        let cert = self.certs[count - 1];
        match listing.stage {
            ListingStage::Opening => {
                &&& listing.location == self.location
                &&& listing.store_name == self.name
                &&& listing.ctx == 0
                &&& count == 0
            },
            ListingStage::Advancing => {
                &&& listing.store == self.store
                &&& count <= self.certs.len()
                &&& listing.ctx == if count == 0 {
                    0
                } else {
                    cert.ctx
                }
            },
            ListingStage::Closing => listing.store == self.store,
            ListingStage::Finished => true,
            ListingStage::Failed { .. } => true,
            _ => {
                &&& listing.store == self.store
                &&& 0 < count <= self.certs.len()
                &&& listing.ctx == cert.ctx
                &&& listing.stage matches ListingStage::ReadingUsage { size } ==> size
                    == cert.usage_size
                &&& listing.stage matches ListingStage::ReadingSubject { len, .. } ==> len
                    == cert.subject.len
                &&& listing.stage matches ListingStage::ReadingIssuer { len, .. } ==> len
                    == cert.issuer.len
            },
        }
    }

    /// One of the replies that this store gives.
    spec fn reply(self, count: nat, call: CallView) -> ReplyView {
        let cert = self.certs[count - 1];
        match call {
            CallOf::OpenStore { .. } => ReplyOf::Pointer { value: self.store, last_error: 0 },
            CallOf::NextCertificate { .. } => ReplyOf::Pointer {
                value: if count < self.certs.len() {
                    self.certs[count as int].ctx
                } else {
                    0
                },
                last_error: 0,
            },
            CallOf::FindCertificate { hash, .. } => ReplyOf::Pointer {
                value: if exists|i: int|
                    0 <= i < self.certs.len() && (#[trigger] self.certs[i]).hash_read != 0
                        && self.certs[i].hash_size == 20 && self.certs[i].hash == hash {
                    self.certs[choose|i: int|
                        0 <= i < self.certs.len() && (#[trigger] self.certs[i]).hash_read != 0
                            && self.certs[i].hash_size == 20 && self.certs[i].hash == hash].ctx
                } else {
                    0
                },
                last_error: 0,
            },
            CallOf::ReadProperty { property, .. } => ReplyOf::Property {
                ok: if property == 2 {
                    cert.key
                } else {
                    cert.hash_read
                },
                size: cert.hash_size,
                data: cert.hash,
            },
            CallOf::ReadValidity { .. } => ReplyOf::Validity(cert.validity),
            CallOf::CheckTime { .. } => ReplyOf::Time(cert.time),
            CallOf::SizeUsage { .. } => ReplyOf::UsageSize {
                ok: cert.usage_sized,
                size: cert.usage_size,
            },
            CallOf::ReadUsage { .. } => ReplyOf::Usage {
                ok: cert.usage_read,
                identifiers: cert.usages,
            },
            CallOf::SizeName { flags, .. } => ReplyOf::NameLength(
                if flags == 0 {
                    cert.subject.len
                } else {
                    cert.issuer.len
                },
            ),
            CallOf::ReadName { flags, .. } => if flags == 0 {
                ReplyOf::Name { written: cert.subject.written, units: cert.subject.units }
            } else {
                ReplyOf::Name { written: cert.issuer.written, units: cert.issuer.units }
            },
            _ => ReplyOf::Status { ok: 1, last_error: 0 },
        }
    }

    proof fn lemma_opening(self, location: StoreLocation)
        requires
            self.location == location,
        ensures
            utf16_lossy(utf16(self.name).push(0).drop_last()) == self.name,
            (0x10000u32 | 0x8000) & 0x30000 == 0x10000,
            (0x20000u32 | 0x8000) & 0x30000 == 0x20000,
    {
        assert(utf16(self.name).push(0).drop_last() =~= utf16(self.name));
        decoding_undoes_encoding(self.name);
        assert((0x10000u32 | 0x8000) & 0x30000 == 0x10000) by (bit_vector);
        assert((0x20000u32 | 0x8000) & 0x30000 == 0x20000) by (bit_vector);
    }

    /// The store has a reply to the next call of a listing.
    proof fn lemma_listing_gets_a_reply(self, listing: ListingView, count: nat)
        requires
            self.well_formed(),
            self.listing_is_here(listing, count),
            listing.pending() is Some,
        ensures
            self.replies(
                count,
                listing.pending()->0,
                self.reply(count, listing.pending()->0),
            ),
            answers(listing.pending()->0, self.reply(count, listing.pending()->0)),
    {
        self.lemma_opening(self.location);
        self.lemma_facts_are_well_formed();
        if 0 < count <= self.certs.len() {
            assert(self.certs[count - 1].ctx != 0);
            assert(self.facts().certs[count - 1].well_formed());
        }
    }

    /// A listing stays with this store.
    proof fn lemma_listing_stays_here(self, listing: ListingView, count: nat, reply: ReplyView)
        requires
            self.well_formed(),
            self.listing_is_here(listing, count),
            listing.pending() is Some,
            self.replies(count, listing.pending()->0, reply),
        ensures
            self.listing_is_here(
                listing.after(reply),
                if listing.pending()->0 is NextCertificate {
                    count + 1
                } else {
                    count
                },
            ),
    {
        if count < self.certs.len() {
            assert(self.certs[count as int].ctx != 0);
        }
    }

    /// A listing that is not over gets one more reply from this store.
    proof fn lemma_listing_goes_on(
        self,
        listing: ListingView,
        count: nat,
        replies: Seq<ReplyView>,
    ) -> (reply: ReplyView)
        requires
            self.well_formed(),
            self.listing_is_here(listing, count),
            self.converses(listing, count, replies),
            run(listing, replies).pending() is Some,
        ensures
            self.converses(listing, count, replies.push(reply)),
        decreases replies.len(),
    {
        let call = listing.pending()->0;
        if replies.len() == 0 {
            self.lemma_listing_gets_a_reply(listing, count);
            let reply = self.reply(count, call);
            reveal_with_fuel(SystemStore::converses, 2);
            assert(replies.push(reply).skip(1) =~= Seq::empty());
            reply
        } else {
            let after = listing.after(replies[0]);
            let counted = if call is NextCertificate {
                count + 1
            } else {
                count
            };
            self.lemma_listing_stays_here(listing, count, replies[0]);
            let reply = self.lemma_listing_goes_on(after, counted, replies.skip(1));
            assert(replies.push(reply).skip(1) =~= replies.skip(1).push(reply));
            reply
        }
    }
}

/// A listing asks the store that it names, about that store's certificates
/// and nothing else, until it is over: after any replies from that store it is
/// over, or its next call is one that the store replies to.
pub proof fn a_listing_asks_the_store_it_names(system: SystemStore, replies: Seq<ReplyView>)
    requires
        system.well_formed(),
        system.converses(ListingView::start(system.location, system.name), 0, replies),
    ensures
        run(ListingView::start(system.location, system.name), replies).pending() is Some
            ==> exists|reply: ReplyView|
            system.converses(
                ListingView::start(system.location, system.name),
                0,
                #[trigger] replies.push(reply),
            ),
{
    let begin = ListingView::start(system.location, system.name);
    if run(begin, replies).pending() is Some {
        let reply = system.lemma_listing_goes_on(begin, 0, replies);
        assert(system.converses(begin, 0, replies.push(reply)));
    }
}

proof fn lemma_listing_ends(system: SystemStore, replies: Seq<ReplyView>, steps: nat) -> (all: Seq<
    ReplyView,
>)
    requires
        system.well_formed(),
        system.converses(ListingView::start(system.location, system.name), 0, replies),
        forall|told: Seq<ReplyView>| #[trigger]
            system.converses(ListingView::start(system.location, system.name), 0, told)
                ==> told.len() <= steps,
    ensures
        system.converses(ListingView::start(system.location, system.name), 0, all),
        run(ListingView::start(system.location, system.name), all).pending() is None,
    decreases steps - replies.len(),
{
    let begin = ListingView::start(system.location, system.name);
    if run(begin, replies).pending() is Some {
        let reply = system.lemma_listing_goes_on(begin, 0, replies);
        assert(system.converses(begin, 0, replies.push(reply)));
        lemma_listing_ends(system, replies.push(reply), steps)
    } else {
        replies
    }
}

/// A listing of a store that opens ends, and succeeds.
pub proof fn a_listing_of_a_store_succeeds(system: SystemStore) -> (replies: Seq<ReplyView>)
    requires
        system.well_formed(),
    ensures
        system.converses(ListingView::start(system.location, system.name), 0, replies),
        run(ListingView::start(system.location, system.name), replies).pending() is None,
        run(ListingView::start(system.location, system.name), replies).outcome() matches Some(
            Ok(_),
        ),
{
    let begin = ListingView::start(system.location, system.name);
    system.lemma_facts_are_well_formed();
    let steps = listing_comes_to_the_usable_certificates(
        system.location,
        system.name,
        system.facts(),
    );
    assert forall|told: Seq<ReplyView>| #[trigger] system.converses(begin, 0, told) implies
        told.len() <= steps by {
        system.lemma_converses_is_told(begin, 0, told);
    }
    let replies = lemma_listing_ends(system, seq![], steps);
    system.lemma_converses_is_told(begin, 0, replies);
    replies
}

/// The places of the usable ones among the first `count` certificates.
proof fn lemma_usable_places(facts: StoreFacts, count: nat) -> (places: Seq<int>)
    requires
        count <= facts.certs.len(),
    ensures
        places.len() == facts.usable(count).len(),
        forall|j: int, k: int| 0 <= j < k < places.len() ==> places[j] < places[k],
        forall|k: int|
            0 <= k < places.len() ==> 0 <= #[trigger] places[k] < count
                && facts.certs[places[k]].is_usable() && facts.usable(count)[k]
                == facts.certs[places[k]].info(),
        forall|i: int|
            0 <= i < count && (#[trigger] facts.certs[i]).is_usable() ==> places.contains(i),
    decreases count,
{
    if count == 0 {
        seq![]
    } else {
        let last = count - 1;
        let before = lemma_usable_places(facts, last as nat);
        if facts.certs[last].is_usable() {
            let places = before.push(last);
            assert forall|i: int|
                0 <= i < count && (
                #[trigger] facts.certs[i]).is_usable() implies places.contains(i) by {
                if i < last {
                    assert(before.contains(i));
                    let k = choose|k: int| 0 <= k < before.len() && before[k] == i;
                    assert(places[k] == i);
                } else {
                    assert(places[before.len() as int] == i);
                }
            }
            places
        } else {
            before
        }
    }
}

/// A certificate is usable if and only if a key is associated, it is valid
/// now, its usages can be read and are none or one of them is client
/// authentication, and its thumbprint can be read.
proof fn lemma_usable_certificate(cert: CertFacts)
    requires
        forall|u: int|
            0 <= u < cert.usages.len() ==> (#[trigger] cert.usages[u] matches Some(bytes)
                ==> bytes.contains(0)),
    ensures
        cert.is_usable() <==> {
            &&& cert.key != 0
            &&& cert.validity is Some
            &&& cert.time == 0
            &&& cert.usage_sized != 0 && cert.usage_size != 0 && cert.usage_read != 0
            &&& cert.usages.len() == 0 || exists|u: int|
                0 <= u < cert.usages.len() && (#[trigger] cert.usages[u] matches Some(bytes)
                    && bytes.len() > 17 && bytes[17] == 0 && forall|j: int|
                    0 <= j < 17 ==> #[trigger] bytes[j] as int == "1.3.6.1.5.5.7.3.2"@[j] as int)
            &&& cert.hash_read != 0 && cert.hash_size == 20
        },
{
    assert forall|u: int| 0 <= u < cert.usages.len() implies (names_client_auth(
        #[trigger] cert.usages[u],
    ) <==> (cert.usages[u] matches Some(bytes) && bytes.len() > 17 && bytes[17] == 0
        && forall|j: int|
        0 <= j < 17 ==> #[trigger] bytes[j] as int == "1.3.6.1.5.5.7.3.2"@[j] as int)) by {
        if let Some(bytes) = cert.usages[u] {
            lemma_names_client_auth(bytes);
        }
    }
}

/// A listing is of the certificates, at exactly those places in the store and
/// in its order, that have a key, are valid now, have no usage or that of
/// client authentication among theirs, and have a thumbprint; each with its
/// thumbprint, its dates and the names written for it.
pub proof fn a_listing_is_what_can_be_presented(
    system: SystemStore,
    replies: Seq<ReplyView>,
    listed: Seq<InfoView>,
) -> (places: Seq<int>)
    requires
        system.well_formed(),
        system.converses(ListingView::start(system.location, system.name), 0, replies),
        run(ListingView::start(system.location, system.name), replies).outcome() == Some(
            Ok::<Seq<InfoView>, ErrorView>(listed),
        ),
    ensures
        places.len() == listed.len(),
        forall|j: int, k: int| 0 <= j < k < places.len() ==> places[j] < places[k],
        forall|k: int| 0 <= k < places.len() ==> 0 <= #[trigger] places[k] < system.certs.len(),
        forall|i: int|
            0 <= i < system.certs.len() ==> (places.contains(i) <==> {
                let cert = #[trigger] system.certs[i];
                &&& cert.key != 0
                &&& cert.validity is Some
                &&& cert.time == 0
                &&& cert.usage_sized != 0 && cert.usage_size != 0 && cert.usage_read != 0
                &&& cert.usages.len() == 0 || exists|u: int|
                    0 <= u < cert.usages.len() && (#[trigger] cert.usages[u] matches Some(bytes)
                        && bytes.len() > 17 && bytes[17] == 0 && forall|j: int|
                        0 <= j < 17 ==> #[trigger] bytes[j] as int
                            == "1.3.6.1.5.5.7.3.2"@[j] as int)
                &&& cert.hash_read != 0 && cert.hash_size == 20
            }),
        forall|k: int|
            0 <= k < places.len() ==> {
                let cert = system.certs[#[trigger] places[k]];
                &&& listed[k].sha1 == cert.hash
                &&& cert.validity == Some(
                    Validity { not_before: listed[k].not_before, not_after: listed[k].not_after },
                )
                &&& listed[k].subject == if cert.subject.len < 2 || cert.subject.written == 0 {
                    seq![]
                } else {
                    utf16_lossy(cert.subject.units.take(cert.subject.written - 1))
                }
                &&& listed[k].issuer == if cert.issuer.len < 2 || cert.issuer.written == 0 {
                    seq![]
                } else {
                    utf16_lossy(cert.issuer.units.take(cert.issuer.written - 1))
                }
            },
{
    let begin = ListingView::start(system.location, system.name);
    let facts = system.facts();
    let all = system.certs.len();
    system.lemma_facts_are_well_formed();
    system.lemma_converses_is_told(begin, 0, replies);
    let steps = listing_comes_to_the_usable_certificates(system.location, system.name, facts);
    assert(run(begin, replies).pending() is None);
    assert(listed == facts.usable(all));
    let places = lemma_usable_places(facts, all);
    assert forall|i: int| 0 <= i < system.certs.len() implies (places.contains(i) <==> {
        let cert = #[trigger] system.certs[i];
        &&& cert.key != 0
        &&& cert.validity is Some
        &&& cert.time == 0
        &&& cert.usage_sized != 0 && cert.usage_size != 0 && cert.usage_read != 0
        &&& cert.usages.len() == 0 || exists|u: int|
            0 <= u < cert.usages.len() && (#[trigger] cert.usages[u] matches Some(bytes)
                && bytes.len() > 17 && bytes[17] == 0 && forall|j: int|
                0 <= j < 17 ==> #[trigger] bytes[j] as int == "1.3.6.1.5.5.7.3.2"@[j] as int)
        &&& cert.hash_read != 0 && cert.hash_size == 20
    }) by {
        let cert = system.certs[i];
        lemma_usable_certificate(cert);
        assert(facts.certs[i] == cert);
        if places.contains(i) {
            let k = choose|k: int| 0 <= k < places.len() && places[k] == i;
            assert(facts.certs[places[k]].is_usable());
        }
    }
    assert forall|k: int| 0 <= k < places.len() implies {
        let cert = system.certs[#[trigger] places[k]];
        &&& listed[k] == cert.info()
        &&& cert.validity is Some
    } by {
        assert(facts.certs[places[k]].is_usable());
    }
    places
}

// ---------------------------------------------------------------------------
// Looking up in one system store
// ---------------------------------------------------------------------------

/// A lookup in a store comes, after three calls that this store replies to,
/// to a certificate of the store with that thumbprint, or to the error that
/// names what is missing if and only if there is none.
pub proof fn a_lookup_finds_what_the_store_has(
    system: SystemStore,
    store_name: &str,
    sha1: [u8; 20],
    missing: Error,
    replies: Seq<ReplyView>,
)
    requires
        system.well_formed(),
        store_name@ == system.name,
        call_ensures(missing_certificate, (system.location, store_name, &sha1), missing),
        system.converses(LookupView::start(system.location, system.name, sha1), 0, replies),
    ensures
        ({
            let end = run(LookupView::start(system.location, system.name, sha1), replies);
            &&& replies.len() <= 3
            &&& replies.len() < 3 ==> end.outcome() is None && exists|reply: ReplyView|
                system.converses(
                    LookupView::start(system.location, system.name, sha1),
                    0,
                    #[trigger] replies.push(reply),
                )
            &&& replies.len() == 3 ==> match end.outcome() {
                Some(Ok(found)) => exists|i: int|
                    0 <= i < system.certs.len() && (#[trigger] system.certs[i]).ctx == found
                        && system.certs[i].hash_read != 0 && system.certs[i].hash_size == 20
                        && system.certs[i].hash == sha1,
                Some(Err(error)) => error == missing@ && forall|i: int|
                    0 <= i < system.certs.len() ==> !((#[trigger] system.certs[i]).hash_read != 0
                        && system.certs[i].hash_size == 20 && system.certs[i].hash == sha1),
                None => false,
            }
        }),
{
    let begin = LookupView::start(system.location, system.name, sha1);
    system.lemma_opening(system.location);
    reveal_with_fuel(SystemStore::converses, 5);
    reveal_with_fuel(run, 5);
    let next = lemma_lookup_goes_on(system, begin, replies);
    if replies.len() < 3 {
        assert(system.converses(begin, 0, replies.push(next)));
    }
    if replies.len() == 3 {
        let opened = begin.after(replies[0]);
        let behind_open = replies.skip(1);
        let closing = opened.after(behind_open[0]);
        let behind_find = behind_open.skip(1);
        let end = closing.after(behind_find[0]);
        assert(behind_find.skip(1).len() == 0);
        assert(run(begin, replies) == end);
        if let ReplyOf::Pointer { value, .. } = behind_open[0] {
            assert(end.stage == (LookupStage::Finished { found: value }));
            if exists|i: int|
                0 <= i < system.certs.len() && (#[trigger] system.certs[i]).ctx == value
                    && system.certs[i].hash_read != 0 && system.certs[i].hash_size == 20
                    && system.certs[i].hash == sha1 {
                let i = choose|i: int|
                    0 <= i < system.certs.len() && (#[trigger] system.certs[i]).ctx == value
                        && system.certs[i].hash_read != 0 && system.certs[i].hash_size == 20
                        && system.certs[i].hash == sha1;
                assert(system.certs[i].ctx != 0);
            }
        }
    }
}

/// A lookup gets at most three replies from the store, and one more as long
/// as it had fewer.
proof fn lemma_lookup_goes_on(
    system: SystemStore,
    begin: LookupView,
    replies: Seq<ReplyView>,
) -> (next: ReplyView)
    requires
        system.well_formed(),
        begin.stage is Opening,
        begin.location == system.location,
        begin.store_name == system.name,
        system.converses(begin, 0, replies),
    ensures
        replies.len() <= 3,
        replies.len() < 3 ==> run(begin, replies).outcome() is None && system.converses(
            begin,
            0,
            replies.push(next),
        ),
{
    reveal_with_fuel(SystemStore::converses, 5);
    reveal_with_fuel(run, 5);
    system.lemma_opening(system.location);
    let next = system.reply(0, run(begin, replies).pending()->0);
    let all = replies.push(next);
    if replies.len() == 0 {
        assert(all.skip(1) =~= seq![]);
    } else {
        let opened = begin.after(replies[0]);
        assert(opened.stage == (LookupStage::Finding { store: system.store }));
        let behind_open = replies.skip(1);
        assert(all.skip(1) =~= behind_open.push(next));
        if behind_open.len() == 0 {
            assert(behind_open.push(next).skip(1) =~= seq![]);
        } else {
            let closing = opened.after(behind_open[0]);
            assert(closing.stage is Closing);
            let behind_find = behind_open.skip(1);
            assert(behind_open.push(next).skip(1) =~= behind_find.push(next));
            if behind_find.len() == 0 {
                assert(behind_find.push(next).skip(1) =~= seq![]);
            } else {
                let end = closing.after(behind_find[0]);
                assert(end.pending() is None);
                assert(behind_find.skip(1).len() == 0);
            }
        }
    }
    next
}

} // verus!
