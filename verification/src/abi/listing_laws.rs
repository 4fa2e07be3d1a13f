//! What a listing of a store comes to, and a lookup of what was listed, told
//! from the certificates in the store.

use crate::abi::cert::{
    name_text, thumbprint, usage_allows_client_auth, usage_size, StoreLocation,
};
use crate::abi::crypt32::{
    answers, identifiers_terminated, CallOf, CallView, Ledger, ReplyOf, ReplyView, Validity,
};
use crate::abi::listing::{InfoView, ListingStage, ListingView};
use crate::abi::lookup::{LookupStage, LookupView};
use crate::abi::operation::{converses, every_run_is_accounted_for, run, settle, Operation};
use crate::error::ErrorView;
use vstd::prelude::*;

verus! {

/// What crypt32 answers when it is asked for a name of a certificate.
pub struct NameFacts {
    /// The length that it asks for.
    pub len: u32,
    /// The number of characters that it writes.
    pub written: u32,
    /// What stands in the buffer then.
    pub units: Seq<u16>,
}

impl NameFacts {
    /// The name: empty where there is none.
    pub open spec fn name(self) -> Seq<char> {
        if self.len <= 1 {
            seq![]
        } else {
            name_text(self.written, self.units)
        }
    }

    /// Whether no more is written than was asked for.
    pub open spec fn well_formed(self) -> bool {
        self.units.len() == self.len && self.written <= self.len + 1
    }
}

/// What crypt32 answers when it is asked about a certificate.
pub struct CertFacts {
    /// Its context.
    pub ctx: usize,
    /// Whether its key-provider property can be sized; 0 is false.
    pub key: i32,
    /// Its validity dates.
    pub validity: Option<Validity>,
    /// How the current time lies to them.
    pub time: i32,
    /// Whether its usages can be sized; 0 is false.
    pub usage_sized: i32,
    /// The size that its usages take.
    pub usage_size: u32,
    /// Whether its usages can be read; 0 is false.
    pub usage_read: i32,
    /// Its usages.
    pub usages: Seq<Option<Seq<u8>>>,
    /// Whether its thumbprint can be read; 0 is false.
    pub hash_read: i32,
    /// The size of its thumbprint.
    pub hash_size: u32,
    /// Its thumbprint.
    pub hash: [u8; 20],
    /// The subject's name.
    pub subject: NameFacts,
    /// The issuer's name.
    pub issuer: NameFacts,
}

impl CertFacts {
    /// Whether the certificate is currently valid.
    pub open spec fn is_time_valid(self) -> bool {
        self.validity is Some && self.time == 0
    }

    /// Whether the certificate may be used for client authentication.
    pub open spec fn allows_client_auth(self) -> bool {
        usage_size(self.usage_sized, self.usage_size) is Some && usage_allows_client_auth(
            self.usage_read,
            self.usages,
        )
    }

    /// Whether the certificate could be presented as a client identity, and
    /// its thumbprint is known.
    pub open spec fn is_usable(self) -> bool {
        &&& self.key != 0
        &&& self.is_time_valid()
        &&& self.allows_client_auth()
        &&& self.sha1() is Some
    }

    /// Its thumbprint, where it can be read.
    pub open spec fn sha1(self) -> Option<[u8; 20]> {
        thumbprint(self.hash_read, self.hash_size, self.hash)
    }

    /// How the certificate is listed.
    pub open spec fn info(self) -> InfoView {
        InfoView {
            sha1: self.hash,
            subject: self.subject.name(),
            issuer: self.issuer.name(),
            not_before: self.validity->0.not_before,
            not_after: self.validity->0.not_after,
        }
    }

    /// The name that `flags` ask for.
    pub open spec fn named(self, flags: u32) -> NameFacts {
        if flags == 0 {
            self.subject
        } else {
            self.issuer
        }
    }

    /// Whether crypt32 can give these answers.
    pub open spec fn well_formed(self) -> bool {
        &&& self.ctx != 0
        &&& identifiers_terminated(self.usages)
        &&& self.subject.well_formed()
        &&& self.issuer.well_formed()
    }
}

/// A store that opens, and the certificates in it.
pub struct StoreFacts {
    /// The store.
    pub store: usize,
    /// Its certificates, in its order.
    pub certs: Seq<CertFacts>,
}

impl StoreFacts {
    /// Whether the store is not null, and crypt32 can give the answers about
    /// its certificates.
    pub open spec fn well_formed(self) -> bool {
        &&& self.store != 0
        &&& forall|i: int| 0 <= i < self.certs.len() ==> #[trigger] self.certs[i].well_formed()
    }

    /// The context of a certificate; null behind the last.
    pub open spec fn context(self, place: nat) -> usize {
        if place < self.certs.len() {
            self.certs[place as int].ctx
        } else {
            0
        }
    }

    /// Whether a search for a thumbprint can return `value`: a certificate
    /// that has it, and null only if none has.
    pub open spec fn finds(self, sha1: [u8; 20], value: usize) -> bool {
        ||| exists|i: int|
            0 <= i < self.certs.len() && (#[trigger] self.certs[i]).ctx == value
                && self.certs[i].sha1() == Some(sha1)
        ||| value == 0 && forall|i: int|
            0 <= i < self.certs.len() ==> (#[trigger] self.certs[i]).sha1() != Some(sha1)
    }

    /// Whether `call` can be answered by `reply` once `count` certificates have been
    /// asked for: questions are about the last of them.
    ///
    /// What a failing call writes, the last error of a call and whether a
    /// store was closed are left open.
    pub open spec fn gives(self, count: nat, call: CallView, reply: ReplyView) -> bool {
        let cert = self.certs[count - 1];
        match (call, reply) {
            (CallOf::OpenStore { .. }, ReplyOf::Pointer { value, .. }) => value == self.store,
            (CallOf::NextCertificate { .. }, ReplyOf::Pointer { value, .. }) => value
                == self.context(count),
            (CallOf::FindCertificate { hash, .. }, ReplyOf::Pointer { value, .. }) => self.finds(
                hash,
                value,
            ),
            (CallOf::ReadProperty { property, .. }, ReplyOf::Property { ok, size, data }) =>
                if property == 2 {
                ok == cert.key
            } else {
                ok == cert.hash_read && (ok != 0 ==> size == cert.hash_size && data == cert.hash)
            },
            (CallOf::ReadValidity { .. }, ReplyOf::Validity(validity)) => validity
                == cert.validity,
            (CallOf::CheckTime { .. }, ReplyOf::Time(order)) => order == cert.time,
            (CallOf::SizeUsage { .. }, ReplyOf::UsageSize { ok, size }) => ok == cert.usage_sized
                && (ok != 0 ==> size == cert.usage_size),
            (CallOf::ReadUsage { .. }, ReplyOf::Usage { ok, identifiers }) => ok
                == cert.usage_read && (ok != 0 ==> identifiers == cert.usages),
            (CallOf::SizeName { flags, .. }, ReplyOf::NameLength(len)) => len == cert.named(
                flags,
            ).len,
            (CallOf::ReadName { flags, .. }, ReplyOf::Name { written, units }) => written
                == cert.named(flags).written && units == cert.named(flags).units,
            (CallOf::CloseStore { .. }, ReplyOf::Status { .. }) => true,
            _ => false,
        }
    }

    /// Whether an operation that has asked for `count` certificates can get
    /// `replies` from this store next.
    pub open spec fn told<O: Operation>(
        self,
        operation: O,
        count: nat,
        replies: Seq<ReplyView>,
    ) -> bool
        decreases replies.len(),
    {
        replies.len() == 0 || {
            &&& operation.pending() matches Some(call) && answers(call, replies[0]) && self.gives(
                count,
                call,
                replies[0],
            )
            &&& self.told(
                operation.after(replies[0]),
                Self::counted(count, operation.pending()->0),
                replies.skip(1),
            )
        }
    }

    /// One of the answers that a call of a listing can get.
    spec fn answer(self, count: nat, call: CallView) -> ReplyView {
        let cert = self.certs[count - 1];
        match call {
            CallOf::OpenStore { .. } => ReplyOf::Pointer { value: self.store, last_error: 0 },
            CallOf::NextCertificate { .. } => ReplyOf::Pointer {
                value: self.context(count),
                last_error: 0,
            },
            CallOf::ReadProperty { property, .. } => ReplyOf::Property {
                ok: if property == 2 {
                    cert.key
                } else {
                    cert.hash_read
                },
                size: cert.hash_size,
                data: cert.hash,
            },
            CallOf::ReadValidity { .. } => ReplyOf::Validity(cert.validity),
            CallOf::CheckTime { .. } => ReplyOf::Time(cert.time),
            CallOf::SizeUsage { .. } => ReplyOf::UsageSize {
                ok: cert.usage_sized,
                size: cert.usage_size,
            },
            CallOf::ReadUsage { .. } => ReplyOf::Usage {
                ok: cert.usage_read,
                identifiers: cert.usages,
            },
            CallOf::SizeName { flags, .. } => ReplyOf::NameLength(cert.named(flags).len),
            CallOf::ReadName { flags, .. } => ReplyOf::Name {
                written: cert.named(flags).written,
                units: cert.named(flags).units,
            },
            _ => ReplyOf::Status { ok: 1, last_error: 0 },
        }
    }

    /// How many certificates have been asked for after `call`, having been
    /// `count` before.
    pub open spec fn counted(count: nat, call: CallView) -> nat {
        if call is NextCertificate {
            count + 1
        } else {
            count
        }
    }

    /// The usable ones among the first `count` certificates, in order.
    pub open spec fn usable(self, count: nat) -> Seq<InfoView>
        decreases count,
    {
        if count == 0 {
            seq![]
        } else {
            let before = self.usable((count - 1) as nat);
            if self.certs[count - 1].is_usable() {
                before.push(self.certs[count - 1].info())
            } else {
                before
            }
        }
    }

    /// Up to `steps` answers that a listing can get from this store next once
    /// it has asked for `count` certificates.
    spec fn transcript(self, listing: ListingView, count: nat, steps: nat) -> Seq<ReplyView>
        decreases steps,
    {
        if steps == 0 || listing.pending() is None {
            seq![]
        } else {
            let call = listing.pending()->0;
            let reply = self.answer(count, call);
            seq![reply] + self.transcript(
                listing.after(reply),
                Self::counted(count, call),
                (steps - 1) as nat,
            )
        }
    }

    /// The listing, and the number of certificates asked for, after the next
    /// `steps` answers from this store.
    spec fn driven(self, listing: ListingView, count: nat, steps: nat) -> (ListingView, nat)
        decreases steps,
    {
        if steps == 0 || listing.pending() is None {
            (listing, count)
        } else {
            let call = listing.pending()->0;
            self.driven(
                listing.after(self.answer(count, call)),
                Self::counted(count, call),
                (steps - 1) as nat,
            )
        }
    }

    /// Whether a listing of this store can be at this point.
    spec fn on_course(self, listing: ListingView, count: nat) -> bool {
        let asked = 0 < count <= self.certs.len();
        match listing.stage {
            ListingStage::Opening => true,
            ListingStage::Advancing => true,
            ListingStage::Closing => true,
            ListingStage::Finished => true,
            ListingStage::Failed { .. } => true,
            ListingStage::ReadingSubject { len, .. } => asked && self.certs[count
                - 1].subject.len == len,
            ListingStage::ReadingIssuer { len, .. } => asked && self.certs[count - 1].issuer.len
                == len,
            _ => asked,
        }
    }

    proof fn lemma_answers(self, listing: ListingView, count: nat)
        requires
            self.well_formed(),
            self.on_course(listing, count),
            listing.pending() is Some,
        ensures
            answers(listing.pending()->0, self.answer(count, listing.pending()->0)),
            self.on_course(
                listing.after(self.answer(count, listing.pending()->0)),
                Self::counted(count, listing.pending()->0),
            ),
    {
        if 0 < count <= self.certs.len() {
            assert(self.certs[count - 1].well_formed());
        }
    }

    /// A listing can get the answers of its transcript.
    proof fn lemma_transcript_is_told(self, listing: ListingView, count: nat, steps: nat)
        requires
            self.well_formed(),
            self.on_course(listing, count),
        ensures
            self.told(listing, count, self.transcript(listing, count, steps)),
            self.driven(listing, count, steps) == self.driven(
                listing,
                count,
                self.transcript(listing, count, steps).len(),
            ),
        decreases steps,
    {
        if steps > 0 && listing.pending() is Some {
            let call = listing.pending()->0;
            let reply = self.answer(count, call);
            let counted = Self::counted(count, call);
            let rest = self.transcript(listing.after(reply), counted, (steps - 1) as nat);
            self.lemma_answers(listing, count);
            self.lemma_transcript_is_told(listing.after(reply), counted, (steps - 1) as nat);
            assert((seq![reply] + rest).skip(1) =~= rest);
        }
    }

    /// Whichever answers a listing gets, it goes the same way.
    proof fn lemma_told_is_driven(
        self,
        listing: ListingView,
        count: nat,
        replies: Seq<ReplyView>,
    )
        requires
            self.well_formed(),
            self.on_course(listing, count),
            self.told(listing, count, replies),
        ensures
            converses(listing, replies),
            run(listing, replies) == self.driven(listing, count, replies.len()).0,
        decreases replies.len(),
    {
        if replies.len() > 0 {
            let call = listing.pending()->0;
            let counted = Self::counted(count, call);
            self.lemma_answers(listing, count);
            assert(listing.after(replies[0]) == listing.after(self.answer(count, call)));
            self.lemma_told_is_driven(listing.after(replies[0]), counted, replies.skip(1));
        }
    }

    /// A listing that is over after `steps` answers gets no more than those.
    proof fn lemma_told_ends(
        self,
        listing: ListingView,
        count: nat,
        replies: Seq<ReplyView>,
        steps: nat,
    )
        requires
            self.well_formed(),
            self.on_course(listing, count),
            self.told(listing, count, replies),
            self.driven(listing, count, steps).0.pending() is None,
        ensures
            replies.len() <= steps,
        decreases replies.len(),
    {
        if replies.len() > 0 {
            let call = listing.pending()->0;
            let counted = Self::counted(count, call);
            self.lemma_answers(listing, count);
            assert(listing.after(replies[0]) == listing.after(self.answer(count, call)));
            self.lemma_told_ends(
                listing.after(replies[0]),
                counted,
                replies.skip(1),
                (steps - 1) as nat,
            );
        }
    }

    /// Answers can be given in two parts.
    proof fn lemma_driven_further(self, listing: ListingView, count: nat, first: nat, second: nat)
        ensures
            ({
                let (halfway, halfway_count) = self.driven(listing, count, first);
                self.driven(halfway, halfway_count, second) == self.driven(
                    listing,
                    count,
                    first + second,
                )
            }),
        decreases first,
    {
        if first > 0 && listing.pending() is Some {
            let call = listing.pending()->0;
            self.lemma_driven_further(
                listing.after(self.answer(count, call)),
                Self::counted(count, call),
                (first - 1) as nat,
                second,
            );
        }
    }

    /// One more answer takes a listing on.
    proof fn lemma_driven_on(self, listing: ListingView, count: nat, steps: nat)
        requires
            listing.pending() is Some,
        ensures
            self.driven(listing, count, steps + 1) == self.driven(
                listing.after(self.answer(count, listing.pending()->0)),
                Self::counted(count, listing.pending()->0),
                steps,
            ),
    {
    }

    /// A listing that has the subject's name lists the certificate.
    proof fn lemma_issuer(
        self,
        listing: ListingView,
        count: nat,
        dates: Validity,
        sha1: [u8; 20],
    ) -> (steps: nat)
        requires
            listing.stage == (ListingStage::SizingIssuer { dates, sha1 }),
        ensures
            self.driven(listing, count, steps) == (
                listing.with_issuer(dates, sha1, self.certs[count - 1].issuer.name()),
                count,
            ),
    {
        reveal_with_fuel(StoreFacts::driven, 3);
        if self.certs[count - 1].issuer.len <= 1 {
            1
        } else {
            2
        }
    }

    /// A listing that has the thumbprint reads the subject's name.
    proof fn lemma_subject(
        self,
        listing: ListingView,
        count: nat,
        dates: Validity,
        sha1: [u8; 20],
    ) -> (steps: nat)
        requires
            listing.stage == (ListingStage::SizingSubject { dates, sha1 }),
        ensures
            self.driven(listing, count, steps) == (
                listing.with_subject(dates, sha1, self.certs[count - 1].subject.name()),
                count,
            ),
    {
        reveal_with_fuel(StoreFacts::driven, 3);
        if self.certs[count - 1].subject.len <= 1 {
            1
        } else {
            2
        }
    }

    /// A listing reads dates and thumbprint of a certificate that passed the
    /// checks, and lists it if it has them.
    proof fn lemma_checked_certificate(self, listing: ListingView, count: nat) -> (steps: nat)
        requires
            listing.stage is ReadingDates,
        ensures
            ({
                let (past, past_count) = self.driven(listing, count, steps);
                let cert = self.certs[count - 1];
                &&& past_count == count
                &&& past.stage is Advancing
                &&& past.listed == if cert.validity is Some && cert.sha1() is Some {
                    listing.listed.push(cert.info())
                } else {
                    listing.listed
                }
            }),
    {
        let cert = self.certs[count - 1];
        let dated = listing.after(self.answer(count, listing.pending()->0));
        if let Some(dates) = cert.validity {
            let hashed = dated.after(self.answer(count, dated.pending()->0));
            let rest = if let Some(sha1) = cert.sha1() {
                let first = self.lemma_subject(hashed, count, dates, sha1);
                let named = self.driven(hashed, count, first).0;
                let second = self.lemma_issuer(named, count, dates, sha1);
                self.lemma_driven_further(hashed, count, first, second);
                first + second
            } else {
                0nat
            };
            self.lemma_driven_on(dated, count, rest);
            self.lemma_driven_on(listing, count, rest + 1);
            rest + 2
        } else {
            self.lemma_driven_on(listing, count, 0);
            1
        }
    }

    /// A listing goes past a certificate, and lists it if it is usable.
    proof fn lemma_one_certificate(self, listing: ListingView, count: nat) -> (steps: nat)
        requires
            listing.stage is CheckingKey,
        ensures
            ({
                let (past, past_count) = self.driven(listing, count, steps);
                let cert = self.certs[count - 1];
                &&& past_count == count
                &&& past.stage is Advancing
                &&& past.listed == if cert.is_usable() {
                    listing.listed.push(cert.info())
                } else {
                    listing.listed
                }
            }),
    {
        let cert = self.certs[count - 1];
        let keyed = listing.after(self.answer(count, listing.pending()->0));
        let dated = keyed.after(self.answer(count, keyed.pending()->0));
        let timed = dated.after(self.answer(count, dated.pending()->0));
        let sized = timed.after(self.answer(count, timed.pending()->0));
        let checked = sized.after(self.answer(count, sized.pending()->0));
        if cert.key == 0 {
            self.lemma_driven_on(listing, count, 0);
            1
        } else if cert.validity is None {
            self.lemma_driven_on(keyed, count, 0);
            self.lemma_driven_on(listing, count, 1);
            2
        } else if cert.time != 0 {
            self.lemma_driven_on(dated, count, 0);
            self.lemma_driven_on(keyed, count, 1);
            self.lemma_driven_on(listing, count, 2);
            3
        } else {
            let rest = if usage_size(cert.usage_sized, cert.usage_size) is None {
                0nat
            } else if usage_allows_client_auth(cert.usage_read, cert.usages) {
                let rest = self.lemma_checked_certificate(checked, count);
                self.lemma_driven_on(sized, count, rest);
                rest + 1
            } else {
                self.lemma_driven_on(sized, count, 0);
                1nat
            };
            self.lemma_driven_on(timed, count, rest);
            self.lemma_driven_on(dated, count, rest + 1);
            self.lemma_driven_on(keyed, count, rest + 2);
            self.lemma_driven_on(listing, count, rest + 3);
            rest + 4
        }
    }

    /// A listing goes past the first `count` certificates, and lists the
    /// usable ones among them.
    proof fn lemma_first_certificates(self, listing: ListingView, count: nat) -> (steps: nat)
        requires
            self.well_formed(),
            listing.stage is Advancing,
            listing.listed == Seq::<InfoView>::empty(),
            count <= self.certs.len(),
        ensures
            ({
                let (past, past_count) = self.driven(listing, 0, steps);
                &&& past_count == count
                &&& past.stage is Advancing
                &&& past.listed == self.usable(count)
            }),
        decreases count,
    {
        if count == 0 {
            0
        } else {
            let asked = (count - 1) as nat;
            let before = self.lemma_first_certificates(listing, asked);
            let waiting = self.driven(listing, 0, before).0;
            assert(self.certs[asked as int].well_formed());
            let reached = waiting.after(self.answer(asked, waiting.pending()->0));
            let steps = self.lemma_one_certificate(reached, count);
            self.lemma_driven_on(waiting, asked, steps);
            self.lemma_driven_further(listing, 0, before, steps + 1);
            before + (steps + 1)
        }
    }
}

/// A listing of a store comes to exactly the usable certificates in it, in
/// the store's order, whichever of the possible answers it gets; and which it
/// gets does not change the number of calls after which it is over.
pub proof fn listing_comes_to_the_usable_certificates(
    location: StoreLocation,
    store_name: Seq<char>,
    store: StoreFacts,
) -> (steps: nat)
    requires
        store.well_formed(),
    ensures
        ({
            let begin = ListingView::start(location, store_name);
            &&& forall|replies: Seq<ReplyView>| #[trigger]
                store.told(begin, 0, replies) ==> {
                    &&& converses(begin, replies)
                    &&& replies.len() <= steps
                    &&& replies.len() == steps ==> run(begin, replies).pending() is None
                    &&& run(begin, replies).pending() is None ==> run(begin, replies).outcome()
                        == Some(Ok::<Seq<InfoView>, ErrorView>(store.usable(store.certs.len())))
                }
            &&& exists|replies: Seq<ReplyView>| #[trigger]
                store.told(begin, 0, replies) && run(begin, replies).pending() is None
        }),
{
    let begin = ListingView::start(location, store_name);
    let opened = begin.after(store.answer(0, begin.pending()->0));
    let all = store.certs.len();
    let rest = store.lemma_first_certificates(opened, all);
    let waiting = store.driven(opened, 0, rest).0;
    let expected = Some(Ok::<Seq<InfoView>, ErrorView>(store.usable(all)));
    assert(store.driven(waiting, all, 2).0.outcome() == expected) by {
        reveal_with_fuel(StoreFacts::driven, 3);
    }
    store.lemma_driven_further(opened, 0, rest, 2);
    store.lemma_driven_on(begin, 0, rest + 2);
    let steps = rest + 2 + 1;
    let end = store.driven(begin, 0, steps).0;
    assert(end.outcome() == expected);
    assert forall|replies: Seq<ReplyView>| #[trigger] store.told(begin, 0, replies) implies {
        &&& converses(begin, replies)
        &&& replies.len() <= steps
        &&& replies.len() == steps ==> run(begin, replies).pending() is None
        &&& run(begin, replies).pending() is None ==> run(begin, replies).outcome() == expected
    } by {
        store.lemma_told_is_driven(begin, 0, replies);
        store.lemma_told_ends(begin, 0, replies, steps);
        store.lemma_driven_further(begin, 0, replies.len(), (steps - replies.len()) as nat);
    }
    let one = store.transcript(begin, 0, steps);
    store.lemma_transcript_is_told(begin, 0, steps);
    store.lemma_told_is_driven(begin, 0, one);
    assert(store.told(begin, 0, one) && run(begin, one).pending() is None);
    steps
}

/// Whether the certificates of two stores have the same thumbprints, place by
/// place.  Handles and contexts may differ, as they do when a store is opened
/// again.
pub open spec fn same_thumbprints(a: StoreFacts, b: StoreFacts) -> bool {
    &&& a.certs.len() == b.certs.len()
    &&& forall|i: int|
        0 <= i < a.certs.len() ==> (#[trigger] a.certs[i]).sha1() == b.certs[i].sha1()
}

/// What is listed has the thumbprint of a certificate in the store.
proof fn lemma_usable_has_its_thumbprint(store: StoreFacts, count: nat, place: int) -> (cert: int)
    requires
        count <= store.certs.len(),
        0 <= place < store.usable(count).len(),
    ensures
        0 <= cert < count,
        store.certs[cert].sha1() == Some(store.usable(count)[place].sha1),
    decreases count,
{
    let before = store.usable((count - 1) as nat);
    if place < before.len() {
        lemma_usable_has_its_thumbprint(store, (count - 1) as nat, place)
    } else {
        count - 1
    }
}

/// A lookup that is over returned what its search found.
proof fn lemma_lookup_comes_to_the_search(
    lookup: LookupView,
    store: StoreFacts,
    replies: Seq<ReplyView>,
) -> (found: usize)
    requires
        lookup.stage is Opening,
        store.well_formed(),
        store.told(lookup, 0, replies),
        run(lookup, replies).pending() is None,
    ensures
        store.finds(lookup.sha1, found),
        found != 0 ==> run(lookup, replies).outcome() == Some(Ok::<usize, ErrorView>(found)),
{
    reveal_with_fuel(StoreFacts::told, 4);
    reveal_with_fuel(run, 4);
    assert(replies.len() > 0);
    let opened = lookup.after(replies[0]);
    let behind_open = replies.skip(1);
    assert(opened.stage == (LookupStage::Finding { store: store.store }));
    assert(behind_open.len() > 0);
    let found = match behind_open[0] {
        ReplyOf::Pointer { value, .. } => value,
        _ => 0,
    };
    let closing = opened.after(behind_open[0]);
    let behind_find = behind_open.skip(1);
    assert(closing.stage == (LookupStage::Closing { store: store.store, found }));
    assert(behind_find.len() > 0);
    let end = closing.after(behind_find[0]);
    let behind_close = behind_find.skip(1);
    assert(end.stage == (LookupStage::Finished { found }));
    assert(behind_close.len() == 0);
    assert(run(lookup, replies) == end);
    found
}

/// Every listed certificate can be looked up again by the thumbprint listed
/// for it, as long as the store holds the same certificates: the lookup comes
/// to a certificate with that thumbprint.
pub proof fn listed_certificates_can_be_looked_up(
    location: StoreLocation,
    store_name: Seq<char>,
    store: StoreFacts,
    listing_replies: Seq<ReplyView>,
    listed: Seq<InfoView>,
    place: int,
    store_again: StoreFacts,
    lookup_replies: Seq<ReplyView>,
)
    requires
        store.well_formed(),
        store.told(ListingView::start(location, store_name), 0, listing_replies),
        run(ListingView::start(location, store_name), listing_replies).outcome() == Some(
            Ok::<Seq<InfoView>, ErrorView>(listed),
        ),
        0 <= place < listed.len(),
        store_again.well_formed(),
        same_thumbprints(store, store_again),
        store_again.told(
            LookupView::start(location, store_name, listed[place].sha1),
            0,
            lookup_replies,
        ),
        run(
            LookupView::start(location, store_name, listed[place].sha1),
            lookup_replies,
        ).pending() is None,
    ensures
        run(
            LookupView::start(location, store_name, listed[place].sha1),
            lookup_replies,
        ).outcome() matches Some(Ok(found)) && exists|i: int|
            0 <= i < store_again.certs.len() && (#[trigger] store_again.certs[i]).ctx == found
                && store_again.certs[i].sha1() == Some(listed[place].sha1),
{
    let begin = ListingView::start(location, store_name);
    let sha1 = listed[place].sha1;
    let steps = listing_comes_to_the_usable_certificates(location, store_name, store);
    assert(run(begin, listing_replies).pending() is None);
    assert(listed == store.usable(store.certs.len()));
    let cert = lemma_usable_has_its_thumbprint(store, store.certs.len(), place);
    assert(store.certs[cert].sha1() == store_again.certs[cert].sha1());
    let found = lemma_lookup_comes_to_the_search(
        LookupView::start(location, store_name, sha1),
        store_again,
        lookup_replies,
    );
    assert(exists|i: int|
        0 <= i < store_again.certs.len() && (#[trigger] store_again.certs[i]).ctx == found
            && store_again.certs[i].sha1() == Some(sha1));
    let at = choose|i: int|
        0 <= i < store_again.certs.len() && (#[trigger] store_again.certs[i]).ctx == found
            && store_again.certs[i].sha1() == Some(sha1);
    assert(store_again.certs[at].well_formed());
}

/// A listing of a store that does not open comes to the Win32 error, after
/// that one call.
pub proof fn listing_of_an_unopened_store_fails(
    location: StoreLocation,
    store_name: Seq<char>,
    code: u32,
)
    ensures
        ListingView::start(location, store_name).after(
            ReplyOf::Pointer { value: 0, last_error: code },
        ).outcome() == Some(Err::<Seq<InfoView>, ErrorView>(ErrorView::Win32(code))),
{
}

/// A listing leaves no store open and no context owned, whatever its calls
/// answer.
pub proof fn listing_leaves_nothing(
    location: StoreLocation,
    store_name: Seq<char>,
    replies: Seq<ReplyView>,
)
    requires
        converses(ListingView::start(location, store_name), replies),
        run(ListingView::start(location, store_name), replies).pending() is None,
    ensures
        settle(ListingView::start(location, store_name), Ledger::empty(), replies)
            == Ledger::empty(),
{
    every_run_is_accounted_for(
        ListingView::start(location, store_name),
        replies,
    );
}

/// A certificate with no usage at all can be listed: it is good for every
/// use.
pub proof fn no_usage_is_every_usage(cert: CertFacts)
    requires
        cert.usages.len() == 0,
        cert.usage_sized != 0,
        cert.usage_size != 0,
        cert.usage_read != 0,
    ensures
        cert.allows_client_auth(),
{
}

} // verus!
