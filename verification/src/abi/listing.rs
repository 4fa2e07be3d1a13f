//! Listing the certificates that can be presented as a client identity.

use crate::abi::cert::{
    allows_client_auth, cert_name, cert_sha1, close_call, close_store, has_associated_key,
    is_time_valid, name_buffer, name_length, name_text, open_call, open_store, read_access,
    thumbprint, usage_allows_client_auth, usage_buffer, usage_size, StoreLocation,
};
use crate::abi::constants::{
    key_prov_info_property, name_issuer, name_simple_display, sha1_hash_property,
};
use crate::abi::crypt32::{
    Call, CallOf, CallView, Ledger, Reply, ReplyOf, ReplyView, Validity,
};
use crate::abi::operation::{Machine, Operation};
use crate::error::{Error, ErrorView};
use vstd::multiset::Multiset;
use vstd::prelude::*;
use windows_sys::Win32::Foundation::FILETIME;

verus! {

/// Metadata for one certificate, read without touching its private key.
pub struct RawCertificateInfo {
    /// The SHA-1 thumbprint.
    pub sha1: [u8; 20],
    /// The subject's display name.
    pub subject: String,
    /// The issuer's display name.
    pub issuer: String,
    /// The first date of validity.
    pub not_before: FILETIME,
    /// The last date of validity.
    pub not_after: FILETIME,
}

/// The contents of a [`RawCertificateInfo`].
pub struct InfoView {
    /// The SHA-1 thumbprint.
    pub sha1: [u8; 20],
    /// The subject's display name.
    pub subject: Seq<char>,
    /// The issuer's display name.
    pub issuer: Seq<char>,
    /// The first date of validity.
    pub not_before: FILETIME,
    /// The last date of validity.
    pub not_after: FILETIME,
}

impl View for RawCertificateInfo {
    type V = InfoView;

    open spec fn view(&self) -> InfoView {
        InfoView {
            sha1: self.sha1,
            subject: self.subject@,
            issuer: self.issuer@,
            not_before: self.not_before,
            not_after: self.not_after,
        }
    }
}

/// The contents of a list of certificates.
pub open spec fn infos_view(infos: Seq<RawCertificateInfo>) -> Seq<InfoView> {
    infos.map_values(|info: RawCertificateInfo| info@)
}

/// How far a listing has got.
#[derive(Clone, Copy)]
pub enum ListingStage {
    /// The store is being opened.
    Opening,
    /// The next certificate is being asked for.
    Advancing,
    /// Whether the certificate has a key is being asked.
    CheckingKey,
    /// Whether the certificate has validity dates is being asked.
    CheckingDates,
    /// Whether the certificate is valid now is being asked.
    CheckingTime,
    /// The size of the certificate's usages is being asked.
    SizingUsage,
    /// The certificate's usages are being read.
    ReadingUsage {
        /// The size of the buffer.
        size: u32,
    },
    /// The certificate's validity dates are being read.
    ReadingDates,
    /// The certificate's thumbprint is being read.
    ReadingHash {
        /// The certificate's validity dates.
        dates: Validity,
    },
    /// The length of the subject's name is being asked.
    SizingSubject {
        /// The certificate's validity dates.
        dates: Validity,
        /// Its thumbprint.
        sha1: [u8; 20],
    },
    /// The subject's name is being read.
    ReadingSubject {
        /// The certificate's validity dates.
        dates: Validity,
        /// Its thumbprint.
        sha1: [u8; 20],
        /// The length of the buffer.
        len: u32,
    },
    /// The length of the issuer's name is being asked.
    SizingIssuer {
        /// The certificate's validity dates.
        dates: Validity,
        /// Its thumbprint.
        sha1: [u8; 20],
    },
    /// The issuer's name is being read.
    ReadingIssuer {
        /// The certificate's validity dates.
        dates: Validity,
        /// Its thumbprint.
        sha1: [u8; 20],
        /// The length of the buffer.
        len: u32,
    },
    /// The store is being closed.
    Closing,
    /// The listing is over.
    Finished,
    /// The store could not be opened.
    Failed {
        /// The Win32 error.
        code: u32,
    },
}

/// The state of a [`StoreListing`].
pub struct ListingView {
    /// Where the store is.
    pub location: StoreLocation,
    /// Its name.
    pub store_name: Seq<char>,
    /// The store, once it is open.
    pub store: usize,
    /// The certificate last returned; null before the first and at the end.
    pub ctx: usize,
    /// The name of the subject last read.
    pub subject: Seq<char>,
    /// The certificates listed so far.
    pub listed: Seq<InfoView>,
    /// How far the listing has got.
    pub stage: ListingStage,
}

impl ListingView {
    /// A listing about to begin.
    pub open spec fn start(location: StoreLocation, store_name: Seq<char>) -> ListingView {
        ListingView {
            location,
            store_name,
            store: 0,
            ctx: 0,
            subject: seq![],
            listed: seq![],
            stage: ListingStage::Opening,
        }
    }

    /// This listing at another stage.
    pub open spec fn at(self, stage: ListingStage) -> ListingView {
        ListingView { stage, ..self }
    }

    /// This listing at `stage` if the certificate passed a check, and past
    /// the certificate if it did not.
    pub open spec fn if_passed(self, passed: bool, stage: ListingStage) -> ListingView {
        if passed {
            self.at(stage)
        } else {
            self.at(ListingStage::Advancing)
        }
    }

    /// This listing with the subject's name read.
    pub open spec fn with_subject(
        self,
        dates: Validity,
        sha1: [u8; 20],
        subject: Seq<char>,
    ) -> ListingView {
        ListingView { subject, stage: ListingStage::SizingIssuer { dates, sha1 }, ..self }
    }

    /// This listing with the certificate listed.
    pub open spec fn with_issuer(
        self,
        dates: Validity,
        sha1: [u8; 20],
        issuer: Seq<char>,
    ) -> ListingView {
        ListingView {
            listed: self.listed.push(
                InfoView {
                    sha1,
                    subject: self.subject,
                    issuer,
                    not_before: dates.not_before,
                    not_after: dates.not_after,
                },
            ),
            stage: ListingStage::Advancing,
            ..self
        }
    }

    /// What the listing came to, once it is over.
    pub open spec fn outcome(self) -> Option<Result<Seq<InfoView>, ErrorView>> {
        match self.stage {
            ListingStage::Finished => Some(Ok(self.listed)),
            ListingStage::Failed { code } => Some(Err(ErrorView::Win32(code))),
            _ => None,
        }
    }
}

/// The call that asks whether a key is associated with a certificate.
///
/// Association is read from a property rather than by acquiring the key:
/// acquiring reaches the provider, which for a smartcard or TPM can be slow
/// and can prompt for a PIN.
pub open spec fn key_call(ctx: usize) -> CallView {
    CallOf::ReadProperty { ctx, property: 2, size: 0 }
}

/// The call that reads a certificate's thumbprint.
pub open spec fn hash_call(ctx: usize) -> CallView {
    CallOf::ReadProperty { ctx, property: 3, size: 20 }
}

/// The call that asks for the length of a name of a certificate.
pub open spec fn name_length_call(ctx: usize, flags: u32) -> CallView {
    CallOf::SizeName { ctx, kind: 4, flags }
}

/// The call that reads a name of a certificate.
pub open spec fn name_call(ctx: usize, flags: u32, len: u32) -> CallView {
    CallOf::ReadName { ctx, kind: 4, flags, len }
}

impl Operation for ListingView {
    open spec fn pending(self) -> Option<CallView> {
        let ctx = self.ctx;
        match self.stage {
            ListingStage::Opening => Some(
                open_call(self.location, self.store_name, read_access()),
            ),
            ListingStage::Advancing => Some(
                CallOf::NextCertificate { store: self.store, previous: ctx },
            ),
            ListingStage::CheckingKey => Some(key_call(ctx)),
            ListingStage::CheckingDates => Some(CallOf::ReadValidity { ctx }),
            ListingStage::CheckingTime => Some(CallOf::CheckTime { ctx }),
            ListingStage::SizingUsage => Some(CallOf::SizeUsage { ctx, flags: 0 }),
            ListingStage::ReadingUsage { size } => Some(
                CallOf::ReadUsage { ctx, flags: 0, size },
            ),
            ListingStage::ReadingDates => Some(CallOf::ReadValidity { ctx }),
            ListingStage::ReadingHash { .. } => Some(hash_call(ctx)),
            ListingStage::SizingSubject { .. } => Some(name_length_call(ctx, 0)),
            ListingStage::ReadingSubject { len, .. } => Some(name_call(ctx, 0, len)),
            ListingStage::SizingIssuer { .. } => Some(name_length_call(ctx, 1)),
            ListingStage::ReadingIssuer { len, .. } => Some(name_call(ctx, 1, len)),
            ListingStage::Closing => Some(close_call(self.store)),
            ListingStage::Finished => None,
            ListingStage::Failed { .. } => None,
        }
    }

    open spec fn after(self, reply: ReplyView) -> ListingView {
        match (self.stage, reply) {
            (ListingStage::Opening, ReplyOf::Pointer { value, last_error }) => if value == 0 {
                self.at(ListingStage::Failed { code: last_error })
            } else {
                ListingView { store: value, stage: ListingStage::Advancing, ..self }
            },
            (ListingStage::Advancing, ReplyOf::Pointer { value, .. }) => ListingView {
                ctx: value,
                stage: if value == 0 {
                    ListingStage::Closing
                } else {
                    ListingStage::CheckingKey
                },
                ..self
            },
            (ListingStage::CheckingKey, ReplyOf::Property { ok, .. }) => self.if_passed(
                ok != 0,
                ListingStage::CheckingDates,
            ),
            (ListingStage::CheckingDates, ReplyOf::Validity(validity)) => self.if_passed(
                validity is Some,
                ListingStage::CheckingTime,
            ),
            (ListingStage::CheckingTime, ReplyOf::Time(order)) => self.if_passed(
                order == 0,
                ListingStage::SizingUsage,
            ),
            (ListingStage::SizingUsage, ReplyOf::UsageSize { ok, size }) => self.if_passed(
                usage_size(ok, size) is Some,
                ListingStage::ReadingUsage { size },
            ),
            (ListingStage::ReadingUsage { .. }, ReplyOf::Usage { ok, identifiers }) =>
                self.if_passed(
                usage_allows_client_auth(ok, identifiers),
                ListingStage::ReadingDates,
            ),
            (ListingStage::ReadingDates, ReplyOf::Validity(validity)) => match validity {
                Some(dates) => self.at(ListingStage::ReadingHash { dates }),
                None => self.at(ListingStage::Advancing),
            },
            (ListingStage::ReadingHash { dates }, ReplyOf::Property { ok, size, data }) =>
                match thumbprint(ok, size, data) {
                Some(sha1) => self.at(ListingStage::SizingSubject { dates, sha1 }),
                None => self.at(ListingStage::Advancing),
            },
            (ListingStage::SizingSubject { dates, sha1 }, ReplyOf::NameLength(len)) =>
                match name_length(len) {
                Some(len) => self.at(ListingStage::ReadingSubject { dates, sha1, len }),
                None => self.with_subject(dates, sha1, seq![]),
            },
            (
                ListingStage::ReadingSubject { dates, sha1, .. },
                ReplyOf::Name { written, units },
            ) => self.with_subject(dates, sha1, name_text(written, units)),
            (ListingStage::SizingIssuer { dates, sha1 }, ReplyOf::NameLength(len)) =>
                match name_length(len) {
                Some(len) => self.at(ListingStage::ReadingIssuer { dates, sha1, len }),
                None => self.with_issuer(dates, sha1, seq![]),
            },
            (ListingStage::ReadingIssuer { dates, sha1, .. }, ReplyOf::Name { written, units }) =>
                self.with_issuer(dates, sha1, name_text(written, units)),
            (ListingStage::Closing, ReplyOf::Status { .. }) => self.at(ListingStage::Finished),
            _ => self,
        }
    }

    open spec fn holds(self) -> Ledger {
        match self.stage {
            ListingStage::Opening => Ledger::empty(),
            ListingStage::Finished => Ledger::empty(),
            ListingStage::Failed { .. } => Ledger::empty(),
            _ => Ledger::empty().gain_store(self.store).gain_context(self.ctx),
        }
    }

    open spec fn well_formed(self) -> bool {
        match self.stage {
            ListingStage::Opening => self.ctx == 0,
            ListingStage::Advancing => self.store != 0,
            ListingStage::Closing => self.store != 0 && self.ctx == 0,
            ListingStage::Finished => true,
            ListingStage::Failed { .. } => true,
            _ => self.store != 0 && self.ctx != 0,
        }
    }

    proof fn pending_is_permitted(self) {
    }

    proof fn resuming_is_accounted_for(self, reply: ReplyView) {
        let ctx = Multiset::<usize>::empty().insert(self.ctx);
        assert(ctx.remove(self.ctx) =~= Multiset::empty());
        let store = Multiset::<usize>::empty().insert(self.store);
        assert(store.remove(self.store) =~= Multiset::empty());
    }
}

/// A listing of the certificates in a system store.
#[must_use]
pub struct StoreListing {
    location: StoreLocation,
    store_name: String,
    store: usize,
    ctx: usize,
    subject: String,
    listed: Vec<RawCertificateInfo>,
    stage: ListingStage,
}

impl View for StoreListing {
    type V = ListingView;

    closed spec fn view(&self) -> ListingView {
        ListingView {
            location: self.location,
            store_name: self.store_name@,
            store: self.store,
            ctx: self.ctx,
            subject: self.subject@,
            listed: infos_view(self.listed@),
            stage: self.stage,
        }
    }
}

/// List certificates in a store that could be presented as a client
/// identity: a key is associated, the certificate is currently valid, and it
/// is usable for client authentication.
///
/// That a key is associated proves that one is bound to the certificate, not
/// that its token is present and unlocked; that is settled at handshake time.
///
/// # Errors
///
/// The listing fails with the Win32 error if the store cannot be opened.
pub fn list_usable_certs(location: StoreLocation, store_name: &str) -> (listing: StoreListing)
    ensures
        listing@ == ListingView::start(location, store_name@),
{
    let listing = StoreListing {
        location,
        store_name: String::from_str(store_name),
        store: 0,
        ctx: 0,
        subject: String::new(),
        listed: Vec::new(),
        stage: ListingStage::Opening,
    };
    assert(listing@.listed =~= seq![]);
    listing
}

impl Machine for StoreListing {
    type Model = ListingView;

    open spec fn model(&self) -> ListingView {
        self@
    }

    fn pending(&self) -> (call: Option<Call>) {
        let ctx: usize = self.ctx;
        match self.stage {
            ListingStage::Opening => Some(open_store(self.location, self.store_name.as_str())),
            // The call releases the context passed as the previous one, so a
            // full enumeration, which ends with null, releases nothing itself.
            ListingStage::Advancing => Some(
                CallOf::NextCertificate { store: self.store, previous: ctx },
            ),
            ListingStage::CheckingKey => Some(
                CallOf::ReadProperty { ctx, property: key_prov_info_property(), size: 0 },
            ),
            ListingStage::CheckingDates => Some(CallOf::ReadValidity { ctx }),
            ListingStage::CheckingTime => Some(CallOf::CheckTime { ctx }),
            ListingStage::SizingUsage => Some(CallOf::SizeUsage { ctx, flags: 0 }),
            ListingStage::ReadingUsage { size } => Some(
                CallOf::ReadUsage { ctx, flags: 0, size },
            ),
            ListingStage::ReadingDates => Some(CallOf::ReadValidity { ctx }),
            ListingStage::ReadingHash { .. } => Some(
                CallOf::ReadProperty { ctx, property: sha1_hash_property(), size: 20 },
            ),
            ListingStage::SizingSubject { .. } => Some(
                CallOf::SizeName { ctx, kind: name_simple_display(), flags: 0 },
            ),
            ListingStage::ReadingSubject { len, .. } => Some(
                CallOf::ReadName { ctx, kind: name_simple_display(), flags: 0, len },
            ),
            ListingStage::SizingIssuer { .. } => Some(
                CallOf::SizeName { ctx, kind: name_simple_display(), flags: name_issuer() },
            ),
            ListingStage::ReadingIssuer { len, .. } => Some(
                CallOf::ReadName { ctx, kind: name_simple_display(), flags: name_issuer(), len },
            ),
            ListingStage::Closing => Some(close_store(self.store)),
            ListingStage::Finished => None,
            ListingStage::Failed { .. } => None,
        }
    }

    fn resume(&mut self, reply: Reply) {
        match (self.stage, reply) {
            (ListingStage::Opening, ReplyOf::Pointer { value, last_error }) => {
                if value == 0 {
                    self.stage = ListingStage::Failed { code: last_error };
                } else {
                    self.store = value;
                    self.stage = ListingStage::Advancing;
                }
            },
            (ListingStage::Advancing, ReplyOf::Pointer { value, .. }) => {
                self.ctx = value;
                if value == 0 {
                    self.stage = ListingStage::Closing;
                } else {
                    self.stage = ListingStage::CheckingKey;
                }
            },
            (ListingStage::CheckingKey, ReplyOf::Property { ok, .. }) => {
                self.go_on_if(has_associated_key(ok), ListingStage::CheckingDates);
            },
            (ListingStage::CheckingDates, ReplyOf::Validity(validity)) => {
                self.go_on_if(validity.is_some(), ListingStage::CheckingTime);
            },
            (ListingStage::CheckingTime, ReplyOf::Time(order)) => {
                self.go_on_if(is_time_valid(order), ListingStage::SizingUsage);
            },
            (ListingStage::SizingUsage, ReplyOf::UsageSize { ok, size }) => {
                let sized = usage_buffer(ok, size).is_some();
                self.go_on_if(sized, ListingStage::ReadingUsage { size });
            },
            (ListingStage::ReadingUsage { .. }, ReplyOf::Usage { ok, identifiers }) => {
                let allowed = allows_client_auth(ok, &identifiers);
                self.go_on_if(allowed, ListingStage::ReadingDates);
            },
            (ListingStage::ReadingDates, ReplyOf::Validity(validity)) => {
                match validity {
                    Some(dates) => {
                        self.stage = ListingStage::ReadingHash { dates };
                    },
                    None => {
                        self.stage = ListingStage::Advancing;
                    },
                }
            },
            (ListingStage::ReadingHash { dates }, ReplyOf::Property { ok, size, data }) => {
                match cert_sha1(ok, size, data) {
                    Some(sha1) => {
                        self.stage = ListingStage::SizingSubject { dates, sha1 };
                    },
                    None => {
                        self.stage = ListingStage::Advancing;
                    },
                }
            },
            (ListingStage::SizingSubject { dates, sha1 }, ReplyOf::NameLength(len)) => {
                match name_buffer(len) {
                    Some(len) => {
                        self.stage = ListingStage::ReadingSubject { dates, sha1, len };
                    },
                    None => {
                        self.subject = String::new();
                        self.stage = ListingStage::SizingIssuer { dates, sha1 };
                    },
                }
            },
            (
                ListingStage::ReadingSubject { dates, sha1, .. },
                ReplyOf::Name { written, units },
            ) => {
                self.subject = cert_name(written, &units);
                self.stage = ListingStage::SizingIssuer { dates, sha1 };
            },
            (ListingStage::SizingIssuer { dates, sha1 }, ReplyOf::NameLength(len)) => {
                match name_buffer(len) {
                    Some(len) => {
                        self.stage = ListingStage::ReadingIssuer { dates, sha1, len };
                    },
                    None => {
                        self.list(dates, sha1, String::new());
                    },
                }
            },
            (
                ListingStage::ReadingIssuer { dates, sha1, .. },
                ReplyOf::Name { written, units },
            ) => {
                let issuer = cert_name(written, &units);
                self.list(dates, sha1, issuer);
            },
            (ListingStage::Closing, ReplyOf::Status { .. }) => {
                self.stage = ListingStage::Finished;
            },
            _ => {},
        }
    }
}

impl StoreListing {
    /// Go on to `stage` if the certificate passed a check, and to the next
    /// certificate if it did not.
    fn go_on_if(&mut self, passed: bool, stage: ListingStage)
        ensures
            final(self)@ == old(self)@.if_passed(passed, stage),
    {
        if passed {
            self.stage = stage;
        } else {
            self.stage = ListingStage::Advancing;
        }
    }

    /// List the certificate and go on to the next.
    fn list(&mut self, dates: Validity, sha1: [u8; 20], issuer: String)
        ensures
            final(self)@ == old(self)@.with_issuer(dates, sha1, issuer@),
    {
        let info = RawCertificateInfo {
            sha1,
            subject: self.subject.clone(),
            issuer,
            not_before: dates.not_before,
            not_after: dates.not_after,
        };
        self.listed.push(info);
        self.stage = ListingStage::Advancing;
        assert(self@.listed =~= old(self)@.listed.push(info@));
    }

    /// What the listing came to; `None` while it is still waiting for a call.
    pub fn outcome(self) -> (outcome: Option<Result<Vec<RawCertificateInfo>, Error>>)
        ensures
            match outcome {
                Some(Ok(infos)) => self@.outcome() == Some(
                    Ok::<Seq<InfoView>, ErrorView>(infos_view(infos@)),
                ),
                Some(Err(error)) => self@.outcome() == Some(
                    Err::<Seq<InfoView>, ErrorView>(error@),
                ),
                None => self@.outcome() is None,
            },
    {
        match self.stage {
            ListingStage::Finished => Some(Ok(self.listed)),
            ListingStage::Failed { code } => Some(Err(Error::Win32(code))),
            _ => None,
        }
    }
}

} // verus!
