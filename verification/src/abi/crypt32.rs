//! Calls into crypt32, what they answer, and what they do to the references
//! that the caller owns.
//!
//! Stores and certificate contexts are known by their addresses; 0 is null.

use vstd::multiset::Multiset;
use vstd::prelude::*;
use windows_sys::Win32::Foundation::FILETIME;

verus! {

/// `windows_sys`'s `FILETIME`: a point in time, carried and never read.
#[verifier::external_type_specification]
#[verifier::external_body]
pub struct ExFileTime(FILETIME);

/// A crypt32 call with its arguments; `W` holds wide strings and `B` bytes.
#[must_use]
#[derive(Debug, PartialEq, Eq)]
pub enum CallOf<W, B> {
    /// `CertOpenStore` of the system-store provider that takes wide names.
    OpenStore {
        /// The encoding type.
        encoding: u32,
        /// The cryptographic provider; 0 for the default.
        crypt_provider: usize,
        /// Where the store is, and the access asked for.
        flags: u32,
        /// The null-terminated name.
        name: W,
    },
    /// `CertCloseStore`.
    CloseStore {
        /// The store.
        store: usize,
        /// The closing flags.
        flags: u32,
    },
    /// `CertFindCertificateInStore` with a hash to search for.
    FindCertificate {
        /// The store.
        store: usize,
        /// The encoding type.
        encoding: u32,
        /// The search flags.
        flags: u32,
        /// The type of search.
        kind: u32,
        /// The hash.
        hash: [u8; 20],
        /// The certificate to search on from; released by the call.
        previous: usize,
    },
    /// `CertEnumCertificatesInStore`.
    NextCertificate {
        /// The store.
        store: usize,
        /// The certificate before the one asked for; released by the call.
        previous: usize,
    },
    /// `CertGetCertificateContextProperty` with a buffer of `size` bytes, at
    /// most 20, or with a null buffer where `size` is 0.
    ReadProperty {
        /// The certificate.
        ctx: usize,
        /// The property.
        property: u32,
        /// The size of the buffer.
        size: u32,
    },
    /// The validity dates in the context's `pCertInfo`.
    ReadValidity {
        /// The certificate.
        ctx: usize,
    },
    /// `CertVerifyTimeValidity` of the context's `pCertInfo` for the current
    /// time.
    CheckTime {
        /// The certificate.
        ctx: usize,
    },
    /// `CertGetEnhancedKeyUsage` with a null buffer.
    SizeUsage {
        /// The certificate.
        ctx: usize,
        /// Where usages are looked for; 0 for everywhere.
        flags: u32,
    },
    /// `CertGetEnhancedKeyUsage` with a buffer of `size` bytes.
    ReadUsage {
        /// The certificate.
        ctx: usize,
        /// Where usages are looked for; 0 for everywhere.
        flags: u32,
        /// The size of the buffer.
        size: u32,
    },
    /// `CertGetNameStringW` with a null buffer.
    SizeName {
        /// The certificate.
        ctx: usize,
        /// The type of name.
        kind: u32,
        /// Whose name: 0 for the subject's.
        flags: u32,
    },
    /// `CertGetNameStringW` with a buffer of `len` zeroed characters.
    ReadName {
        /// The certificate.
        ctx: usize,
        /// The type of name.
        kind: u32,
        /// Whose name: 0 for the subject's.
        flags: u32,
        /// The length of the buffer.
        len: u32,
    },
    /// `CertDuplicateCertificateContext`.
    DuplicateContext {
        /// The certificate.
        ctx: usize,
    },
    /// `CertFreeCertificateContext`.
    FreeContext {
        /// The certificate.
        ctx: usize,
    },
    /// `CertCreateCertificateContext`.
    CreateContext {
        /// The encoding type.
        encoding: u32,
        /// The encoded certificate.
        encoded: B,
        /// Its length.
        len: u32,
    },
    /// `CertDeleteCertificateFromStore`; releases the context in any case.
    DeleteCertificate {
        /// The certificate.
        ctx: usize,
    },
}

/// A call to make.
pub type Call = CallOf<Vec<u16>, Vec<u8>>;

/// The contents of a [`Call`].
pub type CallView = CallOf<Seq<u16>, Seq<u8>>;

impl View for CallOf<Vec<u16>, Vec<u8>> {
    type V = CallView;

    open spec fn view(&self) -> CallView {
        match *self {
            CallOf::OpenStore { encoding, crypt_provider, flags, name } => CallOf::OpenStore {
                encoding,
                crypt_provider,
                flags,
                name: name@,
            },
            CallOf::CloseStore { store, flags } => CallOf::CloseStore { store, flags },
            CallOf::FindCertificate { store, encoding, flags, kind, hash, previous } =>
                CallOf::FindCertificate { store, encoding, flags, kind, hash, previous },
            CallOf::NextCertificate { store, previous } => CallOf::NextCertificate {
                store,
                previous,
            },
            CallOf::ReadProperty { ctx, property, size } => CallOf::ReadProperty {
                ctx,
                property,
                size,
            },
            CallOf::ReadValidity { ctx } => CallOf::ReadValidity { ctx },
            CallOf::CheckTime { ctx } => CallOf::CheckTime { ctx },
            CallOf::SizeUsage { ctx, flags } => CallOf::SizeUsage { ctx, flags },
            CallOf::ReadUsage { ctx, flags, size } => CallOf::ReadUsage { ctx, flags, size },
            CallOf::SizeName { ctx, kind, flags } => CallOf::SizeName { ctx, kind, flags },
            CallOf::ReadName { ctx, kind, flags, len } => CallOf::ReadName {
                ctx,
                kind,
                flags,
                len,
            },
            CallOf::DuplicateContext { ctx } => CallOf::DuplicateContext { ctx },
            CallOf::FreeContext { ctx } => CallOf::FreeContext { ctx },
            CallOf::CreateContext { encoding, encoded, len } => CallOf::CreateContext {
                encoding,
                encoded: encoded@,
                len,
            },
            CallOf::DeleteCertificate { ctx } => CallOf::DeleteCertificate { ctx },
        }
    }
}

/// The contents of a call, where there is one.
pub open spec fn call_view(call: Option<Call>) -> Option<CallView> {
    match call {
        Some(call) => Some(call@),
        None => None,
    }
}

/// The dates between which a certificate is valid.
#[derive(Clone, Copy)]
pub struct Validity {
    /// The first of them.
    pub not_before: FILETIME,
    /// The last of them.
    pub not_after: FILETIME,
}

/// What a call answered; `I` holds usage identifiers and `W` wide strings.
pub enum ReplyOf<I, W> {
    /// The pointer returned, and the thread's last error after the call.
    Pointer {
        /// The pointer.
        value: usize,
        /// The last error.
        last_error: u32,
    },
    /// The truth value returned, and the thread's last error after the call.
    Status {
        /// The truth value; 0 is false.
        ok: i32,
        /// The last error.
        last_error: u32,
    },
    /// A property.
    Property {
        /// The truth value returned; 0 is false.
        ok: i32,
        /// The size written back.
        size: u32,
        /// The buffer.
        data: [u8; 20],
    },
    /// The validity dates, or `None` where `pCertInfo` is null.
    Validity(Option<Validity>),
    /// How the current time lies to the validity dates: 0 for between them.
    Time(i32),
    /// The size that usages take.
    UsageSize {
        /// The truth value returned; 0 is false.
        ok: i32,
        /// The size written back.
        size: u32,
    },
    /// The usages, each as a null-terminated string, `None` for a null
    /// pointer.
    Usage {
        /// The truth value returned; 0 is false.
        ok: i32,
        /// The usages; empty where the call failed.
        identifiers: I,
    },
    /// The length that a name takes, with its terminator.
    NameLength(u32),
    /// A name.
    Name {
        /// The number of characters written, with the terminator.
        written: u32,
        /// The whole buffer.
        units: W,
    },
}

/// What a call answered.
pub type Reply = ReplyOf<Vec<Option<Vec<u8>>>, Vec<u16>>;

/// The contents of a [`Reply`].
pub type ReplyView = ReplyOf<Seq<Option<Seq<u8>>>, Seq<u16>>;

/// The contents of one usage identifier.
pub open spec fn identifier_view(identifier: Option<Vec<u8>>) -> Option<Seq<u8>> {
    match identifier {
        Some(bytes) => Some(bytes@),
        None => None,
    }
}

/// The contents of usage identifiers.
pub open spec fn identifiers_view(identifiers: Seq<Option<Vec<u8>>>) -> Seq<Option<Seq<u8>>> {
    identifiers.map_values(|identifier: Option<Vec<u8>>| identifier_view(identifier))
}

impl View for ReplyOf<Vec<Option<Vec<u8>>>, Vec<u16>> {
    type V = ReplyView;

    open spec fn view(&self) -> ReplyView {
        match *self {
            ReplyOf::Pointer { value, last_error } => ReplyOf::Pointer { value, last_error },
            ReplyOf::Status { ok, last_error } => ReplyOf::Status { ok, last_error },
            ReplyOf::Property { ok, size, data } => ReplyOf::Property { ok, size, data },
            ReplyOf::Validity(validity) => ReplyOf::Validity(validity),
            ReplyOf::Time(order) => ReplyOf::Time(order),
            ReplyOf::UsageSize { ok, size } => ReplyOf::UsageSize { ok, size },
            ReplyOf::Usage { ok, identifiers } => ReplyOf::Usage {
                ok,
                identifiers: identifiers_view(identifiers@),
            },
            ReplyOf::NameLength(len) => ReplyOf::NameLength(len),
            ReplyOf::Name { written, units } => ReplyOf::Name { written, units: units@ },
        }
    }
}

/// Whether a usage identifier is null or a null-terminated string.
pub open spec fn identifier_terminated(identifier: Option<Seq<u8>>) -> bool {
    identifier matches Some(bytes) ==> bytes.contains(0)
}

/// Whether every usage identifier is null or a null-terminated string.
pub open spec fn identifiers_terminated(identifiers: Seq<Option<Seq<u8>>>) -> bool {
    forall|i: int|
        0 <= i < identifiers.len() ==> #[trigger] identifier_terminated(identifiers[i])
}

/// Whether `reply` is what `call` can answer: the right kind of answer, with
/// strings terminated and no more characters written than were asked for.
pub open spec fn answers(call: CallView, reply: ReplyView) -> bool {
    match call {
        CallOf::OpenStore { .. } => reply is Pointer,
        CallOf::FindCertificate { .. } => reply is Pointer,
        CallOf::NextCertificate { .. } => reply is Pointer,
        CallOf::DuplicateContext { .. } => reply is Pointer,
        CallOf::CreateContext { .. } => reply is Pointer,
        CallOf::CloseStore { .. } => reply is Status,
        CallOf::FreeContext { .. } => reply is Status,
        CallOf::DeleteCertificate { .. } => reply is Status,
        CallOf::ReadProperty { .. } => reply is Property,
        CallOf::ReadValidity { .. } => reply is Validity,
        CallOf::CheckTime { .. } => reply is Time,
        CallOf::SizeUsage { .. } => reply is UsageSize,
        CallOf::ReadUsage { .. } => reply matches ReplyOf::Usage { identifiers, .. }
            && identifiers_terminated(identifiers),
        CallOf::SizeName { .. } => reply is NameLength,
        CallOf::ReadName { len, .. } => reply matches ReplyOf::Name { written, units }
            && units.len() == len && written <= len + 1,
    }
}

/// Whether a string of bytes has a terminator.
fn has_terminator(bytes: &Vec<u8>) -> (terminated: bool)
    ensures
        terminated == bytes@.contains(0),
{
    let mut next: usize = 0;
    while next < bytes.len()
        invariant
            next <= bytes@.len(),
            forall|i: int| 0 <= i < next ==> bytes@[i] != 0,
        decreases bytes@.len() - next,
    {
        if bytes[next] == 0 {
            return true;
        }
        next = next + 1;
    }
    false
}

/// Whether every usage identifier is null or terminated.
fn all_terminated(identifiers: &Vec<Option<Vec<u8>>>) -> (terminated: bool)
    ensures
        terminated == identifiers_terminated(identifiers_view(identifiers@)),
{
    let mut next: usize = 0;
    while next < identifiers.len()
        invariant
            next <= identifiers@.len(),
            forall|i: int|
                0 <= i < next ==> #[trigger] identifier_terminated(
                    identifiers_view(identifiers@)[i],
                ),
        decreases identifiers@.len() - next,
    {
        if let Some(bytes) = &identifiers[next] {
            if !has_terminator(bytes) {
                assert(!identifier_terminated(identifiers_view(identifiers@)[next as int]));
                return false;
            }
        }
        next = next + 1;
    }
    true
}

/// Whether `reply` is what `call` can answer; see [`answers`].
pub fn can_answer(call: &Call, reply: &Reply) -> (fits: bool)
    ensures
        fits == answers(call@, reply@),
{
    match call {
        CallOf::OpenStore { .. } => matches!(reply, ReplyOf::Pointer { .. }),
        CallOf::FindCertificate { .. } => matches!(reply, ReplyOf::Pointer { .. }),
        CallOf::NextCertificate { .. } => matches!(reply, ReplyOf::Pointer { .. }),
        CallOf::DuplicateContext { .. } => matches!(reply, ReplyOf::Pointer { .. }),
        CallOf::CreateContext { .. } => matches!(reply, ReplyOf::Pointer { .. }),
        CallOf::CloseStore { .. } => matches!(reply, ReplyOf::Status { .. }),
        CallOf::FreeContext { .. } => matches!(reply, ReplyOf::Status { .. }),
        CallOf::DeleteCertificate { .. } => matches!(reply, ReplyOf::Status { .. }),
        CallOf::ReadProperty { .. } => matches!(reply, ReplyOf::Property { .. }),
        CallOf::ReadValidity { .. } => matches!(reply, ReplyOf::Validity(_)),
        CallOf::CheckTime { .. } => matches!(reply, ReplyOf::Time(_)),
        CallOf::SizeUsage { .. } => matches!(reply, ReplyOf::UsageSize { .. }),
        CallOf::ReadUsage { .. } => match reply {
            ReplyOf::Usage { identifiers, .. } => all_terminated(identifiers),
            _ => false,
        },
        CallOf::SizeName { .. } => matches!(reply, ReplyOf::NameLength(_)),
        CallOf::ReadName { len, .. } => match reply {
            ReplyOf::Name { written, units } => units.len() as u64 == *len as u64
                && *written as u64 <= *len as u64 + 1,
            _ => false,
        },
    }
}

/// The stores and certificate contexts that a caller owns references to,
/// each as often as it owns one.
#[verifier::ext_equal]
pub struct Ledger {
    /// Open stores.
    pub stores: Multiset<usize>,
    /// Certificate contexts.
    pub contexts: Multiset<usize>,
}

impl Ledger {
    /// Nothing owned.
    pub open spec fn empty() -> Ledger {
        Ledger { stores: Multiset::empty(), contexts: Multiset::empty() }
    }

    /// One more reference to a context, unless it is null.
    pub open spec fn gain_context(self, ctx: usize) -> Ledger {
        if ctx == 0 {
            self
        } else {
            Ledger { contexts: self.contexts.insert(ctx), ..self }
        }
    }

    /// One reference less to a context, unless it is null.
    pub open spec fn lose_context(self, ctx: usize) -> Ledger {
        if ctx == 0 {
            self
        } else {
            Ledger { contexts: self.contexts.remove(ctx), ..self }
        }
    }

    /// One more open store, unless it is null.
    pub open spec fn gain_store(self, store: usize) -> Ledger {
        if store == 0 {
            self
        } else {
            Ledger { stores: self.stores.insert(store), ..self }
        }
    }

    /// One open store less.
    pub open spec fn lose_store(self, store: usize) -> Ledger {
        Ledger { stores: self.stores.remove(store), ..self }
    }

    /// Whether a reference to a context is owned.
    pub open spec fn has_context(self, ctx: usize) -> bool {
        self.contexts.contains(ctx)
    }

    /// Whether a context is null or owned.
    pub open spec fn has_context_or_null(self, ctx: usize) -> bool {
        ctx == 0 || self.has_context(ctx)
    }

    /// Whether an open store is owned.
    pub open spec fn has_store(self, store: usize) -> bool {
        self.stores.contains(store)
    }
}

/// Whether a caller that owns `ledger` may make `call`: it owns every store
/// and context that it hands over; it closes stores without force, as
/// contexts may outlive the store that they come from; and strings are
/// terminated and sizes are those of the buffers.
pub open spec fn permitted(ledger: Ledger, call: CallView) -> bool {
    match call {
        CallOf::OpenStore { name, .. } => name.len() > 0 && name.last() == 0,
        CallOf::CloseStore { store, flags } => ledger.has_store(store) && flags == 0,
        CallOf::FindCertificate { store, previous, .. } => ledger.has_store(store)
            && ledger.has_context_or_null(previous),
        CallOf::NextCertificate { store, previous } => ledger.has_store(store)
            && ledger.has_context_or_null(previous),
        CallOf::ReadProperty { ctx, size, .. } => ledger.has_context(ctx) && size <= 20,
        CallOf::ReadValidity { ctx } => ledger.has_context(ctx),
        CallOf::CheckTime { ctx } => ledger.has_context(ctx),
        CallOf::SizeUsage { ctx, .. } => ledger.has_context(ctx),
        CallOf::ReadUsage { ctx, .. } => ledger.has_context(ctx),
        CallOf::SizeName { ctx, .. } => ledger.has_context(ctx),
        CallOf::ReadName { ctx, .. } => ledger.has_context(ctx),
        CallOf::DuplicateContext { ctx } => ledger.has_context(ctx),
        CallOf::FreeContext { ctx } => ledger.has_context(ctx),
        CallOf::CreateContext { encoded, len, .. } => len == encoded.len(),
        CallOf::DeleteCertificate { ctx } => ledger.has_context(ctx),
    }
}

/// What a caller owns after `call` answered `reply`, having owned `ledger`.
pub open spec fn effect(ledger: Ledger, call: CallView, reply: ReplyView) -> Ledger {
    match (call, reply) {
        (CallOf::OpenStore { .. }, ReplyOf::Pointer { value, .. }) => ledger.gain_store(value),
        (CallOf::CloseStore { store, .. }, _) => ledger.lose_store(store),
        (CallOf::FindCertificate { previous, .. }, ReplyOf::Pointer { value, .. }) =>
            ledger.lose_context(previous).gain_context(value),
        (CallOf::NextCertificate { previous, .. }, ReplyOf::Pointer { value, .. }) =>
            ledger.lose_context(previous).gain_context(value),
        (CallOf::DuplicateContext { .. }, ReplyOf::Pointer { value, .. }) => ledger.gain_context(
            value,
        ),
        (CallOf::CreateContext { .. }, ReplyOf::Pointer { value, .. }) => ledger.gain_context(
            value,
        ),
        (CallOf::FreeContext { ctx }, _) => ledger.lose_context(ctx),
        (CallOf::DeleteCertificate { ctx }, _) => ledger.lose_context(ctx),
        _ => ledger,
    }
}

} // verus!
