//! Identities and the references that they stand for.

use crate::abi;
use crate::abi::cert::{hex_thumbprint, missing_text};
use crate::abi::crypt32::{effect, permitted, Call, CallOf, CallView, Ledger, ReplyView};
use crate::abi::lookup::{LookupView, StoreLookup};
use crate::abi::operation::{Machine, Operation};
use crate::abi::wide::{to_wide, utf16};
use crate::error::{Error, ErrorView};
use crate::tls::{
    abi_location, identity_outcome, Duplication, Identity, IdentityView, StoreLocation,
};
use vstd::multiset::Multiset;
use vstd::prelude::*;

verus! {

/// Something that happens to the identities that a program has.
pub enum IdentityEvent {
    /// One is cloned, and the call returned `duplicate`.
    Clone {
        /// The place of the one cloned.
        place: int,
        /// The pointer that the call returned.
        duplicate: usize,
        /// The last error after the call.
        last_error: u32,
    },
    /// A context is adopted, and the call returned `duplicate`.
    Adopt {
        /// The context.
        ctx: usize,
        /// The pointer that the call returned.
        duplicate: usize,
        /// The last error after the call.
        last_error: u32,
    },
    /// One is dropped.
    Drop {
        /// The place of the one dropped.
        place: int,
        /// The truth value that the call returned.
        ok: i32,
        /// The last error after the call.
        last_error: u32,
    },
}

/// The call that an event makes.
pub open spec fn event_call(identities: Seq<IdentityView>, event: IdentityEvent) -> CallView {
    match event {
        IdentityEvent::Clone { place, .. } => CallView::DuplicateContext {
            ctx: identities[place].ctx,
        },
        IdentityEvent::Adopt { ctx, .. } => CallView::DuplicateContext { ctx },
        IdentityEvent::Drop { place, .. } => CallView::FreeContext { ctx: identities[place].ctx },
    }
}

/// What the call of an event answers.
pub open spec fn event_reply(event: IdentityEvent) -> ReplyView {
    match event {
        IdentityEvent::Clone { duplicate, last_error, .. } => ReplyView::Pointer {
            value: duplicate,
            last_error,
        },
        IdentityEvent::Adopt { duplicate, last_error, .. } => ReplyView::Pointer {
            value: duplicate,
            last_error,
        },
        IdentityEvent::Drop { ok, last_error, .. } => ReplyView::Status { ok, last_error },
    }
}

/// The identities that a program has after an event.
pub open spec fn identities_after(
    identities: Seq<IdentityView>,
    event: IdentityEvent,
) -> Seq<IdentityView> {
    match event {
        IdentityEvent::Clone { place, duplicate, .. } => identities.push(
            IdentityView { ctx: duplicate, sha1: identities[place].sha1 },
        ),
        IdentityEvent::Adopt { duplicate, .. } => identities.push(
            IdentityView { ctx: duplicate, sha1: None },
        ),
        IdentityEvent::Drop { place, .. } => identities.remove(place),
    }
}

/// Whether an event can happen to a program that has these identities and
/// owns the references in `others` besides: the identity is there, the
/// context is one of the others, and a reference that is taken is not null.
pub open spec fn can_happen(
    identities: Seq<IdentityView>,
    others: Multiset<usize>,
    event: IdentityEvent,
) -> bool {
    match event {
        IdentityEvent::Clone { place, duplicate, .. } => 0 <= place < identities.len() && duplicate
            != 0,
        IdentityEvent::Adopt { ctx, duplicate, .. } => others.contains(ctx) && duplicate != 0,
        IdentityEvent::Drop { place, .. } => 0 <= place < identities.len(),
    }
}

/// The references that identities stand for: one each.
pub open spec fn references(identities: Seq<IdentityView>) -> Multiset<usize> {
    identities.map_values(|identity: IdentityView| identity.ctx).to_multiset()
}

/// Whether no identity has a null context.
pub open spec fn none_null(identities: Seq<IdentityView>) -> bool {
    forall|i: int| 0 <= i < identities.len() ==> (#[trigger] identities[i]).ctx != 0
}

/// Each identity has a live context, and each event hands over a live context
/// and keeps the books: what the program owns is what its identities stand
/// for, and the others.
pub proof fn an_event_keeps_the_books(
    identities: Seq<IdentityView>,
    others: Multiset<usize>,
    ledger: Ledger,
    event: IdentityEvent,
)
    requires
        none_null(identities),
        ledger.contexts == references(identities).add(others),
        can_happen(identities, others, event),
    ensures
        permitted(ledger, event_call(identities, event)),
        none_null(identities_after(identities, event)),
        effect(ledger, event_call(identities, event), event_reply(event)).contexts == references(
            identities_after(identities, event),
        ).add(others),
        effect(ledger, event_call(identities, event), event_reply(event)).stores == ledger.stores,
{
    let contexts = identities.map_values(|identity: IdentityView| identity.ctx);
    let after = identities_after(identities, event).map_values(
        |identity: IdentityView| identity.ctx,
    );
    lemma_identities_are_live(identities, others, ledger);
    match event {
        IdentityEvent::Clone { place, duplicate, .. } => {
            assert(after =~= contexts.push(duplicate));
            contexts.to_multiset_ensures();
            assert(identities[place].ctx != 0);
            assert(ledger.contexts.insert(duplicate) =~= references(
                identities_after(identities, event),
            ).add(others));
        },
        IdentityEvent::Adopt { duplicate, .. } => {
            assert(after =~= contexts.push(duplicate));
            contexts.to_multiset_ensures();
            assert(ledger.contexts.insert(duplicate) =~= references(
                identities_after(identities, event),
            ).add(others));
        },
        IdentityEvent::Drop { place, .. } => {
            assert(after =~= contexts.remove(place));
            contexts.to_multiset_ensures();
            let ctx = identities[place].ctx;
            assert(contexts.contains(ctx)) by {
                assert(contexts[place] == ctx);
            }
            assert(ctx != 0);
            assert(ledger.contexts.remove(ctx) =~= references(
                identities_after(identities, event),
            ).add(others));
        },
    }
}

proof fn lemma_identities_are_live(
    identities: Seq<IdentityView>,
    others: Multiset<usize>,
    ledger: Ledger,
)
    requires
        ledger.contexts == references(identities).add(others),
    ensures
        forall|i: int|
            0 <= i < identities.len() ==> ledger.has_context((#[trigger] identities[i]).ctx),
{
    let contexts = identities.map_values(|identity: IdentityView| identity.ctx);
    contexts.to_multiset_ensures();
    assert forall|i: int| 0 <= i < identities.len() implies ledger.has_context(
        (#[trigger] identities[i]).ctx,
    ) by {
        assert(contexts[i] == identities[i].ctx);
        assert(contexts.contains(identities[i].ctx));
    }
}

/// The identities that a program has after `events`.
pub open spec fn identities_after_all(
    identities: Seq<IdentityView>,
    events: Seq<IdentityEvent>,
) -> Seq<IdentityView>
    decreases events.len(),
{
    if events.len() == 0 {
        identities
    } else {
        identities_after_all(identities_after(identities, events[0]), events.skip(1))
    }
}

/// What a program owns after `events`.
pub open spec fn ledger_after_all(
    identities: Seq<IdentityView>,
    ledger: Ledger,
    events: Seq<IdentityEvent>,
) -> Ledger
    decreases events.len(),
{
    if events.len() == 0 {
        ledger
    } else {
        ledger_after_all(
            identities_after(identities, events[0]),
            effect(ledger, event_call(identities, events[0]), event_reply(events[0])),
            events.skip(1),
        )
    }
}

/// Whether `events` can happen one after the other.
pub open spec fn can_happen_all(
    identities: Seq<IdentityView>,
    others: Multiset<usize>,
    events: Seq<IdentityEvent>,
) -> bool
    decreases events.len(),
{
    events.len() == 0 || {
        &&& can_happen(identities, others, events[0])
        &&& can_happen_all(identities_after(identities, events[0]), others, events.skip(1))
    }
}

/// Identities outlive each other: however they are cloned, adopted and
/// dropped, and in whatever order, each that is left still has a live
/// context, and a program that has none left owns the others and no more.
pub proof fn identities_outlive_each_other(
    identities: Seq<IdentityView>,
    others: Multiset<usize>,
    ledger: Ledger,
    events: Seq<IdentityEvent>,
)
    requires
        none_null(identities),
        ledger.contexts == references(identities).add(others),
        can_happen_all(identities, others, events),
    ensures
        ({
            let left = identities_after_all(identities, events);
            let owned = ledger_after_all(identities, ledger, events);
            &&& owned.contexts == references(left).add(others)
            &&& forall|i: int|
                0 <= i < left.len() ==> owned.has_context((#[trigger] left[i]).ctx)
            &&& left.len() == 0 ==> owned.contexts == others
        }),
    decreases events.len(),
{
    if events.len() == 0 {
        lemma_identities_are_live(identities, others, ledger);
        if identities.len() == 0 {
            let contexts = identities.map_values(|identity: IdentityView| identity.ctx);
            contexts.to_multiset_ensures();
            assert(references(identities).add(others) =~= others);
        }
    } else {
        an_event_keeps_the_books(identities, others, ledger, events[0]);
        identities_outlive_each_other(
            identities_after(identities, events[0]),
            others,
            effect(ledger, event_call(identities, events[0]), event_reply(events[0])),
            events.skip(1),
        );
    }
}

/// What looking up an identity comes to, for every answer that the calls can
/// give: the Win32 error if the store does not open, a builder error that
/// names the thumbprint if no certificate has it, and otherwise an identity of
/// the context found, which knows its thumbprint.
pub proof fn an_identity_is_what_was_found(
    location: StoreLocation,
    store_name: Seq<char>,
    sha1: [u8; 20],
    opened: usize,
    open_error: u32,
    found: usize,
    find_error: u32,
    closed: i32,
    close_error: u32,
)
    ensures
        ({
            let begin = LookupView::start(abi_location(location), store_name, sha1);
            let open = ReplyView::Pointer { value: opened, last_error: open_error };
            let find = ReplyView::Pointer { value: found, last_error: find_error };
            let close = ReplyView::Status { ok: closed, last_error: close_error };
            if opened == 0 {
                identity_outcome(begin.after(open)) == Some(
                    Err::<IdentityView, ErrorView>(ErrorView::Win32(open_error)),
                )
            } else {
                identity_outcome(begin.after(open).after(find).after(close)) == Some(
                    if found == 0 {
                        Err::<IdentityView, ErrorView>(
                            ErrorView::Builder(
                                missing_text(abi_location(location), store_name, sha1@),
                            ),
                        )
                    } else {
                        Ok(IdentityView { ctx: found, sha1: Some(sha1) })
                    },
                )
            }
        }),
{
}

// ---------------------------------------------------------------------------
// What the functions return
// ---------------------------------------------------------------------------

/// An identity is looked up in the store that was named, by its whole name and
/// at its location, which is opened for reading.
pub proof fn an_identity_is_looked_up_where_it_was_asked_for(
    location: StoreLocation,
    store_name: &str,
    sha1: [u8; 20],
    wide: Vec<u16>,
    lookup: StoreLookup,
    call: Option<Call>,
    noted: [u8; 20],
)
    requires
        call_ensures(to_wide, (store_name,), wide),
        call_ensures(Identity::from_system_store, (location, store_name, &sha1), lookup),
        call_ensures(StoreLookup::pending, (&lookup,), call),
        call_ensures(StoreLookup::sha1, (&lookup,), noted),
    ensures
        call matches Some(CallOf::OpenStore { encoding, crypt_provider, flags, name }) && {
            &&& encoding == 0
            &&& crypt_provider == 0
            &&& flags == match location {
                StoreLocation::CurrentUser => 0x18000u32,
                StoreLocation::LocalMachine => 0x28000,
            }
            &&& name@ == wide@
        },
        noted == sha1,
{
    assert(0x10000u32 | 0x8000 == 0x18000) by (bit_vector);
    assert(0x20000u32 | 0x8000 == 0x28000) by (bit_vector);
}

/// An identity of the current user is looked up in that user's store `MY`.
pub proof fn an_identity_of_the_current_user_is_in_my(
    sha1: [u8; 20],
    lookup: StoreLookup,
    call: Option<Call>,
    noted: [u8; 20],
)
    requires
        call_ensures(Identity::from_current_user, (&sha1,), lookup),
        call_ensures(StoreLookup::pending, (&lookup,), call),
        call_ensures(StoreLookup::sha1, (&lookup,), noted),
    ensures
        call matches Some(CallOf::OpenStore { encoding, crypt_provider, flags, name }) && {
            &&& encoding == 0
            &&& crypt_provider == 0
            &&& flags == 0x18000
            &&& name@ == seq![0x4du16, 0x59, 0]
        },
        noted == sha1,
{
    reveal_strlit("MY");
    reveal_with_fuel(utf16, 3);
    assert("MY"@.skip(1).skip(1) =~= seq![]);
    assert(utf16("MY"@) =~= seq![0x4du16, 0x59]);
    assert(0x10000u32 | 0x8000 == 0x18000) by (bit_vector);
}

/// A location is the same to the certificate-store interface.
pub proof fn locations_are_the_same(location: StoreLocation, same: abi::cert::StoreLocation)
    requires
        call_ensures(abi::cert::StoreLocation::from, (location,), same),
    ensures
        same is CurrentUser <==> location is CurrentUser,
        same is LocalMachine <==> location is LocalMachine,
{
}

/// An identity comes of a lookup exactly where a context does, and is of that
/// context and of the thumbprint looked for; an error of the lookup is kept.
pub proof fn an_identity_is_of_the_context_looked_up(
    lookup: StoreLookup,
    looked_up: Option<Result<usize, Error>>,
    sha1: [u8; 20],
    digits: String,
    outcome: Option<Result<Identity, Error>>,
)
    requires
        call_ensures(StoreLookup::outcome, (lookup,), looked_up),
        call_ensures(StoreLookup::sha1, (&lookup,), sha1),
        call_ensures(hex_thumbprint, (&sha1,), digits),
        call_ensures(Identity::from_lookup, (lookup,), outcome),
    ensures
        match (looked_up, outcome) {
            (Some(Ok(ctx)), Some(Ok(identity))) => {
                &&& forall|ptr: usize| #[trigger]
                    call_ensures(Identity::as_ptr, (&identity,), ptr) ==> ptr == ctx
                &&& forall|text: Option<String>| #[trigger]
                    call_ensures(Identity::thumbprint, (&identity,), text) ==> (
                    text matches Some(text) && text@ == digits@)
            },
            (Some(Err(error)), Some(Err(kept))) => kept@ == error@,
            (None, None) => true,
            _ => false,
        },
{
}

/// A clone is of the same certificate, by the reference that was taken for it:
/// one more to the context of the identity that is cloned.
pub proof fn a_clone_has_a_reference_of_its_own(
    identity: Identity,
    ptr: usize,
    duplication: Duplication,
    call: Call,
    duplicate: usize,
    copy: Identity,
    copy_ptr: usize,
    text: Option<String>,
    copy_text: Option<String>,
)
    requires
        call_ensures(Identity::as_ptr, (&identity,), ptr),
        call_ensures(Identity::clone, (&identity,), duplication),
        call_ensures(Duplication::call, (&duplication,), call),
        call_ensures(Duplication::finish, (duplication, duplicate), copy),
        call_ensures(Identity::as_ptr, (&copy,), copy_ptr),
        call_ensures(Identity::thumbprint, (&identity,), text),
        call_ensures(Identity::thumbprint, (&copy,), copy_text),
    ensures
        call == (Call::DuplicateContext { ctx: ptr }),
        copy_ptr == duplicate,
        match (text, copy_text) {
            (Some(text), Some(copy_text)) => text@ == copy_text@,
            (None, None) => true,
            _ => false,
        },
{
}

/// An adopted context is referenced once more; the identity is of the
/// reference taken, and knows no thumbprint.
pub proof fn an_adopted_context_is_referenced_once_more(
    ctx: usize,
    duplication: Duplication,
    call: Call,
    duplicate: usize,
    identity: Identity,
    ptr: usize,
    text: Option<String>,
)
    requires
        call_ensures(Identity::from_cert_context, (ctx,), duplication),
        call_ensures(Duplication::call, (&duplication,), call),
        call_ensures(Duplication::finish, (duplication, duplicate), identity),
        call_ensures(Identity::as_ptr, (&identity,), ptr),
        call_ensures(Identity::thumbprint, (&identity,), text),
    ensures
        call == (Call::DuplicateContext { ctx }),
        ptr == duplicate,
        text is None,
{
}

/// An identity that is dropped gives up the reference that it is of.
pub proof fn a_dropped_identity_frees_its_reference(identity: Identity, ptr: usize, call: Call)
    requires
        call_ensures(Identity::as_ptr, (&identity,), ptr),
        call_ensures(Identity::drop, (identity,), call),
    ensures
        call == (Call::FreeContext { ctx: ptr }),
{
}

/// Debug output of an identity shows its thumbprint if it has one, on one line
/// or on several.
pub proof fn debug_output_shows_the_thumbprint(
    identity: Identity,
    digits: Option<String>,
    pretty: bool,
    text: String,
)
    requires
        call_ensures(Identity::thumbprint, (&identity,), digits),
        call_ensures(Identity::debug_text, (&identity, pretty), text),
    ensures
        text@ == match digits {
            Some(digits) => if pretty {
                "Identity {\n    sha1: \""@ + digits@ + "\",\n}"@
            } else {
                "Identity { sha1: \""@ + digits@ + "\" }"@
            },
            None => "Identity { .. }"@,
        },
{
}

} // verus!
