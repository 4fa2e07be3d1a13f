//! What the contents of calls, answers and errors are, and which answers fit
//! which calls.

use crate::abi::crypt32::{
    call_view, can_answer, effect, identifiers_view, permitted, Call, CallOf, CallView, Ledger,
    Reply, ReplyOf, ReplyView,
};
use crate::abi::listing::{infos_view, RawCertificateInfo};
use crate::error::{result_view, Error, ErrorView};
use vstd::prelude::*;

verus! {

/// The contents of a call are its arguments.
pub proof fn a_call_has_its_arguments(call: Call)
    ensures
        call_view(Some(call)) == Some(call@),
        call_view(None) is None,
        call@ == match call {
            CallOf::OpenStore { encoding, crypt_provider, flags, name } => CallView::OpenStore {
                encoding,
                crypt_provider,
                flags,
                name: name@,
            },
            CallOf::CloseStore { store, flags } => CallView::CloseStore { store, flags },
            CallOf::FindCertificate { store, encoding, flags, kind, hash, previous } =>
                CallView::FindCertificate { store, encoding, flags, kind, hash, previous },
            CallOf::NextCertificate { store, previous } => CallView::NextCertificate {
                store,
                previous,
            },
            CallOf::ReadProperty { ctx, property, size } => CallView::ReadProperty {
                ctx,
                property,
                size,
            },
            CallOf::ReadValidity { ctx } => CallView::ReadValidity { ctx },
            CallOf::CheckTime { ctx } => CallView::CheckTime { ctx },
            CallOf::SizeUsage { ctx, flags } => CallView::SizeUsage { ctx, flags },
            CallOf::ReadUsage { ctx, flags, size } => CallView::ReadUsage { ctx, flags, size },
            CallOf::SizeName { ctx, kind, flags } => CallView::SizeName { ctx, kind, flags },
            CallOf::ReadName { ctx, kind, flags, len } => CallView::ReadName {
                ctx,
                kind,
                flags,
                len,
            },
            CallOf::DuplicateContext { ctx } => CallView::DuplicateContext { ctx },
            CallOf::FreeContext { ctx } => CallView::FreeContext { ctx },
            CallOf::CreateContext { encoding, encoded, len } => CallView::CreateContext {
                encoding,
                encoded: encoded@,
                len,
            },
            CallOf::DeleteCertificate { ctx } => CallView::DeleteCertificate { ctx },
        },
{
}

/// The contents of an answer are what the call wrote, with usage identifiers
/// one by one in their order.
pub proof fn an_answer_has_what_was_written(reply: Reply)
    ensures
        match reply {
            ReplyOf::Pointer { value, last_error } => reply@ == (ReplyView::Pointer {
                value,
                last_error,
            }),
            ReplyOf::Status { ok, last_error } => reply@ == (ReplyView::Status { ok, last_error }),
            ReplyOf::Property { ok, size, data } => reply@ == (ReplyView::Property {
                ok,
                size,
                data,
            }),
            ReplyOf::Validity(validity) => reply@ == ReplyView::Validity(validity),
            ReplyOf::Time(order) => reply@ == ReplyView::Time(order),
            ReplyOf::UsageSize { ok, size } => reply@ == (ReplyView::UsageSize { ok, size }),
            ReplyOf::Usage { ok, identifiers } => {
                &&& reply@ == (ReplyView::Usage {
                    ok,
                    identifiers: identifiers_view(identifiers@),
                })
                &&& identifiers_view(identifiers@).len() == identifiers@.len()
                &&& forall|i: int|
                    0 <= i < identifiers@.len() ==> match #[trigger] identifiers@[i] {
                        Some(bytes) => identifiers_view(identifiers@)[i] == Some(bytes@),
                        None => identifiers_view(identifiers@)[i] is None,
                    }
            },
            ReplyOf::NameLength(len) => reply@ == ReplyView::NameLength(len),
            ReplyOf::Name { written, units } => reply@ == (ReplyView::Name {
                written,
                units: units@,
            }),
        },
{
}

/// The contents of a list are those of its entries, one by one in their
/// order.
pub proof fn a_list_has_its_entries(infos: Seq<RawCertificateInfo>, i: int)
    requires
        0 <= i < infos.len(),
    ensures
        infos_view(infos).len() == infos.len(),
        infos_view(infos)[i].sha1 == infos[i].sha1,
        infos_view(infos)[i].subject == infos[i].subject@,
        infos_view(infos)[i].issuer == infos[i].issuer@,
        infos_view(infos)[i].not_before == infos[i].not_before,
        infos_view(infos)[i].not_after == infos[i].not_after,
{
}

/// The contents of an error are its text or its code, and only an error with
/// a text is one of configuration.
pub proof fn an_error_has_its_text_or_code(error: Error, builder: bool)
    requires
        call_ensures(Error::is_builder, (&error,), builder),
    ensures
        match error {
            Error::Builder(text) => builder && error@ == ErrorView::Builder(text@),
            Error::Win32(code) => !builder && error@ == ErrorView::Win32(code),
        },
        result_view(Err::<usize, Error>(error)) == Err::<usize, ErrorView>(error@),
        forall|value: usize| #[trigger]
            result_view(Ok::<usize, Error>(value)) == Ok::<usize, ErrorView>(value),
        result_view(Err::<(), Error>(error)) == Err::<(), ErrorView>(error@),
        result_view(Ok::<(), Error>(())) == Ok::<(), ErrorView>(()),
{
}

/// A caller that opened a store owns it until it closes it; one that found,
/// was handed out, duplicated or created a context owns a reference until the
/// context is freed, deleted, or handed over as the one before the next.  No
/// other call changes what is owned, and a null pointer is nothing to own.
pub proof fn calls_give_and_take_references(ledger: Ledger, call: CallView, reply: ReplyView)
    ensures
        ({
            let after = effect(ledger, call, reply);
            &&& after.stores == match (call, reply) {
                (CallOf::OpenStore { .. }, ReplyOf::Pointer { value, .. }) => if value != 0 {
                    ledger.stores.insert(value)
                } else {
                    ledger.stores
                },
                (CallOf::CloseStore { store, .. }, _) => ledger.stores.remove(store),
                _ => ledger.stores,
            }
            &&& after.contexts == match call {
                CallOf::FindCertificate { previous, .. }
                | CallOf::NextCertificate { previous, .. } => match reply {
                    ReplyOf::Pointer { value, .. } => {
                        let kept = if previous != 0 {
                            ledger.contexts.remove(previous)
                        } else {
                            ledger.contexts
                        };
                        if value != 0 {
                            kept.insert(value)
                        } else {
                            kept
                        }
                    },
                    _ => ledger.contexts,
                },
                CallOf::DuplicateContext { .. } | CallOf::CreateContext { .. } => match reply {
                    ReplyOf::Pointer { value, .. } => if value != 0 {
                        ledger.contexts.insert(value)
                    } else {
                        ledger.contexts
                    },
                    _ => ledger.contexts,
                },
                CallOf::FreeContext { ctx } | CallOf::DeleteCertificate { ctx } => if ctx != 0 {
                    ledger.contexts.remove(ctx)
                } else {
                    ledger.contexts
                },
                _ => ledger.contexts,
            }
        }),
{
}

/// A call that is permitted is about stores and contexts that the caller
/// owns, and closes stores without force.
pub proof fn permitted_calls_are_about_what_is_owned(ledger: Ledger, call: CallView)
    requires
        permitted(ledger, call),
    ensures
        match call {
            CallOf::OpenStore { name, .. } => name.len() > 0 && name.last() == 0,
            CallOf::CloseStore { store, flags } => ledger.stores.count(store) > 0 && flags == 0,
            CallOf::FindCertificate { store, previous, .. }
            | CallOf::NextCertificate { store, previous } => ledger.stores.count(store) > 0 && (
            previous == 0 || ledger.contexts.count(previous) > 0),
            CallOf::ReadProperty { ctx, size, .. } => ledger.contexts.count(ctx) > 0 && size
                <= 20,
            CallOf::ReadValidity { ctx }
            | CallOf::CheckTime { ctx }
            | CallOf::SizeUsage { ctx, .. }
            | CallOf::ReadUsage { ctx, .. }
            | CallOf::SizeName { ctx, .. }
            | CallOf::ReadName { ctx, .. }
            | CallOf::DuplicateContext { ctx }
            | CallOf::FreeContext { ctx }
            | CallOf::DeleteCertificate { ctx } => ledger.contexts.count(ctx) > 0,
            CallOf::CreateContext { encoded, len, .. } => len == encoded.len(),
        },
{
}

/// An answer fits a call if it is of the kind that the call gives; usage
/// identifiers must have terminators, and a name fills the buffer that was
/// given for it and has at most one character more.
pub proof fn answers_fit_calls_of_their_kind(call: Call, reply: Reply, fits: bool)
    requires
        call_ensures(can_answer, (&call, &reply), fits),
    ensures
        fits <==> match (call, reply) {
            (CallOf::OpenStore { .. }, ReplyOf::Pointer { .. }) => true,
            (CallOf::FindCertificate { .. }, ReplyOf::Pointer { .. }) => true,
            (CallOf::NextCertificate { .. }, ReplyOf::Pointer { .. }) => true,
            (CallOf::DuplicateContext { .. }, ReplyOf::Pointer { .. }) => true,
            (CallOf::CreateContext { .. }, ReplyOf::Pointer { .. }) => true,
            (CallOf::CloseStore { .. }, ReplyOf::Status { .. }) => true,
            (CallOf::FreeContext { .. }, ReplyOf::Status { .. }) => true,
            (CallOf::DeleteCertificate { .. }, ReplyOf::Status { .. }) => true,
            (CallOf::ReadProperty { .. }, ReplyOf::Property { .. }) => true,
            (CallOf::ReadValidity { .. }, ReplyOf::Validity(_)) => true,
            (CallOf::CheckTime { .. }, ReplyOf::Time(_)) => true,
            (CallOf::SizeUsage { .. }, ReplyOf::UsageSize { .. }) => true,
            (CallOf::SizeName { .. }, ReplyOf::NameLength(_)) => true,
            (CallOf::ReadUsage { .. }, ReplyOf::Usage { identifiers, .. }) => forall|i: int|
                0 <= i < identifiers@.len() ==> (#[trigger] identifiers@[i] matches Some(bytes)
                    ==> bytes@.contains(0)),
            (CallOf::ReadName { len, .. }, ReplyOf::Name { written, units }) => units@.len() == len
                && written <= len + 1,
            _ => false,
        },
{
    if let ReplyOf::Usage { identifiers, .. } = reply {
        let contents = identifiers_view(identifiers@);
        assert forall|i: int| 0 <= i < identifiers@.len() implies contents[i] == (
        match #[trigger] identifiers@[i] {
            Some(bytes) => Some(bytes@),
            None => None,
        }) by {}
        if fits && call is ReadUsage {
            assert forall|i: int| 0 <= i < identifiers@.len() implies (
            #[trigger] identifiers@[i] matches Some(bytes) ==> bytes@.contains(0)) by {
                assert(crate::abi::crypt32::identifier_terminated(contents[i]));
            }
        }
    }
}

} // verus!
