//! What the decisions of single calls are, told from the functions' arguments
//! and results and from the constants that crypt32 documents.

use crate::abi::cert::{
    allows_client_auth, c_str, cert_name, cert_sha1, client_auth_oid, close_store,
    create_cert_context, cstr_eq, duplicate_cert_context, find_in_open_store, free_cert_context,
    has_associated_key, hex_thumbprint, is_time_valid, missing_certificate, name_buffer,
    names_client_auth, open_store, open_store_with, pointer_or_error, usage_buffer, StoreLocation,
};
use crate::abi::crypt32::{identifiers_view, Call, CallOf};
use crate::abi::wide::{decoding_undoes_encoding, from_utf16_lossy, to_wide, utf16};
use crate::error::Error;
use vstd::prelude::*;

verus! {

// ---------------------------------------------------------------------------
// Which store is opened
// ---------------------------------------------------------------------------

/// The bits of a location are those that crypt32 has for it.
pub proof fn locations_have_their_bits(location: StoreLocation, flag: u32)
    requires
        call_ensures(StoreLocation::flag, (location,), flag),
    ensures
        flag == match location {
            StoreLocation::CurrentUser => 0x10000u32,
            StoreLocation::LocalMachine => 0x20000,
        },
{
}

/// A store is opened at the location that was named, whatever the access: the
/// flags are the bit of the location and the bits of the access.
pub proof fn a_store_is_opened_where_it_is(
    location: StoreLocation,
    store_name: &str,
    access: u32,
    call: Call,
)
    requires
        call_ensures(open_store_with, (location, store_name, access), call),
    ensures
        ({
            let bit = match location {
                StoreLocation::CurrentUser => 0x10000u32,
                StoreLocation::LocalMachine => 0x20000,
            };
            &&& call matches CallOf::OpenStore { encoding, crypt_provider, flags, .. } && {
                &&& encoding == 0
                &&& crypt_provider == 0
                &&& flags == bit | access
                &&& flags & !bit == access & !bit
                &&& access & 0x30000 == 0 ==> flags & 0x30000 == bit
            }
        }),
{
    assert(forall|bit: u32| #[trigger] (bit | access) & !bit == access & !bit) by (bit_vector);
    assert(access & 0x30000 == 0 ==> (0x10000u32 | access) & 0x30000 == 0x10000) by (bit_vector);
    assert(access & 0x30000 == 0 ==> (0x20000u32 | access) & 0x30000 == 0x20000) by (bit_vector);
}

/// A store that is opened for reading is opened with read-only access, at the
/// location that was named, by its whole name.
pub proof fn a_store_is_opened_for_reading(
    location: StoreLocation,
    store_name: &str,
    call: Call,
    wide: Vec<u16>,
)
    requires
        call_ensures(open_store, (location, store_name), call),
        call_ensures(to_wide, (store_name,), wide),
    ensures
        call matches CallOf::OpenStore { encoding, crypt_provider, flags, name } && {
            &&& encoding == 0
            &&& crypt_provider == 0
            &&& flags == match location {
                StoreLocation::CurrentUser => 0x18000u32,
                StoreLocation::LocalMachine => 0x28000,
            }
            &&& name@ == wide@
        },
{
    assert(0x10000u32 | 0x8000 == 0x18000) by (bit_vector);
    assert(0x20000u32 | 0x8000 == 0x28000) by (bit_vector);
}

/// A store is opened by its whole name: what is handed over is the wide
/// string of the name, which ends in a null, and what stands before that null
/// decodes to the name.
pub proof fn a_store_is_opened_by_its_name(
    location: StoreLocation,
    store_name: &str,
    access: u32,
    call: Call,
    wide: Vec<u16>,
    units: &[u16],
    decoded: String,
)
    requires
        call_ensures(open_store_with, (location, store_name, access), call),
        call_ensures(to_wide, (store_name,), wide),
        units@ == wide@.drop_last(),
        call_ensures(from_utf16_lossy, (units,), decoded),
    ensures
        call matches CallOf::OpenStore { name, .. } && {
            &&& name@ == wide@
            &&& name@ == units@.push(0)
            &&& decoded@ == store_name@
        },
{
    assert(wide@.drop_last() =~= utf16(store_name@));
    assert(wide@ =~= units@.push(0));
    decoding_undoes_encoding(store_name@);
}

/// A name without characters behind U+FFFF is handed over unit for character,
/// with a null behind it.
pub proof fn a_basic_store_name_is_handed_over_unit_for_character(
    location: StoreLocation,
    store_name: &str,
    access: u32,
    call: Call,
    wide: Vec<u16>,
)
    requires
        call_ensures(open_store_with, (location, store_name, access), call),
        call_ensures(to_wide, (store_name,), wide),
        forall|i: int|
            0 <= i < store_name@.len() ==> (#[trigger] store_name@[i] as int) < 0x10000,
    ensures
        call matches CallOf::OpenStore { name, .. } && {
            &&& name@.len() == store_name@.len() + 1
            &&& forall|i: int|
                0 <= i < store_name@.len() ==> #[trigger] name@[i] == store_name@[i] as int
            &&& name@[store_name@.len() as int] == 0
        },
{
    crate::abi::wide_laws::basic_texts_are_encoded_unit_for_character(store_name, wide);
}

/// Stores that differ in location, in name or in the access asked for are
/// opened with different calls, as long as the access has no bit of a
/// location.
pub proof fn different_stores_are_opened_differently(
    a_location: StoreLocation,
    a_name: &str,
    a_access: u32,
    a_call: Call,
    b_location: StoreLocation,
    b_name: &str,
    b_access: u32,
    b_call: Call,
)
    requires
        call_ensures(open_store_with, (a_location, a_name, a_access), a_call),
        call_ensures(open_store_with, (b_location, b_name, b_access), b_call),
        a_access & 0x30000 == 0,
        b_access & 0x30000 == 0,
        match (a_call, b_call) {
            (
                CallOf::OpenStore { flags: a_flags, name: a_units, .. },
                CallOf::OpenStore { flags: b_flags, name: b_units, .. },
            ) => a_flags == b_flags && a_units@ == b_units@,
            _ => true,
        },
    ensures
        a_location == b_location,
        a_name@ == b_name@,
        a_access == b_access,
{
    a_store_is_opened_where_it_is(a_location, a_name, a_access, a_call);
    a_store_is_opened_where_it_is(b_location, b_name, b_access, b_call);
    if let CallOf::OpenStore { flags, name, .. } = a_call {
        assert(a_access == flags & !0x30000u32) by (bit_vector)
            requires
                a_access & 0x30000 == 0,
                flags == 0x10000u32 | a_access || flags == 0x20000u32 | a_access,
        ;
        assert(b_access == flags & !0x30000u32) by (bit_vector)
            requires
                b_access & 0x30000 == 0,
                flags == 0x10000u32 | b_access || flags == 0x20000u32 | b_access,
        ;
        assert(name@.drop_last() =~= utf16(a_name@));
        assert(name@.drop_last() =~= utf16(b_name@));
        decoding_undoes_encoding(a_name@);
        decoding_undoes_encoding(b_name@);
    }
}

// ---------------------------------------------------------------------------
// Closing and searching a store, and contexts
// ---------------------------------------------------------------------------

/// A store is closed without force, and it is the one given.
pub proof fn a_store_is_closed_without_force(store: usize, call: Call)
    requires
        call_ensures(close_store, (store,), call),
    ensures
        call == (Call::CloseStore { store, flags: 0 }),
{
}

/// A store is searched from its beginning for a certificate, in either
/// encoding, whose hash is the thumbprint given.
pub proof fn a_store_is_searched_for_the_thumbprint(store: usize, sha1: [u8; 20], call: Call)
    requires
        call_ensures(find_in_open_store, (store, &sha1), call),
    ensures
        call == (Call::FindCertificate {
            store,
            encoding: 0x10001,
            flags: 0,
            kind: 0x10000,
            hash: sha1,
            previous: 0,
        }),
{
}

/// A reference is taken to, and released of, the context given.
pub proof fn references_are_to_the_context_given(ctx: usize, duplicate: Call, free: Call)
    requires
        call_ensures(duplicate_cert_context, (ctx,), duplicate),
        call_ensures(free_cert_context, (ctx,), free),
    ensures
        duplicate == (Call::DuplicateContext { ctx }),
        free == (Call::FreeContext { ctx }),
{
}

/// A context is built from all of the bytes given, as a certificate in either
/// encoding; it fails if and only if their number takes more than 32 bits.
pub proof fn a_context_is_built_from_all_bytes(der: &[u8], call: Result<Call, Error>)
    requires
        call_ensures(create_cert_context, (der,), call),
    ensures
        call is Err <==> der@.len() >= 0x1_0000_0000,
        call matches Ok(call) ==> (call matches CallOf::CreateContext { encoding, encoded, len } && {
            &&& encoding == 0x10001
            &&& encoded@ == der@
            &&& len == der@.len()
        }),
        call matches Err(error) ==> (error matches Error::Builder(text) && text@
            == "certificate too large"@),
{
}

/// A pointer is what a call returned; a null one is the last error.
pub proof fn null_pointers_are_errors(
    value: usize,
    last_error: u32,
    outcome: Result<usize, Error>,
)
    requires
        call_ensures(pointer_or_error, (value, last_error), outcome),
    ensures
        value != 0 ==> outcome == Ok::<usize, Error>(value),
        value == 0 ==> outcome == Err::<usize, Error>(Error::Win32(last_error)),
{
}

// ---------------------------------------------------------------------------
// Thumbprints in messages
// ---------------------------------------------------------------------------

/// A thumbprint is written byte by byte, in its order, with two lowercase
/// hexadecimal digits each, the one of the higher value first.
pub proof fn thumbprints_are_written_byte_by_byte(sha1: [u8; 20], text: String)
    requires
        call_ensures(hex_thumbprint, (&sha1,), text),
    ensures
        text@.len() == 40,
        forall|i: int|
            #![trigger sha1@[i]]
            0 <= i < 20 ==> {
                &&& text@[2 * i] == "0123456789abcdef"@[sha1@[i] as int / 16]
                &&& text@[2 * i + 1] == "0123456789abcdef"@[sha1@[i] as int % 16]
            },
{
    reveal_strlit("0123456789abcdef");
    assert forall|i: int| #![trigger sha1@[i]] 0 <= i < 20 implies {
        &&& text@[2 * i] == "0123456789abcdef"@[sha1@[i] as int / 16]
        &&& text@[2 * i + 1] == "0123456789abcdef"@[sha1@[i] as int % 16]
    } by {
        assert((2 * i) / 2 == i && (2 * i) % 2 == 0);
        assert((2 * i + 1) / 2 == i && (2 * i + 1) % 2 == 1);
    }
}

/// What is said of a missing certificate names its thumbprint, the location
/// of the store and the store, in this order.
pub proof fn a_missing_certificate_is_named(
    location: StoreLocation,
    store_name: &str,
    sha1: [u8; 20],
    error: Error,
    digits: String,
)
    requires
        call_ensures(missing_certificate, (location, store_name, &sha1), error),
        call_ensures(hex_thumbprint, (&sha1,), digits),
    ensures
        error matches Error::Builder(text) && text@ == "no certificate with SHA-1 thumbprint "@
            + digits@ + " in "@ + (match location {
            StoreLocation::CurrentUser => "CurrentUser"@,
            StoreLocation::LocalMachine => "LocalMachine"@,
        }) + "\\"@ + store_name@,
{
}

// ---------------------------------------------------------------------------
// Reading one certificate
// ---------------------------------------------------------------------------

/// A key is associated if its property can be sized, and a certificate is
/// valid if the current time lies neither before nor after its dates.
pub proof fn keys_and_dates_are_what_was_answered(
    ok: i32,
    associated: bool,
    order: i32,
    valid: bool,
)
    requires
        call_ensures(has_associated_key, (ok,), associated),
        call_ensures(is_time_valid, (order,), valid),
    ensures
        associated <==> ok != 0,
        valid <==> order == 0,
{
}

/// Usages are read with a buffer of the size reported, if any was.
pub proof fn usages_are_read_at_the_size_reported(ok: i32, size: u32, buffer: Option<u32>)
    requires
        call_ensures(usage_buffer, (ok, size), buffer),
    ensures
        ok != 0 && size != 0 ==> buffer == Some(size),
        ok == 0 || size == 0 ==> buffer is None,
{
}

/// A thumbprint is what was read if all 20 bytes of one were.
pub proof fn a_thumbprint_is_twenty_bytes_read(
    ok: i32,
    size: u32,
    data: [u8; 20],
    sha1: Option<[u8; 20]>,
)
    requires
        call_ensures(cert_sha1, (ok, size, data), sha1),
    ensures
        ok != 0 && size == 20 ==> sha1 == Some(data),
        ok == 0 || size != 20 ==> sha1 is None,
{
}

/// A name is read with a buffer of the length reported, if that is more than
/// a terminator.
pub proof fn names_are_read_at_the_length_reported(len: u32, buffer: Option<u32>)
    requires
        call_ensures(name_buffer, (len,), buffer),
    ensures
        len >= 2 ==> buffer == Some(len),
        len < 2 ==> buffer is None,
{
}

/// A name is what the units before the terminator decode to, and empty where
/// nothing was written.
pub proof fn a_name_is_what_was_written(
    written: u32,
    units: &Vec<u16>,
    name: String,
    before: &[u16],
    decoded: String,
)
    requires
        call_ensures(cert_name, (written, units), name),
        call_ensures(from_utf16_lossy, (before,), decoded),
        written <= units@.len() + 1,
        before@.len() + 1 == written,
        before@ == units@.take(before@.len() as int),
    ensures
        name@ == decoded@,
{
}

/// A name of which nothing was written is empty.
pub proof fn an_unwritten_name_is_empty(units: &Vec<u16>, name: String)
    requires
        call_ensures(cert_name, (0, units), name),
    ensures
        name@.len() == 0,
{
}

/// A string is what stands before its first null.
proof fn lemma_c_str_ends_at_the_first_null(bytes: Seq<u8>)
    ensures
        c_str(bytes).len() <= bytes.len(),
        c_str(bytes) == bytes.take(c_str(bytes).len() as int),
        forall|i: int| 0 <= i < c_str(bytes).len() ==> bytes[i] != 0,
        c_str(bytes).len() < bytes.len() ==> bytes[c_str(bytes).len() as int] == 0,
    decreases bytes.len(),
{
    if bytes.len() > 0 && bytes[0] != 0 {
        let rest = c_str(bytes.skip(1));
        lemma_c_str_ends_at_the_first_null(bytes.skip(1));
        assert(c_str(bytes) =~= seq![bytes[0]] + rest);
        assert forall|i: int| 0 <= i < c_str(bytes).len() implies bytes[i] != 0 by {
            if i > 0 {
                assert(bytes.skip(1)[i - 1] == bytes[i]);
            }
        }
        assert(c_str(bytes) =~= bytes.take(c_str(bytes).len() as int));
    }
}

/// A string that ends at a null, with none before it, stands before that
/// null.
proof fn lemma_c_str_of_terminated(bytes: Seq<u8>, end: int)
    requires
        0 <= end < bytes.len(),
        bytes[end] == 0,
        forall|i: int| 0 <= i < end ==> bytes[i] != 0,
    ensures
        c_str(bytes) == bytes.take(end),
{
    lemma_c_str_ends_at_the_first_null(bytes);
}

/// Two strings are equal if and only if they have the same bytes up to the
/// first null of both.
pub proof fn strings_are_compared_up_to_their_nulls(a: &[u8], b: &[u8], equal: bool)
    requires
        call_ensures(cstr_eq, (a, b), equal),
        a@.contains(0),
        b@.contains(0),
    ensures
        equal <==> exists|end: int|
            0 <= end < a@.len() && end < b@.len() && #[trigger] a@[end] == 0 && b@[end] == 0 && (
            forall|i: int| 0 <= i < end ==> a@[i] != 0 && a@[i] == b@[i]),
{
    lemma_c_str_ends_at_the_first_null(a@);
    lemma_c_str_ends_at_the_first_null(b@);
    let a_end = c_str(a@).len() as int;
    assert(a_end < a@.len()) by {
        let null = choose|i: int| 0 <= i < a@.len() && a@[i] == 0;
        assert(a@[null] == 0);
    }
    assert(c_str(b@).len() < b@.len()) by {
        let null = choose|i: int| 0 <= i < b@.len() && b@[i] == 0;
        assert(b@[null] == 0);
    }
    if equal {
        assert(a@[a_end] == 0 && b@[a_end] == 0);
        assert forall|i: int| 0 <= i < a_end implies a@[i] != 0 && a@[i] == b@[i] by {
            assert(c_str(a@)[i] == a@[i]);
            assert(c_str(b@)[i] == b@[i]);
        }
    }
    if exists|end: int|
        0 <= end < a@.len() && end < b@.len() && #[trigger] a@[end] == 0 && b@[end] == 0 && (
        forall|i: int| 0 <= i < end ==> a@[i] != 0 && a@[i] == b@[i]) {
        let end = choose|end: int|
            0 <= end < a@.len() && end < b@.len() && #[trigger] a@[end] == 0 && b@[end] == 0 && (
            forall|i: int| 0 <= i < end ==> a@[i] != 0 && a@[i] == b@[i]);
        lemma_c_str_of_terminated(a@, end);
        lemma_c_str_of_terminated(b@, end);
        assert(a@.take(end) =~= b@.take(end));
    }
}

/// A terminated identifier is that of client authentication if and only if
/// it has these 17 characters and then its terminator.
pub(crate) proof fn lemma_names_client_auth(bytes: Seq<u8>)
    requires
        bytes.contains(0),
    ensures
        names_client_auth(Some(bytes)) <==> bytes.len() > 17 && bytes[17] == 0 && forall|j: int|
            0 <= j < 17 ==> #[trigger] bytes[j] as int == "1.3.6.1.5.5.7.3.2"@[j] as int,
{
    reveal_strlit("1.3.6.1.5.5.7.3.2");
    lemma_c_str_ends_at_the_first_null(bytes);
    let oid = client_auth_oid();
    assert(oid.len() == 17);
    assert forall|j: int| 0 <= j < 17 implies #[trigger] oid[j] as int
        == "1.3.6.1.5.5.7.3.2"@[j] as int && oid[j] != 0 by {}
    if names_client_auth(Some(bytes)) {
        let null = choose|i: int| 0 <= i < bytes.len() && bytes[i] == 0;
        assert(bytes[null] == 0);
        assert(bytes.len() > 17);
        assert forall|j: int| 0 <= j < 17 implies #[trigger] bytes[j] as int
            == "1.3.6.1.5.5.7.3.2"@[j] as int by {
            assert(c_str(bytes)[j] == bytes[j]);
            assert(oid[j] as int == "1.3.6.1.5.5.7.3.2"@[j] as int);
        }
    }
    if bytes.len() > 17 && bytes[17] == 0 && forall|j: int|
        0 <= j < 17 ==> #[trigger] bytes[j] as int == "1.3.6.1.5.5.7.3.2"@[j] as int {
        assert forall|j: int| 0 <= j < 17 implies bytes[j] == oid[j] && bytes[j] != 0 by {
            assert(oid[j] as int == "1.3.6.1.5.5.7.3.2"@[j] as int);
        }
        lemma_c_str_of_terminated(bytes, 17);
        assert(bytes.take(17) =~= oid);
    }
}

/// Where usages were read, any one of them may be that of client
/// authentication, whatever the others are and in whatever order; with some
/// usages and none of them that one it is not allowed, and with no usage at
/// all it is.  Where they were not read it is not allowed.
pub proof fn client_authentication_may_be_any_usage(
    ok: i32,
    identifiers: &Vec<Option<Vec<u8>>>,
    allowed: bool,
)
    requires
        call_ensures(allows_client_auth, (ok, identifiers), allowed),
        forall|i: int|
            0 <= i < identifiers@.len() ==> (#[trigger] identifiers@[i] matches Some(bytes)
                ==> bytes@.contains(0)),
    ensures
        ({
            let named = |i: int|
                (identifiers@[i] matches Some(bytes) && bytes@.len() > 17 && bytes@[17] == 0
                    && forall|j: int|
                    0 <= j < 17 ==> #[trigger] bytes@[j] as int == "1.3.6.1.5.5.7.3.2"@[j] as int);
            &&& ok == 0 ==> !allowed
            &&& ok != 0 && identifiers@.len() == 0 ==> allowed
            &&& forall|i: int|
                ok != 0 && 0 <= i < identifiers@.len() && #[trigger] named(i) ==> allowed
            &&& identifiers@.len() > 0 && (forall|i: int|
                0 <= i < identifiers@.len() ==> !#[trigger] named(i)) ==> !allowed
        }),
{
    let contents = identifiers_view(identifiers@);
    let named = |i: int|
        (identifiers@[i] matches Some(bytes) && bytes@.len() > 17 && bytes@[17] == 0
            && forall|j: int|
            0 <= j < 17 ==> #[trigger] bytes@[j] as int == "1.3.6.1.5.5.7.3.2"@[j] as int);
    assert forall|i: int| 0 <= i < identifiers@.len() implies (#[trigger] named(i)
        <==> names_client_auth(contents[i])) by {
        if let Some(bytes) = identifiers@[i] {
            assert(contents[i] == Some(bytes@));
            lemma_names_client_auth(bytes@);
        }
    }
    assert forall|i: int| 0 <= i < identifiers@.len() && #[trigger] names_client_auth(
        contents[i],
    ) implies named(i) by {}
}

} // verus!
