//! The decisions of single certificate-store calls: what is handed to each,
//! and what its answer means.

use crate::abi::constants::{
    certificate_encodings, find_hash, store_readonly, system_store_current_user,
    system_store_local_machine,
};
use crate::abi::crypt32::{
    identifier_terminated, identifiers_terminated, identifiers_view, permitted, Call, CallOf,
    CallView, Ledger,
};
use crate::abi::wide::{
    decoding_undoes_encoding, from_utf16_lossy, to_wide, utf16, utf16_lossy,
};
use crate::error::{result_view, Error, ErrorView};
use vstd::prelude::*;
use vstd::slice::slice_subrange;

verus! {

/// Which system store location to search.
#[derive(Debug, Clone, Copy, PartialEq, Eq, Structural)]
pub enum StoreLocation {
    /// The per-user store (`certmgr.msc`).
    CurrentUser,
    /// The machine-wide store (`certlm.msc`).
    LocalMachine,
}

impl StoreLocation {
    /// The bit that selects this location.
    pub open spec fn flag_bit(self) -> u32 {
        match self {
            StoreLocation::CurrentUser => 0x10000,
            StoreLocation::LocalMachine => 0x20000,
        }
    }

    /// The `CERT_SYSTEM_STORE_*` flag for this location.
    pub fn flag(self) -> (flag: u32)
        ensures
            flag == self.flag_bit(),
    {
        match self {
            StoreLocation::CurrentUser => system_store_current_user(),
            StoreLocation::LocalMachine => system_store_local_machine(),
        }
    }

    /// The name of this location in messages.
    pub open spec fn label(self) -> Seq<char> {
        match self {
            StoreLocation::CurrentUser => "CurrentUser"@,
            StoreLocation::LocalMachine => "LocalMachine"@,
        }
    }

    /// The name of this location in messages.
    fn name(self) -> (name: &'static str)
        ensures
            name@ == self.label(),
    {
        match self {
            StoreLocation::CurrentUser => "CurrentUser",
            StoreLocation::LocalMachine => "LocalMachine",
        }
    }
}

// ---------------------------------------------------------------------------
// Thumbprints
// ---------------------------------------------------------------------------

/// The lowercase hexadecimal digit for a value below 16.
pub open spec fn hex_digit(value: int) -> char {
    (if value < 10 {
        0x30 + value
    } else {
        0x57 + value
    }) as char
}

/// Lowercase hexadecimal, two digits for each byte.
pub open spec fn hex(bytes: Seq<u8>) -> Seq<char> {
    Seq::new(
        2 * bytes.len(),
        |i: int|
            if i % 2 == 0 {
                hex_digit(bytes[i / 2] as int / 16)
            } else {
                hex_digit(bytes[i / 2] as int % 16)
            },
    )
}

/// The lowercase hexadecimal digit for a value below 16.
fn hex_char(value: u8) -> (digit: char)
    requires
        value < 16,
    ensures
        digit == hex_digit(value as int),
{
    if value < 10 {
        (0x30 + value) as char
    } else {
        (0x57 + value) as char
    }
}

/// Lowercase hex, for error messages and debug output.
pub fn hex_thumbprint(sha1: &[u8; 20]) -> (text: String)
    ensures
        text@ == hex(sha1@),
{
    let mut text = String::new();
    let mut next: usize = 0;
    while next < 20
        invariant
            next <= 20,
            text@ =~= hex(sha1@.take(next as int)),
        decreases 20 - next,
    {
        let byte: u8 = sha1[next];
        text.push(hex_char(byte / 16));
        text.push(hex_char(byte % 16));
        next = next + 1;
    }
    assert(sha1@.take(20) =~= sha1@);
    text
}

/// Different thumbprints are written differently, each with 40 digits.
pub proof fn hex_identifies_the_thumbprint(a: [u8; 20], b: [u8; 20])
    ensures
        hex(a@) == hex(b@) <==> a@ == b@,
        hex(a@).len() == 40,
{
    if hex(a@) == hex(b@) {
        assert forall|i: int| 0 <= i < 20 implies a@[i] == b@[i] by {
            assert(hex(a@)[2 * i] == hex(b@)[2 * i]);
            assert(hex(a@)[2 * i + 1] == hex(b@)[2 * i + 1]);
        }
        assert(a@ =~= b@);
    }
}

/// A thumbprint is written with the digits `0` to `9` and `a` to `f` alone.
pub proof fn hex_is_lowercase(bytes: Seq<u8>, i: int)
    requires
        0 <= i < hex(bytes).len(),
    ensures
        '0' <= hex(bytes)[i] <= '9' || 'a' <= hex(bytes)[i] <= 'f',
{
}

// ---------------------------------------------------------------------------
// Opening, closing and searching a store
// ---------------------------------------------------------------------------

/// The call that opens a system store with some access.
pub open spec fn open_call(
    location: StoreLocation,
    store_name: Seq<char>,
    access: u32,
) -> CallView {
    CallOf::OpenStore {
        encoding: 0,
        crypt_provider: 0,
        flags: location.flag_bit() | access,
        name: utf16(store_name).push(0),
    }
}

/// The call that closes a store, without force.
pub open spec fn close_call(store: usize) -> CallView {
    CallOf::CloseStore { store, flags: 0 }
}

/// The call that searches a store for a thumbprint, from its beginning.
pub open spec fn find_call(store: usize, sha1: [u8; 20]) -> CallView {
    CallOf::FindCertificate {
        store,
        encoding: 0x10001,
        flags: 0,
        kind: 0x10000,
        hash: sha1,
        previous: 0,
    }
}

/// The access that reads a store.
pub open spec fn read_access() -> u32 {
    0x8000
}

/// The access that changes a store as far as the caller may.
pub open spec fn write_access() -> u32 {
    0x1000
}

/// How a named system store is opened for reading.
pub fn open_store(location: StoreLocation, store_name: &str) -> (call: Call)
    ensures
        call@ == open_call(location, store_name@, read_access()),
{
    open_store_with(location, store_name, store_readonly())
}

/// How a named system store is opened with some access.
pub fn open_store_with(location: StoreLocation, store_name: &str, access: u32) -> (call: Call)
    ensures
        call@ == open_call(location, store_name@, access),
{
    CallOf::OpenStore {
        encoding: 0,
        crypt_provider: 0,
        flags: location.flag() | access,
        name: to_wide(store_name),
    }
}

/// How a store is closed.
///
/// Deliberately without `CERT_CLOSE_STORE_FORCE_FLAG`: contexts handed to
/// WinHTTP outlive the store handle, and force-closing the store that they
/// came from can cause an access violation.
pub fn close_store(store: usize) -> (call: Call)
    ensures
        call@ == close_call(store),
{
    CallOf::CloseStore { store, flags: 0 }
}

/// How an open store is searched for a thumbprint.
pub fn find_in_open_store(store: usize, sha1: &[u8; 20]) -> (call: Call)
    ensures
        call@ == find_call(store, *sha1),
{
    CallOf::FindCertificate {
        store,
        encoding: certificate_encodings(),
        flags: 0,
        kind: find_hash(),
        hash: *sha1,
        previous: 0,
    }
}

/// The pointer that a call returned, or the last error where it is null.
pub open spec fn pointer_outcome(value: usize, last_error: u32) -> Result<usize, ErrorView> {
    if value == 0 {
        Err(ErrorView::Win32(last_error))
    } else {
        Ok(value)
    }
}

/// The pointer that a call returned, or the last error where it is null.
pub fn pointer_or_error(value: usize, last_error: u32) -> (outcome: Result<usize, Error>)
    ensures
        result_view(outcome) == pointer_outcome(value, last_error),
{
    if value == 0 {
        Err(Error::Win32(last_error))
    } else {
        Ok(value)
    }
}

/// What is said of a thumbprint that no certificate in a store has.
pub open spec fn missing_text(
    location: StoreLocation,
    store_name: Seq<char>,
    sha1: Seq<u8>,
) -> Seq<char> {
    "no certificate with SHA-1 thumbprint "@ + hex(sha1) + " in "@ + location.label() + "\\"@
        + store_name
}

/// The error for a thumbprint that no certificate in a store has.
pub fn missing_certificate(
    location: StoreLocation,
    store_name: &str,
    sha1: &[u8; 20],
) -> (error: Error)
    ensures
        error@ == ErrorView::Builder(missing_text(location, store_name@, sha1@)),
{
    let mut text = String::from_str("no certificate with SHA-1 thumbprint ");
    text.append(hex_thumbprint(sha1).as_str());
    text.append(" in ");
    text.append(location.name());
    text.append("\\");
    text.append(store_name);
    Error::Builder(text)
}

// ---------------------------------------------------------------------------
// Reading one certificate
// ---------------------------------------------------------------------------

/// Whether a private key is associated with a certificate, from whether its
/// key-provider property can be sized.
pub fn has_associated_key(ok: i32) -> (associated: bool)
    ensures
        associated == (ok != 0),
{
    ok != 0
}

/// Whether a certificate is valid at the current time, from how that time
/// lies to its dates: before them, between them (0), or after them.
pub fn is_time_valid(order: i32) -> (valid: bool)
    ensures
        valid == (order == 0),
{
    order == 0
}

/// The bytes of a string before its terminator.
pub open spec fn c_str(bytes: Seq<u8>) -> Seq<u8>
    decreases bytes.len(),
{
    if bytes.len() == 0 || bytes[0] == 0 {
        seq![]
    } else {
        seq![bytes[0]] + c_str(bytes.skip(1))
    }
}

/// A string with no terminator among its first bytes goes on behind them.
proof fn lemma_c_str_behind_prefix(bytes: Seq<u8>, len: int)
    requires
        0 <= len <= bytes.len(),
        forall|i: int| 0 <= i < len ==> bytes[i] != 0,
    ensures
        c_str(bytes) == bytes.take(len) + c_str(bytes.skip(len)),
    decreases len,
{
    if len == 0 {
        assert(bytes.skip(0) =~= bytes);
        assert(c_str(bytes) =~= bytes.take(0) + c_str(bytes.skip(0)));
    } else {
        lemma_c_str_behind_prefix(bytes.skip(1), len - 1);
        assert(bytes.skip(1).skip(len - 1) =~= bytes.skip(len));
        assert(seq![bytes[0]] + bytes.skip(1).take(len - 1) =~= bytes.take(len));
        assert(c_str(bytes) =~= bytes.take(len) + c_str(bytes.skip(len)));
    }
}

/// Compare two null-terminated strings.
pub fn cstr_eq(a: &[u8], b: &[u8]) -> (equal: bool)
    requires
        a@.contains(0),
        b@.contains(0),
    ensures
        equal == (c_str(a@) == c_str(b@)),
{
    let mut i: usize = 0;
    loop
        invariant
            a@.contains(0),
            b@.contains(0),
            i < a@.len(),
            i < b@.len(),
            a@.take(i as int) =~= b@.take(i as int),
            forall|j: int| 0 <= j < i ==> a@[j] != 0,
        decreases a@.len() - i,
    {
        let x: u8 = a[i];
        let y: u8 = b[i];
        proof {
            assert forall|j: int| 0 <= j < i implies b@[j] != 0 by {
                assert(b@[j] == b@.take(i as int)[j] == a@.take(i as int)[j]);
            }
            lemma_c_str_behind_prefix(a@, i as int);
            lemma_c_str_behind_prefix(b@, i as int);
        }
        if x != y {
            assert(c_str(a@) != c_str(b@)) by {
                assert(a@.skip(i as int)[0] == x);
                assert(b@.skip(i as int)[0] == y);
                if x == 0 {
                    assert(c_str(a@).len() < c_str(b@).len());
                } else if y == 0 {
                    assert(c_str(b@).len() < c_str(a@).len());
                } else {
                    assert(c_str(a@)[i as int] == x);
                    assert(c_str(b@)[i as int] == y);
                }
            }
            return false;
        }
        if x == 0 {
            return true;
        }
        proof {
            let end = choose|j: int| 0 <= j < a@.len() && a@[j] == 0;
            assert(end > i);
            let end = choose|j: int| 0 <= j < b@.len() && b@[j] == 0;
            assert(end > i) by {
                if end < i {
                    assert(b@[end] == b@.take(i as int)[end] == a@.take(i as int)[end]);
                }
            }
            assert(a@.take(i + 1) =~= a@.take(i as int).push(x));
            assert(b@.take(i + 1) =~= b@.take(i as int).push(y));
        }
        i = i + 1;
    }
}

/// The object identifier of client authentication, null-terminated: the
/// string that crypt32 knows as `szOID_PKIX_KP_CLIENT_AUTH`.
const CLIENT_AUTH: [u8; 18] = [
    0x31, 0x2e, 0x33, 0x2e, 0x36, 0x2e, 0x31, 0x2e, 0x35, 0x2e, 0x35, 0x2e, 0x37, 0x2e, 0x33, 0x2e,
    0x32, 0,
];

/// The object identifier of client authentication.
pub open spec fn client_auth_oid() -> Seq<u8> {
    "1.3.6.1.5.5.7.3.2"@.map_values(|c: char| c as u8)
}

proof fn lemma_client_auth()
    ensures
        CLIENT_AUTH@.contains(0),
        c_str(CLIENT_AUTH@) == client_auth_oid(),
{
    reveal_strlit("1.3.6.1.5.5.7.3.2");
    assert(CLIENT_AUTH@[17] == 0);
    lemma_c_str_behind_prefix(CLIENT_AUTH@, 17);
    assert(c_str(CLIENT_AUTH@) =~= client_auth_oid());
}

/// Whether a usage identifier is that of client authentication.
pub open spec fn names_client_auth(identifier: Option<Seq<u8>>) -> bool {
    identifier matches Some(bytes) && c_str(bytes) == client_auth_oid()
}

/// Whether the usages that a call answered allow client authentication.
///
/// A certificate with no usage at all is good for every use, which WinHTTP
/// and SChannel both honour.
pub open spec fn usage_allows_client_auth(ok: i32, identifiers: Seq<Option<Seq<u8>>>) -> bool {
    ok != 0 && (identifiers.len() == 0 || exists|i: int|
        0 <= i < identifiers.len() && #[trigger] names_client_auth(identifiers[i]))
}

/// The size of the buffer that usages are read into, where they can be.
pub open spec fn usage_size(ok: i32, size: u32) -> Option<u32> {
    if ok != 0 && size != 0 {
        Some(size)
    } else {
        None
    }
}

/// The size of the buffer that usages are read into; `None` where the sizing
/// call failed or reported nothing.
pub fn usage_buffer(ok: i32, size: u32) -> (buffer: Option<u32>)
    ensures
        buffer == usage_size(ok, size),
{
    if ok == 0 || size == 0 {
        None
    } else {
        Some(size)
    }
}

/// Whether a certificate may be used for client authentication, from its
/// usages.
pub fn allows_client_auth(ok: i32, identifiers: &Vec<Option<Vec<u8>>>) -> (allowed: bool)
    requires
        identifiers_terminated(identifiers_view(identifiers@)),
    ensures
        allowed == usage_allows_client_auth(ok, identifiers_view(identifiers@)),
{
    if ok == 0 {
        return false;
    }
    if identifiers.len() == 0 {
        return true;
    }
    proof {
        lemma_client_auth();
    }
    let ghost contents = identifiers_view(identifiers@);
    let mut next: usize = 0;
    while next < identifiers.len()
        invariant
            ok != 0,
            contents == identifiers_view(identifiers@),
            identifiers_terminated(contents),
            CLIENT_AUTH@.contains(0),
            c_str(CLIENT_AUTH@) == client_auth_oid(),
            next <= identifiers@.len(),
            forall|i: int| 0 <= i < next ==> !#[trigger] names_client_auth(contents[i]),
        decreases identifiers@.len() - next,
    {
        if let Some(oid) = &identifiers[next] {
            assert(identifier_terminated(contents[next as int]));
            if cstr_eq(oid.as_slice(), &CLIENT_AUTH) {
                assert(names_client_auth(contents[next as int]));
                return true;
            }
        }
        next = next + 1;
    }
    false
}

/// The thumbprint that a property read answered, where it did.
pub open spec fn thumbprint(ok: i32, size: u32, data: [u8; 20]) -> Option<[u8; 20]> {
    if ok != 0 && size == 20 {
        Some(data)
    } else {
        None
    }
}

/// A certificate's SHA-1 thumbprint, as the store records it.
pub fn cert_sha1(ok: i32, size: u32, data: [u8; 20]) -> (sha1: Option<[u8; 20]>)
    ensures
        sha1 == thumbprint(ok, size, data),
{
    if ok != 0 && size == 20 {
        Some(data)
    } else {
        None
    }
}

/// The length of the buffer that a name is read into, where there is a name:
/// the terminator alone is none.
pub open spec fn name_length(len: u32) -> Option<u32> {
    if len <= 1 {
        None
    } else {
        Some(len)
    }
}

/// The length of the buffer that a name is read into; `None` where there is
/// no name.
pub fn name_buffer(len: u32) -> (buffer: Option<u32>)
    ensures
        buffer == name_length(len),
{
    if len <= 1 {
        None
    } else {
        Some(len)
    }
}

/// The name that a call wrote: what stands before the terminator, and
/// nothing where it wrote nothing.
pub open spec fn name_text(written: u32, units: Seq<u16>) -> Seq<char> {
    if written == 0 {
        seq![]
    } else {
        utf16_lossy(units.take(written - 1))
    }
}

/// A display name for a certificate; empty when it has none.
pub fn cert_name(written: u32, units: &Vec<u16>) -> (name: String)
    requires
        written <= units@.len() + 1,
    ensures
        name@ == name_text(written, units@),
{
    if written == 0 {
        return String::new();
    }
    let len: usize = (written - 1) as usize;
    let text: &[u16] = slice_subrange(units.as_slice(), 0, len);
    assert(text@ =~= units@.take(written - 1));
    from_utf16_lossy(text)
}

/// A name that crypt32 writes into a buffer of the length it asked for is
/// read back as it is.
pub proof fn written_names_are_read_back(name: Seq<char>, written: u32, units: Seq<u16>)
    requires
        units == utf16(name).push(0),
        written == units.len(),
    ensures
        name_text(written, units) == name,
{
    assert(units.take(written - 1) =~= utf16(name));
    decoding_undoes_encoding(name);
}

// ---------------------------------------------------------------------------
// Contexts
// ---------------------------------------------------------------------------

/// How one more reference to a certificate context is taken.
pub fn duplicate_cert_context(ctx: usize) -> (call: Call)
    ensures
        call@ == (CallView::DuplicateContext { ctx }),
{
    CallOf::DuplicateContext { ctx }
}

/// How a reference to a certificate context is released.
pub fn free_cert_context(ctx: usize) -> (call: Call)
    ensures
        call@ == (CallView::FreeContext { ctx }),
{
    CallOf::FreeContext { ctx }
}

/// The call that builds a standalone context from an encoded certificate.
pub open spec fn create_call(der: Seq<u8>) -> Result<CallView, ErrorView> {
    if der.len() > u32::MAX {
        Err(ErrorView::Builder("certificate too large"@))
    } else {
        Ok(CallOf::CreateContext { encoding: 0x10001, encoded: der, len: der.len() as u32 })
    }
}

/// A context is built from all of the bytes and no more: anyone may make the
/// call.
pub proof fn creating_is_permitted(der: Seq<u8>, ledger: Ledger)
    ensures
        create_call(der) matches Ok(call) ==> permitted(ledger, call),
{
}

/// How a standalone certificate context is built from DER bytes.
///
/// [`pointer_or_error`] says what the call's answer means.
///
/// # Errors
///
/// Fails if the bytes are more than a length of 32 bits can count.
pub fn create_cert_context(der: &[u8]) -> (call: Result<Call, Error>)
    ensures
        match call {
            Ok(call) => create_call(der@) == Ok::<CallView, ErrorView>(call@),
            Err(error) => create_call(der@) == Err::<CallView, ErrorView>(error@),
        },
{
    if der.len() as u64 > u32::MAX as u64 {
        return Err(Error::Builder(String::from_str("certificate too large")));
    }
    let mut encoded: Vec<u8> = Vec::new();
    encoded.extend_from_slice(der);
    assert(encoded@ =~= der@);
    Ok(CallOf::CreateContext {
        encoding: certificate_encodings(),
        encoded,
        len: der.len() as u32,
    })
}

} // verus!
