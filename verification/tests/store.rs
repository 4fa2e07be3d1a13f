//! Certificate-store operations, run against a store in memory.

use windows_sys::Win32::Foundation::FILETIME;
use windows_sys::Win32::Security::Cryptography::{
    CERT_FIND_HASH, CERT_KEY_PROV_INFO_PROP_ID, CERT_NAME_ISSUER_FLAG,
    CERT_NAME_SIMPLE_DISPLAY_TYPE, CERT_SHA1_HASH_PROP_ID, CERT_STORE_MAXIMUM_ALLOWED_FLAG,
    CERT_STORE_READONLY_FLAG, CERT_SYSTEM_STORE_CURRENT_USER, CERT_SYSTEM_STORE_LOCAL_MACHINE,
    PKCS_7_ASN_ENCODING, X509_ASN_ENCODING,
};
use wrest::abi::cert::{
    close_store, create_cert_context, duplicate_cert_context, find_in_open_store,
    free_cert_context, open_store, open_store_with, pointer_or_error, StoreLocation,
};
use wrest::abi::crypt32::{can_answer, Call, Reply, Validity};
use wrest::abi::deletion::delete_cert_by_sha1;
use wrest::abi::listing::{list_usable_certs, RawCertificateInfo};
use wrest::abi::lookup::{find_cert_by_sha1, StoreLookup};
use wrest::abi::operation::Machine;
use wrest::error::Error;
use wrest::tls::{Identity, StoreLocation as TlsLocation};

const ENCODINGS: u32 = X509_ASN_ENCODING | PKCS_7_ASN_ENCODING;
const STORE: usize = 0x5000;
const FIRST: usize = 0x1000;

/// The bytes that the store in memory takes for a certificate: an empty
/// sequence.
const TEST_DER: &[u8] = &[0x30, 0x00];

/// A certificate in memory.
#[derive(Clone)]
struct Cert {
    sha1: [u8; 20],
    hash_size: u32,
    key: bool,
    dated: bool,
    time: i32,
    usages: Vec<Option<Vec<u8>>>,
    usages_readable: bool,
    subject: &'static str,
    issuer: &'static str,
}

/// A usable certificate with this byte in its thumbprint.
fn cert(byte: u8) -> Cert {
    Cert {
        sha1: [byte; 20],
        hash_size: 20,
        key: true,
        dated: true,
        time: 0,
        usages: vec![Some(b"1.3.6.1.5.5.7.3.2\0".to_vec())],
        usages_readable: true,
        subject: "client",
        issuer: "authority",
    }
}

/// A store in memory that counts references.
struct Store {
    /// The error of opening it, if it does not open.
    refused: Option<u32>,
    /// Whether certificates can be deleted.
    deletable: bool,
    /// Whether closing it succeeds.
    closes: bool,
    /// The last error that stands behind a call that did not fail.
    stale: u32,
    certs: Vec<Cert>,
    open: i32,
    references: Vec<i32>,
    /// The contexts that were deleted.
    deleted: Vec<usize>,
    calls: Vec<String>,
}

impl Store {
    fn new(certs: Vec<Cert>) -> Self {
        let references = vec![0; certs.len()];
        Store {
            refused: None,
            deletable: true,
            closes: true,
            stale: 0,
            certs,
            open: 0,
            references,
            deleted: vec![],
            calls: vec![],
        }
    }

    /// The certificate with a live context.
    fn live(&self, ctx: usize) -> usize {
        let place = ctx - FIRST;
        assert!(self.references[place] > 0, "use after free");
        place
    }

    fn take(&mut self, place: usize) -> usize {
        self.references[place] += 1;
        FIRST + place
    }

    fn release(&mut self, ctx: usize) {
        let place = self.live(ctx);
        self.references[place] -= 1;
    }

    fn pointer(&self, value: usize) -> Reply {
        Reply::Pointer { value, last_error: self.stale }
    }

    fn name(&self, ctx: usize, kind: u32, flags: u32) -> Vec<u16> {
        assert_eq!(kind, CERT_NAME_SIMPLE_DISPLAY_TYPE);
        let cert = &self.certs[self.live(ctx)];
        let name = if flags == CERT_NAME_ISSUER_FLAG { cert.issuer } else { cert.subject };
        let mut units: Vec<u16> = name.encode_utf16().collect();
        units.push(0);
        units
    }

    fn perform(&mut self, call: &Call) -> Reply {
        self.calls.push(format!("{call:?}"));
        match call {
            Call::OpenStore { encoding, crypt_provider, .. } => {
                assert_eq!((*encoding, *crypt_provider), (0, 0));
                if let Some(code) = self.refused {
                    return Reply::Pointer { value: 0, last_error: code };
                }
                self.open += 1;
                self.pointer(STORE)
            }
            Call::CloseStore { store, flags } => {
                assert_eq!((*store, *flags), (STORE, 0));
                self.open -= 1;
                Reply::Status { ok: self.closes as i32, last_error: self.stale }
            }
            Call::FindCertificate { store, encoding, flags, kind, hash, previous } => {
                assert_eq!((*store, *encoding, *flags), (STORE, ENCODINGS, 0));
                assert_eq!((*kind, *previous), (CERT_FIND_HASH, 0));
                match self.certs.iter().position(|cert| cert.sha1 == *hash) {
                    Some(place) => {
                        let ctx = self.take(place);
                        self.pointer(ctx)
                    }
                    None => Reply::Pointer { value: 0, last_error: 0x8009_2004 },
                }
            }
            Call::NextCertificate { store, previous } => {
                assert_eq!(*store, STORE);
                let mut place = 0;
                if *previous != 0 {
                    place = self.live(*previous) + 1;
                    self.release(*previous);
                }
                let next = if place < self.certs.len() { self.take(place) } else { 0 };
                self.pointer(next)
            }
            Call::ReadProperty { ctx, property, size } => {
                let cert = &self.certs[self.live(*ctx)];
                if *property == CERT_KEY_PROV_INFO_PROP_ID {
                    assert_eq!(*size, 0);
                    Reply::Property { ok: cert.key as i32, size: 64, data: [0; 20] }
                } else {
                    assert_eq!((*property, *size), (CERT_SHA1_HASH_PROP_ID, 20));
                    Reply::Property { ok: 1, size: cert.hash_size, data: cert.sha1 }
                }
            }
            Call::ReadValidity { ctx } => {
                let place = self.live(*ctx);
                if !self.certs[place].dated {
                    return Reply::Validity(None);
                }
                Reply::Validity(Some(Validity {
                    not_before: FILETIME { dwLowDateTime: place as u32, dwHighDateTime: 1 },
                    not_after: FILETIME { dwLowDateTime: place as u32, dwHighDateTime: 2 },
                }))
            }
            Call::CheckTime { ctx } => Reply::Time(self.certs[self.live(*ctx)].time),
            Call::SizeUsage { ctx, flags } => {
                self.live(*ctx);
                assert_eq!(*flags, 0);
                Reply::UsageSize { ok: 1, size: 48 }
            }
            Call::ReadUsage { ctx, flags, size } => {
                let cert = &self.certs[self.live(*ctx)];
                assert_eq!((*flags, *size), (0, 48));
                Reply::Usage {
                    ok: cert.usages_readable as i32,
                    identifiers: cert.usages.clone(),
                }
            }
            Call::SizeName { ctx, kind, flags } => {
                Reply::NameLength(self.name(*ctx, *kind, *flags).len() as u32)
            }
            Call::ReadName { ctx, kind, flags, len } => {
                let units = self.name(*ctx, *kind, *flags);
                assert_eq!(units.len() as u32, *len);
                Reply::Name { written: *len, units }
            }
            Call::DuplicateContext { ctx } => {
                let place = self.live(*ctx);
                let ctx = self.take(place);
                self.pointer(ctx)
            }
            Call::FreeContext { ctx } => {
                self.release(*ctx);
                Reply::Status { ok: 1, last_error: 0 }
            }
            Call::CreateContext { encoding, encoded, len } => {
                assert_eq!((*encoding, *len), (ENCODINGS, encoded.len() as u32));
                if encoded.as_slice() != TEST_DER {
                    return Reply::Pointer { value: 0, last_error: 0x8009_3102 };
                }
                let ctx = self.take(0);
                self.pointer(ctx)
            }
            Call::DeleteCertificate { ctx } => {
                self.release(*ctx);
                if self.deletable {
                    self.deleted.push(*ctx);
                }
                Reply::Status { ok: self.deletable as i32, last_error: 5 }
            }
        }
    }

    fn run<M: Machine>(&mut self, machine: &mut M) {
        while let Some(call) = machine.pending() {
            let reply = self.perform(&call);
            assert!(can_answer(&call, &reply));
            machine.resume(reply);
        }
    }

    fn identity(&mut self, mut lookup: StoreLookup) -> Result<Identity, Error> {
        self.run(&mut lookup);
        Identity::from_lookup(lookup).expect("the lookup is over")
    }

    /// Create a context from bytes.
    fn create(&mut self, der: &[u8]) -> Result<usize, Error> {
        let call = create_cert_context(der)?;
        let reply = self.perform(&call);
        assert!(can_answer(&call, &reply));
        match reply {
            Reply::Pointer { value, last_error } => pointer_or_error(value, last_error),
            _ => panic!("a creation answers a pointer"),
        }
    }

    fn clone_of(&mut self, identity: &Identity) -> Identity {
        let duplication = identity.clone();
        match self.perform(&duplication.call()) {
            Reply::Pointer { value, .. } => duplication.finish(value),
            _ => panic!("a duplication answers a pointer"),
        }
    }

    fn drop_identity(&mut self, identity: Identity) {
        self.perform(&identity.drop());
    }
}

fn list(store: &mut Store) -> Result<Vec<RawCertificateInfo>, Error> {
    let mut listing = list_usable_certs(StoreLocation::CurrentUser, "MY");
    store.run(&mut listing);
    listing.outcome().expect("the listing is over")
}

/// The thumbprint bytes that a store lists.
fn listed(certs: Vec<Cert>) -> Vec<u8> {
    let mut store = Store::new(certs);
    let infos = list(&mut store).expect("the store opens");
    assert_eq!(store.open, 0, "the store is closed");
    assert!(store.references.iter().all(|count| *count == 0), "nothing is kept");
    infos.iter().map(|info| info.sha1[0]).collect()
}

#[test]
fn missing_thumbprint_is_a_clear_error() {
    // The store itself opens, so this exercises the null result of the
    // search rather than the open failure.
    let mut store = Store::new(vec![cert(1)]);
    let mut lookup = find_cert_by_sha1(StoreLocation::CurrentUser, "MY", &[0u8; 20]);
    store.run(&mut lookup);
    let err = lookup
        .outcome()
        .expect("the lookup is over")
        .expect_err("all-zero thumbprint should not match");
    assert!(err.is_builder(), "a missing certificate is a builder error");
    let detail = format!("{err:?}");
    assert!(
        detail.contains("no certificate with SHA-1 thumbprint"),
        "expected a not-found detail, got: {detail}"
    );
    assert_eq!(
        err,
        Error::Builder(format!(
            "no certificate with SHA-1 thumbprint {} in CurrentUser\\MY",
            "0".repeat(40)
        ))
    );
    assert_eq!(store.open, 0, "the store is closed");
}

#[test]
fn unknown_store_name_surfaces_win32_error() {
    let mut store = Store::new(vec![]);
    store.refused = Some(123);
    let mut lookup =
        find_cert_by_sha1(StoreLocation::CurrentUser, "NoSuchStore\\Invalid", &[0u8; 20]);
    store.run(&mut lookup);
    let err = lookup
        .outcome()
        .expect("the lookup is over")
        .expect_err("an invalid store name should fail");
    assert!(!format!("{err:?}").is_empty());
    assert!(!err.is_builder());
    assert_eq!(err, Error::Win32(123));
    assert_eq!(store.calls.len(), 1, "nothing is searched or closed");
}

#[test]
fn missing_certificate_is_an_error_not_a_panic() {
    let mut store = Store::new(vec![cert(1)]);
    let err = match store.identity(Identity::from_current_user(&[0u8; 20])) {
        Ok(_) => panic!("all-zero thumbprint should not resolve"),
        Err(err) => err,
    };
    assert!(err.is_builder(), "a missing certificate is a builder error");
    let detail = format!("{err:?}");
    assert!(detail.contains("no certificate"), "got {detail}");
}

#[test]
fn debug_reports_thumbprint_only_when_known() {
    let mut store = Store::new(vec![cert(0xab)]);

    // Adopted contexts have no thumbprint recorded.
    let theirs = store.take(0);
    let duplication = Identity::from_cert_context(theirs);
    assert_eq!(duplication.call(), Call::DuplicateContext { ctx: theirs });
    let adopted = format!("{:?}", duplication.finish(theirs));
    assert!(adopted.starts_with("Identity"), "got {adopted}");
    assert!(!adopted.contains("sha1"), "no thumbprint is known: {adopted}");
    assert_eq!(adopted, "Identity { .. }");
    let adopted = Identity::from_cert_context(theirs).finish(theirs);
    assert_eq!(format!("{adopted:#?}"), "Identity { .. }");

    // A store lookup records one.
    let identity = match store.identity(Identity::from_current_user(&[0xab; 20])) {
        Ok(identity) => identity,
        Err(err) => panic!("{err:?}"),
    };
    let shown = format!("{identity:?}");
    assert!(shown.contains("abab"), "thumbprint should be shown: {shown}");
    assert_eq!(shown, format!("Identity {{ sha1: \"{}\" }}", "ab".repeat(20)));
    assert_eq!(
        format!("{identity:#?}"),
        format!("Identity {{\n    sha1: \"{}\",\n}}", "ab".repeat(20))
    );
    assert_eq!(identity.thumbprint(), Some("ab".repeat(20)));
}

#[test]
fn clones_outlive_each_other() {
    // Each clone holds its own reference, so dropping clones in any
    // order must leave the remaining ones usable.
    let mut store = Store::new(vec![cert(1)]);
    let identity = match store.identity(Identity::from_current_user(&[1; 20])) {
        Ok(identity) => identity,
        Err(err) => panic!("{err:?}"),
    };
    let a = store.clone_of(&identity);
    let b = store.clone_of(&a);
    assert_eq!(store.references[0], 3);
    store.drop_identity(a);
    assert_ne!(b.as_ptr(), 0, "clone still valid after sibling dropped");
    store.live(b.as_ptr());
    store.drop_identity(b);
    assert_ne!(identity.as_ptr(), 0, "original outlives its clones");
    store.live(identity.as_ptr());

    // Dropping the last reference must not double-free.
    store.drop_identity(identity);
    assert_eq!(store.references[0], 0);
}

#[test]
fn a_lookup_comes_to_the_context_and_its_thumbprint() {
    let mut store = Store::new(vec![cert(1), cert(2)]);
    let lookup = Identity::from_system_store(TlsLocation::LocalMachine, "MY", &[2; 20]);
    let identity = match store.identity(lookup) {
        Ok(identity) => identity,
        Err(err) => panic!("{err:?}"),
    };
    assert_eq!(identity.as_ptr(), FIRST + 1);
    assert_eq!(identity.thumbprint(), Some("02".repeat(20)));
    assert_eq!(store.references, vec![0, 1], "one reference is kept");
    assert_eq!(store.open, 0, "the store is closed");
}

#[test]
fn an_unfinished_operation_has_no_outcome() {
    assert!(find_cert_by_sha1(StoreLocation::CurrentUser, "MY", &[0; 20]).outcome().is_none());
    assert!(Identity::from_lookup(Identity::from_current_user(&[0; 20])).is_none());
    assert!(delete_cert_by_sha1(StoreLocation::CurrentUser, "MY", &[0; 20]).outcome().is_none());
    assert!(list_usable_certs(StoreLocation::CurrentUser, "MY").outcome().is_none());
}

#[test]
fn calls_carry_the_constants_of_crypt32() {
    assert_eq!(
        open_store(StoreLocation::CurrentUser, "MY"),
        Call::OpenStore {
            encoding: 0,
            crypt_provider: 0,
            flags: CERT_SYSTEM_STORE_CURRENT_USER | CERT_STORE_READONLY_FLAG,
            name: vec![0x4d, 0x59, 0],
        }
    );
    assert_eq!(
        open_store_with(StoreLocation::LocalMachine, "A", CERT_STORE_MAXIMUM_ALLOWED_FLAG),
        Call::OpenStore {
            encoding: 0,
            crypt_provider: 0,
            flags: CERT_SYSTEM_STORE_LOCAL_MACHINE | CERT_STORE_MAXIMUM_ALLOWED_FLAG,
            name: vec![0x41, 0],
        }
    );
    assert_eq!(
        find_in_open_store(7, &[3; 20]),
        Call::FindCertificate {
            store: 7,
            encoding: ENCODINGS,
            flags: 0,
            kind: CERT_FIND_HASH,
            hash: [3; 20],
            previous: 0,
        }
    );
    assert_eq!(close_store(7), Call::CloseStore { store: 7, flags: 0 });
    assert_eq!(duplicate_cert_context(9), Call::DuplicateContext { ctx: 9 });
    assert_eq!(free_cert_context(9), Call::FreeContext { ctx: 9 });
    assert_eq!(
        delete_cert_by_sha1(StoreLocation::CurrentUser, "MY", &[0; 20]).pending(),
        Some(open_store_with(
            StoreLocation::CurrentUser,
            "MY",
            CERT_STORE_MAXIMUM_ALLOWED_FLAG
        ))
    );
    assert_eq!(StoreLocation::from(TlsLocation::CurrentUser), StoreLocation::CurrentUser);
    assert_eq!(StoreLocation::from(TlsLocation::LocalMachine), StoreLocation::LocalMachine);
    assert_eq!(StoreLocation::LocalMachine.flag(), CERT_SYSTEM_STORE_LOCAL_MACHINE);
}

#[test]
fn fixture_parses_as_a_certificate() {
    let mut store = Store::new(vec![cert(1)]);
    let ctx = store.create(TEST_DER).expect("fixture DER should parse");
    assert_ne!(ctx, 0);
    assert_eq!(store.references[0], 1);
    store.perform(&free_cert_context(ctx));
    assert_eq!(store.references[0], 0);

    // Garbage must be rejected rather than producing a bogus context.
    let garbage = store.create(b"not a certificate");
    assert!(garbage.is_err(), "invalid DER should not yield a context");
    assert_eq!(garbage, Err(Error::Win32(0x8009_3102)));
    assert_eq!(store.references[0], 0);
}

#[test]
fn a_context_is_created_from_its_bytes() {
    assert_eq!(
        create_cert_context(b"not a certificate"),
        Ok(Call::CreateContext {
            encoding: ENCODINGS,
            encoded: b"not a certificate".to_vec(),
            len: 17,
        })
    );
    assert_eq!(pointer_or_error(0, 13), Err(Error::Win32(13)));
    assert_eq!(pointer_or_error(FIRST, 13), Ok(FIRST));
}

#[test]
fn deletion_reports_what_happened() {
    let mut store = Store::new(vec![cert(1)]);
    let mut deletion = delete_cert_by_sha1(StoreLocation::CurrentUser, "MY", &[1; 20]);
    store.run(&mut deletion);
    assert_eq!(deletion.outcome(), Some(Ok(())));
    assert_eq!((store.open, store.references[0]), (0, 0));

    let mut deletion = delete_cert_by_sha1(StoreLocation::CurrentUser, "MY", &[2; 20]);
    store.run(&mut deletion);
    assert_eq!(deletion.outcome(), Some(Err(Error::Win32(0x8009_2004))));
    assert_eq!((store.open, store.references[0]), (0, 0));
    assert_eq!(store.deleted, vec![FIRST], "nothing more is deleted");

    store.deletable = false;
    let mut deletion = delete_cert_by_sha1(StoreLocation::CurrentUser, "MY", &[1; 20]);
    store.run(&mut deletion);
    assert_eq!(deletion.outcome(), Some(Err(Error::Win32(5))));
    assert_eq!((store.open, store.references[0]), (0, 0), "released all the same");

    store.refused = Some(2);
    let mut deletion = delete_cert_by_sha1(StoreLocation::CurrentUser, "MY", &[1; 20]);
    store.run(&mut deletion);
    assert_eq!(deletion.outcome(), Some(Err(Error::Win32(2))));
}

#[test]
fn listing_keeps_exactly_the_usable_certificates_in_order() {
    assert_eq!(listed(vec![]), vec![]);
    assert_eq!(listed(vec![cert(3), cert(1), cert(2)]), vec![3, 1, 2]);
    let certs = vec![
        Cert { key: false, ..cert(1) },
        cert(2),
        Cert { dated: false, ..cert(3) },
        Cert { time: 1, ..cert(4) },
        Cert { time: -1, ..cert(5) },
        Cert { usages: vec![Some(b"1.3.6.1.5.5.7.3.1\0".to_vec()), None], ..cert(6) },
        Cert { usages: vec![], ..cert(7) },
        Cert { usages_readable: false, ..cert(8) },
        Cert { hash_size: 32, ..cert(9) },
        cert(10),
    ];
    assert_eq!(listed(certs), vec![2, 7, 10]);
}

#[test]
fn listing_does_not_depend_on_last_errors_or_on_closing() {
    let certs = vec![cert(3), Cert { key: false, ..cert(1) }, cert(2)];
    for (closes, stale) in [(true, 0), (true, 5), (false, 0), (false, 0x8009_2004)] {
        let mut store = Store::new(certs.clone());
        store.closes = closes;
        store.stale = stale;
        let infos = list(&mut store).expect("the store opens");
        let bytes: Vec<u8> = infos.iter().map(|info| info.sha1[0]).collect();
        assert_eq!(bytes, vec![3, 2]);
    }
}

#[test]
fn listed_certificates_can_be_looked_up() {
    let mut store = Store::new(vec![cert(3), Cert { key: false, ..cert(1) }, cert(2)]);
    let infos = list(&mut store).expect("the store opens");
    let mut found = vec![];
    for info in &infos {
        let mut lookup = find_cert_by_sha1(StoreLocation::CurrentUser, "MY", &info.sha1);
        store.run(&mut lookup);
        found.push(lookup.outcome().expect("the lookup is over"));
    }
    assert_eq!(found, vec![Ok(FIRST), Ok(FIRST + 2)]);
}

#[test]
fn listing_reads_names_and_dates() {
    let mut store = Store::new(vec![
        Cert { key: false, ..cert(1) },
        Cert { subject: "J\u{f8}rgen \u{1f511}", issuer: "", ..cert(2) },
        Cert { subject: "", ..cert(3) },
    ]);
    let infos = list(&mut store).expect("the store opens");
    assert_eq!(infos.len(), 2);
    assert_eq!(infos[0].subject, "J\u{f8}rgen \u{1f511}");
    assert_eq!(infos[0].issuer, "");
    assert_eq!(infos[0].sha1, [2; 20]);
    assert_eq!(infos[0].not_before.dwLowDateTime, 1);
    assert_eq!(infos[0].not_before.dwHighDateTime, 1);
    assert_eq!(infos[0].not_after.dwLowDateTime, 1);
    assert_eq!(infos[0].not_after.dwHighDateTime, 2);
    assert_eq!(infos[1].subject, "");
    assert_eq!(infos[1].issuer, "authority");
}

#[test]
fn listing_of_an_unopened_store_fails() {
    let mut store = Store::new(vec![cert(1)]);
    store.refused = Some(5);
    match list(&mut store) {
        Ok(_) => panic!("the store does not open"),
        Err(err) => assert_eq!(err, Error::Win32(5)),
    }
    assert_eq!(store.calls.len(), 1);
}

#[test]
fn answers_must_fit_their_calls() {
    let call = Call::ReadName { ctx: FIRST, kind: 4, flags: 0, len: 2 };
    assert!(can_answer(&call, &Reply::Name { written: 2, units: vec![0x41, 0] }));
    assert!(can_answer(&call, &Reply::Name { written: 3, units: vec![0x41, 0x42] }));
    assert!(!can_answer(&call, &Reply::Name { written: 4, units: vec![0x41, 0x42] }));
    assert!(!can_answer(&call, &Reply::Name { written: 2, units: vec![0] }));
    assert!(!can_answer(&call, &Reply::Time(0)));
    let call = Call::ReadUsage { ctx: FIRST, flags: 0, size: 1 };
    let terminated = Reply::Usage { ok: 1, identifiers: vec![None, Some(b"1\0".to_vec())] };
    assert!(can_answer(&call, &terminated));
    let open_ended = Reply::Usage { ok: 1, identifiers: vec![Some(b"1".to_vec())] };
    assert!(!can_answer(&call, &open_ended));
}
