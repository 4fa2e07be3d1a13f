//! Finding a certificate by its thumbprint.

use crate::abi::cert::{
    close_call, close_store, find_call, find_in_open_store, missing_certificate, missing_text,
    open_call, open_store, read_access, StoreLocation,
};
use crate::abi::crypt32::{Call, CallView, Ledger, Reply, ReplyOf, ReplyView};
use crate::abi::operation::{
    converses, every_run_is_accounted_for, run, settle, Machine, Operation,
};
use crate::error::{result_view, Error, ErrorView};
use vstd::multiset::Multiset;
use vstd::prelude::*;

verus! {

/// How far a lookup has got.
#[derive(Clone, Copy)]
pub enum LookupStage {
    /// The store is being opened.
    Opening,
    /// The store is being searched.
    Finding {
        /// The store.
        store: usize,
    },
    /// The store is being closed.
    Closing {
        /// The store.
        store: usize,
        /// What the search returned.
        found: usize,
    },
    /// The lookup is over.
    Finished {
        /// What the search returned.
        found: usize,
    },
    /// The store could not be opened.
    Failed {
        /// The Win32 error.
        code: u32,
    },
}

/// The state of a [`StoreLookup`].
pub struct LookupView {
    /// Where the store is.
    pub location: StoreLocation,
    /// Its name.
    pub store_name: Seq<char>,
    /// The thumbprint looked for.
    pub sha1: [u8; 20],
    /// How far the lookup has got.
    pub stage: LookupStage,
}

impl LookupView {
    /// A lookup about to begin.
    pub open spec fn start(
        location: StoreLocation,
        store_name: Seq<char>,
        sha1: [u8; 20],
    ) -> LookupView {
        LookupView { location, store_name, sha1, stage: LookupStage::Opening }
    }

    /// This lookup at another stage.
    pub open spec fn at(self, stage: LookupStage) -> LookupView {
        LookupView { stage, ..self }
    }

    /// What the lookup came to, once it is over: the context found, the
    /// error of opening the store, or that there is no such certificate.
    pub open spec fn outcome(self) -> Option<Result<usize, ErrorView>> {
        match self.stage {
            LookupStage::Finished { found } => Some(
                if found != 0 {
                    Ok(found)
                } else {
                    Err(
                        ErrorView::Builder(
                            missing_text(self.location, self.store_name, self.sha1@),
                        ),
                    )
                },
            ),
            LookupStage::Failed { code } => Some(Err(ErrorView::Win32(code))),
            _ => None,
        }
    }
}

impl Operation for LookupView {
    open spec fn pending(self) -> Option<CallView> {
        match self.stage {
            LookupStage::Opening => Some(
                open_call(self.location, self.store_name, read_access()),
            ),
            LookupStage::Finding { store } => Some(find_call(store, self.sha1)),
            LookupStage::Closing { store, .. } => Some(close_call(store)),
            LookupStage::Finished { .. } => None,
            LookupStage::Failed { .. } => None,
        }
    }

    open spec fn after(self, reply: ReplyView) -> LookupView {
        match (self.stage, reply) {
            (LookupStage::Opening, ReplyOf::Pointer { value, last_error }) => self.at(
                if value == 0 {
                    LookupStage::Failed { code: last_error }
                } else {
                    LookupStage::Finding { store: value }
                },
            ),
            (LookupStage::Finding { store }, ReplyOf::Pointer { value, .. }) => self.at(
                LookupStage::Closing { store, found: value },
            ),
            (LookupStage::Closing { found, .. }, ReplyOf::Status { .. }) => self.at(
                LookupStage::Finished { found },
            ),
            _ => self,
        }
    }

    open spec fn holds(self) -> Ledger {
        match self.stage {
            LookupStage::Opening => Ledger::empty(),
            LookupStage::Finding { store } => Ledger::empty().gain_store(store),
            LookupStage::Closing { store, found } => Ledger::empty().gain_store(
                store,
            ).gain_context(found),
            LookupStage::Finished { found } => Ledger::empty().gain_context(found),
            LookupStage::Failed { .. } => Ledger::empty(),
        }
    }

    open spec fn well_formed(self) -> bool {
        match self.stage {
            LookupStage::Finding { store } => store != 0,
            LookupStage::Closing { store, .. } => store != 0,
            _ => true,
        }
    }

    proof fn pending_is_permitted(self) {
    }

    proof fn resuming_is_accounted_for(self, reply: ReplyView) {
        if let LookupStage::Closing { store, found } = self.stage {
            let one = Multiset::<usize>::empty().insert(store);
            assert(one.remove(store) =~= Multiset::empty());
        }
    }
}

/// A search for a certificate in a system store.
#[must_use]
pub struct StoreLookup {
    location: StoreLocation,
    store_name: String,
    sha1: [u8; 20],
    stage: LookupStage,
}

impl View for StoreLookup {
    type V = LookupView;

    closed spec fn view(&self) -> LookupView {
        LookupView {
            location: self.location,
            store_name: self.store_name@,
            sha1: self.sha1,
            stage: self.stage,
        }
    }
}

/// Find a certificate by SHA-1 thumbprint in a named system store.
///
/// The lookup comes to a context that the caller owns and must release (see
/// [`free_cert_context`](crate::abi::cert::free_cert_context)).  `store_name`
/// is a store name such as `"MY"` (personal) or `"ROOT"`.
///
/// # Errors
///
/// The lookup fails with the Win32 error if the store cannot be opened, or
/// with a not-found error if no certificate in it has that thumbprint.
pub fn find_cert_by_sha1(
    location: StoreLocation,
    store_name: &str,
    sha1: &[u8; 20],
) -> (lookup: StoreLookup)
    ensures
        lookup@ == LookupView::start(location, store_name@, *sha1),
{
    StoreLookup {
        location,
        store_name: String::from_str(store_name),
        sha1: *sha1,
        stage: LookupStage::Opening,
    }
}

impl Machine for StoreLookup {
    type Model = LookupView;

    open spec fn model(&self) -> LookupView {
        self@
    }

    fn pending(&self) -> (call: Option<Call>) {
        match self.stage {
            LookupStage::Opening => Some(open_store(self.location, self.store_name.as_str())),
            LookupStage::Finding { store } => Some(find_in_open_store(store, &self.sha1)),
            LookupStage::Closing { store, .. } => Some(close_store(store)),
            LookupStage::Finished { .. } => None,
            LookupStage::Failed { .. } => None,
        }
    }

    fn resume(&mut self, reply: Reply) {
        match (self.stage, reply) {
            (LookupStage::Opening, ReplyOf::Pointer { value, last_error }) => {
                if value == 0 {
                    self.stage = LookupStage::Failed { code: last_error };
                } else {
                    self.stage = LookupStage::Finding { store: value };
                }
            },
            (LookupStage::Finding { store }, ReplyOf::Pointer { value, .. }) => {
                self.stage = LookupStage::Closing { store, found: value };
            },
            (LookupStage::Closing { found, .. }, ReplyOf::Status { .. }) => {
                self.stage = LookupStage::Finished { found };
            },
            _ => {},
        }
    }
}

impl StoreLookup {
    /// The thumbprint looked for.
    pub fn sha1(&self) -> (sha1: [u8; 20])
        ensures
            sha1 == self@.sha1,
    {
        self.sha1
    }

    /// What the lookup came to; `None` while it is still waiting for a call.
    pub fn outcome(self) -> (outcome: Option<Result<usize, Error>>)
        ensures
            match outcome {
                Some(result) => self@.outcome() == Some(result_view(result)),
                None => self@.outcome() is None,
            },
    {
        match self.stage {
            LookupStage::Finished { found } => {
                if found != 0 {
                    Some(Ok(found))
                } else {
                    Some(
                        Err(
                            missing_certificate(
                                self.location,
                                self.store_name.as_str(),
                                &self.sha1,
                            ),
                        ),
                    )
                }
            },
            LookupStage::Failed { code } => Some(Err(Error::Win32(code))),
            _ => None,
        }
    }
}

/// What a lookup comes to, for every answer that its calls can give: the
/// Win32 error if the store does not open, a not-found error if the search
/// returns null, and otherwise what the search returns.
pub proof fn lookup_comes_to(
    location: StoreLocation,
    store_name: Seq<char>,
    sha1: [u8; 20],
    opened: usize,
    open_error: u32,
    found: usize,
    find_error: u32,
    closed: i32,
    close_error: u32,
)
    ensures
        ({
            let begin = LookupView::start(location, store_name, sha1);
            let open = ReplyView::Pointer { value: opened, last_error: open_error };
            let find = ReplyView::Pointer { value: found, last_error: find_error };
            let close = ReplyView::Status { ok: closed, last_error: close_error };
            &&& begin.pending() == Some(open_call(location, store_name, read_access()))
            &&& if opened == 0 {
                begin.after(open).outcome() == Some(
                    Err::<usize, ErrorView>(ErrorView::Win32(open_error)),
                )
            } else {
                &&& begin.after(open).pending() == Some(find_call(opened, sha1))
                &&& begin.after(open).after(find).pending() == Some(close_call(opened))
                &&& begin.after(open).after(find).after(close).outcome() == Some(
                    if found == 0 {
                        Err::<usize, ErrorView>(
                            ErrorView::Builder(missing_text(location, store_name, sha1@)),
                        )
                    } else {
                        Ok(found)
                    },
                )
            }
        }),
{
}

/// A lookup leaves no store open, and nothing owned but the context that it
/// came to.
pub proof fn lookup_leaves_only_what_it_found(
    location: StoreLocation,
    store_name: Seq<char>,
    sha1: [u8; 20],
    replies: Seq<ReplyView>,
)
    requires
        converses(LookupView::start(location, store_name, sha1), replies),
        run(LookupView::start(location, store_name, sha1), replies).pending() is None,
    ensures
        settle(LookupView::start(location, store_name, sha1), Ledger::empty(), replies) == (
        match run(LookupView::start(location, store_name, sha1), replies).outcome() {
            Some(Ok(found)) => Ledger::empty().gain_context(found),
            _ => Ledger::empty(),
        }),
{
    let begin = LookupView::start(location, store_name, sha1);
    every_run_is_accounted_for(begin, replies);
}

} // verus!
