//! Deleting a certificate by its thumbprint.

use crate::abi::cert::{
    close_call, close_store, find_call, find_in_open_store, open_call, open_store_with,
    write_access, StoreLocation,
};
use crate::abi::constants::store_maximum_allowed;
use crate::abi::crypt32::{Call, CallOf, CallView, Ledger, Reply, ReplyOf, ReplyView};
use crate::abi::operation::{
    converses, every_run_is_accounted_for, run, settle, Machine, Operation,
};
use crate::error::{result_view, Error, ErrorView};
use vstd::multiset::Multiset;
use vstd::prelude::*;

verus! {

/// What a deletion came to.
#[derive(Clone, Copy)]
pub enum DeletionResult {
    /// The certificate is gone.
    Deleted,
    /// There was no such certificate.
    Missing {
        /// The Win32 error of the search.
        code: u32,
    },
    /// The certificate could not be deleted.
    Refused {
        /// The Win32 error.
        code: u32,
    },
}

/// How far a deletion has got.
#[derive(Clone, Copy)]
pub enum DeletionStage {
    /// The store is being opened.
    Opening,
    /// The store is being searched.
    Finding {
        /// The store.
        store: usize,
    },
    /// The certificate is being deleted.
    Deleting {
        /// The store.
        store: usize,
        /// The certificate.
        ctx: usize,
    },
    /// The store is being closed.
    Closing {
        /// The store.
        store: usize,
        /// What the deletion came to.
        result: DeletionResult,
    },
    /// The deletion is over.
    Finished {
        /// What it came to.
        result: DeletionResult,
    },
    /// The store could not be opened.
    Failed {
        /// The Win32 error.
        code: u32,
    },
}

/// The state of a [`StoreDeletion`].
pub struct DeletionView {
    /// Where the store is.
    pub location: StoreLocation,
    /// Its name.
    pub store_name: Seq<char>,
    /// The thumbprint of the certificate.
    pub sha1: [u8; 20],
    /// How far the deletion has got.
    pub stage: DeletionStage,
}

impl DeletionView {
    /// A deletion about to begin.
    pub open spec fn start(
        location: StoreLocation,
        store_name: Seq<char>,
        sha1: [u8; 20],
    ) -> DeletionView {
        DeletionView { location, store_name, sha1, stage: DeletionStage::Opening }
    }

    /// This deletion at another stage.
    pub open spec fn at(self, stage: DeletionStage) -> DeletionView {
        DeletionView { stage, ..self }
    }

    /// What the deletion came to, once it is over.
    pub open spec fn outcome(self) -> Option<Result<(), ErrorView>> {
        match self.stage {
            DeletionStage::Finished { result } => Some(
                match result {
                    DeletionResult::Deleted => Ok(()),
                    DeletionResult::Missing { code } => Err(ErrorView::Win32(code)),
                    DeletionResult::Refused { code } => Err(ErrorView::Win32(code)),
                },
            ),
            DeletionStage::Failed { code } => Some(Err(ErrorView::Win32(code))),
            _ => None,
        }
    }
}

impl Operation for DeletionView {
    open spec fn pending(self) -> Option<CallView> {
        match self.stage {
            DeletionStage::Opening => Some(
                open_call(self.location, self.store_name, write_access()),
            ),
            DeletionStage::Finding { store } => Some(find_call(store, self.sha1)),
            DeletionStage::Deleting { ctx, .. } => Some(CallOf::DeleteCertificate { ctx }),
            DeletionStage::Closing { store, .. } => Some(close_call(store)),
            DeletionStage::Finished { .. } => None,
            DeletionStage::Failed { .. } => None,
        }
    }

    open spec fn after(self, reply: ReplyView) -> DeletionView {
        match (self.stage, reply) {
            (DeletionStage::Opening, ReplyOf::Pointer { value, last_error }) => self.at(
                if value == 0 {
                    DeletionStage::Failed { code: last_error }
                } else {
                    DeletionStage::Finding { store: value }
                },
            ),
            (DeletionStage::Finding { store }, ReplyOf::Pointer { value, last_error }) => self.at(
                if value == 0 {
                    DeletionStage::Closing {
                        store,
                        result: DeletionResult::Missing { code: last_error },
                    }
                } else {
                    DeletionStage::Deleting { store, ctx: value }
                },
            ),
            (DeletionStage::Deleting { store, .. }, ReplyOf::Status { ok, last_error }) => self.at(
                DeletionStage::Closing {
                    store,
                    result: if ok != 0 {
                        DeletionResult::Deleted
                    } else {
                        DeletionResult::Refused { code: last_error }
                    },
                },
            ),
            (DeletionStage::Closing { result, .. }, ReplyOf::Status { .. }) => self.at(
                DeletionStage::Finished { result },
            ),
            _ => self,
        }
    }

    open spec fn holds(self) -> Ledger {
        match self.stage {
            DeletionStage::Finding { store } => Ledger::empty().gain_store(store),
            DeletionStage::Deleting { store, ctx } => Ledger::empty().gain_store(
                store,
            ).gain_context(ctx),
            DeletionStage::Closing { store, .. } => Ledger::empty().gain_store(store),
            _ => Ledger::empty(),
        }
    }

    open spec fn well_formed(self) -> bool {
        match self.stage {
            DeletionStage::Finding { store } => store != 0,
            DeletionStage::Deleting { store, ctx } => store != 0 && ctx != 0,
            DeletionStage::Closing { store, .. } => store != 0,
            _ => true,
        }
    }

    proof fn pending_is_permitted(self) {
    }

    proof fn resuming_is_accounted_for(self, reply: ReplyView) {
        match self.stage {
            DeletionStage::Deleting { ctx, .. } => {
                let one = Multiset::<usize>::empty().insert(ctx);
                assert(one.remove(ctx) =~= Multiset::empty());
            },
            DeletionStage::Closing { store, .. } => {
                let one = Multiset::<usize>::empty().insert(store);
                assert(one.remove(store) =~= Multiset::empty());
            },
            _ => {},
        }
    }
}

/// A deletion of a certificate from a system store.
#[must_use]
pub struct StoreDeletion {
    location: StoreLocation,
    store_name: String,
    sha1: [u8; 20],
    stage: DeletionStage,
}

impl View for StoreDeletion {
    type V = DeletionView;

    closed spec fn view(&self) -> DeletionView {
        DeletionView {
            location: self.location,
            store_name: self.store_name@,
            sha1: self.sha1,
            stage: self.stage,
        }
    }
}

/// Delete a certificate from a store by SHA-1 thumbprint.
///
/// # Errors
///
/// The deletion fails with the Win32 error if the store cannot be opened for
/// writing, if no certificate has that thumbprint, or if the certificate
/// cannot be deleted.
pub fn delete_cert_by_sha1(
    location: StoreLocation,
    store_name: &str,
    sha1: &[u8; 20],
) -> (deletion: StoreDeletion)
    ensures
        deletion@ == DeletionView::start(location, store_name@, *sha1),
{
    StoreDeletion {
        location,
        store_name: String::from_str(store_name),
        sha1: *sha1,
        stage: DeletionStage::Opening,
    }
}

impl Machine for StoreDeletion {
    type Model = DeletionView;

    open spec fn model(&self) -> DeletionView {
        self@
    }

    fn pending(&self) -> (call: Option<Call>) {
        match self.stage {
            DeletionStage::Opening => Some(
                open_store_with(self.location, self.store_name.as_str(), store_maximum_allowed()),
            ),
            DeletionStage::Finding { store } => Some(find_in_open_store(store, &self.sha1)),
            DeletionStage::Deleting { ctx, .. } => Some(CallOf::DeleteCertificate { ctx }),
            DeletionStage::Closing { store, .. } => Some(close_store(store)),
            DeletionStage::Finished { .. } => None,
            DeletionStage::Failed { .. } => None,
        }
    }

    fn resume(&mut self, reply: Reply) {
        match (self.stage, reply) {
            (DeletionStage::Opening, ReplyOf::Pointer { value, last_error }) => {
                if value == 0 {
                    self.stage = DeletionStage::Failed { code: last_error };
                } else {
                    self.stage = DeletionStage::Finding { store: value };
                }
            },
            (DeletionStage::Finding { store }, ReplyOf::Pointer { value, last_error }) => {
                if value == 0 {
                    let result = DeletionResult::Missing { code: last_error };
                    self.stage = DeletionStage::Closing { store, result };
                } else {
                    self.stage = DeletionStage::Deleting { store, ctx: value };
                }
            },
            (DeletionStage::Deleting { store, .. }, ReplyOf::Status { ok, last_error }) => {
                let result = if ok != 0 {
                    DeletionResult::Deleted
                } else {
                    DeletionResult::Refused { code: last_error }
                };
                self.stage = DeletionStage::Closing { store, result };
            },
            (DeletionStage::Closing { result, .. }, ReplyOf::Status { .. }) => {
                self.stage = DeletionStage::Finished { result };
            },
            _ => {},
        }
    }
}

impl StoreDeletion {
    /// What the deletion came to; `None` while it is still waiting for a
    /// call.
    pub fn outcome(self) -> (outcome: Option<Result<(), Error>>)
        ensures
            match outcome {
                Some(result) => self@.outcome() == Some(result_view(result)),
                None => self@.outcome() is None,
            },
    {
        match self.stage {
            DeletionStage::Finished { result } => match result {
                DeletionResult::Deleted => Some(Ok(())),
                DeletionResult::Missing { code } => Some(Err(Error::Win32(code))),
                DeletionResult::Refused { code } => Some(Err(Error::Win32(code))),
            },
            DeletionStage::Failed { code } => Some(Err(Error::Win32(code))),
            _ => None,
        }
    }
}

/// What a deletion comes to, for every answer that its calls can give: the
/// Win32 error of the call that failed if the store does not open, the search
/// returns null or the certificate is not deleted, and otherwise success.
/// Where the search returns null, the store is closed and nothing is deleted.
pub proof fn deletion_comes_to(
    location: StoreLocation,
    store_name: Seq<char>,
    sha1: [u8; 20],
    opened: usize,
    open_error: u32,
    found: usize,
    find_error: u32,
    deleted: i32,
    delete_error: u32,
    closed: i32,
    close_error: u32,
)
    ensures
        ({
            let begin = DeletionView::start(location, store_name, sha1);
            let open = ReplyView::Pointer { value: opened, last_error: open_error };
            let find = ReplyView::Pointer { value: found, last_error: find_error };
            let delete = ReplyView::Status { ok: deleted, last_error: delete_error };
            let close = ReplyView::Status { ok: closed, last_error: close_error };
            &&& begin.pending() == Some(open_call(location, store_name, write_access()))
            &&& if opened == 0 {
                begin.after(open).outcome() == Some(
                    Err::<(), ErrorView>(ErrorView::Win32(open_error)),
                )
            } else if found == 0 {
                &&& begin.after(open).pending() == Some(find_call(opened, sha1))
                &&& begin.after(open).after(find).pending() == Some(close_call(opened))
                &&& begin.after(open).after(find).after(close).outcome() == Some(
                    Err::<(), ErrorView>(ErrorView::Win32(find_error)),
                )
            } else {
                &&& begin.after(open).pending() == Some(find_call(opened, sha1))
                &&& begin.after(open).after(find).pending() == Some(
                    CallView::DeleteCertificate { ctx: found },
                )
                &&& begin.after(open).after(find).after(delete).pending() == Some(
                    close_call(opened),
                )
                &&& begin.after(open).after(find).after(delete).after(close).outcome() == Some(
                    if deleted == 0 {
                        Err::<(), ErrorView>(ErrorView::Win32(delete_error))
                    } else {
                        Ok(())
                    },
                )
            }
        }),
{
}

/// A deletion leaves no store open and no context owned.
pub proof fn deletion_leaves_nothing(
    location: StoreLocation,
    store_name: Seq<char>,
    sha1: [u8; 20],
    replies: Seq<ReplyView>,
)
    requires
        converses(DeletionView::start(location, store_name, sha1), replies),
        run(DeletionView::start(location, store_name, sha1), replies).pending() is None,
    ensures
        settle(DeletionView::start(location, store_name, sha1), Ledger::empty(), replies)
            == Ledger::empty(),
{
    let begin = DeletionView::start(location, store_name, sha1);
    every_run_is_accounted_for(begin, replies);
}

} // verus!
