//! The publication slot through which the worker announces its OS thread
//! handle to the controller, once.
use vstd::prelude::*;

verus! {

/// The value the slot holds until the worker publishes.
pub const UNPUBLISHED: u64 = 0;

/// Why a publication was refused.
#[derive(Clone, Copy, Debug, PartialEq, Eq, Structural)]
pub enum PublishError {
    /// The handle equals the sentinel and could not be told from "unpublished".
    SentinelHandle,
    /// A handle was already published; it stays as it is.
    AlreadyPublished,
}

/// The process-wide cell holding the worker's thread handle.
#[derive(Clone, Copy, Debug, PartialEq, Eq, Structural)]
pub struct PublicationSlot {
    pub value: u64,
}

impl PublicationSlot {
    /// The handle the slot holds, if any.
    pub open spec fn published(self) -> Option<u64> {
        if self.value == UNPUBLISHED {
            None
        } else {
            Some(self.value)
        }
    }

    /// The slot after an attempt to publish `handle`.
    pub open spec fn after_publish(self, handle: u64) -> Self {
        if self.value == UNPUBLISHED && handle != UNPUBLISHED {
            PublicationSlot { value: handle }
        } else {
            self
        }
    }

    pub fn new() -> (r: Self)
        ensures
            r.value == UNPUBLISHED,
            r.published() is None,
    {
        PublicationSlot { value: UNPUBLISHED }
    }

    /// The worker stores its handle. Only the first non-sentinel handle is
    /// kept: once published, the slot does not change.
    pub fn publish(&mut self, handle: u64) -> (r: Result<(), PublishError>)
        ensures
            *final(self) == old(self).after_publish(handle),
            r is Err <==> (handle == UNPUBLISHED || old(self).value != UNPUBLISHED),
            r == Err::<(), PublishError>(PublishError::SentinelHandle) <==> handle
                == UNPUBLISHED,
            r == Err::<(), PublishError>(PublishError::AlreadyPublished) <==> (handle
                != UNPUBLISHED && old(self).value != UNPUBLISHED),
            r is Ok ==> final(self).published() == Some(handle),
    {
        if handle == UNPUBLISHED {
            Err(PublishError::SentinelHandle)
        } else if self.value != UNPUBLISHED {
            Err(PublishError::AlreadyPublished)
        } else {
            self.value = handle;
            Ok(())
        }
    }

    /// The controller's read: `None` while the slot holds the sentinel.
    pub fn observe(&self) -> (r: Option<u64>)
        ensures
            r == self.published(),
    {
        if self.value == UNPUBLISHED {
            None
        } else {
            Some(self.value)
        }
    }
}

/// Reads a raw slot value as the controller does: the sentinel means the
/// worker has not published yet.
pub fn observe_value(value: u64) -> (r: Option<u64>)
    ensures
        r == (PublicationSlot { value }).published(),
{
    if value == UNPUBLISHED {
        None
    } else {
        Some(value)
    }
}

/// Once a handle is published, every later attempt to publish leaves it in
/// place, and every read returns it, never the sentinel.
pub proof fn lemma_publication_stable(handle: u64, later: Seq<u64>)
    requires
        handle != UNPUBLISHED,
    ensures
        ({
            let published = PublicationSlot { value: UNPUBLISHED }.after_publish(handle);
            let end = later.fold_left(published, |s: PublicationSlot, h: u64| s.after_publish(h));
            &&& published.published() == Some(handle)
            &&& end == published
            &&& end.published() == Some(handle)
        }),
    decreases later.len(),
{
    let published = PublicationSlot { value: UNPUBLISHED }.after_publish(handle);
    if later.len() > 0 {
        lemma_publication_stable(handle, later.drop_last());
    }
    assert(later.fold_left(published, |s: PublicationSlot, h: u64| s.after_publish(h))
        == published);
}

} // verus!
