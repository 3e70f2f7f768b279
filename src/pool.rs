//! A write-once holder for a shared connection-pool handle.
//!
//! A slot starts empty, is filled at most once during bootstrap, and is only
//! read afterwards.

use vstd::prelude::*;

verus! {

/// Why a resource slot refused an operation.
#[derive(Debug, Clone, Copy, PartialEq, Eq, Structural)]
pub enum PoolError {
    /// The slot already holds a handle; it is never replaced.
    AlreadyInitialized,
    /// The slot has not been filled yet.
    NotInitialized,
}

/// Why initializing a shared resource failed.
#[derive(Debug)]
pub enum InitError {
    /// The resource's settings are inconsistent.
    ConfigInvalid,
    /// The resource was already initialized; the first handle stays.
    AlreadyInitialized,
    /// The resource could not be reached, for the given reason.
    ConnectFailed(String),
}

/// A slot that goes from empty to filled exactly once and never back.
pub struct ResourcePool<T> {
    slot: Option<T>,
}

/// The slot and the outcome after an attempt to publish `handle` into `slot`.
pub open spec fn publish_spec<T>(slot: Option<T>, handle: T) -> (Option<T>, Result<(), PoolError>) {
    match slot {
        None => (Some(handle), Ok(())),
        Some(h) => (Some(h), Err(PoolError::AlreadyInitialized)),
    }
}

/// The slot after publishing each handle of `handles` in turn.
pub open spec fn publish_all<T>(slot: Option<T>, handles: Seq<T>) -> Option<T>
    decreases handles.len(),
{
    if handles.len() == 0 {
        slot
    } else {
        publish_all(publish_spec(slot, handles[0]).0, handles.drop_first())
    }
}

/// The slot after an initialization attempt whose connection gave
/// `connected` (`None` when connecting failed): a filled slot keeps its
/// handle whatever the outcome.
pub open spec fn init_spec<T>(slot: Option<T>, connected: Option<T>) -> Option<T> {
    match slot {
        Some(h) => Some(h),
        None => connected,
    }
}

/// The slot after each initialization attempt of `attempts` in turn.
pub open spec fn init_all<T>(slot: Option<T>, attempts: Seq<Option<T>>) -> Option<T>
    decreases attempts.len(),
{
    if attempts.len() == 0 {
        slot
    } else {
        init_all(init_spec(slot, attempts[0]), attempts.drop_first())
    }
}

/// What reading a slot gives: its handle, or `NotInitialized` while empty.
pub open spec fn get_spec<T>(slot: Option<T>) -> Result<T, PoolError> {
    match slot {
        Some(h) => Ok(h),
        None => Err(PoolError::NotInitialized),
    }
}

impl<T> View for ResourcePool<T> {
    type V = Option<T>;

    closed spec fn view(&self) -> Option<T> {
        self.slot
    }
}

impl<T> ResourcePool<T> {
    /// An empty slot.
    pub fn new() -> (r: Self)
        ensures
            r@ == None::<T>,
    {
        ResourcePool { slot: None }
    }

    /// Whether a handle has been published.
    pub fn is_ready(&self) -> (r: bool)
        ensures
            r == self@ is Some,
    {
        self.slot.is_some()
    }

    /// Publishes `handle` if the slot is still empty; otherwise leaves the
    /// slot as it is and reports `AlreadyInitialized`.
    pub fn publish(&mut self, handle: T) -> (r: Result<(), PoolError>)
        ensures
            (final(self)@, r) == publish_spec(old(self)@, handle),
    {
        if self.slot.is_some() {
            Err(PoolError::AlreadyInitialized)
        } else {
            self.slot = Some(handle);
            Ok(())
        }
    }

    /// Finishes initializing the resource once connecting to it has been
    /// tried. A filled slot always refuses with `AlreadyInitialized` and
    /// keeps its handle, whatever the connection outcome; an empty slot takes
    /// the connected handle, or stays empty and reports why connecting
    /// failed.
    pub fn publish_connected(&mut self, connected: Result<T, String>) -> (r: Result<(), InitError>)
        ensures
            old(self)@ is Some ==> (r matches Err(InitError::AlreadyInitialized)) && final(self)@
                == old(self)@,
            old(self)@ is None && connected is Err ==> final(self)@ == old(self)@,
            old(self)@ is None && connected is Err ==> (r matches Err(InitError::ConnectFailed(c))
                && c@ == connected->Err_0@),
            old(self)@ is None && connected is Ok ==> r is Ok,
            final(self)@ == init_spec(
                old(self)@,
                match connected {
                    Ok(h) => Some(h),
                    Err(_) => None,
                },
            ),
    {
        if self.slot.is_some() {
            return Err(InitError::AlreadyInitialized);
        }
        match connected {
            Ok(handle) => {
                self.slot = Some(handle);
                Ok(())
            },
            Err(cause) => Err(InitError::ConnectFailed(cause)),
        }
    }

    /// The published handle, or `NotInitialized` before the first publish.
    pub fn get(&self) -> (r: Result<&T, PoolError>)
        ensures
            r is Ok <==> get_spec(self@) is Ok,
            r is Ok ==> *r->Ok_0 == get_spec(self@)->Ok_0,
            r is Err ==> r->Err_0 == get_spec(self@)->Err_0,
    {
        match &self.slot {
            Some(h) => Ok(h),
            None => Err(PoolError::NotInitialized),
        }
    }

    /// The published handle; only to be called once the slot is filled.
    pub fn handle(&self) -> (r: &T)
        requires
            self@ is Some,
        ensures
            *r == self@->Some_0,
    {
        self.slot.as_ref().unwrap()
    }
}

/// A second publish always fails with `AlreadyInitialized` and leaves the
/// handle of the first one in place.
pub proof fn lemma_publish_at_most_once<T>(slot: Option<T>, first: T, second: T)
    ensures
        ({
            let (s1, r1) = publish_spec(slot, first);
            let (s2, r2) = publish_spec(s1, second);
            &&& slot is None ==> r1 is Ok && s1 == Some(first)
            &&& r2 == Err::<(), PoolError>(PoolError::AlreadyInitialized)
            &&& s2 == s1
        }),
{
}

/// Once a handle is published into an empty slot, any number of later
/// publish attempts leave that same handle there.
pub proof fn lemma_published_handle_stays<T>(handles: Seq<T>)
    requires
        handles.len() > 0,
    ensures
        publish_all(None, handles) == Some(handles[0]),
{
    lemma_filled_slot_stays(Some(handles[0]), handles.drop_first());
}

/// Reading an empty slot fails; once the first handle is published, every
/// read, after any number of further publish attempts, gives that handle.
pub proof fn lemma_reads_see_first_handle<T>(handles: Seq<T>, k: int)
    requires
        0 < k <= handles.len(),
    ensures
        get_spec(None::<T>) == Err::<T, PoolError>(PoolError::NotInitialized),
        get_spec(publish_all(None, handles.take(k))) == Ok::<T, PoolError>(handles[0]),
{
    lemma_published_handle_stays(handles.take(k));
}

/// Once an initialization attempt has succeeded, no later attempt changes
/// the handle, whether its connection succeeded or failed.
pub proof fn lemma_initialized_slot_stays<T>(handle: T, attempts: Seq<Option<T>>)
    ensures
        init_all(Some(handle), attempts) == Some(handle),
    decreases attempts.len(),
{
    if attempts.len() > 0 {
        lemma_initialized_slot_stays(handle, attempts.drop_first());
    }
}

/// A filled slot is unchanged by any sequence of publish attempts.
pub proof fn lemma_filled_slot_stays<T>(slot: Option<T>, handles: Seq<T>)
    requires
        slot is Some,
    ensures
        publish_all(slot, handles) == slot,
    decreases handles.len(),
{
    if handles.len() > 0 {
        lemma_filled_slot_stays(slot, handles.drop_first());
    }
}

} // verus!
