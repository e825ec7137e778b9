//! The registry of live agent processes, keyed by session.
use vstd::prelude::*;
use crate::table::Table;
use crate::session::SessionError;

verus! {

/// Maps a session key to the handle of its live process. A key is present
/// exactly while its process runs and has not been reaped.
pub struct ProcessRegistry<H> {
    table: Table<H>,
}

impl<H> View for ProcessRegistry<H> {
    type V = Map<Seq<char>, H>;

    closed spec fn view(&self) -> Map<Seq<char>, H> {
        self.table@
    }
}

/// The registry after moving the entry of `from` to `to`; unchanged when
/// `from` has no entry.
pub open spec fn rekeyed<H>(m: Map<Seq<char>, H>, from: Seq<char>, to: Seq<char>) -> Map<Seq<char>, H> {
    if m.contains_key(from) {
        m.remove(from).insert(to, m[from])
    } else {
        m
    }
}

impl<H> ProcessRegistry<H> {
    pub closed spec fn wf(&self) -> bool {
        self.table.wf()
    }

    /// An empty registry.
    pub fn new() -> (r: ProcessRegistry<H>)
        ensures
            r.wf(),
            r@ == Map::<Seq<char>, H>::empty(),
    {
        ProcessRegistry { table: Table::new() }
    }

    /// Whether a process is registered under `key`.
    pub fn contains(&self, key: &str) -> (r: bool)
        requires
            self.wf(),
        ensures
            r == self@.contains_key(key@),
    {
        self.table.contains_key(key)
    }

    /// Registers `handle` under `key`, handing back a handle it displaces.
    pub fn insert(&mut self, key: String, handle: H) -> (r: Option<H>)
        requires
            old(self).wf(),
        ensures
            final(self).wf(),
            final(self)@ == old(self)@.insert(key@, handle),
            r == (if old(self)@.contains_key(key@) {
                Some(old(self)@[key@])
            } else {
                None::<H>
            }),
    {
        self.table.insert(key, handle)
    }

    /// Takes the entry of `key` out of the registry.
    pub fn remove(&mut self, key: &str) -> (r: Option<H>)
        requires
            old(self).wf(),
        ensures
            final(self).wf(),
            final(self)@ == old(self)@.remove(key@),
            r == (if old(self)@.contains_key(key@) {
                Some(old(self)@[key@])
            } else {
                None::<H>
            }),
    {
        self.table.remove(key)
    }

    /// Moves the entry of `from` to `to`, the same handle under the new key;
    /// does nothing when `from` has no entry. Tells whether it moved one.
    pub fn rekey(&mut self, from: &str, to: String) -> (r: bool)
        requires
            old(self).wf(),
        ensures
            final(self).wf(),
            final(self)@ == rekeyed(old(self)@, from@, to@),
            r == old(self)@.contains_key(from@),
    {
        match self.table.remove(from) {
            Some(h) => {
                self.table.insert(to, h);
                true
            },
            None => false,
        }
    }

    /// Takes out the entry of `key` so that its process can be killed;
    /// `NotRunning` when no process is registered under it.
    pub fn kill_and_remove(&mut self, key: &str) -> (r: Result<H, SessionError>)
        requires
            old(self).wf(),
        ensures
            final(self).wf(),
            final(self)@ == cancel_spec(old(self)@, key@).0,
            match cancel_spec(old(self)@, key@).1 {
                Some(h) => r == Ok::<H, SessionError>(h),
                None => r is Err && r->Err_0 is NotRunning,
            },
    {
        match self.table.remove(key) {
            Some(h) => Ok(h),
            None => Err(SessionError::NotRunning),
        }
    }
}

/// An empty registry of running processes.
pub fn init_running_processes<H>() -> (r: ProcessRegistry<H>)
    ensures
        r.wf(),
        r@ == Map::<Seq<char>, H>::empty(),
{
    ProcessRegistry::new()
}

/// The registry after a cancel of `key`, and the handle it hands back to be
/// killed (`None` stands for `NotRunning`).
pub open spec fn cancel_spec<H>(m: Map<Seq<char>, H>, key: Seq<char>) -> (Map<Seq<char>, H>, Option<H>) {
    (m.remove(key), if m.contains_key(key) {
        Some(m[key])
    } else {
        None
    })
}

/// Cancelling a key that was never registered, or whose entry is gone, is
/// `NotRunning`; cancelling a live key hands its process back and removes
/// the entry, so of two cancels in a row exactly the first hands it back.
pub proof fn lemma_cancel_once<H>(m: Map<Seq<char>, H>, key: Seq<char>)
    ensures
        !m.contains_key(key) ==> cancel_spec(m, key) == (m, None::<H>),
        m.contains_key(key) ==> cancel_spec(m, key).1 == Some(m[key]),
        !cancel_spec(m, key).0.contains_key(key),
        cancel_spec(cancel_spec(m, key).0, key).1 is None,
        cancel_spec(cancel_spec(m, key).0, key).0 == cancel_spec(m, key).0,
{
    assert(m.remove(key).remove(key) =~= m.remove(key));
    if !m.contains_key(key) {
        assert(m.remove(key) =~= m);
    }
}

} // verus!
