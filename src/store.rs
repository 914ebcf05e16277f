use vstd::prelude::*;
use vstd::slice::slice_subrange;
use crate::error::StoreError;
use crate::identifier::{valid_identifier, validate_identifier};
use crate::paths::{entry_path, entry_path_of, temp_path, temp_path_of};

verus! {

/// The largest number of bytes a single write keeps unless the store is
/// given another limit: 128 KiB.
pub const DEFAULT_SIZE_LIMIT: usize = 131072;

/// What is kept of the content `c` under the limit `limit`: all of it when it
/// fits, else exactly its first `limit` bytes.
pub open spec fn truncated(c: Seq<u8>, limit: nat) -> Seq<u8> {
    if c.len() <= limit {
        c
    } else {
        c.take(limit as int)
    }
}

/// What a storage namespace holds, from path to bytes.
pub open spec fn lookup(ns: Map<Seq<char>, Seq<u8>>, path: Seq<char>) -> Option<Seq<u8>> {
    if ns.contains_key(path) {
        Some(ns[path])
    } else {
        None
    }
}

/// Where a completed write can be retrieved from: the identifier, to be
/// placed under the host's base location.
pub struct StoredLocation {
    pub id: String,
}

/// How an attempt to open a stored entry ended.
pub enum OpenOutcome<T> {
    /// The entry exists and was opened.
    Opened(T),
    /// No entry exists at that path.
    Missing,
    /// Any other failure of the storage.
    Failed,
}

/// How the storage steps of a write (filling the temporary copy, then
/// renaming it over the entry) ended.
#[derive(Debug, Clone, Copy, PartialEq, Eq, Structural)]
pub enum StepOutcome {
    Done,
    Failed,
}

/// A store rooted at one directory, with the limit on what a write keeps.
pub struct PasteStore {
    pub root: String,
    pub size_limit: usize,
}

/// One write in progress: the bytes it keeps go to `temp_path`, which a
/// successful write then renames over `target_path`.
pub struct WriteSession {
    pub id: String,
    pub temp_path: String,
    pub target_path: String,
    pub size_limit: usize,
    /// How many bytes have been kept so far.
    pub accepted: usize,
    /// Every byte offered so far, kept or not.
    pub received: Ghost<Seq<u8>>,
}

impl WriteSession {
    pub open spec fn wf(&self) -> bool {
        self.accepted as nat == self.stored().len()
    }

    /// The bytes that the temporary copy holds.
    pub open spec fn stored(&self) -> Seq<u8> {
        truncated(self.received@, self.size_limit as nat)
    }

    /// The namespace `ns` once this write has been renamed into place.
    pub open spec fn commit(&self, ns: Map<Seq<char>, Seq<u8>>) -> Map<Seq<char>, Seq<u8>> {
        ns.insert(self.target_path@, self.stored())
    }

    /// Takes the next piece of the incoming stream and returns the part of it
    /// that is to be written: all of it while the limit allows, then nothing.
    pub fn accept<'a>(&mut self, chunk: &'a [u8]) -> (kept: &'a [u8])
        requires
            old(self).wf(),
        ensures
            final(self).wf(),
            final(self).received@ == old(self).received@ + chunk@,
            final(self).stored() == old(self).stored() + kept@,
            final(self).stored().len() <= final(self).size_limit,
            kept@ == chunk@.take(kept@.len() as int),
            final(self).id == old(self).id,
            final(self).temp_path == old(self).temp_path,
            final(self).target_path == old(self).target_path,
            final(self).size_limit == old(self).size_limit,
    {
        let room = self.size_limit - self.accepted;
        let take = if chunk.len() <= room {
            chunk.len()
        } else {
            room
        };
        let kept = slice_subrange(chunk, 0, take);
        let ghost r = self.received@;
        let ghost c = chunk@;
        let ghost l = self.size_limit as nat;
        self.received = Ghost(r + c);
        self.accepted = self.accepted + take;
        proof {
            if r.len() >= l {
                assert((r + c).take(l as int) =~= r.take(l as int));
            } else if r.len() + c.len() <= l {
                assert(truncated(r + c, l) =~= r + c);
            } else {
                assert((r + c).take(l as int) =~= r + c.take(l - r.len()));
            }
            assert(kept@ =~= c.take(take as int));
            assert(self.stored() =~= truncated(r, l) + kept@);
        }
        kept
    }

    /// Whether the limit has been reached, so that the rest of the stream can
    /// be left unread.
    pub fn is_full(&self) -> (r: bool)
        requires
            self.wf(),
        ensures
            r == (self.stored().len() == self.size_limit),
    {
        self.accepted == self.size_limit
    }

    /// Reports how the storage steps of this write ended.
    pub fn finish(self, outcome: StepOutcome) -> (r: Result<StoredLocation, StoreError>)
        ensures
            match r {
                Ok(loc) => outcome == StepOutcome::Done && loc.id == self.id,
                Err(e) => outcome == StepOutcome::Failed && e == StoreError::IOFailure,
            },
    {
        match outcome {
            StepOutcome::Done => Ok(StoredLocation { id: self.id }),
            StepOutcome::Failed => Err(StoreError::IOFailure),
        }
    }
}

/// The namespace `ns` after a write of `c` to `id` in a store rooted at `root`
/// that keeps at most `limit` bytes.
pub open spec fn after_put(
    ns: Map<Seq<char>, Seq<u8>>,
    root: Seq<char>,
    limit: nat,
    id: Seq<char>,
    c: Seq<u8>,
) -> Map<Seq<char>, Seq<u8>> {
    ns.insert(entry_path_of(root, id), truncated(c, limit))
}

impl PasteStore {
    pub fn new(root: String, size_limit: usize) -> (r: PasteStore)
        ensures
            r.root == root,
            r.size_limit == size_limit,
    {
        PasteStore { root, size_limit }
    }

    /// A store under `root` that keeps at most 128 KiB per write.
    pub fn with_default_limit(root: String) -> (r: PasteStore)
        ensures
            r.root == root,
            r.size_limit == DEFAULT_SIZE_LIMIT,
    {
        PasteStore { root, size_limit: DEFAULT_SIZE_LIMIT }
    }

    /// The path to read for `id`, or `InvalidIdentifier` before any storage
    /// is touched.
    pub fn locate(&self, id: &str) -> (r: Result<String, StoreError>)
        ensures
            match r {
                Ok(p) => valid_identifier(id@) && p@ == entry_path_of(self.root@, id@),
                Err(e) => !valid_identifier(id@) && e == StoreError::InvalidIdentifier,
            },
    {
        match validate_identifier(id) {
            Ok(()) => Ok(entry_path(self.root.as_str(), id)),
            Err(e) => Err(e),
        }
    }

    /// Starts the write numbered `nonce` of the entry `id`, or refuses `id`
    /// with `InvalidIdentifier` before any storage is touched. Writes in
    /// progress at the same time must carry distinct numbers.
    pub fn begin_put(&self, id: &str, nonce: u64) -> (r: Result<WriteSession, StoreError>)
        ensures
            match r {
                Ok(s) => {
                    &&& valid_identifier(id@)
                    &&& s.wf()
                    &&& s.received@ == Seq::<u8>::empty()
                    &&& s.id@ == id@
                    &&& s.target_path@ == entry_path_of(self.root@, id@)
                    &&& s.temp_path@ == temp_path_of(self.root@, id@, nonce as nat)
                    &&& s.size_limit == self.size_limit
                },
                Err(e) => !valid_identifier(id@) && e == StoreError::InvalidIdentifier,
            },
    {
        match validate_identifier(id) {
            Ok(()) => {
                let s = WriteSession {
                    id: String::from_str(id),
                    temp_path: temp_path(self.root.as_str(), id, nonce),
                    target_path: entry_path(self.root.as_str(), id),
                    size_limit: self.size_limit,
                    accepted: 0,
                    received: Ghost(Seq::empty()),
                };
                assert(s.stored() =~= Seq::<u8>::empty());
                Ok(s)
            },
            Err(e) => Err(e),
        }
    }

    /// Reports how opening an entry ended: its content, "not found", or a
    /// storage failure. Only a missing entry counts as "not found".
    pub fn finish_get<T>(outcome: OpenOutcome<T>) -> (r: Result<Option<T>, StoreError>)
        ensures
            match outcome {
                OpenOutcome::Opened(f) => r == Ok::<Option<T>, StoreError>(Some(f)),
                OpenOutcome::Missing => r == Ok::<Option<T>, StoreError>(None),
                OpenOutcome::Failed => r == Err::<Option<T>, StoreError>(StoreError::IOFailure),
            },
    {
        match outcome {
            OpenOutcome::Opened(f) => Ok(Some(f)),
            OpenOutcome::Missing => Ok(None),
            OpenOutcome::Failed => Err(StoreError::IOFailure),
        }
    }
}

} // verus!
