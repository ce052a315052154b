//! Watching the session directory: which file-system events matter, how
//! they are buffered between flushes, and what to do while the directory
//! does not exist yet.

use vstd::prelude::*;

use crate::config::paths::{join_path, path_join, path_parent, std_path_parent};
use crate::config::schema::user_home_dir;
use crate::text::{chars_eq, chars_of, opt_text};

verus! {

/// Kinds of file-system events (those of the `notify` crate).
#[derive(Debug, Clone, Copy, PartialEq, Eq, Structural)]
pub enum EventKind {
    Any,
    Access,
    Create(CreateKind),
    Modify,
    Remove,
    Other,
}

/// What was created.
#[derive(Debug, Clone, Copy, PartialEq, Eq, Structural)]
pub enum CreateKind {
    Any,
    File,
    Folder,
    Other,
}

/// Events emitted by the watcher.
#[derive(Debug, Clone, PartialEq, Eq)]
pub enum WatchEvent {
    FileCreated(String),
    FileModified(String),
    FileDeleted(String),
    DirectoryCreated(String),
    Error(String),
}

/// Why watching failed.
#[derive(Debug)]
pub enum WatcherError {
    Io(String),
    Notify(String),
    DirectoryNotFound { path: String },
    AlreadyRunning,
}

/// Gives the watcher its settings.
pub trait WatcherStateAccess: Sized {
    /// The session directory this state gives. An implementation says so by
    /// defining it; left alone, it is some fixed text for each state.
    open spec fn session_dir_of(&self) -> Seq<char> {
        arbitrary::<spec_fn(Self) -> Seq<char>>()(*self)
    }

    /// The debounce time, in milliseconds, this state gives (defined, or
    /// left alone, as [`WatcherStateAccess::session_dir_of`] is).
    open spec fn debounce_of(&self) -> u64 {
        arbitrary::<spec_fn(Self) -> u64>()(*self)
    }

    /// The session directory to watch.
    fn session_dir(&self) -> (r: String)
        ensures
            r@ == self.session_dir_of(),
    ;

    /// Milliseconds events are debounced for.
    fn debounce_ms(&self) -> (r: u64)
        ensures
            r == self.debounce_of(),
    ;
}

/// Watcher settings.
#[derive(Debug)]
pub struct SessionWatcher {
    session_dir: String,
    debounce_ms: u64,
}

impl SessionWatcher {
    pub closed spec fn dir_spec(self) -> Seq<char> {
        self.session_dir@
    }

    pub closed spec fn debounce_spec(self) -> u64 {
        self.debounce_ms
    }

    /// Watches `~/.opencode` (`./.opencode` when the home directory is
    /// unknown), debouncing for 100 ms.
    pub fn new() -> (r: Self)
        ensures
            r.debounce_spec() == 100,
            exists|home: Seq<char>| r.dir_spec() == #[trigger] path_join(home, ".opencode"@),
    {
        let home = match user_home_dir() {
            Some(h) => h,
            None => ".".to_string(),
        };
        let r = SessionWatcher { session_dir: join_path(home.as_str(), ".opencode"), debounce_ms: 100 };
        proof { assert(r.dir_spec() == path_join(home@, ".opencode"@)); }
        r
    }

    /// Watches `path`, debouncing for 100 ms.
    pub fn with_path(path: String) -> (r: Self)
        ensures
            r.dir_spec() == path@,
            r.debounce_spec() == 100,
    {
        SessionWatcher { session_dir: path, debounce_ms: 100 }
    }

    /// Watches what `state` says, as `state` says.
    pub fn from_state<S: WatcherStateAccess>(state: &S) -> (r: Self)
        ensures
            r.dir_spec() == state.session_dir_of(),
            r.debounce_spec() == state.debounce_of(),
    {
        SessionWatcher { session_dir: state.session_dir(), debounce_ms: state.debounce_ms() }
    }

    /// The same watcher debouncing for `ms` milliseconds.
    pub fn with_debounce(self, ms: u64) -> (r: Self)
        ensures
            r.dir_spec() == self.dir_spec(),
            r.debounce_spec() == ms,
    {
        SessionWatcher { debounce_ms: ms, ..self }
    }

    /// The directory watched.
    pub fn session_dir(&self) -> (r: &str)
        ensures
            r@ == self.dir_spec(),
    {
        self.session_dir.as_str()
    }

    /// Milliseconds events are debounced for.
    pub fn debounce_ms(&self) -> (r: u64)
        ensures
            r == self.debounce_spec(),
    {
        self.debounce_ms
    }
}

/// Creations, modifications and removals matter; accesses and the rest do
/// not.
pub open spec fn core_kind(k: EventKind) -> bool {
    k is Create || k is Modify || k is Remove
}

/// Whether an event kind matters.
pub fn is_core_event(kind: EventKind) -> (r: bool)
    ensures
        r == core_kind(kind),
{
    match kind {
        EventKind::Create(_) | EventKind::Modify | EventKind::Remove => true,
        _ => false,
    }
}

/// The watch event for an event of `kind` on `path`: a created folder is a
/// directory creation, another creation a file creation; modifications and
/// removals are reported as such; other kinds are dropped.
pub open spec fn event_of(kind: EventKind, path: String) -> Option<WatchEvent> {
    match kind {
        EventKind::Create(CreateKind::Folder) => Some(WatchEvent::DirectoryCreated(path)),
        EventKind::Create(_) => Some(WatchEvent::FileCreated(path)),
        EventKind::Modify => Some(WatchEvent::FileModified(path)),
        EventKind::Remove => Some(WatchEvent::FileDeleted(path)),
        _ => None,
    }
}

/// The watch events of buffered entries, in order.
pub open spec fn mapped(entries: Seq<(String, EventKind)>) -> Seq<WatchEvent>
    decreases entries.len(),
{
    if entries.len() == 0 {
        seq![]
    } else {
        let r = mapped(entries.drop_last());
        match event_of(entries.last().1, entries.last().0) {
            Some(e) => r.push(e),
            None => r,
        }
    }
}

/// The watch event for an event of `kind` on `path` (see [`event_of`]).
pub fn map_event(kind: EventKind, path: String) -> (r: Option<WatchEvent>)
    ensures
        r == event_of(kind, path),
{
    if !is_core_event(kind) {
        return None;
    }
    match kind {
        EventKind::Create(c) => match c {
            CreateKind::Folder => Some(WatchEvent::DirectoryCreated(path)),
            _ => Some(WatchEvent::FileCreated(path)),
        },
        EventKind::Modify => Some(WatchEvent::FileModified(path)),
        EventKind::Remove => Some(WatchEvent::FileDeleted(path)),
        _ => None,
    }
}

/// Events waiting for the next flush: the latest kind per path.
#[derive(Debug)]
pub struct EventBuffer {
    entries: Vec<(String, EventKind)>,
}

pub open spec fn buffer_map(entries: Seq<(String, EventKind)>) -> Map<Seq<char>, EventKind>
    decreases entries.len(),
{
    if entries.len() == 0 {
        Map::empty()
    } else {
        buffer_map(entries.drop_last()).insert(entries.last().0@, entries.last().1)
    }
}

pub open spec fn keys_unique(entries: Seq<(String, EventKind)>) -> bool {
    forall|i: int, j: int| 0 <= i < j < entries.len() ==> entries[i].0@ != entries[j].0@
}

impl EventBuffer {
    /// The latest kind buffered for each path.
    pub closed spec fn view_map(self) -> Map<Seq<char>, EventKind> {
        buffer_map(self.entries@)
    }

    pub closed spec fn well_formed(self) -> bool {
        keys_unique(self.entries@)
    }

    /// The watch events a flush would emit now, in order.
    pub closed spec fn pending(self) -> Seq<WatchEvent> {
        mapped(self.entries@)
    }

    /// An empty buffer.
    pub fn new() -> (r: Self)
        ensures
            r.view_map() == Map::<Seq<char>, EventKind>::empty(),
            r.well_formed(),
    {
        EventBuffer { entries: Vec::new() }
    }

    /// Number of buffered paths.
    pub fn len(&self) -> (r: usize)
        requires
            self.well_formed(),
        ensures
            r == self.view_map().len(),
    {
        proof { lemma_buffer_len(self.entries@); }
        self.entries.len()
    }

    /// The kind buffered for `path`, if any.
    pub fn kind_of(&self, path: &str) -> (r: Option<EventKind>)
        requires
            self.well_formed(),
        ensures
            match r {
                Some(k) => self.view_map().dom().contains(path@) && self.view_map()[path@] == k,
                None => !self.view_map().dom().contains(path@),
            },
    {
        let n = self.entries.len();
        let mut i: usize = 0;
        let b = chars_of(path);
        proof { assert(keys_unique(self.entries@)); }
        while i < n
            invariant
                n == self.entries@.len(),
                i <= n,
                b@ == path@,
                keys_unique(self.entries@),
                forall|j: int| 0 <= j < i ==> self.entries@[j].0@ != path@,
            decreases n - i,
        {
            let a = chars_of(self.entries[i].0.as_str());
            if chars_eq(a.as_slice(), b.as_slice()) {
                proof { lemma_buffer_lookup(self.entries@, i as int); }
                return Some(self.entries[i].1);
            }
            i = i + 1;
        }
        proof {
            lemma_buffer_domain(self.entries@);
            if self.view_map().dom().contains(path@) {
                let j = choose|j: int| 0 <= j < self.entries@.len() && self.entries@[j].0@ == path@;
                assert(self.entries@[j].0@ != path@);
            }
        }
        None
    }

    /// Buffers an event: when its kind matters, each of its paths now maps
    /// to that kind.
    pub fn buffer_event(&mut self, kind: EventKind, paths: &Vec<String>)
        requires
            old(self).well_formed(),
        ensures
            final(self).well_formed(),
            final(self).view_map() == if core_kind(kind) {
                insert_all(old(self).view_map(), paths@, kind)
            } else {
                old(self).view_map()
            },
    {
        if !is_core_event(kind) {
            return;
        }
        let n = paths.len();
        let mut i: usize = 0;
        let ghost m0 = self.view_map();
        proof { assert(paths@.take(0) =~= Seq::<String>::empty()); }
        while i < n
            invariant
                n == paths@.len(),
                i <= n,
                keys_unique(self.entries@),
                buffer_map(self.entries@) == insert_all(m0, paths@.take(i as int), kind),
            decreases n - i,
        {
            proof {
                assert(paths@.take(i as int + 1).drop_last() =~= paths@.take(i as int));
                assert(paths@.take(i as int + 1).last() == paths@[i as int]);
            }
            self.insert(paths[i].clone(), kind);
            i = i + 1;
        }
        proof { assert(paths@.take(n as int) =~= paths@); }
    }

    fn insert(&mut self, path: String, kind: EventKind)
        requires
            keys_unique(old(self).entries@),
        ensures
            keys_unique(final(self).entries@),
            buffer_map(final(self).entries@) == buffer_map(old(self).entries@).insert(path@, kind),
    {
        let n = self.entries.len();
        let mut i: usize = 0;
        while i < n
            invariant
                n == self.entries@.len(),
                i <= n,
                self.entries@ == old(self).entries@,
                keys_unique(self.entries@),
                forall|j: int| 0 <= j < i ==> self.entries@[j].0@ != path@,
            decreases n - i,
        {
            let a = chars_of(self.entries[i].0.as_str());
            let b = chars_of(path.as_str());
            if chars_eq(a.as_slice(), b.as_slice()) {
                let ghost before = self.entries@;
                self.entries.set(i, (path, kind));
                proof { lemma_buffer_set(before, i as int, self.entries@[i as int]); }
                return;
            }
            i = i + 1;
        }
        let ghost before = self.entries@;
        self.entries.push((path, kind));
        proof {
            assert(self.entries@.drop_last() =~= before);
        }
    }

    /// Empties the buffer, returning the watch events of its entries.
    pub fn drain(&mut self) -> (r: Vec<WatchEvent>)
        ensures
            final(self).view_map() == Map::<Seq<char>, EventKind>::empty(),
            final(self).well_formed(),
            r@ == old(self).pending(),
    {
        let mut entries: Vec<(String, EventKind)> = Vec::new();
        std::mem::swap(&mut entries, &mut self.entries);
        proof { assert(entries@.take(0) =~= Seq::<(String, EventKind)>::empty()); }
        let mut out: Vec<WatchEvent> = Vec::new();
        let n = entries.len();
        let mut i: usize = 0;
        while i < n
            invariant
                n == entries@.len(),
                i <= n,
                out@ == mapped(entries@.take(i as int)),
            decreases n - i,
        {
            proof {
                assert(entries@.take(i as int + 1).drop_last() =~= entries@.take(i as int));
                assert(entries@.take(i as int + 1).last() == entries@[i as int]);
            }
            let (p, k) = (entries[i].0.clone(), entries[i].1);
            match map_event(k, p) {
                Some(e) => {
                    out.push(e);
                },
                None => {},
            }
            i = i + 1;
        }
        proof { assert(entries@.take(n as int) =~= entries@); }
        out
    }
}

/// `m` with each of `paths` mapped to `kind`.
pub open spec fn insert_all(m: Map<Seq<char>, EventKind>, paths: Seq<String>, kind: EventKind)
    -> Map<Seq<char>, EventKind>
    decreases paths.len(),
{
    if paths.len() == 0 {
        m
    } else {
        insert_all(m, paths.drop_last(), kind).insert(paths.last()@, kind)
    }
}

proof fn lemma_buffer_domain(entries: Seq<(String, EventKind)>)
    ensures
        forall|k: Seq<char>| #[trigger] buffer_map(entries).dom().contains(k)
            <==> exists|i: int| 0 <= i < entries.len() && entries[i].0@ == k,
        buffer_map(entries).dom().finite(),
    decreases entries.len(),
{
    if entries.len() > 0 {
        lemma_buffer_domain(entries.drop_last());
        assert forall|k: Seq<char>| #[trigger] buffer_map(entries).dom().contains(k)
            <==> exists|i: int| 0 <= i < entries.len() && entries[i].0@ == k by {
            if buffer_map(entries).dom().contains(k) && k != entries.last().0@ {
                let i = choose|i: int| 0 <= i < entries.drop_last().len() && entries.drop_last()[i].0@ == k;
                assert(entries[i].0@ == k);
            }
            if exists|i: int| 0 <= i < entries.len() && entries[i].0@ == k {
                let i = choose|i: int| 0 <= i < entries.len() && entries[i].0@ == k;
                if i < entries.len() - 1 {
                    assert(entries.drop_last()[i].0@ == k);
                }
            }
        }
    }
}

proof fn lemma_buffer_lookup(entries: Seq<(String, EventKind)>, i: int)
    requires
        keys_unique(entries),
        0 <= i < entries.len(),
    ensures
        buffer_map(entries).dom().contains(entries[i].0@),
        buffer_map(entries)[entries[i].0@] == entries[i].1,
    decreases entries.len(),
{
    if i < entries.len() - 1 {
        let t = entries.drop_last();
        assert(keys_unique(t));
        assert(t[i] == entries[i]);
        lemma_buffer_lookup(t, i);
        assert(entries[i].0@ != entries.last().0@);
    }
}

proof fn lemma_buffer_len(entries: Seq<(String, EventKind)>)
    requires
        keys_unique(entries),
    ensures
        buffer_map(entries).len() == entries.len(),
    decreases entries.len(),
{
    if entries.len() > 0 {
        let t = entries.drop_last();
        assert(keys_unique(t));
        lemma_buffer_len(t);
        lemma_buffer_domain(t);
        assert(!buffer_map(t).dom().contains(entries.last().0@)) by {
            if buffer_map(t).dom().contains(entries.last().0@) {
                let i = choose|i: int| 0 <= i < t.len() && t[i].0@ == entries.last().0@;
                assert(entries[i].0@ == entries[entries.len() - 1].0@);
            }
        }
    }
}

proof fn lemma_buffer_set(entries: Seq<(String, EventKind)>, i: int, e: (String, EventKind))
    requires
        keys_unique(entries),
        0 <= i < entries.len(),
        entries[i].0@ == e.0@,
    ensures
        keys_unique(entries.update(i, e)),
        buffer_map(entries.update(i, e)) == buffer_map(entries).insert(e.0@, e.1),
    decreases entries.len(),
{
    let u = entries.update(i, e);
    assert forall|a: int, b: int| 0 <= a < b < u.len() implies u[a].0@ != u[b].0@ by {
        assert(u[a].0@ == entries[a].0@ && u[b].0@ == entries[b].0@);
    }
    let t = entries.drop_last();
    if i == entries.len() - 1 {
        assert(u.drop_last() =~= t);
        lemma_buffer_domain(t);
        assert(buffer_map(u) =~= buffer_map(entries).insert(e.0@, e.1));
    } else {
        assert(keys_unique(t));
        lemma_buffer_set(t, i, e);
        assert(u.drop_last() =~= t.update(i, e));
        assert(u.last() == entries.last());
        assert(entries.last().0@ != e.0@);
        assert(buffer_map(u) =~= buffer_map(entries).insert(e.0@, e.1));
    }
}

/// What to do about a session directory before watching it.
#[derive(Debug, PartialEq, Eq)]
pub enum DirectoryWait {
    /// It exists: report it created and start watching.
    Ready,
    /// Watch its parent for its creation.
    WatchParent(String),
}

/// Whether a directory event announces the creation of `session_dir`.
pub open spec fn announces_spec(kind: EventKind, paths: Seq<String>, session_dir: Seq<char>) -> bool {
    kind is Create && exists|i: int| 0 <= i < paths.len() && #[trigger] paths[i]@ == session_dir
}

/// Decides how to wait for the session directory: an error when it has no
/// parent to watch, ready when it exists, else watch the parent.
pub fn directory_wait(session_dir: &str, exists: bool) -> (r: Result<DirectoryWait, WatcherError>)
    ensures
        match std_path_parent(session_dir@) {
            None => r matches Err(WatcherError::DirectoryNotFound { path }) && path@ == session_dir@,
            Some(p) => if exists {
                r == Ok::<DirectoryWait, WatcherError>(DirectoryWait::Ready)
            } else {
                r matches Ok(DirectoryWait::WatchParent(q)) && q@ == p
            },
        },
{
    match path_parent(session_dir) {
        None => Err(WatcherError::DirectoryNotFound { path: session_dir.to_string() }),
        Some(p) => {
            if exists {
                Ok(DirectoryWait::Ready)
            } else {
                Ok(DirectoryWait::WatchParent(p))
            }
        },
    }
}

/// Whether an event seen on the parent announces that the session directory
/// was created.
pub fn announces_directory(kind: EventKind, paths: &Vec<String>, session_dir: &str) -> (r: bool)
    ensures
        r == announces_spec(kind, paths@, session_dir@),
{
    if !is_core_event(kind) {
        return false;
    }
    let is_create = match kind {
        EventKind::Create(_) => true,
        _ => false,
    };
    let d = chars_of(session_dir);
    let n = paths.len();
    let mut i: usize = 0;
    let mut found = false;
    while i < n && !found
        invariant
            n == paths@.len(),
            i <= n,
            d@ == session_dir@,
            found ==> exists|k: int| 0 <= k < n && #[trigger] paths@[k]@ == session_dir@,
            !found ==> forall|k: int| 0 <= k < i ==> #[trigger] paths@[k]@ != session_dir@,
        decreases n - i,
    {
        let c = chars_of(paths[i].as_str());
        if chars_eq(c.as_slice(), d.as_slice()) {
            found = true;
        }
        i = i + 1;
    }
    found && is_create
}

} // verus!
