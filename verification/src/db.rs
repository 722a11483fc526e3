//! The event store: processes, windows, keystroke batches and click
//! events, with the aggregation query over them.
//!
//! The store models the four tables of the persisted schema as
//! in-memory rows with the same invariants the schema enforces:
//! process names are unique, every row id is its one-based position in
//! its table, and every foreign key points to an existing row.  A thin
//! persistence shell may mirror each accepted write to an embedded
//! database file; the decisions (idempotency, foreign-key checks,
//! aggregation) all live here.

use vstd::prelude::*;

use crate::errors::StorageError;

verus! {

/// An observed application: identity is the name, which is unique.
#[derive(Debug, Clone)]
pub struct Process {
    pub id: i64,
    pub name: String,
    pub bundle_id: Option<String>,
    pub created_at: i64,
}

/// A window observation, owned by exactly one process.
#[derive(Debug, Clone)]
pub struct Window {
    pub id: i64,
    pub process_id: i64,
    pub title: String,
    pub x: Option<i32>,
    pub y: Option<i32>,
    pub width: Option<i32>,
    pub height: Option<i32>,
    pub created_at: i64,
}

/// One flushed batch of keystroke text, owned by exactly one window.
/// The payload is authenticated-encrypted unless encryption is
/// disabled, in which case it holds the plaintext bytes.
#[derive(Debug, Clone)]
pub struct Keys {
    pub id: i64,
    pub window_id: i64,
    pub encrypted_keys: Vec<u8>,
    pub key_count: i32,
    pub created_at: i64,
}

/// One pointer click, owned by exactly one window.
#[derive(Debug, Clone)]
pub struct Click {
    pub id: i64,
    pub window_id: i64,
    pub x: i32,
    pub y: i32,
    pub button: String,
    pub double_click: bool,
    pub created_at: i64,
}

/// The aggregate computed on demand from the four tables; it is never
/// persisted.
#[derive(Debug, Clone)]
pub struct ActivityStats {
    pub total_keystrokes: i64,
    pub total_clicks: i64,
    pub total_windows: i64,
    pub total_processes: i64,
    pub session_duration: i64,
    pub most_active_process: Option<String>,
    pub most_active_window: Option<String>,
}

/// Mathematical image of a process row.
#[verifier::ext_equal]
pub struct ProcessModel {
    pub id: int,
    pub name: Seq<char>,
    pub bundle_id: Option<Seq<char>>,
    pub created_at: int,
}

/// Mathematical image of a window row.
#[verifier::ext_equal]
pub struct WindowModel {
    pub id: int,
    pub process_id: int,
    pub title: Seq<char>,
    pub x: Option<int>,
    pub y: Option<int>,
    pub width: Option<int>,
    pub height: Option<int>,
    pub created_at: int,
}

/// Mathematical image of a keystroke-batch row.
#[verifier::ext_equal]
pub struct KeysModel {
    pub id: int,
    pub window_id: int,
    pub encrypted_keys: Seq<u8>,
    pub key_count: int,
    pub created_at: int,
}

/// Mathematical image of a click row.
#[verifier::ext_equal]
pub struct ClickModel {
    pub id: int,
    pub window_id: int,
    pub x: int,
    pub y: int,
    pub button: Seq<char>,
    pub double_click: bool,
    pub created_at: int,
}

/// Mathematical image of the whole store: the four tables in insertion
/// order, plus the timestamp that new rows are stamped with.
#[verifier::ext_equal]
pub struct StoreModel {
    pub processes: Seq<ProcessModel>,
    pub windows: Seq<WindowModel>,
    pub keys: Seq<KeysModel>,
    pub clicks: Seq<ClickModel>,
    pub clock: int,
}

pub open spec fn spec_opt_str(o: Option<String>) -> Option<Seq<char>> {
    match o {
        Some(s) => Some(s@),
        None => None,
    }
}

pub open spec fn spec_opt_i32(o: Option<i32>) -> Option<int> {
    match o {
        Some(v) => Some(v as int),
        None => None,
    }
}

impl View for Process {
    type V = ProcessModel;

    open spec fn view(&self) -> ProcessModel {
        ProcessModel {
            id: self.id as int,
            name: self.name@,
            bundle_id: spec_opt_str(self.bundle_id),
            created_at: self.created_at as int,
        }
    }
}

impl View for Window {
    type V = WindowModel;

    open spec fn view(&self) -> WindowModel {
        WindowModel {
            id: self.id as int,
            process_id: self.process_id as int,
            title: self.title@,
            x: spec_opt_i32(self.x),
            y: spec_opt_i32(self.y),
            width: spec_opt_i32(self.width),
            height: spec_opt_i32(self.height),
            created_at: self.created_at as int,
        }
    }
}

impl View for Keys {
    type V = KeysModel;

    open spec fn view(&self) -> KeysModel {
        KeysModel {
            id: self.id as int,
            window_id: self.window_id as int,
            encrypted_keys: self.encrypted_keys@,
            key_count: self.key_count as int,
            created_at: self.created_at as int,
        }
    }
}

impl View for Click {
    type V = ClickModel;

    open spec fn view(&self) -> ClickModel {
        ClickModel {
            id: self.id as int,
            window_id: self.window_id as int,
            x: self.x as int,
            y: self.y as int,
            button: self.button@,
            double_click: self.double_click,
            created_at: self.created_at as int,
        }
    }
}

/// Whether some process row carries this name.
pub open spec fn has_process(s: StoreModel, name: Seq<char>) -> bool {
    exists|j: int| 0 <= j < s.processes.len() && s.processes[j].name == name
}

/// Index of the first process row carrying this name, if any; under
/// the store invariants the name is unique, so it is the only one.
pub open spec fn find_process(ps: Seq<ProcessModel>, name: Seq<char>) -> Option<int>
    decreases ps.len(),
{
    if ps.len() == 0 {
        None
    } else if ps[0].name == name {
        Some(0)
    } else {
        match find_process(ps.drop_first(), name) {
            Some(j) => Some(j + 1),
            None => None,
        }
    }
}

/// What `find_process` finds is a row with the name sought, and where
/// it finds nothing no row carries the name.
pub proof fn lemma_find_process(ps: Seq<ProcessModel>, name: Seq<char>)
    ensures
        (match find_process(ps, name) {
            Some(j) => 0 <= j < ps.len() && ps[j].name == name,
            None => forall|i: int| 0 <= i < ps.len() ==> (#[trigger] ps[i]).name != name,
        }),
    decreases ps.len(),
{
    if ps.len() > 0 && ps[0].name != name {
        lemma_find_process(ps.drop_first(), name);
        if find_process(ps.drop_first(), name) is None {
            assert forall|i: int| 0 <= i < ps.len() implies (#[trigger] ps[i]).name != name by {
                if i > 0 {
                    assert(ps.drop_first()[i - 1] == ps[i]);
                }
            }
        }
    }
}

/// A row pushed under an absent name is what a later search finds.
proof fn lemma_find_process_push(ps: Seq<ProcessModel>, row: ProcessModel)
    requires
        find_process(ps, row.name) is None,
    ensures
        find_process(ps.push(row), row.name) == Some(ps.len() as int),
    decreases ps.len(),
{
    if ps.len() == 0 {
        assert(ps.push(row)[0] == row);
    } else {
        lemma_find_process_push(ps.drop_first(), row);
        assert(ps.push(row).drop_first() =~= ps.drop_first().push(row));
    }
}

/// Upserting the same process name twice yields the same id both times
/// and leaves the store as the first upsert left it: the upsert is
/// idempotent by name.
pub proof fn lemma_upsert_process_idempotent(
    s: StoreModel,
    name: Seq<char>,
    b1: Option<Seq<char>>,
    b2: Option<Seq<char>>,
)
    ensures
        ({
            let (s1, id1) = spec_upsert_process(s, name, b1);
            let (s2, id2) = spec_upsert_process(s1, name, b2);
            &&& s2 == s1
            &&& id2 == id1
        }),
{
    if find_process(s.processes, name) is None {
        let row = ProcessModel {
            id: s.processes.len() as int + 1,
            name,
            bundle_id: b1,
            created_at: s.clock,
        };
        lemma_find_process_push(s.processes, row);
    }
}

/// The store after an idempotent process upsert, and the id it yields:
/// the existing row's id where the name is present, a fresh row and id
/// otherwise.
pub open spec fn spec_upsert_process(
    s: StoreModel,
    name: Seq<char>,
    bundle_id: Option<Seq<char>>,
) -> (StoreModel, int) {
    match find_process(s.processes, name) {
        Some(j) => (s, s.processes[j].id),
        None => (
            StoreModel {
                processes: s.processes.push(
                    ProcessModel {
                        id: s.processes.len() as int + 1,
                        name,
                        bundle_id,
                        created_at: s.clock,
                    },
                ),
                ..s
            },
            s.processes.len() as int + 1,
        ),
    }
}

/// The store after a window insert under this process id, and the
/// fresh window id.
pub open spec fn spec_add_window(
    s: StoreModel,
    process_id: int,
    title: Seq<char>,
    x: Option<int>,
    y: Option<int>,
    width: Option<int>,
    height: Option<int>,
) -> (StoreModel, int) {
    (
        StoreModel {
            windows: s.windows.push(
                WindowModel {
                    id: s.windows.len() as int + 1,
                    process_id,
                    title,
                    x,
                    y,
                    width,
                    height,
                    created_at: s.clock,
                },
            ),
            ..s
        },
        s.windows.len() as int + 1,
    )
}

/// The store after a click insert under this window id.
pub open spec fn spec_add_click(
    s: StoreModel,
    window_id: int,
    x: int,
    y: int,
    button: Seq<char>,
    double_click: bool,
) -> StoreModel {
    StoreModel {
        clicks: s.clicks.push(
            ClickModel {
                id: s.clicks.len() as int + 1,
                window_id,
                x,
                y,
                button,
                double_click,
                created_at: s.clock,
            },
        ),
        ..s
    }
}

/// Sum of the character counts over all keystroke batches.
pub open spec fn sum_key_counts(keys: Seq<KeysModel>) -> int
    decreases keys.len(),
{
    if keys.len() == 0 {
        0
    } else {
        sum_key_counts(keys.drop_last()) + keys.last().key_count
    }
}

/// How many window rows belong to the process with this id.
pub open spec fn count_windows(ws: Seq<WindowModel>, pid: int) -> int
    decreases ws.len(),
{
    if ws.len() == 0 {
        0
    } else {
        count_windows(ws.drop_last(), pid) + if ws.last().process_id == pid {
            1int
        } else {
            0int
        }
    }
}

/// Index of the most active process among the first `n` process rows:
/// the one owning the most windows, and of several equally active ones
/// the earliest inserted (the one with the smallest id).
pub open spec fn best_index(ps: Seq<ProcessModel>, ws: Seq<WindowModel>, n: int) -> int
    decreases n,
{
    if n <= 1 {
        0
    } else {
        let b = best_index(ps, ws, n - 1);
        if count_windows(ws, ps[n - 1].id) > count_windows(ws, ps[b].id) {
            n - 1
        } else {
            b
        }
    }
}

/// The name of the most active process, or `None` when no window has
/// been recorded yet.
pub open spec fn most_active_process(s: StoreModel) -> Option<Seq<char>> {
    if s.windows.len() == 0 {
        None
    } else {
        Some(s.processes[best_index(s.processes, s.windows, s.processes.len() as int)].name)
    }
}

/// The row limit of each table: ids are `i64` and one-based.
pub open spec fn max_rows() -> int {
    0x7fff_ffff_ffff_ffff
}

/// Whether a window row for this process can be accepted: the foreign
/// key must point to an existing process and the table must not be
/// full.
pub open spec fn can_insert_window(s: StoreModel, process_id: int) -> bool {
    &&& 1 <= process_id <= s.processes.len()
    &&& s.windows.len() < max_rows()
}

/// Whether a keystroke batch for this window can be accepted: the
/// foreign key must point to an existing window, the table must not be
/// full, and the running keystroke total must stay within `i64`.
pub open spec fn can_insert_keys(s: StoreModel, window_id: int, key_count: int) -> bool {
    &&& 1 <= window_id <= s.windows.len()
    &&& s.keys.len() < max_rows()
    &&& -0x7fff_ffff_ffff_ffff - 1 <= sum_key_counts(s.keys) + key_count
        <= 0x7fff_ffff_ffff_ffff
}

/// Whether a click row for this window can be accepted.
pub open spec fn can_insert_click(s: StoreModel, window_id: int) -> bool {
    &&& 1 <= window_id <= s.windows.len()
    &&& s.clicks.len() < max_rows()
}

/// The schema invariants: ids are the one-based insertion positions,
/// process names are unique, and every foreign key points to an
/// existing row.
pub open spec fn store_wf(s: StoreModel) -> bool {
    &&& forall|i: int| 0 <= i < s.processes.len() ==> (#[trigger] s.processes[i]).id == i + 1
    &&& forall|i: int, j: int|
        0 <= i < j < s.processes.len() ==> (#[trigger] s.processes[i]).name != (
        #[trigger] s.processes[j]).name
    &&& forall|i: int| 0 <= i < s.windows.len() ==> (#[trigger] s.windows[i]).id == i + 1
    &&& forall|i: int|
        0 <= i < s.windows.len() ==> 1 <= (#[trigger] s.windows[i]).process_id
            <= s.processes.len()
    &&& forall|i: int| 0 <= i < s.keys.len() ==> (#[trigger] s.keys[i]).id == i + 1
    &&& forall|i: int|
        0 <= i < s.keys.len() ==> 1 <= (#[trigger] s.keys[i]).window_id <= s.windows.len()
    &&& forall|i: int| 0 <= i < s.clicks.len() ==> (#[trigger] s.clicks[i]).id == i + 1
    &&& forall|i: int|
        0 <= i < s.clicks.len() ==> 1 <= (#[trigger] s.clicks[i]).window_id <= s.windows.len()
    &&& s.processes.len() <= max_rows()
    &&& s.windows.len() <= max_rows()
    &&& s.keys.len() <= max_rows()
    &&& s.clicks.len() <= max_rows()
    &&& -0x7fff_ffff_ffff_ffff - 1 <= sum_key_counts(s.keys) <= 0x7fff_ffff_ffff_ffff
}

/// The embedded event store.
pub struct Database {
    processes: Vec<Process>,
    windows: Vec<Window>,
    keys: Vec<Keys>,
    clicks: Vec<Click>,
    clock: i64,
    total_key_count: i64,
}

impl View for Database {
    type V = StoreModel;

    closed spec fn view(&self) -> StoreModel {
        StoreModel {
            processes: Seq::new(self.processes@.len(), |i: int| self.processes@[i]@),
            windows: Seq::new(self.windows@.len(), |i: int| self.windows@[i]@),
            keys: Seq::new(self.keys@.len(), |i: int| self.keys@[i]@),
            clicks: Seq::new(self.clicks@.len(), |i: int| self.clicks@[i]@),
            clock: self.clock as int,
        }
    }
}

impl Database {
    /// The store's internal invariant: the schema invariants hold and
    /// the cached keystroke total agrees with the rows.
    pub closed spec fn wf(self) -> bool {
        &&& store_wf(self@)
        &&& self.total_key_count == sum_key_counts(self@.keys)
    }

    /// Open a fresh store: all four tables empty, as a newly migrated
    /// database file is.
    pub fn new() -> (r: Database)
        ensures
            r.wf(),
            store_wf(r@),
            r@.processes.len() == 0,
            r@.windows.len() == 0,
            r@.keys.len() == 0,
            r@.clicks.len() == 0,
            r@.clock == 0,
    {
        let db = Database {
            processes: Vec::new(),
            windows: Vec::new(),
            keys: Vec::new(),
            clicks: Vec::new(),
            clock: 0,
            total_key_count: 0,
        };
        proof {
            assert(db@.keys =~= Seq::<KeysModel>::empty());
        }
        db
    }

    /// Set the timestamp that rows inserted from now on are stamped
    /// with.
    pub fn set_clock(&mut self, now: i64)
        requires
            old(self).wf(),
        ensures
            final(self).wf(),
            store_wf(final(self)@),
            final(self)@ == (StoreModel { clock: now as int, ..old(self)@ }),
    {
        self.clock = now;
        proof {
            assert(self@ =~= (StoreModel { clock: now as int, ..old(self)@ }));
        }
    }

    /// Record a process observation, idempotently: if a row with this
    /// name exists its id is returned and nothing changes; otherwise a
    /// new row is appended and its fresh id returned.  The write is
    /// refused only when the table is full.
    pub fn insert_process(&mut self, name: &str, bundle_id: Option<&str>) -> (r: Result<
        i64,
        StorageError,
    >)
        requires
            old(self).wf(),
        ensures
            final(self).wf(),
            store_wf(final(self)@),
            ({
                let s = old(self)@;
                let t = final(self)@;
                match r {
                    Ok(id) => {
                        &&& if has_process(s, name@) {
                            &&& t == s
                            &&& forall|j: int|
                                0 <= j < s.processes.len() && (#[trigger] s.processes[j]).name
                                    == name@ ==> id == s.processes[j].id
                        } else {
                            &&& id == s.processes.len() + 1
                            &&& t.processes == s.processes.push(
                                ProcessModel {
                                    id: id as int,
                                    name: name@,
                                    bundle_id: match bundle_id {
                                        Some(b) => Some(b@),
                                        None => None,
                                    },
                                    created_at: s.clock,
                                },
                            )
                            &&& t.windows == s.windows
                            &&& t.keys == s.keys
                            &&& t.clicks == s.clicks
                            &&& t.clock == s.clock
                        }
                    },
                    Err(e) => {
                        &&& t == s
                        &&& e == StorageError::WriteFailed
                        &&& !has_process(s, name@)
                        &&& s.processes.len() == max_rows()
                    },
                }
            }),
    {
        let name_owned: String = name.to_owned();
        let n = self.processes.len();
        let mut i: usize = 0;
        while i < n
            invariant
                old(self).wf(),
                n == self.processes.len(),
                forall|j: int| 0 <= j < i ==> (#[trigger] self@.processes[j]).name != name@,
                i <= n,
                name_owned@ == name@,
                old(self) == self,
            decreases n - i,
        {
            if self.processes[i].name == name_owned {
                let id = self.processes[i].id;
                proof {
                    assert(self@.processes[i as int].name == name@);
                    assert(has_process(self@, name@));
                }
                return Ok(id);
            }
            i += 1;
        }
        proof {
            assert(!has_process(self@, name@));
        }
        if self.processes.len() as u64 >= 0x7fff_ffff_ffff_ffffu64 {
            return Err(StorageError::WriteFailed);
        }
        let id: i64 = (self.processes.len() as i64) + 1;
        let row = Process {
            id,
            name: name_owned,
            bundle_id: match bundle_id {
                Some(b) => Some(b.to_owned()),
                None => None,
            },
            created_at: self.clock,
        };
        self.processes.push(row);
        proof {
            let s = old(self)@;
            let t = self@;
            assert(t.processes =~= s.processes.push(
                ProcessModel {
                    id: id as int,
                    name: name@,
                    bundle_id: match bundle_id {
                        Some(b) => Some(b@),
                        None => None,
                    },
                    created_at: s.clock,
                },
            ));
            assert(t.windows =~= s.windows);
            assert(t.keys =~= s.keys);
            assert(t.clicks =~= s.clicks);
        }
        Ok(id)
    }

    /// Record a window observation under an existing process.  The
    /// write is refused when the process id is unknown or the table is
    /// full.
    pub fn insert_window(
        &mut self,
        process_id: i64,
        title: &str,
        x: Option<i32>,
        y: Option<i32>,
        width: Option<i32>,
        height: Option<i32>,
    ) -> (r: Result<i64, StorageError>)
        requires
            old(self).wf(),
        ensures
            final(self).wf(),
            store_wf(final(self)@),
            ({
                let s = old(self)@;
                let t = final(self)@;
                match r {
                    Ok(id) => {
                        &&& can_insert_window(s, process_id as int)
                        &&& id == s.windows.len() + 1
                        &&& t.windows == s.windows.push(
                            WindowModel {
                                id: id as int,
                                process_id: process_id as int,
                                title: title@,
                                x: spec_opt_i32(x),
                                y: spec_opt_i32(y),
                                width: spec_opt_i32(width),
                                height: spec_opt_i32(height),
                                created_at: s.clock,
                            },
                        )
                        &&& t.processes == s.processes
                        &&& t.keys == s.keys
                        &&& t.clicks == s.clicks
                        &&& t.clock == s.clock
                    },
                    Err(e) => {
                        &&& t == s
                        &&& e == StorageError::WriteFailed
                        &&& !can_insert_window(s, process_id as int)
                    },
                }
            }),
    {
        if process_id < 1 || process_id as u64 > self.processes.len() as u64 {
            return Err(StorageError::WriteFailed);
        }
        if self.windows.len() as u64 >= 0x7fff_ffff_ffff_ffffu64 {
            return Err(StorageError::WriteFailed);
        }
        let id: i64 = (self.windows.len() as i64) + 1;
        let row = Window {
            id,
            process_id,
            title: title.to_owned(),
            x,
            y,
            width,
            height,
            created_at: self.clock,
        };
        self.windows.push(row);
        proof {
            let s = old(self)@;
            let t = self@;
            assert(t.windows =~= s.windows.push(
                WindowModel {
                    id: id as int,
                    process_id: process_id as int,
                    title: title@,
                    x: spec_opt_i32(x),
                    y: spec_opt_i32(y),
                    width: spec_opt_i32(width),
                    height: spec_opt_i32(height),
                    created_at: s.clock,
                },
            ));
            assert(t.processes =~= s.processes);
            assert(t.keys =~= s.keys);
            assert(t.clicks =~= s.clicks);
        }
        Ok(id)
    }

    /// Record one flushed keystroke batch under an existing window.
    /// The write is refused when the window id is unknown, the table is
    /// full, or the running keystroke total would leave `i64`.
    pub fn insert_keys(&mut self, window_id: i64, encrypted_keys: Vec<u8>, key_count: i32) -> (r:
        Result<i64, StorageError>)
        requires
            old(self).wf(),
        ensures
            final(self).wf(),
            store_wf(final(self)@),
            ({
                let s = old(self)@;
                let t = final(self)@;
                match r {
                    Ok(id) => {
                        &&& can_insert_keys(s, window_id as int, key_count as int)
                        &&& id == s.keys.len() + 1
                        &&& t.keys == s.keys.push(
                            KeysModel {
                                id: id as int,
                                window_id: window_id as int,
                                encrypted_keys: encrypted_keys@,
                                key_count: key_count as int,
                                created_at: s.clock,
                            },
                        )
                        &&& t.processes == s.processes
                        &&& t.windows == s.windows
                        &&& t.clicks == s.clicks
                        &&& t.clock == s.clock
                    },
                    Err(e) => {
                        &&& t == s
                        &&& e == StorageError::WriteFailed
                        &&& !can_insert_keys(s, window_id as int, key_count as int)
                    },
                }
            }),
    {
        if window_id < 1 || window_id as u64 > self.windows.len() as u64 {
            return Err(StorageError::WriteFailed);
        }
        if self.keys.len() as u64 >= 0x7fff_ffff_ffff_ffffu64 {
            return Err(StorageError::WriteFailed);
        }
        let new_total = match self.total_key_count.checked_add(key_count as i64) {
            Some(t) => t,
            None => {
                return Err(StorageError::WriteFailed);
            },
        };
        let id: i64 = (self.keys.len() as i64) + 1;
        let row = Keys { id, window_id, encrypted_keys, key_count, created_at: self.clock };
        self.keys.push(row);
        self.total_key_count = new_total;
        proof {
            let s = old(self)@;
            let t = self@;
            assert(t.keys =~= s.keys.push(
                KeysModel {
                    id: id as int,
                    window_id: window_id as int,
                    encrypted_keys: encrypted_keys@,
                    key_count: key_count as int,
                    created_at: s.clock,
                },
            ));
            assert(t.keys.drop_last() =~= s.keys);
            assert(t.processes =~= s.processes);
            assert(t.windows =~= s.windows);
            assert(t.clicks =~= s.clicks);
        }
        Ok(id)
    }

    /// Record one pointer click under an existing window.  The write is
    /// refused when the window id is unknown or the table is full.
    pub fn insert_click(
        &mut self,
        window_id: i64,
        x: i32,
        y: i32,
        button: &str,
        double_click: bool,
    ) -> (r: Result<i64, StorageError>)
        requires
            old(self).wf(),
        ensures
            final(self).wf(),
            store_wf(final(self)@),
            ({
                let s = old(self)@;
                let t = final(self)@;
                match r {
                    Ok(id) => {
                        &&& can_insert_click(s, window_id as int)
                        &&& id == s.clicks.len() + 1
                        &&& t.clicks == s.clicks.push(
                            ClickModel {
                                id: id as int,
                                window_id: window_id as int,
                                x: x as int,
                                y: y as int,
                                button: button@,
                                double_click,
                                created_at: s.clock,
                            },
                        )
                        &&& t.processes == s.processes
                        &&& t.windows == s.windows
                        &&& t.keys == s.keys
                        &&& t.clock == s.clock
                    },
                    Err(e) => {
                        &&& t == s
                        &&& e == StorageError::WriteFailed
                        &&& !can_insert_click(s, window_id as int)
                    },
                }
            }),
    {
        if window_id < 1 || window_id as u64 > self.windows.len() as u64 {
            return Err(StorageError::WriteFailed);
        }
        if self.clicks.len() as u64 >= 0x7fff_ffff_ffff_ffffu64 {
            return Err(StorageError::WriteFailed);
        }
        let id: i64 = (self.clicks.len() as i64) + 1;
        let row = Click {
            id,
            window_id,
            x,
            y,
            button: button.to_owned(),
            double_click,
            created_at: self.clock,
        };
        self.clicks.push(row);
        proof {
            let s = old(self)@;
            let t = self@;
            assert(t.clicks =~= s.clicks.push(
                ClickModel {
                    id: id as int,
                    window_id: window_id as int,
                    x: x as int,
                    y: y as int,
                    button: button@,
                    double_click,
                    created_at: s.clock,
                },
            ));
            assert(t.processes =~= s.processes);
            assert(t.windows =~= s.windows);
            assert(t.keys =~= s.keys);
        }
        Ok(id)
    }

    /// The process rows, in insertion order.
    pub fn processes(&self) -> (r: &Vec<Process>)
        ensures
            r@.len() == self@.processes.len(),
            forall|i: int| 0 <= i < r@.len() ==> (#[trigger] r@[i])@ == self@.processes[i],
    {
        &self.processes
    }

    /// The window rows, in insertion order.
    pub fn windows(&self) -> (r: &Vec<Window>)
        ensures
            r@.len() == self@.windows.len(),
            forall|i: int| 0 <= i < r@.len() ==> (#[trigger] r@[i])@ == self@.windows[i],
    {
        &self.windows
    }

    /// The keystroke-batch rows, in insertion order.
    pub fn keys(&self) -> (r: &Vec<Keys>)
        ensures
            r@.len() == self@.keys.len(),
            forall|i: int| 0 <= i < r@.len() ==> (#[trigger] r@[i])@ == self@.keys[i],
    {
        &self.keys
    }

    /// The click rows, in insertion order.
    pub fn clicks(&self) -> (r: &Vec<Click>)
        ensures
            r@.len() == self@.clicks.len(),
            forall|i: int| 0 <= i < r@.len() ==> (#[trigger] r@[i])@ == self@.clicks[i],
    {
        &self.clicks
    }

    /// How many window rows belong to the process with this id.
    fn count_windows_for(&self, pid: i64) -> (c: i64)
        requires
            self.wf(),
        ensures
            c == count_windows(self@.windows, pid as int),
            0 <= c <= self@.windows.len(),
    {
        let n = self.windows.len();
        let mut c: i64 = 0;
        let mut i: usize = 0;
        while i < n
            invariant
                self.wf(),
                n == self.windows.len(),
                i <= n,
                0 <= c <= i,
                c == count_windows(self@.windows.take(i as int), pid as int),
            decreases n - i,
        {
            proof {
                assert(self@.windows.take(i + 1).drop_last() =~= self@.windows.take(i as int));
                assert(self@.windows.take(i + 1).last() == self@.windows[i as int]);
            }
            if self.windows[i].process_id == pid {
                c += 1;
            }
            i += 1;
        }
        proof {
            assert(self@.windows.take(n as int) =~= self@.windows);
        }
        c
    }

    /// Compute the on-demand aggregate: the keystroke, click, window
    /// and process totals, and the most active process (the process
    /// owning the most window rows, ties resolved in favour of the
    /// earliest inserted).  A freshly opened store reports all counts
    /// zero and no most active process.
    pub fn get_stats(&self) -> (r: ActivityStats)
        requires
            self.wf(),
        ensures
            r.total_keystrokes == sum_key_counts(self@.keys),
            r.total_clicks == self@.clicks.len(),
            r.total_windows == self@.windows.len(),
            r.total_processes == self@.processes.len(),
            r.session_duration == 0,
            (match r.most_active_process {
                Some(name) => most_active_process(self@) == Some(name@),
                None => most_active_process(self@) is None,
            }),
            r.most_active_window is None,
    {
        let total_keystrokes = self.total_key_count;
        let total_clicks = self.clicks.len() as i64;
        let total_windows = self.windows.len() as i64;
        let total_processes = self.processes.len() as i64;
        let most_active_process = if self.windows.len() == 0 {
            None
        } else {
            proof {
                assert(1 <= self@.windows[0].process_id <= self@.processes.len());
            }
            let n = self.processes.len();
            let mut bi: usize = 0;
            let mut bc: i64 = self.count_windows_for(self.processes[0].id);
            let mut i: usize = 1;
            while i < n
                invariant
                    self.wf(),
                    n == self.processes.len(),
                    1 <= i <= n,
                    bi < i,
                    bi == best_index(self@.processes, self@.windows, i as int),
                    bc == count_windows(self@.windows, self@.processes[bi as int].id),
                decreases n - i,
            {
                let c = self.count_windows_for(self.processes[i].id);
                if c > bc {
                    bi = i;
                    bc = c;
                }
                i += 1;
            }
            Some(self.processes[bi].name.clone())
        };
        ActivityStats {
            total_keystrokes,
            total_clicks,
            total_windows,
            total_processes,
            session_duration: 0,
            most_active_process,
            most_active_window: None,
        }
    }
}

} // verus!
