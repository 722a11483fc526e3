//! The monitor: the orchestrating state machine of the pipeline.  On
//! each tick it reconciles the active window against the current
//! pointer, drains captured input into the pending text buffer and the
//! click table, and flushes the buffer through the encryptor into one
//! keystroke batch.
//!
//! The surrounding application drives the loop: it reads the clock and
//! the capture backend on a fixed cadence and hands each tick's
//! observations to [`ActivityMonitor::tick`].  Every decision the tick
//! takes is specified by the `spec_reconcile` / `spec_drain` /
//! `spec_flush_rel` model below.

use vstd::prelude::*;
use vstd::string::StrSliceExecFns;
use vstd::string::StringSliceAdditionalSpecFns;
use vstd::utf8::encode_utf8;

use crate::config::Config;
use crate::config::spec_excludes;
use crate::config::spec_excludes_contain;
use crate::db::Database;
use crate::db::StoreModel;
use crate::db::max_rows;
use crate::db::spec_add_click;
use crate::db::spec_add_window;
use crate::db::spec_opt_i32;
use crate::db::spec_opt_str;
use crate::db::spec_upsert_process;
use crate::db::sum_key_counts;
use crate::db::lemma_find_process;
use crate::encryption::Encryptor;
use crate::encryption::opens_to;
use crate::errors::CryptoError;
use crate::platform::InputEvent;
use crate::platform::MouseButton;
use crate::platform::WindowInfo;

verus! {

/// Size cap of the pending text buffer, in bytes.  Key presses that
/// would grow the buffer beyond it are dropped: this bounds the memory
/// the buffer can take while no window is known, keeps each batch's
/// character count within `i32`, and keeps the plaintext within the
/// sealing bound.
pub const MAX_PENDING_BYTES: usize = 0x7fff_ffff;

/// The window the monitor currently attributes input to.
#[derive(Debug, Clone)]
pub struct CurrentWindow {
    pub window_id: i64,
    pub process_name: String,
    pub window_title: String,
}

/// Mathematical image of the current-window pointer.
#[verifier::ext_equal]
pub struct CurrentModel {
    pub window_id: int,
    pub process_name: Seq<char>,
    pub window_title: Seq<char>,
}

impl View for CurrentWindow {
    type V = CurrentModel;

    open spec fn view(&self) -> CurrentModel {
        CurrentModel {
            window_id: self.window_id as int,
            process_name: self.process_name@,
            window_title: self.window_title@,
        }
    }
}

/// Mathematical image of the monitor: the store, the exclusion set,
/// the derived key where encryption is on, the current-window pointer,
/// the pending text buffer (its UTF-8 bytes and its character count),
/// and the running flag.
#[verifier::ext_equal]
pub struct MonitorModel {
    pub store: StoreModel,
    pub excludes: Seq<Seq<char>>,
    pub key: Option<Seq<u8>>,
    pub current: Option<CurrentModel>,
    pub buffer: Seq<u8>,
    pub buffer_chars: int,
    pub running: bool,
}

/// The persisted name of a pointer button.
pub open spec fn spec_button_name(b: MouseButton) -> Seq<char> {
    match b {
        MouseButton::Left => "left"@,
        MouseButton::Right => "right"@,
        MouseButton::Middle => "middle"@,
    }
}

/// Every character encodes to at least one UTF-8 byte, so a buffer
/// holds at least as many bytes as characters.
proof fn lemma_encode_utf8_len_at_least(chars: Seq<char>)
    ensures
        encode_utf8(chars).len() >= chars.len(),
    decreases chars.len(),
{
    if chars.len() > 0 {
        assert(vstd::utf8::encode_scalar(chars[0] as u32).len() >= 1);
        lemma_encode_utf8_len_at_least(chars.drop_first());
    }
}

/// Whether the observed window differs from the current pointer in
/// process name or window title, under exact string equality.
pub open spec fn spec_identity_changed(cur: Option<CurrentModel>, w: WindowInfo) -> bool {
    match cur {
        Some(c) => c.process_name != w.process_name@ || c.window_title != w.window_title@,
        None => true,
    }
}

/// The first two steps of a tick.  No snapshot or an unchanged
/// identity leaves everything as it is; a changed identity of an
/// excluded process clears the pointer and writes nothing; a changed
/// identity of any other process upserts the process, inserts a fresh
/// window row, and points the monitor at it.
pub open spec fn spec_reconcile(m: MonitorModel, window: Option<WindowInfo>) -> MonitorModel {
    match window {
        None => m,
        Some(w) => {
            if !spec_identity_changed(m.current, w) {
                m
            } else if spec_excludes_contain(m.excludes, w.process_name@) {
                MonitorModel { current: None, ..m }
            } else {
                let (s1, pid) = spec_upsert_process(m.store, w.process_name@, spec_opt_str(w.bundle_id));
                let (s2, wid) = spec_add_window(
                    s1,
                    pid,
                    w.window_title@,
                    spec_opt_i32(w.x),
                    spec_opt_i32(w.y),
                    spec_opt_i32(w.width),
                    spec_opt_i32(w.height),
                );
                MonitorModel {
                    store: s2,
                    current: Some(
                        CurrentModel {
                            window_id: wid,
                            process_name: w.process_name@,
                            window_title: w.window_title@,
                        },
                    ),
                    ..m
                }
            }
        },
    }
}

/// The third step of a tick, one event: a key press appends its bytes
/// to the pending buffer unless the cap would be passed; a click is
/// written under the current window, or dropped when no window is
/// known; everything else is ignored.
pub open spec fn spec_apply_event(m: MonitorModel, e: InputEvent) -> MonitorModel {
    match e {
        InputEvent::KeyPress { key } => {
            if m.buffer.len() + encode_utf8(key@).len() <= MAX_PENDING_BYTES {
                MonitorModel {
                    buffer: m.buffer + encode_utf8(key@),
                    buffer_chars: m.buffer_chars + key@.len(),
                    ..m
                }
            } else {
                m
            }
        },
        InputEvent::MouseClick { x, y, button } => {
            match m.current {
                Some(c) => MonitorModel {
                    store: spec_add_click(
                        m.store,
                        c.window_id,
                        x as int,
                        y as int,
                        spec_button_name(button),
                        false,
                    ),
                    ..m
                },
                None => m,
            }
        },
        _ => m,
    }
}

/// The third step of a tick: the whole drained batch, in arrival
/// order.
pub open spec fn spec_drain(m: MonitorModel, events: Seq<InputEvent>) -> MonitorModel
    decreases events.len(),
{
    if events.len() == 0 {
        m
    } else {
        spec_apply_event(spec_drain(m, events.drop_last()), events.last())
    }
}

/// The fourth step of a tick, as a relation: an empty buffer or an
/// unknown window flushes nothing; otherwise exactly one keystroke
/// batch is appended under the current window, carrying the buffered
/// text's character count, and the buffer is cleared.  The payload
/// contains a fresh random nonce, so only what it opens to under the
/// derived key is determined: the buffered bytes, exactly.
pub open spec fn spec_flush_rel(pre: MonitorModel, post: MonitorModel) -> bool {
    if pre.buffer.len() == 0 || pre.current is None {
        post == pre
    } else {
        &&& post.store.keys.len() == pre.store.keys.len() + 1
        &&& post.store.keys.drop_last() == pre.store.keys
        &&& post.store.keys.last().id == pre.store.keys.len() + 1
        &&& post.store.keys.last().window_id == pre.current->0.window_id
        &&& post.store.keys.last().key_count == pre.buffer_chars
        &&& post.store.keys.last().created_at == pre.store.clock
        &&& (match pre.key {
            Some(k) => opens_to(k, post.store.keys.last().encrypted_keys) == Some(pre.buffer),
            None => post.store.keys.last().encrypted_keys == pre.buffer,
        })
        &&& post == (MonitorModel {
            store: (StoreModel { keys: post.store.keys, ..pre.store }),
            buffer: Seq::<u8>::empty(),
            buffer_chars: 0,
            ..pre
        })
    }
}

/// Room in the store for one tick to take its nominal path: one
/// process row, one window row, one keystroke batch, and one click per
/// drained event.  Absent this (astronomically remote) headroom a
/// write can be refused; the tick then skips that row and carries on.
pub open spec fn spec_room(m: MonitorModel, n_events: int) -> bool {
    &&& m.store.processes.len() < max_rows()
    &&& m.store.windows.len() < max_rows()
    &&& m.store.keys.len() < max_rows()
    &&& m.store.clicks.len() + n_events <= max_rows()
    &&& sum_key_counts(m.store.keys) + MAX_PENDING_BYTES <= 0x7fff_ffff_ffff_ffff
}

/// The orchestrator: owns the store, the optional encryptor, the
/// current-window pointer, the pending text buffer and the running
/// flag.
pub struct ActivityMonitor {
    config: Config,
    db: Database,
    encryptor: Option<Encryptor>,
    current_window: Option<CurrentWindow>,
    keystroke_buffer: Vec<u8>,
    keystroke_chars: usize,
    running: bool,
}

impl View for ActivityMonitor {
    type V = MonitorModel;

    closed spec fn view(&self) -> MonitorModel {
        MonitorModel {
            store: self.db@,
            excludes: spec_excludes(self.config.exclude_apps@),
            key: match self.encryptor {
                Some(e) => Some(e@),
                None => None,
            },
            current: match self.current_window {
                Some(c) => Some(c@),
                None => None,
            },
            buffer: self.keystroke_buffer@,
            buffer_chars: self.keystroke_chars as int,
            running: self.running,
        }
    }
}

impl ActivityMonitor {
    /// The monitor's internal invariant: the store invariants hold,
    /// the encryptor (if any) carries a full-length key, the pointer
    /// (if any) points at an existing window row, and the pending
    /// buffer respects its cap and counts at most one character per
    /// byte.
    pub closed spec fn wf(self) -> bool {
        &&& self.db.wf()
        &&& (match self.encryptor {
            Some(e) => e.wf(),
            None => true,
        })
        &&& (match self.current_window {
            Some(c) => 1 <= c.window_id <= self.db@.windows.len(),
            None => true,
        })
        &&& self.keystroke_buffer@.len() <= MAX_PENDING_BYTES
        &&& self.keystroke_chars <= self.keystroke_buffer@.len()
    }

    /// Build a monitor over a fresh, empty store.  Encryption is
    /// enabled when the configuration asks for it and a passphrase is
    /// supplied; a failure to derive the key is fatal.
    pub fn new(config: Config, password: Option<String>) -> (r: Result<
        ActivityMonitor,
        CryptoError,
    >)
        ensures
            (match r {
                Ok(m) => {
                    &&& m.wf()
                    &&& !m@.running
                    &&& m@.current is None
                    &&& m@.buffer == Seq::<u8>::empty()
                    &&& m@.buffer_chars == 0
                    &&& m@.excludes == spec_excludes(config.exclude_apps@)
                    &&& m@.store.processes.len() == 0
                    &&& m@.store.windows.len() == 0
                    &&& m@.store.keys.len() == 0
                    &&& m@.store.clicks.len() == 0
                    &&& m@.store.clock == 0
                    &&& (m@.key is Some <==> (config.encryption_enabled && password is Some))
                },
                Err(e) => {
                    &&& e == CryptoError::KeyDerivation
                    &&& config.encryption_enabled
                    &&& password is Some
                    &&& encode_utf8(password->0@).len() > 0x7fff_ffff
                },
            }),
    {
        let encryptor = if config.encryption_enabled {
            match password {
                Some(p) => {
                    match Encryptor::new(p.as_str()) {
                        Ok(enc) => Some(enc),
                        Err(e) => {
                            return Err(e);
                        },
                    }
                },
                None => None,
            }
        } else {
            None
        };
        let m = ActivityMonitor {
            config,
            db: Database::new(),
            encryptor,
            current_window: None,
            keystroke_buffer: Vec::new(),
            keystroke_chars: 0,
            running: false,
        };
        proof {
            assert(m@.buffer =~= Seq::<u8>::empty());
        }
        Ok(m)
    }

    /// Build a monitor over a fresh, empty store around an encryptor
    /// derived beforehand — typically from a passphrase and the salt
    /// persisted by an earlier run, so that stored payloads stay
    /// readable.  `None` stores plaintext.
    pub fn with_encryptor(config: Config, encryptor: Option<Encryptor>) -> (r: ActivityMonitor)
        requires
            (match encryptor {
                Some(e) => e.wf(),
                None => true,
            }),
        ensures
            r.wf(),
            !r@.running,
            r@.current is None,
            r@.buffer == Seq::<u8>::empty(),
            r@.buffer_chars == 0,
            r@.excludes == spec_excludes(config.exclude_apps@),
            r@.store.processes.len() == 0,
            r@.store.windows.len() == 0,
            r@.store.keys.len() == 0,
            r@.store.clicks.len() == 0,
            r@.store.clock == 0,
            r@.key == (match encryptor {
                Some(e) => Some(e@),
                None => None,
            }),
    {
        let m = ActivityMonitor {
            config,
            db: Database::new(),
            encryptor,
            current_window: None,
            keystroke_buffer: Vec::new(),
            keystroke_chars: 0,
            running: false,
        };
        proof {
            assert(m@.buffer =~= Seq::<u8>::empty());
        }
        m
    }

    /// Whether the periodic loop should keep running.
    pub fn is_running(&self) -> (r: bool)
        ensures
            r == self@.running,
    {
        self.running
    }

    /// Read access to the store, for the statistics query and direct
    /// reads.
    pub fn store(&self) -> (r: &Database)
        requires
            self.wf(),
        ensures
            r.wf(),
            r@ == self@.store,
    {
        &self.db
    }

    /// The window the monitor currently attributes input to, if any.
    pub fn current_window(&self) -> (r: &Option<CurrentWindow>)
        ensures
            (match r {
                Some(c) => self@.current == Some(c@),
                None => self@.current is None,
            }),
    {
        &self.current_window
    }

    /// The encryptor, if encryption is on: its salt must be persisted
    /// for payloads to outlive the process, and stored payloads are
    /// read back through it.
    pub fn encryptor(&self) -> (r: &Option<Encryptor>)
        requires
            self.wf(),
        ensures
            (match r {
                Some(e) => self@.key == Some(e@) && e.wf(),
                None => self@.key is None,
            }),
    {
        &self.encryptor
    }

    /// Set the timestamp that rows written from now on are stamped
    /// with.
    pub fn set_clock(&mut self, now: i64)
        requires
            old(self).wf(),
        ensures
            final(self).wf(),
            final(self)@ == (MonitorModel {
                store: (StoreModel { clock: now as int, ..old(self)@.store }),
                ..old(self)@
            }),
    {
        self.db.set_clock(now);
        proof {
            assert(self@ =~~= (MonitorModel {
                store: (StoreModel { clock: now as int, ..old(self)@.store }),
                ..old(self)@
            }));
        }
    }

    /// Transition to running.  The surrounding application enables
    /// capture first and then drives ticks while the flag stays set.
    pub fn start(&mut self)
        requires
            old(self).wf(),
        ensures
            final(self).wf(),
            final(self)@ == (MonitorModel { running: true, ..old(self)@ }),
    {
        self.running = true;
        proof {
            assert(self@ =~~= (MonitorModel { running: true, ..old(self)@ }));
        }
    }

    /// Transition to stopped and flush once, so that a cooperative
    /// stop loses no buffered keystrokes.
    pub fn stop(&mut self)
        requires
            old(self).wf(),
        ensures
            final(self).wf(),
            !final(self)@.running,
            final(self)@.excludes == old(self)@.excludes,
            final(self)@.key == old(self)@.key,
            (old(self)@.store.keys.len() < max_rows() && sum_key_counts(old(self)@.store.keys)
                + MAX_PENDING_BYTES <= 0x7fff_ffff_ffff_ffff) ==> spec_flush_rel(
                (MonitorModel { running: false, ..old(self)@ }),
                final(self)@,
            ),
    {
        self.running = false;
        proof {
            assert(self@ =~~= (MonitorModel { running: false, ..old(self)@ }));
        }
        self.flush_keystrokes();
    }

    /// One tick: reconcile the observed window, drain the captured
    /// events, and flush the pending buffer.  With room in the store
    /// the tick follows the model exactly; a refused write is skipped
    /// and the tick carries on.  Whatever the store's headroom, a tick
    /// adds at most one process row, one window row and one keystroke
    /// batch, at most one click per drained event, never a process row
    /// with an excluded name, and writes no process or window row at
    /// all when the observation is missing or its process is excluded.
    pub fn tick(&mut self, window: Option<WindowInfo>, events: Vec<InputEvent>)
        requires
            old(self).wf(),
        ensures
            final(self).wf(),
            final(self)@.running == old(self)@.running,
            final(self)@.excludes == old(self)@.excludes,
            final(self)@.key == old(self)@.key,
            final(self)@.store.clock == old(self)@.store.clock,
            old(self)@.store.processes.len() <= final(self)@.store.processes.len() <= old(self)@.store.processes.len() + 1,
            old(self)@.store.windows.len() <= final(self)@.store.windows.len() <= old(self)@.store.windows.len() + 1,
            old(self)@.store.keys.len() <= final(self)@.store.keys.len() <= old(self)@.store.keys.len() + 1,
            final(self)@.store.clicks.len() <= old(self)@.store.clicks.len() + events@.len(),
            forall|i: int|
                old(self)@.store.processes.len() <= i < final(self)@.store.processes.len()
                    ==> !spec_excludes_contain(
                    old(self)@.excludes,
                    (#[trigger] final(self)@.store.processes[i]).name,
                ),
            (match window {
                None => final(self)@.store.processes == old(self)@.store.processes && final(self)@.store.windows == old(self)@.store.windows,
                Some(w) => spec_excludes_contain(old(self)@.excludes, w.process_name@) ==> (
                final(self)@.store.processes == old(self)@.store.processes && final(self)@.store.windows == old(self)@.store.windows),
            }),
            spec_room(old(self)@, events@.len() as int) ==> spec_flush_rel(
                spec_drain(spec_reconcile(old(self)@, window), events@),
                final(self)@,
            ),
    {
        self.observe_window(window);
        self.drain_events(events);
        self.flush_keystrokes();
    }

    /// Steps one and two of a tick: compare the snapshot against the
    /// pointer and record a changed, not excluded identity.
    fn observe_window(&mut self, window: Option<WindowInfo>)
        requires
            old(self).wf(),
        ensures
            final(self).wf(),
            final(self)@.running == old(self)@.running,
            final(self)@.excludes == old(self)@.excludes,
            final(self)@.key == old(self)@.key,
            final(self)@.buffer == old(self)@.buffer,
            final(self)@.store.keys == old(self)@.store.keys,
            final(self)@.store.clicks == old(self)@.store.clicks,
            final(self)@.store.clock == old(self)@.store.clock,
            old(self)@.store.processes.len() <= final(self)@.store.processes.len() <= old(self)@.store.processes.len() + 1,
            old(self)@.store.windows.len() <= final(self)@.store.windows.len() <= old(self)@.store.windows.len() + 1,
            forall|i: int|
                old(self)@.store.processes.len() <= i < final(self)@.store.processes.len()
                    ==> !spec_excludes_contain(
                    old(self)@.excludes,
                    (#[trigger] final(self)@.store.processes[i]).name,
                ),
            (match window {
                None => final(self)@.store.processes == old(self)@.store.processes && final(self)@.store.windows == old(self)@.store.windows,
                Some(w) => spec_excludes_contain(old(self)@.excludes, w.process_name@) ==> (
                final(self)@.store.processes == old(self)@.store.processes && final(self)@.store.windows == old(self)@.store.windows),
            }),
            (old(self)@.store.processes.len() < max_rows() && old(self)@.store.windows.len()
                < max_rows()) ==> final(self)@ == spec_reconcile(old(self)@, window),
    {
        let w = match window {
            Some(w) => w,
            None => {
                return ;
            },
        };
        let changed = match &self.current_window {
            Some(c) => !c.process_name.eq(&w.process_name) || !c.window_title.eq(
                &w.window_title,
            ),
            None => true,
        };
        if !changed {
            return ;
        }
        if self.config.is_excluded(&w.process_name) {
            self.current_window = None;
            proof {
                assert(self@ =~~= (MonitorModel { current: None, ..old(self)@ }));
            }
            return ;
        }
        let ghost s0 = self@.store;
        let bundle: Option<&str> = match &w.bundle_id {
            Some(b) => Some(b.as_str()),
            None => None,
        };
        let pid = match self.db.insert_process(w.process_name.as_str(), bundle) {
            Ok(pid) => pid,
            Err(_) => {
                return ;
            },
        };
        proof {
            lemma_find_process(s0.processes, w.process_name@);
            assert(self@.store =~~= spec_upsert_process(
                s0,
                w.process_name@,
                spec_opt_str(w.bundle_id),
            ).0);
            assert(pid as int == spec_upsert_process(s0, w.process_name@, spec_opt_str(w.bundle_id)).1);
        }
        let ghost s1 = self@.store;
        let wid = match self.db.insert_window(pid, w.window_title.as_str(), w.x, w.y, w.width, w.height) {
            Ok(wid) => wid,
            Err(_) => {
                return ;
            },
        };
        proof {
            assert(self@.store =~~= spec_add_window(
                s1,
                pid as int,
                w.window_title@,
                spec_opt_i32(w.x),
                spec_opt_i32(w.y),
                spec_opt_i32(w.width),
                spec_opt_i32(w.height),
            ).0);
        }
        self.current_window = Some(
            CurrentWindow {
                window_id: wid,
                process_name: w.process_name,
                window_title: w.window_title,
            },
        );
        proof {
            assert(self@ =~~= spec_reconcile(old(self)@, window));
        }
    }

    /// Step three of a tick: key presses into the pending buffer, in
    /// arrival order; clicks under whichever window is current at
    /// drain time.
    fn drain_events(&mut self, events: Vec<InputEvent>)
        requires
            old(self).wf(),
        ensures
            final(self).wf(),
            final(self)@.running == old(self)@.running,
            final(self)@.excludes == old(self)@.excludes,
            final(self)@.key == old(self)@.key,
            final(self)@.current == old(self)@.current,
            final(self)@.store.processes == old(self)@.store.processes,
            final(self)@.store.windows == old(self)@.store.windows,
            final(self)@.store.keys == old(self)@.store.keys,
            final(self)@.store.clock == old(self)@.store.clock,
            final(self)@.store.clicks.len() <= old(self)@.store.clicks.len() + events@.len(),
            (old(self)@.store.clicks.len() + events@.len() <= max_rows()) ==> final(self)@
                == spec_drain(old(self)@, events@),
    {
        let n = events.len();
        let mut i: usize = 0;
        while i < n
            invariant
                old(self).wf(),
                self.wf(),
                n == events@.len(),
                i <= n,
                self@.running == old(self)@.running,
                self@.excludes == old(self)@.excludes,
                self@.key == old(self)@.key,
                self@.current == old(self)@.current,
                self@.store.processes == old(self)@.store.processes,
                self@.store.windows == old(self)@.store.windows,
                self@.store.keys == old(self)@.store.keys,
                self@.store.clock == old(self)@.store.clock,
                self@.store.clicks.len() <= old(self)@.store.clicks.len() + i,
                (old(self)@.store.clicks.len() + events@.len() <= max_rows()) ==> self@
                    == spec_drain(old(self)@, events@.take(i as int)),
            decreases n - i,
        {
            let ghost pre = self@;
            let ghost room = old(self)@.store.clicks.len() + events@.len() <= max_rows();
            match &events[i] {
                InputEvent::KeyPress { key } => {
                    let bytes = key.as_str().as_bytes();
                    let n_chars = key.as_str().unicode_len();
                    proof {
                        assert(bytes@ == encode_utf8(key@));
                        lemma_encode_utf8_len_at_least(key@);
                    }
                    if bytes.len() <= MAX_PENDING_BYTES && self.keystroke_buffer.len()
                        <= MAX_PENDING_BYTES - bytes.len() {
                        self.keystroke_buffer.extend_from_slice(bytes);
                        self.keystroke_chars = self.keystroke_chars + n_chars;
                        proof {
                            if room {
                                assert(self@ =~~= spec_apply_event(pre, events@[i as int]));
                            }
                        }
                    } else {
                        proof {
                            if room {
                                assert(self@ =~~= spec_apply_event(pre, events@[i as int]));
                            }
                        }
                    }
                },
                InputEvent::MouseClick { x, y, button } => {
                    let current_id = match &self.current_window {
                        Some(c) => Some(c.window_id),
                        None => None,
                    };
                    match current_id {
                        Some(wid) => {
                            match self.db.insert_click(wid, *x, *y, button.as_str(), false) {
                                Ok(_) => (),
                                Err(_) => (),
                            }
                            proof {
                                if room {
                                    assert(self@ =~~= spec_apply_event(pre, events@[i as int]));
                                }
                            }
                        },
                        None => {
                            proof {
                                if room {
                                    assert(self@ =~~= spec_apply_event(pre, events@[i as int]));
                                }
                            }
                        },
                    }
                },
                _ => {
                    proof {
                        if room {
                            assert(self@ =~~= spec_apply_event(pre, events@[i as int]));
                        }
                    }
                },
            }
            proof {
                assert(events@.take(i + 1).drop_last() =~= events@.take(i as int));
                assert(events@.take(i + 1).last() == events@[i as int]);
            }
            i += 1;
        }
        proof {
            assert(events@.take(n as int) =~= events@);
        }
    }

    /// Step four of a tick: encrypt (where enabled) and persist the
    /// pending buffer as one keystroke batch under the current window,
    /// then clear the buffer.  With no window known the buffer keeps
    /// accumulating, up to its cap; a refused write leaves the buffer
    /// for the next tick.
    fn flush_keystrokes(&mut self)
        requires
            old(self).wf(),
        ensures
            final(self).wf(),
            final(self)@.running == old(self)@.running,
            final(self)@.excludes == old(self)@.excludes,
            final(self)@.key == old(self)@.key,
            final(self)@.current == old(self)@.current,
            final(self)@.store.processes == old(self)@.store.processes,
            final(self)@.store.windows == old(self)@.store.windows,
            final(self)@.store.clicks == old(self)@.store.clicks,
            final(self)@.store.clock == old(self)@.store.clock,
            old(self)@.store.keys.len() <= final(self)@.store.keys.len() <= old(self)@.store.keys.len() + 1,
            (old(self)@.store.keys.len() < max_rows() && sum_key_counts(old(self)@.store.keys)
                + MAX_PENDING_BYTES <= 0x7fff_ffff_ffff_ffff) ==> spec_flush_rel(
                old(self)@,
                final(self)@,
            ),
    {
        if self.keystroke_buffer.len() == 0 {
            return ;
        }
        let wid = match &self.current_window {
            Some(c) => c.window_id,
            None => {
                return ;
            },
        };
        let count: i32 = self.keystroke_chars as i32;
        let payload: Vec<u8> = match &self.encryptor {
            Some(enc) => {
                match enc.encrypt(self.keystroke_buffer.as_slice()) {
                    Ok(p) => p,
                    Err(_) => {
                        return vstd::pervasive::unreached();
                    },
                }
            },
            None => vstd::slice::slice_to_vec(self.keystroke_buffer.as_slice()),
        };
        match self.db.insert_keys(wid, payload, count) {
            Ok(_) => {
                self.keystroke_buffer.clear();
                self.keystroke_chars = 0;
                proof {
                    if old(self)@.store.keys.len() < max_rows() && sum_key_counts(
                        old(self)@.store.keys,
                    ) + MAX_PENDING_BYTES <= 0x7fff_ffff_ffff_ffff {
                        assert(self@.store.keys.drop_last() =~= old(self)@.store.keys);
                        assert(self@.buffer =~= Seq::<u8>::empty());
                        assert(self@ =~~= (MonitorModel {
                            store: (StoreModel { keys: self@.store.keys, ..old(self)@.store }),
                            buffer: Seq::<u8>::empty(),
                            buffer_chars: 0,
                            ..old(self)@
                        }));
                    }
                }
            },
            Err(_) => (),
        }
    }
}

} // verus!
