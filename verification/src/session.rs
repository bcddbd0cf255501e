//! The interactive session: its mode state machine, selection tracking,
//! status-message lifecycle, flow orchestration and key dispatch. All outside
//! work — probing the filesystem, persisting the configuration, spawning an
//! editor, reading the clock — is decided here but carried out by the caller,
//! which hands the outcomes back through the `*_probed` / `*_persisted` /
//! `*_reported` methods.

use vstd::prelude::*;

use crate::chars::{chars_to_string, string_to_chars, trim_chars, trim_spec};
use crate::config::{
    ec_eqv, opt_str_eqv, AppConfig, EntryConfig,
};
use crate::editor::EditBuffer;
use crate::git::BranchState;
use crate::launch::{build_launch_plan, error_message, plan_outcome, LaunchError, LaunchPlan};
use crate::paths::{display_path, display_path_spec, expand_path, expand_path_spec, opt_view};

verus! {

/// Which flow is running: registering a new entry or editing one.
#[derive(Clone, Copy, Debug, PartialEq, Eq, Structural)]
pub enum FlowKind {
    Add,
    Edit,
}

/// Which step the flow is at: capturing the directory, then the editor
/// command.
#[derive(Clone, Copy, Debug, PartialEq, Eq, Structural)]
pub enum FlowStep {
    Directory,
    Editor,
}

/// The session mode; exactly one holds at any time.
#[derive(Clone, Copy, Debug, PartialEq, Eq, Structural)]
pub enum Mode {
    Normal,
    Input { flow: FlowKind, step: FlowStep },
    ConfirmDelete { index: usize },
}

/// Whether a status message reports success or failure.
#[derive(Clone, Copy, Debug, PartialEq, Eq, Structural)]
pub enum StatusKind {
    Info,
    Error,
}

/// A transient notice about the last action, stamped with its creation time
/// in milliseconds.
#[derive(Debug)]
pub struct StatusMessage {
    pub text: String,
    pub kind: StatusKind,
    pub created_at: u64,
}

/// An entry as the session holds it: its configuration and its volatile
/// branch status.
#[derive(Debug)]
pub struct Entry {
    pub config: EntryConfig,
    pub branch: BranchState,
}

impl Entry {
    /// A fresh entry for a configuration: not yet probed.
    pub fn from_config(config: EntryConfig) -> (e: Entry)
        ensures
            e.config == config,
            e.branch is Unknown,
    {
        Entry { config, branch: BranchState::Unknown }
    }
}

/// The directory a flow has captured, with its canonical key.
#[derive(Debug)]
pub struct PendingDir {
    pub path: String,
    pub key: String,
}

/// A key, reduced to what the session reacts to.
#[derive(Clone, Copy, Debug, PartialEq, Eq, Structural)]
pub enum Key {
    Char(char),
    Enter,
    Esc,
    Backspace,
    Delete,
    Left,
    Right,
    Up,
    Down,
    Home,
    End,
    Other,
}

/// A key press with its modifiers. `sup` covers the platform super and meta
/// modifiers together; `more` is any further modifier.
#[derive(Clone, Copy, Debug, PartialEq, Eq, Structural)]
pub struct KeyInput {
    pub key: Key,
    pub ctrl: bool,
    pub alt: bool,
    pub sup: bool,
    pub shift: bool,
    pub more: bool,
}

impl KeyInput {
    /// Whether no modifier beyond shift is held, the condition for plain
    /// character insertion.
    pub open spec fn plain(self) -> bool {
        !self.ctrl && !self.alt && !self.sup && !self.more
    }
}

/// What the caller must do next on the session's behalf.
#[derive(Debug)]
pub enum Action {
    /// Nothing; the session handled everything itself.
    Nothing,
    /// Probe every entry's branch status and hand the outcomes to
    /// `refresh_branches`.
    Refresh,
    /// Check whether `path` exists and is a directory, canonicalise it, and
    /// hand the outcome to `directory_probed`.
    ProbeDirectory { path: String },
    /// Save the configuration and hand the outcome to `flow_persisted`,
    /// then refresh.
    PersistFlow,
    /// Save the configuration and hand the outcome to `remove_persisted`,
    /// then refresh.
    PersistRemove,
    /// Spawn the planned command and hand the outcome to `spawn_reported`.
    Spawn { index: usize, plan: LaunchPlan },
}

/// How long a status message lives in `Normal` mode, in milliseconds.
pub const STATUS_TIMEOUT_MS: u64 = 3000;

/// The session.
pub struct App {
    config_data: AppConfig,
    key_list: Vec<String>,
    entry_list: Vec<Entry>,
    selected_ix: usize,
    mode_cur: Mode,
    edit_buf: EditBuffer,
    pending_dir: Option<PendingDir>,
    editing_ix: Option<usize>,
    status_msg: Option<StatusMessage>,
    quit_flag: bool,
    home_dir: Option<String>,
    env_edit: Option<String>,
    removed_disp: Option<String>,
}

impl App {
    /// The persistent configuration as the session holds it.
    pub closed spec fn cfg(&self) -> AppConfig {
        self.config_data
    }

    /// The canonical key of each configured entry, position by position.
    pub closed spec fn key_seq(&self) -> Seq<String> {
        self.key_list@
    }

    /// The in-memory entry projection the screen shows.
    pub closed spec fn entry_seq(&self) -> Seq<Entry> {
        self.entry_list@
    }

    /// The selection index.
    pub closed spec fn sel(&self) -> int {
        self.selected_ix as int
    }

    /// The mode.
    pub closed spec fn mode_s(&self) -> Mode {
        self.mode_cur
    }

    /// The line editor.
    pub closed spec fn buf(&self) -> EditBuffer {
        self.edit_buf
    }

    /// The captured directory, while a flow holds one.
    pub closed spec fn pending_s(&self) -> Option<PendingDir> {
        self.pending_dir
    }

    /// The index being edited, while an edit flow runs.
    pub closed spec fn editing_s(&self) -> Option<usize> {
        self.editing_ix
    }

    /// The status message.
    pub closed spec fn status_s(&self) -> Option<StatusMessage> {
        self.status_msg
    }

    /// The quit flag.
    pub closed spec fn quit_s(&self) -> bool {
        self.quit_flag
    }

    /// The home directory, as resolved at start.
    pub closed spec fn home_s(&self) -> Option<String> {
        self.home_dir
    }

    /// The environment's editor fallback, as resolved at start.
    pub closed spec fn env_s(&self) -> Option<String> {
        self.env_edit
    }

    /// The display form of an entry staged for removal, until its removal is
    /// persisted.
    pub closed spec fn removed_s(&self) -> Option<String> {
        self.removed_disp
    }

    /// The session's standing invariant: the editor is well-formed, every
    /// configured entry has a key, and the selection stays inside the entry
    /// list — `0` when the list is empty.
    pub open spec fn wf(&self) -> bool {
        &&& self.buf().wf()
        &&& self.key_seq().len() == self.cfg().entries@.len()
        &&& (self.entry_seq().len() == 0 ==> self.sel() == 0)
        &&& (self.entry_seq().len() > 0 ==> self.sel() < self.entry_seq().len())
    }

    pub fn mode(&self) -> (m: Mode)
        ensures
            m == self.mode_s(),
    {
        self.mode_cur
    }

    pub fn selected(&self) -> (s: usize)
        ensures
            s == self.sel(),
    {
        self.selected_ix
    }

    pub fn should_quit(&self) -> (q: bool)
        ensures
            q == self.quit_s(),
    {
        self.quit_flag
    }

    pub fn config(&self) -> (c: &AppConfig)
        ensures
            *c == self.cfg(),
    {
        &self.config_data
    }

    pub fn keys(&self) -> (k: &Vec<String>)
        ensures
            k@ == self.key_seq(),
    {
        &self.key_list
    }

    pub fn entries(&self) -> (e: &Vec<Entry>)
        ensures
            e@ == self.entry_seq(),
    {
        &self.entry_list
    }

    pub fn buffer(&self) -> (b: &EditBuffer)
        ensures
            *b == self.buf(),
    {
        &self.edit_buf
    }

    pub fn status(&self) -> (s: &Option<StatusMessage>)
        ensures
            *s == self.status_s(),
    {
        &self.status_msg
    }

    pub fn env_editor(&self) -> (e: &Option<String>)
        ensures
            *e == self.env_s(),
    {
        &self.env_edit
    }

    pub fn home(&self) -> (h: &Option<String>)
        ensures
            *h == self.home_s(),
    {
        &self.home_dir
    }

    /// A fresh session over a loaded configuration. `keys` carries the
    /// canonical key of each entry; `home` and `env_editor` are the
    /// environment's home directory and editor fallback, resolved once.
    pub fn new(
        config: AppConfig,
        keys: Vec<String>,
        home: Option<String>,
        env_editor: Option<String>,
    ) -> (a: App)
        requires
            keys@.len() == config.entries@.len(),
        ensures
            a.wf(),
            a.cfg() == config,
            a.key_seq() == keys@,
            a.entry_seq().len() == config.entries@.len(),
            forall|i: int|
                0 <= i < config.entries@.len() ==> ec_eqv(
                    #[trigger] a.entry_seq()[i].config,
                    config.entries@[i],
                ) && a.entry_seq()[i].branch is Unknown,
            a.sel() == 0,
            a.mode_s() == Mode::Normal,
            a.buf().text() == Seq::<char>::empty(),
            a.buf().cursor() == 0,
            a.buf().kill() == Seq::<char>::empty(),
            a.pending_s() is None,
            a.editing_s() is None,
            a.status_s() is None,
            !a.quit_s(),
            a.home_s() == home,
            a.env_s() == env_editor,
            a.removed_s() is None,
    {
        let entries = entries_from(&config.entries);
        App {
            config_data: config,
            key_list: keys,
            entry_list: entries,
            selected_ix: 0,
            mode_cur: Mode::Normal,
            edit_buf: EditBuffer::new(),
            pending_dir: None,
            editing_ix: None,
            status_msg: None,
            quit_flag: false,
            home_dir: home,
            env_edit: env_editor,
            removed_disp: None,
        }
    }

    /// Records a status message created now.
    pub fn set_status(&mut self, kind: StatusKind, text: String, now: u64)
        requires
            old(self).wf(),
        ensures
            final(self).wf(),
            status_is(*final(self), kind, text@, now),
            only_status_changed(*old(self), *final(self)),
    {
        self.status_msg = Some(StatusMessage { text, kind, created_at: now });
    }

    /// Drops the status message.
    pub fn clear_status(&mut self)
        requires
            old(self).wf(),
        ensures
            final(self).wf(),
            final(self).status_s() is None,
            only_status_changed(*old(self), *final(self)),
    {
        self.status_msg = None;
    }

    /// Expires the status message: in `Normal` mode, one older than the
    /// timeout is dropped; in any other mode, or younger, it stays.
    pub fn maybe_clear_status(&mut self, now: u64)
        requires
            old(self).wf(),
        ensures
            final(self).wf(),
            only_status_changed(*old(self), *final(self)),
            ({
                let expired = old(self).mode_s() == Mode::Normal && match old(self).status_s() {
                    Option::Some(st) => now >= st.created_at && now - st.created_at
                        >= STATUS_TIMEOUT_MS,
                    Option::None => false,
                };
                if expired {
                    final(self).status_s() is None
                } else {
                    final(self).status_s() == old(self).status_s()
                }
            }),
    {
        if !matches!(self.mode_cur, Mode::Normal) {
            return ;
        }
        let expired = match &self.status_msg {
            Some(st) => now >= st.created_at && now - st.created_at >= STATUS_TIMEOUT_MS,
            None => false,
        };
        if expired {
            self.status_msg = None;
        }
    }

    /// Moves the selection up, wrapping from the first entry to the last.
    pub fn move_selection_up(&mut self)
        requires
            old(self).wf(),
        ensures
            final(self).wf(),
            selection_up(*old(self), *final(self)),
    {
        if self.entry_list.len() == 0 {
            return ;
        }
        if self.selected_ix == 0 {
            self.selected_ix = self.entry_list.len() - 1;
        } else {
            self.selected_ix = self.selected_ix - 1;
        }
    }

    /// Moves the selection down, wrapping from the last entry to the first.
    pub fn move_selection_down(&mut self)
        requires
            old(self).wf(),
        ensures
            final(self).wf(),
            selection_down(*old(self), *final(self)),
    {
        if self.entry_list.len() == 0 {
            return ;
        }
        self.selected_ix = (self.selected_ix + 1) % self.entry_list.len();
    }

    /// Replaces each entry's branch status with the probe outcome at the
    /// same position; entries beyond the given outcomes keep theirs.
    pub fn refresh_branches(&mut self, states: Vec<BranchState>)
        requires
            old(self).wf(),
        ensures
            final(self).wf(),
            only_entries_changed(*old(self), *final(self)),
            final(self).entry_seq().len() == old(self).entry_seq().len(),
            forall|i: int|
                0 <= i < old(self).entry_seq().len() ==> #[trigger] final(self).entry_seq()[i].config
                    == old(self).entry_seq()[i].config,
            forall|i: int|
                0 <= i < old(self).entry_seq().len() && i < states@.len()
                    ==> #[trigger] final(self).entry_seq()[i].branch == states@[i],
            forall|i: int|
                states@.len() <= i < old(self).entry_seq().len()
                    ==> #[trigger] final(self).entry_seq()[i].branch == old(self).entry_seq()[i].branch,
    {
        let ghost states0 = states@;
        let ghost pre = self.entry_list@;
        let mut states = states;
        let n = self.entry_list.len();
        while states.len() > n
            invariant
                *self == *old(self),
                n == self.entry_list@.len(),
                states@.len() <= states0.len(),
                states@.len() >= n || states@.len() == states0.len(),
                forall|j: int| 0 <= j < states@.len() ==> states@[j] == states0[j],
            decreases states@.len(),
        {
            states.pop();
        }
        while states.len() > 0
            invariant
                states@.len() <= n == self.entry_list@.len(),
                states@.len() <= states0.len(),
                forall|j: int| 0 <= j < states@.len() ==> states@[j] == states0[j],
                pre == old(self).entry_seq(),
                pre.len() == n,
                forall|j: int|
                    0 <= j < n ==> #[trigger] self.entry_list@[j].config == pre[j].config,
                forall|j: int|
                    0 <= j < states@.len() ==> #[trigger] self.entry_list@[j].branch
                        == pre[j].branch,
                forall|j: int|
                    states@.len() <= j < n && j < states0.len()
                        ==> #[trigger] self.entry_list@[j].branch == states0[j],
                forall|j: int|
                    states0.len() <= j < n ==> #[trigger] self.entry_list@[j].branch
                        == pre[j].branch,
                self.config_data == old(self).config_data,
                self.key_list == old(self).key_list,
                self.selected_ix == old(self).selected_ix,
                self.mode_cur == old(self).mode_cur,
                self.edit_buf == old(self).edit_buf,
                self.pending_dir == old(self).pending_dir,
                self.editing_ix == old(self).editing_ix,
                self.status_msg == old(self).status_msg,
                self.quit_flag == old(self).quit_flag,
                self.home_dir == old(self).home_dir,
                self.env_edit == old(self).env_edit,
                self.removed_disp == old(self).removed_disp,
            decreases states@.len(),
        {
            let i = states.len() - 1;
            let popped = states.pop();
            if let Some(st) = popped {
                self.entry_list[i].branch = st;
            }
        }
    }
}

impl App {
    /// Rebuilds the entry projection from the configuration, every status
    /// back to unprobed.
    fn sync_entries(&mut self)
        ensures
            entries_synced(*old(self), *final(self)),
    {
        self.entry_list = entries_from(&self.config_data.entries);
    }

    /// Begins the add flow: directory step, everything cleared.
    pub fn start_add_flow(&mut self, now: u64)
        requires
            old(self).wf(),
        ensures
            final(self).wf(),
            add_flow_started(*old(self), *final(self), now),
    {
        self.mode_cur = Mode::Input { flow: FlowKind::Add, step: FlowStep::Directory };
        self.edit_buf.clear_all();
        self.pending_dir = None;
        self.editing_ix = None;
        self.set_status(StatusKind::Info, String::from_str("Enter directory path"), now);
    }

    /// Begins the edit flow on the selected entry: its path fills the buffer
    /// with the cursor at the end. With no entries, nothing happens.
    pub fn start_edit_flow(&mut self, now: u64)
        requires
            old(self).wf(),
        ensures
            final(self).wf(),
            old(self).entry_seq().len() == 0 ==> *final(self) == *old(self),
            old(self).entry_seq().len() > 0 ==> edit_flow_started(*old(self), *final(self), now),
    {
        if self.entry_list.len() == 0 {
            return ;
        }
        let idx = self.selected_ix;
        let path = self.entry_list[idx].config.path.clone();
        let key = if idx < self.key_list.len() {
            self.key_list[idx].clone()
        } else {
            self.entry_list[idx].config.path.clone()
        };
        self.mode_cur = Mode::Input { flow: FlowKind::Edit, step: FlowStep::Directory };
        let chars = string_to_chars(path.as_str());
        self.edit_buf.reset_with(chars);
        self.pending_dir = Some(PendingDir { path, key });
        self.editing_ix = Some(idx);
        self.set_status(
            StatusKind::Info,
            String::from_str("Edit directory path and press enter"),
            now,
        );
    }

    /// Asks for confirmation before removing the selected entry. With no
    /// entries, nothing happens.
    pub fn request_remove(&mut self, now: u64)
        requires
            old(self).wf(),
        ensures
            final(self).wf(),
            old(self).entry_seq().len() == 0 ==> *final(self) == *old(self),
            old(self).entry_seq().len() > 0 ==> remove_requested(*old(self), *final(self), now),
    {
        if self.entry_list.len() == 0 {
            return ;
        }
        let idx = self.selected_ix;
        let key = if idx < self.key_list.len() {
            self.key_list[idx].clone()
        } else {
            self.entry_list[idx].config.path.clone()
        };
        let disp = display_path(&self.entry_list[idx].config.path, &key, &self.home_dir);
        let mut text = String::from_str("Press Enter to remove ");
        text.append(disp.as_str());
        text.append(" or Esc to cancel");
        self.mode_cur = Mode::ConfirmDelete { index: idx };
        self.set_status(StatusKind::Info, text, now);
    }

    /// Abandons the running flow: back to `Normal`, buffer, kill slot and
    /// captured state discarded; the status message stays as it is.
    pub fn cancel_flow(&mut self)
        requires
            old(self).wf(),
        ensures
            final(self).wf(),
            flow_cancelled(*old(self), *final(self)),
    {
        self.mode_cur = Mode::Normal;
        self.edit_buf.clear_all();
        self.pending_dir = None;
        self.editing_ix = None;
    }

    /// The text the editor step's buffer starts with: the given entry's
    /// override, else the stored default, else the environment fallback,
    /// else nothing.
    pub fn editor_prefill(&self, entry: Option<&EntryConfig>) -> (r: String)
        ensures
            r@ == prefill_chain(
                match entry {
                    Option::Some(e) => opt_view(e.editor),
                    Option::None => Option::None,
                },
                opt_view(self.cfg().default_editor),
                opt_view(self.env_s()),
            ),
    {
        if let Some(e) = entry {
            if let Some(cmd) = &e.editor {
                return cmd.clone();
            }
        }
        if let Some(cmd) = &self.config_data.default_editor {
            return cmd.clone();
        }
        match &self.env_edit {
            Some(cmd) => cmd.clone(),
            None => String::new(),
        }
    }

    /// Submits the directory step: a blank buffer is rejected in place;
    /// otherwise the trimmed, `~/`-expanded path goes out to be probed.
    pub fn complete_directory_step(&mut self, now: u64) -> (r: Action)
        requires
            old(self).wf(),
        ensures
            final(self).wf(),
            directory_submitted(*old(self), *final(self), r, now),
    {
        let chars = self.edit_buf.text_chars();
        let trimmed = trim_chars(&chars);
        if trimmed.len() == 0 {
            self.set_status(
                StatusKind::Error,
                String::from_str("directory path cannot be empty"),
                now,
            );
            return Action::Nothing;
        }
        let path = expand_path(&trimmed, &self.home_dir);
        Action::ProbeDirectory { path }
    }

    /// Takes the probe outcome for the submitted directory: a missing or
    /// non-directory path is rejected in place; otherwise the flow moves to
    /// the editor step, the buffer prefilled with the prevailing command.
    pub fn directory_probed(
        &mut self,
        path: String,
        key: String,
        exists: bool,
        is_dir: bool,
        now: u64,
    )
        requires
            old(self).wf(),
        ensures
            final(self).wf(),
            !(old(self).mode_s() matches Mode::Input { flow: _, step: FlowStep::Directory })
                ==> *final(self) == *old(self),
            (old(self).mode_s() matches Mode::Input { flow: _, step: FlowStep::Directory }) ==> ({
                let fl = mode_flow(old(self).mode_s());
                let disp = display_path_spec(path@, key@, opt_view(old(self).home_s()));
                &&& !exists ==> only_status_changed(*old(self), *final(self)) && status_is(
                    *final(self),
                    StatusKind::Error,
                    disp + " does not exist"@,
                    now,
                )
                &&& exists && !is_dir ==> only_status_changed(*old(self), *final(self))
                    && status_is(
                    *final(self),
                    StatusKind::Error,
                    disp + " is not a directory"@,
                    now,
                )
                &&& exists && is_dir ==> directory_accepted(
                    *old(self),
                    *final(self),
                    fl,
                    path@,
                    key@,
                    now,
                )
            }),
    {
        let fl = match self.mode_cur {
            Mode::Input { flow, step: FlowStep::Directory } => flow,
            _ => {
                return ;
            },
        };
        let disp = display_path(&path, &key, &self.home_dir);
        if !exists {
            let mut text = disp;
            text.append(" does not exist");
            self.set_status(StatusKind::Error, text, now);
            return ;
        }
        if !is_dir {
            let mut text = disp;
            text.append(" is not a directory");
            self.set_status(StatusKind::Error, text, now);
            return ;
        }
        let prefill = match fl {
            FlowKind::Add => self.editor_prefill(None),
            FlowKind::Edit => {
                match self.editing_ix {
                    Some(i) => {
                        if i < self.config_data.entries.len() {
                            let e = &self.config_data.entries[i];
                            self.editor_prefill(Some(e))
                        } else {
                            self.editor_prefill(None)
                        }
                    },
                    None => self.editor_prefill(None),
                }
            },
        };
        self.pending_dir = Some(PendingDir { path, key });
        self.mode_cur = Mode::Input { flow: fl, step: FlowStep::Editor };
        let chars = string_to_chars(prefill.as_str());
        self.edit_buf.set_text(chars);
        let msg = match fl {
            FlowKind::Add => String::from_str("Set editor command (enter to accept current value)"),
            FlowKind::Edit => String::from_str(
                "Edit editor command (enter to accept current value)",
            ),
        };
        self.set_status(StatusKind::Info, msg, now);
    }

    /// Submits the editor step: the trimmed buffer becomes the entry's
    /// override — blank means none — and every non-blank command becomes the
    /// new session-wide default. The entry is staged into the configuration
    /// (an add replaces any entry with the same canonical key rather than
    /// duplicating it) and goes out to be persisted.
    pub fn complete_editor_step(&mut self, flow: FlowKind, now: u64) -> (r: Action)
        requires
            old(self).wf(),
        ensures
            final(self).wf(),
            editor_submitted(*old(self), *final(self), flow, r, now),
    {
        let (path, key) = match &self.pending_dir {
            Some(p) => (p.path.clone(), p.key.clone()),
            None => {
                self.set_status(StatusKind::Error, String::from_str("no directory captured"), now);
                return Action::Nothing;
            },
        };
        let chars = self.edit_buf.text_chars();
        let trimmed = trim_chars(&chars);
        let editor: Option<String> = if trimmed.len() == 0 {
            None
        } else {
            Some(chars_to_string(&trimmed))
        };
        if let Some(cmd) = &editor {
            self.config_data.default_editor = Some(cmd.clone());
        }
        match flow {
            FlowKind::Add => {
                let entry = EntryConfig { path, editor };
                match find_key(&self.key_list, &key) {
                    Some(j) => {
                        self.config_data.entries[j] = entry;
                        self.key_list[j] = key;
                    },
                    None => {
                        self.config_data.entries.push(entry);
                        self.key_list.push(key);
                    },
                }
                Action::PersistFlow
            },
            FlowKind::Edit => {
                let idx = match self.editing_ix {
                    Some(i) => i,
                    None => {
                        self.set_status(
                            StatusKind::Error,
                            String::from_str("no entry selected to edit"),
                            now,
                        );
                        return Action::Nothing;
                    },
                };
                if idx >= self.config_data.entries.len() {
                    self.set_status(
                        StatusKind::Error,
                        String::from_str("invalid entry index"),
                        now,
                    );
                    return Action::Nothing;
                }
                self.config_data.entries[idx] = EntryConfig { path, editor };
                self.key_list[idx] = key;
                Action::PersistFlow
            },
        }
    }

    /// Submits whichever step the flow is at.
    pub fn submit_flow_step(&mut self, flow: FlowKind, step: FlowStep, now: u64) -> (r: Action)
        requires
            old(self).wf(),
        ensures
            final(self).wf(),
            step is Directory ==> directory_submitted(*old(self), *final(self), r, now),
            step is Editor ==> editor_submitted(*old(self), *final(self), flow, r, now),
    {
        match step {
            FlowStep::Directory => self.complete_directory_step(now),
            FlowStep::Editor => self.complete_editor_step(flow, now),
        }
    }

    /// Takes the persistence outcome for a staged flow commit. Success ends
    /// the flow: the projection is rebuilt, the affected entry reselected by
    /// its key, and the result reported. Failure is reported in place, the
    /// flow still at the editor step.
    pub fn flow_persisted(&mut self, ok: bool, err: String, now: u64)
        requires
            old(self).wf(),
        ensures
            final(self).wf(),
            !(old(self).mode_s() matches Mode::Input { flow: _, step: FlowStep::Editor }
                && old(self).pending_s() is Some) ==> *final(self) == *old(self),
            (old(self).mode_s() matches Mode::Input { flow: _, step: FlowStep::Editor })
                && old(self).pending_s() is Some ==> ({
                let fl = mode_flow(old(self).mode_s());
                if !ok {
                    only_status_changed(*old(self), *final(self)) && status_is(
                        *final(self),
                        StatusKind::Error,
                        err@,
                        now,
                    )
                } else {
                    flow_committed(*old(self), *final(self), fl, now)
                }
            }),
    {
        let p_opt = match &self.pending_dir {
            Some(p) => Some((p.path.clone(), p.key.clone())),
            None => None,
        };
        let fl = match self.mode_cur {
            Mode::Input { flow, step: FlowStep::Editor } => flow,
            _ => {
                return ;
            },
        };
        let (ppath, pkey) = match p_opt {
            Some(pk) => pk,
            None => {
                return ;
            },
        };
        if !ok {
            self.set_status(StatusKind::Error, err, now);
            return ;
        }
        self.sync_entries();
        match find_key(&self.key_list, &pkey) {
            Some(pos) => {
                self.selected_ix = pos;
            },
            None => {
                let n = self.entry_list.len();
                if n == 0 {
                    self.selected_ix = 0;
                } else {
                    let idx = match self.editing_ix {
                        Some(i) => if i < n {
                            i
                        } else {
                            n - 1
                        },
                        None => n - 1,
                    };
                    self.selected_ix = idx;
                }
            },
        }
        let disp = display_path(&ppath, &pkey, &self.home_dir);
        let mut text = match fl {
            FlowKind::Add => String::from_str("Registered "),
            FlowKind::Edit => String::from_str("Updated "),
        };
        text.append(disp.as_str());
        self.set_status(StatusKind::Info, text, now);
        self.mode_cur = Mode::Normal;
        self.edit_buf.clear_text();
        self.pending_dir = None;
        self.editing_ix = None;
    }

    /// Answers the delete confirmation: escape backs out, enter removes the
    /// entry from the configuration and sends it out to be persisted; any
    /// other key is ignored.
    pub fn handle_confirm_delete(&mut self, index: usize, key: KeyInput, now: u64) -> (r: Action)
        requires
            old(self).wf(),
        ensures
            final(self).wf(),
            key.key == Key::Esc ==> only_mode_status_changed(*old(self), *final(self))
                && final(self).mode_s() == Mode::Normal && final(self).status_s() is None
                && r is Nothing,
            key.key == Key::Enter ==> remove_staged(*old(self), *final(self), index, r, now),
            key.key != Key::Esc && key.key != Key::Enter ==> *final(self) == *old(self)
                && r is Nothing,
    {
        match key.key {
            Key::Esc => {
                self.mode_cur = Mode::Normal;
                self.clear_status();
                Action::Nothing
            },
            Key::Enter => {
                if index >= self.config_data.entries.len() {
                    self.set_status(
                        StatusKind::Error,
                        String::from_str("invalid entry index"),
                        now,
                    );
                    self.mode_cur = Mode::Normal;
                    return Action::Nothing;
                }
                let removed = self.config_data.entries.remove(index);
                let rkey = self.key_list.remove(index);
                let disp = display_path(&removed.path, &rkey, &self.home_dir);
                self.removed_disp = Some(disp);
                self.mode_cur = Mode::Normal;
                Action::PersistRemove
            },
            _ => Action::Nothing,
        }
    }

    /// Takes the persistence outcome for a staged removal. Success rebuilds
    /// the projection, clamps the selection and reports what was removed;
    /// failure is reported, the in-memory projection left as it was.
    pub fn remove_persisted(&mut self, ok: bool, err: String, now: u64)
        requires
            old(self).wf(),
        ensures
            final(self).wf(),
            !ok ==> only_status_removed_changed(*old(self), *final(self)) && status_is(
                *final(self),
                StatusKind::Error,
                err@,
                now,
            ) && final(self).removed_s() is None,
            ok ==> remove_committed(*old(self), *final(self), now),
    {
        if !ok {
            self.set_status(StatusKind::Error, err, now);
            self.removed_disp = None;
            return ;
        }
        self.sync_entries();
        let n = self.entry_list.len();
        if n == 0 {
            self.selected_ix = 0;
        } else if self.selected_ix >= n {
            self.selected_ix = n - 1;
        }
        match &self.removed_disp {
            Some(d) => {
                let mut text = String::from_str("Removed ");
                text.append(d.as_str());
                self.set_status(StatusKind::Info, text, now);
            },
            None => {},
        }
        self.removed_disp = None;
    }

    /// Plans the launch of the entry at `index`: a plan goes out to be
    /// spawned, a resolution failure is reported in place, and an index past
    /// the list does nothing.
    pub fn launch_index(&mut self, index: usize, now: u64) -> (r: Action)
        requires
            old(self).wf(),
        ensures
            final(self).wf(),
            index >= old(self).entry_seq().len() ==> *final(self) == *old(self) && r is Nothing,
            index < old(self).entry_seq().len() ==> exists|res: Result<LaunchPlan, LaunchError>|
                {
                    &&& #[trigger] plan_outcome(
                        opt_view(old(self).entry_seq()[index as int].config.editor),
                        opt_view(old(self).env_s()),
                        old(self).entry_seq()[index as int].config.path@,
                        res,
                    )
                    &&& match res {
                        Result::Ok(plan) => *final(self) == *old(self) && r == (Action::Spawn {
                            index,
                            plan,
                        }),
                        Result::Err(e) => r is Nothing && only_status_changed(
                            *old(self),
                            *final(self),
                        ) && status_is(*final(self), StatusKind::Error, error_message(e), now),
                    }
                },
    {
        if index >= self.entry_list.len() {
            return Action::Nothing;
        }
        let res = build_launch_plan(
            &self.entry_list[index].config.editor,
            &self.env_edit,
            &self.entry_list[index].config.path,
        );
        match res {
            Ok(plan) => Action::Spawn { index, plan },
            Err(e) => {
                let msg = e.message();
                self.set_status(StatusKind::Error, msg, now);
                Action::Nothing
            },
        }
    }

    /// Takes the spawn outcome: success reports the opened entry, failure
    /// reports the reason; the session carries on either way.
    pub fn spawn_reported(&mut self, index: usize, ok: bool, err: String, now: u64)
        requires
            old(self).wf(),
        ensures
            final(self).wf(),
            only_status_changed(*old(self), *final(self)),
            !ok ==> status_is(*final(self), StatusKind::Error, err@, now),
            ok && index < old(self).entry_seq().len() ==> status_is(
                *final(self),
                StatusKind::Info,
                "Opened "@ + display_path_spec(
                    old(self).entry_seq()[index as int].config.path@,
                    entry_disp_key(*old(self), index as int),
                    opt_view(old(self).home_s()),
                ),
                now,
            ),
            ok && index >= old(self).entry_seq().len() ==> final(self).status_s()
                == old(self).status_s(),
    {
        if !ok {
            self.set_status(StatusKind::Error, err, now);
            return ;
        }
        if index >= self.entry_list.len() {
            return ;
        }
        let key = if index < self.key_list.len() {
            self.key_list[index].clone()
        } else {
            self.entry_list[index].config.path.clone()
        };
        let disp = display_path(&self.entry_list[index].config.path, &key, &self.home_dir);
        let mut text = String::from_str("Opened ");
        text.append(disp.as_str());
        self.set_status(StatusKind::Info, text, now);
    }
}

impl App {
    /// The buffer length, in characters.
    pub fn buffer_len(&self) -> (n: usize)
        ensures
            n == self.buf().text().len(),
    {
        self.edit_buf.buffer_len()
    }

    pub fn cursor_to_start(&mut self)
        requires
            old(self).wf(),
        ensures
            final(self).wf(),
            only_buffer_changed(*old(self), *final(self)),
            crate::editor::buf_home(old(self).buf(), final(self).buf()),
    {
        self.edit_buf.cursor_to_start();
    }

    pub fn cursor_to_end(&mut self)
        requires
            old(self).wf(),
        ensures
            final(self).wf(),
            only_buffer_changed(*old(self), *final(self)),
            crate::editor::buf_end(old(self).buf(), final(self).buf()),
    {
        self.edit_buf.cursor_to_end();
    }

    pub fn move_cursor_left(&mut self)
        requires
            old(self).wf(),
        ensures
            final(self).wf(),
            only_buffer_changed(*old(self), *final(self)),
            crate::editor::buf_move_left(old(self).buf(), final(self).buf()),
    {
        self.edit_buf.move_cursor_left();
    }

    pub fn move_cursor_right(&mut self)
        requires
            old(self).wf(),
        ensures
            final(self).wf(),
            only_buffer_changed(*old(self), *final(self)),
            crate::editor::buf_move_right(old(self).buf(), final(self).buf()),
    {
        self.edit_buf.move_cursor_right();
    }

    pub fn move_word_left(&mut self)
        requires
            old(self).wf(),
        ensures
            final(self).wf(),
            only_buffer_changed(*old(self), *final(self)),
            crate::editor::buf_word_left(old(self).buf(), final(self).buf()),
    {
        self.edit_buf.move_word_left();
    }

    pub fn move_word_right(&mut self)
        requires
            old(self).wf(),
        ensures
            final(self).wf(),
            only_buffer_changed(*old(self), *final(self)),
            crate::editor::buf_word_right(old(self).buf(), final(self).buf()),
    {
        self.edit_buf.move_word_right();
    }

    /// Where a leftward word motion from the cursor would land.
    pub fn word_left_index(&self) -> (r: usize)
        requires
            self.wf(),
        ensures
            r == crate::editor::word_left_from(self.buf().text(), self.buf().cursor()),
    {
        self.edit_buf.word_left_index()
    }

    /// Where a rightward word motion from the cursor would land.
    pub fn word_right_index(&self) -> (r: usize)
        requires
            self.wf(),
        ensures
            r == crate::editor::word_right_from(self.buf().text(), self.buf().cursor()),
    {
        self.edit_buf.word_right_index()
    }

    pub fn insert_char(&mut self, ch: char)
        requires
            old(self).wf(),
        ensures
            final(self).wf(),
            only_buffer_changed(*old(self), *final(self)),
            crate::editor::buf_insert(old(self).buf(), final(self).buf(), ch),
    {
        self.edit_buf.insert_char(ch);
    }

    pub fn delete_prev_char(&mut self)
        requires
            old(self).wf(),
        ensures
            final(self).wf(),
            only_buffer_changed(*old(self), *final(self)),
            crate::editor::buf_delete_prev(old(self).buf(), final(self).buf()),
    {
        self.edit_buf.delete_prev_char();
    }

    pub fn delete_char(&mut self)
        requires
            old(self).wf(),
        ensures
            final(self).wf(),
            only_buffer_changed(*old(self), *final(self)),
            crate::editor::buf_delete_at(old(self).buf(), final(self).buf()),
    {
        self.edit_buf.delete_char();
    }

    pub fn kill_to_start(&mut self)
        requires
            old(self).wf(),
        ensures
            final(self).wf(),
            only_buffer_changed(*old(self), *final(self)),
            crate::editor::buf_kill_to_start(old(self).buf(), final(self).buf()),
    {
        self.edit_buf.kill_to_start();
    }

    pub fn kill_to_end(&mut self)
        requires
            old(self).wf(),
        ensures
            final(self).wf(),
            only_buffer_changed(*old(self), *final(self)),
            crate::editor::buf_kill_to_end(old(self).buf(), final(self).buf()),
    {
        self.edit_buf.kill_to_end();
    }

    pub fn kill_prev_word(&mut self)
        requires
            old(self).wf(),
        ensures
            final(self).wf(),
            only_buffer_changed(*old(self), *final(self)),
            crate::editor::buf_kill_prev_word(old(self).buf(), final(self).buf()),
    {
        self.edit_buf.kill_prev_word();
    }

    pub fn kill_word_forward(&mut self)
        requires
            old(self).wf(),
        ensures
            final(self).wf(),
            only_buffer_changed(*old(self), *final(self)),
            crate::editor::buf_kill_word_forward(old(self).buf(), final(self).buf()),
    {
        self.edit_buf.kill_word_forward();
    }

    /// Yanks the kill slot at the cursor; when the result would not even fit
    /// the address space, nothing happens.
    pub fn yank_kill_buffer(&mut self)
        requires
            old(self).wf(),
        ensures
            final(self).wf(),
            only_buffer_changed(*old(self), *final(self)),
            crate::editor::buf_yank_guarded(old(self).buf(), final(self).buf()),
    {
        let tl = self.edit_buf.buffer_len();
        let kl = self.edit_buf.kill_len();
        if kl <= usize::MAX - tl {
            self.edit_buf.yank();
        }
    }

    /// One control combo, tried first: line and word motions, deletes, kills,
    /// yank, cancel, and the alternate confirms. `None` means the combo is
    /// not a control binding.
    pub fn handle_ctrl_input(&mut self, flow: FlowKind, step: FlowStep, code: Key, now: u64) -> (r:
        Option<Action>)
        requires
            old(self).wf(),
        ensures
            final(self).wf(),
            ctrl_input_rel(*old(self), *final(self), flow, step, code, r, now),
    {
        match code {
            Key::Char(c) => {
                if c == 'a' {
                    self.cursor_to_start();
                    Some(Action::Nothing)
                } else if c == 'e' {
                    self.cursor_to_end();
                    Some(Action::Nothing)
                } else if c == 'b' {
                    self.move_cursor_left();
                    Some(Action::Nothing)
                } else if c == 'f' {
                    self.move_cursor_right();
                    Some(Action::Nothing)
                } else if c == 'd' {
                    self.delete_char();
                    Some(Action::Nothing)
                } else if c == 'h' {
                    self.delete_prev_char();
                    Some(Action::Nothing)
                } else if c == 'k' {
                    self.kill_to_end();
                    Some(Action::Nothing)
                } else if c == 'u' {
                    self.kill_to_start();
                    Some(Action::Nothing)
                } else if c == 'w' {
                    self.kill_prev_word();
                    Some(Action::Nothing)
                } else if c == 'y' {
                    self.yank_kill_buffer();
                    Some(Action::Nothing)
                } else if c == 'g' {
                    self.cancel_flow();
                    Some(Action::Nothing)
                } else if c == 'j' || c == 'm' {
                    Some(self.submit_flow_step(flow, step, now))
                } else {
                    None
                }
            },
            Key::Home => {
                self.cursor_to_start();
                Some(Action::Nothing)
            },
            Key::End => {
                self.cursor_to_end();
                Some(Action::Nothing)
            },
            Key::Enter => Some(self.submit_flow_step(flow, step, now)),
            Key::Backspace => {
                self.kill_prev_word();
                Some(Action::Nothing)
            },
            Key::Left => {
                self.move_word_left();
                Some(Action::Nothing)
            },
            Key::Right => {
                self.move_word_right();
                Some(Action::Nothing)
            },
            Key::Delete => {
                self.kill_word_forward();
                Some(Action::Nothing)
            },
            _ => None,
        }
    }

    /// One alt combo, tried after control and super: word motions and word
    /// kills. `false` means the combo is not an alt binding.
    pub fn handle_alt_input(&mut self, code: Key) -> (handled: bool)
        requires
            old(self).wf(),
        ensures
            final(self).wf(),
            alt_input_rel(*old(self), *final(self), code, handled),
    {
        match code {
            Key::Char(c) => {
                if c == 'b' {
                    self.move_word_left();
                    true
                } else if c == 'f' {
                    self.move_word_right();
                    true
                } else if c == 'd' {
                    self.kill_word_forward();
                    true
                } else {
                    false
                }
            },
            Key::Left => {
                self.move_word_left();
                true
            },
            Key::Right => {
                self.move_word_right();
                true
            },
            Key::Delete => {
                self.kill_word_forward();
                true
            },
            Key::Backspace => {
                self.kill_prev_word();
                true
            },
            _ => false,
        }
    }

    /// The single super/meta combo, tried between control and alt: kill to
    /// the start of the line.
    pub fn handle_super_input(&mut self, code: Key) -> (handled: bool)
        requires
            old(self).wf(),
        ensures
            final(self).wf(),
            super_input_rel(*old(self), *final(self), code, handled),
    {
        match code {
            Key::Backspace => {
                self.kill_to_start();
                true
            },
            _ => false,
        }
    }

    /// Dispatches a key in `Input` mode: control combos first, then
    /// super/meta, then alt, then the plain bindings; a character is inserted
    /// only with no modifier beyond shift, and unrecognised combos do
    /// nothing.
    pub fn handle_input_key(&mut self, flow: FlowKind, step: FlowStep, key: KeyInput, now: u64) -> (r:
        Action)
        requires
            old(self).wf(),
        ensures
            final(self).wf(),
            input_key_rel(*old(self), *final(self), flow, step, key, r, now),
    {
        if key.ctrl {
            let handled = self.handle_ctrl_input(flow, step, key.key, now);
            match handled {
                Some(a) => {
                    return a;
                },
                None => {},
            }
        }
        if key.sup {
            if self.handle_super_input(key.key) {
                return Action::Nothing;
            }
        }
        if key.alt {
            if self.handle_alt_input(key.key) {
                return Action::Nothing;
            }
        }
        match key.key {
            Key::Esc => {
                self.cancel_flow();
                Action::Nothing
            },
            Key::Enter => self.submit_flow_step(flow, step, now),
            Key::Backspace => {
                self.delete_prev_char();
                Action::Nothing
            },
            Key::Delete => {
                self.delete_char();
                Action::Nothing
            },
            Key::Left => {
                self.move_cursor_left();
                Action::Nothing
            },
            Key::Right => {
                self.move_cursor_right();
                Action::Nothing
            },
            Key::Home => {
                self.cursor_to_start();
                Action::Nothing
            },
            Key::End => {
                self.cursor_to_end();
                Action::Nothing
            },
            Key::Char(c) => {
                if !key.ctrl && !key.alt && !key.sup && !key.more {
                    self.insert_char(c);
                }
                Action::Nothing
            },
            _ => Action::Nothing,
        }
    }

    /// Dispatches a key in `Normal` mode: selection motion, refresh, the
    /// flow starters, quitting, and launching by hotkey or enter.
    pub fn handle_normal_key(&mut self, key: KeyInput, now: u64) -> (r: Action)
        requires
            old(self).wf(),
        ensures
            final(self).wf(),
            normal_key_rel(*old(self), *final(self), key, r, now),
    {
        if key.ctrl {
            match key.key {
                Key::Char(c) => {
                    if c == 'n' {
                        self.move_selection_down();
                        return Action::Nothing;
                    }
                    if c == 'p' {
                        self.move_selection_up();
                        return Action::Nothing;
                    }
                },
                _ => {},
            }
        }
        match key.key {
            Key::Esc => {
                self.quit_flag = true;
                Action::Nothing
            },
            Key::Char(c) => {
                if c == 'q' {
                    self.quit_flag = true;
                    Action::Nothing
                } else if c == 'r' {
                    Action::Refresh
                } else if c == 'd' {
                    self.request_remove(now);
                    Action::Nothing
                } else if c == 'a' {
                    self.start_add_flow(now);
                    Action::Nothing
                } else if c == 'e' {
                    self.start_edit_flow(now);
                    Action::Nothing
                } else if c == 'j' {
                    self.move_selection_down();
                    Action::Nothing
                } else if c == 'k' {
                    self.move_selection_up();
                    Action::Nothing
                } else if c >= '1' && c <= '9' {
                    let idx = ((c as u32) - ('1' as u32)) as usize;
                    if idx < self.entry_list.len() {
                        self.selected_ix = idx;
                        self.launch_index(idx, now)
                    } else {
                        Action::Nothing
                    }
                } else {
                    Action::Nothing
                }
            },
            Key::Enter => {
                let idx = self.selected_ix;
                self.launch_index(idx, now)
            },
            Key::Up => {
                self.move_selection_up();
                Action::Nothing
            },
            Key::Down => {
                self.move_selection_down();
                Action::Nothing
            },
            _ => Action::Nothing,
        }
    }

    /// Dispatches any key: the interrupt combo quits from every mode; every
    /// other key goes to the handler for the current mode.
    pub fn handle_key(&mut self, key: KeyInput, now: u64) -> (r: Action)
        requires
            old(self).wf(),
        ensures
            final(self).wf(),
            key.ctrl && key.key == Key::Char('c') ==> quit_set(*old(self), *final(self))
                && r is Nothing,
            !(key.ctrl && key.key == Key::Char('c')) ==> {
                &&& old(self).mode_s() == Mode::Normal ==> normal_key_rel(
                    *old(self),
                    *final(self),
                    key,
                    r,
                    now,
                )
                &&& (old(self).mode_s() matches Mode::Input { flow: _, step: _ })
                    ==> input_key_rel(
                    *old(self),
                    *final(self),
                    mode_flow(old(self).mode_s()),
                    mode_step(old(self).mode_s()),
                    key,
                    r,
                    now,
                )
                &&& (old(self).mode_s() matches Mode::ConfirmDelete { index: _ })
                    ==> confirm_key_rel(
                    *old(self),
                    *final(self),
                    mode_index(old(self).mode_s()),
                    key,
                    r,
                    now,
                )
            },
    {
        if key.ctrl && matches!(key.key, Key::Char('c')) {
            self.quit_flag = true;
            return Action::Nothing;
        }
        match self.mode_cur {
            Mode::Normal => self.handle_normal_key(key, now),
            Mode::Input { flow, step } => self.handle_input_key(flow, step, key, now),
            Mode::ConfirmDelete { index } => self.handle_confirm_delete(index, key, now),
        }
    }
}

/// The step an `Input` mode sits at; meaningful only for `Input` modes.
pub open spec fn mode_step(m: Mode) -> FlowStep {
    match m {
        Mode::Input { flow, step } => step,
        _ => FlowStep::Directory,
    }
}

/// The index a `ConfirmDelete` mode asks about; meaningful only there.
pub open spec fn mode_index(m: Mode) -> usize {
    match m {
        Mode::ConfirmDelete { index } => index,
        _ => 0,
    }
}

/// Only the quit flag moved, and it is set.
pub open spec fn quit_set(a: App, b: App) -> bool {
    &&& b.cfg() == a.cfg()
    &&& b.key_seq() == a.key_seq()
    &&& b.entry_seq() == a.entry_seq()
    &&& b.sel() == a.sel()
    &&& b.mode_s() == a.mode_s()
    &&& b.buf() == a.buf()
    &&& b.pending_s() == a.pending_s()
    &&& b.editing_s() == a.editing_s()
    &&& b.status_s() == a.status_s()
    &&& b.quit_s()
    &&& b.home_s() == a.home_s()
    &&& b.env_s() == a.env_s()
    &&& b.removed_s() == a.removed_s()
}

/// A combo was handled by an editor operation alone: nothing to do outside.
pub open spec fn handled_edit(a: App, b: App, r: Option<Action>) -> bool {
    r == Option::Some(Action::Nothing) && only_buffer_changed(a, b)
}

/// What submitting does, by step.
pub open spec fn submit_rel(a: App, b: App, flow: FlowKind, step: FlowStep, r: Action, now: u64) -> bool {
    match step {
        FlowStep::Directory => directory_submitted(a, b, r, now),
        FlowStep::Editor => editor_submitted(a, b, flow, r, now),
    }
}

/// The control bindings, key by key: what each does, and which keys are no
/// control binding at all (`r` is then `None` and nothing moved).
pub open spec fn ctrl_input_rel(
    a: App,
    b: App,
    flow: FlowKind,
    step: FlowStep,
    code: Key,
    r: Option<Action>,
    now: u64,
) -> bool {
    match code {
        Key::Char(c) => {
            if c == 'a' {
                handled_edit(a, b, r) && crate::editor::buf_home(a.buf(), b.buf())
            } else if c == 'e' {
                handled_edit(a, b, r) && crate::editor::buf_end(a.buf(), b.buf())
            } else if c == 'b' {
                handled_edit(a, b, r) && crate::editor::buf_move_left(a.buf(), b.buf())
            } else if c == 'f' {
                handled_edit(a, b, r) && crate::editor::buf_move_right(a.buf(), b.buf())
            } else if c == 'd' {
                handled_edit(a, b, r) && crate::editor::buf_delete_at(a.buf(), b.buf())
            } else if c == 'h' {
                handled_edit(a, b, r) && crate::editor::buf_delete_prev(a.buf(), b.buf())
            } else if c == 'k' {
                handled_edit(a, b, r) && crate::editor::buf_kill_to_end(a.buf(), b.buf())
            } else if c == 'u' {
                handled_edit(a, b, r) && crate::editor::buf_kill_to_start(a.buf(), b.buf())
            } else if c == 'w' {
                handled_edit(a, b, r) && crate::editor::buf_kill_prev_word(a.buf(), b.buf())
            } else if c == 'y' {
                handled_edit(a, b, r) && crate::editor::buf_yank_guarded(a.buf(), b.buf())
            } else if c == 'g' {
                r == Option::Some(Action::Nothing) && flow_cancelled(a, b)
            } else if c == 'j' || c == 'm' {
                r is Some && submit_rel(a, b, flow, step, r->0, now)
            } else {
                r is None && b == a
            }
        },
        Key::Home => handled_edit(a, b, r) && crate::editor::buf_home(a.buf(), b.buf()),
        Key::End => handled_edit(a, b, r) && crate::editor::buf_end(a.buf(), b.buf()),
        Key::Enter => r is Some && submit_rel(a, b, flow, step, r->0, now),
        Key::Backspace => handled_edit(a, b, r) && crate::editor::buf_kill_prev_word(
            a.buf(),
            b.buf(),
        ),
        Key::Left => handled_edit(a, b, r) && crate::editor::buf_word_left(a.buf(), b.buf()),
        Key::Right => handled_edit(a, b, r) && crate::editor::buf_word_right(a.buf(), b.buf()),
        Key::Delete => handled_edit(a, b, r) && crate::editor::buf_kill_word_forward(
            a.buf(),
            b.buf(),
        ),
        _ => r is None && b == a,
    }
}

/// Whether a key is a control binding.
pub open spec fn ctrl_handles(code: Key) -> bool {
    match code {
        Key::Char(c) => c == 'a' || c == 'e' || c == 'b' || c == 'f' || c == 'd' || c == 'h' || c
            == 'k' || c == 'u' || c == 'w' || c == 'y' || c == 'g' || c == 'j' || c == 'm',
        Key::Home | Key::End | Key::Enter | Key::Backspace | Key::Left | Key::Right
            | Key::Delete => true,
        _ => false,
    }
}

/// The alt bindings, key by key.
pub open spec fn alt_input_rel(a: App, b: App, code: Key, handled: bool) -> bool {
    match code {
        Key::Char(c) => {
            if c == 'b' {
                handled && only_buffer_changed(a, b) && crate::editor::buf_word_left(
                    a.buf(),
                    b.buf(),
                )
            } else if c == 'f' {
                handled && only_buffer_changed(a, b) && crate::editor::buf_word_right(
                    a.buf(),
                    b.buf(),
                )
            } else if c == 'd' {
                handled && only_buffer_changed(a, b) && crate::editor::buf_kill_word_forward(
                    a.buf(),
                    b.buf(),
                )
            } else {
                !handled && b == a
            }
        },
        Key::Left => handled && only_buffer_changed(a, b) && crate::editor::buf_word_left(
            a.buf(),
            b.buf(),
        ),
        Key::Right => handled && only_buffer_changed(a, b) && crate::editor::buf_word_right(
            a.buf(),
            b.buf(),
        ),
        Key::Delete => handled && only_buffer_changed(a, b) && crate::editor::buf_kill_word_forward(
            a.buf(),
            b.buf(),
        ),
        Key::Backspace => handled && only_buffer_changed(a, b)
            && crate::editor::buf_kill_prev_word(a.buf(), b.buf()),
        _ => !handled && b == a,
    }
}

/// Whether a key is an alt binding.
pub open spec fn alt_handles(code: Key) -> bool {
    match code {
        Key::Char(c) => c == 'b' || c == 'f' || c == 'd',
        Key::Left | Key::Right | Key::Delete | Key::Backspace => true,
        _ => false,
    }
}

/// The super/meta bindings, key by key.
pub open spec fn super_input_rel(a: App, b: App, code: Key, handled: bool) -> bool {
    match code {
        Key::Backspace => handled && only_buffer_changed(a, b)
            && crate::editor::buf_kill_to_start(a.buf(), b.buf()),
        _ => !handled && b == a,
    }
}

/// Whether a key is a super/meta binding.
pub open spec fn super_handles(code: Key) -> bool {
    code == Key::Backspace
}

/// Key dispatch in `Input` mode: control combos first, then super/meta,
/// then alt, then the plain bindings; a character is inserted only with no
/// modifier beyond shift, and unrecognised combos do nothing.
pub open spec fn input_key_rel(
    a: App,
    b: App,
    flow: FlowKind,
    step: FlowStep,
    key: KeyInput,
    r: Action,
    now: u64,
) -> bool {
    if key.ctrl && ctrl_handles(key.key) {
        ctrl_input_rel(a, b, flow, step, key.key, Option::Some(r), now)
    } else if key.sup && super_handles(key.key) {
        r is Nothing && super_input_rel(a, b, key.key, true)
    } else if key.alt && alt_handles(key.key) {
        r is Nothing && alt_input_rel(a, b, key.key, true)
    } else {
        match key.key {
            Key::Esc => r is Nothing && flow_cancelled(a, b),
            Key::Enter => submit_rel(a, b, flow, step, r, now),
            Key::Backspace => r is Nothing && only_buffer_changed(a, b)
                && crate::editor::buf_delete_prev(a.buf(), b.buf()),
            Key::Delete => r is Nothing && only_buffer_changed(a, b)
                && crate::editor::buf_delete_at(a.buf(), b.buf()),
            Key::Left => r is Nothing && only_buffer_changed(a, b)
                && crate::editor::buf_move_left(a.buf(), b.buf()),
            Key::Right => r is Nothing && only_buffer_changed(a, b)
                && crate::editor::buf_move_right(a.buf(), b.buf()),
            Key::Home => r is Nothing && only_buffer_changed(a, b) && crate::editor::buf_home(
                a.buf(),
                b.buf(),
            ),
            Key::End => r is Nothing && only_buffer_changed(a, b) && crate::editor::buf_end(
                a.buf(),
                b.buf(),
            ),
            Key::Char(c) => r is Nothing && if key.plain() {
                only_buffer_changed(a, b) && crate::editor::buf_insert(a.buf(), b.buf(), c)
            } else {
                b == a
            },
            _ => r is Nothing && b == a,
        }
    }
}

/// The selection landed on `i` and the entry there was planned for launch:
/// either a plan goes out to be spawned, or the failure is reported.
pub open spec fn launched_at(a: App, b: App, i: int, r: Action, now: u64) -> bool {
    exists|res: Result<LaunchPlan, LaunchError>|
        {
            &&& #[trigger] plan_outcome(
                opt_view(a.entry_seq()[i].config.editor),
                opt_view(a.env_s()),
                a.entry_seq()[i].config.path@,
                res,
            )
            &&& b.sel() == i
            &&& match res {
                Result::Ok(plan) => r == (Action::Spawn { index: i as usize, plan })
                    && b.status_s() == a.status_s(),
                Result::Err(e) => r is Nothing && status_is(
                    b,
                    StatusKind::Error,
                    error_message(e),
                    now,
                ),
            }
            &&& b.cfg() == a.cfg()
            &&& b.key_seq() == a.key_seq()
            &&& b.entry_seq() == a.entry_seq()
            &&& b.mode_s() == a.mode_s()
            &&& b.buf() == a.buf()
            &&& b.pending_s() == a.pending_s()
            &&& b.editing_s() == a.editing_s()
            &&& b.quit_s() == a.quit_s()
            &&& b.home_s() == a.home_s()
            &&& b.env_s() == a.env_s()
            &&& b.removed_s() == a.removed_s()
        }
}

/// Key dispatch in `Normal` mode, key by key.
pub open spec fn normal_key_rel(a: App, b: App, key: KeyInput, r: Action, now: u64) -> bool {
    if key.ctrl && key.key == Key::Char('n') {
        r is Nothing && selection_down(a, b)
    } else if key.ctrl && key.key == Key::Char('p') {
        r is Nothing && selection_up(a, b)
    } else {
        match key.key {
            Key::Esc => r is Nothing && quit_set(a, b),
            Key::Enter => {
                if a.sel() < a.entry_seq().len() {
                    launched_at(a, b, a.sel(), r, now)
                } else {
                    r is Nothing && b == a
                }
            },
            Key::Up => r is Nothing && selection_up(a, b),
            Key::Down => r is Nothing && selection_down(a, b),
            Key::Char(c) => {
                if c == 'q' {
                    r is Nothing && quit_set(a, b)
                } else if c == 'r' {
                    r is Refresh && b == a
                } else if c == 'd' {
                    r is Nothing && if a.entry_seq().len() == 0 {
                        b == a
                    } else {
                        remove_requested(a, b, now)
                    }
                } else if c == 'a' {
                    r is Nothing && add_flow_started(a, b, now)
                } else if c == 'e' {
                    r is Nothing && if a.entry_seq().len() == 0 {
                        b == a
                    } else {
                        edit_flow_started(a, b, now)
                    }
                } else if c == 'j' {
                    r is Nothing && selection_down(a, b)
                } else if c == 'k' {
                    r is Nothing && selection_up(a, b)
                } else if '1' <= c && c <= '9' {
                    let i = (c as int) - ('1' as int);
                    if i < a.entry_seq().len() {
                        launched_at(a, b, i, r, now)
                    } else {
                        r is Nothing && b == a
                    }
                } else {
                    r is Nothing && b == a
                }
            },
            _ => r is Nothing && b == a,
        }
    }
}

/// Key dispatch under a delete confirmation: escape backs out, enter
/// removes, anything else is ignored.
pub open spec fn confirm_key_rel(a: App, b: App, index: usize, key: KeyInput, r: Action, now: u64) -> bool {
    if key.key == Key::Esc {
        only_mode_status_changed(a, b) && b.mode_s() == Mode::Normal && b.status_s() is None
            && r is Nothing
    } else if key.key == Key::Enter {
        remove_staged(a, b, index, r, now)
    } else {
        b == a && r is Nothing
    }
}

/// Law: submitting an add flow whose captured directory's canonical key
/// matches an existing entry replaces that entry — the configured list does
/// not grow.
pub proof fn lemma_add_replaces_matching_key(a: App, b: App, r: Action, now: u64)
    requires
        a.pending_s() is Some,
        exists|j: int|
            0 <= j < a.key_seq().len() && (#[trigger] a.key_seq()[j])@ == a.pending_s()->0.key@,
        editor_submitted(a, b, FlowKind::Add, r, now),
    ensures
        b.cfg().entries@.len() == a.cfg().entries@.len(),
        r is PersistFlow,
{
}

/// Law: persisting the removal of an entry from a list that had `n > 1`
/// entries leaves the selection at `min(selected, n - 2)`: the removal was
/// staged (the configuration holds `n - 1` entries), and the committed
/// selection is the old one clamped into the shrunk list.
pub proof fn lemma_remove_clamps_selection(a: App, b: App, now: u64, n: int)
    requires
        remove_committed(a, b, now),
        a.cfg().entries@.len() == n - 1,
        n > 1,
        0 <= a.sel() < n,
    ensures
        b.sel() == if a.sel() <= n - 2 {
            a.sel()
        } else {
            n - 2
        },
{
}

/// The first position whose key text matches, if any.
fn find_key(keys: &Vec<String>, key: &String) -> (r: Option<usize>)
    ensures
        match r {
            Option::Some(j) => j < keys@.len() && keys@[j as int]@ == key@ && forall|k: int|
                0 <= k < j ==> keys@[k]@ != key@,
            Option::None => forall|k: int| 0 <= k < keys@.len() ==> keys@[k]@ != key@,
        },
{
    let mut j: usize = 0;
    while j < keys.len()
        invariant
            0 <= j <= keys@.len(),
            forall|k: int| 0 <= k < j ==> keys@[k]@ != key@,
        decreases keys@.len() - j,
    {
        if keys[j].eq(key) {
            return Some(j);
        }
        j = j + 1;
    }
    None
}

/// Fresh, unprobed entries for a configured list.
fn entries_from(list: &Vec<EntryConfig>) -> (r: Vec<Entry>)
    ensures
        r@.len() == list@.len(),
        forall|i: int|
            0 <= i < list@.len() ==> ec_eqv(#[trigger] r@[i].config, list@[i])
                && r@[i].branch is Unknown,
{
    let mut r: Vec<Entry> = Vec::new();
    let mut i: usize = 0;
    while i < list.len()
        invariant
            0 <= i <= list@.len(),
            r@.len() == i,
            forall|j: int|
                0 <= j < i ==> ec_eqv(#[trigger] r@[j].config, list@[j]) && r@[j].branch is Unknown,
        decreases list.len() - i,
    {
        r.push(Entry::from_config(list[i].clone()));
        i = i + 1;
    }
    r
}

/// A status message with exactly this kind, text and creation time.
pub open spec fn status_is(b: App, kind: StatusKind, text: Seq<char>, now: u64) -> bool {
    match b.status_s() {
        Option::Some(st) => st.kind == kind && st.text@ == text && st.created_at == now,
        Option::None => false,
    }
}

/// Everything but the status message is as before.
pub open spec fn only_status_changed(a: App, b: App) -> bool {
    &&& b.cfg() == a.cfg()
    &&& b.key_seq() == a.key_seq()
    &&& b.entry_seq() == a.entry_seq()
    &&& b.sel() == a.sel()
    &&& b.mode_s() == a.mode_s()
    &&& b.buf() == a.buf()
    &&& b.pending_s() == a.pending_s()
    &&& b.editing_s() == a.editing_s()
    &&& b.quit_s() == a.quit_s()
    &&& b.home_s() == a.home_s()
    &&& b.env_s() == a.env_s()
    &&& b.removed_s() == a.removed_s()
}

/// Everything but the selection is as before.
pub open spec fn only_selection_changed(a: App, b: App) -> bool {
    &&& b.cfg() == a.cfg()
    &&& b.key_seq() == a.key_seq()
    &&& b.entry_seq() == a.entry_seq()
    &&& b.mode_s() == a.mode_s()
    &&& b.buf() == a.buf()
    &&& b.pending_s() == a.pending_s()
    &&& b.editing_s() == a.editing_s()
    &&& b.status_s() == a.status_s()
    &&& b.quit_s() == a.quit_s()
    &&& b.home_s() == a.home_s()
    &&& b.env_s() == a.env_s()
    &&& b.removed_s() == a.removed_s()
}

/// Everything but the entry projection is as before.
pub open spec fn only_entries_changed(a: App, b: App) -> bool {
    &&& b.cfg() == a.cfg()
    &&& b.key_seq() == a.key_seq()
    &&& b.sel() == a.sel()
    &&& b.mode_s() == a.mode_s()
    &&& b.buf() == a.buf()
    &&& b.pending_s() == a.pending_s()
    &&& b.editing_s() == a.editing_s()
    &&& b.status_s() == a.status_s()
    &&& b.quit_s() == a.quit_s()
    &&& b.home_s() == a.home_s()
    &&& b.env_s() == a.env_s()
    &&& b.removed_s() == a.removed_s()
}

/// Everything but the line editor is as before.
pub open spec fn only_buffer_changed(a: App, b: App) -> bool {
    &&& b.cfg() == a.cfg()
    &&& b.key_seq() == a.key_seq()
    &&& b.entry_seq() == a.entry_seq()
    &&& b.sel() == a.sel()
    &&& b.mode_s() == a.mode_s()
    &&& b.pending_s() == a.pending_s()
    &&& b.editing_s() == a.editing_s()
    &&& b.status_s() == a.status_s()
    &&& b.quit_s() == a.quit_s()
    &&& b.home_s() == a.home_s()
    &&& b.env_s() == a.env_s()
    &&& b.removed_s() == a.removed_s()
}

/// Everything but the mode and the status message is as before.
pub open spec fn only_mode_status_changed(a: App, b: App) -> bool {
    &&& b.cfg() == a.cfg()
    &&& b.key_seq() == a.key_seq()
    &&& b.entry_seq() == a.entry_seq()
    &&& b.sel() == a.sel()
    &&& b.buf() == a.buf()
    &&& b.pending_s() == a.pending_s()
    &&& b.editing_s() == a.editing_s()
    &&& b.quit_s() == a.quit_s()
    &&& b.home_s() == a.home_s()
    &&& b.env_s() == a.env_s()
    &&& b.removed_s() == a.removed_s()
}

/// Everything but the status message and the staged-removal note is as
/// before.
pub open spec fn only_status_removed_changed(a: App, b: App) -> bool {
    &&& b.cfg() == a.cfg()
    &&& b.key_seq() == a.key_seq()
    &&& b.entry_seq() == a.entry_seq()
    &&& b.sel() == a.sel()
    &&& b.mode_s() == a.mode_s()
    &&& b.buf() == a.buf()
    &&& b.pending_s() == a.pending_s()
    &&& b.editing_s() == a.editing_s()
    &&& b.quit_s() == a.quit_s()
    &&& b.home_s() == a.home_s()
    &&& b.env_s() == a.env_s()
}

/// The entry projection was rebuilt from the configuration, every status
/// back to unprobed; nothing else moved.
pub open spec fn entries_synced(a: App, b: App) -> bool {
    &&& only_entries_changed(a, b)
    &&& b.entry_seq().len() == b.cfg().entries@.len()
    &&& forall|i: int|
        0 <= i < b.cfg().entries@.len() ==> ec_eqv(
            #[trigger] b.entry_seq()[i].config,
            b.cfg().entries@[i],
        ) && b.entry_seq()[i].branch is Unknown
}

/// The key an entry is shown and matched under: its canonical key, or its
/// path where no key is on file.
pub open spec fn entry_disp_key(a: App, i: int) -> Seq<char> {
    if i < a.key_seq().len() {
        a.key_seq()[i]@
    } else {
        a.entry_seq()[i].config.path@
    }
}

/// The flow a mode carries; meaningful only for `Input` modes.
pub open spec fn mode_flow(m: Mode) -> FlowKind {
    match m {
        Mode::Input { flow, step } => flow,
        _ => FlowKind::Add,
    }
}

/// The first of the three editor sources that is set: the entry's override,
/// the stored default, the environment fallback; else nothing.
pub open spec fn prefill_chain(
    entry_editor: Option<Seq<char>>,
    default_editor: Option<Seq<char>>,
    env_editor: Option<Seq<char>>,
) -> Seq<char> {
    match entry_editor {
        Option::Some(e) => e,
        Option::None => match default_editor {
            Option::Some(d) => d,
            Option::None => match env_editor {
                Option::Some(v) => v,
                Option::None => Seq::empty(),
            },
        },
    }
}

/// The prefill the editor step starts with, given which flow runs: an edit
/// flow consults the edited entry's override first.
pub open spec fn app_prefill(a: App, fl: FlowKind) -> Seq<char> {
    let entry_editor: Option<Seq<char>> = if fl is Edit && a.editing_s() is Some && (a.editing_s()->0
        as int) < a.cfg().entries@.len() {
        opt_view(a.cfg().entries@[a.editing_s()->0 as int].editor)
    } else {
        Option::None
    };
    prefill_chain(entry_editor, opt_view(a.cfg().default_editor), opt_view(a.env_s()))
}

/// The add flow began: directory step, everything cleared, the prompt up.
pub open spec fn add_flow_started(a: App, b: App, now: u64) -> bool {
    &&& b.cfg() == a.cfg()
    &&& b.key_seq() == a.key_seq()
    &&& b.entry_seq() == a.entry_seq()
    &&& b.sel() == a.sel()
    &&& b.mode_s() == (Mode::Input { flow: FlowKind::Add, step: FlowStep::Directory })
    &&& b.buf().text() == Seq::<char>::empty()
    &&& b.buf().cursor() == 0
    &&& b.buf().kill() == Seq::<char>::empty()
    &&& b.pending_s() is None
    &&& b.editing_s() is None
    &&& status_is(b, StatusKind::Info, "Enter directory path"@, now)
    &&& b.quit_s() == a.quit_s()
    &&& b.home_s() == a.home_s()
    &&& b.env_s() == a.env_s()
    &&& b.removed_s() == a.removed_s()
}

/// The edit flow began on the selected entry: its path in the buffer with
/// the cursor at the end, its position and directory captured.
pub open spec fn edit_flow_started(a: App, b: App, now: u64) -> bool {
    let i = a.sel();
    &&& b.cfg() == a.cfg()
    &&& b.key_seq() == a.key_seq()
    &&& b.entry_seq() == a.entry_seq()
    &&& b.sel() == a.sel()
    &&& b.mode_s() == (Mode::Input { flow: FlowKind::Edit, step: FlowStep::Directory })
    &&& b.buf().text() == a.entry_seq()[i].config.path@
    &&& b.buf().cursor() == a.entry_seq()[i].config.path@.len()
    &&& b.buf().kill() == Seq::<char>::empty()
    &&& (b.pending_s() matches Some(p) && p.path@ == a.entry_seq()[i].config.path@ && p.key@
        == entry_disp_key(a, i))
    &&& b.editing_s() == Some(a.sel() as usize)
    &&& status_is(b, StatusKind::Info, "Edit directory path and press enter"@, now)
    &&& b.quit_s() == a.quit_s()
    &&& b.home_s() == a.home_s()
    &&& b.env_s() == a.env_s()
    &&& b.removed_s() == a.removed_s()
}

/// Confirmation for removing the selected entry was requested.
pub open spec fn remove_requested(a: App, b: App, now: u64) -> bool {
    let i = a.sel();
    &&& only_mode_status_changed(a, b)
    &&& b.mode_s() == (Mode::ConfirmDelete { index: a.sel() as usize })
    &&& status_is(
        b,
        StatusKind::Info,
        "Press Enter to remove "@ + display_path_spec(
            a.entry_seq()[i].config.path@,
            entry_disp_key(a, i),
            opt_view(a.home_s()),
        ) + " or Esc to cancel"@,
        now,
    )
}

/// The flow was abandoned: back to `Normal`, buffer and captured state
/// discarded, the status message untouched.
pub open spec fn flow_cancelled(a: App, b: App) -> bool {
    &&& b.cfg() == a.cfg()
    &&& b.key_seq() == a.key_seq()
    &&& b.entry_seq() == a.entry_seq()
    &&& b.sel() == a.sel()
    &&& b.mode_s() == Mode::Normal
    &&& b.buf().text() == Seq::<char>::empty()
    &&& b.buf().cursor() == 0
    &&& b.buf().kill() == Seq::<char>::empty()
    &&& b.pending_s() is None
    &&& b.editing_s() is None
    &&& b.status_s() == a.status_s()
    &&& b.quit_s() == a.quit_s()
    &&& b.home_s() == a.home_s()
    &&& b.env_s() == a.env_s()
    &&& b.removed_s() == a.removed_s()
}

/// What submitting the directory step does: a blank buffer is refused with
/// an error in place; anything else leaves the session as it is and sends
/// the trimmed, expanded path out to be probed.
pub open spec fn directory_submitted(a: App, b: App, r: Action, now: u64) -> bool {
    let t = trim_spec(a.buf().text());
    if t.len() == 0 {
        &&& only_status_changed(a, b)
        &&& status_is(b, StatusKind::Error, "directory path cannot be empty"@, now)
        &&& r is Nothing
    } else {
        &&& b == a
        &&& (r matches Action::ProbeDirectory { path } && path@ == expand_path_spec(
            t,
            opt_view(a.home_s()),
        ))
    }
}

/// The probed directory was accepted: the flow sits at the editor step with
/// the prevailing command prefilled, the directory and its key captured.
pub open spec fn directory_accepted(
    a: App,
    b: App,
    fl: FlowKind,
    path: Seq<char>,
    key: Seq<char>,
    now: u64,
) -> bool {
    &&& b.cfg() == a.cfg()
    &&& b.key_seq() == a.key_seq()
    &&& b.entry_seq() == a.entry_seq()
    &&& b.sel() == a.sel()
    &&& b.mode_s() == (Mode::Input { flow: fl, step: FlowStep::Editor })
    &&& b.buf().text() == app_prefill(a, fl)
    &&& b.buf().cursor() == app_prefill(a, fl).len()
    &&& b.buf().kill() == a.buf().kill()
    &&& (b.pending_s() matches Some(p) && p.path@ == path && p.key@ == key)
    &&& b.editing_s() == a.editing_s()
    &&& status_is(
        b,
        StatusKind::Info,
        if fl is Add {
            "Set editor command (enter to accept current value)"@
        } else {
            "Edit editor command (enter to accept current value)"@
        },
        now,
    )
    &&& b.quit_s() == a.quit_s()
    &&& b.home_s() == a.home_s()
    &&& b.env_s() == a.env_s()
    &&& b.removed_s() == a.removed_s()
}

/// An entry holds exactly this path and override.
pub open spec fn entry_fields(e: EntryConfig, path: Seq<char>, ed: Option<Seq<char>>) -> bool {
    e.path@ == path && opt_view(e.editor) == ed
}

/// The staged entry list after an add: the first entry whose key matches is
/// replaced — never duplicated — and with no match the entry is appended,
/// its key alongside.
pub open spec fn staged_upsert(a: App, b: App, path: Seq<char>, key: Seq<char>, ed: Option<Seq<char>>) -> bool {
    if exists|j: int| 0 <= j < a.key_seq().len() && (#[trigger] a.key_seq()[j])@ == key {
        exists|j: int|
            {
                &&& 0 <= j < a.key_seq().len()
                &&& (#[trigger] a.key_seq()[j])@ == key
                &&& (forall|k: int| 0 <= k < j ==> a.key_seq()[k]@ != key)
                &&& b.cfg().entries@.len() == a.cfg().entries@.len()
                &&& entry_fields(b.cfg().entries@[j], path, ed)
                &&& (forall|k: int|
                    0 <= k < a.cfg().entries@.len() && k != j ==> b.cfg().entries@[k]
                        == a.cfg().entries@[k])
                &&& b.key_seq().len() == a.key_seq().len()
                &&& b.key_seq()[j]@ == key
                &&& (forall|k: int|
                    0 <= k < a.key_seq().len() && k != j ==> b.key_seq()[k] == a.key_seq()[k])
            }
    } else {
        &&& b.cfg().entries@.len() == a.cfg().entries@.len() + 1
        &&& entry_fields(b.cfg().entries@.last(), path, ed)
        &&& (forall|k: int|
            0 <= k < a.cfg().entries@.len() ==> #[trigger] b.cfg().entries@[k]
                == a.cfg().entries@[k])
        &&& b.key_seq().len() == a.key_seq().len() + 1
        &&& b.key_seq().last()@ == key
        &&& (forall|k: int| 0 <= k < a.key_seq().len() ==> #[trigger] b.key_seq()[k] == a.key_seq()[k])
    }
}

/// The staged entry list after an edit: the entry at the edited position is
/// replaced, its key alongside.
pub open spec fn staged_replace(a: App, b: App, idx: int, path: Seq<char>, key: Seq<char>, ed: Option<Seq<char>>) -> bool {
    &&& b.cfg().entries@.len() == a.cfg().entries@.len()
    &&& entry_fields(b.cfg().entries@[idx], path, ed)
    &&& (forall|k: int|
        0 <= k < a.cfg().entries@.len() && k != idx ==> b.cfg().entries@[k] == a.cfg().entries@[k])
    &&& b.key_seq().len() == a.key_seq().len()
    &&& b.key_seq()[idx]@ == key
    &&& (forall|k: int| 0 <= k < a.key_seq().len() && k != idx ==> b.key_seq()[k] == a.key_seq()[k])
}

/// Beyond the configuration and the keys, only the default editor may have
/// moved; the rest of the session is as before.
pub open spec fn same_but_config(a: App, b: App) -> bool {
    &&& b.entry_seq() == a.entry_seq()
    &&& b.sel() == a.sel()
    &&& b.mode_s() == a.mode_s()
    &&& b.buf() == a.buf()
    &&& b.pending_s() == a.pending_s()
    &&& b.editing_s() == a.editing_s()
    &&& b.quit_s() == a.quit_s()
    &&& b.home_s() == a.home_s()
    &&& b.env_s() == a.env_s()
    &&& b.removed_s() == a.removed_s()
}

/// The session-wide default editor after a submission whose trimmed buffer
/// was `t`: a non-blank command becomes the new default.
pub open spec fn default_after(a: App, t: Seq<char>) -> Option<Seq<char>> {
    if t.len() > 0 {
        Option::Some(t)
    } else {
        opt_view(a.cfg().default_editor)
    }
}

/// What submitting the editor step does: with no captured directory it is
/// refused; otherwise the trimmed buffer becomes the override — blank means
/// none — every non-blank command becomes the new default, and the entry is
/// staged, to be persisted next. An edit with no valid position is refused
/// in place — the default, deliberately, already updated.
pub open spec fn editor_submitted(a: App, b: App, fl: FlowKind, r: Action, now: u64) -> bool {
    if a.pending_s() is None {
        &&& only_status_changed(a, b)
        &&& status_is(b, StatusKind::Error, "no directory captured"@, now)
        &&& r is Nothing
    } else {
        let p = a.pending_s()->0;
        let t = trim_spec(a.buf().text());
        let ed: Option<Seq<char>> = if t.len() > 0 {
            Option::Some(t)
        } else {
            Option::None
        };
        &&& same_but_config(a, b)
        &&& opt_view(b.cfg().default_editor) == default_after(a, t)
        &&& match fl {
            FlowKind::Add => r is PersistFlow && staged_upsert(a, b, p.path@, p.key@, ed)
                && b.status_s() == a.status_s(),
            FlowKind::Edit => {
                if a.editing_s() is None {
                    &&& b.cfg().entries@ == a.cfg().entries@
                    &&& b.key_seq() == a.key_seq()
                    &&& status_is(b, StatusKind::Error, "no entry selected to edit"@, now)
                    &&& r is Nothing
                } else if a.editing_s()->0 as int >= a.cfg().entries@.len() {
                    &&& b.cfg().entries@ == a.cfg().entries@
                    &&& b.key_seq() == a.key_seq()
                    &&& status_is(b, StatusKind::Error, "invalid entry index"@, now)
                    &&& r is Nothing
                } else {
                    &&& r is PersistFlow
                    &&& staged_replace(a, b, a.editing_s()->0 as int, p.path@, p.key@, ed)
                    &&& b.status_s() == a.status_s()
                }
            },
        }
    }
}

/// A staged flow commit was persisted: the projection is rebuilt from the
/// configuration, the affected entry reselected by its canonical key, the
/// outcome reported, and the flow ended with the buffer emptied (the kill
/// slot kept).
pub open spec fn flow_committed(a: App, b: App, fl: FlowKind, now: u64) -> bool {
    let p = a.pending_s()->0;
    &&& b.cfg() == a.cfg()
    &&& b.key_seq() == a.key_seq()
    &&& b.entry_seq().len() == a.cfg().entries@.len()
    &&& (forall|i: int|
        0 <= i < b.cfg().entries@.len() ==> ec_eqv(
            #[trigger] b.entry_seq()[i].config,
            b.cfg().entries@[i],
        ) && b.entry_seq()[i].branch is Unknown)
    &&& reselected(a, b, p.key@)
    &&& status_is(
        b,
        StatusKind::Info,
        (if fl is Add {
            "Registered "@
        } else {
            "Updated "@
        }) + display_path_spec(p.path@, p.key@, opt_view(a.home_s())),
        now,
    )
    &&& b.mode_s() == Mode::Normal
    &&& b.buf().text() == Seq::<char>::empty()
    &&& b.buf().cursor() == 0
    &&& b.buf().kill() == a.buf().kill()
    &&& b.pending_s() is None
    &&& b.editing_s() is None
    &&& b.quit_s() == a.quit_s()
    &&& b.home_s() == a.home_s()
    &&& b.env_s() == a.env_s()
    &&& b.removed_s() == a.removed_s()
}

/// The selection after a commit: the first entry whose key matches; with no
/// match, the edited position when it is still valid, else the last entry,
/// else the top.
pub open spec fn reselected(a: App, b: App, key: Seq<char>) -> bool {
    if exists|j: int| 0 <= j < a.key_seq().len() && (#[trigger] a.key_seq()[j])@ == key {
        exists|j: int|
            {
                &&& 0 <= j < a.key_seq().len()
                &&& (#[trigger] a.key_seq()[j])@ == key
                &&& (forall|k: int| 0 <= k < j ==> a.key_seq()[k]@ != key)
                &&& b.sel() == j
            }
    } else {
        let n = a.cfg().entries@.len();
        b.sel() == if n == 0 {
            0int
        } else if a.editing_s() is Some && (a.editing_s()->0 as int) < n {
            a.editing_s()->0 as int
        } else {
            n - 1
        }
    }
}

/// What answering the delete confirmation with enter does: a stale index is
/// refused, back in `Normal` mode; a valid one removes the entry and its key
/// from the configuration, notes its display form, and sends the removal out
/// to be persisted.
pub open spec fn remove_staged(a: App, b: App, index: usize, r: Action, now: u64) -> bool {
    if index as int >= a.cfg().entries@.len() {
        &&& only_mode_status_changed(a, b)
        &&& b.mode_s() == Mode::Normal
        &&& status_is(b, StatusKind::Error, "invalid entry index"@, now)
        &&& r is Nothing
    } else {
        &&& b.cfg().entries@ == a.cfg().entries@.remove(index as int)
        &&& opt_str_eqv(b.cfg().default_editor, a.cfg().default_editor)
        &&& b.key_seq() == a.key_seq().remove(index as int)
        &&& b.entry_seq() == a.entry_seq()
        &&& b.sel() == a.sel()
        &&& b.mode_s() == Mode::Normal
        &&& b.buf() == a.buf()
        &&& b.pending_s() == a.pending_s()
        &&& b.editing_s() == a.editing_s()
        &&& b.status_s() == a.status_s()
        &&& b.quit_s() == a.quit_s()
        &&& b.home_s() == a.home_s()
        &&& b.env_s() == a.env_s()
        &&& (b.removed_s() matches Some(d) && d@ == display_path_spec(
            a.cfg().entries@[index as int].path@,
            a.key_seq()[index as int]@,
            opt_view(a.home_s()),
        ))
        &&& r is PersistRemove
    }
}

/// A staged removal was persisted: the projection is rebuilt, the selection
/// clamped — `min(selected, n-1)` over the shrunk list, `0` when it emptied —
/// and the removal reported.
pub open spec fn remove_committed(a: App, b: App, now: u64) -> bool {
    let n = a.cfg().entries@.len() as int;
    &&& b.cfg() == a.cfg()
    &&& b.key_seq() == a.key_seq()
    &&& b.entry_seq().len() == n
    &&& (forall|i: int|
        0 <= i < n ==> ec_eqv(#[trigger] b.entry_seq()[i].config, b.cfg().entries@[i])
            && b.entry_seq()[i].branch is Unknown)
    &&& b.sel() == if n == 0 {
        0int
    } else if a.sel() >= n {
        n - 1
    } else {
        a.sel()
    }
    &&& (match a.removed_s() {
        Option::Some(d) => status_is(b, StatusKind::Info, "Removed "@ + d@, now),
        Option::None => b.status_s() == a.status_s(),
    })
    &&& b.removed_s() is None
    &&& b.mode_s() == a.mode_s()
    &&& b.buf() == a.buf()
    &&& b.pending_s() == a.pending_s()
    &&& b.editing_s() == a.editing_s()
    &&& b.quit_s() == a.quit_s()
    &&& b.home_s() == a.home_s()
    &&& b.env_s() == a.env_s()
}

/// The selection moved one down, wrapping at the end.
pub open spec fn selection_down(a: App, b: App) -> bool {
    &&& only_selection_changed(a, b)
    &&& b.sel() == if a.entry_seq().len() == 0 {
        0int
    } else {
        (a.sel() + 1) % (a.entry_seq().len() as int)
    }
}

/// The selection moved one up, wrapping at the start.
pub open spec fn selection_up(a: App, b: App) -> bool {
    &&& only_selection_changed(a, b)
    &&& b.sel() == if a.entry_seq().len() == 0 {
        0int
    } else if a.sel() == 0 {
        a.entry_seq().len() - 1
    } else {
        a.sel() - 1
    }
}

} // verus!
