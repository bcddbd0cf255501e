//! The persistent configuration: the registered entries and the default
//! editor command, together with the choice between a primary and a legacy
//! copy of it. Reading and writing the file on disk is a collaborator's job;
//! the library only decides what the loaded values mean.

use vstd::prelude::*;

use crate::chars::{chars_to_string, trim_chars, trim_spec};

verus! {

/// One registered directory: its path as entered, and an optional editor
/// command override.
#[derive(Debug)]
pub struct EntryConfig {
    pub path: String,
    pub editor: Option<String>,
}

/// Whether two optional strings hold the same text.
pub open spec fn opt_str_eqv(a: Option<String>, b: Option<String>) -> bool {
    match (a, b) {
        (Option::None, Option::None) => true,
        (Option::Some(x), Option::Some(y)) => x@ == y@,
        _ => false,
    }
}

/// Whether two entries are the same configuration: same path text, same
/// override.
pub open spec fn ec_eqv(a: EntryConfig, b: EntryConfig) -> bool {
    a.path@ == b.path@ && opt_str_eqv(a.editor, b.editor)
}

/// Whether two entry lists are the same configuration, entry by entry.
pub open spec fn entries_eqv(a: Seq<EntryConfig>, b: Seq<EntryConfig>) -> bool {
    a.len() == b.len() && forall|i: int| 0 <= i < a.len() ==> ec_eqv(#[trigger] a[i], b[i])
}

/// A copy of an optional string.
pub fn clone_opt_string(o: &Option<String>) -> (r: Option<String>)
    ensures
        opt_str_eqv(*o, r),
        r is Some <==> o is Some,
        r is Some ==> r->0@ == o->0@,
{
    match o {
        Some(s) => Some(s.clone()),
        None => None,
    }
}

impl Clone for EntryConfig {
    /// A copy holding the same configuration.
    fn clone(&self) -> (r: Self)
        ensures
            ec_eqv(*self, r),
    {
        EntryConfig { path: self.path.clone(), editor: clone_opt_string(&self.editor) }
    }
}

/// The stored configuration: the entry list in registration order, and the
/// session-wide default editor command.
#[derive(Debug)]
pub struct AppConfig {
    pub entries: Vec<EntryConfig>,
    pub default_editor: Option<String>,
}

/// Whether two configurations hold the same data.
pub open spec fn config_eqv(a: AppConfig, b: AppConfig) -> bool {
    entries_eqv(a.entries@, b.entries@) && opt_str_eqv(a.default_editor, b.default_editor)
}

impl Clone for AppConfig {
    /// A copy holding the same configuration.
    fn clone(&self) -> (r: Self)
        ensures
            config_eqv(*self, r),
    {
        AppConfig {
            entries: clone_entries(&self.entries),
            default_editor: clone_opt_string(&self.default_editor),
        }
    }
}

/// A copy of an entry list, entry by entry.
pub fn clone_entries(v: &Vec<EntryConfig>) -> (r: Vec<EntryConfig>)
    ensures
        entries_eqv(v@, r@),
{
    let mut r: Vec<EntryConfig> = Vec::new();
    let mut i: usize = 0;
    while i < v.len()
        invariant
            0 <= i <= v.len(),
            r@.len() == i,
            forall|j: int| 0 <= j < i ==> ec_eqv(#[trigger] v@[j], r@[j]),
        decreases v.len() - i,
    {
        r.push(v[i].clone());
        i = i + 1;
    }
    r
}

/// Picks the configuration to start from: the primary copy when it could be
/// read, else the legacy copy, else an empty one.
pub fn load_config(primary: Option<AppConfig>, legacy: Option<AppConfig>) -> (r: AppConfig)
    ensures
        primary is Some ==> r == primary->0,
        primary is None && legacy is Some ==> r == legacy->0,
        primary is None && legacy is None ==> r.entries@.len() == 0 && r.default_editor is None,
{
    match primary {
        Some(c) => c,
        None => match legacy {
            Some(c) => c,
            None => AppConfig { entries: Vec::new(), default_editor: None },
        },
    }
}

/// Registers a path in a configuration: the first entry whose canonical key
/// matches is replaced — never duplicated — and with no match the entry is
/// appended, its key alongside. Returns whether an entry was replaced.
pub fn upsert_entry(
    config: &mut AppConfig,
    keys: &mut Vec<String>,
    path: String,
    key: String,
    editor: Option<String>,
) -> (replaced: bool)
    requires
        old(keys)@.len() == old(config).entries@.len(),
    ensures
        final(keys)@.len() == final(config).entries@.len(),
        opt_str_eqv(final(config).default_editor, old(config).default_editor),
        replaced == exists|j: int|
            0 <= j < old(keys)@.len() && (#[trigger] old(keys)@[j])@ == key@,
        replaced ==> exists|j: int|
            {
                &&& 0 <= j < old(keys)@.len()
                &&& (#[trigger] old(keys)@[j])@ == key@
                &&& (forall|k: int| 0 <= k < j ==> old(keys)@[k]@ != key@)
                &&& final(config).entries@.len() == old(config).entries@.len()
                &&& final(config).entries@[j].path@ == path@
                &&& opt_str_eqv(final(config).entries@[j].editor, editor)
                &&& (forall|k: int|
                    0 <= k < old(config).entries@.len() && k != j ==> final(config).entries@[k]
                        == old(config).entries@[k])
                &&& final(keys)@[j]@ == key@
                &&& (forall|k: int|
                    0 <= k < old(keys)@.len() && k != j ==> final(keys)@[k] == old(keys)@[k])
            },
        !replaced ==> {
            &&& final(config).entries@.len() == old(config).entries@.len() + 1
            &&& final(config).entries@.last().path@ == path@
            &&& opt_str_eqv(final(config).entries@.last().editor, editor)
            &&& (forall|k: int|
                0 <= k < old(config).entries@.len() ==> #[trigger] final(config).entries@[k]
                    == old(config).entries@[k])
            &&& final(keys)@.last()@ == key@
            &&& (forall|k: int|
                0 <= k < old(keys)@.len() ==> #[trigger] final(keys)@[k] == old(keys)@[k])
        },
{
    let mut j: usize = 0;
    let n = keys.len();
    while j < n
        invariant
            0 <= j <= n == old(keys)@.len(),
            old(keys)@.len() == old(config).entries@.len(),
            keys@ == old(keys)@,
            *config == *old(config),
            forall|k: int| 0 <= k < j ==> old(keys)@[k]@ != key@,
        decreases n - j,
    {
        if keys[j].eq(&key) {
            config.entries[j] = EntryConfig { path, editor };
            keys[j] = key;
            return true;
        }
        j = j + 1;
    }
    config.entries.push(EntryConfig { path, editor });
    keys.push(key);
    false
}

/// Normalises an editor argument: trimmed, and dropped entirely when blank.
pub fn normalize_editor_arg(editor: Option<String>) -> (r: Option<String>)
    ensures
        editor is None ==> r is None,
        editor is Some ==> {
            let t = trim_spec(editor->0@);
            if t.len() == 0 {
                r is None
            } else {
                r is Some && r->0@ == t
            }
        },
{
    match editor {
        None => None,
        Some(s) => {
            let chars = crate::chars::string_to_chars(s.as_str());
            let trimmed = trim_chars(&chars);
            if trimmed.len() == 0 {
                None
            } else {
                Some(chars_to_string(&trimmed))
            }
        },
    }
}

} // verus!
