//! Entries of the transcription history.

use crate::platform::paths::{history_db_path, join, path_join};
use vstd::prelude::*;
use vstd::string::StringExecFns;

verus! {

/// One transcription that was made.
#[derive(Debug, Clone)]
pub struct HistoryEntry {
    /// The entry's identifier.
    pub id: u64,
    /// When it was made, in seconds since the epoch.
    pub timestamp: u64,
    /// The transcribed text.
    pub text: String,
    /// The model used.
    pub model: String,
    /// How long the transcription took, in milliseconds.
    pub duration_ms: u64,
    /// The confidence in thousandths, where the model gave one.
    pub confidence: Option<u16>,
}

impl HistoryEntry {
    /// An entry made at `timestamp`, which is its identifier too.
    pub fn new(
        text: String,
        model: String,
        duration_ms: u64,
        confidence: Option<u16>,
        timestamp: u64,
    ) -> (entry: Self)
        ensures
            entry.id == timestamp,
            entry.timestamp == timestamp,
            entry.text == text,
            entry.model == model,
            entry.duration_ms == duration_ms,
            entry.confidence == confidence,
    {
        HistoryEntry { id: timestamp, timestamp, text, model, duration_ms, confidence }
    }
}

/// An entry, as contracts see it.
pub struct EntryView {
    pub id: u64,
    pub timestamp: u64,
    pub text: Seq<char>,
    pub model: Seq<char>,
    pub duration_ms: u64,
    pub confidence: Option<u16>,
}

impl View for HistoryEntry {
    type V = EntryView;

    open spec fn view(&self) -> EntryView {
        EntryView {
            id: self.id,
            timestamp: self.timestamp,
            text: self.text@,
            model: self.model@,
            duration_ms: self.duration_ms,
            confidence: self.confidence,
        }
    }
}

/// The entries' views, in order.
pub open spec fn entry_views(entries: Seq<HistoryEntry>) -> Seq<EntryView> {
    entries.map_values(|e: HistoryEntry| e@)
}

/// The test an entry passes where its identifier is not `id`.
pub open spec fn other_than(id: u64) -> spec_fn(HistoryEntry) -> bool {
    |e: HistoryEntry| e.id != id
}

/// The directory the history file is kept in: the one that
/// `ONEVOX_DATA_DIR` names, else the one that `VOX_DATA_DIR` names, else
/// `onevox` under `XDG_DATA_HOME`, else `.local/share/onevox` under the
/// home directory, or under the working directory where there is no home.
pub open spec fn history_dir(
    onevox_data_dir: Option<Seq<char>>,
    vox_data_dir: Option<Seq<char>>,
    xdg_data_home: Option<Seq<char>>,
    home_dir: Option<Seq<char>>,
) -> Seq<char> {
    match (onevox_data_dir, vox_data_dir, xdg_data_home, home_dir) {
        (Some(dir), _, _, _) => dir,
        (None, Some(dir), _, _) => dir,
        (None, None, Some(share), _) => path_join(share, "onevox"@),
        (None, None, None, Some(home)) => path_join(home, ".local/share/onevox"@),
        (None, None, None, None) => path_join("."@, ".local/share/onevox"@),
    }
}

/// The text of an optional string.
pub open spec fn text_of(s: Option<&str>) -> Option<Seq<char>> {
    match s {
        Some(t) => Some(t@),
        None => None,
    }
}

/// The history held in memory: the entries, oldest first, never more than
/// the configured number.
pub struct HistoryManager {
    config: crate::config::HistoryConfig,
    entries: Vec<HistoryEntry>,
}

impl HistoryManager {
    /// The entries, oldest first.
    pub closed spec fn entries(&self) -> Seq<HistoryEntry> {
        self.entries@
    }

    /// The settings.
    pub closed spec fn config(&self) -> crate::config::HistoryConfig {
        self.config
    }

    /// An empty history.
    pub fn new(config: crate::config::HistoryConfig) -> (manager: Self)
        ensures
            manager.config() == config,
            manager.entries().len() == 0,
    {
        HistoryManager { config, entries: Vec::new() }
    }

    /// A history that starts with the entries read from the history file.
    /// A disabled history starts empty.
    pub fn with_entries(config: crate::config::HistoryConfig, loaded: Vec<HistoryEntry>) -> (manager:
        Self)
        ensures
            manager.config() == config,
            manager.entries() == if config.enabled {
                loaded@
            } else {
                Seq::empty()
            },
    {
        if config.enabled {
            HistoryManager { config, entries: loaded }
        } else {
            HistoryManager { config, entries: Vec::new() }
        }
    }

    /// Where the history file is kept by default: `history.json` in the
    /// directory that the environment's settings point to (see
    /// [`history_dir`]). Each argument is the value of the variable of its
    /// name, or the home directory, where there is one.
    pub fn default_history_path(
        onevox_data_dir: Option<&str>,
        vox_data_dir: Option<&str>,
        xdg_data_home: Option<&str>,
        home_dir: Option<&str>,
    ) -> (path: String)
        ensures
            path@ == path_join(
                history_dir(
                    text_of(onevox_data_dir),
                    text_of(vox_data_dir),
                    text_of(xdg_data_home),
                    text_of(home_dir),
                ),
                "history.json"@,
            ),
    {
        let dir = match (onevox_data_dir, vox_data_dir, xdg_data_home, home_dir) {
            (Some(dir), _, _, _) => String::from_str(dir),
            (None, Some(dir), _, _) => String::from_str(dir),
            (None, None, Some(share), _) => join(share, "onevox"),
            (None, None, None, Some(home)) => join(home, ".local/share/onevox"),
            (None, None, None, None) => join(".", ".local/share/onevox"),
        };
        history_db_path(dir.as_str())
    }

    /// The entries once `entry` is added: appended, and the oldest ones
    /// dropped so that no more than `max_entries` stay; a limit of zero is
    /// no limit.
    pub open spec fn after_add(
        entries: Seq<HistoryEntry>,
        entry: HistoryEntry,
        max_entries: usize,
    ) -> Seq<HistoryEntry> {
        let grown = entries.push(entry);
        if max_entries > 0 && grown.len() > max_entries {
            grown.skip(grown.len() - max_entries)
        } else {
            grown
        }
    }

    /// Adds an entry. A disabled history takes nothing. Returns whether
    /// the history is to be saved now.
    pub fn add_entry(&mut self, entry: HistoryEntry) -> (save: bool)
        ensures
            final(self).config() == old(self).config(),
            final(self).entries() == if old(self).config().enabled {
                Self::after_add(old(self).entries(), entry, old(self).config().max_entries)
            } else {
                old(self).entries()
            },
            save == (old(self).config().enabled && old(self).config().auto_save),
    {
        if !self.config.enabled {
            return false;
        }
        self.entries.push(entry);
        let ghost grown = self.entries@;
        if self.config.max_entries > 0 && self.entries.len() > self.config.max_entries {
            let excess: usize = self.entries.len() - self.config.max_entries;
            let mut i: usize = 0;
            while i < excess
                invariant
                    i <= excess,
                    excess <= grown.len(),
                    self.entries@ == grown.skip(i as int),
                    self.config == old(self).config,
                decreases excess - i,
            {
                let _ = self.entries.remove(0);
                assert(self.entries@ =~= grown.skip(i + 1));
                i = i + 1;
            }
        }
        assert(grown.skip(0) =~= grown);
        self.config.auto_save
    }

    /// Copies of all entries, oldest first.
    pub fn get_all(&self) -> (entries: Vec<HistoryEntry>)
        ensures
            entry_views(entries@) == entry_views(self.entries()),
    {
        let mut entries: Vec<HistoryEntry> = Vec::new();
        let mut i: usize = 0;
        while i < self.entries.len()
            invariant
                i <= self.entries@.len(),
                entries@.len() == i,
                forall|k: int| 0 <= k < i ==> entries@[k]@ == self.entries@[k]@,
            decreases self.entries@.len() - i,
        {
            let e = &self.entries[i];
            entries.push(
                HistoryEntry {
                    id: e.id,
                    timestamp: e.timestamp,
                    text: e.text.clone(),
                    model: e.model.clone(),
                    duration_ms: e.duration_ms,
                    confidence: e.confidence,
                },
            );
            i = i + 1;
        }
        assert(entry_views(entries@) =~= entry_views(self.entries@));
        entries
    }

    /// The first entry with this identifier.
    pub fn get_entry(&self, id: u64) -> (entry: Option<&HistoryEntry>)
        ensures
            match entry {
                Some(e) => e.id == id && self.entries().contains(*e),
                None => forall|i: int| 0 <= i < self.entries().len() ==> self.entries()[i].id != id,
            },
    {
        let mut i: usize = 0;
        while i < self.entries.len()
            invariant
                i <= self.entries@.len(),
                forall|k: int| 0 <= k < i ==> self.entries@[k].id != id,
            decreases self.entries@.len() - i,
        {
            if self.entries[i].id == id {
                return Some(&self.entries[i]);
            }
            i = i + 1;
        }
        None
    }

    /// Deletes every entry with this identifier and returns whether there
    /// was one. On a disabled history nothing is deleted and `None` is
    /// returned.
    pub fn delete_entry(&mut self, id: u64) -> (deleted: Option<bool>)
        ensures
            final(self).config() == old(self).config(),
            !old(self).config().enabled ==> deleted is None && final(self).entries() == old(self).entries(),
            old(self).config().enabled ==> {
                &&& final(self).entries() == old(self).entries().filter(other_than(id))
                &&& deleted == Some(final(self).entries().len() < old(self).entries().len())
            },
    {
        if !self.config.enabled {
            return None;
        }
        let ghost keep = other_than(id);
        let mut kept: Vec<HistoryEntry> = Vec::new();
        let mut all: Vec<HistoryEntry> = Vec::new();
        std::mem::swap(&mut all, &mut self.entries);
        let count_before = all.len();
        let mut i: usize = 0;
        // The entries are taken from the end and put back in order.
        let ghost whole = all@;
        let mut reversed: Vec<HistoryEntry> = Vec::new();
        while all.len() > 0
            invariant
                all@.len() + reversed@.len() == whole.len(),
                all@ == whole.take(all@.len() as int),
                forall|k: int|
                    0 <= k < reversed@.len() ==> reversed@[k] == whole[whole.len() - 1 - k],
            decreases all@.len(),
        {
            match all.pop() {
                Some(e) => {
                    reversed.push(e);
                },
                None => {},
            }
            assert(all@ =~= whole.take(all@.len() as int));
        }
        assert(whole.take(0).filter(keep) =~= Seq::<HistoryEntry>::empty()) by {
            reveal(Seq::filter);
        }
        while reversed.len() > 0
            invariant
                whole.len() == count_before,
                keep == other_than(id),
                i + reversed@.len() == whole.len(),
                forall|k: int|
                    0 <= k < reversed@.len() ==> reversed@[k] == whole[whole.len() - 1 - k],
                kept@ == whole.take(i as int).filter(keep),
            decreases reversed@.len(),
        {
            match reversed.pop() {
                Some(e) => {
                    let ghost item = e;
                    assert(item == whole[i as int]);
                    if e.id != id {
                        kept.push(e);
                    }
                    proof {
                        whole.take(i as int).lemma_filter_push(item, keep);
                        assert(whole.take(i + 1) =~= whole.take(i as int).push(item));
                    }
                },
                None => {},
            }
            i = i + 1;
        }
        assert(whole.take(whole.len() as int) =~= whole);
        let deleted = kept.len() < count_before;
        self.entries = kept;
        Some(deleted)
    }

    /// Deletes all entries and returns whether that was done: a disabled
    /// history is left alone.
    pub fn clear(&mut self) -> (cleared: bool)
        ensures
            final(self).config() == old(self).config(),
            cleared == old(self).config().enabled,
            final(self).entries() == if cleared {
                Seq::empty()
            } else {
                old(self).entries()
            },
    {
        if !self.config.enabled {
            return false;
        }
        self.entries.clear();
        true
    }

    /// The number of entries.
    pub fn count(&self) -> (n: usize)
        ensures
            n == self.entries().len(),
    {
        self.entries.len()
    }
}

} // verus!
