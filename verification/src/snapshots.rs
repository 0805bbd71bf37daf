//! Snapshots of a directory around the calls of tools that may change it.
use vstd::prelude::*;

use crate::model::MessagePart;
use crate::text;
use crate::text::decimal_string;
use crate::tools;
use crate::tools::contains_name;

verus! {

/// What is recorded of a directory around a tool call.
#[derive(Debug, Clone, Copy, PartialEq, Eq, Structural)]
pub enum SnapshotPolicy {
    /// Nothing.
    Off,
    /// How many files there are, their size, and when the newest was changed.
    Metadata,
    /// Which paths the tool changed.
    Diff,
}

/// A snapshot that was begun before a tool call. `Tree` stands for the state of the
/// directory before the call.
#[derive(Debug)]
pub enum SnapshotState<Tree> {
    /// None was begun.
    Off,
    Metadata { root: String },
    Diff { pre_tree: Tree, root: String },
}

/// What an agent was told about snapshots.
#[derive(Debug)]
pub struct SnapshotSettings {
    pub policy: SnapshotPolicy,
    pub root: Option<String>,
    /// The tools that are known to change files.
    pub mutating_tools: Vec<String>,
    /// Every tool is taken to change files.
    pub all_tools_mutate: bool,
}

impl SnapshotSettings {
    /// A call of the tool is to be surrounded by a snapshot.
    pub open spec fn covers(&self, tool: Seq<char>) -> bool {
        self.all_tools_mutate || tools::lists(self.mutating_tools@, tool)
    }

    /// Snapshots are taken, and it is known of which directory.
    pub open spec fn enabled(&self) -> bool {
        self.policy != SnapshotPolicy::Off && self.root is Some
    }

    /// The directory of which snapshots are taken, and how, where they are taken.
    pub fn prepare_snapshot(&self) -> (prepared: Option<(String, SnapshotPolicy)>)
        ensures
            match prepared {
                Some((root, policy)) => self.enabled() && root@ == self.root->Some_0@ && policy
                    == self.policy,
                None => !self.enabled(),
            },
    {
        if self.policy == SnapshotPolicy::Off {
            return None;
        }
        match &self.root {
            Some(root) => Some((root.clone(), self.policy)),
            None => None,
        }
    }

    /// Whether a call of a tool is to be surrounded by a snapshot.
    pub fn should_snapshot_tool(&self, tool_name: &str) -> (yes: bool)
        ensures
            yes == self.covers(tool_name@),
    {
        if contains_name(&self.mutating_tools, tool_name) {
            return true;
        }
        self.all_tools_mutate
    }

    /// The snapshot to begin before a call of a tool.
    pub fn snapshot_for(&self, tool_name: &str) -> (prepared: Option<(String, SnapshotPolicy)>)
        ensures
            match prepared {
                Some((root, policy)) => self.covers(tool_name@) && self.enabled() && root@
                    == self.root->Some_0@ && policy == self.policy,
                None => !(self.covers(tool_name@) && self.enabled()),
            },
    {
        if self.should_snapshot_tool(tool_name) {
            self.prepare_snapshot()
        } else {
            None
        }
    }
}

/// What is known of a file.
#[derive(Debug, Clone, Copy, PartialEq, Eq, Structural)]
pub struct FileMetadata {
    pub len: u64,
    /// When the file was changed, in seconds since the epoch, where that is known.
    pub modified_secs: Option<u64>,
}

/// The figures of a directory.
#[derive(Debug, Clone, Copy, PartialEq, Eq, Structural)]
pub struct DirectoryFigures {
    pub files: u64,
    pub bytes: u64,
    pub latest_mtime: u64,
}

/// The size of some files together.
pub open spec fn total_len(files: Seq<FileMetadata>) -> nat
    decreases files.len(),
{
    if files.len() == 0 {
        0
    } else {
        total_len(files.drop_last()) + files.last().len as nat
    }
}

/// When the newest of some files was changed, or 0 where that is known of none.
pub open spec fn latest(files: Seq<FileMetadata>) -> u64
    decreases files.len(),
{
    if files.len() == 0 {
        0
    } else {
        let before = latest(files.drop_last());
        match files.last().modified_secs {
            Some(secs) => if secs > before {
                secs
            } else {
                before
            },
            None => before,
        }
    }
}

proof fn lemma_total_len_prefix(files: Seq<FileMetadata>, n: int)
    requires
        0 <= n <= files.len(),
    ensures
        total_len(files.subrange(0, n)) <= total_len(files),
    decreases files.len() - n,
{
    if n == files.len() {
        assert(files.subrange(0, n) =~= files);
    } else {
        let longer = files.subrange(0, n + 1);
        assert(longer.drop_last() =~= files.subrange(0, n));
        lemma_total_len_prefix(files, n + 1);
    }
}

/// The figures of a directory with these files.
pub fn directory_figures(files: &Vec<FileMetadata>) -> (figures: DirectoryFigures)
    requires
        total_len(files@) <= u64::MAX,
    ensures
        figures.files == files@.len(),
        figures.bytes == total_len(files@),
        figures.latest_mtime == latest(files@),
{
    let mut bytes: u64 = 0;
    let mut latest_mtime: u64 = 0;
    let mut i: usize = 0;
    while i < files.len()
        invariant
            i <= files@.len(),
            total_len(files@) <= u64::MAX,
            bytes == total_len(files@.subrange(0, i as int)),
            latest_mtime == latest(files@.subrange(0, i as int)),
        decreases files@.len() - i,
    {
        let ghost longer = files@.subrange(0, i + 1);
        proof {
            assert(longer.drop_last() =~= files@.subrange(0, i as int));
            assert(longer.last() == files@[i as int]);
            lemma_total_len_prefix(files@, i + 1);
        }
        bytes = bytes + files[i].len;
        if let Some(secs) = files[i].modified_secs {
            if secs > latest_mtime {
                latest_mtime = secs;
            }
        }
        i = i + 1;
    }
    assert(files@.subrange(0, files@.len() as int) =~= files@);
    DirectoryFigures { files: files.len() as u64, bytes, latest_mtime }
}

/// The figures of a directory as the text that is hashed.
pub open spec fn figures_key(figures: DirectoryFigures) -> Seq<char> {
    "files="@ + text::decimal(figures.files as nat) + ",bytes="@ + text::decimal(
        figures.bytes as nat,
    ) + ",mtime="@ + text::decimal(figures.latest_mtime as nat)
}

/// The figures of a directory as they are shown.
pub open spec fn figures_summary(figures: DirectoryFigures) -> Seq<char> {
    "Files: "@ + text::decimal(figures.files as nat) + ", Bytes: "@ + text::decimal(
        figures.bytes as nat,
    ) + ", Latest mtime: "@ + text::decimal(figures.latest_mtime as nat)
}

impl DirectoryFigures {
    /// The text of which the hash stands for the directory.
    pub fn key(&self) -> (key: String)
        ensures
            key@ == figures_key(*self),
    {
        let mut key = "files=".to_string();
        let files = decimal_string(self.files);
        key.append(files.as_str());
        key.append(",bytes=");
        let bytes = decimal_string(self.bytes);
        key.append(bytes.as_str());
        key.append(",mtime=");
        let mtime = decimal_string(self.latest_mtime);
        key.append(mtime.as_str());
        key
    }

    /// The figures as they are shown.
    pub fn summary(&self) -> (summary: String)
        ensures
            summary@ == figures_summary(*self),
    {
        let mut summary = "Files: ".to_string();
        let files = decimal_string(self.files);
        summary.append(files.as_str());
        summary.append(", Bytes: ");
        let bytes = decimal_string(self.bytes);
        summary.append(bytes.as_str());
        summary.append(", Latest mtime: ");
        let mtime = decimal_string(self.latest_mtime);
        summary.append(mtime.as_str());
        summary
    }
}

/// The snapshot of a directory with these figures, and the summary that is shown of it.
/// `root_hash` is the hash of the figures' key.
pub fn snapshot_metadata(figures: &DirectoryFigures, root_hash: u64) -> (snapshot: (
    MessagePart,
    Option<String>,
))
    ensures
        snapshot.0 matches MessagePart::Snapshot { root_hash: hash, changed_paths, diff_summary }
            && hash == root_hash && changed_paths is None && diff_summary is Some && diff_summary->Some_0@ == figures_summary(
            *figures,
        ),
        snapshot.1 is Some && snapshot.1->Some_0@ == figures_summary(*figures),
{
    let summary = figures.summary();
    let part = MessagePart::Snapshot {
        root_hash,
        changed_paths: None,
        diff_summary: Some(summary.clone()),
    };
    (part, Some(summary))
}

/// The newest change that is reported is no older than any that is known.
pub proof fn law_latest_is_an_upper_bound(files: Seq<FileMetadata>, i: int)
    requires
        0 <= i < files.len(),
    ensures
        files[i].modified_secs matches Some(secs) ==> secs <= latest(files),
    decreases files.len(),
{
    if i < files.len() - 1 {
        law_latest_is_an_upper_bound(files.drop_last(), i);
        assert(files.drop_last()[i] == files[i]);
    }
}

/// The newest change that is reported is that of some file, unless none is known.
pub proof fn law_latest_is_attained(files: Seq<FileMetadata>)
    ensures
        latest(files) == 0 || exists|i: int|
            0 <= i < files.len() && (#[trigger] files[i]).modified_secs == Some(latest(files)),
    decreases files.len(),
{
    if files.len() > 0 {
        let before = files.drop_last();
        law_latest_is_attained(before);
        if latest(files) == latest(before) {
            if latest(before) != 0 {
                let i = choose|i: int|
                    0 <= i < before.len() && (#[trigger] before[i]).modified_secs == Some(
                        latest(before),
                    );
                assert(files[i].modified_secs == Some(latest(files)));
            }
        } else {
            assert(files[files.len() - 1].modified_secs == Some(latest(files)));
        }
    }
}

/// Which tools change files: all of them where the settings say so, and otherwise those that
/// the settings name.
pub proof fn law_named_tools_change_files(settings: SnapshotSettings, tool: Seq<char>)
    ensures
        settings.covers(tool) <==> settings.all_tools_mutate || settings.mutating_tools@.map_values(
            |name: String| name@,
        ).contains(tool),
        settings.enabled() <==> settings.root is Some && (settings.policy
            == SnapshotPolicy::Metadata || settings.policy == SnapshotPolicy::Diff),
{
    tools::law_lists_hold_their_entries(settings.mutating_tools@, tool);
}

/// The size of a directory is that of its files together: each file adds its own.
pub proof fn law_every_file_adds_its_size(files: Seq<FileMetadata>, file: FileMetadata)
    ensures
        total_len(Seq::empty()) == 0,
        total_len(files.push(file)) == total_len(files) + file.len,
{
    assert(files.push(file).drop_last() =~= files);
}

/// A directory is told by its figures, each under its name.
pub proof fn law_figures_are_told_under_their_names(figures: DirectoryFigures)
    ensures
        figures_key(figures) == "files="@ + text::decimal(figures.files as nat) + ",bytes="@
            + text::decimal(figures.bytes as nat) + ",mtime="@ + text::decimal(
            figures.latest_mtime as nat,
        ),
        figures_summary(figures) == "Files: "@ + text::decimal(figures.files as nat)
            + ", Bytes: "@ + text::decimal(figures.bytes as nat) + ", Latest mtime: "@
            + text::decimal(figures.latest_mtime as nat),
{
}

} // verus!
