//! Emergency data: what may be saved, under which name, and when a saved
//! file has outlived its keep.

use vstd::prelude::*;
use vstd::string::StringExecFns;
use crate::json::{compact_text, parse, pretty_text, read_json, to_compact, to_pretty};
use crate::pattern::{pattern_compiles, pattern_matches};
use crate::text::{byte_len, lemma_starts_with_its_prefix, same_text, starts_with, verdict};
use crate::validate::{
    filename_verdict, pattern_failure_prefix, validate_filename, FILENAME_PATTERN,
};

verus! {

/// Largest size of one saved item, in bytes of its one-line JSON text.
pub const MAX_DATA_BYTES: usize = 10_485_760;

/// How long a saved file is kept, in seconds: seven days.
pub const RETENTION_SECS: u64 = 604_800;

/// Name of the directory that holds the saved items, in the application's
/// data directory.
pub const RECOVERY_DIR: &'static str = "recovery";

/// Extension of the files that hold saved items.
pub const RECOVERY_EXTENSION: &'static str = "json";

/// Name of the file that holds the item saved as `filename`.
pub open spec fn recovery_file_name_of(filename: Seq<char>) -> Seq<char> {
    filename + ".json"@
}

/// Name of the file that holds the item saved as `filename`.
pub fn recovery_file_name(filename: &str) -> (r: String)
    ensures
        r@ == recovery_file_name_of(filename@),
{
    let mut name = String::from_str(filename);
    name.append(".json");
    name
}

/// Verdict on an item from the attempt to write it on one line: a failed
/// attempt is reported with its reason, a text of more than
/// `MAX_DATA_BYTES` bytes is too large.
pub open spec fn data_size_verdict(compact: Result<Seq<char>, Seq<char>>) -> Result<
    (),
    Seq<char>,
> {
    match compact {
        Err(reason) => Err("Failed to serialize data for size check: "@ + reason),
        Ok(text) => if byte_len(text) > MAX_DATA_BYTES {
            Err("Data too large (max 10MB)"@)
        } else {
            Ok(())
        },
    }
}

/// A text or a reason, taken by its view.
pub open spec fn text_view(r: Result<String, String>) -> Result<Seq<char>, Seq<char>> {
    match r {
        Ok(text) => Ok(text@),
        Err(reason) => Err(reason@),
    }
}

/// Decides whether an item is small enough to save, from the attempt
/// `compact` to write it on one line.
pub fn judge_data_size(compact: Result<String, String>) -> (r: Result<(), String>)
    ensures
        verdict(r) == data_size_verdict(text_view(compact)),
{
    match compact {
        Err(reason) => {
            let mut message = String::from_str("Failed to serialize data for size check: ");
            message.append(reason.as_str());
            Err(message)
        },
        Ok(text) => {
            if text.as_str().len() > MAX_DATA_BYTES {
                Err(String::from_str("Data too large (max 10MB)"))
            } else {
                Ok(())
            }
        },
    }
}

/// Verdict on saving an item: a name that fails is reported as it is
/// judged, and for a name that passes the item's size decides.
pub open spec fn emergency_data_verdict(
    name: Result<(), Seq<char>>,
    compact: Result<Seq<char>, Seq<char>>,
) -> Result<(), Seq<char>> {
    match name {
        Err(message) => Err(message),
        Ok(_) => data_size_verdict(compact),
    }
}

/// Checks that `data` may be saved as `filename`: the name must be valid,
/// and the item, written on one line, must be at most `MAX_DATA_BYTES`
/// bytes long.
///
/// The name is judged first, as `validate_filename` judges it. With a
/// pattern that does not compile, every item is rejected with the report of
/// the pattern.
pub fn check_emergency_data(filename: &str, data: &serde_json::Value) -> (r: Result<(), String>)
    ensures
        pattern_compiles(FILENAME_PATTERN@) ==> verdict(r) == emergency_data_verdict(
            filename_verdict(filename@, pattern_matches(FILENAME_PATTERN@, filename@)),
            compact_text(*data),
        ),
        !pattern_compiles(FILENAME_PATTERN@) ==> (r matches Err(message) && starts_with(
            message@,
            pattern_failure_prefix(),
        )),
{
    match validate_filename(filename) {
        Err(message) => Err(message),
        Ok(_) => judge_data_size(to_compact(data)),
    }
}

/// The text to store for an item, from the attempt `pretty` to write it
/// indented.
pub open spec fn rendered(pretty: Result<Seq<char>, Seq<char>>) -> Result<Seq<char>, Seq<char>> {
    match pretty {
        Ok(text) => Ok(text),
        Err(reason) => Err("Failed to serialize data: "@ + reason),
    }
}

/// Passes on the indented text of an item, or reports why there is none.
pub fn judge_rendering(pretty: Result<String, String>) -> (r: Result<String, String>)
    ensures
        text_view(r) == rendered(text_view(pretty)),
{
    match pretty {
        Ok(text) => Ok(text),
        Err(reason) => {
            let mut message = String::from_str("Failed to serialize data: ");
            message.append(reason.as_str());
            Err(message)
        },
    }
}

/// The text to store for `data`: the item written indented, or the
/// report that it could not be written.
pub fn render_emergency_data(data: &serde_json::Value) -> (r: Result<String, String>)
    ensures
        text_view(r) == rendered(pretty_text(*data)),
{
    judge_rendering(to_pretty(data))
}

/// Passes on an item that was read, or reports why there is none.
pub fn judge_parse(parsed: Result<serde_json::Value, String>) -> (r: Result<
    serde_json::Value,
    String,
>)
    ensures
        match parsed {
            Ok(value) => r == Ok::<serde_json::Value, String>(value),
            Err(reason) => r matches Err(message) && message@ == "Failed to parse data: "@
                + reason@,
        },
{
    match parsed {
        Ok(value) => Ok(value),
        Err(reason) => {
            let mut message = String::from_str("Failed to parse data: ");
            message.append(reason.as_str());
            Err(message)
        },
    }
}

/// Reads a stored item back from the text `contents` of its file.
///
/// Succeeds exactly on a text that the JSON reader accepts, with the value
/// that it reads. Not every JSON text is accepted: the reader refuses a
/// value nested deeper than its own limit.
pub fn parse_emergency_data(contents: &str) -> (r: Result<serde_json::Value, String>)
    ensures
        match r {
            Ok(value) => read_json(contents@) == Some(value),
            Err(message) => read_json(contents@) is None && starts_with(
                message@,
                "Failed to parse data: "@,
            ),
        },
{
    let parsed = parse(contents);
    proof {
        if parsed is Err {
            lemma_starts_with_its_prefix("Failed to parse data: "@, parsed->Err_0@);
        }
    }
    judge_parse(parsed)
}

/// Whether a file last modified at `modified_secs` has outlived its keep at
/// `now_secs`, both in seconds since the epoch: it has when it was modified
/// more than `RETENTION_SECS` before now.
pub open spec fn is_stale(modified_secs: u64, now_secs: u64) -> bool {
    modified_secs < now_secs - RETENTION_SECS
}

/// Whether a file with the extension `extension` holds a saved item.
pub open spec fn is_recovery_extension(extension: Option<Seq<char>>) -> bool {
    extension == Some(RECOVERY_EXTENSION@)
}

/// Where a sweep stands with the current directory entry.
#[derive(Debug, Clone, Copy, PartialEq, Eq, Structural)]
pub enum SweepPhase {
    /// Waiting for the next entry.
    Scanning,
    /// Waiting for the modification time of an entry that holds a saved
    /// item.
    Dating,
    /// Waiting for the removal of an entry that has outlived its keep.
    Removing,
}

/// What the driver of a sweep found.
#[derive(Debug)]
pub enum SweepEvent {
    /// An entry of the directory could not be read.
    EntryUnreadable,
    /// An entry was read; holds the extension of its path, if it has one.
    Entry(Option<String>),
    /// The entry's modification time could not be had, or lies before the
    /// epoch.
    ModifiedUnknown,
    /// The entry was last modified at this many seconds since the epoch.
    Modified(u64),
    /// The entry was removed.
    Removed,
    /// The entry could not be removed.
    NotRemoved,
}

/// An event with its text taken by its view.
pub enum SweepEventView {
    EntryUnreadable,
    Entry(Option<Seq<char>>),
    ModifiedUnknown,
    Modified(u64),
    Removed,
    NotRemoved,
}

impl View for SweepEvent {
    type V = SweepEventView;

    open spec fn view(&self) -> SweepEventView {
        match self {
            SweepEvent::EntryUnreadable => SweepEventView::EntryUnreadable,
            SweepEvent::Entry(extension) => SweepEventView::Entry(
                match extension {
                    Some(text) => Some(text@),
                    None => None,
                },
            ),
            SweepEvent::ModifiedUnknown => SweepEventView::ModifiedUnknown,
            SweepEvent::Modified(secs) => SweepEventView::Modified(*secs),
            SweepEvent::Removed => SweepEventView::Removed,
            SweepEvent::NotRemoved => SweepEventView::NotRemoved,
        }
    }
}

/// What the driver of a sweep does next.
#[derive(Debug, Clone, Copy, PartialEq, Eq, Structural)]
pub enum SweepAction {
    /// Leave the current entry and read the next one.
    NextEntry,
    /// Find out when the current entry was last modified.
    ReadModified,
    /// Remove the current entry.
    Remove,
}

/// The action that answers `event` in the phase `phase` of a sweep that
/// runs at `now_secs`.
///
/// An entry is dated only if it holds a saved item, and removed only if it
/// was dated and has outlived its keep. Anything else, an event that does
/// not belong to the phase included, moves on to the next entry.
pub open spec fn action_for(phase: SweepPhase, now_secs: u64, event: SweepEventView) -> SweepAction {
    match (phase, event) {
        (SweepPhase::Scanning, SweepEventView::Entry(extension)) => if is_recovery_extension(
            extension,
        ) {
            SweepAction::ReadModified
        } else {
            SweepAction::NextEntry
        },
        (SweepPhase::Dating, SweepEventView::Modified(secs)) => if is_stale(secs, now_secs) {
            SweepAction::Remove
        } else {
            SweepAction::NextEntry
        },
        _ => SweepAction::NextEntry,
    }
}

/// The phase in which the driver carries out `action`.
pub open spec fn phase_for(action: SweepAction) -> SweepPhase {
    match action {
        SweepAction::NextEntry => SweepPhase::Scanning,
        SweepAction::ReadModified => SweepPhase::Dating,
        SweepAction::Remove => SweepPhase::Removing,
    }
}

/// Whether `event` in the phase `phase` reports a removal that was asked
/// for.
pub open spec fn counts_as_removed(phase: SweepPhase, event: SweepEventView) -> bool {
    phase == SweepPhase::Removing && event is Removed
}

/// Whatever came before, a removal is asked for only in answer to the
/// modification time of an entry that holds a saved item and has outlived
/// its keep: the two events that lead to it are the entry, read while
/// scanning, and its time.
pub proof fn lemma_removes_only_stale_items(
    phase: SweepPhase,
    now_secs: u64,
    first: SweepEventView,
    second: SweepEventView,
)
    ensures
        action_for(phase_for(action_for(phase, now_secs, first)), now_secs, second)
            == SweepAction::Remove <==> {
            &&& phase == SweepPhase::Scanning
            &&& first matches SweepEventView::Entry(extension)
            &&& is_recovery_extension(extension)
            &&& second matches SweepEventView::Modified(secs)
            &&& is_stale(secs, now_secs)
        },
{
}

/// A removal is counted only after it was asked for: the event before a
/// counted removal is the time of a stale entry, met while dating.
pub proof fn lemma_counts_only_requested_removals(
    phase: SweepPhase,
    now_secs: u64,
    first: SweepEventView,
    second: SweepEventView,
)
    ensures
        counts_as_removed(phase_for(action_for(phase, now_secs, first)), second) <==> {
            &&& phase == SweepPhase::Dating
            &&& first matches SweepEventView::Modified(secs)
            &&& is_stale(secs, now_secs)
            &&& second is Removed
        },
{
}

/// One sweep over the directory of saved items.
#[derive(Debug)]
pub struct RecoverySweep {
    now_secs: u64,
    phase: SweepPhase,
    removed: u32,
}

impl RecoverySweep {
    /// The time at which the sweep runs, in seconds since the epoch.
    pub closed spec fn now(&self) -> u64 {
        self.now_secs
    }

    /// Where the sweep stands with the current entry.
    pub closed spec fn phase(&self) -> SweepPhase {
        self.phase
    }

    /// Number of entries removed so far.
    pub closed spec fn removed(&self) -> u32 {
        self.removed
    }

    /// A sweep that runs at `now_secs` and has removed nothing yet.
    pub fn new(now_secs: u64) -> (r: Self)
        ensures
            r.now() == now_secs,
            r.phase() == SweepPhase::Scanning,
            r.removed() == 0,
    {
        RecoverySweep { now_secs, phase: SweepPhase::Scanning, removed: 0 }
    }

    /// Takes what the driver found and says what it does next.
    pub fn step(&mut self, event: SweepEvent) -> (action: SweepAction)
        requires
            counts_as_removed(old(self).phase(), event@) ==> old(self).removed() < u32::MAX,
        ensures
            action == action_for(old(self).phase(), old(self).now(), event@),
            final(self).phase() == phase_for(action),
            final(self).now() == old(self).now(),
            final(self).removed() == old(self).removed() + if counts_as_removed(
                old(self).phase(),
                event@,
            ) {
                1int
            } else {
                0int
            },
    {
        let action = match self.phase {
            SweepPhase::Scanning => match event {
                SweepEvent::Entry(Some(extension)) => {
                    if same_text(extension.as_str(), RECOVERY_EXTENSION) {
                        SweepAction::ReadModified
                    } else {
                        SweepAction::NextEntry
                    }
                },
                _ => SweepAction::NextEntry,
            },
            SweepPhase::Dating => match event {
                SweepEvent::Modified(secs) => {
                    if self.now_secs >= RETENTION_SECS && secs < self.now_secs - RETENTION_SECS {
                        SweepAction::Remove
                    } else {
                        SweepAction::NextEntry
                    }
                },
                _ => SweepAction::NextEntry,
            },
            SweepPhase::Removing => {
                match event {
                    SweepEvent::Removed => {
                        self.removed = self.removed + 1;
                    },
                    _ => {},
                }
                SweepAction::NextEntry
            },
        };
        self.phase = match action {
            SweepAction::NextEntry => SweepPhase::Scanning,
            SweepAction::ReadModified => SweepPhase::Dating,
            SweepAction::Remove => SweepPhase::Removing,
        };
        action
    }

    /// Number of entries removed so far.
    pub fn removed_count(&self) -> (r: u32)
        ensures
            r == self.removed(),
    {
        self.removed
    }
}

} // verus!
