//! Storing one capture in the cache: the order of the calls that create the
//! directory, read the clock, write the file and sweep out old captures.
//!
//! The calls themselves are the caller's; this module decides their order
//! and what each outcome leads to.

use vstd::prelude::*;
use vstd::string::*;
use crate::error::{default_message, CaptureError, ErrorKind};
use crate::store::{
    capture_file_name,
    capture_name,
    listing,
    prune_captures,
    removal_order,
    DirEntry,
    EntryModel,
};

verus! {

/// The call that a save asks its caller to make next, or how it ended.
#[derive(Clone, Copy, Debug, PartialEq, Eq, Structural)]
pub enum SaveStep {
    /// Create the capture directory with its parents, if it is not there.
    CreateDirectory,
    /// Read the clock.
    ReadClock,
    /// Write the bytes of the capture to the file named by `file_name`.
    WriteFile,
    /// List the capture directory.
    ListDirectory,
    /// Delete the listed files at `removals`; a file that cannot be deleted
    /// is left behind.
    RemoveFiles,
    /// The capture is stored in the file named by `file_name`.
    Stored,
    /// The capture is not stored; `error` says why.
    Failed,
}

/// What a save is: where it stands, the file it writes, the files it asks to
/// delete, and why it failed, if it did.
pub struct SaveModel {
    pub step: SaveStep,
    pub max_files: nat,
    pub name: Seq<char>,
    pub removals: Seq<usize>,
    pub failure: Option<(ErrorKind, Seq<char>)>,
}

impl SaveModel {
    /// A save that has not asked for anything yet.
    pub open spec fn start(max_files: nat) -> SaveModel {
        SaveModel {
            step: SaveStep::CreateDirectory,
            max_files,
            name: Seq::empty(),
            removals: Seq::empty(),
            failure: None,
        }
    }

    /// Whether the save is over.
    pub open spec fn is_over(self) -> bool {
        self.step == SaveStep::Stored || self.step == SaveStep::Failed
    }

    /// The save at `step`, all else as it was.
    pub open spec fn at(self, step: SaveStep) -> SaveModel {
        SaveModel { step, ..self }
    }

    /// The save, failed for a reason of `kind` told by `message`.
    pub open spec fn failed(self, kind: ErrorKind, message: Seq<char>) -> SaveModel {
        SaveModel { step: SaveStep::Failed, failure: Some((kind, message)), ..self }
    }

    /// The directory is there.
    pub open spec fn on_directory_ready(self) -> SaveModel {
        if self.step == SaveStep::CreateDirectory {
            self.at(SaveStep::ReadClock)
        } else {
            self
        }
    }

    /// The cache directory of the application could not be found out.
    pub open spec fn on_directory_unknown(self, detail: Seq<char>) -> SaveModel {
        if self.step == SaveStep::CreateDirectory {
            self.failed(ErrorKind::StorageUnavailable, "Failed to locate cache dir: "@ + detail)
        } else {
            self
        }
    }

    /// The directory could not be created.
    pub open spec fn on_directory_failed(self, detail: Seq<char>) -> SaveModel {
        if self.step == SaveStep::CreateDirectory {
            self.failed(ErrorKind::StorageUnavailable, "Failed to create capture dir: "@ + detail)
        } else {
            self
        }
    }

    /// The clock says that `millis` milliseconds have passed since the Unix
    /// epoch.
    pub open spec fn on_clock_read(self, millis: nat) -> SaveModel {
        if self.step == SaveStep::ReadClock {
            SaveModel { step: SaveStep::WriteFile, name: capture_name(millis), ..self }
        } else {
            self
        }
    }

    /// The clock could not be read. No file is written under a name made up
    /// or used before.
    pub open spec fn on_clock_failed(self) -> SaveModel {
        if self.step == SaveStep::ReadClock {
            self.failed(ErrorKind::ClockError, default_message(ErrorKind::ClockError))
        } else {
            self
        }
    }

    /// The file is written.
    pub open spec fn on_written(self) -> SaveModel {
        if self.step == SaveStep::WriteFile {
            self.at(SaveStep::ListDirectory)
        } else {
            self
        }
    }

    /// The file could not be written.
    pub open spec fn on_write_failed(self, detail: Seq<char>) -> SaveModel {
        if self.step == SaveStep::WriteFile {
            self.failed(ErrorKind::StorageUnavailable, "Failed to write capture: "@ + detail)
        } else {
            self
        }
    }

    /// The directory holds `entries`; a directory that cannot be listed
    /// counts as empty.
    pub open spec fn on_listed(self, entries: Seq<EntryModel>) -> SaveModel {
        if self.step == SaveStep::ListDirectory {
            let removals = removal_order(entries, self.max_files);
            SaveModel {
                step: if removals.len() == 0 {
                    SaveStep::Stored
                } else {
                    SaveStep::RemoveFiles
                },
                removals,
                ..self
            }
        } else {
            self
        }
    }

    /// The files were deleted, or could not be.
    pub open spec fn on_removed(self) -> SaveModel {
        if self.step == SaveStep::RemoveFiles {
            self.at(SaveStep::Stored)
        } else {
            self
        }
    }
}

/// A clock that cannot be read ends the save before anything is written.
pub proof fn lemma_no_write_without_clock(save: SaveModel)
    ensures
        save.on_clock_failed().step != SaveStep::WriteFile || save.step == SaveStep::WriteFile,
        save.step == SaveStep::ReadClock ==> save.on_clock_failed().step == SaveStep::Failed,
        save.step == SaveStep::ReadClock ==> save.on_clock_failed().failure == Some(
            (ErrorKind::ClockError, default_message(ErrorKind::ClockError)),
        ),
{
}

/// Once the file is written the save cannot fail any more: whatever the
/// listing holds and whether or not the old files can be deleted, it ends
/// with the capture stored under the name it was written to.
pub proof fn lemma_sweep_cannot_fail(save: SaveModel, entries: Seq<EntryModel>)
    requires
        save.step == SaveStep::WriteFile,
    ensures
        save.on_written().on_listed(entries).on_removed().step == SaveStep::Stored,
        save.on_written().on_listed(entries).on_removed().name == save.name,
        save.on_written().on_listed(entries).on_removed().failure == save.failure,
        save.on_written().on_listed(entries).removals == removal_order(entries, save.max_files),
{
}

/// A save that is over stays as it is, whatever it is told.
pub proof fn lemma_finished_save_is_final(save: SaveModel, detail: Seq<char>, millis: nat, entries: Seq<EntryModel>)
    requires
        save.is_over(),
    ensures
        save.on_directory_ready() == save,
        save.on_directory_unknown(detail) == save,
        save.on_directory_failed(detail) == save,
        save.on_clock_read(millis) == save,
        save.on_clock_failed() == save,
        save.on_written() == save,
        save.on_write_failed(detail) == save,
        save.on_listed(entries) == save,
        save.on_removed() == save,
{
}

/// A save fails only where the directory, the clock or the write fails: a
/// save that is told of successes alone ends with the capture stored.
pub proof fn lemma_save_succeeds(max_files: nat, millis: nat, entries: Seq<EntryModel>)
    ensures
        SaveModel::start(max_files).on_directory_ready().on_clock_read(millis).on_written().on_listed(
            entries,
        ).on_removed().step == SaveStep::Stored,
        SaveModel::start(max_files).on_directory_ready().on_clock_read(millis).on_written().on_listed(
            entries,
        ).on_removed().name == capture_name(millis),
{
}

/// One capture on its way into the cache.
pub struct SaveCapture {
    step: SaveStep,
    max_files: usize,
    name: String,
    removals: Vec<usize>,
    error: Option<CaptureError>,
}

impl View for SaveCapture {
    type V = SaveModel;

    closed spec fn view(&self) -> SaveModel {
        SaveModel {
            step: self.step,
            max_files: self.max_files as nat,
            name: self.name@,
            removals: self.removals@,
            failure: match self.error {
                Some(error) => Some((error.kind, error.message@)),
                None => None,
            },
        }
    }
}

impl SaveCapture {
    /// A save into a cache that keeps `max_files` captures. Its first call
    /// is for the directory.
    pub fn begin(max_files: usize) -> (out: SaveCapture)
        ensures
            out@ == SaveModel::start(max_files as nat),
    {
        SaveCapture {
            step: SaveStep::CreateDirectory,
            max_files,
            name: String::new(),
            removals: Vec::new(),
            error: None,
        }
    }

    /// The call to make next, or how the save ended.
    pub fn step(&self) -> (out: SaveStep)
        ensures
            out == self@.step,
    {
        self.step
    }

    /// The name of the file that the capture is written to; empty until the
    /// clock is read.
    pub fn file_name(&self) -> (out: &str)
        ensures
            out@ == self@.name,
    {
        self.name.as_str()
    }

    /// The positions, in the listing, of the files to delete.
    pub fn removals(&self) -> (out: &Vec<usize>)
        ensures
            out@ == self@.removals,
    {
        &self.removals
    }

    /// Why the save failed, if it did.
    pub fn error(&self) -> (out: Option<CaptureError>)
        ensures
            match out {
                Some(error) => self@.failure == Some((error.kind, error.message@)),
                None => self@.failure is None,
            },
    {
        match &self.error {
            Some(error) => Some(error.clone()),
            None => None,
        }
    }

    /// Ends the save with `error`.
    fn fail(&mut self, error: CaptureError)
        ensures
            final(self)@ == old(self)@.failed(error.kind, error.message@),
    {
        self.step = SaveStep::Failed;
        self.error = Some(error);
    }

    /// The directory is there.
    pub fn directory_ready(&mut self) -> (out: SaveStep)
        ensures
            final(self)@ == old(self)@.on_directory_ready(),
            out == final(self)@.step,
    {
        if self.step == SaveStep::CreateDirectory {
            self.step = SaveStep::ReadClock;
        }
        self.step
    }

    /// The cache directory of the application could not be found out.
    pub fn directory_unknown(&mut self, detail: &str) -> (out: SaveStep)
        ensures
            final(self)@ == old(self)@.on_directory_unknown(detail@),
            out == final(self)@.step,
    {
        if self.step == SaveStep::CreateDirectory {
            self.fail(
                CaptureError::with_detail(
                    ErrorKind::StorageUnavailable,
                    "Failed to locate cache dir: ",
                    detail,
                ),
            );
        }
        self.step
    }

    /// The directory could not be created.
    pub fn directory_failed(&mut self, detail: &str) -> (out: SaveStep)
        ensures
            final(self)@ == old(self)@.on_directory_failed(detail@),
            out == final(self)@.step,
    {
        if self.step == SaveStep::CreateDirectory {
            self.fail(
                CaptureError::with_detail(
                    ErrorKind::StorageUnavailable,
                    "Failed to create capture dir: ",
                    detail,
                ),
            );
        }
        self.step
    }

    /// The clock says that `millis` milliseconds have passed since the Unix
    /// epoch.
    pub fn clock_read(&mut self, millis: u128) -> (out: SaveStep)
        ensures
            final(self)@ == old(self)@.on_clock_read(millis as nat),
            out == final(self)@.step,
    {
        if self.step == SaveStep::ReadClock {
            self.name = capture_file_name(millis);
            self.step = SaveStep::WriteFile;
        }
        self.step
    }

    /// The clock could not be read.
    pub fn clock_failed(&mut self) -> (out: SaveStep)
        ensures
            final(self)@ == old(self)@.on_clock_failed(),
            out == final(self)@.step,
    {
        if self.step == SaveStep::ReadClock {
            self.fail(CaptureError::of_kind(ErrorKind::ClockError));
        }
        self.step
    }

    /// The file is written.
    pub fn written(&mut self) -> (out: SaveStep)
        ensures
            final(self)@ == old(self)@.on_written(),
            out == final(self)@.step,
    {
        if self.step == SaveStep::WriteFile {
            self.step = SaveStep::ListDirectory;
        }
        self.step
    }

    /// The file could not be written.
    pub fn write_failed(&mut self, detail: &str) -> (out: SaveStep)
        ensures
            final(self)@ == old(self)@.on_write_failed(detail@),
            out == final(self)@.step,
    {
        if self.step == SaveStep::WriteFile {
            self.fail(
                CaptureError::with_detail(
                    ErrorKind::StorageUnavailable,
                    "Failed to write capture: ",
                    detail,
                ),
            );
        }
        self.step
    }

    /// The directory holds `entries`; a directory that cannot be listed
    /// counts as empty.
    pub fn listed(&mut self, entries: &Vec<DirEntry>) -> (out: SaveStep)
        ensures
            final(self)@ == old(self)@.on_listed(listing(entries@)),
            out == final(self)@.step,
            forall|k: int|
                0 <= k < final(self)@.removals.len() && old(self)@.step == SaveStep::ListDirectory
                    ==> (#[trigger] final(self)@.removals[k]) < entries@.len(),
    {
        if self.step == SaveStep::ListDirectory {
            self.removals = prune_captures(entries, self.max_files);
            self.step = if self.removals.len() == 0 {
                SaveStep::Stored
            } else {
                SaveStep::RemoveFiles
            };
        }
        self.step
    }

    /// The files were deleted, or could not be.
    pub fn removed(&mut self) -> (out: SaveStep)
        ensures
            final(self)@ == old(self)@.on_removed(),
            out == final(self)@.step,
    {
        if self.step == SaveStep::RemoveFiles {
            self.step = SaveStep::Stored;
        }
        self.step
    }
}

} // verus!
