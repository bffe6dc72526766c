//! Taking a screenshot through a platform tool that writes a file: the
//! order of the calls that name the temporary file, run the tool, read the
//! file back and delete it.
//!
//! The calls themselves are the caller's; this module decides their order
//! and what each outcome leads to.

use vstd::prelude::*;
use vstd::string::*;
use crate::error::{default_message, CaptureError, ErrorKind};
use crate::store::{screenshot_file_name, screenshot_name};

verus! {

/// The call that a screenshot asks its caller to make next, or how it ended.
#[derive(Clone, Copy, Debug, PartialEq, Eq, Structural)]
pub enum ShotStep {
    /// Read the clock.
    ReadClock,
    /// Run the tool so that it writes to the file named by `file_name` in
    /// the directory for temporary files.
    RunTool,
    /// Read that file.
    ReadFile,
    /// Delete that file; if it cannot be deleted it is left behind.
    RemoveFile,
    /// The screenshot is in `file`.
    Taken,
    /// There is no screenshot; `error` says why.
    Failed,
}

/// What a screenshot in progress is.
pub struct ShotModel {
    pub step: ShotStep,
    pub name: Seq<char>,
    pub file: Seq<u8>,
    pub failure: Option<(ErrorKind, Seq<char>)>,
}

impl ShotModel {
    /// A screenshot that has not asked for anything yet.
    pub open spec fn start() -> ShotModel {
        ShotModel { step: ShotStep::ReadClock, name: Seq::empty(), file: Seq::empty(), failure: None }
    }

    /// Whether the screenshot is over.
    pub open spec fn is_over(self) -> bool {
        self.step == ShotStep::Taken || self.step == ShotStep::Failed
    }

    /// The screenshot, failed for a reason of `kind` told by `message`.
    pub open spec fn failed(self, kind: ErrorKind, message: Seq<char>) -> ShotModel {
        ShotModel { step: ShotStep::Failed, failure: Some((kind, message)), ..self }
    }

    /// The clock says that `millis` milliseconds have passed since the Unix
    /// epoch.
    pub open spec fn on_clock_read(self, millis: nat) -> ShotModel {
        if self.step == ShotStep::ReadClock {
            ShotModel { step: ShotStep::RunTool, name: screenshot_name(millis), ..self }
        } else {
            self
        }
    }

    /// The clock could not be read.
    pub open spec fn on_clock_failed(self) -> ShotModel {
        if self.step == ShotStep::ReadClock {
            self.failed(ErrorKind::ClockError, default_message(ErrorKind::ClockError))
        } else {
            self
        }
    }

    /// The tool could not be started.
    pub open spec fn on_tool_missing(self, detail: Seq<char>) -> ShotModel {
        if self.step == ShotStep::RunTool {
            self.failed(
                ErrorKind::PlatformResourceFailure,
                "Failed to run screencapture: "@ + detail,
            )
        } else {
            self
        }
    }

    /// The tool ran and ended, `succeeded` saying how.
    pub open spec fn on_tool_exited(self, succeeded: bool) -> ShotModel {
        if self.step == ShotStep::RunTool {
            if succeeded {
                ShotModel { step: ShotStep::ReadFile, ..self }
            } else {
                self.failed(ErrorKind::PlatformResourceFailure, "screencapture command failed."@)
            }
        } else {
            self
        }
    }

    /// The file holds `file`. It is deleted next.
    pub open spec fn on_file_read(self, file: Seq<u8>) -> ShotModel {
        if self.step == ShotStep::ReadFile {
            ShotModel { step: ShotStep::RemoveFile, file, ..self }
        } else {
            self
        }
    }

    /// The file could not be read. It is deleted next all the same.
    pub open spec fn on_file_unreadable(self, detail: Seq<char>) -> ShotModel {
        if self.step == ShotStep::ReadFile {
            ShotModel {
                step: ShotStep::RemoveFile,
                failure: Some((ErrorKind::PlatformResourceFailure, "Failed to read capture: "@ + detail)),
                ..self
            }
        } else {
            self
        }
    }

    /// The file was deleted, or could not be.
    pub open spec fn on_removed(self) -> ShotModel {
        if self.step == ShotStep::RemoveFile {
            ShotModel {
                step: if self.failure is None {
                    ShotStep::Taken
                } else {
                    ShotStep::Failed
                },
                ..self
            }
        } else {
            self
        }
    }
}

/// The temporary file is deleted whether or not it could be read: after a
/// read or a failed read the next call is the deletion, and only then is the
/// screenshot over.
pub proof fn lemma_temporary_file_is_removed(shot: ShotModel, file: Seq<u8>, detail: Seq<char>)
    requires
        shot.step == ShotStep::ReadFile,
        shot.failure is None,
    ensures
        shot.on_file_read(file).step == ShotStep::RemoveFile,
        shot.on_file_unreadable(detail).step == ShotStep::RemoveFile,
        shot.on_file_read(file).on_removed().step == ShotStep::Taken,
        shot.on_file_read(file).on_removed().file == file,
        shot.on_file_unreadable(detail).on_removed().step == ShotStep::Failed,
{
}

/// A screenshot in progress.
pub struct Screenshot {
    step: ShotStep,
    name: String,
    file: Vec<u8>,
    error: Option<CaptureError>,
}

impl View for Screenshot {
    type V = ShotModel;

    closed spec fn view(&self) -> ShotModel {
        ShotModel {
            step: self.step,
            name: self.name@,
            file: self.file@,
            failure: match self.error {
                Some(error) => Some((error.kind, error.message@)),
                None => None,
            },
        }
    }
}

impl Screenshot {
    /// A screenshot that has not asked for anything yet. Its first call is
    /// for the clock.
    pub fn begin() -> (out: Screenshot)
        ensures
            out@ == ShotModel::start(),
    {
        Screenshot { step: ShotStep::ReadClock, name: String::new(), file: Vec::new(), error: None }
    }

    /// The call to make next, or how the screenshot ended.
    pub fn step(&self) -> (out: ShotStep)
        ensures
            out == self@.step,
    {
        self.step
    }

    /// The name of the temporary file; empty until the clock is read.
    pub fn file_name(&self) -> (out: &str)
        ensures
            out@ == self@.name,
    {
        self.name.as_str()
    }

    /// The bytes read from the temporary file.
    pub fn file(&self) -> (out: &Vec<u8>)
        ensures
            out@ == self@.file,
    {
        &self.file
    }

    /// Why there is no screenshot, if there is none.
    pub fn error(&self) -> (out: Option<CaptureError>)
        ensures
            match out {
                Some(error) => self@.failure == Some((error.kind, error.message@)),
                None => self@.failure is None,
            },
    {
        match &self.error {
            Some(error) => Some(error.clone()),
            None => None,
        }
    }

    /// The clock says that `millis` milliseconds have passed since the Unix
    /// epoch.
    pub fn clock_read(&mut self, millis: u128) -> (out: ShotStep)
        ensures
            final(self)@ == old(self)@.on_clock_read(millis as nat),
            out == final(self)@.step,
    {
        if self.step == ShotStep::ReadClock {
            self.name = screenshot_file_name(millis);
            self.step = ShotStep::RunTool;
        }
        self.step
    }

    /// The clock could not be read.
    pub fn clock_failed(&mut self) -> (out: ShotStep)
        ensures
            final(self)@ == old(self)@.on_clock_failed(),
            out == final(self)@.step,
    {
        if self.step == ShotStep::ReadClock {
            self.error = Some(CaptureError::of_kind(ErrorKind::ClockError));
            self.step = ShotStep::Failed;
        }
        self.step
    }

    /// The tool could not be started.
    pub fn tool_missing(&mut self, detail: &str) -> (out: ShotStep)
        ensures
            final(self)@ == old(self)@.on_tool_missing(detail@),
            out == final(self)@.step,
    {
        if self.step == ShotStep::RunTool {
            self.error = Some(
                CaptureError::with_detail(
                    ErrorKind::PlatformResourceFailure,
                    "Failed to run screencapture: ",
                    detail,
                ),
            );
            self.step = ShotStep::Failed;
        }
        self.step
    }

    /// The tool ran and ended, `succeeded` saying how.
    pub fn tool_exited(&mut self, succeeded: bool) -> (out: ShotStep)
        ensures
            final(self)@ == old(self)@.on_tool_exited(succeeded),
            out == final(self)@.step,
    {
        if self.step == ShotStep::RunTool {
            if succeeded {
                self.step = ShotStep::ReadFile;
            } else {
                self.error = Some(
                    CaptureError::described(
                        ErrorKind::PlatformResourceFailure,
                        "screencapture command failed.",
                    ),
                );
                self.step = ShotStep::Failed;
            }
        }
        self.step
    }

    /// The file holds `file`.
    pub fn file_read(&mut self, file: Vec<u8>) -> (out: ShotStep)
        ensures
            final(self)@ == old(self)@.on_file_read(file@),
            out == final(self)@.step,
    {
        if self.step == ShotStep::ReadFile {
            self.file = file;
            self.step = ShotStep::RemoveFile;
        }
        self.step
    }

    /// The file could not be read.
    pub fn file_unreadable(&mut self, detail: &str) -> (out: ShotStep)
        ensures
            final(self)@ == old(self)@.on_file_unreadable(detail@),
            out == final(self)@.step,
    {
        if self.step == ShotStep::ReadFile {
            self.error = Some(
                CaptureError::with_detail(
                    ErrorKind::PlatformResourceFailure,
                    "Failed to read capture: ",
                    detail,
                ),
            );
            self.step = ShotStep::RemoveFile;
        }
        self.step
    }

    /// The file was deleted, or could not be.
    pub fn removed(&mut self) -> (out: ShotStep)
        ensures
            final(self)@ == old(self)@.on_removed(),
            out == final(self)@.step,
    {
        if self.step == ShotStep::RemoveFile {
            self.step = if self.error.is_none() {
                ShotStep::Taken
            } else {
                ShotStep::Failed
            };
        }
        self.step
    }
}

} // verus!
