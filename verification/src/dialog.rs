//! The dispatch facade and the result interpreter.
//!
//! Each request variant plans one subprocess invocation — or fails with
//! `NoImplementation` before anything could be spawned when no backend is
//! available — and interprets the completed invocation's exit code and raw
//! output bytes. Exit code 0 means the user picked paths (the payload holds
//! them), exit code 1 means the user cancelled (an absent or empty result,
//! never an error), and any other completion is an `UnexpectedOutput` error
//! naming the tool that was invoked. Spawning itself is I/O and belongs to
//! the embedding binary.

use vstd::prelude::*;
use crate::args::kdialog_args_spec;
use crate::args::kdialog_arguments;
use crate::args::zenity_args_spec;
use crate::args::zenity_arguments;
use crate::backend::OpenDialogTarget;
use crate::backend::UseCommand;
use crate::decode::split_paths;
use crate::decode::split_paths_spec;
use crate::decode::trim_newlines;
use crate::decode::trim_newlines_spec;
use crate::error::Error;
use crate::request::OpenMultipleFile;
use crate::request::OpenSingleDir;
use crate::request::OpenSingleFile;

verus! {

/// Classifies a completed subprocess invocation: exit code 0 is success with
/// the payload, exit code 1 is a user cancellation, and anything else —
/// another code, or death without a code — is an unexpected outcome charged
/// to the invoked backend.
pub fn interpret_exit(backend: UseCommand, code: Option<i32>, stdout: Vec<u8>) -> (r: Result<
    Option<Vec<u8>>,
    Error,
>)
    ensures
        code == Some(0i32) ==> (r matches Ok(p) && p matches Some(v) && v == stdout),
        code == Some(1i32) ==> (r matches Ok(p) && p is None),
        !(code == Some(0i32) || code == Some(1i32)) ==> r == Err::<Option<Vec<u8>>, Error>(
            Error::UnexpectedOutput(backend),
        ),
{
    match code {
        Some(0i32) => Ok(Some(stdout)),
        Some(1i32) => Ok(None),
        _ => Err(Error::UnexpectedOutput(backend)),
    }
}

/// Interprets a completed invocation for a single-selection request: on
/// success the payload, trimmed of its leading and trailing newline runs, is
/// the one selected path; a cancellation is an absent result.
pub fn finish_single(backend: UseCommand, code: Option<i32>, stdout: Vec<u8>) -> (r: Result<
    Option<Vec<u8>>,
    Error,
>)
    ensures
        code == Some(0i32) ==> (r matches Ok(p) && p matches Some(v) && v@ == trim_newlines_spec(
            stdout@,
        )),
        code == Some(1i32) ==> (r matches Ok(p) && p is None),
        !(code == Some(0i32) || code == Some(1i32)) ==> r == Err::<Option<Vec<u8>>, Error>(
            Error::UnexpectedOutput(backend),
        ),
{
    match interpret_exit(backend, code, stdout) {
        Ok(Some(payload)) => Ok(Some(trim_newlines(payload.as_slice()))),
        Ok(None) => Ok(None),
        Err(e) => Err(e),
    }
}

/// Interprets a completed invocation for a multi-selection request: on
/// success the payload is split on newline bytes into the selected paths, in
/// the tool's order; a cancellation is an empty list.
pub fn finish_multiple(backend: UseCommand, code: Option<i32>, stdout: Vec<u8>) -> (r: Result<
    Vec<Vec<u8>>,
    Error,
>)
    ensures
        code == Some(0i32) ==> (r matches Ok(v) && v.deep_view() == split_paths_spec(stdout@)),
        code == Some(1i32) ==> (r matches Ok(v) && v@.len() == 0),
        !(code == Some(0i32) || code == Some(1i32)) ==> r == Err::<Vec<Vec<u8>>, Error>(
            Error::UnexpectedOutput(backend),
        ),
{
    match interpret_exit(backend, code, stdout) {
        Ok(Some(payload)) => Ok(split_paths(payload.as_slice())),
        Ok(None) => Ok(Vec::new()),
        Err(e) => Err(e),
    }
}

/// Plans one subprocess invocation: no available backend fails with
/// `NoImplementation` before anything could be spawned; otherwise the request
/// fields are translated into the chosen tool's argument grammar.
pub fn plan_subprocess(
    backend: Option<UseCommand>,
    dir: &Option<String>,
    filter: &Option<Vec<String>>,
    multiple: bool,
    target: OpenDialogTarget,
) -> (r: Result<Vec<String>, Error>)
    ensures
        backend is None ==> r == Err::<Vec<String>, Error>(Error::NoImplementation),
        backend == Some(UseCommand::KDialog) ==> (r matches Ok(args) && args.deep_view()
            == kdialog_args_spec(dir.deep_view(), filter.deep_view(), multiple, target)),
        backend == Some(UseCommand::Zenity) ==> (r matches Ok(args) && args.deep_view()
            == zenity_args_spec(dir.deep_view(), filter.deep_view(), multiple, target)),
{
    match backend {
        Some(UseCommand::KDialog) => Ok(kdialog_arguments(dir, filter, multiple, target)),
        Some(UseCommand::Zenity) => Ok(zenity_arguments(dir, filter, multiple, target)),
        None => Err(Error::NoImplementation),
    }
}

impl OpenSingleFile {
    /// Plans this request on the probed backend: a single file selection.
    pub fn plan(&self, backend: Option<UseCommand>) -> (r: Result<Vec<String>, Error>)
        ensures
            backend is None ==> r == Err::<Vec<String>, Error>(Error::NoImplementation),
            backend == Some(UseCommand::KDialog) ==> (r matches Ok(args) && args.deep_view()
                == kdialog_args_spec(
                self.dir.deep_view(),
                self.filter.deep_view(),
                false,
                OpenDialogTarget::File,
            )),
            backend == Some(UseCommand::Zenity) ==> (r matches Ok(args) && args.deep_view()
                == zenity_args_spec(
                self.dir.deep_view(),
                self.filter.deep_view(),
                false,
                OpenDialogTarget::File,
            )),
    {
        plan_subprocess(backend, &self.dir, &self.filter, false, OpenDialogTarget::File)
    }
}

impl OpenMultipleFile {
    /// Plans this request on the probed backend: a multiple file selection.
    pub fn plan(&self, backend: Option<UseCommand>) -> (r: Result<Vec<String>, Error>)
        ensures
            backend is None ==> r == Err::<Vec<String>, Error>(Error::NoImplementation),
            backend == Some(UseCommand::KDialog) ==> (r matches Ok(args) && args.deep_view()
                == kdialog_args_spec(
                self.dir.deep_view(),
                self.filter.deep_view(),
                true,
                OpenDialogTarget::File,
            )),
            backend == Some(UseCommand::Zenity) ==> (r matches Ok(args) && args.deep_view()
                == zenity_args_spec(
                self.dir.deep_view(),
                self.filter.deep_view(),
                true,
                OpenDialogTarget::File,
            )),
    {
        plan_subprocess(backend, &self.dir, &self.filter, true, OpenDialogTarget::File)
    }
}

impl OpenSingleDir {
    /// Plans this request on the probed backend: a single directory
    /// selection, never filtered.
    pub fn plan(&self, backend: Option<UseCommand>) -> (r: Result<Vec<String>, Error>)
        ensures
            backend is None ==> r == Err::<Vec<String>, Error>(Error::NoImplementation),
            backend == Some(UseCommand::KDialog) ==> (r matches Ok(args) && args.deep_view()
                == kdialog_args_spec(
                self.dir.deep_view(),
                None,
                false,
                OpenDialogTarget::Directory,
            )),
            backend == Some(UseCommand::Zenity) ==> (r matches Ok(args) && args.deep_view()
                == zenity_args_spec(
                self.dir.deep_view(),
                None,
                false,
                OpenDialogTarget::Directory,
            )),
    {
        let no_filter: Option<Vec<String>> = None;
        plan_subprocess(backend, &self.dir, &no_filter, false, OpenDialogTarget::Directory)
    }
}

/// The structured result of one native common-dialog API call, as the
/// embedding binary reports it: the chosen paths, a user cancellation, or a
/// genuine API failure carrying the failing call's name.
pub enum NativeDialogOutcome {
    Chosen(Vec<String>),
    Cancelled,
    Failed(String),
}

/// Classifies a native API call's outcome: chosen paths are a present result,
/// a user cancellation is an absent result — never an error — and an API
/// failure surfaces as `ImplementationError` naming the failing call.
pub fn interpret_native(outcome: NativeDialogOutcome) -> (r: Result<Option<Vec<String>>, Error>)
    ensures
        outcome matches NativeDialogOutcome::Chosen(p) ==> (r matches Ok(s) && s matches Some(v)
            && v == p),
        outcome is Cancelled ==> (r matches Ok(s) && s is None),
        outcome matches NativeDialogOutcome::Failed(m) ==> (r matches Err(e) && e matches
            Error::ImplementationError(n) && n == m),
{
    match outcome {
        NativeDialogOutcome::Chosen(paths) => Ok(Some(paths)),
        NativeDialogOutcome::Cancelled => Ok(None),
        NativeDialogOutcome::Failed(method) => Err(Error::ImplementationError(method)),
    }
}

} // verus!
