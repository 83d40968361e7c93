//! Translation of an abstract dialog request into each backend's concrete
//! parameters.
//!
//! The two subprocess tools take incompatible argument grammars; the native
//! API takes a structured options object; the scripting bridge takes a small
//! parameter record. Every translation here is a total, I/O-free function of
//! the request fields and the chosen backend. The starting-directory slot is
//! always filled — with an empty string when the caller has no preference —
//! because the positional grammars require it.

use vstd::prelude::*;
use crate::backend::OpenDialogTarget;
use crate::pattern::glob_pattern;
use crate::pattern::glob_pattern_spec;
use crate::request::OpenMultipleFile;
use crate::request::OpenSingleFile;
use crate::request::SaveFile;

verus! {

/// The starting-directory argument: the hint itself, or an explicit empty
/// marker when there is no preference.
pub open spec fn dir_slot(dir: Option<Seq<char>>) -> Seq<char> {
    match dir {
        Some(d) => d,
        None => Seq::empty(),
    }
}

/// The mode flag selecting files or directories in the first tool's grammar.
pub open spec fn kdialog_target_flag(target: OpenDialogTarget) -> Seq<char> {
    match target {
        OpenDialogTarget::File => "--getopenfilename"@,
        OpenDialogTarget::Directory => "--getexistingdirectory"@,
    }
}

/// The full argument vector of the first subprocess tool: mode flag, then the
/// positional starting directory, then the multi-select flags, then the
/// space-joined glob patterns.
pub open spec fn kdialog_args_spec(
    dir: Option<Seq<char>>,
    filter: Option<Seq<Seq<char>>>,
    multiple: bool,
    target: OpenDialogTarget,
) -> Seq<Seq<char>> {
    seq![kdialog_target_flag(target), dir_slot(dir)] + (if multiple {
        seq!["--multiple"@, "--separate-output"@]
    } else {
        Seq::empty()
    }) + (match filter {
        Some(f) => seq![glob_pattern_spec(f, " "@)],
        None => Seq::empty(),
    })
}

/// The full argument vector of the second subprocess tool: the file-selection
/// flag, the directory flag when directories are the target, the multi-select
/// flags with an explicit line-feed separator, the starting directory behind
/// its flag, and the space-joined glob patterns behind theirs.
pub open spec fn zenity_args_spec(
    dir: Option<Seq<char>>,
    filter: Option<Seq<Seq<char>>>,
    multiple: bool,
    target: OpenDialogTarget,
) -> Seq<Seq<char>> {
    seq!["--file-selection"@] + (if target == OpenDialogTarget::Directory {
        seq!["--directory"@]
    } else {
        Seq::empty()
    }) + (if multiple {
        seq!["--multiple"@, "--separator"@, "\n"@]
    } else {
        Seq::empty()
    }) + seq!["--filename"@, dir_slot(dir)] + (match filter {
        Some(f) => seq!["--file-filter"@, glob_pattern_spec(f, " "@)],
        None => Seq::empty(),
    })
}

/// Whatever the subprocess backend, a filter translates to the same pattern
/// string — the globs of the extensions joined by single spaces — and stands
/// last in the argument vector.
pub proof fn lemma_filter_pattern_backend_independent(
    dir: Option<Seq<char>>,
    filter: Seq<Seq<char>>,
    multiple: bool,
    target: OpenDialogTarget,
)
    ensures
        kdialog_args_spec(dir, Some(filter), multiple, target).last() == glob_pattern_spec(
            filter,
            " "@,
        ),
        zenity_args_spec(dir, Some(filter), multiple, target).last() == glob_pattern_spec(
            filter,
            " "@,
        ),
{
}

/// The starting-directory argument as a fresh string.
fn dir_argument(dir: &Option<String>) -> (r: String)
    ensures
        r@ == dir_slot(dir.deep_view()),
{
    match dir {
        Some(d) => d.clone(),
        None => String::new(),
    }
}

/// Builds the first tool's argument vector for an open dialog.
pub fn kdialog_arguments(
    dir: &Option<String>,
    filter: &Option<Vec<String>>,
    multiple: bool,
    target: OpenDialogTarget,
) -> (args: Vec<String>)
    ensures
        args.deep_view() == kdialog_args_spec(
            dir.deep_view(),
            filter.deep_view(),
            multiple,
            target,
        ),
{
    let mut args: Vec<String> = Vec::new();
    match target {
        OpenDialogTarget::File => args.push(String::from_str("--getopenfilename")),
        OpenDialogTarget::Directory => args.push(String::from_str("--getexistingdirectory")),
    }
    args.push(dir_argument(dir));
    if multiple {
        args.push(String::from_str("--multiple"));
        args.push(String::from_str("--separate-output"));
    }
    match filter {
        Some(f) => args.push(glob_pattern(f, " ")),
        None => (),
    }
    proof {
        assert(args.deep_view() =~~= kdialog_args_spec(
            dir.deep_view(),
            filter.deep_view(),
            multiple,
            target,
        ));
    }
    args
}

/// Builds the second tool's argument vector for an open dialog.
pub fn zenity_arguments(
    dir: &Option<String>,
    filter: &Option<Vec<String>>,
    multiple: bool,
    target: OpenDialogTarget,
) -> (args: Vec<String>)
    ensures
        args.deep_view() == zenity_args_spec(
            dir.deep_view(),
            filter.deep_view(),
            multiple,
            target,
        ),
{
    let mut args: Vec<String> = Vec::new();
    args.push(String::from_str("--file-selection"));
    if target == OpenDialogTarget::Directory {
        args.push(String::from_str("--directory"));
    }
    if multiple {
        args.push(String::from_str("--multiple"));
        args.push(String::from_str("--separator"));
        args.push(String::from_str("\n"));
    }
    args.push(String::from_str("--filename"));
    args.push(dir_argument(dir));
    match filter {
        Some(f) => {
            args.push(String::from_str("--file-filter"));
            args.push(glob_pattern(f, " "));
        },
        None => (),
    }
    proof {
        assert(args.deep_view() =~~= zenity_args_spec(
            dir.deep_view(),
            filter.deep_view(),
            multiple,
            target,
        ));
    }
    args
}

/// One file-type group of the native common-dialog API: a description and a
/// semicolon-joined glob pattern.
pub struct FilterGroup {
    pub description: String,
    pub pattern: String,
}

/// The structured options object of the native common-dialog API.
pub struct NativeDialogOptions {
    pub default_folder: String,
    pub file_name: String,
    pub file_types: Vec<FilterGroup>,
    pub file_must_exist: bool,
    pub path_must_exist: bool,
    pub no_read_only: bool,
    pub overwrite_prompt: bool,
    pub allow_multiselect: bool,
}

/// Builds the native API's options for an open dialog: an existing path is
/// required, a filter becomes one anonymous file-type group with its globs
/// joined by semicolons, and multi-select follows the request's cardinality.
pub fn open_native_options(
    dir: &Option<String>,
    filter: &Option<Vec<String>>,
    multiple: bool,
) -> (opts: NativeDialogOptions)
    ensures
        opts.default_folder@ == dir_slot(dir.deep_view()),
        opts.file_name@ == Seq::<char>::empty(),
        filter is None ==> opts.file_types@.len() == 0,
        filter matches Some(f) ==> opts.file_types@.len() == 1 && opts.file_types@[0].description@
            == Seq::<char>::empty() && opts.file_types@[0].pattern@ == glob_pattern_spec(
            f.deep_view(),
            ";"@,
        ),
        opts.file_must_exist,
        opts.path_must_exist,
        !opts.no_read_only,
        !opts.overwrite_prompt,
        opts.allow_multiselect == multiple,
{
    let mut file_types: Vec<FilterGroup> = Vec::new();
    match filter {
        Some(f) => file_types.push(
            FilterGroup { description: String::new(), pattern: glob_pattern(f, ";") },
        ),
        None => (),
    }
    NativeDialogOptions {
        default_folder: dir_argument(dir),
        file_name: String::new(),
        file_types,
        file_must_exist: true,
        path_must_exist: true,
        no_read_only: false,
        overwrite_prompt: false,
        allow_multiselect: multiple,
    }
}

impl SaveFile {
    /// Builds the native API's options for a save dialog: the default folder
    /// and file name come from the request, each file-type group keeps its
    /// description with its globs joined by semicolons, an overwrite prompt
    /// is requested, and read-only results are refused.
    pub fn native_options(&self) -> (opts: NativeDialogOptions)
        ensures
            opts.default_folder@ == dir_slot(self.dir.deep_view()),
            opts.file_name@ == self.name@,
            opts.file_types@.len() == self.types@.len(),
            forall|i: int|
                0 <= i < self.types@.len() ==> (#[trigger] opts.file_types@[i]).description@
                    == self.types@[i].description@ && opts.file_types@[i].pattern@
                    == glob_pattern_spec(self.types@[i].extensions.deep_view(), ";"@),
            !opts.file_must_exist,
            opts.path_must_exist,
            opts.no_read_only,
            opts.overwrite_prompt,
            !opts.allow_multiselect,
    {
        let mut file_types: Vec<FilterGroup> = Vec::new();
        let mut i: usize = 0;
        while i < self.types.len()
            invariant
                0 <= i <= self.types@.len(),
                file_types@.len() == i,
                forall|k: int|
                    0 <= k < i ==> (#[trigger] file_types@[k]).description@
                        == self.types@[k].description@ && file_types@[k].pattern@
                        == glob_pattern_spec(self.types@[k].extensions.deep_view(), ";"@),
            decreases self.types@.len() - i,
        {
            let group = FilterGroup {
                description: self.types[i].description.clone(),
                pattern: glob_pattern(&self.types[i].extensions, ";"),
            };
            file_types.push(group);
            i = i + 1;
        }
        NativeDialogOptions {
            default_folder: dir_argument(&self.dir),
            file_name: self.name.clone(),
            file_types,
            file_must_exist: false,
            path_must_exist: true,
            no_read_only: true,
            overwrite_prompt: true,
            allow_multiselect: false,
        }
    }
}

/// The parameter record handed to the scripting bridge's file chooser.
pub struct ChooseFileParams {
    pub multiple: bool,
    pub dir: Option<String>,
    pub filter: Option<Vec<String>>,
}

/// The parameter record handed to the scripting bridge's save-name chooser.
pub struct ChooseFileNameParams {
    pub dir: Option<String>,
    pub name: String,
}

/// Copies an optional directory hint into a fresh value.
fn clone_opt_string(o: &Option<String>) -> (r: Option<String>)
    ensures
        r.deep_view() == o.deep_view(),
{
    match o {
        Some(s) => Some(s.clone()),
        None => None,
    }
}

/// Copies an optional extension list into a fresh value.
fn clone_opt_filter(o: &Option<Vec<String>>) -> (r: Option<Vec<String>>)
    ensures
        r.deep_view() == o.deep_view(),
{
    match o {
        Some(v) => {
            let mut c: Vec<String> = Vec::new();
            let mut i: usize = 0;
            while i < v.len()
                invariant
                    0 <= i <= v@.len(),
                    c@.len() == i,
                    forall|k: int| 0 <= k < i ==> (#[trigger] c@[k])@ == v@[k]@,
                decreases v@.len() - i,
            {
                c.push(v[i].clone());
                i = i + 1;
            }
            proof {
                assert(c.deep_view() =~~= v.deep_view());
            }
            Some(c)
        },
        None => None,
    }
}

impl OpenSingleFile {
    /// The scripting bridge's parameters for this request: single selection.
    pub fn script_params(&self) -> (p: ChooseFileParams)
        ensures
            p.multiple == false,
            p.dir.deep_view() == self.dir.deep_view(),
            p.filter.deep_view() == self.filter.deep_view(),
    {
        ChooseFileParams {
            multiple: false,
            dir: clone_opt_string(&self.dir),
            filter: clone_opt_filter(&self.filter),
        }
    }
}

impl OpenMultipleFile {
    /// The scripting bridge's parameters for this request: multiple selection.
    pub fn script_params(&self) -> (p: ChooseFileParams)
        ensures
            p.multiple == true,
            p.dir.deep_view() == self.dir.deep_view(),
            p.filter.deep_view() == self.filter.deep_view(),
    {
        ChooseFileParams {
            multiple: true,
            dir: clone_opt_string(&self.dir),
            filter: clone_opt_filter(&self.filter),
        }
    }
}

impl SaveFile {
    /// The scripting bridge's parameters for this request: directory hint and
    /// default file name.
    pub fn script_name_params(&self) -> (p: ChooseFileNameParams)
        ensures
            p.dir.deep_view() == self.dir.deep_view(),
            p.name@ == self.name@,
    {
        ChooseFileNameParams { dir: clone_opt_string(&self.dir), name: self.name.clone() }
    }
}

} // verus!
