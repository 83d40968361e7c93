use native_dialog::args::{
    kdialog_arguments, open_native_options, zenity_arguments,
};
use native_dialog::backend::{OpenDialogTarget, UseCommand};
use native_dialog::decode::{split_paths, trim_newlines};
use native_dialog::dialog::{
    finish_multiple, finish_single, interpret_exit, interpret_native, plan_subprocess,
    NativeDialogOutcome,
};
use native_dialog::error::Error;
use native_dialog::pattern::glob_pattern;
use native_dialog::request::{FileType, OpenMultipleFile, OpenSingleDir, OpenSingleFile, SaveFile};

fn strings(items: &[&str]) -> Vec<String> {
    items.iter().map(|s| s.to_string()).collect()
}

#[test]
fn glob_pattern_space_joined() {
    assert_eq!(glob_pattern(&strings(&["e1", "e2", "e3"]), " "), "*.e1 *.e2 *.e3");
    assert_eq!(glob_pattern(&strings(&["png"]), " "), "*.png");
    assert_eq!(glob_pattern(&strings(&[]), " "), "");
}

#[test]
fn glob_pattern_semicolon_joined() {
    assert_eq!(glob_pattern(&strings(&["jpeg", "jpg"]), ";"), "*.jpeg;*.jpg");
}

#[test]
fn no_backend_is_no_implementation() {
    let single = OpenSingleFile { dir: None, filter: None };
    assert_eq!(single.plan(None), Err(Error::NoImplementation));
    let multiple = OpenMultipleFile { dir: None, filter: Some(strings(&["png"])) };
    assert_eq!(multiple.plan(None), Err(Error::NoImplementation));
    let dir = OpenSingleDir { dir: Some("/tmp".to_string()) };
    assert_eq!(dir.plan(None), Err(Error::NoImplementation));
}

#[test]
fn kdialog_multiple_files_argument_sequence() {
    let request = OpenMultipleFile { dir: None, filter: Some(strings(&["png", "jpg"])) };
    let args = request.plan(Some(UseCommand::KDialog)).unwrap();
    assert_eq!(
        args,
        strings(&["--getopenfilename", "", "--multiple", "--separate-output", "*.png *.jpg"])
    );
}

#[test]
fn kdialog_multiple_files_decodes_stdout() {
    let paths = finish_multiple(UseCommand::KDialog, Some(0), b"a.png\nb.jpg\n".to_vec()).unwrap();
    assert_eq!(paths, vec![b"a.png".to_vec(), b"b.jpg".to_vec()]);
}

#[test]
fn kdialog_single_file_with_dir() {
    let request =
        OpenSingleFile { dir: Some("/home/user".to_string()), filter: Some(strings(&["rs"])) };
    let args = request.plan(Some(UseCommand::KDialog)).unwrap();
    assert_eq!(args, strings(&["--getopenfilename", "/home/user", "*.rs"]));
}

#[test]
fn kdialog_directory_target() {
    let request = OpenSingleDir { dir: Some("/srv".to_string()) };
    let args = request.plan(Some(UseCommand::KDialog)).unwrap();
    assert_eq!(args, strings(&["--getexistingdirectory", "/srv"]));
}

#[test]
fn zenity_single_file_argument_sequence() {
    let request =
        OpenSingleFile { dir: Some("/home/user".to_string()), filter: Some(strings(&["rs"])) };
    let args = request.plan(Some(UseCommand::Zenity)).unwrap();
    assert_eq!(
        args,
        strings(&["--file-selection", "--filename", "/home/user", "--file-filter", "*.rs"])
    );
}

#[test]
fn zenity_multiple_files_argument_sequence() {
    let request = OpenMultipleFile { dir: None, filter: Some(strings(&["png", "jpg"])) };
    let args = request.plan(Some(UseCommand::Zenity)).unwrap();
    assert_eq!(
        args,
        strings(&[
            "--file-selection",
            "--multiple",
            "--separator",
            "\n",
            "--filename",
            "",
            "--file-filter",
            "*.png *.jpg"
        ])
    );
}

#[test]
fn zenity_directory_target() {
    let request = OpenSingleDir { dir: None };
    let args = request.plan(Some(UseCommand::Zenity)).unwrap();
    assert_eq!(args, strings(&["--file-selection", "--directory", "--filename", ""]));
}

#[test]
fn translators_agree_on_the_pattern_argument() {
    let dir = None;
    let filter = Some(strings(&["e1", "e2"]));
    let kd = kdialog_arguments(&dir, &filter, false, OpenDialogTarget::File);
    let ze = zenity_arguments(&dir, &filter, false, OpenDialogTarget::File);
    assert_eq!(kd.last().unwrap(), "*.e1 *.e2");
    assert_eq!(ze.last().unwrap(), "*.e1 *.e2");
}

#[test]
fn exit_code_one_is_cancel_not_error() {
    assert_eq!(finish_single(UseCommand::KDialog, Some(1), Vec::new()), Ok(None));
    assert_eq!(finish_single(UseCommand::Zenity, Some(1), b"ignored".to_vec()), Ok(None));
    assert_eq!(finish_multiple(UseCommand::KDialog, Some(1), Vec::new()), Ok(vec![]));
    assert_eq!(finish_multiple(UseCommand::Zenity, Some(1), Vec::new()), Ok(vec![]));
}

#[test]
fn unexpected_exit_codes_name_the_backend() {
    assert_eq!(
        finish_single(UseCommand::KDialog, Some(2), Vec::new()),
        Err(Error::UnexpectedOutput(UseCommand::KDialog))
    );
    assert_eq!(
        finish_multiple(UseCommand::Zenity, Some(127), Vec::new()),
        Err(Error::UnexpectedOutput(UseCommand::Zenity))
    );
    // died without an exit code: also unexpected
    assert_eq!(
        finish_single(UseCommand::Zenity, None, Vec::new()),
        Err(Error::UnexpectedOutput(UseCommand::Zenity))
    );
    assert_eq!(
        interpret_exit(UseCommand::KDialog, Some(-1), Vec::new()),
        Err(Error::UnexpectedOutput(UseCommand::KDialog))
    );
}

#[test]
fn exit_code_zero_hands_back_the_payload() {
    assert_eq!(
        interpret_exit(UseCommand::KDialog, Some(0), b"/a/b\n".to_vec()),
        Ok(Some(b"/a/b\n".to_vec()))
    );
}

#[test]
fn single_path_trims_only_outer_newlines() {
    assert_eq!(trim_newlines(b"\n\nC:\\Users\\x\n"), b"C:\\Users\\x".to_vec());
    // interior newline bytes are preserved verbatim
    assert_eq!(trim_newlines(b"\na\nb\n\n"), b"a\nb".to_vec());
    assert_eq!(trim_newlines(b"\n\n\n"), Vec::<u8>::new());
    assert_eq!(trim_newlines(b""), Vec::<u8>::new());
    assert_eq!(trim_newlines(b"plain"), b"plain".to_vec());
}

#[test]
fn single_selection_success_is_trimmed() {
    let r = finish_single(UseCommand::KDialog, Some(0), b"\n/home/user/file.txt\n".to_vec());
    assert_eq!(r, Ok(Some(b"/home/user/file.txt".to_vec())));
}

#[test]
fn multi_path_round_trip_with_trailing_newline() {
    let payload = b"p1\np2\np3\n";
    assert_eq!(split_paths(payload), vec![b"p1".to_vec(), b"p2".to_vec(), b"p3".to_vec()]);
}

#[test]
fn multi_path_round_trip_without_trailing_newline() {
    let payload = b"p1\np2\np3";
    assert_eq!(split_paths(payload), vec![b"p1".to_vec(), b"p2".to_vec(), b"p3".to_vec()]);
}

#[test]
fn split_drops_empty_segments() {
    assert_eq!(split_paths(b""), Vec::<Vec<u8>>::new());
    assert_eq!(split_paths(b"\n\n"), Vec::<Vec<u8>>::new());
    assert_eq!(split_paths(b"\n\na\n\nb"), vec![b"a".to_vec(), b"b".to_vec()]);
}

#[test]
fn file_type_new_keeps_fields() {
    let t = FileType::new("jpeg image".to_string(), strings(&["jpeg", "jpg"]));
    assert_eq!(t.description, "jpeg image");
    assert_eq!(t.extensions, strings(&["jpeg", "jpg"]));
}

#[test]
fn save_file_native_options() {
    let request = SaveFile {
        dir: Some("/tmp".to_string()),
        name: "out".to_string(),
        types: vec![FileType::new("jpeg image".to_string(), strings(&["jpeg", "jpg"]))],
    };
    let opts = request.native_options();
    assert_eq!(opts.default_folder, "/tmp");
    assert_eq!(opts.file_name, "out");
    assert_eq!(opts.file_types.len(), 1);
    assert_eq!(opts.file_types[0].description, "jpeg image");
    assert_eq!(opts.file_types[0].pattern, "*.jpeg;*.jpg");
    assert!(opts.overwrite_prompt);
    assert!(opts.path_must_exist);
    assert!(opts.no_read_only);
    assert!(!opts.file_must_exist);
    assert!(!opts.allow_multiselect);
}

#[test]
fn open_native_options_filter_and_flags() {
    let opts = open_native_options(&None, &Some(strings(&["png", "jpg"])), true);
    assert_eq!(opts.default_folder, "");
    assert_eq!(opts.file_types.len(), 1);
    assert_eq!(opts.file_types[0].description, "");
    assert_eq!(opts.file_types[0].pattern, "*.png;*.jpg");
    assert!(opts.file_must_exist);
    assert!(opts.path_must_exist);
    assert!(opts.allow_multiselect);
    assert!(!opts.overwrite_prompt);

    let unfiltered = open_native_options(&Some("/data".to_string()), &None, false);
    assert_eq!(unfiltered.default_folder, "/data");
    assert!(unfiltered.file_types.is_empty());
    assert!(!unfiltered.allow_multiselect);
}

#[test]
fn native_cancel_is_absent_not_error() {
    assert_eq!(interpret_native(NativeDialogOutcome::Cancelled), Ok(None));
}

#[test]
fn native_outcomes_classify() {
    assert_eq!(
        interpret_native(NativeDialogOutcome::Chosen(strings(&["/tmp/out.jpg"]))),
        Ok(Some(strings(&["/tmp/out.jpg"])))
    );
    assert_eq!(
        interpret_native(NativeDialogOutcome::Failed("IFileDialog::Show".to_string())),
        Err(Error::ImplementationError("IFileDialog::Show".to_string()))
    );
}

#[test]
fn plan_subprocess_no_backend_before_translation() {
    let r = plan_subprocess(
        None,
        &Some("/x".to_string()),
        &Some(strings(&["a"])),
        true,
        OpenDialogTarget::File,
    );
    assert_eq!(r, Err(Error::NoImplementation));
}

#[test]
fn tool_names() {
    assert_eq!(UseCommand::KDialog.tool_name(), "kdialog");
    assert_eq!(UseCommand::Zenity.tool_name(), "zenity");
}

#[test]
fn script_params_carry_the_request() {
    let single = OpenSingleFile { dir: Some("~/x".to_string()), filter: None };
    let p = single.script_params();
    assert!(!p.multiple);
    assert_eq!(p.dir, Some("~/x".to_string()));
    assert_eq!(p.filter, None);

    let multiple = OpenMultipleFile { dir: None, filter: Some(strings(&["md"])) };
    let q = multiple.script_params();
    assert!(q.multiple);
    assert_eq!(q.dir, None);
    assert_eq!(q.filter, Some(strings(&["md"])));

    let save = SaveFile { dir: Some("/tmp".to_string()), name: "out".to_string(), types: vec![] };
    let n = save.script_name_params();
    assert_eq!(n.dir, Some("/tmp".to_string()));
    assert_eq!(n.name, "out");
}
