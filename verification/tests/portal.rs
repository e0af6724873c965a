use file_chooser_portal::uri::{collect_uris, file_uri, pathbuf_to_file_uri};
use file_chooser_portal::{
    AppChooser, DialogMode, DialogOutcome, DialogRequest, FileChooser, OptionValue, Options,
    PortalError, Response,
};

fn paths(items: &[&str]) -> Vec<String> {
    items.iter().map(|s| s.to_string()).collect()
}

fn open(options: &Options) -> DialogRequest {
    FileChooser {}.open_file("/request/1", "org.example.App", "x11:1", "Open", options)
}

#[test]
fn open_with_empty_options_picks_one_file() {
    let request = open(&Options::new());
    assert_eq!(
        request,
        DialogRequest { title: "Open".to_string(), mode: DialogMode::PickFile, file_name: None }
    );
    let response = FileChooser {}.respond(Some(paths(&["/tmp/a.txt"])));
    assert_eq!(
        response,
        Ok(Response { status: 0, uris: Some(paths(&["file://localhost/tmp/a.txt"])) })
    );
}

#[test]
fn open_multiple_returns_every_uri_in_order() {
    let mut options = Options::new();
    options.insert("multiple", OptionValue::Bool(true));
    let request = open(&options);
    assert_eq!(request.mode, DialogMode::PickFiles);
    let response = FileChooser {}.respond(Some(paths(&["/tmp/a.txt", "/tmp/b.txt"])));
    assert_eq!(
        response,
        Ok(Response {
            status: 0,
            uris: Some(paths(&["file://localhost/tmp/a.txt", "file://localhost/tmp/b.txt"])),
        })
    );
}

#[test]
fn save_with_current_name() {
    let mut options = Options::new();
    options.insert("current_name", OptionValue::Str("out.csv".to_string()));
    let request = FileChooser {}.save_file("/request/2", "app", "", "Save as", &options);
    assert_eq!(
        request,
        Ok(DialogRequest {
            title: "Save as".to_string(),
            mode: DialogMode::SaveFile,
            file_name: Some("out.csv".to_string()),
        })
    );
    let response = FileChooser {}.respond(Some(paths(&["/home/bob/out.csv"])));
    assert_eq!(
        response,
        Ok(Response { status: 0, uris: Some(paths(&["file://localhost/home/bob/out.csv"])) })
    );
}

#[test]
fn save_multiple_is_not_supported() {
    let mut options = Options::new();
    options.insert("multiple", OptionValue::Bool(true));
    let request = FileChooser {}.save_file("/request/3", "app", "", "Save", &options);
    assert_eq!(
        request,
        Err(PortalError::NotSupported("multiple save not supported".to_string()))
    );
}

#[test]
fn save_multiple_is_refused_whatever_else_is_set() {
    let mut options = Options::new();
    options.insert("current_name", OptionValue::Str("a.txt".to_string()));
    options.insert("directory", OptionValue::Bool(true));
    options.insert("multiple", OptionValue::Bool(true));
    options.insert("modal", OptionValue::Other);
    let request = FileChooser {}.save_file("/request/4", "app", "", "Save", &options);
    assert!(matches!(request, Err(PortalError::NotSupported(_))));
}

#[test]
fn open_cancelled_is_status_one_with_empty_results() {
    let request = open(&Options::new());
    assert_eq!(request.mode, DialogMode::PickFile);
    assert_eq!(FileChooser {}.respond(None), Ok(Response { status: 1, uris: None }));
}

#[test]
fn open_modes_follow_the_two_flags() {
    let mut options = Options::new();
    options.insert("directory", OptionValue::Bool(true));
    assert_eq!(open(&options).mode, DialogMode::PickFolder);
    options.insert("multiple", OptionValue::Bool(true));
    assert_eq!(open(&options).mode, DialogMode::PickFolders);
    options.insert("directory", OptionValue::Bool(false));
    assert_eq!(open(&options).mode, DialogMode::PickFiles);
    options.insert("multiple", OptionValue::Bool(false));
    assert_eq!(open(&options).mode, DialogMode::PickFile);
}

#[test]
fn open_ignores_unknown_keys() {
    let mut options = Options::new();
    options.insert("modal", OptionValue::Bool(true));
    options.insert("accept_label", OptionValue::Str("Go".to_string()));
    options.insert("filters", OptionValue::Other);
    let request = open(&options);
    assert_eq!(request.mode, DialogMode::PickFile);
    assert_eq!(request.file_name, None);
}

#[test]
fn flags_of_another_kind_count_as_absent() {
    let mut options = Options::new();
    options.insert("multiple", OptionValue::Str("true".to_string()));
    options.insert("directory", OptionValue::Other);
    assert_eq!(open(&options).mode, DialogMode::PickFile);
    let request = FileChooser {}.save_file("/request/5", "app", "", "Save", &options);
    assert_eq!(
        request,
        Ok(DialogRequest { title: "Save".to_string(), mode: DialogMode::SaveFile, file_name: None })
    );
}

#[test]
fn save_with_current_name_of_another_kind_has_no_file_name() {
    let mut options = Options::new();
    options.insert("current_name", OptionValue::Bool(true));
    options.insert("multiple", OptionValue::Bool(false));
    let request = FileChooser {}.save_file("/request/6", "app", "", "Save", &options).unwrap();
    assert_eq!(request.mode, DialogMode::SaveFile);
    assert_eq!(request.file_name, None);
}

#[test]
fn save_files_asks_for_one_folder_and_reads_no_option() {
    let mut options = Options::new();
    options.insert("multiple", OptionValue::Bool(true));
    options.insert("current_name", OptionValue::Str("x".to_string()));
    let request = FileChooser {}.save_files("/request/7", "app", "", "Export to", &options);
    assert_eq!(
        request,
        DialogRequest { title: "Export to".to_string(), mode: DialogMode::PickFolder, file_name: None }
    );
    let response = FileChooser {}.respond(Some(paths(&["/home/bob/out"])));
    assert_eq!(
        response,
        Ok(Response { status: 0, uris: Some(paths(&["file://localhost/home/bob/out"])) })
    );
}

#[test]
fn save_cancelled_is_status_one() {
    let request = FileChooser {}.save_file("/request/8", "app", "", "Save", &Options::new());
    assert!(request.is_ok());
    assert_eq!(FileChooser {}.respond(None), Ok(Response { status: 1, uris: None }));
}

#[test]
fn respond_keeps_length_and_order() {
    let picked = paths(&["/c", "/a", "/b", "/a"]);
    let response = FileChooser {}.respond(Some(picked.clone())).unwrap();
    assert_eq!(response.status, 0);
    let uris = response.uris.unwrap();
    assert_eq!(uris.len(), picked.len());
    for (uri, path) in uris.iter().zip(picked.iter()) {
        assert_eq!(uri, &format!("file://localhost{}", path));
    }
}

#[test]
fn respond_to_empty_selection_is_success_with_no_uri() {
    assert_eq!(
        FileChooser {}.respond(Some(Vec::new())),
        Ok(Response { status: 0, uris: Some(Vec::new()) })
    );
}

#[test]
fn respond_fails_when_a_path_cannot_be_encoded() {
    let response = FileChooser {}.respond(Some(paths(&["/tmp/a.txt", "/tmp/my file.txt"])));
    assert_eq!(response, Err(PortalError::Failed("invalid uri character".to_string())));
}

#[test]
fn plain_path_is_kept_as_it_is() {
    assert_eq!(
        file_uri("/home/alice/report.pdf"),
        Ok("file://localhost/home/alice/report.pdf".to_string())
    );
    assert_eq!(
        file_uri("/srv/Data_2024/a-b/c.tar.gz"),
        Ok("file://localhost/srv/Data_2024/a-b/c.tar.gz".to_string())
    );
    assert_eq!(file_uri("/"), Ok("file://localhost/".to_string()));
}

#[test]
fn file_uri_refuses_space_and_non_ascii() {
    assert_eq!(file_uri("/tmp/my file.txt"), Err("invalid uri character".to_string()));
    assert_eq!(file_uri("/tmp/caf\u{e9}"), Err("invalid uri character".to_string()));
    assert_eq!(file_uri("/tmp/\u{fffd}"), Err("invalid uri character".to_string()));
}

#[test]
fn file_uri_of_query_and_fragment() {
    assert_eq!(file_uri("/tmp/a?b"), Ok("file://localhost/tmp/a?b".to_string()));
    assert_eq!(file_uri("/tmp/a#b"), Ok("file://localhost/tmp/a".to_string()));
}

#[test]
fn file_uri_of_empty_and_relative_path() {
    assert_eq!(file_uri(""), Ok("file://localhost/".to_string()));
    assert_eq!(file_uri("tmp/a"), Ok("file://localhosttmp/a".to_string()));
}

#[test]
fn batch_of_no_path_is_empty() {
    assert_eq!(pathbuf_to_file_uri(Vec::new()), Ok(Vec::new()));
}

#[test]
fn batch_stops_at_first_failure() {
    let result = pathbuf_to_file_uri(paths(&["/ok", "/not ok", "/also<bad"]));
    assert_eq!(result, Err("invalid uri character".to_string()));
    let result = pathbuf_to_file_uri(paths(&["/ok", "/fine"]));
    assert_eq!(result, Ok(paths(&["file://localhost/ok", "file://localhost/fine"])));
}

#[test]
fn options_insert_replaces_and_get_finds() {
    let mut options = Options::new();
    assert_eq!(options.get("multiple"), None);
    assert!(!options.flag("multiple"));
    options.insert("multiple", OptionValue::Bool(true));
    assert_eq!(options.get("multiple"), Some(&OptionValue::Bool(true)));
    assert!(options.flag("multiple"));
    options.insert("multiple", OptionValue::Bool(false));
    assert_eq!(options.get("multiple"), Some(&OptionValue::Bool(false)));
    assert!(!options.flag("multiple"));
    options.insert("current_name", OptionValue::Str("a.txt".to_string()));
    assert_eq!(options.text("current_name"), Some("a.txt".to_string()));
    assert_eq!(options.text("multiple"), None);
    assert_eq!(options.text("absent"), None);
    assert_eq!(options.get("directory"), None);
}

#[test]
fn app_chooser_holds_no_state() {
    let chooser = AppChooser::default();
    assert_eq!(format!("{:?}", chooser), "AppChooser");
}

#[test]
fn collect_uris_is_all_or_first_error() {
    let all_ok = vec![Ok("u1".to_string()), Ok("u2".to_string())];
    assert_eq!(collect_uris(&all_ok), Ok(paths(&["u1", "u2"])));
    let mixed = vec![
        Ok("u1".to_string()),
        Err("first".to_string()),
        Ok("u3".to_string()),
        Err("second".to_string()),
    ];
    assert_eq!(collect_uris(&mixed), Err("first".to_string()));
    assert_eq!(collect_uris(&Vec::new()), Ok(Vec::new()));
}

#[test]
fn reply_packages_each_outcome() {
    let chooser = FileChooser {};
    assert_eq!(chooser.reply(None), Ok(Response { status: 1, uris: None }));
    assert_eq!(
        chooser.reply(Some(Ok(paths(&["file://localhost/x"])))),
        Ok(Response { status: 0, uris: Some(paths(&["file://localhost/x"])) })
    );
    assert_eq!(
        chooser.reply(Some(Err("invalid uri character".to_string()))),
        Err(PortalError::Failed("invalid uri character".to_string()))
    );
}

#[test]
fn options_len_counts_keys_once() {
    let mut options = Options::new();
    assert_eq!(options.len(), 0);
    options.insert("multiple", OptionValue::Bool(true));
    options.insert("directory", OptionValue::Other);
    options.insert("multiple", OptionValue::Bool(false));
    assert_eq!(options.len(), 2);
}

#[test]
fn open_with_both_flags_never_asks_for_files() {
    let mut options = Options::new();
    options.insert("multiple", OptionValue::Bool(true));
    options.insert("directory", OptionValue::Bool(true));
    options.insert("current_name", OptionValue::Str("ignored".to_string()));
    let request = open(&options);
    assert_eq!(request.mode, DialogMode::PickFolders);
    assert_ne!(request.mode, DialogMode::PickFiles);
    assert_eq!(request.file_name, None);
}

#[test]
fn failed_dialog_fails_the_call_with_its_description() {
    let chooser = FileChooser {};
    let request = chooser.save_files("/request/10", "app", "", "Export to", &Options::new());
    assert_eq!(request.mode, DialogMode::PickFolder);
    let answer = chooser.answer(DialogOutcome::Failed("no display".to_string()));
    assert_eq!(answer, Err(PortalError::Failed("no display".to_string())));
    assert_ne!(answer, Ok(Response { status: 1, uris: None }));
}

#[test]
fn answer_to_cancelled_and_picked() {
    let chooser = FileChooser {};
    assert_eq!(chooser.answer(DialogOutcome::Cancelled), Ok(Response { status: 1, uris: None }));
    assert_eq!(
        chooser.answer(DialogOutcome::Picked(paths(&["/tmp/a.txt", "/tmp/b.txt"]))),
        Ok(Response {
            status: 0,
            uris: Some(paths(&["file://localhost/tmp/a.txt", "file://localhost/tmp/b.txt"])),
        })
    );
    assert_eq!(
        chooser.answer(DialogOutcome::Picked(paths(&["/tmp/a b"]))),
        Err(PortalError::Failed("invalid uri character".to_string()))
    );
}

#[test]
fn tilde_is_kept_as_it_is() {
    assert_eq!(file_uri("/home/~bob/a~"), Ok("file://localhost/home/~bob/a~".to_string()));
}

#[test]
fn batch_of_plain_paths_is_kept_as_it_is() {
    let given = paths(&["/home/alice/report.pdf", "/srv/Data_2024/a-b/c.tar.gz", "/", "/~x/y_z"]);
    let uris = pathbuf_to_file_uri(given.clone()).unwrap();
    assert_eq!(uris.len(), given.len());
    for (uri, path) in uris.iter().zip(given.iter()) {
        assert_eq!(uri, &format!("file://localhost{}", path));
    }
}
