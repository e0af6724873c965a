//! The portal's operations.

use vstd::prelude::*;
use crate::dialog::{DialogMode, DialogOutcome, DialogOutcomeView, DialogRequest, DialogRequestView};
use crate::options::{is_set, text_of, OptionValueView, Options};
use crate::uri::{
    all_plain, encode_all, encode_all_keeps_length_and_order, file_uri_text, pathbuf_to_file_uri,
    plain_uris, texts, texts_result,
};

verus! {

/// Why a call was refused.
#[derive(Clone, Debug, PartialEq, Eq)]
pub enum PortalError {
    /// The request asks for what the operation never does.
    NotSupported(String),
    /// The call failed; the text describes why.
    Failed(String),
}

/// The mathematical value of a [`PortalError`].
pub ghost enum PortalErrorView {
    NotSupported(Seq<char>),
    Failed(Seq<char>),
}

impl View for PortalError {
    type V = PortalErrorView;

    open spec fn view(&self) -> PortalErrorView {
        match self {
            PortalError::NotSupported(m) => PortalErrorView::NotSupported(m@),
            PortalError::Failed(m) => PortalErrorView::Failed(m@),
        }
    }
}

/// The answer to a call: a status and the result mapping, which is empty
/// (`uris` is `None`) or holds the one key `uris`.
#[derive(Clone, Debug, PartialEq, Eq)]
pub struct Response {
    pub status: u32,
    pub uris: Option<Vec<String>>,
}

/// The mathematical value of a [`Response`].
pub ghost struct ResponseView {
    pub status: u32,
    pub uris: Option<Seq<Seq<char>>>,
}

impl View for Response {
    type V = ResponseView;

    open spec fn view(&self) -> ResponseView {
        ResponseView {
            status: self.status,
            uris: match self.uris {
                Some(uris) => Some(texts(uris@)),
                None => None,
            },
        }
    }
}

/// Status of a call whose dialog the user confirmed.
pub const STATUS_SUCCESS: u32 = 0;

/// Status of a call whose dialog the user dismissed.
pub const STATUS_CANCELLED: u32 = 1;

/// The picker mode of an Open call: `multiple` asks for any number of paths,
/// `directory` for directories in place of files.
pub open spec fn open_mode(options: Map<Seq<char>, OptionValueView>) -> DialogMode {
    match (is_set(options, "multiple"@), is_set(options, "directory"@)) {
        (false, false) => DialogMode::PickFile,
        (true, false) => DialogMode::PickFiles,
        (false, true) => DialogMode::PickFolder,
        (true, true) => DialogMode::PickFolders,
    }
}

/// The dialog of an Open call.
pub open spec fn open_request(title: Seq<char>, options: Map<Seq<char>, OptionValueView>) -> DialogRequestView {
    DialogRequestView { title, mode: open_mode(options), file_name: None }
}

/// The dialog of a Save call, or the refusal of a call that asks for
/// several destinations.
pub open spec fn save_request(title: Seq<char>, options: Map<Seq<char>, OptionValueView>) -> Result<DialogRequestView, PortalErrorView> {
    if is_set(options, "multiple"@) {
        Err(PortalErrorView::NotSupported("multiple save not supported"@))
    } else {
        Ok(DialogRequestView { title, mode: DialogMode::SaveFile, file_name: text_of(options, "current_name"@) })
    }
}

/// The dialog of a Save-to-folder call: one directory, whatever the options.
pub open spec fn save_files_request(title: Seq<char>) -> DialogRequestView {
    DialogRequestView { title, mode: DialogMode::PickFolder, file_name: None }
}

/// The answer to a call from how its dialog ended: `None` where the user
/// dismissed it, else the outcome of encoding the chosen paths.
pub open spec fn reply_to(encoded: Option<Result<Seq<Seq<char>>, Seq<char>>>) -> Result<ResponseView, PortalErrorView> {
    match encoded {
        None => Ok(ResponseView { status: STATUS_CANCELLED, uris: None }),
        Some(Ok(uris)) => Ok(ResponseView { status: STATUS_SUCCESS, uris: Some(uris) }),
        Some(Err(e)) => Err(PortalErrorView::Failed(e)),
    }
}

/// The answer to a call whose dialog ended with `picked`: `None` where the
/// user dismissed it, else the paths that the user chose.
pub open spec fn response_to(picked: Option<Seq<Seq<char>>>) -> Result<ResponseView, PortalErrorView> {
    match picked {
        None => reply_to(None),
        Some(paths) => reply_to(Some(encode_all(paths))),
    }
}

/// The answer to a call whose dialog ended with `outcome`. A dialog that
/// failed fails the call with the dialog's own description; it is not
/// answered as if the user had dismissed it.
pub open spec fn answer_to(outcome: DialogOutcomeView) -> Result<ResponseView, PortalErrorView> {
    match outcome {
        DialogOutcomeView::Cancelled => response_to(None),
        DialogOutcomeView::Picked(paths) => response_to(Some(paths)),
        DialogOutcomeView::Failed(why) => Err(PortalErrorView::Failed(why)),
    }
}

/// The successful answer that holds, for each path, `file://localhost`
/// followed by the path.
pub open spec fn plain_response(paths: Seq<Seq<char>>) -> ResponseView {
    ResponseView { status: STATUS_SUCCESS, uris: Some(plain_uris(paths)) }
}

/// The views of a dialog's outcome after encoding.
pub open spec fn encoded_texts(encoded: Option<Result<Vec<String>, String>>) -> Option<Result<Seq<Seq<char>>, Seq<char>>> {
    match encoded {
        Some(r) => Some(texts_result(r)),
        None => None,
    }
}

/// The views of an operation's dialog or refusal.
pub open spec fn request_result(r: Result<DialogRequest, PortalError>) -> Result<DialogRequestView, PortalErrorView> {
    match r {
        Ok(request) => Ok(request@),
        Err(e) => Err(e@),
    }
}

/// The views of an answer or refusal.
pub open spec fn response_result(r: Result<Response, PortalError>) -> Result<ResponseView, PortalErrorView> {
    match r {
        Ok(response) => Ok(response@),
        Err(e) => Err(e@),
    }
}

/// The views of a picker's outcome.
pub open spec fn picked_texts(picked: Option<Vec<String>>) -> Option<Seq<Seq<char>>> {
    match picked {
        Some(paths) => Some(texts(paths@)),
        None => None,
    }
}

/// The file chooser interface. It holds no state: every call stands alone.
#[derive(Clone, Copy, Debug, Default)]
pub struct FileChooser {}

impl FileChooser {
    /// Open: the dialog in which the user selects one or more files or
    /// directories. The handle and the two identifiers only correlate the call.
    pub fn open_file(
        &self,
        _handle: &str,
        _app_id: &str,
        _parent_window: &str,
        title: &str,
        options: &Options,
    ) -> (r: DialogRequest)
        ensures
            r@ == open_request(title@, options@),
    {
        let multiple = options.flag("multiple");
        let directory = options.flag("directory");
        let mode = if multiple {
            if directory {
                DialogMode::PickFolders
            } else {
                DialogMode::PickFiles
            }
        } else {
            if directory {
                DialogMode::PickFolder
            } else {
                DialogMode::PickFile
            }
        };
        DialogRequest { title: title.to_owned(), mode, file_name: None }
    }

    /// Save: the dialog in which the user chooses the destination of one file.
    /// A call that asks for several destinations is refused, and no dialog is
    /// to be shown for it.
    pub fn save_file(
        &self,
        _handle: &str,
        _app_id: &str,
        _parent_window: &str,
        title: &str,
        options: &Options,
    ) -> (r: Result<DialogRequest, PortalError>)
        ensures
            request_result(r) == save_request(title@, options@),
    {
        if options.flag("multiple") {
            return Err(PortalError::NotSupported("multiple save not supported".to_owned()));
        }
        let file_name = options.text("current_name");
        Ok(DialogRequest { title: title.to_owned(), mode: DialogMode::SaveFile, file_name })
    }

    /// Save-to-folder: the dialog in which the user chooses the directory that
    /// will receive one or more files. The options are not read.
    pub fn save_files(
        &self,
        _handle: &str,
        _app_id: &str,
        _parent_window: &str,
        title: &str,
        _options: &Options,
    ) -> (r: DialogRequest)
        ensures
            r@ == save_files_request(title@),
    {
        DialogRequest { title: title.to_owned(), mode: DialogMode::PickFolder, file_name: None }
    }

    /// Packages the answer to a call. `encoded` is `None` where the user
    /// dismissed the dialog, else the outcome of encoding the chosen paths:
    /// their URIs, or the description of the encoding error.
    pub fn reply(&self, encoded: Option<Result<Vec<String>, String>>) -> (r: Result<Response, PortalError>)
        ensures
            response_result(r) == reply_to(encoded_texts(encoded)),
    {
        match encoded {
            None => Ok(Response { status: STATUS_CANCELLED, uris: None }),
            Some(Ok(uris)) => Ok(Response { status: STATUS_SUCCESS, uris: Some(uris) }),
            Some(Err(e)) => Err(PortalError::Failed(e)),
        }
    }

    /// Answers a call whose dialog the user confirmed or dismissed. `picked`
    /// is `None` where the user dismissed the dialog, else the chosen paths in
    /// the dialog's order. A selection of absolute paths of path-safe
    /// characters is always answered, each path unchanged behind
    /// `file://localhost`.
    pub fn respond(&self, picked: Option<Vec<String>>) -> (r: Result<Response, PortalError>)
        ensures
            response_result(r) == response_to(picked_texts(picked)),
            picked is Some && all_plain(texts(picked->Some_0@)) ==> r is Ok
                && r->Ok_0@ == plain_response(texts(picked->Some_0@)),
    {
        match picked {
            None => self.reply(None),
            Some(paths) => self.reply(Some(pathbuf_to_file_uri(paths))),
        }
    }

    /// Answers a call once its dialog has ended, however it ended. A failure
    /// of the native dialog fails the call with the failure's description.
    pub fn answer(&self, outcome: DialogOutcome) -> (r: Result<Response, PortalError>)
        ensures
            response_result(r) == answer_to(outcome@),
            outcome is Picked && all_plain(texts(outcome->Picked_0@)) ==> r is Ok
                && r->Ok_0@ == plain_response(texts(outcome->Picked_0@)),
    {
        match outcome {
            DialogOutcome::Cancelled => self.respond(None),
            DialogOutcome::Picked(paths) => self.respond(Some(paths)),
            DialogOutcome::Failed(why) => Err(PortalError::Failed(why)),
        }
    }
}

/// Options that hold neither `multiple` nor `directory` make Open ask for one
/// file.
pub proof fn open_defaults_to_one_file(title: Seq<char>, options: Map<Seq<char>, OptionValueView>)
    requires
        !options.contains_key("multiple"@),
        !options.contains_key("directory"@),
    ensures
        open_request(title, options).mode == DialogMode::PickFile,
{
}

/// With `multiple` and `directory` both `true`, Open asks for several
/// directories, not for several files.
pub proof fn open_multiple_directories(title: Seq<char>, options: Map<Seq<char>, OptionValueView>)
    requires
        is_set(options, "multiple"@),
        is_set(options, "directory"@),
    ensures
        open_request(title, options).mode == DialogMode::PickFolders,
        open_request(title, options).mode != DialogMode::PickFiles,
{
}

/// Save with `multiple` set to `true` is refused as not supported, whatever
/// else the options hold; no dialog is asked for.
pub proof fn save_multiple_is_refused(title: Seq<char>, options: Map<Seq<char>, OptionValueView>)
    requires
        is_set(options, "multiple"@),
    ensures
        save_request(title, options) is Err,
        save_request(title, options)->Err_0 is NotSupported,
{
}

/// A dismissed dialog is answered with the cancelled status and an empty
/// result mapping.
pub proof fn cancelled_is_status_one()
    ensures
        response_to(None) is Ok,
        response_to(None)->Ok_0.status == 1,
        response_to(None)->Ok_0.uris is None,
{
}

/// A successful answer holds one URI for each selected path, in the order of
/// the selection, under the success status.
pub proof fn uris_follow_selection(paths: Seq<Seq<char>>)
    ensures
        response_to(Some(paths)) is Ok ==> response_to(Some(paths))->Ok_0.status == 0,
        response_to(Some(paths)) is Ok ==> response_to(Some(paths))->Ok_0.uris is Some,
        response_to(Some(paths)) is Ok ==> response_to(Some(paths))->Ok_0.uris->Some_0.len() == paths.len(),
        response_to(Some(paths)) is Ok ==> (forall|i: int| 0 <= i < paths.len() ==>
            file_uri_text(#[trigger] paths[i]) is Ok
            && file_uri_text(paths[i])->Ok_0 == response_to(Some(paths))->Ok_0.uris->Some_0[i]),
{
    encode_all_keeps_length_and_order(paths);
}

/// A selection of one path is answered with one URI: a save never yields more.
pub proof fn one_path_gives_one_uri(path: Seq<char>)
    ensures
        response_to(Some(seq![path])) is Ok ==> response_to(Some(seq![path]))->Ok_0.uris is Some,
        response_to(Some(seq![path])) is Ok ==> response_to(Some(seq![path]))->Ok_0.uris->Some_0.len() == 1,
{
    encode_all_keeps_length_and_order(seq![path]);
}

/// A selection is answered successfully exactly when each of its paths can
/// be encoded; otherwise the call fails, and nothing of the selection is
/// returned.
pub proof fn answer_is_all_or_nothing(paths: Seq<Seq<char>>)
    ensures
        response_to(Some(paths)) is Ok <==> (forall|i: int| 0 <= i < paths.len() ==> file_uri_text(#[trigger] paths[i]) is Ok),
        response_to(Some(paths)) is Err ==> response_to(Some(paths))->Err_0 is Failed,
{
    encode_all_keeps_length_and_order(paths);
}

/// A dialog that failed is never answered with a response: neither with the
/// cancelled status nor with any other. The call fails, and the error carries
/// the dialog's description.
pub proof fn failed_dialog_fails_the_call(why: Seq<char>)
    ensures
        answer_to(DialogOutcomeView::Failed(why)) is Err,
        answer_to(DialogOutcomeView::Failed(why))->Err_0 == PortalErrorView::Failed(why),
        answer_to(DialogOutcomeView::Failed(why)) != response_to(None),
{
}

/// The application chooser interface. It is declared only: its operations have
/// no implementation, and the library offers none to call.
#[derive(Clone, Copy, Debug, Default)]
pub struct AppChooser {}

} // verus!
