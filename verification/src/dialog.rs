//! The dialog that an operation asks the host to show.

use vstd::prelude::*;
use crate::uri::texts;

verus! {

/// What the native picker is asked to do.
#[derive(Clone, Copy, Debug, PartialEq, Eq, Structural)]
pub enum DialogMode {
    /// Pick one existing file.
    PickFile,
    /// Pick any number of existing files.
    PickFiles,
    /// Pick one directory.
    PickFolder,
    /// Pick any number of directories.
    PickFolders,
    /// Choose the destination of one file.
    SaveFile,
}

/// One dialog to show: made for one call and dropped after it.
#[derive(Clone, Debug, PartialEq, Eq)]
pub struct DialogRequest {
    pub title: String,
    pub mode: DialogMode,
    /// The proposed file name (save dialogs only).
    pub file_name: Option<String>,
}

/// The mathematical value of a [`DialogRequest`].
pub ghost struct DialogRequestView {
    pub title: Seq<char>,
    pub mode: DialogMode,
    pub file_name: Option<Seq<char>>,
}

impl View for DialogRequest {
    type V = DialogRequestView;

    open spec fn view(&self) -> DialogRequestView {
        DialogRequestView {
            title: self.title@,
            mode: self.mode,
            file_name: match self.file_name {
                Some(name) => Some(name@),
                None => None,
            },
        }
    }
}

/// How a dialog ended.
#[derive(Clone, Debug, PartialEq, Eq)]
pub enum DialogOutcome {
    /// The user dismissed the dialog.
    Cancelled,
    /// The user confirmed these paths, in the dialog's order.
    Picked(Vec<String>),
    /// The native dialog could not be shown or broke down; the text says why.
    Failed(String),
}

/// The mathematical value of a [`DialogOutcome`].
pub ghost enum DialogOutcomeView {
    Cancelled,
    Picked(Seq<Seq<char>>),
    Failed(Seq<char>),
}

impl View for DialogOutcome {
    type V = DialogOutcomeView;

    open spec fn view(&self) -> DialogOutcomeView {
        match self {
            DialogOutcome::Cancelled => DialogOutcomeView::Cancelled,
            DialogOutcome::Picked(paths) => DialogOutcomeView::Picked(texts(paths@)),
            DialogOutcome::Failed(why) => DialogOutcomeView::Failed(why@),
        }
    }
}

} // verus!
