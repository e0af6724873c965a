//! File chooser portal backend: the decisions of the three file chooser
//! operations, stated and proved over plain values.
//!
//! A call is answered in two steps. First the operation turns its title and
//! options into a [`DialogRequest`] (or refuses the call). The caller shows that
//! dialog, and hands its [`DialogOutcome`] to [`FileChooser::answer`], which
//! encodes the picked paths as `file://localhost/...` URIs and builds the
//! [`Response`], or passes the dialog's failure on.

pub mod options;
pub mod uri;
pub mod dialog;
pub mod service;

pub use options::{OptionValue, OptionValueView, Options};
pub use dialog::{DialogMode, DialogOutcome, DialogOutcomeView, DialogRequest, DialogRequestView};
pub use service::{AppChooser, FileChooser, PortalError, PortalErrorView, Response, ResponseView};
