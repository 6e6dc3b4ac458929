//! The status notification: free text that the server shows to the user
//! of the editor.

use vstd::prelude::*;
use vstd::string::StringExecFns;

verus! {

/// The notification that carries the server's status to the client, and
/// the statuses that the server reports with it.
#[derive(Clone, Copy, Debug, PartialEq, Eq, Structural)]
pub enum PublishServerStatus {
    /// The session has been set up.
    Started,
    /// A formatting request is being worked on.
    Formatting,
    /// A formatting request has been answered.
    Formatted,
}

impl PublishServerStatus {
    /// The method name of the notification.
    pub const METHOD: &'static str = "tan/publishServerStatus";

    /// The word that names a status.
    pub open spec fn word(self) -> Seq<char> {
        match self {
            PublishServerStatus::Started => "started"@,
            PublishServerStatus::Formatting => "formatting"@,
            PublishServerStatus::Formatted => "formatted"@,
        }
    }

    /// The word that names the status.
    pub fn text(self) -> (text: &'static str)
        ensures
            text@ == self.word(),
    {
        match self {
            PublishServerStatus::Started => "started",
            PublishServerStatus::Formatting => "formatting",
            PublishServerStatus::Formatted => "formatted",
        }
    }
}

/// The parameters of a status notification.
#[derive(Clone, Debug, PartialEq, Eq)]
pub struct PublishServerStatusParams {
    pub text: String,
}

impl View for PublishServerStatusParams {
    type V = Seq<char>;

    open spec fn view(&self) -> Seq<char> {
        self.text@
    }
}

/// The text that a status notification shows for a status.
pub open spec fn status_text(status: Seq<char>) -> Seq<char> {
    "👅 "@ + status
}

/// Makes the parameters of the notification that reports `text` as the
/// server's status.
pub fn send_server_status_notification(text: &str) -> (params: PublishServerStatusParams)
    ensures
        params@ == status_text(text@),
{
    let mut shown = String::from_str("👅 ");
    shown.append(text);
    PublishServerStatusParams { text: shown }
}

} // verus!
