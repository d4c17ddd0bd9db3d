//! What ends a run early.

use vstd::prelude::*;

verus! {

/// The errors of a run. Each of them aborts it.
#[derive(Clone, Debug, PartialEq, Eq)]
pub enum ClientError {
    /// The named interface is absent or has no IPv4 address.
    MissingDevice,
    /// The provider returned no record of the target name.
    RecordNotFound,
    /// A transport or decoding failure, with its description.
    Other(String),
}

/// A `ClientError` as a mathematical value: its texts as sequences of characters.
pub ghost enum ClientErrorView {
    MissingDevice,
    RecordNotFound,
    Other(Seq<char>),
}

impl View for ClientError {
    type V = ClientErrorView;

    open spec fn view(&self) -> ClientErrorView {
        match self {
            ClientError::MissingDevice => ClientErrorView::MissingDevice,
            ClientError::RecordNotFound => ClientErrorView::RecordNotFound,
            ClientError::Other(m) => ClientErrorView::Other(m@),
        }
    }
}

/// The text shown for an error: a fixed sentence for the two named
/// conditions, the underlying description for any other.
pub open spec fn message_of(e: ClientErrorView) -> Seq<char> {
    match e {
        ClientErrorView::MissingDevice => "Please select the right device."@,
        ClientErrorView::RecordNotFound => "No DNS record matches the target name."@,
        ClientErrorView::Other(m) => m,
    }
}

impl ClientError {
    /// The text shown for this error.
    pub fn message(&self) -> (res: String)
        ensures
            res@ == message_of(self@),
    {
        match self {
            ClientError::MissingDevice => "Please select the right device.".to_owned(),
            ClientError::RecordNotFound => "No DNS record matches the target name.".to_owned(),
            ClientError::Other(m) => m.clone(),
        }
    }
}

} // verus!
