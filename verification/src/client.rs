//! The errors that a call to a remote node can end in.

use vstd::prelude::*;
use vstd::string::StringExecFns;

verus! {

/// Why a call to a remote node failed.
#[derive(Clone, Debug, PartialEq, Eq)]
pub enum ClientError {
    /// The peer could not be reached, or the transport failed.
    ConnectionFailed(String),
    /// The client was created but never connected.
    NotInitialized,
    /// Any other failure of the call.
    Unexpected,
}

/// A client error as a mathematical value.
pub enum ClientErrorView {
    ConnectionFailed(Seq<char>),
    NotInitialized,
    Unexpected,
}

impl View for ClientError {
    type V = ClientErrorView;

    open spec fn view(&self) -> ClientErrorView {
        match self {
            ClientError::ConnectionFailed(detail) => ClientErrorView::ConnectionFailed(detail@),
            ClientError::NotInitialized => ClientErrorView::NotInitialized,
            ClientError::Unexpected => ClientErrorView::Unexpected,
        }
    }
}

impl ClientErrorView {
    /// The error says that the peer is not reachable. A client that never
    /// connected counts as a failed connection.
    pub open spec fn is_connection_failure(self) -> bool {
        self is ConnectionFailed || self is NotInitialized
    }

    /// The text that describes the error.
    pub open spec fn message(self) -> Seq<char> {
        match self {
            ClientErrorView::ConnectionFailed(detail) => "Connection failed: "@ + detail,
            ClientErrorView::NotInitialized => "Client not initialized"@,
            ClientErrorView::Unexpected => "Unexpected error"@,
        }
    }
}

impl ClientError {
    /// Whether the error says that the peer is not reachable.
    pub fn is_connection_failure(&self) -> (r: bool)
        ensures
            r == self@.is_connection_failure(),
    {
        match self {
            ClientError::ConnectionFailed(_) => true,
            ClientError::NotInitialized => true,
            ClientError::Unexpected => false,
        }
    }

    /// The text that describes the error.
    pub fn to_string(&self) -> (text: String)
        ensures
            text@ == self@.message(),
    {
        match self {
            ClientError::ConnectionFailed(detail) => {
                String::from_str("Connection failed: ").concat(detail.as_str())
            },
            ClientError::NotInitialized => String::from_str("Client not initialized"),
            ClientError::Unexpected => String::from_str("Unexpected error"),
        }
    }
}

} // verus!
