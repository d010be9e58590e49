//! LoomWM protocol extensions.
//!
//! Custom Wayland protocols that allow applications to integrate deeply
//! with LoomWM's node-based canvas system.

use vstd::prelude::*;
use vstd::string::StringExecFns;

pub mod node_protocol;

verus! {

/// Why a protocol request failed.
#[derive(Debug)]
pub enum ProtocolError {
    /// Protocol not supported.
    NotSupported(String),
    /// Invalid request.
    InvalidRequest(String),
}

/// The mathematical value of a [`ProtocolError`].
pub ghost enum ProtocolErrorView {
    NotSupported(Seq<char>),
    InvalidRequest(Seq<char>),
}

impl View for ProtocolError {
    type V = ProtocolErrorView;

    open spec fn view(&self) -> ProtocolErrorView {
        match *self {
            ProtocolError::NotSupported(protocol) => ProtocolErrorView::NotSupported(protocol@),
            ProtocolError::InvalidRequest(reason) => ProtocolErrorView::InvalidRequest(reason@),
        }
    }
}

impl ProtocolErrorView {
    /// The error in words.
    pub open spec fn message(self) -> Seq<char> {
        match self {
            ProtocolErrorView::NotSupported(detail) => "Protocol not supported: "@ + detail,
            ProtocolErrorView::InvalidRequest(detail) => "Invalid request: "@ + detail,
        }
    }
}

impl ProtocolError {
    /// The error in words.
    pub fn message(&self) -> (message: String)
        ensures
            message@ == self@.message(),
    {
        match self {
            ProtocolError::NotSupported(detail) => String::from_str("Protocol not supported: ").concat(detail.as_str()),
            ProtocolError::InvalidRequest(detail) => String::from_str("Invalid request: ").concat(detail.as_str()),
        }
    }
}

/// What the operations of the protocol return.
pub type Result<T> = std::result::Result<T, ProtocolError>;

/// Protocol version.
pub const LOOM_PROTOCOL_VERSION: u32 = 1;

} // verus!
