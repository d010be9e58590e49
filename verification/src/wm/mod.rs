//! The compositor around the canvas: its data types, its resource limits
//! and its rules.

use vstd::prelude::*;
use vstd::string::StringExecFns;

pub mod backend;
pub mod compositor;
pub mod input;
pub mod output;
pub mod perf;
pub mod security;
pub mod state;
pub mod types;

pub use compositor::Compositor;
pub use perf::FrameTimer;
pub use state::SessionState;
pub use types::WindowFlags;

verus! {

/// Why the compositor failed.
#[derive(Debug)]
pub enum CoreError {
    /// Failed to initialize backend.
    BackendInit(String),
    /// Failed to create renderer.
    Renderer(String),
    /// Session error.
    Session(String),
    /// Input error.
    Input(String),
    /// No backend available.
    NoBackendAvailable,
    /// Event loop error.
    EventLoop(String),
}

/// The mathematical value of a [`CoreError`].
pub ghost enum CoreErrorView {
    BackendInit(Seq<char>),
    Renderer(Seq<char>),
    Session(Seq<char>),
    Input(Seq<char>),
    NoBackendAvailable,
    EventLoop(Seq<char>),
}

impl View for CoreError {
    type V = CoreErrorView;

    open spec fn view(&self) -> CoreErrorView {
        match *self {
            CoreError::BackendInit(reason) => CoreErrorView::BackendInit(reason@),
            CoreError::Renderer(reason) => CoreErrorView::Renderer(reason@),
            CoreError::Session(reason) => CoreErrorView::Session(reason@),
            CoreError::Input(reason) => CoreErrorView::Input(reason@),
            CoreError::NoBackendAvailable => CoreErrorView::NoBackendAvailable,
            CoreError::EventLoop(reason) => CoreErrorView::EventLoop(reason@),
        }
    }
}

impl CoreErrorView {
    /// The error in words.
    pub open spec fn message(self) -> Seq<char> {
        match self {
            CoreErrorView::BackendInit(detail) => "Failed to initialize backend: "@ + detail,
            CoreErrorView::Renderer(detail) => "Failed to create renderer: "@ + detail,
            CoreErrorView::Session(detail) => "Session error: "@ + detail,
            CoreErrorView::Input(detail) => "Input error: "@ + detail,
            CoreErrorView::NoBackendAvailable => "No backend available - compile with 'drm' or 'winit' feature"@,
            CoreErrorView::EventLoop(detail) => "Event loop error: "@ + detail,
        }
    }
}

impl CoreError {
    /// The error in words.
    pub fn message(&self) -> (message: String)
        ensures
            message@ == self@.message(),
    {
        match self {
            CoreError::BackendInit(detail) => String::from_str("Failed to initialize backend: ").concat(detail.as_str()),
            CoreError::Renderer(detail) => String::from_str("Failed to create renderer: ").concat(detail.as_str()),
            CoreError::Session(detail) => String::from_str("Session error: ").concat(detail.as_str()),
            CoreError::Input(detail) => String::from_str("Input error: ").concat(detail.as_str()),
            CoreError::NoBackendAvailable => String::from_str("No backend available - compile with 'drm' or 'winit' feature"),
            CoreError::EventLoop(detail) => String::from_str("Event loop error: ").concat(detail.as_str()),
        }
    }
}

/// What the operations of the compositor return.
pub type Result<T> = std::result::Result<T, CoreError>;

} // verus!
