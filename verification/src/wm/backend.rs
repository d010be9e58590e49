//! Backend selection for different environments.
//!
//! Supports:
//! - DRM/KMS for real hardware (TTY)
//! - Winit for development (nested in X11/Wayland)

use crate::wm::{CoreError, CoreErrorView};
use vstd::prelude::*;

verus! {

/// Available backend types.
#[derive(Debug, Clone, Copy, PartialEq, Eq, Structural)]
pub enum BackendType {
    /// Direct Rendering Manager - for real hardware.
    Drm,
    /// Winit - for development/testing in a window.
    Winit,
}

impl BackendType {
    /// The backend for an environment: Winit inside an existing display
    /// server, if it is built in; otherwise DRM, if that is built in.
    pub open spec fn spec_autodetect(
        has_display: bool,
        has_wayland_display: bool,
        drm_built: bool,
        winit_built: bool,
    ) -> Result<BackendType, CoreErrorView> {
        if winit_built && (has_display || has_wayland_display) {
            Ok(BackendType::Winit)
        } else if drm_built {
            Ok(BackendType::Drm)
        } else {
            Err(CoreErrorView::NoBackendAvailable)
        }
    }

    /// Auto-detect the best backend for the current environment.
    ///
    /// `has_display` and `has_wayland_display` say whether the environment
    /// names an X11 and a Wayland display, `drm_built` and `winit_built`
    /// which backends the compositor was built with.
    pub fn autodetect(
        has_display: bool,
        has_wayland_display: bool,
        drm_built: bool,
        winit_built: bool,
    ) -> (backend: Result<BackendType, CoreError>)
        ensures
            match backend {
                Ok(backend) => Self::spec_autodetect(
                    has_display,
                    has_wayland_display,
                    drm_built,
                    winit_built,
                ) == Ok::<BackendType, CoreErrorView>(backend),
                Err(e) => Self::spec_autodetect(
                    has_display,
                    has_wayland_display,
                    drm_built,
                    winit_built,
                ) == Err::<BackendType, CoreErrorView>(e@),
            },
    {
        // If we're running inside an existing display server, prefer Winit
        if winit_built && (has_display || has_wayland_display) {
            return Ok(BackendType::Winit);
        }
        // Otherwise, use DRM for direct hardware access
        if drm_built {
            return Ok(BackendType::Drm);
        }
        Err(CoreError::NoBackendAvailable)
    }
}

/// The two backends of the compositor.
#[derive(Debug, Clone, Copy, PartialEq, Eq, Structural)]
pub enum Backend {
    /// Direct Rendering Manager - for real hardware.
    Drm,
    /// Winit - for development/testing.
    Winit,
}

impl Backend {
    /// The backend for an environment: Winit inside an existing display
    /// server, DRM otherwise.
    pub open spec fn spec_autodetect(has_display: bool, has_wayland_display: bool) -> Backend {
        if has_display || has_wayland_display {
            Backend::Winit
        } else {
            Backend::Drm
        }
    }

    /// Picks the backend for the current environment.
    pub fn autodetect(has_display: bool, has_wayland_display: bool) -> (backend: Result<
        Backend,
        CoreError,
    >)
        ensures
            backend is Ok,
            backend->Ok_0 == Self::spec_autodetect(has_display, has_wayland_display),
    {
        if has_display || has_wayland_display {
            Ok(Backend::Winit)
        } else {
            Ok(Backend::Drm)
        }
    }
}

} // verus!
