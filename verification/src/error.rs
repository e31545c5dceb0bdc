//! What can go wrong in the bridge, and the message that the host is shown.

use vstd::prelude::*;

verus! {

/// A call that runs on the host's UI thread and hands its result back.
#[derive(Clone, Copy, Debug, PartialEq, Eq, Structural)]
pub enum HostCall {
    /// Creating the surface for a launch.
    Provision,
    /// Toggling the window's fullscreen state.
    ToggleFullscreen,
    /// Reading the window's fullscreen state.
    FullscreenState,
    /// Setting the window's fullscreen state.
    SetFullscreen,
    /// Starting to drag the window.
    StartDrag,
}

/// An error of the bridge.
#[derive(Clone, Debug, PartialEq, Eq)]
pub enum BridgeError {
    /// The host window was not found.
    WindowMissing(HostCall),
    /// The UI thread did not take the call, or the host refused it; the text
    /// is the host's.
    Dispatch(String),
    /// The result of a call on the UI thread never arrived.
    ChannelClosed(HostCall),
    /// Every backend candidate failed; the text is the last failure.
    EngineInit(String),
    /// One read or write on a running engine failed; the text is the
    /// engine's.
    Property(String),
    /// The session lock was poisoned; the text is the lock's.
    Lock(String),
    /// The operation needs an active session and there is none.
    NotActive,
}

/// What a [`BridgeError`] is, mathematically.
pub enum BridgeErrorModel {
    WindowMissing(HostCall),
    Dispatch(Seq<char>),
    ChannelClosed(HostCall),
    EngineInit(Seq<char>),
    Property(Seq<char>),
    Lock(Seq<char>),
    NotActive,
}

impl DeepView for BridgeError {
    type V = BridgeErrorModel;

    open spec fn deep_view(&self) -> BridgeErrorModel {
        match self {
            BridgeError::WindowMissing(call) => BridgeErrorModel::WindowMissing(*call),
            BridgeError::Dispatch(text) => BridgeErrorModel::Dispatch(text@),
            BridgeError::ChannelClosed(call) => BridgeErrorModel::ChannelClosed(*call),
            BridgeError::EngineInit(text) => BridgeErrorModel::EngineInit(text@),
            BridgeError::Property(text) => BridgeErrorModel::Property(text@),
            BridgeError::Lock(text) => BridgeErrorModel::Lock(text@),
            BridgeError::NotActive => BridgeErrorModel::NotActive,
        }
    }
}

impl BridgeErrorModel {
    /// The message that the host is shown.
    pub open spec fn message(self) -> Seq<char> {
        match self {
            BridgeErrorModel::WindowMissing(HostCall::Provision) => "Main window not found"@,
            BridgeErrorModel::WindowMissing(_) => "Window not found"@,
            BridgeErrorModel::ChannelClosed(HostCall::Provision) => "Failed to receive WID"@,
            BridgeErrorModel::ChannelClosed(HostCall::ToggleFullscreen) => "fullscreen result channel closed"@,
            BridgeErrorModel::ChannelClosed(HostCall::FullscreenState) => "fullscreen state channel closed"@,
            BridgeErrorModel::ChannelClosed(HostCall::SetFullscreen) => "set fullscreen channel closed"@,
            BridgeErrorModel::ChannelClosed(HostCall::StartDrag) => "drag result channel closed"@,
            BridgeErrorModel::NotActive => "Player not active"@,
            BridgeErrorModel::Dispatch(text) => text,
            BridgeErrorModel::EngineInit(text) => text,
            BridgeErrorModel::Property(text) => text,
            BridgeErrorModel::Lock(text) => text,
        }
    }
}

impl BridgeError {
    /// The message that the host is shown.
    pub fn message(&self) -> (text: String)
        ensures
            text@ == self.deep_view().message(),
    {
        match self {
            BridgeError::WindowMissing(HostCall::Provision) => "Main window not found".to_owned(),
            BridgeError::WindowMissing(_) => "Window not found".to_owned(),
            BridgeError::ChannelClosed(HostCall::Provision) => "Failed to receive WID".to_owned(),
            BridgeError::ChannelClosed(HostCall::ToggleFullscreen) => "fullscreen result channel closed".to_owned(),
            BridgeError::ChannelClosed(HostCall::FullscreenState) => "fullscreen state channel closed".to_owned(),
            BridgeError::ChannelClosed(HostCall::SetFullscreen) => "set fullscreen channel closed".to_owned(),
            BridgeError::ChannelClosed(HostCall::StartDrag) => "drag result channel closed".to_owned(),
            BridgeError::NotActive => "Player not active".to_owned(),
            BridgeError::Dispatch(text) => text.clone(),
            BridgeError::EngineInit(text) => text.clone(),
            BridgeError::Property(text) => text.clone(),
            BridgeError::Lock(text) => text.clone(),
        }
    }
}

} // verus!
