//! Capability negotiation: which operations each platform adapter performs,
//! and the platform-named error it returns for the others.
use crate::error::{Error, Result};
use crate::models::{Channel, PermissionState};
use vstd::prelude::*;

verus! {

/// The adapter in use.
#[derive(Clone, Copy, Debug, PartialEq, Eq, Structural)]
pub enum Platform {
    /// Any desktop, through the generic notification daemon library.
    Desktop,
    /// macOS, through the Swift bridge.
    MacOs,
    /// Windows, through the native toast API.
    Windows,
}

/// An adapter operation that some platform may lack.
#[derive(Clone, Copy, Debug, PartialEq, Eq, Structural)]
pub enum Operation {
    RegisterForPush,
    UnregisterForPush,
    Pending,
    Active,
    SetClickListener,
    RemoveActive,
    Cancel,
    RegisterActionTypes,
    Channels,
}

/// The message of the error that `platform` returns for `op`, or `None`
/// where it performs the operation.
pub open spec fn unsupported_message(platform: Platform, op: Operation) -> Option<Seq<char>> {
    match (platform, op) {
        (_, Operation::Channels) => Some(channels_unsupported(platform)),
        (Platform::Desktop, Operation::RegisterForPush) => Some(
            "Push notifications are not supported on desktop platforms"@,
        ),
        (Platform::Desktop, Operation::UnregisterForPush) => Some(
            "Push notifications are not supported on desktop platforms"@,
        ),
        (Platform::Desktop, Operation::Pending) => Some(
            "Pending notifications are not supported with notify-rust"@,
        ),
        (Platform::Desktop, Operation::Active) => Some(
            "Active notifications are not supported with notify-rust"@,
        ),
        (Platform::Desktop, Operation::SetClickListener) => Some(
            "Click listeners are not supported with notify-rust"@,
        ),
        (Platform::Desktop, Operation::RemoveActive) => Some(
            "Removing active notifications is not supported with notify-rust"@,
        ),
        (Platform::Desktop, Operation::Cancel) => Some(
            "Canceling notifications is not supported with notify-rust"@,
        ),
        (Platform::Desktop, Operation::RegisterActionTypes) => Some(
            "Action types are not supported with notify-rust"@,
        ),
        (Platform::MacOs, Operation::RegisterForPush) => Some(
            "Push notifications feature is not enabled"@,
        ),
        (Platform::MacOs, Operation::UnregisterForPush) => Some(
            "Push notifications feature is not enabled"@,
        ),
        (Platform::Windows, Operation::RegisterForPush) => Some(
            "Push notifications feature not enabled"@,
        ),
        (Platform::Windows, Operation::UnregisterForPush) => Some(
            "Push notifications feature not enabled"@,
        ),
        _ => None,
    }
}

/// The message with which `platform` refuses channel operations.
pub open spec fn channels_unsupported(platform: Platform) -> Seq<char> {
    match platform {
        Platform::Desktop => "Notification channels are not supported with notify-rust"@,
        Platform::MacOs => "Notification channels are not supported on macOS"@,
        Platform::Windows => "Notification channels are not supported on Windows"@,
    }
}

/// Whether `r` is the unsupported-error with message `m`.
pub open spec fn is_unsupported<T>(r: Result<T>, m: Seq<char>) -> bool {
    r matches Err(Error::Io(text)) && text@ == m
}

fn refuse(message: &str) -> (r: Error)
    ensures
        r matches Error::Io(m) && m@ == message@,
{
    Error::Io(message.to_owned())
}

impl Platform {
    /// `Ok` where the platform performs `op`; its unsupported-error otherwise.
    pub fn check(&self, op: Operation) -> (r: Result<()>)
        ensures
            r is Ok <==> unsupported_message(*self, op) is None,
            unsupported_message(*self, op) matches Some(m) ==> is_unsupported(r, m),
    {
        let message = match (self, op) {
            (_, Operation::Channels) => match self {
                Platform::Desktop => "Notification channels are not supported with notify-rust",
                Platform::MacOs => "Notification channels are not supported on macOS",
                Platform::Windows => "Notification channels are not supported on Windows",
            },
            (Platform::Desktop, Operation::RegisterForPush)
            | (Platform::Desktop, Operation::UnregisterForPush) =>
                "Push notifications are not supported on desktop platforms",
            (Platform::Desktop, Operation::Pending) =>
                "Pending notifications are not supported with notify-rust",
            (Platform::Desktop, Operation::Active) =>
                "Active notifications are not supported with notify-rust",
            (Platform::Desktop, Operation::SetClickListener) =>
                "Click listeners are not supported with notify-rust",
            (Platform::Desktop, Operation::RemoveActive) =>
                "Removing active notifications is not supported with notify-rust",
            (Platform::Desktop, Operation::Cancel) =>
                "Canceling notifications is not supported with notify-rust",
            (Platform::Desktop, Operation::RegisterActionTypes) =>
                "Action types are not supported with notify-rust",
            (Platform::MacOs, Operation::RegisterForPush)
            | (Platform::MacOs, Operation::UnregisterForPush) =>
                "Push notifications feature is not enabled",
            (Platform::Windows, Operation::RegisterForPush)
            | (Platform::Windows, Operation::UnregisterForPush) =>
                "Push notifications feature not enabled",
            _ => {
                return Ok(());
            },
        };
        Err(refuse(message))
    }

    /// Creating a channel: no platform here has channels, so this is
    /// always the platform's unsupported-error, never `Ok`.
    pub fn create_channel(&self, _channel: &Channel) -> (r: Result<()>)
        ensures
            is_unsupported(r, channels_unsupported(*self)),
    {
        match self.check(Operation::Channels) {
            Ok(()) => Ok(()),
            Err(e) => Err(e),
        }
    }

    /// Deleting a channel: always the platform's unsupported-error.
    pub fn delete_channel(&self, _id: &str) -> (r: Result<()>)
        ensures
            is_unsupported(r, channels_unsupported(*self)),
    {
        match self.check(Operation::Channels) {
            Ok(()) => Ok(()),
            Err(e) => Err(e),
        }
    }

    /// Listing channels: always the platform's unsupported-error.
    pub fn list_channels(&self) -> (r: Result<Vec<Channel>>)
        ensures
            is_unsupported(r, channels_unsupported(*self)),
    {
        match self.check(Operation::Channels) {
            Ok(()) => Ok(Vec::new()),
            Err(e) => Err(e),
        }
    }

    /// The permission state of a platform without a runtime permission
    /// concept; `None` where it must be asked of the OS.
    pub fn fixed_permission(&self) -> (r: Option<PermissionState>)
        ensures
            r == (if *self == Platform::Desktop {
                Some(PermissionState::Granted)
            } else {
                None::<PermissionState>
            }),
    {
        match self {
            Platform::Desktop => Some(PermissionState::Granted),
            _ => None,
        }
    }
}

/// The answer to "is permission granted?": yes, no, or not decided yet.
pub fn is_permission_granted(state: PermissionState) -> (r: Option<bool>)
    ensures
        r == (match state {
            PermissionState::Granted => Some(true),
            PermissionState::Denied => Some(false),
            _ => None::<bool>,
        }),
{
    match state {
        PermissionState::Granted => Some(true),
        PermissionState::Denied => Some(false),
        PermissionState::Prompt | PermissionState::PromptWithRationale => None,
    }
}

} // verus!
