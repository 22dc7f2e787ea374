//! What the host application is told: the answer to each of its commands,
//! and the notice sent when the session connects by itself at startup.

use crate::error::{ErrorModel, VpnError};
use vstd::prelude::*;

verus! {

/// A notice for the host application's window.
#[derive(Debug, PartialEq, Eq)]
pub struct Notification {
    /// The window the notice goes to.
    pub window: String,
    /// The name of the event.
    pub event: String,
    /// The text that goes with it.
    pub message: String,
}

/// What a [`Notification`] stands for.
pub struct NotificationModel {
    pub window: Seq<char>,
    pub event: Seq<char>,
    pub message: Seq<char>,
}

impl View for Notification {
    type V = NotificationModel;

    open spec fn view(&self) -> NotificationModel {
        NotificationModel { window: self.window@, event: self.event@, message: self.message@ }
    }
}

/// The result of an operation as models see it.
pub open spec fn outcome_model(outcome: Result<(), VpnError>) -> Result<(), ErrorModel> {
    match outcome {
        Ok(()) => Ok(()),
        Err(error) => Err(error@),
    }
}

/// The text of a command's answer.
pub open spec fn answer_model(answer: Result<String, String>) -> Result<Seq<char>, Seq<char>> {
    match answer {
        Ok(text) => Ok(text@),
        Err(text) => Err(text@),
    }
}

pub open spec fn startup_notification_model(outcome: Result<(), ErrorModel>) -> NotificationModel {
    match outcome {
        Ok(()) => NotificationModel {
            window: "main"@,
            event: "vpn-connected"@,
            message: "VPN conectada exitosamente"@,
        },
        Err(error) => NotificationModel {
            window: "main"@,
            event: "vpn-error"@,
            message: "Error conectando VPN: "@ + error.message(),
        },
    }
}

/// The notice for the main window once the connect made at startup is over.
pub fn startup_notification(outcome: &Result<(), VpnError>) -> (notice: Notification)
    ensures
        notice@ == startup_notification_model(outcome_model(*outcome)),
{
    match outcome {
        Ok(()) => Notification {
            window: String::from_str("main"),
            event: String::from_str("vpn-connected"),
            message: String::from_str("VPN conectada exitosamente"),
        },
        Err(error) => Notification {
            window: String::from_str("main"),
            event: String::from_str("vpn-error"),
            message: String::from_str("Error conectando VPN: ").concat(error.message().as_str()),
        },
    }
}

/// The answer to the connect command: a confirmation, or the error's text.
pub fn connect_vpn_command(outcome: Result<(), VpnError>) -> (answer: Result<String, String>)
    ensures
        answer_model(answer) == match outcome_model(outcome) {
            Ok(()) => Ok::<Seq<char>, Seq<char>>("VPN conectada exitosamente"@),
            Err(error) => Err(error.message()),
        },
{
    match outcome {
        Ok(()) => Ok(String::from_str("VPN conectada exitosamente")),
        Err(error) => Err(error.message()),
    }
}

/// The answer to the disconnect command: a confirmation, or the error's text.
pub fn disconnect_vpn_command(outcome: Result<(), VpnError>) -> (answer: Result<String, String>)
    ensures
        answer_model(answer) == match outcome_model(outcome) {
            Ok(()) => Ok::<Seq<char>, Seq<char>>("VPN desconectada exitosamente"@),
            Err(error) => Err(error.message()),
        },
{
    match outcome {
        Ok(()) => Ok(String::from_str("VPN desconectada exitosamente")),
        Err(error) => Err(error.message()),
    }
}

} // verus!
