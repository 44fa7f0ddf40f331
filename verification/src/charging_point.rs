//! What the charging point reports of its connector and of the end of a transaction.
use vstd::prelude::*;

use crate::text::same_text;

verus! {

/// The status of a connector.
#[derive(Debug, Clone, Copy, PartialEq, Eq, Structural)]
pub enum ChargePointStatus {
    Available,
    Preparing,
    Charging,
    SuspendedEVSE,
    SuspendedEV,
    Finishing,
    Reserved,
    Unavailable,
    Faulted,
}

impl ChargePointStatus {
    /// The status of the given name.
    pub open spec fn named(name: Seq<char>) -> Option<ChargePointStatus> {
        if name == "Available"@ {
            Some(ChargePointStatus::Available)
        } else if name == "Preparing"@ {
            Some(ChargePointStatus::Preparing)
        } else if name == "Charging"@ {
            Some(ChargePointStatus::Charging)
        } else if name == "SuspendedEVSE"@ {
            Some(ChargePointStatus::SuspendedEVSE)
        } else if name == "SuspendedEV"@ {
            Some(ChargePointStatus::SuspendedEV)
        } else if name == "Finishing"@ {
            Some(ChargePointStatus::Finishing)
        } else if name == "Reserved"@ {
            Some(ChargePointStatus::Reserved)
        } else if name == "Unavailable"@ {
            Some(ChargePointStatus::Unavailable)
        } else if name == "Faulted"@ {
            Some(ChargePointStatus::Faulted)
        } else {
            None
        }
    }

    pub fn from_name(name: &str) -> (r: Option<ChargePointStatus>)
        ensures
            r == Self::named(name@),
    {
        if same_text(name, "Available") {
            Some(ChargePointStatus::Available)
        } else if same_text(name, "Preparing") {
            Some(ChargePointStatus::Preparing)
        } else if same_text(name, "Charging") {
            Some(ChargePointStatus::Charging)
        } else if same_text(name, "SuspendedEVSE") {
            Some(ChargePointStatus::SuspendedEVSE)
        } else if same_text(name, "SuspendedEV") {
            Some(ChargePointStatus::SuspendedEV)
        } else if same_text(name, "Finishing") {
            Some(ChargePointStatus::Finishing)
        } else if same_text(name, "Reserved") {
            Some(ChargePointStatus::Reserved)
        } else if same_text(name, "Unavailable") {
            Some(ChargePointStatus::Unavailable)
        } else if same_text(name, "Faulted") {
            Some(ChargePointStatus::Faulted)
        } else {
            None
        }
    }
}

/// Why a transaction was stopped.
#[derive(Debug, Clone, Copy, PartialEq, Eq, Structural)]
pub enum Reason {
    DeAuthorized,
    EmergencyStop,
    EVDisconnected,
    HardReset,
    Local,
    Other,
    PowerLoss,
    Reboot,
    Remote,
    SoftReset,
    UnlockCommand,
}

impl Reason {
    /// The reason of the given name.
    pub open spec fn named(name: Seq<char>) -> Option<Reason> {
        if name == "DeAuthorized"@ {
            Some(Reason::DeAuthorized)
        } else if name == "EmergencyStop"@ {
            Some(Reason::EmergencyStop)
        } else if name == "EVDisconnected"@ {
            Some(Reason::EVDisconnected)
        } else if name == "HardReset"@ {
            Some(Reason::HardReset)
        } else if name == "Local"@ {
            Some(Reason::Local)
        } else if name == "Other"@ {
            Some(Reason::Other)
        } else if name == "PowerLoss"@ {
            Some(Reason::PowerLoss)
        } else if name == "Reboot"@ {
            Some(Reason::Reboot)
        } else if name == "Remote"@ {
            Some(Reason::Remote)
        } else if name == "SoftReset"@ {
            Some(Reason::SoftReset)
        } else if name == "UnlockCommand"@ {
            Some(Reason::UnlockCommand)
        } else {
            None
        }
    }

    pub fn from_name(name: &str) -> (r: Option<Reason>)
        ensures
            r == Self::named(name@),
    {
        if same_text(name, "DeAuthorized") {
            Some(Reason::DeAuthorized)
        } else if same_text(name, "EmergencyStop") {
            Some(Reason::EmergencyStop)
        } else if same_text(name, "EVDisconnected") {
            Some(Reason::EVDisconnected)
        } else if same_text(name, "HardReset") {
            Some(Reason::HardReset)
        } else if same_text(name, "Local") {
            Some(Reason::Local)
        } else if same_text(name, "Other") {
            Some(Reason::Other)
        } else if same_text(name, "PowerLoss") {
            Some(Reason::PowerLoss)
        } else if same_text(name, "Reboot") {
            Some(Reason::Reboot)
        } else if same_text(name, "Remote") {
            Some(Reason::Remote)
        } else if same_text(name, "SoftReset") {
            Some(Reason::SoftReset)
        } else if same_text(name, "UnlockCommand") {
            Some(Reason::UnlockCommand)
        } else {
            None
        }
    }
}

/// Each status has the name under which OCPP knows it, and no other, and no two have the same.
pub proof fn law_status_names(name: Seq<char>)
    ensures
        ChargePointStatus::named(name) == Some(ChargePointStatus::Available) <==> name
            == "Available"@,
        ChargePointStatus::named(name) == Some(ChargePointStatus::Preparing) <==> name
            == "Preparing"@,
        ChargePointStatus::named(name) == Some(ChargePointStatus::Charging) <==> name
            == "Charging"@,
        ChargePointStatus::named(name) == Some(ChargePointStatus::SuspendedEVSE) <==> name
            == "SuspendedEVSE"@,
        ChargePointStatus::named(name) == Some(ChargePointStatus::SuspendedEV) <==> name
            == "SuspendedEV"@,
        ChargePointStatus::named(name) == Some(ChargePointStatus::Finishing) <==> name
            == "Finishing"@,
        ChargePointStatus::named(name) == Some(ChargePointStatus::Reserved) <==> name
            == "Reserved"@,
        ChargePointStatus::named(name) == Some(ChargePointStatus::Unavailable) <==> name
            == "Unavailable"@,
        ChargePointStatus::named(name) == Some(ChargePointStatus::Faulted) <==> name == "Faulted"@,
{
    reveal_strlit("Available");
    reveal_strlit("Preparing");
    reveal_strlit("Charging");
    reveal_strlit("SuspendedEVSE");
    reveal_strlit("SuspendedEV");
    reveal_strlit("Finishing");
    reveal_strlit("Reserved");
    reveal_strlit("Unavailable");
    reveal_strlit("Faulted");
    assert("Available"@.len() == 9 && "Available"@[0] == 'A' && "Available"@[1] == 'v');
    assert("Preparing"@.len() == 9 && "Preparing"@[0] == 'P' && "Preparing"@[1] == 'r');
    assert("Charging"@.len() == 8 && "Charging"@[0] == 'C' && "Charging"@[1] == 'h');
    assert("SuspendedEVSE"@.len() == 13 && "SuspendedEVSE"@[0] == 'S'
        && "SuspendedEVSE"@[1] == 'u');
    assert("SuspendedEV"@.len() == 11 && "SuspendedEV"@[0] == 'S' && "SuspendedEV"@[1] == 'u');
    assert("Finishing"@.len() == 9 && "Finishing"@[0] == 'F' && "Finishing"@[1] == 'i');
    assert("Reserved"@.len() == 8 && "Reserved"@[0] == 'R' && "Reserved"@[1] == 'e');
    assert("Unavailable"@.len() == 11 && "Unavailable"@[0] == 'U' && "Unavailable"@[1] == 'n');
    assert("Faulted"@.len() == 7 && "Faulted"@[0] == 'F' && "Faulted"@[1] == 'a');
}

/// Each reason has the name under which OCPP knows it, and no other, and no two have the same.
pub proof fn law_reason_names(name: Seq<char>)
    ensures
        Reason::named(name) == Some(Reason::DeAuthorized) <==> name == "DeAuthorized"@,
        Reason::named(name) == Some(Reason::EmergencyStop) <==> name == "EmergencyStop"@,
        Reason::named(name) == Some(Reason::EVDisconnected) <==> name == "EVDisconnected"@,
        Reason::named(name) == Some(Reason::HardReset) <==> name == "HardReset"@,
        Reason::named(name) == Some(Reason::Local) <==> name == "Local"@,
        Reason::named(name) == Some(Reason::Other) <==> name == "Other"@,
        Reason::named(name) == Some(Reason::PowerLoss) <==> name == "PowerLoss"@,
        Reason::named(name) == Some(Reason::Reboot) <==> name == "Reboot"@,
        Reason::named(name) == Some(Reason::Remote) <==> name == "Remote"@,
        Reason::named(name) == Some(Reason::SoftReset) <==> name == "SoftReset"@,
        Reason::named(name) == Some(Reason::UnlockCommand) <==> name == "UnlockCommand"@,
{
    reveal_strlit("DeAuthorized");
    reveal_strlit("EmergencyStop");
    reveal_strlit("EVDisconnected");
    reveal_strlit("HardReset");
    reveal_strlit("Local");
    reveal_strlit("Other");
    reveal_strlit("PowerLoss");
    reveal_strlit("Reboot");
    reveal_strlit("Remote");
    reveal_strlit("SoftReset");
    reveal_strlit("UnlockCommand");
    assert("DeAuthorized"@.len() == 12 && "DeAuthorized"@[0] == 'D' && "DeAuthorized"@[1] == 'e');
    assert("EmergencyStop"@.len() == 13 && "EmergencyStop"@[0] == 'E'
        && "EmergencyStop"@[1] == 'm');
    assert("EVDisconnected"@.len() == 14 && "EVDisconnected"@[0] == 'E'
        && "EVDisconnected"@[1] == 'V');
    assert("HardReset"@.len() == 9 && "HardReset"@[0] == 'H' && "HardReset"@[1] == 'a');
    assert("Local"@.len() == 5 && "Local"@[0] == 'L' && "Local"@[1] == 'o');
    assert("Other"@.len() == 5 && "Other"@[0] == 'O' && "Other"@[1] == 't');
    assert("PowerLoss"@.len() == 9 && "PowerLoss"@[0] == 'P' && "PowerLoss"@[1] == 'o');
    assert("Reboot"@.len() == 6 && "Reboot"@[0] == 'R' && "Reboot"@[1] == 'e');
    assert("Reboot"@[2] == 'b' && "Remote"@[2] == 'm');
    assert("Remote"@.len() == 6 && "Remote"@[0] == 'R' && "Remote"@[1] == 'e');
    assert("SoftReset"@.len() == 9 && "SoftReset"@[0] == 'S' && "SoftReset"@[1] == 'o');
    assert("UnlockCommand"@.len() == 13 && "UnlockCommand"@[0] == 'U'
        && "UnlockCommand"@[1] == 'n');
}

} // verus!
