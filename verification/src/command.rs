//! What the server wants the charging point to do.
use vstd::prelude::*;

use crate::calls::OutgoingCall;
use crate::profile::{
    ProfileFilter, SetChargingProfile, UtcPeriod, names_time, profile_request, resolves,
};
use crate::schedule::{ChargingSchedule, ScheduleView, in_order};
use crate::time::NoSingleInstant;
use crate::wire::CallContent;

verus! {

#[derive(Debug, PartialEq)]
pub enum CommandToChargingPoint {
    Reboot,
    SetChargingSchedule(ChargingSchedule),
    SetServerAddress(String),
    StopTransaction(i32),
}

/// The contents of a [`CommandToChargingPoint`].
pub enum CommandView {
    Reboot,
    SetChargingSchedule(ScheduleView),
    SetServerAddress(Seq<char>),
    StopTransaction(i32),
}

impl View for CommandToChargingPoint {
    type V = CommandView;

    open spec fn view(&self) -> CommandView {
        match *self {
            CommandToChargingPoint::Reboot => CommandView::Reboot,
            CommandToChargingPoint::SetChargingSchedule(schedule) => {
                CommandView::SetChargingSchedule(schedule@)
            },
            CommandToChargingPoint::SetServerAddress(address) => CommandView::SetServerAddress(
                address@,
            ),
            CommandToChargingPoint::StopTransaction(transaction_id) => {
                CommandView::StopTransaction(transaction_id)
            },
        }
    }
}

/// The call that sets the address of the server.
pub open spec fn address_call(address: Seq<char>) -> CallContent {
    CallContent::ChangeConfiguration("CS_URL"@, address)
}

pub fn set_address_call(address: String) -> (r: OutgoingCall)
    ensures
        r@ == address_call(address@),
{
    OutgoingCall::ChangeConfiguration { key: "CS_URL".to_owned(), value: address }
}

/// Whether `call` is the call that sets a schedule: the time zone decides on the instants of its
/// periods.
pub open spec fn sets_schedule(schedule: ScheduleView, call: CallContent) -> bool {
    exists|instants: Seq<UtcPeriod>| #[trigger]
        resolves(in_order(schedule.periods), instants) && call == CallContent::SetChargingProfile(
            profile_request(schedule.set_time, instants),
        )
}

/// Makes the call that sets a schedule, with its periods taken in the machine's time zone.
pub fn set_schedule_call(schedule: ChargingSchedule) -> (r: Result<OutgoingCall, NoSingleInstant>)
    ensures
        r matches Ok(call) ==> sets_schedule(schedule@, call@),
        r matches Err(e) ==> names_time(in_order(schedule@.periods), e),
{
    let builder = SetChargingProfile::builder(schedule);
    let ghost start = builder.start_schedule_utc;
    let ghost periods = builder.periods@;
    match builder.build() {
        Ok(request) => {
            proof {
                let instants = choose|instants: Seq<UtcPeriod>| #[trigger]
                    resolves(periods, instants) && request@ == profile_request(start, instants);
                assert(resolves(in_order(schedule@.periods), instants));
            }
            Ok(OutgoingCall::SetChargingProfile(request))
        },
        Err(e) => Err(e),
    }
}

/// The call that clears all charging profiles.
pub open spec fn clear_call() -> CallContent {
    CallContent::ClearChargingProfile(ProfileFilter::spec_all())
}

/// Makes the call that clears all charging profiles.
pub fn make_clear_call() -> (call: OutgoingCall)
    ensures
        call@ == clear_call(),
{
    OutgoingCall::ClearChargingProfile(ProfileFilter::all())
}

} // verus!
