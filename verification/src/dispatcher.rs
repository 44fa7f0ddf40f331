//! What a command of the user comes to, once the charging point has connected.
use vstd::prelude::*;

use crate::args::{Command, Ipv4Address};
use crate::command::{CommandToChargingPoint, CommandView};
use crate::evse::{Evse, EvseView, make_server_address, server_address};
use crate::ocpp::OcppInterface;
use crate::plan::ChargingPlan;
use crate::schedule::ScheduleView;
use crate::time::{Moment, NoSingleInstant, read_clock};

verus! {

/// The charging point, and the exchange of messages with it.
#[derive(Debug)]
pub struct Dispatcher {
    pub evse: Evse,
    pub ocpp_if: OcppInterface,
}

/// Whether a command can be carried out on a charging point that has just connected.
pub open spec fn can_dispatch(
    evse: EvseView,
    command: Command,
    plan: Option<ChargingPlan>,
) -> bool {
    match command {
        Command::Run => match plan {
            Some(plan) => plan.feasible(evse.bms) && evse.db.next_schedule_id < i32::MAX,
            None => evse.schedule is Some ==> evse.db.next_schedule_id < i32::MAX,
        },
        Command::StopSession => evse.session is Some,
        Command::Reboot => evse.db.next_schedule_id < i32::MAX,
        Command::SetServerIp(ip) => {
            &&& evse.db.next_schedule_id < i32::MAX
            &&& exists|address: Ipv4Address| ip.ip_address@ == #[trigger] address.text()
        },
    }
}

/// Whether `after` is what a command that is carried out at `now` makes of the charging point.
/// Without a plan, the schedule in force is set anew. Before a reboot, charging is blocked.
pub open spec fn dispatch_leads_to(
    evse: EvseView,
    command: Command,
    plan: Option<ChargingPlan>,
    now: Moment,
    after: EvseView,
) -> bool {
    match command {
        Command::Run => match plan {
            Some(_) => evse.plan_leads_to(plan, now, after),
            None => after == evse.refreshed(now.utc),
        },
        Command::StopSession => after == evse.with_command(
            CommandView::StopTransaction(evse.session->0.transaction_id),
        ),
        Command::Reboot => after == evse.blocked(now.utc),
        Command::SetServerIp(_) => after == evse.blocked(now.utc),
    }
}

/// What the charging point is given to do on its own account.
pub open spec fn dispatched(command: Command) -> Seq<CommandView> {
    match command {
        Command::Reboot => seq![CommandView::Reboot],
        Command::SetServerIp(ip) => seq![
            CommandView::SetServerAddress(server_address(ip.ip_address@)),
        ],
        _ => Seq::empty(),
    }
}

impl Dispatcher {
    /// Carries out a command of the user on a charging point that has just connected, with the
    /// clock at `now`.
    pub fn new_at(
        evse: Evse,
        command: &Command,
        charging_plan: Option<ChargingPlan>,
        now: Moment,
    ) -> (r: Result<Self, NoSingleInstant>)
        requires
            now.valid(),
            evse@.well_formed(),
            can_dispatch(evse@, *command, charging_plan),
        ensures
            r matches Ok(dispatcher) ==> {
                &&& dispatch_leads_to(evse@, *command, charging_plan, now, dispatcher.evse@)
                &&& dispatcher.ocpp_if@ == OcppInterface::spec_new().with_commands(
                    dispatched(*command),
                )
                &&& dispatcher.evse@.well_formed()
                &&& dispatcher.ocpp_if@.tracker.well_formed()
            },
            r matches Err(e) ==> charging_plan is Some && *command is Run
                && charging_plan->0.can_fail_with(evse@.bms, now, e),
    {
        let mut evse = evse;
        let mut ocpp_if = OcppInterface::new();
        match command {
            Command::Run => match charging_plan {
                Some(charging_plan) => {
                    if let Err(e) = evse.set_charging_plan(&charging_plan, now) {
                        return Err(e);
                    }
                },
                None => {
                    // no charging plan specified, re-apply last schedule if any,
                    // in case it was removed (e.g. due to a charging point reboot)
                    evse.refresh_charging_schedule(now.utc);
                },
            },
            Command::StopSession => {
                evse.stop_current_session();
            },
            Command::Reboot => {
                evse.permanent_0w_set(now.utc);
                ocpp_if.push_command(CommandToChargingPoint::Reboot);
            },
            Command::SetServerIp(ip_address) => {
                evse.permanent_0w_set(now.utc);
                if let Ok(address) = make_server_address(ip_address) {
                    ocpp_if.push_command(CommandToChargingPoint::SetServerAddress(address));
                }
            },
        }
        assert(ocpp_if@.commands =~= dispatched(*command));
        Ok(Dispatcher { evse, ocpp_if })
    }

    /// Carries out a command of the user on a charging point that has just connected.
    pub fn new(evse: Evse, command: &Command, charging_plan: Option<ChargingPlan>) -> (r: Result<
        Self,
        NoSingleInstant,
    >)
        requires
            evse@.well_formed(),
            can_dispatch(evse@, *command, charging_plan),
        ensures
            r matches Ok(dispatcher) ==> {
                &&& exists|now: Moment| #[trigger]
                    now.valid() && dispatch_leads_to(
                        evse@,
                        *command,
                        charging_plan,
                        now,
                        dispatcher.evse@,
                    )
                &&& dispatcher.ocpp_if@ == OcppInterface::spec_new().with_commands(
                    dispatched(*command),
                )
                &&& dispatcher.evse@.well_formed()
                &&& dispatcher.ocpp_if@.tracker.well_formed()
            },
            r matches Err(e) ==> charging_plan is Some && *command is Run && exists|now: Moment|
                #[trigger]
                now.valid() && charging_plan->0.can_fail_with(evse@.bms, now, e),
    {
        let now = read_clock();
        Dispatcher::new_at(evse, command, charging_plan, now)
    }
}

/// Once the charging point has connected, a command of the user comes to what there is to do. To run
/// without a plan is to set the schedule in force anew, at the time that the clock shows. To stop the
/// session is to stop its transaction. Before a reboot charging is blocked from now on, and then there
/// is the one command to reboot, or to set the address of the server, at its port. Nothing else is to
/// be done.
pub proof fn law_command_is_dispatched(
    evse: EvseView,
    command: Command,
    plan: Option<ChargingPlan>,
    now: Moment,
    after: EvseView,
)
    requires
        dispatch_leads_to(evse, command, plan, now, after),
    ensures
        command is Run && plan is None ==> after == evse.refreshed(now.utc),
        command is Run && plan is Some ==> exists|schedule: Option<ScheduleView>| #[trigger]
            plan->0.can_come_to(evse.bms, now, schedule) && match schedule {
                None => after == evse,
                Some(schedule) => after == evse.with_schedule(schedule),
            },
        command is StopSession ==> after == (EvseView {
            commands: evse.commands.push(
                CommandView::StopTransaction(evse.session->0.transaction_id),
            ),
            ..evse
        }),
        command is Reboot || command is SetServerIp ==> after == evse.blocked(now.utc),
        command is Run || command is StopSession ==> dispatched(command).len() == 0,
        command is Reboot ==> dispatched(command) == seq![CommandView::Reboot],
        command matches Command::SetServerIp(ip) ==> dispatched(command) == seq![
            CommandView::SetServerAddress("ws://"@ + ip.ip_address@ + ":9000"@),
        ],
{
}

/// A command can be carried out unless something is missing for it: a session to be stopped, an
/// address that can be read, a plan that can be made, or a number for a schedule that it adds.
pub proof fn law_when_dispatched(evse: EvseView, command: Command, plan: Option<ChargingPlan>)
    ensures
        ({
            let numbered = evse.db.next_schedule_id < 2_147_483_647;
            &&& command is Run && plan is None ==> (can_dispatch(evse, command, plan) <==> (
            evse.schedule is None || numbered))
            &&& command is Run && plan is Some ==> (can_dispatch(evse, command, plan) <==> (
            plan->0.feasible(evse.bms) && numbered))
            &&& command is StopSession ==> (can_dispatch(evse, command, plan) <==> evse.session
                is Some)
            &&& command is Reboot ==> (can_dispatch(evse, command, plan) <==> numbered)
        }),
{
}

} // verus!
