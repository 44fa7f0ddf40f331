//! The exchange of messages with the charging point.
use ocpp_rs::v16::call::Action;
use ocpp_rs::v16::call_result::CallResultRaw;
use std::collections::VecDeque;
use vstd::prelude::*;

use crate::calls::{CallTracker, OutgoingCall, TrackerView};
use crate::charging_point::law_status_names;
use crate::command::{
    CommandToChargingPoint, CommandView, address_call, clear_call, make_clear_call,
    set_address_call, set_schedule_call, sets_schedule,
};
use crate::evse::{
    Evse, EvseView, Refusal, clears_profile, fails_at, is_answered, is_profile_cleared, reply_view,
};
use crate::evse_laws::{asks_for, charges_on_monday, clears_all, has_time};
use crate::profile::{UtcPeriod, law_nothing_to_come_blocks, profile_request, request_between};
use crate::time::{
    Moment, NoSingleInstant, Timestamp, law_first_minute_of_monday, read_clock,
};
use crate::wire::{
    ActionContent, Answer, AnswerStatus, CallContent, Frame, FrameContent, Reply, ResetKind,
    ResultContent, content_of, frame_in, read_frame, reply_option_view, reply_text, result_in,
    status_notification, write_reply, written_reply,
};

verus! {

/// The exchange of messages with the charging point: the commands that it is to be given, and the
/// calls that it has not answered yet.
#[derive(Debug)]
pub struct OcppInterface {
    pending_commands: VecDeque<CommandToChargingPoint>,
    call_response_tracker: CallTracker,
    session_stop_accepted: Option<bool>,
}

/// The contents of an [`OcppInterface`].
pub struct InterfaceView {
    pub commands: Seq<CommandView>,
    pub tracker: TrackerView,
    /// Whether the charging point has agreed to stop a transaction, when it was last asked to.
    pub session_stop_accepted: Option<bool>,
}

impl View for OcppInterface {
    type V = InterfaceView;

    closed spec fn view(&self) -> InterfaceView {
        InterfaceView {
            commands: self.pending_commands@.map_values(
                |command: CommandToChargingPoint| command@,
            ),
            tracker: self.call_response_tracker@,
            session_stop_accepted: self.session_stop_accepted,
        }
    }
}

/// Whether the schedule in force is to be set anew before an action is taken in: the charging point
/// has removed it.
pub open spec fn removes_schedule(content: ActionContent, now: Moment) -> bool {
    content matches ActionContent::StatusNotification(status) && clears_profile(status, now)
}

/// Why a call cannot be taken in, where it cannot.
pub open spec fn call_refusal(evse: EvseView, content: ActionContent, now: Moment) -> Option<
    Refusal,
> {
    if removes_schedule(content, now) && evse.schedule is Some && evse.db.next_schedule_id
        == i32::MAX {
        Some(Refusal::NoScheduleNumber)
    } else {
        evse.action_refusal(content, now)
    }
}

/// The charging point once a call was taken in.
pub open spec fn after_call(evse: EvseView, content: ActionContent, now: Moment) -> EvseView {
    if removes_schedule(content, now) {
        evse.refreshed(now.utc).after_action(content, now)
    } else {
        evse.after_action(content, now)
    }
}

/// The charging point once a message was taken in.
pub open spec fn after_message(
    evse: EvseView,
    frame: Option<FrameContent>,
    now: Moment,
) -> EvseView {
    match frame {
        Some(FrameContent::Call { unique_id, content }) => if call_refusal(
            evse,
            content,
            now,
        ) is None {
            after_call(evse, content, now)
        } else {
            evse
        },
        _ => evse,
    }
}

/// What is replied to a message, where anything is, or why it is refused.
pub open spec fn message_reply(evse: EvseView, frame: Option<FrameContent>, now: Moment) -> Result<
    Option<Seq<char>>,
    Refusal,
> {
    match frame {
        Some(FrameContent::Call { unique_id, content }) => match call_refusal(evse, content, now) {
            Some(refusal) => Err(refusal),
            None => Ok(
                match evse.reply(content, now) {
                    Some(reply) => written_reply(unique_id, reply),
                    None => None,
                },
            ),
        },
        _ => Ok(None),
    }
}

impl InterfaceView {
    /// Once commands were added.
    pub open spec fn with_commands(self, commands: Seq<CommandView>) -> InterfaceView {
        InterfaceView { commands: self.commands + commands, ..self }
    }

    /// Once a message was taken in: an answer is noted, and a call changes nothing here.
    pub open spec fn after_message(self, frame: Option<FrameContent>) -> InterfaceView {
        match frame {
            Some(FrameContent::Result { result }) => InterfaceView {
                tracker: self.tracker.after_answer(result),
                session_stop_accepted: match self.tracker.answer(result) {
                    Answer::RemoteStopTransaction(status) => Some(status is Accepted),
                    _ => self.session_stop_accepted,
                },
                ..self
            },
            _ => self,
        }
    }
}

/// The call that blocks charging for good, from the given instant on.
pub open spec fn blocking_call(now: Timestamp) -> CallContent {
    CallContent::SetChargingProfile(profile_request(now, Seq::empty()))
}

fn make_blocking_call(now: Timestamp) -> (r: OutgoingCall)
    ensures
        r@ == blocking_call(now),
{
    OutgoingCall::SetChargingProfile(request_between(now, &Vec::new()))
}

/// Whether the calls make up a command, if there is any. Before the charging point reboots, charging
/// is blocked.
pub open spec fn are_calls_of(
    command: Option<CommandView>,
    now: Timestamp,
    calls: Seq<CallContent>,
) -> bool {
    match command {
        None => calls == Seq::<CallContent>::empty(),
        Some(CommandView::Reboot) => calls == seq![
            clear_call(),
            blocking_call(now),
            CallContent::Reset(ResetKind::Soft),
        ],
        Some(CommandView::SetServerAddress(address)) => calls == seq![
            address_call(address),
            blocking_call(now),
            CallContent::Reset(ResetKind::Soft),
        ],
        Some(CommandView::SetChargingSchedule(schedule)) => {
            &&& calls.len() == 2
            &&& calls[0] == clear_call()
            &&& sets_schedule(schedule, calls[1])
        },
        Some(CommandView::StopTransaction(transaction_id)) => calls == seq![
            CallContent::RemoteStopTransaction(transaction_id),
        ],
    }
}

/// The charging point once the calls of a command, if there is any, were made.
pub open spec fn after_command(
    evse: EvseView,
    command: Option<CommandView>,
    now: Timestamp,
) -> EvseView {
    match command {
        Some(CommandView::Reboot) => evse.blocked(now),
        Some(CommandView::SetServerAddress(_)) => evse.blocked(now),
        _ => evse,
    }
}

/// The first command, if there is any.
pub open spec fn first_command(commands: Seq<CommandView>) -> Option<CommandView> {
    if commands.len() == 0 {
        None
    } else {
        Some(commands[0])
    }
}

pub open spec fn other_commands(commands: Seq<CommandView>) -> Seq<CommandView> {
    if commands.len() == 0 {
        commands
    } else {
        commands.skip(1)
    }
}

/// How many schedules are added when the calls of a command, if there is any, are made.
pub open spec fn schedules_added(command: Option<CommandView>) -> int {
    match command {
        Some(CommandView::Reboot) => 1,
        Some(CommandView::SetServerAddress(_)) => 1,
        _ => 0,
    }
}

fn count_schedules(command: Option<&CommandToChargingPoint>) -> (r: u16)
    ensures
        r == schedules_added(
            match command {
                Some(command) => Some(command@),
                None => None,
            },
        ),
{
    match command {
        Some(CommandToChargingPoint::Reboot) => 1,
        Some(CommandToChargingPoint::SetServerAddress(_)) => 1,
        _ => 0,
    }
}

/// Why calls cannot be made.
#[derive(Debug, Clone, Copy, PartialEq, Eq, Structural)]
pub enum CallProblem {
    /// A period of a schedule starts or ends at no instant, or at more than one.
    NoSingleInstant(NoSingleInstant),
    /// No schedule can be numbered any more.
    NoScheduleNumber,
}

pub open spec fn command_option_view(command: Option<CommandToChargingPoint>) -> Option<
    CommandView,
> {
    match command {
        Some(command) => Some(command@),
        None => None,
    }
}

impl OcppInterface {
    pub open spec fn spec_new() -> InterfaceView {
        InterfaceView {
            commands: Seq::empty(),
            tracker: TrackerView { number: 0, pending: Map::empty() },
            session_stop_accepted: None,
        }
    }

    pub fn new() -> (r: Self)
        ensures
            r@ == OcppInterface::spec_new(),
            r@.tracker.well_formed(),
    {
        let r = OcppInterface {
            pending_commands: VecDeque::new(),
            call_response_tracker: CallTracker::new(),
            session_stop_accepted: None,
        };
        assert(r@.commands =~= Seq::empty());
        r
    }

    pub fn push_command(&mut self, command: CommandToChargingPoint)
        ensures
            final(self)@ == old(self)@.with_commands(seq![command@]),
    {
        let ghost before = self@.commands;
        self.pending_commands.push_back(command);
        assert(self@.commands =~= before + seq![command@]);
    }

    /// Whether the charging point has agreed to stop a transaction, when it was last asked to.
    pub fn session_stopped_status(&self) -> (r: Option<bool>)
        ensures
            r == self@.session_stop_accepted,
    {
        self.session_stop_accepted
    }

    /// Takes in a call and returns what is to be replied, if anything, unless the call is refused.
    fn handle_incoming_call(&self, evse: &mut Evse, action: &Action, now: Moment) -> (r: Result<
        Option<Reply>,
        Refusal,
    >)
        requires
            old(evse)@.well_formed(),
        ensures
            match call_refusal(old(evse)@, content_of(*action), now) {
                Some(refusal) => {
                    &&& r == Err::<Option<Reply>, Refusal>(refusal)
                    &&& final(evse)@ == old(evse)@
                },
                None => {
                    &&& r is Ok
                    &&& reply_option_view(r->Ok_0) == old(evse)@.reply(content_of(*action), now)
                    &&& final(evse)@ == after_call(old(evse)@, content_of(*action), now)
                },
            },
            final(evse)@.well_formed(),
    {
        let removed = match status_notification(action) {
            Some(status) => is_profile_cleared(&status, now),
            None => false,
        };
        if removed && evse.charging_schedule().is_some() && !evse.can_number_schedules(1) {
            return Err(Refusal::NoScheduleNumber);
        }
        if let Some(refusal) = evse.refuse_action(action, now) {
            return Err(refusal);
        }
        if removed {
            // The charging point I use clears the charging profile
            // on Monday 0:00 UTC (it seems to set a charging profile at some
            // later point, but that's still unclear when nor what profile).
            // If the EV is connected, charging starts regardless of any user
            // defined charging plan & SoC is only capted if specified.
            // As a workaround, push current charging schedule now
            evse.refresh_charging_schedule(now.utc);
        }
        Ok(evse.have_action(action, now))
    }

    fn handle_incoming_call_result(&mut self, result: CallResultRaw)
        requires
            old(self)@.tracker.well_formed(),
        ensures
            final(self)@ == old(self)@.after_message(
                Some(FrameContent::Result { result: result_in(result) }),
            ),
            final(self)@.tracker.well_formed(),
    {
        match self.call_response_tracker.take_answer(result) {
            Answer::RemoteStopTransaction(status) => {
                self.session_stop_accepted = Some(status.is_accepted());
            },
            _ => {},
        }
    }

    /// Takes in a message and returns the text of the reply, if there is any, unless the message is
    /// refused.
    pub fn handle_frame(&mut self, evse: &mut Evse, frame: Frame, now: Moment) -> (r: Result<
        Option<String>,
        Refusal,
    >)
        requires
            old(self)@.tracker.well_formed(),
            old(evse)@.well_formed(),
        ensures
            reply_view(r) == message_reply(old(evse)@, Some(frame@), now),
            final(self)@ == old(self)@.after_message(Some(frame@)),
            final(evse)@ == after_message(old(evse)@, Some(frame@), now),
            is_answered(Some(frame@)) && now.utc.representable() ==> r is Err || r matches Ok(
                Some(_),
            ),
            final(self)@.tracker.well_formed(),
            final(evse)@.well_formed(),
    {
        match frame {
            Frame::Call { unique_id, action } => match self.handle_incoming_call(
                evse,
                &action,
                now,
            ) {
                Ok(Some(reply)) => Ok(write_reply(unique_id, reply)),
                Ok(None) => Ok(None),
                Err(refusal) => Err(refusal),
            },
            Frame::Result { result } => {
                self.handle_incoming_call_result(result);
                Ok(None)
            },
            Frame::Error => Ok(None),
        }
    }

    /// Handles the incoming message, with the clock at `now`
    ///
    /// Returns `Some(reponse)` if applicable, unless the message is refused.
    pub fn handle_incoming_message_at(&mut self, evse: &mut Evse, msg: &str, now: Moment) -> (r:
        Result<Option<String>, Refusal>)
        requires
            old(self)@.tracker.well_formed(),
            old(evse)@.well_formed(),
        ensures
            reply_view(r) == message_reply(old(evse)@, frame_in(msg@), now),
            final(self)@ == old(self)@.after_message(frame_in(msg@)),
            final(evse)@ == after_message(old(evse)@, frame_in(msg@), now),
            is_answered(frame_in(msg@)) && now.utc.representable() ==> r is Err || r matches Ok(
                Some(_),
            ),
            final(self)@.tracker.well_formed(),
            final(evse)@.well_formed(),
    {
        match read_frame(msg) {
            Some(frame) => self.handle_frame(evse, frame, now),
            None => Ok(None),
        }
    }

    /// Handles the incoming message
    ///
    /// Returns `Some(reponse)` if applicable, unless the message is refused.
    pub fn handle_incoming_message(&mut self, evse: &mut Evse, msg: &str) -> (r: Result<
        Option<String>,
        Refusal,
    >)
        requires
            old(self)@.tracker.well_formed(),
            old(evse)@.well_formed(),
        ensures
            exists|now: Moment| #[trigger]
                now.valid() && reply_view(r) == message_reply(old(evse)@, frame_in(msg@), now)
                    && final(evse)@ == after_message(old(evse)@, frame_in(msg@), now),
            final(self)@ == old(self)@.after_message(frame_in(msg@)),
            is_answered(frame_in(msg@)) ==> r is Err || r matches Ok(Some(_)),
            final(self)@.tracker.well_formed(),
            final(evse)@.well_formed(),
    {
        let now = read_clock();
        self.handle_incoming_message_at(evse, msg, now)
    }

    /// Makes the calls of a command, if there is any.
    fn command_calls(
        evse: &mut Evse,
        command: Option<CommandToChargingPoint>,
        now: Timestamp,
    ) -> (r: Result<Vec<OutgoingCall>, NoSingleInstant>)
        requires
            old(evse)@.well_formed(),
            old(evse)@.db.next_schedule_id + schedules_added(command_option_view(command))
                <= i32::MAX,
        ensures
            r matches Ok(calls) ==> are_calls_of(
                command_option_view(command),
                now,
                calls@.map_values(|call: OutgoingCall| call@),
            ),
            r matches Err(e) ==> command is Some && fails_at(command->0@, e),
            final(evse)@ == after_command(old(evse)@, command_option_view(command), now),
            final(evse)@.well_formed(),
    {
        let mut calls: Vec<OutgoingCall> = Vec::new();
        match command {
            None => {
                assert(calls@.map_values(|call: OutgoingCall| call@) =~= Seq::empty());
            },
            Some(CommandToChargingPoint::Reboot) => {
                evse.permanent_0w_set(now);
                // After a reset, the EVSE starts the last chaging plan that
                // was set, regardless of the moment it was supposed to start.
                // Set a 0 W permanent limit to make sure we don't start
                // charging unexpectedly.
                calls.push(make_clear_call());
                calls.push(make_blocking_call(now));
                calls.push(OutgoingCall::Reset { kind: ResetKind::Soft });
                assert(calls@.map_values(|call: OutgoingCall| call@) =~= seq![
                    clear_call(),
                    blocking_call(now),
                    CallContent::Reset(ResetKind::Soft),
                ]);
            },
            Some(CommandToChargingPoint::SetServerAddress(address)) => {
                evse.permanent_0w_set(now);
                let ghost text = address@;
                calls.push(set_address_call(address));
                calls.push(make_blocking_call(now));
                calls.push(OutgoingCall::Reset { kind: ResetKind::Soft });
                assert(calls@.map_values(|call: OutgoingCall| call@) =~= seq![
                    address_call(text),
                    blocking_call(now),
                    CallContent::Reset(ResetKind::Soft),
                ]);
            },
            Some(CommandToChargingPoint::SetChargingSchedule(schedule)) => {
                match set_schedule_call(schedule) {
                    Ok(call) => {
                        calls.push(make_clear_call());
                        calls.push(call);
                    },
                    Err(e) => {
                        return Err(e);
                    },
                }
            },
            Some(CommandToChargingPoint::StopTransaction(transaction_id)) => {
                calls.push(OutgoingCall::RemoteStopTransaction { transaction_id });
                assert(calls@.map_values(|call: OutgoingCall| call@) =~= seq![
                    CallContent::RemoteStopTransaction(transaction_id),
                ]);
            },
        }
        Ok(calls)
    }

    /// Takes the next command that was pushed, and the next one of the charging point, and returns
    /// the texts of the calls that make them up, with the clock at `now`.
    pub fn pending_calls_at(&mut self, evse: &mut Evse, now: Moment) -> (r: Result<
        Vec<String>,
        CallProblem,
    >)
        requires
            old(self)@.tracker.well_formed(),
            old(evse)@.well_formed(),
        ensures
            r matches Ok(texts) ==> old(self)@.calls_lead_to(
                old(evse)@,
                now,
                final(self)@,
                final(evse)@,
                texts@.map_values(|text: String| text@),
            ),
            r == Err::<Vec<String>, CallProblem>(CallProblem::NoScheduleNumber) <==> !old(
                self,
            )@.calls_can_be_numbered(old(evse)@),
            r == Err::<Vec<String>, CallProblem>(CallProblem::NoScheduleNumber) ==> final(self)@
                == old(self)@ && final(evse)@ == old(evse)@,
            r matches Err(CallProblem::NoSingleInstant(e)) ==> old(self)@.calls_stop_at_time_zone(
                old(evse)@,
                now,
                final(self)@,
                final(evse)@,
                e,
            ),
            final(self)@.tracker.well_formed(),
            final(evse)@.well_formed(),
    {
        let next = if self.pending_commands.len() == 0 {
            None
        } else {
            Some(&self.pending_commands[0])
        };
        let count = count_schedules(next) + count_schedules(evse.next_command());
        if !evse.can_number_schedules(count) {
            return Err(CallProblem::NoScheduleNumber);
        }
        let ghost before = self@;
        let ghost evse_before = evse@;
        let pushed = self.pending_commands.pop_front();
        assert(self@.commands =~= other_commands(before.commands));
        let popped = evse.pop_command();
        let ghost evse_popped = evse@;
        assert(evse_popped == (EvseView {
            commands: other_commands(evse_before.commands),
            ..evse_before
        }));
        let ghost first = first_command(before.commands);
        let ghost second = first_command(evse_before.commands);
        assert(command_option_view(pushed) == first);
        assert(command_option_view(popped) == second);
        let mut calls = match OcppInterface::command_calls(evse, pushed, now.utc) {
            Ok(calls) => calls,
            Err(e) => {
                return Err(CallProblem::NoSingleInstant(e));
            },
        };
        let ghost first_calls = calls@.map_values(|call: OutgoingCall| call@);
        let mut more_calls = match OcppInterface::command_calls(evse, popped, now.utc) {
            Ok(calls) => calls,
            Err(e) => {
                return Err(CallProblem::NoSingleInstant(e));
            },
        };
        let ghost second_calls = more_calls@.map_values(|call: OutgoingCall| call@);
        calls.append(&mut more_calls);
        assert(calls@.map_values(|call: OutgoingCall| call@) =~= first_calls + second_calls);
        let texts = self.call_response_tracker.send_all(calls);
        proof {
            assert(are_calls_of(first, now.utc, first_calls));
            assert(are_calls_of(second, now.utc, second_calls));
        }
        Ok(texts)
    }

    /// Takes the next command that was pushed, and the next one of the charging point, and returns
    /// the texts of the calls that make them up.
    pub fn pending_calls(&mut self, evse: &mut Evse) -> (r: Result<Vec<String>, CallProblem>)
        requires
            old(self)@.tracker.well_formed(),
            old(evse)@.well_formed(),
        ensures
            r matches Ok(texts) ==> exists|now: Moment| #[trigger]
                now.valid() && old(self)@.calls_lead_to(
                    old(evse)@,
                    now,
                    final(self)@,
                    final(evse)@,
                    texts@.map_values(|text: String| text@),
                ),
            r == Err::<Vec<String>, CallProblem>(CallProblem::NoScheduleNumber) <==> !old(
                self,
            )@.calls_can_be_numbered(old(evse)@),
            r == Err::<Vec<String>, CallProblem>(CallProblem::NoScheduleNumber) ==> final(self)@
                == old(self)@ && final(evse)@ == old(evse)@,
            r matches Err(CallProblem::NoSingleInstant(e)) ==> exists|now: Moment| #[trigger]
                now.valid() && old(self)@.calls_stop_at_time_zone(
                    old(evse)@,
                    now,
                    final(self)@,
                    final(evse)@,
                    e,
                ),
            final(self)@.tracker.well_formed(),
            final(evse)@.well_formed(),
    {
        let now = read_clock();
        self.pending_calls_at(evse, now)
    }
}

impl InterfaceView {
    /// Whether making the calls of the next commands leads to `after` and `evse_after`, and to the
    /// given texts.
    pub open spec fn calls_lead_to(
        self,
        evse: EvseView,
        now: Moment,
        after: InterfaceView,
        evse_after: EvseView,
        texts: Seq<Seq<char>>,
    ) -> bool {
        let pushed = first_command(self.commands);
        let popped = first_command(evse.commands);
        exists|first: Seq<CallContent>, second: Seq<CallContent>|
            {
                &&& #[trigger] are_calls_of(pushed, now.utc, first)
                &&& #[trigger] are_calls_of(popped, now.utc, second)
                &&& after == (InterfaceView {
                    commands: other_commands(self.commands),
                    tracker: self.tracker.after_calls(first + second),
                    ..self
                })
                &&& texts == self.tracker.texts(first + second)
                &&& evse_after == after_command(
                    after_command(
                        EvseView { commands: other_commands(evse.commands), ..evse },
                        pushed,
                        now.utc,
                    ),
                    popped,
                    now.utc,
                )
            }
    }

    /// Whether the schedules that the calls of the next commands add can be numbered.
    pub open spec fn calls_can_be_numbered(self, evse: EvseView) -> bool {
        evse.db.next_schedule_id + schedules_added(first_command(self.commands)) + schedules_added(
            first_command(evse.commands),
        ) <= i32::MAX
    }

    /// Whether making the calls of the next commands leads to `after` and `evse_after`, and to the
    /// given error, which names a time of one of the commands. Both commands are gone and no call
    /// is made, but what the command that was pushed does to the charging point is done.
    pub open spec fn calls_stop_at_time_zone(
        self,
        evse: EvseView,
        now: Moment,
        after: InterfaceView,
        evse_after: EvseView,
        error: NoSingleInstant,
    ) -> bool {
        let pushed = first_command(self.commands);
        let popped = first_command(evse.commands);
        &&& (pushed is Some && fails_at(pushed->0, error)) || (popped is Some && fails_at(
            popped->0,
            error,
        ))
        &&& after == (InterfaceView { commands: other_commands(self.commands), ..self })
        &&& evse_after == after_command(
            EvseView { commands: other_commands(evse.commands), ..evse },
            pushed,
            now.utc,
        )
    }
}

/// Each command comes to the calls that make it up. A stop of a transaction asks for that transaction
/// to be stopped. A schedule is set once all charging profiles were cleared. Before a reboot all
/// charging profiles are cleared, and before the reboot with another address that address is set, as
/// the value of the key that the charging point has for it. Either way charging is then blocked from
/// now on, and the charging point is reset softly.
pub proof fn law_calls_of_commands(
    command: Option<CommandView>,
    now: Timestamp,
    calls: Seq<CallContent>,
)
    requires
        are_calls_of(command, now, calls),
    ensures
        command is None ==> calls.len() == 0,
        command matches Some(CommandView::StopTransaction(transaction_id)) ==> calls == seq![
            CallContent::RemoteStopTransaction(transaction_id),
        ],
        command matches Some(CommandView::SetChargingSchedule(schedule)) ==> {
            &&& calls.len() == 2
            &&& clears_all(calls[0])
            &&& asks_for(calls[1], schedule)
        },
        command is Some && command->0 is Reboot ==> {
            &&& calls.len() == 3
            &&& clears_all(calls[0])
            &&& blocks_from(calls[1], now)
            &&& calls[2] == CallContent::Reset(ResetKind::Soft)
        },
        command matches Some(CommandView::SetServerAddress(address)) ==> {
            &&& calls.len() == 3
            &&& calls[0] == CallContent::ChangeConfiguration("CS_URL"@, address)
            &&& blocks_from(calls[1], now)
            &&& calls[2] == CallContent::Reset(ResetKind::Soft)
        },
{
    law_nothing_to_come_blocks(now, Seq::<UtcPeriod>::empty());
}

/// Whether a call lets the whole charging point keep to 0 W, from an instant on and for good.
pub open spec fn blocks_from(call: CallContent, now: Timestamp) -> bool {
    call matches CallContent::SetChargingProfile(request) && {
        &&& request.connector_id == 0
        &&& request.purpose is ChargePointMax
        &&& request.kind is Absolute
        &&& request.unit is Watts
        &&& request.start_schedule == now
        &&& request.duration is None
        &&& request.valid_from is None
        &&& request.valid_to is None
        &&& request.charging_schedule_period.len() == 1
        &&& request.charging_schedule_period[0].start_period == 0
        &&& request.charging_schedule_period[0].limit == 0
    }
}

/// Making calls takes the next command of each side, if there is any, and leaves the others. The
/// calls of the one that was pushed come before those of the one of the charging point. Where one of
/// them reboots the charging point, charging is blocked from now on. What the charging point has
/// agreed to stays known.
pub proof fn law_calls_take_one_command_each(
    interface: InterfaceView,
    evse: EvseView,
    now: Moment,
    after: InterfaceView,
    evse_after: EvseView,
    texts: Seq<Seq<char>>,
)
    requires
        interface.calls_lead_to(evse, now, after, evse_after, texts),
    ensures
        after.commands == if interface.commands.len() > 0 {
            interface.commands.skip(1)
        } else {
            Seq::empty()
        },
        evse_after.commands == if evse.commands.len() > 0 {
            evse.commands.skip(1)
        } else {
            Seq::empty()
        },
        after.session_stop_accepted == interface.session_stop_accepted,
        first_command(interface.commands) == if interface.commands.len() > 0 {
            Some(interface.commands[0])
        } else {
            None
        },
        first_command(evse.commands) == if evse.commands.len() > 0 {
            Some(evse.commands[0])
        } else {
            None
        },
        ({
            let pushed_reboots = interface.commands.len() > 0 && (interface.commands[0] is Reboot
                || interface.commands[0] is SetServerAddress);
            let popped_reboots = evse.commands.len() > 0 && (evse.commands[0] is Reboot
                || evse.commands[0] is SetServerAddress);
            let left = EvseView { commands: evse_after.commands, ..evse };
            &&& !pushed_reboots && !popped_reboots ==> evse_after == left
            &&& pushed_reboots && !popped_reboots ==> evse_after == left.blocked(now.utc)
            &&& !pushed_reboots && popped_reboots ==> evse_after == left.blocked(now.utc)
            &&& pushed_reboots && popped_reboots ==> evse_after == left.blocked(now.utc).blocked(
                now.utc,
            )
        }),
        exists|first: Seq<CallContent>, second: Seq<CallContent>|
            {
                &&& #[trigger] are_calls_of(first_command(interface.commands), now.utc, first)
                &&& #[trigger] are_calls_of(first_command(evse.commands), now.utc, second)
                &&& after.tracker == interface.tracker.after_calls(first + second)
                &&& texts == interface.tracker.texts(first + second)
            },
{
    assert(interface.commands.len() == 0 ==> interface.commands =~= Seq::empty());
    assert(evse.commands.len() == 0 ==> evse.commands =~= Seq::empty());
    let pushed = first_command(interface.commands);
    let popped = first_command(evse.commands);
    let (first, second) = choose|first: Seq<CallContent>, second: Seq<CallContent>|
        {
            &&& #[trigger] are_calls_of(pushed, now.utc, first)
            &&& #[trigger] are_calls_of(popped, now.utc, second)
            &&& after == (InterfaceView {
                commands: other_commands(interface.commands),
                tracker: interface.tracker.after_calls(first + second),
                ..interface
            })
            &&& texts == interface.tracker.texts(first + second)
            &&& evse_after == after_command(
                after_command(
                    EvseView { commands: other_commands(evse.commands), ..evse },
                    pushed,
                    now.utc,
                ),
                popped,
                now.utc,
            )
        };
    assert(are_calls_of(pushed, now.utc, first) && are_calls_of(popped, now.utc, second));
}

/// Each of the next commands that reboots the charging point adds a schedule, for which there must be
/// a number.
pub proof fn law_reboots_need_numbers(interface: InterfaceView, evse: EvseView)
    ensures
        ({
            let pushed_reboots = interface.commands.len() > 0 && (interface.commands[0] is Reboot
                || interface.commands[0] is SetServerAddress);
            let popped_reboots = evse.commands.len() > 0 && (evse.commands[0] is Reboot
                || evse.commands[0] is SetServerAddress);
            interface.calls_can_be_numbered(evse) <==> {
                &&& pushed_reboots || popped_reboots ==> evse.db.next_schedule_id < 2_147_483_647
                &&& pushed_reboots && popped_reboots ==> evse.db.next_schedule_id < 2_147_483_646
            }
        }),
{
}

/// An answer to the request to stop a transaction says whether the charging point has agreed, and no
/// other answer does. An answer is not pending any more, and nothing else changes. Nothing changes
/// with a call, an error, and what cannot be read.
pub proof fn law_answer_tells_whether_stop_is_accepted(
    interface: InterfaceView,
    result: ResultContent,
    frame: Option<FrameContent>,
)
    ensures
        ({
            let after = interface.after_message(Some(FrameContent::Result { result }));
            let answer = interface.tracker.answer(result);
            &&& after.commands == interface.commands
            &&& after.tracker == interface.tracker.after_answer(result)
            &&& answer == Answer::RemoteStopTransaction(AnswerStatus::Accepted)
                ==> after.session_stop_accepted == Some(true)
            &&& answer is RemoteStopTransaction && answer != Answer::RemoteStopTransaction(
                AnswerStatus::Accepted,
            ) ==> after.session_stop_accepted == Some(false)
            &&& answer !is RemoteStopTransaction ==> after.session_stop_accepted
                == interface.session_stop_accepted
        }),
        !(frame is Some && frame->0 is Result) ==> interface.after_message(frame) == interface,
{
}

/// Where a charging point reports that it charges in the first minute of a Monday, the schedule is
/// set anew before the report is taken in, and the call is refused where that takes a number that is
/// missing. Any other call that is not refused is taken in as it is, and only that is replied to,
/// under its id. Nothing comes of an answer, an error, and what cannot be read.
pub proof fn law_call_of_charging_point_is_taken_in(
    evse: EvseView,
    unique_id: Seq<char>,
    content: ActionContent,
    result: ResultContent,
    now: Moment,
)
    requires
        now.utc.representable(),
    ensures
        ({
            let due = content matches ActionContent::StatusNotification(status)
                && charges_on_monday(status, now);
            let frame = Some(FrameContent::Call { unique_id, content });
            let refused = if due && evse.schedule is Some && evse.db.next_schedule_id
                == 2_147_483_647 {
                Some(Refusal::NoScheduleNumber)
            } else {
                evse.action_refusal(content, now)
            };
            &&& refused is None && due ==> after_message(evse, frame, now) == evse.refreshed(
                now.utc,
            ).after_action(content, now)
            &&& refused is None && !due ==> after_message(evse, frame, now) == evse.after_action(
                content,
                now,
            )
            &&& refused is None && evse.reply(content, now) is Some ==> message_reply(
                evse,
                frame,
                now,
            ) == Ok::<Option<Seq<char>>, Refusal>(
                Some(reply_text(unique_id, evse.reply(content, now)->0)),
            )
            &&& refused is None && evse.reply(content, now) is None ==> message_reply(
                evse,
                frame,
                now,
            ) == Ok::<Option<Seq<char>>, Refusal>(None)
            &&& refused is Some ==> after_message(evse, frame, now) == evse && message_reply(
                evse,
                frame,
                now,
            ) == Err::<Option<Seq<char>>, Refusal>(refused->0)
        }),
        after_message(evse, Some(FrameContent::Result { result }), now) == evse,
        after_message(evse, Some(FrameContent::Error), now) == evse,
        after_message(evse, None, now) == evse,
{
    if let ActionContent::StatusNotification(status) = content {
        law_status_names(status.status);
        law_first_minute_of_monday(crate::evse::status_time(status, now));
    }
}

/// At first there is no command, no call was made, and nothing is known of a stop. Commands are
/// carried out in the order in which they were pushed.
pub proof fn law_commands_are_pushed_last(interface: InterfaceView, command: CommandView)
    ensures
        OcppInterface::spec_new().commands.len() == 0,
        OcppInterface::spec_new().tracker.number == 0,
        OcppInterface::spec_new().session_stop_accepted is None,
        forall|id: Seq<char>|
            !#[trigger] OcppInterface::spec_new().tracker.pending.dom().contains(id),
        interface.with_commands(seq![command]) == (InterfaceView {
            commands: interface.commands.push(command),
            ..interface
        }),
{
    assert(interface.commands + seq![command] =~= interface.commands.push(command));
}

/// Where the time zone stops the calls of the next commands, both commands are gone, no call is made
/// and none is numbered. The error names the start or the end of a period of a schedule that one of
/// them sets. Where the one that was pushed reboots the charging point, charging is blocked from now
/// on.
pub proof fn law_time_zone_stops_calls(
    interface: InterfaceView,
    evse: EvseView,
    now: Moment,
    after: InterfaceView,
    evse_after: EvseView,
    error: NoSingleInstant,
)
    requires
        interface.calls_stop_at_time_zone(evse, now, after, evse_after, error),
    ensures
        after.tracker == interface.tracker,
        after.session_stop_accepted == interface.session_stop_accepted,
        interface.commands.len() > 0 ==> after.commands == interface.commands.skip(1),
        evse.commands.len() > 0 ==> evse_after.commands == evse.commands.skip(1),
        ({
            let pushed_reboots = interface.commands.len() > 0 && (interface.commands[0] is Reboot
                || interface.commands[0] is SetServerAddress);
            let left = EvseView { commands: evse_after.commands, ..evse };
            &&& pushed_reboots ==> evse_after == left.blocked(now.utc)
            &&& !pushed_reboots ==> evse_after == left
        }),
        (interface.commands.len() > 0 && has_time(interface.commands[0], error.0)) || (
        evse.commands.len() > 0 && has_time(evse.commands[0], error.0)),
{
}

} // verus!
