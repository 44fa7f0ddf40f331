//! The calls that the server makes to the charging point.
use ocpp_rs::v16::call_result::CallResultRaw;
use ocpp_rs::v16::pending::PendingCalls;
use vstd::prelude::*;

use crate::measurements::option_text;
use crate::profile::{ProfileFilter, ProfileRequest};
use crate::text::{decimal, decimal_text};
use crate::wire::{
    Answer, CallContent, CallKind, ResetKind, ResultContent, action_for, answer_in, asked_in,
    bare_profile, call_text, change_configuration_action, clear_profile_action, dated_profile,
    no_pending_calls, pending_in, remote_stop_action, reset_action, resolve, result_in, send_call,
    set_profile_action,
};

verus! {

/// A call to be made.
#[derive(Debug, PartialEq)]
pub enum OutgoingCall {
    /// Clear the charging profiles that pass a filter.
    ClearChargingProfile(ProfileFilter),
    SetChargingProfile(ProfileRequest),
    /// Reboot.
    Reset { kind: ResetKind },
    ChangeConfiguration { key: String, value: String },
    RemoteStopTransaction { transaction_id: i32 },
}

impl View for OutgoingCall {
    type V = CallContent;

    open spec fn view(&self) -> CallContent {
        match *self {
            OutgoingCall::ClearChargingProfile(filter) => CallContent::ClearChargingProfile(
                filter,
            ),
            OutgoingCall::SetChargingProfile(request) => CallContent::SetChargingProfile(
                request@,
            ),
            OutgoingCall::Reset { kind } => CallContent::Reset(kind),
            OutgoingCall::ChangeConfiguration { key, value } => CallContent::ChangeConfiguration(
                key@,
                value@,
            ),
            OutgoingCall::RemoteStopTransaction { transaction_id } => {
                CallContent::RemoteStopTransaction(transaction_id)
            },
        }
    }
}

impl CallContent {
    /// Whether the call can be written: the times in it are times of the calendar.
    pub open spec fn writable(self) -> bool {
        self matches CallContent::SetChargingProfile(request)
            ==> request.start_schedule.representable() && request.validity_is_writable()
    }
}

/// The number of a call, as the charging point is told it.
pub open spec fn call_id(number: u64) -> Seq<char> {
    decimal(number as nat) + ".occp-server-test"@
}

fn call_id_text(number: u64) -> (r: String)
    ensures
        r@ == call_id(number),
{
    decimal_text(number).concat(".occp-server-test")
}

/// The number after the given one, starting over at 0.
pub open spec fn next_number(number: u64) -> u64 {
    if number == u64::MAX {
        0
    } else {
        (number + 1) as u64
    }
}

/// Numbers the calls and keeps those that are not answered yet.
#[derive(Debug)]
pub struct CallTracker {
    send_action_id: u64,
    pending: PendingCalls,
}

/// The contents of a [`CallTracker`].
pub struct TrackerView {
    /// The number of the last call.
    pub number: u64,
    /// The calls that are not answered yet.
    pub pending: Map<Seq<char>, CallKind>,
}

impl View for CallTracker {
    type V = TrackerView;

    closed spec fn view(&self) -> TrackerView {
        TrackerView { number: self.send_action_id, pending: pending_in(self.pending) }
    }
}

impl TrackerView {
    /// Whether the pending calls are calls that the server makes.
    pub open spec fn well_formed(self) -> bool {
        forall|id: Seq<char>| #[trigger]
            self.pending.dom().contains(id) ==> self.pending[id] !is Other
    }

    /// The text of a call that is made next, where it can be written.
    pub open spec fn text(self, content: CallContent) -> Option<Seq<char>> {
        if content.writable() {
            Some(call_text(call_id(next_number(self.number)), content))
        } else {
            None
        }
    }

    /// The tracker once a call was made.
    pub open spec fn after_call(self, content: CallContent) -> TrackerView {
        let number = next_number(self.number);
        TrackerView {
            number,
            pending: if content.writable() {
                self.pending.insert(call_id(number), content.kind())
            } else {
                self.pending
            },
        }
    }

    /// What an answer says.
    pub open spec fn answer(self, result: ResultContent) -> Answer {
        answer_in(asked_in(self.pending, result.unique_id), result.payload)
    }

    /// The tracker once an answer was taken in.
    pub open spec fn after_answer(self, result: ResultContent) -> TrackerView {
        TrackerView { pending: self.pending.remove(result.unique_id), ..self }
    }

    /// The tracker once all the calls were made.
    pub open spec fn after_calls(self, contents: Seq<CallContent>) -> TrackerView
        decreases contents.len(),
    {
        if contents.len() == 0 {
            self
        } else {
            self.after_calls(contents.drop_last()).after_call(contents.last())
        }
    }

    /// The texts of calls that are made one after the other, without those that cannot be written.
    pub open spec fn texts(self, contents: Seq<CallContent>) -> Seq<Seq<char>>
        decreases contents.len(),
    {
        if contents.len() == 0 {
            Seq::empty()
        } else {
            let before = self.texts(contents.drop_last());
            match self.after_calls(contents.drop_last()).text(contents.last()) {
                Some(text) => before.push(text),
                None => before,
            }
        }
    }
}

impl CallTracker {
    pub fn new() -> (r: Self)
        ensures
            r@ == (TrackerView { number: 0, pending: Map::empty() }),
            r@.well_formed(),
    {
        let tracker = CallTracker { send_action_id: 0, pending: no_pending_calls() };
        assert(tracker@.pending =~= Map::empty());
        tracker
    }

    /// Makes a call, under the next number, and returns its text unless it cannot be written.
    pub fn send(&mut self, call: OutgoingCall) -> (r: Option<String>)
        requires
            old(self)@.well_formed(),
        ensures
            final(self)@ == old(self)@.after_call(call@),
            option_text(r) == old(self)@.text(call@),
            final(self)@.well_formed(),
    {
        self.send_action_id = if self.send_action_id == u64::MAX {
            0
        } else {
            self.send_action_id + 1
        };
        let ghost content = call@;
        let action = match call {
            OutgoingCall::ClearChargingProfile(filter) => clear_profile_action(filter),
            OutgoingCall::SetChargingProfile(request) => {
                let profile = match bare_profile(&request) {
                    Some(profile) => dated_profile(&request, profile),
                    None => None,
                };
                match profile {
                    Some(profile) => set_profile_action(&request, profile),
                    None => {
                        assert(self@.pending == old(self)@.pending);
                        return None;
                    },
                }
            },
            OutgoingCall::Reset { kind } => reset_action(kind),
            OutgoingCall::ChangeConfiguration { key, value } => {
                change_configuration_action(key, value)
            },
            OutgoingCall::RemoteStopTransaction { transaction_id } => {
                remote_stop_action(transaction_id)
            },
        };
        assert(action_for(content) == Some(action));
        send_call(&mut self.pending, call_id_text(self.send_action_id), action)
    }

    /// Makes calls one after the other and returns the texts of those that can be written.
    pub fn send_all(&mut self, calls: Vec<OutgoingCall>) -> (r: Vec<String>)
        requires
            old(self)@.well_formed(),
        ensures
            final(self)@ == old(self)@.after_calls(
                calls@.map_values(|call: OutgoingCall| call@),
            ),
            r@.map_values(|text: String| text@) == old(self)@.texts(
                calls@.map_values(|call: OutgoingCall| call@),
            ),
            final(self)@.well_formed(),
    {
        let ghost contents = calls@.map_values(|call: OutgoingCall| call@);
        let ghost tracker = self@;
        let ghost read = |text: String| text@;
        let mut texts: Vec<String> = Vec::new();
        assert(contents.take(0) =~= Seq::empty());
        assert(texts@.map_values(read) =~= Seq::empty());
        for call in it: calls
            invariant
                read == (|text: String| text@),
                contents.len() == it.seq().len(),
                forall|i: int| 0 <= i < contents.len() ==> contents[i] == (#[trigger] it.seq()[i])@,
                self@.well_formed(),
                self@ == tracker.after_calls(contents.take(it.index() as int)),
                texts@.map_values(read) == tracker.texts(contents.take(it.index() as int)),
        {
            let ghost before = texts@.map_values(read);
            let ghost n = it.index() as int;
            assert(contents.take(n + 1).drop_last() =~= contents.take(n));
            assert(contents.take(n + 1).last() == call@);
            match self.send(call) {
                Some(text) => {
                    texts.push(text);
                    assert(texts@.map_values(read) =~= before.push(text@));
                },
                None => {},
            }
        }
        assert(contents.take(contents.len() as int) =~= contents);
        texts
    }

    /// Takes in the answer to a call.
    pub fn take_answer(&mut self, result: CallResultRaw) -> (r: Answer)
        requires
            old(self)@.well_formed(),
        ensures
            final(self)@ == old(self)@.after_answer(result_in(result)),
            r == old(self)@.answer(result_in(result)),
            r.fits(asked_in(old(self)@.pending, result_in(result).unique_id)),
            final(self)@.well_formed(),
    {
        resolve(&mut self.pending, result)
    }
}

/// An answer is taken in once: the next one to the same call says nothing.
pub proof fn law_call_is_answered_once(tracker: TrackerView, result: ResultContent, answer: Answer)
    requires
        answer.fits(asked_in(tracker.after_answer(result).pending, result.unique_id)),
    ensures
        answer is Unmatched,
{
}

/// A call that could be written is pending until it is answered, whatever other calls are answered
/// in the meantime.
pub proof fn law_call_is_pending(
    tracker: TrackerView,
    content: CallContent,
    other: ResultContent,
)
    requires
        content.writable(),
        other.unique_id != call_id(next_number(tracker.number)),
    ensures
        asked_in(
            tracker.after_call(content).pending,
            call_id(next_number(tracker.number)),
        ) == Some(content.kind()),
        asked_in(
            tracker.after_call(content).after_answer(other).pending,
            call_id(next_number(tracker.number)),
        ) == Some(content.kind()),
{
}

/// No two calls have the same number.
pub proof fn law_call_ids_differ(a: u64, b: u64)
    requires
        call_id(a) == call_id(b),
    ensures
        a == b,
{
    let suffix = ".occp-server-test"@;
    crate::text::law_decimal_is_read_back(a as nat);
    crate::text::law_decimal_is_read_back(b as nat);
    assert(call_id(a).len() == decimal(a as nat).len() + suffix.len());
    assert(call_id(b).len() == decimal(b as nat).len() + suffix.len());
    assert(call_id(a).take(decimal(a as nat).len() as int) =~= decimal(a as nat));
    assert(call_id(b).take(decimal(b as nat).len() as int) =~= decimal(b as nat));
}

/// Calls are numbered one after the other, starting over at 0 after 2^64 - 1. A call is written under
/// its number, and is pending under it, as the call that it is. One with a time that is none of the
/// calendar cannot be written, takes a number all the same, and is not pending.
pub proof fn law_call_is_numbered(tracker: TrackerView, content: CallContent)
    ensures
        ({
            let after = tracker.after_call(content);
            let id = decimal(after.number as nat) + ".occp-server-test"@;
            let dated = match content {
                CallContent::SetChargingProfile(request) => {
                    &&& request.start_schedule.representable()
                    &&& request.valid_from is Some ==> request.valid_from->0.representable()
                    &&& request.valid_to is Some ==> request.valid_to->0.representable()
                },
                _ => true,
            };
            &&& tracker.number == 18_446_744_073_709_551_615 ==> after.number == 0
            &&& tracker.number < 18_446_744_073_709_551_615 ==> after.number == tracker.number + 1
            &&& dated ==> {
                &&& tracker.text(content) == Some(call_text(id, content))
                &&& after.pending == tracker.pending.insert(id, content.kind())
            }
            &&& !dated ==> tracker.text(content) is None && after.pending == tracker.pending
        }),
{
}

/// A call is the one that its content says.
pub proof fn law_kinds_of_calls(content: CallContent)
    ensures
        content.kind() is ClearChargingProfile <==> content is ClearChargingProfile,
        content.kind() is SetChargingProfile <==> content is SetChargingProfile,
        content.kind() is Reset <==> content is Reset,
        content.kind() is ChangeConfiguration <==> content is ChangeConfiguration,
        content.kind() is RemoteStopTransaction <==> content is RemoteStopTransaction,
{
}

/// Calls that are made one after the other are made in their order, each under the number after that
/// of the one before, and each text comes after those before.
pub proof fn law_calls_are_made_in_order(
    tracker: TrackerView,
    contents: Seq<CallContent>,
    content: CallContent,
)
    ensures
        tracker.after_calls(Seq::empty()) == tracker,
        tracker.texts(Seq::empty()) == Seq::<Seq<char>>::empty(),
        tracker.after_calls(contents.push(content)) == tracker.after_calls(contents).after_call(
            content,
        ),
        tracker.texts(contents.push(content)) == match tracker.after_calls(contents).text(content) {
            Some(text) => tracker.texts(contents).push(text),
            None => tracker.texts(contents),
        },
{
    assert(contents.push(content).drop_last() =~= contents);
}

/// An answer is one to the call that is pending under its id, if there is any, which is not pending
/// any more. The other calls stay pending, and no number is given back.
pub proof fn law_answer_is_to_its_call(tracker: TrackerView, result: ResultContent, other: Seq<char>)
    ensures
        ({
            let after = tracker.after_answer(result);
            let asked = if tracker.pending.dom().contains(result.unique_id) {
                Some(tracker.pending[result.unique_id])
            } else {
                None
            };
            &&& tracker.answer(result) == answer_in(asked, result.payload)
            &&& after.number == tracker.number
            &&& !after.pending.dom().contains(result.unique_id)
            &&& other != result.unique_id ==> {
                &&& after.pending.dom().contains(other) <==> tracker.pending.dom().contains(other)
                &&& tracker.pending.dom().contains(other) ==> after.pending[other]
                    == tracker.pending[other]
            }
        }),
{
}

/// The text of the first call, where it can be written, is the first of the texts.
pub proof fn law_first_call_is_first(tracker: TrackerView, contents: Seq<CallContent>)
    requires
        contents.len() > 0,
        tracker.text(contents[0]) is Some,
    ensures
        tracker.texts(contents).len() > 0,
        tracker.texts(contents)[0] == tracker.text(contents[0])->0,
    decreases contents.len(),
{
    let before = contents.drop_last();
    if before.len() > 0 {
        assert(before[0] == contents[0]);
        law_first_call_is_first(tracker, before);
    } else {
        assert(before =~= Seq::empty());
        assert(tracker.after_calls(before) == tracker);
        assert(tracker.texts(before) == Seq::<Seq<char>>::empty());
        assert(contents.last() == contents[0]);
    }
}

} // verus!
