//! The messages that the charging point and the server exchange, as `ocpp_rs` reads and writes
//! them.
//!
//! A message of the charging point is a call, or the answer to a call of the server. The values of
//! `ocpp_rs` stay what they are; what the library reads out of them, or puts into them, are plain
//! values. Of an enumeration of `ocpp_rs` that is the name which `ocpp_rs` gives to its variant.
use chrono::DateTime;
use ocpp_rs::datetime::DateTimeWrapper;
use ocpp_rs::v16::call::{self, Action, Call};
use ocpp_rs::v16::call_result::{self, CallResultRaw};
use ocpp_rs::v16::data_types;
use ocpp_rs::v16::enums::{
    AuthorizationStatus, ChargingProfileKindType, ChargingProfilePurposeType,
    ChargingProfileStatus, ChargingRateUnitType, ClearChargingProfileStatus, DataTransferStatus,
    RecurrencyKind, RegistrationStatus, RemoteStartStopStatus, ResetType,
};
use ocpp_rs::v16::parse::{self, Message};
use ocpp_rs::v16::pending::PendingCalls;
use ocpp_rs::v16::response_trait::Response;
use ocpp_rs::v16::typed_call_result::TypedCallResult;
use vstd::prelude::*;

use crate::measurements::{MeterSample, MeterValue, MeterValueView, option_text};
use crate::profile::{
    ProfileFilter, ProfileKind, ProfilePurpose, ProfileRequest, ProfileRequestView, RateUnit,
    Recurrence,
};
use crate::time::Timestamp;

verus! {

/// The action of a call.
#[verifier::external_type_specification]
#[verifier::external_body]
pub struct ExAction(Action);

/// The answer to a call, of which the action is yet to be found.
#[verifier::external_type_specification]
#[verifier::external_body]
pub struct ExCallResultRaw(CallResultRaw);

/// The calls that were sent and not answered yet.
#[verifier::external_type_specification]
#[verifier::external_body]
pub struct ExPendingCalls(PendingCalls);

/// What the charging point says of the status of a connector.
#[derive(Debug, PartialEq, Eq)]
pub struct StatusNotification {
    pub connector_id: u32,
    pub error_code: String,
    pub status: String,
    pub timestamp: Option<Timestamp>,
}

/// The contents of a [`StatusNotification`].
pub struct StatusView {
    pub connector_id: u32,
    pub error_code: Seq<char>,
    pub status: Seq<char>,
    pub timestamp: Option<Timestamp>,
}

impl View for StatusNotification {
    type V = StatusView;

    open spec fn view(&self) -> StatusView {
        StatusView {
            connector_id: self.connector_id,
            error_code: self.error_code@,
            status: self.status@,
            timestamp: self.timestamp,
        }
    }
}

/// What the charging point says of the start of a transaction.
#[derive(Debug, Clone, Copy, PartialEq, Eq, Structural)]
pub struct StartTransaction {
    pub meter_start: u64,
    pub timestamp: Timestamp,
}

/// What the charging point says of the end of a transaction.
#[derive(Debug, PartialEq, Eq)]
pub struct StopTransaction {
    pub meter_stop: u64,
    pub timestamp: Timestamp,
    pub transaction_id: i32,
    pub reason: Option<String>,
}

/// The contents of a [`StopTransaction`].
pub struct StopView {
    pub meter_stop: u64,
    pub timestamp: Timestamp,
    pub transaction_id: i32,
    pub reason: Option<Seq<char>>,
}

impl View for StopTransaction {
    type V = StopView;

    open spec fn view(&self) -> StopView {
        StopView {
            meter_stop: self.meter_stop,
            timestamp: self.timestamp,
            transaction_id: self.transaction_id,
            reason: option_text(self.reason),
        }
    }
}

/// What the charging point says of its measures.
#[derive(Debug, PartialEq, Eq)]
pub struct MeterValues {
    pub meter_value: Vec<MeterValue>,
    pub transaction_id: Option<i32>,
}

/// The contents of [`MeterValues`].
pub struct MeterValuesView {
    pub meter_value: Seq<MeterValueView>,
    pub transaction_id: Option<i32>,
}

impl View for MeterValues {
    type V = MeterValuesView;

    open spec fn view(&self) -> MeterValuesView {
        MeterValuesView {
            meter_value: self.meter_value@.map_values(|value: MeterValue| value@),
            transaction_id: self.transaction_id,
        }
    }
}

/// What the library reads out of the action of a call of the charging point.
pub enum ActionContent {
    StatusNotification(StatusView),
    StartTransaction(StartTransaction),
    StopTransaction(StopView),
    MeterValues(MeterValuesView),
    DataTransfer(Option<Seq<char>>),
    Heartbeat,
    BootNotification,
    SecurityEventNotification,
    Authorize,
    Other,
}

/// Which of the calls that the library acts on an action is.
#[derive(Debug, Clone, Copy, PartialEq, Eq, Structural)]
pub enum ActionKind {
    StatusNotification,
    StartTransaction,
    StopTransaction,
    MeterValues,
    DataTransfer,
    Heartbeat,
    BootNotification,
    SecurityEventNotification,
    Authorize,
    Other,
}

impl ActionContent {
    pub open spec fn kind(self) -> ActionKind {
        match self {
            ActionContent::StatusNotification(_) => ActionKind::StatusNotification,
            ActionContent::StartTransaction(_) => ActionKind::StartTransaction,
            ActionContent::StopTransaction(_) => ActionKind::StopTransaction,
            ActionContent::MeterValues(_) => ActionKind::MeterValues,
            ActionContent::DataTransfer(_) => ActionKind::DataTransfer,
            ActionContent::Heartbeat => ActionKind::Heartbeat,
            ActionContent::BootNotification => ActionKind::BootNotification,
            ActionContent::SecurityEventNotification => ActionKind::SecurityEventNotification,
            ActionContent::Authorize => ActionKind::Authorize,
            _ => ActionKind::Other,
        }
    }
}

/// What the library reads out of an `ocpp_rs` action.
pub uninterp spec fn content_of(action: Action) -> ActionContent;

/// Tells the variants of `ocpp_rs`'s `Action` apart.
#[verifier::external_body]
pub(crate) fn action_kind(action: &Action) -> (kind: ActionKind)
    ensures
        kind == content_of(*action).kind(),
{
    match action {
        Action::StatusNotification(_) => ActionKind::StatusNotification,
        Action::StartTransaction(_) => ActionKind::StartTransaction,
        Action::StopTransaction(_) => ActionKind::StopTransaction,
        Action::MeterValues(_) => ActionKind::MeterValues,
        Action::DataTransfer(_) => ActionKind::DataTransfer,
        Action::Heartbeat(_) => ActionKind::Heartbeat,
        Action::BootNotification(_) => ActionKind::BootNotification,
        Action::SecurityEventNotification(_) => ActionKind::SecurityEventNotification,
        Action::Authorize(_) => ActionKind::Authorize,
        _ => ActionKind::Other,
    }
}

/// Takes the fields out of `Action::StatusNotification`, with the names of its error code and of
/// its status. Any other action gives none.
#[verifier::external_body]
pub(crate) fn status_notification(action: &Action) -> (r: Option<StatusNotification>)
    ensures
        match r {
            Some(status) => content_of(*action) == ActionContent::StatusNotification(status@),
            None => content_of(*action) !is StatusNotification,
        },
{
    let Action::StatusNotification(status) = action else {
        return None;
    };
    let timestamp = status.timestamp.map(|t| t.inner());
    Some(StatusNotification {
        connector_id: status.connector_id,
        error_code: status.error_code.as_ref().to_string(),
        status: status.status.as_ref().to_string(),
        timestamp: timestamp.map(|t| Timestamp {
            secs: t.timestamp(),
            subsec: t.timestamp_subsec_nanos(),
        }),
    })
}

/// Takes the fields out of `Action::StartTransaction`. Any other action gives none.
#[verifier::external_body]
pub(crate) fn start_transaction(action: &Action) -> (r: Option<StartTransaction>)
    ensures
        match r {
            Some(start) => content_of(*action) == ActionContent::StartTransaction(start),
            None => content_of(*action) !is StartTransaction,
        },
{
    let Action::StartTransaction(start) = action else {
        return None;
    };
    let t = start.timestamp.inner();
    Some(StartTransaction {
        meter_start: start.meter_start,
        timestamp: Timestamp { secs: t.timestamp(), subsec: t.timestamp_subsec_nanos() },
    })
}

/// Takes the fields out of `Action::StopTransaction`, with the name of its reason. Any other action
/// gives none.
#[verifier::external_body]
pub(crate) fn stop_transaction(action: &Action) -> (r: Option<StopTransaction>)
    ensures
        match r {
            Some(stop) => content_of(*action) == ActionContent::StopTransaction(stop@),
            None => content_of(*action) !is StopTransaction,
        },
{
    let Action::StopTransaction(stop) = action else {
        return None;
    };
    let t = stop.timestamp.inner();
    Some(StopTransaction {
        meter_stop: stop.meter_stop,
        timestamp: Timestamp { secs: t.timestamp(), subsec: t.timestamp_subsec_nanos() },
        transaction_id: stop.transaction_id,
        reason: stop.reason.map(|reason| reason.as_ref().to_string()),
    })
}

/// Takes the fields out of `Action::MeterValues`, with the names of the measurands and of the
/// phases. Any other action gives none.
#[verifier::external_body]
pub(crate) fn meter_values(action: &Action) -> (r: Option<MeterValues>)
    ensures
        match r {
            Some(values) => content_of(*action) == ActionContent::MeterValues(values@),
            None => content_of(*action) !is MeterValues,
        },
{
    let Action::MeterValues(values) = action else {
        return None;
    };
    let sample = |s: &data_types::SampledValue| MeterSample {
        value: s.value.clone(),
        measurand: s.measurand.as_ref().map(|m| m.as_ref().to_string()),
        phase: s.phase.as_ref().map(|p| p.as_ref().to_string()),
    };
    let meter_value = values.meter_value.iter().map(|v| (v.timestamp.inner(), v)).map(|(t, v)| MeterValue {
        timestamp: Timestamp { secs: t.timestamp(), subsec: t.timestamp_subsec_nanos() },
        sampled_value: v.sampled_value.iter().map(sample).collect(),
    }).collect();
    Some(MeterValues { meter_value, transaction_id: values.transaction_id })
}

/// Takes the data out of `Action::DataTransfer`. Any other action gives none.
#[verifier::external_body]
pub(crate) fn data_transfer(action: &Action) -> (r: Option<Option<String>>)
    ensures
        match r {
            Some(data) => content_of(*action) == ActionContent::DataTransfer(option_text(data)),
            None => content_of(*action) !is DataTransfer,
        },
{
    let Action::DataTransfer(transfer) = action else {
        return None;
    };
    Some(transfer.data.clone())
}

/// The answer to a call: the number of the call, and the text of what was answered.
pub struct ResultContent {
    pub unique_id: Seq<char>,
    pub payload: Seq<char>,
}

/// What an answer holds.
pub uninterp spec fn result_in(result: CallResultRaw) -> ResultContent;

/// A message of the charging point.
pub enum Frame {
    Call { unique_id: String, action: Action },
    Result { result: CallResultRaw },
    Error,
}

/// The contents of a [`Frame`].
pub enum FrameContent {
    Call { unique_id: Seq<char>, content: ActionContent },
    Result { result: ResultContent },
    Error,
}

impl View for Frame {
    type V = FrameContent;

    open spec fn view(&self) -> FrameContent {
        match *self {
            Frame::Call { unique_id, action } => FrameContent::Call {
                unique_id: unique_id@,
                content: content_of(action),
            },
            Frame::Result { result } => FrameContent::Result { result: result_in(result) },
            Frame::Error => FrameContent::Error,
        }
    }
}

/// The message that a text holds, as `ocpp_rs` reads it.
pub uninterp spec fn frame_in(text: Seq<char>) -> Option<FrameContent>;

/// Reads a message with `ocpp_rs`'s `deserialize_to_message`.
#[verifier::external_body]
pub(crate) fn read_frame(text: &str) -> (r: Option<Frame>)
    ensures
        match r {
            Some(frame) => frame_in(text@) == Some(frame@),
            None => frame_in(text@) is None,
        },
{
    match parse::deserialize_to_message(text) {
        Ok(Message::Call(call)) => {
            Some(Frame::Call { unique_id: call.unique_id, action: call.payload })
        },
        Ok(Message::CallResult(result)) => Some(Frame::Result { result }),
        Ok(Message::CallError(_)) => Some(Frame::Error),
        Err(_) => None,
    }
}

/// Whether a user may charge.
#[derive(Debug, Clone, Copy, PartialEq, Eq, Structural)]
pub enum IdTagStatus {
    Accepted,
    Blocked,
    Expired,
    Invalid,
    ConcurrentTx,
}

/// Whether the charging point may go on after a boot.
#[derive(Debug, Clone, Copy, PartialEq, Eq, Structural)]
pub enum BootStatus {
    Accepted,
    Pending,
    Rejected,
}

/// What becomes of a transfer of data.
#[derive(Debug, Clone, Copy, PartialEq, Eq, Structural)]
pub enum TransferStatus {
    Accepted,
    Rejected,
    UnknownMessageId,
    UnknownVendorId,
}

/// What the server says of a user.
#[derive(Debug, PartialEq, Eq)]
pub struct TagInfo {
    pub status: IdTagStatus,
    /// The instant up to which the charging point may keep this, where there is one.
    pub expiry_date: Option<Timestamp>,
    /// The user that this one belongs to, where there is one.
    pub parent_id_tag: Option<String>,
}

/// The contents of a [`TagInfo`].
pub struct TagView {
    pub status: IdTagStatus,
    pub expiry_date: Option<Timestamp>,
    pub parent_id_tag: Option<Seq<char>>,
}

impl View for TagInfo {
    type V = TagView;

    open spec fn view(&self) -> TagView {
        TagView {
            status: self.status,
            expiry_date: self.expiry_date,
            parent_id_tag: option_text(self.parent_id_tag),
        }
    }
}

impl TagView {
    /// A user who may charge, without a time limit, and who belongs to no other.
    pub open spec fn accepted() -> TagView {
        TagView { status: IdTagStatus::Accepted, expiry_date: None, parent_id_tag: None }
    }

    /// Whether the time limit, if there is any, is a time of the calendar.
    pub open spec fn writable(self) -> bool {
        self.expiry_date matches Some(t) ==> t.representable()
    }
}

impl TagInfo {
    /// A user who may charge, without a time limit, and who belongs to no other.
    pub fn accepted() -> (r: Self)
        ensures
            r@ == TagView::accepted(),
    {
        TagInfo { status: IdTagStatus::Accepted, expiry_date: None, parent_id_tag: None }
    }
}

/// What the server replies to a call.
#[derive(Debug, PartialEq, Eq)]
pub enum Reply {
    Empty,
    Heartbeat { current_time: Timestamp },
    BootNotification { current_time: Timestamp, interval: i32, status: BootStatus },
    StartTransaction { transaction_id: i32, info: TagInfo },
    StopTransaction { info: Option<TagInfo> },
    DataTransfer { outcome: TransferStatus, data: Option<String> },
    Authorize { info: TagInfo },
}

/// The contents of a [`Reply`].
pub enum ReplyView {
    Empty,
    Heartbeat { current_time: Timestamp },
    BootNotification { current_time: Timestamp, interval: i32, status: BootStatus },
    StartTransaction { transaction_id: i32, info: TagView },
    StopTransaction { info: Option<TagView> },
    DataTransfer { outcome: TransferStatus, data: Option<Seq<char>> },
    Authorize { info: TagView },
}

pub open spec fn tag_option_view(info: Option<TagInfo>) -> Option<TagView> {
    match info {
        Some(info) => Some(info@),
        None => None,
    }
}

impl View for Reply {
    type V = ReplyView;

    open spec fn view(&self) -> ReplyView {
        match *self {
            Reply::Empty => ReplyView::Empty,
            Reply::Heartbeat { current_time } => ReplyView::Heartbeat { current_time },
            Reply::BootNotification { current_time, interval, status } => {
                ReplyView::BootNotification { current_time, interval, status }
            },
            Reply::StartTransaction { transaction_id, info } => ReplyView::StartTransaction {
                transaction_id,
                info: info@,
            },
            Reply::StopTransaction { info } => ReplyView::StopTransaction {
                info: tag_option_view(info),
            },
            Reply::DataTransfer { outcome, data } => ReplyView::DataTransfer {
                outcome,
                data: option_text(data),
            },
            Reply::Authorize { info } => ReplyView::Authorize { info: info@ },
        }
    }
}

pub open spec fn reply_option_view(reply: Option<Reply>) -> Option<ReplyView> {
    match reply {
        Some(reply) => Some(reply@),
        None => None,
    }
}

impl ReplyView {
    /// Whether the times of the reply are times of the calendar.
    pub open spec fn writable(self) -> bool {
        match self {
            ReplyView::Heartbeat { current_time } => current_time.representable(),
            ReplyView::BootNotification { current_time, .. } => current_time.representable(),
            ReplyView::StartTransaction { info, .. } => info.writable(),
            ReplyView::StopTransaction { info } => info matches Some(info) ==> info.writable(),
            ReplyView::Authorize { info } => info.writable(),
            _ => true,
        }
    }
}

/// The text with which a call is replied to, as `ocpp_rs` writes it.
pub uninterp spec fn reply_text(unique_id: Seq<char>, reply: ReplyView) -> Seq<char>;

/// The text with which a call is replied to, where it can be written.
pub open spec fn written_reply(unique_id: Seq<char>, reply: ReplyView) -> Option<Seq<char>> {
    if reply.writable() {
        Some(reply_text(unique_id, reply))
    } else {
        None
    }
}

/// What is said of a user, as `ocpp_rs` holds it.
#[verifier::external_type_specification]
#[verifier::external_body]
pub struct ExIdTagInfo(data_types::IdTagInfo);

/// The `ocpp_rs` value for what is said of a user.
pub uninterp spec fn tag_info_for(info: TagView) -> Option<data_types::IdTagInfo>;

/// Makes the `ocpp_rs` value for what is said of a user, unless the time limit is no time of the
/// calendar, as `chrono`'s `DateTime::from_timestamp` has it.
#[verifier::external_body]
pub(crate) fn id_tag_info(info: TagInfo) -> (r: Option<data_types::IdTagInfo>)
    ensures
        r == tag_info_for(info@),
        r is Some <==> info@.writable(),
{
    let status = match info.status {
        IdTagStatus::Accepted => AuthorizationStatus::Accepted,
        IdTagStatus::Blocked => AuthorizationStatus::Blocked,
        IdTagStatus::Expired => AuthorizationStatus::Expired,
        IdTagStatus::Invalid => AuthorizationStatus::Invalid,
        IdTagStatus::ConcurrentTx => AuthorizationStatus::ConcurrentTx,
    };
    let expiry_date = match info.expiry_date {
        Some(t) => Some(DateTimeWrapper::new(DateTime::from_timestamp(t.secs, t.subsec)?)),
        None => None,
    };
    Some(data_types::IdTagInfo { expiry_date, parent_id_tag: info.parent_id_tag, status })
}

/// Writes an empty reply with `ocpp_rs`'s `Response::get_response` and `serialize_message`. Neither
/// looks at the call that is replied to, and neither fails on an empty reply.
#[verifier::external_body]
pub(crate) fn empty_reply(unique_id: String) -> (r: Option<String>)
    ensures
        option_text(r) == written_reply(unique_id@, ReplyView::Empty),
{
    let reply = call_result::EmptyResponse {};
    let message = call::MeterValues::default().get_response(unique_id, reply).ok()?;
    parse::serialize_message(&message).ok()
}

/// Writes the reply to a heartbeat with `ocpp_rs`'s `Response::get_response` and
/// `serialize_message`. It fails only where the time is no time of the calendar, as `chrono`'s
/// `DateTime::from_timestamp` has it.
#[verifier::external_body]
pub(crate) fn heartbeat_reply(unique_id: String, current_time: Timestamp) -> (r: Option<String>)
    ensures
        option_text(r) == written_reply(unique_id@, ReplyView::Heartbeat { current_time }),
{
    let time = DateTime::from_timestamp(current_time.secs, current_time.subsec)?;
    let reply = call_result::Heartbeat { current_time: DateTimeWrapper::new(time) };
    let message = call::Heartbeat {}.get_response(unique_id, reply).ok()?;
    parse::serialize_message(&message).ok()
}

/// Writes the reply to a boot notification with `ocpp_rs`'s `Response::get_response` and
/// `serialize_message`. It fails only where the time is no time of the calendar, as `chrono`'s
/// `DateTime::from_timestamp` has it.
#[verifier::external_body]
pub(crate) fn boot_reply(
    unique_id: String,
    current_time: Timestamp,
    interval: i32,
    status: BootStatus,
) -> (r: Option<String>)
    ensures
        option_text(r) == written_reply(
            unique_id@,
            ReplyView::BootNotification { current_time, interval, status },
        ),
{
    let time = DateTime::from_timestamp(current_time.secs, current_time.subsec)?;
    let status = match status {
        BootStatus::Accepted => RegistrationStatus::Accepted,
        BootStatus::Pending => RegistrationStatus::Pending,
        BootStatus::Rejected => RegistrationStatus::Rejected,
    };
    let current_time = DateTimeWrapper::new(time);
    let reply = call_result::BootNotification { current_time, interval, status };
    let message = call::BootNotification::default().get_response(unique_id, reply).ok()?;
    parse::serialize_message(&message).ok()
}

/// Writes the reply to the start of a transaction, with the number that it gets and what is said of
/// the user, with `ocpp_rs`'s `Response::get_response` and `serialize_message`, which do not fail on
/// it.
#[verifier::external_body]
pub(crate) fn start_reply(
    unique_id: String,
    transaction_id: i32,
    id_tag_info: data_types::IdTagInfo,
) -> (r: Option<String>)
    ensures
        forall|info: TagView| #[trigger]
            tag_info_for(info) == Some(id_tag_info) ==> option_text(r) == Some(
                reply_text(unique_id@, ReplyView::StartTransaction { transaction_id, info }),
            ),
{
    let reply = call_result::StartTransaction { transaction_id, id_tag_info };
    let message = call::StartTransaction::default().get_response(unique_id, reply).ok()?;
    parse::serialize_message(&message).ok()
}

/// Writes the reply to the end of a transaction, with what is said of the user, if anything, with
/// `ocpp_rs`'s `Response::get_response` and `serialize_message`, which do not fail on it.
#[verifier::external_body]
pub(crate) fn stop_reply(unique_id: String, id_tag_info: Option<data_types::IdTagInfo>) -> (r:
    Option<String>)
    ensures
        id_tag_info is None ==> option_text(r) == Some(
            reply_text(unique_id@, ReplyView::StopTransaction { info: None }),
        ),
        forall|info: TagView| #[trigger]
            tag_info_for(info) == id_tag_info && id_tag_info is Some ==> option_text(r) == Some(
                reply_text(unique_id@, ReplyView::StopTransaction { info: Some(info) }),
            ),
{
    let reply = call_result::StopTransaction { id_tag_info };
    let message = call::StopTransaction::default().get_response(unique_id, reply).ok()?;
    parse::serialize_message(&message).ok()
}

/// Writes the reply to a transfer of data, with data of its own, if there is any, with `ocpp_rs`'s
/// `Response::get_response` and `serialize_message`, which do not fail on it.
#[verifier::external_body]
pub(crate) fn data_reply(unique_id: String, outcome: TransferStatus, data: Option<String>) -> (r:
    Option<String>)
    ensures
        option_text(r) == written_reply(
            unique_id@,
            ReplyView::DataTransfer { outcome, data: option_text(data) },
        ),
{
    let status = match outcome {
        TransferStatus::Accepted => DataTransferStatus::Accepted,
        TransferStatus::Rejected => DataTransferStatus::Rejected,
        TransferStatus::UnknownMessageId => DataTransferStatus::UnknownMessageId,
        TransferStatus::UnknownVendorId => DataTransferStatus::UnknownVendorId,
    };
    let reply = call_result::DataTransfer { status, data };
    let message = call::DataTransfer::default().get_response(unique_id, reply).ok()?;
    parse::serialize_message(&message).ok()
}

/// Writes the reply to a request for authorization, with what is said of the user, with `ocpp_rs`'s
/// `Response::get_response` and `serialize_message`, which do not fail on it.
#[verifier::external_body]
pub(crate) fn authorize_reply(unique_id: String, id_tag_info: data_types::IdTagInfo) -> (r: Option<
    String,
>)
    ensures
        forall|info: TagView| #[trigger]
            tag_info_for(info) == Some(id_tag_info) ==> option_text(r) == Some(
                reply_text(unique_id@, ReplyView::Authorize { info }),
            ),
{
    let reply = call_result::Authorize { id_tag_info };
    let message = call::Authorize::default().get_response(unique_id, reply).ok()?;
    parse::serialize_message(&message).ok()
}

/// Writes a reply to the call with the given number, where it can be written.
pub fn write_reply(unique_id: String, reply: Reply) -> (r: Option<String>)
    ensures
        option_text(r) == written_reply(unique_id@, reply@),
{
    match reply {
        Reply::Empty => empty_reply(unique_id),
        Reply::Heartbeat { current_time } => heartbeat_reply(unique_id, current_time),
        Reply::BootNotification { current_time, interval, status } => {
            boot_reply(unique_id, current_time, interval, status)
        },
        Reply::StartTransaction { transaction_id, info } => match id_tag_info(info) {
            Some(id_tag_info) => start_reply(unique_id, transaction_id, id_tag_info),
            None => None,
        },
        Reply::StopTransaction { info: Some(info) } => match id_tag_info(info) {
            Some(id_tag_info) => stop_reply(unique_id, Some(id_tag_info)),
            None => None,
        },
        Reply::StopTransaction { info: None } => stop_reply(unique_id, None),
        Reply::DataTransfer { outcome, data } => data_reply(unique_id, outcome, data),
        Reply::Authorize { info } => match id_tag_info(info) {
            Some(id_tag_info) => authorize_reply(unique_id, id_tag_info),
            None => None,
        },
    }
}

/// How the charging point is to reboot.
#[derive(Debug, Clone, Copy, PartialEq, Eq, Structural)]
pub enum ResetKind {
    /// At once.
    Hard,
    /// Once the transactions are stopped.
    Soft,
}

/// What the server asks of the charging point.
pub enum CallContent {
    /// Clear the charging profiles that pass a filter.
    ClearChargingProfile(ProfileFilter),
    SetChargingProfile(ProfileRequestView),
    /// Reboot.
    Reset(ResetKind),
    /// Set the value of a configuration key.
    ChangeConfiguration(Seq<char>, Seq<char>),
    RemoteStopTransaction(i32),
}

/// Which of the calls that the library makes a call is.
#[derive(Debug, Clone, Copy, PartialEq, Eq, Structural)]
pub enum CallKind {
    ClearChargingProfile,
    SetChargingProfile,
    Reset,
    ChangeConfiguration,
    RemoteStopTransaction,
    Other,
}

impl CallContent {
    pub open spec fn kind(self) -> CallKind {
        match self {
            CallContent::ClearChargingProfile(_) => CallKind::ClearChargingProfile,
            CallContent::SetChargingProfile(_) => CallKind::SetChargingProfile,
            CallContent::Reset(_) => CallKind::Reset,
            CallContent::ChangeConfiguration(_, _) => CallKind::ChangeConfiguration,
            CallContent::RemoteStopTransaction(_) => CallKind::RemoteStopTransaction,
        }
    }
}

/// The `ocpp_rs` action that is made of the given content.
pub uninterp spec fn action_for(content: CallContent) -> Option<Action>;

/// Makes the `ocpp_rs` action that clears the charging profiles which pass a filter.
#[verifier::external_body]
pub(crate) fn clear_profile_action(filter: ProfileFilter) -> (r: Action)
    ensures
        action_for(CallContent::ClearChargingProfile(filter)) == Some(r),
{
    let charging_profile_purpose = filter.purpose.map(|purpose| match purpose {
        ProfilePurpose::ChargePointMax => ChargingProfilePurposeType::ChargePointMaxProfile,
        ProfilePurpose::TransactionDefault => ChargingProfilePurposeType::TxDefaultProfile,
        ProfilePurpose::Transaction => ChargingProfilePurposeType::TxProfile,
    });
    Action::ClearChargingProfile(call::ClearChargingProfile {
        id: filter.id,
        connector_id: filter.connector_id,
        charging_profile_purpose,
        stack_level: filter.stack_level,
    })
}

/// A charging profile, as `ocpp_rs` holds it.
#[verifier::external_type_specification]
#[verifier::external_body]
pub struct ExChargingProfile(data_types::ChargingProfile);

/// The `ocpp_rs` charging profile that is made of what a request says of the profile: its number,
/// its transaction, its place, its purpose, its kind, its unit, its start and its duration.
pub uninterp spec fn profile_for(request: ProfileRequestView) -> Option<data_types::ChargingProfile>;

/// Makes the `ocpp_rs` charging profile of a request, of which the limits, the recurrence, the least
/// rate and the time of validity are still to be put in. It is made unless the start of the profile
/// is no time of the calendar, as `chrono`'s `DateTime::from_timestamp` has it.
#[verifier::external_body]
pub(crate) fn bare_profile(request: &ProfileRequest) -> (r: Option<data_types::ChargingProfile>)
    ensures
        r == profile_for(request@),
        r is Some <==> request.start_schedule.representable(),
{
    let start = DateTime::from_timestamp(request.start_schedule.secs, request.start_schedule.subsec)?;
    let unit = match request.unit {
        RateUnit::Watts => ChargingRateUnitType::W, RateUnit::Amperes => ChargingRateUnitType::A };
    let kind = match request.kind { ProfileKind::Absolute => ChargingProfileKindType::Absolute,
        ProfileKind::Recurring => ChargingProfileKindType::Recurring,
        ProfileKind::Relative => ChargingProfileKindType::Relative };
    let purpose = match request.purpose {
        ProfilePurpose::ChargePointMax => ChargingProfilePurposeType::ChargePointMaxProfile,
        ProfilePurpose::TransactionDefault => ChargingProfilePurposeType::TxDefaultProfile,
        ProfilePurpose::Transaction => ChargingProfilePurposeType::TxProfile };
    Some(data_types::ChargingProfile { charging_profile_id: request.charging_profile_id,
        transaction_id: request.transaction_id, stack_level: request.stack_level, charging_profile_purpose: purpose,
        charging_profile_kind: kind, recurrency_kind: None, valid_from: None, valid_to: None,
        charging_schedule: data_types::ChargingSchedule { duration: request.duration, start_schedule: Some(DateTimeWrapper::new(start)),
            charging_rate_unit: unit, charging_schedule_period: Vec::new(), min_charging_rate: None } })
}

/// The `ocpp_rs` charging profile of a request, with the time of its validity.
pub uninterp spec fn dated_profile_for(request: ProfileRequestView) -> Option<
    data_types::ChargingProfile,
>;

/// Puts the time of validity of a request into its `ocpp_rs` charging profile, unless that time
/// starts or ends at no time of the calendar, as `chrono`'s `DateTime::from_timestamp` has it.
#[verifier::external_body]
pub(crate) fn dated_profile(
    request: &ProfileRequest,
    profile: data_types::ChargingProfile,
) -> (r: Option<data_types::ChargingProfile>)
    requires
        profile_for(request@) == Some(profile),
    ensures
        r == dated_profile_for(request@),
        r is Some <==> request@.validity_is_writable(),
{
    let valid_from = match request.valid_from {
        Some(t) => Some(DateTimeWrapper::new(DateTime::from_timestamp(t.secs, t.subsec)?)),
        None => None,
    };
    let valid_to = match request.valid_to {
        Some(t) => Some(DateTimeWrapper::new(DateTime::from_timestamp(t.secs, t.subsec)?)),
        None => None,
    };
    Some(data_types::ChargingProfile { valid_from, valid_to, ..profile })
}

/// Makes the `ocpp_rs` action that sets a charging profile, out of the profile of the request and
/// the recurrence, the least rate and the limits of the request.
#[verifier::external_body]
pub(crate) fn set_profile_action(
    request: &ProfileRequest,
    profile: data_types::ChargingProfile,
) -> (r: Action)
    requires
        dated_profile_for(request@) == Some(profile),
    ensures
        action_for(CallContent::SetChargingProfile(request@)) == Some(r),
{
    let mut cs_charging_profiles = profile;
    let limits = request.charging_schedule_period.iter().map(|p| data_types::ChargingSchedulePeriod {
        start_period: p.start_period, limit: p.limit as _, number_phases: p.number_phases });
    cs_charging_profiles.charging_schedule.charging_schedule_period = limits.collect();
    cs_charging_profiles.charging_schedule.min_charging_rate = request.min_charging_rate.map(|rate| rate as _);
    cs_charging_profiles.recurrency_kind = request.recurrence.map(|recurrence| match recurrence {
        Recurrence::Daily => RecurrencyKind::Daily,
        Recurrence::Weekly => RecurrencyKind::Weekly,
    });
    let connector_id = request.connector_id;
    Action::SetChargingProfile(call::SetChargingProfile { connector_id, cs_charging_profiles })
}

/// Makes the `ocpp_rs` action that reboots the charging point.
#[verifier::external_body]
pub(crate) fn reset_action(kind: ResetKind) -> (r: Action)
    ensures
        action_for(CallContent::Reset(kind)) == Some(r),
{
    let reset_type = match kind {
        ResetKind::Hard => ResetType::Hard,
        ResetKind::Soft => ResetType::Soft,
    };
    Action::Reset(call::Reset { reset_type })
}

/// Makes the `ocpp_rs` action that sets a configuration value.
#[verifier::external_body]
pub(crate) fn change_configuration_action(key: String, value: String) -> (r: Action)
    ensures
        action_for(CallContent::ChangeConfiguration(key@, value@)) == Some(r),
{
    Action::ChangeConfiguration(call::ChangeConfiguration { key, value })
}

/// Makes the `ocpp_rs` action that stops a transaction.
#[verifier::external_body]
pub(crate) fn remote_stop_action(transaction_id: i32) -> (r: Action)
    ensures
        action_for(CallContent::RemoteStopTransaction(transaction_id)) == Some(r),
{
    Action::RemoteStopTransaction(call::RemoteStopTransaction { transaction_id })
}

/// The calls that were sent and not answered yet, under their numbers.
pub uninterp spec fn pending_in(calls: PendingCalls) -> Map<Seq<char>, CallKind>;

/// Makes an empty `PendingCalls`.
#[verifier::external_body]
pub(crate) fn no_pending_calls() -> (r: PendingCalls)
    ensures
        pending_in(r).dom() == Set::<Seq<char>>::empty(),
{
    PendingCalls::new()
}

/// The text of a call with the given number, as `ocpp_rs` writes it.
pub uninterp spec fn call_text(unique_id: Seq<char>, content: CallContent) -> Seq<char>;

/// Notes a call as pending and writes it, with `PendingCalls::send_call`, which does not fail on
/// the actions that the library makes.
#[verifier::external_body]
pub(crate) fn send_call(calls: &mut PendingCalls, unique_id: String, action: Action) -> (r: Option<
    String,
>)
    requires
        exists|content: CallContent| #[trigger] action_for(content) == Some(action),
    ensures
        forall|content: CallContent| #[trigger]
            action_for(content) == Some(action) ==> pending_in(*final(calls)) == pending_in(
                *old(calls),
            ).insert(unique_id@, content.kind()),
        forall|content: CallContent| #[trigger]
            action_for(content) == Some(action) ==> option_text(r) == Some(
                call_text(unique_id@, content),
            ),
{
    calls.send_call(Call::new(unique_id, action)).ok()
}

/// What the charging point makes of what it is asked.
#[derive(Debug, Clone, Copy, PartialEq, Eq, Structural)]
pub enum AnswerStatus {
    Accepted,
    Rejected,
    NotSupported,
    Unknown,
}

impl AnswerStatus {
    pub fn is_accepted(self) -> (r: bool)
        ensures
            r == (self is Accepted),
    {
        matches!(self, AnswerStatus::Accepted)
    }
}

/// What the charging point answered to a call.
#[derive(Debug, Clone, Copy, PartialEq, Eq, Structural)]
pub enum Answer {
    /// There is no such call, or the answer is no answer to it.
    Unmatched,
    ClearChargingProfile(AnswerStatus),
    SetChargingProfile(AnswerStatus),
    Reset,
    RemoteStopTransaction(AnswerStatus),
    Other,
}

impl Answer {
    /// Whether an answer can be one to the given call.
    pub open spec fn fits(self, asked: Option<CallKind>) -> bool {
        ||| self is Unmatched
        ||| match asked {
            None => false,
            Some(CallKind::ClearChargingProfile) => self is ClearChargingProfile,
            Some(CallKind::SetChargingProfile) => self is SetChargingProfile,
            Some(CallKind::Reset) => self is Reset,
            Some(CallKind::RemoteStopTransaction) => self is RemoteStopTransaction,
            Some(CallKind::ChangeConfiguration) => self is Other,
            Some(CallKind::Other) => self is Other,
        }
    }
}

pub open spec fn asked_in(pending: Map<Seq<char>, CallKind>, unique_id: Seq<char>) -> Option<
    CallKind,
> {
    if pending.dom().contains(unique_id) {
        Some(pending[unique_id])
    } else {
        None
    }
}

/// What an answer to a call says, as `ocpp_rs` reads it.
pub uninterp spec fn answer_in(asked: Option<CallKind>, payload: Seq<char>) -> Answer;

/// Finds the call that an answer belongs to, with `PendingCalls::resolve`, which then forgets the
/// call. The answer is read as one to that call. What it says follows from the call and the text of
/// the answer, where the call is one that the library makes or there is none.
#[verifier::external_body]
pub(crate) fn resolve(calls: &mut PendingCalls, result: CallResultRaw) -> (r: Answer)
    ensures
        pending_in(*final(calls)) == pending_in(*old(calls)).remove(result_in(result).unique_id),
        r.fits(asked_in(pending_in(*old(calls)), result_in(result).unique_id)),
        asked_in(pending_in(*old(calls)), result_in(result).unique_id) != Some(CallKind::Other) ==> r
            == answer_in(
            asked_in(pending_in(*old(calls)), result_in(result).unique_id),
            result_in(result).payload,
        ),
{
    match calls.resolve(result) {
        Ok(TypedCallResult::ClearChargingProfile(r)) => Answer::ClearChargingProfile(
            match r.payload.status { ClearChargingProfileStatus::Accepted => AnswerStatus::Accepted,
                ClearChargingProfileStatus::Unknown => AnswerStatus::Unknown }),
        Ok(TypedCallResult::SetChargingProfile(r)) => Answer::SetChargingProfile(
            match r.payload.status { ChargingProfileStatus::Accepted => AnswerStatus::Accepted,
                ChargingProfileStatus::Rejected => AnswerStatus::Rejected,
                ChargingProfileStatus::NotSupported => AnswerStatus::NotSupported }),
        Ok(TypedCallResult::RemoteStopTransaction(r)) => Answer::RemoteStopTransaction(
            match r.payload.status { RemoteStartStopStatus::Accepted => AnswerStatus::Accepted,
                RemoteStartStopStatus::Rejected => AnswerStatus::Rejected }),
        Ok(TypedCallResult::Reset(_)) => Answer::Reset,
        Ok(_) => Answer::Other,
        Err(_) => Answer::Unmatched,
    }
}

} // verus!
