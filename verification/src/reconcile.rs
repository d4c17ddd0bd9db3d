//! The run as a state machine: from a state and what the outside answered to
//! the next state and what to do next.
//!
//! A run starts in `State::Start` with the host's interfaces. The caller
//! performs each `Action::Read` and `Action::Write` and hands the answer back
//! as the next event; `Action::Finish` and `Action::Abort` end the run.

use vstd::prelude::*;
use crate::error::{ClientError, ClientErrorView};
use crate::iface::{
    get_ip_by_device_name, interfaces_view, select_ipv4, NetworkInterface, NetworkInterfaceView,
};
use crate::record::{
    find_record, named, records_view, with_content, DnsRecord, DnsRecordView,
};
use crate::json::json_of;
use crate::search::first_where;
use crate::text::{record_endpoint, record_url, records_endpoint, records_url};

verus! {

/// The four settings of a run.
#[derive(Clone, Debug, PartialEq, Eq)]
pub struct Config {
    /// The provider's identifier of the zone.
    pub zone: String,
    /// The bearer token sent with every request.
    pub token: String,
    /// The host name of the record to keep up to date.
    pub target_name: String,
    /// The name of the local interface whose address is published.
    pub device: String,
}

/// A `Config` as a mathematical value: its texts as sequences of characters.
pub ghost struct ConfigView {
    pub zone: Seq<char>,
    pub token: Seq<char>,
    pub target_name: Seq<char>,
    pub device: Seq<char>,
}

impl View for Config {
    type V = ConfigView;

    open spec fn view(&self) -> ConfigView {
        ConfigView {
            zone: self.zone@,
            token: self.token@,
            target_name: self.target_name@,
            device: self.device@,
        }
    }
}

/// What the reconciler works on: assembled once the local address is known.
#[derive(Clone, Debug, PartialEq, Eq)]
pub struct ReconcileInput {
    pub zone: String,
    pub token: String,
    pub target_name: String,
    pub target_ip: String,
}

/// A `ReconcileInput` as a mathematical value: its texts as sequences of characters.
pub ghost struct ReconcileInputView {
    pub zone: Seq<char>,
    pub token: Seq<char>,
    pub target_name: Seq<char>,
    pub target_ip: Seq<char>,
}

impl View for ReconcileInput {
    type V = ReconcileInputView;

    open spec fn view(&self) -> ReconcileInputView {
        ReconcileInputView {
            zone: self.zone@,
            token: self.token@,
            target_name: self.target_name@,
            target_ip: self.target_ip@,
        }
    }
}

/// A read of the zone's records, filtered by the provider to one host name.
#[derive(Clone, Debug, PartialEq, Eq)]
pub struct ReadRequest {
    /// The address to `GET`.
    pub url: String,
    /// The value of the query parameter `name`.
    pub name: String,
    /// The bearer token.
    pub token: String,
}

/// A `ReadRequest` as a mathematical value: its texts as sequences of characters.
pub ghost struct ReadRequestView {
    pub url: Seq<char>,
    pub name: Seq<char>,
    pub token: Seq<char>,
}

impl View for ReadRequest {
    type V = ReadRequestView;

    open spec fn view(&self) -> ReadRequestView {
        ReadRequestView { url: self.url@, name: self.name@, token: self.token@ }
    }
}

/// A partial update of one record.
#[derive(Clone, Debug, PartialEq, Eq)]
pub struct WriteRequest {
    /// The address to `PATCH`.
    pub url: String,
    /// The bearer token.
    pub token: String,
    /// The whole record, as it is to stand.
    pub record: DnsRecord,
    /// The request's body: the JSON text of `record`.
    pub body: String,
}

/// A `WriteRequest` as a mathematical value: its texts as sequences of characters.
pub ghost struct WriteRequestView {
    pub url: Seq<char>,
    pub token: Seq<char>,
    pub record: DnsRecordView,
    pub body: Seq<char>,
}

impl View for WriteRequest {
    type V = WriteRequestView;

    open spec fn view(&self) -> WriteRequestView {
        WriteRequestView {
            url: self.url@,
            token: self.token@,
            record: self.record@,
            body: self.body@,
        }
    }
}

/// How a run that succeeded ended.
#[derive(Clone, Copy, Debug, PartialEq, Eq)]
pub enum Outcome {
    /// The record already pointed to the local address: nothing was written.
    Unchanged,
    /// The record was updated.
    Updated,
}

/// What the caller is to do next.
#[derive(Clone, Debug, PartialEq, Eq)]
pub enum Action {
    Read(ReadRequest),
    Write(WriteRequest),
    Finish(Outcome),
    Abort(ClientError),
}

/// An `Action` as a mathematical value: its texts as sequences of characters.
pub ghost enum ActionView {
    Read(ReadRequestView),
    Write(WriteRequestView),
    Finish(Outcome),
    Abort(ClientErrorView),
}

impl View for Action {
    type V = ActionView;

    open spec fn view(&self) -> ActionView {
        match self {
            Action::Read(r) => ActionView::Read(r@),
            Action::Write(w) => ActionView::Write(w@),
            Action::Finish(o) => ActionView::Finish(*o),
            Action::Abort(e) => ActionView::Abort(e@),
        }
    }
}

/// Where a run stands.
#[derive(Clone, Debug, PartialEq, Eq)]
pub enum State {
    /// Nothing is known yet: the host's interfaces are awaited.
    Start,
    /// The local address is known and the read is under way.
    Reading(ReconcileInput),
    /// The write is under way.
    Writing,
    /// The run is over.
    Finished,
}

/// A `State` as a mathematical value: its texts as sequences of characters.
pub ghost enum StateView {
    Start,
    Reading(ReconcileInputView),
    Writing,
    Finished,
}

impl View for State {
    type V = StateView;

    open spec fn view(&self) -> StateView {
        match self {
            State::Start => StateView::Start,
            State::Reading(input) => StateView::Reading(input@),
            State::Writing => StateView::Writing,
            State::Finished => StateView::Finished,
        }
    }
}

/// What the outside answered.
#[derive(Clone, Debug, PartialEq, Eq)]
pub enum Event {
    /// The host's interfaces, in the order in which it reports them.
    Interfaces(Vec<NetworkInterface>),
    /// The records that the provider returned, in its order.
    Records(Vec<DnsRecord>),
    /// The provider accepted the write.
    Written,
    /// A request failed in transport or decoding, with the description.
    Failed(String),
}

/// An `Event` as a mathematical value: its texts as sequences of characters.
pub ghost enum EventView {
    Interfaces(Seq<NetworkInterfaceView>),
    Records(Seq<DnsRecordView>),
    Written,
    Failed(Seq<char>),
}

impl View for Event {
    type V = EventView;

    open spec fn view(&self) -> EventView {
        match self {
            Event::Interfaces(v) => EventView::Interfaces(interfaces_view(v@)),
            Event::Records(v) => EventView::Records(records_view(v@)),
            Event::Written => EventView::Written,
            Event::Failed(m) => EventView::Failed(m@),
        }
    }
}

/// One step of the machine.
#[derive(Clone, Debug, PartialEq, Eq)]
pub struct Transition {
    pub state: State,
    pub action: Action,
}

/// A `Transition` as a mathematical value: its texts as sequences of characters.
pub ghost struct TransitionView {
    pub state: StateView,
    pub action: ActionView,
}

impl View for Transition {
    type V = TransitionView;

    open spec fn view(&self) -> TransitionView {
        TransitionView { state: self.state@, action: self.action@ }
    }
}

/// The description given when an event arrives that the state does not
/// await.
pub open spec fn unexpected_event() -> Seq<char> {
    "unexpected event"@
}

/// The run ends with the error `e`.
pub open spec fn aborted(e: ClientErrorView) -> TransitionView {
    TransitionView { state: StateView::Finished, action: ActionView::Abort(e) }
}

/// The run ends in success.
pub open spec fn finished(o: Outcome) -> TransitionView {
    TransitionView { state: StateView::Finished, action: ActionView::Finish(o) }
}

/// The read that a run makes: the zone's records of the target name.
pub open spec fn read_request_of(input: ReconcileInputView) -> ReadRequestView {
    ReadRequestView {
        url: records_url(input.zone),
        name: input.target_name,
        token: input.token,
    }
}

/// The write that brings the record `r` to the local address: addressed by
/// zone and record identifier, with the JSON text of `r` as its body, only
/// the content replaced.
pub open spec fn write_request_of(input: ReconcileInputView, r: DnsRecordView) -> WriteRequestView {
    WriteRequestView {
        url: record_url(input.zone, r.id),
        token: input.token,
        record: with_content(r, input.target_ip),
        body: json_of(with_content(r, input.target_ip)),
    }
}

/// The step taken on the host's interfaces: with an IPv4 address on the
/// configured device the read begins, without one the run aborts.
pub open spec fn on_interfaces(
    config: ConfigView,
    interfaces: Seq<NetworkInterfaceView>,
) -> TransitionView {
    match select_ipv4(interfaces, config.device) {
        Some(ip) => {
            let input = ReconcileInputView {
                zone: config.zone,
                token: config.token,
                target_name: config.target_name,
                target_ip: ip.text,
            };
            TransitionView {
                state: StateView::Reading(input),
                action: ActionView::Read(read_request_of(input)),
            }
        },
        None => aborted(ClientErrorView::MissingDevice),
    }
}

/// The step taken on the provider's records: the first record of the target
/// name is the one reconciled. Without one the run aborts; where its content
/// is the local address, as text and character for character, the run ends
/// with nothing written; otherwise the write begins.
pub open spec fn on_records(
    input: ReconcileInputView,
    records: Seq<DnsRecordView>,
) -> TransitionView {
    match first_where(records, named(input.target_name)) {
        Some(i) => if records[i].content == input.target_ip {
            finished(Outcome::Unchanged)
        } else {
            TransitionView {
                state: StateView::Writing,
                action: ActionView::Write(write_request_of(input, records[i])),
            }
        },
        None => aborted(ClientErrorView::RecordNotFound),
    }
}

/// The machine. A failure aborts the run from any state that awaits an
/// answer; an event that the state does not await aborts it too; there is
/// no retry.
pub open spec fn next(config: ConfigView, state: StateView, event: EventView) -> TransitionView {
    match (state, event) {
        (StateView::Start, EventView::Interfaces(interfaces)) => on_interfaces(config, interfaces),
        (StateView::Reading(input), EventView::Records(records)) => on_records(input, records),
        (StateView::Writing, EventView::Written) => finished(Outcome::Updated),
        (StateView::Start, EventView::Failed(m)) => aborted(ClientErrorView::Other(m)),
        (StateView::Reading(_), EventView::Failed(m)) => aborted(ClientErrorView::Other(m)),
        (StateView::Writing, EventView::Failed(m)) => aborted(ClientErrorView::Other(m)),
        _ => aborted(ClientErrorView::Other(unexpected_event())),
    }
}

fn abort(e: ClientError) -> (t: Transition)
    ensures
        t@ == aborted(e@),
{
    Transition { state: State::Finished, action: Action::Abort(e) }
}

fn unexpected() -> (t: Transition)
    ensures
        t@ == aborted(ClientErrorView::Other(unexpected_event())),
{
    abort(ClientError::Other("unexpected event".to_owned()))
}

/// Resolves the local address among `interfaces` and begins the read.
pub fn resolve(config: &Config, interfaces: &Vec<NetworkInterface>) -> (t: Transition)
    ensures
        t@ == on_interfaces(config@, interfaces_view(interfaces@)),
{
    match get_ip_by_device_name(interfaces, &config.device) {
        Some(ip) => {
            let input = ReconcileInput {
                zone: config.zone.clone(),
                token: config.token.clone(),
                target_name: config.target_name.clone(),
                target_ip: ip.text,
            };
            let request = ReadRequest {
                url: records_endpoint(&input.zone),
                name: input.target_name.clone(),
                token: input.token.clone(),
            };
            Transition { state: State::Reading(input), action: Action::Read(request) }
        },
        None => abort(ClientError::MissingDevice),
    }
}

/// Compares the provider's records with the local address and decides
/// whether to write.
pub fn update_dns(input: &ReconcileInput, records: &Vec<DnsRecord>) -> (t: Transition)
    ensures
        t@ == on_records(input@, records_view(records@)),
{
    match find_record(records, &input.target_name) {
        Some(i) => {
            let record = &records[i];
            if record.content == input.target_ip {
                Transition { state: State::Finished, action: Action::Finish(Outcome::Unchanged) }
            } else {
                let updated = record.pointing_to(&input.target_ip);
                let body = updated.to_json();
                let request = WriteRequest {
                    url: record_endpoint(&input.zone, &record.id),
                    token: input.token.clone(),
                    record: updated,
                    body,
                };
                Transition { state: State::Writing, action: Action::Write(request) }
            }
        },
        None => abort(ClientError::RecordNotFound),
    }
}

/// Takes one step: from `state` and the answer `event` to the next state and
/// the next thing to do.
pub fn step(config: &Config, state: State, event: Event) -> (t: Transition)
    ensures
        t@ == next(config@, state@, event@),
{
    match state {
        State::Start => match event {
            Event::Interfaces(interfaces) => resolve(config, &interfaces),
            Event::Failed(m) => abort(ClientError::Other(m)),
            _ => unexpected(),
        },
        State::Reading(input) => match event {
            Event::Records(records) => update_dns(&input, &records),
            Event::Failed(m) => abort(ClientError::Other(m)),
            _ => unexpected(),
        },
        State::Writing => match event {
            Event::Written => Transition {
                state: State::Finished,
                action: Action::Finish(Outcome::Updated),
            },
            Event::Failed(m) => abort(ClientError::Other(m)),
            _ => unexpected(),
        },
        State::Finished => unexpected(),
    }
}

} // verus!
