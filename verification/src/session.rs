//! Whole runs: the actions that the machine asks for, one after the other,
//! when each request is answered as the outside would answer it.

use vstd::prelude::*;
use crate::error::ClientErrorView;
use crate::iface::{select_ipv4, NetworkInterfaceView};
use crate::reconcile::{
    next, on_records, read_request_of, write_request_of, ActionView, ConfigView, EventView,
    Outcome, ReconcileInputView, StateView,
};
use crate::json::json_of;
use crate::record::{named, with_content, DnsRecordView};
use crate::search::{
    first_where, is_first_where, lemma_first_where_absent, lemma_first_where_found,
    lemma_first_where_sound,
};
use crate::text::record_url;

verus! {

/// How the outside answers during one run: the interfaces that the host
/// reports, what the read returns, and whether the write fails.
pub ghost struct Outside {
    pub interfaces: Seq<NetworkInterfaceView>,
    pub read: Result<Seq<DnsRecordView>, Seq<char>>,
    pub write: Result<(), Seq<char>>,
}

/// The event that answers `action`; nothing answers the end of a run.
pub open spec fn answer(action: ActionView, outside: Outside) -> Option<EventView> {
    match action {
        ActionView::Read(_) => Some(
            match outside.read {
                Ok(records) => EventView::Records(records),
                Err(m) => EventView::Failed(m),
            },
        ),
        ActionView::Write(_) => Some(
            match outside.write {
                Ok(_) => EventView::Written,
                Err(m) => EventView::Failed(m),
            },
        ),
        ActionView::Finish(_) => None,
        ActionView::Abort(_) => None,
    }
}

/// How many steps a state is from the end of the run, at most.
pub open spec fn steps_left(state: StateView) -> nat {
    match state {
        StateView::Start => 3,
        StateView::Reading(_) => 2,
        StateView::Writing => 1,
        StateView::Finished => 0,
    }
}

/// The actions of a run from `state` on, when `event` arrives there.
pub open spec fn actions_from(
    config: ConfigView,
    state: StateView,
    event: EventView,
    outside: Outside,
) -> Seq<ActionView>
    decreases steps_left(state),
{
    let t = next(config, state, event);
    match answer(t.action, outside) {
        Some(e) => seq![t.action] + actions_from(config, t.state, e, outside),
        None => seq![t.action],
    }
}

/// The actions of a whole run.
pub open spec fn run(config: ConfigView, outside: Outside) -> Seq<ActionView> {
    actions_from(config, StateView::Start, EventView::Interfaces(outside.interfaces), outside)
}

/// The number of writes among `actions`.
pub open spec fn writes(actions: Seq<ActionView>) -> nat
    decreases actions.len(),
{
    if actions.len() == 0 {
        0
    } else {
        writes(actions.drop_last()) + if actions.last() is Write {
            1nat
        } else {
            0nat
        }
    }
}

/// The number of requests to the provider among `actions`, reads and writes.
pub open spec fn requests(actions: Seq<ActionView>) -> nat
    decreases actions.len(),
{
    if actions.len() == 0 {
        0
    } else {
        requests(actions.drop_last()) + if actions.last() is Write || actions.last() is Read {
            1nat
        } else {
            0nat
        }
    }
}

/// The input that the reconciler gets when the device resolves to `ip`.
pub open spec fn input_of(config: ConfigView, ip: Seq<char>) -> ReconcileInputView {
    ReconcileInputView {
        zone: config.zone,
        token: config.token,
        target_name: config.target_name,
        target_ip: ip,
    }
}

/// A request is asked for only where the state moves towards the end of the
/// run: every run ends, after three actions at most.
pub proof fn law_request_moves_on(config: ConfigView, state: StateView, event: EventView)
    ensures
        !(next(config, state, event).action is Finish || next(config, state, event).action
            is Abort) ==> steps_left(next(config, state, event).state) < steps_left(state),
        next(config, state, event).action is Finish || next(config, state, event).action is Abort
            ==> next(config, state, event).state is Finished,
{
}

proof fn lemma_count_one(a: ActionView)
    ensures
        writes(seq![a]) == if a is Write { 1nat } else { 0nat },
        requests(seq![a]) == if a is Write || a is Read { 1nat } else { 0nat },
{
    assert(seq![a].drop_last() =~= Seq::<ActionView>::empty());
    assert(writes(Seq::<ActionView>::empty()) == 0);
    assert(requests(Seq::<ActionView>::empty()) == 0);
}

proof fn lemma_count_two(a: ActionView, b: ActionView)
    ensures
        writes(seq![a, b]) == writes(seq![a]) + writes(seq![b]),
        requests(seq![a, b]) == requests(seq![a]) + requests(seq![b]),
{
    assert(seq![a, b].drop_last() =~= seq![a]);
    lemma_count_one(a);
    lemma_count_one(b);
}

proof fn lemma_count_three(a: ActionView, b: ActionView, c: ActionView)
    ensures
        writes(seq![a, b, c]) == writes(seq![a]) + writes(seq![b]) + writes(seq![c]),
        requests(seq![a, b, c]) == requests(seq![a]) + requests(seq![b]) + requests(seq![c]),
{
    assert(seq![a, b, c].drop_last() =~= seq![a, b]);
    lemma_count_two(a, b);
    lemma_count_one(c);
}

/// Where the configured device is absent, or its first interface of that
/// name has no IPv4 address, the run consists of the abort with
/// `MissingDevice` alone: no request is made.
pub proof fn law_missing_device_makes_no_request(config: ConfigView, outside: Outside)
    requires
        select_ipv4(outside.interfaces, config.device) is None,
    ensures
        run(config, outside) == seq![ActionView::Abort(ClientErrorView::MissingDevice)],
        requests(run(config, outside)) == 0,
{
    let a = ActionView::Abort(ClientErrorView::MissingDevice);
    assert(run(config, outside) =~= seq![a]);
    lemma_count_one(a);
}

/// Where the read fails, the run aborts with the failure's description and
/// nothing is written.
pub proof fn law_failed_read_makes_no_write(
    config: ConfigView,
    outside: Outside,
    ip: Seq<char>,
    m: Seq<char>,
)
    requires
        select_ipv4(outside.interfaces, config.device) matches Some(a) && a.text == ip,
        outside.read == Err::<Seq<DnsRecordView>, Seq<char>>(m),
    ensures
        run(config, outside) == seq![
            ActionView::Read(read_request_of(input_of(config, ip))),
            ActionView::Abort(ClientErrorView::Other(m)),
        ],
        writes(run(config, outside)) == 0,
{
    let a = ActionView::Read(read_request_of(input_of(config, ip)));
    let b = ActionView::Abort(ClientErrorView::Other(m));
    lemma_run_after_read(config, outside, ip);
    assert(run(config, outside) =~= seq![a, b]);
    lemma_count_two(a, b);
    lemma_count_one(a);
    lemma_count_one(b);
}

/// A run whose device resolves to `ip` begins with the read, and goes on as
/// the reconciler does on the read's answer.
proof fn lemma_run_after_read(config: ConfigView, outside: Outside, ip: Seq<char>)
    requires
        select_ipv4(outside.interfaces, config.device) matches Some(a) && a.text == ip,
    ensures
        run(config, outside) == seq![ActionView::Read(read_request_of(input_of(config, ip)))]
            + actions_from(
            config,
            StateView::Reading(input_of(config, ip)),
            answer(ActionView::Read(read_request_of(input_of(config, ip))), outside).unwrap(),
            outside,
        ),
{
}

/// Where the provider returns no record of the target name, nothing is
/// written, whatever the host and the provider answer otherwise: a run that
/// reaches the read aborts with `RecordNotFound` right after it.
pub proof fn law_missing_record_makes_no_write(
    config: ConfigView,
    outside: Outside,
    records: Seq<DnsRecordView>,
)
    requires
        outside.read == Ok::<Seq<DnsRecordView>, Seq<char>>(records),
        forall|i: int| 0 <= i < records.len() ==> (#[trigger] records[i]).name != config.target_name,
    ensures
        writes(run(config, outside)) == 0,
        run(config, outside) == match select_ipv4(outside.interfaces, config.device) {
            Some(a) => seq![
                ActionView::Read(read_request_of(input_of(config, a.text))),
                ActionView::Abort(ClientErrorView::RecordNotFound),
            ],
            None => seq![ActionView::Abort(ClientErrorView::MissingDevice)],
        },
{
    match select_ipv4(outside.interfaces, config.device) {
        Some(ip) => {
            let a = ActionView::Read(read_request_of(input_of(config, ip.text)));
            let b = ActionView::Abort(ClientErrorView::RecordNotFound);
            lemma_first_where_absent(records, named(config.target_name));
            lemma_run_after_read(config, outside, ip.text);
            assert(run(config, outside) =~= seq![a, b]);
            lemma_count_two(a, b);
            lemma_count_one(a);
            lemma_count_one(b);
        },
        None => {
            law_missing_device_makes_no_request(config, outside);
            lemma_count_one(ActionView::Abort(ClientErrorView::MissingDevice));
        },
    }
}

/// Where the content of the first record of the target name is the local
/// address, the run ends in success after the read: nothing is written.
pub proof fn law_equal_content_makes_no_write(
    config: ConfigView,
    outside: Outside,
    ip: Seq<char>,
    records: Seq<DnsRecordView>,
    i: int,
)
    requires
        select_ipv4(outside.interfaces, config.device) matches Some(a) && a.text == ip,
        outside.read == Ok::<Seq<DnsRecordView>, Seq<char>>(records),
        is_first_where(records, named(config.target_name), i),
        records[i].content == ip,
    ensures
        run(config, outside) == seq![
            ActionView::Read(read_request_of(input_of(config, ip))),
            ActionView::Finish(Outcome::Unchanged),
        ],
        writes(run(config, outside)) == 0,
{
    let a = ActionView::Read(read_request_of(input_of(config, ip)));
    let b = ActionView::Finish(Outcome::Unchanged);
    lemma_first_where_found(records, named(config.target_name), i);
    lemma_run_after_read(config, outside, ip);
    assert(run(config, outside) =~= seq![a, b]);
    lemma_count_two(a, b);
    lemma_count_one(a);
    lemma_count_one(b);
}

/// Where the content of the first record of the target name differs from
/// the local address, the run makes exactly one write, after the read: it is
/// addressed to that record's identifier and carries the record as it was
/// read, with the content replaced by the local address. The run then ends
/// in success, or with the description of the write's failure.
pub proof fn law_changed_content_makes_one_write(
    config: ConfigView,
    outside: Outside,
    ip: Seq<char>,
    records: Seq<DnsRecordView>,
    i: int,
)
    requires
        select_ipv4(outside.interfaces, config.device) matches Some(a) && a.text == ip,
        outside.read == Ok::<Seq<DnsRecordView>, Seq<char>>(records),
        is_first_where(records, named(config.target_name), i),
        records[i].content != ip,
    ensures
        run(config, outside) == seq![
            ActionView::Read(read_request_of(input_of(config, ip))),
            ActionView::Write(write_request_of(input_of(config, ip), records[i])),
            match outside.write {
                Ok(_) => ActionView::Finish(Outcome::Updated),
                Err(m) => ActionView::Abort(ClientErrorView::Other(m)),
            },
        ],
        writes(run(config, outside)) == 1,
        write_request_of(input_of(config, ip), records[i]).url == record_url(
            config.zone,
            records[i].id,
        ),
        write_request_of(input_of(config, ip), records[i]).record == with_content(records[i], ip),
        write_request_of(input_of(config, ip), records[i]).body == json_of(
            with_content(records[i], ip),
        ),
{
    let a = ActionView::Read(read_request_of(input_of(config, ip)));
    let b = ActionView::Write(write_request_of(input_of(config, ip), records[i]));
    let c = match outside.write {
        Ok(_) => ActionView::Finish(Outcome::Updated),
        Err(m) => ActionView::Abort(ClientErrorView::Other(m)),
    };
    lemma_first_where_found(records, named(config.target_name), i);
    lemma_run_after_read(config, outside, ip);
    let reading = StateView::Reading(input_of(config, ip));
    let t = next(config, reading, EventView::Records(records));
    assert(t.action == b);
    assert(actions_from(config, reading, EventView::Records(records), outside) =~= seq![b]
        + actions_from(config, StateView::Writing, answer(b, outside).unwrap(), outside));
    assert(actions_from(config, StateView::Writing, answer(b, outside).unwrap(), outside) =~= seq![
        c,
    ]);
    assert(run(config, outside) =~= seq![a, b, c]);
    lemma_count_three(a, b, c);
    lemma_count_one(a);
    lemma_count_one(b);
    lemma_count_one(c);
}

/// Whatever the host and the provider answer, a run has three actions at
/// most, begins its requests with the read, and writes once at most.
pub proof fn law_run_is_bounded(config: ConfigView, outside: Outside)
    ensures
        1 <= run(config, outside).len() <= 3,
        writes(run(config, outside)) <= 1,
        requests(run(config, outside)) <= 2,
        requests(run(config, outside)) == run(config, outside).len() - 1,
{
    match select_ipv4(outside.interfaces, config.device) {
        Some(a) => {
            let ip = a.text;
            let read = ActionView::Read(read_request_of(input_of(config, ip)));
            lemma_count_one(read);
            match outside.read {
                Ok(records) => {
                    lemma_first_where_sound(records, named(config.target_name));
                    match first_where(records, named(config.target_name)) {
                        Some(i) => {
                            if records[i].content == ip {
                                law_equal_content_makes_no_write(config, outside, ip, records, i);
                                let end = ActionView::Finish(Outcome::Unchanged);
                                lemma_count_two(read, end);
                                lemma_count_one(end);
                            } else {
                                law_changed_content_makes_one_write(
                                    config,
                                    outside,
                                    ip,
                                    records,
                                    i,
                                );
                                let write = ActionView::Write(
                                    write_request_of(input_of(config, ip), records[i]),
                                );
                                let end = run(config, outside)[2];
                                assert(run(config, outside) =~= seq![read, write, end]);
                                lemma_count_three(read, write, end);
                                lemma_count_one(write);
                                lemma_count_one(end);
                            }
                        },
                        None => {
                            law_missing_record_makes_no_write(config, outside, records);
                            let end = ActionView::Abort(ClientErrorView::RecordNotFound);
                            lemma_count_two(read, end);
                            lemma_count_one(end);
                        },
                    }
                },
                Err(m) => {
                    law_failed_read_makes_no_write(config, outside, ip, m);
                    let end = ActionView::Abort(ClientErrorView::Other(m));
                    lemma_count_two(read, end);
                    lemma_count_one(end);
                },
            }
        },
        None => {
            law_missing_device_makes_no_request(config, outside);
            lemma_count_one(ActionView::Abort(ClientErrorView::MissingDevice));
        },
    }
}

/// Reconciling a record with its own content writes nothing: whatever the
/// records are, when the local address is the content of the first record
/// of the target name, the reconciler ends the run with `Unchanged`. So it
/// does on the records as they stand after a write that it asked for.
pub proof fn law_reconcile_is_idempotent(
    input: ReconcileInputView,
    records: Seq<DnsRecordView>,
    i: int,
)
    requires
        is_first_where(records, named(input.target_name), i),
    ensures
        on_records(ReconcileInputView { target_ip: records[i].content, ..input }, records).action
            == ActionView::Finish(Outcome::Unchanged),
        on_records(input, records.update(i, with_content(records[i], input.target_ip))).action
            == ActionView::Finish(Outcome::Unchanged),
{
    lemma_first_where_found(records, named(input.target_name), i);
    let after = records.update(i, with_content(records[i], input.target_ip));
    assert(is_first_where(after, named(input.target_name), i)) by {
        assert forall|j: int| 0 <= j < i implies !named(input.target_name)(
            #[trigger] after[j],
        ) by {
            assert(after[j] == records[j]);
        }
    }
    lemma_first_where_found(after, named(input.target_name), i);
}

} // verus!
