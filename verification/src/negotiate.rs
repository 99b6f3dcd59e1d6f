//! The trust negotiator: resolves the device, settles the host identity,
//! reuses the stored record or pairs anew, binds the record to the device,
//! starts a session with it and enables the debug transport.

use vstd::prelude::*;
use crate::buid::{fresh_host_id, is_host_id, toggle_buid, toggled};
use crate::directory::{first_answering, none_answering, resolve, DeviceHandle, Transport};
use crate::error::ErrorKind;
use crate::protocol::{Action, Outcome, Reply};
use crate::record::{bound_to, TrustRecord};

verus! {

/// The management subdomain that holds the debug-transport flag.
pub const WIRELESS_DOMAIN: &'static str = "com.apple.mobile.wireless_lockdown";

/// The key of the debug-transport flag.
pub const DEBUG_FLAG: &'static str = "EnableWifiDebugging";

/// How far the negotiation of a trust record has come: which reply it waits
/// for, and what it has learned so far.
#[derive(Debug, PartialEq, Eq)]
pub enum Negotiation {
    /// Waiting for the connection to the multiplexing daemon.
    AwaitDaemon { target: String },
    /// Waiting for the daemon's list of devices.
    AwaitDevices { target: String },
    /// Waiting for the session with the device's management service.
    AwaitLockdown { device: DeviceHandle },
    /// Waiting for the host build identifier.
    AwaitBuid { device: DeviceHandle },
    /// Waiting for the daemon's stored record; `host_id` and `buid` are the
    /// identity under which a new record would be made.
    AwaitStoredRecord { device: DeviceHandle, host_id: String, buid: String },
    /// Waiting for the pairing handshake.
    AwaitPairing { device: DeviceHandle },
    /// Waiting for the authenticated session to start.
    AwaitSession { device: DeviceHandle, record: TrustRecord },
    /// Waiting for the debug-transport flag to be set.
    AwaitFlag { device: DeviceHandle, record: TrustRecord },
    /// The negotiation has ended.
    Closed,
}

/// The negotiation ends with the failure `kind`.
pub open spec fn negotiation_aborts(post: Negotiation, act: Action, kind: ErrorKind) -> bool {
    post == Negotiation::Closed && act == (Action::Abort { kind })
}

/// The record `given` is taken for `device`: it is scoped to the device and
/// a session is started with it.
pub open spec fn record_taken(
    device: DeviceHandle,
    given: TrustRecord,
    post: Negotiation,
    act: Action,
) -> bool {
    &&& post matches Negotiation::AwaitSession { device: d, record }
    &&& d == device
    &&& record@ == bound_to(given@, device.udid@)
    &&& act == Action::StartSession
}

/// One step of the negotiation: from the state `pre` and the reply to the
/// action that was pending, to the state `post` and the next action `act`.
/// A reply that does not answer the pending action counts as its failure.
pub open spec fn negotiation_step(pre: Negotiation, reply: Reply, post: Negotiation, act: Action) -> bool {
    match pre {
        Negotiation::AwaitDaemon { target } => match reply {
            Reply::Completed => post == (Negotiation::AwaitDevices { target }) && act
                == Action::ListDevices,
            _ => negotiation_aborts(post, act, ErrorKind::ConnectionFailed),
        },
        Negotiation::AwaitDevices { target } => match reply {
            Reply::Devices(list) => {
                ||| exists|at: int|
                    {
                        &&& first_answering(list@, target@, at)
                        &&& post == (Negotiation::AwaitLockdown { device: list@[at] })
                        &&& act == (Action::ConnectLockdown { device: list@[at] })
                    }
                ||| none_answering(list@, target@) && negotiation_aborts(
                    post,
                    act,
                    ErrorKind::DeviceNotFound,
                )
            },
            _ => negotiation_aborts(post, act, ErrorKind::ConnectionFailed),
        },
        Negotiation::AwaitLockdown { device } => match reply {
            Reply::Completed => post == (Negotiation::AwaitBuid { device }) && act
                == Action::FetchBuid,
            _ => negotiation_aborts(post, act, ErrorKind::ConnectionFailed),
        },
        Negotiation::AwaitBuid { device } => match reply {
            Reply::Buid(active) => {
                &&& post matches Negotiation::AwaitStoredRecord { device: d, host_id, buid }
                &&& d == device
                &&& is_host_id(host_id@)
                &&& buid@ == toggled(active@)
                &&& act == (Action::FetchStoredRecord { udid: device.udid })
            },
            _ => negotiation_aborts(post, act, ErrorKind::ConnectionFailed),
        },
        Negotiation::AwaitStoredRecord { device, host_id, buid } => match reply {
            Reply::Record(stored) => record_taken(device, stored, post, act),
            _ => post == (Negotiation::AwaitPairing { device }) && act == (Action::Pair {
                host_id,
                buid,
            }),
        },
        Negotiation::AwaitPairing { device } => match reply {
            Reply::Record(minted) => record_taken(device, minted, post, act),
            _ => negotiation_aborts(post, act, ErrorKind::ProtocolRejected),
        },
        Negotiation::AwaitSession { device, record } => match reply {
            Reply::Completed => {
                &&& post == (Negotiation::AwaitFlag { device, record })
                &&& act matches Action::SetFlag { domain, key, value }
                &&& domain@ == WIRELESS_DOMAIN@
                &&& key@ == DEBUG_FLAG@
                &&& value
            },
            _ => negotiation_aborts(post, act, ErrorKind::ProtocolRejected),
        },
        Negotiation::AwaitFlag { device, record } => match reply {
            Reply::Completed => post == Negotiation::Closed && act == (Action::Finish {
                outcome: Outcome::Record(record),
            }),
            _ => negotiation_aborts(post, act, ErrorKind::ProtocolRejected),
        },
        Negotiation::Closed => post == Negotiation::Closed && act == Action::Halt,
    }
}

/// Whether the record that the negotiation holds, if it holds one, is scoped
/// to the device that was resolved.
pub open spec fn record_matches_device(state: Negotiation) -> bool {
    match state {
        Negotiation::AwaitSession { device, record } => record@.udid == Some(device.udid@),
        Negotiation::AwaitFlag { device, record } => record@.udid == Some(device.udid@),
        _ => true,
    }
}

/// The device that the negotiation has resolved, where it has come so far.
pub open spec fn resolved_device(state: Negotiation) -> Option<DeviceHandle> {
    match state {
        Negotiation::AwaitLockdown { device } => Some(device),
        Negotiation::AwaitBuid { device } => Some(device),
        Negotiation::AwaitStoredRecord { device, host_id, buid } => Some(device),
        Negotiation::AwaitPairing { device } => Some(device),
        Negotiation::AwaitSession { device, record } => Some(device),
        Negotiation::AwaitFlag { device, record } => Some(device),
        _ => None,
    }
}

impl Negotiation {
    /// Begins the negotiation of a trust record for the device `target`.
    pub fn begin(target: &str) -> (out: (Negotiation, Action))
        ensures
            out.0 matches Negotiation::AwaitDaemon { target: t } && t@ == target@,
            out.1 == Action::ConnectDaemon,
            record_matches_device(out.0),
    {
        (Negotiation::AwaitDaemon { target: String::from_str(target) }, Action::ConnectDaemon)
    }

    /// The record with which the session is started and the flag is set.
    pub fn record(&self) -> (out: Option<&TrustRecord>)
        ensures
            match *self {
                Negotiation::AwaitSession { device, record } => out == Some(&record),
                Negotiation::AwaitFlag { device, record } => out == Some(&record),
                _ => out is None,
            },
    {
        match self {
            Negotiation::AwaitSession { device: _, record } => Some(record),
            Negotiation::AwaitFlag { device: _, record } => Some(record),
            _ => None,
        }
    }

    /// Takes the reply to the pending action and gives the next state and
    /// the next action.
    pub fn step(self, reply: Reply) -> (out: (Negotiation, Action))
        ensures
            negotiation_step(self, reply, out.0, out.1),
            record_matches_device(self) ==> record_matches_device(out.0),
            record_matches_device(self) ==> (out.1 matches Action::Finish {
                outcome: Outcome::Record(record),
            } ==> resolved_device(self) matches Some(device) && record@.udid == Some(
                device.udid@,
            )),
    {
        match self {
            Negotiation::AwaitDaemon { target } => match reply {
                Reply::Completed => (Negotiation::AwaitDevices { target }, Action::ListDevices),
                _ => (Negotiation::Closed, Action::Abort { kind: ErrorKind::ConnectionFailed }),
            },
            Negotiation::AwaitDevices { target } => match reply {
                Reply::Devices(list) => match resolve(&list, target.as_str()) {
                    Ok(device) => {
                        let again = device.duplicate();
                        (
                            Negotiation::AwaitLockdown { device },
                            Action::ConnectLockdown { device: again },
                        )
                    },
                    Err(kind) => (Negotiation::Closed, Action::Abort { kind }),
                },
                _ => (Negotiation::Closed, Action::Abort { kind: ErrorKind::ConnectionFailed }),
            },
            Negotiation::AwaitLockdown { device } => match reply {
                Reply::Completed => (Negotiation::AwaitBuid { device }, Action::FetchBuid),
                _ => (Negotiation::Closed, Action::Abort { kind: ErrorKind::ConnectionFailed }),
            },
            Negotiation::AwaitBuid { device } => match reply {
                Reply::Buid(active) => {
                    let buid = toggle_buid(active.as_str());
                    let host_id = fresh_host_id();
                    let udid = device.udid.clone();
                    (
                        Negotiation::AwaitStoredRecord { device, host_id, buid },
                        Action::FetchStoredRecord { udid },
                    )
                },
                _ => (Negotiation::Closed, Action::Abort { kind: ErrorKind::ConnectionFailed }),
            },
            Negotiation::AwaitStoredRecord { device, host_id, buid } => match reply {
                Reply::Record(stored) => {
                    let record = stored.bind_to_device(device.udid.as_str());
                    (Negotiation::AwaitSession { device, record }, Action::StartSession)
                },
                _ => (Negotiation::AwaitPairing { device }, Action::Pair { host_id, buid }),
            },
            Negotiation::AwaitPairing { device } => match reply {
                Reply::Record(minted) => {
                    let record = minted.bind_to_device(device.udid.as_str());
                    (Negotiation::AwaitSession { device, record }, Action::StartSession)
                },
                _ => (Negotiation::Closed, Action::Abort { kind: ErrorKind::ProtocolRejected }),
            },
            Negotiation::AwaitSession { device, record } => match reply {
                Reply::Completed => (
                    Negotiation::AwaitFlag { device, record },
                    Action::SetFlag {
                        domain: String::from_str(WIRELESS_DOMAIN),
                        key: String::from_str(DEBUG_FLAG),
                        value: true,
                    },
                ),
                _ => (Negotiation::Closed, Action::Abort { kind: ErrorKind::ProtocolRejected }),
            },
            Negotiation::AwaitFlag { device, record } => match reply {
                Reply::Completed => (
                    Negotiation::Closed,
                    Action::Finish { outcome: Outcome::Record(record) },
                ),
                _ => (Negotiation::Closed, Action::Abort { kind: ErrorKind::ProtocolRejected }),
            },
            Negotiation::Closed => (Negotiation::Closed, Action::Halt),
        }
    }
}

/// The device that a negotiation resolves is attached over USB and bears
/// exactly the identifier that was asked for; if the list holds no such
/// device the negotiation ends with `DeviceNotFound` and asks for nothing
/// more.
pub proof fn negotiation_resolves_exactly(
    target: String,
    list: Vec<DeviceHandle>,
    post: Negotiation,
    act: Action,
)
    requires
        negotiation_step(Negotiation::AwaitDevices { target }, Reply::Devices(list), post, act),
    ensures
        match resolved_device(post) {
            Some(device) => device.udid@ == target@ && device.transport == Transport::Usb
                && list@.contains(device),
            None => none_answering(list@, target@) && act == (Action::Abort {
                kind: ErrorKind::DeviceNotFound,
            }),
        },
{
}

/// Whatever the record that the daemon's store or the handshake gave, the
/// record that a negotiation holds, and the one it ends with, is scoped to
/// the device that was resolved.
pub proof fn negotiation_keeps_record_on_device(
    pre: Negotiation,
    reply: Reply,
    post: Negotiation,
    act: Action,
)
    requires
        record_matches_device(pre),
        negotiation_step(pre, reply, post, act),
    ensures
        record_matches_device(post),
        act matches Action::Finish { outcome } ==> {
            &&& outcome matches Outcome::Record(record)
            &&& resolved_device(pre) matches Some(device)
            &&& record@.udid == Some(device.udid@)
        },
        resolved_device(pre) is Some && resolved_device(post) is Some ==> resolved_device(post)
            == resolved_device(pre),
{
}

/// A record that the daemon's store holds is reused: the pairing handshake
/// is asked for only when the store was asked and gave no record.
pub proof fn stored_record_prevents_pairing(
    pre: Negotiation,
    reply: Reply,
    post: Negotiation,
    act: Action,
)
    requires
        negotiation_step(pre, reply, post, act),
    ensures
        act is Pair ==> pre is AwaitStoredRecord && !(reply is Record),
        pre is AwaitStoredRecord && reply is Record ==> act == Action::StartSession
            && post is AwaitSession,
{
}

/// The handshake is made under the identity that was settled when the host
/// build identifier arrived: a well-formed host identifier, and the active
/// build identifier with its first character toggled.
pub proof fn pairing_uses_toggled_identity(
    device: DeviceHandle,
    active: String,
    waiting: Negotiation,
    fetch: Action,
    reply: Reply,
    post: Negotiation,
    act: Action,
)
    requires
        negotiation_step(Negotiation::AwaitBuid { device }, Reply::Buid(active), waiting, fetch),
        negotiation_step(waiting, reply, post, act),
        !(reply is Record),
    ensures
        act matches Action::Pair { host_id, buid } && is_host_id(host_id@) && buid@ == toggled(
            active@,
        ),
        post == (Negotiation::AwaitPairing { device }),
{
}

/// A whole negotiation for the device `target`: the states it passed
/// through, the replies it was given and the actions it asked for, in order.
pub open spec fn negotiation_run(
    target: Seq<char>,
    replies: Seq<Reply>,
    states: Seq<Negotiation>,
    actions: Seq<Action>,
) -> bool {
    &&& states.len() == replies.len() + 1
    &&& actions.len() == replies.len()
    &&& states[0] matches Negotiation::AwaitDaemon { target: t } && t@ == target
    &&& forall|i: int|
        0 <= i < replies.len() ==> negotiation_step(
            states[i],
            #[trigger] replies[i],
            states[i + 1],
            actions[i],
        )
}

/// Whether all that the state holds is about the device `target`: the
/// identifier to resolve, the device resolved, and the record taken.
pub open spec fn on_target(state: Negotiation, target: Seq<char>) -> bool {
    match state {
        Negotiation::AwaitDaemon { target: t } => t@ == target,
        Negotiation::AwaitDevices { target: t } => t@ == target,
        Negotiation::AwaitSession { device, record } => device.udid@ == target && record@.udid
            == Some(target),
        Negotiation::AwaitFlag { device, record } => device.udid@ == target && record@.udid == Some(
            target,
        ),
        Negotiation::Closed => true,
        _ => resolved_device(state) matches Some(device) && device.udid@ == target,
    }
}

/// How far a state is along the negotiation; every step leads further until
/// the negotiation has ended.
pub open spec fn progress(state: Negotiation) -> int {
    match state {
        Negotiation::AwaitDaemon { .. } => 0,
        Negotiation::AwaitDevices { .. } => 1,
        Negotiation::AwaitLockdown { .. } => 2,
        Negotiation::AwaitBuid { .. } => 3,
        Negotiation::AwaitStoredRecord { .. } => 4,
        Negotiation::AwaitPairing { .. } => 5,
        Negotiation::AwaitSession { .. } => 6,
        Negotiation::AwaitFlag { .. } => 7,
        Negotiation::Closed => 8,
    }
}

/// A step keeps the negotiation on its device and leads it further.
pub proof fn step_stays_on_target(
    target: Seq<char>,
    pre: Negotiation,
    reply: Reply,
    post: Negotiation,
    act: Action,
)
    requires
        on_target(pre, target),
        negotiation_step(pre, reply, post, act),
    ensures
        on_target(post, target),
        act matches Action::Finish { outcome } ==> outcome matches Outcome::Record(record)
            && record@.udid == Some(target),
        act matches Action::ConnectLockdown { device } ==> device.udid@ == target
            && device.transport == Transport::Usb,
        act matches Action::FetchStoredRecord { udid } ==> udid@ == target,
        pre is Closed || progress(pre) < progress(post),
        progress(pre) <= progress(post),
{
}

/// In a whole negotiation every state is about the device it was begun for.
pub proof fn run_stays_on_target(
    target: Seq<char>,
    replies: Seq<Reply>,
    states: Seq<Negotiation>,
    actions: Seq<Action>,
    at: int,
)
    requires
        negotiation_run(target, replies, states, actions),
        0 <= at <= replies.len(),
    ensures
        on_target(states[at], target),
    decreases at,
{
    if at > 0 {
        run_stays_on_target(target, replies, states, actions, at - 1);
        let before = at - 1;
        assert(negotiation_step(states[before], replies[before], states[before + 1], actions[before]));
        step_stays_on_target(target, states[before], replies[before], states[at], actions[before]);
    }
}

/// In a whole negotiation a later state is at least as far along as an
/// earlier one, and further unless the negotiation had ended by then.
pub proof fn run_progresses(
    target: Seq<char>,
    replies: Seq<Reply>,
    states: Seq<Negotiation>,
    actions: Seq<Action>,
    earlier: int,
    later: int,
)
    requires
        negotiation_run(target, replies, states, actions),
        0 <= earlier < later <= replies.len(),
    ensures
        progress(states[earlier]) <= progress(states[later]),
        states[earlier] is Closed || progress(states[earlier]) < progress(states[later]),
    decreases later - earlier,
{
    run_stays_on_target(target, replies, states, actions, earlier);
    assert(negotiation_step(states[earlier], replies[earlier], states[earlier + 1], actions[earlier]));
    step_stays_on_target(
        target,
        states[earlier],
        replies[earlier],
        states[earlier + 1],
        actions[earlier],
    );
    if earlier + 1 < later {
        run_progresses(target, replies, states, actions, earlier + 1, later);
    }
}

/// Whatever the replies, a negotiation that ends well ends with a record
/// whose device identifier is the identifier it was begun for, and every
/// device it turns to is the USB-attached device of that identifier.
pub proof fn negotiated_record_is_for_target(
    target: Seq<char>,
    replies: Seq<Reply>,
    states: Seq<Negotiation>,
    actions: Seq<Action>,
)
    requires
        negotiation_run(target, replies, states, actions),
    ensures
        forall|i: int|
            0 <= i < actions.len() ==> (#[trigger] actions[i] matches Action::Finish { outcome }
                ==> outcome matches Outcome::Record(record) && record@.udid == Some(target)),
        forall|i: int|
            0 <= i < actions.len() ==> (#[trigger] actions[i] matches Action::ConnectLockdown {
                device,
            } ==> device.udid@ == target && device.transport == Transport::Usb),
{
    assert forall|i: int| 0 <= i < actions.len() implies (#[trigger] actions[i] matches Action::Finish {
        outcome,
    } ==> outcome matches Outcome::Record(record) && record@.udid == Some(target)) && (
    actions[i] matches Action::ConnectLockdown { device } ==> device.udid@ == target
        && device.transport == Transport::Usb) by {
        run_stays_on_target(target, replies, states, actions, i);
        assert(negotiation_step(states[i], replies[i], states[i + 1], actions[i]));
        step_stays_on_target(target, states[i], replies[i], states[i + 1], actions[i]);
    }
}

/// If the daemon's store gave a record when it was asked, the whole
/// negotiation asks for no pairing handshake.
pub proof fn reuse_means_no_handshake(
    target: Seq<char>,
    replies: Seq<Reply>,
    states: Seq<Negotiation>,
    actions: Seq<Action>,
    asked: int,
)
    requires
        negotiation_run(target, replies, states, actions),
        0 <= asked < replies.len(),
        states[asked] is AwaitStoredRecord,
        replies[asked] is Record,
    ensures
        forall|i: int| 0 <= i < actions.len() ==> !(#[trigger] actions[i] is Pair),
{
    assert forall|i: int| 0 <= i < actions.len() implies !(#[trigger] actions[i] is Pair) by {
        assert(negotiation_step(states[i], replies[i], states[i + 1], actions[i]));
        if actions[i] is Pair {
            assert(states[i] is AwaitStoredRecord);
            if i < asked {
                run_progresses(target, replies, states, actions, i, asked);
            } else if asked < i {
                run_progresses(target, replies, states, actions, asked, i);
            }
        }
    }
}

} // verus!
