//! The provisioning uploader: delivers a trust record into the companion
//! application's documents on the device.

use vstd::prelude::*;
use crate::directory::{answers_to, first_answering, none_answering, resolve, DeviceHandle};
use crate::error::ErrorKind;
use crate::protocol::{Action, Outcome, Reply};
use crate::record::{plist_encoding, serialize_record, TrustRecord};

verus! {

/// The bundle identifier of the companion application on the device.
pub const COMPANION_BUNDLE_ID: &'static str = "com.halfeatentoast.devcapture";

/// Where the record lies under the companion application's document root.
pub const RECORD_PATH: &'static str = "/Documents/pairing_record.plist";

/// How far the delivery of a trust record to a device has come.
#[derive(Debug, PartialEq, Eq)]
pub enum Upload {
    /// Waiting for the connection to the multiplexing daemon.
    AwaitDaemon { target: String, record: TrustRecord },
    /// Waiting for the daemon's list of devices.
    AwaitDevices { target: String, record: TrustRecord },
    /// Waiting for the session with the sandbox-bridging service.
    AwaitBridge { record: TrustRecord },
    /// Waiting for file access to the companion application's documents.
    AwaitDocuments { record: TrustRecord },
    /// Waiting for the file to be opened; `payload` is the serialized record.
    AwaitOpen { payload: Vec<u8> },
    /// Waiting for the payload to be written.
    AwaitWrite,
    /// The delivery has ended.
    Closed,
}

/// The delivery ends with the failure `kind`.
pub open spec fn upload_aborts(post: Upload, act: Action, kind: ErrorKind) -> bool {
    post == Upload::Closed && act == (Action::Abort { kind })
}

/// One step of the delivery: from the state `pre` and the reply to the
/// action that was pending, to the state `post` and the next action `act`.
/// A reply that does not answer the pending action counts as its failure;
/// a failure ends the delivery at once, whatever was done before.
pub open spec fn upload_step(pre: Upload, reply: Reply, post: Upload, act: Action) -> bool {
    match pre {
        Upload::AwaitDaemon { target, record } => match reply {
            Reply::Completed => post == (Upload::AwaitDevices { target, record }) && act
                == Action::ListDevices,
            _ => upload_aborts(post, act, ErrorKind::ConnectionFailed),
        },
        Upload::AwaitDevices { target, record } => match reply {
            Reply::Devices(list) => {
                ||| exists|at: int|
                    {
                        &&& first_answering(list@, target@, at)
                        &&& post == (Upload::AwaitBridge { record })
                        &&& act == (Action::ConnectBridge { device: list@[at] })
                    }
                ||| none_answering(list@, target@) && upload_aborts(
                    post,
                    act,
                    ErrorKind::DeviceNotFound,
                )
            },
            _ => upload_aborts(post, act, ErrorKind::ConnectionFailed),
        },
        Upload::AwaitBridge { record } => match reply {
            Reply::Completed => {
                &&& post == (Upload::AwaitDocuments { record })
                &&& act matches Action::VendDocuments { bundle_id }
                &&& bundle_id@ == COMPANION_BUNDLE_ID@
            },
            _ => upload_aborts(post, act, ErrorKind::ConnectionFailed),
        },
        Upload::AwaitDocuments { record } => match reply {
            Reply::Completed => match plist_encoding(record@) {
                Some(document) => {
                    &&& post matches Upload::AwaitOpen { payload }
                    &&& payload@ == document
                    &&& act matches Action::OpenForWriting { path }
                    &&& path@ == RECORD_PATH@
                },
                None => upload_aborts(post, act, ErrorKind::SerializationFailed),
            },
            _ => upload_aborts(post, act, ErrorKind::ProtocolRejected),
        },
        Upload::AwaitOpen { payload } => match reply {
            Reply::Completed => post == Upload::AwaitWrite && act == (Action::WriteAll { payload }),
            _ => upload_aborts(post, act, ErrorKind::ProtocolRejected),
        },
        Upload::AwaitWrite => match reply {
            Reply::Completed => post == Upload::Closed && act == (Action::Finish {
                outcome: Outcome::Delivered,
            }),
            _ => upload_aborts(post, act, ErrorKind::ProtocolRejected),
        },
        Upload::Closed => post == Upload::Closed && act == Action::Halt,
    }
}

impl Upload {
    /// Begins the delivery of `record` to the device `target`.
    pub fn begin(target: &str, record: TrustRecord) -> (out: (Upload, Action))
        ensures
            out.0 matches Upload::AwaitDaemon { target: t, record: r } && t@ == target@ && r
                == record,
            out.1 == Action::ConnectDaemon,
    {
        (Upload::AwaitDaemon { target: String::from_str(target), record }, Action::ConnectDaemon)
    }

    /// Takes the reply to the pending action and gives the next state and
    /// the next action.
    pub fn step(self, reply: Reply) -> (out: (Upload, Action))
        ensures
            upload_step(self, reply, out.0, out.1),
    {
        match self {
            Upload::AwaitDaemon { target, record } => match reply {
                Reply::Completed => (Upload::AwaitDevices { target, record }, Action::ListDevices),
                _ => (Upload::Closed, Action::Abort { kind: ErrorKind::ConnectionFailed }),
            },
            Upload::AwaitDevices { target, record } => match reply {
                Reply::Devices(list) => match resolve(&list, target.as_str()) {
                    Ok(device) => (Upload::AwaitBridge { record }, Action::ConnectBridge { device }),
                    Err(kind) => (Upload::Closed, Action::Abort { kind }),
                },
                _ => (Upload::Closed, Action::Abort { kind: ErrorKind::ConnectionFailed }),
            },
            Upload::AwaitBridge { record } => match reply {
                Reply::Completed => (
                    Upload::AwaitDocuments { record },
                    Action::VendDocuments { bundle_id: String::from_str(COMPANION_BUNDLE_ID) },
                ),
                _ => (Upload::Closed, Action::Abort { kind: ErrorKind::ConnectionFailed }),
            },
            Upload::AwaitDocuments { record } => match reply {
                Reply::Completed => match serialize_record(&record) {
                    Ok(payload) => (
                        Upload::AwaitOpen { payload },
                        Action::OpenForWriting { path: String::from_str(RECORD_PATH) },
                    ),
                    Err(kind) => (Upload::Closed, Action::Abort { kind }),
                },
                _ => (Upload::Closed, Action::Abort { kind: ErrorKind::ProtocolRejected }),
            },
            Upload::AwaitOpen { payload } => match reply {
                Reply::Completed => (Upload::AwaitWrite, Action::WriteAll { payload }),
                _ => (Upload::Closed, Action::Abort { kind: ErrorKind::ProtocolRejected }),
            },
            Upload::AwaitWrite => match reply {
                Reply::Completed => (Upload::Closed, Action::Finish { outcome: Outcome::Delivered }),
                _ => (Upload::Closed, Action::Abort { kind: ErrorKind::ProtocolRejected }),
            },
            Upload::Closed => (Upload::Closed, Action::Halt),
        }
    }
}

/// The file is written only after it was opened for writing, and once it is
/// open the whole payload is written, an empty payload too. The delivery is
/// reported done only after the write succeeded.
pub proof fn write_follows_open(pre: Upload, reply: Reply, post: Upload, act: Action)
    requires
        upload_step(pre, reply, post, act),
    ensures
        act is WriteAll ==> pre is AwaitOpen && reply is Completed,
        act is OpenForWriting ==> post is AwaitOpen,
        post is AwaitOpen ==> act is OpenForWriting,
        pre matches Upload::AwaitOpen { payload } ==> (reply is Completed ==> act == (
        Action::WriteAll { payload }) && post is AwaitWrite),
        post is AwaitWrite ==> act is WriteAll,
        act is Finish ==> pre is AwaitWrite && reply is Completed,
{
}

/// A whole delivery of `record` to the device `target`: the states it passed
/// through, the replies it was given and the actions it asked for, in order.
pub open spec fn upload_run(
    target: Seq<char>,
    record: TrustRecord,
    replies: Seq<Reply>,
    states: Seq<Upload>,
    actions: Seq<Action>,
) -> bool {
    &&& states.len() == replies.len() + 1
    &&& actions.len() == replies.len()
    &&& states[0] matches Upload::AwaitDaemon { target: t, record: r } && t@ == target && r
        == record
    &&& forall|i: int|
        0 <= i < replies.len() ==> upload_step(
            states[i],
            #[trigger] replies[i],
            states[i + 1],
            actions[i],
        )
}

/// Whether what the state holds is the record `record`, for the device
/// `target`, or the document made of it.
pub open spec fn carries(state: Upload, target: Seq<char>, record: TrustRecord) -> bool {
    match state {
        Upload::AwaitDaemon { target: t, record: r } => t@ == target && r == record,
        Upload::AwaitDevices { target: t, record: r } => t@ == target && r == record,
        Upload::AwaitBridge { record: r } => r == record,
        Upload::AwaitDocuments { record: r } => r == record,
        Upload::AwaitOpen { payload } => Some(payload@) == plist_encoding(record@),
        _ => true,
    }
}

/// In a whole delivery every state holds the record that was to be
/// delivered, or the document made of it.
pub proof fn run_carries_record(
    target: Seq<char>,
    record: TrustRecord,
    replies: Seq<Reply>,
    states: Seq<Upload>,
    actions: Seq<Action>,
    at: int,
)
    requires
        upload_run(target, record, replies, states, actions),
        0 <= at <= replies.len(),
    ensures
        carries(states[at], target, record),
    decreases at,
{
    if at > 0 {
        run_carries_record(target, record, replies, states, actions, at - 1);
        let before = at - 1;
        assert(upload_step(states[before], replies[before], states[before + 1], actions[before]));
    }
}

/// Whatever the replies, a delivery writes only what it has just opened the
/// file for: each write comes right after the request to open, which was
/// answered well; what is written is the whole document of the record; the
/// file is the record's place among the companion application's documents;
/// the bridge is opened to the USB-attached device that was asked for; and
/// the delivery is reported done only right after the write.
pub proof fn delivery_writes_after_open(
    target: Seq<char>,
    record: TrustRecord,
    replies: Seq<Reply>,
    states: Seq<Upload>,
    actions: Seq<Action>,
)
    requires
        upload_run(target, record, replies, states, actions),
    ensures
        forall|i: int|
            0 <= i < actions.len() ==> (#[trigger] actions[i] matches Action::WriteAll { payload }
                ==> {
                &&& i > 0
                &&& actions[i - 1] matches Action::OpenForWriting { path }
                &&& path@ == RECORD_PATH@
                &&& replies[i] is Completed
                &&& Some(payload@) == plist_encoding(record@)
            }),
        forall|i: int|
            0 <= i < actions.len() ==> (#[trigger] actions[i] is Finish ==> i > 0 && actions[i
                - 1] is WriteAll && replies[i] is Completed),
        forall|i: int|
            0 <= i < actions.len() ==> (#[trigger] actions[i] matches Action::ConnectBridge {
                device,
            } ==> answers_to(device, target)),
{
    assert forall|i: int| 0 <= i < actions.len() implies (#[trigger] actions[i] matches Action::WriteAll {
        payload,
    } ==> {
        &&& i > 0
        &&& actions[i - 1] matches Action::OpenForWriting { path }
        &&& path@ == RECORD_PATH@
        &&& replies[i] is Completed
        &&& Some(payload@) == plist_encoding(record@)
    }) && (actions[i] is Finish ==> i > 0 && actions[i - 1] is WriteAll && replies[i] is Completed)
        && (actions[i] matches Action::ConnectBridge { device } ==> answers_to(device, target)) by {
        run_carries_record(target, record, replies, states, actions, i);
        assert(upload_step(states[i], replies[i], states[i + 1], actions[i]));
        if i > 0 {
            let before = i - 1;
            assert(upload_step(states[before], replies[before], states[before + 1], actions[before]));
        }
    }
}

} // verus!
