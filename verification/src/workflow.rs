//! The orchestrated operations: the full setup of a device, and the export
//! of its trust record.

use vstd::prelude::*;
use vstd::utf8::*;
use crate::directory::{none_answering, DeviceHandle};
use crate::error::ErrorKind;
use crate::negotiate::{negotiation_step, Negotiation};
use crate::protocol::{Action, Outcome, Reply};
use crate::record::{export_record, plist_encoding, Export, TrustRecord};
use crate::upload::{upload_step, Upload};

verus! {

/// The full setup of a device: a trust record is negotiated, then delivered
/// to the device.
#[derive(Debug, PartialEq, Eq)]
pub enum Setup {
    /// The record is being negotiated.
    Negotiating { target: String, negotiation: Negotiation },
    /// The record is being delivered.
    Uploading { upload: Upload },
}

/// One step of the setup. While the record is negotiated the step is the
/// negotiation's; when the negotiation ends with a record its delivery
/// begins; from then on the step is the delivery's. A negotiation that fails
/// ends the setup, and no delivery begins.
pub open spec fn setup_step(pre: Setup, reply: Reply, post: Setup, act: Action) -> bool {
    match pre {
        Setup::Negotiating { target, negotiation: inner } => exists|next: Negotiation, asked: Action|
            {
                &&& #[trigger] negotiation_step(inner, reply, next, asked)
                &&& match asked {
                    Action::Finish { outcome: Outcome::Record(record) } => {
                        &&& post == (Setup::Uploading { upload: Upload::AwaitDaemon { target, record },
                        })
                        &&& act == Action::ConnectDaemon
                    },
                    _ => post == (Setup::Negotiating { target, negotiation: next }) && act == asked,
                }
            },
        Setup::Uploading { upload: inner } => exists|next: Upload|
            {
                &&& #[trigger] upload_step(inner, reply, next, act)
                &&& post == (Setup::Uploading { upload: next })
            },
    }
}

impl Setup {
    /// Begins the setup of the device `target`.
    pub fn begin(target: &str) -> (out: (Setup, Action))
        ensures
            out.0 matches Setup::Negotiating { target: t, negotiation: Negotiation::AwaitDaemon {
                target: u,
            } } && t@ == target@ && u@ == target@,
            out.1 == Action::ConnectDaemon,
    {
        let (inner, act) = Negotiation::begin(target);
        (Setup::Negotiating { target: String::from_str(target), negotiation: inner }, act)
    }

    /// The record with which the session is started, while one is held.
    pub fn record(&self) -> (out: Option<&TrustRecord>)
        ensures
            match *self {
                Setup::Negotiating { target, negotiation: Negotiation::AwaitSession { device, record } } => out
                    == Some(&record),
                Setup::Negotiating { target, negotiation: Negotiation::AwaitFlag { device, record } } => out
                    == Some(&record),
                _ => out is None,
            },
    {
        match self {
            Setup::Negotiating { target: _, negotiation: inner } => inner.record(),
            Setup::Uploading { upload: _ } => None,
        }
    }

    /// Takes the reply to the pending action and gives the next state and
    /// the next action.
    pub fn step(self, reply: Reply) -> (out: (Setup, Action))
        ensures
            setup_step(self, reply, out.0, out.1),
    {
        match self {
            Setup::Negotiating { target, negotiation: inner } => {
                let (next, asked) = inner.step(reply);
                match asked {
                    Action::Finish { outcome: Outcome::Record(record) } => (
                        Setup::Uploading { upload: Upload::AwaitDaemon { target, record } },
                        Action::ConnectDaemon,
                    ),
                    other => (Setup::Negotiating { target, negotiation: next }, other),
                }
            },
            Setup::Uploading { upload: inner } => {
                let (next, act) = inner.step(reply);
                (Setup::Uploading { upload: next }, act)
            },
        }
    }
}

/// Whether `act` is asked for by a delivery only.
pub open spec fn serves_delivery(act: Action) -> bool {
    act is ConnectBridge || act is VendDocuments || act is OpenForWriting || act is WriteAll
}

/// A delivery begins only when the negotiation has ended with a record, and
/// it is the delivery of that record to the device the setup was begun for.
/// While the negotiation runs, and when it fails, nothing is asked that
/// serves the delivery.
pub proof fn delivery_follows_negotiation(pre: Setup, reply: Reply, post: Setup, act: Action)
    requires
        pre is Negotiating,
        setup_step(pre, reply, post, act),
    ensures
        !serves_delivery(act),
        post matches Setup::Uploading { upload: inner } ==> {
            &&& pre matches Setup::Negotiating { target, negotiation: Negotiation::AwaitFlag { device, record } }
            &&& reply is Completed
            &&& inner == (Upload::AwaitDaemon { target, record })
            &&& act == Action::ConnectDaemon
        },
        act is Abort ==> post matches Setup::Negotiating { target, negotiation: Negotiation::Closed },
{
}

/// A setup whose device is not attached ends with `DeviceNotFound` before
/// any delivery, and asks for nothing afterwards.
pub proof fn setup_of_absent_device_fails(
    target: String,
    list: Vec<DeviceHandle>,
    post: Setup,
    act: Action,
    reply: Reply,
    last: Setup,
    after: Action,
)
    requires
        none_answering(list@, target@),
        setup_step(
            Setup::Negotiating { target, negotiation: Negotiation::AwaitDevices { target } },
            Reply::Devices(list),
            post,
            act,
        ),
        setup_step(post, reply, last, after),
    ensures
        act == (Action::Abort { kind: ErrorKind::DeviceNotFound }),
        post == (Setup::Negotiating { target, negotiation: Negotiation::Closed }),
        after == Action::Halt,
        last == post,
{
}

/// A whole setup: the states it passed through, the replies it was given and
/// the actions it asked for, in order.
pub open spec fn setup_run(
    start: Setup,
    replies: Seq<Reply>,
    states: Seq<Setup>,
    actions: Seq<Action>,
) -> bool {
    &&& states.len() == replies.len() + 1
    &&& actions.len() == replies.len()
    &&& states[0] == start
    &&& forall|i: int|
        0 <= i < replies.len() ==> setup_step(
            states[i],
            #[trigger] replies[i],
            states[i + 1],
            actions[i],
        )
}

/// Once the negotiation has failed the setup is over: no delivery begins,
/// and whatever is reported afterwards, nothing more is asked for.
pub proof fn failed_negotiation_ends_setup(
    start: Setup,
    replies: Seq<Reply>,
    states: Seq<Setup>,
    actions: Seq<Action>,
    failed: int,
    later: int,
)
    requires
        setup_run(start, replies, states, actions),
        0 <= failed < later <= replies.len(),
        states[failed] is Negotiating,
        actions[failed] is Abort,
    ensures
        states[later] matches Setup::Negotiating { target, negotiation: Negotiation::Closed },
        later < replies.len() ==> actions[later] == Action::Halt,
    decreases later - failed,
{
    if failed + 1 < later {
        failed_negotiation_ends_setup(start, replies, states, actions, failed, later - 1);
    }
    let before = later - 1;
    assert(setup_step(states[before], replies[before], states[before + 1], actions[before]));
    if later < replies.len() {
        assert(setup_step(states[later], replies[later], states[later + 1], actions[later]));
    }
}

/// The export of a device's trust record: the record is negotiated and
/// serialized, then written to a local file or handed back as text.
#[derive(Debug, PartialEq, Eq)]
pub enum Exporting {
    /// The record is being negotiated.
    Negotiating { destination: Option<String>, negotiation: Negotiation },
    /// Waiting for the document to be written to `path`.
    AwaitFile { path: String },
    /// The export has ended.
    Closed,
}

/// What follows once the record is there: with a destination the document is
/// written to it; without one the document is the result, which needs it to
/// be valid UTF-8.
pub open spec fn export_decided(
    record: TrustRecord,
    destination: Option<String>,
    post: Exporting,
    act: Action,
) -> bool {
    match plist_encoding(record@) {
        None => post == Exporting::Closed && act == (Action::Abort {
            kind: ErrorKind::SerializationFailed,
        }),
        Some(document) => match destination {
            Some(path) => {
                &&& post == (Exporting::AwaitFile { path })
                &&& act matches Action::WriteFile { path: to, bytes }
                &&& to == path
                &&& bytes@ == document
            },
            None => if valid_utf8(document) {
                &&& post == Exporting::Closed
                &&& act matches Action::Finish { outcome: Outcome::Text(text) }
                &&& text@ == decode_utf8(document)
            } else {
                post == Exporting::Closed && act == (Action::Abort {
                    kind: ErrorKind::SerializationFailed,
                })
            },
        },
    }
}

/// One step of the export. While the record is negotiated the step is the
/// negotiation's; when the negotiation ends with a record the document is
/// made and its way out is decided; a file that cannot be written ends the
/// export with `IoFailed`.
pub open spec fn export_step(pre: Exporting, reply: Reply, post: Exporting, act: Action) -> bool {
    match pre {
        Exporting::Negotiating { destination, negotiation: inner } => exists|next: Negotiation, asked: Action|
            {
                &&& #[trigger] negotiation_step(inner, reply, next, asked)
                &&& match asked {
                    Action::Finish { outcome: Outcome::Record(record) } => export_decided(
                        record,
                        destination,
                        post,
                        act,
                    ),
                    _ => post == (Exporting::Negotiating { destination, negotiation: next }) && act
                        == asked,
                }
            },
        Exporting::AwaitFile { path } => match reply {
            Reply::Completed => post == Exporting::Closed && act == (Action::Finish {
                outcome: Outcome::Text(path),
            }),
            _ => post == Exporting::Closed && act == (Action::Abort { kind: ErrorKind::IoFailed }),
        },
        Exporting::Closed => post == Exporting::Closed && act == Action::Halt,
    }
}

impl Exporting {
    /// Begins the export of the trust record of the device `target`, to the
    /// local file `destination` where one is given.
    pub fn begin(target: &str, destination: Option<String>) -> (out: (Exporting, Action))
        ensures
            out.0 matches Exporting::Negotiating { destination: d, negotiation: Negotiation::AwaitDaemon {
                target: t,
            } } && d == destination && t@ == target@,
            out.1 == Action::ConnectDaemon,
    {
        let (inner, act) = Negotiation::begin(target);
        (Exporting::Negotiating { destination, negotiation: inner }, act)
    }

    /// The record with which the session is started, while one is held.
    pub fn record(&self) -> (out: Option<&TrustRecord>)
        ensures
            match *self {
                Exporting::Negotiating {
                    destination,
                    negotiation: Negotiation::AwaitSession { device, record },
                } => out == Some(&record),
                Exporting::Negotiating {
                    destination,
                    negotiation: Negotiation::AwaitFlag { device, record },
                } => out == Some(&record),
                _ => out is None,
            },
    {
        match self {
            Exporting::Negotiating { destination: _, negotiation: inner } => inner.record(),
            _ => None,
        }
    }

    /// Takes the reply to the pending action and gives the next state and
    /// the next action.
    pub fn step(self, reply: Reply) -> (out: (Exporting, Action))
        ensures
            export_step(self, reply, out.0, out.1),
    {
        match self {
            Exporting::Negotiating { destination, negotiation: inner } => {
                let (next, asked) = inner.step(reply);
                match asked {
                    Action::Finish { outcome: Outcome::Record(record) } => match export_record(
                        &record,
                        destination,
                    ) {
                        Ok(Export::ToFile { path, bytes }) => {
                            let to = path.clone();
                            (Exporting::AwaitFile { path }, Action::WriteFile { path: to, bytes })
                        },
                        Ok(Export::AsText { text }) => (
                            Exporting::Closed,
                            Action::Finish { outcome: Outcome::Text(text) },
                        ),
                        Err(kind) => (Exporting::Closed, Action::Abort { kind }),
                    },
                    other => (Exporting::Negotiating { destination, negotiation: next }, other),
                }
            },
            Exporting::AwaitFile { path } => match reply {
                Reply::Completed => (
                    Exporting::Closed,
                    Action::Finish { outcome: Outcome::Text(path) },
                ),
                _ => (Exporting::Closed, Action::Abort { kind: ErrorKind::IoFailed }),
            },
            Exporting::Closed => (Exporting::Closed, Action::Halt),
        }
    }
}

} // verus!
