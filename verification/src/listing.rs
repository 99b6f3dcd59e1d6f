//! The listing of device names: every USB-attached device is asked for its
//! display name; a device that cannot be reached or has none is passed over.

use vstd::prelude::*;
use crate::directory::{usb_devices, usb_only, DeviceHandle};
use crate::error::ErrorKind;
use crate::names::NameTable;
use crate::protocol::{Action, Outcome, Reply};

verus! {

/// The key under which the management service holds a device's display name.
pub const DEVICE_NAME_KEY: &'static str = "DeviceName";

/// The entries of a property-list dictionary whose values are strings, by
/// key; no entries where the value is no dictionary.
pub uninterp spec fn string_entries(values: plist::Value) -> Map<Seq<char>, Seq<char>>;

/// Looks `key` up with `plist::Value::as_dictionary`, `plist::Dictionary::get`
/// and `plist::Value::as_string`: the string that the dictionary holds under
/// `key`, and nothing where `values` is no dictionary, holds no such key, or
/// holds something else than a string there.
#[verifier::external_body]
fn string_entry(values: &plist::Value, key: &str) -> (out: Option<String>)
    ensures
        match out {
            Some(text) => string_entries(*values).contains_key(key@) && string_entries(
                *values,
            )[key@] == text@,
            None => !string_entries(*values).contains_key(key@),
        },
{
    values.as_dictionary()?.get(key)?.as_string().map(String::from)
}

/// The display name among the values of a device's management service.
pub open spec fn name_in(values: plist::Value) -> Option<Seq<char>> {
    if string_entries(values).contains_key(DEVICE_NAME_KEY@) {
        Some(string_entries(values)[DEVICE_NAME_KEY@])
    } else {
        None
    }
}

/// Reads a device's display name from the values of its management service.
pub fn device_name(values: &plist::Value) -> (out: Option<String>)
    ensures
        match out {
            Some(name) => name_in(*values) == Some(name@),
            None => name_in(*values) is None,
        },
{
    string_entry(values, DEVICE_NAME_KEY)
}

/// How far the listing of device names has come. `queue` holds the devices
/// to visit, `at` the place of the one being visited, `names` what the
/// devices before it gave.
#[derive(Debug, PartialEq, Eq)]
pub enum Listing {
    /// Waiting for the connection to the multiplexing daemon.
    AwaitDaemon,
    /// Waiting for the daemon's list of devices.
    AwaitDevices,
    /// Waiting for the session with the management service of the device.
    AwaitLockdown { queue: Vec<DeviceHandle>, at: usize, names: NameTable },
    /// Waiting for the values of the management service of the device.
    AwaitValues { queue: Vec<DeviceHandle>, at: usize, names: NameTable },
    /// The listing has ended.
    Closed,
}

/// The listing ends with the failure `kind`.
pub open spec fn listing_aborts(post: Listing, act: Action, kind: ErrorKind) -> bool {
    post == Listing::Closed && act == (Action::Abort { kind })
}

/// The listing turns to the device at `next` with the names `table`, or ends
/// with them where the queue holds no such device.
pub open spec fn turns_to(
    queue: Seq<DeviceHandle>,
    next: int,
    table: Map<Seq<char>, Seq<char>>,
    post: Listing,
    act: Action,
) -> bool {
    if 0 <= next < queue.len() {
        &&& post matches Listing::AwaitLockdown { queue: q, at, names }
        &&& q@ == queue
        &&& at == next
        &&& names@ == table
        &&& act == (Action::ConnectLockdown { device: queue[next] })
    } else {
        &&& post == Listing::Closed
        &&& act matches Action::Finish { outcome: Outcome::Names(names) }
        &&& names@ == table
    }
}

/// The visit of the device at `at` ends: the name it gave, if any, is
/// recorded for it, and the listing turns to the device after it.
pub open spec fn visit_ends(
    queue: Seq<DeviceHandle>,
    at: int,
    table: Map<Seq<char>, Seq<char>>,
    name: Option<Seq<char>>,
    post: Listing,
    act: Action,
) -> bool {
    match name {
        Some(name) if 0 <= at < queue.len() => turns_to(
            queue,
            at + 1,
            table.insert(name, queue[at].udid@),
            post,
            act,
        ),
        _ => turns_to(queue, at + 1, table, post, act),
    }
}

/// One step of the listing: from the state `pre` and the reply to the action
/// that was pending, to the state `post` and the next action `act`. Only the
/// daemon can make the listing fail: a device that cannot be reached or
/// gives no name is passed over.
pub open spec fn listing_step(pre: Listing, reply: Reply, post: Listing, act: Action) -> bool {
    match pre {
        Listing::AwaitDaemon => match reply {
            Reply::Completed => post == Listing::AwaitDevices && act == Action::ListDevices,
            _ => listing_aborts(post, act, ErrorKind::ConnectionFailed),
        },
        Listing::AwaitDevices => match reply {
            Reply::Devices(list) => turns_to(usb_only(list@), 0, Map::empty(), post, act),
            _ => listing_aborts(post, act, ErrorKind::ConnectionFailed),
        },
        Listing::AwaitLockdown { queue, at, names } => match reply {
            Reply::Completed => if at < queue@.len() {
                post == (Listing::AwaitValues { queue, at, names }) && act == Action::ReadValues
            } else {
                turns_to(queue@, queue@.len() as int, names@, post, act)
            },
            _ => turns_to(queue@, at + 1, names@, post, act),
        },
        Listing::AwaitValues { queue, at, names } => match reply {
            Reply::Values(values) => visit_ends(queue@, at as int, names@, name_in(values), post, act),
            _ => visit_ends(queue@, at as int, names@, None, post, act),
        },
        Listing::Closed => post == Listing::Closed && act == Action::Halt,
    }
}

/// Turns to the device at `next`, or ends the listing.
fn turn_to(queue: Vec<DeviceHandle>, next: usize, names: NameTable) -> (out: (Listing, Action))
    ensures
        turns_to(queue@, next as int, names@, out.0, out.1),
{
    if next < queue.len() {
        let device = queue[next].duplicate();
        (Listing::AwaitLockdown { queue, at: next, names }, Action::ConnectLockdown { device })
    } else {
        (Listing::Closed, Action::Finish { outcome: Outcome::Names(names) })
    }
}

/// Ends the visit of the device at `at`, which gave `name` or no name, and
/// turns to the device after it.
pub fn end_visit(queue: Vec<DeviceHandle>, at: usize, names: NameTable, name: Option<String>) -> (out: (
    Listing,
    Action,
))
    ensures
        visit_ends(
            queue@,
            at as int,
            names@,
            match name {
                Some(name) => Some(name@),
                None => None,
            },
            out.0,
            out.1,
        ),
{
    if at >= queue.len() {
        let end = queue.len();
        return turn_to(queue, end, names);
    }
    match name {
        Some(name) => {
            let mut names = names;
            names.record(name, queue[at].udid.clone());
            turn_to(queue, at + 1, names)
        },
        None => turn_to(queue, at + 1, names),
    }
}

impl Listing {
    /// Begins a listing of the names of the devices attached over USB.
    pub fn begin() -> (out: (Listing, Action))
        ensures
            out.0 == Listing::AwaitDaemon,
            out.1 == Action::ConnectDaemon,
    {
        (Listing::AwaitDaemon, Action::ConnectDaemon)
    }

    /// Takes the reply to the pending action and gives the next state and
    /// the next action.
    pub fn step(self, reply: Reply) -> (out: (Listing, Action))
        ensures
            listing_step(self, reply, out.0, out.1),
    {
        match self {
            Listing::AwaitDaemon => match reply {
                Reply::Completed => (Listing::AwaitDevices, Action::ListDevices),
                _ => (Listing::Closed, Action::Abort { kind: ErrorKind::ConnectionFailed }),
            },
            Listing::AwaitDevices => match reply {
                Reply::Devices(list) => turn_to(usb_devices(&list), 0, NameTable::new()),
                _ => (Listing::Closed, Action::Abort { kind: ErrorKind::ConnectionFailed }),
            },
            Listing::AwaitLockdown { queue, at, names } => {
                if at >= queue.len() {
                    let end = queue.len();
                    return turn_to(queue, end, names);
                }
                match reply {
                    Reply::Completed => (
                        Listing::AwaitValues { queue, at, names },
                        Action::ReadValues,
                    ),
                    _ => turn_to(queue, at + 1, names),
                }
            },
            Listing::AwaitValues { queue, at, names } => match reply {
                Reply::Values(values) => {
                    let name = device_name(&values);
                    end_visit(queue, at, names, name)
                },
                _ => end_visit(queue, at, names, None),
            },
            Listing::Closed => (Listing::Closed, Action::Halt),
        }
    }
}

/// The names that a listing has gathered so far; none before a device was
/// visited.
pub open spec fn gathered(state: Listing) -> Map<Seq<char>, Seq<char>> {
    match state {
        Listing::AwaitLockdown { queue, at, names } => names@,
        Listing::AwaitValues { queue, at, names } => names@,
        _ => Map::empty(),
    }
}

/// Once the devices are known no device can make the listing fail, and a
/// device that cannot be reached, or whose values cannot be read, leaves the
/// names as they were.
pub proof fn unreachable_device_is_passed_over(pre: Listing, reply: Reply, post: Listing, act: Action)
    requires
        listing_step(pre, reply, post, act),
        pre is AwaitLockdown || pre is AwaitValues,
    ensures
        !(act is Abort),
        !(reply is Values) ==> match act {
            Action::Finish { outcome: Outcome::Names(names) } => names@ == gathered(pre),
            _ => gathered(post) == gathered(pre),
        },
{
}

/// Whether every identifier in `table` is that of a device of `queue`.
pub open spec fn names_come_from(table: Map<Seq<char>, Seq<char>>, queue: Seq<DeviceHandle>) -> bool {
    forall|name: Seq<char>| #[trigger]
        table.contains_key(name) ==> exists|k: int|
            0 <= k < queue.len() && (#[trigger] queue[k]).udid@ == table[name]
}

/// The devices that a listing visits, once the daemon has listed them.
pub open spec fn visited_devices(state: Listing, reply: Reply) -> Seq<DeviceHandle> {
    match state {
        Listing::AwaitDevices => match reply {
            Reply::Devices(list) => usb_only(list@),
            _ => Seq::empty(),
        },
        Listing::AwaitLockdown { queue, at, names } => queue@,
        Listing::AwaitValues { queue, at, names } => queue@,
        _ => Seq::empty(),
    }
}

/// Whether the names gathered so far all belong to devices being visited.
pub open spec fn names_are_sound(state: Listing) -> bool {
    match state {
        Listing::AwaitLockdown { queue, at, names } => names_come_from(names@, queue@),
        Listing::AwaitValues { queue, at, names } => names_come_from(names@, queue@),
        _ => true,
    }
}

/// A listing names no device but those it visits: each identifier in its
/// result is the identifier of a USB-attached device that the daemon listed.
pub proof fn names_belong_to_visited_devices(pre: Listing, reply: Reply, post: Listing, act: Action)
    requires
        names_are_sound(pre),
        listing_step(pre, reply, post, act),
    ensures
        names_are_sound(post),
        act matches Action::Finish { outcome: Outcome::Names(names) } ==> names_come_from(
            names@,
            visited_devices(pre, reply),
        ),
        visited_devices(post, reply) == visited_devices(pre, reply) || post is Closed,
{
}

} // verus!
