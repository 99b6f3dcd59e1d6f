//! The device directory: which of the attached devices the workflow may
//! use, and which device an identifier resolves to.

use vstd::prelude::*;
use crate::error::ErrorKind;

verus! {

/// How a device is attached to the host.
#[derive(Clone, Copy, Debug, PartialEq, Eq, Structural)]
pub enum Transport {
    Usb,
    Network,
    Unknown,
}

/// One attached device, as the multiplexing daemon lists it.
#[derive(Clone, Debug, PartialEq, Eq)]
pub struct DeviceHandle {
    /// The device's unique identifier.
    pub udid: String,
    /// The transport it is attached over.
    pub transport: Transport,
    /// The number the daemon gave the attachment; connections are opened by it.
    pub device_id: u32,
}

impl DeviceHandle {
    /// A second handle for the same device.
    pub fn duplicate(&self) -> (out: DeviceHandle)
        ensures
            out == *self,
    {
        DeviceHandle { udid: self.udid.clone(), transport: self.transport, device_id: self.device_id }
    }
}

/// The devices of `all` that are attached over USB, in the order of `all`.
pub open spec fn usb_only(all: Seq<DeviceHandle>) -> Seq<DeviceHandle>
    decreases all.len(),
{
    if all.len() == 0 {
        Seq::empty()
    } else if all.last().transport == Transport::Usb {
        usb_only(all.drop_last()).push(all.last())
    } else {
        usb_only(all.drop_last())
    }
}

/// Whether `device` is attached over USB under the identifier `id`.
pub open spec fn answers_to(device: DeviceHandle, id: Seq<char>) -> bool {
    device.transport == Transport::Usb && device.udid@ == id
}

/// Whether `at` is the place of the first device of `all` that answers to `id`.
pub open spec fn first_answering(all: Seq<DeviceHandle>, id: Seq<char>, at: int) -> bool {
    &&& 0 <= at < all.len()
    &&& answers_to(all[at], id)
    &&& forall|j: int| 0 <= j < at ==> !answers_to(#[trigger] all[j], id)
}

/// Whether no device of `all` answers to `id`.
pub open spec fn none_answering(all: Seq<DeviceHandle>, id: Seq<char>) -> bool {
    forall|j: int| 0 <= j < all.len() ==> !answers_to(#[trigger] all[j], id)
}

/// Keeps the devices that are attached over USB; the workflow bootstraps
/// trust over USB only, so the others are left out.
pub fn usb_devices(all: &Vec<DeviceHandle>) -> (out: Vec<DeviceHandle>)
    ensures
        out@ == usb_only(all@),
{
    let mut out: Vec<DeviceHandle> = Vec::new();
    let mut i: usize = 0;
    while i < all.len()
        invariant
            i <= all.len(),
            out@ == usb_only(all@.subrange(0, i as int)),
        decreases all.len() - i,
    {
        proof {
            assert(all@.subrange(0, i + 1).drop_last() =~= all@.subrange(0, i as int));
        }
        if all[i].transport == Transport::Usb {
            out.push(all[i].duplicate());
        }
        i += 1;
    }
    proof {
        assert(all@.subrange(0, i as int) =~= all@);
    }
    out
}

/// The place in `all` of the first USB-attached device with the identifier
/// `id`, if there is one.
pub fn find_device(all: &Vec<DeviceHandle>, id: &str) -> (out: Option<usize>)
    ensures
        match out {
            Some(at) => first_answering(all@, id@, at as int),
            None => none_answering(all@, id@),
        },
{
    let wanted = String::from_str(id);
    let mut i: usize = 0;
    while i < all.len()
        invariant
            i <= all.len(),
            wanted@ == id@,
            forall|j: int| 0 <= j < i ==> !answers_to(#[trigger] all@[j], id@),
        decreases all.len() - i,
    {
        if all[i].transport == Transport::Usb && all[i].udid == wanted {
            return Some(i);
        }
        i += 1;
    }
    None
}

/// The first USB-attached device with the identifier `id`. A device that is
/// attached by other means is never returned, whatever its identifier.
pub fn resolve(all: &Vec<DeviceHandle>, id: &str) -> (out: Result<DeviceHandle, ErrorKind>)
    ensures
        match out {
            Ok(device) => exists|at: int| first_answering(all@, id@, at) && device == all@[at],
            Err(kind) => kind == ErrorKind::DeviceNotFound && none_answering(all@, id@),
        },
{
    match find_device(all, id) {
        Some(at) => Ok(all[at].duplicate()),
        None => Err(ErrorKind::DeviceNotFound),
    }
}

/// At most one place is the first that answers, so what `resolve` returns is
/// fixed by the list and the identifier.
pub proof fn first_answering_is_unique(all: Seq<DeviceHandle>, id: Seq<char>, a: int, b: int)
    requires
        first_answering(all, id, a),
        first_answering(all, id, b),
    ensures
        a == b,
{
    if a < b {
        assert(!answers_to(all[a], id));
    } else if b < a {
        assert(!answers_to(all[b], id));
    }
}

/// Every device that `usb_devices` keeps is attached over USB and stood in
/// the list it was given.
pub proof fn usb_only_keeps_usb(all: Seq<DeviceHandle>)
    ensures
        forall|k: int| 0 <= k < usb_only(all).len() ==> {
            &&& (#[trigger] usb_only(all)[k]).transport == Transport::Usb
            &&& all.contains(usb_only(all)[k])
        },
        usb_only(all).len() <= all.len(),
    decreases all.len(),
{
    if all.len() > 0 {
        let shorter = all.drop_last();
        usb_only_keeps_usb(shorter);
        assert forall|k: int| 0 <= k < usb_only(all).len() implies {
            &&& (#[trigger] usb_only(all)[k]).transport == Transport::Usb
            &&& all.contains(usb_only(all)[k])
        } by {
            if k < usb_only(shorter).len() {
                let d = usb_only(shorter)[k];
                assert(shorter.contains(d));
                let w = choose|w: int| 0 <= w < shorter.len() && shorter[w] == d;
                assert(all[w] == d);
            } else {
                assert(all[all.len() - 1] == all.last());
            }
        }
    }
}

/// Every device of the list that is attached over USB is kept.
pub proof fn usb_only_keeps_all_usb(all: Seq<DeviceHandle>, at: int)
    requires
        0 <= at < all.len(),
        all[at].transport == Transport::Usb,
    ensures
        usb_only(all).contains(all[at]),
    decreases all.len(),
{
    let shorter = all.drop_last();
    if at == all.len() - 1 {
        assert(all.last() == all[at]);
        assert(usb_only(all)[usb_only(shorter).len() as int] == all[at]);
    } else {
        usb_only_keeps_all_usb(shorter, at);
        let w = choose|w: int| 0 <= w < usb_only(shorter).len() && usb_only(shorter)[w] == shorter[at];
        assert(usb_only(all)[w] == all[at]);
    }
}

} // verus!
