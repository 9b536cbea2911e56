//! Choosing the adapter and collecting the devices that a discovery run finds.
use vstd::prelude::*;

use crate::address::DeviceAddress;

verus! {

/// The message of the error returned when the system has no Bluetooth adapter.
pub open spec fn no_adapter_message() -> Seq<char> {
    "No Adapters Found"@
}

/// No adapter could be opened: the object looked for is not present.
#[derive(Debug)]
pub struct LookupError {
    pub message: String,
}

/// Picks the adapter to use among the adapter names the system reports: the
/// first one. With no adapter at all, the lookup fails.
pub fn select_adapter_name(names: &Vec<String>) -> (chosen: Result<String, LookupError>)
    ensures
        chosen is Ok <==> names@.len() > 0,
        chosen matches Ok(name) ==> name@ == names@[0]@,
        chosen matches Err(e) ==> e.message@ == no_adapter_message(),
{
    if names.len() == 0 {
        Err(LookupError { message: String::from_str("No Adapters Found") })
    } else {
        Ok(names[0].clone())
    }
}

/// What the adapter reports while it discovers devices.
pub enum DiscoveryEvent {
    DeviceAdded(DeviceAddress),
    DeviceRemoved(DeviceAddress),
    PropertyChanged,
}

/// A device found by discovery, with the name it announced.
#[derive(Debug)]
pub struct DiscoveredDevice {
    pub name: String,
    pub address: DeviceAddress,
}

/// The device whose name is to be asked for after an event: only a newly
/// added device is.
pub fn name_lookup(event: &DiscoveryEvent) -> (target: Option<DeviceAddress>)
    ensures
        target == (match *event {
            DiscoveryEvent::DeviceAdded(a) => Some(a),
            _ => None,
        }),
{
    match event {
        DiscoveryEvent::DeviceAdded(a) => Some(*a),
        _ => None,
    }
}

/// The devices that a series of name lookups yields: in order, each address
/// whose lookup returned a name; an address without a name is left out.
pub open spec fn named_devices(lookups: Seq<(DeviceAddress, Option<String>)>) -> Seq<DiscoveredDevice>
    decreases lookups.len(),
{
    if lookups.len() == 0 {
        Seq::empty()
    } else {
        let prev = named_devices(lookups.drop_last());
        match lookups.last().1 {
            Some(name) => prev.push(DiscoveredDevice { name, address: lookups.last().0 }),
            None => prev,
        }
    }
}

/// Collects the devices of one discovery run, keeping the lookups it was given.
pub struct DeviceCollector {
    devices: Vec<DiscoveredDevice>,
    lookups: Ghost<Seq<(DeviceAddress, Option<String>)>>,
}

impl DeviceCollector {
    /// The lookups recorded so far, oldest first.
    pub closed spec fn lookups(self) -> Seq<(DeviceAddress, Option<String>)> {
        self.lookups@
    }

    /// The devices collected so far, oldest first.
    pub closed spec fn devices(self) -> Seq<DiscoveredDevice> {
        self.devices@
    }

    /// The collector holds exactly the devices named by its lookups.
    pub closed spec fn well_formed(self) -> bool {
        self.devices@ == named_devices(self.lookups@)
    }

    /// An empty collector.
    pub fn new() -> (c: DeviceCollector)
        ensures
            c.well_formed(),
            c.lookups() == Seq::<(DeviceAddress, Option<String>)>::empty(),
            c.devices() == Seq::<DiscoveredDevice>::empty(),
    {
        DeviceCollector { devices: Vec::new(), lookups: Ghost(Seq::empty()) }
    }

    /// Records the result of asking a device for its name: a device that
    /// has a name is appended, one without is skipped.
    pub fn record(&mut self, address: DeviceAddress, name: Option<String>)
        requires
            old(self).well_formed(),
        ensures
            final(self).well_formed(),
            final(self).lookups() == old(self).lookups().push((address, name)),
            final(self).devices() == named_devices(final(self).lookups()),
            final(self).devices() == (match name {
                Some(n) => old(self).devices().push(DiscoveredDevice { name: n, address }),
                None => old(self).devices(),
            }),
    {
        let ghost new_lookups = self.lookups@.push((address, name));
        assert(new_lookups.drop_last() =~= self.lookups@);
        match name {
            Some(n) => {
                self.devices.push(DiscoveredDevice { name: n, address });
            },
            None => {},
        }
        self.lookups = Ghost(new_lookups);
    }

    /// The collected devices, oldest first.
    pub fn into_devices(self) -> (devices: Vec<DiscoveredDevice>)
        requires
            self.well_formed(),
        ensures
            devices@ == self.devices(),
            devices@ == named_devices(self.lookups()),
    {
        self.devices
    }
}

/// Collecting is done lookup by lookup: the devices named by two runs of
/// lookups, one after the other, are those of the first run followed by those
/// of the second.
pub proof fn lemma_named_devices_concat(
    first: Seq<(DeviceAddress, Option<String>)>,
    second: Seq<(DeviceAddress, Option<String>)>,
)
    ensures
        named_devices(first + second) == named_devices(first) + named_devices(second),
    decreases second.len(),
{
    if second.len() == 0 {
        assert(first + second =~= first);
        assert(named_devices(first) + named_devices(second) =~= named_devices(first));
    } else {
        lemma_named_devices_concat(first, second.drop_last());
        assert((first + second).drop_last() =~= first + second.drop_last());
        assert((first + second).last() == second.last());
        match second.last().1 {
            Some(name) => {
                assert(named_devices(first) + named_devices(second) =~= (named_devices(first)
                    + named_devices(second.drop_last())).push(
                    DiscoveredDevice { name, address: second.last().0 },
                ));
            },
            None => {},
        }
    }
}

/// A discovered device is never dropped or reordered by later lookups: the
/// devices after any number of further lookups begin with those found before.
pub proof fn lemma_named_devices_prefix(
    before: Seq<(DeviceAddress, Option<String>)>,
    later: Seq<(DeviceAddress, Option<String>)>,
)
    ensures
        named_devices(before).len() <= named_devices(before + later).len(),
        named_devices(before + later).subrange(0, named_devices(before).len() as int)
            == named_devices(before),
{
    lemma_named_devices_concat(before, later);
    assert(named_devices(before + later).subrange(0, named_devices(before).len() as int)
        =~= named_devices(before));
}

/// How a discovery run ended: the event stream finished (possibly with an
/// error), or the time given to it ran out.
pub enum DiscoveryEnd<E> {
    Finished(Result<(), E>),
    TimedOut,
}

/// The result of a discovery run: running out of time is no failure, the
/// devices found until then are the result; only an error of the run itself
/// is handed on.
pub fn finish_discovery<E>(end: DiscoveryEnd<E>, devices: Vec<DiscoveredDevice>) -> (res: Result<
    Vec<DiscoveredDevice>,
    E,
>)
    ensures
        match end {
            DiscoveryEnd::Finished(Err(e)) => res == Err::<Vec<DiscoveredDevice>, E>(e),
            _ => res == Ok::<Vec<DiscoveredDevice>, E>(devices),
        },
{
    match end {
        DiscoveryEnd::Finished(Err(e)) => Err(e),
        _ => Ok(devices),
    }
}

/// One entry of the device list handed to a script: the name and the address
/// as a byte string.
#[derive(Debug)]
pub struct DeviceEntry {
    pub name: String,
    pub addr: Vec<u8>,
}

/// The list of discovered devices as scripts see it, in the same order.
pub fn list_entries(devices: &Vec<DiscoveredDevice>) -> (entries: Vec<DeviceEntry>)
    ensures
        entries@.len() == devices@.len(),
        forall|i: int|
            0 <= i < devices@.len() ==> (#[trigger] entries@[i]).name@ == devices@[i].name@
                && entries@[i].addr@ == devices@[i].address.bytes(),
{
    let mut entries: Vec<DeviceEntry> = Vec::new();
    let mut i: usize = 0;
    while i < devices.len()
        invariant
            i <= devices@.len(),
            entries@.len() == i,
            forall|j: int|
                0 <= j < i ==> (#[trigger] entries@[j]).name@ == devices@[j].name@
                    && entries@[j].addr@ == devices@[j].address.bytes(),
        decreases devices@.len() - i,
    {
        let device = &devices[i];
        let entry = DeviceEntry { name: device.name.clone(), addr: device.address.to_bytes() };
        entries.push(entry);
        i = i + 1;
    }
    entries
}

} // verus!
