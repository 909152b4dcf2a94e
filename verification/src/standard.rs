//! Devices, device selectors and the context model.
//!
//! Enumeration of the platform's hardware is the driver's job; a `Context`
//! here carries the enumerated devices as plain values, so that resolving a
//! `DeviceSpecifier` against a context is ordinary verified logic.

use vstd::prelude::*;
use vstd::string::*;

use crate::error::{OclError, OclResult};
use crate::handles::PlatformId;

verus! {

/// A compute device: its driver handle and its type bitfield, both captured
/// at enumeration time.
#[derive(Clone, Copy, Debug, PartialEq, Eq, Structural)]
pub struct Device {
    pub raw: usize,
    pub device_type: u64,
}

impl Device {
    /// Wraps an enumerated device.
    pub fn new(raw: usize, device_type: u64) -> (d: Device)
        ensures
            d.raw == raw,
            d.device_type == device_type,
    {
        Device { raw, device_type }
    }
}

/// Selects a concrete set of devices within a platform: all of them, one,
/// an explicit list, positions in the enumeration order, or a type filter.
#[derive(Clone, Debug, PartialEq)]
pub enum DeviceSpecifier {
    All,
    Single(Device),
    List(Vec<Device>),
    Indices(Vec<usize>),
    TypeFlags(u64),
}

/// The mathematical shape of a [`DeviceSpecifier`].
pub ghost enum DeviceSpecifierView {
    All,
    Single(Device),
    List(Seq<Device>),
    Indices(Seq<usize>),
    TypeFlags(u64),
}

impl View for DeviceSpecifier {
    type V = DeviceSpecifierView;

    closed spec fn view(&self) -> DeviceSpecifierView {
        match self {
            DeviceSpecifier::All => DeviceSpecifierView::All,
            DeviceSpecifier::Single(d) => DeviceSpecifierView::Single(*d),
            DeviceSpecifier::List(ds) => DeviceSpecifierView::List(ds@),
            DeviceSpecifier::Indices(is) => DeviceSpecifierView::Indices(is@),
            DeviceSpecifier::TypeFlags(f) => DeviceSpecifierView::TypeFlags(*f),
        }
    }
}

impl DeepView for DeviceSpecifier {
    type V = DeviceSpecifierView;

    open spec fn deep_view(&self) -> DeviceSpecifierView {
        self.view()
    }
}

/// True of devices passing the type filter `flags`.
pub open spec fn type_matches(d: Device, flags: u64) -> bool {
    d.device_type & flags != 0
}

/// The device list a selector resolves to against the enumerated devices
/// `available`, or `None` when an index is out of range.
pub open spec fn spec_resolved(ds: DeviceSpecifierView, available: Seq<Device>) -> Option<
    Seq<Device>,
> {
    match ds {
        DeviceSpecifierView::All => Some(available),
        DeviceSpecifierView::Single(d) => Some(seq![d]),
        DeviceSpecifierView::List(list) => Some(list),
        DeviceSpecifierView::Indices(idxs) => if forall|k: int|
            0 <= k < idxs.len() ==> idxs[k] < available.len() {
            Some(Seq::new(idxs.len(), |k: int| available[idxs[k] as int]))
        } else {
            None
        },
        DeviceSpecifierView::TypeFlags(flags) => Some(
            available.filter(|d: Device| type_matches(d, flags)),
        ),
    }
}

impl DeviceSpecifier {
    /// Resolves this selector against the devices enumerated for a platform.
    /// An out-of-range index is a configuration error.
    pub fn to_device_list(&self, available: &Vec<Device>) -> (r: OclResult<Vec<Device>>)
        ensures
            match spec_resolved(self@, available@) {
                Some(list) => r matches Ok(v) && v@ == list,
                None => r matches Err(e) && e matches OclError::Configuration(m) && m@
                    == "DeviceSpecifier::to_device_list: Device index out of range."@,
            },
    {
        match self {
            DeviceSpecifier::All => Ok(available.clone()),
            DeviceSpecifier::Single(d) => {
                let mut v: Vec<Device> = Vec::new();
                v.push(*d);
                proof {
                    assert(v@ =~= seq![*d]);
                }
                Ok(v)
            },
            DeviceSpecifier::List(ds) => Ok(ds.clone()),
            DeviceSpecifier::Indices(idxs) => {
                let mut v: Vec<Device> = Vec::new();
                let count = idxs.len();
                let mut k: usize = 0;
                while k < count
                    invariant
                        self@ == DeviceSpecifierView::Indices(idxs@),
                        count == idxs@.len(),
                        k <= count,
                        forall|t: int| 0 <= t < k ==> idxs@[t] < available@.len(),
                        v@.len() == k,
                        forall|t: int| 0 <= t < k ==> v@[t] == available@[idxs@[t] as int],
                    decreases count - k,
                {
                    let idx = idxs[k];
                    if idx >= available.len() {
                        proof {
                            assert(!(forall|t: int|
                                0 <= t < idxs@.len() ==> idxs@[t] < available@.len())) by {
                                assert(0 <= k < idxs@.len() && !(idxs@[k as int]
                                    < available@.len()));
                            }
                        }
                        return Err(
                            OclError::Configuration(
                                String::from_str(
                                    "DeviceSpecifier::to_device_list: Device index out of range.",
                                ),
                            ),
                        );
                    }
                    v.push(available[idx]);
                    k = k + 1;
                }
                proof {
                    let resolved = spec_resolved(self@, available@);
                    assert(resolved matches Some(list) && v@ =~= list);
                }
                Ok(v)
            },
            DeviceSpecifier::TypeFlags(flags) => {
                let mut v: Vec<Device> = Vec::new();
                let count = available.len();
                let mut k: usize = 0;
                proof {
                    assert(available@.take(0).filter(|d: Device| type_matches(d, *flags)) =~= v@)
                        by {
                        reveal(Seq::filter);
                    }
                }
                while k < count
                    invariant
                        self@ == DeviceSpecifierView::TypeFlags(*flags),
                        count == available@.len(),
                        k <= count,
                        v@ =~= available@.take(k as int).filter(
                            |d: Device| type_matches(d, *flags),
                        ),
                    decreases count - k,
                {
                    let d = available[k];
                    proof {
                        reveal(Seq::filter);
                        assert(available@.take(k + 1 as int).drop_last() =~= available@.take(
                            k as int,
                        ));
                        assert(available@.take(k + 1 as int).last() == available@[k as int]);
                    }
                    if d.device_type & *flags != 0 {
                        v.push(d);
                    }
                    k = k + 1;
                }
                proof {
                    assert(available@.take(count as int) =~= available@);
                }
                Ok(v)
            },
        }
    }
}

/// The created context: its driver handle, its platform, and the devices
/// enumerated for that platform.
#[derive(Clone, Debug, PartialEq)]
pub struct Context {
    pub raw: usize,
    pub platform: PlatformId,
    pub devices: Vec<Device>,
}

impl Context {
    /// Wraps a created context together with its platform's device list.
    pub fn new(raw: usize, platform: PlatformId, devices: Vec<Device>) -> (c: Context)
        ensures
            c.raw == raw,
            c.platform == platform,
            c.devices == devices,
    {
        Context { raw, platform, devices }
    }

    /// The platform this context was created on.
    pub fn platform(&self) -> (p: PlatformId)
        ensures
            p == self.platform,
    {
        self.platform
    }
}

} // verus!
