//! Choosing the output device.
//!
//! The policy is exact, case-sensitive equality of names. A configured name
//! `Speakers` selects a device called `Speakers` and never one called
//! `USB Speakers`; matching by substring is not offered.

use vstd::prelude::*;
use crate::outcome::DeviceError;

verus! {

/// A device picked from one enumeration: its position in that enumeration
/// and its name. The position is only meaningful for the enumeration it was
/// resolved against.
#[derive(Clone, Debug, PartialEq, Eq)]
pub struct OutputDevice {
    pub index: usize,
    pub name: String,
}

/// An [`OutputDevice`] as plain values.
pub struct OutputDeviceView {
    pub index: int,
    pub name: Seq<char>,
}

impl View for OutputDevice {
    type V = OutputDeviceView;

    open spec fn view(&self) -> OutputDeviceView {
        OutputDeviceView { index: self.index as int, name: self.name@ }
    }
}

/// Entry `i` exists, its name could be read, and the name equals `target`.
pub open spec fn named_at(names: Seq<Option<Seq<char>>>, target: Seq<char>, i: int) -> bool {
    0 <= i < names.len() && names[i] == Some(target)
}

/// Entry `i` is the earliest entry named `target`.
pub open spec fn first_named_at(names: Seq<Option<Seq<char>>>, target: Seq<char>, i: int) -> bool {
    named_at(names, target, i) && forall|j: int| 0 <= j < i ==> !named_at(names, target, j)
}

/// The position of the earliest entry named `target`, if any entry is.
pub open spec fn first_named(names: Seq<Option<Seq<char>>>, target: Seq<char>) -> Option<int> {
    if exists|i: int| first_named_at(names, target, i) {
        Some(choose|i: int| first_named_at(names, target, i))
    } else {
        None
    }
}

/// What device lookup yields for an enumeration: `None` stands for a host
/// that could not list its devices, an inner `None` for a device whose name
/// could not be read.
pub open spec fn resolution(
    target: Seq<char>,
    enumeration: Option<Seq<Option<Seq<char>>>>,
) -> Result<OutputDeviceView, DeviceError> {
    match enumeration {
        None => Err(DeviceError::NoOutputDevicesEnumerated),
        Some(names) => match first_named(names, target) {
            Some(i) => Ok(OutputDeviceView { index: i, name: target }),
            None => Err(DeviceError::DeviceNotFound),
        },
    }
}

/// There is at most one earliest entry, so naming one fixes [`first_named`].
pub proof fn lemma_first_named_unique(names: Seq<Option<Seq<char>>>, target: Seq<char>, i: int)
    requires
        first_named_at(names, target, i),
    ensures
        first_named(names, target) == Some(i),
{
    let k = choose|k: int| first_named_at(names, target, k);
    assert(first_named_at(names, target, k));
    if k < i {
        assert(!named_at(names, target, k));
    } else if i < k {
        assert(!named_at(names, target, i));
    }
}

/// Where no entry is named `target`, [`first_named`] finds nothing.
pub proof fn lemma_first_named_none(names: Seq<Option<Seq<char>>>, target: Seq<char>)
    requires
        forall|j: int| 0 <= j < names.len() ==> !named_at(names, target, j),
    ensures
        first_named(names, target) is None,
{
    if exists|i: int| first_named_at(names, target, i) {
        let k = choose|k: int| first_named_at(names, target, k);
        assert(named_at(names, target, k));
    }
}

/// Finds the earliest entry whose name equals `target`. Entries without a
/// readable name are passed over.
pub fn find_by_name(target: &String, names: &Vec<Option<String>>) -> (found: Option<usize>)
    ensures
        match found {
            Some(i) => first_named(names.deep_view(), target@) == Some(i as int),
            None => first_named(names.deep_view(), target@) is None,
        },
        found matches Some(i) ==> i < names.len(),
{
    let mut i: usize = 0;
    while i < names.len()
        invariant
            i <= names.len(),
            forall|j: int| 0 <= j < i ==> !named_at(names.deep_view(), target@, j),
        decreases names.len() - i,
    {
        let hit = match &names[i] {
            Some(name) => *name == *target,
            None => false,
        };
        assert(hit == named_at(names.deep_view(), target@, i as int));
        if hit {
            proof {
                lemma_first_named_unique(names.deep_view(), target@, i as int);
            }
            return Some(i);
        }
        i = i + 1;
    }
    proof {
        lemma_first_named_none(names.deep_view(), target@);
    }
    None
}

/// Picks the device named `target` out of one enumeration of the host's
/// output devices.
///
/// `enumeration` is `None` where the host could not list its devices; an
/// entry is `None` where a device's name could not be read. The result is
/// the earliest device whose name equals `target`, `DeviceNotFound` where the
/// list holds none, and `NoOutputDevicesEnumerated` where there is no list.
pub fn resolve(target: &String, enumeration: &Option<Vec<Option<String>>>) -> (r: Result<
    OutputDevice,
    DeviceError,
>)
    ensures
        match r {
            Ok(device) => resolution(target@, enumeration.deep_view()) == Ok::<
                OutputDeviceView,
                DeviceError,
            >(device@),
            Err(error) => resolution(target@, enumeration.deep_view()) == Err::<
                OutputDeviceView,
                DeviceError,
            >(error),
        },
{
    match enumeration {
        None => Err(DeviceError::NoOutputDevicesEnumerated),
        Some(names) => match find_by_name(target, names) {
            Some(index) => Ok(OutputDevice { index, name: target.clone() }),
            None => Err(DeviceError::DeviceNotFound),
        },
    }
}

/// A listed device with the wanted name is always found: lookup succeeds
/// exactly when some entry of the enumeration carries the name, and then it
/// returns the earliest such entry under that name.
pub proof fn lemma_resolution_finds_present(
    target: Seq<char>,
    names: Seq<Option<Seq<char>>>,
)
    ensures
        (exists|i: int| named_at(names, target, i)) <==> resolution(target, Some(names)) is Ok,
        !(exists|i: int| named_at(names, target, i)) <==> resolution(target, Some(names)) == Err::<
            OutputDeviceView,
            DeviceError,
        >(DeviceError::DeviceNotFound),
        resolution(target, Some(names)) matches Ok(device) ==> first_named_at(
            names,
            target,
            device.index,
        ) && device.name == target,
{
    if exists|i: int| named_at(names, target, i) {
        let i = choose|i: int| named_at(names, target, i);
        lemma_least_named(names, target, i);
    } else {
        if exists|i: int| first_named_at(names, target, i) {
            let k = choose|k: int| first_named_at(names, target, k);
            assert(named_at(names, target, k));
        }
    }
}

/// Below any entry named `target` there is an earliest one.
proof fn lemma_least_named(names: Seq<Option<Seq<char>>>, target: Seq<char>, i: int)
    requires
        named_at(names, target, i),
    ensures
        exists|k: int| first_named_at(names, target, k),
    decreases i,
{
    if exists|j: int| 0 <= j < i && named_at(names, target, j) {
        let j = choose|j: int| 0 <= j < i && named_at(names, target, j);
        lemma_least_named(names, target, j);
    } else {
        assert(first_named_at(names, target, i));
    }
}

} // verus!
