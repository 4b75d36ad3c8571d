//! Selection of the input and output endpoint. The host's device handle is
//! a type parameter: the manager only reads the names.
use vstd::prelude::*;
use crate::text::same_text;

verus! {

/// A device handle with the name the host reports for it.
pub struct NamedDevice<D> {
    pub name: String,
    pub handle: D,
}

/// Why a device request was refused.
#[derive(Clone, Debug, PartialEq, Eq)]
pub enum DeviceError {
    /// The host has no default input device.
    NoDefaultInput,
    /// The host has no default output device.
    NoDefaultOutput,
    /// The host could not enumerate its devices; its message.
    Enumeration(String),
    /// No available device has the requested name.
    NotFound,
}

/// Position of the first device named `name` at or after `i`.
pub open spec fn device_position_from<D>(devs: Seq<NamedDevice<D>>, name: Seq<char>, i: int) -> Option<int>
    decreases devs.len() - i,
{
    if 0 <= i < devs.len() {
        if devs[i].name@ == name {
            Some(i)
        } else {
            device_position_from(devs, name, i + 1)
        }
    } else {
        None
    }
}

/// Position of the first device named exactly `name`.
pub open spec fn device_position<D>(devs: Seq<NamedDevice<D>>, name: Seq<char>) -> Option<int> {
    device_position_from(devs, name, 0)
}

/// The names that could be read, in enumeration order.
pub open spec fn readable_names(names: Seq<Option<String>>) -> Seq<Seq<char>>
    decreases names.len(),
{
    if names.len() == 0 {
        Seq::empty()
    } else {
        let rest = readable_names(names.drop_last());
        match names.last() {
            Some(n) => rest.push(n@),
            None => rest,
        }
    }
}

proof fn lemma_device_position_bounds<D>(devs: Seq<NamedDevice<D>>, name: Seq<char>, i: int)
    ensures
        device_position_from(devs, name, i) matches Some(k) ==> i <= k < devs.len() && devs[k].name@ == name,
    decreases devs.len() - i,
{
    if 0 <= i < devs.len() && devs[i].name@ != name {
        lemma_device_position_bounds(devs, name, i + 1);
    }
}

/// Position of the first device named exactly `name`.
fn find_device<D>(devs: &Vec<NamedDevice<D>>, name: &str) -> (r: Option<usize>)
    ensures
        r matches Some(k) ==> device_position(devs@, name@) == Some(k as int),
        r is None ==> device_position(devs@, name@) is None,
{
    proof {
        lemma_device_position_bounds(devs@, name@, 0);
    }
    let mut i: usize = 0;
    while i < devs.len()
        invariant
            i <= devs@.len(),
            device_position(devs@, name@) == device_position_from(devs@, name@, i as int),
        decreases devs@.len() - i,
    {
        if same_text(devs[i].name.as_str(), name) {
            return Some(i);
        }
        i += 1;
    }
    None
}

/// The device named `new_device` taken out of an enumeration, or why there
/// is none.
fn pick_device<D>(available: Result<Vec<NamedDevice<D>>, String>, new_device: &str) -> (r: Result<NamedDevice<D>, DeviceError>)
    ensures
        match available {
            Err(msg) => r is Err && r->Err_0 is Enumeration && r->Err_0->Enumeration_0 == msg,
            Ok(devs) => match device_position(devs@, new_device@) {
                Some(i) => r is Ok && r->Ok_0 == devs@[i],
                None => r is Err && r->Err_0 is NotFound,
            },
        },
{
    match available {
        Err(msg) => Err(DeviceError::Enumeration(msg)),
        Ok(devs) => {
            let mut devs = devs;
            match find_device(&devs, new_device) {
                Some(i) => {
                    proof {
                        lemma_device_position_bounds(devs@, new_device@, 0);
                    }
                    Ok(devs.remove(i))
                },
                None => Err(DeviceError::NotFound),
            }
        },
    }
}

/// The names of an enumeration that could be read; when the enumeration
/// itself failed, an empty list and the error.
pub fn device_listing(enumeration: Result<Vec<Option<String>>, String>) -> (r: (Vec<String>, Option<DeviceError>))
    ensures
        match enumeration {
            Err(msg) => r.0@.len() == 0 && r.1 is Some && r.1->0 is Enumeration && r.1->0->Enumeration_0 == msg,
            Ok(names) => r.0@.map_values(|s: String| s@) == readable_names(names@) && r.1 is None,
        },
{
    match enumeration {
        Err(msg) => (Vec::new(), Some(DeviceError::Enumeration(msg))),
        Ok(names) => {
            let mut out: Vec<String> = Vec::new();
            let mut i: usize = 0;
            while i < names.len()
                invariant
                    i <= names@.len(),
                    out@.map_values(|s: String| s@) == readable_names(names@.take(i as int)),
                decreases names@.len() - i,
            {
                proof {
                    assert(names@.take(i as int + 1).drop_last() =~= names@.take(i as int));
                }
                match &names[i] {
                    Some(n) => {
                        out.push(n.clone());
                    },
                    None => {},
                }
                i += 1;
                proof {
                    assert(out@.map_values(|s: String| s@) =~= readable_names(names@.take(i as int)));
                }
            }
            assert(names@.take(names@.len() as int) =~= names@);
            (out, None)
        },
    }
}

/// The selected input and output endpoints.
pub struct AudioDeviceManager<D> {
    input_device: NamedDevice<D>,
    output_device: NamedDevice<D>,
}

impl<D> AudioDeviceManager<D> {
    pub closed spec fn spec_input(&self) -> NamedDevice<D> {
        self.input_device
    }

    pub closed spec fn spec_output(&self) -> NamedDevice<D> {
        self.output_device
    }

    /// A manager on the host's default devices; both must exist.
    pub fn new(default_input: Option<NamedDevice<D>>, default_output: Option<NamedDevice<D>>) -> (r: Result<Self, DeviceError>)
        ensures
            match (default_input, default_output) {
                (Some(i), Some(o)) => r is Ok && r->Ok_0.spec_input() == i && r->Ok_0.spec_output() == o,
                (None, _) => r is Err && r->Err_0 is NoDefaultInput,
                (Some(_), None) => r is Err && r->Err_0 is NoDefaultOutput,
            },
    {
        match default_input {
            None => Err(DeviceError::NoDefaultInput),
            Some(i) => match default_output {
                None => Err(DeviceError::NoDefaultOutput),
                Some(o) => Ok(AudioDeviceManager { input_device: i, output_device: o }),
            },
        }
    }

    /// The selected input device.
    pub fn input_device(&self) -> (r: &NamedDevice<D>)
        ensures
            *r == self.spec_input(),
    {
        &self.input_device
    }

    /// The selected output device.
    pub fn output_device(&self) -> (r: &NamedDevice<D>)
        ensures
            *r == self.spec_output(),
    {
        &self.output_device
    }

    /// Selects the first available input device named exactly `new_device`.
    /// On failure the previous selection stays.
    pub fn set_input_device(&mut self, available: Result<Vec<NamedDevice<D>>, String>, new_device: &str) -> (r: Result<(), DeviceError>)
        ensures
            final(self).spec_output() == old(self).spec_output(),
            match available {
                Err(msg) => r is Err && r->Err_0 is Enumeration && r->Err_0->Enumeration_0 == msg
                    && final(self).spec_input() == old(self).spec_input(),
                Ok(devs) => match device_position(devs@, new_device@) {
                    Some(i) => r is Ok && final(self).spec_input() == devs@[i],
                    None => r is Err && r->Err_0 is NotFound && final(self).spec_input() == old(self).spec_input(),
                },
            },
    {
        match pick_device(available, new_device) {
            Ok(d) => {
                self.input_device = d;
                Ok(())
            },
            Err(e) => Err(e),
        }
    }

    /// Selects the first available output device named exactly
    /// `new_device`. On failure the previous selection stays.
    pub fn set_output_device(&mut self, available: Result<Vec<NamedDevice<D>>, String>, new_device: &str) -> (r: Result<(), DeviceError>)
        ensures
            final(self).spec_input() == old(self).spec_input(),
            match available {
                Err(msg) => r is Err && r->Err_0 is Enumeration && r->Err_0->Enumeration_0 == msg
                    && final(self).spec_output() == old(self).spec_output(),
                Ok(devs) => match device_position(devs@, new_device@) {
                    Some(i) => r is Ok && final(self).spec_output() == devs@[i],
                    None => r is Err && r->Err_0 is NotFound && final(self).spec_output() == old(self).spec_output(),
                },
            },
    {
        match pick_device(available, new_device) {
            Ok(d) => {
                self.output_device = d;
                Ok(())
            },
            Err(e) => Err(e),
        }
    }
}

} // verus!
