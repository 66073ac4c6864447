//! The capture device on Windows, an audio endpoint that is boosted through a virtual cable.

use vstd::prelude::*;

use crate::audio::boost::{BoostEngine, Cable};
use crate::audio::{is_headset, name_matches, same_error, AudioError};

verus! {

/// The name was read and does not belong to the headset.
pub open spec fn is_other_device(name: Result<String, AudioError>) -> bool {
    name matches Ok(n) && !name_matches(n@)
}

/// The position of the first capture device that belongs to the headset, by its name. `names` holds
/// the name of each device or the error of reading it; an error that comes before the headset ends
/// the search.
pub fn find_corsair_device(names: &Vec<Result<String, AudioError>>) -> (r: Result<
    usize,
    AudioError,
>)
    ensures
        match r {
            Ok(i) => {
                &&& i < names.len()
                &&& names@[i as int] matches Ok(n)
                &&& name_matches(n@)
                &&& forall|j: int| 0 <= j < i ==> is_other_device(#[trigger] names@[j])
            },
            Err(e) => {
                ||| e is DeviceNotFound && forall|j: int|
                    0 <= j < names.len() ==> is_other_device(#[trigger] names@[j])
                ||| exists|i: int|
                    #![trigger names@[i]]
                    {
                        &&& 0 <= i < names.len()
                        &&& names@[i] matches Err(cause)
                        &&& e@ == cause@
                        &&& forall|j: int| 0 <= j < i ==> is_other_device(#[trigger] names@[j])
                    }
            },
        },
{
    for i in 0..names.len()
        invariant
            forall|j: int| 0 <= j < i ==> is_other_device(#[trigger] names@[j]),
    {
        match &names[i] {
            Ok(name) => if is_headset(name.as_str()) {
                return Ok(i);
            },
            Err(e) => {
                assert(names@[i as int] is Err);
                return Err(same_error(e));
            },
        }
    }
    Err(AudioError::DeviceNotFound)
}

#[derive(Debug)]
pub struct WindowsAudioController {
    /// The endpoint of the headset has been found.
    pub endpoint_found: bool,
    pub engine: BoostEngine,
}

impl WindowsAudioController {
    pub fn new() -> (r: Self)
        ensures
            !r.endpoint_found,
            !r.engine.running,
            r.engine.current_db == 0,
            r.engine.capture_device_id is None,
            r.engine.render_device_id is None,
            r.engine.render_device_name is None,
    {
        WindowsAudioController { endpoint_found: false, engine: BoostEngine::new() }
    }

    /// Whether there is an endpoint whose volume can be used.
    pub fn volume(&self) -> (r: Result<(), AudioError>)
        ensures
            if self.endpoint_found {
                r is Ok
            } else {
                r matches Err(e) && e is DeviceNotFound
            },
    {
        if self.endpoint_found {
            Ok(())
        } else {
            Err(AudioError::DeviceNotFound)
        }
    }

    /// Takes note of the search for the headset. `device` holds the id of the endpoint, as far as
    /// it could be had, or the error of the search; `cable` is what the search for a virtual cable
    /// gave, which counts whether or not the headset is there. That there is no such device is no
    /// error.
    pub fn find_device(
        &mut self,
        device: Result<Result<String, AudioError>, AudioError>,
        cable: Result<Option<Cable>, AudioError>,
    ) -> (r: Result<bool, AudioError>)
        ensures
            match cable {
                Ok(Some(cable)) => {
                    &&& final(self).engine.render_device_id == Some(cable.id)
                    &&& final(self).engine.render_device_name == Some(cable.name)
                },
                _ => {
                    &&& final(self).engine.render_device_id is None
                    &&& final(self).engine.render_device_name is None
                },
            },
            final(self).engine.running == old(self).engine.running,
            final(self).engine.current_db == old(self).engine.current_db,
            final(self).engine.capture_device_id == match device {
                Ok(Ok(id)) => Some(id),
                _ => old(self).engine.capture_device_id,
            },
            final(self).endpoint_found == (device is Ok || old(self).endpoint_found),
            match device {
                Ok(_) => r == Ok::<_, AudioError>(true),
                Err(e) => if e is DeviceNotFound {
                    r == Ok::<_, AudioError>(false)
                } else {
                    r == Err::<bool, _>(e)
                },
            },
    {
        self.engine.detect_virtual_cable(cable);
        match device {
            Ok(id) => {
                self.endpoint_found = true;
                self.engine.set_capture_device(id);
                Ok(true)
            },
            Err(AudioError::DeviceNotFound) => Ok(false),
            Err(e) => Err(e),
        }
    }

    /// Whether boost is available: it takes a virtual audio cable.
    pub fn boost_available(&self) -> (r: bool)
        ensures
            r == self.engine.render_device_id is Some,
    {
        self.engine.virtual_cable_available()
    }
}

/// The first device of the headset is found, wherever it stands, if the names before it could be
/// read.
pub proof fn headsets_are_found(
    names: &Vec<Result<String, AudioError>>,
    found: Result<usize, AudioError>,
    k: int,
)
    requires
        call_ensures(find_corsair_device, (names,), found),
        0 <= k < names@.len(),
        names@[k] matches Ok(n) && name_matches(n@),
        forall|j: int| 0 <= j < k ==> (#[trigger] names@[j]) is Ok,
    ensures
        found matches Ok(i) && i <= k,
{
    assert(!is_other_device(names@[k]));
}

/// The headset counts as found exactly where its endpoint is there, a missing one is no error, and
/// boosting is available after the search exactly if a cable was found in it.
pub proof fn searches_are_noted(
    controller: &mut WindowsAudioController,
    device: Result<Result<String, AudioError>, AudioError>,
    cable: Result<Option<Cable>, AudioError>,
    found: Result<bool, AudioError>,
)
    requires
        call_ensures(WindowsAudioController::find_device, (controller, device, cable), found),
    ensures
        found matches Ok(there) ==> there == device is Ok,
        found is Err <==> (device matches Err(e) && !(e is DeviceNotFound)),
        final(controller).engine.render_device_id is Some <==> (cable matches Ok(Some(_))),
        device is Ok ==> final(controller).endpoint_found,
        final(controller).engine.running == old(controller).engine.running,
        final(controller).engine.current_db == old(controller).engine.current_db,
{
}

} // verus!
