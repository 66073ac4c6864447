//! The boost engine that passes the microphone on through a virtual audio cable.

use vstd::prelude::*;

use crate::audio::{is_virtual_cable, name_is_cable, same_error, AudioError, AudioErrorView};

verus! {

/// What to do about the worker that amplifies the microphone. The gain is updated in any case.
#[derive(Debug)]
pub enum BoostAction {
    /// The worker is running and picks up the new gain.
    UpdateGain,
    /// Start a worker between these devices.
    Start { capture_id: String, render_id: String },
}

/// The id and the name of a virtual audio cable.
#[derive(Debug)]
pub struct Cable {
    pub id: String,
    pub name: String,
}

/// What the engine knows.
#[derive(Debug)]
pub struct BoostEngine {
    /// A worker was started and has not ended since.
    pub running: bool,
    pub current_db: u8,
    pub capture_device_id: Option<String>,
    pub render_device_id: Option<String>,
    pub render_device_name: Option<String>,
}

/// The message for a boost without a virtual audio cable.
pub open spec fn no_cable_text() -> Seq<char> {
    "No virtual audio cable detected. Install VB-CABLE (https://vb-audio.com/Cable/)"@
}

impl BoostEngine {
    /// A boost would have to start a worker and can.
    pub open spec fn starts(self) -> bool {
        !self.running && self.render_device_id is Some && self.capture_device_id is Some
    }

    /// The engine after a boost to `db`.
    pub open spec fn boosted(self, db: u8) -> BoostEngine {
        BoostEngine { current_db: db, running: self.running || self.starts(), ..self }
    }

    /// The engine without a worker.
    pub open spec fn stopped(self) -> BoostEngine {
        BoostEngine { running: false, ..self }
    }

    pub fn new() -> (r: Self)
        ensures
            !r.running,
            r.current_db == 0,
            r.capture_device_id is None,
            r.render_device_id is None,
            r.render_device_name is None,
    {
        BoostEngine {
            running: false,
            current_db: 0,
            capture_device_id: None,
            render_device_id: None,
            render_device_name: None,
        }
    }

    /// Takes note of the search for a virtual audio cable: the one found, none, or an error,
    /// which counts as none.
    pub fn detect_virtual_cable(&mut self, found: Result<Option<Cable>, AudioError>)
        ensures
            match found {
                Ok(Some(cable)) => {
                    &&& final(self).render_device_id == Some(cable.id)
                    &&& final(self).render_device_name == Some(cable.name)
                },
                _ => final(self).render_device_id is None && final(self).render_device_name is None,
            },
            final(self).running == old(self).running,
            final(self).current_db == old(self).current_db,
            final(self).capture_device_id == old(self).capture_device_id,
    {
        self.render_device_id = None;
        self.render_device_name = None;
        match found {
            Ok(Some(cable)) => {
                self.render_device_id = Some(cable.id);
                self.render_device_name = Some(cable.name);
            },
            _ => {},
        }
    }

    /// Takes note of the id of the capture device. An error leaves the one known before.
    pub fn set_capture_device(&mut self, id: Result<String, AudioError>)
        ensures
            final(self).capture_device_id == match id {
                Ok(id) => Some(id),
                Err(_) => old(self).capture_device_id,
            },
            final(self).running == old(self).running,
            final(self).current_db == old(self).current_db,
            final(self).render_device_id == old(self).render_device_id,
            final(self).render_device_name == old(self).render_device_name,
    {
        match id {
            Ok(id) => {
                self.capture_device_id = Some(id);
            },
            Err(_) => {},
        }
    }

    pub fn virtual_cable_available(&self) -> (r: bool)
        ensures
            r == self.render_device_id is Some,
    {
        self.render_device_id.is_some()
    }

    /// Sets the boost level. A running worker only needs the new gain; otherwise one is to be
    /// started, which takes a virtual audio cable and a capture device. The level is kept even
    /// when that fails.
    pub fn set_boost_db(&mut self, db: u8) -> (r: Result<BoostAction, AudioError>)
        ensures
            *final(self) == old(self).boosted(db),
            if old(self).running {
                r matches Ok(action) && action is UpdateGain
            } else {
                match (old(self).render_device_id, old(self).capture_device_id) {
                    (None, _) => r matches Err(e) && e@ == AudioErrorView::ApiError(
                        no_cable_text(),
                    ),
                    (Some(_), None) => r matches Err(e) && e is DeviceNotFound,
                    (Some(render), Some(capture)) => r == Ok::<_, AudioError>(
                        BoostAction::Start { capture_id: capture, render_id: render },
                    ),
                }
            },
    {
        self.current_db = db;
        if self.running {
            return Ok(BoostAction::UpdateGain);
        }
        let render_id = match &self.render_device_id {
            Some(id) => id.clone(),
            None => {
                return Err(
                    AudioError::ApiError(
                        "No virtual audio cable detected. Install VB-CABLE (https://vb-audio.com/Cable/)".to_owned(),
                    ),
                );
            },
        };
        let capture_id = match &self.capture_device_id {
            Some(id) => id.clone(),
            None => return Err(AudioError::DeviceNotFound),
        };
        self.running = true;
        Ok(BoostAction::Start { capture_id, render_id })
    }

    /// Takes note that the worker has ended by itself, so that the next boost starts another.
    pub fn worker_ended(&mut self)
        ensures
            *final(self) == old(self).stopped(),
    {
        self.running = false;
    }

    /// Whether there is a worker to be stopped (on disconnect and on exit). There is none
    /// afterwards; the level stays.
    pub fn stop(&mut self) -> (r: bool)
        ensures
            r == old(self).running,
            *final(self) == old(self).stopped(),
    {
        let was_running = self.running;
        self.running = false;
        was_running
    }

    pub fn get_boost_db(&self) -> (r: u8)
        ensures
            r == self.current_db,
    {
        self.current_db
    }
}

/// While a worker runs, no boost starts another: there is never more than one.
pub proof fn one_worker_at_a_time(engine: BoostEngine, first: u8, second: u8)
    requires
        engine.running || engine.starts(),
    ensures
        engine.boosted(first).running,
        !engine.boosted(first).starts(),
        engine.boosted(first).boosted(second) == (BoostEngine {
            current_db: second,
            ..engine.boosted(first)
        }),
{
}

/// Stopping keeps the boost level and the devices, so that the next boost starts a worker again.
pub proof fn stopping_keeps_the_level(engine: BoostEngine, db: u8)
    requires
        engine.starts(),
    ensures
        engine.boosted(db).stopped().current_db == db,
        engine.boosted(db).stopped().starts(),
{
}

/// The name was read and does not belong to a virtual audio cable.
pub open spec fn is_no_cable(name: Result<String, AudioError>) -> bool {
    name matches Ok(n) && !name_is_cable(n@)
}

/// The position of the first render device that is a virtual audio cable, by its name, if there is
/// one. `names` holds the name of each device or the error of reading it; an error that comes before
/// the cable ends the search.
pub fn find_virtual_cable_device(names: &Vec<Result<String, AudioError>>) -> (r: Result<
    Option<usize>,
    AudioError,
>)
    ensures
        match r {
            Ok(Some(i)) => {
                &&& i < names.len()
                &&& names@[i as int] matches Ok(n)
                &&& name_is_cable(n@)
                &&& forall|j: int| 0 <= j < i ==> is_no_cable(#[trigger] names@[j])
            },
            Ok(None) => forall|j: int| 0 <= j < names.len() ==> is_no_cable(#[trigger] names@[j]),
            Err(e) => exists|i: int|
                #![trigger names@[i]]
                {
                    &&& 0 <= i < names.len()
                    &&& names@[i] matches Err(cause)
                    &&& e@ == cause@
                    &&& forall|j: int| 0 <= j < i ==> is_no_cable(#[trigger] names@[j])
                },
        },
{
    for i in 0..names.len()
        invariant
            forall|j: int| 0 <= j < i ==> is_no_cable(#[trigger] names@[j]),
    {
        match &names[i] {
            Ok(name) => if is_virtual_cable(name.as_str()) {
                return Ok(Some(i));
            },
            Err(e) => {
                assert(names@[i as int] is Err);
                return Err(same_error(e));
            },
        }
    }
    Ok(None)
}

/// Setting a boost notes the level and, where no worker runs and both devices are known, starts one;
/// the devices stay as they are. Stopping ends the worker and leaves everything else.
pub proof fn boosting_keeps_the_devices(engine: BoostEngine, db: u8)
    ensures
        ({
            let boosted = engine.boosted(db);
            let stopped = engine.stopped();
            &&& boosted.current_db == db
            &&& boosted.capture_device_id == engine.capture_device_id
            &&& boosted.render_device_id == engine.render_device_id
            &&& boosted.render_device_name == engine.render_device_name
            &&& boosted.running <==> engine.running || (engine.capture_device_id is Some
                && engine.render_device_id is Some)
            &&& !stopped.running
            &&& stopped.current_db == engine.current_db
            &&& stopped.capture_device_id == engine.capture_device_id
            &&& stopped.render_device_id == engine.render_device_id
            &&& stopped.render_device_name == engine.render_device_name
        }),
{
}

/// The first cable is found, wherever it stands, if the names before it could be read.
pub proof fn cables_are_found(
    names: &Vec<Result<String, AudioError>>,
    found: Result<Option<usize>, AudioError>,
    k: int,
)
    requires
        call_ensures(find_virtual_cable_device, (names,), found),
        0 <= k < names@.len(),
        names@[k] matches Ok(n) && name_is_cable(n@),
        forall|j: int| 0 <= j < k ==> (#[trigger] names@[j]) is Ok,
    ensures
        found matches Ok(Some(i)) && i <= k,
{
    assert(!is_no_cable(names@[k]));
}

/// A boost is passed to the worker that runs, or a worker is started between the two devices; without
/// them it fails, and the level is noted all the same.
pub proof fn boosts_reach_a_worker(
    engine: &mut BoostEngine,
    db: u8,
    result: Result<BoostAction, AudioError>,
)
    requires
        call_ensures(BoostEngine::set_boost_db, (engine, db), result),
    ensures
        final(engine).current_db == db,
        final(engine).running == result is Ok,
        result matches Ok(action) ==> (action is UpdateGain <==> old(engine).running),
        result matches Ok(BoostAction::Start { capture_id, render_id }) ==> old(
            engine,
        ).capture_device_id == Some(capture_id) && old(engine).render_device_id == Some(render_id),
        result is Err <==> !old(engine).running && (old(engine).capture_device_id is None || old(
            engine,
        ).render_device_id is None),
{
}

/// Looking for a cable notes the one that was found, or that there is none, and nothing else.
pub proof fn cables_are_noted(engine: &mut BoostEngine, found: Result<Option<Cable>, AudioError>)
    requires
        call_ensures(BoostEngine::detect_virtual_cable, (engine, found), ()),
    ensures
        final(engine).render_device_id is Some <==> (found matches Ok(Some(_))),
        found matches Ok(Some(cable)) ==> final(engine).render_device_id == Some(cable.id)
            && final(engine).render_device_name == Some(cable.name),
        final(engine).capture_device_id == old(engine).capture_device_id,
        final(engine).running == old(engine).running,
        final(engine).current_db == old(engine).current_db,
{
}

} // verus!
