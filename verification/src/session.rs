//! Session orchestration: the state machine that keeps the provider-watch
//! task and the weather-delivery task in step with device connections,
//! provider availability and user selection.
//!
//! The orchestrator owns no task and performs no I/O. The caller feeds each
//! event in through [`Model::update`] or [`Model::update_cmd`] and carries
//! out the returned [`Action`]s in order; the model's task flags say which
//! tasks the caller should be running afterwards. At most one task of each
//! kind is alive at any instant: every action list that starts a task while
//! one was running stops the old one first.

use vstd::prelude::*;
use crate::provider::ProviderHandle;

verus! {

/// An event the orchestrator reacts to.
#[derive(Debug)]
pub enum Input {
    /// The device connected (with an opaque handle standing for it) or
    /// disconnected (`None`).
    Device(Option<u64>),
    /// The user selected the provider at this index.
    WeatherSessionStart(usize),
    /// The running weather-delivery task ended on its own.
    WeatherSessionEnded,
    /// A provider-watch task should be running (the bus is up).
    ProviderUpdateSessionStart,
    /// The running provider-watch task ended on its own.
    ProviderUpdateSessionEnded,
    /// The watch reported a weather service appearing.
    ProviderAdded(ProviderHandle),
    /// The watch reported the weather service with this identifier
    /// disappearing.
    ProviderRemoved(String),
}

/// The outcome of the caller's attempt to reach the service bus.
#[derive(Debug)]
pub enum CommandOutput {
    NoConnection,
    DBusConnection,
}

/// One step the caller must carry out, in list order: stop or start one of
/// the two task kinds, or query the initial provider list.
#[derive(Debug, Clone, Copy, PartialEq, Eq, Structural)]
pub enum Action {
    StartWeatherSession(usize),
    StopWeatherSession,
    StartProviderUpdateSession,
    StopProviderUpdateSession,
    FetchProviders,
}

/// The action starts a weather-delivery task.
pub open spec fn is_weather_start(a: Action) -> bool {
    a matches Action::StartWeatherSession(_)
}

/// The action starts a provider-watch task.
pub open spec fn is_update_start(a: Action) -> bool {
    a == Action::StartProviderUpdateSession
}

/// Some tracked provider carries this service identifier.
pub open spec fn has_service(ps: Seq<ProviderHandle>, sn: Seq<char>) -> bool {
    exists|i: int| 0 <= i < ps.len() && ps[i].service_name@ == sn
}

/// The position of the provider with this service identifier; meaningful
/// only under `has_service`, and unique when no identifier repeats.
pub open spec fn service_index(ps: Seq<ProviderHandle>, sn: Seq<char>) -> int {
    choose|i: int| 0 <= i < ps.len() && ps[i].service_name@ == sn
}

/// The orchestrator's state. The two task flags say which tasks the caller
/// should currently be running; the handles themselves live with the
/// caller.
#[derive(Debug)]
pub struct Model {
    /// Providers known to be present, in order of appearance.
    pub provider_handles: Vec<ProviderHandle>,
    /// The connected device, by the caller's opaque handle.
    pub infinitime: Option<u64>,
    /// Whether a weather-delivery task is running.
    pub weather_task: bool,
    /// Whether a provider-watch task is running.
    pub update_task: bool,
    /// Whether the service-bus connection has been established.
    pub dbus_session: bool,
    /// The provider the user selected, as an index into
    /// `provider_handles`.
    pub selected: Option<usize>,
}

impl Model {
    /// No two tracked providers share a service identifier.
    pub open spec fn services_unique(self) -> bool {
        forall|i: int, j: int|
            0 <= i < j < self.provider_handles@.len() ==> self.provider_handles@[i].service_name@
                != self.provider_handles@[j].service_name@
    }

    /// The orchestrator's invariant: identifiers are unique, the selection
    /// is in range, a watch task implies a bus connection, and a delivery
    /// task implies a connected device and a selected provider.
    pub open spec fn wf(self) -> bool {
        &&& self.services_unique()
        &&& (self.selected matches Some(k) ==> (k as int) < self.provider_handles@.len())
        &&& (self.update_task ==> self.dbus_session)
        &&& (self.weather_task ==> self.infinitime is Some && self.selected is Some)
    }

    /// The initial state: nothing known, nothing running.
    pub fn new() -> (m: Model)
        ensures
            m.wf(),
            m.provider_handles@.len() == 0,
            m.infinitime is None,
            !m.weather_task,
            !m.update_task,
            !m.dbus_session,
            m.selected is None,
    {
        Model {
            provider_handles: Vec::new(),
            infinitime: None,
            weather_task: false,
            update_task: false,
            dbus_session: false,
            selected: None,
        }
    }

    /// Stops the weather-delivery task if one is running.
    fn stop_weather_task(&mut self, actions: &mut Vec<Action>)
        ensures
            *final(self) == (Model { weather_task: false, ..*old(self) }),
            final(actions)@ == old(actions)@ + (if old(self).weather_task {
                seq![Action::StopWeatherSession]
            } else {
                Seq::<Action>::empty()
            }),
    {
        if self.weather_task {
            actions.push(Action::StopWeatherSession);
            self.weather_task = false;
        }
        proof {
            assert(actions@ =~= old(actions)@ + (if old(self).weather_task {
                seq![Action::StopWeatherSession]
            } else {
                Seq::<Action>::empty()
            }));
        }
    }

    /// Stops the provider-watch task if one is running.
    fn stop_update_task(&mut self, actions: &mut Vec<Action>)
        ensures
            *final(self) == (Model { update_task: false, ..*old(self) }),
            final(actions)@ == old(actions)@ + (if old(self).update_task {
                seq![Action::StopProviderUpdateSession]
            } else {
                Seq::<Action>::empty()
            }),
    {
        if self.update_task {
            actions.push(Action::StopProviderUpdateSession);
            self.update_task = false;
        }
        proof {
            assert(actions@ =~= old(actions)@ + (if old(self).update_task {
                seq![Action::StopProviderUpdateSession]
            } else {
                Seq::<Action>::empty()
            }));
        }
    }

    /// Starts a fresh provider-watch task, stopping any running one first.
    fn start_provider_watch(&mut self, actions: &mut Vec<Action>)
        requires
            old(self).dbus_session,
        ensures
            *final(self) == (Model { update_task: true, ..*old(self) }),
            final(actions)@ == old(actions)@ + (if old(self).update_task {
                seq![Action::StopProviderUpdateSession, Action::StartProviderUpdateSession]
            } else {
                seq![Action::StartProviderUpdateSession]
            }),
    {
        self.stop_update_task(actions);
        actions.push(Action::StartProviderUpdateSession);
        self.update_task = true;
        proof {
            assert(actions@ =~= old(actions)@ + (if old(self).update_task {
                seq![Action::StopProviderUpdateSession, Action::StartProviderUpdateSession]
            } else {
                seq![Action::StartProviderUpdateSession]
            }));
        }
    }

    /// The position of the first provider with this service identifier,
    /// which under `services_unique` is the only one.
    fn find_service(&self, sn: &str) -> (r: Option<usize>)
        requires
            self.services_unique(),
        ensures
            match r {
                Some(j) => has_service(self.provider_handles@, sn@) && j as int == service_index(
                    self.provider_handles@,
                    sn@,
                ),
                None => !has_service(self.provider_handles@, sn@),
            },
    {
        let mut i: usize = 0;
        while i < self.provider_handles.len()
            invariant
                self.services_unique(),
                i <= self.provider_handles@.len(),
                forall|k: int| 0 <= k < i ==> self.provider_handles@[k].service_name@ != sn@,
            decreases self.provider_handles@.len() - i,
        {
            if crate::provider::str_eq(self.provider_handles[i].service_name.as_str(), sn) {
                proof {
                    assert(has_service(self.provider_handles@, sn@));
                    let c = service_index(self.provider_handles@, sn@);
                    assert(0 <= c < self.provider_handles@.len()
                        && self.provider_handles@[c].service_name@ == sn@);
                    assert(c == i as int);
                }
                return Some(i);
            }
            i += 1;
        }
        proof {
            assert(!has_service(self.provider_handles@, sn@));
        }
        None
    }

    /// One transition of the orchestrator: reacts to an event, updates the
    /// state, and returns the actions the caller must carry out, in order.
    ///
    /// The contract gives the exact new state and action list for every
    /// trigger, and two discipline laws besides: no action list starts the
    /// same task kind twice, and whenever a task of some kind was running, a
    /// stop of that kind comes before any start of it.
    pub fn update(&mut self, input: Input) -> (actions: Vec<Action>)
        requires
            old(self).wf(),
        ensures
            final(self).wf(),
            (match input {
                Input::Device(dev) => {
                    &&& final(self).infinitime == dev
                    &&& final(self).provider_handles == old(self).provider_handles
                    &&& final(self).selected == old(self).selected
                    &&& final(self).update_task == old(self).update_task
                    &&& final(self).dbus_session == old(self).dbus_session
                    &&& (match dev {
                        Some(_) => (match old(self).selected {
                            Some(k) => final(self).weather_task && actions@ == (if old(
                                self,
                            ).weather_task {
                                seq![Action::StopWeatherSession, Action::StartWeatherSession(k)]
                            } else {
                                seq![Action::StartWeatherSession(k)]
                            }),
                            None => final(self).weather_task == old(self).weather_task && actions@
                                == Seq::<Action>::empty(),
                        }),
                        None => !final(self).weather_task && actions@ == (if old(
                            self,
                        ).weather_task {
                            seq![Action::StopWeatherSession]
                        } else {
                            Seq::<Action>::empty()
                        }),
                    })
                },
                Input::WeatherSessionStart(index) => {
                    let valid = (index as int) < old(self).provider_handles@.len();
                    let starts = valid && old(self).infinitime is Some;
                    &&& final(self).infinitime == old(self).infinitime
                    &&& final(self).provider_handles == old(self).provider_handles
                    &&& final(self).update_task == old(self).update_task
                    &&& final(self).dbus_session == old(self).dbus_session
                    &&& final(self).selected == (if valid {
                        Some(index)
                    } else {
                        None::<usize>
                    })
                    &&& final(self).weather_task == starts
                    &&& actions@ == (if old(self).weather_task {
                        seq![Action::StopWeatherSession]
                    } else {
                        Seq::<Action>::empty()
                    }) + (if starts {
                        seq![Action::StartWeatherSession(index)]
                    } else {
                        Seq::<Action>::empty()
                    })
                },
                Input::WeatherSessionEnded => {
                    &&& *final(self) == (Model { weather_task: false, ..*old(self) })
                    &&& actions@ == Seq::<Action>::empty()
                },
                Input::ProviderUpdateSessionStart | Input::ProviderUpdateSessionEnded => {
                    &&& final(self).infinitime == old(self).infinitime
                    &&& final(self).provider_handles == old(self).provider_handles
                    &&& final(self).selected == old(self).selected
                    &&& final(self).weather_task == old(self).weather_task
                    &&& final(self).dbus_session == old(self).dbus_session
                    &&& final(self).update_task == (old(self).dbus_session || old(
                        self,
                    ).update_task)
                    &&& actions@ == (if old(self).dbus_session {
                        (if old(self).update_task {
                            seq![
                                Action::StopProviderUpdateSession,
                                Action::StartProviderUpdateSession,
                            ]
                        } else {
                            seq![Action::StartProviderUpdateSession]
                        })
                    } else {
                        Seq::<Action>::empty()
                    })
                },
                Input::ProviderAdded(p) => {
                    &&& final(self).infinitime == old(self).infinitime
                    &&& final(self).selected == old(self).selected
                    &&& final(self).update_task == old(self).update_task
                    &&& final(self).dbus_session == old(self).dbus_session
                    &&& final(self).weather_task == old(self).weather_task
                    &&& actions@ == Seq::<Action>::empty()
                    &&& (if has_service(old(self).provider_handles@, p.service_name@) {
                        final(self).provider_handles == old(self).provider_handles
                    } else {
                        final(self).provider_handles@ == old(self).provider_handles@.push(p)
                    })
                },
                Input::ProviderRemoved(sn) => {
                    &&& final(self).infinitime == old(self).infinitime
                    &&& final(self).update_task == old(self).update_task
                    &&& final(self).dbus_session == old(self).dbus_session
                    &&& (if has_service(old(self).provider_handles@, sn@) {
                        let i = service_index(old(self).provider_handles@, sn@);
                        let was_selected = (old(self).selected matches Some(k) && k as int == i);
                        &&& final(self).provider_handles@ == old(self).provider_handles@.remove(i)
                        &&& final(self).selected == (match old(self).selected {
                            Some(k) => if k as int == i {
                                None::<usize>
                            } else if k as int > i {
                                Some((k - 1) as usize)
                            } else {
                                Some(k)
                            },
                            None => None::<usize>,
                        })
                        &&& final(self).weather_task == (old(self).weather_task && !was_selected)
                        &&& actions@ == (if old(self).weather_task && was_selected {
                            seq![Action::StopWeatherSession]
                        } else {
                            Seq::<Action>::empty()
                        })
                    } else {
                        &&& final(self).provider_handles == old(self).provider_handles
                        &&& final(self).selected == old(self).selected
                        &&& final(self).weather_task == old(self).weather_task
                        &&& actions@ == Seq::<Action>::empty()
                    })
                },
            }),
            forall|a: int, b: int|
                0 <= a < b < actions@.len() ==> !(is_weather_start(actions@[a]) && is_weather_start(
                    actions@[b],
                )),
            forall|a: int, b: int|
                0 <= a < b < actions@.len() ==> !(is_update_start(actions@[a]) && is_update_start(
                    actions@[b],
                )),
            old(self).weather_task ==> forall|b: int|
                0 <= b < actions@.len() && is_weather_start(actions@[b]) ==> exists|a: int|
                    0 <= a < b && actions@[a] == Action::StopWeatherSession,
            old(self).update_task ==> forall|b: int|
                0 <= b < actions@.len() && is_update_start(actions@[b]) ==> exists|a: int|
                    0 <= a < b && actions@[a] == Action::StopProviderUpdateSession,
    {
        let mut actions: Vec<Action> = Vec::new();
        match input {
            Input::Device(dev) => {
                self.infinitime = dev;
                if self.infinitime.is_some() {
                    // A provider is selected: (re)start delivery for it.
                    let sel = self.selected;
                    match sel {
                        Some(k) => {
                            self.stop_weather_task(&mut actions);
                            actions.push(Action::StartWeatherSession(k));
                            self.weather_task = true;
                        },
                        None => {},
                    }
                } else {
                    self.stop_weather_task(&mut actions);
                }
            },
            Input::WeatherSessionStart(index) => {
                let valid = index < self.provider_handles.len();
                self.stop_weather_task(&mut actions);
                if valid {
                    self.selected = Some(index);
                    if self.infinitime.is_some() {
                        actions.push(Action::StartWeatherSession(index));
                        self.weather_task = true;
                    }
                } else {
                    self.selected = None;
                }
            },
            Input::WeatherSessionEnded => {
                // The task ended on its own; its slot is free, the
                // selection stays, and nothing restarts it.
                self.weather_task = false;
            },
            Input::ProviderUpdateSessionStart => {
                if self.dbus_session {
                    self.start_provider_watch(&mut actions);
                }
            },
            Input::ProviderUpdateSessionEnded => {
                // Self-healing: the watch is restarted at once.
                if self.dbus_session {
                    self.start_provider_watch(&mut actions);
                }
            },
            Input::ProviderAdded(p) => {
                match self.find_service(p.service_name.as_str()) {
                    Some(_) => {},
                    None => {
                        self.provider_handles.push(p);
                    },
                }
            },
            Input::ProviderRemoved(sn) => {
                match self.find_service(sn.as_str()) {
                    Some(i) => {
                        self.provider_handles.remove(i);
                        let sel = self.selected;
                        match sel {
                            Some(k) => {
                                if k == i {
                                    self.selected = None;
                                    self.stop_weather_task(&mut actions);
                                } else if k > i {
                                    self.selected = Some(k - 1);
                                }
                            },
                            None => {},
                        }
                        if self.provider_handles.is_empty() {
                            self.stop_weather_task(&mut actions);
                        }
                    },
                    None => {},
                }
            },
        }
        proof {
            if old(self).weather_task {
                assert forall|b: int|
                    0 <= b < actions@.len() && is_weather_start(actions@[b]) implies exists|a: int|
                    0 <= a < b && actions@[a] == Action::StopWeatherSession by {
                    assert(actions@[0] == Action::StopWeatherSession);
                    assert(0 < b);
                }
            }
            if old(self).update_task {
                assert forall|b: int|
                    0 <= b < actions@.len() && is_update_start(actions@[b]) implies exists|a: int|
                    0 <= a < b && actions@[a] == Action::StopProviderUpdateSession by {
                    assert(actions@[0] == Action::StopProviderUpdateSession);
                    assert(0 < b);
                }
            }
        }
        actions
    }

    /// Reacts to the outcome of the caller's bus-connection attempt: once
    /// the bus is up, the initial provider list is queried and a fresh
    /// provider-watch task is started.
    pub fn update_cmd(&mut self, cmd: CommandOutput) -> (actions: Vec<Action>)
        requires
            old(self).wf(),
        ensures
            final(self).wf(),
            (match cmd {
                CommandOutput::NoConnection => *final(self) == *old(self) && actions@ == Seq::<
                    Action,
                >::empty(),
                CommandOutput::DBusConnection => {
                    &&& *final(self) == (Model {
                        dbus_session: true,
                        update_task: true,
                        ..*old(self)
                    })
                    &&& actions@ == seq![Action::FetchProviders] + (if old(self).update_task {
                        seq![
                            Action::StopProviderUpdateSession,
                            Action::StartProviderUpdateSession,
                        ]
                    } else {
                        seq![Action::StartProviderUpdateSession]
                    })
                },
            }),
            forall|a: int, b: int|
                0 <= a < b < actions@.len() ==> !(is_update_start(actions@[a]) && is_update_start(
                    actions@[b],
                )),
            old(self).update_task ==> forall|b: int|
                0 <= b < actions@.len() && is_update_start(actions@[b]) ==> exists|a: int|
                    0 <= a < b && actions@[a] == Action::StopProviderUpdateSession,
    {
        let mut actions: Vec<Action> = Vec::new();
        match cmd {
            CommandOutput::NoConnection => {},
            CommandOutput::DBusConnection => {
                self.dbus_session = true;
                actions.push(Action::FetchProviders);
                self.start_provider_watch(&mut actions);
                proof {
                    assert(actions@ =~= seq![Action::FetchProviders] + (if old(
                        self,
                    ).update_task {
                        seq![
                            Action::StopProviderUpdateSession,
                            Action::StartProviderUpdateSession,
                        ]
                    } else {
                        seq![Action::StartProviderUpdateSession]
                    }));
                }
            },
        }
        proof {
            if old(self).update_task {
                assert forall|b: int|
                    0 <= b < actions@.len() && is_update_start(actions@[b]) implies exists|a: int|
                    0 <= a < b && actions@[a] == Action::StopProviderUpdateSession by {
                    assert(actions@[1] == Action::StopProviderUpdateSession);
                    assert(1 < b);
                }
            }
        }
        actions
    }
}

/// Writing to the device's weather endpoint failed: either no device is
/// connected, or the write itself went wrong.
#[derive(Debug, Clone, Copy, PartialEq, Eq, Structural)]
pub enum TransportError {
    NotConnected,
    WriteFailed,
}

/// Whether the weather-delivery task goes on to its next cycle.
#[derive(Debug, Clone, Copy, PartialEq, Eq, Structural)]
pub enum DeliveryStep {
    Continue,
    End,
}

/// The policy after one fetch-encode-write delivery cycle: a failed write
/// ends the task (which is then not restarted until a later selection or
/// provider change), a successful one lets it continue.
pub fn delivery_step_after(write_result: &Result<(), TransportError>) -> (s: DeliveryStep)
    ensures
        s == (if *write_result is Ok {
            DeliveryStep::Continue
        } else {
            DeliveryStep::End
        }),
{
    match write_result {
        Ok(_) => DeliveryStep::Continue,
        Err(_) => DeliveryStep::End,
    }
}

} // verus!
