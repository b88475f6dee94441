//! The stream publisher: the state machine behind one subscription to a
//! simulation.
//!
//! A subscription is active until the simulation has died out, the
//! simulation has been deleted or the subscriber has gone.  The caller owns
//! the timer: after each interval it calls `tick` while it holds the
//! registry, sends what `tick` returns and stops when the publisher is no
//! longer active.

use crate::registry::Simulations;
use crate::service::{
    exhausted, is_advanced, is_exhausted, is_not_found, live_cell_report, not_found, reports_live,
    touches_only, GameOfLifeServiceImpl, ServiceError, SimulationUpdate, StreamRequest,
};
use crate::simulation::{count_from, count_of, live_cells, SimulationData};
use vstd::prelude::*;

verus! {

/// The states of a subscription.
#[derive(Debug, Clone, Copy, PartialEq, Eq, Structural)]
pub enum StreamState {
    /// Events are still to come.
    Active,
    /// The simulation died out: the last event said so.
    Ended,
    /// The simulation was deleted, the service failed or the subscriber
    /// went away.
    Cancelled,
}

/// The interval of a stream that asks for none, in milliseconds.
pub open spec fn default_interval_ms() -> u64 {
    1000
}

/// The interval of a stream, in milliseconds: the requested one where it is
/// positive, the default otherwise.
pub open spec fn interval_of(requested: i32) -> u64 {
    if requested > 0 {
        requested as u64
    } else {
        default_interval_ms()
    }
}

/// Whether `update` reports the state of `simulation`.
pub open spec fn is_update_of(update: SimulationUpdate, simulation: SimulationData) -> bool {
    &&& update.generation == simulation.generation as i64
    &&& update.live_cells == count_of(live_cells(simulation.cells@).len())
    &&& reports_live(update.changed_cells@, simulation.cells@)
    &&& update.simulation_ended == (update.live_cells == 0)
}

/// One subscription.
pub struct StreamPublisher {
    id: String,
    auto_step: bool,
    interval_ms: u64,
    state: StreamState,
}

impl StreamPublisher {
    /// The identifier of the simulation that the subscription follows.
    pub closed spec fn id(&self) -> Seq<char> {
        self.id@
    }

    /// Whether each tick advances the simulation by one generation.
    pub closed spec fn auto_step(&self) -> bool {
        self.auto_step
    }

    /// The time between two ticks, in milliseconds.
    pub closed spec fn interval(&self) -> u64 {
        self.interval_ms
    }

    /// The state of the subscription.
    pub closed spec fn state_spec(&self) -> StreamState {
        self.state
    }

    /// Whether `other` is this subscription in another state.
    pub open spec fn same_subscription(&self, other: &StreamPublisher) -> bool {
        &&& self.id() == other.id()
        &&& self.auto_step() == other.auto_step()
        &&& self.interval() == other.interval()
    }

    /// Opens a subscription.  The simulation must exist.
    pub fn open(simulations: &Simulations, request: StreamRequest) -> (result: Result<
        StreamPublisher,
        ServiceError,
    >)
        requires
            simulations.wf(),
        ensures
            match result {
                Ok(publisher) => {
                    &&& simulations@.contains_key(request.id@)
                    &&& publisher.id() == request.id@
                    &&& publisher.auto_step() == request.auto_step
                    &&& publisher.interval() == interval_of(request.step_interval_ms)
                    &&& publisher.state() == StreamState::Active
                },
                Err(error) => !simulations@.contains_key(request.id@) && is_not_found(error),
            },
    {
        if simulations.get_simulation(request.id.as_str()).is_none() {
            return Err(not_found());
        }
        Ok(
            StreamPublisher {
                id: request.id,
                auto_step: request.auto_step,
                interval_ms: if request.step_interval_ms > 0 {
                    request.step_interval_ms as u64
                } else {
                    1000
                },
                state: StreamState::Active,
            },
        )
    }

    /// The state of the subscription.
    #[verifier::when_used_as_spec(state_spec)]
    pub fn state(&self) -> (state: StreamState)
        ensures
            state == self.state_spec(),
    {
        self.state
    }

    /// Whether events are still to come.
    pub fn is_active(&self) -> (active: bool)
        ensures
            active == (self.state() == StreamState::Active),
    {
        match self.state {
            StreamState::Active => true,
            _ => false,
        }
    }

    /// The time between two ticks, in milliseconds.
    pub fn interval_ms(&self) -> (interval: u64)
        ensures
            interval == self.interval(),
    {
        self.interval_ms
    }

    /// The subscriber has gone: an active subscription is cancelled.  A
    /// subscription that has ended stays ended.
    pub fn cancel(&mut self)
        ensures
            final(self).same_subscription(old(self)),
            final(self).state() == if old(self).state() == StreamState::Active {
                StreamState::Cancelled
            } else {
                old(self).state()
            },
    {
        if self.is_active() {
            self.state = StreamState::Cancelled;
        }
    }

    /// One tick of the subscription's timer.
    ///
    /// An inactive subscription does nothing and returns nothing.  An active
    /// one fails, and is cancelled, where its simulation is gone; otherwise
    /// it advances the simulation by one generation if the subscription
    /// asked for that, and reports the state reached.  A report without
    /// live cells is the last one: the subscription has ended.
    pub fn tick(&mut self, simulations: &mut Simulations) -> (event: Option<
        Result<SimulationUpdate, ServiceError>,
    >)
        requires
            old(simulations).wf(),
        ensures
            final(simulations).wf(),
            final(simulations).started() == old(simulations).started(),
            final(self).same_subscription(old(self)),
            match event {
                None => {
                    &&& old(self).state() != StreamState::Active
                    &&& final(self).state() == old(self).state()
                    &&& final(simulations)@ == old(simulations)@
                },
                Some(Err(error)) => {
                    &&& old(self).state() == StreamState::Active
                    &&& final(self).state() == StreamState::Cancelled
                    &&& final(simulations)@ == old(simulations)@
                    &&& if !old(simulations)@.contains_key(old(self).id()) {
                        is_not_found(error)
                    } else {
                        &&& old(self).auto_step()
                        &&& old(simulations)@[old(self).id()].generation == u64::MAX
                        &&& is_exhausted(error)
                    }
                },
                Some(Ok(update)) => {
                    &&& old(self).state() == StreamState::Active
                    &&& old(simulations)@.contains_key(old(self).id())
                    &&& if old(self).auto_step() {
                        &&& touches_only(old(simulations)@, final(simulations)@, old(self).id())
                        &&& is_advanced(
                            old(simulations)@[old(self).id()],
                            final(simulations)@[old(self).id()],
                            1,
                        )
                    } else {
                        final(simulations)@ == old(simulations)@
                    }
                    &&& is_update_of(update, final(simulations)@[old(self).id()])
                    &&& final(self).state() == if update.simulation_ended {
                        StreamState::Ended
                    } else {
                        StreamState::Active
                    }
                },
            },
    {
        if !self.is_active() {
            return None;
        }
        match simulations.get_simulation_mut(self.id.as_str()) {
            Some(simulation) => {
                if self.auto_step {
                    if simulation.generation == u64::MAX {
                        proof {
                            assert(old(simulations)@.insert(self.id@, *simulation) =~= old(
                                simulations,
                            )@);
                        }
                        self.state = StreamState::Cancelled;
                        return Some(Err(exhausted()));
                    }
                    simulation.advance(1);
                } else {
                    proof {
                        assert(old(simulations)@.insert(self.id@, *simulation) =~= old(
                            simulations,
                        )@);
                    }
                }
                let changed_cells = live_cell_report(simulation);
                let live_cells = count_from(changed_cells.len());
                let update = SimulationUpdate {
                    generation: simulation.generation as i64,
                    live_cells,
                    changed_cells,
                    simulation_ended: live_cells == 0,
                };
                if live_cells == 0 {
                    self.state = StreamState::Ended;
                }
                Some(Ok(update))
            },
            None => {
                self.state = StreamState::Cancelled;
                Some(Err(not_found()))
            },
        }
    }
}

impl GameOfLifeServiceImpl {
    /// Opens a subscription to a simulation, or answers that the simulation
    /// does not exist.
    pub fn stream_simulation(&self, request: StreamRequest) -> (result: Result<
        StreamPublisher,
        ServiceError,
    >)
        requires
            self.wf(),
        ensures
            match result {
                Ok(publisher) => {
                    &&& self.simulations@.contains_key(request.id@)
                    &&& publisher.id() == request.id@
                    &&& publisher.auto_step() == request.auto_step
                    &&& publisher.interval() == interval_of(request.step_interval_ms)
                    &&& publisher.state() == StreamState::Active
                },
                Err(error) => !self.simulations@.contains_key(request.id@) && is_not_found(error),
            },
    {
        StreamPublisher::open(&self.simulations, request)
    }
}

} // verus!
