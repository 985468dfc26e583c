//! The settings of the plugin, built up before it is added to an app: the
//! schedule that runs the render system, the run conditions that gate it (in
//! the order they were given) and whether each re-render is logged.
use vstd::prelude::*;

verus! {

/// The settings of the plugin for one state type. `S` is the schedule label,
/// `C` a boxed run condition.
pub struct PluginConfig<S, C> {
    debug: bool,
    schedule: S,
    run_conditions: Vec<C>,
}

impl<S, C> PluginConfig<S, C> {
    /// Whether each re-render is logged.
    pub closed spec fn debug_enabled(&self) -> bool {
        self.debug
    }

    /// The schedule that runs the render system.
    pub closed spec fn schedule_label(&self) -> S {
        self.schedule
    }

    /// The run conditions, in the order they were added.
    pub closed spec fn conditions(&self) -> Seq<C> {
        self.run_conditions@
    }

    /// Settings that run the render system in `schedule`, without run
    /// conditions and without logging.
    pub fn new(schedule: S) -> (r: Self)
        ensures
            !r.debug_enabled(),
            r.schedule_label() == schedule,
            r.conditions() == Seq::<C>::empty(),
    {
        PluginConfig { debug: false, schedule, run_conditions: Vec::new() }
    }

    /// Turns on the logging of each re-render; nothing else changes.
    pub fn debug(self) -> (r: Self)
        ensures
            r.debug_enabled(),
            r.schedule_label() == self.schedule_label(),
            r.conditions() == self.conditions(),
    {
        PluginConfig { debug: true, ..self }
    }

    /// Moves the render system to `schedule`, keeping the logging flag and
    /// the run conditions.
    pub fn schedule<S2>(self, schedule: S2) -> (r: PluginConfig<S2, C>)
        ensures
            r.debug_enabled() == self.debug_enabled(),
            r.schedule_label() == schedule,
            r.conditions() == self.conditions(),
    {
        PluginConfig { debug: self.debug, schedule, run_conditions: self.run_conditions }
    }

    /// Adds a run condition after those already there.
    pub fn run_if(self, condition: C) -> (r: Self)
        ensures
            r.debug_enabled() == self.debug_enabled(),
            r.schedule_label() == self.schedule_label(),
            r.conditions() == self.conditions().push(condition),
    {
        let mut run_conditions = self.run_conditions;
        run_conditions.push(condition);
        PluginConfig { debug: self.debug, schedule: self.schedule, run_conditions }
    }

    /// Hands out the run conditions, in the order they were added, and
    /// leaves none behind.
    pub fn take_run_conditions(&mut self) -> (taken: Vec<C>)
        ensures
            taken@ == old(self).conditions(),
            final(self).conditions() == Seq::<C>::empty(),
            final(self).debug_enabled() == old(self).debug_enabled(),
            final(self).schedule_label() == old(self).schedule_label(),
    {
        let mut taken = Vec::new();
        std::mem::swap(&mut taken, &mut self.run_conditions);
        taken
    }

    /// Whether each re-render is logged.
    pub fn is_debug(&self) -> (r: bool)
        ensures
            r == self.debug_enabled(),
    {
        self.debug
    }

    /// The schedule that runs the render system.
    pub fn label(&self) -> (r: &S)
        ensures
            *r == self.schedule_label(),
    {
        &self.schedule
    }
}

} // verus!
