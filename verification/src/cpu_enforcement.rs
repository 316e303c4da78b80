//! Stopping a script that has used up its CPU time.
//!
//! A timer of the operating system counts the CPU time of the thread that
//! runs the script. When it runs out it sends a signal that carries nothing
//! but the number of an enforcer. A thread of its own receives the signal,
//! looks the number up in the registry kept here, marks the enforcer, and
//! tells the isolate found there to stop.

use vstd::prelude::*;
use std::collections::HashMap;

verus! {

broadcast use vstd::std_specs::hash::group_hash_axioms;

/// What the registry holds for one enforcer: the handle by which its
/// isolate is told to stop, and whether it was told to.
pub struct EnforcerData<H> {
    pub isolate_handle: H,
    pub terminated: bool,
}

/// When a timer is to run out: whole seconds and the nanoseconds beyond.
#[derive(Debug, Clone, Copy, PartialEq, Eq, Structural)]
pub struct TimerSpec {
    pub tv_sec: i64,
    pub tv_nsec: i64,
}

/// The timer setting for a budget in milliseconds.
pub fn timer_spec(timeout_ms: u64) -> (spec: TimerSpec)
    ensures
        spec.tv_sec == timeout_ms / 1000,
        spec.tv_nsec == (timeout_ms % 1000) * 1000000,
        0 <= spec.tv_nsec < 1000000000,
        spec.tv_sec * 1000 + spec.tv_nsec / 1000000 == timeout_ms,
{
    let timeout_secs = timeout_ms / 1000;
    let timeout_nsecs = (timeout_ms % 1000) * 1000000;
    TimerSpec { tv_sec: timeout_secs as i64, tv_nsec: timeout_nsecs as i64 }
}

/// The enforcers that are alive, by number. Numbers are given out in rising
/// order from 1 and never given out twice.
pub struct EnforcerRegistry<H> {
    map: HashMap<usize, EnforcerData<H>>,
    next_id: usize,
}

impl<H> View for EnforcerRegistry<H> {
    type V = Map<usize, EnforcerData<H>>;

    /// The enforcers that are registered.
    closed spec fn view(&self) -> Map<usize, EnforcerData<H>> {
        self.map@
    }
}

impl<H> EnforcerRegistry<H> {
    #[verifier::type_invariant]
    spec fn numbers_below_next(self) -> bool {
        &&& self.next_id >= 1
        &&& forall|id: usize| self.map@.contains_key(id) ==> 1 <= id < self.next_id
    }

    /// The number the next enforcer gets.
    pub closed spec fn next_id(self) -> usize {
        self.next_id
    }

    /// A registry without enforcers, whose first number is 1.
    pub fn new() -> (registry: EnforcerRegistry<H>)
        ensures
            registry@ == Map::<usize, EnforcerData<H>>::empty(),
            registry.next_id() == 1,
    {
        EnforcerRegistry { map: HashMap::new(), next_id: 1 }
    }

    /// Whether the enforcer `enforcer_id` is registered.
    pub fn is_registered(&self, enforcer_id: usize) -> (registered: bool)
        ensures
            registered == self@.contains_key(enforcer_id),
            registered ==> 1 <= enforcer_id < self.next_id(),
    {
        proof {
            use_type_invariant(self);
        }
        self.map.contains_key(&enforcer_id)
    }

    /// Whether the isolate of the enforcer `enforcer_id` was told to stop.
    /// An enforcer that is not registered was not.
    pub fn was_terminated(&self, enforcer_id: usize) -> (terminated: bool)
        ensures
            terminated == (self@.contains_key(enforcer_id) && self@[enforcer_id].terminated),
    {
        match self.map.get(&enforcer_id) {
            Some(data) => data.terminated,
            None => false,
        }
    }

    /// The handle of the isolate that the enforcer `enforcer_id` watches.
    pub fn isolate_handle(&self, enforcer_id: usize) -> (handle: Option<&H>)
        ensures
            match handle {
                Some(h) => self@.contains_key(enforcer_id) && *h
                    == self@[enforcer_id].isolate_handle,
                None => !self@.contains_key(enforcer_id),
            },
    {
        match self.map.get(&enforcer_id) {
            Some(data) => Some(&data.isolate_handle),
            None => None,
        }
    }

    /// Takes the next number, unless the numbers have run out.
    fn next_number(&mut self) -> (id: Option<usize>)
        ensures
            final(self)@ == old(self)@,
            match id {
                Some(n) => {
                    &&& n == old(self).next_id()
                    &&& n >= 1
                    &&& !old(self)@.contains_key(n)
                    &&& final(self).next_id() == n + 1
                },
                None => {
                    &&& old(self).next_id() == usize::MAX
                    &&& final(self).next_id() == old(self).next_id()
                },
            },
    {
        proof {
            use_type_invariant(&*self);
        }
        if self.next_id == usize::MAX {
            None
        } else {
            let id = self.next_id;
            self.next_id = id + 1;
            Some(id)
        }
    }

    /// Marks the enforcer named by a signal and says whether it is
    /// registered. The caller then tells its isolate to stop. A number that
    /// names no enforcer changes nothing: its signal came after the enforcer
    /// was gone.
    pub fn on_signal(&mut self, enforcer_id: usize) -> (known: bool)
        ensures
            final(self).next_id() == old(self).next_id(),
            known == old(self)@.contains_key(enforcer_id),
            known ==> final(self)@ == old(self)@.insert(
                enforcer_id,
                (EnforcerData {
                    isolate_handle: old(self)@[enforcer_id].isolate_handle,
                    terminated: true,
                }),
            ),
            !known ==> final(self)@ == old(self)@,
    {
        proof {
            use_type_invariant(&*self);
        }
        let mut map = HashMap::new();
        std::mem::swap(&mut map, &mut self.map);
        let ghost before = map@;
        let known = match map.remove(&enforcer_id) {
            Some(data) => {
                map.insert(
                    enforcer_id,
                    EnforcerData { isolate_handle: data.isolate_handle, terminated: true },
                );
                true
            },
            None => {
                assert(map@ =~= before);
                false
            },
        };
        self.map = map;
        known
    }
}

/// Registers an enforcer for the isolate behind `isolate_handle` and returns
/// its number, or `None` where the numbers have run out.
pub fn register_enforcer<H>(registry: &mut EnforcerRegistry<H>, isolate_handle: H) -> (id: Option<
    usize,
>)
    ensures
        match id {
            Some(n) => {
                &&& n == old(registry).next_id()
                &&& !old(registry)@.contains_key(n)
                &&& final(registry)@ == old(registry)@.insert(
                    n,
                    (EnforcerData { isolate_handle, terminated: false }),
                )
                &&& final(registry).next_id() == n + 1
            },
            None => {
                &&& old(registry).next_id() == usize::MAX
                &&& final(registry)@ == old(registry)@
                &&& final(registry).next_id() == old(registry).next_id()
            },
        },
{
    match registry.next_number() {
        Some(id) => {
            proof {
                use_type_invariant(&*registry);
            }
            let mut map = HashMap::new();
            std::mem::swap(&mut map, &mut registry.map);
            map.insert(id, EnforcerData { isolate_handle, terminated: false });
            registry.map = map;
            Some(id)
        },
        None => None,
    }
}

/// Takes the enforcer `enforcer_id` out of the registry. One that is not
/// registered is left out without complaint.
pub fn unregister_enforcer<H>(registry: &mut EnforcerRegistry<H>, enforcer_id: usize)
    ensures
        final(registry)@ == old(registry)@.remove(enforcer_id),
        final(registry).next_id() == old(registry).next_id(),
{
    proof {
        use_type_invariant(&*registry);
    }
    let mut map = HashMap::new();
    std::mem::swap(&mut map, &mut registry.map);
    map.remove(&enforcer_id);
    registry.map = map;
}

/// A registered enforcer: its number, which the timer's signal carries, and
/// the setting of its timer.
#[derive(Debug)]
pub struct CpuEnforcer {
    enforcer_id: usize,
    timer: TimerSpec,
}

impl CpuEnforcer {
    /// The number of this enforcer.
    pub closed spec fn id(self) -> usize {
        self.enforcer_id
    }

    /// The setting of this enforcer's timer.
    pub closed spec fn timer(self) -> TimerSpec {
        self.timer
    }

    /// Registers an enforcer that allows `timeout_ms` milliseconds of CPU
    /// time to the isolate behind `isolate_handle`. There is none for a
    /// budget of 0, nor where the numbers have run out; the registry is then
    /// as it was. The caller creates and arms the timer, and gives the
    /// enforcer up with `release` where that fails.
    pub fn new<H>(registry: &mut EnforcerRegistry<H>, isolate_handle: H, timeout_ms: u64) -> (made:
        Option<CpuEnforcer>)
        ensures
            match made {
                Some(enforcer) => {
                    &&& timeout_ms > 0
                    &&& enforcer.id() == old(registry).next_id()
                    &&& enforcer.timer().tv_sec == timeout_ms / 1000
                    &&& enforcer.timer().tv_nsec == (timeout_ms % 1000) * 1000000
                    &&& !old(registry)@.contains_key(enforcer.id())
                    &&& final(registry)@ == old(registry)@.insert(
                        enforcer.id(),
                        (EnforcerData { isolate_handle, terminated: false }),
                    )
                    &&& final(registry).next_id() == enforcer.id() + 1
                },
                None => {
                    &&& timeout_ms == 0 || old(registry).next_id() == usize::MAX
                    &&& final(registry)@ == old(registry)@
                    &&& final(registry).next_id() == old(registry).next_id()
                },
            },
    {
        if timeout_ms == 0 {
            return None;
        }
        match register_enforcer(registry, isolate_handle) {
            Some(enforcer_id) => Some(CpuEnforcer { enforcer_id, timer: timer_spec(timeout_ms) }),
            None => None,
        }
    }

    /// The number of this enforcer.
    pub fn enforcer_id(&self) -> (id: usize)
        ensures
            id == self.id(),
    {
        self.enforcer_id
    }

    /// The setting of this enforcer's timer.
    pub fn timer_spec(&self) -> (spec: TimerSpec)
        ensures
            spec == self.timer(),
    {
        self.timer
    }

    /// Whether the budget ran out and the isolate was told to stop.
    pub fn was_terminated<H>(&self, registry: &EnforcerRegistry<H>) -> (terminated: bool)
        ensures
            terminated == (registry@.contains_key(self.id()) && registry@[self.id()].terminated),
    {
        registry.was_terminated(self.enforcer_id)
    }

    /// Gives the enforcer up: it is no longer registered, and a signal that
    /// still arrives for it finds nothing. The caller deletes the timer.
    pub fn release<H>(self, registry: &mut EnforcerRegistry<H>)
        ensures
            final(registry)@ == old(registry)@.remove(self.id()),
            final(registry).next_id() == old(registry).next_id(),
    {
        unregister_enforcer(registry, self.enforcer_id)
    }
}

} // verus!
