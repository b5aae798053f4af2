//! The registry of in-flight tune runs and of the exclusive reservation that a post-hoc
//! PID write or revert holds while it mutates a live loop.
//!
//! Several tune runs may be registered at once; an exclusive reservation is granted only
//! when nothing else is registered, and while it is held no tune can register.

use vstd::prelude::*;

verus! {

broadcast use vstd::seq_lib::group_seq_properties;

/// Returned when a registration or reservation conflicts with an existing one; `run_id`
/// names the run that holds it.
#[derive(Debug, Clone, Copy, PartialEq, Eq, Structural)]
pub struct RunAlreadyActive {
    pub run_id: i64,
}

/// What a cancellation request found under a run id.
#[derive(Debug, Clone, Copy, PartialEq, Eq, Structural)]
pub enum CancelTarget {
    /// A registered tune run, whose cancellation handle must be triggered.
    Task,
    /// The holder of the exclusive reservation; it finishes on its own.
    Exclusive,
    /// Nothing is registered under that id.
    Nothing,
}

/// The abstract registry: the ids of registered tune runs and the exclusive holder.
pub struct RunRegistryView {
    pub tasks: Set<i64>,
    pub exclusive: Option<i64>,
}

pub open spec fn strictly_ascending(s: Seq<i64>) -> bool {
    forall|i: int, j: int| 0 <= i < j < s.len() ==> s[i] < s[j]
}

/// The smallest element of a non-empty ascending sequence.
pub open spec fn first_registered(s: Seq<i64>) -> i64 {
    s[0]
}

/// The registry of active runs.
pub struct RunRegistry {
    tasks: Vec<i64>,
    exclusive: Option<i64>,
}

impl View for RunRegistry {
    type V = RunRegistryView;

    closed spec fn view(&self) -> RunRegistryView {
        RunRegistryView { tasks: self.tasks@.to_set(), exclusive: self.exclusive }
    }
}

/// The registry after registering the tune run `run_id`.
pub open spec fn started(v: RunRegistryView, run_id: i64) -> RunRegistryView {
    RunRegistryView { tasks: v.tasks.insert(run_id), exclusive: v.exclusive }
}

/// The registry after `run_id` took the exclusive reservation.
pub open spec fn reserved(v: RunRegistryView, run_id: i64) -> RunRegistryView {
    RunRegistryView { tasks: v.tasks, exclusive: Some(run_id) }
}

/// The registry after releasing `run_id`: its exclusive reservation if it holds one,
/// otherwise its tune registration.
pub open spec fn released(v: RunRegistryView, run_id: i64) -> RunRegistryView {
    if v.exclusive == Some(run_id) {
        RunRegistryView { tasks: v.tasks, exclusive: None }
    } else {
        RunRegistryView { tasks: v.tasks.remove(run_id), exclusive: v.exclusive }
    }
}

/// The registry invariant: an exclusive reservation never coexists with a tune run.
pub open spec fn registry_wf(v: RunRegistryView) -> bool {
    &&& v.tasks.finite()
    &&& v.exclusive is Some ==> v.tasks.is_empty()
}

impl RunRegistry {
    pub closed spec fn wf(&self) -> bool {
        &&& strictly_ascending(self.tasks@)
        &&& self.exclusive is Some ==> self.tasks@.len() == 0
    }

    /// The ids of registered runs, ascending.
    pub closed spec fn ids(&self) -> Seq<i64> {
        self.tasks@
    }

    pub proof fn lemma_wf(&self)
        requires
            self.wf(),
        ensures
            registry_wf(self@),
            strictly_ascending(self.ids()),
            self.ids().to_set() == self@.tasks,
            self.ids().len() == 0 <==> self@.tasks.is_empty(),
    {
        vstd::seq_lib::seq_to_set_is_finite(self.tasks@);
        if self.tasks@.len() > 0 {
            assert(self.tasks@.to_set().contains(self.tasks@[0]));
        } else {
            assert(self.tasks@.to_set() =~= Set::empty());
        }
    }

    /// An empty registry.
    pub fn new() -> (r: Self)
        ensures
            r.wf(),
            r@.tasks == Set::<i64>::empty(),
            r@.exclusive is None,
    {
        let r = RunRegistry { tasks: Vec::new(), exclusive: None };
        proof {
            assert(r.tasks@.to_set() =~= Set::empty());
        }
        r
    }

    fn position(&self, run_id: i64) -> (r: usize)
        requires
            self.wf(),
        ensures
            r <= self.tasks@.len(),
            forall|i: int| 0 <= i < r ==> self.tasks@[i] < run_id,
            forall|i: int| r <= i < self.tasks@.len() ==> self.tasks@[i] >= run_id,
    {
        let mut i: usize = 0;
        while i < self.tasks.len() && self.tasks[i] < run_id
            invariant
                i <= self.tasks@.len(),
                forall|j: int| 0 <= j < i ==> self.tasks@[j] < run_id,
                strictly_ascending(self.tasks@),
            decreases self.tasks@.len() - i,
        {
            i = i + 1;
        }
        proof {
            assert forall|j: int| i <= j < self.tasks@.len() implies self.tasks@[j] >= run_id by {
                if j > i {
                    assert(self.tasks@[i as int] < self.tasks@[j]);
                }
            }
        }
        i
    }

    /// Whether a tune run is registered under `run_id`.
    pub fn contains(&self, run_id: i64) -> (r: bool)
        requires
            self.wf(),
        ensures
            r == self@.tasks.contains(run_id),
    {
        let i = self.position(run_id);
        let found = i < self.tasks.len() && self.tasks[i] == run_id;
        proof {
            if !found {
                assert forall|j: int| 0 <= j < self.tasks@.len() implies self.tasks@[j]
                    != run_id by {}
            }
            if found {
                assert(self.tasks@.contains(run_id));
            }
        }
        found
    }

    /// Registers a tune run. Refused while an exclusive reservation is held (naming its
    /// holder) or when `run_id` is already registered.
    pub fn start(&mut self, run_id: i64) -> (r: Result<(), RunAlreadyActive>)
        requires
            old(self).wf(),
        ensures
            final(self).wf(),
            match old(self)@.exclusive {
                Some(holder) => r == Err::<(), RunAlreadyActive>(RunAlreadyActive { run_id: holder })
                    && final(self)@ == old(self)@,
                None => if old(self)@.tasks.contains(run_id) {
                    r == Err::<(), RunAlreadyActive>(RunAlreadyActive { run_id })
                        && final(self)@ == old(self)@
                } else {
                    r is Ok && final(self)@ == started(old(self)@, run_id)
                },
            },
    {
        if let Some(existing) = self.exclusive {
            return Err(RunAlreadyActive { run_id: existing });
        }
        let i = self.position(run_id);
        if i < self.tasks.len() && self.tasks[i] == run_id {
            proof {
                assert(self.tasks@.contains(run_id));
            }
            return Err(RunAlreadyActive { run_id });
        }
        let ghost before = self.tasks@;
        proof {
            assert forall|j: int| 0 <= j < before.len() implies before[j] != run_id by {}
            assert(!before.to_set().contains(run_id));
        }
        self.tasks.insert(i, run_id);
        proof {
            let after = self.tasks@;
            assert forall|a: int, b: int| 0 <= a < b < after.len() implies after[a]
                < after[b] by {
                if a < i && b > i {
                    assert(after[b] == before[b - 1]);
                    assert(before[b - 1] >= run_id);
                } else if a < i && b == i {
                } else if a == i {
                    assert(after[b] == before[b - 1]);
                    assert(before[b - 1] >= run_id);
                } else if b < i {
                } else {
                    assert(after[a] == before[a - 1]);
                    assert(after[b] == before[b - 1]);
                }
            }
            assert(after.to_set() =~= before.to_set().insert(run_id)) by {
                assert forall|x: i64| after.to_set().contains(x) implies before.to_set().insert(
                    run_id,
                ).contains(x) by {
                    let k = choose|k: int| 0 <= k < after.len() && after[k] == x;
                    if k < i {
                        assert(before[k] == x);
                    } else if k > i {
                        assert(before[k - 1] == x);
                    }
                }
                assert forall|x: i64| before.to_set().insert(run_id).contains(x) implies after.to_set().contains(
                    x,
                ) by {
                    if x == run_id {
                        assert(after[i as int] == x);
                    } else {
                        let k = choose|k: int| 0 <= k < before.len() && before[k] == x;
                        if k < i {
                            assert(after[k] == x);
                        } else {
                            assert(after[k + 1] == x);
                        }
                    }
                }
            }
        }
        Ok(())
    }

    /// Takes the exclusive reservation for `run_id`. Refused while another reservation is
    /// held (naming its holder) or while any tune run is registered (naming the smallest
    /// registered id).
    pub fn reserve(&mut self, run_id: i64) -> (r: Result<(), RunAlreadyActive>)
        requires
            old(self).wf(),
        ensures
            final(self).wf(),
            final(self).ids() == old(self).ids(),
            match old(self)@.exclusive {
                Some(holder) => r == Err::<(), RunAlreadyActive>(RunAlreadyActive { run_id: holder })
                    && final(self)@ == old(self)@,
                None => if old(self).ids().len() > 0 {
                    r == Err::<(), RunAlreadyActive>(
                        RunAlreadyActive { run_id: first_registered(old(self).ids()) },
                    ) && final(self)@ == old(self)@
                } else {
                    r is Ok && final(self)@ == reserved(old(self)@, run_id)
                },
            },
    {
        if let Some(existing) = self.exclusive {
            return Err(RunAlreadyActive { run_id: existing });
        }
        if self.tasks.len() > 0 {
            return Err(RunAlreadyActive { run_id: self.tasks[0] });
        }
        self.exclusive = Some(run_id);
        Ok(())
    }

    /// The holder of the exclusive reservation, if any.
    pub fn exclusive_id(&self) -> (r: Option<i64>)
        ensures
            r == self@.exclusive,
    {
        self.exclusive
    }

    /// The ids of every registered tune run, ascending.
    pub fn active_run_ids(&self) -> (r: Vec<i64>)
        requires
            self.wf(),
        ensures
            r@ == self.ids(),
            strictly_ascending(r@),
            r@.to_set() == self@.tasks,
    {
        self.tasks.clone()
    }

    /// What a cancellation request for `run_id` reaches: a registered tune run first,
    /// then the exclusive holder.
    pub fn cancel_target(&self, run_id: i64) -> (r: CancelTarget)
        requires
            self.wf(),
        ensures
            r == (if self@.tasks.contains(run_id) {
                CancelTarget::Task
            } else if self@.exclusive == Some(run_id) {
                CancelTarget::Exclusive
            } else {
                CancelTarget::Nothing
            }),
    {
        if self.contains(run_id) {
            CancelTarget::Task
        } else if self.exclusive == Some(run_id) {
            CancelTarget::Exclusive
        } else {
            CancelTarget::Nothing
        }
    }

    /// Ends the exclusive reservation when `run_id` holds it; otherwise unregisters the
    /// tune run `run_id`, if registered.
    pub fn release(&mut self, run_id: i64)
        requires
            old(self).wf(),
        ensures
            final(self).wf(),
            final(self)@ == released(old(self)@, run_id),
    {
        if self.exclusive == Some(run_id) {
            self.exclusive = None;
            return;
        }
        let i = self.position(run_id);
        if i < self.tasks.len() && self.tasks[i] == run_id {
            let ghost before = self.tasks@;
            self.tasks.remove(i);
            proof {
                let after = self.tasks@;
                assert forall|a: int, b: int| 0 <= a < b < after.len() implies after[a]
                    < after[b] by {
                    let a0 = if a < i { a } else { a + 1 };
                    let b0 = if b < i { b } else { b + 1 };
                    assert(after[a] == before[a0]);
                    assert(after[b] == before[b0]);
                }
                assert(after.to_set() =~= before.to_set().remove(run_id)) by {
                    assert forall|x: i64| after.to_set().contains(x) implies before.to_set().remove(
                        run_id,
                    ).contains(x) by {
                        let k = choose|k: int| 0 <= k < after.len() && after[k] == x;
                        let k0 = if k < i { k } else { k + 1 };
                        assert(after[k] == before[k0]);
                        assert(k0 != i);
                        if k0 < i {
                            assert(before[k0] < before[i as int]);
                        } else {
                            assert(before[i as int] < before[k0]);
                        }
                    }
                    assert forall|x: i64| before.to_set().remove(run_id).contains(x) implies after.to_set().contains(
                        x,
                    ) by {
                        let k = choose|k: int| 0 <= k < before.len() && before[k] == x;
                        if k < i {
                            assert(after[k] == x);
                        } else {
                            assert(k != i);
                            assert(after[k - 1] == x);
                        }
                    }
                }
            }
        } else {
            proof {
                assert forall|j: int| 0 <= j < self.tasks@.len() implies self.tasks@[j]
                    != run_id by {}
                assert(self.tasks@.to_set() =~= self.tasks@.to_set().remove(run_id));
            }
        }
    }

    /// Empties the registry for shutdown, handing back the ids of every registered tune run
    /// (ascending) so each can be cancelled and awaited.
    pub fn take_all(&mut self) -> (r: Vec<i64>)
        requires
            old(self).wf(),
        ensures
            final(self).wf(),
            r@ == old(self).ids(),
            r@.to_set() == old(self)@.tasks,
            final(self)@.tasks == Set::<i64>::empty(),
            final(self)@.exclusive is None,
    {
        let mut taken: Vec<i64> = Vec::new();
        std::mem::swap(&mut taken, &mut self.tasks);
        self.exclusive = None;
        proof {
            assert(self.tasks@.to_set() =~= Set::empty());
        }
        taken
    }
}

/// Law: the registry never lets an exclusive reservation coexist with a registered tune
/// run, whatever sequence of operations produced it.
pub proof fn law_exclusive_never_overlaps_tasks(r: &RunRegistry)
    requires
        r.wf(),
    ensures
        registry_wf(r@),
{
    r.lemma_wf();
}

/// Law: releasing a tune run right after it was registered restores the registry.
pub proof fn law_release_undoes_start(v: RunRegistryView, run_id: i64)
    requires
        v.exclusive is None,
        !v.tasks.contains(run_id),
    ensures
        released(started(v, run_id), run_id) == v,
{
    assert(v.tasks.insert(run_id).remove(run_id) =~= v.tasks);
}

/// Law: releasing an exclusive reservation right after it was taken restores the registry.
pub proof fn law_release_undoes_reserve(v: RunRegistryView, run_id: i64)
    requires
        v.exclusive is None,
    ensures
        released(reserved(v, run_id), run_id) == v,
{
}

} // verus!
