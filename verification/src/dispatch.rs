//! The dispatch loop's state machine.
//!
//! After assembly the dispatcher owns the hotkey table. The surrounding
//! program polls the OS event channel and, per event, calls `on_event`,
//! performs the remote calls the plugin's plan asks for, and calls `finish`.
//! The state machine admits at most one execution at a time: `on_event`
//! demands the idle state, and only `finish` leaves the executing state, so
//! two executions can never overlap. A ghost history of begin and end marks
//! records every execution boundary; every reachable dispatcher's history
//! is serialized.

use crate::plugin::{model_output, plan_next, plan_target, PluginInstance};
use vstd::prelude::*;

verus! {

/// One boundary of a hotkey-triggered execution: the plugin bound to the id
/// begins executing, or ends.
pub enum ExecMark {
    Begin(u32),
    End(u32),
}

/// The two states of the dispatch loop: waiting for an event, or running
/// exactly one plugin's execution.
#[derive(Clone, Copy, PartialEq, Eq, Structural)]
pub enum DispatchState {
    Idle,
    Executing(u32),
}

/// The end mark that closes an execution carries the id its begin opened.
pub open spec fn closes(begin: ExecMark, end: ExecMark) -> bool {
    match (begin, end) {
        (ExecMark::Begin(b), ExecMark::End(e)) => b == e,
        _ => false,
    }
}

/// Begin marks stand at even positions; each odd position holds the end
/// mark of the execution the mark before it began, with the same id: each
/// execution contributes its begin and its matching end before the next
/// begins.
pub open spec fn paired(t: Seq<ExecMark>) -> bool {
    forall|i: int|
        0 <= i < t.len() ==> ((i % 2 == 0 ==> (#[trigger] t[i]) matches ExecMark::Begin(_)) && (i
            % 2 != 0 ==> closes(t[i - 1], t[i])))
}

/// No two executions overlap: between the begin marks of any two
/// executions stands the end mark of an execution.
pub open spec fn serialized(t: Seq<ExecMark>) -> bool {
    forall|i: int, j: int|
        0 <= i < j < t.len() && ((#[trigger] t[i]) matches ExecMark::Begin(_)) && ((#[trigger] t[j]) matches ExecMark::Begin(_))
            ==> exists|k: int| i < k < j && ((#[trigger] t[k]) matches ExecMark::End(_))
}

/// A paired history is serialized: the first execution's end stands right
/// after its begin, before the second execution's begin.
pub proof fn lemma_paired_serialized(t: Seq<ExecMark>)
    requires
        paired(t),
    ensures
        serialized(t),
{
    assert forall|i: int, j: int|
        0 <= i < j < t.len() && ((#[trigger] t[i]) matches ExecMark::Begin(_)) && ((#[trigger] t[j]) matches ExecMark::Begin(_)) implies exists|k: int|
        i < k < j && ((#[trigger] t[k]) matches ExecMark::End(_)) by {
        assert(i % 2 == 0);
        assert(j % 2 == 0);
        assert(i + 1 < j);
        assert((i + 1) % 2 != 0);
        assert(closes(t[i], t[i + 1]));
        assert(t[i + 1] matches ExecMark::End(_));
    }
}

/// The dispatch loop's owned state: the hotkey table built at assembly and
/// the execution state, with the ghost history of execution boundaries.
pub struct Dispatcher {
    hotkey_plugins: Vec<(u32, PluginInstance)>,
    state: DispatchState,
    history: Ghost<Seq<ExecMark>>,
}

impl Dispatcher {
    /// The hotkey table: OS-assigned id to bound plugin instance.
    pub closed spec fn table(self) -> Seq<(u32, PluginInstance)> {
        self.hotkey_plugins@
    }

    /// The execution state the dispatcher is in.
    pub closed spec fn current_state(self) -> DispatchState {
        self.state
    }

    /// Every execution boundary so far, in order.
    pub closed spec fn history(self) -> Seq<ExecMark> {
        self.history@
    }

    pub open spec fn spec_has_id(self, id: u32) -> bool {
        exists|i: int| 0 <= i < self.table().len() && (#[trigger] self.table()[i]).0 == id
    }

    pub open spec fn ids_unique(self) -> bool {
        forall|i: int, j: int|
            0 <= i < j < self.table().len() ==> self.table()[i].0 != self.table()[j].0
    }

    pub open spec fn idle(self) -> bool {
        self.current_state() == DispatchState::Idle
    }

    /// Well-formedness: ids are unique; the history pairs up; an idle
    /// dispatcher has a closed history, an executing one an open last mark
    /// for the id it is executing, and that id stands in the table.
    pub open spec fn wf(self) -> bool {
        &&& self.ids_unique()
        &&& paired(self.history())
        &&& match self.current_state() {
            DispatchState::Idle => self.history().len() % 2 == 0,
            DispatchState::Executing(id) => {
                &&& self.history().len() % 2 == 1
                &&& self.history().last() == ExecMark::Begin(id)
                &&& self.spec_has_id(id)
            },
        }
    }

    /// Serialization law: in every reachable dispatcher, executions never
    /// overlap — each one's end mark stands before the next one's begin.
    pub proof fn lemma_serialized(self)
        requires
            self.wf(),
        ensures
            serialized(self.history()),
    {
        lemma_paired_serialized(self.history());
    }

    /// Takes ownership of the hotkey table built at assembly.
    pub fn new(hotkey_plugins: Vec<(u32, PluginInstance)>) -> (r: Dispatcher)
        requires
            forall|i: int, j: int|
                0 <= i < j < hotkey_plugins@.len() ==> hotkey_plugins@[i].0
                    != hotkey_plugins@[j].0,
        ensures
            r.wf(),
            r.idle(),
            r.table() == hotkey_plugins@,
            r.history() == Seq::<ExecMark>::empty(),
    {
        Dispatcher {
            hotkey_plugins,
            state: DispatchState::Idle,
            history: Ghost(Seq::<ExecMark>::empty()),
        }
    }

    /// A hotkey event arrived. An id outside the table is not an error — it
    /// may belong to another consumer of the OS subsystem — and leaves the
    /// dispatcher idle and unchanged. An id in the table begins that
    /// plugin's execution, blocking further events until `finish`.
    #[verifier::loop_isolation(false)]
    pub fn on_event(&mut self, id: u32) -> (started: bool)
        requires
            old(self).wf(),
            old(self).idle(),
        ensures
            final(self).wf(),
            final(self).table() == old(self).table(),
            started == old(self).spec_has_id(id),
            started ==> final(self).current_state() == DispatchState::Executing(id)
                && final(self).history() == old(self).history().push(ExecMark::Begin(id)),
            !started ==> *final(self) == *old(self),
    {
        let n = self.hotkey_plugins.len();
        let mut i: usize = 0;
        while i < n
            invariant
                *self == *old(self),
                n == self.hotkey_plugins@.len(),
                i <= n,
                forall|k: int| 0 <= k < i ==> (#[trigger] self.hotkey_plugins@[k]).0 != id,
            decreases n - i,
        {
            if self.hotkey_plugins[i].0 == id {
                self.state = DispatchState::Executing(id);
                proof {
                    self.history@ = self.history@.push(ExecMark::Begin(id));
                }
                proof {
                    let h0 = old(self).history();
                    let h = self.history@;
                    assert forall|k: int|
                        0 <= k < h.len() implies ((k % 2 == 0 ==> (#[trigger] h[k])
                        matches ExecMark::Begin(_)) && (k % 2 != 0 ==> closes(h[k - 1], h[k]))) by {
                        if k < h0.len() {
                            assert(h0.push(ExecMark::Begin(id))[k] == h0[k]);
                            if k >= 1 {
                                assert(h0.push(ExecMark::Begin(id))[k - 1] == h0[k - 1]);
                            }
                        } else {
                            assert(h0.push(ExecMark::Begin(id))[k] == ExecMark::Begin(id));
                        }
                    }
                    assert(self.hotkey_plugins@ == old(self).table());
                    assert forall|a: int, b: int|
                        0 <= a < b < self.table().len() implies self.table()[a].0
                        != self.table()[b].0 by {
                        assert(self.table()[a] == old(self).table()[a]);
                        assert(self.table()[b] == old(self).table()[b]);
                    }
                    assert(self.table()[i as int].0 == id);
                }
                return true;
            }
            i = i + 1;
        }
        false
    }

    /// The executing plugin decides its action, given the currently active
    /// scene: the table entry bound to the executing id advances one step
    /// and the scene it wants activated is returned.
    #[verifier::loop_isolation(false)]
    pub fn plan_action(&mut self, current_scene: String) -> (target: String)
        requires
            old(self).wf(),
            old(self).current_state() matches DispatchState::Executing(_),
        ensures
            final(self).wf(),
            final(self).current_state() == old(self).current_state(),
            final(self).history() == old(self).history(),
            final(self).table().len() == old(self).table().len(),
            forall|i: int|
                0 <= i < old(self).table().len() && old(self).current_state()
                    != DispatchState::Executing((#[trigger] old(self).table()[i]).0)
                    ==> final(self).table()[i] == old(self).table()[i],
            forall|i: int|
                0 <= i < old(self).table().len() && old(self).current_state()
                    == DispatchState::Executing((#[trigger] old(self).table()[i]).0) ==> {
                    &&& final(self).table()[i].0 == old(self).table()[i].0
                    &&& final(self).table()[i].1@ == plan_next(
                        old(self).table()[i].1@,
                        current_scene@,
                    )
                    &&& final(self).table()[i].1.spec_binding()
                        == old(self).table()[i].1.spec_binding()
                    &&& target@ == plan_target(old(self).table()[i].1@, current_scene@)
                },
    {
        let id = match self.state {
            DispatchState::Executing(id) => id,
            DispatchState::Idle => vstd::pervasive::unreached(),
        };
        let n = self.hotkey_plugins.len();
        let mut i: usize = 0;
        while i < n
            invariant
                *self == *old(self),
                n == self.hotkey_plugins@.len(),
                i <= n,
                self.spec_has_id(id),
                id == match old(self).current_state() {
                    DispatchState::Executing(eid) => eid,
                    DispatchState::Idle => id,
                },
                forall|k: int| 0 <= k < i ==> (#[trigger] self.hotkey_plugins@[k]).0 != id,
            decreases n - i,
        {
            if self.hotkey_plugins[i].0 == id {
                let ghost before = self.hotkey_plugins@;
                let ghost j = i as int;
                let (eid, mut inst) = self.hotkey_plugins.remove(i);
                let target = inst.execute_plan(current_scene);
                self.hotkey_plugins.insert(i, (eid, inst));
                proof {
                    let stepped = self.hotkey_plugins@[j];
                    let upd = before.update(j, stepped);
                    assert(self.hotkey_plugins@ =~= upd);
                    assert forall|ii: int| 0 <= ii < before.len() implies #[trigger] self.hotkey_plugins@[ii] == (if ii == j {
                        stepped
                    } else {
                        before[ii]
                    }) by {
                        assert(upd[ii] == if ii == j { stepped } else { before[ii] });
                    }
                    assert forall|ii: int| 0 <= ii < before.len() && ii != j implies (#[trigger] before[ii]).0 != id by {
                        if ii < j {
                            assert(before[ii].0 != before[j].0);
                        } else {
                            assert(before[j].0 != before[ii].0);
                        }
                    }
                }
                return target;
            }
            i = i + 1;
        }
        proof {
            assert(false);
        }
        vstd::pervasive::unreached()
    }

    /// The executing plugin's execution returned: the dispatcher goes back
    /// to idle and hands out the plugin's latest output for logging.
    #[verifier::loop_isolation(false)]
    pub fn finish(&mut self) -> (output: String)
        requires
            old(self).wf(),
            old(self).current_state() matches DispatchState::Executing(_),
        ensures
            final(self).wf(),
            final(self).idle(),
            final(self).table() == old(self).table(),
            old(self).current_state() matches DispatchState::Executing(id)
                ==> final(self).history() == old(self).history().push(ExecMark::End(id)),
            forall|i: int|
                0 <= i < old(self).table().len() && old(self).current_state()
                    == DispatchState::Executing((#[trigger] old(self).table()[i]).0) ==> output@
                    == model_output(old(self).table()[i].1@),
    {
        let id = match self.state {
            DispatchState::Executing(id) => id,
            DispatchState::Idle => vstd::pervasive::unreached(),
        };
        let n = self.hotkey_plugins.len();
        let mut i: usize = 0;
        while i < n
            invariant
                *self == *old(self),
                n == self.hotkey_plugins@.len(),
                i <= n,
                self.spec_has_id(id),
                id == match old(self).current_state() {
                    DispatchState::Executing(eid) => eid,
                    DispatchState::Idle => id,
                },
                forall|k: int| 0 <= k < i ==> (#[trigger] self.hotkey_plugins@[k]).0 != id,
            decreases n - i,
        {
            if self.hotkey_plugins[i].0 == id {
                let ghost j = i as int;
                let output = self.hotkey_plugins[i].1.latest_output();
                self.state = DispatchState::Idle;
                proof {
                    self.history@ = self.history@.push(ExecMark::End(id));
                    let h0 = old(self).history();
                    let h = self.history@;
                    assert forall|k: int|
                        0 <= k < h.len() implies ((k % 2 == 0 ==> (#[trigger] h[k])
                        matches ExecMark::Begin(_)) && (k % 2 != 0 ==> closes(h[k - 1], h[k]))) by {
                        if k < h0.len() {
                            assert(h0.push(ExecMark::End(id))[k] == h0[k]);
                            if k >= 1 {
                                assert(h0.push(ExecMark::End(id))[k - 1] == h0[k - 1]);
                            }
                        } else {
                            assert(h0.push(ExecMark::End(id))[k] == ExecMark::End(id));
                            assert(h0.push(ExecMark::End(id))[k - 1] == h0[k - 1]);
                            assert(h0[k - 1] == h0.last());
                        }
                    }
                    assert forall|ii: int|
                        0 <= ii < old(self).table().len() && ii != j implies (#[trigger] old(
                        self,
                    ).table()[ii]).0 != id by {
                        if ii < j {
                            assert(old(self).table()[ii].0 != old(self).table()[j].0);
                        } else {
                            assert(old(self).table()[j].0 != old(self).table()[ii].0);
                        }
                    }
                }
                return output;
            }
            i = i + 1;
        }
        proof {
            assert(false);
        }
        vstd::pervasive::unreached()
    }
}

} // verus!
