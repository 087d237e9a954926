//! The supervisor: the process-wide registry of agent lifecycle state and the
//! one-shot approval gate table used for human-in-the-loop gating.
//!
//! This type is the pure state machine behind both tables. A host embeds it
//! in whatever mutual-exclusion wrapper its runtime needs and performs the
//! actual task suspension itself: `open_gate` records a pending gate,
//! `notify_approval` consumes it and yields the decision to deliver, and
//! `finish_wait` turns a delivered (or torn-down) decision into the boolean a
//! waiter receives, denying by default.

use vstd::prelude::*;
use crate::strutil::{str_eq, strs_set, contains_str};
use vstd::string::StringExecFns;

verus! {

/// Lifecycle status of one agent; monotonic, with idle-to-running the only
/// entry transition.
#[derive(Clone, Copy, Debug, PartialEq, Eq, Structural)]
pub enum AgentStatus {
    Idle,
    Running,
    Completed,
    Failed,
}

/// One registry record: a running or finished task.
#[derive(Debug)]
pub struct AgentHandle {
    pub id: String,
    pub agent_type: String,
    pub status: AgentStatus,
}

/// Mathematical model of an `AgentHandle`.
pub struct AgentHandleView {
    pub id: Seq<char>,
    pub agent_type: Seq<char>,
    pub status: AgentStatus,
}

impl View for AgentHandle {
    type V = AgentHandleView;

    open spec fn view(&self) -> AgentHandleView {
        AgentHandleView { id: self.id@, agent_type: self.agent_type@, status: self.status }
    }
}

/// The registry of agents and the table of pending approval gates.
pub struct Supervisor {
    agents: Vec<AgentHandle>,
    gates: Vec<String>,
}

/// The registry after setting the status of the agent with the given id;
/// unchanged when no such agent exists.
pub open spec fn set_status(
    s: Seq<AgentHandleView>,
    id: Seq<char>,
    status: AgentStatus,
) -> Seq<AgentHandleView> {
    s.map_values(
        |a: AgentHandleView|
            if a.id == id {
                AgentHandleView { id: a.id, agent_type: a.agent_type, status }
            } else {
                a
            },
    )
}

/// Notifying `id` consumes its pending approval slot, if present.
pub open spec fn gates_after_notify(g: Set<Seq<char>>, id: Seq<char>) -> Set<Seq<char>> {
    g.remove(id)
}

/// The decision a notification delivers to the waiting task: the approval
/// boolean when a gate was pending, nothing otherwise.
pub open spec fn delivered(g: Set<Seq<char>>, id: Seq<char>, approved: bool) -> Option<bool> {
    if g.contains(id) {
        Some(approved)
    } else {
        None
    }
}

impl Supervisor {
    /// The models of the registry records, in registration order.
    pub closed spec fn agents_seq(&self) -> Seq<AgentHandleView> {
        self.agents@.map_values(|a: AgentHandle| a@)
    }

    /// The ids with a pending approval gate.
    pub closed spec fn gate_ids(&self) -> Set<Seq<char>> {
        strs_set(self.gates@)
    }

    /// Registry ids are unique, as are pending gate ids.
    pub closed spec fn wf(&self) -> bool {
        &&& forall|j: int, k: int|
            0 <= j < k < self.agents@.len() ==> (#[trigger] self.agents@[j])@.id
                != (#[trigger] self.agents@[k])@.id
        &&& forall|j: int, k: int|
            0 <= j < k < self.gates@.len() ==> (#[trigger] self.gates@[j])@
                != (#[trigger] self.gates@[k])@
    }

    /// Whether an agent with this id is registered.
    pub open spec fn has_agent(&self, id: Seq<char>) -> bool {
        exists|j: int| 0 <= j < self.agents_seq().len() && self.agents_seq()[j].id == id
    }

    /// Creates an empty supervisor: no agents, no pending gates.
    pub fn new() -> (r: Self)
        ensures
            r.wf(),
            r.agents_seq() == Seq::<AgentHandleView>::empty(),
            r.gate_ids() == Set::<Seq<char>>::empty(),
    {
        let r = Supervisor { agents: Vec::new(), gates: Vec::new() };
        proof {
            assert(r.agents_seq() =~= Seq::<AgentHandleView>::empty());
            assert(r.gate_ids() =~= Set::<Seq<char>>::empty());
        }
        r
    }

    fn find_agent(&self, id: &str) -> (r: Option<usize>)
        ensures
            match r {
                Some(j) => 0 <= j < self.agents_seq().len() && self.agents_seq()[j as int].id
                    == id@,
                None => !self.has_agent(id@),
            },
    {
        let mut j: usize = 0;
        while j < self.agents.len()
            invariant
                j <= self.agents@.len(),
                forall|k: int| 0 <= k < j ==> (#[trigger] self.agents@[k])@.id != id@,
            decreases self.agents@.len() - j,
        {
            if str_eq(self.agents[j].id.as_str(), id) {
                return Some(j);
            }
            j += 1;
        }
        None
    }

    /// Registers a new agent with status `Idle`.
    ///
    /// An id that is already registered is rejected with an error and the
    /// registry is left unchanged.
    pub fn register_agent(&mut self, id: String, agent_type: String) -> (r: Result<(), String>)
        requires
            old(self).wf(),
        ensures
            final(self).wf(),
            final(self).gate_ids() == old(self).gate_ids(),
            match r {
                Ok(()) => !old(self).has_agent(id@) && final(self).agents_seq() == old(
                    self,
                ).agents_seq().push(
                    AgentHandleView { id: id@, agent_type: agent_type@, status: AgentStatus::Idle },
                ),
                Err(_) => old(self).has_agent(id@) && final(self).agents_seq() == old(
                    self,
                ).agents_seq(),
            },
    {
        match self.find_agent(id.as_str()) {
            Some(_) => Err(String::from_str("agent id is already registered")),
            None => {
                let ghost before = self.agents_seq();
                self.agents.push(AgentHandle { id, agent_type, status: AgentStatus::Idle });
                proof {
                    assert(self.agents_seq() =~= before.push(self.agents@.last()@));
                    assert forall|k: int| 0 <= k < before.len() implies (#[trigger] self.agents@[k])@.id
                        != id@ by {
                        assert(before[k].id == self.agents@[k]@.id);
                    }
                }
                Ok(())
            },
        }
    }

    /// Sets the status of the agent with this id; a no-op when the id is
    /// unknown, since a late status report from a torn-down agent is benign.
    pub fn update_status(&mut self, id: &str, status: AgentStatus)
        requires
            old(self).wf(),
        ensures
            final(self).wf(),
            final(self).gate_ids() == old(self).gate_ids(),
            final(self).agents_seq() == set_status(old(self).agents_seq(), id@, status),
    {
        let ghost before = self.agents_seq();
        match self.find_agent(id) {
            Some(j) => {
                self.agents[j].status = status;
                proof {
                    assert forall|k: int|
                        0 <= k < before.len() && k != j implies (#[trigger] self.agents@[k])@.id
                            != id@ by {}
                    assert(self.agents_seq() =~= set_status(before, id@, status));
                }
            },
            None => {
                proof {
                    assert(self.agents_seq() =~= set_status(before, id@, status));
                }
            },
        }
    }

    /// A snapshot of the registry: one `(id, agent_type, status)` triple per
    /// registered agent, in registration order.
    pub fn list_agents(&self) -> (r: Vec<(String, String, AgentStatus)>)
        ensures
            r@.len() == self.agents_seq().len(),
            forall|k: int|
                0 <= k < r@.len() ==> (#[trigger] r@[k]).0@ == self.agents_seq()[k].id && r@[k].1@
                    == self.agents_seq()[k].agent_type && r@[k].2 == self.agents_seq()[k].status,
    {
        let mut r: Vec<(String, String, AgentStatus)> = Vec::new();
        let mut j: usize = 0;
        while j < self.agents.len()
            invariant
                j <= self.agents@.len(),
                r@.len() == j,
                forall|k: int|
                    0 <= k < j ==> (#[trigger] r@[k]).0@ == self.agents_seq()[k].id && r@[k].1@
                        == self.agents_seq()[k].agent_type && r@[k].2
                        == self.agents_seq()[k].status,
            decreases self.agents@.len() - j,
        {
            let a = &self.agents[j];
            r.push((a.id.clone(), a.agent_type.clone(), a.status));
            j += 1;
        }
        r
    }

    /// Records a pending approval gate for `id`, as registering a waiter
    /// does. Returns whether a pending gate for the same id was already
    /// present (its previous waiter is superseded and should be resolved as
    /// denied by the host).
    pub fn open_gate(&mut self, id: String) -> (r: bool)
        requires
            old(self).wf(),
        ensures
            final(self).wf(),
            final(self).agents_seq() == old(self).agents_seq(),
            final(self).gate_ids() == old(self).gate_ids().insert(id@),
            r == old(self).gate_ids().contains(id@),
    {
        if contains_str(&self.gates, id.as_str()) {
            proof {
                assert(self.gate_ids() =~= self.gate_ids().insert(id@));
            }
            true
        } else {
            let ghost before = self.gates@;
            self.gates.push(id);
            proof {
                assert forall|x: Seq<char>| strs_set(self.gates@).contains(x) implies strs_set(
                    before,
                ).insert(self.gates@.last()@).contains(x) by {
                    let j = choose|j: int|
                        0 <= j < self.gates@.len() && self.gates@[j]@ == x;
                    if j < before.len() {
                        assert(before[j]@ == x);
                    }
                }
                assert forall|x: Seq<char>|
                    strs_set(before).insert(self.gates@.last()@).contains(x) implies strs_set(
                    self.gates@,
                ).contains(x) by {
                    if x == self.gates@.last()@ {
                        assert(self.gates@[self.gates@.len() - 1]@ == x);
                    } else {
                        let j = choose|j: int| 0 <= j < before.len() && before[j]@ == x;
                        assert(self.gates@[j]@ == x);
                    }
                }
                assert(self.gate_ids() =~= old(self).gate_ids().insert(id@));
                assert(self.agents_seq() =~= old(self).agents_seq());
            }
            false
        }
    }

    /// Resolves the pending gate for `id`, if one exists, and removes it.
    ///
    /// Returns the decision to deliver to the waiting task: `Some(approved)`
    /// when a gate was pending, `None` otherwise — so notifying a
    /// non-existent or already-resolved gate is a silent no-op.
    pub fn notify_approval(&mut self, id: &str, approved: bool) -> (r: Option<bool>)
        requires
            old(self).wf(),
        ensures
            final(self).wf(),
            final(self).agents_seq() == old(self).agents_seq(),
            final(self).gate_ids() == gates_after_notify(old(self).gate_ids(), id@),
            r == delivered(old(self).gate_ids(), id@, approved),
    {
        let ghost before = self.gates@;
        let mut j: usize = 0;
        while j < self.gates.len()
            invariant
                j <= self.gates@.len(),
                self.gates@ == before,
                before == old(self).gates@,
                self.agents@ == old(self).agents@,
                old(self).wf(),
                forall|k: int| 0 <= k < j ==> (#[trigger] before[k])@ != id@,
            decreases self.gates@.len() - j,
        {
            if str_eq(self.gates[j].as_str(), id) {
                self.gates.remove(j);
                proof {
                    assert(old(self).wf());
                    assert forall|x: Seq<char>| strs_set(self.gates@).contains(x) implies strs_set(
                        before,
                    ).remove(id@).contains(x) by {
                        let k = choose|k: int|
                            0 <= k < self.gates@.len() && self.gates@[k]@ == x;
                        if k < j {
                            assert(before[k]@ == x);
                        } else {
                            assert(before[k + 1]@ == x);
                        }
                    }
                    assert forall|x: Seq<char>|
                        strs_set(before).remove(id@).contains(x) implies strs_set(
                        self.gates@,
                    ).contains(x) by {
                        let k = choose|k: int| 0 <= k < before.len() && before[k]@ == x;
                        if k < j {
                            assert(self.gates@[k]@ == x);
                        } else {
                            assert(k != j);
                            assert(self.gates@[k - 1]@ == x);
                        }
                    }
                    assert(self.gate_ids() =~= gates_after_notify(strs_set(before), id@));
                    assert(strs_set(before).contains(id@));
                    assert(self.agents_seq() =~= old(self).agents_seq());
                }
                return Some(approved);
            }
            j += 1;
        }
        proof {
            assert(!strs_set(before).contains(id@));
            assert(self.gate_ids() =~= gates_after_notify(strs_set(before), id@));
        }
        None
    }

    /// Tears down the pending gate for `id` without a decision, as a host
    /// does when a waiter is abandoned; the waiter must then be resolved as
    /// denied (`finish_wait(None)`).
    pub fn close_gate(&mut self, id: &str)
        requires
            old(self).wf(),
        ensures
            final(self).wf(),
            final(self).agents_seq() == old(self).agents_seq(),
            final(self).gate_ids() == old(self).gate_ids().remove(id@),
    {
        let _ = self.notify_approval(id, false);
    }
}

/// Maps an optional approval outcome to the waiter's boolean: absence is a
/// denial.
pub fn finish_wait(decision: Option<bool>) -> (r: bool)
    ensures
        r == (decision == Some(true)),
{
    match decision {
        Some(b) => b,
        None => false,
    }
}

/// Resolving an approval slot twice in succession has the same externally
/// observable effect as resolving it once: the second attempt finds nothing
/// pending and is a silent no-op.
pub proof fn lemma_notify_approval_idempotent(
    g: Set<Seq<char>>,
    id: Seq<char>,
    first: bool,
    second: bool,
)
    ensures
        gates_after_notify(gates_after_notify(g, id), id) == gates_after_notify(g, id),
        delivered(gates_after_notify(g, id), id, second) is None,
{
    assert(gates_after_notify(gates_after_notify(g, id), id) =~= gates_after_notify(g, id));
}

} // verus!
