//! The water quality stepping state machine.
//!
//! A quality analysis is driven through open, init, a run/next loop, and
//! close, in lockstep with the hydraulic analysis: `run_q` propagates
//! quality along the links using the flow field hydraulics computed last,
//! and `next_q` advances the quality clock up to the hydraulic clock.
//! Reading quality before `run_q` has consumed the current flow field
//! gives a result computed from the previous one: the run/next order
//! against the hydraulic calls is a caller obligation that the engine does
//! not enforce.

use vstd::prelude::*;
use crate::enums::InitHydOption;
use crate::enums::LinkStatusType;
use crate::errors::EPANETError;
use crate::model::EPANET;
use crate::model::LinkModel;
use crate::model::NodeModel;
use crate::model::SolverState;

verus! {

/// The nodes after quality propagates along the links from position `i`
/// on, in index order: an open link carries the quality of its upstream
/// node to its downstream node, against the sign of its flow.
pub open spec fn spec_transport(
    nodes: Seq<NodeModel>,
    links: Seq<LinkModel>,
    i: int,
) -> Seq<NodeModel>
    decreases links.len() - i when 0 <= i <= links.len()
{
    if i >= links.len() {
        nodes
    } else {
        let l = links[i];
        let in_range = 1 <= l.node1 <= nodes.len() && 1 <= l.node2 <= nodes.len();
        let nodes2 = if l.status == LinkStatusType::Open && l.flow > 0 && in_range {
            nodes.update(
                l.node2 - 1,
                NodeModel { quality: nodes[l.node1 - 1].quality, ..nodes[l.node2 - 1] },
            )
        } else if l.status == LinkStatusType::Open && l.flow < 0 && in_range {
            nodes.update(
                l.node1 - 1,
                NodeModel { quality: nodes[l.node2 - 1].quality, ..nodes[l.node1 - 1] },
            )
        } else {
            nodes
        };
        spec_transport(nodes2, links, i + 1)
    }
}

impl EPANET {
    /// Opens the water quality solver, allocating its workspace.
    ///
    /// Fails with code 105 when the solver is already open.
    pub fn open_q(&mut self) -> (r: Result<(), EPANETError>)
        requires
            old(self).wf(),
        ensures
            final(self).wf(),
            match r {
                Ok(()) => old(self).qual_state == SolverState::Closed && *final(self) == (
                EPANET { qual_state: SolverState::Opened, ..*old(self) }),
                Err(e) => final(self).unchanged(*old(self)) && *final(self) == *old(self)
                    && e.code == 105 && old(self).qual_state != SolverState::Closed,
            },
    {
        if !matches!(self.qual_state, SolverState::Closed) {
            return Err(EPANETError::new(105));
        }
        self.qual_state = SolverState::Opened;
        Ok(())
    }

    /// Initializes the quality analysis: the quality clock returns to zero
    /// and every node returns to its initial quality.
    ///
    /// Fails with code 105 when the solver is not open.
    #[verifier::loop_isolation(false)]
    pub fn init_q(&mut self, _save_flag: InitHydOption) -> (r: Result<(), EPANETError>)
        requires
            old(self).wf(),
        ensures
            final(self).wf(),
            final(self).links_m() == old(self).links_m(),
            final(self).controls_m() == old(self).controls_m(),
            final(self).rules_m() == old(self).rules_m(),
            final(self).duration == old(self).duration,
            final(self).hyd_step == old(self).hyd_step,
            final(self).qual_step == old(self).qual_step,
            final(self).htime == old(self).htime,
            final(self).hyd_state == old(self).hyd_state,
            final(self).hyd_valid == old(self).hyd_valid,
            match r {
                Ok(()) => {
                    &&& old(self).qual_state != SolverState::Closed
                    &&& final(self).qtime == 0
                    &&& final(self).qual_state == SolverState::Initialized
                    &&& final(self).nodes_m() == old(self).nodes_m().map_values(
                        |n: NodeModel| (NodeModel { quality: n.init_qual, ..n }),
                    )
                },
                Err(e) => {
                    &&& final(self).unchanged(*old(self))
                    &&& final(self).qtime == old(self).qtime
                    &&& final(self).qual_state == old(self).qual_state
                    &&& e.code == 105
                    &&& old(self).qual_state == SolverState::Closed
                },
            },
    {
        if matches!(self.qual_state, SolverState::Closed) {
            return Err(EPANETError::new(105));
        }
        let ghost nodes0 = self.nodes_m();
        let nn = self.nodes.len();
        let mut k: usize = 0;
        while k < nn
            invariant
                k <= nn,
                nn == self.nodes@.len(),
                self.links_m() == old(self).links_m(),
                self.controls_m() == old(self).controls_m(),
                self.rules_m() == old(self).rules_m(),
                self.same_clock(*old(self)),
                self.nodes_m().len() == nodes0.len(),
                forall|q: int| k <= q < nodes0.len() ==> #[trigger] self.nodes_m()[q] == nodes0[q],
                forall|q: int|
                    0 <= q < k ==> #[trigger] self.nodes_m()[q] == (NodeModel {
                        quality: nodes0[q].init_qual,
                        ..nodes0[q]
                    }),
            decreases nn - k,
        {
            let ghost before = self.nodes_m();
            proof {
                assert(self.nodes_m()[k as int] == self.nodes@[k as int]@);
            }
            let iq = self.nodes[k].init_qual;
            self.nodes[k].quality = iq;
            proof {
                assert forall|q: int|
                    0 <= q < self.nodes_m().len() && q != k as int implies #[trigger] self.nodes_m()[
                    q] == before[q] by {
                    assert(self.nodes_m()[q] == self.nodes@[q]@);
                }
                assert(self.nodes_m()[k as int] == self.nodes@[k as int]@);
                assert(self.nodes_m()[k as int] =~= (NodeModel {
                    quality: nodes0[k as int].init_qual,
                    ..nodes0[k as int]
                }));
            }
            k = k + 1;
        }
        self.qtime = 0;
        self.qual_state = SolverState::Initialized;
        proof {
            assert(self.nodes_m() =~= nodes0.map_values(
                |n: NodeModel| (NodeModel { quality: n.init_qual, ..n }),
            ));
            assert forall|q: int| 0 <= q < self.nodes_m().len() implies crate::model::node_wf(
                #[trigger] self.nodes_m()[q],
            ) by {
                assert(crate::model::node_wf(nodes0[q]));
            }
        }
        Ok(())
    }

    /// Computes the water quality at the current quality clock instant,
    /// propagating quality along the links using the current flow field,
    /// and returns the current quality time in seconds.
    ///
    /// Fails with code 105 when the solver is not initialized.
    #[verifier::loop_isolation(false)]
    pub fn run_q(&mut self) -> (r: Result<i64, EPANETError>)
        requires
            old(self).wf(),
        ensures
            final(self).wf(),
            final(self).links_m() == old(self).links_m(),
            final(self).controls_m() == old(self).controls_m(),
            final(self).rules_m() == old(self).rules_m(),
            final(self).duration == old(self).duration,
            final(self).hyd_step == old(self).hyd_step,
            final(self).qual_step == old(self).qual_step,
            final(self).htime == old(self).htime,
            final(self).qtime == old(self).qtime,
            final(self).hyd_state == old(self).hyd_state,
            final(self).hyd_valid == old(self).hyd_valid,
            match r {
                Ok(t) => {
                    &&& old(self).qual_state == SolverState::Initialized || old(self).qual_state
                        == SolverState::Stepping
                    &&& t == old(self).qtime
                    &&& final(self).qual_state == SolverState::Stepping
                    &&& final(self).nodes_m() == spec_transport(
                        old(self).nodes_m(),
                        old(self).links_m(),
                        0,
                    )
                },
                Err(e) => {
                    &&& final(self).unchanged(*old(self))
                    &&& final(self).qual_state == old(self).qual_state
                    &&& e.code == 105
                    &&& !(old(self).qual_state == SolverState::Initialized || old(
                        self,
                    ).qual_state == SolverState::Stepping)
                },
            },
    {
        if !(matches!(self.qual_state, SolverState::Initialized) || matches!(
            self.qual_state,
            SolverState::Stepping,
        )) {
            return Err(EPANETError::new(105));
        }
        let ghost nodes0 = self.nodes_m();
        let ghost links0 = self.links_m();
        let nl = self.links.len();
        let mut k: usize = 0;
        while k < nl
            invariant
                k <= nl,
                nl == self.links@.len(),
                self.links_m() == links0,
                self.controls_m() == old(self).controls_m(),
                self.rules_m() == old(self).rules_m(),
                self.same_clock(*old(self)),
                self.nodes_m().len() == nodes0.len(),
                forall|q: int|
                    0 <= q < self.nodes_m().len() ==> crate::model::node_wf(
                        #[trigger] self.nodes_m()[q],
                    ),
                spec_transport(self.nodes_m(), links0, k as int) == spec_transport(
                    nodes0,
                    links0,
                    0,
                ),
            decreases nl - k,
        {
            let ghost before = self.nodes_m();
            proof {
                assert(self.links_m()[k as int] == self.links@[k as int]@);
                assert(crate::model::link_wf(links0[k as int], self.nodes_m().len() as int));
            }
            let is_open = matches!(self.links[k].status, LinkStatusType::Open);
            let fl = self.links[k].flow;
            let n1 = self.links[k].node1;
            let n2 = self.links[k].node2;
            if is_open && fl > 0 {
                proof {
                    assert(self.nodes_m()[n1 as int - 1] == self.nodes@[n1 as int - 1]@);
                }
                let qv = self.nodes[(n1 - 1) as usize].quality;
                self.nodes[(n2 - 1) as usize].quality = qv;
                proof {
                    assert forall|q: int|
                        0 <= q < self.nodes_m().len() && q != n2 as int - 1 implies #[trigger] self
                        .nodes_m()[q] == before[q] by {
                        assert(self.nodes_m()[q] == self.nodes@[q]@);
                    }
                    assert(self.nodes_m()[n2 as int - 1] == self.nodes@[n2 as int - 1]@);
                    assert(self.nodes_m() =~= before.update(
                        n2 as int - 1,
                        (NodeModel { quality: before[n1 as int - 1].quality, ..before[n2 as int
                            - 1] }),
                    ));
                }
            } else if is_open && fl < 0 {
                proof {
                    assert(self.nodes_m()[n2 as int - 1] == self.nodes@[n2 as int - 1]@);
                }
                let qv = self.nodes[(n2 - 1) as usize].quality;
                self.nodes[(n1 - 1) as usize].quality = qv;
                proof {
                    assert forall|q: int|
                        0 <= q < self.nodes_m().len() && q != n1 as int - 1 implies #[trigger] self
                        .nodes_m()[q] == before[q] by {
                        assert(self.nodes_m()[q] == self.nodes@[q]@);
                    }
                    assert(self.nodes_m()[n1 as int - 1] == self.nodes@[n1 as int - 1]@);
                    assert(self.nodes_m() =~= before.update(
                        n1 as int - 1,
                        (NodeModel { quality: before[n2 as int - 1].quality, ..before[n1 as int
                            - 1] }),
                    ));
                }
            }
            k = k + 1;
        }
        proof {
            assert(spec_transport(self.nodes_m(), links0, nl as int) == self.nodes_m());
        }
        let t = self.qtime;
        self.qual_state = SolverState::Stepping;
        Ok(t)
    }

    /// Advances the quality clock up to the hydraulic clock, returning the
    /// elapsed span in seconds. A zero return means the quality solution
    /// has caught up with the hydraulic one.
    ///
    /// Fails with code 105 when the solver is not initialized.
    pub fn next_q(&mut self) -> (r: Result<i64, EPANETError>)
        requires
            old(self).wf(),
        ensures
            final(self).wf(),
            final(self).same_model(*old(self)),
            final(self).duration == old(self).duration,
            final(self).hyd_step == old(self).hyd_step,
            final(self).qual_step == old(self).qual_step,
            final(self).htime == old(self).htime,
            final(self).hyd_state == old(self).hyd_state,
            final(self).hyd_valid == old(self).hyd_valid,
            match r {
                Ok(t) => {
                    &&& old(self).qual_state == SolverState::Initialized || old(self).qual_state
                        == SolverState::Stepping
                    &&& t == (if old(self).htime > old(self).qtime {
                        old(self).htime - old(self).qtime
                    } else {
                        0int
                    })
                    &&& final(self).qtime == old(self).qtime + t
                    &&& final(self).qual_state == SolverState::Stepping
                },
                Err(e) => {
                    &&& final(self).unchanged(*old(self))
                    &&& final(self).qtime == old(self).qtime
                    &&& final(self).qual_state == old(self).qual_state
                    &&& e.code == 105
                    &&& !(old(self).qual_state == SolverState::Initialized || old(
                        self,
                    ).qual_state == SolverState::Stepping)
                },
            },
    {
        if !(matches!(self.qual_state, SolverState::Initialized) || matches!(
            self.qual_state,
            SolverState::Stepping,
        )) {
            return Err(EPANETError::new(105));
        }
        let t: i64 = if self.htime > self.qtime {
            self.htime - self.qtime
        } else {
            0
        };
        self.qtime = self.qtime + t;
        self.qual_state = SolverState::Stepping;
        Ok(t)
    }

    /// Advances the quality solution by one quality time step, propagating
    /// quality once, and returns the time left in the simulation.
    ///
    /// Fails with code 105 when the solver is not initialized.
    pub fn step_q(&mut self) -> (r: Result<i64, EPANETError>)
        requires
            old(self).wf(),
        ensures
            final(self).wf(),
            final(self).links_m() == old(self).links_m(),
            final(self).controls_m() == old(self).controls_m(),
            final(self).rules_m() == old(self).rules_m(),
            final(self).duration == old(self).duration,
            final(self).hyd_step == old(self).hyd_step,
            final(self).qual_step == old(self).qual_step,
            final(self).htime == old(self).htime,
            final(self).hyd_state == old(self).hyd_state,
            final(self).hyd_valid == old(self).hyd_valid,
            match r {
                Ok(t) => {
                    &&& old(self).qual_state == SolverState::Initialized || old(self).qual_state
                        == SolverState::Stepping
                    &&& ({
                        let step = if old(self).duration - old(self).qtime < old(
                            self,
                        ).qual_step {
                            old(self).duration - old(self).qtime
                        } else {
                            old(self).qual_step as int
                        };
                        &&& final(self).qtime == old(self).qtime + step
                        &&& t == old(self).duration - final(self).qtime
                    })
                    &&& final(self).qual_state == SolverState::Stepping
                    &&& final(self).nodes_m() == spec_transport(
                        old(self).nodes_m(),
                        old(self).links_m(),
                        0,
                    )
                },
                Err(e) => {
                    &&& final(self).unchanged(*old(self))
                    &&& final(self).qual_state == old(self).qual_state
                    &&& e.code == 105
                    &&& !(old(self).qual_state == SolverState::Initialized || old(
                        self,
                    ).qual_state == SolverState::Stepping)
                },
            },
    {
        if !(matches!(self.qual_state, SolverState::Initialized) || matches!(
            self.qual_state,
            SolverState::Stepping,
        )) {
            return Err(EPANETError::new(105));
        }
        let remaining = self.duration - self.qtime;
        let step: i64 = if remaining < self.qual_step {
            remaining
        } else {
            self.qual_step
        };
        match self.run_q() {
            Ok(_) => {},
            Err(e) => {
                proof {
                    assert(false);
                }
                return Err(e);
            },
        }
        self.qtime = self.qtime + step;
        Ok(self.duration - self.qtime)
    }

    /// Closes the water quality solver, freeing its workspace and
    /// resetting the quality clock.
    ///
    /// Fails with code 105 when the solver is not open.
    pub fn close_q(&mut self) -> (r: Result<(), EPANETError>)
        requires
            old(self).wf(),
        ensures
            final(self).wf(),
            match r {
                Ok(()) => old(self).qual_state != SolverState::Closed && *final(self) == (
                EPANET { qual_state: SolverState::Closed, qtime: 0, ..*old(self) }),
                Err(e) => final(self).unchanged(*old(self)) && *final(self) == *old(self)
                    && e.code == 105 && old(self).qual_state == SolverState::Closed,
            },
    {
        if matches!(self.qual_state, SolverState::Closed) {
            return Err(EPANETError::new(105));
        }
        self.qual_state = SolverState::Closed;
        self.qtime = 0;
        Ok(())
    }

    /// Solves water quality for the entire duration using the completed
    /// hydraulic solution: opens the solver, initializes qualities, drives
    /// the run/next loop until the quality clock has caught up with the
    /// hydraulic clock at the end of the duration, and closes the solver.
    ///
    /// Fails with code 105 when the solver is already open and code 104
    /// (no hydraulics for water quality analysis) when no completed
    /// hydraulic solution is available.
    pub fn solve_q(&mut self) -> (r: Result<(), EPANETError>)
        requires
            old(self).wf(),
        ensures
            final(self).wf(),
            match r {
                Ok(()) => {
                    &&& old(self).qual_state == SolverState::Closed
                    &&& old(self).hyd_valid
                    &&& ({
                        let nodes1 = old(self).nodes_m().map_values(
                            |n: NodeModel| (NodeModel { quality: n.init_qual, ..n }),
                        );
                        let nodes2 = spec_transport(nodes1, old(self).links_m(), 0);
                        let nodes3 = if old(self).htime > 0 {
                            spec_transport(nodes2, old(self).links_m(), 0)
                        } else {
                            nodes2
                        };
                        final(self).nodes_m() == nodes3
                    })
                    &&& final(self).links_m() == old(self).links_m()
                    &&& final(self).controls_m() == old(self).controls_m()
                    &&& final(self).rules_m() == old(self).rules_m()
                    &&& final(self).qual_state == SolverState::Closed
                    &&& final(self).qtime == 0
                    &&& final(self).htime == old(self).htime
                    &&& final(self).hyd_state == old(self).hyd_state
                },
                Err(e) => {
                    &&& final(self).unchanged(*old(self))
                    &&& (e.code == 105 ==> old(self).qual_state != SolverState::Closed)
                    &&& (e.code == 104 ==> old(self).qual_state == SolverState::Closed && !old(
                        self,
                    ).hyd_valid)
                    &&& (e.code == 105 || e.code == 104)
                },
            },
    {
        if !matches!(self.qual_state, SolverState::Closed) {
            return Err(EPANETError::new(105));
        }
        if !self.hyd_valid {
            return Err(EPANETError::new(104));
        }
        match self.open_q() {
            Ok(()) => {},
            Err(e) => {
                proof {
                    assert(false);
                }
                return Err(e);
            },
        }
        match self.init_q(InitHydOption::Save) {
            Ok(()) => {},
            Err(e) => {
                proof {
                    assert(false);
                }
                return Err(e);
            },
        }
        match self.run_q() {
            Ok(_) => {},
            Err(e) => {
                proof {
                    assert(false);
                }
                return Err(e);
            },
        }
        let t = match self.next_q() {
            Ok(t) => t,
            Err(e) => {
                proof {
                    assert(false);
                }
                return Err(e);
            },
        };
        if t != 0 {
            match self.run_q() {
                Ok(_) => {},
                Err(e) => {
                    proof {
                        assert(false);
                    }
                    return Err(e);
                },
            }
            match self.next_q() {
                Ok(_) => {},
                Err(e) => {
                    proof {
                        assert(false);
                    }
                    return Err(e);
                },
            }
        }
        match self.close_q() {
            Ok(()) => {},
            Err(e) => {
                proof {
                    assert(false);
                }
                return Err(e);
            },
        }
        Ok(())
    }
}

} // verus!
