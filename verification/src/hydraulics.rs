//! The hydraulic stepping state machine.
//!
//! A hydraulic analysis is driven through open, init, a run/next loop, and
//! close. `run_h` computes a solution for the current instant (evaluating
//! simple controls and rules); `next_h` advances the clock to the next
//! hydraulic event — the earlier of the hydraulic time step, a pending
//! timer control, and the end of the duration — and integrates tank levels
//! over the elapsed step. A zero step from `next_h` is the authoritative
//! end-of-simulation signal. `solve_h` performs the whole sequence at
//! once.

use vstd::prelude::*;
use crate::enums::ControlType;
use crate::enums::InitHydOption;
use crate::errors::EPANETError;
use crate::eval::net_inflow_exec;
use crate::eval::spec_clamp;
use crate::eval::spec_integrate_node;
use crate::eval::spec_integrate_tanks;
use crate::eval::spec_net_inflow;
use crate::eval::spec_run_h_links;
use crate::model::ControlRec;
use crate::model::EPANET;
use crate::model::LinkModel;
use crate::model::NodeModel;
use crate::model::ProjectModel;
use crate::model::SolverState;

verus! {

/// The largest step not reaching past the next firing time of any enabled
/// timer control, folded from position `i` with running minimum `cur`.
pub open spec fn spec_clip_controls(
    controls: Seq<ControlRec>,
    htime: i64,
    i: int,
    cur: i64,
) -> i64
    decreases controls.len() - i when 0 <= i <= controls.len()
{
    if i >= controls.len() {
        cur
    } else {
        let c = controls[i];
        let cand: i64 = if c.enabled && c.control_type == ControlType::Timer && c.level > htime {
            (c.level - htime) as i64
        } else if c.enabled && c.control_type == ControlType::TimeOfDay && c.level < 86400 {
            let d = (c.level as int - (htime as int) % 86400) % 86400;
            if d == 0 {
                86400i64
            } else {
                d as i64
            }
        } else {
            cur
        };
        let cur2 = if cand < cur {
            cand
        } else {
            cur
        };
        spec_clip_controls(controls, htime, i + 1, cur2)
    }
}

/// The length of the next hydraulic step: the hydraulic time step, clipped
/// to the end of the duration and to the next timer control event.
pub open spec fn spec_next_tstep_m(
    duration: i64,
    hyd_step: i64,
    htime: i64,
    controls: Seq<ControlRec>,
) -> i64 {
    let base: i64 = if duration - htime < hyd_step {
        (duration - htime) as i64
    } else {
        hyd_step
    };
    spec_clip_controls(controls, htime, 0, base)
}

/// Clipping only shrinks the step and never below one second, except that
/// a zero starting step stays zero.
pub proof fn lemma_clip_bounds(controls: Seq<ControlRec>, htime: i64, i: int, cur: i64)
    requires
        0 <= i <= controls.len(),
        0 <= htime,
        0 <= cur,
    ensures
        0 <= spec_clip_controls(controls, htime, i, cur) <= cur,
        cur >= 1 ==> spec_clip_controls(controls, htime, i, cur) >= 1,
    decreases controls.len() - i,
{
    if i < controls.len() {
        let c = controls[i];
        let cand: i64 = if c.enabled && c.control_type == ControlType::Timer && c.level > htime {
            (c.level - htime) as i64
        } else if c.enabled && c.control_type == ControlType::TimeOfDay && c.level < 86400 {
            let d = (c.level as int - (htime as int) % 86400) % 86400;
            if d == 0 {
                86400i64
            } else {
                d as i64
            }
        } else {
            cur
        };
        let cur2: i64 = if cand < cur {
            cand
        } else {
            cur
        };
        lemma_clip_bounds(controls, htime, i + 1, cur2);
    }
}

/// The next step is zero exactly at the end of the duration and otherwise
/// at least one second, and never reaches past the end of the duration.
pub proof fn lemma_next_tstep_bounds(
    duration: i64,
    hyd_step: i64,
    htime: i64,
    controls: Seq<ControlRec>,
)
    requires
        1 <= hyd_step,
        0 <= htime <= duration,
    ensures
        0 <= spec_next_tstep_m(duration, hyd_step, htime, controls) <= duration - htime,
        spec_next_tstep_m(duration, hyd_step, htime, controls) == 0 <==> htime == duration,
{
    let base: i64 = if duration - htime < hyd_step {
        (duration - htime) as i64
    } else {
        hyd_step
    };
    lemma_clip_bounds(controls, htime, 0, base);
}

/// The project after one hydraulic solution at the current instant.
pub open spec fn spec_run_h_m(p: ProjectModel) -> ProjectModel {
    ProjectModel {
        links: spec_run_h_links(p.nodes, p.links, p.htime, p.controls, p.rules),
        hyd_state: SolverState::Stepping,
        ..p
    }
}

/// The project after the clock advances to the next hydraulic event and
/// tank levels integrate over the elapsed step.
pub open spec fn spec_next_h_m(p: ProjectModel) -> ProjectModel {
    let t = spec_next_tstep_m(p.duration, p.hyd_step, p.htime, p.controls);
    ProjectModel {
        nodes: spec_integrate_tanks(p.nodes, p.links, t),
        htime: (p.htime + t) as i64,
        hyd_valid: p.htime + t == p.duration,
        hyd_state: SolverState::Stepping,
        ..p
    }
}

/// One iteration of the run/next loop.
pub open spec fn spec_step_pair(p: ProjectModel) -> ProjectModel {
    spec_next_h_m(spec_run_h_m(p))
}

/// The project after the run/next loop is driven to its end: iterations
/// advance the clock by at least one second each, and the loop stops after
/// the iteration whose `next` step is zero. That this function is well
/// defined is the termination of the coupled stepping protocol.
pub open spec fn spec_run_to_end(p: ProjectModel) -> ProjectModel
    decreases p.duration - p.htime when 0 <= p.htime <= p.duration && 1 <= p.hyd_step
        via spec_run_to_end_dec
{
    if p.htime >= p.duration {
        spec_next_h_m(spec_run_h_m(p))
    } else {
        spec_run_to_end(spec_step_pair(p))
    }
}

#[via_fn]
proof fn spec_run_to_end_dec(p: ProjectModel) {
    if 0 <= p.htime < p.duration && 1 <= p.hyd_step {
        lemma_next_tstep_bounds(p.duration, p.hyd_step, p.htime, p.controls);
    }
}

/// Number of run/next iterations the loop performs before the zero step
/// ends it.
pub open spec fn spec_steps_to_end(p: ProjectModel) -> nat
    decreases p.duration - p.htime when 0 <= p.htime <= p.duration && 1 <= p.hyd_step
        via spec_steps_to_end_dec
{
    if p.htime >= p.duration {
        1
    } else {
        1 + spec_steps_to_end(spec_step_pair(p))
    }
}

#[via_fn]
proof fn spec_steps_to_end_dec(p: ProjectModel) {
    if 0 <= p.htime < p.duration && 1 <= p.hyd_step {
        lemma_next_tstep_bounds(p.duration, p.hyd_step, p.htime, p.controls);
    }
}

/// The run/next loop ends after finitely many iterations — at most one
/// more than the seconds left on the clock — with the clock at the
/// configured duration (the cumulative elapsed time equals the duration)
/// and with a zero next step, the end-of-simulation signal.
pub proof fn lemma_coupled_stepping_terminates(p: ProjectModel)
    requires
        0 <= p.htime <= p.duration,
        1 <= p.hyd_step,
    ensures
        spec_steps_to_end(p) <= p.duration - p.htime + 1,
        spec_run_to_end(p).htime == p.duration,
        spec_next_tstep_m(
            p.duration,
            p.hyd_step,
            spec_run_to_end(p).htime,
            spec_run_to_end(p).controls,
        ) == 0,
        spec_run_to_end(p).duration == p.duration,
        spec_run_to_end(p).hyd_step == p.hyd_step,
    decreases p.duration - p.htime,
{
    lemma_next_tstep_bounds(p.duration, p.hyd_step, p.htime, p.controls);
    if p.htime < p.duration {
        lemma_coupled_stepping_terminates(spec_step_pair(p));
    } else {
        let q = spec_run_to_end(p);
        lemma_next_tstep_bounds(q.duration, q.hyd_step, q.htime, q.controls);
    }
}

impl EPANET {
    /// Opens the hydraulic solver, allocating its workspace.
    ///
    /// Fails with code 103 when the solver is already open.
    pub fn open_h(&mut self) -> (r: Result<(), EPANETError>)
        requires
            old(self).wf(),
        ensures
            final(self).wf(),
            match r {
                Ok(()) => old(self).hyd_state == SolverState::Closed && *final(self) == (
                EPANET { hyd_state: SolverState::Opened, ..*old(self) }),
                Err(e) => final(self).unchanged(*old(self)) && *final(self) == *old(self)
                    && e.code == 103 && old(self).hyd_state != SolverState::Closed,
            },
    {
        if !matches!(self.hyd_state, SolverState::Closed) {
            return Err(EPANETError::new(103));
        }
        self.hyd_state = SolverState::Opened;
        Ok(())
    }

    /// Initializes the network prior to running a hydraulic analysis: the
    /// clock returns to zero, tanks return to their initial levels, links
    /// return to their initial status and setting, and flows are
    /// re-initialized when the flag asks for it.
    ///
    /// Fails with code 103 when the solver is not open.
    #[verifier::loop_isolation(false)]
    pub fn init_h(&mut self, init_flag: InitHydOption) -> (r: Result<(), EPANETError>)
        requires
            old(self).wf(),
        ensures
            final(self).wf(),
            final(self).controls_m() == old(self).controls_m(),
            final(self).rules_m() == old(self).rules_m(),
            final(self).duration == old(self).duration,
            final(self).hyd_step == old(self).hyd_step,
            final(self).qual_step == old(self).qual_step,
            final(self).qtime == old(self).qtime,
            final(self).qual_state == old(self).qual_state,
            match r {
                Ok(()) => {
                    &&& old(self).hyd_state != SolverState::Closed
                    &&& final(self).htime == 0
                    &&& final(self).hyd_state == SolverState::Initialized
                    &&& final(self).hyd_valid == false
                    &&& final(self).nodes_m() == old(self).nodes_m().map_values(
                        |n: NodeModel| (NodeModel { level: n.init_level, ..n }),
                    )
                    &&& final(self).links_m() == old(self).links_m().map_values(
                        |l: LinkModel|
                            (LinkModel {
                                status: l.init_status,
                                setting: l.init_setting,
                                flow: if init_flag == InitHydOption::InitFlow || init_flag
                                    == InitHydOption::SaveAndInit {
                                    0i64
                                } else {
                                    l.flow
                                },
                                ..l
                            }),
                    )
                },
                Err(e) => {
                    &&& final(self).unchanged(*old(self))
                    &&& final(self).htime == old(self).htime
                    &&& final(self).hyd_state == old(self).hyd_state
                    &&& e.code == 103
                    &&& old(self).hyd_state == SolverState::Closed
                },
            },
    {
        if matches!(self.hyd_state, SolverState::Closed) {
            return Err(EPANETError::new(103));
        }
        let ghost nodes0 = self.nodes_m();
        let ghost links0 = self.links_m();
        let reinit = matches!(init_flag, InitHydOption::InitFlow | InitHydOption::SaveAndInit);
        proof {
            assert(reinit == (init_flag == InitHydOption::InitFlow || init_flag
                == InitHydOption::SaveAndInit));
        }
        let nn = self.nodes.len();
        let mut k: usize = 0;
        while k < nn
            invariant
                k <= nn,
                nn == self.nodes@.len(),
                self.links_m() == links0,
                self.controls_m() == old(self).controls_m(),
                self.rules_m() == old(self).rules_m(),
                self.same_clock(*old(self)),
                self.nodes_m().len() == nodes0.len(),
                forall|q: int| k <= q < nodes0.len() ==> #[trigger] self.nodes_m()[q] == nodes0[q],
                forall|q: int|
                    0 <= q < k ==> #[trigger] self.nodes_m()[q] == (NodeModel {
                        level: nodes0[q].init_level,
                        ..nodes0[q]
                    }),
            decreases nn - k,
        {
            let ghost before = self.nodes_m();
            let lv = self.nodes[k].init_level;
            self.nodes[k].level = lv;
            proof {
                assert forall|q: int|
                    0 <= q < self.nodes_m().len() && q != k as int implies #[trigger] self.nodes_m()[
                    q] == before[q] by {
                    assert(self.nodes_m()[q] == self.nodes@[q]@);
                }
                assert(before[k as int] == nodes0[k as int]);
                assert(lv == nodes0[k as int].init_level);
                assert(self.nodes_m()[k as int] == self.nodes@[k as int]@);
                assert(self.nodes_m()[k as int] == (NodeModel {
                    level: nodes0[k as int].init_level,
                    ..nodes0[k as int]
                }));
            }
            k = k + 1;
        }
        let nl = self.links.len();
        let mut k: usize = 0;
        while k < nl
            invariant
                k <= nl,
                nl == self.links@.len(),
                self.controls_m() == old(self).controls_m(),
                self.rules_m() == old(self).rules_m(),
                self.same_clock(*old(self)),
                self.nodes_m().len() == nodes0.len(),
                forall|q: int|
                    0 <= q < nodes0.len() ==> #[trigger] self.nodes_m()[q] == (NodeModel {
                        level: nodes0[q].init_level,
                        ..nodes0[q]
                    }),
                self.links_m().len() == links0.len(),
                forall|q: int| k <= q < links0.len() ==> #[trigger] self.links_m()[q] == links0[q],
                forall|q: int|
                    0 <= q < k ==> #[trigger] self.links_m()[q] == (LinkModel {
                        status: links0[q].init_status,
                        setting: links0[q].init_setting,
                        flow: if init_flag == InitHydOption::InitFlow || init_flag
                            == InitHydOption::SaveAndInit {
                            0i64
                        } else {
                            links0[q].flow
                        },
                        ..links0[q]
                    }),
            decreases nl - k,
        {
            let ghost before = self.links_m();
            let st = self.links[k].init_status;
            let se = self.links[k].init_setting;
            self.links[k].status = st;
            self.links[k].setting = se;
            if reinit {
                self.links[k].flow = 0;
            }
            proof {
                assert forall|q: int|
                    0 <= q < self.links_m().len() && q != k as int implies #[trigger] self.links_m()[
                    q] == before[q] by {
                    assert(self.links_m()[q] == self.links@[q]@);
                }
                assert(before[k as int] == links0[k as int]);
                assert(self.links_m()[k as int] == self.links@[k as int]@);
                assert(self.links_m()[k as int] =~= (LinkModel {
                    status: links0[k as int].init_status,
                    setting: links0[k as int].init_setting,
                    flow: if init_flag == InitHydOption::InitFlow || init_flag
                        == InitHydOption::SaveAndInit {
                        0i64
                    } else {
                        links0[k as int].flow
                    },
                    ..links0[k as int]
                }));
            }
            k = k + 1;
        }
        self.htime = 0;
        self.hyd_state = SolverState::Initialized;
        self.hyd_valid = false;
        proof {
            assert(self.nodes_m() =~= nodes0.map_values(
                |n: NodeModel| (NodeModel { level: n.init_level, ..n }),
            ));
            assert(self.links_m() =~= links0.map_values(
                |l: LinkModel|
                    (LinkModel {
                        status: l.init_status,
                        setting: l.init_setting,
                        flow: if init_flag == InitHydOption::InitFlow || init_flag
                            == InitHydOption::SaveAndInit {
                            0i64
                        } else {
                            l.flow
                        },
                        ..l
                    }),
            ));
            assert forall|q: int| 0 <= q < self.nodes_m().len() implies crate::model::node_wf(
                #[trigger] self.nodes_m()[q],
            ) by {
                assert(crate::model::node_wf(nodes0[q]));
            }
            assert forall|q: int| 0 <= q < self.links_m().len() implies crate::model::link_wf(
                #[trigger] self.links_m()[q],
                self.nodes_m().len() as int,
            ) by {
                assert(crate::model::link_wf(links0[q], nodes0.len() as int));
            }
        }
        Ok(())
    }

    /// Advances the simulation to the next hydraulic event, integrating
    /// tank levels over the elapsed step, and returns the step length in
    /// seconds. A zero return signals the end of the simulation — it
    /// happens exactly when the clock has reached the duration.
    ///
    /// Fails with code 103 when no solution has been computed yet.
    #[verifier::loop_isolation(false)]
    pub fn next_h(&mut self) -> (r: Result<i64, EPANETError>)
        requires
            old(self).wf(),
        ensures
            final(self).wf(),
            final(self).links_m() == old(self).links_m(),
            final(self).controls_m() == old(self).controls_m(),
            final(self).rules_m() == old(self).rules_m(),
            final(self).duration == old(self).duration,
            final(self).hyd_step == old(self).hyd_step,
            final(self).qual_step == old(self).qual_step,
            final(self).qtime == old(self).qtime,
            final(self).qual_state == old(self).qual_state,
            match r {
                Ok(t) => {
                    &&& old(self).hyd_state == SolverState::Stepping
                    &&& t == spec_next_tstep_m(
                        old(self).duration,
                        old(self).hyd_step,
                        old(self).htime,
                        old(self).controls_m(),
                    )
                    &&& 0 <= t <= old(self).duration - old(self).htime
                    &&& (t == 0 <==> old(self).htime == old(self).duration)
                    &&& final(self).htime == old(self).htime + t
                    &&& final(self).nodes_m() == spec_integrate_tanks(
                        old(self).nodes_m(),
                        old(self).links_m(),
                        t,
                    )
                    &&& final(self).hyd_state == SolverState::Stepping
                    &&& final(self).hyd_valid == (old(self).htime + t == old(self).duration)
                    &&& final(self).m() == spec_next_h_m(old(self).m())
                },
                Err(e) => {
                    &&& final(self).unchanged(*old(self))
                    &&& final(self).htime == old(self).htime
                    &&& final(self).hyd_state == old(self).hyd_state
                    &&& e.code == 103
                    &&& old(self).hyd_state != SolverState::Stepping
                },
            },
    {
        if !matches!(self.hyd_state, SolverState::Stepping) {
            return Err(EPANETError::new(103));
        }
        let ghost nodes0 = self.nodes_m();
        let ghost links0 = self.links_m();
        let ghost controls0 = self.controls_m();

        // The next hydraulic event: the hydraulic step, clipped to the end
        // of the duration and to pending timer controls.
        let remaining = self.duration - self.htime;
        let mut tstep: i64 = if remaining < self.hyd_step {
            remaining
        } else {
            self.hyd_step
        };
        let nc = self.controls.len();
        let mut k: usize = 0;
        while k < nc
            invariant
                k <= nc,
                0 <= tstep,
                spec_clip_controls(controls0, old(self).htime, k as int, tstep)
                    == spec_next_tstep_m(
                    old(self).duration,
                    old(self).hyd_step,
                    old(self).htime,
                    controls0,
                ),
                self.nodes_m() == nodes0,
                self.links_m() == links0,
                self.controls_m() == controls0,
                self.rules_m() == old(self).rules_m(),
                self.same_clock(*old(self)),
            decreases nc - k,
        {
            let c = self.controls[k];
            let cand: i64 = if c.enabled && matches!(c.control_type, ControlType::Timer)
                && c.level > self.htime {
                c.level - self.htime
            } else if c.enabled && matches!(c.control_type, ControlType::TimeOfDay) && c.level
                < 86400 {
                let hmod = self.htime % 86400;
                let d = if c.level >= hmod {
                    c.level - hmod
                } else {
                    c.level - hmod + 86400
                };
                proof {
                    assert(d as int == (c.level as int - (old(self).htime as int) % 86400)
                        % 86400);
                }
                if d == 0 {
                    86400
                } else {
                    d
                }
            } else {
                tstep
            };
            if cand < tstep {
                tstep = cand;
            }
            k = k + 1;
        }
        proof {
            lemma_next_tstep_bounds(
                old(self).duration,
                old(self).hyd_step,
                old(self).htime,
                controls0,
            );
        }

        // Integrate tank levels over the step.
        let nn = self.nodes.len();
        let mut k: usize = 0;
        while k < nn
            invariant
                k <= nn,
                nn == self.nodes@.len(),
                0 <= tstep <= old(self).duration - old(self).htime,
                tstep == spec_next_tstep_m(
                    old(self).duration,
                    old(self).hyd_step,
                    old(self).htime,
                    controls0,
                ),
                self.links_m() == links0,
                self.controls_m() == controls0,
                self.rules_m() == old(self).rules_m(),
                self.same_clock(*old(self)),
                self.nodes_m().len() == nodes0.len(),
                forall|q: int| k <= q < nodes0.len() ==> #[trigger] self.nodes_m()[q] == nodes0[q],
                forall|q: int|
                    0 <= q < k ==> #[trigger] self.nodes_m()[q] == spec_integrate_node(
                        nodes0[q],
                        spec_net_inflow(links0, (q + 1) as i32),
                        tstep,
                    ),
            decreases nn - k,
        {
            let ghost before = self.nodes_m();
            proof {
                assert(self.nodes_m()[k as int] == self.nodes@[k as int]@);
            }
            let is_tank = matches!(self.nodes[k].node_type, crate::enums::NodeType::Tank);
            if is_tank {
                proof {
                    assert(nodes0[k as int].node_type == crate::enums::NodeType::Tank);
                    assert forall|q: int|
                        0 <= q < self.links@.len() implies crate::model::val_ok(
                        (#[trigger] self.links@[q])@.flow,
                    ) by {
                        assert(self.links_m()[q] == self.links@[q]@);
                        assert(self.links_m()[q] == links0[q]);
                        assert(crate::model::link_wf(links0[q], old(self).nodes_m().len() as int));
                    }
                }
                let net = net_inflow_exec(&self.links, (k + 1) as i32);
                let lvl = self.nodes[k].level;
                let mn = self.nodes[k].min_level;
                let mx = self.nodes[k].max_level;
                proof {
                    assert(crate::model::node_wf(nodes0[k as int]));
                }
                let new_level: i64;
                if tstep == 0 {
                    new_level = lvl;
                    proof {
                        assert(lvl == nodes0[k as int].level);
                        assert(mn == nodes0[k as int].min_level);
                        assert(mx == nodes0[k as int].max_level);
                        assert(mn <= lvl <= mx);
                        assert(net * 0 == 0) by (nonlinear_arith);
                        assert(spec_clamp(nodes0[k as int].level + net * 0, mn, mx) == lvl);
                    }
                } else if net > (mx - lvl) as i128 {
                    new_level = mx;
                    proof {
                        assert(net * (tstep as int) >= net * 1) by (nonlinear_arith)
                            requires
                                net > 0,
                                tstep >= 1,
                        ;
                        assert(spec_clamp(nodes0[k as int].level + net * (tstep as int), mn, mx)
                            == mx);
                    }
                } else if net < (mn - lvl) as i128 {
                    new_level = mn;
                    proof {
                        assert(net * (tstep as int) <= net * 1) by (nonlinear_arith)
                            requires
                                net < 0,
                                tstep >= 1,
                        ;
                        assert(spec_clamp(nodes0[k as int].level + net * (tstep as int), mn, mx)
                            == mn);
                    }
                } else {
                    proof {
                        assert(-0x40_0000_0000_0000i128 <= net <= 0x40_0000_0000_0000i128);
                        assert(net * (tstep as int) <= 0x40_0000_0000_0000i128 * (
                        crate::model::VALUE_LIMIT as int) && net * (tstep as int)
                            >= -0x40_0000_0000_0000i128 * (crate::model::VALUE_LIMIT as int))
                            by (nonlinear_arith)
                            requires
                                -0x40_0000_0000_0000i128 <= net <= 0x40_0000_0000_0000i128,
                                0 <= tstep <= crate::model::VALUE_LIMIT,
                        ;
                    }
                    let prod: i128 = net * (tstep as i128);
                    let cand: i128 = (lvl as i128) + prod;
                    new_level = if cand < mn as i128 {
                        mn
                    } else if cand > mx as i128 {
                        mx
                    } else {
                        cand as i64
                    };
                    proof {
                        assert(new_level == spec_clamp(
                            nodes0[k as int].level + net * (tstep as int),
                            mn,
                            mx,
                        ));
                    }
                }
                self.nodes[k].level = new_level;
                proof {
                    assert forall|q: int|
                        0 <= q < self.nodes_m().len() && q != k as int implies #[trigger] self
                        .nodes_m()[q] == before[q] by {
                        assert(self.nodes_m()[q] == self.nodes@[q]@);
                    }
                    assert(self.nodes_m()[k as int] == spec_integrate_node(
                        nodes0[k as int],
                        spec_net_inflow(links0, (k as int + 1) as i32),
                        tstep,
                    ));
                }
            } else {
                proof {
                    assert(self.nodes_m()[k as int] == spec_integrate_node(
                        nodes0[k as int],
                        spec_net_inflow(links0, (k as int + 1) as i32),
                        tstep,
                    ));
                }
            }
            k = k + 1;
        }
        proof {
            assert(self.nodes_m() =~= spec_integrate_tanks(nodes0, links0, tstep));
        }
        self.htime = self.htime + tstep;
        self.hyd_valid = self.htime == self.duration;
        proof {
            assert forall|q: int| 0 <= q < self.nodes_m().len() implies crate::model::node_wf(
                #[trigger] self.nodes_m()[q],
            ) by {
                assert(crate::model::node_wf(nodes0[q]));
                assert(self.nodes_m()[q] == spec_integrate_node(
                    nodes0[q],
                    spec_net_inflow(links0, (q + 1) as i32),
                    tstep,
                ));
            }
        }
        Ok(tstep)
    }

    /// Closes the hydraulic solver, freeing its workspace and resetting
    /// the hydraulic clock.
    ///
    /// Fails with code 103 when the solver is not open.
    pub fn close_h(&mut self) -> (r: Result<(), EPANETError>)
        requires
            old(self).wf(),
        ensures
            final(self).wf(),
            match r {
                Ok(()) => old(self).hyd_state != SolverState::Closed && *final(self) == (
                EPANET { hyd_state: SolverState::Closed, htime: 0, ..*old(self) }),
                Err(e) => final(self).unchanged(*old(self)) && *final(self) == *old(self)
                    && e.code == 103 && old(self).hyd_state == SolverState::Closed,
            },
    {
        if matches!(self.hyd_state, SolverState::Closed) {
            return Err(EPANETError::new(103));
        }
        self.hyd_state = SolverState::Closed;
        self.htime = 0;
        Ok(())
    }

    /// Runs a complete hydraulic analysis: opens the solver, initializes
    /// the network, drives the run/next loop until the zero step signals
    /// the end of the simulation, and closes the solver again.
    ///
    /// Fails with code 103 when the solver is already open.
    pub fn solve_h(&mut self) -> (r: Result<(), EPANETError>)
        requires
            old(self).wf(),
        ensures
            final(self).wf(),
            match r {
                Ok(()) => {
                    &&& old(self).hyd_state == SolverState::Closed
                    &&& ({
                        let p1 = ProjectModel {
                            hyd_state: SolverState::Initialized,
                            htime: 0,
                            hyd_valid: false,
                            nodes: old(self).nodes_m().map_values(
                                |n: NodeModel| (NodeModel { level: n.init_level, ..n }),
                            ),
                            links: old(self).links_m().map_values(
                                |l: LinkModel|
                                    (LinkModel {
                                        status: l.init_status,
                                        setting: l.init_setting,
                                        ..l
                                    }),
                            ),
                            ..old(self).m()
                        };
                        let q = spec_run_to_end(p1);
                        final(self).m() == (ProjectModel {
                            hyd_state: SolverState::Closed,
                            htime: 0,
                            ..q
                        })
                    })
                },
                Err(e) => {
                    &&& final(self).unchanged(*old(self))
                    &&& e.code == 103
                    &&& old(self).hyd_state != SolverState::Closed
                },
            },
    {
        match self.open_h() {
            Ok(()) => {},
            Err(e) => {
                return Err(e);
            },
        }
        match self.init_h(InitHydOption::Save) {
            Ok(()) => {},
            Err(e) => {
                proof {
                    assert(false);
                }
                return Err(e);
            },
        }
        let ghost p1 = self.m();
        proof {
            assert(p1.nodes =~= old(self).nodes_m().map_values(
                |n: NodeModel| (NodeModel { level: n.init_level, ..n }),
            ));
            assert(p1.links =~= old(self).links_m().map_values(
                |l: LinkModel|
                    (LinkModel { status: l.init_status, setting: l.init_setting, ..l }),
            ));
        }
        loop
            invariant_except_break
                self.wf(),
                self.hyd_state == SolverState::Initialized || self.hyd_state
                    == SolverState::Stepping,
                0 <= self.htime <= self.duration,
                spec_run_to_end(self.m()) == spec_run_to_end(p1),
            ensures
                self.wf(),
                self.hyd_state == SolverState::Stepping,
                self.m() == spec_run_to_end(p1),
            decreases self.duration - self.htime,
        {
            let ghost before = self.m();
            match self.run_h() {
                Ok(_) => {},
                Err(e) => {
                    proof {
                        assert(false);
                    }
                    return Err(e);
                },
            }
            proof {
                assert(self.m() == spec_run_h_m(before));
            }
            let t = match self.next_h() {
                Ok(t) => t,
                Err(e) => {
                    proof {
                        assert(false);
                    }
                    return Err(e);
                },
            };
            proof {
                assert(self.m() == spec_step_pair(before));
            }
            if t == 0 {
                proof {
                    assert(before.htime >= before.duration);
                    assert(spec_run_to_end(before) == self.m());
                }
                break;
            }
            proof {
                assert(before.htime < before.duration);
                assert(spec_run_to_end(self.m()) == spec_run_to_end(before));
            }
        }
        match self.close_h() {
            Ok(()) => {},
            Err(e) => {
                proof {
                    assert(false);
                }
                return Err(e);
            },
        }
        proof {
            assert(self.m() == (ProjectModel {
                hyd_state: SolverState::Closed,
                htime: 0,
                ..spec_run_to_end(p1)
            }));
        }
        Ok(())
    }
}

} // verus!
