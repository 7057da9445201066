//! Evaluation of simple controls and rule-based controls against current
//! network state, and the bookkeeping that advances hydraulic state.
//!
//! Simple controls are evaluated in index order and applied immediately.
//! Rules are evaluated in index order against one snapshot of the network;
//! the actions of each fired branch are collected into a pending list where
//! a later action on the same link replaces an earlier one only with
//! strictly higher priority; the pending list is then applied in order.

use vstd::prelude::*;
use crate::enums::ControlType;
use crate::enums::LinkStatusType;
use crate::enums::NodeType;
use crate::enums::RuleObject;
use crate::enums::RuleOperator;
use crate::enums::RuleStatus;
use crate::enums::RuleVariable;
use crate::model::ActionClause;
use crate::model::ControlRec;
use crate::model::EPANET;
use crate::model::LinkModel;
use crate::model::LinkRec;
use crate::model::NodeModel;
use crate::model::Premise;
use crate::model::RuleModel;
use crate::model::RuleRec;
use crate::model::SolverState;
use crate::errors::EPANETError;
use crate::model::VALUE_LIMIT;

verus! {

/// Net flow into the node at 1-based index `ni`: inflow through links
/// ending there minus outflow through links starting there.
pub open spec fn spec_net_inflow(links: Seq<LinkModel>, ni: i32) -> int
    decreases links.len(),
{
    if links.len() == 0 {
        0
    } else {
        spec_net_inflow(links.drop_last(), ni) + (if links.last().node2 == ni {
            links.last().flow as int
        } else {
            0int
        }) - (if links.last().node1 == ni {
            links.last().flow as int
        } else {
            0int
        })
    }
}

/// The quantity a numeric premise tests, as an unbounded integer.
pub open spec fn spec_premise_value(
    nodes: Seq<NodeModel>,
    links: Seq<LinkModel>,
    htime: i64,
    p: Premise,
) -> int {
    match p.rule_object {
        RuleObject::Node => {
            let n = nodes[p.object_index - 1];
            match p.variable {
                RuleVariable::Demand => n.base_demand as int,
                RuleVariable::Head => n.elevation + n.level,
                RuleVariable::Grade => n.elevation + n.level,
                RuleVariable::Level => n.level as int,
                RuleVariable::Pressure => n.level as int,
                RuleVariable::FillTime => {
                    let net = spec_net_inflow(links, p.object_index);
                    if n.node_type == NodeType::Tank && net > 0 {
                        (n.max_level - n.level) / net
                    } else {
                        i64::MAX as int
                    }
                },
                RuleVariable::DrainTime => {
                    let net = spec_net_inflow(links, p.object_index);
                    if n.node_type == NodeType::Tank && net < 0 {
                        (n.level - n.min_level) / (-net)
                    } else {
                        i64::MAX as int
                    }
                },
                _ => 0,
            }
        },
        RuleObject::Link => {
            let l = links[p.object_index - 1];
            match p.variable {
                RuleVariable::Flow => l.flow as int,
                RuleVariable::Setting => l.setting as int,
                RuleVariable::Power => l.setting as int,
                _ => 0,
            }
        },
        RuleObject::System => match p.variable {
            RuleVariable::Time => htime as int,
            RuleVariable::ClockTime => (htime as int) % 86400,
            _ => 0,
        },
    }
}

/// Whether a link status satisfies a named rule status. The model has no
/// active valve state, so `IsActive` never holds.
pub open spec fn spec_status_matches(ls: LinkStatusType, st: RuleStatus) -> bool {
    match st {
        RuleStatus::IsOpen => ls == LinkStatusType::Open,
        RuleStatus::IsClosed => ls == LinkStatusType::Closed,
        RuleStatus::IsActive => false,
    }
}

/// Whether a premise holds against the given network state.
pub open spec fn spec_premise_holds(
    nodes: Seq<NodeModel>,
    links: Seq<LinkModel>,
    htime: i64,
    p: Premise,
) -> bool {
    if p.variable == RuleVariable::Status {
        match p.status {
            Some(st) => {
                let m = spec_status_matches(links[p.object_index - 1].status, st);
                match p.rule_operator {
                    RuleOperator::Eq | RuleOperator::Is => m,
                    RuleOperator::Ne | RuleOperator::Not => !m,
                    _ => false,
                }
            },
            None => false,
        }
    } else {
        let lhs = spec_premise_value(nodes, links, htime, p);
        let v = p.value as int;
        match p.rule_operator {
            RuleOperator::Eq | RuleOperator::Is => lhs == v,
            RuleOperator::Ne | RuleOperator::Not => lhs != v,
            RuleOperator::Le => lhs <= v,
            RuleOperator::Ge => lhs >= v,
            RuleOperator::Lt | RuleOperator::Below => lhs < v,
            RuleOperator::Gt | RuleOperator::Above => lhs > v,
        }
    }
}

/// Whether the premise list from position `i` on holds, given the running
/// result `acc`: an `OR` premise is consulted only when the running result
/// is false, any other premise fails the rule when the running result is
/// already false.
pub open spec fn spec_premises_hold(
    nodes: Seq<NodeModel>,
    links: Seq<LinkModel>,
    htime: i64,
    prems: Seq<Premise>,
    i: int,
    acc: bool,
) -> bool
    decreases prems.len() - i when 0 <= i <= prems.len()
{
    if i >= prems.len() {
        acc
    } else if prems[i].logical_operator == crate::enums::LogicalOperator::OR {
        if acc {
            spec_premises_hold(nodes, links, htime, prems, i + 1, acc)
        } else {
            spec_premises_hold(
                nodes,
                links,
                htime,
                prems,
                i + 1,
                spec_premise_holds(nodes, links, htime, prems[i]),
            )
        }
    } else {
        if !acc {
            false
        } else {
            spec_premises_hold(
                nodes,
                links,
                htime,
                prems,
                i + 1,
                spec_premise_holds(nodes, links, htime, prems[i]),
            )
        }
    }
}

/// Whether a rule's condition holds against the given network state.
pub open spec fn spec_rule_fires(
    nodes: Seq<NodeModel>,
    links: Seq<LinkModel>,
    htime: i64,
    r: RuleModel,
) -> bool {
    spec_premises_hold(nodes, links, htime, r.premises, 0, true)
}

/// A link after an action is applied to it: a status action writes the
/// status, a setting action writes the setting and opens or closes the
/// link as the setting is nonzero or zero.
pub open spec fn spec_link_after_action(l: LinkModel, a: ActionClause) -> LinkModel {
    let l1 = match a.status {
        Some(st) => LinkModel {
            status: match st {
                RuleStatus::IsClosed => LinkStatusType::Closed,
                RuleStatus::IsOpen | RuleStatus::IsActive => LinkStatusType::Open,
            },
            ..l
        },
        None => l,
    };
    match a.setting {
        Some(v) => LinkModel {
            setting: v,
            status: if v == 0 {
                LinkStatusType::Closed
            } else {
                LinkStatusType::Open
            },
            ..l1
        },
        None => l1,
    }
}

/// The links after one action clause is applied.
pub open spec fn spec_apply_action(links: Seq<LinkModel>, a: ActionClause) -> Seq<LinkModel> {
    links.update(a.link_index - 1, spec_link_after_action(links[a.link_index - 1], a))
}

/// The links after a link setting is applied by a simple control.
pub open spec fn spec_apply_control(links: Seq<LinkModel>, c: ControlRec) -> Seq<LinkModel> {
    let l = links[c.link_index - 1];
    links.update(
        c.link_index - 1,
        LinkModel {
            setting: c.setting,
            status: if c.setting == 0 {
                LinkStatusType::Closed
            } else {
                LinkStatusType::Open
            },
            ..l
        },
    )
}

/// Whether an enabled simple control fires at the given instant.
pub open spec fn spec_control_fires(nodes: Seq<NodeModel>, htime: i64, c: ControlRec) -> bool {
    c.enabled && match c.control_type {
        ControlType::LowLevel => nodes[c.node_index - 1].level < c.level,
        ControlType::HiLevel => nodes[c.node_index - 1].level > c.level,
        ControlType::Timer => htime == c.level,
        ControlType::TimeOfDay => (htime as int) % 86400 == c.level as int,
    }
}

/// The links after the simple controls from position `i` on are evaluated
/// in order, each fired control applying its setting immediately.
pub open spec fn spec_eval_controls(
    nodes: Seq<NodeModel>,
    links: Seq<LinkModel>,
    htime: i64,
    controls: Seq<ControlRec>,
    i: int,
) -> Seq<LinkModel>
    decreases controls.len() - i when 0 <= i <= controls.len()
{
    if i >= controls.len() {
        links
    } else {
        let links2 = if spec_control_fires(nodes, htime, controls[i]) {
            spec_apply_control(links, controls[i])
        } else {
            links
        };
        spec_eval_controls(nodes, links2, htime, controls, i + 1)
    }
}

/// A pending list after one action of the given priority is added: an
/// earlier action on the same link is replaced only by a strictly higher
/// priority; otherwise the new action is dropped; an action on a fresh
/// link is appended.
pub open spec fn spec_add_pending(
    pending: Seq<(ActionClause, u8)>,
    a: ActionClause,
    pr: u8,
    i: int,
) -> Seq<(ActionClause, u8)>
    decreases pending.len() - i when 0 <= i <= pending.len()
{
    if i >= pending.len() {
        pending.push((a, pr))
    } else if pending[i].0.link_index == a.link_index {
        if pr > pending[i].1 {
            pending.update(i, (a, pr))
        } else {
            pending
        }
    } else {
        spec_add_pending(pending, a, pr, i + 1)
    }
}

/// A pending list after the actions from position `i` on are added with
/// the given priority.
pub open spec fn spec_add_actions(
    pending: Seq<(ActionClause, u8)>,
    actions: Seq<ActionClause>,
    pr: u8,
    i: int,
) -> Seq<(ActionClause, u8)>
    decreases actions.len() - i when 0 <= i <= actions.len()
{
    if i >= actions.len() {
        pending
    } else {
        spec_add_actions(spec_add_pending(pending, actions[i], pr, 0), actions, pr, i + 1)
    }
}

/// The effective priority of a rule.
pub open spec fn spec_rule_priority(r: RuleModel) -> u8 {
    match r.priority {
        Some(p) => p,
        None => 0,
    }
}

/// The pending action list after the rules from position `i` on are
/// evaluated against one snapshot of the network: a fired rule contributes
/// its then-actions, a failed rule its else-actions.
pub open spec fn spec_collect_actions(
    nodes: Seq<NodeModel>,
    links: Seq<LinkModel>,
    htime: i64,
    rules: Seq<RuleModel>,
    i: int,
    pending: Seq<(ActionClause, u8)>,
) -> Seq<(ActionClause, u8)>
    decreases rules.len() - i when 0 <= i <= rules.len()
{
    if i >= rules.len() {
        pending
    } else {
        let r = rules[i];
        let pending2 = if !r.enabled {
            pending
        } else if spec_rule_fires(nodes, links, htime, r) {
            spec_add_actions(pending, r.then_actions, spec_rule_priority(r), 0)
        } else {
            spec_add_actions(pending, r.else_actions, spec_rule_priority(r), 0)
        };
        spec_collect_actions(nodes, links, htime, rules, i + 1, pending2)
    }
}

/// The links after the pending actions from position `i` on are applied in
/// order.
pub open spec fn spec_apply_pending(
    links: Seq<LinkModel>,
    pending: Seq<(ActionClause, u8)>,
    i: int,
) -> Seq<LinkModel>
    decreases pending.len() - i when 0 <= i <= pending.len()
{
    if i >= pending.len() {
        links
    } else {
        spec_apply_pending(spec_apply_action(links, pending[i].0), pending, i + 1)
    }
}

/// A link with its flow recomputed from its status and setting: an open
/// link carries its setting as flow, a closed link carries none.
pub open spec fn spec_link_with_flow(l: LinkModel) -> LinkModel {
    LinkModel {
        flow: if l.status == LinkStatusType::Open {
            l.setting
        } else {
            0
        },
        ..l
    }
}

/// The links after one hydraulic solution at the given instant: simple
/// controls are evaluated first, then the rules, then every flow is
/// recomputed.
pub open spec fn spec_run_h_links(
    nodes: Seq<NodeModel>,
    links: Seq<LinkModel>,
    htime: i64,
    controls: Seq<ControlRec>,
    rules: Seq<RuleModel>,
) -> Seq<LinkModel> {
    let l1 = spec_eval_controls(nodes, links, htime, controls, 0);
    let pending = spec_collect_actions(nodes, l1, htime, rules, 0, Seq::empty());
    let l2 = spec_apply_pending(l1, pending, 0);
    l2.map_values(|l: LinkModel| spec_link_with_flow(l))
}

/// Clamping of an unbounded quantity into a closed interval.
pub open spec fn spec_clamp(v: int, lo: i64, hi: i64) -> i64 {
    if v < lo {
        lo
    } else if v > hi {
        hi
    } else {
        v as i64
    }
}

/// A node after one hydraulic time step: a tank integrates its net inflow
/// over the step, clamped to its level bounds; other nodes are unchanged.
pub open spec fn spec_integrate_node(n: NodeModel, net: int, tstep: i64) -> NodeModel {
    if n.node_type == NodeType::Tank {
        NodeModel { level: spec_clamp(n.level + net * tstep, n.min_level, n.max_level), ..n }
    } else {
        n
    }
}

/// The nodes after one hydraulic time step of the given length.
pub open spec fn spec_integrate_tanks(
    nodes: Seq<NodeModel>,
    links: Seq<LinkModel>,
    tstep: i64,
) -> Seq<NodeModel> {
    Seq::new(
        nodes.len(),
        |k: int| spec_integrate_node(nodes[k], spec_net_inflow(links, (k + 1) as i32), tstep),
    )
}



/// Adding an action preserves well-formedness of every pending action.
pub proof fn lemma_add_pending_wf(
    pending: Seq<(ActionClause, u8)>,
    a: ActionClause,
    pr: u8,
    i: int,
    n_links: int,
)
    requires
        0 <= i <= pending.len(),
        forall|q: int|
            0 <= q < pending.len() ==> crate::model::action_wf(
                (#[trigger] pending[q]).0,
                n_links,
            ),
        crate::model::action_wf(a, n_links),
    ensures
        forall|q: int|
            0 <= q < spec_add_pending(pending, a, pr, i).len() ==> crate::model::action_wf(
                (#[trigger] spec_add_pending(pending, a, pr, i)[q]).0,
                n_links,
            ),
    decreases pending.len() - i,
{
    let out = spec_add_pending(pending, a, pr, i);
    if i >= pending.len() {
        assert forall|q: int| 0 <= q < out.len() implies crate::model::action_wf(
            (#[trigger] out[q]).0,
            n_links,
        ) by {
            if q < pending.len() {
                assert(out[q] == pending[q]);
            } else {
                assert(out[q] == (a, pr));
            }
        }
    } else if pending[i].0.link_index == a.link_index {
        assert forall|q: int| 0 <= q < out.len() implies crate::model::action_wf(
            (#[trigger] out[q]).0,
            n_links,
        ) by {
            if pr > pending[i].1 {
                if q != i {
                    assert(out[q] == pending[q]);
                } else {
                    assert(out[q] == (a, pr));
                }
            } else {
                assert(out[q] == pending[q]);
            }
        }
    } else {
        lemma_add_pending_wf(pending, a, pr, i + 1, n_links);
        assert(out == spec_add_pending(pending, a, pr, i + 1));
        assert forall|q: int| 0 <= q < out.len() implies crate::model::action_wf(
            (#[trigger] out[q]).0,
            n_links,
        ) by {
            assert(out[q] == spec_add_pending(pending, a, pr, i + 1)[q]);
        }
    }
    assert forall|q: int| 0 <= q < spec_add_pending(pending, a, pr, i).len()
        implies crate::model::action_wf(
        (#[trigger] spec_add_pending(pending, a, pr, i)[q]).0,
        n_links,
    ) by {
        assert(spec_add_pending(pending, a, pr, i)[q] == out[q]);
    }
}

/// Adding a branch's actions preserves well-formedness of every pending
/// action.
pub proof fn lemma_add_actions_wf(
    pending: Seq<(ActionClause, u8)>,
    actions: Seq<ActionClause>,
    pr: u8,
    i: int,
    n_links: int,
)
    requires
        0 <= i <= actions.len(),
        forall|q: int|
            0 <= q < pending.len() ==> crate::model::action_wf(
                (#[trigger] pending[q]).0,
                n_links,
            ),
        forall|q: int|
            0 <= q < actions.len() ==> crate::model::action_wf(#[trigger] actions[q], n_links),
    ensures
        forall|q: int|
            0 <= q < spec_add_actions(pending, actions, pr, i).len() ==> crate::model::action_wf(
                (#[trigger] spec_add_actions(pending, actions, pr, i)[q]).0,
                n_links,
            ),
    decreases actions.len() - i,
{
    let out = spec_add_actions(pending, actions, pr, i);
    if i < actions.len() {
        lemma_add_pending_wf(pending, actions[i], pr, 0, n_links);
        lemma_add_actions_wf(
            spec_add_pending(pending, actions[i], pr, 0),
            actions,
            pr,
            i + 1,
            n_links,
        );
        assert(out == spec_add_actions(spec_add_pending(pending, actions[i], pr, 0), actions, pr, i + 1));
        assert forall|q: int| 0 <= q < out.len() implies crate::model::action_wf(
            (#[trigger] out[q]).0,
            n_links,
        ) by {
            assert(out[q] == spec_add_actions(
                spec_add_pending(pending, actions[i], pr, 0),
                actions,
                pr,
                i + 1,
            )[q]);
        }
    }
}

/// Net flow into the node at 1-based index `ni`.
#[verifier::loop_isolation(false)]
pub(crate) fn net_inflow_exec(links: &Vec<LinkRec>, ni: i32) -> (r: i128)
    requires
        forall|k: int|
            0 <= k < links@.len() ==> crate::model::val_ok((#[trigger] links@[k])@.flow),
    ensures
        r == spec_net_inflow(links@.map_values(|l: LinkRec| l@), ni),
        -(links@.len() as int) * (VALUE_LIMIT as int) <= r <= (links@.len() as int) * (
        VALUE_LIMIT as int),
{
    let ghost lm = links@.map_values(|l: LinkRec| l@);
    let n = links.len();
    let mut acc: i128 = 0;
    let mut k: usize = 0;
    while k < n
        invariant
            k <= n,
            acc == spec_net_inflow(lm.take(k as int), ni),
            -(k as int) * (VALUE_LIMIT as int) <= acc <= (k as int) * (VALUE_LIMIT as int),
        decreases n - k,
    {
        proof {
            assert(lm.take(k as int + 1).drop_last() =~= lm.take(k as int));
            assert(lm[k as int] == links@[k as int]@);
            assert(crate::model::val_ok(lm[k as int].flow));
            assert((k as int + 1) * (VALUE_LIMIT as int) == (k as int) * (VALUE_LIMIT as int)
                + VALUE_LIMIT) by (nonlinear_arith);
        }
        let l = &links[k];
        if l.node2 == ni {
            acc = acc + l.flow as i128;
        }
        if l.node1 == ni {
            acc = acc - l.flow as i128;
        }
        k = k + 1;
    }
    proof {
        assert(lm.take(n as int) =~= lm);
    }
    acc
}

impl EPANET {
    /// The quantity a numeric premise tests.
    #[verifier::loop_isolation(false)]
    fn premise_value_exec(&self, p: &Premise) -> (r: i64)
        requires
            self.wf(),
            crate::model::premise_wf(
                *p,
                self.nodes_m().len() as int,
                self.links_m().len() as int,
            ),
        ensures
            r as int == spec_premise_value(self.nodes_m(), self.links_m(), self.htime, *p),
    {
        proof {
            assert forall|k: int| 0 <= k < self.links@.len() implies crate::model::val_ok(
                (#[trigger] self.links@[k])@.flow,
            ) by {
                assert(self.links_m()[k] == self.links@[k]@);
                assert(crate::model::link_wf(self.links_m()[k], self.nodes_m().len() as int));
            }
        }
        match p.rule_object {
            RuleObject::Node => {
                let n = &self.nodes[(p.object_index - 1) as usize];
                proof {
                    assert(self.nodes_m()[p.object_index - 1] == self.nodes@[p.object_index - 1]@);
                }
                match p.variable {
                    RuleVariable::Demand => n.base_demand,
                    RuleVariable::Head => n.elevation + n.level,
                    RuleVariable::Grade => n.elevation + n.level,
                    RuleVariable::Level => n.level,
                    RuleVariable::Pressure => n.level,
                    RuleVariable::FillTime => {
                        let net = net_inflow_exec(&self.links, p.object_index);
                        if matches!(n.node_type, NodeType::Tank) && net > 0 {
                            let num = (n.max_level - n.level) as i128;
                            proof {
                                assert(num >= 0);
                            }
                            let q = (num as u128) / (net as u128);
                            proof {
                                assert(q <= num as u128);
                            }
                            q as i64
                        } else {
                            i64::MAX
                        }
                    },
                    RuleVariable::DrainTime => {
                        let net = net_inflow_exec(&self.links, p.object_index);
                        if matches!(n.node_type, NodeType::Tank) && net < 0 {
                            let num = (n.level - n.min_level) as i128;
                            proof {
                                assert(num >= 0);
                            }
                            let q = (num as u128) / ((-net) as u128);
                            proof {
                                assert(q <= num as u128);
                            }
                            q as i64
                        } else {
                            i64::MAX
                        }
                    },
                    _ => 0,
                }
            },
            RuleObject::Link => {
                let l = &self.links[(p.object_index - 1) as usize];
                proof {
                    assert(self.links_m()[p.object_index - 1] == self.links@[p.object_index - 1]@);
                }
                match p.variable {
                    RuleVariable::Flow => l.flow,
                    RuleVariable::Setting => l.setting,
                    RuleVariable::Power => l.setting,
                    _ => 0,
                }
            },
            RuleObject::System => match p.variable {
                RuleVariable::Time => self.htime,
                RuleVariable::ClockTime => self.htime % 86400,
                _ => 0,
            },
        }
    }

    /// Whether a premise holds against the current network state.
    fn premise_holds_exec(&self, p: &Premise) -> (r: bool)
        requires
            self.wf(),
            crate::model::premise_wf(
                *p,
                self.nodes_m().len() as int,
                self.links_m().len() as int,
            ),
        ensures
            r == spec_premise_holds(self.nodes_m(), self.links_m(), self.htime, *p),
    {
        if matches!(p.variable, RuleVariable::Status) {
            let st = match p.status {
                Some(st) => st,
                None => {
                    return false;
                },
            };
            let l = &self.links[(p.object_index - 1) as usize];
            proof {
                assert(self.links_m()[p.object_index - 1] == self.links@[p.object_index - 1]@);
            }
            let m = match st {
                RuleStatus::IsOpen => matches!(l.status, LinkStatusType::Open),
                RuleStatus::IsClosed => matches!(l.status, LinkStatusType::Closed),
                RuleStatus::IsActive => false,
            };
            match p.rule_operator {
                RuleOperator::Eq | RuleOperator::Is => m,
                RuleOperator::Ne | RuleOperator::Not => !m,
                _ => false,
            }
        } else {
            let lhs = self.premise_value_exec(p);
            let v = p.value;
            match p.rule_operator {
                RuleOperator::Eq | RuleOperator::Is => lhs == v,
                RuleOperator::Ne | RuleOperator::Not => lhs != v,
                RuleOperator::Le => lhs <= v,
                RuleOperator::Ge => lhs >= v,
                RuleOperator::Lt | RuleOperator::Below => lhs < v,
                RuleOperator::Gt | RuleOperator::Above => lhs > v,
            }
        }
    }

    /// Whether a stored rule's condition holds against the current network
    /// state.
    #[verifier::loop_isolation(false)]
    fn rule_fires_exec(&self, r: &RuleRec) -> (b: bool)
        requires
            self.wf(),
            crate::model::rule_wf(
                r@,
                self.nodes_m().len() as int,
                self.links_m().len() as int,
            ),
        ensures
            b == spec_rule_fires(self.nodes_m(), self.links_m(), self.htime, r@),
    {
        let n = r.premises.len();
        let mut acc = true;
        let mut k: usize = 0;
        while k < n
            invariant
                k <= n,
                spec_premises_hold(
                    self.nodes_m(),
                    self.links_m(),
                    self.htime,
                    r@.premises,
                    k as int,
                    acc,
                ) == spec_premises_hold(
                    self.nodes_m(),
                    self.links_m(),
                    self.htime,
                    r@.premises,
                    0,
                    true,
                ),
            decreases n - k,
        {
            let p = r.premises[k];
            proof {
                assert(r@.premises[k as int] == p);
            }
            if matches!(p.logical_operator, crate::enums::LogicalOperator::OR) {
                if !acc {
                    acc = self.premise_holds_exec(&p);
                }
            } else {
                if !acc {
                    return false;
                }
                acc = self.premise_holds_exec(&p);
            }
            k = k + 1;
        }
        acc
    }

    /// Applies a fired simple control's setting to its link.
    fn apply_control_exec(&mut self, c: &ControlRec)
        requires
            old(self).wf(),
            1 <= c.link_index <= old(self).links_m().len(),
            crate::model::val_ok(c.setting),
        ensures
            final(self).wf(),
            final(self).same_clock(*old(self)),
            final(self).nodes_m() == old(self).nodes_m(),
            final(self).controls_m() == old(self).controls_m(),
            final(self).rules_m() == old(self).rules_m(),
            final(self).links_m() == spec_apply_control(old(self).links_m(), *c),
    {
        let i = (c.link_index - 1) as usize;
        self.links[i].setting = c.setting;
        self.links[i].status = if c.setting == 0 {
            LinkStatusType::Closed
        } else {
            LinkStatusType::Open
        };
        proof {
            assert(self.links_m() =~= spec_apply_control(old(self).links_m(), *c));
            assert forall|q: int| 0 <= q < self.links_m().len() implies crate::model::link_wf(
                #[trigger] self.links_m()[q],
                self.nodes_m().len() as int,
            ) by {
                assert(crate::model::link_wf(
                    old(self).links_m()[q],
                    old(self).nodes_m().len() as int,
                ));
            }
        }
    }

    /// Applies one pending rule action to its link.
    fn apply_action_exec(&mut self, a: &ActionClause)
        requires
            old(self).wf(),
            crate::model::action_wf(*a, old(self).links_m().len() as int),
        ensures
            final(self).wf(),
            final(self).same_clock(*old(self)),
            final(self).nodes_m() == old(self).nodes_m(),
            final(self).controls_m() == old(self).controls_m(),
            final(self).rules_m() == old(self).rules_m(),
            final(self).links_m() == spec_apply_action(old(self).links_m(), *a),
    {
        let i = (a.link_index - 1) as usize;
        match a.status {
            Some(st) => {
                self.links[i].status = match st {
                    RuleStatus::IsClosed => LinkStatusType::Closed,
                    RuleStatus::IsOpen | RuleStatus::IsActive => LinkStatusType::Open,
                };
            },
            None => {},
        }
        match a.setting {
            Some(v) => {
                self.links[i].setting = v;
                self.links[i].status = if v == 0 {
                    LinkStatusType::Closed
                } else {
                    LinkStatusType::Open
                };
            },
            None => {},
        }
        proof {
            assert(self.links_m() =~= spec_apply_action(old(self).links_m(), *a));
            assert forall|q: int| 0 <= q < self.links_m().len() implies crate::model::link_wf(
                #[trigger] self.links_m()[q],
                self.nodes_m().len() as int,
            ) by {
                assert(crate::model::link_wf(
                    old(self).links_m()[q],
                    old(self).nodes_m().len() as int,
                ));
            }
        }
    }

    /// Adds one action with its priority to the pending list.
    #[verifier::loop_isolation(false)]
    fn add_pending_exec(pending: &mut Vec<(ActionClause, u8)>, a: ActionClause, pr: u8)
        ensures
            final(pending)@ == spec_add_pending(old(pending)@, a, pr, 0),
    {
        let n = pending.len();
        let mut k: usize = 0;
        while k < n
            invariant
                k <= n,
                pending@ == old(pending)@,
                spec_add_pending(pending@, a, pr, k as int) == spec_add_pending(pending@, a, pr, 0),
            decreases n - k,
        {
            if pending[k].0.link_index == a.link_index {
                if pr > pending[k].1 {
                    pending[k] = (a, pr);
                }
                return;
            }
            k = k + 1;
        }
        pending.push((a, pr));
    }

    /// Adds a fired branch's actions to the pending list.
    #[verifier::loop_isolation(false)]
    fn add_actions_exec(pending: &mut Vec<(ActionClause, u8)>, actions: &Vec<ActionClause>, pr: u8)
        ensures
            final(pending)@ == spec_add_actions(old(pending)@, actions@, pr, 0),
    {
        let n = actions.len();
        let mut k: usize = 0;
        while k < n
            invariant
                k <= n,
                spec_add_actions(pending@, actions@, pr, k as int) == spec_add_actions(
                    old(pending)@,
                    actions@,
                    pr,
                    0,
                ),
            decreases n - k,
        {
            Self::add_pending_exec(pending, actions[k], pr);
            k = k + 1;
        }
    }

    /// Computes one hydraulic solution for the current instant: evaluates
    /// the simple controls, then the rules, then recomputes every flow.
    /// Returns the current simulation time in seconds.
    ///
    /// Rule side effects are already reflected in value reads after this
    /// call returns. Fails with code 103 (hydraulics not initialized) when
    /// the hydraulic solver is not initialized or stepping.
    #[verifier::loop_isolation(false)]
    pub fn run_h(&mut self) -> (r: Result<i64, EPANETError>)
        requires
            old(self).wf(),
        ensures
            final(self).wf(),
            final(self).nodes_m() == old(self).nodes_m(),
            final(self).controls_m() == old(self).controls_m(),
            final(self).rules_m() == old(self).rules_m(),
            final(self).duration == old(self).duration,
            final(self).hyd_step == old(self).hyd_step,
            final(self).qual_step == old(self).qual_step,
            final(self).htime == old(self).htime,
            final(self).qtime == old(self).qtime,
            final(self).qual_state == old(self).qual_state,
            final(self).hyd_valid == old(self).hyd_valid,
            match r {
                Ok(t) => {
                    &&& old(self).hyd_state == SolverState::Initialized || old(self).hyd_state
                        == SolverState::Stepping
                    &&& t == old(self).htime
                    &&& final(self).hyd_state == SolverState::Stepping
                    &&& final(self).links_m() == spec_run_h_links(
                        old(self).nodes_m(),
                        old(self).links_m(),
                        old(self).htime,
                        old(self).controls_m(),
                        old(self).rules_m(),
                    )
                },
                Err(e) => {
                    &&& final(self).unchanged(*old(self))
                    &&& final(self).hyd_state == old(self).hyd_state
                    &&& e.code == 103
                    &&& !(old(self).hyd_state == SolverState::Initialized || old(self).hyd_state
                        == SolverState::Stepping)
                },
            },
    {
        if !(matches!(self.hyd_state, SolverState::Initialized) || matches!(
            self.hyd_state,
            SolverState::Stepping,
        )) {
            return Err(EPANETError::new(103));
        }
        let ghost nodes0 = self.nodes_m();
        let ghost links0 = self.links_m();
        let ghost controls0 = self.controls_m();
        let ghost rules0 = self.rules_m();
        let ghost t0 = self.htime;

        // Evaluate simple controls in index order, applying immediately.
        let nc = self.controls.len();
        let mut k: usize = 0;
        while k < nc
            invariant
                k <= nc,
                self.wf(),
                self.nodes_m() == nodes0,
                self.controls_m() == controls0,
                self.rules_m() == rules0,
                self.htime == t0,
                self.same_clock(*old(self)),
                spec_eval_controls(nodes0, self.links_m(), t0, controls0, k as int)
                    == spec_eval_controls(nodes0, links0, t0, controls0, 0),
            decreases nc - k,
        {
            let c = self.controls[k];
            let fires = c.enabled && match c.control_type {
                ControlType::LowLevel => {
                    let n = &self.nodes[(c.node_index - 1) as usize];
                    proof {
                        assert(self.nodes_m()[c.node_index - 1] == self.nodes@[c.node_index - 1]@);
                    }
                    n.level < c.level
                },
                ControlType::HiLevel => {
                    let n = &self.nodes[(c.node_index - 1) as usize];
                    proof {
                        assert(self.nodes_m()[c.node_index - 1] == self.nodes@[c.node_index - 1]@);
                    }
                    n.level > c.level
                },
                ControlType::Timer => self.htime == c.level,
                ControlType::TimeOfDay => self.htime % 86400 == c.level,
            };
            proof {
                assert(fires == spec_control_fires(nodes0, t0, controls0[k as int]));
            }
            if fires {
                self.apply_control_exec(&c);
            }
            k = k + 1;
        }

        // Evaluate the rules against the snapshot, collecting pending
        // actions with priority resolution.
        let ghost links1 = self.links_m();
        let mut pending: Vec<(ActionClause, u8)> = Vec::new();
        let nr = self.rules.len();
        let mut k: usize = 0;
        while k < nr
            invariant
                k <= nr,
                self.wf(),
                self.nodes_m() == nodes0,
                self.links_m() == links1,
                self.controls_m() == controls0,
                self.rules_m() == rules0,
                self.htime == t0,
                self.same_clock(*old(self)),
                spec_collect_actions(nodes0, links1, t0, rules0, k as int, pending@)
                    == spec_collect_actions(nodes0, links1, t0, rules0, 0, Seq::empty()),
                forall|q: int|
                    0 <= q < pending@.len() ==> crate::model::action_wf(
                        (#[trigger] pending@[q]).0,
                        links1.len() as int,
                    ),
            decreases nr - k,
        {
            proof {
                assert(self.rules_m()[k as int] == self.rules@[k as int]@);
            }
            let enabled = self.rules[k].enabled;
            if enabled {
                let fires = {
                    let r = &self.rules[k];
                    self.rule_fires_exec(r)
                };
                let pr = match self.rules[k].priority {
                    Some(p) => p,
                    None => 0,
                };
                if fires {
                    let actions = self.rules[k].then_actions.clone();
                    proof {
                        assert(actions@ =~= self.rules@[k as int].then_actions@);
                        assert(crate::model::rule_wf(
                            self.rules_m()[k as int],
                            self.nodes_m().len() as int,
                            self.links_m().len() as int,
                        ));
                        lemma_add_actions_wf(pending@, actions@, pr, 0, links1.len() as int);
                    }
                    Self::add_actions_exec(&mut pending, &actions, pr);
                } else {
                    let actions = self.rules[k].else_actions.clone();
                    proof {
                        assert(actions@ =~= self.rules@[k as int].else_actions@);
                        assert(crate::model::rule_wf(
                            self.rules_m()[k as int],
                            self.nodes_m().len() as int,
                            self.links_m().len() as int,
                        ));
                        lemma_add_actions_wf(pending@, actions@, pr, 0, links1.len() as int);
                    }
                    Self::add_actions_exec(&mut pending, &actions, pr);
                }
            }
            k = k + 1;
        }

        // Apply the pending actions in order.
        let ghost pending0 = pending@;
        let np = pending.len();
        let mut k: usize = 0;
        while k < np
            invariant
                k <= np,
                np == pending@.len(),
                pending@ == pending0,
                self.wf(),
                self.nodes_m() == nodes0,
                self.controls_m() == controls0,
                self.rules_m() == rules0,
                self.htime == t0,
                self.same_clock(*old(self)),
                spec_apply_pending(self.links_m(), pending0, k as int) == spec_apply_pending(
                    links1,
                    pending0,
                    0,
                ),
                forall|q: int|
                    0 <= q < pending0.len() ==> crate::model::action_wf(
                        (#[trigger] pending0[q]).0,
                        self.links_m().len() as int,
                    ),
            decreases np - k,
        {
            let a = pending[k].0;
            self.apply_action_exec(&a);
            k = k + 1;
        }

        // Recompute every flow from status and setting.
        let nl = self.links.len();
        let ghost links2 = self.links_m();
        let mut k: usize = 0;
        while k < nl
            invariant
                k <= nl,
                nl == self.links@.len(),
                self.nodes_m() == nodes0,
                self.controls_m() == controls0,
                self.rules_m() == rules0,
                self.htime == t0,
                self.same_clock(*old(self)),
                self.links_m().len() == links2.len(),
                forall|q: int|
                    0 <= q < links2.len() ==> crate::model::link_wf(
                        #[trigger] links2[q],
                        nodes0.len() as int,
                    ),
                forall|q: int|
                    k <= q < links2.len() ==> #[trigger] self.links_m()[q] == links2[q],
                forall|q: int|
                    0 <= q < k ==> #[trigger] self.links_m()[q] == spec_link_with_flow(links2[q]),
            decreases nl - k,
        {
            let ghost lmbefore = self.links_m();
            let open_now = matches!(self.links[k].status, LinkStatusType::Open);
            let st = self.links[k].setting;
            self.links[k].flow = if open_now {
                st
            } else {
                0
            };
            proof {
                assert forall|q: int|
                    0 <= q < self.links_m().len() && q != k as int implies #[trigger] self.links_m()[
                    q] == lmbefore[q] by {
                    assert(self.links_m()[q] == self.links@[q]@);
                }
                assert(lmbefore[k as int] == links2[k as int]);
                assert(self.links_m()[k as int] == spec_link_with_flow(links2[k as int]));
            }
            k = k + 1;
        }
        proof {
            assert(self.links_m() =~= links2.map_values(|l: LinkModel| spec_link_with_flow(l)));
        }

        let t = self.htime;
        self.hyd_state = SolverState::Stepping;
        proof {
            assert(self.links_m() == spec_run_h_links(nodes0, links0, t0, controls0, rules0));
            assert forall|q: int| 0 <= q < self.links_m().len() implies crate::model::link_wf(
                #[trigger] self.links_m()[q],
                self.nodes_m().len() as int,
            ) by {
                assert(self.links_m()[q] == spec_link_with_flow(links2[q]));
                assert(crate::model::link_wf(links2[q], nodes0.len() as int));
            }
            assert(self.wf());
        }
        Ok(t)
    }
}

} // verus!
