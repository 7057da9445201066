//! Cascading deletion of nodes and links.
//!
//! Deleting an element with `Unconditional` semantics silently removes
//! every rule and simple control that references it (and, for a node,
//! every connecting link together with their dependents), then shifts the
//! indices of every later element down. Deleting with `Conditional`
//! semantics instead fails while anything still references the element,
//! leaving the model unchanged. After any deletion, previously cached
//! indices above the deleted elements are stale.

use vstd::prelude::*;
use crate::enums::ActionCodeType;
use crate::enums::ControlType;
use crate::enums::RuleObject;
use crate::errors::EPANETError;
use crate::model::ActionClause;
use crate::model::ControlRec;
use crate::model::EPANET;
use crate::model::LinkModel;
use crate::model::LinkRec;
use crate::model::Premise;
use crate::model::RuleModel;
use crate::model::RuleRec;
use crate::model::SolverState;
use crate::model::action_wf;
use crate::model::control_wf;
use crate::model::link_wf;
use crate::model::premise_wf;
use crate::model::rule_wf;
use crate::seq_mask::cnt_removed;
use crate::seq_mask::lemma_cnt_bounds;
use crate::seq_mask::lemma_masked_elements;
use crate::seq_mask::lemma_masked_index;
use crate::seq_mask::lemma_masked_len;
use crate::seq_mask::masked;

verus! {

/// Whether a premise tests the link at 1-based index `li`.
pub open spec fn premise_refs_link(p: Premise, li: i32) -> bool {
    p.rule_object == RuleObject::Link && p.object_index == li
}

/// Whether a premise tests the node at 1-based index `ni`.
pub open spec fn premise_refs_node(p: Premise, ni: i32) -> bool {
    p.rule_object == RuleObject::Node && p.object_index == ni
}

/// Whether an action acts on the link at 1-based index `li`.
pub open spec fn action_refs_link(a: ActionClause, li: i32) -> bool {
    a.link_index == li
}

/// Whether a rule references the link at 1-based index `li` in any clause.
pub open spec fn rule_refs_link(r: RuleModel, li: i32) -> bool {
    ||| exists|k: int| 0 <= k < r.premises.len() && premise_refs_link(#[trigger] r.premises[k], li)
    ||| exists|k: int|
        0 <= k < r.then_actions.len() && action_refs_link(#[trigger] r.then_actions[k], li)
    ||| exists|k: int|
        0 <= k < r.else_actions.len() && action_refs_link(#[trigger] r.else_actions[k], li)
}

/// Whether a rule references the node at 1-based index `ni` in a premise.
pub open spec fn rule_refs_node(r: RuleModel, ni: i32) -> bool {
    exists|k: int| 0 <= k < r.premises.len() && premise_refs_node(#[trigger] r.premises[k], ni)
}

/// Whether a simple control watches the node at 1-based index `ni`.
pub open spec fn control_refs_node(c: ControlRec, ni: i32) -> bool {
    (c.control_type == ControlType::LowLevel || c.control_type == ControlType::HiLevel)
        && c.node_index == ni
}

/// Whether any control or rule references the link at 1-based index `li`.
pub open spec fn spec_link_referenced(
    controls: Seq<ControlRec>,
    rules: Seq<RuleModel>,
    li: i32,
) -> bool {
    ||| exists|k: int| 0 <= k < controls.len() && (#[trigger] controls[k]).link_index == li
    ||| exists|k: int| 0 <= k < rules.len() && rule_refs_link(#[trigger] rules[k], li)
}

/// Whether any control or rule references the node at 1-based index `ni`.
pub open spec fn spec_node_referenced(
    controls: Seq<ControlRec>,
    rules: Seq<RuleModel>,
    ni: i32,
) -> bool {
    ||| exists|k: int| 0 <= k < controls.len() && control_refs_node(#[trigger] controls[k], ni)
    ||| exists|k: int| 0 <= k < rules.len() && rule_refs_node(#[trigger] rules[k], ni)
}

/// A 1-based reference after the element at 1-based index `d` was removed.
pub open spec fn shift_ref(x: i32, d: i32) -> i32 {
    if x > d {
        (x - 1) as i32
    } else {
        x
    }
}

/// A premise after the link at 1-based index `d` was removed.
pub open spec fn premise_after_link_del(p: Premise, d: i32) -> Premise {
    if p.rule_object == RuleObject::Link {
        Premise { object_index: shift_ref(p.object_index, d), ..p }
    } else {
        p
    }
}

/// An action after the link at 1-based index `d` was removed.
pub open spec fn action_after_link_del(a: ActionClause, d: i32) -> ActionClause {
    ActionClause { link_index: shift_ref(a.link_index, d), ..a }
}

/// A rule after the link at 1-based index `d` was removed.
pub open spec fn rule_after_link_del(r: RuleModel, d: i32) -> RuleModel {
    RuleModel {
        premises: r.premises.map_values(|p: Premise| premise_after_link_del(p, d)),
        then_actions: r.then_actions.map_values(|a: ActionClause| action_after_link_del(a, d)),
        else_actions: r.else_actions.map_values(|a: ActionClause| action_after_link_del(a, d)),
        ..r
    }
}

/// A control after the link at 1-based index `d` was removed.
pub open spec fn control_after_link_del(c: ControlRec, d: i32) -> ControlRec {
    ControlRec { link_index: shift_ref(c.link_index, d), ..c }
}

/// The mask of controls removed together with the link at `d`.
pub open spec fn control_mask_for_link(controls: Seq<ControlRec>, d: i32) -> Seq<bool> {
    Seq::new(controls.len(), |k: int| controls[k].link_index == d)
}

/// The mask of rules removed together with the link at `d`.
pub open spec fn rule_mask_for_link(rules: Seq<RuleModel>, d: i32) -> Seq<bool> {
    Seq::new(rules.len(), |k: int| rule_refs_link(rules[k], d))
}


/// Whether a link connects to the node at 1-based index `ni`.
pub open spec fn spec_incident(l: LinkModel, ni: i32) -> bool {
    l.node1 == ni || l.node2 == ni
}

/// The mask of links removed together with the node at `ni`.
pub open spec fn link_mask_for_node(links: Seq<LinkModel>, ni: i32) -> Seq<bool> {
    Seq::new(links.len(), |k: int| spec_incident(links[k], ni))
}

/// A 1-based link reference after the masked links were removed.
pub open spec fn link_ref_after(lmask: Seq<bool>, x: i32) -> i32 {
    (x - cnt_removed(lmask, x - 1)) as i32
}

/// Whether a premise tests one of the masked links.
pub open spec fn premise_hits_links(p: Premise, lmask: Seq<bool>) -> bool {
    p.rule_object == RuleObject::Link && 1 <= p.object_index <= lmask.len() && lmask[
        p.object_index - 1]
}

/// Whether an action acts on one of the masked links.
pub open spec fn action_hits_links(a: ActionClause, lmask: Seq<bool>) -> bool {
    1 <= a.link_index <= lmask.len() && lmask[a.link_index - 1]
}

/// Whether a rule is removed by deleting the node at `ni`: it references
/// the node, or one of the links removed with it.
pub open spec fn rule_removed_for_node(r: RuleModel, ni: i32, lmask: Seq<bool>) -> bool {
    ||| rule_refs_node(r, ni)
    ||| exists|k: int| 0 <= k < r.premises.len() && premise_hits_links(#[trigger] r.premises[k], lmask)
    ||| exists|k: int|
        0 <= k < r.then_actions.len() && action_hits_links(#[trigger] r.then_actions[k], lmask)
    ||| exists|k: int|
        0 <= k < r.else_actions.len() && action_hits_links(#[trigger] r.else_actions[k], lmask)
}

/// Whether a simple control is removed by deleting the node at `ni`.
pub open spec fn control_removed_for_node(c: ControlRec, ni: i32, lmask: Seq<bool>) -> bool {
    control_refs_node(c, ni) || (1 <= c.link_index <= lmask.len() && lmask[c.link_index - 1])
}

/// The mask of rules removed together with the node at `ni`.
pub open spec fn rule_mask_for_node(rules: Seq<RuleModel>, ni: i32, lmask: Seq<bool>) -> Seq<
    bool,
> {
    Seq::new(rules.len(), |k: int| rule_removed_for_node(rules[k], ni, lmask))
}

/// The mask of controls removed together with the node at `ni`.
pub open spec fn control_mask_for_node(
    controls: Seq<ControlRec>,
    ni: i32,
    lmask: Seq<bool>,
) -> Seq<bool> {
    Seq::new(controls.len(), |k: int| control_removed_for_node(controls[k], ni, lmask))
}

/// A link after the node at 1-based index `ni` was removed.
pub open spec fn link_after_node_del(l: LinkModel, ni: i32) -> LinkModel {
    LinkModel { node1: shift_ref(l.node1, ni), node2: shift_ref(l.node2, ni), ..l }
}

/// A premise after the node at `ni` and the masked links were removed.
pub open spec fn premise_after_node_del(p: Premise, ni: i32, lmask: Seq<bool>) -> Premise {
    if p.rule_object == RuleObject::Node {
        Premise { object_index: shift_ref(p.object_index, ni), ..p }
    } else if p.rule_object == RuleObject::Link {
        Premise { object_index: link_ref_after(lmask, p.object_index), ..p }
    } else {
        p
    }
}

/// An action after the masked links were removed.
pub open spec fn action_after_node_del(a: ActionClause, lmask: Seq<bool>) -> ActionClause {
    ActionClause { link_index: link_ref_after(lmask, a.link_index), ..a }
}

/// A rule after the node at `ni` and the masked links were removed.
pub open spec fn rule_after_node_del(r: RuleModel, ni: i32, lmask: Seq<bool>) -> RuleModel {
    RuleModel {
        premises: r.premises.map_values(|p: Premise| premise_after_node_del(p, ni, lmask)),
        then_actions: r.then_actions.map_values(|a: ActionClause| action_after_node_del(a, lmask)),
        else_actions: r.else_actions.map_values(|a: ActionClause| action_after_node_del(a, lmask)),
        ..r
    }
}

/// A control after the node at `ni` and the masked links were removed.
pub open spec fn control_after_node_del(c: ControlRec, ni: i32, lmask: Seq<bool>) -> ControlRec {
    ControlRec {
        node_index: shift_ref(c.node_index, ni),
        link_index: link_ref_after(lmask, c.link_index),
        ..c
    }
}

impl EPANET {
    /// Whether a stored rule references the link at 1-based index `li`.
    fn rule_refs_link_exec(r: &RuleRec, li: i32) -> (b: bool)
        ensures
            b == rule_refs_link(r@, li),
    {
        let mut k: usize = 0;
        let n = r.premises.len();
        while k < n
            invariant
                n == r.premises@.len(),
                k <= n,
                forall|q: int| 0 <= q < k ==> !premise_refs_link(#[trigger] r.premises@[q], li),
            decreases n - k,
        {
            let p = r.premises[k];
            if matches!(p.rule_object, RuleObject::Link) && p.object_index == li {
                proof {
                    assert(premise_refs_link(r@.premises[k as int], li));
                }
                return true;
            }
            k = k + 1;
        }
        let mut k: usize = 0;
        let n = r.then_actions.len();
        while k < n
            invariant
                n == r.then_actions@.len(),
                k <= n,
                forall|q: int|
                    0 <= q < r.premises@.len() ==> !premise_refs_link(
                        #[trigger] r.premises@[q],
                        li,
                    ),
                forall|q: int| 0 <= q < k ==> !action_refs_link(#[trigger] r.then_actions@[q], li),
            decreases n - k,
        {
            if r.then_actions[k].link_index == li {
                proof {
                    assert(action_refs_link(r@.then_actions[k as int], li));
                }
                return true;
            }
            k = k + 1;
        }
        let mut k: usize = 0;
        let n = r.else_actions.len();
        while k < n
            invariant
                n == r.else_actions@.len(),
                k <= n,
                forall|q: int|
                    0 <= q < r.premises@.len() ==> !premise_refs_link(
                        #[trigger] r.premises@[q],
                        li,
                    ),
                forall|q: int|
                    0 <= q < r.then_actions@.len() ==> !action_refs_link(
                        #[trigger] r.then_actions@[q],
                        li,
                    ),
                forall|q: int| 0 <= q < k ==> !action_refs_link(#[trigger] r.else_actions@[q], li),
            decreases n - k,
        {
            if r.else_actions[k].link_index == li {
                proof {
                    assert(action_refs_link(r@.else_actions[k as int], li));
                }
                return true;
            }
            k = k + 1;
        }
        false
    }

    /// Whether any control or rule references the link at 1-based index
    /// `li`.
    fn link_referenced_exec(&self, li: i32) -> (b: bool)
        ensures
            b == spec_link_referenced(self.controls_m(), self.rules_m(), li),
    {
        let mut k: usize = 0;
        let n = self.controls.len();
        while k < n
            invariant
                n == self.controls@.len(),
                k <= n,
                forall|q: int| 0 <= q < k ==> (#[trigger] self.controls_m()[q]).link_index != li,
            decreases n - k,
        {
            if self.controls[k].link_index == li {
                return true;
            }
            k = k + 1;
        }
        let mut k: usize = 0;
        let n = self.rules.len();
        while k < n
            invariant
                n == self.rules@.len(),
                k <= n,
                forall|q: int|
                    0 <= q < self.controls_m().len() ==> (
                    #[trigger] self.controls_m()[q]).link_index != li,
                forall|q: int| 0 <= q < k ==> !rule_refs_link(#[trigger] self.rules_m()[q], li),
            decreases n - k,
        {
            if Self::rule_refs_link_exec(&self.rules[k], li) {
                proof {
                    assert(self.rules_m()[k as int] == self.rules@[k as int]@);
                }
                return true;
            }
            proof {
                assert(self.rules_m()[k as int] == self.rules@[k as int]@);
            }
            k = k + 1;
        }
        false
    }

    /// A copy of a stored rule with every link reference above `d` shifted
    /// down by one.
    fn shift_rule_after_link_del(r: &RuleRec, d: i32) -> (out: RuleRec)
        requires
            d >= 1,
        ensures
            out@ == rule_after_link_del(r@, d),
    {
        let mut premises: Vec<Premise> = Vec::new();
        let mut k: usize = 0;
        let n = r.premises.len();
        while k < n
            invariant
                n == r.premises@.len(),
                k <= n,
                d >= 1,
                premises@ == r.premises@.take(k as int).map_values(
                    |p: Premise| premise_after_link_del(p, d),
                ),
            decreases n - k,
        {
            let p = r.premises[k];
            let q = if matches!(p.rule_object, RuleObject::Link) && p.object_index > d {
                Premise { object_index: p.object_index - 1, ..p }
            } else {
                p
            };
            premises.push(q);
            proof {
                assert(r.premises@.take(k as int + 1).drop_last() =~= r.premises@.take(k as int));
                assert(premises@ =~= r.premises@.take(k as int + 1).map_values(
                    |p: Premise| premise_after_link_del(p, d),
                ));
            }
            k = k + 1;
        }
        let mut thens: Vec<ActionClause> = Vec::new();
        let mut k: usize = 0;
        let n = r.then_actions.len();
        while k < n
            invariant
                n == r.then_actions@.len(),
                k <= n,
                d >= 1,
                thens@ == r.then_actions@.take(k as int).map_values(
                    |a: ActionClause| action_after_link_del(a, d),
                ),
            decreases n - k,
        {
            let a = r.then_actions[k];
            let q = if a.link_index > d {
                ActionClause { link_index: a.link_index - 1, ..a }
            } else {
                a
            };
            thens.push(q);
            proof {
                assert(r.then_actions@.take(k as int + 1).drop_last() =~= r.then_actions@.take(
                    k as int,
                ));
                assert(thens@ =~= r.then_actions@.take(k as int + 1).map_values(
                    |a: ActionClause| action_after_link_del(a, d),
                ));
            }
            k = k + 1;
        }
        let mut elses: Vec<ActionClause> = Vec::new();
        let mut k: usize = 0;
        let n = r.else_actions.len();
        while k < n
            invariant
                n == r.else_actions@.len(),
                k <= n,
                d >= 1,
                elses@ == r.else_actions@.take(k as int).map_values(
                    |a: ActionClause| action_after_link_del(a, d),
                ),
            decreases n - k,
        {
            let a = r.else_actions[k];
            let q = if a.link_index > d {
                ActionClause { link_index: a.link_index - 1, ..a }
            } else {
                a
            };
            elses.push(q);
            proof {
                assert(r.else_actions@.take(k as int + 1).drop_last() =~= r.else_actions@.take(
                    k as int,
                ));
                assert(elses@ =~= r.else_actions@.take(k as int + 1).map_values(
                    |a: ActionClause| action_after_link_del(a, d),
                ));
            }
            k = k + 1;
        }
        proof {
            assert(r.premises@.take(r.premises@.len() as int) =~= r.premises@);
            assert(r.then_actions@.take(r.then_actions@.len() as int) =~= r.then_actions@);
            assert(r.else_actions@.take(r.else_actions@.len() as int) =~= r.else_actions@);
        }
        RuleRec {
            rule_id: r.rule_id.clone(),
            premises,
            then_actions: thens,
            else_actions: elses,
            priority: r.priority,
            enabled: r.enabled,
        }
    }

    /// Deletes the link at the given 1-based index.
    ///
    /// With `Conditional` semantics the deletion fails with code 261 while
    /// any control or rule references the link, leaving the model
    /// unchanged. Otherwise every such control and rule is silently
    /// removed, the link is removed, and every link reference above the
    /// index shifts down by one. Fails with code 204 (undefined link) when
    /// the index is out of range and code 262 while a solver is open.
    pub fn delete_link(&mut self, index: i32, action_code: ActionCodeType) -> (r: Result<
        (),
        EPANETError,
    >)
        requires
            old(self).wf(),
        ensures
            final(self).wf(),
            final(self).same_clock(*old(self)),
            final(self).nodes_m() == old(self).nodes_m(),
            match r {
                Ok(()) => {
                    &&& !old(self).spec_solver_open()
                    &&& 1 <= index <= old(self).links_m().len()
                    &&& (action_code == ActionCodeType::Conditional ==> !spec_link_referenced(
                        old(self).controls_m(),
                        old(self).rules_m(),
                        index,
                    ))
                    &&& final(self).links_m() == old(self).links_m().remove(index as int - 1)
                    &&& final(self).controls_m() == masked(
                        old(self).controls_m(),
                        control_mask_for_link(old(self).controls_m(), index),
                    ).map_values(|c: ControlRec| control_after_link_del(c, index))
                    &&& final(self).rules_m() == masked(
                        old(self).rules_m(),
                        rule_mask_for_link(old(self).rules_m(), index),
                    ).map_values(|r: RuleModel| rule_after_link_del(r, index))
                },
                Err(e) => {
                    &&& final(self).unchanged(*old(self))
                    &&& (e.code == 262 <==> old(self).spec_solver_open())
                    &&& (e.code == 204 ==> !(1 <= index <= old(self).links_m().len()))
                    &&& (e.code == 261 ==> action_code == ActionCodeType::Conditional
                        && spec_link_referenced(
                        old(self).controls_m(),
                        old(self).rules_m(),
                        index,
                    ))
                    &&& (e.code == 262 || e.code == 204 || e.code == 261)
                },
            },
    {
        if !matches!(self.hyd_state, SolverState::Closed)
            || !matches!(self.qual_state, SolverState::Closed) {
            return Err(EPANETError::new(262));
        }
        if index < 1 || index as usize > self.links.len() {
            return Err(EPANETError::new(204));
        }
        let referenced = self.link_referenced_exec(index);
        if matches!(action_code, ActionCodeType::Conditional) && referenced {
            return Err(EPANETError::new(261));
        }

        let ghost old_controls = self.controls_m();
        let ghost old_rules = self.rules_m();
        let ghost cmask = control_mask_for_link(old_controls, index);
        let ghost rmask = rule_mask_for_link(old_rules, index);

        // Rebuild the controls, dropping those acting on the link and
        // shifting the link references of the rest.
        let mut new_controls: Vec<ControlRec> = Vec::new();
        let mut k: usize = 0;
        let n = self.controls.len();
        while k < n
            invariant
                n == self.controls@.len(),
                self.controls_m() == old_controls,
                cmask == control_mask_for_link(old_controls, index),
                1 <= index,
                k <= n,
                new_controls@ == masked(old_controls.take(k as int), cmask).map_values(
                    |c: ControlRec| control_after_link_del(c, index),
                ),
            decreases n - k,
        {
            let c = self.controls[k];
            proof {
                assert(old_controls.take(k as int + 1).drop_last() =~= old_controls.take(
                    k as int,
                ));
            }
            if c.link_index != index {
                let shifted = ControlRec {
                    link_index: if c.link_index > index {
                        c.link_index - 1
                    } else {
                        c.link_index
                    },
                    ..c
                };
                new_controls.push(shifted);
                proof {
                    assert(masked(old_controls.take(k as int + 1), cmask) =~= masked(
                        old_controls.take(k as int),
                        cmask,
                    ).push(old_controls[k as int]));
                    assert(new_controls@ =~= masked(old_controls.take(k as int + 1), cmask)
                        .map_values(|c: ControlRec| control_after_link_del(c, index)));
                }
            } else {
                proof {
                    assert(masked(old_controls.take(k as int + 1), cmask) =~= masked(
                        old_controls.take(k as int),
                        cmask,
                    ));
                }
            }
            k = k + 1;
        }

        // Rebuild the rules, dropping those referencing the link and
        // shifting the link references of the rest.
        let mut new_rules: Vec<RuleRec> = Vec::new();
        let mut k: usize = 0;
        let n = self.rules.len();
        while k < n
            invariant
                n == self.rules@.len(),
                self.rules_m() == old_rules,
                rmask == rule_mask_for_link(old_rules, index),
                1 <= index,
                k <= n,
                new_rules@.map_values(|r: RuleRec| r@) == masked(
                    old_rules.take(k as int),
                    rmask,
                ).map_values(|r: RuleModel| rule_after_link_del(r, index)),
            decreases n - k,
        {
            proof {
                assert(old_rules.take(k as int + 1).drop_last() =~= old_rules.take(k as int));
                assert(self.rules_m()[k as int] == self.rules@[k as int]@);
            }
            let keep = !Self::rule_refs_link_exec(&self.rules[k], index);
            if keep {
                let ghost before = new_rules@;
                let shifted = Self::shift_rule_after_link_del(&self.rules[k], index);
                new_rules.push(shifted);
                proof {
                    assert(shifted@ == rule_after_link_del(old_rules[k as int], index));
                    assert(masked(old_rules.take(k as int + 1), rmask) =~= masked(
                        old_rules.take(k as int),
                        rmask,
                    ).push(old_rules[k as int]));
                    assert(new_rules@ == before.push(shifted));
                    assert(new_rules@.map_values(|r: RuleRec| r@) =~= before.map_values(
                        |r: RuleRec| r@,
                    ).push(shifted@));
                    assert(new_rules@.map_values(|r: RuleRec| r@) =~= masked(
                        old_rules.take(k as int + 1),
                        rmask,
                    ).map_values(|r: RuleModel| rule_after_link_del(r, index)));
                }
            } else {
                proof {
                    assert(masked(old_rules.take(k as int + 1), rmask) =~= masked(
                        old_rules.take(k as int),
                        rmask,
                    ));
                }
            }
            k = k + 1;
        }

        self.links.remove((index - 1) as usize);
        self.controls = new_controls;
        self.rules = new_rules;

        proof {
            assert(old_controls.take(old_controls.len() as int) =~= old_controls);
            assert(old_rules.take(old_rules.len() as int) =~= old_rules);
            assert(self.links_m() =~= old(self).links_m().remove(index as int - 1));
            self.lemma_wf_after_link_del(*old(self), index, cmask, rmask);
        }
        Ok(())
    }


    /// Whether a stored rule references the node at 1-based index `ni` in
    /// a premise.
    fn rule_refs_node_exec(r: &RuleRec, ni: i32) -> (b: bool)
        ensures
            b == rule_refs_node(r@, ni),
    {
        let mut k: usize = 0;
        let n = r.premises.len();
        while k < n
            invariant
                n == r.premises@.len(),
                k <= n,
                forall|q: int| 0 <= q < k ==> !premise_refs_node(#[trigger] r.premises@[q], ni),
            decreases n - k,
        {
            let p = r.premises[k];
            if matches!(p.rule_object, RuleObject::Node) && p.object_index == ni {
                proof {
                    assert(premise_refs_node(r@.premises[k as int], ni));
                }
                return true;
            }
            k = k + 1;
        }
        false
    }

    /// Whether any control or rule references the node at 1-based index
    /// `ni`.
    fn node_referenced_exec(&self, ni: i32) -> (b: bool)
        ensures
            b == spec_node_referenced(self.controls_m(), self.rules_m(), ni),
    {
        let mut k: usize = 0;
        let n = self.controls.len();
        while k < n
            invariant
                n == self.controls@.len(),
                k <= n,
                forall|q: int| 0 <= q < k ==> !control_refs_node(#[trigger] self.controls_m()[q], ni),
            decreases n - k,
        {
            let c = self.controls[k];
            if matches!(c.control_type, ControlType::LowLevel | ControlType::HiLevel)
                && c.node_index == ni {
                return true;
            }
            k = k + 1;
        }
        let mut k: usize = 0;
        let n = self.rules.len();
        while k < n
            invariant
                n == self.rules@.len(),
                k <= n,
                forall|q: int|
                    0 <= q < self.controls_m().len() ==> !control_refs_node(
                        #[trigger] self.controls_m()[q],
                        ni,
                    ),
                forall|q: int| 0 <= q < k ==> !rule_refs_node(#[trigger] self.rules_m()[q], ni),
            decreases n - k,
        {
            proof {
                assert(self.rules_m()[k as int] == self.rules@[k as int]@);
            }
            if Self::rule_refs_node_exec(&self.rules[k], ni) {
                return true;
            }
            k = k + 1;
        }
        false
    }

    /// Whether a stored rule is removed by deleting the node at `ni`
    /// together with the marked links.
    fn rule_removed_for_node_exec(r: &RuleRec, ni: i32, removed: &Vec<bool>) -> (b: bool)
        ensures
            b == rule_removed_for_node(r@, ni, removed@),
    {
        let nl = removed.len();
        let mut k: usize = 0;
        let n = r.premises.len();
        while k < n
            invariant
                n == r.premises@.len(),
                k <= n,
                nl == removed@.len(),
                forall|q: int| 0 <= q < k ==> !premise_refs_node(#[trigger] r.premises@[q], ni),
                forall|q: int|
                    0 <= q < k ==> !premise_hits_links(#[trigger] r.premises@[q], removed@),
            decreases n - k,
        {
            let p = r.premises[k];
            if matches!(p.rule_object, RuleObject::Node) && p.object_index == ni {
                proof {
                    assert(premise_refs_node(r@.premises[k as int], ni));
                }
                return true;
            }
            if matches!(p.rule_object, RuleObject::Link) && 1 <= p.object_index
                && p.object_index as usize <= nl && removed[(p.object_index - 1) as usize] {
                proof {
                    assert(premise_hits_links(r@.premises[k as int], removed@));
                }
                return true;
            }
            k = k + 1;
        }
        let mut k: usize = 0;
        let n = r.then_actions.len();
        while k < n
            invariant
                n == r.then_actions@.len(),
                k <= n,
                nl == removed@.len(),
                forall|q: int|
                    0 <= q < r.premises@.len() ==> !premise_refs_node(
                        #[trigger] r.premises@[q],
                        ni,
                    ),
                forall|q: int|
                    0 <= q < r.premises@.len() ==> !premise_hits_links(
                        #[trigger] r.premises@[q],
                        removed@,
                    ),
                forall|q: int|
                    0 <= q < k ==> !action_hits_links(#[trigger] r.then_actions@[q], removed@),
            decreases n - k,
        {
            let a = r.then_actions[k];
            if 1 <= a.link_index && a.link_index as usize <= nl && removed[(a.link_index
                - 1) as usize] {
                proof {
                    assert(action_hits_links(r@.then_actions[k as int], removed@));
                }
                return true;
            }
            k = k + 1;
        }
        let mut k: usize = 0;
        let n = r.else_actions.len();
        while k < n
            invariant
                n == r.else_actions@.len(),
                k <= n,
                nl == removed@.len(),
                forall|q: int|
                    0 <= q < r.premises@.len() ==> !premise_refs_node(
                        #[trigger] r.premises@[q],
                        ni,
                    ),
                forall|q: int|
                    0 <= q < r.premises@.len() ==> !premise_hits_links(
                        #[trigger] r.premises@[q],
                        removed@,
                    ),
                forall|q: int|
                    0 <= q < r.then_actions@.len() ==> !action_hits_links(
                        #[trigger] r.then_actions@[q],
                        removed@,
                    ),
                forall|q: int|
                    0 <= q < k ==> !action_hits_links(#[trigger] r.else_actions@[q], removed@),
            decreases n - k,
        {
            let a = r.else_actions[k];
            if 1 <= a.link_index && a.link_index as usize <= nl && removed[(a.link_index
                - 1) as usize] {
                proof {
                    assert(action_hits_links(r@.else_actions[k as int], removed@));
                }
                return true;
            }
            k = k + 1;
        }
        false
    }

    /// A copy of a stored rule with its node references above `ni` shifted
    /// down by one and its link references renumbered after the masked
    /// links were removed.
    #[verifier::loop_isolation(false)]
    fn shift_rule_after_node_del(
        r: &RuleRec,
        ni: i32,
        cnt: &Vec<i32>,
        Ghost(lmask): Ghost<Seq<bool>>,
    ) -> (out: RuleRec)
        requires
            ni >= 1,
            cnt@.len() == lmask.len(),
            forall|q: int| 0 <= q < cnt@.len() ==> cnt@[q] == cnt_removed(lmask, q),
            forall|q: int|
                0 <= q < r@.premises.len() ==> (((#[trigger] r@.premises[q]).rule_object
                    == RuleObject::Link) ==> 1 <= r@.premises[q].object_index <= lmask.len()),
            forall|q: int|
                0 <= q < r@.then_actions.len() ==> 1 <= (#[trigger] r@.then_actions[q]).link_index
                    <= lmask.len(),
            forall|q: int|
                0 <= q < r@.else_actions.len() ==> 1 <= (#[trigger] r@.else_actions[q]).link_index
                    <= lmask.len(),
        ensures
            out@ == rule_after_node_del(r@, ni, lmask),
    {
        let mut premises: Vec<Premise> = Vec::new();
        let mut k: usize = 0;
        let n = r.premises.len();
        while k < n
            invariant
                k <= n,
                premises@ == r.premises@.take(k as int).map_values(
                    |p: Premise| premise_after_node_del(p, ni, lmask),
                ),
            decreases n - k,
        {
            let p = r.premises[k];
            let q = if matches!(p.rule_object, RuleObject::Node) {
                Premise {
                    object_index: if p.object_index > ni {
                        p.object_index - 1
                    } else {
                        p.object_index
                    },
                    ..p
                }
            } else if matches!(p.rule_object, RuleObject::Link) {
                proof {
                    lemma_cnt_bounds(lmask, p.object_index - 1);
                }
                Premise { object_index: p.object_index - cnt[(p.object_index - 1) as usize], ..p }
            } else {
                p
            };
            premises.push(q);
            proof {
                assert(r.premises@.take(k as int + 1).drop_last() =~= r.premises@.take(k as int));
                assert(premises@ =~= r.premises@.take(k as int + 1).map_values(
                    |p: Premise| premise_after_node_del(p, ni, lmask),
                ));
            }
            k = k + 1;
        }
        let mut thens: Vec<ActionClause> = Vec::new();
        let mut k: usize = 0;
        let n = r.then_actions.len();
        while k < n
            invariant
                k <= n,
                thens@ == r.then_actions@.take(k as int).map_values(
                    |a: ActionClause| action_after_node_del(a, lmask),
                ),
            decreases n - k,
        {
            let a = r.then_actions[k];
            proof {
                lemma_cnt_bounds(lmask, a.link_index - 1);
            }
            let q = ActionClause { link_index: a.link_index - cnt[(a.link_index - 1) as usize], ..a };
            thens.push(q);
            proof {
                assert(r.then_actions@.take(k as int + 1).drop_last() =~= r.then_actions@.take(
                    k as int,
                ));
                assert(thens@ =~= r.then_actions@.take(k as int + 1).map_values(
                    |a: ActionClause| action_after_node_del(a, lmask),
                ));
            }
            k = k + 1;
        }
        let mut elses: Vec<ActionClause> = Vec::new();
        let mut k: usize = 0;
        let n = r.else_actions.len();
        while k < n
            invariant
                k <= n,
                elses@ == r.else_actions@.take(k as int).map_values(
                    |a: ActionClause| action_after_node_del(a, lmask),
                ),
            decreases n - k,
        {
            let a = r.else_actions[k];
            proof {
                lemma_cnt_bounds(lmask, a.link_index - 1);
            }
            let q = ActionClause { link_index: a.link_index - cnt[(a.link_index - 1) as usize], ..a };
            elses.push(q);
            proof {
                assert(r.else_actions@.take(k as int + 1).drop_last() =~= r.else_actions@.take(
                    k as int,
                ));
                assert(elses@ =~= r.else_actions@.take(k as int + 1).map_values(
                    |a: ActionClause| action_after_node_del(a, lmask),
                ));
            }
            k = k + 1;
        }
        proof {
            assert(r.premises@.take(r.premises@.len() as int) =~= r.premises@);
            assert(r.then_actions@.take(r.then_actions@.len() as int) =~= r.then_actions@);
            assert(r.else_actions@.take(r.else_actions@.len() as int) =~= r.else_actions@);
        }
        RuleRec {
            rule_id: r.rule_id.clone(),
            premises,
            then_actions: thens,
            else_actions: elses,
            priority: r.priority,
            enabled: r.enabled,
        }
    }

    /// Deletes the node at the given 1-based index.
    ///
    /// With `Conditional` semantics the deletion fails with code 259 while
    /// the node still has connecting links and with code 261 while any
    /// control or rule references it, leaving the model unchanged.
    /// Otherwise the node, its connecting links, and every control and
    /// rule referencing any of them are silently removed, and every
    /// surviving index shifts down past the removed elements. Fails with
    /// code 203 (undefined node) when the index is out of range and code
    /// 262 while a solver is open.
    #[verifier::loop_isolation(false)]
    pub fn delete_node(&mut self, index: i32, action_code: ActionCodeType) -> (r: Result<
        (),
        EPANETError,
    >)
        requires
            old(self).wf(),
        ensures
            final(self).wf(),
            final(self).same_clock(*old(self)),
            ({
                let lmask = link_mask_for_node(old(self).links_m(), index);
                let cmask = control_mask_for_node(old(self).controls_m(), index, lmask);
                let rmask = rule_mask_for_node(old(self).rules_m(), index, lmask);
                match r {
                    Ok(()) => {
                        &&& !old(self).spec_solver_open()
                        &&& 1 <= index <= old(self).nodes_m().len()
                        &&& (action_code == ActionCodeType::Conditional ==> !spec_node_referenced(
                            old(self).controls_m(),
                            old(self).rules_m(),
                            index,
                        ) && (forall|q: int|
                            0 <= q < old(self).links_m().len() ==> !spec_incident(
                                #[trigger] old(self).links_m()[q],
                                index,
                            )))
                        &&& final(self).nodes_m() == old(self).nodes_m().remove(index as int - 1)
                        &&& final(self).links_m() == masked(old(self).links_m(), lmask).map_values(
                            |l: LinkModel| link_after_node_del(l, index),
                        )
                        &&& final(self).controls_m() == masked(
                            old(self).controls_m(),
                            cmask,
                        ).map_values(|c: ControlRec| control_after_node_del(c, index, lmask))
                        &&& final(self).rules_m() == masked(old(self).rules_m(), rmask).map_values(
                            |r: RuleModel| rule_after_node_del(r, index, lmask),
                        )
                    },
                    Err(e) => {
                        &&& final(self).unchanged(*old(self))
                        &&& (e.code == 262 <==> old(self).spec_solver_open())
                        &&& (e.code == 203 ==> !(1 <= index <= old(self).nodes_m().len()))
                        &&& (e.code == 259 ==> action_code == ActionCodeType::Conditional
                            && exists|q: int|
                            0 <= q < old(self).links_m().len() && spec_incident(
                                #[trigger] old(self).links_m()[q],
                                index,
                            ))
                        &&& (e.code == 261 ==> action_code == ActionCodeType::Conditional
                            && spec_node_referenced(
                            old(self).controls_m(),
                            old(self).rules_m(),
                            index,
                        ))
                        &&& (e.code == 262 || e.code == 203 || e.code == 259 || e.code == 261)
                    },
                }
            }),
    {
        if !matches!(self.hyd_state, SolverState::Closed)
            || !matches!(self.qual_state, SolverState::Closed) {
            return Err(EPANETError::new(262));
        }
        if index < 1 || index as usize > self.nodes.len() {
            return Err(EPANETError::new(203));
        }
        let ghost old_links = self.links_m();
        let ghost old_controls = self.controls_m();
        let ghost old_rules = self.rules_m();
        let ghost lmask = link_mask_for_node(old_links, index);
        let ghost cmask = control_mask_for_node(old_controls, index, lmask);
        let ghost rmask = rule_mask_for_node(old_rules, index, lmask);

        // Mark the connecting links and compute, for every position, how
        // many marked links lie below it.
        let nl = self.links.len();
        let mut removed: Vec<bool> = Vec::new();
        let mut cnt: Vec<i32> = Vec::new();
        let mut counter: i32 = 0;
        let mut any_incident = false;
        let mut k: usize = 0;
        while k < nl
            invariant
                k <= nl,
                removed@.len() == k,
                cnt@.len() == k,
                forall|q: int| 0 <= q < k ==> removed@[q] == lmask[q],
                forall|q: int| 0 <= q < k ==> cnt@[q] == cnt_removed(lmask, q),
                counter == cnt_removed(lmask, k as int),
                0 <= counter <= k,
                any_incident == exists|q: int| 0 <= q < k && lmask[q],
            decreases nl - k,
        {
            let inc = self.links[k].node1 == index || self.links[k].node2 == index;
            proof {
                assert(self.links_m()[k as int] == self.links@[k as int]@);
                assert(lmask[k as int] == spec_incident(self.links_m()[k as int], index));
            }
            cnt.push(counter);
            removed.push(inc);
            if inc {
                counter = counter + 1;
                any_incident = true;
            }
            k = k + 1;
        }
        proof {
            assert(removed@ =~= lmask);
        }

        if matches!(action_code, ActionCodeType::Conditional) {
            if any_incident {
                return Err(EPANETError::new(259));
            }
            if self.node_referenced_exec(index) {
                return Err(EPANETError::new(261));
            }
        }

        // Rebuild the links, dropping the connecting ones and shifting the
        // node references of the rest.
        let mut new_links: Vec<LinkRec> = Vec::new();
        let mut k: usize = 0;
        while k < nl
            invariant
                k <= nl,
                new_links@.map_values(|l: LinkRec| l@) == masked(
                    old_links.take(k as int),
                    lmask,
                ).map_values(|l: LinkModel| link_after_node_del(l, index)),
            decreases nl - k,
        {
            proof {
                assert(old_links.take(k as int + 1).drop_last() =~= old_links.take(k as int));
                assert(self.links_m()[k as int] == self.links@[k as int]@);
            }
            if !removed[k] {
                let ghost before = new_links@;
                let l = &self.links[k];
                let shifted = LinkRec {
                    id: l.id.clone(),
                    link_type: l.link_type,
                    node1: if l.node1 > index {
                        l.node1 - 1
                    } else {
                        l.node1
                    },
                    node2: if l.node2 > index {
                        l.node2 - 1
                    } else {
                        l.node2
                    },
                    init_status: l.init_status,
                    init_setting: l.init_setting,
                    status: l.status,
                    setting: l.setting,
                    flow: l.flow,
                };
                new_links.push(shifted);
                proof {
                    assert(shifted@ == link_after_node_del(old_links[k as int], index));
                    assert(masked(old_links.take(k as int + 1), lmask) =~= masked(
                        old_links.take(k as int),
                        lmask,
                    ).push(old_links[k as int]));
                    assert(new_links@.map_values(|l: LinkRec| l@) =~= before.map_values(
                        |l: LinkRec| l@,
                    ).push(shifted@));
                    assert(new_links@.map_values(|l: LinkRec| l@) =~= masked(
                        old_links.take(k as int + 1),
                        lmask,
                    ).map_values(|l: LinkModel| link_after_node_del(l, index)));
                }
            } else {
                proof {
                    assert(masked(old_links.take(k as int + 1), lmask) =~= masked(
                        old_links.take(k as int),
                        lmask,
                    ));
                }
            }
            k = k + 1;
        }

        // Rebuild the controls.
        let mut new_controls: Vec<ControlRec> = Vec::new();
        let mut k: usize = 0;
        let nc = self.controls.len();
        while k < nc
            invariant
                k <= nc,
                new_controls@ == masked(old_controls.take(k as int), cmask).map_values(
                    |c: ControlRec| control_after_node_del(c, index, lmask),
                ),
            decreases nc - k,
        {
            proof {
                assert(old_controls.take(k as int + 1).drop_last() =~= old_controls.take(
                    k as int,
                ));
            }
            let c = self.controls[k];
            let watches = matches!(c.control_type, ControlType::LowLevel | ControlType::HiLevel);
            let gone = (watches && c.node_index == index) || removed[(c.link_index - 1) as usize];
            if !gone {
                proof {
                    lemma_cnt_bounds(lmask, c.link_index - 1);
                }
                let shifted = ControlRec {
                    node_index: if c.node_index > index {
                        c.node_index - 1
                    } else {
                        c.node_index
                    },
                    link_index: c.link_index - cnt[(c.link_index - 1) as usize],
                    ..c
                };
                new_controls.push(shifted);
                proof {
                    assert(shifted == control_after_node_del(old_controls[k as int], index, lmask));
                    assert(masked(old_controls.take(k as int + 1), cmask) =~= masked(
                        old_controls.take(k as int),
                        cmask,
                    ).push(old_controls[k as int]));
                    assert(new_controls@ =~= masked(old_controls.take(k as int + 1), cmask)
                        .map_values(|c: ControlRec| control_after_node_del(c, index, lmask)));
                }
            } else {
                proof {
                    assert(masked(old_controls.take(k as int + 1), cmask) =~= masked(
                        old_controls.take(k as int),
                        cmask,
                    ));
                }
            }
            k = k + 1;
        }

        // Rebuild the rules.
        let mut new_rules: Vec<RuleRec> = Vec::new();
        let mut k: usize = 0;
        let nr = self.rules.len();
        while k < nr
            invariant
                k <= nr,
                new_rules@.map_values(|r: RuleRec| r@) == masked(
                    old_rules.take(k as int),
                    rmask,
                ).map_values(|r: RuleModel| rule_after_node_del(r, index, lmask)),
            decreases nr - k,
        {
            proof {
                assert(old_rules.take(k as int + 1).drop_last() =~= old_rules.take(k as int));
                assert(self.rules_m()[k as int] == self.rules@[k as int]@);
            }
            let keep = !Self::rule_removed_for_node_exec(&self.rules[k], index, &removed);
            if keep {
                let ghost before = new_rules@;
                let shifted = Self::shift_rule_after_node_del(
                    &self.rules[k],
                    index,
                    &cnt,
                    Ghost(lmask),
                );
                new_rules.push(shifted);
                proof {
                    assert(shifted@ == rule_after_node_del(old_rules[k as int], index, lmask));
                    assert(masked(old_rules.take(k as int + 1), rmask) =~= masked(
                        old_rules.take(k as int),
                        rmask,
                    ).push(old_rules[k as int]));
                    assert(new_rules@.map_values(|r: RuleRec| r@) =~= before.map_values(
                        |r: RuleRec| r@,
                    ).push(shifted@));
                    assert(new_rules@.map_values(|r: RuleRec| r@) =~= masked(
                        old_rules.take(k as int + 1),
                        rmask,
                    ).map_values(|r: RuleModel| rule_after_node_del(r, index, lmask)));
                }
            } else {
                proof {
                    assert(masked(old_rules.take(k as int + 1), rmask) =~= masked(
                        old_rules.take(k as int),
                        rmask,
                    ));
                }
            }
            k = k + 1;
        }

        self.nodes.remove((index - 1) as usize);
        self.links = new_links;
        self.controls = new_controls;
        self.rules = new_rules;

        proof {
            assert(old_links.take(old_links.len() as int) =~= old_links);
            assert(old_controls.take(old_controls.len() as int) =~= old_controls);
            assert(old_rules.take(old_rules.len() as int) =~= old_rules);
            assert(self.nodes_m() =~= old(self).nodes_m().remove(index as int - 1));
            self.lemma_wf_after_node_del(*old(self), index, lmask, cmask, rmask);
            if action_code == ActionCodeType::Conditional {
                assert(!any_incident);
                assert forall|q: int| 0 <= q < old(self).links_m().len() implies !spec_incident(
                    #[trigger] old(self).links_m()[q],
                    index,
                ) by {
                    assert(lmask[q] == spec_incident(old(self).links_m()[q], index));
                }
            }
        }
        Ok(())
    }

    /// Well-formedness is preserved by the cascading node deletion.
    proof fn lemma_wf_after_node_del(
        self,
        prev: EPANET,
        index: i32,
        lmask: Seq<bool>,
        cmask: Seq<bool>,
        rmask: Seq<bool>,
    )
        requires
            prev.wf(),
            1 <= index <= prev.nodes_m().len(),
            lmask == link_mask_for_node(prev.links_m(), index),
            cmask == control_mask_for_node(prev.controls_m(), index, lmask),
            rmask == rule_mask_for_node(prev.rules_m(), index, lmask),
            self.nodes_m() == prev.nodes_m().remove(index as int - 1),
            self.links_m() == masked(prev.links_m(), lmask).map_values(
                |l: LinkModel| link_after_node_del(l, index),
            ),
            self.controls_m() == masked(prev.controls_m(), cmask).map_values(
                |c: ControlRec| control_after_node_del(c, index, lmask),
            ),
            self.rules_m() == masked(prev.rules_m(), rmask).map_values(
                |r: RuleModel| rule_after_node_del(r, index, lmask),
            ),
            self.duration == prev.duration,
            self.hyd_step == prev.hyd_step,
            self.qual_step == prev.qual_step,
            self.htime == prev.htime,
            self.qtime == prev.qtime,
            self.hyd_state == prev.hyd_state,
            self.qual_state == prev.qual_state,
        ensures
            self.wf(),
    {
        let n_nodes = self.nodes_m().len() as int;
        let n_links = self.links_m().len() as int;
        lemma_masked_len(prev.links_m(), lmask);
        lemma_cnt_bounds(lmask, prev.links_m().len() as int);
        lemma_masked_len(prev.controls_m(), cmask);
        lemma_cnt_bounds(cmask, prev.controls_m().len() as int);
        lemma_masked_len(prev.rules_m(), rmask);
        lemma_cnt_bounds(rmask, prev.rules_m().len() as int);
        lemma_masked_elements(prev.links_m(), lmask);
        lemma_masked_elements(prev.controls_m(), cmask);
        lemma_masked_elements(prev.rules_m(), rmask);
        assert(n_nodes == prev.nodes_m().len() - 1);
        assert forall|j: int| 0 <= j < self.nodes_m().len() implies crate::model::node_wf(
            #[trigger] self.nodes_m()[j],
        ) by {
            if j < index - 1 {
                assert(self.nodes_m()[j] == prev.nodes_m()[j]);
            } else {
                assert(self.nodes_m()[j] == prev.nodes_m()[j + 1]);
            }
        }
        assert forall|j: int| 0 <= j < self.links_m().len() implies link_wf(
            #[trigger] self.links_m()[j],
            n_nodes,
        ) by {
            let kept = masked(prev.links_m(), lmask);
            assert(self.links_m()[j] == link_after_node_del(kept[j], index));
            let x = choose|x: int|
                0 <= x < prev.links_m().len() && !lmask[x] && (#[trigger] masked(
                    prev.links_m(),
                    lmask,
                )[j]) == (#[trigger] prev.links_m()[x]);
            assert(link_wf(prev.links_m()[x], prev.nodes_m().len() as int));
            assert(!spec_incident(prev.links_m()[x], index));
        }
        assert forall|j: int| 0 <= j < self.controls_m().len() implies control_wf(
            #[trigger] self.controls_m()[j],
            n_nodes,
            n_links,
        ) by {
            let kept = masked(prev.controls_m(), cmask);
            assert(self.controls_m()[j] == control_after_node_del(kept[j], index, lmask));
            let x = choose|x: int|
                0 <= x < prev.controls_m().len() && !cmask[x] && (#[trigger] masked(
                    prev.controls_m(),
                    cmask,
                )[j]) == (#[trigger] prev.controls_m()[x]);
            let c = prev.controls_m()[x];
            assert(control_wf(c, prev.nodes_m().len() as int, prev.links_m().len() as int));
            assert(!control_removed_for_node(c, index, lmask));
            assert(!lmask[c.link_index - 1]);
            lemma_masked_index(prev.links_m(), lmask, c.link_index - 1);
        }
        assert forall|j: int| 0 <= j < self.rules_m().len() implies rule_wf(
            #[trigger] self.rules_m()[j],
            n_nodes,
            n_links,
        ) by {
            let kept = masked(prev.rules_m(), rmask);
            assert(self.rules_m()[j] == rule_after_node_del(kept[j], index, lmask));
            let x = choose|x: int|
                0 <= x < prev.rules_m().len() && !rmask[x] && (#[trigger] masked(
                    prev.rules_m(),
                    rmask,
                )[j]) == (#[trigger] prev.rules_m()[x]);
            let rr = prev.rules_m()[x];
            assert(rule_wf(rr, prev.nodes_m().len() as int, prev.links_m().len() as int));
            assert(!rule_removed_for_node(rr, index, lmask));
            let r2 = rule_after_node_del(rr, index, lmask);
            assert forall|q: int| 0 <= q < r2.premises.len() implies premise_wf(
                #[trigger] r2.premises[q],
                n_nodes,
                n_links,
            ) by {
                assert(r2.premises[q] == premise_after_node_del(rr.premises[q], index, lmask));
                assert(premise_wf(
                    rr.premises[q],
                    prev.nodes_m().len() as int,
                    prev.links_m().len() as int,
                ));
                assert(!premise_refs_node(rr.premises[q], index));
                assert(!premise_hits_links(rr.premises[q], lmask));
                if rr.premises[q].rule_object == RuleObject::Link {
                    lemma_masked_index(prev.links_m(), lmask, rr.premises[q].object_index - 1);
                }
            }
            assert forall|q: int| 0 <= q < r2.then_actions.len() implies action_wf(
                #[trigger] r2.then_actions[q],
                n_links,
            ) by {
                assert(r2.then_actions[q] == action_after_node_del(rr.then_actions[q], lmask));
                assert(action_wf(rr.then_actions[q], prev.links_m().len() as int));
                assert(!action_hits_links(rr.then_actions[q], lmask));
                lemma_masked_index(prev.links_m(), lmask, rr.then_actions[q].link_index - 1);
            }
            assert forall|q: int| 0 <= q < r2.else_actions.len() implies action_wf(
                #[trigger] r2.else_actions[q],
                n_links,
            ) by {
                assert(r2.else_actions[q] == action_after_node_del(rr.else_actions[q], lmask));
                assert(action_wf(rr.else_actions[q], prev.links_m().len() as int));
                assert(!action_hits_links(rr.else_actions[q], lmask));
                lemma_masked_index(prev.links_m(), lmask, rr.else_actions[q].link_index - 1);
            }
        }
    }

    /// Well-formedness is preserved by the cascading link deletion.
    proof fn lemma_wf_after_link_del(
        self,
        prev: EPANET,
        index: i32,
        cmask: Seq<bool>,
        rmask: Seq<bool>,
    )
        requires
            prev.wf(),
            1 <= index <= prev.links_m().len(),
            cmask == control_mask_for_link(prev.controls_m(), index),
            rmask == rule_mask_for_link(prev.rules_m(), index),
            self.nodes_m() == prev.nodes_m(),
            self.links_m() == prev.links_m().remove(index as int - 1),
            self.controls_m() == masked(prev.controls_m(), cmask).map_values(
                |c: ControlRec| control_after_link_del(c, index),
            ),
            self.rules_m() == masked(prev.rules_m(), rmask).map_values(
                |r: RuleModel| rule_after_link_del(r, index),
            ),
            self.duration == prev.duration,
            self.hyd_step == prev.hyd_step,
            self.qual_step == prev.qual_step,
            self.htime == prev.htime,
            self.qtime == prev.qtime,
            self.hyd_state == prev.hyd_state,
            self.qual_state == prev.qual_state,
        ensures
            self.wf(),
    {
        let n_nodes = self.nodes_m().len() as int;
        let n_links = self.links_m().len() as int;
        lemma_masked_len(prev.controls_m(), cmask);
        lemma_cnt_bounds(cmask, prev.controls_m().len() as int);
        lemma_masked_len(prev.rules_m(), rmask);
        lemma_cnt_bounds(rmask, prev.rules_m().len() as int);
        lemma_masked_elements(prev.controls_m(), cmask);
        lemma_masked_elements(prev.rules_m(), rmask);
        assert(n_links == prev.links_m().len() - 1);
        assert forall|j: int| 0 <= j < self.links_m().len() implies link_wf(
            #[trigger] self.links_m()[j],
            n_nodes,
        ) by {
            if j < index - 1 {
                assert(self.links_m()[j] == prev.links_m()[j]);
            } else {
                assert(self.links_m()[j] == prev.links_m()[j + 1]);
            }
        }
        assert forall|j: int| 0 <= j < self.controls_m().len() implies control_wf(
            #[trigger] self.controls_m()[j],
            n_nodes,
            n_links,
        ) by {
            let kept = masked(prev.controls_m(), cmask);
            assert(self.controls_m()[j] == control_after_link_del(kept[j], index));
            let x = choose|x: int|
                0 <= x < prev.controls_m().len() && !cmask[x] && (#[trigger] masked(
                    prev.controls_m(),
                    cmask,
                )[j]) == (#[trigger] prev.controls_m()[x]);
            assert(control_wf(prev.controls_m()[x], n_nodes, prev.links_m().len() as int));
            assert(prev.controls_m()[x].link_index != index);
        }
        assert forall|j: int| 0 <= j < self.rules_m().len() implies rule_wf(
            #[trigger] self.rules_m()[j],
            n_nodes,
            n_links,
        ) by {
            let kept = masked(prev.rules_m(), rmask);
            assert(self.rules_m()[j] == rule_after_link_del(kept[j], index));
            let x = choose|x: int|
                0 <= x < prev.rules_m().len() && !rmask[x] && (#[trigger] masked(
                    prev.rules_m(),
                    rmask,
                )[j]) == (#[trigger] prev.rules_m()[x]);
            let r = prev.rules_m()[x];
            assert(rule_wf(r, n_nodes, prev.links_m().len() as int));
            assert(!rule_refs_link(r, index));
            let r2 = rule_after_link_del(r, index);
            assert forall|q: int| 0 <= q < r2.premises.len() implies premise_wf(
                #[trigger] r2.premises[q],
                n_nodes,
                n_links,
            ) by {
                assert(r2.premises[q] == premise_after_link_del(r.premises[q], index));
                assert(premise_wf(r.premises[q], n_nodes, prev.links_m().len() as int));
                assert(!premise_refs_link(r.premises[q], index));
            }
            assert forall|q: int| 0 <= q < r2.then_actions.len() implies action_wf(
                #[trigger] r2.then_actions[q],
                n_links,
            ) by {
                assert(r2.then_actions[q] == action_after_link_del(r.then_actions[q], index));
                assert(action_wf(r.then_actions[q], prev.links_m().len() as int));
                assert(!action_refs_link(r.then_actions[q], index));
            }
            assert forall|q: int| 0 <= q < r2.else_actions.len() implies action_wf(
                #[trigger] r2.else_actions[q],
                n_links,
            ) by {
                assert(r2.else_actions[q] == action_after_link_del(r.else_actions[q], index));
                assert(action_wf(r.else_actions[q], prev.links_m().len() as int));
                assert(!action_refs_link(r.else_actions[q], index));
            }
        }
    }
}

} // verus!
