//! Rule-based controls: retrieval and deletion.
//!
//! Retrieval follows the engine protocol: the clause counts are queried
//! first, then each premise and action is fetched by its 1-based clause
//! index. Deleting a rule shifts the indices of all later rules down by
//! one.

use vstd::prelude::*;
use crate::errors::EPANETError;
use crate::model::ActionClause;
use crate::model::EPANET;
use crate::model::Premise;
use crate::model::Rule;
use crate::model::rule_wf;

verus! {

impl EPANET {
    /// Retrieves the premise, then-action and else-action counts of the
    /// rule at the given 1-based index.
    ///
    /// Fails with code 257 (nonexistent rule) when the index is out of
    /// range.
    pub fn get_rule_counts(&self, index: i32) -> (r: Result<(i32, i32, i32), EPANETError>)
        requires
            self.wf(),
        ensures
            match r {
                Ok(c) => {
                    &&& 1 <= index <= self.rules_m().len()
                    &&& c.0 == self.rules_m()[index as int - 1].premises.len()
                    &&& c.1 == self.rules_m()[index as int - 1].then_actions.len()
                    &&& c.2 == self.rules_m()[index as int - 1].else_actions.len()
                },
                Err(e) => e.code == 257 && !(1 <= index <= self.rules_m().len()),
            },
    {
        if index < 1 || index as usize > self.rules.len() {
            return Err(EPANETError::new(257));
        }
        let r = &self.rules[(index - 1) as usize];
        Ok((r.premises.len() as i32, r.then_actions.len() as i32, r.else_actions.len() as i32))
    }

    /// Retrieves one premise of a rule by its 1-based clause index.
    ///
    /// Fails with code 257 (nonexistent rule) for a bad rule index and code
    /// 258 (nonexistent rule clause) for a bad premise index.
    pub fn get_premise(&self, rule_index: i32, premise_index: i32) -> (r: Result<
        Premise,
        EPANETError,
    >)
        requires
            self.wf(),
        ensures
            match r {
                Ok(p) => {
                    &&& 1 <= rule_index <= self.rules_m().len()
                    &&& 1 <= premise_index <= self.rules_m()[rule_index as int - 1].premises.len()
                    &&& p == self.rules_m()[rule_index as int - 1].premises[premise_index as int
                        - 1]
                },
                Err(e) => {
                    &&& (e.code == 257 <==> !(1 <= rule_index <= self.rules_m().len()))
                    &&& (e.code != 257 ==> e.code == 258 && !(1 <= premise_index <= self.rules_m()[
                        rule_index as int - 1].premises.len()))
                },
            },
    {
        if rule_index < 1 || rule_index as usize > self.rules.len() {
            return Err(EPANETError::new(257));
        }
        let r = &self.rules[(rule_index - 1) as usize];
        if premise_index < 1 || premise_index as usize > r.premises.len() {
            return Err(EPANETError::new(258));
        }
        Ok(r.premises[(premise_index - 1) as usize])
    }

    /// Retrieves one then-action of a rule by its 1-based clause index.
    ///
    /// Fails with code 257 (nonexistent rule) for a bad rule index and code
    /// 258 (nonexistent rule clause) for a bad action index.
    pub fn get_then_action(&self, rule_index: i32, action_index: i32) -> (r: Result<
        ActionClause,
        EPANETError,
    >)
        requires
            self.wf(),
        ensures
            match r {
                Ok(a) => {
                    &&& 1 <= rule_index <= self.rules_m().len()
                    &&& 1 <= action_index <= self.rules_m()[rule_index as int
                        - 1].then_actions.len()
                    &&& a == self.rules_m()[rule_index as int - 1].then_actions[action_index as int
                        - 1]
                },
                Err(e) => {
                    &&& (e.code == 257 <==> !(1 <= rule_index <= self.rules_m().len()))
                    &&& (e.code != 257 ==> e.code == 258 && !(1 <= action_index <= self.rules_m()[
                        rule_index as int - 1].then_actions.len()))
                },
            },
    {
        if rule_index < 1 || rule_index as usize > self.rules.len() {
            return Err(EPANETError::new(257));
        }
        let r = &self.rules[(rule_index - 1) as usize];
        if action_index < 1 || action_index as usize > r.then_actions.len() {
            return Err(EPANETError::new(258));
        }
        Ok(r.then_actions[(action_index - 1) as usize])
    }

    /// Retrieves one else-action of a rule by its 1-based clause index.
    ///
    /// Fails with code 257 (nonexistent rule) for a bad rule index and code
    /// 258 (nonexistent rule clause) for a bad action index.
    pub fn get_else_action(&self, rule_index: i32, action_index: i32) -> (r: Result<
        ActionClause,
        EPANETError,
    >)
        requires
            self.wf(),
        ensures
            match r {
                Ok(a) => {
                    &&& 1 <= rule_index <= self.rules_m().len()
                    &&& 1 <= action_index <= self.rules_m()[rule_index as int
                        - 1].else_actions.len()
                    &&& a == self.rules_m()[rule_index as int - 1].else_actions[action_index as int
                        - 1]
                },
                Err(e) => {
                    &&& (e.code == 257 <==> !(1 <= rule_index <= self.rules_m().len()))
                    &&& (e.code != 257 ==> e.code == 258 && !(1 <= action_index <= self.rules_m()[
                        rule_index as int - 1].else_actions.len()))
                },
            },
    {
        if rule_index < 1 || rule_index as usize > self.rules.len() {
            return Err(EPANETError::new(257));
        }
        let r = &self.rules[(rule_index - 1) as usize];
        if action_index < 1 || action_index as usize > r.else_actions.len() {
            return Err(EPANETError::new(258));
        }
        Ok(r.else_actions[(action_index - 1) as usize])
    }

    /// Retrieves the ID of the rule at the given 1-based index.
    ///
    /// Fails with code 257 (nonexistent rule) when the index is out of
    /// range.
    pub fn get_rule_id(&self, index: i32) -> (r: Result<String, EPANETError>)
        requires
            self.wf(),
        ensures
            match r {
                Ok(s) => 1 <= index <= self.rules_m().len() && s@ == self.rules_m()[index as int
                    - 1].rule_id,
                Err(e) => e.code == 257 && !(1 <= index <= self.rules_m().len()),
            },
    {
        if index < 1 || index as usize > self.rules.len() {
            return Err(EPANETError::new(257));
        }
        Ok(self.rules[(index - 1) as usize].rule_id.clone())
    }

    /// Retrieves the enabled flag of the rule at the given 1-based index.
    ///
    /// Fails with code 257 (nonexistent rule) when the index is out of
    /// range.
    pub fn get_rule_enabled(&self, index: i32) -> (r: Result<bool, EPANETError>)
        requires
            self.wf(),
        ensures
            match r {
                Ok(b) => 1 <= index <= self.rules_m().len() && b == self.rules_m()[index as int
                    - 1].enabled,
                Err(e) => e.code == 257 && !(1 <= index <= self.rules_m().len()),
            },
    {
        if index < 1 || index as usize > self.rules.len() {
            return Err(EPANETError::new(257));
        }
        Ok(self.rules[(index - 1) as usize].enabled)
    }

    /// Retrieves the full structure of the rule at the given 1-based index.
    ///
    /// The clause counts are queried first, then each clause is fetched by
    /// its 1-based clause index: counts before contents is an invariant of
    /// the retrieval protocol. An empty else-action list is reported as
    /// absent.
    ///
    /// Fails with code 257 (nonexistent rule) when the index is out of
    /// range.
    pub fn get_rule(&self, index: i32) -> (r: Result<Rule, EPANETError>)
        requires
            self.wf(),
        ensures
            match r {
                Ok(rule) => {
                    &&& 1 <= index <= self.rules_m().len()
                    &&& rule@ == self.rules_m()[index as int - 1]
                    &&& (rule.else_actions is Some <==> self.rules_m()[index as int
                        - 1].else_actions.len() > 0)
                },
                Err(e) => e.code == 257 && !(1 <= index <= self.rules_m().len()),
            },
    {
        let rule_id = match self.get_rule_id(index) {
            Ok(s) => s,
            Err(e) => {
                return Err(e);
            },
        };
        let (premise_count, then_count, else_count) = match self.get_rule_counts(index) {
            Ok(c) => c,
            Err(e) => {
                return Err(e);
            },
        };

        let ghost stored = self.rules_m()[index as int - 1];

        let mut premises: Vec<Premise> = Vec::new();
        let mut i: i32 = 1;
        while i <= premise_count
            invariant
                self.wf(),
                1 <= index <= self.rules_m().len(),
                stored == self.rules_m()[index as int - 1],
                premise_count == stored.premises.len(),
                1 <= i <= premise_count + 1,
                premises@ == stored.premises.take(i as int - 1),
            decreases premise_count + 1 - i,
        {
            let p = match self.get_premise(index, i) {
                Ok(p) => p,
                Err(e) => {
                    return Err(e);
                },
            };
            premises.push(p);
            proof {
                assert(premises@ =~= stored.premises.take(i as int));
            }
            i = i + 1;
        }

        let mut then_actions: Vec<ActionClause> = Vec::new();
        let mut i: i32 = 1;
        while i <= then_count
            invariant
                self.wf(),
                1 <= index <= self.rules_m().len(),
                stored == self.rules_m()[index as int - 1],
                then_count == stored.then_actions.len(),
                1 <= i <= then_count + 1,
                then_actions@ == stored.then_actions.take(i as int - 1),
            decreases then_count + 1 - i,
        {
            let a = match self.get_then_action(index, i) {
                Ok(a) => a,
                Err(e) => {
                    return Err(e);
                },
            };
            then_actions.push(a);
            proof {
                assert(then_actions@ =~= stored.then_actions.take(i as int));
            }
            i = i + 1;
        }

        let mut else_actions: Vec<ActionClause> = Vec::new();
        let mut i: i32 = 1;
        while i <= else_count
            invariant
                self.wf(),
                1 <= index <= self.rules_m().len(),
                stored == self.rules_m()[index as int - 1],
                else_count == stored.else_actions.len(),
                1 <= i <= else_count + 1,
                else_actions@ == stored.else_actions.take(i as int - 1),
            decreases else_count + 1 - i,
        {
            let a = match self.get_else_action(index, i) {
                Ok(a) => a,
                Err(e) => {
                    return Err(e);
                },
            };
            else_actions.push(a);
            proof {
                assert(else_actions@ =~= stored.else_actions.take(i as int));
            }
            i = i + 1;
        }

        let enabled = match self.get_rule_enabled(index) {
            Ok(b) => b,
            Err(e) => {
                return Err(e);
            },
        };
        let priority = self.rules[(index - 1) as usize].priority;

        proof {
            assert(premises@ =~= stored.premises);
            assert(then_actions@ =~= stored.then_actions);
            assert(else_actions@ =~= stored.else_actions);
        }
        let has_else = else_actions.len() > 0;
        proof {
            if !has_else {
                assert(Seq::<ActionClause>::empty() =~= stored.else_actions);
            }
        }
        Ok(
            Rule {
                rule_id,
                premises,
                then_actions,
                else_actions: if has_else {
                    Some(else_actions)
                } else {
                    None
                },
                priority,
                enabled,
            },
        )
    }

    /// Removes the rule at the given 1-based index, shifting the indices of
    /// all later rules down by one.
    ///
    /// Fails with code 257 (nonexistent rule) when the index is out of
    /// range.
    pub fn delete_rule(&mut self, index: i32) -> (r: Result<(), EPANETError>)
        requires
            old(self).wf(),
        ensures
            final(self).wf(),
            final(self).same_clock(*old(self)),
            final(self).nodes_m() == old(self).nodes_m(),
            final(self).links_m() == old(self).links_m(),
            final(self).controls_m() == old(self).controls_m(),
            match r {
                Ok(()) => {
                    &&& 1 <= index <= old(self).rules_m().len()
                    &&& final(self).rules_m() == old(self).rules_m().remove(index as int - 1)
                },
                Err(e) => {
                    &&& final(self).unchanged(*old(self))
                    &&& e.code == 257
                    &&& !(1 <= index <= old(self).rules_m().len())
                },
            },
    {
        if index < 1 || index as usize > self.rules.len() {
            return Err(EPANETError::new(257));
        }
        self.rules.remove((index - 1) as usize);
        proof {
            assert(self.rules_m() =~= old(self).rules_m().remove(index as int - 1));
            assert forall|j: int| 0 <= j < self.rules_m().len() implies rule_wf(
                #[trigger] self.rules_m()[j],
                self.nodes_m().len() as int,
                self.links_m().len() as int,
            ) by {
                if j < index as int - 1 {
                    assert(self.rules_m()[j] == old(self).rules_m()[j]);
                } else {
                    assert(self.rules_m()[j] == old(self).rules_m()[j + 1]);
                }
            }
        }
        Ok(())
    }
}

} // verus!
