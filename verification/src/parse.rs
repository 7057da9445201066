//! Parsing rule text into stored rules.
//!
//! [`EPANET::add_rule`] parses a free-text rule block against the current
//! network and appends the parsed rule at the next index. Referenced nodes
//! and links must already exist: premises and actions store their resolved
//! 1-based indices.

use vstd::prelude::*;
use crate::enums::LogicalOperator;
use crate::enums::RuleObject;
use crate::errors::EPANETError;
use crate::grammar::Section;
use crate::grammar::PState;
use crate::grammar::lemma_find_link;
use crate::grammar::lemma_find_node;
use crate::grammar::parse_int_token;
use crate::grammar::relop_kw;
use crate::grammar::spec_action_clause;
use crate::grammar::spec_parse_clauses;
use crate::grammar::spec_parse_header;
use crate::grammar::spec_parse_rule;
use crate::grammar::spec_premise_clause;
use crate::grammar::spec_premise_tail;
use crate::grammar::status_kw;
use crate::grammar::variable_kw;
use crate::keywords::is_eq_sym;
use crate::keywords::is_kw_and;
use crate::keywords::is_kw_else;
use crate::keywords::is_kw_if;
use crate::keywords::is_kw_is;
use crate::keywords::is_kw_link;
use crate::keywords::is_kw_node;
use crate::keywords::is_kw_or;
use crate::keywords::is_kw_priority;
use crate::keywords::is_kw_rule;
use crate::keywords::is_kw_setting;
use crate::keywords::is_kw_status;
use crate::keywords::is_kw_system;
use crate::keywords::is_kw_then;
use crate::model::ActionClause;
use crate::model::EPANET;
use crate::model::INDEX_LIMIT;
use crate::model::Premise;
use crate::model::RuleModel;
use crate::model::RuleRec;
use crate::model::action_wf;
use crate::model::premise_wf;
use crate::model::rule_wf;
use crate::tokens::Token;
use crate::tokens::lemma_tokens_valid;
use crate::tokens::spec_tokens;
use crate::tokens::tokenize;
use crate::tokens::toks_m;
use crate::enums::RuleVariable;

verus! {

/// Section of the rule block the parser is in.
#[derive(Debug, Clone, Copy)]
enum ParseSection {
    /// Premise lines.
    Premises,
    /// Then-action lines.
    ThenActions,
    /// Else-action lines.
    ElseActions,
    /// After the priority line.
    Closed,
}

/// The grammar section denoted by a parser section.
spec fn sec_m(s: ParseSection) -> Section {
    match s {
        ParseSection::Premises => Section::Prem,
        ParseSection::ThenActions => Section::Then,
        ParseSection::ElseActions => Section::Else,
        ParseSection::Closed => Section::Done,
    }
}

impl EPANET {
    /// Parses the variable, operator and right-hand side of a premise.
    #[verifier::loop_isolation(false)]
    fn parse_premise_tail(
        &self,
        text: &str,
        toks: &Vec<Token>,
        j: usize,
        logop: LogicalOperator,
        obj: RuleObject,
        oidx: i32,
    ) -> (r: Result<(Premise, usize), EPANETError>)
        requires
            self.wf(),
            text.is_ascii(),
            toks_m(toks@) == spec_tokens(text@, 0),
            j <= toks@.len(),
        ensures
            match r {
                Ok(p) => spec_premise_tail(text@, toks_m(toks@), j as int, logop, obj, oidx)
                    == Ok::<(Premise, int), i32>((p.0, p.1 as int)) && j < p.1 <= toks@.len()
                    && p.0.rule_object == obj && p.0.object_index == oidx
                    && (p.0.status is Some <==> p.0.variable == RuleVariable::Status)
                    && crate::model::val_ok(p.0.value)
                    && (match obj {
                        RuleObject::Node => crate::model::node_variable(p.0.variable),
                        RuleObject::Link => crate::model::link_variable(p.0.variable),
                        RuleObject::System => crate::model::system_variable(p.0.variable),
                    }),
                Err(e) => spec_premise_tail(text@, toks_m(toks@), j as int, logop, obj, oidx)
                    == Err::<(Premise, int), i32>(e.code) && (e.code == 201 || e.code == 202),
            },
    {
        proof {
            lemma_tokens_valid(text@, 0);
            assert forall|q: int| 0 <= q < toks@.len() implies toks_m(toks@)[q] == toks@[q]@ by {}
        }
        let n = toks.len();
        if j >= n || toks[j].is_eol {
            return Err(EPANETError::new(201));
        }
        if j + 1 >= n || toks[j + 1].is_eol {
            return Err(EPANETError::new(201));
        }
        if j + 2 >= n || toks[j + 2].is_eol {
            return Err(EPANETError::new(201));
        }
        let vt = toks[j];
        let ot = toks[j + 1];
        let rt = toks[j + 2];
        let var = match variable_kw(text, vt.start, vt.end) {
            Some(v) => v,
            None => {
                return Err(EPANETError::new(201));
            },
        };
        let compatible = match obj {
            RuleObject::Node => matches!(
                var,
                RuleVariable::Demand
                    | RuleVariable::Head
                    | RuleVariable::Grade
                    | RuleVariable::Level
                    | RuleVariable::Pressure
                    | RuleVariable::FillTime
                    | RuleVariable::DrainTime
            ),
            RuleObject::Link => matches!(
                var,
                RuleVariable::Flow
                    | RuleVariable::Status
                    | RuleVariable::Setting
                    | RuleVariable::Power
            ),
            RuleObject::System => matches!(var, RuleVariable::Time | RuleVariable::ClockTime),
        };
        if !compatible {
            return Err(EPANETError::new(201));
        }
        let op = match relop_kw(text, ot.start, ot.end) {
            Some(o) => o,
            None => {
                return Err(EPANETError::new(201));
            },
        };
        let is_status_var = matches!(var, RuleVariable::Status);
        let premise: Premise;
        if is_status_var {
            let st = match status_kw(text, rt.start, rt.end) {
                Some(s) => s,
                None => {
                    return Err(EPANETError::new(201));
                },
            };
            premise = Premise {
                logical_operator: logop,
                rule_object: obj,
                object_index: oidx,
                variable: var,
                rule_operator: op,
                status: Some(st),
                value: 0,
            };
        } else {
            let v = match parse_int_token(text, rt.start, rt.end) {
                Some(v) => v,
                None => {
                    return Err(EPANETError::new(202));
                },
            };
            premise = Premise {
                logical_operator: logop,
                rule_object: obj,
                object_index: oidx,
                variable: var,
                rule_operator: op,
                status: None,
                value: v,
            };
        }
        if j + 3 < n && !toks[j + 3].is_eol {
            return Err(EPANETError::new(201));
        }
        let nx = if j + 3 < n {
            j + 4
        } else {
            n
        };
        Ok((premise, nx))
    }

    /// Parses a premise clause whose connective token stands at `i`.
    fn parse_premise_clause(
        &self,
        text: &str,
        toks: &Vec<Token>,
        i: usize,
        logop: LogicalOperator,
    ) -> (r: Result<(Premise, usize), EPANETError>)
        requires
            self.wf(),
            text.is_ascii(),
            toks_m(toks@) == spec_tokens(text@, 0),
            i < toks@.len(),
        ensures
            match r {
                Ok(p) => spec_premise_clause(
                    self.nodes_m(),
                    self.links_m(),
                    text@,
                    toks_m(toks@),
                    i as int,
                    logop,
                ) == Ok::<(Premise, int), i32>((p.0, p.1 as int)) && i < p.1 <= toks@.len()
                    && premise_wf(
                    p.0,
                    self.nodes_m().len() as int,
                    self.links_m().len() as int,
                ),
                Err(e) => spec_premise_clause(
                    self.nodes_m(),
                    self.links_m(),
                    text@,
                    toks_m(toks@),
                    i as int,
                    logop,
                ) == Err::<(Premise, int), i32>(e.code) && (e.code == 201 || e.code == 202
                    || e.code == 203 || e.code == 204),
            },
    {
        proof {
            lemma_tokens_valid(text@, 0);
            assert forall|q: int| 0 <= q < toks@.len() implies toks_m(toks@)[q] == toks@[q]@ by {}
        }
        let n = toks.len();
        if i + 1 >= n || toks[i + 1].is_eol {
            return Err(EPANETError::new(201));
        }
        let ot = toks[i + 1];
        if is_kw_system(text, ot.start, ot.end) {
            self.parse_premise_tail(text, toks, i + 2, logop, RuleObject::System, 0)
        } else if is_kw_node(text, ot.start, ot.end) {
            if i + 2 >= n || toks[i + 2].is_eol {
                return Err(EPANETError::new(201));
            }
            let idt = toks[i + 2];
            let ids = text.substring_ascii(idt.start, idt.end);
            proof {
                lemma_find_node(self.nodes_m(), ids@);
            }
            match self.get_node_index(ids) {
                Ok(k) => self.parse_premise_tail(text, toks, i + 3, logop, RuleObject::Node, k),
                Err(_) => Err(EPANETError::new(203)),
            }
        } else if is_kw_link(text, ot.start, ot.end) {
            if i + 2 >= n || toks[i + 2].is_eol {
                return Err(EPANETError::new(201));
            }
            let idt = toks[i + 2];
            let ids = text.substring_ascii(idt.start, idt.end);
            proof {
                lemma_find_link(self.links_m(), ids@);
            }
            match self.get_link_index(ids) {
                Ok(k) => self.parse_premise_tail(text, toks, i + 3, logop, RuleObject::Link, k),
                Err(_) => Err(EPANETError::new(204)),
            }
        } else {
            Err(EPANETError::new(201))
        }
    }

    /// Parses an action clause whose introducing token stands at `i`.
    fn parse_action_clause(&self, text: &str, toks: &Vec<Token>, i: usize) -> (r: Result<
        (ActionClause, usize),
        EPANETError,
    >)
        requires
            self.wf(),
            text.is_ascii(),
            toks_m(toks@) == spec_tokens(text@, 0),
            i < toks@.len(),
        ensures
            match r {
                Ok(p) => spec_action_clause(self.links_m(), text@, toks_m(toks@), i as int)
                    == Ok::<(ActionClause, int), i32>((p.0, p.1 as int)) && i < p.1 <= toks@.len()
                    && action_wf(p.0, self.links_m().len() as int),
                Err(e) => spec_action_clause(self.links_m(), text@, toks_m(toks@), i as int)
                    == Err::<(ActionClause, int), i32>(e.code) && (e.code == 201 || e.code == 202
                    || e.code == 204),
            },
    {
        proof {
            lemma_tokens_valid(text@, 0);
            assert forall|q: int| 0 <= q < toks@.len() implies toks_m(toks@)[q] == toks@[q]@ by {}
        }
        let n = toks.len();
        if i + 1 >= n || toks[i + 1].is_eol {
            return Err(EPANETError::new(201));
        }
        let lt = toks[i + 1];
        proof {
            assert(toks_m(toks@)[i as int + 1] == toks@[i as int + 1]@);
            assert(0 <= toks_m(toks@)[i as int + 1].start < toks_m(toks@)[i as int + 1].end
                <= text@.len());
        }
        if !is_kw_link(text, lt.start, lt.end) {
            return Err(EPANETError::new(201));
        }
        if i + 2 >= n || toks[i + 2].is_eol {
            return Err(EPANETError::new(201));
        }
        let idt = toks[i + 2];
        let ids = text.substring_ascii(idt.start, idt.end);
        proof {
            lemma_find_link(self.links_m(), ids@);
        }
        let k = match self.get_link_index(ids) {
            Ok(k) => k,
            Err(_) => {
                return Err(EPANETError::new(204));
            },
        };
        if i + 3 >= n || toks[i + 3].is_eol {
            return Err(EPANETError::new(201));
        }
        if i + 4 >= n || toks[i + 4].is_eol {
            return Err(EPANETError::new(201));
        }
        if i + 5 >= n || toks[i + 5].is_eol {
            return Err(EPANETError::new(201));
        }
        let pt = toks[i + 3];
        let et = toks[i + 4];
        let rt = toks[i + 5];
        if !(is_eq_sym(text, et.start, et.end) || is_kw_is(text, et.start, et.end)) {
            return Err(EPANETError::new(201));
        }
        let action: ActionClause;
        if is_kw_status(text, pt.start, pt.end) {
            let st = match status_kw(text, rt.start, rt.end) {
                Some(s) => s,
                None => {
                    return Err(EPANETError::new(201));
                },
            };
            action = ActionClause { link_index: k, status: Some(st), setting: None };
        } else if is_kw_setting(text, pt.start, pt.end) {
            let v = match parse_int_token(text, rt.start, rt.end) {
                Some(v) => v,
                None => {
                    return Err(EPANETError::new(202));
                },
            };
            action = ActionClause { link_index: k, status: None, setting: Some(v) };
        } else {
            return Err(EPANETError::new(201));
        }
        if i + 6 < n && !toks[i + 6].is_eol {
            return Err(EPANETError::new(201));
        }
        let nx = if i + 6 < n {
            i + 7
        } else {
            n
        };
        Ok((action, nx))
    }

    /// Parses a block of rule text against the current network.
    #[verifier::loop_isolation(false)]
    fn parse_rule_text(&self, text: &str) -> (r: Result<RuleRec, EPANETError>)
        requires
            self.wf(),
        ensures
            match r {
                Ok(rec) => spec_parse_rule(self.nodes_m(), self.links_m(), text@) == Ok::<
                    RuleModel,
                    i32,
                >(rec@) && rule_wf(rec@, self.nodes_m().len() as int, self.links_m().len() as int),
                Err(e) => spec_parse_rule(self.nodes_m(), self.links_m(), text@) == Err::<
                    RuleModel,
                    i32,
                >(e.code) && (e.code == 201 || e.code == 202 || e.code == 203 || e.code == 204),
            },
    {
        if !text.is_ascii() {
            return Err(EPANETError::new(201));
        }
        let toks = tokenize(text);
        proof {
            lemma_tokens_valid(text@, 0);
        }
        let ghost s = text@;
        let ghost tm = toks_m(toks@);
        let ghost nodes = self.nodes_m();
        let ghost links = self.links_m();
        let n = toks.len();

        let mut i: usize = 0;
        while i < n && toks[i].is_eol
            invariant
                i <= n,
                spec_parse_header(nodes, links, s, tm, i as int) == spec_parse_header(
                    nodes,
                    links,
                    s,
                    tm,
                    0,
                ),
            decreases n - i,
        {
            i = i + 1;
        }
        if i >= n {
            return Err(EPANETError::new(201));
        }
        let ht = toks[i];
        if !is_kw_rule(text, ht.start, ht.end) {
            return Err(EPANETError::new(201));
        }
        if i + 1 >= n || toks[i + 1].is_eol {
            return Err(EPANETError::new(201));
        }
        let idt = toks[i + 1];
        if i + 2 < n && !toks[i + 2].is_eol {
            return Err(EPANETError::new(201));
        }
        let start = if i + 2 < n {
            i + 3
        } else {
            n
        };
        let rule_id: String = text.substring_ascii(idt.start, idt.end).to_owned();
        let ghost init_st = PState {
            rule_id: rule_id@,
            premises: Seq::empty(),
            thens: Seq::empty(),
            elses: Seq::empty(),
            priority: None,
            section: Section::Prem,
        };
        proof {
            assert(spec_parse_header(nodes, links, s, tm, i as int) == spec_parse_clauses(
                nodes,
                links,
                s,
                tm,
                start as int,
                init_st,
            ));
        }

        let mut premises: Vec<Premise> = Vec::new();
        let mut thens: Vec<ActionClause> = Vec::new();
        let mut elses: Vec<ActionClause> = Vec::new();
        let mut priority: Option<u8> = None;
        let mut section = ParseSection::Premises;
        let mut j = start;
        while j < n
            invariant
                start <= n,
                j <= n,
                spec_parse_clauses(
                    nodes,
                    links,
                    s,
                    tm,
                    j as int,
                    (PState {
                        rule_id: rule_id@,
                        premises: premises@,
                        thens: thens@,
                        elses: elses@,
                        priority: priority,
                        section: sec_m(section),
                    }),
                ) == spec_parse_clauses(nodes, links, s, tm, start as int, init_st),
                forall|q: int|
                    0 <= q < premises@.len() ==> premise_wf(
                        #[trigger] premises@[q],
                        nodes.len() as int,
                        links.len() as int,
                    ),
                forall|q: int|
                    0 <= q < thens@.len() ==> action_wf(#[trigger] thens@[q], links.len() as int),
                forall|q: int|
                    0 <= q < elses@.len() ==> action_wf(#[trigger] elses@[q], links.len() as int),
            decreases n - j,
        {
            let ghost prev_st = PState {
                rule_id: rule_id@,
                premises: premises@,
                thens: thens@,
                elses: elses@,
                priority: priority,
                section: sec_m(section),
            };
            if toks[j].is_eol {
                j = j + 1;
                continue;
            }
            let t = toks[j];
            if matches!(section, ParseSection::Closed) {
                return Err(EPANETError::new(201));
            }
            if is_kw_if(text, t.start, t.end) {
                if !matches!(section, ParseSection::Premises) || premises.len() > 0 {
                    return Err(EPANETError::new(201));
                }
                match self.parse_premise_clause(text, &toks, j, LogicalOperator::IF) {
                    Ok(p) => {
                        premises.push(p.0);
                        j = p.1;
                    },
                    Err(e) => {
                        return Err(e);
                    },
                }
            } else if is_kw_and(text, t.start, t.end) {
                match section {
                    ParseSection::Premises => {
                        if premises.len() == 0 {
                            return Err(EPANETError::new(201));
                        }
                        match self.parse_premise_clause(text, &toks, j, LogicalOperator::AND) {
                            Ok(p) => {
                                premises.push(p.0);
                                j = p.1;
                            },
                            Err(e) => {
                                return Err(e);
                            },
                        }
                    },
                    ParseSection::ThenActions => {
                        match self.parse_action_clause(text, &toks, j) {
                            Ok(p) => {
                                thens.push(p.0);
                                j = p.1;
                            },
                            Err(e) => {
                                return Err(e);
                            },
                        }
                    },
                    ParseSection::ElseActions => {
                        match self.parse_action_clause(text, &toks, j) {
                            Ok(p) => {
                                elses.push(p.0);
                                j = p.1;
                            },
                            Err(e) => {
                                return Err(e);
                            },
                        }
                    },
                    ParseSection::Closed => {
                        return Err(EPANETError::new(201));
                    },
                }
            } else if is_kw_or(text, t.start, t.end) {
                if !matches!(section, ParseSection::Premises) || premises.len() == 0 {
                    return Err(EPANETError::new(201));
                }
                match self.parse_premise_clause(text, &toks, j, LogicalOperator::OR) {
                    Ok(p) => {
                        premises.push(p.0);
                        j = p.1;
                    },
                    Err(e) => {
                        return Err(e);
                    },
                }
            } else if is_kw_then(text, t.start, t.end) {
                if !matches!(section, ParseSection::Premises) || premises.len() == 0 {
                    return Err(EPANETError::new(201));
                }
                match self.parse_action_clause(text, &toks, j) {
                    Ok(p) => {
                        thens.push(p.0);
                        section = ParseSection::ThenActions;
                        j = p.1;
                    },
                    Err(e) => {
                        return Err(e);
                    },
                }
            } else if is_kw_else(text, t.start, t.end) {
                if !matches!(section, ParseSection::ThenActions) {
                    return Err(EPANETError::new(201));
                }
                match self.parse_action_clause(text, &toks, j) {
                    Ok(p) => {
                        elses.push(p.0);
                        section = ParseSection::ElseActions;
                        j = p.1;
                    },
                    Err(e) => {
                        return Err(e);
                    },
                }
            } else if is_kw_priority(text, t.start, t.end) {
                if !(matches!(section, ParseSection::ThenActions) || matches!(
                    section,
                    ParseSection::ElseActions,
                )) {
                    return Err(EPANETError::new(201));
                }
                if j + 1 >= n || toks[j + 1].is_eol {
                    return Err(EPANETError::new(201));
                }
                let vt = toks[j + 1];
                let v = match parse_int_token(text, vt.start, vt.end) {
                    Some(v) => v,
                    None => {
                        return Err(EPANETError::new(202));
                    },
                };
                if !(0 <= v && v <= 255) {
                    return Err(EPANETError::new(202));
                }
                if j + 2 < n && !toks[j + 2].is_eol {
                    return Err(EPANETError::new(201));
                }
                priority = Some(v as u8);
                section = ParseSection::Closed;
                j = if j + 2 < n {
                    j + 3
                } else {
                    n
                };
            } else {
                return Err(EPANETError::new(201));
            }
        }
        if premises.len() < 1 || premises.len() > INDEX_LIMIT {
            return Err(EPANETError::new(201));
        }
        if thens.len() < 1 || thens.len() > INDEX_LIMIT {
            return Err(EPANETError::new(201));
        }
        if elses.len() > INDEX_LIMIT {
            return Err(EPANETError::new(201));
        }
        if matches!(section, ParseSection::Premises) {
            return Err(EPANETError::new(201));
        }
        Ok(
            RuleRec {
                rule_id,
                premises,
                then_actions: thens,
                else_actions: elses,
                priority,
                enabled: true,
            },
        )
    }

    /// Parses free-text rule syntax and appends the parsed rule at the next
    /// index. Referenced elements must already exist.
    ///
    /// Fails with code 201 (syntax error) on malformed grammar or an
    /// unknown token, code 202 (illegal numeric value) on a bad number,
    /// and codes 203 or 204 when a referenced node or link ID is unknown.
    pub fn add_rule(&mut self, rule: &str) -> (r: Result<(), EPANETError>)
        requires
            old(self).wf(),
        ensures
            final(self).wf(),
            final(self).same_clock(*old(self)),
            final(self).nodes_m() == old(self).nodes_m(),
            final(self).links_m() == old(self).links_m(),
            final(self).controls_m() == old(self).controls_m(),
            match r {
                Ok(()) => {
                    &&& old(self).rules_m().len() < INDEX_LIMIT
                    &&& final(self).rules_m().len() == old(self).rules_m().len() + 1
                    &&& spec_parse_rule(old(self).nodes_m(), old(self).links_m(), rule@) == Ok::<
                        RuleModel,
                        i32,
                    >(final(self).rules_m().last())
                    &&& final(self).rules_m() == old(self).rules_m().push(
                        final(self).rules_m().last(),
                    )
                },
                Err(e) => {
                    &&& final(self).unchanged(*old(self))
                    &&& (e.code == 101 ==> old(self).rules_m().len() >= INDEX_LIMIT)
                    &&& (e.code != 101 ==> spec_parse_rule(
                        old(self).nodes_m(),
                        old(self).links_m(),
                        rule@,
                    ) == Err::<RuleModel, i32>(e.code))
                },
            },
    {
        if self.rules.len() >= INDEX_LIMIT {
            return Err(EPANETError::new(101));
        }
        let rec = match self.parse_rule_text(rule) {
            Ok(rec) => rec,
            Err(e) => {
                return Err(e);
            },
        };
        self.rules.push(rec);
        proof {
            assert(self.rules_m() =~= old(self).rules_m().push(self.rules_m().last()));
            assert forall|q: int| 0 <= q < self.rules_m().len() implies rule_wf(
                #[trigger] self.rules_m()[q],
                self.nodes_m().len() as int,
                self.links_m().len() as int,
            ) by {
                if q < old(self).rules_m().len() {
                    assert(rule_wf(
                        old(self).rules_m()[q],
                        old(self).nodes_m().len() as int,
                        old(self).links_m().len() as int,
                    ));
                }
            }
        }
        Ok(())
    }
}

} // verus!
