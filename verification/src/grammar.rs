//! The rule grammar.
//!
//! A rule is a block of lines: a `RULE <id>` header; one `IF` premise line
//! followed by `AND`/`OR` premise lines; one `THEN` action line followed by
//! `AND` action lines; optionally one `ELSE` action line followed by `AND`
//! action lines; optionally one `PRIORITY <n>` line. A premise is
//! `<object> [<id>] <variable> <relop> <value|status>`; an action is
//! `LINK <id> STATUS|SETTING = <status|value>`. Keywords are matched
//! case-insensitively; element IDs are matched exactly.
//!
//! The functions here define the grammar over the token sequence; the
//! parser in the neighbouring module follows them step by step.

use vstd::prelude::*;
use crate::enums::LogicalOperator;
use crate::enums::RuleObject;
use crate::enums::RuleOperator;
use crate::enums::RuleStatus;
use crate::enums::RuleVariable;
use crate::keywords::is_eq_sym;
use crate::keywords::is_ge_sym;
use crate::keywords::is_gt_sym;
use crate::keywords::is_kw_above;
use crate::keywords::is_kw_active;
use crate::keywords::is_kw_below;
use crate::keywords::is_kw_clocktime;
use crate::keywords::is_kw_closed;
use crate::keywords::is_kw_demand;
use crate::keywords::is_kw_draintime;
use crate::keywords::is_kw_filltime;
use crate::keywords::is_kw_flow;
use crate::keywords::is_kw_grade;
use crate::keywords::is_kw_head;
use crate::keywords::is_kw_is;
use crate::keywords::is_kw_level;
use crate::keywords::is_kw_not;
use crate::keywords::is_kw_open;
use crate::keywords::is_kw_power;
use crate::keywords::is_kw_pressure;
use crate::keywords::is_kw_setting;
use crate::keywords::is_kw_status;
use crate::keywords::is_kw_time;
use crate::keywords::is_le_sym;
use crate::keywords::is_lt_sym;
use crate::keywords::is_ne_sym;
use crate::keywords::spec_is_digit;
use crate::keywords::spec_is_eq_sym;
use crate::keywords::spec_is_ge_sym;
use crate::keywords::spec_is_gt_sym;
use crate::keywords::spec_is_kw_above;
use crate::keywords::spec_is_kw_active;
use crate::keywords::spec_is_kw_and;
use crate::keywords::spec_is_kw_below;
use crate::keywords::spec_is_kw_clocktime;
use crate::keywords::spec_is_kw_closed;
use crate::keywords::spec_is_kw_demand;
use crate::keywords::spec_is_kw_draintime;
use crate::keywords::spec_is_kw_else;
use crate::keywords::spec_is_kw_filltime;
use crate::keywords::spec_is_kw_flow;
use crate::keywords::spec_is_kw_grade;
use crate::keywords::spec_is_kw_head;
use crate::keywords::spec_is_kw_if;
use crate::keywords::spec_is_kw_is;
use crate::keywords::spec_is_kw_level;
use crate::keywords::spec_is_kw_link;
use crate::keywords::spec_is_kw_node;
use crate::keywords::spec_is_kw_not;
use crate::keywords::spec_is_kw_open;
use crate::keywords::spec_is_kw_or;
use crate::keywords::spec_is_kw_power;
use crate::keywords::spec_is_kw_pressure;
use crate::keywords::spec_is_kw_priority;
use crate::keywords::spec_is_kw_rule;
use crate::keywords::spec_is_kw_setting;
use crate::keywords::spec_is_kw_status;
use crate::keywords::spec_is_kw_system;
use crate::keywords::spec_is_kw_then;
use crate::keywords::spec_is_kw_time;
use crate::keywords::spec_is_le_sym;
use crate::keywords::spec_is_lt_sym;
use crate::keywords::spec_is_ne_sym;
use crate::model::ActionClause;
use crate::model::LinkModel;
use crate::model::NodeModel;
use crate::model::Premise;
use crate::model::RuleModel;
use crate::model::link_variable;
use crate::model::node_variable;
use crate::model::system_variable;
use crate::tokens::TokModel;
use crate::tokens::spec_tokens;

verus! {

/// Largest magnitude a literal value in rule text may denote.
pub const TEXT_VALUE_LIMIT: i64 = 999_999_999_999;

/// Ten to the power `n`.
pub open spec fn pow10(n: nat) -> int
    decreases n,
{
    if n == 0 {
        1
    } else {
        10 * pow10((n - 1) as nat)
    }
}

/// Numeric value of a digit sequence, most significant digit first.
pub open spec fn spec_digits_val(w: Seq<char>) -> int
    decreases w.len(),
{
    if w.len() == 0 {
        0
    } else {
        spec_digits_val(w.drop_last()) * 10 + (w.last() as u8 - 48)
    }
}

/// Whether every character of a word is a decimal digit.
pub open spec fn spec_all_digits(w: Seq<char>) -> bool {
    forall|k: int| 0 <= k < w.len() ==> spec_is_digit((#[trigger] w[k]) as u8)
}

/// The value of a digit sequence is nonnegative and below ten to its
/// length.
pub proof fn lemma_digits_bound(w: Seq<char>)
    requires
        spec_all_digits(w),
    ensures
        0 <= spec_digits_val(w) < pow10(w.len()),
    decreases w.len(),
{
    if w.len() > 0 {
        assert(spec_all_digits(w.drop_last())) by {
            assert(forall|k: int|
                0 <= k < w.len() - 1 ==> w.drop_last()[k] == #[trigger] w[k]);
        }
        lemma_digits_bound(w.drop_last());
    }
}

/// Ten to a power up to twelve is at most the text value limit plus one.
pub proof fn lemma_pow10_le(n: nat)
    requires
        n <= 12,
    ensures
        pow10(n) <= 1_000_000_000_000,
    decreases n,
{
    reveal_with_fuel(pow10, 13);
    if n > 0 {
        lemma_pow10_le((n - 1) as nat);
    }
}

/// Integer denoted by a word: an optional minus sign followed by one to
/// twelve digits. `None` for anything else.
pub open spec fn spec_parse_int(w: Seq<char>) -> Option<i64> {
    if w.len() > 0 && w[0] as u8 == 45 {
        let d = w.drop_first();
        if 1 <= d.len() <= 12 && spec_all_digits(d) {
            Some((-spec_digits_val(d)) as i64)
        } else {
            None
        }
    } else {
        if 1 <= w.len() <= 12 && spec_all_digits(w) {
            Some(spec_digits_val(w) as i64)
        } else {
            None
        }
    }
}

/// 1-based index of the first node carrying the given ID, if any.
pub open spec fn spec_find_node(nodes: Seq<NodeModel>, id: Seq<char>) -> Option<int>
    decreases nodes.len(),
{
    if nodes.len() == 0 {
        None
    } else if nodes[0].id == id {
        Some(1)
    } else {
        match spec_find_node(nodes.drop_first(), id) {
            Some(k) => Some(k + 1),
            None => None,
        }
    }
}

/// 1-based index of the first link carrying the given ID, if any.
pub open spec fn spec_find_link(links: Seq<LinkModel>, id: Seq<char>) -> Option<int>
    decreases links.len(),
{
    if links.len() == 0 {
        None
    } else if links[0].id == id {
        Some(1)
    } else {
        match spec_find_link(links.drop_first(), id) {
            Some(k) => Some(k + 1),
            None => None,
        }
    }
}

/// The found node index is the first match.
pub proof fn lemma_find_node(nodes: Seq<NodeModel>, id: Seq<char>)
    ensures
        match spec_find_node(nodes, id) {
            Some(k) => 1 <= k <= nodes.len() && nodes[k - 1].id == id && forall|j: int|
                0 <= j < k - 1 ==> nodes[j].id != id,
            None => forall|j: int| 0 <= j < nodes.len() ==> nodes[j].id != id,
        },
    decreases nodes.len(),
{
    if nodes.len() > 0 && nodes[0].id != id {
        lemma_find_node(nodes.drop_first(), id);
        match spec_find_node(nodes, id) {
            Some(k) => {
                assert(nodes[k - 1] == nodes.drop_first()[k - 2]);
                assert forall|j: int| 0 <= j < k - 1 implies nodes[j].id != id by {
                    if j >= 1 {
                        assert(nodes[j] == nodes.drop_first()[j - 1]);
                    }
                }
            },
            None => {
                assert forall|j: int| 0 <= j < nodes.len() implies nodes[j].id != id by {
                    if j >= 1 {
                        assert(nodes[j] == nodes.drop_first()[j - 1]);
                    }
                }
            },
        }
    }
}

/// The found link index is the first match.
pub proof fn lemma_find_link(links: Seq<LinkModel>, id: Seq<char>)
    ensures
        match spec_find_link(links, id) {
            Some(k) => 1 <= k <= links.len() && links[k - 1].id == id && forall|j: int|
                0 <= j < k - 1 ==> links[j].id != id,
            None => forall|j: int| 0 <= j < links.len() ==> links[j].id != id,
        },
    decreases links.len(),
{
    if links.len() > 0 && links[0].id != id {
        lemma_find_link(links.drop_first(), id);
        match spec_find_link(links, id) {
            Some(k) => {
                assert(links[k - 1] == links.drop_first()[k - 2]);
                assert forall|j: int| 0 <= j < k - 1 implies links[j].id != id by {
                    if j >= 1 {
                        assert(links[j] == links.drop_first()[j - 1]);
                    }
                }
            },
            None => {
                assert forall|j: int| 0 <= j < links.len() implies links[j].id != id by {
                    if j >= 1 {
                        assert(links[j] == links.drop_first()[j - 1]);
                    }
                }
            },
        }
    }
}

/// The premise variable denoted by a word, if any.
pub open spec fn spec_variable_kw(w: Seq<char>) -> Option<RuleVariable> {
    if spec_is_kw_demand(w) {
        Some(RuleVariable::Demand)
    } else if spec_is_kw_head(w) {
        Some(RuleVariable::Head)
    } else if spec_is_kw_grade(w) {
        Some(RuleVariable::Grade)
    } else if spec_is_kw_level(w) {
        Some(RuleVariable::Level)
    } else if spec_is_kw_pressure(w) {
        Some(RuleVariable::Pressure)
    } else if spec_is_kw_flow(w) {
        Some(RuleVariable::Flow)
    } else if spec_is_kw_status(w) {
        Some(RuleVariable::Status)
    } else if spec_is_kw_setting(w) {
        Some(RuleVariable::Setting)
    } else if spec_is_kw_power(w) {
        Some(RuleVariable::Power)
    } else if spec_is_kw_time(w) {
        Some(RuleVariable::Time)
    } else if spec_is_kw_clocktime(w) {
        Some(RuleVariable::ClockTime)
    } else if spec_is_kw_filltime(w) {
        Some(RuleVariable::FillTime)
    } else if spec_is_kw_draintime(w) {
        Some(RuleVariable::DrainTime)
    } else {
        None
    }
}

/// The relational operator denoted by a word, if any.
pub open spec fn spec_relop_kw(w: Seq<char>) -> Option<RuleOperator> {
    if spec_is_eq_sym(w) {
        Some(RuleOperator::Eq)
    } else if spec_is_ne_sym(w) {
        Some(RuleOperator::Ne)
    } else if spec_is_le_sym(w) {
        Some(RuleOperator::Le)
    } else if spec_is_ge_sym(w) {
        Some(RuleOperator::Ge)
    } else if spec_is_lt_sym(w) {
        Some(RuleOperator::Lt)
    } else if spec_is_gt_sym(w) {
        Some(RuleOperator::Gt)
    } else if spec_is_kw_is(w) {
        Some(RuleOperator::Is)
    } else if spec_is_kw_not(w) {
        Some(RuleOperator::Not)
    } else if spec_is_kw_below(w) {
        Some(RuleOperator::Below)
    } else if spec_is_kw_above(w) {
        Some(RuleOperator::Above)
    } else {
        None
    }
}

/// The link status denoted by a word, if any.
pub open spec fn spec_status_kw(w: Seq<char>) -> Option<RuleStatus> {
    if spec_is_kw_open(w) {
        Some(RuleStatus::IsOpen)
    } else if spec_is_kw_closed(w) {
        Some(RuleStatus::IsClosed)
    } else if spec_is_kw_active(w) {
        Some(RuleStatus::IsActive)
    } else {
        None
    }
}

/// Section of the rule block a parse has reached.
pub ghost enum Section {
    /// Premise lines.
    Prem,
    /// Then-action lines.
    Then,
    /// Else-action lines.
    Else,
    /// After the priority line; only blank lines may follow.
    Done,
}

/// Accumulated parse state.
pub ghost struct PState {
    /// Identifier from the header line.
    pub rule_id: Seq<char>,
    /// Premises parsed so far.
    pub premises: Seq<Premise>,
    /// Then-actions parsed so far.
    pub thens: Seq<ActionClause>,
    /// Else-actions parsed so far.
    pub elses: Seq<ActionClause>,
    /// Priority, if a priority line was parsed.
    pub priority: Option<u8>,
    /// Current section.
    pub section: Section,
}

/// Whether a word token stands at position `j`.
pub open spec fn is_word_at(toks: Seq<TokModel>, j: int) -> bool {
    0 <= j < toks.len() && !toks[j].is_eol
}

/// The text of the word token at position `j`.
pub open spec fn wtext(s: Seq<char>, toks: Seq<TokModel>, j: int) -> Seq<char> {
    s.subrange(toks[j].start, toks[j].end)
}

/// Whether the clause ends at token position `j`: a line break or the end
/// of the text.
pub open spec fn line_ended(toks: Seq<TokModel>, j: int) -> bool {
    j >= toks.len() || toks[j].is_eol
}

/// The position after the clause terminator at `j`.
pub open spec fn line_next(toks: Seq<TokModel>, j: int) -> int {
    if j < toks.len() {
        j + 1
    } else {
        toks.len() as int
    }
}

/// Parses the variable, operator and right-hand side of a premise whose
/// first variable token stands at `j`, yielding the premise and the token
/// position after its line.
pub open spec fn spec_premise_tail(
    s: Seq<char>,
    toks: Seq<TokModel>,
    j: int,
    logop: LogicalOperator,
    obj: RuleObject,
    oidx: i32,
) -> Result<(Premise, int), i32> {
    if !is_word_at(toks, j) || !is_word_at(toks, j + 1) || !is_word_at(toks, j + 2) {
        Err(201)
    } else {
        match spec_variable_kw(wtext(s, toks, j)) {
            None => Err(201),
            Some(var) => if !(match obj {
                RuleObject::Node => node_variable(var),
                RuleObject::Link => link_variable(var),
                RuleObject::System => system_variable(var),
            }) {
                Err(201)
            } else {
                match spec_relop_kw(wtext(s, toks, j + 1)) {
                    None => Err(201),
                    Some(op) => if var == RuleVariable::Status {
                        match spec_status_kw(wtext(s, toks, j + 2)) {
                            None => Err(201),
                            Some(st) => if !line_ended(toks, j + 3) {
                                Err(201)
                            } else {
                                Ok(
                                    (
                                        Premise {
                                            logical_operator: logop,
                                            rule_object: obj,
                                            object_index: oidx,
                                            variable: var,
                                            rule_operator: op,
                                            status: Some(st),
                                            value: 0,
                                        },
                                        line_next(toks, j + 3),
                                    ),
                                )
                            },
                        }
                    } else {
                        match spec_parse_int(wtext(s, toks, j + 2)) {
                            None => Err(202),
                            Some(v) => if !line_ended(toks, j + 3) {
                                Err(201)
                            } else {
                                Ok(
                                    (
                                        Premise {
                                            logical_operator: logop,
                                            rule_object: obj,
                                            object_index: oidx,
                                            variable: var,
                                            rule_operator: op,
                                            status: None,
                                            value: v,
                                        },
                                        line_next(toks, j + 3),
                                    ),
                                )
                            },
                        }
                    },
                }
            },
        }
    }
}

/// Parses a premise clause whose connective token stands at `i`, yielding
/// the premise and the token position after its line.
pub open spec fn spec_premise_clause(
    nodes: Seq<NodeModel>,
    links: Seq<LinkModel>,
    s: Seq<char>,
    toks: Seq<TokModel>,
    i: int,
    logop: LogicalOperator,
) -> Result<(Premise, int), i32> {
    if !is_word_at(toks, i + 1) {
        Err(201)
    } else {
        let ow = wtext(s, toks, i + 1);
        if spec_is_kw_system(ow) {
            spec_premise_tail(s, toks, i + 2, logop, RuleObject::System, 0)
        } else if spec_is_kw_node(ow) {
            if !is_word_at(toks, i + 2) {
                Err(201)
            } else {
                match spec_find_node(nodes, wtext(s, toks, i + 2)) {
                    None => Err(203),
                    Some(k) => spec_premise_tail(
                        s,
                        toks,
                        i + 3,
                        logop,
                        RuleObject::Node,
                        k as i32,
                    ),
                }
            }
        } else if spec_is_kw_link(ow) {
            if !is_word_at(toks, i + 2) {
                Err(201)
            } else {
                match spec_find_link(links, wtext(s, toks, i + 2)) {
                    None => Err(204),
                    Some(k) => spec_premise_tail(
                        s,
                        toks,
                        i + 3,
                        logop,
                        RuleObject::Link,
                        k as i32,
                    ),
                }
            }
        } else {
            Err(201)
        }
    }
}

/// Parses an action clause whose introducing token stands at `i`, yielding
/// the action and the token position after its line.
pub open spec fn spec_action_clause(
    links: Seq<LinkModel>,
    s: Seq<char>,
    toks: Seq<TokModel>,
    i: int,
) -> Result<(ActionClause, int), i32> {
    if !is_word_at(toks, i + 1) || !spec_is_kw_link(wtext(s, toks, i + 1)) {
        Err(201)
    } else if !is_word_at(toks, i + 2) {
        Err(201)
    } else {
        match spec_find_link(links, wtext(s, toks, i + 2)) {
            None => Err(204),
            Some(k) => if !is_word_at(toks, i + 3) || !is_word_at(toks, i + 4) || !is_word_at(
                toks,
                i + 5,
            ) {
                Err(201)
            } else if !(spec_is_eq_sym(wtext(s, toks, i + 4)) || spec_is_kw_is(
                wtext(s, toks, i + 4),
            )) {
                Err(201)
            } else {
                let pw = wtext(s, toks, i + 3);
                if spec_is_kw_status(pw) {
                    match spec_status_kw(wtext(s, toks, i + 5)) {
                        None => Err(201),
                        Some(st) => if !line_ended(toks, i + 6) {
                            Err(201)
                        } else {
                            Ok(
                                (
                                    ActionClause {
                                        link_index: k as i32,
                                        status: Some(st),
                                        setting: None,
                                    },
                                    line_next(toks, i + 6),
                                ),
                            )
                        },
                    }
                } else if spec_is_kw_setting(pw) {
                    match spec_parse_int(wtext(s, toks, i + 5)) {
                        None => Err(202),
                        Some(v) => if !line_ended(toks, i + 6) {
                            Err(201)
                        } else {
                            Ok(
                                (
                                    ActionClause {
                                        link_index: k as i32,
                                        status: None,
                                        setting: Some(v),
                                    },
                                    line_next(toks, i + 6),
                                ),
                            )
                        },
                    }
                } else {
                    Err(201)
                }
            },
        }
    }
}

/// The rule produced when the block ends, or code 201 when the block never
/// reached a complete THEN section.
pub open spec fn spec_finalize(st: PState) -> Result<RuleModel, i32> {
    if st.premises.len() >= 1 && st.premises.len() <= crate::model::INDEX_LIMIT
        && st.thens.len() >= 1 && st.thens.len() <= crate::model::INDEX_LIMIT
        && st.elses.len() <= crate::model::INDEX_LIMIT && st.section != Section::Prem {
        Ok(
            RuleModel {
                rule_id: st.rule_id,
                premises: st.premises,
                then_actions: st.thens,
                else_actions: st.elses,
                priority: st.priority,
                enabled: true,
            },
        )
    } else {
        Err(201)
    }
}

/// Parses the clause lines of a rule block from token position `i` in
/// state `st`.
pub open spec fn spec_parse_clauses(
    nodes: Seq<NodeModel>,
    links: Seq<LinkModel>,
    s: Seq<char>,
    toks: Seq<TokModel>,
    i: int,
    st: PState,
) -> Result<RuleModel, i32>
    decreases toks.len() - i when 0 <= i <= toks.len()
{
    if i >= toks.len() {
        spec_finalize(st)
    } else if toks[i].is_eol {
        spec_parse_clauses(nodes, links, s, toks, i + 1, st)
    } else {
        let w = wtext(s, toks, i);
        if st.section == Section::Done {
            Err(201)
        } else if spec_is_kw_if(w) {
            if st.section != Section::Prem || st.premises.len() > 0 {
                Err(201)
            } else {
                match spec_premise_clause(nodes, links, s, toks, i, LogicalOperator::IF) {
                    Err(c) => Err(c),
                    Ok((p, n)) => spec_parse_clauses(
                        nodes,
                        links,
                        s,
                        toks,
                        n,
                        PState { premises: st.premises.push(p), ..st },
                    ),
                }
            }
        } else if spec_is_kw_and(w) {
            match st.section {
                Section::Prem => if st.premises.len() == 0 {
                    Err(201)
                } else {
                    match spec_premise_clause(nodes, links, s, toks, i, LogicalOperator::AND) {
                        Err(c) => Err(c),
                        Ok((p, n)) => spec_parse_clauses(
                            nodes,
                            links,
                            s,
                            toks,
                            n,
                            PState { premises: st.premises.push(p), ..st },
                        ),
                    }
                },
                Section::Then => match spec_action_clause(links, s, toks, i) {
                    Err(c) => Err(c),
                    Ok((a, n)) => spec_parse_clauses(
                        nodes,
                        links,
                        s,
                        toks,
                        n,
                        PState { thens: st.thens.push(a), ..st },
                    ),
                },
                Section::Else => match spec_action_clause(links, s, toks, i) {
                    Err(c) => Err(c),
                    Ok((a, n)) => spec_parse_clauses(
                        nodes,
                        links,
                        s,
                        toks,
                        n,
                        PState { elses: st.elses.push(a), ..st },
                    ),
                },
                Section::Done => Err(201),
            }
        } else if spec_is_kw_or(w) {
            if st.section != Section::Prem || st.premises.len() == 0 {
                Err(201)
            } else {
                match spec_premise_clause(nodes, links, s, toks, i, LogicalOperator::OR) {
                    Err(c) => Err(c),
                    Ok((p, n)) => spec_parse_clauses(
                        nodes,
                        links,
                        s,
                        toks,
                        n,
                        PState { premises: st.premises.push(p), ..st },
                    ),
                }
            }
        } else if spec_is_kw_then(w) {
            if st.section != Section::Prem || st.premises.len() == 0 {
                Err(201)
            } else {
                match spec_action_clause(links, s, toks, i) {
                    Err(c) => Err(c),
                    Ok((a, n)) => spec_parse_clauses(
                        nodes,
                        links,
                        s,
                        toks,
                        n,
                        PState { thens: st.thens.push(a), section: Section::Then, ..st },
                    ),
                }
            }
        } else if spec_is_kw_else(w) {
            if st.section != Section::Then {
                Err(201)
            } else {
                match spec_action_clause(links, s, toks, i) {
                    Err(c) => Err(c),
                    Ok((a, n)) => spec_parse_clauses(
                        nodes,
                        links,
                        s,
                        toks,
                        n,
                        PState { elses: st.elses.push(a), section: Section::Else, ..st },
                    ),
                }
            }
        } else if spec_is_kw_priority(w) {
            if st.section != Section::Then && st.section != Section::Else {
                Err(201)
            } else if !is_word_at(toks, i + 1) {
                Err(201)
            } else {
                match spec_parse_int(wtext(s, toks, i + 1)) {
                    None => Err(202),
                    Some(v) => if !(0 <= v <= 255) {
                        Err(202)
                    } else if !line_ended(toks, i + 2) {
                        Err(201)
                    } else {
                        spec_parse_clauses(
                            nodes,
                            links,
                            s,
                            toks,
                            line_next(toks, i + 2),
                            PState { priority: Some(v as u8), section: Section::Done, ..st },
                        )
                    },
                }
            }
        } else {
            Err(201)
        }
    }
}

/// Parses the header line of a rule block: blank lines, then `RULE <id>`.
pub open spec fn spec_parse_header(
    nodes: Seq<NodeModel>,
    links: Seq<LinkModel>,
    s: Seq<char>,
    toks: Seq<TokModel>,
    i: int,
) -> Result<RuleModel, i32>
    decreases toks.len() - i when 0 <= i <= toks.len()
{
    if i >= toks.len() {
        Err(201)
    } else if toks[i].is_eol {
        spec_parse_header(nodes, links, s, toks, i + 1)
    } else if !spec_is_kw_rule(wtext(s, toks, i)) {
        Err(201)
    } else if !is_word_at(toks, i + 1) {
        Err(201)
    } else if !line_ended(toks, i + 2) {
        Err(201)
    } else {
        spec_parse_clauses(
            nodes,
            links,
            s,
            toks,
            line_next(toks, i + 2),
            PState {
                rule_id: wtext(s, toks, i + 1),
                premises: Seq::empty(),
                thens: Seq::empty(),
                elses: Seq::empty(),
                priority: None,
                section: Section::Prem,
            },
        )
    }
}

/// The rule denoted by a block of rule text against the given network, or
/// the error code rejecting it: 201 for malformed structure or an unknown
/// token, 202 for a bad numeric value, 203 or 204 for an unknown node or
/// link ID. Only ASCII text is accepted.
pub open spec fn spec_parse_rule(
    nodes: Seq<NodeModel>,
    links: Seq<LinkModel>,
    s: Seq<char>,
) -> Result<RuleModel, i32> {
    if !vstd::utf8::is_ascii_chars(s) {
        Err(201)
    } else {
        spec_parse_header(nodes, links, s, spec_tokens(s, 0), 0)
    }
}

/// Parses the integer denoted by the word at `[a, b)` of `text`.
#[verifier::loop_isolation(false)]
pub fn parse_int_token(text: &str, a: usize, b: usize) -> (r: Option<i64>)
    requires
        text.is_ascii(),
        a <= b <= text@.len(),
    ensures
        r == spec_parse_int(text@.subrange(a as int, b as int)),
        match r {
            Some(v) => -TEXT_VALUE_LIMIT <= v <= TEXT_VALUE_LIMIT,
            None => true,
        },
{
    let ghost w = text@.subrange(a as int, b as int);
    let mut s = a;
    let mut neg = false;
    if b - a > 0 && text.get_ascii(a) == 45 {
        neg = true;
        s = a + 1;
        proof {
            assert(w.drop_first() =~= text@.subrange(s as int, b as int));
        }
    }
    let ghost d = text@.subrange(s as int, b as int);
    if b - s < 1 || b - s > 12 {
        return None;
    }
    let mut acc: i64 = 0;
    let mut k = s;
    while k < b
        invariant
            text.is_ascii(),
            a <= s <= k <= b <= text@.len(),
            1 <= b - s <= 12,
            d == text@.subrange(s as int, b as int),
            spec_all_digits(text@.subrange(s as int, k as int)),
            acc == spec_digits_val(text@.subrange(s as int, k as int)),
            0 <= acc < pow10((k - s) as nat),
        decreases b - k,
    {
        let c = text.get_ascii(k);
        if !(48 <= c && c <= 57) {
            proof {
                assert(0 <= k - s < d.len());
                assert(d[k - s] == text@[k as int]);
                assert(!spec_is_digit(d[k - s] as u8));
                assert(!spec_all_digits(d));
            }
            return None;
        }
        proof {
            lemma_pow10_le((k - s + 1) as nat);
            assert(pow10((k - s + 1) as nat) == 10 * pow10((k - s) as nat));
        }
        acc = acc * 10 + ((c - 48) as i64);
        k = k + 1;
        proof {
            let prev = text@.subrange(s as int, k as int - 1);
            let cur = text@.subrange(s as int, k as int);
            assert(cur.drop_last() =~= prev);
            assert(cur.last() == text@[k as int - 1]);
            assert(spec_all_digits(cur)) by {
                assert(forall|q: int| 0 <= q < cur.len() - 1 ==> cur[q] == #[trigger] prev[q]);
            }
        }
    }
    proof {
        assert(text@.subrange(s as int, k as int) =~= d);
        lemma_digits_bound(d);
        lemma_pow10_le((b - s) as nat);
    }
    if neg {
        Some(-acc)
    } else {
        Some(acc)
    }
}

/// Maps the word at `[a, b)` of `text` to a premise variable.
pub fn variable_kw(text: &str, a: usize, b: usize) -> (r: Option<RuleVariable>)
    requires
        text.is_ascii(),
        a <= b <= text@.len(),
    ensures
        r == spec_variable_kw(text@.subrange(a as int, b as int)),
{
    if is_kw_demand(text, a, b) {
        Some(RuleVariable::Demand)
    } else if is_kw_head(text, a, b) {
        Some(RuleVariable::Head)
    } else if is_kw_grade(text, a, b) {
        Some(RuleVariable::Grade)
    } else if is_kw_level(text, a, b) {
        Some(RuleVariable::Level)
    } else if is_kw_pressure(text, a, b) {
        Some(RuleVariable::Pressure)
    } else if is_kw_flow(text, a, b) {
        Some(RuleVariable::Flow)
    } else if is_kw_status(text, a, b) {
        Some(RuleVariable::Status)
    } else if is_kw_setting(text, a, b) {
        Some(RuleVariable::Setting)
    } else if is_kw_power(text, a, b) {
        Some(RuleVariable::Power)
    } else if is_kw_time(text, a, b) {
        Some(RuleVariable::Time)
    } else if is_kw_clocktime(text, a, b) {
        Some(RuleVariable::ClockTime)
    } else if is_kw_filltime(text, a, b) {
        Some(RuleVariable::FillTime)
    } else if is_kw_draintime(text, a, b) {
        Some(RuleVariable::DrainTime)
    } else {
        None
    }
}

/// Maps the word at `[a, b)` of `text` to a relational operator.
pub fn relop_kw(text: &str, a: usize, b: usize) -> (r: Option<RuleOperator>)
    requires
        text.is_ascii(),
        a <= b <= text@.len(),
    ensures
        r == spec_relop_kw(text@.subrange(a as int, b as int)),
{
    if is_eq_sym(text, a, b) {
        Some(RuleOperator::Eq)
    } else if is_ne_sym(text, a, b) {
        Some(RuleOperator::Ne)
    } else if is_le_sym(text, a, b) {
        Some(RuleOperator::Le)
    } else if is_ge_sym(text, a, b) {
        Some(RuleOperator::Ge)
    } else if is_lt_sym(text, a, b) {
        Some(RuleOperator::Lt)
    } else if is_gt_sym(text, a, b) {
        Some(RuleOperator::Gt)
    } else if is_kw_is(text, a, b) {
        Some(RuleOperator::Is)
    } else if is_kw_not(text, a, b) {
        Some(RuleOperator::Not)
    } else if is_kw_below(text, a, b) {
        Some(RuleOperator::Below)
    } else if is_kw_above(text, a, b) {
        Some(RuleOperator::Above)
    } else {
        None
    }
}

/// Maps the word at `[a, b)` of `text` to a link status.
pub fn status_kw(text: &str, a: usize, b: usize) -> (r: Option<RuleStatus>)
    requires
        text.is_ascii(),
        a <= b <= text@.len(),
    ensures
        r == spec_status_kw(text@.subrange(a as int, b as int)),
{
    if is_kw_open(text, a, b) {
        Some(RuleStatus::IsOpen)
    } else if is_kw_closed(text, a, b) {
        Some(RuleStatus::IsClosed)
    } else if is_kw_active(text, a, b) {
        Some(RuleStatus::IsActive)
    } else {
        None
    }
}

} // verus!
