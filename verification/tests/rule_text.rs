//! Tests of the rule grammar: round-tripping a rule through the store and
//! rejecting malformed text with the right error codes.

use epanet::EPANET;
use epanet::InitHydOption;
use epanet::LinkProperty;
use epanet::LinkType;
use epanet::LogicalOperator;
use epanet::NodeProperty;
use epanet::NodeType;
use epanet::RuleObject;
use epanet::RuleOperator;
use epanet::RuleStatus;
use epanet::RuleVariable;

fn net() -> EPANET {
    let mut ph = EPANET::new();
    ph.add_node("2", NodeType::Tank).unwrap();
    ph.add_node("23", NodeType::Junction).unwrap();
    ph.add_link("9", LinkType::Pump, "2", "23").unwrap();
    ph.add_link("31", LinkType::Pipe, "2", "23").unwrap();
    ph
}

#[test]
fn test_rule_round_trip() {
    // Adding a rule and retrieving it at its new index reproduces the
    // premise count, the action counts and every field value encoded in
    // the text.
    let mut ph = net();
    let text = "RULE R7\nIF NODE 2 LEVEL BELOW 100\nOR SYSTEM CLOCKTIME = 43200\n\
                AND LINK 9 STATUS IS OPEN\nTHEN LINK 9 STATUS = CLOSED\n\
                AND LINK 31 SETTING = -3\nELSE LINK 31 STATUS = OPEN\nPRIORITY 5";
    ph.add_rule(text).unwrap();

    let rule = ph.get_rule(1).unwrap();
    assert_eq!(rule.rule_id, "R7");
    assert_eq!(rule.premises.len(), 3);
    assert_eq!(rule.then_actions.len(), 2);
    assert_eq!(rule.priority, Some(5));
    assert!(rule.enabled);

    let p0 = rule.premises[0];
    assert_eq!(p0.logical_operator, LogicalOperator::IF);
    assert_eq!(p0.rule_object, RuleObject::Node);
    assert_eq!(p0.object_index, 1);
    assert_eq!(p0.variable, RuleVariable::Level);
    assert_eq!(p0.rule_operator, RuleOperator::Below);
    assert_eq!(p0.status, None);
    assert_eq!(p0.value, 100);

    let p1 = rule.premises[1];
    assert_eq!(p1.logical_operator, LogicalOperator::OR);
    assert_eq!(p1.rule_object, RuleObject::System);
    assert_eq!(p1.object_index, 0);
    assert_eq!(p1.variable, RuleVariable::ClockTime);
    assert_eq!(p1.rule_operator, RuleOperator::Eq);
    assert_eq!(p1.value, 43200);

    let p2 = rule.premises[2];
    assert_eq!(p2.logical_operator, LogicalOperator::AND);
    assert_eq!(p2.rule_object, RuleObject::Link);
    assert_eq!(p2.object_index, 1);
    assert_eq!(p2.variable, RuleVariable::Status);
    assert_eq!(p2.rule_operator, RuleOperator::Is);
    assert_eq!(p2.status, Some(RuleStatus::IsOpen));

    let a0 = rule.then_actions[0];
    assert_eq!(a0.link_index, 1);
    assert_eq!(a0.status, Some(RuleStatus::IsClosed));
    assert_eq!(a0.setting, None);

    let a1 = rule.then_actions[1];
    assert_eq!(a1.link_index, 2);
    assert_eq!(a1.status, None);
    assert_eq!(a1.setting, Some(-3));

    let elses = rule.else_actions.unwrap();
    assert_eq!(elses.len(), 1);
    assert_eq!(elses[0].link_index, 2);
    assert_eq!(elses[0].status, Some(RuleStatus::IsOpen));

    // Retrieval by clause mirrors the assembled structure.
    let counts = ph.get_rule_counts(1).unwrap();
    assert_eq!(counts, (3, 2, 1));
    assert_eq!(ph.get_premise(1, 1).unwrap(), p0);
    assert_eq!(ph.get_then_action(1, 2).unwrap(), a1);
    assert_eq!(ph.get_else_action(1, 1).unwrap(), elses[0]);
    assert_eq!(ph.get_rule_id(1).unwrap(), "R7");
    assert_eq!(ph.get_rule_enabled(1).unwrap(), true);
}

#[test]
fn test_rule_keywords_tolerate_case_and_blanks() {
    let mut ph = net();
    ph.add_rule("  rule  x1 \r\n  if  node 2 level < 10 \n then link 9 status = open  ")
        .unwrap();
    let rule = ph.get_rule(1).unwrap();
    assert_eq!(rule.rule_id, "x1");
    assert_eq!(rule.premises.len(), 1);
    assert_eq!(rule.premises[0].rule_operator, RuleOperator::Lt);
    assert_eq!(rule.then_actions[0].status, Some(RuleStatus::IsOpen));
}

#[test]
fn test_rule_parse_errors() {
    let mut ph = net();
    // An unknown leading token is a syntax error.
    assert_eq!(ph.add_rule("GIBBERISH").unwrap_err().code, 201);
    // A missing THEN clause is a syntax error.
    assert_eq!(ph.add_rule("RULE 1\nIF NODE 2 LEVEL < 100").unwrap_err().code, 201);
    // A premise before IF is a syntax error.
    assert_eq!(
        ph.add_rule("RULE 1\nAND NODE 2 LEVEL < 100\nTHEN LINK 9 STATUS = OPEN")
            .unwrap_err()
            .code,
        201
    );
    // Two clauses on one line are a syntax error.
    assert_eq!(
        ph.add_rule("RULE 1\nIF NODE 2 LEVEL < 100 THEN LINK 9 STATUS = OPEN")
            .unwrap_err()
            .code,
        201
    );
    // An unknown node ID is a reference error.
    assert_eq!(
        ph.add_rule("RULE 1\nIF NODE 77 LEVEL < 100\nTHEN LINK 9 STATUS = OPEN")
            .unwrap_err()
            .code,
        203
    );
    // An unknown link ID is a reference error.
    assert_eq!(
        ph.add_rule("RULE 1\nIF NODE 2 LEVEL < 100\nTHEN LINK 77 STATUS = OPEN")
            .unwrap_err()
            .code,
        204
    );
    // A malformed numeric value is a numeric error.
    assert_eq!(
        ph.add_rule("RULE 1\nIF NODE 2 LEVEL < abc\nTHEN LINK 9 STATUS = OPEN")
            .unwrap_err()
            .code,
        202
    );
    // A link variable on a node premise is a syntax error.
    assert_eq!(
        ph.add_rule("RULE 1\nIF NODE 2 FLOW < 100\nTHEN LINK 9 STATUS = OPEN")
            .unwrap_err()
            .code,
        201
    );
    // An out-of-range priority is a numeric error.
    assert_eq!(
        ph.add_rule("RULE 1\nIF NODE 2 LEVEL < 100\nTHEN LINK 9 STATUS = OPEN\nPRIORITY 900")
            .unwrap_err()
            .code,
        202
    );
    // Nothing was stored by the failed attempts.
    assert_eq!(ph.get_rule(1).unwrap_err().code, 257);
}

#[test]
fn test_delete_rule_shifts_rule_indices() {
    let mut ph = net();
    ph.add_rule("RULE A\nIF NODE 2 LEVEL < 1\nTHEN LINK 9 STATUS = OPEN").unwrap();
    ph.add_rule("RULE B\nIF NODE 2 LEVEL < 2\nTHEN LINK 9 STATUS = OPEN").unwrap();
    ph.add_rule("RULE C\nIF NODE 2 LEVEL < 3\nTHEN LINK 9 STATUS = OPEN").unwrap();
    ph.delete_rule(2).unwrap();
    assert_eq!(ph.get_rule_id(1).unwrap(), "A");
    assert_eq!(ph.get_rule_id(2).unwrap(), "C");
    assert_eq!(ph.delete_rule(3).unwrap_err().code, 257);
}

#[test]
fn test_rule_evaluation_connectives() {
    // The premise list is evaluated left to right: an OR premise is
    // consulted only when the running result is false. Here the IF premise
    // fails and the OR premise rescues the rule.
    let mut ph = net();
    ph.set_node_value(1, NodeProperty::MaxLevel, 200).unwrap();
    ph.set_node_value(1, NodeProperty::TankLevel, 150).unwrap();
    ph.add_rule(
        "RULE R\nIF NODE 2 LEVEL BELOW 100\nOR NODE 2 LEVEL ABOVE 140\n\
         AND LINK 9 STATUS IS OPEN\nTHEN LINK 31 SETTING = 8\nELSE LINK 31 SETTING = 1",
    )
    .unwrap();

    ph.open_h().unwrap();
    ph.init_h(InitHydOption::NoSave).unwrap();
    ph.run_h().unwrap();
    // Level 150: the IF fails, the OR holds, and link 9 is open, so the
    // THEN branch fires.
    assert_eq!(ph.get_link_value(2, LinkProperty::Setting).unwrap(), 8);
    ph.close_h().unwrap();

    // With the level between the two setpoints both numeric premises fail
    // and the ELSE branch fires instead.
    let mut ph2 = net();
    ph2.set_node_value(1, NodeProperty::MaxLevel, 200).unwrap();
    ph2.set_node_value(1, NodeProperty::TankLevel, 120).unwrap();
    ph2.add_rule(
        "RULE R\nIF NODE 2 LEVEL BELOW 100\nOR NODE 2 LEVEL ABOVE 140\n\
         AND LINK 9 STATUS IS OPEN\nTHEN LINK 31 SETTING = 8\nELSE LINK 31 SETTING = 1",
    )
    .unwrap();
    ph2.open_h().unwrap();
    ph2.init_h(InitHydOption::NoSave).unwrap();
    ph2.run_h().unwrap();
    assert_eq!(ph2.get_link_value(2, LinkProperty::Setting).unwrap(), 1);
    ph2.close_h().unwrap();
}

#[test]
fn test_rule_priority_resolves_conflicts() {
    // When two rules act on the same link in the same evaluation, the
    // strictly higher priority wins regardless of rule order.
    let mut ph = net();
    ph.add_rule("RULE P1\nIF SYSTEM TIME = 0\nTHEN LINK 31 SETTING = 3\nPRIORITY 9")
        .unwrap();
    ph.add_rule("RULE P2\nIF SYSTEM TIME = 0\nTHEN LINK 31 SETTING = 4\nPRIORITY 2")
        .unwrap();
    ph.open_h().unwrap();
    ph.init_h(InitHydOption::NoSave).unwrap();
    ph.run_h().unwrap();
    assert_eq!(ph.get_link_value(2, LinkProperty::Setting).unwrap(), 3);
    ph.close_h().unwrap();
}
