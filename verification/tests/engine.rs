//! Tests of the network model: element creation, typed access, simple
//! controls, and cascading deletion.

use epanet::ActionCodeType;
use epanet::ControlType;
use epanet::CountType;
use epanet::EPANET;
use epanet::ErrorKind;
use epanet::EPANETError;
use epanet::LinkProperty;
use epanet::LinkType;
use epanet::NodeProperty;
use epanet::NodeType;
use epanet::check_error;
use epanet::check_error_with_context;

#[test]
fn test_project() {
    let mut ph = EPANET::new();
    assert_eq!(ph.get_count(CountType::NodeCount).unwrap(), 0);
    assert_eq!(ph.get_count(CountType::LinkCount).unwrap(), 0);
    assert_eq!(ph.get_count(CountType::RuleCount).unwrap(), 0);
    drop(ph);
}

#[test]
fn test_add_nodes_and_links() {
    let mut ph = EPANET::new();
    assert_eq!(ph.add_node("N1", NodeType::Junction).unwrap(), 1);
    assert_eq!(ph.add_node("N2", NodeType::Tank).unwrap(), 2);
    assert_eq!(ph.get_node_index("N1").unwrap(), 1);
    assert_eq!(ph.get_node_index("N2").unwrap(), 2);
    assert_eq!(ph.get_node_id(2).unwrap(), "N2");
    assert_eq!(ph.get_node_type(2).unwrap(), NodeType::Tank);
    assert_eq!(ph.get_count(CountType::NodeCount).unwrap(), 2);
    assert_eq!(ph.get_count(CountType::TankCount).unwrap(), 1);

    assert_eq!(ph.add_link("L1", LinkType::Pipe, "N1", "N2").unwrap(), 1);
    assert_eq!(ph.get_link_index("L1").unwrap(), 1);
    assert_eq!(ph.get_link_id(1).unwrap(), "L1");
    assert_eq!(ph.get_link_type(1).unwrap(), LinkType::Pipe);
    assert_eq!(ph.get_link_nodes(1).unwrap(), (1, 2));

    // Duplicate IDs are rejected with the duplicate-ID code.
    assert_eq!(ph.add_node("N1", NodeType::Junction).unwrap_err().code, 215);
    assert_eq!(ph.add_link("L1", LinkType::Pipe, "N1", "N2").unwrap_err().code, 215);
    // Unknown end nodes are rejected with the undefined-node code.
    assert_eq!(ph.add_link("L2", LinkType::Pipe, "NX", "N2").unwrap_err().code, 203);
    // Unknown IDs do not resolve.
    assert_eq!(ph.get_node_index("NX").unwrap_err().code, 203);
    assert_eq!(ph.get_link_index("LX").unwrap_err().code, 204);
}

#[test]
fn test_node_values() {
    let mut ph = EPANET::new();
    ph.add_node("T", NodeType::Tank).unwrap();
    ph.set_node_value(1, NodeProperty::Elevation, 50).unwrap();
    assert_eq!(ph.get_node_value(1, NodeProperty::Elevation).unwrap(), 50);
    ph.set_node_value(1, NodeProperty::MaxLevel, 200).unwrap();
    ph.set_node_value(1, NodeProperty::TankLevel, 120).unwrap();
    assert_eq!(ph.get_node_value(1, NodeProperty::TankLevel).unwrap(), 120);
    assert_eq!(ph.get_node_value(1, NodeProperty::Head).unwrap(), 170);
    assert_eq!(ph.get_node_value(1, NodeProperty::Pressure).unwrap(), 120);
    // A tank level outside its bounds is rejected.
    assert_eq!(ph.set_node_value(1, NodeProperty::TankLevel, 300).unwrap_err().code, 225);
    // An unsupported property is rejected with the invalid-parameter code.
    assert_eq!(ph.get_node_value(1, NodeProperty::MixModel).unwrap_err().code, 251);
    // An out-of-range index is rejected.
    assert_eq!(ph.get_node_value(7, NodeProperty::Elevation).unwrap_err().code, 203);
}

#[test]
fn test_link_values() {
    let mut ph = EPANET::new();
    ph.add_node("A", NodeType::Reservoir).unwrap();
    ph.add_node("B", NodeType::Junction).unwrap();
    ph.add_link("P", LinkType::Pump, "A", "B").unwrap();
    ph.set_link_value(1, LinkProperty::Setting, 5).unwrap();
    assert_eq!(ph.get_link_value(1, LinkProperty::Setting).unwrap(), 5);
    // A nonzero setting opens the link; a zero setting closes it.
    assert_eq!(ph.get_link_value(1, LinkProperty::Status).unwrap(), 1);
    ph.set_link_value(1, LinkProperty::Setting, 0).unwrap();
    assert_eq!(ph.get_link_value(1, LinkProperty::Status).unwrap(), 0);
    ph.set_link_value(1, LinkProperty::Status, 1).unwrap();
    assert_eq!(ph.get_link_value(1, LinkProperty::Status).unwrap(), 1);
    assert_eq!(ph.set_link_value(1, LinkProperty::Status, 7).unwrap_err().code, 202);
    let values = ph.get_link_values(LinkProperty::Status).unwrap();
    assert_eq!(values, vec![1]);
}

#[test]
fn test_add_update_delete_control() {
    let mut ph = EPANET::new();
    ph.add_node("A", NodeType::Reservoir).unwrap();
    ph.add_node("B", NodeType::Junction).unwrap();
    ph.add_link("10", LinkType::Pipe, "A", "B").unwrap();
    let link_index = ph.get_link_index("10").unwrap();

    // Create a timer control for the given link.
    let mut control = ph
        .add_control(ControlType::Timer, link_index, 0, 0, 3600, true)
        .unwrap();
    assert!(control.index() > 0);

    // Update the control's trigger level and disable it.
    control.level = 7200;
    control.enabled = false;
    ph.update_control(&control).unwrap();

    let fetched = ph.get_control(control.index()).unwrap();
    assert_eq!(fetched.level, 7200);
    assert!(!fetched.enabled);
    assert_eq!(ph.get_control_enabled(control.index()).unwrap(), false);
    ph.set_control_enabled(control.index(), true).unwrap();
    assert_eq!(ph.get_control_enabled(control.index()).unwrap(), true);

    // Finally delete the control.
    ph.delete_control(control.index()).unwrap();
    assert!(ph.get_control(control.index()).is_err());
    assert_eq!(ph.get_control(control.index()).unwrap_err().code, 241);
}

/// Builds the network shared by the deletion tests: four nodes and three
/// links, with node `23` connected to links `22` and `113`.
fn deletion_fixture() -> EPANET {
    let mut ph = EPANET::new();
    ph.add_node("1", NodeType::Junction).unwrap();
    ph.add_node("2", NodeType::Tank).unwrap();
    ph.add_node("23", NodeType::Junction).unwrap();
    ph.add_node("3", NodeType::Junction).unwrap();
    ph.add_link("22", LinkType::Pipe, "23", "3").unwrap();
    ph.add_link("113", LinkType::Pipe, "23", "1").unwrap();
    ph.add_link("9", LinkType::Pump, "1", "3").unwrap();
    ph
}

#[test]
fn test_add_get_rule() {
    let mut ph = deletion_fixture();
    let r1 = "RULE 1 \n IF NODE 2 LEVEL < 100 \n THEN LINK 9 STATUS = OPEN";
    let r2 = "RULE 2\nIF SYSTEM TIME = 4\nTHEN LINK 9 STATUS = CLOSED";
    let r3 = "RULE 3\nIF NODE 23 PRESSURE ABOVE 140\nAND NODE 2 LEVEL > 120\n\
              THEN LINK 113 STATUS = CLOSED\nELSE LINK 22 STATUS = CLOSED";
    let r4 = "RULE 4\nIF NODE 2 LEVEL > 10\nTHEN LINK 9 SETTING = 5";

    assert!(ph.add_rule(r1).is_ok());
    assert!(ph.add_rule(r2).is_ok());
    assert!(ph.add_rule(r3).is_ok());
    assert!(ph.add_rule(r4).is_ok());
    assert_eq!(ph.get_count(CountType::RuleCount).unwrap(), 4);

    // Check the number of clauses in rule 3.
    let rule = ph.get_rule(3).unwrap();
    assert_eq!(rule.premises.len(), 2);
    assert_eq!(rule.then_actions.len(), 1);
    assert_eq!(rule.else_actions.unwrap().len(), 1);

    // Try to delete link 113 conditionally, which fails because it is in
    // rule 3, and leaves the model unchanged.
    let link_index = ph.get_link_index("113").unwrap();
    assert_eq!(link_index, 2);
    let delete_result = ph.delete_link(link_index, ActionCodeType::Conditional);
    assert!(delete_result.is_err());
    assert_eq!(delete_result.unwrap_err().code, 261);
    assert_eq!(ph.get_count(CountType::RuleCount).unwrap(), 4);
    assert_eq!(ph.get_count(CountType::LinkCount).unwrap(), 3);

    // Delete node 23 unconditionally: this also removes rule 3 as well as
    // links 22 and 113.
    let node23 = ph.get_node_index("23").unwrap();
    let pump9_before = ph.get_link_index("9").unwrap();
    ph.delete_node(node23, ActionCodeType::Unconditional).unwrap();

    // There are now only 3 rules.
    assert_eq!(ph.get_count(CountType::RuleCount).unwrap(), 3);

    // Link 22 no longer exists.
    let link22_error = ph.get_link_index("22");
    assert!(link22_error.is_err());
    assert_eq!(link22_error.unwrap_err().code, 204);

    // Rule 4 shifted down by exactly the number of rules removed.
    assert_eq!(ph.get_rule(3).unwrap().rule_id, "4");

    // The index of pump 9 has been reduced by 2: both removed links stood
    // below it.
    let pump9_after = ph.get_link_index("9").unwrap();
    assert_eq!(pump9_before - pump9_after, 2);
    assert_eq!(ph.get_count(CountType::LinkCount).unwrap(), 1);
    assert_eq!(ph.get_count(CountType::NodeCount).unwrap(), 3);
}

#[test]
fn test_index_shift_after_unconditional_delete() {
    // Links above a deleted link shift down by one, and the references
    // stored inside surviving rules are renumbered with them.
    let mut ph = deletion_fixture();
    ph.add_rule("RULE A\nIF NODE 2 LEVEL < 100\nTHEN LINK 113 STATUS = OPEN")
        .unwrap();
    // Link 22 (index 1) is unreferenced; deleting it shifts link 113 from
    // index 2 to index 1.
    ph.delete_link(1, ActionCodeType::Unconditional).unwrap();
    assert_eq!(ph.get_link_index("113").unwrap(), 1);
    let rule = ph.get_rule(1).unwrap();
    assert_eq!(rule.then_actions[0].link_index, 1);
}

#[test]
fn test_conditional_delete_blocks() {
    let mut ph = deletion_fixture();
    ph.add_rule("RULE 1\nIF NODE 23 PRESSURE ABOVE 140\nTHEN LINK 9 STATUS = OPEN")
        .unwrap();
    let nodes_before = ph.get_count(CountType::NodeCount).unwrap();
    let links_before = ph.get_count(CountType::LinkCount).unwrap();
    let rules_before = ph.get_count(CountType::RuleCount).unwrap();

    // The node is referenced by an enabled rule, but the conditional
    // deletion already fails on its connecting links.
    let e = ph.delete_node(3, ActionCodeType::Conditional).unwrap_err();
    assert_eq!(e.code, 259);
    // A link referenced by an enabled rule cannot be deleted conditionally.
    let e = ph.delete_link(3, ActionCodeType::Conditional).unwrap_err();
    assert_eq!(e.code, 261);
    assert_eq!(e.kind(), ErrorKind::Reference);

    // The model is unchanged after the failed attempts.
    assert_eq!(ph.get_count(CountType::NodeCount).unwrap(), nodes_before);
    assert_eq!(ph.get_count(CountType::LinkCount).unwrap(), links_before);
    assert_eq!(ph.get_count(CountType::RuleCount).unwrap(), rules_before);

    // An unreferenced link can be deleted conditionally.
    ph.delete_rule(1).unwrap();
    assert!(ph.delete_link(3, ActionCodeType::Conditional).is_ok());
}

#[test]
fn test_error_helpers() {
    assert!(check_error(0).is_ok());
    let e = check_error(204).unwrap_err();
    assert_eq!(e.code, 204);
    assert_eq!(e.message(), "undefined link");
    assert_eq!(e.kind(), ErrorKind::Reference);
    let e = check_error_with_context(201, "adding a rule").unwrap_err();
    assert_eq!(e.code, 201);
    assert_eq!(e.kind(), ErrorKind::Parse);
    let e = EPANETError::new(103);
    assert_eq!(e.kind(), ErrorKind::State);
    assert_eq!(e.message(), "hydraulics not initialized");
    let e = EPANETError::new(9999);
    assert_eq!(e.kind(), ErrorKind::Unrecognized);
    assert_eq!(e.message(), "unrecognized error code");
    let a = EPANETError::new(261);
    let b = EPANETError::new(261).with_context("conditional deletion");
    assert_eq!(a, b);
}

#[test]
fn test_enum_codes() {
    assert_eq!(NodeType::from_code(2).unwrap(), NodeType::Tank);
    assert_eq!(NodeType::Tank.to_code(), 2);
    assert_eq!(NodeType::from_code(99).unwrap_err().code, 251);
    assert_eq!(ActionCodeType::from_code(1).unwrap(), ActionCodeType::Conditional);
    assert_eq!(ControlType::from_code(3).unwrap(), ControlType::TimeOfDay);
    assert_eq!(LinkProperty::from_code(11).unwrap(), LinkProperty::Status);
    assert_eq!(NodeProperty::from_code(8).unwrap(), NodeProperty::TankLevel);
    assert_eq!(CountType::RuleCount.to_code(), 6);
}

#[test]
fn test_rename_and_reconnect() {
    let mut ph = EPANET::new();
    ph.add_node("A", NodeType::Junction).unwrap();
    ph.add_node("B", NodeType::Junction).unwrap();
    ph.add_node("C", NodeType::Junction).unwrap();
    ph.add_link("L", LinkType::Pipe, "A", "B").unwrap();

    ph.set_node_id(1, "A2").unwrap();
    assert_eq!(ph.get_node_index("A2").unwrap(), 1);
    assert_eq!(ph.get_node_index("A").unwrap_err().code, 203);
    assert_eq!(ph.set_node_id(2, "A2").unwrap_err().code, 215);

    ph.set_link_id(1, "L2").unwrap();
    assert_eq!(ph.get_link_index("L2").unwrap(), 1);

    ph.set_link_nodes(1, 2, 3).unwrap();
    assert_eq!(ph.get_link_nodes(1).unwrap(), (2, 3));
    assert_eq!(ph.set_link_nodes(1, 2, 9).unwrap_err().code, 203);
}
