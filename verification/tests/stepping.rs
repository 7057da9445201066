//! Tests of the hydraulic and quality stepping state machines: the
//! run/next loop, coupled stepping, rule firing during a run, and timer
//! controls.

use epanet::ControlType;
use epanet::EPANET;
use epanet::InitHydOption;
use epanet::LinkProperty;
use epanet::LinkType;
use epanet::NodeProperty;
use epanet::NodeType;
use epanet::TimeParameter;

/// A reservoir feeding a junction through a pipe that is open with the
/// given initial setting.
fn two_node_net(setting: i64) -> EPANET {
    let mut ph = EPANET::new();
    ph.add_node("S", NodeType::Reservoir).unwrap();
    ph.add_node("D", NodeType::Junction).unwrap();
    ph.add_link("L", LinkType::Pipe, "S", "D").unwrap();
    ph.set_link_value(1, LinkProperty::InitSetting, setting).unwrap();
    ph.set_link_value(1, LinkProperty::InitStatus, if setting != 0 { 1 } else { 0 })
        .unwrap();
    ph
}

#[test]
fn test_state_machine_guards() {
    let mut ph = EPANET::new();
    // Stepping operations outside their valid state fail with a state
    // error code.
    assert_eq!(ph.run_h().unwrap_err().code, 103);
    assert_eq!(ph.next_h().unwrap_err().code, 103);
    assert_eq!(ph.init_h(InitHydOption::NoSave).unwrap_err().code, 103);
    assert_eq!(ph.close_h().unwrap_err().code, 103);
    assert_eq!(ph.run_q().unwrap_err().code, 105);
    assert_eq!(ph.init_q(InitHydOption::NoSave).unwrap_err().code, 105);

    ph.open_h().unwrap();
    assert_eq!(ph.open_h().unwrap_err().code, 103);
    // A solution cannot be computed before initialization.
    assert_eq!(ph.run_h().unwrap_err().code, 103);
    ph.init_h(InitHydOption::NoSave).unwrap();
    assert!(ph.run_h().is_ok());
    ph.close_h().unwrap();

    // Structural changes are rejected while a solver is open.
    ph.open_h().unwrap();
    assert_eq!(ph.add_node("N", NodeType::Junction).unwrap_err().code, 262);
    assert_eq!(
        ph.set_time_parameter(TimeParameter::Duration, 3600).unwrap_err().code,
        262
    );
    ph.close_h().unwrap();
}

#[test]
fn test_coupled_stepping_termination() {
    // The run/next loop terminates in finitely many steps; the final next
    // step is zero and the cumulative elapsed time equals the duration.
    let mut ph = two_node_net(5);
    ph.set_time_parameter(TimeParameter::Duration, 7200).unwrap();
    ph.set_time_parameter(TimeParameter::HydStep, 3600).unwrap();

    ph.open_h().unwrap();
    ph.init_h(InitHydOption::NoSave).unwrap();
    ph.open_q().unwrap();
    ph.init_q(InitHydOption::NoSave).unwrap();

    let mut elapsed: i64 = 0;
    let mut iterations = 0;
    loop {
        let t = ph.run_h().unwrap();
        assert_eq!(t, elapsed);
        ph.run_q().unwrap();
        let dt_h = ph.next_h().unwrap();
        let _dt_q = ph.next_q().unwrap();
        iterations += 1;
        assert!(iterations <= 3);
        if dt_h <= 0 {
            break;
        }
        elapsed += dt_h;
    }
    assert_eq!(iterations, 3);
    assert_eq!(elapsed, 7200);
    assert_eq!(ph.get_time_parameter(TimeParameter::HTime).unwrap(), 7200);
    assert_eq!(ph.get_time_parameter(TimeParameter::QTime).unwrap(), 7200);

    ph.close_h().unwrap();
    ph.close_q().unwrap();
}

#[test]
fn test_stepping_order_sensitivity() {
    // Quality read after run_q immediately following run_h differs from
    // quality read when run_q is invoked before run_h for the same
    // instant: the first consumes the flow field hydraulics just
    // computed, the second a stale one.
    let mut a = two_node_net(5);
    a.set_node_value(1, NodeProperty::InitQual, 100).unwrap();
    a.set_time_parameter(TimeParameter::Duration, 3600).unwrap();
    let mut b = two_node_net(5);
    b.set_node_value(1, NodeProperty::InitQual, 100).unwrap();
    b.set_time_parameter(TimeParameter::Duration, 3600).unwrap();

    // Project a: run_h, then run_q. The pipe's flow has been computed, so
    // quality propagates from the reservoir to the junction.
    a.open_h().unwrap();
    a.init_h(InitHydOption::InitFlow).unwrap();
    a.open_q().unwrap();
    a.init_q(InitHydOption::NoSave).unwrap();
    a.run_h().unwrap();
    a.run_q().unwrap();
    let qual_a = a.get_node_value(2, NodeProperty::Quality).unwrap();

    // Project b: run_q before run_h. The flow field is still the
    // re-initialized zero one, so nothing propagates yet.
    b.open_h().unwrap();
    b.init_h(InitHydOption::InitFlow).unwrap();
    b.open_q().unwrap();
    b.init_q(InitHydOption::NoSave).unwrap();
    b.run_q().unwrap();
    b.run_h().unwrap();
    let qual_b = b.get_node_value(2, NodeProperty::Quality).unwrap();

    assert_eq!(qual_a, 100);
    assert_eq!(qual_b, 0);
    assert_ne!(qual_a, qual_b);
}

#[test]
fn test_rule_fires_on_tank_level() {
    // A three-node network: tank 2 drains through an open pipe, and a rule
    // opens link 9 once the tank level drops below 100.
    let mut ph = EPANET::new();
    ph.add_node("1", NodeType::Junction).unwrap();
    ph.add_node("2", NodeType::Tank).unwrap();
    ph.add_node("3", NodeType::Junction).unwrap();
    ph.add_link("D", LinkType::Pipe, "2", "1").unwrap();
    ph.add_link("9", LinkType::Pump, "3", "1").unwrap();

    // The tank starts at level 120 within bounds 0..=200.
    ph.set_node_value(2, NodeProperty::MaxLevel, 200).unwrap();
    ph.set_node_value(2, NodeProperty::TankLevel, 120).unwrap();
    // The drain pipe is open with a flow setting; pump 9 starts closed.
    ph.set_link_value(1, LinkProperty::InitSetting, 5).unwrap();
    ph.set_link_value(1, LinkProperty::InitStatus, 1).unwrap();
    ph.set_link_value(2, LinkProperty::InitStatus, 0).unwrap();

    ph.add_rule("RULE 1\nIF NODE 2 LEVEL < 100\nTHEN LINK 9 STATUS = OPEN")
        .unwrap();

    ph.set_time_parameter(TimeParameter::Duration, 7200).unwrap();
    ph.set_time_parameter(TimeParameter::HydStep, 3600).unwrap();

    ph.open_h().unwrap();
    ph.init_h(InitHydOption::InitFlow).unwrap();

    // At the start the tank is full and the pump stays closed.
    ph.run_h().unwrap();
    assert_eq!(ph.get_link_value(2, LinkProperty::Status).unwrap(), 0);
    assert!(ph.next_h().unwrap() > 0);

    // After one step the tank has drained below 100, so the rule fires
    // and the pump opens.
    ph.run_h().unwrap();
    assert!(ph.get_node_value(2, NodeProperty::TankLevel).unwrap() < 100);
    assert_eq!(ph.get_link_value(2, LinkProperty::Status).unwrap(), 1);
    ph.close_h().unwrap();
}

#[test]
fn test_timer_control_fires() {
    // A timer control firing at 3600 seconds applies its setting to the
    // link; after running the step loop to that instant the link carries
    // the setting.
    let mut ph = two_node_net(0);
    ph.set_time_parameter(TimeParameter::Duration, 7200).unwrap();
    ph.set_time_parameter(TimeParameter::HydStep, 3600).unwrap();
    let link = ph.get_link_index("L").unwrap();
    ph.add_control(ControlType::Timer, link, 7, 0, 3600, true).unwrap();

    ph.open_h().unwrap();
    ph.init_h(InitHydOption::InitFlow).unwrap();
    let mut fired_setting: i64 = -1;
    loop {
        let t = ph.run_h().unwrap();
        if t == 3600 {
            fired_setting = ph.get_link_value(link, LinkProperty::Setting).unwrap();
        }
        if ph.next_h().unwrap() <= 0 {
            break;
        }
    }
    ph.close_h().unwrap();
    assert_eq!(fired_setting, 7);
    assert_eq!(ph.get_link_value(link, LinkProperty::Setting).unwrap(), 7);
    assert_eq!(ph.get_link_value(link, LinkProperty::Status).unwrap(), 1);
}

#[test]
fn test_timer_control_clips_step() {
    // The next hydraulic event lands exactly on a pending timer control,
    // even when the hydraulic step would jump past it.
    let mut ph = two_node_net(0);
    ph.set_time_parameter(TimeParameter::Duration, 7200).unwrap();
    ph.set_time_parameter(TimeParameter::HydStep, 3600).unwrap();
    let link = ph.get_link_index("L").unwrap();
    ph.add_control(ControlType::Timer, link, 9, 0, 1800, true).unwrap();

    ph.open_h().unwrap();
    ph.init_h(InitHydOption::NoSave).unwrap();
    ph.run_h().unwrap();
    assert_eq!(ph.next_h().unwrap(), 1800);
    ph.run_h().unwrap();
    assert_eq!(ph.get_link_value(link, LinkProperty::Setting).unwrap(), 9);
    ph.close_h().unwrap();
}

#[test]
fn test_solve_h_and_solve_q() {
    let mut ph = two_node_net(5);
    ph.set_node_value(1, NodeProperty::InitQual, 80).unwrap();
    ph.set_time_parameter(TimeParameter::Duration, 7200).unwrap();
    ph.solve_h().unwrap();
    // The solver is closed again after the one-shot analysis.
    assert_eq!(ph.get_time_parameter(TimeParameter::HTime).unwrap(), 0);
    assert_eq!(ph.run_h().unwrap_err().code, 103);
    // A completed hydraulic solution is available to the quality solver.
    ph.solve_q().unwrap();
    assert_eq!(ph.get_node_value(2, NodeProperty::Quality).unwrap(), 80);

    // Without a completed hydraulic solution, solve_q is refused.
    let mut fresh = two_node_net(5);
    assert_eq!(fresh.solve_q().unwrap_err().code, 104);
}

#[test]
fn test_step_q_reports_time_left() {
    let mut ph = two_node_net(5);
    ph.set_node_value(1, NodeProperty::InitQual, 60).unwrap();
    ph.set_time_parameter(TimeParameter::Duration, 900).unwrap();
    ph.open_q().unwrap();
    ph.init_q(InitHydOption::NoSave).unwrap();
    // With the default 300-second quality step, each step leaves 300
    // seconds fewer.
    assert_eq!(ph.step_q().unwrap(), 600);
    assert_eq!(ph.step_q().unwrap(), 300);
    assert_eq!(ph.step_q().unwrap(), 0);
    assert_eq!(ph.get_time_parameter(TimeParameter::QTime).unwrap(), 900);
    ph.close_q().unwrap();
}

#[test]
fn test_get_node_values() {
    let mut ph = two_node_net(5);
    ph.set_node_value(1, NodeProperty::Elevation, 10).unwrap();
    ph.set_node_value(2, NodeProperty::Elevation, 4).unwrap();
    let values = ph.get_node_values(NodeProperty::Elevation).unwrap();
    assert_eq!(values, vec![10, 4]);
    assert_eq!(ph.get_node_values(NodeProperty::MixModel).unwrap_err().code, 251);
}

#[test]
fn test_level_controls_fire() {
    // A low-level control fires when the watched level is below its
    // setpoint; a high-level control when above.
    let mut ph = EPANET::new();
    ph.add_node("T", NodeType::Tank).unwrap();
    ph.add_node("J", NodeType::Junction).unwrap();
    ph.add_link("A", LinkType::Pipe, "T", "J").unwrap();
    ph.add_link("B", LinkType::Pipe, "T", "J").unwrap();
    ph.set_node_value(1, NodeProperty::MaxLevel, 200).unwrap();
    ph.set_node_value(1, NodeProperty::TankLevel, 50).unwrap();
    ph.add_control(ControlType::LowLevel, 1, 11, 1, 100, true).unwrap();
    ph.add_control(ControlType::HiLevel, 2, 13, 1, 100, true).unwrap();

    ph.open_h().unwrap();
    ph.init_h(InitHydOption::NoSave).unwrap();
    ph.run_h().unwrap();
    // The level 50 is below 100: only the low-level control fires.
    assert_eq!(ph.get_link_value(1, LinkProperty::Setting).unwrap(), 11);
    assert_ne!(ph.get_link_value(2, LinkProperty::Setting).unwrap(), 13);
    ph.close_h().unwrap();

    // A disabled control never fires.
    let mut ph2 = EPANET::new();
    ph2.add_node("T", NodeType::Tank).unwrap();
    ph2.add_link("A", LinkType::Pipe, "T", "T").unwrap();
    ph2.add_control(ControlType::LowLevel, 1, 11, 1, 100, false).unwrap();
    ph2.open_h().unwrap();
    ph2.init_h(InitHydOption::NoSave).unwrap();
    ph2.run_h().unwrap();
    assert_ne!(ph2.get_link_value(1, LinkProperty::Setting).unwrap(), 11);
}

#[test]
fn test_quality_propagates_in_link_order() {
    // Quality propagation walks the links in index order, so a chain laid
    // out upstream-to-downstream carries the source quality through the
    // whole chain within one quality solution.
    let mut ph = EPANET::new();
    ph.add_node("A", NodeType::Reservoir).unwrap();
    ph.add_node("B", NodeType::Junction).unwrap();
    ph.add_node("C", NodeType::Junction).unwrap();
    ph.add_link("AB", LinkType::Pipe, "A", "B").unwrap();
    ph.add_link("BC", LinkType::Pipe, "B", "C").unwrap();
    ph.set_link_value(1, LinkProperty::InitSetting, 3).unwrap();
    ph.set_link_value(2, LinkProperty::InitSetting, 3).unwrap();
    ph.set_node_value(1, NodeProperty::InitQual, 42).unwrap();
    ph.set_time_parameter(TimeParameter::Duration, 3600).unwrap();

    ph.open_h().unwrap();
    ph.init_h(InitHydOption::NoSave).unwrap();
    ph.open_q().unwrap();
    ph.init_q(InitHydOption::NoSave).unwrap();
    ph.run_h().unwrap();
    ph.run_q().unwrap();
    assert_eq!(ph.get_node_value(2, NodeProperty::Quality).unwrap(), 42);
    assert_eq!(ph.get_node_value(3, NodeProperty::Quality).unwrap(), 42);
    ph.close_h().unwrap();
    ph.close_q().unwrap();
}
