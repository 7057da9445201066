//! Data model of the engine: network elements, rules, simple controls and
//! the clocks and states of the two solvers.
//!
//! Every element is addressed by a dense 1-based index. Indices are not
//! stable across deletions: deleting element `k` shifts every element with a
//! larger index down by one, and dependent rules and controls are either
//! silently removed (unconditional deletion) or block the deletion
//! (conditional deletion).
//!
//! Each stored record has a mathematical model (its view): strings become
//! character sequences and vectors become sequences, so that every contract
//! of the library can be stated over plain mathematical values.

use vstd::prelude::*;
use crate::enums::ControlType;
use crate::enums::LinkStatusType;
use crate::enums::LinkType;
use crate::enums::LogicalOperator;
use crate::enums::NodeType;
use crate::enums::RuleObject;
use crate::enums::RuleOperator;
use crate::enums::RuleStatus;
use crate::enums::RuleVariable;

verus! {

/// Largest magnitude accepted for any stored quantity or time, so that every
/// sum of two quantities fits an `i64` and every product of a quantity and a
/// time fits an `i128`.
pub const VALUE_LIMIT: i64 = 0x10_0000_0000_0000;

/// Largest element count, so that every 1-based index fits an `i32`.
pub const INDEX_LIMIT: usize = 0x7fff_fffe;

/// One boolean clause of a rule's condition.
#[derive(Debug, Clone, Copy, PartialEq)]
pub struct Premise {
    /// Connective that joins this premise to the running result.
    pub logical_operator: LogicalOperator,
    /// Kind of element the premise tests.
    pub rule_object: RuleObject,
    /// 1-based index of the tested node or link; 0 for system premises.
    pub object_index: i32,
    /// Quantity tested.
    pub variable: RuleVariable,
    /// Comparison operator.
    pub rule_operator: RuleOperator,
    /// Status compared against, for status premises.
    pub status: Option<RuleStatus>,
    /// Value compared against, for numeric premises.
    pub value: i64,
}

/// One link mutation applied when a rule branch fires.
#[derive(Debug, Clone, Copy, PartialEq)]
pub struct ActionClause {
    /// 1-based index of the link acted on.
    pub link_index: i32,
    /// New status, for status actions.
    pub status: Option<RuleStatus>,
    /// New setting, for setting actions.
    pub setting: Option<i64>,
}

/// A rule-based control: a named, ordered condition list and two action
/// lists, plus a priority and an enabled flag.
#[derive(Debug, Clone, PartialEq)]
pub struct Rule {
    /// Identifier given in the rule's header line.
    pub rule_id: String,
    /// The IF/AND/OR condition list.
    pub premises: Vec<Premise>,
    /// Actions applied when the condition holds.
    pub then_actions: Vec<ActionClause>,
    /// Actions applied when the condition does not hold, if any were given.
    pub else_actions: Option<Vec<ActionClause>>,
    /// Priority deciding between conflicting actions of different rules.
    pub priority: Option<u8>,
    /// Whether the rule takes part in evaluation.
    pub enabled: bool,
}

/// Stored form of a rule.
#[derive(Debug, Clone)]
pub struct RuleRec {
    /// Identifier given in the rule's header line.
    pub rule_id: String,
    /// The IF/AND/OR condition list.
    pub premises: Vec<Premise>,
    /// Actions applied when the condition holds.
    pub then_actions: Vec<ActionClause>,
    /// Actions applied when the condition does not hold.
    pub else_actions: Vec<ActionClause>,
    /// Priority deciding between conflicting actions of different rules.
    pub priority: Option<u8>,
    /// Whether the rule takes part in evaluation.
    pub enabled: bool,
}

/// Mathematical model of a rule.
#[verifier::ext_equal]
pub ghost struct RuleModel {
    /// Identifier given in the rule's header line.
    pub rule_id: Seq<char>,
    /// The IF/AND/OR condition list.
    pub premises: Seq<Premise>,
    /// Actions applied when the condition holds.
    pub then_actions: Seq<ActionClause>,
    /// Actions applied when the condition does not hold.
    pub else_actions: Seq<ActionClause>,
    /// Priority deciding between conflicting actions of different rules.
    pub priority: Option<u8>,
    /// Whether the rule takes part in evaluation.
    pub enabled: bool,
}

impl View for RuleRec {
    type V = RuleModel;

    open spec fn view(&self) -> RuleModel {
        RuleModel {
            rule_id: self.rule_id@,
            premises: self.premises@,
            then_actions: self.then_actions@,
            else_actions: self.else_actions@,
            priority: self.priority,
            enabled: self.enabled,
        }
    }
}

impl View for Rule {
    type V = RuleModel;

    open spec fn view(&self) -> RuleModel {
        RuleModel {
            rule_id: self.rule_id@,
            premises: self.premises@,
            then_actions: self.then_actions@,
            else_actions: match self.else_actions {
                Some(v) => v@,
                None => Seq::empty(),
            },
            priority: self.priority,
            enabled: self.enabled,
        }
    }
}

/// A simple control: a single trigger condition acting on a single link.
#[derive(Debug, Clone, Copy, PartialEq)]
pub struct Control {
    /// 1-based index of the control.
    pub index: i32,
    /// Trigger condition.
    pub control_type: ControlType,
    /// 1-based index of the link acted on.
    pub link_index: i32,
    /// Setting applied to the link when the control fires.
    pub setting: i64,
    /// 1-based index of the node watched; 0 for timer controls.
    pub node_index: i32,
    /// Level or time that triggers the control.
    pub level: i64,
    /// Whether the control takes part in evaluation.
    pub enabled: bool,
}

impl Control {
    /// The 1-based index of this control.
    pub fn index(&self) -> (r: i32)
        ensures
            r == self.index,
    {
        self.index
    }

    /// The stored form of this control, without its index.
    pub open spec fn spec_rec(self) -> ControlRec {
        ControlRec {
            control_type: self.control_type,
            link_index: self.link_index,
            setting: self.setting,
            node_index: self.node_index,
            level: self.level,
            enabled: self.enabled,
        }
    }
}

/// Stored form of a simple control.
#[derive(Debug, Clone, Copy, PartialEq)]
pub struct ControlRec {
    /// Trigger condition.
    pub control_type: ControlType,
    /// 1-based index of the link acted on.
    pub link_index: i32,
    /// Setting applied to the link when the control fires.
    pub setting: i64,
    /// 1-based index of the node watched; 0 for timer controls.
    pub node_index: i32,
    /// Level or time that triggers the control.
    pub level: i64,
    /// Whether the control takes part in evaluation.
    pub enabled: bool,
}

/// Stored form of a node.
#[derive(Debug, Clone)]
pub struct NodeRec {
    /// Unique identifier.
    pub id: String,
    /// Junction, reservoir or tank.
    pub node_type: NodeType,
    /// Elevation above datum.
    pub elevation: i64,
    /// Primary demand baseline value.
    pub base_demand: i64,
    /// Quality assigned when a quality analysis is initialized.
    pub init_qual: i64,
    /// Current computed quality.
    pub quality: i64,
    /// Tank level assigned when a hydraulic analysis is initialized.
    pub init_level: i64,
    /// Current tank water level.
    pub level: i64,
    /// Tank minimum level.
    pub min_level: i64,
    /// Tank maximum level.
    pub max_level: i64,
}

/// Mathematical model of a node.
#[verifier::ext_equal]
pub ghost struct NodeModel {
    /// Unique identifier.
    pub id: Seq<char>,
    /// Junction, reservoir or tank.
    pub node_type: NodeType,
    /// Elevation above datum.
    pub elevation: i64,
    /// Primary demand baseline value.
    pub base_demand: i64,
    /// Quality assigned when a quality analysis is initialized.
    pub init_qual: i64,
    /// Current computed quality.
    pub quality: i64,
    /// Tank level assigned when a hydraulic analysis is initialized.
    pub init_level: i64,
    /// Current tank water level.
    pub level: i64,
    /// Tank minimum level.
    pub min_level: i64,
    /// Tank maximum level.
    pub max_level: i64,
}

impl View for NodeRec {
    type V = NodeModel;

    open spec fn view(&self) -> NodeModel {
        NodeModel {
            id: self.id@,
            node_type: self.node_type,
            elevation: self.elevation,
            base_demand: self.base_demand,
            init_qual: self.init_qual,
            quality: self.quality,
            init_level: self.init_level,
            level: self.level,
            min_level: self.min_level,
            max_level: self.max_level,
        }
    }
}

/// Stored form of a link.
#[derive(Debug, Clone)]
pub struct LinkRec {
    /// Unique identifier.
    pub id: String,
    /// Pipe, pump or valve kind.
    pub link_type: LinkType,
    /// 1-based index of the upstream node.
    pub node1: i32,
    /// 1-based index of the downstream node.
    pub node2: i32,
    /// Status assigned when a hydraulic analysis is initialized.
    pub init_status: LinkStatusType,
    /// Setting assigned when a hydraulic analysis is initialized.
    pub init_setting: i64,
    /// Current status.
    pub status: LinkStatusType,
    /// Current setting.
    pub setting: i64,
    /// Current computed flow, positive from `node1` to `node2`.
    pub flow: i64,
}

/// Mathematical model of a link.
#[verifier::ext_equal]
pub ghost struct LinkModel {
    /// Unique identifier.
    pub id: Seq<char>,
    /// Pipe, pump or valve kind.
    pub link_type: LinkType,
    /// 1-based index of the upstream node.
    pub node1: i32,
    /// 1-based index of the downstream node.
    pub node2: i32,
    /// Status assigned when a hydraulic analysis is initialized.
    pub init_status: LinkStatusType,
    /// Setting assigned when a hydraulic analysis is initialized.
    pub init_setting: i64,
    /// Current status.
    pub status: LinkStatusType,
    /// Current setting.
    pub setting: i64,
    /// Current computed flow, positive from `node1` to `node2`.
    pub flow: i64,
}

impl View for LinkRec {
    type V = LinkModel;

    open spec fn view(&self) -> LinkModel {
        LinkModel {
            id: self.id@,
            link_type: self.link_type,
            node1: self.node1,
            node2: self.node2,
            init_status: self.init_status,
            init_setting: self.init_setting,
            status: self.status,
            setting: self.setting,
            flow: self.flow,
        }
    }
}

/// Lifecycle state of a solver.
#[derive(Debug, Clone, Copy, PartialEq, Eq, Structural)]
pub enum SolverState {
    /// No workspace allocated.
    Closed,
    /// Workspace allocated, network not yet initialized.
    Opened,
    /// Network initialized, clock at zero.
    Initialized,
    /// At least one solution has been computed.
    Stepping,
}

/// A project: one independently owned simulation instance.
#[derive(Debug, Clone)]
pub struct EPANET {
    /// Network nodes, addressed by 1-based index.
    pub nodes: Vec<NodeRec>,
    /// Network links, addressed by 1-based index.
    pub links: Vec<LinkRec>,
    /// Simple controls, addressed by 1-based index.
    pub controls: Vec<ControlRec>,
    /// Rule-based controls, addressed by 1-based index.
    pub rules: Vec<RuleRec>,
    /// Total simulation duration in seconds.
    pub duration: i64,
    /// Hydraulic time step in seconds.
    pub hyd_step: i64,
    /// Water quality time step in seconds.
    pub qual_step: i64,
    /// Elapsed time of the current hydraulic solution.
    pub htime: i64,
    /// Elapsed time of the current quality solution.
    pub qtime: i64,
    /// State of the hydraulic solver.
    pub hyd_state: SolverState,
    /// State of the quality solver.
    pub qual_state: SolverState,
    /// Whether a completed hydraulic solution is available to a quality
    /// analysis.
    pub hyd_valid: bool,
}

/// Mathematical model of a whole project.
#[verifier::ext_equal]
pub ghost struct ProjectModel {
    /// Models of the stored nodes.
    pub nodes: Seq<NodeModel>,
    /// Models of the stored links.
    pub links: Seq<LinkModel>,
    /// The stored simple controls.
    pub controls: Seq<ControlRec>,
    /// Models of the stored rules.
    pub rules: Seq<RuleModel>,
    /// Total simulation duration in seconds.
    pub duration: i64,
    /// Hydraulic time step in seconds.
    pub hyd_step: i64,
    /// Water quality time step in seconds.
    pub qual_step: i64,
    /// Elapsed time of the current hydraulic solution.
    pub htime: i64,
    /// Elapsed time of the current quality solution.
    pub qtime: i64,
    /// State of the hydraulic solver.
    pub hyd_state: SolverState,
    /// State of the quality solver.
    pub qual_state: SolverState,
    /// Whether a completed hydraulic solution is available.
    pub hyd_valid: bool,
}

/// A quantity small enough that sums and scaled products stay representable.
pub open spec fn val_ok(v: i64) -> bool {
    -VALUE_LIMIT <= v <= VALUE_LIMIT
}

/// Well-formedness of a node.
pub open spec fn node_wf(n: NodeModel) -> bool {
    &&& val_ok(n.elevation)
    &&& val_ok(n.base_demand)
    &&& val_ok(n.init_qual)
    &&& val_ok(n.quality)
    &&& val_ok(n.init_level)
    &&& val_ok(n.level)
    &&& val_ok(n.min_level)
    &&& val_ok(n.max_level)
    &&& n.node_type == NodeType::Tank ==> n.min_level <= n.level <= n.max_level
    &&& n.node_type == NodeType::Tank ==> n.min_level <= n.init_level <= n.max_level
}

/// Well-formedness of a link against the node count.
pub open spec fn link_wf(l: LinkModel, n_nodes: int) -> bool {
    &&& 1 <= l.node1 <= n_nodes
    &&& 1 <= l.node2 <= n_nodes
    &&& val_ok(l.init_setting)
    &&& val_ok(l.setting)
    &&& val_ok(l.flow)
}

/// Well-formedness of a simple control against the element counts.
pub open spec fn control_wf(c: ControlRec, n_nodes: int, n_links: int) -> bool {
    &&& 1 <= c.link_index <= n_links
    &&& val_ok(c.setting)
    &&& val_ok(c.level)
    &&& match c.control_type {
        ControlType::LowLevel | ControlType::HiLevel => 1 <= c.node_index <= n_nodes,
        ControlType::Timer | ControlType::TimeOfDay => c.node_index == 0 && c.level >= 0,
    }
}

/// Whether a premise variable applies to nodes.
pub open spec fn node_variable(v: RuleVariable) -> bool {
    v == RuleVariable::Demand || v == RuleVariable::Head || v == RuleVariable::Grade
        || v == RuleVariable::Level || v == RuleVariable::Pressure
        || v == RuleVariable::FillTime || v == RuleVariable::DrainTime
}

/// Whether a premise variable applies to links.
pub open spec fn link_variable(v: RuleVariable) -> bool {
    v == RuleVariable::Flow || v == RuleVariable::Status || v == RuleVariable::Setting
        || v == RuleVariable::Power
}

/// Whether a premise variable applies to the system clock.
pub open spec fn system_variable(v: RuleVariable) -> bool {
    v == RuleVariable::Time || v == RuleVariable::ClockTime
}

/// Well-formedness of a premise against the element counts.
pub open spec fn premise_wf(p: Premise, n_nodes: int, n_links: int) -> bool {
    &&& val_ok(p.value)
    &&& (p.status is Some <==> p.variable == RuleVariable::Status)
    &&& match p.rule_object {
        RuleObject::Node => 1 <= p.object_index <= n_nodes && node_variable(p.variable),
        RuleObject::Link => 1 <= p.object_index <= n_links && link_variable(p.variable),
        RuleObject::System => p.object_index == 0 && system_variable(p.variable),
    }
}

/// Well-formedness of an action clause against the link count.
pub open spec fn action_wf(a: ActionClause, n_links: int) -> bool {
    &&& 1 <= a.link_index <= n_links
    &&& (a.status is Some || a.setting is Some)
    &&& match a.setting {
        Some(v) => val_ok(v),
        None => true,
    }
}

/// Well-formedness of a rule against the element counts.
pub open spec fn rule_wf(r: RuleModel, n_nodes: int, n_links: int) -> bool {
    &&& r.then_actions.len() >= 1
    &&& r.premises.len() <= INDEX_LIMIT
    &&& r.then_actions.len() <= INDEX_LIMIT
    &&& r.else_actions.len() <= INDEX_LIMIT
    &&& forall|i: int|
        0 <= i < r.premises.len() ==> premise_wf(#[trigger] r.premises[i], n_nodes, n_links)
    &&& forall|i: int|
        0 <= i < r.then_actions.len() ==> action_wf(#[trigger] r.then_actions[i], n_links)
    &&& forall|i: int|
        0 <= i < r.else_actions.len() ==> action_wf(#[trigger] r.else_actions[i], n_links)
}

impl EPANET {
    /// Models of the stored nodes.
    pub open spec fn nodes_m(self) -> Seq<NodeModel> {
        self.nodes@.map_values(|n: NodeRec| n@)
    }

    /// Models of the stored links.
    pub open spec fn links_m(self) -> Seq<LinkModel> {
        self.links@.map_values(|l: LinkRec| l@)
    }

    /// Models of the stored rules.
    pub open spec fn rules_m(self) -> Seq<RuleModel> {
        self.rules@.map_values(|r: RuleRec| r@)
    }

    /// The stored simple controls.
    pub open spec fn controls_m(self) -> Seq<ControlRec> {
        self.controls@
    }

    /// Well-formedness of a project: every stored index refers to a live
    /// element, every quantity is in range, and the clocks respect the
    /// configured duration. Every operation of the library preserves it.
    pub open spec fn wf(self) -> bool {
        &&& 1 <= self.hyd_step <= VALUE_LIMIT
        &&& 1 <= self.qual_step <= VALUE_LIMIT
        &&& 0 <= self.duration <= VALUE_LIMIT
        &&& 0 <= self.htime <= self.duration
        &&& 0 <= self.qtime <= self.duration
        &&& (self.hyd_state == SolverState::Closed || self.hyd_state == SolverState::Opened)
            ==> self.htime == 0
        &&& (self.qual_state == SolverState::Closed || self.qual_state == SolverState::Opened)
            ==> self.qtime == 0
        &&& self.nodes_m().len() <= INDEX_LIMIT
        &&& self.links_m().len() <= INDEX_LIMIT
        &&& self.controls_m().len() <= INDEX_LIMIT
        &&& self.rules_m().len() <= INDEX_LIMIT
        &&& forall|i: int| 0 <= i < self.nodes_m().len() ==> node_wf(#[trigger] self.nodes_m()[i])
        &&& forall|i: int|
            0 <= i < self.links_m().len() ==> link_wf(
                #[trigger] self.links_m()[i],
                self.nodes_m().len() as int,
            )
        &&& forall|i: int|
            0 <= i < self.controls_m().len() ==> control_wf(
                #[trigger] self.controls_m()[i],
                self.nodes_m().len() as int,
                self.links_m().len() as int,
            )
        &&& forall|i: int|
            0 <= i < self.rules_m().len() ==> rule_wf(
                #[trigger] self.rules_m()[i],
                self.nodes_m().len() as int,
                self.links_m().len() as int,
            )
    }

    /// The mathematical model of the whole project.
    pub open spec fn m(self) -> ProjectModel {
        ProjectModel {
            nodes: self.nodes_m(),
            links: self.links_m(),
            controls: self.controls_m(),
            rules: self.rules_m(),
            duration: self.duration,
            hyd_step: self.hyd_step,
            qual_step: self.qual_step,
            htime: self.htime,
            qtime: self.qtime,
            hyd_state: self.hyd_state,
            qual_state: self.qual_state,
            hyd_valid: self.hyd_valid,
        }
    }

    /// Whether either solver currently holds a workspace, blocking
    /// structural changes to the network.
    pub open spec fn spec_solver_open(self) -> bool {
        self.hyd_state != SolverState::Closed || self.qual_state != SolverState::Closed
    }

    /// Whether the two projects store the same elements.
    pub open spec fn same_model(self, other: EPANET) -> bool {
        &&& self.nodes_m() == other.nodes_m()
        &&& self.links_m() == other.links_m()
        &&& self.controls_m() == other.controls_m()
        &&& self.rules_m() == other.rules_m()
    }

    /// Whether the two projects have the same clocks, time parameters and
    /// solver states.
    pub open spec fn same_clock(self, other: EPANET) -> bool {
        &&& self.duration == other.duration
        &&& self.hyd_step == other.hyd_step
        &&& self.qual_step == other.qual_step
        &&& self.htime == other.htime
        &&& self.qtime == other.qtime
        &&& self.hyd_state == other.hyd_state
        &&& self.qual_state == other.qual_state
        &&& self.hyd_valid == other.hyd_valid
    }

    /// Whether the two projects are observably identical.
    pub open spec fn unchanged(self, other: EPANET) -> bool {
        self.same_model(other) && self.same_clock(other)
    }

    /// Creates a new, empty project with default time parameters.
    pub fn new() -> (p: EPANET)
        ensures
            p.wf(),
            p.nodes_m() == Seq::<NodeModel>::empty(),
            p.links_m() == Seq::<LinkModel>::empty(),
            p.controls_m() == Seq::<ControlRec>::empty(),
            p.rules_m() == Seq::<RuleModel>::empty(),
            p.duration == 0,
            p.hyd_step == 3600,
            p.qual_step == 300,
            p.htime == 0,
            p.qtime == 0,
            p.hyd_state == SolverState::Closed,
            p.qual_state == SolverState::Closed,
            p.hyd_valid == false,
    {
        let p = EPANET {
            nodes: Vec::new(),
            links: Vec::new(),
            controls: Vec::new(),
            rules: Vec::new(),
            duration: 0,
            hyd_step: 3600,
            qual_step: 300,
            htime: 0,
            qtime: 0,
            hyd_state: SolverState::Closed,
            qual_state: SolverState::Closed,
            hyd_valid: false,
        };
        proof {
            assert(p.nodes_m() =~= Seq::<NodeModel>::empty());
            assert(p.links_m() =~= Seq::<LinkModel>::empty());
            assert(p.controls_m() =~= Seq::<ControlRec>::empty());
            assert(p.rules_m() =~= Seq::<RuleModel>::empty());
        }
        p
    }
}

} // verus!
