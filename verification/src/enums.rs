//! Enumerated codes of the engine model.
//!
//! Every enumeration travels over the numeric interface as an integer code.
//! Decoding is fallible: a code outside every known variant is reported as an
//! error carrying code 251 (invalid parameter code), never coerced silently.

use vstd::prelude::*;
use crate::errors::EPANETError;

verus! {
/// Kind of a network node.
#[derive(Debug, Clone, Copy, PartialEq, Eq, Structural)]
pub enum NodeType {
    /// Junction node
    Junction,
    /// Reservoir node
    Reservoir,
    /// Storage tank node
    Tank,
}

/// Numeric code of each [`NodeType`] variant.
pub open spec fn spec_node_type_code(v: NodeType) -> i32 {
    match v {
        NodeType::Junction => 0,
        NodeType::Reservoir => 1,
        NodeType::Tank => 2,
    }
}

/// Variant of [`NodeType`] denoted by a numeric code, if any.
pub open spec fn spec_node_type_from_code(code: i32) -> Option<NodeType> {
    if code == 0 {
        Some(NodeType::Junction)
    } else if code == 1 {
        Some(NodeType::Reservoir)
    } else if code == 2 {
        Some(NodeType::Tank)
    } else {
        None
    }
}

impl NodeType {
    /// Encodes this variant as its numeric code.
    pub fn to_code(self) -> (r: i32)
        ensures
            r == spec_node_type_code(self),
    {
        match self {
            NodeType::Junction => 0,
            NodeType::Reservoir => 1,
            NodeType::Tank => 2,
        }
    }

    /// Decodes a numeric code, rejecting unrecognized discriminants.
    pub fn from_code(code: i32) -> (r: Result<NodeType, EPANETError>)
        ensures
            match r {
                Ok(v) => spec_node_type_from_code(code) == Some(v),
                Err(e) => spec_node_type_from_code(code) is None && e.code == 251,
            },
    {
        if code == 0 {
            Ok(NodeType::Junction)
        } else if code == 1 {
            Ok(NodeType::Reservoir)
        } else if code == 2 {
            Ok(NodeType::Tank)
        } else {
            Err(EPANETError::new(251))
        }
    }
}

/// Kind of a network link.
#[derive(Debug, Clone, Copy, PartialEq, Eq, Structural)]
pub enum LinkType {
    /// Pipe with check valve
    CvPipe,
    /// Pipe
    Pipe,
    /// Pump
    Pump,
    /// Pressure reducing valve
    Prv,
    /// Pressure sustaining valve
    Psv,
    /// Pressure breaker valve
    Pbv,
    /// Flow control valve
    Fcv,
    /// Throttle control valve
    Tcv,
    /// General purpose valve
    Gpv,
    /// Positional control valve
    Pcv,
}

/// Numeric code of each [`LinkType`] variant.
pub open spec fn spec_link_type_code(v: LinkType) -> i32 {
    match v {
        LinkType::CvPipe => 0,
        LinkType::Pipe => 1,
        LinkType::Pump => 2,
        LinkType::Prv => 3,
        LinkType::Psv => 4,
        LinkType::Pbv => 5,
        LinkType::Fcv => 6,
        LinkType::Tcv => 7,
        LinkType::Gpv => 8,
        LinkType::Pcv => 9,
    }
}

/// Variant of [`LinkType`] denoted by a numeric code, if any.
pub open spec fn spec_link_type_from_code(code: i32) -> Option<LinkType> {
    if code == 0 {
        Some(LinkType::CvPipe)
    } else if code == 1 {
        Some(LinkType::Pipe)
    } else if code == 2 {
        Some(LinkType::Pump)
    } else if code == 3 {
        Some(LinkType::Prv)
    } else if code == 4 {
        Some(LinkType::Psv)
    } else if code == 5 {
        Some(LinkType::Pbv)
    } else if code == 6 {
        Some(LinkType::Fcv)
    } else if code == 7 {
        Some(LinkType::Tcv)
    } else if code == 8 {
        Some(LinkType::Gpv)
    } else if code == 9 {
        Some(LinkType::Pcv)
    } else {
        None
    }
}

impl LinkType {
    /// Encodes this variant as its numeric code.
    pub fn to_code(self) -> (r: i32)
        ensures
            r == spec_link_type_code(self),
    {
        match self {
            LinkType::CvPipe => 0,
            LinkType::Pipe => 1,
            LinkType::Pump => 2,
            LinkType::Prv => 3,
            LinkType::Psv => 4,
            LinkType::Pbv => 5,
            LinkType::Fcv => 6,
            LinkType::Tcv => 7,
            LinkType::Gpv => 8,
            LinkType::Pcv => 9,
        }
    }

    /// Decodes a numeric code, rejecting unrecognized discriminants.
    pub fn from_code(code: i32) -> (r: Result<LinkType, EPANETError>)
        ensures
            match r {
                Ok(v) => spec_link_type_from_code(code) == Some(v),
                Err(e) => spec_link_type_from_code(code) is None && e.code == 251,
            },
    {
        if code == 0 {
            Ok(LinkType::CvPipe)
        } else if code == 1 {
            Ok(LinkType::Pipe)
        } else if code == 2 {
            Ok(LinkType::Pump)
        } else if code == 3 {
            Ok(LinkType::Prv)
        } else if code == 4 {
            Ok(LinkType::Psv)
        } else if code == 5 {
            Ok(LinkType::Pbv)
        } else if code == 6 {
            Ok(LinkType::Fcv)
        } else if code == 7 {
            Ok(LinkType::Tcv)
        } else if code == 8 {
            Ok(LinkType::Gpv)
        } else if code == 9 {
            Ok(LinkType::Pcv)
        } else {
            Err(EPANETError::new(251))
        }
    }
}

/// Runtime status of a link.
#[derive(Debug, Clone, Copy, PartialEq, Eq, Structural)]
pub enum LinkStatusType {
    /// Link is closed
    Closed,
    /// Link is open
    Open,
}

/// Numeric code of each [`LinkStatusType`] variant.
pub open spec fn spec_link_status_type_code(v: LinkStatusType) -> i32 {
    match v {
        LinkStatusType::Closed => 0,
        LinkStatusType::Open => 1,
    }
}

/// Variant of [`LinkStatusType`] denoted by a numeric code, if any.
pub open spec fn spec_link_status_type_from_code(code: i32) -> Option<LinkStatusType> {
    if code == 0 {
        Some(LinkStatusType::Closed)
    } else if code == 1 {
        Some(LinkStatusType::Open)
    } else {
        None
    }
}

impl LinkStatusType {
    /// Encodes this variant as its numeric code.
    pub fn to_code(self) -> (r: i32)
        ensures
            r == spec_link_status_type_code(self),
    {
        match self {
            LinkStatusType::Closed => 0,
            LinkStatusType::Open => 1,
        }
    }

    /// Decodes a numeric code, rejecting unrecognized discriminants.
    pub fn from_code(code: i32) -> (r: Result<LinkStatusType, EPANETError>)
        ensures
            match r {
                Ok(v) => spec_link_status_type_from_code(code) == Some(v),
                Err(e) => spec_link_status_type_from_code(code) is None && e.code == 251,
            },
    {
        if code == 0 {
            Ok(LinkStatusType::Closed)
        } else if code == 1 {
            Ok(LinkStatusType::Open)
        } else {
            Err(EPANETError::new(251))
        }
    }
}

/// Trigger condition of a simple control.
#[derive(Debug, Clone, Copy, PartialEq, Eq, Structural)]
pub enum ControlType {
    /// Act when pressure or tank level drops below a setpoint
    LowLevel,
    /// Act when pressure or tank level rises above a setpoint
    HiLevel,
    /// Act at a prescribed elapsed amount of time
    Timer,
    /// Act at a particular time of day
    TimeOfDay,
}

/// Numeric code of each [`ControlType`] variant.
pub open spec fn spec_control_type_code(v: ControlType) -> i32 {
    match v {
        ControlType::LowLevel => 0,
        ControlType::HiLevel => 1,
        ControlType::Timer => 2,
        ControlType::TimeOfDay => 3,
    }
}

/// Variant of [`ControlType`] denoted by a numeric code, if any.
pub open spec fn spec_control_type_from_code(code: i32) -> Option<ControlType> {
    if code == 0 {
        Some(ControlType::LowLevel)
    } else if code == 1 {
        Some(ControlType::HiLevel)
    } else if code == 2 {
        Some(ControlType::Timer)
    } else if code == 3 {
        Some(ControlType::TimeOfDay)
    } else {
        None
    }
}

impl ControlType {
    /// Encodes this variant as its numeric code.
    pub fn to_code(self) -> (r: i32)
        ensures
            r == spec_control_type_code(self),
    {
        match self {
            ControlType::LowLevel => 0,
            ControlType::HiLevel => 1,
            ControlType::Timer => 2,
            ControlType::TimeOfDay => 3,
        }
    }

    /// Decodes a numeric code, rejecting unrecognized discriminants.
    pub fn from_code(code: i32) -> (r: Result<ControlType, EPANETError>)
        ensures
            match r {
                Ok(v) => spec_control_type_from_code(code) == Some(v),
                Err(e) => spec_control_type_from_code(code) is None && e.code == 251,
            },
    {
        if code == 0 {
            Ok(ControlType::LowLevel)
        } else if code == 1 {
            Ok(ControlType::HiLevel)
        } else if code == 2 {
            Ok(ControlType::Timer)
        } else if code == 3 {
            Ok(ControlType::TimeOfDay)
        } else {
            Err(EPANETError::new(251))
        }
    }
}

/// How a deletion treats dependent objects.
#[derive(Debug, Clone, Copy, PartialEq, Eq, Structural)]
pub enum ActionCodeType {
    /// Delete the element together with every dependent control, rule and connecting link
    Unconditional,
    /// Cancel the deletion if the element appears in controls or rules or has connecting links
    Conditional,
}

/// Numeric code of each [`ActionCodeType`] variant.
pub open spec fn spec_action_code_type_code(v: ActionCodeType) -> i32 {
    match v {
        ActionCodeType::Unconditional => 0,
        ActionCodeType::Conditional => 1,
    }
}

/// Variant of [`ActionCodeType`] denoted by a numeric code, if any.
pub open spec fn spec_action_code_type_from_code(code: i32) -> Option<ActionCodeType> {
    if code == 0 {
        Some(ActionCodeType::Unconditional)
    } else if code == 1 {
        Some(ActionCodeType::Conditional)
    } else {
        None
    }
}

impl ActionCodeType {
    /// Encodes this variant as its numeric code.
    pub fn to_code(self) -> (r: i32)
        ensures
            r == spec_action_code_type_code(self),
    {
        match self {
            ActionCodeType::Unconditional => 0,
            ActionCodeType::Conditional => 1,
        }
    }

    /// Decodes a numeric code, rejecting unrecognized discriminants.
    pub fn from_code(code: i32) -> (r: Result<ActionCodeType, EPANETError>)
        ensures
            match r {
                Ok(v) => spec_action_code_type_from_code(code) == Some(v),
                Err(e) => spec_action_code_type_from_code(code) is None && e.code == 251,
            },
    {
        if code == 0 {
            Ok(ActionCodeType::Unconditional)
        } else if code == 1 {
            Ok(ActionCodeType::Conditional)
        } else {
            Err(EPANETError::new(251))
        }
    }
}

/// Initialization behaviour for a solver.
#[derive(Debug, Clone, Copy, PartialEq, Eq, Structural)]
pub enum InitHydOption {
    /// Don't save results; don't re-initialize flows
    NoSave,
    /// Save results; don't re-initialize flows
    Save,
    /// Don't save results; re-initialize flows
    InitFlow,
    /// Save results; re-initialize flows
    SaveAndInit,
}

/// Numeric code of each [`InitHydOption`] variant.
pub open spec fn spec_init_hyd_option_code(v: InitHydOption) -> i32 {
    match v {
        InitHydOption::NoSave => 0,
        InitHydOption::Save => 1,
        InitHydOption::InitFlow => 10,
        InitHydOption::SaveAndInit => 11,
    }
}

/// Variant of [`InitHydOption`] denoted by a numeric code, if any.
pub open spec fn spec_init_hyd_option_from_code(code: i32) -> Option<InitHydOption> {
    if code == 0 {
        Some(InitHydOption::NoSave)
    } else if code == 1 {
        Some(InitHydOption::Save)
    } else if code == 10 {
        Some(InitHydOption::InitFlow)
    } else if code == 11 {
        Some(InitHydOption::SaveAndInit)
    } else {
        None
    }
}

impl InitHydOption {
    /// Encodes this variant as its numeric code.
    pub fn to_code(self) -> (r: i32)
        ensures
            r == spec_init_hyd_option_code(self),
    {
        match self {
            InitHydOption::NoSave => 0,
            InitHydOption::Save => 1,
            InitHydOption::InitFlow => 10,
            InitHydOption::SaveAndInit => 11,
        }
    }

    /// Decodes a numeric code, rejecting unrecognized discriminants.
    pub fn from_code(code: i32) -> (r: Result<InitHydOption, EPANETError>)
        ensures
            match r {
                Ok(v) => spec_init_hyd_option_from_code(code) == Some(v),
                Err(e) => spec_init_hyd_option_from_code(code) is None && e.code == 251,
            },
    {
        if code == 0 {
            Ok(InitHydOption::NoSave)
        } else if code == 1 {
            Ok(InitHydOption::Save)
        } else if code == 10 {
            Ok(InitHydOption::InitFlow)
        } else if code == 11 {
            Ok(InitHydOption::SaveAndInit)
        } else {
            Err(EPANETError::new(251))
        }
    }
}

/// Kind of object counted by a count query.
#[derive(Debug, Clone, Copy, PartialEq, Eq, Structural)]
pub enum CountType {
    /// Number of nodes (junctions + tanks + reservoirs)
    NodeCount,
    /// Number of tanks and reservoirs
    TankCount,
    /// Number of links (pipes + pumps + valves)
    LinkCount,
    /// Number of time patterns
    PatternCount,
    /// Number of data curves
    CurveCount,
    /// Number of simple controls
    ControlCount,
    /// Number of rule-based controls
    RuleCount,
}

/// Numeric code of each [`CountType`] variant.
pub open spec fn spec_count_type_code(v: CountType) -> i32 {
    match v {
        CountType::NodeCount => 0,
        CountType::TankCount => 1,
        CountType::LinkCount => 2,
        CountType::PatternCount => 3,
        CountType::CurveCount => 4,
        CountType::ControlCount => 5,
        CountType::RuleCount => 6,
    }
}

/// Variant of [`CountType`] denoted by a numeric code, if any.
pub open spec fn spec_count_type_from_code(code: i32) -> Option<CountType> {
    if code == 0 {
        Some(CountType::NodeCount)
    } else if code == 1 {
        Some(CountType::TankCount)
    } else if code == 2 {
        Some(CountType::LinkCount)
    } else if code == 3 {
        Some(CountType::PatternCount)
    } else if code == 4 {
        Some(CountType::CurveCount)
    } else if code == 5 {
        Some(CountType::ControlCount)
    } else if code == 6 {
        Some(CountType::RuleCount)
    } else {
        None
    }
}

impl CountType {
    /// Encodes this variant as its numeric code.
    pub fn to_code(self) -> (r: i32)
        ensures
            r == spec_count_type_code(self),
    {
        match self {
            CountType::NodeCount => 0,
            CountType::TankCount => 1,
            CountType::LinkCount => 2,
            CountType::PatternCount => 3,
            CountType::CurveCount => 4,
            CountType::ControlCount => 5,
            CountType::RuleCount => 6,
        }
    }

    /// Decodes a numeric code, rejecting unrecognized discriminants.
    pub fn from_code(code: i32) -> (r: Result<CountType, EPANETError>)
        ensures
            match r {
                Ok(v) => spec_count_type_from_code(code) == Some(v),
                Err(e) => spec_count_type_from_code(code) is None && e.code == 251,
            },
    {
        if code == 0 {
            Ok(CountType::NodeCount)
        } else if code == 1 {
            Ok(CountType::TankCount)
        } else if code == 2 {
            Ok(CountType::LinkCount)
        } else if code == 3 {
            Ok(CountType::PatternCount)
        } else if code == 4 {
            Ok(CountType::CurveCount)
        } else if code == 5 {
            Ok(CountType::ControlCount)
        } else if code == 6 {
            Ok(CountType::RuleCount)
        } else {
            Err(EPANETError::new(251))
        }
    }
}

/// Time parameter of the simulation clock.
#[derive(Debug, Clone, Copy, PartialEq, Eq, Structural)]
pub enum TimeParameter {
    /// Total simulation duration
    Duration,
    /// Hydraulic time step
    HydStep,
    /// Water quality time step
    QualStep,
    /// Time pattern period
    PatternStep,
    /// Time when time patterns begin
    PatternStart,
    /// Reporting time step
    ReportStep,
    /// Time when reporting starts
    ReportStart,
    /// Rule-based control evaluation time step
    RuleStep,
    /// Reporting statistic code
    Statistic,
    /// Number of reporting time periods (read only)
    Periods,
    /// Simulation starting time of day
    StartTime,
    /// Elapsed time of current hydraulic solution (read only)
    HTime,
    /// Elapsed time of current quality solution (read only)
    QTime,
    /// Flag indicating if the simulation was halted (read only)
    HaltFlag,
    /// Shortest time until a tank becomes empty or full (read only)
    NextEvent,
    /// Index of tank with shortest time to become empty or full (read only)
    NextEventTank,
}

/// Numeric code of each [`TimeParameter`] variant.
pub open spec fn spec_time_parameter_code(v: TimeParameter) -> i32 {
    match v {
        TimeParameter::Duration => 0,
        TimeParameter::HydStep => 1,
        TimeParameter::QualStep => 2,
        TimeParameter::PatternStep => 3,
        TimeParameter::PatternStart => 4,
        TimeParameter::ReportStep => 5,
        TimeParameter::ReportStart => 6,
        TimeParameter::RuleStep => 7,
        TimeParameter::Statistic => 8,
        TimeParameter::Periods => 9,
        TimeParameter::StartTime => 10,
        TimeParameter::HTime => 11,
        TimeParameter::QTime => 12,
        TimeParameter::HaltFlag => 13,
        TimeParameter::NextEvent => 14,
        TimeParameter::NextEventTank => 15,
    }
}

/// Variant of [`TimeParameter`] denoted by a numeric code, if any.
pub open spec fn spec_time_parameter_from_code(code: i32) -> Option<TimeParameter> {
    if code == 0 {
        Some(TimeParameter::Duration)
    } else if code == 1 {
        Some(TimeParameter::HydStep)
    } else if code == 2 {
        Some(TimeParameter::QualStep)
    } else if code == 3 {
        Some(TimeParameter::PatternStep)
    } else if code == 4 {
        Some(TimeParameter::PatternStart)
    } else if code == 5 {
        Some(TimeParameter::ReportStep)
    } else if code == 6 {
        Some(TimeParameter::ReportStart)
    } else if code == 7 {
        Some(TimeParameter::RuleStep)
    } else if code == 8 {
        Some(TimeParameter::Statistic)
    } else if code == 9 {
        Some(TimeParameter::Periods)
    } else if code == 10 {
        Some(TimeParameter::StartTime)
    } else if code == 11 {
        Some(TimeParameter::HTime)
    } else if code == 12 {
        Some(TimeParameter::QTime)
    } else if code == 13 {
        Some(TimeParameter::HaltFlag)
    } else if code == 14 {
        Some(TimeParameter::NextEvent)
    } else if code == 15 {
        Some(TimeParameter::NextEventTank)
    } else {
        None
    }
}

impl TimeParameter {
    /// Encodes this variant as its numeric code.
    pub fn to_code(self) -> (r: i32)
        ensures
            r == spec_time_parameter_code(self),
    {
        match self {
            TimeParameter::Duration => 0,
            TimeParameter::HydStep => 1,
            TimeParameter::QualStep => 2,
            TimeParameter::PatternStep => 3,
            TimeParameter::PatternStart => 4,
            TimeParameter::ReportStep => 5,
            TimeParameter::ReportStart => 6,
            TimeParameter::RuleStep => 7,
            TimeParameter::Statistic => 8,
            TimeParameter::Periods => 9,
            TimeParameter::StartTime => 10,
            TimeParameter::HTime => 11,
            TimeParameter::QTime => 12,
            TimeParameter::HaltFlag => 13,
            TimeParameter::NextEvent => 14,
            TimeParameter::NextEventTank => 15,
        }
    }

    /// Decodes a numeric code, rejecting unrecognized discriminants.
    pub fn from_code(code: i32) -> (r: Result<TimeParameter, EPANETError>)
        ensures
            match r {
                Ok(v) => spec_time_parameter_from_code(code) == Some(v),
                Err(e) => spec_time_parameter_from_code(code) is None && e.code == 251,
            },
    {
        if code == 0 {
            Ok(TimeParameter::Duration)
        } else if code == 1 {
            Ok(TimeParameter::HydStep)
        } else if code == 2 {
            Ok(TimeParameter::QualStep)
        } else if code == 3 {
            Ok(TimeParameter::PatternStep)
        } else if code == 4 {
            Ok(TimeParameter::PatternStart)
        } else if code == 5 {
            Ok(TimeParameter::ReportStep)
        } else if code == 6 {
            Ok(TimeParameter::ReportStart)
        } else if code == 7 {
            Ok(TimeParameter::RuleStep)
        } else if code == 8 {
            Ok(TimeParameter::Statistic)
        } else if code == 9 {
            Ok(TimeParameter::Periods)
        } else if code == 10 {
            Ok(TimeParameter::StartTime)
        } else if code == 11 {
            Ok(TimeParameter::HTime)
        } else if code == 12 {
            Ok(TimeParameter::QTime)
        } else if code == 13 {
            Ok(TimeParameter::HaltFlag)
        } else if code == 14 {
            Ok(TimeParameter::NextEvent)
        } else if code == 15 {
            Ok(TimeParameter::NextEventTank)
        } else {
            Err(EPANETError::new(251))
        }
    }
}

/// Kind of element a rule premise refers to.
#[derive(Debug, Clone, Copy, PartialEq, Eq, Structural)]
pub enum RuleObject {
    /// Clause refers to a node
    Node,
    /// Clause refers to a link
    Link,
    /// Clause refers to a system parameter (e.g., time)
    System,
}

/// Numeric code of each [`RuleObject`] variant.
pub open spec fn spec_rule_object_code(v: RuleObject) -> i32 {
    match v {
        RuleObject::Node => 6,
        RuleObject::Link => 7,
        RuleObject::System => 8,
    }
}

/// Variant of [`RuleObject`] denoted by a numeric code, if any.
pub open spec fn spec_rule_object_from_code(code: i32) -> Option<RuleObject> {
    if code == 6 {
        Some(RuleObject::Node)
    } else if code == 7 {
        Some(RuleObject::Link)
    } else if code == 8 {
        Some(RuleObject::System)
    } else {
        None
    }
}

impl RuleObject {
    /// Encodes this variant as its numeric code.
    pub fn to_code(self) -> (r: i32)
        ensures
            r == spec_rule_object_code(self),
    {
        match self {
            RuleObject::Node => 6,
            RuleObject::Link => 7,
            RuleObject::System => 8,
        }
    }

    /// Decodes a numeric code, rejecting unrecognized discriminants.
    pub fn from_code(code: i32) -> (r: Result<RuleObject, EPANETError>)
        ensures
            match r {
                Ok(v) => spec_rule_object_from_code(code) == Some(v),
                Err(e) => spec_rule_object_from_code(code) is None && e.code == 251,
            },
    {
        if code == 6 {
            Ok(RuleObject::Node)
        } else if code == 7 {
            Ok(RuleObject::Link)
        } else if code == 8 {
            Ok(RuleObject::System)
        } else {
            Err(EPANETError::new(251))
        }
    }
}

/// Quantity tested by a rule premise.
#[derive(Debug, Clone, Copy, PartialEq, Eq, Structural)]
pub enum RuleVariable {
    /// Nodal demand
    Demand,
    /// Nodal hydraulic head
    Head,
    /// Nodal hydraulic grade
    Grade,
    /// Tank water level
    Level,
    /// Nodal pressure
    Pressure,
    /// Link flow rate
    Flow,
    /// Link status
    Status,
    /// Link setting
    Setting,
    /// Pump power output
    Power,
    /// Elapsed simulation time
    Time,
    /// Time of day
    ClockTime,
    /// Time to fill a tank
    FillTime,
    /// Time to drain a tank
    DrainTime,
}

/// Numeric code of each [`RuleVariable`] variant.
pub open spec fn spec_rule_variable_code(v: RuleVariable) -> i32 {
    match v {
        RuleVariable::Demand => 0,
        RuleVariable::Head => 1,
        RuleVariable::Grade => 2,
        RuleVariable::Level => 3,
        RuleVariable::Pressure => 4,
        RuleVariable::Flow => 5,
        RuleVariable::Status => 6,
        RuleVariable::Setting => 7,
        RuleVariable::Power => 8,
        RuleVariable::Time => 9,
        RuleVariable::ClockTime => 10,
        RuleVariable::FillTime => 11,
        RuleVariable::DrainTime => 12,
    }
}

/// Variant of [`RuleVariable`] denoted by a numeric code, if any.
pub open spec fn spec_rule_variable_from_code(code: i32) -> Option<RuleVariable> {
    if code == 0 {
        Some(RuleVariable::Demand)
    } else if code == 1 {
        Some(RuleVariable::Head)
    } else if code == 2 {
        Some(RuleVariable::Grade)
    } else if code == 3 {
        Some(RuleVariable::Level)
    } else if code == 4 {
        Some(RuleVariable::Pressure)
    } else if code == 5 {
        Some(RuleVariable::Flow)
    } else if code == 6 {
        Some(RuleVariable::Status)
    } else if code == 7 {
        Some(RuleVariable::Setting)
    } else if code == 8 {
        Some(RuleVariable::Power)
    } else if code == 9 {
        Some(RuleVariable::Time)
    } else if code == 10 {
        Some(RuleVariable::ClockTime)
    } else if code == 11 {
        Some(RuleVariable::FillTime)
    } else if code == 12 {
        Some(RuleVariable::DrainTime)
    } else {
        None
    }
}

impl RuleVariable {
    /// Encodes this variant as its numeric code.
    pub fn to_code(self) -> (r: i32)
        ensures
            r == spec_rule_variable_code(self),
    {
        match self {
            RuleVariable::Demand => 0,
            RuleVariable::Head => 1,
            RuleVariable::Grade => 2,
            RuleVariable::Level => 3,
            RuleVariable::Pressure => 4,
            RuleVariable::Flow => 5,
            RuleVariable::Status => 6,
            RuleVariable::Setting => 7,
            RuleVariable::Power => 8,
            RuleVariable::Time => 9,
            RuleVariable::ClockTime => 10,
            RuleVariable::FillTime => 11,
            RuleVariable::DrainTime => 12,
        }
    }

    /// Decodes a numeric code, rejecting unrecognized discriminants.
    pub fn from_code(code: i32) -> (r: Result<RuleVariable, EPANETError>)
        ensures
            match r {
                Ok(v) => spec_rule_variable_from_code(code) == Some(v),
                Err(e) => spec_rule_variable_from_code(code) is None && e.code == 251,
            },
    {
        if code == 0 {
            Ok(RuleVariable::Demand)
        } else if code == 1 {
            Ok(RuleVariable::Head)
        } else if code == 2 {
            Ok(RuleVariable::Grade)
        } else if code == 3 {
            Ok(RuleVariable::Level)
        } else if code == 4 {
            Ok(RuleVariable::Pressure)
        } else if code == 5 {
            Ok(RuleVariable::Flow)
        } else if code == 6 {
            Ok(RuleVariable::Status)
        } else if code == 7 {
            Ok(RuleVariable::Setting)
        } else if code == 8 {
            Ok(RuleVariable::Power)
        } else if code == 9 {
            Ok(RuleVariable::Time)
        } else if code == 10 {
            Ok(RuleVariable::ClockTime)
        } else if code == 11 {
            Ok(RuleVariable::FillTime)
        } else if code == 12 {
            Ok(RuleVariable::DrainTime)
        } else {
            Err(EPANETError::new(251))
        }
    }
}

/// Comparison operator of a rule premise.
#[derive(Debug, Clone, Copy, PartialEq, Eq, Structural)]
pub enum RuleOperator {
    /// Equal to
    Eq,
    /// Not equal
    Ne,
    /// Less than or equal to
    Le,
    /// Greater than or equal to
    Ge,
    /// Less than
    Lt,
    /// Greater than
    Gt,
    /// Is equal to
    Is,
    /// Is not equal to
    Not,
    /// Is below
    Below,
    /// Is above
    Above,
}

/// Numeric code of each [`RuleOperator`] variant.
pub open spec fn spec_rule_operator_code(v: RuleOperator) -> i32 {
    match v {
        RuleOperator::Eq => 0,
        RuleOperator::Ne => 1,
        RuleOperator::Le => 2,
        RuleOperator::Ge => 3,
        RuleOperator::Lt => 4,
        RuleOperator::Gt => 5,
        RuleOperator::Is => 6,
        RuleOperator::Not => 7,
        RuleOperator::Below => 8,
        RuleOperator::Above => 9,
    }
}

/// Variant of [`RuleOperator`] denoted by a numeric code, if any.
pub open spec fn spec_rule_operator_from_code(code: i32) -> Option<RuleOperator> {
    if code == 0 {
        Some(RuleOperator::Eq)
    } else if code == 1 {
        Some(RuleOperator::Ne)
    } else if code == 2 {
        Some(RuleOperator::Le)
    } else if code == 3 {
        Some(RuleOperator::Ge)
    } else if code == 4 {
        Some(RuleOperator::Lt)
    } else if code == 5 {
        Some(RuleOperator::Gt)
    } else if code == 6 {
        Some(RuleOperator::Is)
    } else if code == 7 {
        Some(RuleOperator::Not)
    } else if code == 8 {
        Some(RuleOperator::Below)
    } else if code == 9 {
        Some(RuleOperator::Above)
    } else {
        None
    }
}

impl RuleOperator {
    /// Encodes this variant as its numeric code.
    pub fn to_code(self) -> (r: i32)
        ensures
            r == spec_rule_operator_code(self),
    {
        match self {
            RuleOperator::Eq => 0,
            RuleOperator::Ne => 1,
            RuleOperator::Le => 2,
            RuleOperator::Ge => 3,
            RuleOperator::Lt => 4,
            RuleOperator::Gt => 5,
            RuleOperator::Is => 6,
            RuleOperator::Not => 7,
            RuleOperator::Below => 8,
            RuleOperator::Above => 9,
        }
    }

    /// Decodes a numeric code, rejecting unrecognized discriminants.
    pub fn from_code(code: i32) -> (r: Result<RuleOperator, EPANETError>)
        ensures
            match r {
                Ok(v) => spec_rule_operator_from_code(code) == Some(v),
                Err(e) => spec_rule_operator_from_code(code) is None && e.code == 251,
            },
    {
        if code == 0 {
            Ok(RuleOperator::Eq)
        } else if code == 1 {
            Ok(RuleOperator::Ne)
        } else if code == 2 {
            Ok(RuleOperator::Le)
        } else if code == 3 {
            Ok(RuleOperator::Ge)
        } else if code == 4 {
            Ok(RuleOperator::Lt)
        } else if code == 5 {
            Ok(RuleOperator::Gt)
        } else if code == 6 {
            Ok(RuleOperator::Is)
        } else if code == 7 {
            Ok(RuleOperator::Not)
        } else if code == 8 {
            Ok(RuleOperator::Below)
        } else if code == 9 {
            Ok(RuleOperator::Above)
        } else {
            Err(EPANETError::new(251))
        }
    }
}

/// Link status named by a rule clause.
#[derive(Debug, Clone, Copy, PartialEq, Eq, Structural)]
pub enum RuleStatus {
    /// Link is open
    IsOpen,
    /// Link is closed
    IsClosed,
    /// Control valve is active
    IsActive,
}

/// Numeric code of each [`RuleStatus`] variant.
pub open spec fn spec_rule_status_code(v: RuleStatus) -> i32 {
    match v {
        RuleStatus::IsOpen => 1,
        RuleStatus::IsClosed => 2,
        RuleStatus::IsActive => 3,
    }
}

/// Variant of [`RuleStatus`] denoted by a numeric code, if any.
pub open spec fn spec_rule_status_from_code(code: i32) -> Option<RuleStatus> {
    if code == 1 {
        Some(RuleStatus::IsOpen)
    } else if code == 2 {
        Some(RuleStatus::IsClosed)
    } else if code == 3 {
        Some(RuleStatus::IsActive)
    } else {
        None
    }
}

impl RuleStatus {
    /// Encodes this variant as its numeric code.
    pub fn to_code(self) -> (r: i32)
        ensures
            r == spec_rule_status_code(self),
    {
        match self {
            RuleStatus::IsOpen => 1,
            RuleStatus::IsClosed => 2,
            RuleStatus::IsActive => 3,
        }
    }

    /// Decodes a numeric code, rejecting unrecognized discriminants.
    pub fn from_code(code: i32) -> (r: Result<RuleStatus, EPANETError>)
        ensures
            match r {
                Ok(v) => spec_rule_status_from_code(code) == Some(v),
                Err(e) => spec_rule_status_from_code(code) is None && e.code == 251,
            },
    {
        if code == 1 {
            Ok(RuleStatus::IsOpen)
        } else if code == 2 {
            Ok(RuleStatus::IsClosed)
        } else if code == 3 {
            Ok(RuleStatus::IsActive)
        } else {
            Err(EPANETError::new(251))
        }
    }
}

/// Connective that joins a premise to the ones before it.
#[derive(Debug, Clone, Copy, PartialEq, Eq, Structural)]
pub enum LogicalOperator {
    /// First premise of a rule
    IF,
    /// Conjunction with the running result
    AND,
    /// Disjunction with the running result
    OR,
}

/// Numeric code of each [`LogicalOperator`] variant.
pub open spec fn spec_logical_operator_code(v: LogicalOperator) -> i32 {
    match v {
        LogicalOperator::IF => 1,
        LogicalOperator::AND => 2,
        LogicalOperator::OR => 3,
    }
}

/// Variant of [`LogicalOperator`] denoted by a numeric code, if any.
pub open spec fn spec_logical_operator_from_code(code: i32) -> Option<LogicalOperator> {
    if code == 1 {
        Some(LogicalOperator::IF)
    } else if code == 2 {
        Some(LogicalOperator::AND)
    } else if code == 3 {
        Some(LogicalOperator::OR)
    } else {
        None
    }
}

impl LogicalOperator {
    /// Encodes this variant as its numeric code.
    pub fn to_code(self) -> (r: i32)
        ensures
            r == spec_logical_operator_code(self),
    {
        match self {
            LogicalOperator::IF => 1,
            LogicalOperator::AND => 2,
            LogicalOperator::OR => 3,
        }
    }

    /// Decodes a numeric code, rejecting unrecognized discriminants.
    pub fn from_code(code: i32) -> (r: Result<LogicalOperator, EPANETError>)
        ensures
            match r {
                Ok(v) => spec_logical_operator_from_code(code) == Some(v),
                Err(e) => spec_logical_operator_from_code(code) is None && e.code == 251,
            },
    {
        if code == 1 {
            Ok(LogicalOperator::IF)
        } else if code == 2 {
            Ok(LogicalOperator::AND)
        } else if code == 3 {
            Ok(LogicalOperator::OR)
        } else {
            Err(EPANETError::new(251))
        }
    }
}

/// Property of a node readable or writable by value queries.
#[derive(Debug, Clone, Copy, PartialEq, Eq, Structural)]
pub enum NodeProperty {
    /// Elevation
    Elevation,
    /// Primary demand baseline value
    BaseDemand,
    /// Primary demand time pattern index
    Pattern,
    /// Emitter flow coefficient
    Emitter,
    /// Initial quality
    InitQual,
    /// Quality source strength
    SourceQual,
    /// Quality source pattern index
    SourcePat,
    /// Quality source type
    SourceType,
    /// Current computed tank water level
    TankLevel,
    /// Current computed demand (read only)
    Demand,
    /// Current computed hydraulic head (read only)
    Head,
    /// Current computed pressure (read only)
    Pressure,
    /// Current computed quality (read only)
    Quality,
    /// Current computed quality source mass inflow (read only)
    SourceMass,
    /// Tank initial volume (read only)
    InitVolume,
    /// Tank mixing model
    MixModel,
    /// Tank mixing zone volume (read only)
    MixZoneVol,
    /// Tank diameter
    TankDiam,
    /// Tank minimum volume
    MinVolume,
    /// Tank volume curve index
    VolCurve,
    /// Tank minimum level
    MinLevel,
    /// Tank maximum level
    MaxLevel,
    /// Tank mixing fraction
    MixFraction,
    /// Tank bulk decay coefficient
    TankKBulk,
    /// Current computed tank volume (read only)
    TankVolume,
    /// Tank maximum volume (read only)
    MaxVolume,
    /// Tank can overflow (= 1) or not (= 0)
    CanOverflow,
    /// Amount that full demand is reduced under PDA (read only)
    DemandDeficit,
    /// Is present in any simple or rule-based control (read only)
    NodeInControl,
    /// Current emitter flow (read only)
    EmitterFlow,
    /// Current leakage flow (read only)
    LeakageFlow,
    /// Current consumer demand delivered (read only)
    DemandFlow,
    /// Current consumer demand requested (read only)
    FullDemand,
}

/// Numeric code of each [`NodeProperty`] variant.
pub open spec fn spec_node_property_code(v: NodeProperty) -> i32 {
    match v {
        NodeProperty::Elevation => 0,
        NodeProperty::BaseDemand => 1,
        NodeProperty::Pattern => 2,
        NodeProperty::Emitter => 3,
        NodeProperty::InitQual => 4,
        NodeProperty::SourceQual => 5,
        NodeProperty::SourcePat => 6,
        NodeProperty::SourceType => 7,
        NodeProperty::TankLevel => 8,
        NodeProperty::Demand => 9,
        NodeProperty::Head => 10,
        NodeProperty::Pressure => 11,
        NodeProperty::Quality => 12,
        NodeProperty::SourceMass => 13,
        NodeProperty::InitVolume => 14,
        NodeProperty::MixModel => 15,
        NodeProperty::MixZoneVol => 16,
        NodeProperty::TankDiam => 17,
        NodeProperty::MinVolume => 18,
        NodeProperty::VolCurve => 19,
        NodeProperty::MinLevel => 20,
        NodeProperty::MaxLevel => 21,
        NodeProperty::MixFraction => 22,
        NodeProperty::TankKBulk => 23,
        NodeProperty::TankVolume => 24,
        NodeProperty::MaxVolume => 25,
        NodeProperty::CanOverflow => 26,
        NodeProperty::DemandDeficit => 27,
        NodeProperty::NodeInControl => 28,
        NodeProperty::EmitterFlow => 29,
        NodeProperty::LeakageFlow => 30,
        NodeProperty::DemandFlow => 31,
        NodeProperty::FullDemand => 32,
    }
}

/// Variant of [`NodeProperty`] denoted by a numeric code, if any.
pub open spec fn spec_node_property_from_code(code: i32) -> Option<NodeProperty> {
    if code == 0 {
        Some(NodeProperty::Elevation)
    } else if code == 1 {
        Some(NodeProperty::BaseDemand)
    } else if code == 2 {
        Some(NodeProperty::Pattern)
    } else if code == 3 {
        Some(NodeProperty::Emitter)
    } else if code == 4 {
        Some(NodeProperty::InitQual)
    } else if code == 5 {
        Some(NodeProperty::SourceQual)
    } else if code == 6 {
        Some(NodeProperty::SourcePat)
    } else if code == 7 {
        Some(NodeProperty::SourceType)
    } else if code == 8 {
        Some(NodeProperty::TankLevel)
    } else if code == 9 {
        Some(NodeProperty::Demand)
    } else if code == 10 {
        Some(NodeProperty::Head)
    } else if code == 11 {
        Some(NodeProperty::Pressure)
    } else if code == 12 {
        Some(NodeProperty::Quality)
    } else if code == 13 {
        Some(NodeProperty::SourceMass)
    } else if code == 14 {
        Some(NodeProperty::InitVolume)
    } else if code == 15 {
        Some(NodeProperty::MixModel)
    } else if code == 16 {
        Some(NodeProperty::MixZoneVol)
    } else if code == 17 {
        Some(NodeProperty::TankDiam)
    } else if code == 18 {
        Some(NodeProperty::MinVolume)
    } else if code == 19 {
        Some(NodeProperty::VolCurve)
    } else if code == 20 {
        Some(NodeProperty::MinLevel)
    } else if code == 21 {
        Some(NodeProperty::MaxLevel)
    } else if code == 22 {
        Some(NodeProperty::MixFraction)
    } else if code == 23 {
        Some(NodeProperty::TankKBulk)
    } else if code == 24 {
        Some(NodeProperty::TankVolume)
    } else if code == 25 {
        Some(NodeProperty::MaxVolume)
    } else if code == 26 {
        Some(NodeProperty::CanOverflow)
    } else if code == 27 {
        Some(NodeProperty::DemandDeficit)
    } else if code == 28 {
        Some(NodeProperty::NodeInControl)
    } else if code == 29 {
        Some(NodeProperty::EmitterFlow)
    } else if code == 30 {
        Some(NodeProperty::LeakageFlow)
    } else if code == 31 {
        Some(NodeProperty::DemandFlow)
    } else if code == 32 {
        Some(NodeProperty::FullDemand)
    } else {
        None
    }
}

impl NodeProperty {
    /// Encodes this variant as its numeric code.
    pub fn to_code(self) -> (r: i32)
        ensures
            r == spec_node_property_code(self),
    {
        match self {
            NodeProperty::Elevation => 0,
            NodeProperty::BaseDemand => 1,
            NodeProperty::Pattern => 2,
            NodeProperty::Emitter => 3,
            NodeProperty::InitQual => 4,
            NodeProperty::SourceQual => 5,
            NodeProperty::SourcePat => 6,
            NodeProperty::SourceType => 7,
            NodeProperty::TankLevel => 8,
            NodeProperty::Demand => 9,
            NodeProperty::Head => 10,
            NodeProperty::Pressure => 11,
            NodeProperty::Quality => 12,
            NodeProperty::SourceMass => 13,
            NodeProperty::InitVolume => 14,
            NodeProperty::MixModel => 15,
            NodeProperty::MixZoneVol => 16,
            NodeProperty::TankDiam => 17,
            NodeProperty::MinVolume => 18,
            NodeProperty::VolCurve => 19,
            NodeProperty::MinLevel => 20,
            NodeProperty::MaxLevel => 21,
            NodeProperty::MixFraction => 22,
            NodeProperty::TankKBulk => 23,
            NodeProperty::TankVolume => 24,
            NodeProperty::MaxVolume => 25,
            NodeProperty::CanOverflow => 26,
            NodeProperty::DemandDeficit => 27,
            NodeProperty::NodeInControl => 28,
            NodeProperty::EmitterFlow => 29,
            NodeProperty::LeakageFlow => 30,
            NodeProperty::DemandFlow => 31,
            NodeProperty::FullDemand => 32,
        }
    }

    /// Decodes a numeric code, rejecting unrecognized discriminants.
    pub fn from_code(code: i32) -> (r: Result<NodeProperty, EPANETError>)
        ensures
            match r {
                Ok(v) => spec_node_property_from_code(code) == Some(v),
                Err(e) => spec_node_property_from_code(code) is None && e.code == 251,
            },
    {
        if code == 0 {
            Ok(NodeProperty::Elevation)
        } else if code == 1 {
            Ok(NodeProperty::BaseDemand)
        } else if code == 2 {
            Ok(NodeProperty::Pattern)
        } else if code == 3 {
            Ok(NodeProperty::Emitter)
        } else if code == 4 {
            Ok(NodeProperty::InitQual)
        } else if code == 5 {
            Ok(NodeProperty::SourceQual)
        } else if code == 6 {
            Ok(NodeProperty::SourcePat)
        } else if code == 7 {
            Ok(NodeProperty::SourceType)
        } else if code == 8 {
            Ok(NodeProperty::TankLevel)
        } else if code == 9 {
            Ok(NodeProperty::Demand)
        } else if code == 10 {
            Ok(NodeProperty::Head)
        } else if code == 11 {
            Ok(NodeProperty::Pressure)
        } else if code == 12 {
            Ok(NodeProperty::Quality)
        } else if code == 13 {
            Ok(NodeProperty::SourceMass)
        } else if code == 14 {
            Ok(NodeProperty::InitVolume)
        } else if code == 15 {
            Ok(NodeProperty::MixModel)
        } else if code == 16 {
            Ok(NodeProperty::MixZoneVol)
        } else if code == 17 {
            Ok(NodeProperty::TankDiam)
        } else if code == 18 {
            Ok(NodeProperty::MinVolume)
        } else if code == 19 {
            Ok(NodeProperty::VolCurve)
        } else if code == 20 {
            Ok(NodeProperty::MinLevel)
        } else if code == 21 {
            Ok(NodeProperty::MaxLevel)
        } else if code == 22 {
            Ok(NodeProperty::MixFraction)
        } else if code == 23 {
            Ok(NodeProperty::TankKBulk)
        } else if code == 24 {
            Ok(NodeProperty::TankVolume)
        } else if code == 25 {
            Ok(NodeProperty::MaxVolume)
        } else if code == 26 {
            Ok(NodeProperty::CanOverflow)
        } else if code == 27 {
            Ok(NodeProperty::DemandDeficit)
        } else if code == 28 {
            Ok(NodeProperty::NodeInControl)
        } else if code == 29 {
            Ok(NodeProperty::EmitterFlow)
        } else if code == 30 {
            Ok(NodeProperty::LeakageFlow)
        } else if code == 31 {
            Ok(NodeProperty::DemandFlow)
        } else if code == 32 {
            Ok(NodeProperty::FullDemand)
        } else {
            Err(EPANETError::new(251))
        }
    }
}

/// Property of a link readable or writable by value queries.
#[derive(Debug, Clone, Copy, PartialEq, Eq, Structural)]
pub enum LinkProperty {
    /// Pipe/valve diameter
    Diameter,
    /// Pipe length
    Length,
    /// Pipe roughness coefficient
    Roughness,
    /// Pipe/valve minor loss coefficient
    MinorLoss,
    /// Initial status
    InitStatus,
    /// Initial pump speed or valve setting
    InitSetting,
    /// Bulk chemical reaction coefficient
    KBulk,
    /// Pipe wall chemical reaction coefficient
    KWall,
    /// Current computed flow rate (read only)
    Flow,
    /// Current computed flow velocity (read only)
    Velocity,
    /// Current computed head loss (read only)
    HeadLoss,
    /// Current link status
    Status,
    /// Current link setting
    Setting,
    /// Current computed pump energy usage (read only)
    Energy,
    /// Current computed link quality (read only)
    LinkQual,
    /// Pump speed time pattern index
    LinkPattern,
    /// Current computed pump state (read only)
    PumpState,
    /// Current computed pump efficiency (read only)
    PumpEffic,
    /// Pump constant power rating
    PumpPower,
    /// Pump head v. flow curve index
    PumpHCurve,
    /// Pump efficiency v. flow curve index
    PumpECurve,
    /// Pump average energy price
    PumpECost,
    /// Pump energy price time pattern index
    PumpEPat,
    /// Is present in any simple or rule-based control (read only)
    LinkInControl,
    /// GPV head loss v. flow curve index
    GPVCurve,
    /// PCV loss coeff. curve index
    PCVCurve,
    /// Pipe leak area
    LeakArea,
    /// Leak expansion rate
    LeakExpan,
    /// Current leakage rate (read only)
    LinkLeakage,
}

/// Numeric code of each [`LinkProperty`] variant.
pub open spec fn spec_link_property_code(v: LinkProperty) -> i32 {
    match v {
        LinkProperty::Diameter => 0,
        LinkProperty::Length => 1,
        LinkProperty::Roughness => 2,
        LinkProperty::MinorLoss => 3,
        LinkProperty::InitStatus => 4,
        LinkProperty::InitSetting => 5,
        LinkProperty::KBulk => 6,
        LinkProperty::KWall => 7,
        LinkProperty::Flow => 8,
        LinkProperty::Velocity => 9,
        LinkProperty::HeadLoss => 10,
        LinkProperty::Status => 11,
        LinkProperty::Setting => 12,
        LinkProperty::Energy => 13,
        LinkProperty::LinkQual => 14,
        LinkProperty::LinkPattern => 15,
        LinkProperty::PumpState => 16,
        LinkProperty::PumpEffic => 17,
        LinkProperty::PumpPower => 18,
        LinkProperty::PumpHCurve => 19,
        LinkProperty::PumpECurve => 20,
        LinkProperty::PumpECost => 21,
        LinkProperty::PumpEPat => 22,
        LinkProperty::LinkInControl => 23,
        LinkProperty::GPVCurve => 24,
        LinkProperty::PCVCurve => 25,
        LinkProperty::LeakArea => 26,
        LinkProperty::LeakExpan => 27,
        LinkProperty::LinkLeakage => 28,
    }
}

/// Variant of [`LinkProperty`] denoted by a numeric code, if any.
pub open spec fn spec_link_property_from_code(code: i32) -> Option<LinkProperty> {
    if code == 0 {
        Some(LinkProperty::Diameter)
    } else if code == 1 {
        Some(LinkProperty::Length)
    } else if code == 2 {
        Some(LinkProperty::Roughness)
    } else if code == 3 {
        Some(LinkProperty::MinorLoss)
    } else if code == 4 {
        Some(LinkProperty::InitStatus)
    } else if code == 5 {
        Some(LinkProperty::InitSetting)
    } else if code == 6 {
        Some(LinkProperty::KBulk)
    } else if code == 7 {
        Some(LinkProperty::KWall)
    } else if code == 8 {
        Some(LinkProperty::Flow)
    } else if code == 9 {
        Some(LinkProperty::Velocity)
    } else if code == 10 {
        Some(LinkProperty::HeadLoss)
    } else if code == 11 {
        Some(LinkProperty::Status)
    } else if code == 12 {
        Some(LinkProperty::Setting)
    } else if code == 13 {
        Some(LinkProperty::Energy)
    } else if code == 14 {
        Some(LinkProperty::LinkQual)
    } else if code == 15 {
        Some(LinkProperty::LinkPattern)
    } else if code == 16 {
        Some(LinkProperty::PumpState)
    } else if code == 17 {
        Some(LinkProperty::PumpEffic)
    } else if code == 18 {
        Some(LinkProperty::PumpPower)
    } else if code == 19 {
        Some(LinkProperty::PumpHCurve)
    } else if code == 20 {
        Some(LinkProperty::PumpECurve)
    } else if code == 21 {
        Some(LinkProperty::PumpECost)
    } else if code == 22 {
        Some(LinkProperty::PumpEPat)
    } else if code == 23 {
        Some(LinkProperty::LinkInControl)
    } else if code == 24 {
        Some(LinkProperty::GPVCurve)
    } else if code == 25 {
        Some(LinkProperty::PCVCurve)
    } else if code == 26 {
        Some(LinkProperty::LeakArea)
    } else if code == 27 {
        Some(LinkProperty::LeakExpan)
    } else if code == 28 {
        Some(LinkProperty::LinkLeakage)
    } else {
        None
    }
}

impl LinkProperty {
    /// Encodes this variant as its numeric code.
    pub fn to_code(self) -> (r: i32)
        ensures
            r == spec_link_property_code(self),
    {
        match self {
            LinkProperty::Diameter => 0,
            LinkProperty::Length => 1,
            LinkProperty::Roughness => 2,
            LinkProperty::MinorLoss => 3,
            LinkProperty::InitStatus => 4,
            LinkProperty::InitSetting => 5,
            LinkProperty::KBulk => 6,
            LinkProperty::KWall => 7,
            LinkProperty::Flow => 8,
            LinkProperty::Velocity => 9,
            LinkProperty::HeadLoss => 10,
            LinkProperty::Status => 11,
            LinkProperty::Setting => 12,
            LinkProperty::Energy => 13,
            LinkProperty::LinkQual => 14,
            LinkProperty::LinkPattern => 15,
            LinkProperty::PumpState => 16,
            LinkProperty::PumpEffic => 17,
            LinkProperty::PumpPower => 18,
            LinkProperty::PumpHCurve => 19,
            LinkProperty::PumpECurve => 20,
            LinkProperty::PumpECost => 21,
            LinkProperty::PumpEPat => 22,
            LinkProperty::LinkInControl => 23,
            LinkProperty::GPVCurve => 24,
            LinkProperty::PCVCurve => 25,
            LinkProperty::LeakArea => 26,
            LinkProperty::LeakExpan => 27,
            LinkProperty::LinkLeakage => 28,
        }
    }

    /// Decodes a numeric code, rejecting unrecognized discriminants.
    pub fn from_code(code: i32) -> (r: Result<LinkProperty, EPANETError>)
        ensures
            match r {
                Ok(v) => spec_link_property_from_code(code) == Some(v),
                Err(e) => spec_link_property_from_code(code) is None && e.code == 251,
            },
    {
        if code == 0 {
            Ok(LinkProperty::Diameter)
        } else if code == 1 {
            Ok(LinkProperty::Length)
        } else if code == 2 {
            Ok(LinkProperty::Roughness)
        } else if code == 3 {
            Ok(LinkProperty::MinorLoss)
        } else if code == 4 {
            Ok(LinkProperty::InitStatus)
        } else if code == 5 {
            Ok(LinkProperty::InitSetting)
        } else if code == 6 {
            Ok(LinkProperty::KBulk)
        } else if code == 7 {
            Ok(LinkProperty::KWall)
        } else if code == 8 {
            Ok(LinkProperty::Flow)
        } else if code == 9 {
            Ok(LinkProperty::Velocity)
        } else if code == 10 {
            Ok(LinkProperty::HeadLoss)
        } else if code == 11 {
            Ok(LinkProperty::Status)
        } else if code == 12 {
            Ok(LinkProperty::Setting)
        } else if code == 13 {
            Ok(LinkProperty::Energy)
        } else if code == 14 {
            Ok(LinkProperty::LinkQual)
        } else if code == 15 {
            Ok(LinkProperty::LinkPattern)
        } else if code == 16 {
            Ok(LinkProperty::PumpState)
        } else if code == 17 {
            Ok(LinkProperty::PumpEffic)
        } else if code == 18 {
            Ok(LinkProperty::PumpPower)
        } else if code == 19 {
            Ok(LinkProperty::PumpHCurve)
        } else if code == 20 {
            Ok(LinkProperty::PumpECurve)
        } else if code == 21 {
            Ok(LinkProperty::PumpECost)
        } else if code == 22 {
            Ok(LinkProperty::PumpEPat)
        } else if code == 23 {
            Ok(LinkProperty::LinkInControl)
        } else if code == 24 {
            Ok(LinkProperty::GPVCurve)
        } else if code == 25 {
            Ok(LinkProperty::PCVCurve)
        } else if code == 26 {
            Ok(LinkProperty::LeakArea)
        } else if code == 27 {
            Ok(LinkProperty::LeakExpan)
        } else if code == 28 {
            Ok(LinkProperty::LinkLeakage)
        } else {
            Err(EPANETError::new(251))
        }
    }
}

} // verus!
