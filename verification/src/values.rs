//! Typed get and set operations on node properties, link properties and the
//! time parameters of the simulation clock.
//!
//! Unsupported properties are rejected with code 251 (invalid parameter
//! code); out-of-range values with code 202 (illegal numeric value); tank
//! level bounds that would contradict each other with code 225.

use vstd::prelude::*;
use crate::enums::LinkProperty;
use crate::enums::LinkStatusType;
use crate::enums::NodeProperty;
use crate::enums::TimeParameter;
use crate::enums::spec_link_status_type_code;
use crate::errors::EPANETError;
use crate::model::EPANET;
use crate::model::LinkModel;
use crate::model::NodeModel;
use crate::model::VALUE_LIMIT;
use crate::model::val_ok;

verus! {

/// The value reported for each supported node property; `None` means the
/// property is not supported by the model.
pub open spec fn spec_node_value(n: NodeModel, property: NodeProperty) -> Option<i64> {
    match property {
        NodeProperty::Elevation => Some(n.elevation),
        NodeProperty::BaseDemand => Some(n.base_demand),
        NodeProperty::InitQual => Some(n.init_qual),
        NodeProperty::Quality => Some(n.quality),
        NodeProperty::TankLevel => Some(n.level),
        NodeProperty::MinLevel => Some(n.min_level),
        NodeProperty::MaxLevel => Some(n.max_level),
        NodeProperty::Demand => Some(n.base_demand),
        NodeProperty::Head => Some((n.elevation + n.level) as i64),
        NodeProperty::Pressure => Some(n.level),
        _ => None,
    }
}

/// The node produced by writing a property value, or the error code that
/// rejects the write.
pub open spec fn spec_node_with_value(n: NodeModel, property: NodeProperty, value: i64) -> Result<
    NodeModel,
    i32,
> {
    if !val_ok(value) {
        Err(202)
    } else {
        match property {
            NodeProperty::Elevation => Ok(NodeModel { elevation: value, ..n }),
            NodeProperty::BaseDemand => Ok(NodeModel { base_demand: value, ..n }),
            NodeProperty::InitQual => Ok(NodeModel { init_qual: value, quality: value, ..n }),
            NodeProperty::TankLevel => if n.node_type == crate::enums::NodeType::Tank && !(
            n.min_level <= value <= n.max_level) {
                Err(225)
            } else {
                Ok(NodeModel { init_level: value, level: value, ..n })
            },
            NodeProperty::MinLevel => if n.node_type == crate::enums::NodeType::Tank && !(value
                <= n.level && value <= n.init_level && value <= n.max_level) {
                Err(225)
            } else {
                Ok(NodeModel { min_level: value, ..n })
            },
            NodeProperty::MaxLevel => if n.node_type == crate::enums::NodeType::Tank && !(
            n.level <= value && n.init_level <= value && n.min_level <= value) {
                Err(225)
            } else {
                Ok(NodeModel { max_level: value, ..n })
            },
            _ => Err(251),
        }
    }
}

/// Whether a link property is supported by the model.
pub open spec fn spec_link_prop_supported(property: LinkProperty) -> bool {
    property == LinkProperty::InitStatus || property == LinkProperty::InitSetting
        || property == LinkProperty::Status || property == LinkProperty::Setting
        || property == LinkProperty::Flow
}

/// The value reported for each supported link property; `None` means the
/// property is not supported by the model.
pub open spec fn spec_link_value(l: LinkModel, property: LinkProperty) -> Option<i64> {
    match property {
        LinkProperty::InitStatus => Some(spec_link_status_type_code(l.init_status) as i64),
        LinkProperty::InitSetting => Some(l.init_setting),
        LinkProperty::Status => Some(spec_link_status_type_code(l.status) as i64),
        LinkProperty::Setting => Some(l.setting),
        LinkProperty::Flow => Some(l.flow),
        _ => None,
    }
}

/// The link produced by writing a property value, or the error code that
/// rejects the write. Writing a nonzero setting opens the link; writing a
/// zero setting closes it.
pub open spec fn spec_link_with_value(l: LinkModel, property: LinkProperty, value: i64) -> Result<
    LinkModel,
    i32,
> {
    match property {
        LinkProperty::InitStatus => if value == 0 {
            Ok(LinkModel { init_status: LinkStatusType::Closed, ..l })
        } else if value == 1 {
            Ok(LinkModel { init_status: LinkStatusType::Open, ..l })
        } else {
            Err(202)
        },
        LinkProperty::Status => if value == 0 {
            Ok(LinkModel { status: LinkStatusType::Closed, ..l })
        } else if value == 1 {
            Ok(LinkModel { status: LinkStatusType::Open, ..l })
        } else {
            Err(202)
        },
        LinkProperty::InitSetting => if !val_ok(value) {
            Err(202)
        } else {
            Ok(LinkModel { init_setting: value, ..l })
        },
        LinkProperty::Setting => if !val_ok(value) {
            Err(202)
        } else {
            Ok(
                LinkModel {
                    setting: value,
                    status: if value == 0 {
                        LinkStatusType::Closed
                    } else {
                        LinkStatusType::Open
                    },
                    ..l
                },
            )
        },
        _ => Err(251),
    }
}

/// The value reported for each supported time parameter; `None` means the
/// parameter is not supported by the model.
pub open spec fn spec_time_parameter(p: EPANET, parameter: TimeParameter) -> Option<i64> {
    match parameter {
        TimeParameter::Duration => Some(p.duration),
        TimeParameter::HydStep => Some(p.hyd_step),
        TimeParameter::QualStep => Some(p.qual_step),
        TimeParameter::HTime => Some(p.htime),
        TimeParameter::QTime => Some(p.qtime),
        _ => None,
    }
}

/// The project produced by writing a time parameter, or the error code that
/// rejects the write. Time parameters can only be changed while both
/// solvers are closed, so the clocks are at zero and stay within the new
/// duration.
pub open spec fn spec_with_time_parameter(
    p: EPANET,
    parameter: TimeParameter,
    value: i64,
) -> Result<EPANET, i32> {
    match parameter {
        TimeParameter::Duration | TimeParameter::HydStep | TimeParameter::QualStep => if p
            .spec_solver_open() {
            Err(262)
        } else if parameter == TimeParameter::Duration && 0 <= value <= VALUE_LIMIT {
            Ok(EPANET { duration: value, ..p })
        } else if parameter != TimeParameter::Duration && 1 <= value <= VALUE_LIMIT {
            if parameter == TimeParameter::HydStep {
                Ok(EPANET { hyd_step: value, ..p })
            } else {
                Ok(EPANET { qual_step: value, ..p })
            }
        } else {
            Err(202)
        },
        _ => Err(251),
    }
}

impl EPANET {
    /// Retrieves the value of a node property.
    ///
    /// Fails with code 203 (undefined node) when the index is out of range
    /// and code 251 when the property is not supported by the model.
    pub fn get_node_value(&self, index: i32, property: NodeProperty) -> (r: Result<
        i64,
        EPANETError,
    >)
        requires
            self.wf(),
        ensures
            match r {
                Ok(v) => 1 <= index <= self.nodes_m().len() && spec_node_value(
                    self.nodes_m()[index as int - 1],
                    property,
                ) == Some(v),
                Err(e) => {
                    &&& (e.code == 203 <==> !(1 <= index <= self.nodes_m().len()))
                    &&& (e.code != 203 ==> e.code == 251 && spec_node_value(
                        self.nodes_m()[index as int - 1],
                        property,
                    ) is None)
                },
            },
    {
        if index < 1 || index as usize > self.nodes.len() {
            return Err(EPANETError::new(203));
        }
        let n = &self.nodes[(index - 1) as usize];
        match property {
            NodeProperty::Elevation => Ok(n.elevation),
            NodeProperty::BaseDemand => Ok(n.base_demand),
            NodeProperty::InitQual => Ok(n.init_qual),
            NodeProperty::Quality => Ok(n.quality),
            NodeProperty::TankLevel => Ok(n.level),
            NodeProperty::MinLevel => Ok(n.min_level),
            NodeProperty::MaxLevel => Ok(n.max_level),
            NodeProperty::Demand => Ok(n.base_demand),
            NodeProperty::Head => Ok(n.elevation + n.level),
            NodeProperty::Pressure => Ok(n.level),
            _ => Err(EPANETError::new(251)),
        }
    }

    /// Writes the value of a node property.
    ///
    /// Fails with code 203 (undefined node) when the index is out of range;
    /// code 202 (illegal numeric value) when the value is out of range; code
    /// 225 when tank levels would contradict each other; code 251 when the
    /// property is not writable in the model.
    pub fn set_node_value(&mut self, index: i32, property: NodeProperty, value: i64) -> (r: Result<
        (),
        EPANETError,
    >)
        requires
            old(self).wf(),
        ensures
            final(self).wf(),
            final(self).same_clock(*old(self)),
            final(self).links_m() == old(self).links_m(),
            final(self).controls_m() == old(self).controls_m(),
            final(self).rules_m() == old(self).rules_m(),
            match r {
                Ok(()) => {
                    &&& 1 <= index <= old(self).nodes_m().len()
                    &&& spec_node_with_value(
                        old(self).nodes_m()[index as int - 1],
                        property,
                        value,
                    ) == Ok::<NodeModel, i32>(final(self).nodes_m()[index as int - 1])
                    &&& final(self).nodes_m() == old(self).nodes_m().update(
                        index as int - 1,
                        final(self).nodes_m()[index as int - 1],
                    )
                },
                Err(e) => {
                    &&& final(self).unchanged(*old(self))
                    &&& (e.code == 203 <==> !(1 <= index <= old(self).nodes_m().len()))
                    &&& (e.code != 203 ==> spec_node_with_value(
                        old(self).nodes_m()[index as int - 1],
                        property,
                        value,
                    ) == Err::<NodeModel, i32>(e.code))
                },
            },
    {
        if index < 1 || index as usize > self.nodes.len() {
            return Err(EPANETError::new(203));
        }
        if value < -VALUE_LIMIT || value > VALUE_LIMIT {
            return Err(EPANETError::new(202));
        }
        let i = (index - 1) as usize;
        let is_tank = matches!(self.nodes[i].node_type, crate::enums::NodeType::Tank);
        match property {
            NodeProperty::Elevation => {
                self.nodes[i].elevation = value;
            },
            NodeProperty::BaseDemand => {
                self.nodes[i].base_demand = value;
            },
            NodeProperty::InitQual => {
                self.nodes[i].init_qual = value;
                self.nodes[i].quality = value;
            },
            NodeProperty::TankLevel => {
                if is_tank && !(self.nodes[i].min_level <= value && value
                    <= self.nodes[i].max_level) {
                    return Err(EPANETError::new(225));
                }
                self.nodes[i].init_level = value;
                self.nodes[i].level = value;
            },
            NodeProperty::MinLevel => {
                if is_tank && !(value <= self.nodes[i].level && value <= self.nodes[i].init_level
                    && value <= self.nodes[i].max_level) {
                    return Err(EPANETError::new(225));
                }
                self.nodes[i].min_level = value;
            },
            NodeProperty::MaxLevel => {
                if is_tank && !(self.nodes[i].level <= value && self.nodes[i].init_level <= value
                    && self.nodes[i].min_level <= value) {
                    return Err(EPANETError::new(225));
                }
                self.nodes[i].max_level = value;
            },
            _ => {
                return Err(EPANETError::new(251));
            },
        }
        proof {
            assert(self.nodes_m() =~= old(self).nodes_m().update(
                index as int - 1,
                self.nodes_m()[index as int - 1],
            ));
        }
        Ok(())
    }


    /// Retrieves the value of a node property for every node at once.
    ///
    /// Fails with code 251 when the property is not supported by the model.
    pub fn get_node_values(&self, property: NodeProperty) -> (r: Result<Vec<i64>, EPANETError>)
        requires
            self.wf(),
        ensures
            match r {
                Ok(v) => v@.len() == self.nodes_m().len() && forall|i: int|
                    0 <= i < v@.len() ==> spec_node_value(self.nodes_m()[i], property) == Some(
                        #[trigger] v@[i],
                    ),
                Err(e) => e.code == 251 && (self.nodes_m().len() > 0 ==> spec_node_value(
                    self.nodes_m()[0],
                    property,
                ) is None),
            },
    {
        let supported = matches!(
            property,
            NodeProperty::Elevation
                | NodeProperty::BaseDemand
                | NodeProperty::InitQual
                | NodeProperty::Quality
                | NodeProperty::TankLevel
                | NodeProperty::MinLevel
                | NodeProperty::MaxLevel
                | NodeProperty::Demand
                | NodeProperty::Head
                | NodeProperty::Pressure
        );
        if !supported {
            return Err(EPANETError::new(251));
        }
        let n = self.nodes.len();
        let mut out: Vec<i64> = Vec::new();
        let mut i: usize = 0;
        while i < n
            invariant
                self.wf(),
                n == self.nodes@.len(),
                i <= n,
                out@.len() == i,
                forall|j: int|
                    0 <= j < i ==> spec_node_value(self.nodes_m()[j], property) == Some(
                        #[trigger] out@[j],
                    ),
                matches!(
                    property,
                    NodeProperty::Elevation
                        | NodeProperty::BaseDemand
                        | NodeProperty::InitQual
                        | NodeProperty::Quality
                        | NodeProperty::TankLevel
                        | NodeProperty::MinLevel
                        | NodeProperty::MaxLevel
                        | NodeProperty::Demand
                        | NodeProperty::Head
                        | NodeProperty::Pressure
                ),
            decreases n - i,
        {
            proof {
                assert(self.nodes_m()[i as int] == self.nodes@[i as int]@);
                assert(crate::model::node_wf(self.nodes_m()[i as int]));
            }
            let nd = &self.nodes[i];
            let v = match property {
                NodeProperty::Elevation => nd.elevation,
                NodeProperty::BaseDemand => nd.base_demand,
                NodeProperty::InitQual => nd.init_qual,
                NodeProperty::Quality => nd.quality,
                NodeProperty::TankLevel => nd.level,
                NodeProperty::MinLevel => nd.min_level,
                NodeProperty::MaxLevel => nd.max_level,
                NodeProperty::Demand => nd.base_demand,
                NodeProperty::Head => nd.elevation + nd.level,
                NodeProperty::Pressure => nd.level,
                _ => 0,
            };
            out.push(v);
            i = i + 1;
        }
        Ok(out)
    }

    /// Retrieves the value of a link property.
    ///
    /// Fails with code 204 (undefined link) when the index is out of range
    /// and code 251 when the property is not supported by the model.
    pub fn get_link_value(&self, index: i32, property: LinkProperty) -> (r: Result<
        i64,
        EPANETError,
    >)
        requires
            self.wf(),
        ensures
            match r {
                Ok(v) => 1 <= index <= self.links_m().len() && spec_link_value(
                    self.links_m()[index as int - 1],
                    property,
                ) == Some(v),
                Err(e) => {
                    &&& (e.code == 204 <==> !(1 <= index <= self.links_m().len()))
                    &&& (e.code != 204 ==> e.code == 251 && spec_link_value(
                        self.links_m()[index as int - 1],
                        property,
                    ) is None)
                },
            },
    {
        if index < 1 || index as usize > self.links.len() {
            return Err(EPANETError::new(204));
        }
        let l = &self.links[(index - 1) as usize];
        match property {
            LinkProperty::InitStatus => Ok(l.init_status.to_code() as i64),
            LinkProperty::InitSetting => Ok(l.init_setting),
            LinkProperty::Status => Ok(l.status.to_code() as i64),
            LinkProperty::Setting => Ok(l.setting),
            LinkProperty::Flow => Ok(l.flow),
            _ => Err(EPANETError::new(251)),
        }
    }

    /// Retrieves the value of a link property for every link at once.
    ///
    /// Fails with code 251 when the property is not supported by the model.
    pub fn get_link_values(&self, property: LinkProperty) -> (r: Result<Vec<i64>, EPANETError>)
        requires
            self.wf(),
        ensures
            match r {
                Ok(v) => v@.len() == self.links_m().len() && forall|i: int|
                    0 <= i < v@.len() ==> spec_link_value(self.links_m()[i], property) == Some(
                        #[trigger] v@[i],
                    ),
                Err(e) => e.code == 251 && (self.links_m().len() > 0 ==> spec_link_value(
                    self.links_m()[0],
                    property,
                ) is None),
            },
    {
        let supported = matches!(
            property,
            LinkProperty::InitStatus
                | LinkProperty::InitSetting
                | LinkProperty::Status
                | LinkProperty::Setting
                | LinkProperty::Flow
        );
        if !supported {
            return Err(EPANETError::new(251));
        }
        let n = self.links.len();
        let mut out: Vec<i64> = Vec::new();
        let mut i: usize = 0;
        while i < n
            invariant
                self.wf(),
                n == self.links@.len(),
                i <= n,
                out@.len() == i,
                forall|j: int|
                    0 <= j < i ==> spec_link_value(self.links_m()[j], property) == Some(
                        #[trigger] out@[j],
                    ),
                spec_link_prop_supported(property),
            decreases n - i,
        {
            let l = &self.links[i];
            let v = match property {
                LinkProperty::InitStatus => l.init_status.to_code() as i64,
                LinkProperty::InitSetting => l.init_setting,
                LinkProperty::Status => l.status.to_code() as i64,
                LinkProperty::Setting => l.setting,
                LinkProperty::Flow => l.flow,
                _ => 0,
            };
            out.push(v);
            i = i + 1;
        }
        Ok(out)
    }

    /// Writes the value of a link property.
    ///
    /// Writing `Setting` also opens the link when the value is nonzero and
    /// closes it when the value is zero. Fails with code 204 (undefined
    /// link) when the index is out of range; code 202 (illegal numeric
    /// value) when the value is out of range; code 251 when the property is
    /// not writable in the model.
    pub fn set_link_value(&mut self, index: i32, property: LinkProperty, value: i64) -> (r: Result<
        (),
        EPANETError,
    >)
        requires
            old(self).wf(),
        ensures
            final(self).wf(),
            final(self).same_clock(*old(self)),
            final(self).nodes_m() == old(self).nodes_m(),
            final(self).controls_m() == old(self).controls_m(),
            final(self).rules_m() == old(self).rules_m(),
            match r {
                Ok(()) => {
                    &&& 1 <= index <= old(self).links_m().len()
                    &&& spec_link_with_value(
                        old(self).links_m()[index as int - 1],
                        property,
                        value,
                    ) == Ok::<LinkModel, i32>(final(self).links_m()[index as int - 1])
                    &&& final(self).links_m() == old(self).links_m().update(
                        index as int - 1,
                        final(self).links_m()[index as int - 1],
                    )
                },
                Err(e) => {
                    &&& final(self).unchanged(*old(self))
                    &&& (e.code == 204 <==> !(1 <= index <= old(self).links_m().len()))
                    &&& (e.code != 204 ==> spec_link_with_value(
                        old(self).links_m()[index as int - 1],
                        property,
                        value,
                    ) == Err::<LinkModel, i32>(e.code))
                },
            },
    {
        if index < 1 || index as usize > self.links.len() {
            return Err(EPANETError::new(204));
        }
        let i = (index - 1) as usize;
        match property {
            LinkProperty::InitStatus => {
                if value == 0 {
                    self.links[i].init_status = LinkStatusType::Closed;
                } else if value == 1 {
                    self.links[i].init_status = LinkStatusType::Open;
                } else {
                    return Err(EPANETError::new(202));
                }
            },
            LinkProperty::Status => {
                if value == 0 {
                    self.links[i].status = LinkStatusType::Closed;
                } else if value == 1 {
                    self.links[i].status = LinkStatusType::Open;
                } else {
                    return Err(EPANETError::new(202));
                }
            },
            LinkProperty::InitSetting => {
                if value < -VALUE_LIMIT || value > VALUE_LIMIT {
                    return Err(EPANETError::new(202));
                }
                self.links[i].init_setting = value;
            },
            LinkProperty::Setting => {
                if value < -VALUE_LIMIT || value > VALUE_LIMIT {
                    return Err(EPANETError::new(202));
                }
                self.links[i].setting = value;
                self.links[i].status = if value == 0 {
                    LinkStatusType::Closed
                } else {
                    LinkStatusType::Open
                };
            },
            _ => {
                return Err(EPANETError::new(251));
            },
        }
        proof {
            assert(self.links_m() =~= old(self).links_m().update(
                index as int - 1,
                self.links_m()[index as int - 1],
            ));
        }
        Ok(())
    }

    /// Retrieves a time parameter of the simulation clock.
    ///
    /// Fails with code 251 when the parameter is not supported by the model.
    pub fn get_time_parameter(&self, parameter: TimeParameter) -> (r: Result<i64, EPANETError>)
        requires
            self.wf(),
        ensures
            match r {
                Ok(v) => spec_time_parameter(*self, parameter) == Some(v),
                Err(e) => e.code == 251 && spec_time_parameter(*self, parameter) is None,
            },
    {
        match parameter {
            TimeParameter::Duration => Ok(self.duration),
            TimeParameter::HydStep => Ok(self.hyd_step),
            TimeParameter::QualStep => Ok(self.qual_step),
            TimeParameter::HTime => Ok(self.htime),
            TimeParameter::QTime => Ok(self.qtime),
            _ => Err(EPANETError::new(251)),
        }
    }

    /// Writes a time parameter of the simulation clock.
    ///
    /// Fails with code 262 while a solver is open, code 202 (illegal numeric
    /// value) when the value is out of range (the duration must be
    /// nonnegative, the steps positive), and code 251 when the parameter is
    /// not writable in the model.
    pub fn set_time_parameter(&mut self, parameter: TimeParameter, value: i64) -> (r: Result<
        (),
        EPANETError,
    >)
        requires
            old(self).wf(),
        ensures
            final(self).wf(),
            match r {
                Ok(()) => spec_with_time_parameter(*old(self), parameter, value) == Ok::<
                    EPANET,
                    i32,
                >(*final(self)),
                Err(e) => final(self).unchanged(*old(self)) && *final(self) == *old(self)
                    && spec_with_time_parameter(*old(self), parameter, value) == Err::<
                    EPANET,
                    i32,
                >(e.code),
            },
    {
        let writable = matches!(
            parameter,
            TimeParameter::Duration | TimeParameter::HydStep | TimeParameter::QualStep
        );
        if !writable {
            return Err(EPANETError::new(251));
        }
        if !matches!(self.hyd_state, crate::model::SolverState::Closed)
            || !matches!(self.qual_state, crate::model::SolverState::Closed) {
            return Err(EPANETError::new(262));
        }
        match parameter {
            TimeParameter::Duration => {
                if !(0 <= value && value <= VALUE_LIMIT) {
                    return Err(EPANETError::new(202));
                }
                self.duration = value;
            },
            TimeParameter::HydStep => {
                if !(1 <= value && value <= VALUE_LIMIT) {
                    return Err(EPANETError::new(202));
                }
                self.hyd_step = value;
            },
            TimeParameter::QualStep => {
                if !(1 <= value && value <= VALUE_LIMIT) {
                    return Err(EPANETError::new(202));
                }
                self.qual_step = value;
            },
            _ => {
                return Err(EPANETError::new(251));
            },
        }
        Ok(())
    }
}

} // verus!
