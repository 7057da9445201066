//! Simple controls: single-condition triggers acting on a single link.
//!
//! A control's core fields and its enabled flag are separate properties at
//! the engine level: [`EPANET::get_control_enabled`] and
//! [`EPANET::set_control_enabled`] access the flag on its own, while
//! [`EPANET::update_control`] is a composite that writes the core fields
//! and the flag together.

use vstd::prelude::*;
use crate::enums::ControlType;
use crate::errors::EPANETError;
use crate::model::Control;
use crate::model::ControlRec;
use crate::model::EPANET;
use crate::model::INDEX_LIMIT;
use crate::model::VALUE_LIMIT;
use crate::model::control_wf;
use crate::model::val_ok;

verus! {

/// The stored control built from the given fields: timer controls watch no
/// node, so their node index is normalized to zero.
pub open spec fn spec_control_rec(
    control_type: ControlType,
    link_index: i32,
    setting: i64,
    node_index: i32,
    level: i64,
    enabled: bool,
) -> ControlRec {
    ControlRec {
        control_type,
        link_index,
        setting,
        node_index: match control_type {
            ControlType::LowLevel | ControlType::HiLevel => node_index,
            ControlType::Timer | ControlType::TimeOfDay => 0,
        },
        level,
        enabled,
    }
}

/// The error code rejecting a control's fields against the element counts,
/// if any: 204 for a bad link index, 203 for a bad node index, 202 for an
/// out-of-range setting or level.
pub open spec fn spec_control_fields_error(
    c: ControlRec,
    n_nodes: int,
    n_links: int,
) -> Option<i32> {
    if !(1 <= c.link_index <= n_links) {
        Some(204)
    } else if match c.control_type {
        ControlType::LowLevel | ControlType::HiLevel => !(1 <= c.node_index <= n_nodes),
        ControlType::Timer | ControlType::TimeOfDay => c.node_index != 0,
    } {
        Some(203)
    } else if !val_ok(c.setting) || !val_ok(c.level) {
        Some(202)
    } else if match c.control_type {
        ControlType::Timer | ControlType::TimeOfDay => c.level < 0,
        ControlType::LowLevel | ControlType::HiLevel => false,
    } {
        Some(202)
    } else {
        None
    }
}

impl EPANET {
    /// Checks a control's fields, returning the rejecting code if any.
    fn check_control_fields(&self, c: &ControlRec) -> (r: Option<i32>)
        requires
            self.wf(),
        ensures
            r == spec_control_fields_error(
                *c,
                self.nodes_m().len() as int,
                self.links_m().len() as int,
            ),
            r is None ==> control_wf(*c, self.nodes_m().len() as int, self.links_m().len() as int),
    {
        if !(1 <= c.link_index && c.link_index as usize <= self.links.len()) {
            return Some(204);
        }
        let watches_node = matches!(c.control_type, ControlType::LowLevel | ControlType::HiLevel);
        if watches_node && !(1 <= c.node_index && c.node_index as usize <= self.nodes.len()) {
            return Some(203);
        }
        if !watches_node && c.node_index != 0 {
            return Some(203);
        }
        if c.setting < -VALUE_LIMIT || c.setting > VALUE_LIMIT || c.level < -VALUE_LIMIT
            || c.level > VALUE_LIMIT {
            return Some(202);
        }
        if !watches_node && c.level < 0 {
            return Some(202);
        }
        None
    }

    /// Adds a simple control, returning it together with its new 1-based
    /// index.
    ///
    /// The node index is ignored and stored as zero for timer controls.
    /// Fails with code 204 (undefined link), 203 (undefined node) or 202
    /// (illegal numeric value) when a field is invalid.
    pub fn add_control(
        &mut self,
        control_type: ControlType,
        link_index: i32,
        setting: i64,
        node_index: i32,
        level: i64,
        enabled: bool,
    ) -> (r: Result<Control, EPANETError>)
        requires
            old(self).wf(),
        ensures
            final(self).wf(),
            final(self).same_clock(*old(self)),
            final(self).nodes_m() == old(self).nodes_m(),
            final(self).links_m() == old(self).links_m(),
            final(self).rules_m() == old(self).rules_m(),
            ({
                let rec = spec_control_rec(
                    control_type,
                    link_index,
                    setting,
                    node_index,
                    level,
                    enabled,
                );
                match r {
                    Ok(c) => {
                        &&& spec_control_fields_error(
                            rec,
                            old(self).nodes_m().len() as int,
                            old(self).links_m().len() as int,
                        ) is None
                        &&& old(self).controls_m().len() < INDEX_LIMIT
                        &&& final(self).controls_m() == old(self).controls_m().push(rec)
                        &&& c.index == old(self).controls_m().len() + 1
                        &&& c.spec_rec() == rec
                    },
                    Err(e) => {
                        &&& final(self).unchanged(*old(self))
                        &&& (e.code == 101 ==> old(self).controls_m().len() >= INDEX_LIMIT)
                        &&& (e.code != 101 ==> spec_control_fields_error(
                            rec,
                            old(self).nodes_m().len() as int,
                            old(self).links_m().len() as int,
                        ) == Some(e.code))
                    },
                }
            }),
    {
        let rec = ControlRec {
            control_type,
            link_index,
            setting,
            node_index: if matches!(control_type, ControlType::LowLevel | ControlType::HiLevel) {
                node_index
            } else {
                0
            },
            level,
            enabled,
        };
        if let Some(code) = self.check_control_fields(&rec) {
            return Err(EPANETError::new(code));
        }
        if self.controls.len() >= INDEX_LIMIT {
            return Err(EPANETError::new(101));
        }
        self.controls.push(rec);
        let index = self.controls.len() as i32;
        proof {
            assert forall|i: int| 0 <= i < self.controls_m().len() implies control_wf(
                #[trigger] self.controls_m()[i],
                self.nodes_m().len() as int,
                self.links_m().len() as int,
            ) by {
                if i < old(self).controls_m().len() {
                    assert(control_wf(
                        old(self).controls_m()[i],
                        old(self).nodes_m().len() as int,
                        old(self).links_m().len() as int,
                    ));
                }
            }
        }
        Ok(
            Control {
                index,
                control_type: rec.control_type,
                link_index: rec.link_index,
                setting: rec.setting,
                node_index: rec.node_index,
                level: rec.level,
                enabled: rec.enabled,
            },
        )
    }

    /// Retrieves the control at the given 1-based index.
    ///
    /// Fails with code 241 (nonexistent control) when the index is out of
    /// range.
    pub fn get_control(&self, index: i32) -> (r: Result<Control, EPANETError>)
        requires
            self.wf(),
        ensures
            match r {
                Ok(c) => {
                    &&& 1 <= index <= self.controls_m().len()
                    &&& c.index == index
                    &&& c.spec_rec() == self.controls_m()[index as int - 1]
                },
                Err(e) => e.code == 241 && !(1 <= index <= self.controls_m().len()),
            },
    {
        if index < 1 || index as usize > self.controls.len() {
            return Err(EPANETError::new(241));
        }
        let rec = self.controls[(index - 1) as usize];
        Ok(
            Control {
                index,
                control_type: rec.control_type,
                link_index: rec.link_index,
                setting: rec.setting,
                node_index: rec.node_index,
                level: rec.level,
                enabled: rec.enabled,
            },
        )
    }

    /// Rewrites the stored control at `control.index` with the control's
    /// fields. The core fields and the enabled flag are distinct engine
    /// properties; this composite writes both together.
    ///
    /// Fails with code 241 (nonexistent control) when the index is out of
    /// range, and with the field validation codes of
    /// [`EPANET::add_control`].
    pub fn update_control(&mut self, control: &Control) -> (r: Result<(), EPANETError>)
        requires
            old(self).wf(),
        ensures
            final(self).wf(),
            final(self).same_clock(*old(self)),
            final(self).nodes_m() == old(self).nodes_m(),
            final(self).links_m() == old(self).links_m(),
            final(self).rules_m() == old(self).rules_m(),
            ({
                let rec = spec_control_rec(
                    control.control_type,
                    control.link_index,
                    control.setting,
                    control.node_index,
                    control.level,
                    control.enabled,
                );
                match r {
                    Ok(()) => {
                        &&& 1 <= control.index <= old(self).controls_m().len()
                        &&& spec_control_fields_error(
                            rec,
                            old(self).nodes_m().len() as int,
                            old(self).links_m().len() as int,
                        ) is None
                        &&& final(self).controls_m() == old(self).controls_m().update(
                            control.index as int - 1,
                            rec,
                        )
                    },
                    Err(e) => {
                        &&& final(self).unchanged(*old(self))
                        &&& (e.code == 241 <==> !(1 <= control.index <= old(
                            self,
                        ).controls_m().len()))
                        &&& (e.code != 241 ==> spec_control_fields_error(
                            rec,
                            old(self).nodes_m().len() as int,
                            old(self).links_m().len() as int,
                        ) == Some(e.code))
                    },
                }
            }),
    {
        if control.index < 1 || control.index as usize > self.controls.len() {
            return Err(EPANETError::new(241));
        }
        let rec = ControlRec {
            control_type: control.control_type,
            link_index: control.link_index,
            setting: control.setting,
            node_index: if matches!(
                control.control_type,
                ControlType::LowLevel | ControlType::HiLevel
            ) {
                control.node_index
            } else {
                0
            },
            level: control.level,
            enabled: control.enabled,
        };
        if let Some(code) = self.check_control_fields(&rec) {
            return Err(EPANETError::new(code));
        }
        let i = (control.index - 1) as usize;
        self.controls[i] = rec;
        proof {
            assert forall|j: int| 0 <= j < self.controls_m().len() implies control_wf(
                #[trigger] self.controls_m()[j],
                self.nodes_m().len() as int,
                self.links_m().len() as int,
            ) by {
                if j != i {
                    assert(control_wf(
                        old(self).controls_m()[j],
                        old(self).nodes_m().len() as int,
                        old(self).links_m().len() as int,
                    ));
                }
            }
        }
        Ok(())
    }

    /// Removes the control at the given 1-based index, shifting the indices
    /// of all later controls down by one.
    ///
    /// Fails with code 241 (nonexistent control) when the index is out of
    /// range.
    pub fn delete_control(&mut self, index: i32) -> (r: Result<(), EPANETError>)
        requires
            old(self).wf(),
        ensures
            final(self).wf(),
            final(self).same_clock(*old(self)),
            final(self).nodes_m() == old(self).nodes_m(),
            final(self).links_m() == old(self).links_m(),
            final(self).rules_m() == old(self).rules_m(),
            match r {
                Ok(()) => {
                    &&& 1 <= index <= old(self).controls_m().len()
                    &&& final(self).controls_m() == old(self).controls_m().remove(index as int - 1)
                },
                Err(e) => {
                    &&& final(self).unchanged(*old(self))
                    &&& e.code == 241
                    &&& !(1 <= index <= old(self).controls_m().len())
                },
            },
    {
        if index < 1 || index as usize > self.controls.len() {
            return Err(EPANETError::new(241));
        }
        self.controls.remove((index - 1) as usize);
        proof {
            assert forall|j: int| 0 <= j < self.controls_m().len() implies control_wf(
                #[trigger] self.controls_m()[j],
                self.nodes_m().len() as int,
                self.links_m().len() as int,
            ) by {
                if j < index as int - 1 {
                    assert(self.controls_m()[j] == old(self).controls_m()[j]);
                } else {
                    assert(self.controls_m()[j] == old(self).controls_m()[j + 1]);
                }
            }
        }
        Ok(())
    }

    /// Retrieves the enabled flag of the control at the given 1-based index.
    ///
    /// Fails with code 241 (nonexistent control) when the index is out of
    /// range.
    pub fn get_control_enabled(&self, index: i32) -> (r: Result<bool, EPANETError>)
        requires
            self.wf(),
        ensures
            match r {
                Ok(b) => 1 <= index <= self.controls_m().len() && b == self.controls_m()[
                    index as int - 1].enabled,
                Err(e) => e.code == 241 && !(1 <= index <= self.controls_m().len()),
            },
    {
        if index < 1 || index as usize > self.controls.len() {
            return Err(EPANETError::new(241));
        }
        Ok(self.controls[(index - 1) as usize].enabled)
    }

    /// Writes the enabled flag of the control at the given 1-based index,
    /// leaving the core fields untouched.
    ///
    /// Fails with code 241 (nonexistent control) when the index is out of
    /// range.
    pub fn set_control_enabled(&mut self, index: i32, enabled: bool) -> (r: Result<
        (),
        EPANETError,
    >)
        requires
            old(self).wf(),
        ensures
            final(self).wf(),
            final(self).same_clock(*old(self)),
            final(self).nodes_m() == old(self).nodes_m(),
            final(self).links_m() == old(self).links_m(),
            final(self).rules_m() == old(self).rules_m(),
            match r {
                Ok(()) => {
                    &&& 1 <= index <= old(self).controls_m().len()
                    &&& final(self).controls_m() == old(self).controls_m().update(
                        index as int - 1,
                        (ControlRec { enabled, ..old(self).controls_m()[index as int - 1] }),
                    )
                },
                Err(e) => {
                    &&& final(self).unchanged(*old(self))
                    &&& e.code == 241
                    &&& !(1 <= index <= old(self).controls_m().len())
                },
            },
    {
        if index < 1 || index as usize > self.controls.len() {
            return Err(EPANETError::new(241));
        }
        let i = (index - 1) as usize;
        self.controls[i].enabled = enabled;
        proof {
            assert forall|j: int| 0 <= j < self.controls_m().len() implies control_wf(
                #[trigger] self.controls_m()[j],
                self.nodes_m().len() as int,
                self.links_m().len() as int,
            ) by {
                if j != i {
                    assert(control_wf(
                        old(self).controls_m()[j],
                        old(self).nodes_m().len() as int,
                        old(self).links_m().len() as int,
                    ));
                } else {
                    assert(control_wf(
                        old(self).controls_m()[j],
                        old(self).nodes_m().len() as int,
                        old(self).links_m().len() as int,
                    ));
                }
            }
            assert(self.controls_m() =~= old(self).controls_m().update(
                index as int - 1,
                (ControlRec { enabled, ..old(self).controls_m()[index as int - 1] }),
            ));
        }
        Ok(())
    }
}

} // verus!
