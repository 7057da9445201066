//! Typed read and write access to network elements: ID resolution, element
//! counts, and element creation.
//!
//! Structural changes (adding or deleting elements) are rejected while
//! either solver holds a workspace.

use vstd::prelude::*;
use crate::enums::CountType;
use crate::enums::LinkStatusType;
use crate::enums::LinkType;
use crate::enums::NodeType;
use crate::errors::EPANETError;
use crate::model::EPANET;
use crate::model::INDEX_LIMIT;
use crate::model::LinkModel;
use crate::model::LinkRec;
use crate::model::NodeModel;
use crate::model::NodeRec;
use crate::model::SolverState;

verus! {

/// Whether some node already carries the given identifier.
pub open spec fn spec_node_id_taken(nodes: Seq<NodeModel>, id: Seq<char>) -> bool {
    exists|i: int| 0 <= i < nodes.len() && nodes[i].id == id
}

/// Whether some link already carries the given identifier.
pub open spec fn spec_link_id_taken(links: Seq<LinkModel>, id: Seq<char>) -> bool {
    exists|i: int| 0 <= i < links.len() && links[i].id == id
}

/// The node created by [`EPANET::add_node`]: every quantity starts at zero.
pub open spec fn spec_new_node(id: Seq<char>, node_type: NodeType) -> NodeModel {
    NodeModel {
        id: id,
        node_type: node_type,
        elevation: 0,
        base_demand: 0,
        init_qual: 0,
        quality: 0,
        init_level: 0,
        level: 0,
        min_level: 0,
        max_level: 0,
    }
}

/// The link created by [`EPANET::add_link`]: open, with zero setting.
pub open spec fn spec_new_link(id: Seq<char>, link_type: LinkType, n1: i32, n2: i32) -> LinkModel {
    LinkModel {
        id: id,
        link_type: link_type,
        node1: n1,
        node2: n2,
        init_status: LinkStatusType::Open,
        init_setting: 0,
        status: LinkStatusType::Open,
        setting: 0,
        flow: 0,
    }
}

/// Number of tank and reservoir nodes.
pub open spec fn spec_tank_count(nodes: Seq<NodeModel>) -> int
    decreases nodes.len(),
{
    if nodes.len() == 0 {
        0
    } else {
        spec_tank_count(nodes.drop_last()) + if nodes.last().node_type == NodeType::Junction {
            0int
        } else {
            1int
        }
    }
}

/// The count reported for each count type.
pub open spec fn spec_count(p: EPANET, count_type: CountType) -> int {
    match count_type {
        CountType::NodeCount => p.nodes_m().len() as int,
        CountType::TankCount => spec_tank_count(p.nodes_m()),
        CountType::LinkCount => p.links_m().len() as int,
        CountType::PatternCount => 0,
        CountType::CurveCount => 0,
        CountType::ControlCount => p.controls_m().len() as int,
        CountType::RuleCount => p.rules_m().len() as int,
    }
}

impl EPANET {
    /// Retrieves the 1-based index of the first node carrying the given ID.
    ///
    /// Fails with code 203 (undefined node) when no node carries it.
    pub fn get_node_index(&self, id: &str) -> (r: Result<i32, EPANETError>)
        requires
            self.wf(),
        ensures
            match r {
                Ok(idx) => {
                    &&& 1 <= idx <= self.nodes_m().len()
                    &&& self.nodes_m()[idx as int - 1].id == id@
                    &&& forall|j: int| 0 <= j < idx as int - 1 ==> self.nodes_m()[j].id != id@
                },
                Err(e) => e.code == 203 && !spec_node_id_taken(self.nodes_m(), id@),
            },
    {
        let key: String = id.to_owned();
        let n = self.nodes.len();
        let mut i: usize = 0;
        while i < n
            invariant
                self.wf(),
                n == self.nodes@.len(),
                i <= n,
                key@ == id@,
                forall|j: int| 0 <= j < i ==> self.nodes_m()[j].id != id@,
            decreases n - i,
        {
            if self.nodes[i].id == key {
                assert(self.nodes_m()[i as int].id == id@);
                return Ok((i + 1) as i32);
            }
            assert(self.nodes_m()[i as int].id == self.nodes@[i as int].id@);
            i = i + 1;
        }
        Err(EPANETError::new(203))
    }

    /// Retrieves the 1-based index of the first link carrying the given ID.
    ///
    /// Fails with code 204 (undefined link) when no link carries it.
    pub fn get_link_index(&self, id: &str) -> (r: Result<i32, EPANETError>)
        requires
            self.wf(),
        ensures
            match r {
                Ok(idx) => {
                    &&& 1 <= idx <= self.links_m().len()
                    &&& self.links_m()[idx as int - 1].id == id@
                    &&& forall|j: int| 0 <= j < idx as int - 1 ==> self.links_m()[j].id != id@
                },
                Err(e) => e.code == 204 && !spec_link_id_taken(self.links_m(), id@),
            },
    {
        let key: String = id.to_owned();
        let n = self.links.len();
        let mut i: usize = 0;
        while i < n
            invariant
                self.wf(),
                n == self.links@.len(),
                i <= n,
                key@ == id@,
                forall|j: int| 0 <= j < i ==> self.links_m()[j].id != id@,
            decreases n - i,
        {
            if self.links[i].id == key {
                assert(self.links_m()[i as int].id == id@);
                return Ok((i + 1) as i32);
            }
            assert(self.links_m()[i as int].id == self.links@[i as int].id@);
            i = i + 1;
        }
        Err(EPANETError::new(204))
    }

    /// Retrieves the ID of the node at the given 1-based index.
    ///
    /// Fails with code 203 (undefined node) when the index is out of range.
    pub fn get_node_id(&self, index: i32) -> (r: Result<String, EPANETError>)
        requires
            self.wf(),
        ensures
            match r {
                Ok(s) => 1 <= index <= self.nodes_m().len() && s@ == self.nodes_m()[index as int - 1].id,
                Err(e) => e.code == 203 && !(1 <= index <= self.nodes_m().len()),
            },
    {
        if index < 1 || index as usize > self.nodes.len() {
            return Err(EPANETError::new(203));
        }
        Ok(self.nodes[(index - 1) as usize].id.clone())
    }

    /// Retrieves the ID of the link at the given 1-based index.
    ///
    /// Fails with code 204 (undefined link) when the index is out of range.
    pub fn get_link_id(&self, index: i32) -> (r: Result<String, EPANETError>)
        requires
            self.wf(),
        ensures
            match r {
                Ok(s) => 1 <= index <= self.links_m().len() && s@ == self.links_m()[index as int - 1].id,
                Err(e) => e.code == 204 && !(1 <= index <= self.links_m().len()),
            },
    {
        if index < 1 || index as usize > self.links.len() {
            return Err(EPANETError::new(204));
        }
        Ok(self.links[(index - 1) as usize].id.clone())
    }

    /// Retrieves the type of the node at the given 1-based index.
    ///
    /// Fails with code 203 (undefined node) when the index is out of range.
    pub fn get_node_type(&self, index: i32) -> (r: Result<NodeType, EPANETError>)
        requires
            self.wf(),
        ensures
            match r {
                Ok(t) => 1 <= index <= self.nodes_m().len() && t == self.nodes_m()[index as int - 1].node_type,
                Err(e) => e.code == 203 && !(1 <= index <= self.nodes_m().len()),
            },
    {
        if index < 1 || index as usize > self.nodes.len() {
            return Err(EPANETError::new(203));
        }
        Ok(self.nodes[(index - 1) as usize].node_type)
    }

    /// Retrieves the type of the link at the given 1-based index.
    ///
    /// Fails with code 204 (undefined link) when the index is out of range.
    pub fn get_link_type(&self, index: i32) -> (r: Result<LinkType, EPANETError>)
        requires
            self.wf(),
        ensures
            match r {
                Ok(t) => 1 <= index <= self.links_m().len() && t == self.links_m()[index as int - 1].link_type,
                Err(e) => e.code == 204 && !(1 <= index <= self.links_m().len()),
            },
    {
        if index < 1 || index as usize > self.links.len() {
            return Err(EPANETError::new(204));
        }
        Ok(self.links[(index - 1) as usize].link_type)
    }

    /// Retrieves the 1-based indices of the end nodes of a link.
    ///
    /// Fails with code 204 (undefined link) when the index is out of range.
    pub fn get_link_nodes(&self, index: i32) -> (r: Result<(i32, i32), EPANETError>)
        requires
            self.wf(),
        ensures
            match r {
                Ok(p) => {
                    &&& 1 <= index <= self.links_m().len()
                    &&& p.0 == self.links_m()[index as int - 1].node1
                    &&& p.1 == self.links_m()[index as int - 1].node2
                },
                Err(e) => e.code == 204 && !(1 <= index <= self.links_m().len()),
            },
    {
        if index < 1 || index as usize > self.links.len() {
            return Err(EPANETError::new(204));
        }
        let l = &self.links[(index - 1) as usize];
        Ok((l.node1, l.node2))
    }

    /// Returns the number of objects of the given type in the project.
    pub fn get_count(&self, count_type: CountType) -> (r: Result<i32, EPANETError>)
        requires
            self.wf(),
        ensures
            r is Ok,
            r->Ok_0 == spec_count(*self, count_type),
    {
        match count_type {
            CountType::NodeCount => Ok(self.nodes.len() as i32),
            CountType::TankCount => {
                let n = self.nodes.len();
                let mut count: usize = 0;
                let mut i: usize = 0;
                while i < n
                    invariant
                        self.wf(),
                        n == self.nodes@.len(),
                        i <= n,
                        count <= i,
                        count == spec_tank_count(self.nodes_m().take(i as int)),
                    decreases n - i,
                {
                    let is_junction = match self.nodes[i].node_type {
                        NodeType::Junction => true,
                        _ => false,
                    };
                    proof {
                        assert(self.nodes_m().take(i as int + 1).drop_last() =~= self.nodes_m()
                            .take(i as int));
                        assert(self.nodes_m().take(i as int + 1).last() == self.nodes_m()[i as int]);
                    }
                    if !is_junction {
                        count = count + 1;
                    }
                    i = i + 1;
                }
                proof {
                    assert(self.nodes_m().take(n as int) =~= self.nodes_m());
                }
                Ok(count as i32)
            },
            CountType::LinkCount => Ok(self.links.len() as i32),
            CountType::PatternCount => Ok(0),
            CountType::CurveCount => Ok(0),
            CountType::ControlCount => Ok(self.controls.len() as i32),
            CountType::RuleCount => Ok(self.rules.len() as i32),
        }
    }

    /// Adds a node with the given unique ID, returning its 1-based index.
    ///
    /// Fails with code 262 while a solver is open, and with code 215
    /// (duplicate ID) when a node with this ID already exists.
    pub fn add_node(&mut self, id: &str, node_type: NodeType) -> (r: Result<i32, EPANETError>)
        requires
            old(self).wf(),
        ensures
            final(self).wf(),
            final(self).same_clock(*old(self)),
            final(self).links_m() == old(self).links_m(),
            final(self).controls_m() == old(self).controls_m(),
            final(self).rules_m() == old(self).rules_m(),
            match r {
                Ok(idx) => {
                    &&& !old(self).spec_solver_open()
                    &&& !spec_node_id_taken(old(self).nodes_m(), id@)
                    &&& old(self).nodes_m().len() < INDEX_LIMIT
                    &&& idx == old(self).nodes_m().len() + 1
                    &&& final(self).nodes_m() == old(self).nodes_m().push(
                        spec_new_node(id@, node_type),
                    )
                },
                Err(e) => {
                    &&& final(self).unchanged(*old(self))
                    &&& (e.code == 262 || e.code == 215 || e.code == 101)
                    &&& (e.code == 262 <==> old(self).spec_solver_open())
                    &&& (e.code == 215 ==> spec_node_id_taken(old(self).nodes_m(), id@))
                    &&& (e.code == 101 ==> old(self).nodes_m().len() >= INDEX_LIMIT)
                },
            },
    {
        if !matches!(self.hyd_state, SolverState::Closed)
            || !matches!(self.qual_state, SolverState::Closed) {
            return Err(EPANETError::new(262));
        }
        if self.get_node_index(id).is_ok() {
            return Err(EPANETError::new(215));
        }
        if self.nodes.len() >= INDEX_LIMIT {
            return Err(EPANETError::new(101));
        }
        let rec = NodeRec {
            id: id.to_owned(),
            node_type,
            elevation: 0,
            base_demand: 0,
            init_qual: 0,
            quality: 0,
            init_level: 0,
            level: 0,
            min_level: 0,
            max_level: 0,
        };
        self.nodes.push(rec);
        proof {
            assert(self.nodes_m() =~= old(self).nodes_m().push(spec_new_node(id@, node_type)));
            assert forall|i: int| 0 <= i < self.links_m().len() implies crate::model::link_wf(
                #[trigger] self.links_m()[i],
                self.nodes_m().len() as int,
            ) by {
                assert(crate::model::link_wf(old(self).links_m()[i], old(
                    self,
                ).nodes_m().len() as int));
            }
            assert forall|i: int| 0 <= i < self.controls_m().len() implies crate::model::control_wf(
                #[trigger] self.controls_m()[i],
                self.nodes_m().len() as int,
                self.links_m().len() as int,
            ) by {
                assert(crate::model::control_wf(
                    old(self).controls_m()[i],
                    old(self).nodes_m().len() as int,
                    old(self).links_m().len() as int,
                ));
            }
            assert forall|i: int| 0 <= i < self.rules_m().len() implies crate::model::rule_wf(
                #[trigger] self.rules_m()[i],
                self.nodes_m().len() as int,
                self.links_m().len() as int,
            ) by {
                assert(crate::model::rule_wf(
                    old(self).rules_m()[i],
                    old(self).nodes_m().len() as int,
                    old(self).links_m().len() as int,
                ));
            }
        }
        Ok(self.nodes.len() as i32)
    }

    /// Adds a link with the given unique ID between two existing nodes named
    /// by their IDs, returning the link's 1-based index.
    ///
    /// Fails with code 262 while a solver is open, code 215 (duplicate ID)
    /// when a link with this ID already exists, and code 203 (undefined
    /// node) when either end node ID is unknown.
    pub fn add_link(
        &mut self,
        id: &str,
        link_type: LinkType,
        from_node: &str,
        to_node: &str,
    ) -> (r: Result<i32, EPANETError>)
        requires
            old(self).wf(),
        ensures
            final(self).wf(),
            final(self).same_clock(*old(self)),
            final(self).nodes_m() == old(self).nodes_m(),
            final(self).controls_m() == old(self).controls_m(),
            final(self).rules_m() == old(self).rules_m(),
            match r {
                Ok(idx) => {
                    &&& !old(self).spec_solver_open()
                    &&& !spec_link_id_taken(old(self).links_m(), id@)
                    &&& spec_node_id_taken(old(self).nodes_m(), from_node@)
                    &&& spec_node_id_taken(old(self).nodes_m(), to_node@)
                    &&& old(self).links_m().len() < INDEX_LIMIT
                    &&& idx == old(self).links_m().len() + 1
                    &&& {
                        let l = final(self).links_m().last();
                        &&& final(self).links_m() == old(self).links_m().push(l)
                        &&& l == spec_new_link(id@, link_type, l.node1, l.node2)
                        &&& 1 <= l.node1 <= old(self).nodes_m().len()
                        &&& 1 <= l.node2 <= old(self).nodes_m().len()
                        &&& old(self).nodes_m()[l.node1 as int - 1].id == from_node@
                        &&& old(self).nodes_m()[l.node2 as int - 1].id == to_node@
                    }
                },
                Err(e) => {
                    &&& final(self).unchanged(*old(self))
                    &&& (e.code == 262 || e.code == 215 || e.code == 203 || e.code == 101)
                    &&& (e.code == 262 <==> old(self).spec_solver_open())
                    &&& (e.code == 215 ==> spec_link_id_taken(old(self).links_m(), id@))
                    &&& (e.code == 203 ==> !spec_node_id_taken(old(self).nodes_m(), from_node@)
                        || !spec_node_id_taken(old(self).nodes_m(), to_node@))
                    &&& (e.code == 101 ==> old(self).links_m().len() >= INDEX_LIMIT)
                },
            },
    {
        if !matches!(self.hyd_state, SolverState::Closed)
            || !matches!(self.qual_state, SolverState::Closed) {
            return Err(EPANETError::new(262));
        }
        if self.get_link_index(id).is_ok() {
            return Err(EPANETError::new(215));
        }
        let n1 = match self.get_node_index(from_node) {
            Ok(i) => i,
            Err(e) => {
                return Err(e);
            },
        };
        let n2 = match self.get_node_index(to_node) {
            Ok(i) => i,
            Err(e) => {
                return Err(e);
            },
        };
        if self.links.len() >= INDEX_LIMIT {
            return Err(EPANETError::new(101));
        }
        let rec = LinkRec {
            id: id.to_owned(),
            link_type,
            node1: n1,
            node2: n2,
            init_status: LinkStatusType::Open,
            init_setting: 0,
            status: LinkStatusType::Open,
            setting: 0,
            flow: 0,
        };
        self.links.push(rec);
        proof {
            assert(self.links_m() =~= old(self).links_m().push(
                spec_new_link(id@, link_type, n1, n2),
            ));
            assert forall|i: int| 0 <= i < self.controls_m().len() implies crate::model::control_wf(
                #[trigger] self.controls_m()[i],
                self.nodes_m().len() as int,
                self.links_m().len() as int,
            ) by {
                assert(crate::model::control_wf(
                    old(self).controls_m()[i],
                    old(self).nodes_m().len() as int,
                    old(self).links_m().len() as int,
                ));
            }
            assert forall|i: int| 0 <= i < self.rules_m().len() implies crate::model::rule_wf(
                #[trigger] self.rules_m()[i],
                self.nodes_m().len() as int,
                self.links_m().len() as int,
            ) by {
                assert(crate::model::rule_wf(
                    old(self).rules_m()[i],
                    old(self).nodes_m().len() as int,
                    old(self).links_m().len() as int,
                ));
            }
        }
        Ok(self.links.len() as i32)
    }

    /// Renames the node at the given 1-based index.
    ///
    /// Fails with code 203 (undefined node) when the index is out of range
    /// and code 215 (duplicate ID) when another node already carries the
    /// new ID.
    pub fn set_node_id(&mut self, index: i32, id: &str) -> (r: Result<(), EPANETError>)
        requires
            old(self).wf(),
        ensures
            final(self).wf(),
            final(self).same_clock(*old(self)),
            final(self).links_m() == old(self).links_m(),
            final(self).controls_m() == old(self).controls_m(),
            final(self).rules_m() == old(self).rules_m(),
            match r {
                Ok(()) => {
                    &&& 1 <= index <= old(self).nodes_m().len()
                    &&& final(self).nodes_m() == old(self).nodes_m().update(
                        index as int - 1,
                        (NodeModel { id: id@, ..old(self).nodes_m()[index as int - 1] }),
                    )
                },
                Err(e) => {
                    &&& final(self).unchanged(*old(self))
                    &&& (e.code == 203 <==> !(1 <= index <= old(self).nodes_m().len()))
                    &&& (e.code == 215 ==> spec_node_id_taken(old(self).nodes_m(), id@))
                    &&& (e.code == 203 || e.code == 215)
                },
            },
    {
        if index < 1 || index as usize > self.nodes.len() {
            return Err(EPANETError::new(203));
        }
        if self.get_node_index(id).is_ok() {
            return Err(EPANETError::new(215));
        }
        let i = (index - 1) as usize;
        self.nodes[i].id = id.to_owned();
        proof {
            assert(self.nodes_m()[index as int - 1] == self.nodes@[index as int - 1]@);
            assert(self.nodes_m() =~= old(self).nodes_m().update(
                index as int - 1,
                (NodeModel { id: id@, ..old(self).nodes_m()[index as int - 1] }),
            ));
            assert forall|q: int| 0 <= q < self.nodes_m().len() implies crate::model::node_wf(
                #[trigger] self.nodes_m()[q],
            ) by {
                assert(crate::model::node_wf(old(self).nodes_m()[q]));
            }
        }
        Ok(())
    }

    /// Renames the link at the given 1-based index.
    ///
    /// Fails with code 204 (undefined link) when the index is out of range
    /// and code 215 (duplicate ID) when another link already carries the
    /// new ID.
    pub fn set_link_id(&mut self, index: i32, id: &str) -> (r: Result<(), EPANETError>)
        requires
            old(self).wf(),
        ensures
            final(self).wf(),
            final(self).same_clock(*old(self)),
            final(self).nodes_m() == old(self).nodes_m(),
            final(self).controls_m() == old(self).controls_m(),
            final(self).rules_m() == old(self).rules_m(),
            match r {
                Ok(()) => {
                    &&& 1 <= index <= old(self).links_m().len()
                    &&& final(self).links_m() == old(self).links_m().update(
                        index as int - 1,
                        (LinkModel { id: id@, ..old(self).links_m()[index as int - 1] }),
                    )
                },
                Err(e) => {
                    &&& final(self).unchanged(*old(self))
                    &&& (e.code == 204 <==> !(1 <= index <= old(self).links_m().len()))
                    &&& (e.code == 215 ==> spec_link_id_taken(old(self).links_m(), id@))
                    &&& (e.code == 204 || e.code == 215)
                },
            },
    {
        if index < 1 || index as usize > self.links.len() {
            return Err(EPANETError::new(204));
        }
        if self.get_link_index(id).is_ok() {
            return Err(EPANETError::new(215));
        }
        let i = (index - 1) as usize;
        self.links[i].id = id.to_owned();
        proof {
            assert(self.links_m()[index as int - 1] == self.links@[index as int - 1]@);
            assert(self.links_m() =~= old(self).links_m().update(
                index as int - 1,
                (LinkModel { id: id@, ..old(self).links_m()[index as int - 1] }),
            ));
            assert forall|q: int| 0 <= q < self.links_m().len() implies crate::model::link_wf(
                #[trigger] self.links_m()[q],
                self.nodes_m().len() as int,
            ) by {
                assert(crate::model::link_wf(
                    old(self).links_m()[q],
                    old(self).nodes_m().len() as int,
                ));
            }
        }
        Ok(())
    }

    /// Reconnects the link at the given 1-based index to two existing
    /// nodes given by their 1-based indices.
    ///
    /// Fails with code 204 (undefined link) when the link index is out of
    /// range, code 203 (undefined node) when either node index is out of
    /// range, and code 262 while a solver is open.
    pub fn set_link_nodes(&mut self, index: i32, node1: i32, node2: i32) -> (r: Result<
        (),
        EPANETError,
    >)
        requires
            old(self).wf(),
        ensures
            final(self).wf(),
            final(self).same_clock(*old(self)),
            final(self).nodes_m() == old(self).nodes_m(),
            final(self).controls_m() == old(self).controls_m(),
            final(self).rules_m() == old(self).rules_m(),
            match r {
                Ok(()) => {
                    &&& !old(self).spec_solver_open()
                    &&& 1 <= index <= old(self).links_m().len()
                    &&& 1 <= node1 <= old(self).nodes_m().len()
                    &&& 1 <= node2 <= old(self).nodes_m().len()
                    &&& final(self).links_m() == old(self).links_m().update(
                        index as int - 1,
                        (LinkModel { node1, node2, ..old(self).links_m()[index as int - 1] }),
                    )
                },
                Err(e) => {
                    &&& final(self).unchanged(*old(self))
                    &&& (e.code == 262 <==> old(self).spec_solver_open())
                    &&& (e.code == 204 ==> !(1 <= index <= old(self).links_m().len()))
                    &&& (e.code == 203 ==> !(1 <= node1 <= old(self).nodes_m().len() && 1 <= node2
                        <= old(self).nodes_m().len()))
                    &&& (e.code == 262 || e.code == 204 || e.code == 203)
                },
            },
    {
        if !matches!(self.hyd_state, SolverState::Closed)
            || !matches!(self.qual_state, SolverState::Closed) {
            return Err(EPANETError::new(262));
        }
        if index < 1 || index as usize > self.links.len() {
            return Err(EPANETError::new(204));
        }
        if node1 < 1 || node1 as usize > self.nodes.len() || node2 < 1 || node2 as usize
            > self.nodes.len() {
            return Err(EPANETError::new(203));
        }
        let i = (index - 1) as usize;
        self.links[i].node1 = node1;
        self.links[i].node2 = node2;
        proof {
            assert(self.links_m()[index as int - 1] == self.links@[index as int - 1]@);
            assert(self.links_m() =~= old(self).links_m().update(
                index as int - 1,
                (LinkModel { node1, node2, ..old(self).links_m()[index as int - 1] }),
            ));
            assert forall|q: int| 0 <= q < self.links_m().len() implies crate::model::link_wf(
                #[trigger] self.links_m()[q],
                self.nodes_m().len() as int,
            ) by {
                assert(crate::model::link_wf(
                    old(self).links_m()[q],
                    old(self).nodes_m().len() as int,
                ));
            }
        }
        Ok(())
    }
}

} // verus!
