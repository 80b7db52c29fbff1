//! What a database backend can do: the capabilities of each connector, and
//! the permissive combination of several connectors.

use vstd::prelude::*;

verus! {

/// A feature that a backend may or may not support.
#[derive(Clone, Copy, Debug, PartialEq, Eq, Structural)]
pub enum ConnectorCapability {
    ScalarLists,
    RelationsOverNonUniqueCriteria,
    MultipleIndexesWithSameName,
    Enums,
    Json,
    AutoIncrementAllowedOnNonId,
    AutoIncrementMultipleAllowed,
    AutoIncrementNonIndexedAllowed,
}

/// The capability descriptor of one backend.
#[derive(Clone, Copy, Debug, PartialEq, Eq, Structural)]
pub enum Connector {
    MySql,
    Postgres,
    Sqlite,
    MsSql,
}

impl Connector {
    /// Whether the backend supports `capability`.
    pub open spec fn supports(self, capability: ConnectorCapability) -> bool {
        match self {
            Connector::MySql => {
                capability == ConnectorCapability::RelationsOverNonUniqueCriteria || capability
                    == ConnectorCapability::Enums || capability == ConnectorCapability::Json
                    || capability == ConnectorCapability::MultipleIndexesWithSameName || capability
                    == ConnectorCapability::AutoIncrementAllowedOnNonId
            },
            Connector::Postgres => {
                capability == ConnectorCapability::ScalarLists || capability
                    == ConnectorCapability::Enums || capability == ConnectorCapability::Json
                    || capability == ConnectorCapability::AutoIncrementMultipleAllowed || capability
                    == ConnectorCapability::AutoIncrementAllowedOnNonId || capability
                    == ConnectorCapability::AutoIncrementNonIndexedAllowed
            },
            Connector::Sqlite => false,
            Connector::MsSql => {
                capability == ConnectorCapability::AutoIncrementAllowedOnNonId || capability
                    == ConnectorCapability::AutoIncrementMultipleAllowed || capability
                    == ConnectorCapability::AutoIncrementNonIndexedAllowed
            },
        }
    }

    /// The capabilities of the backend, in a fixed order and without
    /// repetition.
    pub open spec fn capability_list(self) -> Seq<ConnectorCapability> {
        match self {
            Connector::MySql => seq![
                ConnectorCapability::RelationsOverNonUniqueCriteria,
                ConnectorCapability::Enums,
                ConnectorCapability::Json,
                ConnectorCapability::MultipleIndexesWithSameName,
                ConnectorCapability::AutoIncrementAllowedOnNonId,
            ],
            Connector::Postgres => seq![
                ConnectorCapability::ScalarLists,
                ConnectorCapability::Enums,
                ConnectorCapability::Json,
                ConnectorCapability::AutoIncrementMultipleAllowed,
                ConnectorCapability::AutoIncrementAllowedOnNonId,
                ConnectorCapability::AutoIncrementNonIndexedAllowed,
            ],
            Connector::Sqlite => seq![],
            Connector::MsSql => seq![
                ConnectorCapability::AutoIncrementAllowedOnNonId,
                ConnectorCapability::AutoIncrementMultipleAllowed,
                ConnectorCapability::AutoIncrementNonIndexedAllowed,
            ],
        }
    }

    pub fn has_capability(&self, capability: ConnectorCapability) -> (supported: bool)
        ensures
            supported == self.supports(capability),
    {
        match self {
            Connector::MySql => {
                capability == ConnectorCapability::RelationsOverNonUniqueCriteria || capability
                    == ConnectorCapability::Enums || capability == ConnectorCapability::Json
                    || capability == ConnectorCapability::MultipleIndexesWithSameName || capability
                    == ConnectorCapability::AutoIncrementAllowedOnNonId
            },
            Connector::Postgres => {
                capability == ConnectorCapability::ScalarLists || capability
                    == ConnectorCapability::Enums || capability == ConnectorCapability::Json
                    || capability == ConnectorCapability::AutoIncrementMultipleAllowed || capability
                    == ConnectorCapability::AutoIncrementAllowedOnNonId || capability
                    == ConnectorCapability::AutoIncrementNonIndexedAllowed
            },
            Connector::Sqlite => false,
            Connector::MsSql => {
                capability == ConnectorCapability::AutoIncrementAllowedOnNonId || capability
                    == ConnectorCapability::AutoIncrementMultipleAllowed || capability
                    == ConnectorCapability::AutoIncrementNonIndexedAllowed
            },
        }
    }

    /// The capabilities of the backend: exactly those that it supports.
    pub fn capabilities(&self) -> (list: Vec<ConnectorCapability>)
        ensures
            list@ == self.capability_list(),
            forall|capability: ConnectorCapability|
                list@.contains(capability) <==> self.supports(capability),
    {
        let mut list: Vec<ConnectorCapability> = Vec::new();
        match self {
            Connector::MySql => {
                list.push(ConnectorCapability::RelationsOverNonUniqueCriteria);
                list.push(ConnectorCapability::Enums);
                list.push(ConnectorCapability::Json);
                list.push(ConnectorCapability::MultipleIndexesWithSameName);
                list.push(ConnectorCapability::AutoIncrementAllowedOnNonId);
            },
            Connector::Postgres => {
                list.push(ConnectorCapability::ScalarLists);
                list.push(ConnectorCapability::Enums);
                list.push(ConnectorCapability::Json);
                list.push(ConnectorCapability::AutoIncrementMultipleAllowed);
                list.push(ConnectorCapability::AutoIncrementAllowedOnNonId);
                list.push(ConnectorCapability::AutoIncrementNonIndexedAllowed);
            },
            Connector::Sqlite => {},
            Connector::MsSql => {
                list.push(ConnectorCapability::AutoIncrementAllowedOnNonId);
                list.push(ConnectorCapability::AutoIncrementMultipleAllowed);
                list.push(ConnectorCapability::AutoIncrementNonIndexedAllowed);
            },
        }
        proof {
            assert(list@ =~= self.capability_list());
            capability_list_is_exact(*self);
        }
        list
    }
}

/// The list of a connector's capabilities holds exactly what it supports.
pub proof fn capability_list_is_exact(connector: Connector)
    ensures
        forall|capability: ConnectorCapability|
            connector.capability_list().contains(capability) <==> connector.supports(capability),
{
    let list = connector.capability_list();
    assert forall|capability: ConnectorCapability|
        list.contains(capability) <==> connector.supports(capability) by {
        if connector.supports(capability) {
            match connector {
                Connector::MySql => {
                    assert(list[0] == ConnectorCapability::RelationsOverNonUniqueCriteria);
                    assert(list[1] == ConnectorCapability::Enums);
                    assert(list[2] == ConnectorCapability::Json);
                    assert(list[3] == ConnectorCapability::MultipleIndexesWithSameName);
                    assert(list[4] == ConnectorCapability::AutoIncrementAllowedOnNonId);
                },
                Connector::Postgres => {
                    assert(list[0] == ConnectorCapability::ScalarLists);
                    assert(list[1] == ConnectorCapability::Enums);
                    assert(list[2] == ConnectorCapability::Json);
                    assert(list[3] == ConnectorCapability::AutoIncrementMultipleAllowed);
                    assert(list[4] == ConnectorCapability::AutoIncrementAllowedOnNonId);
                    assert(list[5] == ConnectorCapability::AutoIncrementNonIndexedAllowed);
                },
                Connector::Sqlite => {},
                Connector::MsSql => {
                    assert(list[0] == ConnectorCapability::AutoIncrementAllowedOnNonId);
                    assert(list[1] == ConnectorCapability::AutoIncrementMultipleAllowed);
                    assert(list[2] == ConnectorCapability::AutoIncrementNonIndexedAllowed);
                },
            }
        }
    }
}

/// Whether one of `connectors` supports `capability`.
pub open spec fn any_supports(connectors: Seq<Connector>, capability: ConnectorCapability) -> bool {
    exists|i: int| 0 <= i < connectors.len() && (#[trigger] connectors[i]).supports(capability)
}

/// Several connectors taken as one. A capability counts as supported as soon
/// as one of the connectors supports it.
#[derive(Clone, Debug, PartialEq, Eq)]
pub struct CombinedConnector {
    pub connectors: Vec<Connector>,
}

impl View for CombinedConnector {
    type V = Seq<Connector>;

    open spec fn view(&self) -> Seq<Connector> {
        self.connectors@
    }
}

impl CombinedConnector {
    pub fn new(connectors: Vec<Connector>) -> (combined: CombinedConnector)
        ensures
            combined@ == connectors@,
    {
        CombinedConnector { connectors }
    }

    pub fn has_capability(&self, capability: ConnectorCapability) -> (supported: bool)
        ensures
            supported == any_supports(self@, capability),
    {
        let mut i: usize = 0;
        while i < self.connectors.len()
            invariant
                i <= self.connectors.len(),
                forall|j: int| 0 <= j < i ==> !(#[trigger] self.connectors@[j]).supports(capability),
            decreases self.connectors.len() - i,
        {
            if self.connectors[i].has_capability(capability) {
                return true;
            }
            i = i + 1;
        }
        false
    }
}

/// A combination supports whatever one of its parts supports, also after
/// more connectors are added to it.
pub proof fn combination_is_permissive(
    first: Seq<Connector>,
    second: Seq<Connector>,
    capability: ConnectorCapability,
)
    ensures
        any_supports(first + second, capability) <==> any_supports(first, capability)
            || any_supports(second, capability),
{
    let both = first + second;
    if any_supports(first, capability) {
        let i = choose|i: int| 0 <= i < first.len() && (#[trigger] first[i]).supports(capability);
        assert(both[i].supports(capability));
    }
    if any_supports(second, capability) {
        let i = choose|i: int| 0 <= i < second.len() && (#[trigger] second[i]).supports(capability);
        assert(both[first.len() + i].supports(capability));
    }
    if any_supports(both, capability) {
        let i = choose|i: int| 0 <= i < both.len() && (#[trigger] both[i]).supports(capability);
        if i < first.len() {
            assert(first[i].supports(capability));
        } else {
            assert(second[i - first.len()].supports(capability));
        }
    }
}

} // verus!
