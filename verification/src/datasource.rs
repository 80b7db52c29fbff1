//! A validated datasource: what is left of a datasource block once every
//! rule has been checked.

use crate::connector::{CombinedConnector, Connector, ConnectorCapability};
use crate::diagnostics::DatamodelWarning;
use vstd::prelude::*;

verus! {

/// A string together with the name of the environment variable that it was
/// read from, if it was read from one.
#[derive(Clone, Debug, PartialEq, Eq)]
pub struct StringFromEnvVar {
    pub from_env_var: Option<String>,
    pub value: String,
}

/// The mathematical value of a [`StringFromEnvVar`].
pub struct StringFromEnvVarView {
    pub from_env_var: Option<Seq<char>>,
    pub value: Seq<char>,
}

impl DeepView for StringFromEnvVar {
    type V = StringFromEnvVarView;

    open spec fn deep_view(&self) -> StringFromEnvVarView {
        StringFromEnvVarView { from_env_var: self.from_env_var.deep_view(), value: self.value@ }
    }
}

impl View for StringFromEnvVar {
    type V = StringFromEnvVarView;

    open spec fn view(&self) -> StringFromEnvVarView {
        self.deep_view()
    }
}

/// One validated, named database connection target.
#[derive(Clone, Debug, PartialEq, Eq)]
pub struct Datasource {
    /// The name of the block.
    pub name: String,
    /// The provider names as they were declared.
    pub provider: Vec<String>,
    /// The canonical name of the one provider that is in use.
    pub active_provider: String,
    /// Where the database is. Never empty.
    pub url: StringFromEnvVar,
    /// Where the shadow database is, if one was declared. Never empty.
    pub shadow_database_url: Option<StringFromEnvVar>,
    /// The documentation comment of the block.
    pub documentation: Option<String>,
    /// The connectors of all declared providers that are known.
    pub combined_connector: CombinedConnector,
    /// The connector of the provider that is in use.
    pub active_connector: Connector,
}

/// The mathematical value of a [`Datasource`].
pub struct DatasourceView {
    pub name: Seq<char>,
    pub provider: Seq<Seq<char>>,
    pub active_provider: Seq<char>,
    pub url: StringFromEnvVarView,
    pub shadow_database_url: Option<StringFromEnvVarView>,
    pub documentation: Option<Seq<char>>,
    pub combined_connector: Seq<Connector>,
    pub active_connector: Connector,
}

impl DatasourceView {
    /// What holds of every datasource that validation lets through: it has a
    /// provider in use, its URLs are not empty, and the connector in use is
    /// one of the combined ones.
    pub open spec fn well_formed(self) -> bool {
        &&& self.provider.len() > 0
        &&& self.active_provider.len() > 0
        &&& self.url.value.len() > 0
        &&& (self.shadow_database_url matches Some(shadow) ==> shadow.value.len() > 0)
        &&& self.combined_connector.contains(self.active_connector)
    }
}

impl DeepView for Datasource {
    type V = DatasourceView;

    open spec fn deep_view(&self) -> DatasourceView {
        DatasourceView {
            name: self.name@,
            provider: self.provider.deep_view(),
            active_provider: self.active_provider@,
            url: self.url@,
            shadow_database_url: self.shadow_database_url.deep_view(),
            documentation: self.documentation.deep_view(),
            combined_connector: self.combined_connector@,
            active_connector: self.active_connector,
        }
    }
}

impl View for Datasource {
    type V = DatasourceView;

    open spec fn view(&self) -> DatasourceView {
        self.deep_view()
    }
}

impl Datasource {
    /// The capabilities of the connector that is in use.
    pub fn capabilities(&self) -> (list: Vec<ConnectorCapability>)
        ensures
            list@ == self@.active_connector.capability_list(),
    {
        self.active_connector.capabilities()
    }
}

/// A datasource that passed validation, with the warnings found on the way.
#[derive(Debug, PartialEq, Eq)]
pub struct ValidatedDatasource {
    pub subject: Datasource,
    pub warnings: Vec<DatamodelWarning>,
}

/// The mathematical value of a [`ValidatedDatasource`].
pub struct ValidatedDatasourceView {
    pub subject: DatasourceView,
    pub warnings: Seq<DatamodelWarning>,
}

impl View for ValidatedDatasource {
    type V = ValidatedDatasourceView;

    open spec fn view(&self) -> ValidatedDatasourceView {
        ValidatedDatasourceView { subject: self.subject@, warnings: self.warnings@ }
    }
}

/// The datasources of a schema that passed validation, with the warnings
/// found on the way.
#[derive(Debug, PartialEq, Eq)]
pub struct ValidatedDatasources {
    pub subject: Vec<Datasource>,
    pub warnings: Vec<DatamodelWarning>,
}

/// The mathematical value of a [`ValidatedDatasources`].
pub struct ValidatedDatasourcesView {
    pub subject: Seq<DatasourceView>,
    pub warnings: Seq<DatamodelWarning>,
}

impl View for ValidatedDatasources {
    type V = ValidatedDatasourcesView;

    open spec fn view(&self) -> ValidatedDatasourcesView {
        ValidatedDatasourcesView {
            subject: self.subject.deep_view(),
            warnings: self.warnings@,
        }
    }
}

} // verus!
