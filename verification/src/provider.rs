//! The database backends that a datasource can name. Each one knows its
//! names, the shape of its URLs, and its connector.

use crate::connector::Connector;
use crate::datasource::StringFromEnvVar;
use crate::text::{same_text, starts_with};
use vstd::prelude::*;
use vstd::string::*;

verus! {

/// A database backend that a datasource can name.
#[derive(Clone, Copy, Debug, PartialEq, Eq, Structural)]
pub enum DatasourceProvider {
    MySql,
    Postgres,
    Sqlite,
    MsSql,
}

impl DatasourceProvider {
    /// Whether `name` is one of the provider's names.
    pub open spec fn recognizes(self, name: Seq<char>) -> bool {
        match self {
            DatasourceProvider::MySql => name == "mysql"@,
            DatasourceProvider::Postgres => name == "postgresql"@ || name == "postgres"@,
            DatasourceProvider::Sqlite => name == "sqlite"@,
            DatasourceProvider::MsSql => name == "sqlserver"@,
        }
    }

    /// The name under which the provider is recorded, whichever of its names
    /// was declared.
    pub open spec fn canonical(self) -> Seq<char> {
        match self {
            DatasourceProvider::MySql => "mysql"@,
            DatasourceProvider::Postgres => "postgresql"@,
            DatasourceProvider::Sqlite => "sqlite"@,
            DatasourceProvider::MsSql => "sqlserver"@,
        }
    }

    /// The protocol that the provider's URLs are expected to begin with.
    pub open spec fn protocol(self) -> Seq<char> {
        match self {
            DatasourceProvider::MySql => "mysql://"@,
            DatasourceProvider::Postgres => "postgresql://"@,
            DatasourceProvider::Sqlite => "file:"@,
            DatasourceProvider::MsSql => "sqlserver://"@,
        }
    }

    /// Whether `url` has the shape of one of the provider's URLs: it begins
    /// with the provider's protocol, or with one of its names followed by
    /// `://`.
    pub open spec fn accepts_url(self, url: Seq<char>) -> bool {
        match self {
            DatasourceProvider::MySql => "mysql://"@.is_prefix_of(url),
            DatasourceProvider::Postgres => "postgresql://"@.is_prefix_of(url)
                || "postgres://"@.is_prefix_of(url),
            DatasourceProvider::Sqlite => "file:"@.is_prefix_of(url) || "sqlite://"@.is_prefix_of(
                url,
            ),
            DatasourceProvider::MsSql => "sqlserver://"@.is_prefix_of(url),
        }
    }

    /// What the provider says of a URL that it does not accept.
    pub open spec fn url_rejection(self, source_name: Seq<char>) -> Seq<char> {
        "The URL for datasource `"@ + source_name + "` must start with the protocol `"@
            + self.protocol() + "`."@
    }

    /// The connector of the provider.
    pub open spec fn connector_of(self) -> Connector {
        match self {
            DatasourceProvider::MySql => Connector::MySql,
            DatasourceProvider::Postgres => Connector::Postgres,
            DatasourceProvider::Sqlite => Connector::Sqlite,
            DatasourceProvider::MsSql => Connector::MsSql,
        }
    }

    pub fn is_provider(&self, name: &str) -> (known: bool)
        ensures
            known == self.recognizes(name@),
    {
        match self {
            DatasourceProvider::MySql => same_text(name, "mysql"),
            DatasourceProvider::Postgres => same_text(name, "postgresql") || same_text(
                name,
                "postgres",
            ),
            DatasourceProvider::Sqlite => same_text(name, "sqlite"),
            DatasourceProvider::MsSql => same_text(name, "sqlserver"),
        }
    }

    pub fn canonical_name(&self) -> (name: &'static str)
        ensures
            name@ == self.canonical(),
    {
        match self {
            DatasourceProvider::MySql => "mysql",
            DatasourceProvider::Postgres => "postgresql",
            DatasourceProvider::Sqlite => "sqlite",
            DatasourceProvider::MsSql => "sqlserver",
        }
    }

    fn expected_protocol(&self) -> (protocol: &'static str)
        ensures
            protocol@ == self.protocol(),
    {
        match self {
            DatasourceProvider::MySql => "mysql://",
            DatasourceProvider::Postgres => "postgresql://",
            DatasourceProvider::Sqlite => "file:",
            DatasourceProvider::MsSql => "sqlserver://",
        }
    }

    /// Checks the shape of `url` for the datasource `source_name`, and says
    /// what is wrong with it where the provider does not accept it.
    pub fn can_handle_url(&self, source_name: &str, url: &StringFromEnvVar) -> (result: Result<
        (),
        String,
    >)
        ensures
            result is Ok <==> self.accepts_url(url.value@),
            result matches Err(message) ==> message@ == self.url_rejection(source_name@),
    {
        let value = url.value.as_str();
        let accepted = match self {
            DatasourceProvider::MySql => starts_with(value, "mysql://"),
            DatasourceProvider::Postgres => starts_with(value, "postgresql://") || starts_with(
                value,
                "postgres://",
            ),
            DatasourceProvider::Sqlite => starts_with(value, "file:") || starts_with(
                value,
                "sqlite://",
            ),
            DatasourceProvider::MsSql => starts_with(value, "sqlserver://"),
        };
        if accepted {
            Ok(())
        } else {
            let mut message = "The URL for datasource `".to_owned();
            message.append(source_name);
            message.append("` must start with the protocol `");
            message.append(self.expected_protocol());
            message.append("`.");
            Err(message)
        }
    }

    pub fn connector(&self) -> (connector: Connector)
        ensures
            connector == self.connector_of(),
    {
        match self {
            DatasourceProvider::MySql => Connector::MySql,
            DatasourceProvider::Postgres => Connector::Postgres,
            DatasourceProvider::Sqlite => Connector::Sqlite,
            DatasourceProvider::MsSql => Connector::MsSql,
        }
    }
}

/// The providers that every loader knows, in the order in which a name is
/// looked up.
pub open spec fn builtin_providers() -> Seq<DatasourceProvider> {
    seq![
        DatasourceProvider::MySql,
        DatasourceProvider::Postgres,
        DatasourceProvider::Sqlite,
        DatasourceProvider::MsSql,
    ]
}

/// The first provider in `registry`, from index `from` on, that recognizes
/// `name`.
pub open spec fn provider_for_from(
    registry: Seq<DatasourceProvider>,
    name: Seq<char>,
    from: int,
) -> Option<DatasourceProvider>
    decreases registry.len() - from,
{
    if from < 0 || from >= registry.len() {
        None
    } else if registry[from].recognizes(name) {
        Some(registry[from])
    } else {
        provider_for_from(registry, name, from + 1)
    }
}

/// The provider that `name` stands for: the first one in `registry` that
/// recognizes it.
pub open spec fn provider_for(registry: Seq<DatasourceProvider>, name: Seq<char>) -> Option<
    DatasourceProvider,
> {
    provider_for_from(registry, name, 0)
}

/// The providers that the declared names stand for, in the order of the
/// names. A name that no provider recognizes is passed over; a provider that
/// is named twice occurs twice.
pub open spec fn matched_providers(
    registry: Seq<DatasourceProvider>,
    names: Seq<Seq<char>>,
) -> Seq<DatasourceProvider>
    decreases names.len(),
{
    if names.len() == 0 {
        Seq::empty()
    } else {
        let before = matched_providers(registry, names.drop_last());
        match provider_for(registry, names.last()) {
            Some(provider) => before.push(provider),
            None => before,
        }
    }
}

/// The index of the first provider, from `from` on, that accepts `url`.
pub open spec fn first_accepting_from(
    providers: Seq<DatasourceProvider>,
    url: Seq<char>,
    from: int,
) -> Option<int>
    decreases providers.len() - from,
{
    if from < 0 || from >= providers.len() {
        None
    } else if providers[from].accepts_url(url) {
        Some(from)
    } else {
        first_accepting_from(providers, url, from + 1)
    }
}

/// The connectors of `providers`, in the same order.
pub open spec fn connectors_of(providers: Seq<DatasourceProvider>) -> Seq<Connector> {
    Seq::new(providers.len(), |i: int| providers[i].connector_of())
}

pub fn get_builtin_datasource_providers() -> (registry: Vec<DatasourceProvider>)
    ensures
        registry@ == builtin_providers(),
{
    let mut registry: Vec<DatasourceProvider> = Vec::new();
    registry.push(DatasourceProvider::MySql);
    registry.push(DatasourceProvider::Postgres);
    registry.push(DatasourceProvider::Sqlite);
    registry.push(DatasourceProvider::MsSql);
    assert(registry@ =~= builtin_providers());
    registry
}

/// The provider that `name` stands for in `registry`.
pub fn find_provider(registry: &Vec<DatasourceProvider>, name: &str) -> (found: Option<
    DatasourceProvider,
>)
    ensures
        found == provider_for(registry@, name@),
{
    let mut i: usize = 0;
    while i < registry.len()
        invariant
            i <= registry.len(),
            provider_for(registry@, name@) == provider_for_from(registry@, name@, i as int),
        decreases registry.len() - i,
    {
        if registry[i].is_provider(name) {
            return Some(registry[i]);
        }
        i = i + 1;
    }
    None
}

/// The providers that the declared names stand for in `registry`.
pub fn matching_providers(registry: &Vec<DatasourceProvider>, names: &Vec<String>) -> (matched: Vec<
    DatasourceProvider,
>)
    ensures
        matched@ == matched_providers(registry@, names.deep_view()),
{
    let mut matched: Vec<DatasourceProvider> = Vec::new();
    let mut i: usize = 0;
    while i < names.len()
        invariant
            i <= names.len(),
            matched@ == matched_providers(registry@, names.deep_view().take(i as int)),
        decreases names.len() - i,
    {
        proof {
            let next = names.deep_view().take(i + 1);
            assert(next.drop_last() =~= names.deep_view().take(i as int));
            assert(next.last() == names@[i as int]@);
        }
        match find_provider(registry, names[i].as_str()) {
            Some(provider) => {
                matched.push(provider);
            },
            None => {},
        }
        i = i + 1;
    }
    proof {
        assert(names.deep_view().take(names.len() as int) =~= names.deep_view());
    }
    matched
}

/// The first of `providers` that accepts `url`, or what the first of them
/// says against it where none does.
pub(crate) fn first_provider_for_url(
    providers: &Vec<DatasourceProvider>,
    source_name: &str,
    url: &StringFromEnvVar,
) -> (result: Result<DatasourceProvider, String>)
    requires
        providers.len() > 0,
    ensures
        match result {
            Ok(provider) => first_accepting_from(providers@, url.value@, 0) matches Some(i)
                && providers@[i] == provider,
            Err(message) => first_accepting_from(providers@, url.value@, 0) is None && message@
                == providers@[0].url_rejection(source_name@),
        },
{
    let first = providers[0].can_handle_url(source_name, url);
    match first {
        Ok(_) => Ok(providers[0]),
        Err(message) => {
            let mut i: usize = 1;
            while i < providers.len()
                invariant
                    1 <= i <= providers.len(),
                    first_accepting_from(providers@, url.value@, 0) == first_accepting_from(
                        providers@,
                        url.value@,
                        i as int,
                    ),
                decreases providers.len() - i,
            {
                if providers[i].can_handle_url(source_name, url).is_ok() {
                    return Ok(providers[i]);
                }
                i = i + 1;
            }
            Err(message)
        },
    }
}

/// The connectors of `providers`, in the same order.
pub fn connectors_for(providers: &Vec<DatasourceProvider>) -> (connectors: Vec<Connector>)
    ensures
        connectors@ == connectors_of(providers@),
{
    let mut connectors: Vec<Connector> = Vec::new();
    let mut i: usize = 0;
    while i < providers.len()
        invariant
            i <= providers.len(),
            connectors.len() == i,
            forall|j: int| 0 <= j < i ==> connectors@[j] == (#[trigger] providers@[j]).connector_of(),
        decreases providers.len() - i,
    {
        connectors.push(providers[i].connector());
        i = i + 1;
    }
    assert(connectors@ =~= connectors_of(providers@));
    connectors
}

/// A provider accepts the URL that is made of one of its names and `://`.
pub proof fn provider_accepts_its_placeholder(provider: DatasourceProvider, name: Seq<char>)
    requires
        provider.recognizes(name),
    ensures
        provider.accepts_url(name + "://"@),
{
    reveal_strlit("mysql");
    reveal_strlit("postgresql");
    reveal_strlit("postgres");
    reveal_strlit("sqlite");
    reveal_strlit("sqlserver");
    reveal_strlit("://");
    reveal_strlit("mysql://");
    reveal_strlit("postgresql://");
    reveal_strlit("postgres://");
    reveal_strlit("sqlite://");
    reveal_strlit("sqlserver://");
    let url = name + "://"@;
    match provider {
        DatasourceProvider::MySql => {
            assert(url =~= "mysql://"@);
        },
        DatasourceProvider::Postgres => {
            if name == "postgresql"@ {
                assert(url =~= "postgresql://"@);
            } else {
                assert(url =~= "postgres://"@);
            }
        },
        DatasourceProvider::Sqlite => {
            assert(url =~= "sqlite://"@);
        },
        DatasourceProvider::MsSql => {
            assert(url =~= "sqlserver://"@);
        },
    }
}

/// The canonical name of a provider is never empty, and the provider
/// recognizes it.
pub proof fn canonical_name_is_recognized(provider: DatasourceProvider)
    ensures
        provider.canonical().len() > 0,
        provider.recognizes(provider.canonical()),
{
    reveal_strlit("mysql");
    reveal_strlit("postgresql");
    reveal_strlit("sqlite");
    reveal_strlit("sqlserver");
}

} // verus!
