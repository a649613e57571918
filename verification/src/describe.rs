//! What the query description pipeline works on: the backends and their
//! URL schemes, the parsed database URL, what a connection answers when it
//! describes a query, and the descriptor that the answer comes to.

use crate::type_info::PgTypeInfo;
use url::Url;
use vstd::prelude::*;

verus! {

/// A database backend.
#[derive(Clone, Copy, Debug, PartialEq, Eq, Structural)]
pub enum Backend {
    Sqlite,
    Postgres,
    MySql,
}

/// The backends whose drivers the build holds.
#[derive(Clone, Copy, Debug)]
pub struct Drivers {
    pub sqlite: bool,
    pub postgres: bool,
    pub mysql: bool,
}

impl Drivers {
    /// Whether the build holds the driver of `backend`.
    pub open spec fn spec_has(&self, backend: Backend) -> bool {
        match backend {
            Backend::Sqlite => self.sqlite,
            Backend::Postgres => self.postgres,
            Backend::MySql => self.mysql,
        }
    }

    /// Whether the build holds the driver of `backend`.
    #[verifier::when_used_as_spec(spec_has)]
    pub fn has(&self, backend: Backend) -> (held: bool)
        ensures
            held == self.spec_has(backend),
    {
        match backend {
            Backend::Sqlite => self.sqlite,
            Backend::Postgres => self.postgres,
            Backend::MySql => self.mysql,
        }
    }
}

/// The backend that a URL scheme stands for: `sqlite`; `postgresql` or
/// `postgres`; `mysql` or `mariadb`. No other scheme stands for one.
pub open spec fn scheme_backend(scheme: Seq<char>) -> Option<Backend> {
    if scheme == "sqlite"@ {
        Some(Backend::Sqlite)
    } else if scheme == "postgresql"@ || scheme == "postgres"@ {
        Some(Backend::Postgres)
    } else if scheme == "mysql"@ || scheme == "mariadb"@ {
        Some(Backend::MySql)
    } else {
        None
    }
}

/// Whether two texts are the same.
fn same_text(a: &str, b: &str) -> (same: bool)
    ensures
        same == (a@ == b@),
{
    a.to_owned() == b.to_owned()
}

/// The backend that `scheme` stands for.
pub fn backend_for_scheme(scheme: &str) -> (backend: Option<Backend>)
    ensures
        backend == scheme_backend(scheme@),
{
    if same_text(scheme, "sqlite") {
        Some(Backend::Sqlite)
    } else if same_text(scheme, "postgresql") || same_text(scheme, "postgres") {
        Some(Backend::Postgres)
    } else if same_text(scheme, "mysql") || same_text(scheme, "mariadb") {
        Some(Backend::MySql)
    } else {
        None
    }
}

/// What the pipeline reads of a parsed database URL: its scheme, and the
/// text that the parser made of the whole.
#[derive(Clone, Debug)]
pub struct DatabaseUrl {
    pub scheme: String,
    pub text: String,
}

/// The error of url's parser, carried through and never looked into.
#[verifier::external_type_specification]
#[verifier::external_body]
pub struct ExUrlParseError(url::ParseError);

/// What the parser of url makes of a text: the scheme and the serialization
/// of the URL, or nothing where it refuses the text.
pub uninterp spec fn url_parsed(input: Seq<char>) -> Option<(Seq<char>, Seq<char>)>;

/// `Url::parse` of url, with `Url::scheme` and `Url::as_str` to read the
/// result. Believed, not proved: the outcome is a function of the text.
#[verifier::external_body]
pub(crate) fn parse_url(input: &str) -> (r: Result<DatabaseUrl, url::ParseError>)
    ensures
        match r {
            Ok(url) => url_parsed(input@) == Some((url.scheme@, url.text@)),
            Err(_) => url_parsed(input@) is None,
        },
{
    let url = Url::parse(input)?;
    Ok(DatabaseUrl { scheme: url.scheme().to_string(), text: url.as_str().to_string() })
}

/// Why the pipeline gave no descriptor.
#[derive(Clone, Debug)]
pub enum DescribeError {
    /// The text is no URL.
    InvalidUrl { url: String },
    /// No backend goes by the scheme of the URL.
    UnknownScheme { scheme: String, url: String },
    /// The scheme stands for a backend whose driver the build does not hold.
    BackendNotCompiled { scheme: String, backend: Backend, url: String },
    /// The connection could not be opened.
    ConnectionFailure { message: String },
    /// The connection could not describe the query.
    DescribeFailure { message: String },
    /// The catalog has no host type for the wire type of a result column.
    UnsupportedColumn { column: String, type_oid: u32 },
}

/// A [`DescribeError`] with its texts as sequences.
pub enum DescribeErrorView {
    InvalidUrl { url: Seq<char> },
    UnknownScheme { scheme: Seq<char>, url: Seq<char> },
    BackendNotCompiled { scheme: Seq<char>, backend: Backend, url: Seq<char> },
    ConnectionFailure { message: Seq<char> },
    DescribeFailure { message: Seq<char> },
    UnsupportedColumn { column: Seq<char>, type_oid: u32 },
}

impl View for DescribeError {
    type V = DescribeErrorView;

    open spec fn view(&self) -> DescribeErrorView {
        match *self {
            DescribeError::InvalidUrl { url } => DescribeErrorView::InvalidUrl { url: url@ },
            DescribeError::UnknownScheme { scheme, url } => DescribeErrorView::UnknownScheme {
                scheme: scheme@,
                url: url@,
            },
            DescribeError::BackendNotCompiled {
                scheme,
                backend,
                url,
            } => DescribeErrorView::BackendNotCompiled { scheme: scheme@, backend, url: url@ },
            DescribeError::ConnectionFailure { message } => DescribeErrorView::ConnectionFailure {
                message: message@,
            },
            DescribeError::DescribeFailure { message } => DescribeErrorView::DescribeFailure {
                message: message@,
            },
            DescribeError::UnsupportedColumn {
                column,
                type_oid,
            } => DescribeErrorView::UnsupportedColumn { column: column@, type_oid },
        }
    }
}

/// A result column as the connection describes it.
#[derive(Clone, Debug)]
pub struct Column {
    pub name: String,
    pub type_oid: u32,
}

/// What the connection answers when asked to describe a query: the wire type
/// of each parameter, where the server resolved it, and the result columns.
#[derive(Clone, Debug)]
pub struct Describe {
    pub param_types: Vec<Option<u32>>,
    pub columns: Vec<Column>,
}

/// The descriptor of a query: the host type of each parameter, where one is
/// known, and the name and the host type of each result column.
#[derive(Clone, Debug)]
pub struct QueryData {
    pub input_types: Vec<Option<String>>,
    pub outputs: Vec<(String, String)>,
}

/// A [`QueryData`] with its texts as sequences.
pub struct QueryDataView {
    pub input_types: Seq<Option<Seq<char>>>,
    pub outputs: Seq<(Seq<char>, Seq<char>)>,
}

impl View for QueryData {
    type V = QueryDataView;

    open spec fn view(&self) -> QueryDataView {
        QueryDataView {
            input_types: self.input_types.deep_view(),
            outputs: self.outputs.deep_view(),
        }
    }
}

/// The name of the host type for a wire type of `backend`. The catalog
/// lists wire types of Postgres only.
pub open spec fn host_type_for(backend: Backend, type_oid: u32) -> Option<Seq<char>> {
    if backend == Backend::Postgres {
        match PgTypeInfo::spec_from_oid(type_oid) {
            Some(info) => Some(info.spec_host_type()),
            None => None,
        }
    } else {
        None
    }
}

/// The host type of a parameter: none where the server did not resolve the
/// parameter, or where the catalog does not list its wire type.
pub open spec fn input_type_for(backend: Backend, param: Option<u32>) -> Option<Seq<char>> {
    match param {
        Some(type_oid) => host_type_for(backend, type_oid),
        None => None,
    }
}

/// The host types of all parameters, in order.
pub open spec fn input_types_for(backend: Backend, params: Seq<Option<u32>>) -> Seq<
    Option<Seq<char>>,
> {
    Seq::new(params.len(), |i: int| input_type_for(backend, params[i]))
}

/// The name and the host type of every column, in order; or the name and
/// the wire type of the first column whose wire type the catalog does not
/// list.
pub open spec fn outputs_for(backend: Backend, columns: Seq<Column>) -> Result<
    Seq<(Seq<char>, Seq<char>)>,
    (Seq<char>, u32),
>
    decreases columns.len(),
{
    if columns.len() == 0 {
        Ok(Seq::empty())
    } else {
        let last = columns.last();
        match outputs_for(backend, columns.drop_last()) {
            Err(first) => Err(first),
            Ok(before) => match host_type_for(backend, last.type_oid) {
                Some(host_type) => Ok(before.push((last.name@, host_type))),
                None => Err((last.name@, last.type_oid)),
            },
        }
    }
}

/// The descriptor that `describe` comes to for `backend`, or why it comes to
/// none.
pub open spec fn descriptor_for(backend: Backend, describe: Describe) -> Result<
    QueryDataView,
    DescribeErrorView,
> {
    match outputs_for(backend, describe.columns@) {
        Ok(outputs) => Ok(
            QueryDataView {
                input_types: input_types_for(backend, describe.param_types@),
                outputs,
            },
        ),
        Err((column, type_oid)) => Err(DescribeErrorView::UnsupportedColumn { column, type_oid }),
    }
}

/// The name of the host type for a wire type of `backend`.
pub fn host_type_name(backend: Backend, type_oid: u32) -> (name: Option<&'static str>)
    ensures
        match host_type_for(backend, type_oid) {
            Some(host_type) => name matches Some(text) && text@ == host_type,
            None => name is None,
        },
{
    match backend {
        Backend::Postgres => match PgTypeInfo::from_oid(type_oid) {
            Some(info) => Some(info.host_type()),
            None => None,
        },
        _ => None,
    }
}

/// The host type of each parameter, in order.
pub fn input_types(backend: Backend, params: &Vec<Option<u32>>) -> (names: Vec<Option<String>>)
    ensures
        names.deep_view() == input_types_for(backend, params@),
{
    let mut names: Vec<Option<String>> = Vec::new();
    let mut i: usize = 0;
    while i < params.len()
        invariant
            i <= params@.len(),
            names@.len() == i,
            forall|k: int|
                0 <= k < i ==> #[trigger] names@[k].deep_view() == input_type_for(
                    backend,
                    params@[k],
                ),
        decreases params@.len() - i,
    {
        let name = match params[i] {
            Some(type_oid) => match host_type_name(backend, type_oid) {
                Some(name) => Some(name.to_owned()),
                None => None,
            },
            None => None,
        };
        names.push(name);
        i += 1;
    }
    assert(names.deep_view() =~= input_types_for(backend, params@));
    names
}

/// The name and the host type of each column, in order, or the error that
/// names the first column without a host type.
pub fn outputs(backend: Backend, columns: &Vec<Column>) -> (r: Result<
    Vec<(String, String)>,
    DescribeError,
>)
    ensures
        match outputs_for(backend, columns@) {
            Ok(pairs) => r matches Ok(found) && found.deep_view() == pairs,
            Err((column, type_oid)) => r matches Err(error) && error@
                == (DescribeErrorView::UnsupportedColumn { column, type_oid }),
        },
{
    let mut pairs: Vec<(String, String)> = Vec::new();
    let mut i: usize = 0;
    assert(pairs.deep_view() =~= Seq::empty());
    assert(columns@.take(0).len() == 0);
    while i < columns.len()
        invariant
            i <= columns@.len(),
            outputs_for(backend, columns@.take(i as int)) == Ok::<
                Seq<(Seq<char>, Seq<char>)>,
                (Seq<char>, u32),
            >(pairs.deep_view()),
        decreases columns@.len() - i,
    {
        let column = &columns[i];
        proof {
            let next = columns@.take(i + 1);
            assert(next.drop_last() =~= columns@.take(i as int));
            assert(next.last() == columns@[i as int]);
        }
        match host_type_name(backend, column.type_oid) {
            Some(name) => {
                let ghost before = pairs.deep_view();
                pairs.push((column.name.clone(), name.to_owned()));
                assert(pairs.deep_view() =~= before.push((column.name@, name@)));
            },
            None => {
                proof {
                    lemma_outputs_fail_stays(backend, columns@, i + 1);
                }
                return Err(
                    DescribeError::UnsupportedColumn {
                        column: column.name.clone(),
                        type_oid: column.type_oid,
                    },
                );
            },
        }
        i += 1;
    }
    assert(columns@.take(i as int) =~= columns@);
    Ok(pairs)
}

impl QueryData {
    /// The descriptor of a query from what the connection of `backend`
    /// answered.
    pub fn from_describe(backend: Backend, describe: &Describe) -> (r: Result<
        QueryData,
        DescribeError,
    >)
        ensures
            match descriptor_for(backend, *describe) {
                Ok(data) => r matches Ok(found) && found@ == data,
                Err(error) => r matches Err(found) && found@ == error,
            },
    {
        let input_types = input_types(backend, &describe.param_types);
        match outputs(backend, &describe.columns) {
            Ok(outputs) => Ok(QueryData { input_types, outputs }),
            Err(error) => Err(error),
        }
    }
}

/// What `outputs_for` says, column by column: where every column has a host
/// type, the pairs are the columns' names with their host types; where one
/// has none, the first such column is named.
pub proof fn lemma_outputs_by_column(backend: Backend, columns: Seq<Column>)
    ensures
        match outputs_for(backend, columns) {
            Ok(pairs) => {
                &&& pairs.len() == columns.len()
                &&& forall|i: int|
                    0 <= i < columns.len() ==> host_type_for(backend, columns[i].type_oid)
                        == Some((#[trigger] pairs[i]).1) && pairs[i].0 == columns[i].name@
            },
            Err((name, type_oid)) => exists|i: int|
                {
                    &&& 0 <= i < columns.len()
                    &&& name == (#[trigger] columns[i]).name@
                    &&& type_oid == columns[i].type_oid
                    &&& host_type_for(backend, type_oid) is None
                    &&& forall|j: int|
                        0 <= j < i ==> host_type_for(backend, (#[trigger] columns[j]).type_oid) is Some
                },
        },
    decreases columns.len(),
{
    if columns.len() > 0 {
        let before = columns.drop_last();
        lemma_outputs_by_column(backend, before);
        match outputs_for(backend, before) {
            Ok(pairs) => {
                if host_type_for(backend, columns.last().type_oid) is None {
                    let i = columns.len() - 1;
                    assert(columns[i] == columns.last());
                    assert forall|j: int| 0 <= j < i implies host_type_for(
                        backend,
                        (#[trigger] columns[j]).type_oid,
                    ) is Some by {
                        assert(before[j] == columns[j]);
                        assert(host_type_for(backend, before[j].type_oid) == Some(pairs[j].1));
                    }
                } else {
                    let all = outputs_for(backend, columns)->Ok_0;
                    assert forall|i: int| 0 <= i < columns.len() implies host_type_for(
                        backend,
                        columns[i].type_oid,
                    ) == Some((#[trigger] all[i]).1) && all[i].0 == columns[i].name@ by {
                        if i < before.len() {
                            assert(before[i] == columns[i]);
                            assert(all[i] == pairs[i]);
                        }
                    }
                }
            },
            Err((name, type_oid)) => {
                let i = choose|i: int|
                    {
                        &&& 0 <= i < before.len()
                        &&& name == (#[trigger] before[i]).name@
                        &&& type_oid == before[i].type_oid
                        &&& host_type_for(backend, type_oid) is None
                        &&& forall|j: int|
                            0 <= j < i ==> host_type_for(backend, (#[trigger] before[j]).type_oid) is Some
                    };
                assert(columns[i] == before[i]);
                assert forall|j: int| 0 <= j < i implies host_type_for(
                    backend,
                    (#[trigger] columns[j]).type_oid,
                ) is Some by {
                    assert(before[j] == columns[j]);
                }
            },
        }
    }
}

/// Once a column has no host type, more columns do not change which one is
/// named.
pub proof fn lemma_outputs_fail_stays(backend: Backend, columns: Seq<Column>, n: int)
    requires
        0 <= n <= columns.len(),
        outputs_for(backend, columns.take(n)) is Err,
    ensures
        outputs_for(backend, columns) == outputs_for(backend, columns.take(n)),
    decreases columns.len(),
{
    if n < columns.len() {
        assert(columns.drop_last().take(n) =~= columns.take(n));
        lemma_outputs_fail_stays(backend, columns.drop_last(), n);
    } else {
        assert(columns.take(n) =~= columns);
    }
}

} // verus!
