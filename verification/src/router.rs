//! Endpoint resolution: from the path of an upgrade request to the device that
//! the connection attaches to.

use crate::config::{SerialConfig, SerialConfigView};
use vstd::hash_map::StringHashMap;
use vstd::prelude::*;
use vstd::string::*;

verus! {

/// Status with which an upgrade request for an unknown endpoint is answered.
pub const NOT_FOUND: u16 = 404;

/// The separator that precedes the endpoint name in a request path.
pub const SEPARATOR: char = '/';

/// The endpoints that the listener serves, each with the device behind it.
///
/// The table is filled before the listener starts. Connections only read it.
pub struct EndpointTable {
    entries: StringHashMap<SerialConfig>,
}

impl View for EndpointTable {
    type V = Map<Seq<char>, SerialConfigView>;

    closed spec fn view(&self) -> Map<Seq<char>, SerialConfigView> {
        self.entries@.map_values(|device: SerialConfig| device@)
    }
}

impl EndpointTable {
    /// A table without endpoints.
    pub fn new() -> (table: Self)
        ensures
            table@ == Map::<Seq<char>, SerialConfigView>::empty(),
    {
        let table = EndpointTable { entries: StringHashMap::new() };
        assert(table@ =~= Map::<Seq<char>, SerialConfigView>::empty());
        table
    }

    /// Binds `name` to `device`; an earlier binding of the name is replaced.
    pub fn insert(&mut self, name: String, device: SerialConfig)
        ensures
            final(self)@ == old(self)@.insert(name@, device@),
    {
        self.entries.insert(name, device);
        assert(self@ =~= old(self)@.insert(name@, device@));
    }

    /// The device bound to `name`, if any.
    pub fn get(&self, name: &str) -> (found: Option<&SerialConfig>)
        ensures
            found is Some <==> self@.contains_key(name@),
            found matches Some(device) ==> device@ == self@[name@],
    {
        self.entries.get(name)
    }

    /// Whether `name` is bound.
    pub fn contains(&self, name: &str) -> (bound: bool)
        ensures
            bound == self@.contains_key(name@),
    {
        self.entries.contains_key(name)
    }

    /// Number of endpoints.
    pub fn len(&self) -> (count: usize)
        ensures
            count == self@.len(),
    {
        broadcast use vstd::hash_map::group_hash_map_axioms;

        assert(self@.dom() =~= self.entries@.dom());
        self.entries.len()
    }
}

/// Number of separators at the start of `path`.
pub open spec fn leading_separators(path: Seq<char>) -> nat
    decreases path.len(),
{
    if path.len() > 0 && path[0] == SEPARATOR {
        1 + leading_separators(path.skip(1))
    } else {
        0
    }
}

/// The endpoint that `path` names: `path` without the separators it starts with.
pub open spec fn endpoint_of(path: Seq<char>) -> Seq<char> {
    path.skip(leading_separators(path) as int)
}

/// `leading_separators` is the length of the longest prefix of `path` made of
/// separators only.
pub proof fn lemma_leading_separators(path: Seq<char>)
    ensures
        leading_separators(path) <= path.len(),
        forall|i: int| 0 <= i < leading_separators(path) ==> path[i] == SEPARATOR,
        leading_separators(path) < path.len() ==> path[leading_separators(path) as int]
            != SEPARATOR,
    decreases path.len(),
{
    if path.len() > 0 && path[0] == SEPARATOR {
        let rest = path.skip(1);
        lemma_leading_separators(rest);
        assert forall|i: int| 0 <= i < leading_separators(path) implies path[i] == SEPARATOR by {
            if i > 0 {
                assert(path[i] == rest[i - 1]);
            }
        }
        if leading_separators(path) < path.len() {
            assert(path[leading_separators(path) as int] == rest[leading_separators(rest) as int]);
        }
    }
}

/// A prefix of separators that ends before a character that is none, or at the
/// end of the path, is the whole run of leading separators.
pub proof fn lemma_leading_separators_unique(path: Seq<char>, count: int)
    requires
        0 <= count <= path.len(),
        forall|i: int| 0 <= i < count ==> path[i] == SEPARATOR,
        count < path.len() ==> path[count] != SEPARATOR,
    ensures
        leading_separators(path) == count,
    decreases path.len(),
{
    if count > 0 {
        let rest = path.skip(1);
        assert forall|i: int| 0 <= i < count - 1 implies rest[i] == SEPARATOR by {
            assert(rest[i] == path[i + 1]);
        }
        if count - 1 < rest.len() {
            assert(rest[count - 1] == path[count]);
        }
        lemma_leading_separators_unique(rest, count - 1);
    }
}

/// The endpoint name in a request path: the path without its leading
/// separators.
pub fn endpoint_name(path: &str) -> (name: String)
    ensures
        name@ == endpoint_of(path@),
{
    let len: usize = path.unicode_len();
    let mut start: usize = 0;
    while start < len && path.get_char(start) == SEPARATOR
        invariant
            start <= len,
            len == path@.len(),
            forall|i: int| 0 <= i < start ==> path@[i] == SEPARATOR,
        decreases len - start,
    {
        start = start + 1;
    }
    proof {
        lemma_leading_separators_unique(path@, start as int);
    }
    path.substring_char(start, len).to_owned()
}

/// What the router decided for one upgrade request.
pub enum Resolution {
    /// The endpoint is configured; `device` is a copy of its settings.
    Accepted { endpoint: String, device: SerialConfig },
    /// No endpoint of that name: the request is answered with `status`.
    Rejected { endpoint: String, status: u16 },
}

/// A [`Resolution`] as a mathematical value.
pub ghost enum ResolutionView {
    Accepted { endpoint: Seq<char>, device: SerialConfigView },
    Rejected { endpoint: Seq<char>, status: u16 },
}

impl View for Resolution {
    type V = ResolutionView;

    open spec fn view(&self) -> ResolutionView {
        match self {
            Resolution::Accepted { endpoint, device } => ResolutionView::Accepted {
                endpoint: endpoint@,
                device: device@,
            },
            Resolution::Rejected { endpoint, status } => ResolutionView::Rejected {
                endpoint: endpoint@,
                status: *status,
            },
        }
    }
}

/// The decision of the router for a request path, over a table of endpoints.
pub open spec fn resolution(
    table: Map<Seq<char>, SerialConfigView>,
    path: Seq<char>,
) -> ResolutionView {
    let endpoint = endpoint_of(path);
    if table.contains_key(endpoint) {
        ResolutionView::Accepted { endpoint, device: table[endpoint] }
    } else {
        ResolutionView::Rejected { endpoint, status: NOT_FOUND }
    }
}

/// Resolves the path of an upgrade request against the table.
///
/// A configured endpoint is accepted with a copy of its device settings, so
/// that the connection keeps no reference into the table. Any other name is
/// rejected with status 404.
pub fn resolve(table: &EndpointTable, path: &str) -> (decision: Resolution)
    ensures
        decision@ == resolution(table@, path@),
{
    let endpoint = endpoint_name(path);
    match table.get(endpoint.as_str()) {
        Some(device) => Resolution::Accepted { endpoint, device: device.clone() },
        None => Resolution::Rejected { endpoint, status: NOT_FOUND },
    }
}

} // verus!
