//! Projects and their endpoints: the persisted form, the form the dashboard
//! edits, and the rules for saving them.

use vstd::prelude::*;

use crate::text::{spec_trim, trim};

verus! {

/// Name given to a project that has not been named yet.
pub const DEFAULT_PROJECT_NAME: &'static str = "Unnamed";

/// Name given to an endpoint that has not been named yet.
pub const DEFAULT_ENDPOINT_NAME: &'static str = "Unnamed";

/// Row colour of projects and endpoints in lists.
pub const DEFAULT_ROW_COLOR: &'static str = "#333333";

/// A request header.
#[derive(Debug, Clone, PartialEq, Eq)]
pub struct Header {
    pub name: String,
    pub value: String,
}

/// A header as a pair of character sequences (name, value).
pub type HeaderView = (Seq<char>, Seq<char>);

impl View for Header {
    type V = HeaderView;

    open spec fn view(&self) -> HeaderView {
        (self.name@, self.value@)
    }
}

/// The headers of a list, as pairs of character sequences.
pub open spec fn headers_view(headers: Seq<Header>) -> Seq<HeaderView> {
    Seq::new(headers.len(), |i: int| headers[i]@)
}

/// An endpoint as it is stored on disk.
#[derive(Debug, Clone, PartialEq, Eq)]
pub struct PersistedEndpoint {
    pub name: String,
    pub url: String,
    pub method: String,
    pub headers: Vec<Header>,
    pub body: String,
}

/// The abstract content of an endpoint.
pub struct EndpointView {
    pub name: Seq<char>,
    pub url: Seq<char>,
    pub method: Seq<char>,
    pub headers: Seq<HeaderView>,
    pub body: Seq<char>,
}

impl View for PersistedEndpoint {
    type V = EndpointView;

    open spec fn view(&self) -> EndpointView {
        EndpointView {
            name: self.name@,
            url: self.url@,
            method: self.method@,
            headers: headers_view(self.headers@),
            body: self.body@,
        }
    }
}

/// The endpoints of a list, by content.
pub open spec fn endpoints_view(endpoints: Seq<PersistedEndpoint>) -> Seq<EndpointView> {
    Seq::new(endpoints.len(), |i: int| endpoints[i]@)
}

/// A project as it is stored on disk.
#[derive(Debug, Clone, PartialEq, Eq)]
pub struct PersistedProject {
    pub name: String,
    pub endpoints: Vec<PersistedEndpoint>,
}

/// The abstract content of a project.
pub struct ProjectView {
    pub name: Seq<char>,
    pub endpoints: Seq<EndpointView>,
}

impl View for PersistedProject {
    type V = ProjectView;

    open spec fn view(&self) -> ProjectView {
        ProjectView { name: self.name@, endpoints: endpoints_view(self.endpoints@) }
    }
}

proof fn lemma_headers_view_push(s: Seq<Header>, h: Header)
    ensures
        headers_view(s.push(h)) == headers_view(s).push(h@),
{
    assert(headers_view(s.push(h)) =~= headers_view(s).push(h@));
}

proof fn lemma_endpoints_view_push(s: Seq<PersistedEndpoint>, e: PersistedEndpoint)
    ensures
        endpoints_view(s.push(e)) == endpoints_view(s).push(e@),
{
    assert(endpoints_view(s.push(e)) =~= endpoints_view(s).push(e@));
}

/// A copy of a header.
pub fn copy_header(h: &Header) -> (c: Header)
    ensures
        c@ == h@,
{
    Header { name: h.name.clone(), value: h.value.clone() }
}

/// A copy of a list of headers.
pub fn copy_headers(headers: &Vec<Header>) -> (c: Vec<Header>)
    ensures
        headers_view(c@) == headers_view(headers@),
{
    let mut c: Vec<Header> = Vec::new();
    let mut i: usize = 0;
    while i < headers.len()
        invariant
            i <= headers@.len(),
            headers_view(c@) == headers_view(headers@).take(i as int),
        decreases headers@.len() - i,
    {
        let ghost prev = c@;
        let h = copy_header(&headers[i]);
        c.push(h);
        i = i + 1;
        proof {
            lemma_headers_view_push(prev, h);
            assert(headers_view(headers@).take(i as int) =~= headers_view(headers@).take(i - 1).push(headers@[i - 1]@));
        }
    }
    proof {
        assert(headers_view(headers@).take(headers@.len() as int) =~= headers_view(headers@));
    }
    c
}

/// A copy of an endpoint.
pub fn copy_endpoint(e: &PersistedEndpoint) -> (c: PersistedEndpoint)
    ensures
        c@ == e@,
{
    PersistedEndpoint {
        name: e.name.clone(),
        url: e.url.clone(),
        method: e.method.clone(),
        headers: copy_headers(&e.headers),
        body: e.body.clone(),
    }
}

/// The headers every new endpoint starts with.
pub open spec fn default_headers_view() -> Seq<HeaderView> {
    seq![("user-agent"@, "centcom-tui"@), ("content-type"@, "application/json"@)]
}

/// The headers every new endpoint starts with: a user agent and a JSON
/// content type.
pub fn get_default_headers() -> (headers: Vec<Header>)
    ensures
        headers_view(headers@) == default_headers_view(),
{
    let mut headers: Vec<Header> = Vec::new();
    headers.push(Header { name: String::from_str("user-agent"), value: String::from_str("centcom-tui") });
    headers.push(Header { name: String::from_str("content-type"), value: String::from_str("application/json") });
    proof {
        assert(headers_view(headers@) =~= default_headers_view());
    }
    headers
}

/// An endpoint as the dashboard edits it, with the colour of its row in lists.
#[derive(Debug, Clone, PartialEq, Eq)]
pub struct Endpoint {
    pub name: String,
    pub url: String,
    pub method: String,
    pub headers: Vec<Header>,
    pub body: String,
    pub row_color: String,
}

impl Endpoint {
    /// The persisted content of this endpoint.
    pub open spec fn content(&self) -> EndpointView {
        EndpointView {
            name: self.name@,
            url: self.url@,
            method: self.method@,
            headers: headers_view(self.headers@),
            body: self.body@,
        }
    }

    /// A new, unnamed GET endpoint with the default headers.
    pub fn new() -> (e: Endpoint)
        ensures
            e.name@ == DEFAULT_ENDPOINT_NAME@,
            e.url@.len() == 0,
            e.method@ == "GET"@,
            e.body@.len() == 0,
            headers_view(e.headers@) == default_headers_view(),
            e.row_color@ == DEFAULT_ROW_COLOR@,
    {
        Endpoint {
            name: String::from_str(DEFAULT_ENDPOINT_NAME),
            url: String::new(),
            method: String::from_str("GET"),
            body: String::new(),
            headers: get_default_headers(),
            row_color: String::from_str(DEFAULT_ROW_COLOR),
        }
    }

    /// A copy of this endpoint, shown with the default row colour.
    pub fn clone_endpoint(&self) -> (e: Endpoint)
        ensures
            e.content() == self.content(),
            e.row_color@ == DEFAULT_ROW_COLOR@,
    {
        Endpoint {
            name: self.name.clone(),
            url: self.url.clone(),
            method: self.method.clone(),
            body: self.body.clone(),
            row_color: String::from_str(DEFAULT_ROW_COLOR),
            headers: copy_headers(&self.headers),
        }
    }

    /// The persisted form of this endpoint.
    pub fn to_persisted(&self) -> (p: PersistedEndpoint)
        ensures
            p@ == self.content(),
    {
        PersistedEndpoint {
            name: self.name.clone(),
            url: self.url.clone(),
            method: self.method.clone(),
            body: self.body.clone(),
            headers: copy_headers(&self.headers),
        }
    }

    /// The editable form of a persisted endpoint.
    pub fn from_persisted(p: &PersistedEndpoint) -> (e: Endpoint)
        ensures
            e.content() == p@,
            e.row_color@ == DEFAULT_ROW_COLOR@,
    {
        Endpoint {
            name: p.name.clone(),
            body: p.body.clone(),
            url: p.url.clone(),
            method: p.method.clone(),
            row_color: String::from_str(DEFAULT_ROW_COLOR),
            headers: copy_headers(&p.headers),
        }
    }
}

/// A project as the dashboard shows it.
#[derive(Debug, Clone, PartialEq, Eq)]
pub struct Project {
    pub name: String,
    pub endpoints: Vec<Endpoint>,
    pub row_color: String,
}

impl Project {
    /// A new, unnamed project without endpoints.
    pub fn new() -> (p: Project)
        ensures
            p.name@ == DEFAULT_PROJECT_NAME@,
            p.endpoints@.len() == 0,
            p.row_color@ == DEFAULT_ROW_COLOR@,
    {
        Project {
            name: String::from_str(DEFAULT_PROJECT_NAME),
            row_color: String::from_str(DEFAULT_ROW_COLOR),
            endpoints: Vec::new(),
        }
    }

    /// The persisted content of this project.
    pub open spec fn content(&self) -> ProjectView {
        ProjectView {
            name: self.name@,
            endpoints: Seq::new(self.endpoints@.len(), |i: int| self.endpoints@[i].content()),
        }
    }

    /// The persisted form of this project.
    pub fn to_persisted(&self) -> (p: PersistedProject)
        ensures
            p@ == self.content(),
    {
        let mut endpoints: Vec<PersistedEndpoint> = Vec::new();
        let mut i: usize = 0;
        while i < self.endpoints.len()
            invariant
                i <= self.endpoints@.len(),
                endpoints_view(endpoints@) == self.content().endpoints.take(i as int),
            decreases self.endpoints@.len() - i,
        {
            let ghost prev = endpoints@;
            let e = self.endpoints[i].to_persisted();
            endpoints.push(e);
            i = i + 1;
            proof {
                lemma_endpoints_view_push(prev, e);
                assert(self.content().endpoints.take(i as int) =~= self.content().endpoints.take(i - 1).push(self.endpoints@[i - 1].content()));
            }
        }
        proof {
            assert(self.content().endpoints.take(i as int) =~= self.content().endpoints);
        }
        PersistedProject { name: self.name.clone(), endpoints }
    }

    /// The project of a persisted project.
    pub fn from_persisted(p: &PersistedProject) -> (project: Project)
        ensures
            project.content() == p@,
            project.row_color@ == DEFAULT_ROW_COLOR@,
            forall|i: int| 0 <= i < project.endpoints@.len() ==> #[trigger] project.endpoints@[i].row_color@ == DEFAULT_ROW_COLOR@,
    {
        let mut endpoints: Vec<Endpoint> = Vec::new();
        let mut i: usize = 0;
        while i < p.endpoints.len()
            invariant
                i <= p.endpoints@.len(),
                endpoints@.len() == i,
                forall|k: int| 0 <= k < i ==> #[trigger] endpoints@[k].content() == p.endpoints@[k]@,
                forall|k: int| 0 <= k < i ==> #[trigger] endpoints@[k].row_color@ == DEFAULT_ROW_COLOR@,
            decreases p.endpoints@.len() - i,
        {
            endpoints.push(Endpoint::from_persisted(&p.endpoints[i]));
            i = i + 1;
        }
        let project = Project {
            name: p.name.clone(),
            row_color: String::from_str(DEFAULT_ROW_COLOR),
            endpoints,
        };
        proof {
            assert(project.content().endpoints =~= p@.endpoints);
        }
        project
    }
}

/// Why a project or an endpoint could not be saved.
#[derive(Debug, Clone, Copy, PartialEq, Eq)]
pub enum SaveError {
    /// The project's name is empty or only whitespace.
    ProjectWithoutName,
    /// The endpoint still has the default name.
    EndpointNotNamed,
    /// The project still has the default name.
    ProjectNotNamed,
}

impl SaveError {
    /// The message shown to the user.
    pub fn message(&self) -> (m: &'static str)
        ensures
            m@ == (match self {
                SaveError::ProjectWithoutName => "Project must have name"@,
                SaveError::EndpointNotNamed => "Please give your endpoint a name to save"@,
                SaveError::ProjectNotNamed => "Please give your project a name to save"@,
            }),
    {
        match self {
            SaveError::ProjectWithoutName => "Project must have name",
            SaveError::EndpointNotNamed => "Please give your endpoint a name to save",
            SaveError::ProjectNotNamed => "Please give your project a name to save",
        }
    }
}

/// The file a project is stored in, inside the projects directory.
pub open spec fn project_file_name(name: Seq<char>) -> Seq<char> {
    name + ".project"@
}

/// Checks that a project can be saved and returns the name of the file it
/// is stored in: a project whose name is empty or only whitespace is refused.
pub fn save_project(project: &PersistedProject) -> (file_name: Result<String, SaveError>)
    ensures
        spec_trim(project.name@).len() == 0 <==> file_name == Err::<String, SaveError>(SaveError::ProjectWithoutName),
        spec_trim(project.name@).len() != 0 ==> file_name is Ok && file_name->Ok_0@ == project_file_name(project.name@),
{
    let name_chars = crate::text::chars_of(project.name.as_str());
    let trimmed = trim(name_chars.as_slice());
    if trimmed.len() == 0 {
        return Err(SaveError::ProjectWithoutName);
    }
    let mut file_name = project.name.clone();
    file_name.append(".project");
    Ok(file_name)
}

/// Index of the first endpoint named `name`, if any.
pub open spec fn first_endpoint_named(endpoints: Seq<EndpointView>, name: Seq<char>) -> Option<int> {
    if exists|i: int| 0 <= i < endpoints.len() && endpoints[i].name == name {
        Some(choose|i: int| 0 <= i < endpoints.len() && endpoints[i].name == name
            && forall|j: int| 0 <= j < i ==> endpoints[j].name != name)
    } else {
        None
    }
}

/// The endpoints after saving `endpoint`: the first endpoint with the same
/// name is taken out and the saved one goes to the end.
pub open spec fn spec_endpoints_after_save(endpoints: Seq<EndpointView>, endpoint: EndpointView) -> Seq<EndpointView> {
    match first_endpoint_named(endpoints, endpoint.name) {
        Some(i) => endpoints.remove(i).push(endpoint),
        None => endpoints.push(endpoint),
    }
}

/// The project to store when the dashboard saves `endpoint` into `project`.
/// An endpoint or a project that still has the default name is refused.
pub fn save_endpoint(project: &PersistedProject, endpoint: &Endpoint) -> (saved: Result<PersistedProject, SaveError>)
    ensures
        endpoint.name@ == DEFAULT_ENDPOINT_NAME@ ==> saved == Err::<PersistedProject, SaveError>(SaveError::EndpointNotNamed),
        endpoint.name@ != DEFAULT_ENDPOINT_NAME@ && project.name@ == DEFAULT_PROJECT_NAME@
            ==> saved == Err::<PersistedProject, SaveError>(SaveError::ProjectNotNamed),
        endpoint.name@ != DEFAULT_ENDPOINT_NAME@ && project.name@ != DEFAULT_PROJECT_NAME@ ==> {
            &&& saved is Ok
            &&& saved->Ok_0@.name == project.name@
            &&& saved->Ok_0@.endpoints == spec_endpoints_after_save(project@.endpoints, endpoint.content())
        },
{
    let default_endpoint_name = String::from_str(DEFAULT_ENDPOINT_NAME);
    let default_project_name = String::from_str(DEFAULT_PROJECT_NAME);
    if endpoint.name == default_endpoint_name {
        return Err(SaveError::EndpointNotNamed);
    }
    if project.name == default_project_name {
        return Err(SaveError::ProjectNotNamed);
    }
    let ghost old_view = project@.endpoints;
    let mut found: Option<usize> = None;
    let mut i: usize = 0;
    while i < project.endpoints.len()
        invariant
            i <= project.endpoints@.len(),
            old_view == project@.endpoints,
            found is None ==> forall|j: int| 0 <= j < i ==> old_view[j].name != endpoint.name@,
            found matches Some(k) ==> k < old_view.len() && old_view[k as int].name == endpoint.name@
                && forall|j: int| 0 <= j < k ==> old_view[j].name != endpoint.name@,
        decreases project.endpoints@.len() - i,
    {
        if found.is_none() && project.endpoints[i].name == endpoint.name {
            found = Some(i);
        }
        i = i + 1;
    }
    let mut endpoints: Vec<PersistedEndpoint> = Vec::new();
    let mut k: usize = 0;
    let ghost kept = match found {
        Some(f) => old_view.remove(f as int),
        None => old_view,
    };
    while k < project.endpoints.len()
        invariant
            k <= project.endpoints@.len(),
            old_view == project@.endpoints,
            found matches Some(f) ==> f < old_view.len(),
            kept == (match found {
                Some(f) => old_view.remove(f as int),
                None => old_view,
            }),
            endpoints_view(endpoints@) == (match found {
                Some(f) => if k <= f { old_view.take(k as int) } else { old_view.remove(f as int).take(k - 1) },
                None => old_view.take(k as int),
            }),
        decreases project.endpoints@.len() - k,
    {
        let skip = match found {
            Some(f) => f == k,
            None => false,
        };
        let ghost prev = endpoints@;
        if !skip {
            let e = copy_endpoint(&project.endpoints[k]);
            endpoints.push(e);
            proof {
                lemma_endpoints_view_push(prev, e);
            }
        }
        k = k + 1;
        proof {
            match found {
                Some(f) => {
                    if k <= f {
                        assert(endpoints_view(endpoints@) =~= old_view.take(k as int));
                    } else if k == f + 1 {
                        assert(old_view.remove(f as int).take(k - 1) =~= old_view.take(f as int));
                        assert(endpoints_view(endpoints@) =~= old_view.remove(f as int).take(k - 1));
                    } else {
                        assert(endpoints_view(endpoints@) =~= old_view.remove(f as int).take(k - 1));
                    }
                },
                None => {
                    assert(endpoints_view(endpoints@) =~= old_view.take(k as int));
                },
            }
        }
    }
    proof {
        match found {
            Some(f) => {
                assert(old_view.remove(f as int).take(k - 1) =~= kept);
                assert(first_endpoint_named(old_view, endpoint.name@) == Some(f as int));
            },
            None => {
                assert(old_view.take(k as int) =~= kept);
                assert(first_endpoint_named(old_view, endpoint.name@) is None);
            },
        }
    }
    let ghost before_push = endpoints@;
    let saved_endpoint = endpoint.to_persisted();
    endpoints.push(saved_endpoint);
    proof {
        lemma_endpoints_view_push(before_push, saved_endpoint);
    }
    Ok(PersistedProject { name: project.name.clone(), endpoints })
}

/// At most one endpoint of the list is named `name`.
pub open spec fn name_at_most_once(endpoints: Seq<EndpointView>, name: Seq<char>) -> bool {
    forall|i: int, j: int|
        0 <= i < endpoints.len() && 0 <= j < endpoints.len() && endpoints[i].name == name
            && endpoints[j].name == name ==> i == j
}

/// Saving an endpoint puts it last and takes out the first endpoint of the
/// same name; when no endpoint had its name, one endpoint more is stored.
pub proof fn lemma_saved_endpoint_is_last(endpoints: Seq<EndpointView>, endpoint: EndpointView)
    ensures
        spec_endpoints_after_save(endpoints, endpoint).last() == endpoint,
        (exists|i: int| 0 <= i < endpoints.len() && endpoints[i].name == endpoint.name)
            ==> spec_endpoints_after_save(endpoints, endpoint).len() == endpoints.len(),
        !(exists|i: int| 0 <= i < endpoints.len() && endpoints[i].name == endpoint.name)
            ==> spec_endpoints_after_save(endpoints, endpoint) == endpoints.push(endpoint),
{
    if exists|i: int| 0 <= i < endpoints.len() && endpoints[i].name == endpoint.name {
        let i = choose|i: int| 0 <= i < endpoints.len() && endpoints[i].name == endpoint.name;
        lemma_first_named_exists(endpoints, endpoint.name, i);
    }
}

proof fn lemma_first_named_exists(endpoints: Seq<EndpointView>, name: Seq<char>, i: int)
    requires
        0 <= i < endpoints.len(),
        endpoints[i].name == name,
    ensures
        first_endpoint_named(endpoints, name) is Some,
        0 <= first_endpoint_named(endpoints, name)->Some_0 < endpoints.len(),
        endpoints[first_endpoint_named(endpoints, name)->Some_0].name == name,
    decreases i,
{
    if forall|j: int| 0 <= j < i ==> endpoints[j].name != name {
        assert(0 <= i < endpoints.len() && endpoints[i].name == name
            && forall|j: int| 0 <= j < i ==> endpoints[j].name != name);
    } else {
        let j = choose|j: int| 0 <= j < i && endpoints[j].name == name;
        lemma_first_named_exists(endpoints, name, j);
    }
}

/// Saving the same endpoint twice stores the same endpoints as saving it
/// once, provided no two stored endpoints share its name.
pub proof fn lemma_save_endpoint_twice(endpoints: Seq<EndpointView>, endpoint: EndpointView)
    requires
        name_at_most_once(endpoints, endpoint.name),
    ensures
        spec_endpoints_after_save(spec_endpoints_after_save(endpoints, endpoint), endpoint)
            == spec_endpoints_after_save(endpoints, endpoint),
{
    let once = spec_endpoints_after_save(endpoints, endpoint);
    let last = once.len() - 1;
    if exists|i: int| 0 <= i < endpoints.len() && endpoints[i].name == endpoint.name {
        let i = choose|i: int| 0 <= i < endpoints.len() && endpoints[i].name == endpoint.name;
        lemma_first_named_exists(endpoints, endpoint.name, i);
        let f = first_endpoint_named(endpoints, endpoint.name)->Some_0;
        assert(once == endpoints.remove(f).push(endpoint));
        assert forall|j: int| 0 <= j < last implies once[j].name != endpoint.name by {
            if j < f {
                assert(once[j] == endpoints[j]);
            } else {
                assert(once[j] == endpoints[j + 1]);
            }
        }
    } else {
        assert(once == endpoints.push(endpoint));
        assert forall|j: int| 0 <= j < last implies once[j].name != endpoint.name by {
            assert(once[j] == endpoints[j]);
        }
    }
    lemma_first_named_exists(once, endpoint.name, last);
    let g = first_endpoint_named(once, endpoint.name)->Some_0;
    assert(g == last);
    assert(once.remove(last).push(endpoint) =~= once);
}

} // verus!
