//! The requests that the operations of the API send.

use vstd::prelude::*;
use vstd::string::StringExecFns;
use crate::text::{optional_view, texts_view};

verus! {

/// Where every endpoint of the API lives.
pub const API_URL: &'static str = "https://neocities.org/api/";

/// The name of the query parameter that carries one path to delete.
pub const DELETE_PARAMETER: &'static str = "filenames[]";

/// What a client proves its identity with.
#[derive(Debug, PartialEq, Eq)]
pub enum Credential {
    /// A site's name and password, sent by HTTP Basic authentication.
    Login { username: String, password: String },
    /// An API key, sent as an HTTP Bearer token.
    Key(String),
}

/// A `Credential` as contracts speak of it.
pub enum CredentialView {
    Login { username: Seq<char>, password: Seq<char> },
    Key(Seq<char>),
}

impl View for Credential {
    type V = CredentialView;

    open spec fn view(&self) -> CredentialView {
        match self {
            Credential::Login { username, password } => CredentialView::Login {
                username: username@,
                password: password@,
            },
            Credential::Key(key) => CredentialView::Key(key@),
        }
    }
}

impl Clone for Credential {
    fn clone(&self) -> (copy: Credential)
        ensures
            copy@ == self@,
    {
        match self {
            Credential::Login { username, password } => Credential::Login {
                username: username.clone(),
                password: password.clone(),
            },
            Credential::Key(key) => Credential::Key(key.clone()),
        }
    }
}

/// How a request proves who sends it: the scheme of its `Authorization`
/// header and what the header is made from.
#[derive(Debug, Clone, PartialEq, Eq)]
pub enum Authorization {
    /// HTTP Basic authentication.
    Basic { username: String, password: String },
    /// HTTP Bearer authentication.
    Bearer { token: String },
}

/// An `Authorization` as contracts speak of it.
pub enum AuthorizationView {
    Basic { username: Seq<char>, password: Seq<char> },
    Bearer { token: Seq<char> },
}

impl View for Authorization {
    type V = AuthorizationView;

    open spec fn view(&self) -> AuthorizationView {
        match self {
            Authorization::Basic { username, password } => AuthorizationView::Basic {
                username: username@,
                password: password@,
            },
            Authorization::Bearer { token } => AuthorizationView::Bearer { token: token@ },
        }
    }
}

/// The authorization that a credential calls for: Basic for a login,
/// Bearer for a key.
pub open spec fn authorization_of(credential: CredentialView) -> AuthorizationView {
    match credential {
        CredentialView::Login { username, password } => AuthorizationView::Basic {
            username,
            password,
        },
        CredentialView::Key(key) => AuthorizationView::Bearer { token: key },
    }
}

impl Credential {
    /// The authorization that the credential calls for.
    pub fn authorization(&self) -> (authorization: Authorization)
        ensures
            authorization@ == authorization_of(self@),
    {
        match self {
            Credential::Login { username, password } => Authorization::Basic {
                username: username.clone(),
                password: password.clone(),
            },
            Credential::Key(key) => Authorization::Bearer { token: key.clone() },
        }
    }
}

/// The operations of the API.
#[derive(Debug, Clone, Copy, PartialEq, Eq, Structural)]
pub enum Operation {
    List,
    Info,
    Key,
    Upload,
    Delete,
}

/// The HTTP method of a request.
#[derive(Debug, Clone, Copy, PartialEq, Eq, Structural)]
pub enum Method {
    Get,
    Post,
}

impl Operation {
    /// The name of the operation's endpoint under `API_URL`.
    pub open spec fn endpoint(self) -> Seq<char> {
        match self {
            Operation::List => "list"@,
            Operation::Info => "info"@,
            Operation::Key => "key"@,
            Operation::Upload => "upload"@,
            Operation::Delete => "delete"@,
        }
    }

    /// The address of the operation's endpoint.
    pub open spec fn url(self) -> Seq<char> {
        API_URL@ + self.endpoint()
    }

    /// The method by which the operation is requested: reading is a `GET`,
    /// changing the site a `POST`.
    pub open spec fn method(self) -> Method {
        match self {
            Operation::List | Operation::Info | Operation::Key => Method::Get,
            Operation::Upload | Operation::Delete => Method::Post,
        }
    }

    /// Whether the body of a reply with a failed status is still read, for
    /// the error that the service may report in it. The operations that
    /// change the site read it; the others give the reply up unread.
    pub open spec fn reads_failed_reply(self) -> bool {
        match self {
            Operation::List | Operation::Info | Operation::Key => false,
            Operation::Upload | Operation::Delete => true,
        }
    }

    /// The name of the operation's endpoint under `API_URL`.
    pub fn endpoint_name(self) -> (name: &'static str)
        ensures
            name@ == self.endpoint(),
    {
        match self {
            Operation::List => "list",
            Operation::Info => "info",
            Operation::Key => "key",
            Operation::Upload => "upload",
            Operation::Delete => "delete",
        }
    }

    /// The method by which the operation is requested.
    pub fn http_method(self) -> (method: Method)
        ensures
            method == self.method(),
    {
        match self {
            Operation::List | Operation::Info | Operation::Key => Method::Get,
            Operation::Upload | Operation::Delete => Method::Post,
        }
    }

    /// Whether the body of a reply with a failed status is still read.
    pub fn hears_failed_reply(self) -> (reads: bool)
        ensures
            reads == self.reads_failed_reply(),
    {
        match self {
            Operation::List | Operation::Info | Operation::Key => false,
            Operation::Upload | Operation::Delete => true,
        }
    }
}

/// One part of a multipart form: a file under a name. The content is
/// whatever the caller's transport can send, bytes or a stream; it is
/// carried and never looked into.
#[derive(Debug, Clone, PartialEq, Eq)]
pub struct FilePart<C> {
    pub name: String,
    pub file_name: String,
    pub content: C,
}

/// A `FilePart` as contracts speak of it.
pub struct FilePartView<C> {
    pub name: Seq<char>,
    pub file_name: Seq<char>,
    pub content: C,
}

impl<C> View for FilePart<C> {
    type V = FilePartView<C>;

    open spec fn view(&self) -> FilePartView<C> {
        FilePartView { name: self.name@, file_name: self.file_name@, content: self.content }
    }
}

/// What a request carries in its body.
#[derive(Debug, Clone, PartialEq, Eq)]
pub enum Body<C> {
    Empty,
    /// Form fields, URL-encoded: names and values.
    Form(Vec<(String, String)>),
    /// The parts of a `multipart/form-data` body.
    Multipart(Vec<FilePart<C>>),
}

/// A `Body` as contracts speak of it.
pub enum BodyView<C> {
    Empty,
    Form(Seq<(Seq<char>, Seq<char>)>),
    Multipart(Seq<FilePartView<C>>),
}

/// The characters of each pair of `pairs`, in order.
pub open spec fn pairs_view(pairs: Seq<(String, String)>) -> Seq<(Seq<char>, Seq<char>)> {
    Seq::new(pairs.len(), |i: int| (pairs[i].0@, pairs[i].1@))
}

/// The views of `parts`, in order.
pub open spec fn parts_view<C>(parts: Seq<FilePart<C>>) -> Seq<FilePartView<C>> {
    Seq::new(parts.len(), |i: int| parts[i]@)
}

impl<C> View for Body<C> {
    type V = BodyView<C>;

    open spec fn view(&self) -> BodyView<C> {
        match self {
            Body::Empty => BodyView::Empty,
            Body::Form(fields) => BodyView::Form(pairs_view(fields@)),
            Body::Multipart(parts) => BodyView::Multipart(parts_view(parts@)),
        }
    }
}

/// The content of a request that uploads nothing.
pub type NoContent = Vec<u8>;

/// One request to the API, ready to be sent; `C` is the type of the
/// content that an upload carries.
#[derive(Debug, Clone, PartialEq, Eq)]
pub struct ApiRequest<C> {
    pub operation: Operation,
    pub method: Method,
    pub url: String,
    pub authorization: Authorization,
    /// The parameters of the query string, in order.
    pub query: Vec<(String, String)>,
    pub body: Body<C>,
}

/// An `ApiRequest` as contracts speak of it.
pub struct ApiRequestView<C> {
    pub operation: Operation,
    pub method: Method,
    pub url: Seq<char>,
    pub authorization: AuthorizationView,
    pub query: Seq<(Seq<char>, Seq<char>)>,
    pub body: BodyView<C>,
}

impl<C> View for ApiRequest<C> {
    type V = ApiRequestView<C>;

    open spec fn view(&self) -> ApiRequestView<C> {
        ApiRequestView {
            operation: self.operation,
            method: self.method,
            url: self.url@,
            authorization: self.authorization@,
            query: pairs_view(self.query@),
            body: self.body@,
        }
    }
}

/// The request of `operation` by the holder of `credential`, with the
/// query and the body given.
pub open spec fn request_of<C>(
    operation: Operation,
    credential: CredentialView,
    query: Seq<(Seq<char>, Seq<char>)>,
    body: BodyView<C>,
) -> ApiRequestView<C> {
    ApiRequestView {
        operation,
        method: operation.method(),
        url: operation.url(),
        authorization: authorization_of(credential),
        query,
        body,
    }
}

/// One form field that narrows a request, left out where `value` is empty.
pub open spec fn optional_field(name: Seq<char>, value: Seq<char>) -> BodyView<NoContent> {
    if value.len() == 0 {
        BodyView::Empty
    } else {
        BodyView::Form(seq![(name, value)])
    }
}

/// The request for the listing of `path`; of the whole site where `path`
/// is empty.
pub open spec fn list_request(credential: CredentialView, path: Seq<char>) -> ApiRequestView<
    NoContent,
> {
    request_of(Operation::List, credential, Seq::empty(), optional_field("path"@, path))
}

/// The request for the info about `site_name`; about the site of the
/// credential where `site_name` is empty.
pub open spec fn info_request(credential: CredentialView, site_name: Seq<char>) -> ApiRequestView<
    NoContent,
> {
    request_of(Operation::Info, credential, Seq::empty(), optional_field("sitename"@, site_name))
}

/// The request for the API key of the credential's account.
pub open spec fn key_request(credential: CredentialView) -> ApiRequestView<NoContent> {
    request_of(Operation::Key, credential, Seq::empty(), BodyView::Empty)
}

/// The request that uploads `content` to `file_path`: one part, which has
/// the path both as its name and as its file name.
pub open spec fn upload_request<C>(
    credential: CredentialView,
    file_path: Seq<char>,
    content: C,
) -> ApiRequestView<C> {
    request_of(
        Operation::Upload,
        credential,
        Seq::empty(),
        BodyView::Multipart(seq![FilePartView { name: file_path, file_name: file_path, content }]),
    )
}

/// The request that deletes `file_paths`: one query parameter for each, in
/// order.
pub open spec fn delete_request(
    credential: CredentialView,
    file_paths: Seq<Seq<char>>,
) -> ApiRequestView<NoContent> {
    request_of(
        Operation::Delete,
        credential,
        Seq::new(file_paths.len(), |i: int| (DELETE_PARAMETER@, file_paths[i])),
        BodyView::Empty,
    )
}

/// A client of the API: the credential that every request carries.
#[derive(Debug, Clone, PartialEq, Eq)]
pub struct Neocities {
    credential: Credential,
}

impl View for Neocities {
    type V = CredentialView;

    closed spec fn view(&self) -> CredentialView {
        self.credential@
    }
}

/// The credential that a caller's options amount to: a login where both
/// a name and a password are given, else the key where one is given, else
/// none.
pub open spec fn chosen_credential(
    key: Option<Seq<char>>,
    username: Option<Seq<char>>,
    password: Option<Seq<char>>,
) -> Option<CredentialView> {
    match (username, password) {
        (Some(username), Some(password)) => Some(CredentialView::Login { username, password }),
        _ => match key {
            Some(key) => Some(CredentialView::Key(key)),
            None => None,
        },
    }
}

impl Neocities {
    /// A client for the credential that the options amount to; none where
    /// they hold neither a whole login nor a key.
    pub fn from_options(
        key: Option<String>,
        username: Option<String>,
        password: Option<String>,
    ) -> (api: Option<Neocities>)
        ensures
            match chosen_credential(
                optional_view(key),
                optional_view(username),
                optional_view(password),
            ) {
                Some(credential) => api matches Some(made) && made@ == credential,
                None => api is None,
            },
    {
        match (username, password) {
            (Some(username), Some(password)) => Some(Neocities::login(username, password)),
            _ => match key {
                Some(key) => Some(Neocities::new(key)),
                None => None,
            },
        }
    }

    /// A client that authenticates with an API key.
    pub fn new(key: String) -> (api: Neocities)
        ensures
            api@ == CredentialView::Key(key@),
    {
        Neocities { credential: Credential::Key(key) }
    }

    /// A client that authenticates with a site's name and password.
    pub fn login(username: String, password: String) -> (api: Neocities)
        ensures
            api@ == (CredentialView::Login { username: username@, password: password@ }),
    {
        Neocities { credential: Credential::Login { username, password } }
    }

    /// The credential that the client was made with.
    pub fn credential(&self) -> (credential: &Credential)
        ensures
            credential@ == self@,
    {
        &self.credential
    }

    /// The request of `operation` with the query and the body given.
    fn request<C>(
        &self,
        operation: Operation,
        query: Vec<(String, String)>,
        body: Body<C>,
    ) -> (request: ApiRequest<C>)
        ensures
            request@ == request_of(operation, self@, pairs_view(query@), body@),
    {
        ApiRequest {
            operation,
            method: operation.http_method(),
            url: String::from_str(API_URL).concat(operation.endpoint_name()),
            authorization: self.credential.authorization(),
            query,
            body,
        }
    }

    /// Asks for the listing of `path`; of the whole site where `path` is
    /// empty.
    pub fn list(&self, path: &str) -> (request: ApiRequest<NoContent>)
        ensures
            request@ == list_request(self@, path@),
    {
        let body = narrowing_field("path", path);
        let request = self.request(Operation::List, Vec::new(), body);
        assert(pairs_view(Seq::<(String, String)>::empty()) =~= Seq::empty());
        request
    }

    /// Asks for the info about `site_name`; about the site of the
    /// credential where `site_name` is empty.
    pub fn info(&self, site_name: &str) -> (request: ApiRequest<NoContent>)
        ensures
            request@ == info_request(self@, site_name@),
    {
        let body = narrowing_field("sitename", site_name);
        let request = self.request(Operation::Info, Vec::new(), body);
        assert(pairs_view(Seq::<(String, String)>::empty()) =~= Seq::empty());
        request
    }

    /// Asks for the API key of the account, which the service makes where
    /// there is none yet.
    pub fn key(&self) -> (request: ApiRequest<NoContent>)
        ensures
            request@ == key_request(self@),
    {
        let request = self.request(Operation::Key, Vec::new(), Body::Empty);
        assert(pairs_view(Seq::<(String, String)>::empty()) =~= Seq::empty());
        request
    }

    /// Uploads `file` to `file_path` on the site.
    pub fn upload<C>(&self, file_path: String, file: C) -> (request: ApiRequest<C>)
        ensures
            request@ == upload_request(self@, file_path@, file),
    {
        let ghost path = file_path@;
        let ghost content = file;
        let name = file_path.clone();
        let mut parts: Vec<FilePart<C>> = Vec::new();
        parts.push(FilePart { name, file_name: file_path, content: file });
        assert(parts_view(parts@) =~= seq![
            FilePartView { name: path, file_name: path, content },
        ]);
        let request = self.request(Operation::Upload, Vec::new(), Body::Multipart(parts));
        assert(pairs_view(Seq::<(String, String)>::empty()) =~= Seq::empty());
        request
    }

    /// Deletes `file_paths` from the site, a directory with what is in it.
    pub fn delete(&self, file_paths: &[String]) -> (request: ApiRequest<NoContent>)
        ensures
            request@ == delete_request(self@, texts_view(file_paths@)),
    {
        let mut query: Vec<(String, String)> = Vec::new();
        let mut i: usize = 0;
        while i < file_paths.len()
            invariant
                i <= file_paths.len(),
                query@.len() == i,
                forall|k: int|
                    0 <= k < i ==> (#[trigger] query@[k]).0@ == DELETE_PARAMETER@ && query@[k].1@
                        == file_paths@[k]@,
            decreases file_paths.len() - i,
        {
            query.push((String::from_str(DELETE_PARAMETER), file_paths[i].clone()));
            i += 1;
        }
        let request = self.request(Operation::Delete, query, Body::Empty);
        assert(request@.query =~= delete_request(
            self@,
            texts_view(file_paths@),
        ).query);
        request
    }
}

/// One form field that narrows a request, left out where `value` is empty.
fn narrowing_field(name: &str, value: &str) -> (body: Body<NoContent>)
    ensures
        body@ == optional_field(name@, value@),
{
    if value.is_empty() {
        Body::Empty
    } else {
        let mut fields: Vec<(String, String)> = Vec::new();
        fields.push((String::from_str(name), String::from_str(value)));
        assert(pairs_view(fields@) =~= seq![(name@, value@)]);
        Body::Form(fields)
    }
}

} // verus!
