//! Routing of HTTP requests to handlers by method and path.
//!
//! A path is a sequence of segments. A route is registered for a method and
//! a path whose segments are literals or variables, a variable being a
//! segment in braces. A request matches a route if it has as many segments
//! and each literal segment of the route is the segment of the request; its
//! variables are then bound to the segments in their places.
//!
//! The routes form a tree in which each edge stands for one segment. The
//! edges out of a node are all literals or one variable; a path may not use
//! one variable name twice; and a node has at most one handler for a
//! method. A registration that breaks one of these rules is refused.

use crate::names::texts;
use vstd::prelude::*;
use vstd::string::*;

verus! {

#[verifier::external_type_specification]
#[verifier::external_body]
pub struct ExMethod(http::Method);

/// The name of a method, in upper case.
pub uninterp spec fn method_key(method: http::Method) -> Seq<char>;

/// The segments of the path of the URL that a path makes with a base URL,
/// if it makes one: percent-encoded, one for each part between slashes.
pub uninterp spec fn url_path_segments(path: Seq<char>) -> Option<Seq<Seq<char>>>;

/// The name of the method, in upper case.
///
/// Calls `http::Method::as_str` and `str::to_uppercase`.
#[verifier::external_body]
fn method_name(method: &http::Method) -> (res: String)
    ensures
        res@ == method_key(*method),
{
    method.as_str().to_uppercase()
}

/// The segments of a path, as the `url` crate takes a URL apart.
///
/// Calls `Url::parse` on the base `http://127.0.0.1/`, `Url::join` with the
/// path, and `Url::path_segments` on the result. Gives `None` where `join`
/// fails or the URL has no segments. What comes out is a function of the
/// path alone; it is named, not spelled out.
#[verifier::external_body]
fn path_to_segments(path: &str) -> (res: Option<Vec<String>>)
    ensures
        res is Some == url_path_segments(path@) is Some,
        res matches Some(segments) ==> texts(segments@) == url_path_segments(path@)->0,
{
    let base = url::Url::parse("http://127.0.0.1/").ok()?;
    let url = base.join(path).ok()?;
    Some(url.path_segments()?.map(String::from).collect())
}

/// A segment of the path of a route.
#[derive(Clone, Debug, PartialEq, Eq)]
pub enum PathSegment {
    /// A segment that a request has to have as it is.
    Literal(String),
    /// A segment that stands for any segment of a request.
    Varname(String),
}

/// Why a route was not registered.
#[derive(Clone, Debug, PartialEq, Eq)]
pub enum RouteConflict {
    /// The path does not make a URL.
    InvalidPath,
    /// A literal segment where a route has a variable.
    LiteralAfterVariable { literal: String, varname: String },
    /// A variable where a route has a literal segment.
    VariableAfterLiteral { varname: String },
    /// The path uses a variable name twice.
    DuplicateVarname { varname: String },
    /// A variable where a route has a variable of another name.
    InconsistentVarname { varname: String, existing: String },
    /// The node has a handler for the method.
    DuplicateRoute { method: String },
}

/// Mathematical value of a [`RouteConflict`].
pub enum RouteConflictView {
    InvalidPath,
    LiteralAfterVariable { literal: Seq<char>, varname: Seq<char> },
    VariableAfterLiteral { varname: Seq<char> },
    DuplicateVarname { varname: Seq<char> },
    InconsistentVarname { varname: Seq<char>, existing: Seq<char> },
    DuplicateRoute { method: Seq<char> },
}

impl View for RouteConflict {
    type V = RouteConflictView;

    open spec fn view(&self) -> RouteConflictView {
        match self {
            RouteConflict::InvalidPath => RouteConflictView::InvalidPath,
            RouteConflict::LiteralAfterVariable { literal, varname } => {
                RouteConflictView::LiteralAfterVariable { literal: literal@, varname: varname@ }
            },
            RouteConflict::VariableAfterLiteral { varname } => {
                RouteConflictView::VariableAfterLiteral { varname: varname@ }
            },
            RouteConflict::DuplicateVarname { varname } => RouteConflictView::DuplicateVarname {
                varname: varname@,
            },
            RouteConflict::InconsistentVarname { varname, existing } => {
                RouteConflictView::InconsistentVarname { varname: varname@, existing: existing@ }
            },
            RouteConflict::DuplicateRoute { method } => RouteConflictView::DuplicateRoute {
                method: method@,
            },
        }
    }
}

/// Mathematical value of a [`PathSegment`].
pub enum PathSegmentView {
    Literal(Seq<char>),
    Varname(Seq<char>),
}

impl View for PathSegment {
    type V = PathSegmentView;

    open spec fn view(&self) -> PathSegmentView {
        match self {
            PathSegment::Literal(name) => PathSegmentView::Literal(name@),
            PathSegment::Varname(name) => PathSegmentView::Varname(name@),
        }
    }
}

impl PathSegmentView {
    /// The name of the segment: the literal, or the name of the variable.
    pub open spec fn name(self) -> Seq<char> {
        match self {
            PathSegmentView::Literal(name) => name,
            PathSegmentView::Varname(name) => name,
        }
    }
}

/// The values of the segments of a route.
pub open spec fn route_view(route: Seq<PathSegment>) -> Seq<PathSegmentView> {
    route.map_values(|segment: PathSegment| segment@)
}

/// The segment of a route that an encoded segment of a URL stands for: a
/// variable if it is in encoded braces, else a literal.
pub open spec fn segment_view(segment: Seq<char>) -> PathSegmentView {
    if is_variable(segment) {
        PathSegmentView::Varname(segment.subrange(3, segment.len() - 3))
    } else {
        PathSegmentView::Literal(segment)
    }
}

/// The route that the encoded segments of a URL stand for.
pub open spec fn route_of(segments: Seq<Seq<char>>) -> Seq<PathSegmentView> {
    segments.map_values(|segment: Seq<char>| segment_view(segment))
}

/// Why a request was not routed.
#[derive(Clone, Copy, Debug, PartialEq, Eq, Structural)]
pub enum LookupError {
    /// No route has the path.
    NotFound,
    /// Routes have the path, or start with it, but none for the method.
    MethodNotAllowed,
}

impl LookupError {
    /// The HTTP status code that the error is reported with.
    pub fn status_code(self) -> (res: u16)
        ensures
            res == match self {
                LookupError::NotFound => 404u16,
                LookupError::MethodNotAllowed => 405u16,
            },
    {
        match self {
            LookupError::NotFound => 404,
            LookupError::MethodNotAllowed => 405,
        }
    }
}

/// The route of a request: its handler, and the variables of the path of
/// the route with the segments of the request that they stand for, in the
/// order of the path.
#[derive(Debug)]
pub struct LookupResult<'a, H> {
    pub handler: &'a H,
    pub variables: Vec<(String, String)>,
}

/// What a lookup finds.
pub enum LookupView<H> {
    Found { handler: H, variables: Seq<(Seq<char>, Seq<char>)> },
    NotFound,
    MethodNotAllowed,
}

impl<H> LookupView<H> {
    /// The finding once the node of the path is there: where nothing was
    /// found, the method is now not allowed.
    pub open spec fn with_node(self) -> LookupView<H> {
        match self {
            LookupView::NotFound => LookupView::MethodNotAllowed,
            other => other,
        }
    }
}

/// The variables with their values.
pub open spec fn bindings_view(variables: Seq<(String, String)>) -> Seq<(Seq<char>, Seq<char>)> {
    variables.map_values(|pair: (String, String)| (pair.0@, pair.1@))
}

/// An edge of the tree: the segment that it stands for, and the node that
/// it leads to.
#[derive(Debug)]
struct HttpRouterEdge<H> {
    name: String,
    node: HttpRouterNode<H>,
}

/// A node of the tree: the handlers of the path that leads to it, and the
/// edges for the segments that can follow.
#[derive(Debug)]
struct HttpRouterNode<H> {
    /// The handlers, each with the name of its method.
    method_handlers: Vec<(String, H)>,
    /// The edges for literal segments.
    edges_literals: Vec<HttpRouterEdge<H>>,
    /// The edge for a variable.
    edge_varname: Option<Box<HttpRouterEdge<H>>>,
}

/// Routes requests to handlers of the type `H`.
#[derive(Debug)]
pub struct HttpRouter<H> {
    root: HttpRouterNode<H>,
}

/// The segment is a variable: at least one character between the encoded
/// braces.
pub open spec fn is_variable(segment: Seq<char>) -> bool {
    &&& segment.len() >= 7
    &&& segment.subrange(0, 3) == "%7B"@
    &&& segment.subrange(segment.len() - 3, segment.len() as int) == "%7D"@
}

impl PathSegment {
    /// The segment of a route that an encoded segment of a URL stands for:
    /// a variable if it is in encoded braces, else a literal.
    pub fn from(segment: &String) -> (res: PathSegment)
        ensures
            res@ == segment_view(segment@),
    {
        let text = segment.as_str();
        let n = text.unicode_len();
        proof {
            reveal_strlit("%7B");
            reveal_strlit("%7D");
        }
        if n >= 7 && text.get_char(0) == '%' && text.get_char(1) == '7' && text.get_char(2) == 'B'
            && text.get_char(n - 3) == '%' && text.get_char(n - 2) == '7' && text.get_char(n - 1)
            == 'D' {
            assert(segment@.subrange(0, 3) =~= "%7B"@);
            assert(segment@.subrange(n - 3, n as int) =~= "%7D"@);
            PathSegment::Varname(String::from_str(text.substring_char(3, n - 3)))
        } else {
            proof {
                if is_variable(segment@) {
                    assert(segment@.subrange(0, 3)[0] == segment@[0]);
                    assert(segment@.subrange(0, 3)[1] == segment@[1]);
                    assert(segment@.subrange(0, 3)[2] == segment@[2]);
                    assert(segment@.subrange(n - 3, n as int)[0] == segment@[n - 3]);
                    assert(segment@.subrange(n - 3, n as int)[1] == segment@[n - 2]);
                    assert(segment@.subrange(n - 3, n as int)[2] == segment@[n - 1]);
                }
            }
            PathSegment::Literal(segment.clone())
        }
    }
}

/// The position of the first edge with the name, from `from` on.
spec fn first_edge<H>(edges: Seq<HttpRouterEdge<H>>, name: Seq<char>, from: int) -> Option<int>
    decreases edges.len() - from,
{
    if from < 0 || from >= edges.len() {
        None
    } else if edges[from].name@ == name {
        Some(from)
    } else {
        first_edge(edges, name, from + 1)
    }
}

/// The position of the first handler for the method, from `from` on.
spec fn first_handler<H>(handlers: Seq<(String, H)>, method: Seq<char>, from: int) -> Option<int>
    decreases handlers.len() - from,
{
    if from < 0 || from >= handlers.len() {
        None
    } else if handlers[from].0@ == method {
        Some(from)
    } else {
        first_handler(handlers, method, from + 1)
    }
}

/// What a lookup from the node finds for the method and the segments that
/// are left, with the variables bound so far.
spec fn node_lookup<H>(
    node: HttpRouterNode<H>,
    method: Seq<char>,
    segments: Seq<Seq<char>>,
    variables: Seq<(Seq<char>, Seq<char>)>,
) -> LookupView<H>
    decreases segments.len(),
{
    if segments.len() == 0 {
        match first_handler(node.method_handlers@, method, 0) {
            Some(k) => LookupView::Found { handler: node.method_handlers@[k].1, variables },
            None => LookupView::MethodNotAllowed,
        }
    } else {
        match first_edge(node.edges_literals@, segments[0], 0) {
            Some(k) => node_lookup(
                node.edges_literals@[k].node,
                method,
                segments.drop_first(),
                variables,
            ),
            None => match node.edge_varname {
                Some(edge) => node_lookup(
                    edge.node,
                    method,
                    segments.drop_first(),
                    variables.push((edge.name@, segments[0])),
                ),
                None => LookupView::NotFound,
            },
        }
    }
}

/// The segments are, one by one, segments that the start of the path of
/// the route stands for.
pub open spec fn matches_start(route: Seq<PathSegmentView>, segments: Seq<Seq<char>>) -> bool
    decreases route.len(),
{
    if segments.len() == 0 {
        true
    } else if route.len() == 0 {
        false
    } else {
        (route[0] is Varname || route[0].name() == segments[0]) && matches_start(
            route.drop_first(),
            segments.drop_first(),
        )
    }
}

/// The variables of the start of the route, with the segments in their
/// places.
pub open spec fn bindings(route: Seq<PathSegmentView>, segments: Seq<Seq<char>>) -> Seq<
    (Seq<char>, Seq<char>),
>
    decreases route.len(),
{
    if segments.len() == 0 || route.len() == 0 {
        Seq::empty()
    } else if route[0] is Varname {
        seq![(route[0].name(), segments[0])] + bindings(route.drop_first(), segments.drop_first())
    } else {
        bindings(route.drop_first(), segments.drop_first())
    }
}

/// What a lookup finds once the route has been registered with the
/// handler, given what it found before: the handler for a request of the
/// method that matches the route; what it found, or that the method is not
/// allowed, for another request that matches the route or its start; and
/// what it found for any other request.
pub open spec fn lookup_after_insert<H>(
    before: LookupView<H>,
    route: Seq<PathSegmentView>,
    route_method: Seq<char>,
    handler: H,
    method: Seq<char>,
    segments: Seq<Seq<char>>,
    variables: Seq<(Seq<char>, Seq<char>)>,
) -> LookupView<H> {
    if !matches_start(route, segments) {
        before
    } else if segments.len() == route.len() && method == route_method {
        LookupView::Found { handler, variables: variables + bindings(route, segments) }
    } else {
        before.with_node()
    }
}

/// What stands against the registration of the rest of a route at a node,
/// given the variable names of the route so far.
spec fn node_conflict<H>(
    node: HttpRouterNode<H>,
    route: Seq<PathSegmentView>,
    method: Seq<char>,
    seen: Set<Seq<char>>,
) -> Option<RouteConflictView>
    decreases route.len(),
{
    if route.len() == 0 {
        if first_handler(node.method_handlers@, method, 0) is Some {
            Some(RouteConflictView::DuplicateRoute { method })
        } else {
            None
        }
    } else {
        match route[0] {
            PathSegmentView::Literal(literal) => {
                if node.edge_varname is Some {
                    Some(
                        RouteConflictView::LiteralAfterVariable {
                            literal,
                            varname: node.edge_varname->0.name@,
                        },
                    )
                } else {
                    match first_edge(node.edges_literals@, literal, 0) {
                        Some(k) => node_conflict(
                            node.edges_literals@[k].node,
                            route.drop_first(),
                            method,
                            seen,
                        ),
                        None => path_conflict(route.drop_first(), seen),
                    }
                }
            },
            PathSegmentView::Varname(varname) => {
                if node.edges_literals@.len() > 0 {
                    Some(RouteConflictView::VariableAfterLiteral { varname })
                } else if seen.contains(varname) {
                    Some(RouteConflictView::DuplicateVarname { varname })
                } else {
                    match node.edge_varname {
                        None => path_conflict(route.drop_first(), seen.insert(varname)),
                        Some(edge) => if edge.name@ != varname {
                            Some(
                                RouteConflictView::InconsistentVarname {
                                    varname,
                                    existing: edge.name@,
                                },
                            )
                        } else {
                            node_conflict(
                                edge.node,
                                route.drop_first(),
                                method,
                                seen.insert(varname),
                            )
                        },
                    }
                }
            },
        }
    }
}

/// What stands against the rest of a route where the tree has no node for
/// it yet: a variable name used before.
pub open spec fn path_conflict(route: Seq<PathSegmentView>, seen: Set<Seq<char>>) -> Option<
    RouteConflictView,
>
    decreases route.len(),
{
    if route.len() == 0 {
        None
    } else {
        match route[0] {
            PathSegmentView::Literal(_) => path_conflict(route.drop_first(), seen),
            PathSegmentView::Varname(varname) => if seen.contains(varname) {
                Some(RouteConflictView::DuplicateVarname { varname })
            } else {
                path_conflict(route.drop_first(), seen.insert(varname))
            },
        }
    }
}

/// The position of the first edge with the name.
#[verifier::loop_isolation(false)]
fn find_edge<H>(edges: &Vec<HttpRouterEdge<H>>, name: &str) -> (res: Option<usize>)
    ensures
        first_edge(edges@, name@, 0) == match res {
            Some(k) => Some(k as int),
            None => None,
        },
        res matches Some(k) ==> k < edges.len() && edges@[k as int].name@ == name@,
{
    let mut i: usize = 0;
    while i < edges.len()
        invariant
            i <= edges.len(),
            first_edge(edges@, name@, 0) == first_edge(edges@, name@, i as int),
        decreases edges.len() - i,
    {
        if crate::names::str_eq(edges[i].name.as_str(), name) {
            return Some(i);
        }
        i += 1;
    }
    None
}

/// The position of the first handler for the method.
#[verifier::loop_isolation(false)]
fn find_handler<H>(handlers: &Vec<(String, H)>, method: &str) -> (res: Option<usize>)
    ensures
        first_handler(handlers@, method@, 0) == match res {
            Some(k) => Some(k as int),
            None => None,
        },
        res matches Some(k) ==> k < handlers.len(),
{
    let mut i: usize = 0;
    while i < handlers.len()
        invariant
            i <= handlers.len(),
            first_handler(handlers@, method@, 0) == first_handler(handlers@, method@, i as int),
        decreases handlers.len() - i,
    {
        if crate::names::str_eq(handlers[i].0.as_str(), method) {
            return Some(i);
        }
        i += 1;
    }
    None
}

impl<H> HttpRouterNode<H> {
    fn new() -> (res: HttpRouterNode<H>)
        ensures
            res.method_handlers@.len() == 0,
            res.edges_literals@.len() == 0,
            res.edge_varname is None,
    {
        HttpRouterNode {
            method_handlers: Vec::new(),
            edges_literals: Vec::new(),
            edge_varname: None,
        }
    }
}

/// A node without handlers and edges finds nothing.
proof fn lemma_empty_node<H>(
    node: HttpRouterNode<H>,
    method: Seq<char>,
    segments: Seq<Seq<char>>,
    variables: Seq<(Seq<char>, Seq<char>)>,
)
    requires
        node.method_handlers@.len() == 0,
        node.edges_literals@.len() == 0,
        node.edge_varname is None,
    ensures
        node_lookup(node, method, segments, variables) == if segments.len() == 0 {
            LookupView::<H>::MethodNotAllowed
        } else {
            LookupView::<H>::NotFound
        },
{
}

impl<H> HttpRouter<H> {
    /// What a lookup finds for the method and the segments.
    pub closed spec fn spec_lookup(&self, method: Seq<char>, segments: Seq<Seq<char>>)
        -> LookupView<H> {
        node_lookup(self.root, method, segments, Seq::empty())
    }

    /// What stands against the registration of a route for the method.
    pub closed spec fn spec_conflict(&self, method: Seq<char>, route: Seq<PathSegmentView>) -> Option<
        RouteConflictView,
    > {
        node_conflict(self.root, route, method, Set::empty())
    }

    /// A router without routes.
    pub fn new() -> (res: HttpRouter<H>)
        ensures
            forall|method: Seq<char>, segments: Seq<Seq<char>>|
                #[trigger] res.spec_lookup(method, segments) == if segments.len() == 0 {
                    LookupView::<H>::MethodNotAllowed
                } else {
                    LookupView::<H>::NotFound
                },
    {
        let res = HttpRouter { root: HttpRouterNode::new() };
        proof {
            assert forall|method: Seq<char>, segments: Seq<Seq<char>>|
                #[trigger] res.spec_lookup(method, segments) == if segments.len() == 0 {
                    LookupView::<H>::MethodNotAllowed
                } else {
                    LookupView::<H>::NotFound
                } by {
                lemma_empty_node(res.root, method, segments, Seq::empty());
            }
        }
        res
    }

    /// Looks the route up for a method, by its name in upper case, and the
    /// segments of a path.
    #[verifier::loop_isolation(false)]
    pub fn lookup_segments<'a>(&'a self, method: &str, segments: &Vec<String>) -> (res: Result<
        LookupResult<'a, H>,
        LookupError,
    >)
        ensures
            match self.spec_lookup(method@, texts(segments@)) {
                LookupView::Found { handler, variables } => res is Ok && *res->Ok_0.handler
                    == handler && bindings_view(res->Ok_0.variables@) == variables,
                LookupView::NotFound => res == Err::<LookupResult<'a, H>, LookupError>(
                    LookupError::NotFound,
                ),
                LookupView::MethodNotAllowed => res == Err::<LookupResult<'a, H>, LookupError>(
                    LookupError::MethodNotAllowed,
                ),
            },
    {
        let ghost all = texts(segments@);
        let mut node: &HttpRouterNode<H> = &self.root;
        let mut variables: Vec<(String, String)> = Vec::new();
        let mut i: usize = 0;
        assert(all.skip(0) =~= all);
        assert(bindings_view(variables@) =~= Seq::empty());
        while i < segments.len()
            invariant
                i <= segments.len(),
                self.spec_lookup(method@, all) == node_lookup(
                    *node,
                    method@,
                    all.skip(i as int),
                    bindings_view(variables@),
                ),
            decreases segments.len() - i,
        {
            let segment = &segments[i];
            proof {
                assert(all.skip(i as int)[0] == segment@);
                assert(all.skip(i as int).drop_first() =~= all.skip(i + 1));
            }
            match find_edge(&node.edges_literals, segment.as_str()) {
                Some(k) => {
                    node = &node.edges_literals[k].node;
                },
                None => match &node.edge_varname {
                    Some(edge) => {
                        let ghost before = variables@;
                        variables.push((edge.name.clone(), segment.clone()));
                        assert(bindings_view(variables@) =~= bindings_view(before).push(
                            (edge.name@, segment@),
                        ));
                        node = &edge.node;
                    },
                    None => {
                        return Err(LookupError::NotFound);
                    },
                },
            }
            i += 1;
        }
        match find_handler(&node.method_handlers, method) {
            Some(k) => Ok(LookupResult { handler: &node.method_handlers[k].1, variables }),
            None => Err(LookupError::MethodNotAllowed),
        }
    }

    /// Looks the route up for a request with the method and the path.
    pub fn lookup_route<'a>(&'a self, method: &http::Method, path: &str) -> (res: Result<
        LookupResult<'a, H>,
        LookupError,
    >)
        requires
            url_path_segments(path@) is Some,
        ensures
            match self.spec_lookup(method_key(*method), url_path_segments(path@)->0) {
                LookupView::Found { handler, variables } => res is Ok && *res->Ok_0.handler
                    == handler && bindings_view(res->Ok_0.variables@) == variables,
                LookupView::NotFound => res == Err::<LookupResult<'a, H>, LookupError>(
                    LookupError::NotFound,
                ),
                LookupView::MethodNotAllowed => res == Err::<LookupResult<'a, H>, LookupError>(
                    LookupError::MethodNotAllowed,
                ),
            },
    {
        let segments = path_to_segments(path).unwrap();
        let name = method_name(method);
        self.lookup_segments(name.as_str(), &segments)
    }

    /// Looks the route up for a request with the method and the path, if
    /// the path makes a URL.
    pub fn try_lookup_route<'a>(&'a self, method: &http::Method, path: &str) -> (res: Option<
        Result<LookupResult<'a, H>, LookupError>,
    >)
        ensures
            res is Some == url_path_segments(path@) is Some,
            res is Some ==> match self.spec_lookup(
                method_key(*method),
                url_path_segments(path@)->0,
            ) {
                LookupView::Found { handler, variables } => res->0 is Ok && *res->0->Ok_0.handler
                    == handler && bindings_view(res->0->Ok_0.variables@) == variables,
                LookupView::NotFound => res->0 == Err::<LookupResult<'a, H>, LookupError>(
                    LookupError::NotFound,
                ),
                LookupView::MethodNotAllowed => res->0 == Err::<LookupResult<'a, H>, LookupError>(
                    LookupError::MethodNotAllowed,
                ),
            },
    {
        match path_to_segments(path) {
            None => None,
            Some(_) => Some(self.lookup_route(method, path)),
        }
    }
}

/// The names seen, as a set.
spec fn seen_set(seen: Seq<String>) -> Set<Seq<char>> {
    Set::new(|name: Seq<char>| exists|i: int| 0 <= i < seen.len() && (#[trigger] seen[i])@ == name)
}

/// Whether the name is among the names seen.
#[verifier::loop_isolation(false)]
fn is_seen(seen: &Vec<String>, name: &str) -> (res: bool)
    ensures
        res == seen_set(seen@).contains(name@),
{
    let mut i: usize = 0;
    while i < seen.len()
        invariant
            i <= seen.len(),
            forall|j: int| 0 <= j < i ==> (#[trigger] seen@[j])@ != name@,
        decreases seen.len() - i,
    {
        if crate::names::str_eq(seen[i].as_str(), name) {
            return true;
        }
        i += 1;
    }
    false
}

/// One more edge: the first edge with a name is where it was, or the new
/// edge if there was none and the new edge has the name.
proof fn lemma_first_edge_push<H>(
    edges: Seq<HttpRouterEdge<H>>,
    edge: HttpRouterEdge<H>,
    name: Seq<char>,
    from: int,
)
    requires
        0 <= from <= edges.len(),
    ensures
        first_edge(edges.push(edge), name, from) == match first_edge(edges, name, from) {
            Some(k) => Some(k),
            None => if edge.name@ == name {
                Some(edges.len() as int)
            } else {
                None
            },
        },
    decreases edges.len() - from,
{
    if from < edges.len() {
        assert(edges.push(edge)[from] == edges[from]);
        if edges[from].name@ != name {
            lemma_first_edge_push(edges, edge, name, from + 1);
        }
    } else {
        assert(edges.push(edge)[from] == edge);
        assert(first_edge(edges.push(edge), name, from + 1) is None);
    }
}

/// Edges with the same names: the first edge with a name is at the same
/// place.
proof fn lemma_first_edge_names<H>(
    a: Seq<HttpRouterEdge<H>>,
    b: Seq<HttpRouterEdge<H>>,
    name: Seq<char>,
    from: int,
)
    requires
        a.len() == b.len(),
        forall|i: int| 0 <= i < a.len() ==> (#[trigger] a[i]).name == b[i].name,
        0 <= from,
    ensures
        first_edge(a, name, from) == first_edge(b, name, from),
        first_edge(a, name, from) matches Some(k) ==> from <= k < a.len() && a[k].name@ == name,
    decreases a.len() - from,
{
    if from < a.len() {
        assert(a[from].name == b[from].name);
        if a[from].name@ != name {
            lemma_first_edge_names(a, b, name, from + 1);
        }
    }
}

/// One more handler: the first handler for a method is where it was, or
/// the new handler if there was none and the new handler is for the method.
proof fn lemma_first_handler_push<H>(
    handlers: Seq<(String, H)>,
    entry: (String, H),
    method: Seq<char>,
    from: int,
)
    requires
        0 <= from <= handlers.len(),
    ensures
        first_handler(handlers.push(entry), method, from) == match first_handler(
            handlers,
            method,
            from,
        ) {
            Some(k) => Some(k),
            None => if entry.0@ == method {
                Some(handlers.len() as int)
            } else {
                None
            },
        },
        first_handler(handlers, method, from) matches Some(k) ==> from <= k < handlers.len(),
    decreases handlers.len() - from,
{
    if from < handlers.len() {
        assert(handlers.push(entry)[from] == handlers[from]);
        if handlers[from].0@ != method {
            lemma_first_handler_push(handlers, entry, method, from + 1);
        }
    } else {
        assert(handlers.push(entry)[from] == entry);
        assert(first_handler(handlers.push(entry), method, from + 1) is None);
    }
}

/// Registers the rest of a route, from the segment at `at` on, at a node.
fn insert_at<H>(
    node: &mut HttpRouterNode<H>,
    route: &Vec<PathSegment>,
    at: usize,
    method: String,
    handler: H,
    Ghost(seen): Ghost<Set<Seq<char>>>,
)
    requires
        at <= route.len(),
        node_conflict(*old(node), route_view(route@).skip(at as int), method@, seen) is None,
    ensures
        forall|m: Seq<char>, segments: Seq<Seq<char>>, variables: Seq<(Seq<char>, Seq<char>)>|
            #[trigger] node_lookup(*final(node), m, segments, variables) == lookup_after_insert(
                node_lookup(*old(node), m, segments, variables),
                route_view(route@).skip(at as int),
                method@,
                handler,
                m,
                segments,
                variables,
            ),
    decreases route.len() - at,
{
    let ghost before = *node;
    let ghost rest = route_view(route@).skip(at as int);
    let ghost route_method = method@;
    if at == route.len() {
        node.method_handlers.push((method, handler));
        proof {
            assert forall|m: Seq<char>, segments: Seq<Seq<char>>, variables: Seq<
                (Seq<char>, Seq<char>),
            >| #[trigger]
                node_lookup(*node, m, segments, variables) == lookup_after_insert(
                    node_lookup(before, m, segments, variables),
                    rest,
                    route_method,
                    handler,
                    m,
                    segments,
                    variables,
                ) by {
                lemma_first_handler_push(
                    before.method_handlers@,
                    node.method_handlers@.last(),
                    m,
                    0,
                );
                if segments.len() == 0 {
                    assert(variables + bindings(rest, segments) =~= variables);
                }
            }
        }
        return ;
    }
    proof {
        assert(rest[0] == route@[at as int]@);
        assert(rest.drop_first() =~= route_view(route@).skip(at + 1));
    }
    match &route[at] {
        PathSegment::Literal(literal) => {
            let found = find_edge(&node.edges_literals, literal.as_str());
            let k = match found {
                Some(k) => k,
                None => {
                    node.edges_literals.push(
                        HttpRouterEdge { name: literal.clone(), node: HttpRouterNode::new() },
                    );
                    node.edges_literals.len() - 1
                },
            };
            let ghost grown = *node;
            let ghost child = grown.edges_literals@[k as int].node;
            proof {
                if found is None {
                    lemma_first_edge_push(
                        before.edges_literals@,
                        grown.edges_literals@[k as int],
                        literal@,
                        0,
                    );
                    lemma_path_conflict_is_node_conflict(child, rest.drop_first(), route_method, seen);
                }
            }
            insert_at(&mut node.edges_literals[k].node, route, at + 1, method, handler, Ghost(seen));
            proof {
                let after = *node;
                let grown_child = after.edges_literals@[k as int].node;
                assert forall|m: Seq<char>, segments: Seq<Seq<char>>, variables: Seq<
                    (Seq<char>, Seq<char>),
                >| #[trigger]
                    node_lookup(after, m, segments, variables) == lookup_after_insert(
                        node_lookup(before, m, segments, variables),
                        rest,
                        route_method,
                        handler,
                        m,
                        segments,
                        variables,
                    ) by {
                    if segments.len() > 0 {
                        let tail = segments.drop_first();
                        lemma_first_edge_names(
                            after.edges_literals@,
                            grown.edges_literals@,
                            segments[0],
                            0,
                        );
                        if found is None {
                            lemma_first_edge_push(
                                before.edges_literals@,
                                grown.edges_literals@[k as int],
                                segments[0],
                                0,
                            );
                            lemma_first_edge_names(
                                before.edges_literals@,
                                before.edges_literals@,
                                segments[0],
                                0,
                            );
                            lemma_empty_node(child, m, tail, variables);
                        }
                        if segments[0] == literal@ {
                            assert(node_lookup(after, m, segments, variables) == node_lookup(
                                grown_child,
                                m,
                                tail,
                                variables,
                            ));
                            assert(node_lookup(grown_child, m, tail, variables)
                                == lookup_after_insert(
                                node_lookup(child, m, tail, variables),
                                rest.drop_first(),
                                route_method,
                                handler,
                                m,
                                tail,
                                variables,
                            ));
                        } else {
                            match first_edge(after.edges_literals@, segments[0], 0) {
                                Some(j) => {
                                    assert(after.edges_literals@[j] == grown.edges_literals@[j]);
                                },
                                None => {},
                            }
                        }
                    }
                }
            }
        },
        PathSegment::Varname(varname) => {
            if node.edge_varname.is_none() {
                node.edge_varname = Some(
                    Box::new(HttpRouterEdge { name: varname.clone(), node: HttpRouterNode::new() }),
                );
            }
            let ghost grown = *node;
            let ghost child = grown.edge_varname->0.node;
            proof {
                if before.edge_varname is None {
                    lemma_path_conflict_is_node_conflict(
                        child,
                        rest.drop_first(),
                        route_method,
                        seen.insert(varname@),
                    );
                }
            }
            match &mut node.edge_varname {
                Some(edge) => {
                    insert_at(
                        &mut edge.node,
                        route,
                        at + 1,
                        method,
                        handler,
                        Ghost(seen.insert(varname@)),
                    );
                },
                None => {},
            }
            proof {
                let after = *node;
                let grown_child = after.edge_varname->0.node;
                assert forall|m: Seq<char>, segments: Seq<Seq<char>>, variables: Seq<
                    (Seq<char>, Seq<char>),
                >| #[trigger]
                    node_lookup(after, m, segments, variables) == lookup_after_insert(
                        node_lookup(before, m, segments, variables),
                        rest,
                        route_method,
                        handler,
                        m,
                        segments,
                        variables,
                    ) by {
                    if segments.len() > 0 {
                        let tail = segments.drop_first();
                        let bound = variables.push((varname@, segments[0]));
                        if before.edge_varname is None {
                            lemma_empty_node(child, m, tail, bound);
                        }
                        assert(node_lookup(after, m, segments, variables) == node_lookup(
                            grown_child,
                            m,
                            tail,
                            bound,
                        ));
                        assert(node_lookup(grown_child, m, tail, bound) == lookup_after_insert(
                            node_lookup(child, m, tail, bound),
                            rest.drop_first(),
                            route_method,
                            handler,
                            m,
                            tail,
                            bound,
                        ));
                        assert(variables + bindings(rest, segments) =~= bound + bindings(
                            rest.drop_first(),
                            tail,
                        ));
                    }
                }
            }
        },
    }
}

/// At a node without handlers and edges, only the path stands against a
/// route.
proof fn lemma_path_conflict_is_node_conflict<H>(
    node: HttpRouterNode<H>,
    route: Seq<PathSegmentView>,
    method: Seq<char>,
    seen: Set<Seq<char>>,
)
    requires
        node.method_handlers@.len() == 0,
        node.edges_literals@.len() == 0,
        node.edge_varname is None,
    ensures
        node_conflict(node, route, method, seen) == path_conflict(route, seen),
{
}

impl<H> HttpRouter<H> {
    /// What stands against the registration of a route for a method, by its
    /// name in upper case.
    #[verifier::loop_isolation(false)]
    pub fn check_insert(&self, method: &str, route: &Vec<PathSegment>) -> (res: Option<
        RouteConflict,
    >)
        ensures
            res is Some == self.spec_conflict(method@, route_view(route@)) is Some,
            res matches Some(conflict) ==> conflict@ == self.spec_conflict(
                method@,
                route_view(route@),
            )->0,
    {
        let ghost goal = self.spec_conflict(method@, route_view(route@));
        let ghost views = route_view(route@);
        let mut node: Option<&HttpRouterNode<H>> = Some(&self.root);
        let mut seen: Vec<String> = Vec::new();
        let mut i: usize = 0;
        assert(views.skip(0) =~= views);
        assert(seen_set(seen@) =~= Set::empty());
        while i < route.len()
            invariant
                i <= route.len(),
                goal == match node {
                    Some(n) => node_conflict(*n, views.skip(i as int), method@, seen_set(seen@)),
                    None => path_conflict(views.skip(i as int), seen_set(seen@)),
                },
            decreases route.len() - i,
        {
            proof {
                assert(views.skip(i as int)[0] == route@[i as int]@);
                assert(views.skip(i as int).drop_first() =~= views.skip(i + 1));
            }
            match &route[i] {
                PathSegment::Literal(literal) => {
                    if let Some(n) = node {
                        if let Some(edge) = &n.edge_varname {
                            return Some(
                                RouteConflict::LiteralAfterVariable {
                                    literal: literal.clone(),
                                    varname: edge.name.clone(),
                                },
                            );
                        }
                        node = match find_edge(&n.edges_literals, literal.as_str()) {
                            Some(k) => Some(&n.edges_literals[k].node),
                            None => None,
                        };
                    }
                },
                PathSegment::Varname(varname) => {
                    if let Some(n) = node {
                        if n.edges_literals.len() > 0 {
                            return Some(
                                RouteConflict::VariableAfterLiteral { varname: varname.clone() },
                            );
                        }
                    }
                    if is_seen(&seen, varname.as_str()) {
                        return Some(RouteConflict::DuplicateVarname { varname: varname.clone() });
                    }
                    if let Some(n) = node {
                        node = match &n.edge_varname {
                            None => None,
                            Some(edge) => {
                                if !crate::names::str_eq(edge.name.as_str(), varname.as_str()) {
                                    return Some(
                                        RouteConflict::InconsistentVarname {
                                            varname: varname.clone(),
                                            existing: edge.name.clone(),
                                        },
                                    );
                                }
                                Some(&edge.node)
                            },
                        };
                    }
                    let ghost before = seen@;
                    seen.push(varname.clone());
                    proof {
                        assert(seen_set(seen@) =~= seen_set(before).insert(varname@)) by {
                            assert forall|name: Seq<char>| seen_set(seen@).contains(name)
                                == seen_set(before).insert(varname@).contains(name) by {
                                if seen_set(seen@).contains(name) {
                                    let w = choose|w: int|
                                        0 <= w < seen@.len() && (#[trigger] seen@[w])@ == name;
                                    if w < before.len() {
                                        assert(before[w]@ == name);
                                    }
                                }
                                if seen_set(before).contains(name) {
                                    let w = choose|w: int|
                                        0 <= w < before.len() && (#[trigger] before[w])@ == name;
                                    assert(seen@[w]@ == name);
                                }
                                if name == varname@ {
                                    assert(seen@[before.len() as int]@ == name);
                                }
                            }
                        }
                    }
                },
            }
            i += 1;
        }
        match node {
            Some(n) => match find_handler(&n.method_handlers, method) {
                Some(_) => Some(RouteConflict::DuplicateRoute { method: String::from_str(method) }),
                None => None,
            },
            None => None,
        }
    }

    /// Registers a route for a method, by its name in upper case, and a
    /// path of segments.
    pub fn insert_segments(&mut self, method: String, route: &Vec<PathSegment>, handler: H)
        requires
            old(self).spec_conflict(method@, route_view(route@)) is None,
        ensures
            forall|m: Seq<char>, segments: Seq<Seq<char>>|
                #[trigger] final(self).spec_lookup(m, segments) == lookup_after_insert(
                    old(self).spec_lookup(m, segments),
                    route_view(route@),
                    method@,
                    handler,
                    m,
                    segments,
                    Seq::empty(),
                ),
    {
        assert(route_view(route@).skip(0) =~= route_view(route@));
        insert_at(&mut self.root, route, 0, method, handler, Ghost(Set::empty()));
    }

    /// The route that the encoded segments of a URL stand for.
    #[verifier::loop_isolation(false)]
    pub fn segments_to_route(segments: &Vec<String>) -> (res: Vec<PathSegment>)
        ensures
            route_view(res@) == route_of(texts(segments@)),
    {
        let mut route: Vec<PathSegment> = Vec::new();
        let mut i: usize = 0;
        while i < segments.len()
            invariant
                i <= segments.len(),
                route@.len() == i,
                forall|k: int| 0 <= k < i ==> (#[trigger] route@[k])@ == segment_view(segments@[k]@),
            decreases segments.len() - i,
        {
            route.push(PathSegment::from(&segments[i]));
            i += 1;
        }
        assert(route_view(route@) =~= route_of(texts(segments@)));
        route
    }

    /// Registers the handler for requests with the method and a path that
    /// matches `path`.
    pub fn insert(&mut self, method: http::Method, path: &str, handler: H)
        requires
            url_path_segments(path@) is Some,
            old(self).spec_conflict(method_key(method), route_of(url_path_segments(path@)->0))
                is None,
        ensures
            forall|m: Seq<char>, segments: Seq<Seq<char>>|
                #[trigger] final(self).spec_lookup(m, segments) == lookup_after_insert(
                    old(self).spec_lookup(m, segments),
                    route_of(url_path_segments(path@)->0),
                    method_key(method),
                    handler,
                    m,
                    segments,
                    Seq::empty(),
                ),
    {
        let all_segments = path_to_segments(path).unwrap();
        let route = Self::segments_to_route(&all_segments);
        let methodname = method_name(&method);
        self.insert_segments(methodname, &route, handler);
    }

    /// Registers the handler for requests with the method and a path that
    /// matches `path`, unless the path makes no URL or the route breaks a
    /// rule of the router; then nothing changes.
    pub fn try_insert(&mut self, method: http::Method, path: &str, handler: H) -> (res: Result<
        (),
        RouteConflict,
    >)
        ensures
            url_path_segments(path@) is None ==> res is Err && res->Err_0@
                == RouteConflictView::InvalidPath && *final(self) == *old(self),
            url_path_segments(path@) is Some && old(self).spec_conflict(
                method_key(method),
                route_of(url_path_segments(path@)->0),
            ) is Some ==> res is Err && res->Err_0@ == old(self).spec_conflict(
                method_key(method),
                route_of(url_path_segments(path@)->0),
            )->0 && *final(self) == *old(self),
            url_path_segments(path@) is Some && old(self).spec_conflict(
                method_key(method),
                route_of(url_path_segments(path@)->0),
            ) is None ==> res is Ok && forall|m: Seq<char>, segments: Seq<Seq<char>>|
                #[trigger] final(self).spec_lookup(m, segments) == lookup_after_insert(
                    old(self).spec_lookup(m, segments),
                    route_of(url_path_segments(path@)->0),
                    method_key(method),
                    handler,
                    m,
                    segments,
                    Seq::empty(),
                ),
    {
        let all_segments = match path_to_segments(path) {
            None => {
                return Err(RouteConflict::InvalidPath);
            },
            Some(segments) => segments,
        };
        let route = Self::segments_to_route(&all_segments);
        let methodname = method_name(&method);
        match self.check_insert(methodname.as_str(), &route) {
            Some(conflict) => Err(conflict),
            None => {
                self.insert(method, path, handler);
                Ok(())
            },
        }
    }
}

} // verus!
