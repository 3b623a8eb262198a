//! The route table and the middleware plan around it.

use vstd::prelude::*;
use vstd::string::StringExecFns;
use crate::reply::{text_reply, Body, Reply, PAYLOAD_TOO_LARGE, REQUEST_TIMEOUT};

verus! {

/// The request methods that the table knows.
#[derive(Clone, Copy, Debug, PartialEq, Eq, Structural)]
pub enum Method {
    Get,
    Post,
}

/// The handlers that a route can lead to.
#[derive(Clone, Copy, Debug, PartialEq, Eq, Structural)]
pub enum Handler {
    GetUsers,
    CreateUser,
    GetPong,
    CallExternalService,
    ProtectedRoute,
    GetParams,
    GetQuestion,
    PostBodyData,
    GetAnswer1,
}

/// One segment of a path template: a literal that must be met exactly, or a
/// named parameter that takes whatever stands there.
#[derive(Debug)]
pub enum Segment {
    Literal(String),
    Param(String),
}

/// The mathematical value of a [`Segment`].
pub enum SegmentView {
    Literal(Seq<char>),
    Param(Seq<char>),
}

impl View for Segment {
    type V = SegmentView;

    open spec fn view(&self) -> SegmentView {
        match self {
            Segment::Literal(text) => SegmentView::Literal(text@),
            Segment::Param(name) => SegmentView::Param(name@),
        }
    }
}

impl DeepView for Segment {
    type V = SegmentView;

    open spec fn deep_view(&self) -> SegmentView {
        self@
    }
}

/// One entry of the table: a method, a path template and the handler.
#[derive(Debug)]
pub struct Route {
    pub method: Method,
    pub template: Vec<Segment>,
    pub handler: Handler,
}

/// The mathematical value of a [`Route`].
pub struct RouteView {
    pub method: Method,
    pub template: Seq<SegmentView>,
    pub handler: Handler,
}

impl View for Route {
    type V = RouteView;

    open spec fn view(&self) -> RouteView {
        RouteView {
            method: self.method,
            template: self.template.deep_view(),
            handler: self.handler,
        }
    }
}

impl DeepView for Route {
    type V = RouteView;

    open spec fn deep_view(&self) -> RouteView {
        self@
    }
}

/// One layer of the pipeline around the table.
#[derive(Clone, Copy, Debug, PartialEq, Eq, Structural)]
pub enum Layer {
    /// Opens a span per request and logs its start, its completion with the
    /// latency, and its failure where the reply is a server error.
    Trace,
    /// Compresses the body of the reply where the request accepts it.
    Compression,
    /// Rejects a request whose body is longer than this many bytes.
    BodyLimit(usize),
    /// Abandons a request after this many seconds and replies with the
    /// status.
    Timeout { status: u16, seconds: u64 },
}

/// The route table with its layers, the outermost first.
#[derive(Debug)]
pub struct Router {
    pub routes: Vec<Route>,
    pub layers: Vec<Layer>,
}

/// The mathematical value of a [`Router`].
pub struct RouterView {
    pub routes: Seq<RouteView>,
    pub layers: Seq<Layer>,
}

impl View for Router {
    type V = RouterView;

    open spec fn view(&self) -> RouterView {
        RouterView { routes: self.routes.deep_view(), layers: self.layers@ }
    }
}

/// The largest request body that is let through: ten mebibytes.
pub const BODY_LIMIT: usize = 10485760;

/// The seconds after which a request is abandoned.
pub const TIMEOUT_SECONDS: u64 = 60;

/// Whether a path, given by its segments, fits a template: as many segments,
/// and every literal met exactly.
pub open spec fn template_matches(template: Seq<SegmentView>, path: Seq<Seq<char>>) -> bool {
    &&& template.len() == path.len()
    &&& forall|i: int|
        0 <= i < template.len() ==> (#[trigger] template[i] matches SegmentView::Literal(text)
            ==> path[i] == text)
}

/// Whether a request with this method and path is one for this route.
pub open spec fn route_matches(route: RouteView, method: Method, path: Seq<Seq<char>>) -> bool {
    route.method == method && template_matches(route.template, path)
}

/// The segments of a path that stand where the template has a parameter, in
/// order.
pub open spec fn captures(template: Seq<SegmentView>, path: Seq<Seq<char>>) -> Seq<Seq<char>>
    recommends
        template.len() == path.len(),
    decreases template.len(),
{
    if template.len() == 0 || path.len() == 0 {
        Seq::empty()
    } else {
        let before = captures(template.drop_last(), path.drop_last());
        match template.last() {
            SegmentView::Param(_) => before.push(path.last()),
            SegmentView::Literal(_) => before,
        }
    }
}

/// The text of a template: a slash before every segment, a parameter in
/// braces.
pub open spec fn template_text(template: Seq<SegmentView>) -> Seq<char>
    decreases template.len(),
{
    if template.len() == 0 {
        Seq::empty()
    } else {
        template_text(template.drop_last()) + (match template.last() {
            SegmentView::Literal(text) => "/"@ + text,
            SegmentView::Param(name) => "/{"@ + name + "}"@,
        })
    }
}

/// What resolving a request found: the place of the route in the table, its
/// handler, and the segments that its parameters took.
#[derive(Debug)]
pub struct Resolved {
    pub index: usize,
    pub handler: Handler,
    pub captures: Vec<String>,
}

impl Route {
    /// The path template as text, as it is registered with a transport.
    pub fn path(&self) -> (text: String)
        ensures
            text@ == template_text(self@.template),
    {
        let mut text = String::new();
        let mut i: usize = 0;
        while i < self.template.len()
            invariant
                i <= self.template.len(),
                text@ == template_text(self@.template.take(i as int)),
            decreases self.template.len() - i,
        {
            proof {
                let next = self@.template.take(i + 1);
                assert(next.drop_last() =~= self@.template.take(i as int));
                assert(next.last() == self@.template[i as int]);
            }
            let ghost before = text@;
            match &self.template[i] {
                Segment::Literal(word) => {
                    text.append("/");
                    text.append(word.as_str());
                    assert(text@ =~= before + ("/"@ + word@));
                },
                Segment::Param(name) => {
                    text.append("/{");
                    text.append(name.as_str());
                    text.append("}");
                    assert(text@ =~= before + ("/{"@ + name@ + "}"@));
                },
            }
            i += 1;
        }
        assert(self@.template.take(i as int) =~= self@.template);
        text
    }

    /// Whether a request with this method and these path segments is one for
    /// this route.
    pub fn matches(&self, method: Method, path: &Vec<String>) -> (fits: bool)
        ensures
            fits == route_matches(self@, method, path.deep_view()),
    {
        if self.method != method || self.template.len() != path.len() {
            return false;
        }
        let mut i: usize = 0;
        while i < self.template.len()
            invariant
                i <= self.template.len(),
                self.template.len() == path.len(),
                forall|j: int|
                    0 <= j < i ==> (#[trigger] self@.template[j] matches SegmentView::Literal(text)
                        ==> path.deep_view()[j] == text),
            decreases self.template.len() - i,
        {
            match &self.template[i] {
                Segment::Literal(word) => {
                    if *word != path[i] {
                        assert(self@.template[i as int] == SegmentView::Literal(word@));
                        assert(path.deep_view()[i as int] != word@);
                        return false;
                    }
                },
                Segment::Param(_) => {},
            }
            i += 1;
        }
        true
    }

    /// The segments of `path` that stand where the template has a parameter.
    fn captured(&self, path: &Vec<String>) -> (taken: Vec<String>)
        requires
            self.template.len() == path.len(),
        ensures
            taken.deep_view() == captures(self@.template, path.deep_view()),
    {
        let mut taken: Vec<String> = Vec::new();
        let mut i: usize = 0;
        assert(taken.deep_view() =~= Seq::<Seq<char>>::empty());
        while i < self.template.len()
            invariant
                i <= self.template.len(),
                self.template.len() == path.len(),
                taken.deep_view() == captures(
                    self@.template.take(i as int),
                    path.deep_view().take(i as int),
                ),
            decreases self.template.len() - i,
        {
            proof {
                let next = self@.template.take(i + 1);
                let walked = path.deep_view().take(i + 1);
                assert(next.drop_last() =~= self@.template.take(i as int));
                assert(walked.drop_last() =~= path.deep_view().take(i as int));
                assert(next.last() == self@.template[i as int]);
                assert(walked.last() == path.deep_view()[i as int]);
            }
            let ghost before = taken.deep_view();
            match &self.template[i] {
                Segment::Param(_) => {
                    taken.push(path[i].clone());
                    assert(taken.deep_view() =~= before.push(path.deep_view()[i as int]));
                },
                Segment::Literal(_) => {},
            }
            i += 1;
        }
        assert(self@.template.take(i as int) =~= self@.template);
        assert(path.deep_view().take(i as int) =~= path.deep_view());
        taken
    }
}

impl Router {
    /// Finds the route for a request, given its method and the segments of its
    /// path: the first entry of the table that the request fits, with the
    /// segments that its parameters took, or `None` where it fits no entry.
    pub fn resolve(&self, method: Method, path: &Vec<String>) -> (found: Option<Resolved>)
        ensures
            match found {
                Some(resolved) => {
                    &&& resolved.index < self@.routes.len()
                    &&& route_matches(self@.routes[resolved.index as int], method, path.deep_view())
                    &&& forall|j: int|
                        0 <= j < resolved.index ==> !route_matches(
                            #[trigger] self@.routes[j],
                            method,
                            path.deep_view(),
                        )
                    &&& resolved.handler == self@.routes[resolved.index as int].handler
                    &&& resolved.captures.deep_view() == captures(
                        self@.routes[resolved.index as int].template,
                        path.deep_view(),
                    )
                },
                None => forall|j: int|
                    0 <= j < self@.routes.len() ==> !route_matches(
                        #[trigger] self@.routes[j],
                        method,
                        path.deep_view(),
                    ),
            },
    {
        let mut i: usize = 0;
        while i < self.routes.len()
            invariant
                i <= self.routes.len(),
                forall|j: int|
                    0 <= j < i ==> !route_matches(
                        #[trigger] self@.routes[j],
                        method,
                        path.deep_view(),
                    ),
            decreases self.routes.len() - i,
        {
            let route = &self.routes[i];
            assert(route@ == self@.routes[i as int]);
            if route.matches(method, path) {
                let taken = route.captured(path);
                return Some(Resolved { index: i, handler: route.handler, captures: taken });
            }
            i += 1;
        }
        None
    }
}

/// The routes of the service are disjoint: no request fits two entries of the
/// table, so resolving never depends on the order of registration.
pub proof fn lemma_routes_disjoint(method: Method, path: Seq<Seq<char>>, i: int, j: int)
    requires
        0 <= i < route_table().len(),
        0 <= j < route_table().len(),
        route_matches(route_table()[i], method, path),
        route_matches(route_table()[j], method, path),
    ensures
        i == j,
{
    reveal_strlit("users");
    reveal_strlit("ping");
    reveal_strlit("its-a-rainy-day");
    reveal_strlit("protected-enter");
    reveal_strlit("question_separator");
    reveal_strlit("body-data");
    reveal_strlit("params");
    let left = route_table()[i].template;
    let right = route_table()[j].template;
    if path.len() == 1 {
        assert(path[0] == left[0]->Literal_0);
        assert(path[0] == right[0]->Literal_0);
        assert("its-a-rainy-day"@[0] == 'i');
        assert("protected-enter"@[0] == 'p');
    }
}

/// Whether a body of this length is over the limit of one of the layers.
pub open spec fn over_limit(layers: Seq<Layer>, body_length: nat) -> bool {
    exists|i: int|
        0 <= i < layers.len() && (#[trigger] layers[i] matches Layer::BodyLimit(limit)
            && body_length > limit)
}

/// The status that answers a request which has run for `elapsed` seconds:
/// that of the outermost timeout layer whose time has passed, or none where
/// no such layer is.
pub open spec fn timeout_status(layers: Seq<Layer>, elapsed: nat) -> Option<u16>
    decreases layers.len(),
{
    if layers.len() == 0 {
        None
    } else {
        match layers[0] {
            Layer::Timeout { status, seconds } if elapsed >= seconds => Some(status),
            _ => timeout_status(layers.drop_first(), elapsed),
        }
    }
}

impl Router {
    /// What the limit layers say to a request before any handler sees it: a
    /// body that is over a limit is answered with 413 and goes no further,
    /// any other is let through.
    pub fn screen(&self, body_length: usize) -> (rejection: Option<Reply>)
        ensures
            over_limit(self@.layers, body_length as nat) ==> rejection.is_some()
                && rejection.unwrap()@ == text_reply(413, "length limit exceeded"@),
            !over_limit(self@.layers, body_length as nat) ==> rejection.is_none(),
    {
        let mut i: usize = 0;
        while i < self.layers.len()
            invariant
                i <= self.layers.len(),
                forall|j: int|
                    0 <= j < i ==> !(#[trigger] self@.layers[j] matches Layer::BodyLimit(limit)
                        && body_length > limit),
            decreases self.layers.len() - i,
        {
            match self.layers[i] {
                Layer::BodyLimit(limit) => {
                    if body_length > limit {
                        assert(self@.layers[i as int] == Layer::BodyLimit(limit));
                        return Some(Reply::text(PAYLOAD_TOO_LARGE, "length limit exceeded"));
                    }
                },
                _ => {},
            }
            i += 1;
        }
        None
    }

    /// What the timeout layers say of a request that has run for `elapsed`
    /// seconds: once the time of one has passed, the request is abandoned and
    /// answered with that layer's status and no text.
    pub fn deadline_reply(&self, elapsed: u64) -> (reply: Option<Reply>)
        ensures
            match timeout_status(self@.layers, elapsed as nat) {
                Some(status) => reply.is_some() && reply.unwrap()@ == text_reply(
                    status as int,
                    Seq::empty(),
                ),
                None => reply.is_none(),
            },
    {
        let mut i: usize = 0;
        assert(self@.layers.skip(0) =~= self@.layers);
        while i < self.layers.len()
            invariant
                i <= self.layers.len(),
                timeout_status(self@.layers, elapsed as nat) == timeout_status(
                    self@.layers.skip(i as int),
                    elapsed as nat,
                ),
            decreases self.layers.len() - i,
        {
            proof {
                assert(self@.layers.skip(i as int).drop_first() =~= self@.layers.skip(i + 1));
                assert(self@.layers.skip(i as int)[0] == self@.layers[i as int]);
            }
            match self.layers[i] {
                Layer::Timeout { status, seconds } => {
                    if elapsed >= seconds {
                        return Some(Reply { status, body: Body::Text(String::new()) });
                    }
                },
                _ => {},
            }
            i += 1;
        }
        None
    }
}

/// Under the layers of the service a body is rejected exactly when it is
/// longer than ten mebibytes, whatever the route and before any handler or
/// storage call.
pub proof fn lemma_body_limit(body_length: nat)
    ensures
        over_limit(layer_plan(), body_length) <==> body_length > 10485760,
{
    if body_length > 10485760 {
        assert(layer_plan()[2] == Layer::BodyLimit(10485760));
    }
}

/// Under the layers of the service a request is abandoned exactly when it
/// has run for sixty seconds, and the answer is 408.
pub proof fn lemma_deadline(elapsed: nat)
    ensures
        timeout_status(layer_plan(), elapsed) == if elapsed >= 60 {
            Some(408u16)
        } else {
            None
        },
{
    let outer = layer_plan();
    let inner = outer.drop_first().drop_first().drop_first();
    assert(outer[0] == Layer::Trace);
    assert(outer.drop_first()[0] == Layer::Compression);
    assert(outer.drop_first().drop_first()[0] == Layer::BodyLimit(10485760));
    assert(inner[0] == Layer::Timeout { status: 408, seconds: 60 });
    assert(inner.drop_first().len() == 0);
    reveal_with_fuel(timeout_status, 5);
}

/// A template with a single literal segment.
pub open spec fn single(text: Seq<char>) -> Seq<SegmentView> {
    seq![SegmentView::Literal(text)]
}

/// The table of the service.
pub open spec fn route_table() -> Seq<RouteView> {
    seq![
        RouteView { method: Method::Get, template: single("users"@), handler: Handler::GetUsers },
        RouteView {
            method: Method::Post,
            template: single("users"@),
            handler: Handler::CreateUser,
        },
        RouteView { method: Method::Get, template: single("ping"@), handler: Handler::GetPong },
        RouteView {
            method: Method::Get,
            template: single("its-a-rainy-day"@),
            handler: Handler::CallExternalService,
        },
        RouteView {
            method: Method::Get,
            template: single("protected-enter"@),
            handler: Handler::ProtectedRoute,
        },
        RouteView {
            method: Method::Get,
            template: seq![
                SegmentView::Literal("params"@),
                SegmentView::Param("param_1"@),
                SegmentView::Literal("another_p"@),
                SegmentView::Param("param_2"@),
            ],
            handler: Handler::GetParams,
        },
        RouteView {
            method: Method::Get,
            template: single("question_separator"@),
            handler: Handler::GetQuestion,
        },
        RouteView {
            method: Method::Post,
            template: single("body-data"@),
            handler: Handler::PostBodyData,
        },
    ]
}

/// The layers of the service, the outermost first: observability sees what
/// every inner layer did, compression is the last to touch a reply, the
/// limit acts before a body is parsed, and the timeout wraps the handlers.
pub open spec fn layer_plan() -> Seq<Layer> {
    seq![
        Layer::Trace,
        Layer::Compression,
        Layer::BodyLimit(10485760),
        Layer::Timeout { status: 408, seconds: 60 },
    ]
}

/// A route whose template is one literal segment.
fn plain_route(method: Method, text: &str, handler: Handler) -> (route: Route)
    ensures
        route@ == (RouteView { method, template: single(text@), handler }),
{
    let mut template: Vec<Segment> = Vec::new();
    template.push(Segment::Literal(String::from_str(text)));
    let route = Route { method, template, handler };
    assert(route@.template =~= single(text@));
    route
}

/// The route of the two path parameters.
fn params_route() -> (route: Route)
    ensures
        route@ == route_table()[5],
{
    let mut template: Vec<Segment> = Vec::new();
    template.push(Segment::Literal(String::from_str("params")));
    template.push(Segment::Param(String::from_str("param_1")));
    template.push(Segment::Literal(String::from_str("another_p")));
    template.push(Segment::Param(String::from_str("param_2")));
    let route = Route { method: Method::Get, template, handler: Handler::GetParams };
    assert(route@.template =~= route_table()[5].template);
    route
}

/// Builds the table of the service with its layers.
pub fn create_routes() -> (router: Router)
    ensures
        router@.routes == route_table(),
        router@.layers == layer_plan(),
{
    let mut routes: Vec<Route> = Vec::new();
    routes.push(plain_route(Method::Get, "users", Handler::GetUsers));
    routes.push(plain_route(Method::Post, "users", Handler::CreateUser));
    routes.push(plain_route(Method::Get, "ping", Handler::GetPong));
    routes.push(plain_route(Method::Get, "its-a-rainy-day", Handler::CallExternalService));
    routes.push(plain_route(Method::Get, "protected-enter", Handler::ProtectedRoute));
    routes.push(params_route());
    routes.push(plain_route(Method::Get, "question_separator", Handler::GetQuestion));
    routes.push(plain_route(Method::Post, "body-data", Handler::PostBodyData));
    let mut layers: Vec<Layer> = Vec::new();
    layers.push(Layer::Trace);
    layers.push(Layer::Compression);
    layers.push(Layer::BodyLimit(BODY_LIMIT));
    layers.push(Layer::Timeout { status: REQUEST_TIMEOUT, seconds: TIMEOUT_SECONDS });
    let router = Router { routes, layers };
    assert(router@.routes =~= route_table());
    assert(router@.layers =~= layer_plan());
    router
}

/// The table of the neighbouring service: `GET /pong` alone, with no layer.
pub fn create_pong_routes() -> (router: Router)
    ensures
        router@.routes == seq![
            (RouteView {
                method: Method::Get,
                template: single("pong"@),
                handler: Handler::GetAnswer1,
            }),
        ],
        router@.layers == Seq::<Layer>::empty(),
{
    let mut routes: Vec<Route> = Vec::new();
    routes.push(plain_route(Method::Get, "pong", Handler::GetAnswer1));
    let router = Router { routes, layers: Vec::new() };
    assert(router@.routes =~= seq![
        (RouteView { method: Method::Get, template: single("pong"@), handler: Handler::GetAnswer1 }),
    ]);
    assert(router@.layers =~= Seq::<Layer>::empty());
    router
}

} // verus!
