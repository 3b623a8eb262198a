use excelsior::routes::{
    create_pong_routes, create_routes, Handler, Layer, Method, Route, Router, Segment,
    BODY_LIMIT, TIMEOUT_SECONDS,
};

fn segments(path: &str) -> Vec<String> {
    path.split('/').skip(1).map(|segment| segment.to_string()).collect()
}

#[test]
fn table_of_the_service() {
    let router = create_routes();
    let rendered: Vec<(Method, String, Handler)> = router
        .routes
        .iter()
        .map(|route| (route.method, route.path(), route.handler))
        .collect();
    assert_eq!(
        rendered,
        vec![
            (Method::Get, "/users".to_string(), Handler::GetUsers),
            (Method::Post, "/users".to_string(), Handler::CreateUser),
            (Method::Get, "/ping".to_string(), Handler::GetPong),
            (Method::Get, "/its-a-rainy-day".to_string(), Handler::CallExternalService),
            (Method::Get, "/protected-enter".to_string(), Handler::ProtectedRoute),
            (
                Method::Get,
                "/params/{param_1}/another_p/{param_2}".to_string(),
                Handler::GetParams
            ),
            (Method::Get, "/question_separator".to_string(), Handler::GetQuestion),
            (Method::Post, "/body-data".to_string(), Handler::PostBodyData),
        ]
    );
}

#[test]
fn layers_of_the_service() {
    let router = create_routes();
    assert_eq!(
        router.layers,
        vec![
            Layer::Trace,
            Layer::Compression,
            Layer::BodyLimit(10 * 1024 * 1024),
            Layer::Timeout { status: 408, seconds: 60 },
        ]
    );
    assert_eq!(BODY_LIMIT, 10485760);
    assert_eq!(TIMEOUT_SECONDS, 60);
}

#[test]
fn table_of_the_neighbour() {
    let router = create_pong_routes();
    assert_eq!(router.routes.len(), 1);
    assert_eq!(router.routes[0].method, Method::Get);
    assert_eq!(router.routes[0].path(), "/pong");
    assert_eq!(router.routes[0].handler, Handler::GetAnswer1);
    assert!(router.layers.is_empty());
    assert!(router.screen(usize::MAX).is_none());
    assert!(router.deadline_reply(u64::MAX).is_none());
}

#[test]
fn resolve_finds_each_route() {
    let router = create_routes();
    let cases = [
        (Method::Get, "/users", 0, Handler::GetUsers),
        (Method::Post, "/users", 1, Handler::CreateUser),
        (Method::Get, "/ping", 2, Handler::GetPong),
        (Method::Get, "/its-a-rainy-day", 3, Handler::CallExternalService),
        (Method::Get, "/protected-enter", 4, Handler::ProtectedRoute),
        (Method::Get, "/question_separator", 6, Handler::GetQuestion),
        (Method::Post, "/body-data", 7, Handler::PostBodyData),
    ];
    for (method, path, index, handler) in cases {
        let found = router.resolve(method, &segments(path)).unwrap();
        assert_eq!(found.index, index);
        assert_eq!(found.handler, handler);
        assert!(found.captures.is_empty());
    }
}

#[test]
fn resolve_captures_the_parameters() {
    let router = create_routes();
    let found = router
        .resolve(Method::Get, &segments("/params/42/another_p/test-param"))
        .unwrap();
    assert_eq!(found.index, 5);
    assert_eq!(found.handler, Handler::GetParams);
    assert_eq!(found.captures, vec!["42".to_string(), "test-param".to_string()]);
}

#[test]
fn resolve_finds_nothing_elsewhere() {
    let router = create_routes();
    assert!(router.resolve(Method::Post, &segments("/ping")).is_none());
    assert!(router.resolve(Method::Get, &segments("/body-data")).is_none());
    assert!(router.resolve(Method::Get, &segments("/pong")).is_none());
    assert!(router.resolve(Method::Get, &segments("/Users")).is_none());
    assert!(router.resolve(Method::Get, &segments("/users/1")).is_none());
    assert!(router.resolve(Method::Get, &segments("/params/42/another_p")).is_none());
    assert!(router.resolve(Method::Get, &segments("/params/42/other/x")).is_none());
    assert!(router.resolve(Method::Post, &segments("/params/42/another_p/x")).is_none());
    assert!(router.resolve(Method::Get, &Vec::new()).is_none());
}

#[test]
fn no_request_fits_two_routes() {
    let router = create_routes();
    let paths = [
        "/users",
        "/ping",
        "/its-a-rainy-day",
        "/protected-enter",
        "/params/1/another_p/2",
        "/question_separator",
        "/body-data",
        "/params/params/another_p/users",
    ];
    for method in [Method::Get, Method::Post] {
        for path in paths {
            let path = segments(path);
            let fitting = router.routes.iter().filter(|route| route.matches(method, &path)).count();
            assert!(fitting <= 1);
            assert_eq!(router.resolve(method, &path).is_some(), fitting == 1);
        }
    }
}

#[test]
fn first_fitting_route_wins_in_any_table() {
    let literal = |text: &str| Segment::Literal(text.to_string());
    let param = |name: &str| Segment::Param(name.to_string());
    let router = Router {
        routes: vec![
            Route { method: Method::Get, template: vec![literal("a"), param("x")], handler: Handler::GetPong },
            Route { method: Method::Get, template: vec![param("y"), param("z")], handler: Handler::GetUsers },
        ],
        layers: vec![],
    };
    let found = router.resolve(Method::Get, &segments("/a/b")).unwrap();
    assert_eq!(found.index, 0);
    assert_eq!(found.captures, vec!["b".to_string()]);
    let found = router.resolve(Method::Get, &segments("/c/d")).unwrap();
    assert_eq!(found.index, 1);
    assert_eq!(found.handler, Handler::GetUsers);
    assert_eq!(found.captures, vec!["c".to_string(), "d".to_string()]);
    assert_eq!(router.routes[1].path(), "/{y}/{z}");
}

#[test]
fn test_limit_exceeded() {
    let router = create_routes();
    let rejection = router.screen(10 * 1024 * 1024 + 1).unwrap();
    assert_eq!(rejection.status, 413);
    assert_eq!(rejection.body_text(), Some("length limit exceeded"));
    assert!(router.screen(10 * 1024 * 1024).is_none());
    assert!(router.screen(1024).is_none());
    assert!(router.screen(0).is_none());

    let small = Router { routes: vec![], layers: vec![Layer::Compression, Layer::BodyLimit(64)] };
    let long_body = "A".repeat(1024);
    assert_eq!(small.screen(long_body.len()).unwrap().status, 413);
    assert!(small.screen(64).is_none());
}

#[test]
fn deadline_of_the_service() {
    let router = create_routes();
    assert!(router.deadline_reply(0).is_none());
    assert!(router.deadline_reply(59).is_none());
    let reply = router.deadline_reply(60).unwrap();
    assert_eq!(reply.status, 408);
    assert_eq!(reply.body_text(), Some(""));
    assert_eq!(router.deadline_reply(3600).unwrap().status, 408);

    let nested = Router {
        routes: vec![],
        layers: vec![
            Layer::Timeout { status: 504, seconds: 30 },
            Layer::Timeout { status: 408, seconds: 10 },
        ],
    };
    assert_eq!(nested.deadline_reply(10).unwrap().status, 408);
    assert_eq!(nested.deadline_reply(30).unwrap().status, 504);
    assert!(nested.deadline_reply(9).is_none());
}
