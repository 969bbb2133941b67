use http::Method;
use nexus_vpc::http_router::{HttpRouter, LookupError, PathSegment, RouteConflict};

fn new_handler() -> u32 {
    0
}

#[test]
fn test_duplicate_route() {
    let mut router = HttpRouter::new();
    router.try_insert(Method::GET, "/boo", new_handler()).unwrap();
    assert_eq!(
        router.try_insert(Method::GET, "/boo", new_handler()),
        Err(RouteConflict::DuplicateRoute { method: "GET".to_string() })
    );
}

#[test]
fn test_duplicate_varname() {
    let mut router = HttpRouter::new();
    assert_eq!(
        router.try_insert(Method::GET, "/projects/{id}/insts/{id}", new_handler()),
        Err(RouteConflict::DuplicateVarname { varname: "id".to_string() })
    );
}

#[test]
fn test_inconsistent_varname() {
    let mut router = HttpRouter::new();
    router.try_insert(Method::GET, "/projects/{project_id}", new_handler()).unwrap();
    assert_eq!(
        router.try_insert(Method::GET, "/projects/{id}", new_handler()),
        Err(RouteConflict::InconsistentVarname {
            varname: "id".to_string(),
            existing: "project_id".to_string()
        })
    );
}

#[test]
fn test_variable_after_literal() {
    let mut router = HttpRouter::new();
    router.try_insert(Method::GET, "/projects/default", new_handler()).unwrap();
    assert_eq!(
        router.try_insert(Method::GET, "/projects/{id}", new_handler()),
        Err(RouteConflict::VariableAfterLiteral { varname: "id".to_string() })
    );
}

#[test]
fn test_literal_after_variable() {
    let mut router = HttpRouter::new();
    router.try_insert(Method::GET, "/projects/{id}", new_handler()).unwrap();
    assert_eq!(
        router.try_insert(Method::GET, "/projects/default", new_handler()),
        Err(RouteConflict::LiteralAfterVariable {
            literal: "default".to_string(),
            varname: "id".to_string()
        })
    );
}

#[test]
fn test_router() {
    let mut router = HttpRouter::new();

    println!("router: {:?}", router);
    router.insert(Method::GET, "/foo/{bar}/baz", new_handler());
    router.insert(Method::GET, "/boo", new_handler());
    println!("router: {:?}", router);
}

#[test]
fn test_router_lookups() {
    let mut router = HttpRouter::new();
    router.insert(Method::GET, "/projects", 1u32);
    router.insert(Method::POST, "/projects", 2);
    router.insert(Method::GET, "/projects/{project_id}", 3);
    router.insert(Method::GET, "/projects/{project_id}/instances/{instance_id}", 4);
    router.insert(Method::DELETE, "/", 5);

    let lookup = router.lookup_route(&Method::GET, "/projects").unwrap();
    assert_eq!(*lookup.handler, 1);
    assert!(lookup.variables.is_empty());
    assert_eq!(*router.lookup_route(&Method::POST, "/projects").unwrap().handler, 2);

    let lookup = router.lookup_route(&Method::GET, "/projects/proj123").unwrap();
    assert_eq!(*lookup.handler, 3);
    assert_eq!(lookup.variables, vec![("project_id".to_string(), "proj123".to_string())]);

    let lookup = router.lookup_route(&Method::GET, "/projects/p/instances/i%20j").unwrap();
    assert_eq!(*lookup.handler, 4);
    assert_eq!(
        lookup.variables,
        vec![
            ("project_id".to_string(), "p".to_string()),
            ("instance_id".to_string(), "i%20j".to_string())
        ]
    );

    // No route has the path.
    assert_eq!(router.lookup_route(&Method::GET, "/foo").unwrap_err(), LookupError::NotFound);
    assert_eq!(
        router.lookup_route(&Method::GET, "/projects/p/instances/i/more").unwrap_err(),
        LookupError::NotFound
    );
    assert_eq!(LookupError::NotFound.status_code(), 404);
    // Routes have the path, or start with it, but none for the method.
    assert_eq!(
        router.lookup_route(&Method::PUT, "/projects").unwrap_err(),
        LookupError::MethodNotAllowed
    );
    assert_eq!(
        router.lookup_route(&Method::GET, "/projects/p/instances").unwrap_err(),
        LookupError::MethodNotAllowed
    );
    assert_eq!(LookupError::MethodNotAllowed.status_code(), 405);
    // The root has one (empty) segment.
    assert_eq!(*router.lookup_route(&Method::DELETE, "/").unwrap().handler, 5);
    assert_eq!(*router.try_lookup_route(&Method::DELETE, "").unwrap().unwrap().handler, 5);
    // A method is known by its name in upper case.
    assert_eq!(*router.lookup_segments("POST", &vec!["projects".to_string()]).unwrap().handler, 2);
    assert!(router.lookup_segments("post", &vec!["projects".to_string()]).is_err());
    // A method that is not written in upper case goes by its name in upper
    // case.
    let lower = Method::from_bytes(b"get").unwrap();
    assert_eq!(*router.lookup_route(&lower, "/projects").unwrap().handler, 1);
    // A path that makes no URL.
    assert!(router.try_lookup_route(&Method::GET, "http://[").is_none());
    assert_eq!(router.try_insert(Method::GET, "http://[", 9), Err(RouteConflict::InvalidPath));
}

#[test]
fn test_path_segments() {
    assert_eq!(PathSegment::from(&"projects".to_string()), PathSegment::Literal("projects".to_string()));
    assert_eq!(PathSegment::from(&"%7Bid%7D".to_string()), PathSegment::Varname("id".to_string()));
    assert_eq!(PathSegment::from(&"%7Bé%7D".to_string()), PathSegment::Varname("é".to_string()));
    // Nothing between the braces, or a brace missing.
    assert_eq!(PathSegment::from(&"%7B%7D".to_string()), PathSegment::Literal("%7B%7D".to_string()));
    assert_eq!(PathSegment::from(&"%7Bid".to_string()), PathSegment::Literal("%7Bid".to_string()));
    assert_eq!(PathSegment::from(&"id%7D".to_string()), PathSegment::Literal("id%7D".to_string()));
    assert_eq!(PathSegment::from(&"".to_string()), PathSegment::Literal("".to_string()));
    let route = HttpRouter::<u32>::segments_to_route(&vec!["a".to_string(), "%7Bb%7D".to_string()]);
    assert_eq!(route, vec![PathSegment::Literal("a".to_string()), PathSegment::Varname("b".to_string())]);
    let router = HttpRouter::<u32>::new();
    assert_eq!(router.check_insert("GET", &route), None);
}
