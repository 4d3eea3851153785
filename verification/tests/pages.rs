use cufarul_web::model::{Catalog, Composition, Mode, Person, Publication, Record, Text};
use cufarul_web::respond::{respond, Context, Response, TemplateName};
use cufarul_web::routes::{dispatch, Method, RouteMatch};

fn segs(parts: &[&str]) -> Vec<String> {
    parts.iter().map(|s| s.to_string()).collect()
}

fn mode_names() -> [&'static str; 8] {
    ["first", "second", "third", "fourth", "fifth", "sixth", "seventh", "eighth"]
}

/// One composition `bwv-1` composed by `bach` setting text `chorale-1`, a
/// second person `anon` with no compositions, and the eight modes.
fn fixture() -> Catalog {
    let modes = mode_names()
        .iter()
        .enumerate()
        .map(|(i, name)| Mode { key: (i + 1) as u8, name: name.to_string() })
        .collect();
    Catalog {
        compositions: vec![Composition {
            id: "bwv-1".to_string(),
            title: "Wie schoen leuchtet der Morgenstern".to_string(),
        }],
        people: vec![
            Person {
                id: "bach".to_string(),
                name: "Johann Sebastian Bach".to_string(),
                compositions: vec!["bwv-1".to_string()],
            },
            Person { id: "anon".to_string(), name: "Anonymous".to_string(), compositions: vec![] },
        ],
        texts: vec![Text { id: "chorale-1".to_string(), title: "Morgenstern".to_string() }],
        publications: vec![Publication {
            id: "gesangbuch".to_string(),
            title: "Gesangbuch".to_string(),
        }],
        modes,
        node_count: 12,
    }
}

fn respond_to(method: Method, parts: &[&str]) -> Response {
    let catalog = fixture();
    let route = dispatch(method, &segs(parts));
    assert!(!matches!(route, RouteMatch::SearchPost));
    respond(&catalog, &route)
}

#[test]
fn index_page() {
    let r = respond_to(Method::Get, &[]);
    assert_eq!(r.status(), 200);
    assert_eq!(r.content_type().as_deref(), Some("text/html; charset=utf-8"));
    match r {
        Response::Html { template, context } => {
            assert!(matches!(template, TemplateName::Index));
            match context {
                Context::Index { count, compositions, composers, texts, modes } => {
                    assert!(count >= 4);
                    assert_eq!(count, 12);
                    assert_eq!(compositions.len(), 1);
                    assert_eq!(texts.len(), 1);
                    let composer_ids: Vec<&str> =
                        composers.iter().map(|p| p.id.as_str()).collect();
                    assert!(composer_ids.contains(&"bach"));
                    assert!(!composer_ids.contains(&"anon"));
                    let keys: Vec<u8> = modes.iter().map(|m| m.key).collect();
                    assert_eq!(keys, vec![1, 2, 3, 4, 5, 6, 7, 8]);
                }
                _ => panic!("index page carries the index context"),
            }
        }
        _ => panic!("index page renders a template"),
    }
}

#[test]
fn composition_page() {
    let r = respond_to(Method::Get, &["compositions", "bwv-1"]);
    assert_eq!(r.status(), 200);
    assert_eq!(r.content_type().as_deref(), Some("text/html; charset=utf-8"));
    match r {
        Response::Html { template, context } => {
            assert!(matches!(template, TemplateName::Composition));
            match context {
                Context::Entity { data: Record::Composition(c) } => assert_eq!(c.id, "bwv-1"),
                _ => panic!("composition page carries the composition record"),
            }
        }
        _ => panic!("composition page renders a template"),
    }
}

#[test]
fn person_page_without_compositions() {
    let r = respond_to(Method::Get, &["people", "anon"]);
    assert_eq!(r.status(), 200);
    match r {
        Response::Html { template, context } => {
            assert!(matches!(template, TemplateName::Person));
            match context {
                Context::Entity { data: Record::Person(p) } => {
                    assert_eq!(p.id, "anon");
                    assert!(p.compositions.is_empty());
                }
                _ => panic!("person page carries the person record"),
            }
        }
        _ => panic!("person page renders a template"),
    }
}

#[test]
fn text_and_publication_pages() {
    let r = respond_to(Method::Get, &["texts", "chorale-1"]);
    assert_eq!(r.status(), 200);
    let r = respond_to(Method::Get, &["publications", "gesangbuch"]);
    assert_eq!(r.status(), 200);
}

#[test]
fn missing_record_is_not_found() {
    let r = respond_to(Method::Get, &["compositions", "bwv-2"]);
    assert_eq!(r.status(), 404);
    assert!(r.content_type().is_none());
    assert!(matches!(r, Response::NotFound));
}

#[test]
fn search_page() {
    let r = respond_to(Method::Get, &["search"]);
    assert_eq!(r.status(), 200);
    match r {
        Response::Html { template, context } => {
            assert!(matches!(template, TemplateName::Search));
            assert!(matches!(context, Context::Empty));
        }
        _ => panic!("search page renders a template"),
    }
}

#[test]
fn mode_pages_in_range() {
    let r = respond_to(Method::Get, &["modes", "3"]);
    assert_eq!(r.status(), 200);
    assert_eq!(r.content_type().as_deref(), Some("text/html; charset=utf-8"));
    match r {
        Response::Html { template, context } => {
            assert!(matches!(template, TemplateName::Mode));
            match context {
                Context::Mode { data } => {
                    assert_eq!(data.key, 3);
                    assert_eq!(data.name, "third");
                }
                _ => panic!("mode page carries the mode record"),
            }
        }
        _ => panic!("mode page renders a template"),
    }
    for m in 1..=8u8 {
        assert_eq!(respond_to(Method::Get, &["modes", &m.to_string()]).status(), 200);
    }
}

#[test]
fn mode_requests_out_of_range() {
    let r = respond_to(Method::Get, &["modes", "0"]);
    assert_eq!(r.status(), 400);
    assert!(matches!(r, Response::ClientError));
    let r = respond_to(Method::Get, &["modes", "9"]);
    assert_eq!(r.status(), 400);
    assert!(matches!(r, Response::ClientError));
}

#[test]
fn missing_mode_entry_is_a_server_error() {
    // A catalog that broke its contract: the mapping lacks key 8.
    let mut catalog = fixture();
    catalog.modes.pop();
    let route = dispatch(Method::Get, &segs(&["modes", "8"]));
    let r = respond(&catalog, &route);
    assert_eq!(r.status(), 500);
    assert!(matches!(r, Response::ServerError));
}

#[test]
fn replaying_requests_repeats_responses() {
    let catalog = fixture();
    let paths: Vec<Vec<String>> = vec![
        segs(&[]),
        segs(&["compositions", "bwv-1"]),
        segs(&["people", "bach"]),
        segs(&["modes", "5"]),
        segs(&["search"]),
        segs(&["nothing", "here", "at", "all"]),
    ];
    for parts in paths {
        let first = respond(&catalog, &dispatch(Method::Get, &parts));
        let second = respond(&catalog, &dispatch(Method::Get, &parts));
        assert_eq!(first.status(), second.status());
        assert_eq!(first.content_type(), second.content_type());
        assert_eq!(body_of(&first), body_of(&second));
    }
}

fn body_of(r: &Response) -> Option<String> {
    match r {
        Response::Json { body } => Some(body.clone()),
        _ => None,
    }
}

#[test]
fn template_names() {
    assert_eq!(TemplateName::Index.name(), "index");
    assert_eq!(TemplateName::Composition.name(), "composition");
    assert_eq!(TemplateName::Person.name(), "person");
    assert_eq!(TemplateName::Text.name(), "text");
    assert_eq!(TemplateName::Publication.name(), "publication");
    assert_eq!(TemplateName::Mode.name(), "mode");
    assert_eq!(TemplateName::Search.name(), "search");
}
