use cufarul_web::model::{CollectionKey, EntityKind, ModeKey};
use cufarul_web::routes::{dispatch, parse_mode_segment, Method, RouteMatch};

fn segs(parts: &[&str]) -> Vec<String> {
    parts.iter().map(|s| s.to_string()).collect()
}

#[test]
fn index_route() {
    assert!(matches!(dispatch(Method::Get, &segs(&[])), RouteMatch::Index));
}

#[test]
fn entity_routes() {
    match dispatch(Method::Get, &segs(&["compositions", "bwv-1"])) {
        RouteMatch::Entity { key } => {
            assert_eq!(key.kind, EntityKind::Composition);
            assert_eq!(key.slug, "bwv-1");
        }
        other => panic!("unexpected route: {:?}", route_name(&other)),
    }
    match dispatch(Method::Get, &segs(&["people", "bach"])) {
        RouteMatch::Entity { key } => assert_eq!(key.kind, EntityKind::Person),
        other => panic!("unexpected route: {:?}", route_name(&other)),
    }
    match dispatch(Method::Get, &segs(&["texts", "chorale-1"])) {
        RouteMatch::Entity { key } => assert_eq!(key.kind, EntityKind::Text),
        other => panic!("unexpected route: {:?}", route_name(&other)),
    }
    match dispatch(Method::Get, &segs(&["publications", "gesangbuch"])) {
        RouteMatch::Entity { key } => assert_eq!(key.kind, EntityKind::Publication),
        other => panic!("unexpected route: {:?}", route_name(&other)),
    }
}

#[test]
fn empty_slug_is_not_a_route() {
    assert!(matches!(
        dispatch(Method::Get, &segs(&["compositions", ""])),
        RouteMatch::NotFound
    ));
}

#[test]
fn search_routes() {
    assert!(matches!(dispatch(Method::Get, &segs(&["search"])), RouteMatch::SearchPage));
    assert!(matches!(dispatch(Method::Post, &segs(&["search"])), RouteMatch::SearchPost));
    assert!(matches!(dispatch(Method::Post, &segs(&[])), RouteMatch::NotFound));
}

#[test]
fn unknown_paths_fall_through() {
    assert!(matches!(dispatch(Method::Get, &segs(&["nothing"])), RouteMatch::NotFound));
    assert!(matches!(
        dispatch(Method::Get, &segs(&["compositions", "bwv-1", "extra"])),
        RouteMatch::NotFound
    ));
    assert!(matches!(dispatch(Method::Post, &segs(&["modes", "3"])), RouteMatch::NotFound));
}

#[test]
fn mode_routes_in_range() {
    for m in 1..=8u8 {
        match dispatch(Method::Get, &segs(&["modes", &m.to_string()])) {
            RouteMatch::Mode { key } => assert_eq!(key.get(), m),
            other => panic!("unexpected route: {:?}", route_name(&other)),
        }
    }
}

#[test]
fn mode_routes_out_of_range() {
    assert!(matches!(dispatch(Method::Get, &segs(&["modes", "0"])), RouteMatch::ClientError));
    assert!(matches!(dispatch(Method::Get, &segs(&["modes", "9"])), RouteMatch::ClientError));
    assert!(matches!(dispatch(Method::Get, &segs(&["modes", "300"])), RouteMatch::ClientError));
    assert!(matches!(dispatch(Method::Get, &segs(&["modes", "abc"])), RouteMatch::ClientError));
    assert!(matches!(dispatch(Method::Get, &segs(&["modes", ""])), RouteMatch::ClientError));
    assert!(matches!(dispatch(Method::Get, &segs(&["modes", "-1"])), RouteMatch::ClientError));
}

#[test]
fn mode_parse_reads_decimal() {
    assert_eq!(parse_mode_segment("3").map(|k| k.get()), Some(3));
    assert_eq!(parse_mode_segment("003").map(|k| k.get()), Some(3));
    assert_eq!(parse_mode_segment("8").map(|k| k.get()), Some(8));
    assert!(parse_mode_segment("0").is_none());
    assert!(parse_mode_segment("00").is_none());
    assert!(parse_mode_segment("12").is_none());
    assert!(parse_mode_segment("99999999999999999999").is_none());
    assert!(parse_mode_segment("3 ").is_none());
}

#[test]
fn keys_reject_bad_input() {
    assert!(CollectionKey::new(EntityKind::Text, String::new()).is_none());
    assert!(CollectionKey::new(EntityKind::Text, "chorale-1".to_string()).is_some());
    assert!(ModeKey::new(0).is_none());
    assert!(ModeKey::new(9).is_none());
    assert_eq!(ModeKey::new(5).map(|k| k.get()), Some(5));
}

fn route_name(r: &RouteMatch) -> &'static str {
    match r {
        RouteMatch::Index => "index",
        RouteMatch::Entity { .. } => "entity",
        RouteMatch::Mode { .. } => "mode",
        RouteMatch::SearchPage => "search page",
        RouteMatch::SearchPost => "search post",
        RouteMatch::ClientError => "client error",
        RouteMatch::NotFound => "not found",
    }
}
