use cufarul_web::model::{Composition, Mode, Person, Record, Text};
use cufarul_web::respond::{search_results_response, Response};

fn body_of(r: Response) -> String {
    match r {
        Response::Json { body } => body,
        _ => panic!("the search answer is JSON"),
    }
}

#[test]
fn empty_results() {
    let r = search_results_response(&vec![]);
    assert_eq!(r.status(), 200);
    assert_eq!(r.content_type().as_deref(), Some("application/json"));
    let body = body_of(r);
    assert_eq!(body, "{\"results\":[]}");
    let v: serde_json::Value = serde_json::from_str(&body).unwrap();
    assert!(v.is_object());
    assert_eq!(v.as_object().unwrap().len(), 1);
    assert_eq!(v["results"].as_array().unwrap().len(), 0);
}

#[test]
fn query_hits_carry_their_kind() {
    let results = vec![
        Record::Person(Person {
            id: "bach".to_string(),
            name: "Johann Sebastian Bach".to_string(),
            compositions: vec!["bwv-1".to_string()],
        }),
        Record::Composition(Composition {
            id: "bwv-1".to_string(),
            title: "Wie schoen leuchtet der Morgenstern".to_string(),
        }),
    ];
    let body = body_of(search_results_response(&results));
    let v: serde_json::Value = serde_json::from_str(&body).unwrap();
    assert_eq!(v.as_object().unwrap().len(), 1);
    let entries = v["results"].as_array().unwrap();
    assert_eq!(entries.len(), 2);
    assert!(entries.iter().any(|e| e["kind"] == "Person" && e["id"] == "bach"));
    assert!(entries.iter().any(|e| e["kind"] == "Composition" && e["id"] == "bwv-1"));
    let person = &entries[0];
    assert_eq!(person["compositions"].as_array().unwrap().len(), 1);
    assert_eq!(person["compositions"][0], "bwv-1");
}

#[test]
fn one_record_of_each_kind() {
    let results = vec![
        Record::Composition(Composition { id: "c".to_string(), title: "C".to_string() }),
        Record::Person(Person {
            id: "p".to_string(),
            name: "P".to_string(),
            compositions: vec![],
        }),
        Record::Text(Text { id: "t".to_string(), title: "T".to_string() }),
        Record::Publication(cufarul_web::model::Publication {
            id: "b".to_string(),
            title: "B".to_string(),
        }),
        Record::Mode(Mode { key: 4, name: "fourth".to_string() }),
    ];
    let body = body_of(search_results_response(&results));
    let v: serde_json::Value = serde_json::from_str(&body).unwrap();
    let entries = v["results"].as_array().unwrap();
    let kinds: Vec<&str> = entries.iter().map(|e| e["kind"].as_str().unwrap()).collect();
    assert_eq!(kinds, vec!["Composition", "Person", "Text", "Publication", "Mode"]);
    assert_eq!(entries[4]["key"], 4);
    assert_eq!(entries[4]["name"], "fourth");
}

#[test]
fn exact_body_of_one_composition() {
    let results = vec![Record::Composition(Composition {
        id: "bwv-1".to_string(),
        title: "Morgenstern".to_string(),
    })];
    let body = body_of(search_results_response(&results));
    assert_eq!(
        body,
        "{\"results\":[{\"kind\":\"Composition\",\"id\":\"bwv-1\",\"title\":\"Morgenstern\"}]}"
    );
}

#[test]
fn strings_are_escaped() {
    let title = "a \"quoted\" back\\slash\nnewline\ttab\u{1} and unicode: \u{00e9}\u{0259}";
    let results = vec![Record::Composition(Composition {
        id: "x".to_string(),
        title: title.to_string(),
    })];
    let body = body_of(search_results_response(&results));
    let v: serde_json::Value = serde_json::from_str(&body).unwrap();
    assert_eq!(v["results"][0]["title"].as_str().unwrap(), title);
    assert!(body.contains("\\\"quoted\\\""));
    assert!(body.contains("\\\\"));
    assert!(body.contains("\\u000a"));
    assert!(body.contains("\\u0009"));
    assert!(body.contains("\\u0001"));
}

#[test]
fn mode_keys_with_more_digits() {
    let results = vec![Record::Mode(Mode { key: 200, name: "n".to_string() })];
    let body = body_of(search_results_response(&results));
    let v: serde_json::Value = serde_json::from_str(&body).unwrap();
    assert_eq!(v["results"][0]["key"], 200);
}

#[test]
fn results_with_unicode_round_trip() {
    let title = "Cantata \u{00e9}\u{0151}\u{4e50}";
    let results = vec![Record::Text(Text {
        id: "chorale-1".to_string(),
        title: title.to_string(),
    })];
    let body = body_of(search_results_response(&results));
    let v: serde_json::Value = serde_json::from_str(&body).unwrap();
    assert_eq!(v["results"][0]["kind"], "Text");
    assert_eq!(v["results"][0]["title"].as_str().unwrap(), title);
}
