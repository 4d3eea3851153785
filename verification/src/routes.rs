//! The routing table: from an HTTP method and the path segments to a typed
//! route decision. Path parameters are taken verbatim; the mode segment is
//! parsed as a decimal integer and validated against `1..=8` here, before
//! any catalog lookup could happen.

use vstd::prelude::*;
use crate::model::{CollectionKey, EntityKind, ModeKey};

verus! {

/// The two request methods the table knows.
#[derive(Clone, Copy, PartialEq, Eq, Structural, Debug)]
pub enum Method {
    Get,
    Post,
}

/// Mathematical image of a route decision.
#[verifier::ext_equal]
pub enum SpecRoute {
    /// `GET /`
    Index,
    /// `GET /<collection>/<slug>` for the four string-keyed collections.
    Entity { kind: EntityKind, slug: Seq<char> },
    /// `GET /modes/<key>` with a key in `1..=8`.
    Mode { key: u8 },
    /// `GET /search`
    SearchPage,
    /// `POST /search`
    SearchPost,
    /// `GET /modes/<m>` with `m` outside `1..=8`.
    ClientError,
    /// Any path outside the table.
    NotFound,
}

/// One route decision, carrying the typed key the handler needs.
pub enum RouteMatch {
    Index,
    Entity { key: CollectionKey },
    Mode { key: ModeKey },
    SearchPage,
    SearchPost,
    ClientError,
    NotFound,
}

impl View for RouteMatch {
    type V = SpecRoute;

    open spec fn view(&self) -> SpecRoute {
        match self {
            RouteMatch::Index => SpecRoute::Index,
            RouteMatch::Entity { key } => SpecRoute::Entity { kind: key.kind, slug: key.slug@ },
            RouteMatch::Mode { key } => SpecRoute::Mode { key: key.spec_key() },
            RouteMatch::SearchPage => SpecRoute::SearchPage,
            RouteMatch::SearchPost => SpecRoute::SearchPost,
            RouteMatch::ClientError => SpecRoute::ClientError,
            RouteMatch::NotFound => SpecRoute::NotFound,
        }
    }
}

/// Whether `c` is a decimal digit.
pub open spec fn is_digit(c: char) -> bool {
    48 <= c as u32 <= 57
}

/// The value of the digit `c`.
pub open spec fn digit_value(c: char) -> nat
    recommends
        is_digit(c),
{
    (c as u32 - 48) as nat
}

/// Whether `s` is a non-empty sequence of decimal digits.
pub open spec fn is_digit_seq(s: Seq<char>) -> bool {
    s.len() > 0 && forall|i: int| 0 <= i < s.len() ==> is_digit(#[trigger] s[i])
}

/// The numeric value of a digit sequence, most significant digit first.
pub open spec fn decimal_value(s: Seq<char>) -> nat
    decreases s.len(),
{
    if s.len() == 0 {
        0
    } else {
        decimal_value(s.drop_last()) * 10 + digit_value(s.last())
    }
}

/// Whether a path segment denotes a valid mode key: all digits, with a value
/// in `1..=8`. Leading zeros are read over, as a decimal parse does.
pub open spec fn is_mode_segment(s: Seq<char>) -> bool {
    is_digit_seq(s) && 1 <= decimal_value(s) <= 8
}

/// The routing table of the service, at the level of views. A mode segment
/// that is not a key in `1..=8` is a client error; every path outside the
/// table is left to the framework's not-found answer.
pub open spec fn spec_route(method: Method, segs: Seq<Seq<char>>) -> SpecRoute {
    match method {
        Method::Get => {
            if segs.len() == 0 {
                SpecRoute::Index
            } else if segs.len() == 1 {
                if segs[0] == "search"@ {
                    SpecRoute::SearchPage
                } else {
                    SpecRoute::NotFound
                }
            } else if segs.len() == 2 {
                if segs[0] == "compositions"@ {
                    spec_entity_route(EntityKind::Composition, segs[1])
                } else if segs[0] == "people"@ {
                    spec_entity_route(EntityKind::Person, segs[1])
                } else if segs[0] == "texts"@ {
                    spec_entity_route(EntityKind::Text, segs[1])
                } else if segs[0] == "publications"@ {
                    spec_entity_route(EntityKind::Publication, segs[1])
                } else if segs[0] == "modes"@ {
                    if is_mode_segment(segs[1]) {
                        SpecRoute::Mode { key: decimal_value(segs[1]) as u8 }
                    } else {
                        SpecRoute::ClientError
                    }
                } else {
                    SpecRoute::NotFound
                }
            } else {
                SpecRoute::NotFound
            }
        },
        Method::Post => {
            if segs.len() == 1 && segs[0] == "search"@ {
                SpecRoute::SearchPost
            } else {
                SpecRoute::NotFound
            }
        },
    }
}

/// A string-keyed lookup route: the slug is forwarded verbatim, but an empty
/// segment names no record and stays unmatched.
pub open spec fn spec_entity_route(kind: EntityKind, slug: Seq<char>) -> SpecRoute {
    if slug.len() > 0 {
        SpecRoute::Entity { kind, slug }
    } else {
        SpecRoute::NotFound
    }
}

/// Extending a digit prefix by one digit multiplies its value by ten and adds
/// the digit.
proof fn lemma_decimal_step(s: Seq<char>, i: int)
    requires
        0 <= i < s.len(),
    ensures
        decimal_value(s.take(i + 1)) == decimal_value(s.take(i)) * 10 + digit_value(s[i]),
{
    let t = s.take(i + 1);
    assert(t.drop_last() =~= s.take(i));
    assert(t.last() == s[i]);
}

/// Parses a decimal path segment as a mode key: accepted exactly when every
/// character is a digit and the value lies in `1..=8`.
pub fn parse_mode_segment(seg: &str) -> (r: Option<ModeKey>)
    ensures
        r is Some <==> is_mode_segment(seg@),
        r is Some ==> r->Some_0.spec_key() as nat == decimal_value(seg@),
{
    let n = seg.unicode_len();
    if n == 0 {
        return None;
    }
    // `acc` follows the value of the digits read so far, capped at 9 once
    // that value leaves the range a mode key can have.
    let mut acc: u32 = 0;
    let mut i: usize = 0;
    while i < n
        invariant
            0 < n == seg@.len(),
            i <= n,
            forall|j: int| 0 <= j < i ==> is_digit(#[trigger] seg@[j]),
            acc <= 9,
            (acc <= 8 && acc as nat == decimal_value(seg@.take(i as int))) || (acc == 9
                && decimal_value(seg@.take(i as int)) > 8),
        decreases n - i,
    {
        let c = seg.get_char(i);
        let cv = c as u32;
        if cv < 48 || cv > 57 {
            return None;
        }
        proof {
            lemma_decimal_step(seg@, i as int);
        }
        let d = cv - 48;
        if acc > 8 {
            acc = 9;
        } else {
            acc = acc * 10 + d;
            if acc > 8 {
                acc = 9;
            }
        }
        i = i + 1;
    }
    proof {
        assert(seg@.take(n as int) =~= seg@);
    }
    if 1 <= acc && acc <= 8 {
        ModeKey::new(acc as u8)
    } else {
        None
    }
}

/// Compares a path segment against a route word of the table.
fn str_equal(s: &String, lit: &str) -> (r: bool)
    ensures
        r == (s@ == lit@),
{
    crate::model::str_eq(s.as_str(), lit)
}

/// Maps one request to its route decision, exactly as `spec_route` reads the
/// table. The catalog plays no part in the decision: a mode segment outside
/// `1..=8` is turned away here, before any lookup could happen.
pub fn dispatch(method: Method, segments: &Vec<String>) -> (r: RouteMatch)
    ensures
        r@ == spec_route(method, segments.deep_view()),
{
    proof {
        assert(segments.deep_view().len() == segments@.len());
        assert(forall|j: int|
            0 <= j < segments@.len() ==> segments.deep_view()[j] == (#[trigger] segments@[j])@);
    }
    match method {
        Method::Get => {
            if segments.len() == 0 {
                RouteMatch::Index
            } else if segments.len() == 1 {
                if str_equal(&segments[0], "search") {
                    RouteMatch::SearchPage
                } else {
                    RouteMatch::NotFound
                }
            } else if segments.len() == 2 {
                if str_equal(&segments[0], "compositions") {
                    entity_route(EntityKind::Composition, &segments[1])
                } else if str_equal(&segments[0], "people") {
                    entity_route(EntityKind::Person, &segments[1])
                } else if str_equal(&segments[0], "texts") {
                    entity_route(EntityKind::Text, &segments[1])
                } else if str_equal(&segments[0], "publications") {
                    entity_route(EntityKind::Publication, &segments[1])
                } else if str_equal(&segments[0], "modes") {
                    match parse_mode_segment(segments[1].as_str()) {
                        Some(key) => RouteMatch::Mode { key },
                        None => RouteMatch::ClientError,
                    }
                } else {
                    RouteMatch::NotFound
                }
            } else {
                RouteMatch::NotFound
            }
        },
        Method::Post => {
            if segments.len() == 1 && str_equal(&segments[0], "search") {
                RouteMatch::SearchPost
            } else {
                RouteMatch::NotFound
            }
        },
    }
}

/// Builds the lookup route for one string-keyed collection.
fn entity_route(kind: EntityKind, slug: &String) -> (r: RouteMatch)
    ensures
        r@ == spec_entity_route(kind, slug@),
{
    match CollectionKey::new(kind, slug.clone()) {
        Some(key) => RouteMatch::Entity { key },
        None => RouteMatch::NotFound,
    }
}

/// The routing table, line by line: each URL path of the service reaches its
/// own handler, with the slug forwarded verbatim. The mode line has its own
/// law beside the mode gate.
pub proof fn lemma_route_table(slug: Seq<char>)
    requires
        slug.len() > 0,
    ensures
        spec_route(Method::Get, Seq::empty()) == SpecRoute::Index,
        spec_route(Method::Get, seq!["search"@]) == SpecRoute::SearchPage,
        spec_route(Method::Post, seq!["search"@]) == SpecRoute::SearchPost,
        spec_route(Method::Get, seq!["compositions"@, slug]) == (SpecRoute::Entity {
            kind: EntityKind::Composition,
            slug,
        }),
        spec_route(Method::Get, seq!["people"@, slug]) == (SpecRoute::Entity {
            kind: EntityKind::Person,
            slug,
        }),
        spec_route(Method::Get, seq!["texts"@, slug]) == (SpecRoute::Entity {
            kind: EntityKind::Text,
            slug,
        }),
        spec_route(Method::Get, seq!["publications"@, slug]) == (SpecRoute::Entity {
            kind: EntityKind::Publication,
            slug,
        }),
{
    reveal_strlit("search");
    reveal_strlit("compositions");
    reveal_strlit("people");
    reveal_strlit("texts");
    reveal_strlit("publications");
    assert(seq!["search"@].len() == 1);
    assert(seq!["search"@][0] == "search"@);
    assert(seq!["compositions"@, slug][0] == "compositions"@);
    assert(seq!["compositions"@, slug][1] == slug);
    assert(seq!["people"@, slug][0] == "people"@);
    assert(seq!["people"@, slug][1] == slug);
    assert(seq!["texts"@, slug][0] == "texts"@);
    assert(seq!["texts"@, slug][1] == slug);
    assert(seq!["publications"@, slug][0] == "publications"@);
    assert(seq!["publications"@, slug][1] == slug);
    assert("compositions"@.len() == 12);
    assert("people"@.len() == 6);
    assert("texts"@.len() == 5);
    assert("publications"@.len() == 12);
    assert("people"@ != "compositions"@);
    assert("texts"@ != "compositions"@);
    assert("texts"@ != "people"@);
    assert("publications"@[0] == 'p' && "compositions"@[0] == 'c');
    assert("publications"@ != "compositions"@);
    assert("publications"@ != "people"@);
    assert("publications"@ != "texts"@);
}

} // verus!
