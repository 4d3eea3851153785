//! The response shapers: one per endpoint of the routing table. Each pulls
//! records out of the catalog snapshot and arranges them into the context a
//! template consumes, or into the JSON search body. The laws at the end of
//! the module state the service-wide guarantees: the table answers 200 with
//! the stated body types, the composers listing is exactly the people with
//! compositions, mode keys outside `1..=8` never reach a lookup, and every
//! response is a pure function of the snapshot and the request.

use vstd::prelude::*;
use crate::model::{
    Catalog, CatalogView, CollectionKey, Composition, CompositionView, EntityKind, Mode, ModeKey,
    ModeView, Person, PersonView, Publication, PublicationView, Record, RecordView, Text, TextView,
    str_eq,
};
use crate::routes::{decimal_value, is_mode_segment, spec_route, Method, RouteMatch, SpecRoute};
use crate::json::{search_body, search_body_spec};

verus! {

broadcast use vstd::seq_lib::group_filter_ensures;

/// The templates the renderer knows, one per endpoint that renders HTML.
#[derive(Clone, Copy, PartialEq, Eq, Structural, Debug)]
pub enum TemplateName {
    Index,
    Composition,
    Person,
    Text,
    Publication,
    Mode,
    Search,
}

impl TemplateName {
    /// The name under which the renderer resolves the template.
    pub open spec fn spec_name(self) -> Seq<char> {
        match self {
            TemplateName::Index => "index"@,
            TemplateName::Composition => "composition"@,
            TemplateName::Person => "person"@,
            TemplateName::Text => "text"@,
            TemplateName::Publication => "publication"@,
            TemplateName::Mode => "mode"@,
            TemplateName::Search => "search"@,
        }
    }

    /// Hands the renderer the template name.
    pub fn name(&self) -> (r: String)
        ensures
            r@ == self.spec_name(),
    {
        match self {
            TemplateName::Index => "index".to_owned(),
            TemplateName::Composition => "composition".to_owned(),
            TemplateName::Person => "person".to_owned(),
            TemplateName::Text => "text".to_owned(),
            TemplateName::Publication => "publication".to_owned(),
            TemplateName::Mode => "mode".to_owned(),
            TemplateName::Search => "search".to_owned(),
        }
    }
}

/// The template for one string-keyed collection's record page.
pub open spec fn template_for(kind: EntityKind) -> TemplateName {
    match kind {
        EntityKind::Composition => TemplateName::Composition,
        EntityKind::Person => TemplateName::Person,
        EntityKind::Text => TemplateName::Text,
        EntityKind::Publication => TemplateName::Publication,
    }
}

/// Mathematical image of a template context.
#[verifier::ext_equal]
pub enum ContextView {
    /// The index page: the node count and the four listings.
    Index {
        count: usize,
        compositions: Seq<CompositionView>,
        composers: Seq<PersonView>,
        texts: Seq<TextView>,
        modes: Seq<ModeView>,
    },
    /// A single record under `data`.
    Entity { data: RecordView },
    /// A single mode record under `data`.
    Mode { data: ModeView },
    /// No context fields at all.
    Empty,
}

/// The context handed to one template.
pub enum Context {
    Index {
        count: usize,
        compositions: Vec<Composition>,
        composers: Vec<Person>,
        texts: Vec<Text>,
        modes: Vec<Mode>,
    },
    Entity { data: Record },
    Mode { data: Mode },
    Empty,
}

impl View for Context {
    type V = ContextView;

    open spec fn view(&self) -> ContextView {
        match self {
            Context::Index { count, compositions, composers, texts, modes } => ContextView::Index {
                count: *count,
                compositions: compositions.deep_view(),
                composers: composers.deep_view(),
                texts: texts.deep_view(),
                modes: modes.deep_view(),
            },
            Context::Entity { data } => ContextView::Entity { data: data@ },
            Context::Mode { data } => ContextView::Mode { data: data@ },
            Context::Empty => ContextView::Empty,
        }
    }
}

/// Mathematical image of a response.
#[verifier::ext_equal]
pub enum ResponseView {
    Html { template: TemplateName, context: ContextView },
    Json { body: Seq<char> },
    ClientError,
    NotFound,
    ServerError,
}

impl ResponseView {
    /// The HTTP status of the response: 200 for a rendered page or a JSON
    /// body, 400 for a rejected mode key, 404 for a missing record, 500 for
    /// a catalog contract violation.
    pub open spec fn spec_status(self) -> u16 {
        match self {
            ResponseView::Html { .. } => 200,
            ResponseView::Json { .. } => 200,
            ResponseView::ClientError => 400,
            ResponseView::NotFound => 404,
            ResponseView::ServerError => 500,
        }
    }

    /// The content type of a successful response.
    pub open spec fn spec_content_type(self) -> Option<Seq<char>> {
        match self {
            ResponseView::Html { .. } => Some("text/html; charset=utf-8"@),
            ResponseView::Json { .. } => Some("application/json"@),
            _ => None,
        }
    }
}

/// One response of the service: a template to render with its context, a
/// JSON body, or one of the three error answers.
pub enum Response {
    Html { template: TemplateName, context: Context },
    Json { body: String },
    ClientError,
    NotFound,
    ServerError,
}

impl View for Response {
    type V = ResponseView;

    open spec fn view(&self) -> ResponseView {
        match self {
            Response::Html { template, context } => ResponseView::Html {
                template: *template,
                context: context@,
            },
            Response::Json { body } => ResponseView::Json { body: body@ },
            Response::ClientError => ResponseView::ClientError,
            Response::NotFound => ResponseView::NotFound,
            Response::ServerError => ResponseView::ServerError,
        }
    }
}

impl Response {
    /// The HTTP status code of the response.
    pub fn status(&self) -> (s: u16)
        ensures
            s == self@.spec_status(),
    {
        match self {
            Response::Html { .. } => 200,
            Response::Json { .. } => 200,
            Response::ClientError => 400,
            Response::NotFound => 404,
            Response::ServerError => 500,
        }
    }

    /// The content type of a successful response.
    pub fn content_type(&self) -> (c: Option<String>)
        ensures
            (c is Some) == (self@.spec_content_type() is Some),
            c matches Some(s) ==> self@.spec_content_type() == Some(s@),
    {
        match self {
            Response::Html { .. } => Some("text/html; charset=utf-8".to_owned()),
            Response::Json { .. } => Some("application/json".to_owned()),
            _ => None,
        }
    }
}

/// The composers listing: the people with at least one related composition,
/// in the order the catalog lists them.
pub open spec fn spec_composers(people: Seq<PersonView>) -> Seq<PersonView> {
    people.filter(|p: PersonView| p.compositions.len() > 0)
}

/// The index page: the node count, the full composition and text listings,
/// the composers, and the modes as the catalog orders them.
pub open spec fn spec_index_response(c: CatalogView) -> ResponseView {
    ResponseView::Html {
        template: TemplateName::Index,
        context: ContextView::Index {
            count: c.node_count,
            compositions: c.compositions,
            composers: spec_composers(c.people),
            texts: c.texts,
            modes: c.modes,
        },
    }
}

/// The first composition under the slug.
pub open spec fn find_composition_rec(s: Seq<CompositionView>, slug: Seq<char>) -> Option<
    CompositionView,
>
    decreases s.len(),
{
    if s.len() == 0 {
        None
    } else if s[0].id == slug {
        Some(s[0])
    } else {
        find_composition_rec(s.drop_first(), slug)
    }
}

/// The first person under the slug.
pub open spec fn find_person_rec(s: Seq<PersonView>, slug: Seq<char>) -> Option<PersonView>
    decreases s.len(),
{
    if s.len() == 0 {
        None
    } else if s[0].id == slug {
        Some(s[0])
    } else {
        find_person_rec(s.drop_first(), slug)
    }
}

/// The first text under the slug.
pub open spec fn find_text_rec(s: Seq<TextView>, slug: Seq<char>) -> Option<TextView>
    decreases s.len(),
{
    if s.len() == 0 {
        None
    } else if s[0].id == slug {
        Some(s[0])
    } else {
        find_text_rec(s.drop_first(), slug)
    }
}

/// The first publication under the slug.
pub open spec fn find_publication_rec(s: Seq<PublicationView>, slug: Seq<char>) -> Option<
    PublicationView,
>
    decreases s.len(),
{
    if s.len() == 0 {
        None
    } else if s[0].id == slug {
        Some(s[0])
    } else {
        find_publication_rec(s.drop_first(), slug)
    }
}

/// The first mode under the key.
pub open spec fn find_mode_rec(s: Seq<ModeView>, key: u8) -> Option<ModeView>
    decreases s.len(),
{
    if s.len() == 0 {
        None
    } else if s[0].key == key {
        Some(s[0])
    } else {
        find_mode_rec(s.drop_first(), key)
    }
}

/// The record a string-keyed lookup yields, with its kind tag.
pub open spec fn spec_lookup(c: CatalogView, kind: EntityKind, slug: Seq<char>) -> Option<
    RecordView,
> {
    match kind {
        EntityKind::Composition => match find_composition_rec(c.compositions, slug) {
            Some(x) => Some(RecordView::Composition(x)),
            None => None,
        },
        EntityKind::Person => match find_person_rec(c.people, slug) {
            Some(x) => Some(RecordView::Person(x)),
            None => None,
        },
        EntityKind::Text => match find_text_rec(c.texts, slug) {
            Some(x) => Some(RecordView::Text(x)),
            None => None,
        },
        EntityKind::Publication => match find_publication_rec(c.publications, slug) {
            Some(x) => Some(RecordView::Publication(x)),
            None => None,
        },
    }
}

/// A single-record page: the full record under `data`, or the not-found
/// answer when the catalog has nothing under the slug.
pub open spec fn spec_entity_response(c: CatalogView, kind: EntityKind, slug: Seq<char>) -> ResponseView {
    match spec_lookup(c, kind, slug) {
        Some(data) => ResponseView::Html {
            template: template_for(kind),
            context: ContextView::Entity { data },
        },
        None => ResponseView::NotFound,
    }
}

/// The mode page for a validated key. The catalog owes a record for every
/// key in `1..=8`; a missing entry is the catalog's contract violation and
/// becomes the server-error answer.
pub open spec fn spec_mode_response(c: CatalogView, key: u8) -> ResponseView {
    match find_mode_rec(c.modes, key) {
        Some(data) => ResponseView::Html {
            template: TemplateName::Mode,
            context: ContextView::Mode { data },
        },
        None => ResponseView::ServerError,
    }
}

/// The response of the whole service to one routed request, at the level of
/// views. The search POST is the one route not answered here: its records
/// come from the catalog's query engine, and `spec_search_response` says how
/// they are wrapped.
pub open spec fn spec_respond(c: CatalogView, route: SpecRoute) -> ResponseView {
    match route {
        SpecRoute::Index => spec_index_response(c),
        SpecRoute::Entity { kind, slug } => spec_entity_response(c, kind, slug),
        SpecRoute::Mode { key } => spec_mode_response(c, key),
        SpecRoute::SearchPage => ResponseView::Html {
            template: TemplateName::Search,
            context: ContextView::Empty,
        },
        SpecRoute::SearchPost => ResponseView::NotFound,
        SpecRoute::ClientError => ResponseView::ClientError,
        SpecRoute::NotFound => ResponseView::NotFound,
    }
}

/// The search answer: the records wrapped as the single field `results` of
/// one JSON object.
pub open spec fn spec_search_response(rs: Seq<RecordView>) -> ResponseView {
    ResponseView::Json { body: search_body_spec(rs) }
}

/// Copies a composition listing.
fn clone_compositions(v: &Vec<Composition>) -> (r: Vec<Composition>)
    ensures
        r.deep_view() == v.deep_view(),
{
    let mut r: Vec<Composition> = Vec::new();
    let mut i: usize = 0;
    while i < v.len()
        invariant
            i <= v@.len(),
            r@.len() == i,
            forall|j: int| 0 <= j < i ==> (#[trigger] r@[j])@ == v@[j]@,
        decreases v@.len() - i,
    {
        r.push(v[i].clone());
        i = i + 1;
    }
    proof {
        assert(r.deep_view() =~= v.deep_view());
    }
    r
}

/// Copies a text listing.
fn clone_texts(v: &Vec<Text>) -> (r: Vec<Text>)
    ensures
        r.deep_view() == v.deep_view(),
{
    let mut r: Vec<Text> = Vec::new();
    let mut i: usize = 0;
    while i < v.len()
        invariant
            i <= v@.len(),
            r@.len() == i,
            forall|j: int| 0 <= j < i ==> (#[trigger] r@[j])@ == v@[j]@,
        decreases v@.len() - i,
    {
        r.push(v[i].clone());
        i = i + 1;
    }
    proof {
        assert(r.deep_view() =~= v.deep_view());
    }
    r
}

/// Copies a mode listing.
fn clone_modes(v: &Vec<Mode>) -> (r: Vec<Mode>)
    ensures
        r.deep_view() == v.deep_view(),
{
    let mut r: Vec<Mode> = Vec::new();
    let mut i: usize = 0;
    while i < v.len()
        invariant
            i <= v@.len(),
            r@.len() == i,
            forall|j: int| 0 <= j < i ==> (#[trigger] r@[j])@ == v@[j]@,
        decreases v@.len() - i,
    {
        r.push(v[i].clone());
        i = i + 1;
    }
    proof {
        assert(r.deep_view() =~= v.deep_view());
    }
    r
}

/// The composers listing of the index page: keeps, in order, exactly the
/// people whose composition relation is non-empty.
pub fn composers_of(people: &Vec<Person>) -> (r: Vec<Person>)
    ensures
        r.deep_view() == spec_composers(people.deep_view()),
{
    let ghost d = people.deep_view();
    let mut r: Vec<Person> = Vec::new();
    let mut i: usize = 0;
    while i < people.len()
        invariant
            i <= people@.len(),
            d == people.deep_view(),
            d.len() == people@.len(),
            forall|j: int| 0 <= j < people@.len() ==> d[j] == (#[trigger] people@[j])@,
            r.deep_view() == spec_composers(d.take(i as int)),
        decreases people@.len() - i,
    {
        let ghost prev = r.deep_view();
        if people[i].compositions.len() > 0 {
            r.push(people[i].clone());
        }
        proof {
            reveal_with_fuel(Seq::<PersonView>::filter, 2);
            let t = d.take(i as int + 1);
            assert(t.drop_last() =~= d.take(i as int));
            assert(t.last() == d[i as int]);
            if d[i as int].compositions.len() > 0 {
                assert(r.deep_view() =~= prev.push(d[i as int]));
            }
            assert(r.deep_view() == spec_composers(t));
        }
        i = i + 1;
    }
    proof {
        assert(d.take(people@.len() as int) =~= d);
    }
    r
}

/// Shapes the index page from the snapshot: three full listings, the
/// composers, and the catalog's reported node count.
pub fn index_response(catalog: &Catalog) -> (r: Response)
    ensures
        r@ == spec_index_response(catalog@),
{
    let compositions = clone_compositions(&catalog.compositions);
    let composers = composers_of(&catalog.people);
    let texts = clone_texts(&catalog.texts);
    let modes = clone_modes(&catalog.modes);
    Response::Html {
        template: TemplateName::Index,
        context: Context::Index {
            count: catalog.node_count,
            compositions,
            composers,
            texts,
            modes,
        },
    }
}

/// Finds the first composition under the slug and copies it out.
fn find_composition(v: &Vec<Composition>, slug: &str) -> (r: Option<Composition>)
    ensures
        (r is Some) == (find_composition_rec(v.deep_view(), slug@) is Some),
        r matches Some(c) ==> find_composition_rec(v.deep_view(), slug@) == Some(c@),
{
    let ghost d = v.deep_view();
    proof {
        assert(d.skip(0) =~= d);
    }
    let mut i: usize = 0;
    while i < v.len()
        invariant
            i <= v@.len(),
            d == v.deep_view(),
            d.len() == v@.len(),
            forall|j: int| 0 <= j < v@.len() ==> d[j] == (#[trigger] v@[j])@,
            find_composition_rec(d, slug@) == find_composition_rec(d.skip(i as int), slug@),
        decreases v@.len() - i,
    {
        proof {
            assert(d.skip(i as int)[0] == d[i as int]);
            assert(d.skip(i as int).drop_first() =~= d.skip(i as int + 1));
        }
        if str_eq(v[i].id.as_str(), slug) {
            return Some(v[i].clone());
        }
        i = i + 1;
    }
    proof {
        assert(d.skip(v@.len() as int) =~= Seq::<CompositionView>::empty());
    }
    None
}

/// Finds the first person under the slug and copies it out.
fn find_person(v: &Vec<Person>, slug: &str) -> (r: Option<Person>)
    ensures
        (r is Some) == (find_person_rec(v.deep_view(), slug@) is Some),
        r matches Some(c) ==> find_person_rec(v.deep_view(), slug@) == Some(c@),
{
    let ghost d = v.deep_view();
    proof {
        assert(d.skip(0) =~= d);
    }
    let mut i: usize = 0;
    while i < v.len()
        invariant
            i <= v@.len(),
            d == v.deep_view(),
            d.len() == v@.len(),
            forall|j: int| 0 <= j < v@.len() ==> d[j] == (#[trigger] v@[j])@,
            find_person_rec(d, slug@) == find_person_rec(d.skip(i as int), slug@),
        decreases v@.len() - i,
    {
        proof {
            assert(d.skip(i as int)[0] == d[i as int]);
            assert(d.skip(i as int).drop_first() =~= d.skip(i as int + 1));
        }
        if str_eq(v[i].id.as_str(), slug) {
            return Some(v[i].clone());
        }
        i = i + 1;
    }
    proof {
        assert(d.skip(v@.len() as int) =~= Seq::<PersonView>::empty());
    }
    None
}

/// Finds the first text under the slug and copies it out.
fn find_text(v: &Vec<Text>, slug: &str) -> (r: Option<Text>)
    ensures
        (r is Some) == (find_text_rec(v.deep_view(), slug@) is Some),
        r matches Some(c) ==> find_text_rec(v.deep_view(), slug@) == Some(c@),
{
    let ghost d = v.deep_view();
    proof {
        assert(d.skip(0) =~= d);
    }
    let mut i: usize = 0;
    while i < v.len()
        invariant
            i <= v@.len(),
            d == v.deep_view(),
            d.len() == v@.len(),
            forall|j: int| 0 <= j < v@.len() ==> d[j] == (#[trigger] v@[j])@,
            find_text_rec(d, slug@) == find_text_rec(d.skip(i as int), slug@),
        decreases v@.len() - i,
    {
        proof {
            assert(d.skip(i as int)[0] == d[i as int]);
            assert(d.skip(i as int).drop_first() =~= d.skip(i as int + 1));
        }
        if str_eq(v[i].id.as_str(), slug) {
            return Some(v[i].clone());
        }
        i = i + 1;
    }
    proof {
        assert(d.skip(v@.len() as int) =~= Seq::<TextView>::empty());
    }
    None
}

/// Finds the first publication under the slug and copies it out.
fn find_publication(v: &Vec<Publication>, slug: &str) -> (r: Option<Publication>)
    ensures
        (r is Some) == (find_publication_rec(v.deep_view(), slug@) is Some),
        r matches Some(c) ==> find_publication_rec(v.deep_view(), slug@) == Some(c@),
{
    let ghost d = v.deep_view();
    proof {
        assert(d.skip(0) =~= d);
    }
    let mut i: usize = 0;
    while i < v.len()
        invariant
            i <= v@.len(),
            d == v.deep_view(),
            d.len() == v@.len(),
            forall|j: int| 0 <= j < v@.len() ==> d[j] == (#[trigger] v@[j])@,
            find_publication_rec(d, slug@) == find_publication_rec(d.skip(i as int), slug@),
        decreases v@.len() - i,
    {
        proof {
            assert(d.skip(i as int)[0] == d[i as int]);
            assert(d.skip(i as int).drop_first() =~= d.skip(i as int + 1));
        }
        if str_eq(v[i].id.as_str(), slug) {
            return Some(v[i].clone());
        }
        i = i + 1;
    }
    proof {
        assert(d.skip(v@.len() as int) =~= Seq::<PublicationView>::empty());
    }
    None
}

/// Finds the first mode under the key and copies it out.
fn find_mode(v: &Vec<Mode>, key: u8) -> (r: Option<Mode>)
    ensures
        (r is Some) == (find_mode_rec(v.deep_view(), key) is Some),
        r matches Some(c) ==> find_mode_rec(v.deep_view(), key) == Some(c@),
{
    let ghost d = v.deep_view();
    proof {
        assert(d.skip(0) =~= d);
    }
    let mut i: usize = 0;
    while i < v.len()
        invariant
            i <= v@.len(),
            d == v.deep_view(),
            d.len() == v@.len(),
            forall|j: int| 0 <= j < v@.len() ==> d[j] == (#[trigger] v@[j])@,
            find_mode_rec(d, key) == find_mode_rec(d.skip(i as int), key),
        decreases v@.len() - i,
    {
        proof {
            assert(d.skip(i as int)[0] == d[i as int]);
            assert(d.skip(i as int).drop_first() =~= d.skip(i as int + 1));
        }
        if v[i].key == key {
            return Some(v[i].clone());
        }
        i = i + 1;
    }
    proof {
        assert(d.skip(v@.len() as int) =~= Seq::<ModeView>::empty());
    }
    None
}

/// Answers a string-keyed lookup: the full record under `data` on success,
/// the not-found answer when the slug names no record.
pub fn entity_response(catalog: &Catalog, key: &CollectionKey) -> (r: Response)
    ensures
        r@ == spec_entity_response(catalog@, key.kind, key.slug@),
{
    match key.kind {
        EntityKind::Composition => match find_composition(&catalog.compositions, key.slug.as_str()) {
            Some(data) => Response::Html {
                template: TemplateName::Composition,
                context: Context::Entity { data: Record::Composition(data) },
            },
            None => Response::NotFound,
        },
        EntityKind::Person => match find_person(&catalog.people, key.slug.as_str()) {
            Some(data) => Response::Html {
                template: TemplateName::Person,
                context: Context::Entity { data: Record::Person(data) },
            },
            None => Response::NotFound,
        },
        EntityKind::Text => match find_text(&catalog.texts, key.slug.as_str()) {
            Some(data) => Response::Html {
                template: TemplateName::Text,
                context: Context::Entity { data: Record::Text(data) },
            },
            None => Response::NotFound,
        },
        EntityKind::Publication => match find_publication(
            &catalog.publications,
            key.slug.as_str(),
        ) {
            Some(data) => Response::Html {
                template: TemplateName::Publication,
                context: Context::Entity { data: Record::Publication(data) },
            },
            None => Response::NotFound,
        },
    }
}

/// Answers a mode request for a key already validated into `1..=8`: the
/// record cloned out of the mapping, or the server-error answer if the
/// catalog broke its contract and has no record under the key.
pub fn mode_response(catalog: &Catalog, key: &ModeKey) -> (r: Response)
    ensures
        r@ == spec_mode_response(catalog@, key.spec_key()),
{
    match find_mode(&catalog.modes, key.get()) {
        Some(data) => Response::Html {
            template: TemplateName::Mode,
            context: Context::Mode { data },
        },
        None => Response::ServerError,
    }
}

/// The search page itself: a form, rendered with no context fields.
pub fn search_page_response() -> (r: Response)
    ensures
        r@ == (ResponseView::Html { template: TemplateName::Search, context: ContextView::Empty }),
{
    Response::Html { template: TemplateName::Search, context: Context::Empty }
}

/// Wraps the records the catalog's query engine returned into the JSON
/// search answer.
pub fn search_results_response(results: &Vec<Record>) -> (r: Response)
    ensures
        r@ == spec_search_response(results.deep_view()),
{
    Response::Json { body: search_body(results) }
}

/// Answers one routed request against the snapshot. The search POST is the
/// one route that cannot be answered from the snapshot alone — its records
/// come from the catalog's query engine and go through
/// `search_results_response` instead.
pub fn respond(catalog: &Catalog, route: &RouteMatch) -> (r: Response)
    requires
        !(route@ is SearchPost),
    ensures
        r@ == spec_respond(catalog@, route@),
{
    match route {
        RouteMatch::Index => index_response(catalog),
        RouteMatch::Entity { key } => entity_response(catalog, key),
        RouteMatch::Mode { key } => mode_response(catalog, key),
        RouteMatch::SearchPage => search_page_response(),
        RouteMatch::SearchPost => Response::NotFound,
        RouteMatch::ClientError => Response::ClientError,
        RouteMatch::NotFound => Response::NotFound,
    }
}

/// A scan for a mode key hits whenever some entry carries the key.
proof fn lemma_find_mode_hit(s: Seq<ModeView>, key: u8)
    requires
        exists|i: int| 0 <= i < s.len() && (#[trigger] s[i]).key == key,
    ensures
        find_mode_rec(s, key) is Some,
    decreases s.len(),
{
    if s[0].key == key {
    } else {
        let i = choose|i: int| 0 <= i < s.len() && (#[trigger] s[i]).key == key;
        assert(s.drop_first()[i - 1] == s[i]);
        lemma_find_mode_hit(s.drop_first(), key);
    }
}

/// The index page is always served: status 200, HTML.
pub proof fn lemma_index_ok(c: CatalogView)
    ensures
        spec_respond(c, SpecRoute::Index).spec_status() == 200,
        spec_respond(c, SpecRoute::Index).spec_content_type() == Some("text/html; charset=utf-8"@),
{
}

/// The search page is always served: status 200, HTML.
pub proof fn lemma_search_page_ok(c: CatalogView)
    ensures
        spec_respond(c, SpecRoute::SearchPage).spec_status() == 200,
        spec_respond(c, SpecRoute::SearchPage).spec_content_type() == Some(
            "text/html; charset=utf-8"@,
        ),
{
}

/// A string-keyed page whose slug names a record is served: status 200, HTML.
pub proof fn lemma_entity_ok(c: CatalogView, kind: EntityKind, slug: Seq<char>)
    requires
        spec_lookup(c, kind, slug) is Some,
    ensures
        spec_respond(c, (SpecRoute::Entity { kind, slug })).spec_status() == 200,
        spec_respond(c, (SpecRoute::Entity { kind, slug })).spec_content_type() == Some(
            "text/html; charset=utf-8"@,
        ),
{
}

/// Against a well-formed catalog, every mode key in `1..=8` is served:
/// status 200, HTML.
pub proof fn lemma_mode_ok(c: CatalogView, key: u8)
    requires
        c.wf(),
        1 <= key <= 8,
    ensures
        spec_respond(c, (SpecRoute::Mode { key })).spec_status() == 200,
        spec_respond(c, (SpecRoute::Mode { key })).spec_content_type() == Some(
            "text/html; charset=utf-8"@,
        ),
{
    assert(c.modes[key - 1].key == key);
    lemma_find_mode_hit(c.modes, key);
}

/// The mode gate: a `/modes/<seg>` request is answered from the key alone.
/// A segment whose value lies in `1..=8` routes to the mode page; any other
/// segment is rejected as a client error by the router itself, so an invalid
/// key never reaches the catalog — the response does not depend on it.
pub proof fn lemma_mode_gate(c: CatalogView, seg: Seq<char>)
    ensures
        is_mode_segment(seg) ==> spec_route(Method::Get, seq!["modes"@, seg]) == (SpecRoute::Mode {
            key: decimal_value(seg) as u8,
        }),
        !is_mode_segment(seg) ==> spec_route(Method::Get, seq!["modes"@, seg])
            == SpecRoute::ClientError,
        spec_respond(c, SpecRoute::ClientError) == ResponseView::ClientError,
        ResponseView::ClientError.spec_status() == 400,
{
    reveal_strlit("modes");
    reveal_strlit("compositions");
    reveal_strlit("people");
    reveal_strlit("texts");
    reveal_strlit("publications");
    let segs = seq!["modes"@, seg];
    assert(segs.len() == 2);
    assert(segs[0] == "modes"@);
    assert(segs[1] == seg);
    assert("modes"@.len() == 5);
    assert("compositions"@.len() == 12);
    assert("people"@.len() == 6);
    assert("publications"@.len() == 12);
    assert("modes"@[0] == 'm' && "texts"@[0] == 't');
    assert("modes"@ != "compositions"@);
    assert("modes"@ != "people"@);
    assert("modes"@ != "texts"@);
    assert("modes"@ != "publications"@);
}

/// The index listings: `composers` holds, in order, exactly the people whose
/// composition relation is non-empty, and `count` is the catalog's reported
/// node count, which is never negative.
pub proof fn lemma_index_listings(c: CatalogView)
    ensures
        spec_respond(c, SpecRoute::Index) == spec_index_response(c),
        spec_index_response(c) == (ResponseView::Html {
            template: TemplateName::Index,
            context: ContextView::Index {
                count: c.node_count,
                compositions: c.compositions,
                composers: spec_composers(c.people),
                texts: c.texts,
                modes: c.modes,
            },
        }),
        c.node_count >= 0,
        forall|i: int|
            0 <= i < spec_composers(c.people).len() ==> (#[trigger] spec_composers(
                c.people,
            )[i]).compositions.len() > 0,
        forall|i: int|
            0 <= i < c.people.len() && (#[trigger] c.people[i]).compositions.len() > 0
                ==> spec_composers(c.people).contains(c.people[i]),
{
}

/// The search answer is always served: status 200, JSON, with exactly the
/// body `search_body_spec` lays down.
pub proof fn lemma_search_post_ok(rs: Seq<RecordView>)
    ensures
        spec_search_response(rs).spec_status() == 200,
        spec_search_response(rs).spec_content_type() == Some("application/json"@),
        spec_search_response(rs) == (ResponseView::Json { body: search_body_spec(rs) }),
{
}

/// The service is read-only: a response is a function of the startup
/// snapshot and the routed request alone, so replaying any sequence of
/// requests against the same snapshot repeats the same responses.
pub proof fn lemma_replay(c1: CatalogView, c2: CatalogView, r1: SpecRoute, r2: SpecRoute)
    requires
        c1 == c2,
        r1 == r2,
    ensures
        spec_respond(c1, r1) == spec_respond(c2, r2),
{
}

} // verus!
