//! The data the handlers read: plain record values for each entity kind, the
//! keys that identify them, and the catalog snapshot shared by all requests.

use vstd::prelude::*;

verus! {

/// The four string-keyed catalog collections.
#[derive(Clone, Copy, PartialEq, Eq, Structural, Debug)]
pub enum EntityKind {
    Composition,
    Person,
    Text,
    Publication,
}

/// Identifier of one record in a string-keyed collection: the collection it
/// belongs to and a non-empty slug, taken verbatim from the URL segment.
pub struct CollectionKey {
    pub kind: EntityKind,
    pub slug: String,
}

impl CollectionKey {
    /// A key is well formed when its slug is non-empty.
    pub open spec fn wf(&self) -> bool {
        self.slug@.len() > 0
    }

    /// Builds a key for `kind`, rejecting the empty slug.
    pub fn new(kind: EntityKind, slug: String) -> (r: Option<CollectionKey>)
        ensures
            r is Some <==> slug@.len() > 0,
            r is Some ==> r->Some_0.kind == kind && r->Some_0.slug@ == slug@,
            r is Some ==> r->Some_0.wf(),
    {
        if slug.as_str().is_empty() {
            None
        } else {
            Some(CollectionKey { kind, slug })
        }
    }
}

/// Key of one of the eight modes. Every value of the type lies in `1..=8`;
/// a request with an integer outside that range never obtains one, so an
/// invalid mode key can never reach the catalog.
pub struct ModeKey {
    key: u8,
}

impl ModeKey {
    /// The integer behind the key.
    pub closed spec fn spec_key(&self) -> u8 {
        self.key
    }

    #[verifier::type_invariant]
    pub closed spec fn inv(&self) -> bool {
        1 <= self.key <= 8
    }

    /// Builds a key from a path integer, rejecting anything outside `1..=8`.
    pub fn new(m: u8) -> (r: Option<ModeKey>)
        ensures
            r is Some <==> 1 <= m <= 8,
            r is Some ==> r->Some_0.spec_key() == m,
    {
        if 1 <= m && m <= 8 {
            Some(ModeKey { key: m })
        } else {
            None
        }
    }

    /// Reads the integer back; it is always in `1..=8`.
    pub fn get(&self) -> (r: u8)
        ensures
            r == self.spec_key(),
            1 <= r <= 8,
    {
        proof {
            use_type_invariant(self);
        }
        self.key
    }
}

/// Compares two strings by their characters.
pub(crate) fn str_eq(a: &str, b: &str) -> (r: bool)
    ensures
        r == (a@ == b@),
{
    let x: String = a.to_owned();
    let y: String = b.to_owned();
    x == y
}

/// Mathematical image of a composition record.
#[verifier::ext_equal]
pub struct CompositionView {
    pub id: Seq<char>,
    pub title: Seq<char>,
}

/// One composition record: its slug and its display title.
pub struct Composition {
    pub id: String,
    pub title: String,
}

impl View for Composition {
    type V = CompositionView;

    open spec fn view(&self) -> CompositionView {
        CompositionView { id: self.id@, title: self.title@ }
    }
}

impl DeepView for Composition {
    type V = CompositionView;

    open spec fn deep_view(&self) -> CompositionView {
        self@
    }
}

impl Clone for Composition {
    fn clone(&self) -> (r: Self)
        ensures
            r@ == self@,
    {
        Composition { id: self.id.clone(), title: self.title.clone() }
    }
}

/// Mathematical image of a person record.
#[verifier::ext_equal]
pub struct PersonView {
    pub id: Seq<char>,
    pub name: Seq<char>,
    pub compositions: Seq<Seq<char>>,
}

/// One person record: slug, display name, and the slugs of the compositions
/// the person is related to.
pub struct Person {
    pub id: String,
    pub name: String,
    pub compositions: Vec<String>,
}

impl View for Person {
    type V = PersonView;

    open spec fn view(&self) -> PersonView {
        PersonView { id: self.id@, name: self.name@, compositions: self.compositions.deep_view() }
    }
}

impl DeepView for Person {
    type V = PersonView;

    open spec fn deep_view(&self) -> PersonView {
        self@
    }
}

impl Clone for Person {
    fn clone(&self) -> (r: Self)
        ensures
            r@ == self@,
    {
        let compositions = clone_strings(&self.compositions);
        Person { id: self.id.clone(), name: self.name.clone(), compositions }
    }
}

/// Copies a vector of strings, keeping its contents.
fn clone_strings(v: &Vec<String>) -> (r: Vec<String>)
    ensures
        r.deep_view() == v.deep_view(),
{
    let mut r: Vec<String> = Vec::new();
    let mut i: usize = 0;
    while i < v.len()
        invariant
            i <= v.len(),
            r@.len() == i,
            forall|j: int| 0 <= j < i ==> (#[trigger] r@[j])@ == v@[j]@,
        decreases v.len() - i,
    {
        r.push(v[i].clone());
        i = i + 1;
    }
    proof {
        assert(r.deep_view() =~= v.deep_view());
    }
    r
}

/// Mathematical image of a text record.
#[verifier::ext_equal]
pub struct TextView {
    pub id: Seq<char>,
    pub title: Seq<char>,
}

/// One text record: its slug and its display title.
pub struct Text {
    pub id: String,
    pub title: String,
}

impl View for Text {
    type V = TextView;

    open spec fn view(&self) -> TextView {
        TextView { id: self.id@, title: self.title@ }
    }
}

impl DeepView for Text {
    type V = TextView;

    open spec fn deep_view(&self) -> TextView {
        self@
    }
}

impl Clone for Text {
    fn clone(&self) -> (r: Self)
        ensures
            r@ == self@,
    {
        Text { id: self.id.clone(), title: self.title.clone() }
    }
}

/// Mathematical image of a publication record.
#[verifier::ext_equal]
pub struct PublicationView {
    pub id: Seq<char>,
    pub title: Seq<char>,
}

/// One publication record: its slug and its display title.
pub struct Publication {
    pub id: String,
    pub title: String,
}

impl View for Publication {
    type V = PublicationView;

    open spec fn view(&self) -> PublicationView {
        PublicationView { id: self.id@, title: self.title@ }
    }
}

impl DeepView for Publication {
    type V = PublicationView;

    open spec fn deep_view(&self) -> PublicationView {
        self@
    }
}

impl Clone for Publication {
    fn clone(&self) -> (r: Self)
        ensures
            r@ == self@,
    {
        Publication { id: self.id.clone(), title: self.title.clone() }
    }
}

/// Mathematical image of a mode record.
#[verifier::ext_equal]
pub struct ModeView {
    pub key: u8,
    pub name: Seq<char>,
}

/// One mode record: its integer key and its display name.
pub struct Mode {
    pub key: u8,
    pub name: String,
}

impl View for Mode {
    type V = ModeView;

    open spec fn view(&self) -> ModeView {
        ModeView { key: self.key, name: self.name@ }
    }
}

impl DeepView for Mode {
    type V = ModeView;

    open spec fn deep_view(&self) -> ModeView {
        self@
    }
}

impl Clone for Mode {
    fn clone(&self) -> (r: Self)
        ensures
            r@ == self@,
    {
        Mode { key: self.key, name: self.name.clone() }
    }
}

/// Mathematical image of a polymorphic record.
#[verifier::ext_equal]
pub enum RecordView {
    Composition(CompositionView),
    Person(PersonView),
    Text(TextView),
    Publication(PublicationView),
    Mode(ModeView),
}

/// One polymorphic record, as the search endpoint returns them: each value
/// carries its own kind tag.
pub enum Record {
    Composition(Composition),
    Person(Person),
    Text(Text),
    Publication(Publication),
    Mode(Mode),
}

impl View for Record {
    type V = RecordView;

    open spec fn view(&self) -> RecordView {
        match self {
            Record::Composition(c) => RecordView::Composition(c@),
            Record::Person(p) => RecordView::Person(p@),
            Record::Text(t) => RecordView::Text(t@),
            Record::Publication(p) => RecordView::Publication(p@),
            Record::Mode(m) => RecordView::Mode(m@),
        }
    }
}

impl DeepView for Record {
    type V = RecordView;

    open spec fn deep_view(&self) -> RecordView {
        self@
    }
}

/// Mathematical image of the catalog snapshot.
#[verifier::ext_equal]
pub struct CatalogView {
    pub compositions: Seq<CompositionView>,
    pub people: Seq<PersonView>,
    pub texts: Seq<TextView>,
    pub publications: Seq<PublicationView>,
    pub modes: Seq<ModeView>,
    pub node_count: usize,
}

impl CatalogView {
    /// The catalog keeps one mode record per key, the full set `1..=8` in
    /// ascending key order.
    pub open spec fn wf(&self) -> bool {
        &&& self.modes.len() == 8
        &&& forall|i: int| 0 <= i < 8 ==> (#[trigger] self.modes[i].key) as int == i + 1
    }
}

/// The catalog snapshot a request handler reads: the listed collections, the
/// mode mapping flattened in ascending key order, and the total node count
/// the catalog reports. It is built once at startup and never mutated; every
/// handler takes a shared borrow.
pub struct Catalog {
    pub compositions: Vec<Composition>,
    pub people: Vec<Person>,
    pub texts: Vec<Text>,
    pub publications: Vec<Publication>,
    pub modes: Vec<Mode>,
    pub node_count: usize,
}

impl View for Catalog {
    type V = CatalogView;

    open spec fn view(&self) -> CatalogView {
        CatalogView {
            compositions: self.compositions.deep_view(),
            people: self.people.deep_view(),
            texts: self.texts.deep_view(),
            publications: self.publications.deep_view(),
            modes: self.modes.deep_view(),
            node_count: self.node_count,
        }
    }
}

} // verus!
