//! The edge-app manifest workflow. A manifest is a draft while its `id` is
//! empty; publishing sends its fields to the backend and, once the backend
//! answers with the created record, that record replaces the manifest file.
//! Files are read and written by the caller; this module decides what is
//! sent, what is refused and what is written.
use crate::authentication::Authentication;
use crate::codec::{
    entries_view, json_string_records, parse_json_records, parse_yaml_entries,
    render_yaml_entries, yaml_string_map, yaml_text,
};
use crate::commands::{
    is_status_error, post_request, request_is, resource_url_of, text_record, CommandError,
    Field, FieldValue, Payload, ResourceRequest, Verb, STATUS_CREATED,
};
use vstd::prelude::*;

verus! {

/// Entries of a mapping of strings to strings, in order.
pub type Entries = Seq<(Seq<char>, Seq<char>)>;

pub const ID_FIELD: &'static str = "id";

pub const NAME_FIELD: &'static str = "name";

pub const VERSION_FIELD: &'static str = "version";

pub const DESCRIPTION_FIELD: &'static str = "description";

pub const ICON_FIELD: &'static str = "icon";

pub const AUTHOR_FIELD: &'static str = "author";

pub const HOMEPAGE_URL_FIELD: &'static str = "homepage_url";

/// Endpoint that creates an edge app and echoes the fields of the manifest.
pub const PUBLISH_ENDPOINT: &'static str =
    "v4/edge_apps?select=id,name,version,description,icon,author,homepage_url";

/// Message of the refusal to publish a manifest that already has an id.
pub const ID_ASSIGNED_MESSAGE: &'static str = "Only empty id accepted when publishing manifest";

/// The description of an edge app.
#[derive(Clone, Debug, PartialEq, Eq)]
pub struct EdgeAppManifest {
    pub id: String,
    pub name: String,
    pub version: String,
    pub description: String,
    pub icon: String,
    pub author: String,
    pub homepage_url: String,
}

/// A manifest, seen as character sequences.
pub struct ManifestView {
    pub id: Seq<char>,
    pub name: Seq<char>,
    pub version: Seq<char>,
    pub description: Seq<char>,
    pub icon: Seq<char>,
    pub author: Seq<char>,
    pub homepage_url: Seq<char>,
}

impl View for EdgeAppManifest {
    type V = ManifestView;

    open spec fn view(&self) -> ManifestView {
        ManifestView {
            id: self.id@,
            name: self.name@,
            version: self.version@,
            description: self.description@,
            icon: self.icon@,
            author: self.author@,
            homepage_url: self.homepage_url@,
        }
    }
}

impl Default for EdgeAppManifest {
    /// The manifest whose fields are all empty.
    fn default() -> (r: Self)
        ensures
            r@ == empty_manifest(),
    {
        EdgeAppManifest {
            id: String::new(),
            name: String::new(),
            version: String::new(),
            description: String::new(),
            icon: String::new(),
            author: String::new(),
            homepage_url: String::new(),
        }
    }
}

/// Why a manifest cannot be published.
pub enum ManifestFault {
    /// A required field is absent.
    Missing(Seq<char>),
    /// A field outside the schema is present.
    Unknown(Seq<char>),
    /// The id is already assigned.
    IdAssigned,
    /// A field that must not be empty is.
    Empty(Seq<char>),
}

/// The manifest whose fields are all empty.
pub open spec fn empty_manifest() -> ManifestView {
    ManifestView {
        id: Seq::empty(),
        name: Seq::empty(),
        version: Seq::empty(),
        description: Seq::empty(),
        icon: Seq::empty(),
        author: Seq::empty(),
        homepage_url: Seq::empty(),
    }
}

/// Whether `k` names a field of the manifest schema.
pub open spec fn schema_key(k: Seq<char>) -> bool {
    ||| k == ID_FIELD@
    ||| k == NAME_FIELD@
    ||| k == VERSION_FIELD@
    ||| k == DESCRIPTION_FIELD@
    ||| k == ICON_FIELD@
    ||| k == AUTHOR_FIELD@
    ||| k == HOMEPAGE_URL_FIELD@
}

/// The value of the first entry under `k`.
pub open spec fn field_value(e: Entries, k: Seq<char>) -> Option<Seq<char>>
    decreases e.len(),
{
    if e.len() == 0 {
        None
    } else {
        match field_value(e.drop_last(), k) {
            Some(v) => Some(v),
            None => if e.last().0 == k {
                Some(e.last().1)
            } else {
                None
            },
        }
    }
}

/// The key of the first entry outside the schema.
pub open spec fn first_unknown(e: Entries) -> Option<Seq<char>>
    decreases e.len(),
{
    if e.len() == 0 {
        None
    } else {
        match first_unknown(e.drop_last()) {
            Some(k) => Some(k),
            None => if !schema_key(e.last().0) {
                Some(e.last().0)
            } else {
                None
            },
        }
    }
}

/// The key of the first entry whose value is empty.
pub open spec fn first_empty(e: Entries) -> Option<Seq<char>>
    decreases e.len(),
{
    if e.len() == 0 {
        None
    } else {
        match first_empty(e.drop_last()) {
            Some(k) => Some(k),
            None => if e.last().1.len() == 0 {
                Some(e.last().0)
            } else {
                None
            },
        }
    }
}

/// The first required field, in schema order, that `e` lacks.
pub open spec fn first_missing(e: Entries) -> Option<Seq<char>> {
    if field_value(e, NAME_FIELD@) is None {
        Some(NAME_FIELD@)
    } else if field_value(e, VERSION_FIELD@) is None {
        Some(VERSION_FIELD@)
    } else if field_value(e, DESCRIPTION_FIELD@) is None {
        Some(DESCRIPTION_FIELD@)
    } else if field_value(e, ICON_FIELD@) is None {
        Some(ICON_FIELD@)
    } else if field_value(e, AUTHOR_FIELD@) is None {
        Some(AUTHOR_FIELD@)
    } else if field_value(e, HOMEPAGE_URL_FIELD@) is None {
        Some(HOMEPAGE_URL_FIELD@)
    } else {
        None
    }
}

/// Why `e` does not fit the manifest schema: a missing required field
/// first, then a field outside the schema.
pub open spec fn structural_fault(e: Entries) -> Option<ManifestFault> {
    match first_missing(e) {
        Some(k) => Some(ManifestFault::Missing(k)),
        None => match first_unknown(e) {
            Some(k) => Some(ManifestFault::Unknown(k)),
            None => None,
        },
    }
}

/// Whether some entry assigns a non-empty id.
pub open spec fn id_assigned(e: Entries) -> bool {
    exists|i: int| 0 <= i < e.len() && (#[trigger] e[i]).0 == ID_FIELD@ && e[i].1.len() > 0
}

/// Whether an entry is something other than the id.
pub open spec fn not_id(x: (Seq<char>, Seq<char>)) -> bool {
    x.0 != ID_FIELD@
}

/// The entries other than the id, in order.
pub open spec fn without_id(e: Entries) -> Entries {
    e.filter(|x: (Seq<char>, Seq<char>)| not_id(x))
}

/// What publishing a manifest with entries `e` sends, or why it is refused:
/// the schema is checked first, then the id, then each remaining field in
/// order for emptiness.
pub open spec fn publish_check(e: Entries) -> Result<Entries, ManifestFault> {
    match structural_fault(e) {
        Some(f) => Err(f),
        None => if id_assigned(e) {
            Err(ManifestFault::IdAssigned)
        } else {
            match first_empty(without_id(e)) {
                Some(k) => Err(ManifestFault::Empty(k)),
                None => Ok(without_id(e)),
            }
        },
    }
}

/// Whether `r` is the error that reports `f`.
pub open spec fn reports<T>(r: Result<T, CommandError>, f: ManifestFault) -> bool {
    match f {
        ManifestFault::Missing(k) => r matches Err(CommandError::MissingManifestField(n)) && n@
            == k,
        ManifestFault::Unknown(k) => r matches Err(CommandError::UnknownManifestField(n)) && n@
            == k,
        ManifestFault::IdAssigned => r matches Err(CommandError::InvalidManifestValue(m)) && m@
            == ID_ASSIGNED_MESSAGE@,
        ManifestFault::Empty(k) => r matches Err(CommandError::InvalidManifestValue(n)) && n@
            == k,
    }
}

/// The manifest that the entries `e` describe, or the first required field
/// they lack. A missing id is an empty one; fields outside the schema are
/// ignored.
pub open spec fn record_manifest(e: Entries) -> Result<ManifestView, Seq<char>> {
    match first_missing(e) {
        Some(k) => Err(k),
        None => Ok(
            ManifestView {
                id: match field_value(e, ID_FIELD@) {
                    Some(v) => v,
                    None => Seq::empty(),
                },
                name: field_value(e, NAME_FIELD@)->Some_0,
                version: field_value(e, VERSION_FIELD@)->Some_0,
                description: field_value(e, DESCRIPTION_FIELD@)->Some_0,
                icon: field_value(e, ICON_FIELD@)->Some_0,
                author: field_value(e, AUTHOR_FIELD@)->Some_0,
                homepage_url: field_value(e, HOMEPAGE_URL_FIELD@)->Some_0,
            },
        ),
    }
}

/// The entries of a manifest, in schema order, id first.
pub open spec fn manifest_entries(m: ManifestView) -> Entries {
    seq![
        (ID_FIELD@, m.id),
        (NAME_FIELD@, m.name),
        (VERSION_FIELD@, m.version),
        (DESCRIPTION_FIELD@, m.description),
        (ICON_FIELD@, m.icon),
        (AUTHOR_FIELD@, m.author),
        (HOMEPAGE_URL_FIELD@, m.homepage_url),
    ]
}

/// The entries of a fresh draft: every required field, empty, and no id,
/// which the backend assigns on publishing.
pub open spec fn draft_entries() -> Entries {
    seq![
        (NAME_FIELD@, Seq::empty()),
        (VERSION_FIELD@, Seq::empty()),
        (DESCRIPTION_FIELD@, Seq::empty()),
        (ICON_FIELD@, Seq::empty()),
        (AUTHOR_FIELD@, Seq::empty()),
        (HOMEPAGE_URL_FIELD@, Seq::empty()),
    ]
}

/// A manifest as the backend returned it, with the text of the file that
/// records it.
#[derive(Debug)]
pub struct Published {
    pub manifest: EdgeAppManifest,
    pub yaml: String,
}

fn text_is(a: &String, b: &str) -> (r: bool)
    ensures
        r == (a@ == b@),
{
    let t = b.to_owned();
    *a == t
}

fn is_schema_key(k: &String) -> (r: bool)
    ensures
        r == schema_key(k@),
{
    text_is(k, ID_FIELD) || text_is(k, NAME_FIELD) || text_is(k, VERSION_FIELD) || text_is(
        k,
        DESCRIPTION_FIELD,
    ) || text_is(k, ICON_FIELD) || text_is(k, AUTHOR_FIELD) || text_is(k, HOMEPAGE_URL_FIELD)
}

/// The position of the first entry under `key`.
pub fn find_field(entries: &Vec<(String, String)>, key: &str) -> (r: Option<usize>)
    ensures
        match r {
            Some(i) => {
                &&& i < entries@.len()
                &&& entries@[i as int].0@ == key@
                &&& field_value(entries_view(entries@), key@) == Some(entries@[i as int].1@)
            },
            None => field_value(entries_view(entries@), key@) is None,
        },
{
    let ghost ev = entries_view(entries@);
    let mut found: Option<usize> = None;
    let mut i: usize = 0;
    while i < entries.len()
        invariant
            0 <= i <= entries@.len(),
            ev == entries_view(entries@),
            match found {
                Some(j) => {
                    &&& j < i
                    &&& entries@[j as int].0@ == key@
                    &&& field_value(ev.subrange(0, i as int), key@) == Some(
                        entries@[j as int].1@,
                    )
                },
                None => field_value(ev.subrange(0, i as int), key@) is None,
            },
        decreases entries@.len() - i,
    {
        assert(ev.subrange(0, i + 1).drop_last() =~= ev.subrange(0, i as int));
        if found.is_none() && text_is(&entries[i].0, key) {
            found = Some(i);
        }
        i = i + 1;
    }
    assert(ev.subrange(0, entries@.len() as int) =~= ev);
    found
}

/// The position of the first entry outside the schema.
fn find_unknown(entries: &Vec<(String, String)>) -> (r: Option<usize>)
    ensures
        match r {
            Some(i) => i < entries@.len() && first_unknown(entries_view(entries@)) == Some(
                entries@[i as int].0@,
            ),
            None => first_unknown(entries_view(entries@)) is None,
        },
{
    let ghost ev = entries_view(entries@);
    let mut found: Option<usize> = None;
    let mut i: usize = 0;
    while i < entries.len()
        invariant
            0 <= i <= entries@.len(),
            ev == entries_view(entries@),
            match found {
                Some(j) => j < i && first_unknown(ev.subrange(0, i as int)) == Some(
                    entries@[j as int].0@,
                ),
                None => first_unknown(ev.subrange(0, i as int)) is None,
            },
        decreases entries@.len() - i,
    {
        assert(ev.subrange(0, i + 1).drop_last() =~= ev.subrange(0, i as int));
        if found.is_none() && !is_schema_key(&entries[i].0) {
            found = Some(i);
        }
        i = i + 1;
    }
    assert(ev.subrange(0, entries@.len() as int) =~= ev);
    found
}

/// The position of the first entry whose value is empty.
fn find_empty(entries: &Vec<(String, String)>) -> (r: Option<usize>)
    ensures
        match r {
            Some(i) => i < entries@.len() && first_empty(entries_view(entries@)) == Some(
                entries@[i as int].0@,
            ),
            None => first_empty(entries_view(entries@)) is None,
        },
{
    let ghost ev = entries_view(entries@);
    let mut found: Option<usize> = None;
    let mut i: usize = 0;
    while i < entries.len()
        invariant
            0 <= i <= entries@.len(),
            ev == entries_view(entries@),
            match found {
                Some(j) => j < i && first_empty(ev.subrange(0, i as int)) == Some(
                    entries@[j as int].0@,
                ),
                None => first_empty(ev.subrange(0, i as int)) is None,
            },
        decreases entries@.len() - i,
    {
        assert(ev.subrange(0, i + 1).drop_last() =~= ev.subrange(0, i as int));
        if found.is_none() && entries[i].1.as_str().is_empty() {
            found = Some(i);
        }
        i = i + 1;
    }
    assert(ev.subrange(0, entries@.len() as int) =~= ev);
    found
}

/// Whether some entry assigns a non-empty id.
fn has_assigned_id(entries: &Vec<(String, String)>) -> (r: bool)
    ensures
        r == id_assigned(entries_view(entries@)),
{
    let ghost ev = entries_view(entries@);
    let mut i: usize = 0;
    while i < entries.len()
        invariant
            0 <= i <= entries@.len(),
            ev == entries_view(entries@),
            forall|j: int| 0 <= j < i ==> !((#[trigger] ev[j]).0 == ID_FIELD@ && ev[j].1.len() > 0),
        decreases entries@.len() - i,
    {
        if text_is(&entries[i].0, ID_FIELD) && !entries[i].1.as_str().is_empty() {
            assert(ev[i as int].0 == ID_FIELD@ && ev[i as int].1.len() > 0);
            return true;
        }
        i = i + 1;
    }
    false
}

/// The entries other than the id, in order.
fn strip_id(entries: &Vec<(String, String)>) -> (r: Vec<(String, String)>)
    ensures
        entries_view(r@) == without_id(entries_view(entries@)),
{
    let ghost ev = entries_view(entries@);
    let mut out: Vec<(String, String)> = Vec::new();
    let mut i: usize = 0;
    while i < entries.len()
        invariant
            0 <= i <= entries@.len(),
            ev == entries_view(entries@),
            entries_view(out@) == without_id(ev.subrange(0, i as int)),
        decreases entries@.len() - i,
    {
        proof {
            reveal(Seq::filter);
            assert(ev.subrange(0, i + 1).drop_last() =~= ev.subrange(0, i as int));
        }
        if !text_is(&entries[i].0, ID_FIELD) {
            let k = entries[i].0.clone();
            let v = entries[i].1.clone();
            let ghost before = out@;
            out.push((k, v));
            assert(entries_view(out@) =~= entries_view(before).push(ev[i as int]));
        }
        i = i + 1;
    }
    assert(ev.subrange(0, entries@.len() as int) =~= ev);
    out
}

/// Succeeds exactly when every required field is present; otherwise names
/// the first one missing, in schema order.
fn require_fields(entries: &Vec<(String, String)>) -> (r: Result<(), CommandError>)
    ensures
        match first_missing(entries_view(entries@)) {
            Some(k) => reports(r, ManifestFault::Missing(k)),
            None => r is Ok,
        },
{
    if find_field(entries, NAME_FIELD).is_none() {
        return Err(CommandError::MissingManifestField(NAME_FIELD.to_owned()));
    }
    if find_field(entries, VERSION_FIELD).is_none() {
        return Err(CommandError::MissingManifestField(VERSION_FIELD.to_owned()));
    }
    if find_field(entries, DESCRIPTION_FIELD).is_none() {
        return Err(CommandError::MissingManifestField(DESCRIPTION_FIELD.to_owned()));
    }
    if find_field(entries, ICON_FIELD).is_none() {
        return Err(CommandError::MissingManifestField(ICON_FIELD.to_owned()));
    }
    if find_field(entries, AUTHOR_FIELD).is_none() {
        return Err(CommandError::MissingManifestField(AUTHOR_FIELD.to_owned()));
    }
    if find_field(entries, HOMEPAGE_URL_FIELD).is_none() {
        return Err(CommandError::MissingManifestField(HOMEPAGE_URL_FIELD.to_owned()));
    }
    Ok(())
}

/// Checks that `entries` fit the manifest schema: every required field
/// present, and no field outside the schema.
pub fn check_structure(entries: &Vec<(String, String)>) -> (r: Result<(), CommandError>)
    ensures
        match structural_fault(entries_view(entries@)) {
            Some(f) => reports(r, f),
            None => r is Ok,
        },
{
    match require_fields(entries) {
        Ok(()) => {},
        Err(e) => {
            return Err(e);
        },
    }
    match find_unknown(entries) {
        Some(i) => Err(CommandError::UnknownManifestField(entries[i].0.clone())),
        None => Ok(()),
    }
}

/// The fields that publishing a manifest with `entries` sends, or why it
/// is refused: the schema first, then an assigned id, then the first empty
/// field, named.
pub fn check_manifest(entries: &Vec<(String, String)>) -> (r: Result<
    Vec<(String, String)>,
    CommandError,
>)
    ensures
        match publish_check(entries_view(entries@)) {
            Ok(p) => r is Ok && entries_view(r->Ok_0@) == p,
            Err(f) => reports(r, f),
        },
{
    match check_structure(entries) {
        Ok(()) => {},
        Err(e) => {
            return Err(e);
        },
    }
    if has_assigned_id(entries) {
        return Err(CommandError::InvalidManifestValue(ID_ASSIGNED_MESSAGE.to_owned()));
    }
    let payload = strip_id(entries);
    match find_empty(&payload) {
        Some(i) => Err(CommandError::InvalidManifestValue(payload[i].0.clone())),
        None => Ok(payload),
    }
}

/// The entries as text members of a JSON object, in order.
pub fn text_fields(entries: &Vec<(String, String)>) -> (r: Vec<Field>)
    ensures
        text_record(r@, entries_view(entries@)),
{
    let ghost ev = entries_view(entries@);
    let mut out: Vec<Field> = Vec::new();
    let mut i: usize = 0;
    while i < entries.len()
        invariant
            0 <= i <= entries@.len(),
            ev == entries_view(entries@),
            text_record(out@, ev.subrange(0, i as int)),
        decreases entries@.len() - i,
    {
        let name = entries[i].0.clone();
        let value = FieldValue::Text(entries[i].1.clone());
        out.push(Field { name, value });
        i = i + 1;
    }
    assert(ev.subrange(0, entries@.len() as int) =~= ev);
    out
}

/// The manifest that `entries` describe, or the first required field they
/// lack.
pub fn manifest_from_entries(entries: &Vec<(String, String)>) -> (r: Result<
    EdgeAppManifest,
    CommandError,
>)
    ensures
        match record_manifest(entries_view(entries@)) {
            Ok(m) => r is Ok && r->Ok_0@ == m,
            Err(k) => reports(r, ManifestFault::Missing(k)),
        },
{
    match require_fields(entries) {
        Ok(()) => {},
        Err(e) => {
            return Err(e);
        },
    }
    let id = match find_field(entries, ID_FIELD) {
        Some(i) => entries[i].1.clone(),
        None => String::new(),
    };
    Ok(
        EdgeAppManifest {
            id,
            name: field_text(entries, NAME_FIELD),
            version: field_text(entries, VERSION_FIELD),
            description: field_text(entries, DESCRIPTION_FIELD),
            icon: field_text(entries, ICON_FIELD),
            author: field_text(entries, AUTHOR_FIELD),
            homepage_url: field_text(entries, HOMEPAGE_URL_FIELD),
        },
    )
}

/// The value under `key`, which is present.
fn field_text(entries: &Vec<(String, String)>, key: &str) -> (r: String)
    requires
        field_value(entries_view(entries@), key@) is Some,
    ensures
        field_value(entries_view(entries@), key@) == Some(r@),
{
    match find_field(entries, key) {
        Some(i) => entries[i].1.clone(),
        None => String::new(),
    }
}

/// The entries of `m`, in schema order, id first.
pub fn manifest_fields(m: &EdgeAppManifest) -> (r: Vec<(String, String)>)
    ensures
        entries_view(r@) == manifest_entries(m@),
{
    let r = vec![
        (ID_FIELD.to_owned(), m.id.clone()),
        (NAME_FIELD.to_owned(), m.name.clone()),
        (VERSION_FIELD.to_owned(), m.version.clone()),
        (DESCRIPTION_FIELD.to_owned(), m.description.clone()),
        (ICON_FIELD.to_owned(), m.icon.clone()),
        (AUTHOR_FIELD.to_owned(), m.author.clone()),
        (HOMEPAGE_URL_FIELD.to_owned(), m.homepage_url.clone()),
    ];
    assert(entries_view(r@) =~= manifest_entries(m@));
    r
}

/// The edge-app workflow, bound to a backend.
pub struct EdgeAppCommand {
    authentication: Authentication,
}

impl EdgeAppCommand {
    /// The backend that this command talks to.
    pub closed spec fn backend(&self) -> Authentication {
        self.authentication
    }

    pub fn new(authentication: Authentication) -> (r: Self)
        ensures
            r.backend() == authentication,
    {
        Self { authentication }
    }

    /// The text of a fresh manifest file: every required field, empty, and
    /// no id.
    pub fn draft_text(&self) -> (r: Result<String, CommandError>)
        ensures
            match yaml_text(draft_entries()) {
                Some(t) => r is Ok && r->Ok_0@ == t,
                None => r matches Err(CommandError::YamlParse(_)),
            },
    {
        let draft = vec![
            (NAME_FIELD.to_owned(), String::new()),
            (VERSION_FIELD.to_owned(), String::new()),
            (DESCRIPTION_FIELD.to_owned(), String::new()),
            (ICON_FIELD.to_owned(), String::new()),
            (AUTHOR_FIELD.to_owned(), String::new()),
            (HOMEPAGE_URL_FIELD.to_owned(), String::new()),
        ];
        assert(entries_view(draft@) =~= draft_entries());
        match render_yaml_entries(&draft) {
            Ok(t) => Ok(t),
            Err(e) => Err(CommandError::YamlParse(e)),
        }
    }

    /// Reads a manifest file's text against the schema: every required
    /// field present, no field outside the schema, a missing id empty.
    pub fn read_manifest(text: &str) -> (r: Result<EdgeAppManifest, CommandError>)
        ensures
            match yaml_string_map(text@) {
                None => r matches Err(CommandError::YamlParse(_)),
                Some(e) => match structural_fault(e) {
                    Some(f) => reports(r, f),
                    None => r is Ok && record_manifest(e) == Ok::<ManifestView, Seq<char>>(
                        r->Ok_0@,
                    ),
                },
            },
    {
        let entries = match parse_yaml_entries(text) {
            Ok(v) => v,
            Err(e) => {
                return Err(CommandError::YamlParse(e));
            },
        };
        match check_structure(&entries) {
            Ok(()) => {},
            Err(e) => {
                return Err(e);
            },
        }
        manifest_from_entries(&entries)
    }

    /// The request that publishes the manifest whose file holds
    /// `manifest_text`, or why it must not be sent. Nothing is sent for a
    /// manifest that breaks the schema, already has an id, or leaves a field
    /// empty.
    pub fn publish_request(&self, manifest_text: &str) -> (r: Result<ResourceRequest, CommandError>)
        ensures
            match yaml_string_map(manifest_text@) {
                None => r matches Err(CommandError::YamlParse(_)),
                Some(e) => match publish_check(e) {
                    Ok(p) => {
                        &&& r is Ok
                        &&& request_is(
                            r->Ok_0,
                            Verb::Post,
                            resource_url_of(self.backend().config.url@, PUBLISH_ENDPOINT@),
                            true,
                        )
                        &&& r->Ok_0.payload matches Some(Payload::Record(fields)) && text_record(
                            fields@,
                            p,
                        )
                    },
                    Err(f) => reports(r, f),
                },
            },
    {
        let entries = match parse_yaml_entries(manifest_text) {
            Ok(v) => v,
            Err(e) => {
                return Err(CommandError::YamlParse(e));
            },
        };
        let payload = match check_manifest(&entries) {
            Ok(p) => p,
            Err(e) => {
                return Err(e);
            },
        };
        let fields = text_fields(&payload);
        Ok(post_request(&self.authentication, PUBLISH_ENDPOINT, Payload::Record(fields)))
    }

    /// Interprets the backend's answer to a publish: with status `201` and
    /// exactly one complete record, that record and the text of the file that
    /// now records it; otherwise why not. The file is to be written only on
    /// success.
    pub fn publish_outcome(status: u16, body: &str) -> (r: Result<Published, CommandError>)
        ensures
            status != STATUS_CREATED ==> is_status_error(r, status),
            status == STATUS_CREATED ==> match json_string_records(body@) {
                None => r matches Err(CommandError::Parse(_)),
                Some(recs) => if recs.len() != 1 {
                    r matches Err(CommandError::UnexpectedRecordCount(n)) && n == recs.len()
                } else {
                    match record_manifest(recs[0]) {
                        Err(k) => reports(r, ManifestFault::Missing(k)),
                        Ok(m) => match yaml_text(manifest_entries(m)) {
                            None => r matches Err(CommandError::YamlParse(_)),
                            Some(t) => {
                                &&& r is Ok
                                &&& r->Ok_0.manifest@ == m
                                &&& r->Ok_0.yaml@ == t
                            },
                        },
                    }
                },
            },
    {
        if status != STATUS_CREATED {
            return Err(CommandError::WrongResponseStatus(status));
        }
        let records = match parse_json_records(body) {
            Ok(v) => v,
            Err(e) => {
                return Err(CommandError::Parse(e));
            },
        };
        if records.len() != 1 {
            return Err(CommandError::UnexpectedRecordCount(records.len()));
        }
        let manifest = match manifest_from_entries(&records[0]) {
            Ok(m) => m,
            Err(e) => {
                return Err(e);
            },
        };
        let fields = manifest_fields(&manifest);
        match render_yaml_entries(&fields) {
            Ok(yaml) => Ok(Published { manifest, yaml }),
            Err(e) => Err(CommandError::YamlParse(e)),
        }
    }
}

/// The first empty value is found wherever an empty value stands.
proof fn first_empty_finds(e: Entries, j: int)
    requires
        0 <= j < e.len(),
        e[j].1.len() == 0,
    ensures
        first_empty(e) is Some,
    decreases e.len(),
{
    if j < e.len() - 1 {
        first_empty_finds(e.drop_last(), j);
    }
}

/// A manifest that already carries a non-empty id is never published.
pub proof fn assigned_id_blocks_publishing(e: Entries)
    requires
        id_assigned(e),
    ensures
        publish_check(e) is Err,
        structural_fault(e) is None ==> publish_check(e) == Err::<Entries, ManifestFault>(
            ManifestFault::IdAssigned,
        ),
{
}

/// A manifest with an empty field other than the id is never published;
/// when it fits the schema and has no id, the refusal names the first empty
/// field.
pub proof fn empty_field_blocks_publishing(e: Entries, i: int)
    requires
        0 <= i < e.len(),
        e[i].0 != ID_FIELD@,
        e[i].1.len() == 0,
    ensures
        publish_check(e) is Err,
        structural_fault(e) is None && !id_assigned(e) ==> publish_check(e) == Err::<
            Entries,
            ManifestFault,
        >(ManifestFault::Empty(first_empty(without_id(e))->Some_0)),
{
    broadcast use Seq::lemma_filter_contains;

    let kept = without_id(e);
    assert(not_id(e[i]));
    assert(kept.contains(e[i]));
    let j = choose|j: int| 0 <= j < kept.len() && kept[j] == e[i];
    first_empty_finds(kept, j);
}

/// Proves facts about the seven field names: they are pairwise distinct.
proof fn field_names_distinct()
    ensures
        ID_FIELD@ != NAME_FIELD@,
        ID_FIELD@ != VERSION_FIELD@,
        ID_FIELD@ != DESCRIPTION_FIELD@,
        ID_FIELD@ != ICON_FIELD@,
        ID_FIELD@ != AUTHOR_FIELD@,
        ID_FIELD@ != HOMEPAGE_URL_FIELD@,
        NAME_FIELD@ != VERSION_FIELD@,
        NAME_FIELD@ != DESCRIPTION_FIELD@,
        NAME_FIELD@ != ICON_FIELD@,
        NAME_FIELD@ != AUTHOR_FIELD@,
        NAME_FIELD@ != HOMEPAGE_URL_FIELD@,
        VERSION_FIELD@ != DESCRIPTION_FIELD@,
        VERSION_FIELD@ != ICON_FIELD@,
        VERSION_FIELD@ != AUTHOR_FIELD@,
        VERSION_FIELD@ != HOMEPAGE_URL_FIELD@,
        DESCRIPTION_FIELD@ != ICON_FIELD@,
        DESCRIPTION_FIELD@ != AUTHOR_FIELD@,
        DESCRIPTION_FIELD@ != HOMEPAGE_URL_FIELD@,
        ICON_FIELD@ != AUTHOR_FIELD@,
        ICON_FIELD@ != HOMEPAGE_URL_FIELD@,
        AUTHOR_FIELD@ != HOMEPAGE_URL_FIELD@,
{
    reveal_strlit("id");
    reveal_strlit("name");
    reveal_strlit("version");
    reveal_strlit("description");
    reveal_strlit("icon");
    reveal_strlit("author");
    reveal_strlit("homepage_url");
    assert(ID_FIELD@.len() != NAME_FIELD@.len());
    assert(ID_FIELD@.len() != VERSION_FIELD@.len());
    assert(ID_FIELD@.len() != DESCRIPTION_FIELD@.len());
    assert(ID_FIELD@.len() != ICON_FIELD@.len());
    assert(ID_FIELD@.len() != AUTHOR_FIELD@.len());
    assert(ID_FIELD@.len() != HOMEPAGE_URL_FIELD@.len());
    assert(NAME_FIELD@.len() != VERSION_FIELD@.len());
    assert(NAME_FIELD@.len() != DESCRIPTION_FIELD@.len());
    assert(NAME_FIELD@[0] != ICON_FIELD@[0]);
    assert(NAME_FIELD@.len() != AUTHOR_FIELD@.len());
    assert(NAME_FIELD@.len() != HOMEPAGE_URL_FIELD@.len());
    assert(VERSION_FIELD@.len() != DESCRIPTION_FIELD@.len());
    assert(VERSION_FIELD@.len() != ICON_FIELD@.len());
    assert(VERSION_FIELD@.len() != AUTHOR_FIELD@.len());
    assert(VERSION_FIELD@.len() != HOMEPAGE_URL_FIELD@.len());
    assert(DESCRIPTION_FIELD@.len() != ICON_FIELD@.len());
    assert(DESCRIPTION_FIELD@.len() != AUTHOR_FIELD@.len());
    assert(DESCRIPTION_FIELD@.len() != HOMEPAGE_URL_FIELD@.len());
    assert(ICON_FIELD@.len() != AUTHOR_FIELD@.len());
    assert(ICON_FIELD@.len() != HOMEPAGE_URL_FIELD@.len());
    assert(AUTHOR_FIELD@.len() != HOMEPAGE_URL_FIELD@.len());
}

/// A fresh draft leaves the id out altogether and every other field empty,
/// and it fits the schema: read back, it is the manifest whose fields are
/// all empty.
pub proof fn draft_reads_back_empty()
    ensures
        forall|i: int|
            0 <= i < draft_entries().len() ==> (#[trigger] draft_entries()[i]).0 != ID_FIELD@
                && draft_entries()[i].1.len() == 0,
        field_value(draft_entries(), ID_FIELD@) is None,
        structural_fault(draft_entries()) is None,
        record_manifest(draft_entries()) == Ok::<ManifestView, Seq<char>>(empty_manifest()),
{
    field_names_distinct();
    reveal_with_fuel(field_value, 7);
    reveal_with_fuel(first_unknown, 7);
    assert(draft_entries().len() == 6);
}

/// The entries written for a published manifest fit the schema and read
/// back as that same manifest.
pub proof fn published_entries_read_back(m: ManifestView)
    ensures
        structural_fault(manifest_entries(m)) is None,
        record_manifest(manifest_entries(m)) == Ok::<ManifestView, Seq<char>>(m),
{
    field_names_distinct();
    reveal_with_fuel(field_value, 8);
    reveal_with_fuel(first_unknown, 8);
}

} // verus!
