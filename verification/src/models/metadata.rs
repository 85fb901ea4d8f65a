//! The local metadata description of an artifact: its identity, licenses,
//! declared resources and column schemas, together with the structural
//! validation that runs before any upload begins.

use vstd::prelude::*;

use crate::error::KaggleError;
use crate::models::{Collaborator, DatasetColumn, DatasetUpdateSettingsRequest, License};
use crate::query::{PushKernelType, PushLanguageType};
use crate::strutil::{
    ascii_lower, first_segment, has_char, lower_chars, second_segment, segment_after_slash,
    segment_before_slash, str_eq,
};

verus! {

/// The metadata description of a dataset or kernel, as read from the
/// well-known metadata file.
///
/// Free-form per-file settings that ride along unread are kept as raw JSON
/// text in `data`; the serialization boundary outside the library converts
/// them.
#[derive(Debug, Clone)]
pub struct Metadata {
    pub title: String,
    pub subtitle: Option<String>,
    pub description: String,
    pub id: String,
    pub id_no: Option<i32>,
    pub code_file: Option<String>,
    pub language: Option<PushLanguageType>,
    pub kernel_type: Option<PushKernelType>,
    /// Whether or not the dataset should be private
    pub is_private: Option<bool>,
    pub enable_gpu: Option<bool>,
    pub enable_internet: Option<bool>,
    pub collaborators: Vec<Collaborator>,
    pub licenses: Vec<License>,
    pub resources: Vec<Resource>,
    pub keywords: Vec<String>,
    pub kernel_sources: Vec<String>,
    pub dataset_sources: Vec<String>,
    pub competition_sources: Vec<String>,
    pub data: Option<String>,
}

/// A declared local file expected to accompany a dataset.
#[derive(Debug, Clone)]
pub struct Resource {
    pub path: String,
    pub description: String,
    pub schema: Option<Schema>,
}

/// Column-level type hints for one resource.
#[derive(Debug, Clone)]
pub struct Schema {
    pub fields: Vec<Field>,
}

/// One column's declared name, description and type.
#[derive(Debug, Clone)]
pub struct Field {
    pub name: String,
    pub description: Option<String>,
    pub type_field: Option<String>,
}

/// Whether a kernel source identifier has an acceptable shape: it must have
/// an `owner/slug` form whose slug part is at least five characters.
pub open spec fn kernel_string_ok(s: Seq<char>) -> bool {
    match second_segment(s) {
        Some(seg) => seg.len() >= 5,
        None => false,
    }
}

/// Whether `p` occurs among the paths known to exist.
pub open spec fn path_exists(existing: Seq<String>, p: Seq<char>) -> bool {
    exists|j: int| 0 <= j < existing.len() && (#[trigger] existing[j]@) == p
}

/// Whether resource `i` names a path that does not exist.
pub open spec fn resource_missing(rs: Seq<Resource>, existing: Seq<String>, i: int) -> bool {
    !path_exists(existing, rs[i].path@)
}

/// Whether resource `i` repeats the path of an earlier resource.
pub open spec fn resource_duplicate(rs: Seq<Resource>, i: int) -> bool {
    exists|j: int| 0 <= j < i && (#[trigger] rs[j].path@) == rs[i].path@
}

/// Whether resource `i` violates the resource rules.
pub open spec fn resource_bad(rs: Seq<Resource>, existing: Seq<String>, i: int) -> bool {
    resource_missing(rs, existing, i) || resource_duplicate(rs, i)
}

/// The first resource index at or after `i` that violates the resource
/// rules, or `-1` if there is none.
pub open spec fn first_bad_resource_from(rs: Seq<Resource>, existing: Seq<String>, i: int) -> int
    decreases rs.len() - i,
{
    if i < 0 || i >= rs.len() {
        -1
    } else if resource_bad(rs, existing, i) {
        i
    } else {
        first_bad_resource_from(rs, existing, i + 1)
    }
}

/// The first resource index that violates the resource rules, or `-1`.
pub open spec fn first_bad_resource(rs: Seq<Resource>, existing: Seq<String>) -> int {
    first_bad_resource_from(rs, existing, 0)
}

impl Metadata {
    /// Check that a kernel source identifier has the `owner/slug` shape with
    /// a slug of at least five characters.
    pub fn is_valid_kernel_string(s: &str) -> (r: Result<(), KaggleError>)
        ensures
            r is Ok <==> kernel_string_ok(s@),
            r matches Err(e) ==> e is Metadata,
    {
        match segment_after_slash(s) {
            Some(seg) => {
                if seg.unicode_len() < 5 {
                    let mut msg = String::new();
                    msg.append("Kernel slug `");
                    msg.append(seg);
                    msg.append("` must be at least five characters.");
                    Err(KaggleError::Metadata { msg })
                } else {
                    Ok(())
                }
            },
            None => {
                let mut msg = String::new();
                msg.append(
                    "Invalid kernel source identifier. expected form `{username}/{identifier-slug}`, but got ",
                );
                msg.append(s);
                Err(KaggleError::Metadata { msg })
            },
        }
    }

    /// The owner part of the identifier: everything before the first `/`, or
    /// the whole identifier when it has none.
    pub fn owner_slug(&self) -> (r: &str)
        ensures
            r@ == first_segment(self.id@),
    {
        segment_before_slash(self.id.as_str())
    }

    /// The slug part of the identifier: the segment after the first `/`,
    /// when there is one.
    pub fn dataset_slug(&self) -> (r: Option<&str>)
        ensures
            match r {
                Some(s) => second_segment(self.id@) == Some(s@),
                None => second_segment(self.id@) is None,
            },
    {
        segment_after_slash(self.id.as_str())
    }

    /// Check that every dataset source identifier has an `owner/slug` form.
    pub fn is_dataset_sources_valid(&self) -> (r: Result<(), KaggleError>)
        ensures
            r is Ok <==> (forall|i: int| 0 <= i < self.dataset_sources@.len()
                ==> has_char(#[trigger] self.dataset_sources@[i]@, '/')),
            r matches Err(e) ==> e is Metadata,
    {
        let n = self.dataset_sources.len();
        let mut i: usize = 0;
        while i < n
            invariant
                i <= n,
                n == self.dataset_sources@.len(),
                forall|j: int| 0 <= j < i ==> has_char(#[trigger] self.dataset_sources@[j]@, '/'),
            decreases n - i,
        {
            let s = &self.dataset_sources[i];
            proof {
                crate::strutil::lemma_index_of_char(s@, '/');
            }
            match crate::strutil::find_char(s.as_str(), '/') {
                Some(_) => {},
                None => {
                    let mut msg = String::new();
                    msg.append(
                        "Invalid dataset source identifier. expected form `{username}/{identifier-slug}`, but got ",
                    );
                    msg.append(s.as_str());
                    return Err(KaggleError::Metadata { msg });
                },
            }
            i += 1;
        }
        Ok(())
    }

    /// Check that every kernel source identifier has an acceptable shape.
    pub fn is_kernel_sources_valid(&self) -> (r: Result<(), KaggleError>)
        ensures
            r is Ok <==> (forall|i: int| 0 <= i < self.kernel_sources@.len()
                ==> kernel_string_ok(#[trigger] self.kernel_sources@[i]@)),
            r matches Err(e) ==> e is Metadata,
    {
        let n = self.kernel_sources.len();
        let mut i: usize = 0;
        while i < n
            invariant
                i <= n,
                n == self.kernel_sources@.len(),
                forall|j: int| 0 <= j < i ==> kernel_string_ok(#[trigger] self.kernel_sources@[j]@),
            decreases n - i,
        {
            match Self::is_valid_kernel_string(self.kernel_sources[i].as_str()) {
                Ok(_) => {},
                Err(e) => {
                    return Err(e);
                },
            }
            i += 1;
        }
        Ok(())
    }

    /// Validate the declared resources against the set of paths that exist
    /// on disk: every resource must exist and no two resources may share a
    /// path. The first violation, in declaration order, is reported; a
    /// missing file wins over a duplicate at the same index.
    pub fn validate_resource(&self, existing: &Vec<String>) -> (r: Result<(), KaggleError>)
        ensures
            r is Ok <==> first_bad_resource(self.resources@, existing@) == -1,
            r matches Err(e) ==> {
                let i = first_bad_resource(self.resources@, existing@);
                &&& 0 <= i < self.resources@.len()
                &&& if resource_missing(self.resources@, existing@, i) {
                    e matches KaggleError::FileNotFound(p) && p@ == self.resources@[i].path@
                } else {
                    e matches KaggleError::Metadata { msg } && msg@ == "path "@
                        + self.resources@[i].path@
                        + " was specified more than once in the metadata"@
                }
            },
    {
        let n = self.resources.len();
        let mut i: usize = 0;
        while i < n
            invariant
                i <= n,
                n == self.resources@.len(),
                forall|j: int| 0 <= j < i ==> !resource_bad(self.resources@, existing@, j),
                first_bad_resource(self.resources@, existing@) == first_bad_resource_from(
                    self.resources@,
                    existing@,
                    i as int,
                ),
            decreases n - i,
        {
            let path = &self.resources[i].path;
            if !path_in_list(existing, path.as_str()) {
                proof {
                    assert(resource_missing(self.resources@, existing@, i as int));
                    assert(first_bad_resource_from(self.resources@, existing@, i as int)
                        == i as int);
                }
                return Err(KaggleError::FileNotFound(path.clone()));
            }
            let mut j: usize = 0;
            while j < i
                invariant
                    j <= i,
                    i < n,
                    n == self.resources@.len(),
                    path_exists(existing@, self.resources@[i as int].path@),
                    forall|k: int| 0 <= k < i ==> !resource_bad(self.resources@, existing@, k),
                    first_bad_resource(self.resources@, existing@) == first_bad_resource_from(
                        self.resources@,
                        existing@,
                        i as int,
                    ),
                    forall|k: int| 0 <= k < j ==> self.resources@[k].path@
                        != self.resources@[i as int].path@,
                decreases i - j,
            {
                if str_eq(self.resources[j].path.as_str(), self.resources[i].path.as_str()) {
                    proof {
                        assert(resource_duplicate(self.resources@, i as int));
                        assert(first_bad_resource_from(self.resources@, existing@, i as int)
                            == i as int);
                    }
                    let mut msg = String::new();
                    msg.append("path ");
                    msg.append(self.resources[i].path.as_str());
                    msg.append(" was specified more than once in the metadata");
                    proof {
                        assert(msg@ =~= "path "@ + self.resources@[i as int].path@
                            + " was specified more than once in the metadata"@);
                    }
                    return Err(KaggleError::Metadata { msg });
                }
                assert(self.resources@[j as int].path@ != self.resources@[i as int].path@);
                j += 1;
            }
            assert(!resource_bad(self.resources@, existing@, i as int));
            i += 1;
        }
        Ok(())
    }
}

/// Whether the given path occurs in the list.
fn path_in_list(existing: &Vec<String>, p: &str) -> (r: bool)
    ensures
        r == path_exists(existing@, p@),
{
    let n = existing.len();
    let mut i: usize = 0;
    while i < n
        invariant
            i <= n,
            n == existing@.len(),
            forall|j: int| 0 <= j < i ==> #[trigger] existing@[j]@ != p@,
        decreases n - i,
    {
        if str_eq(existing[i].as_str(), p) {
            return true;
        }
        i += 1;
    }
    false
}

/// Any metadata whose resource list repeats a path fails resource
/// validation, whatever else the list holds: a duplicated path is a
/// violation, so some first violation exists and `validate_resource`
/// reports an error.
pub proof fn lemma_duplicate_resource_rejected(
    rs: Seq<Resource>,
    existing: Seq<String>,
    i: int,
    j: int,
)
    requires
        0 <= i < j < rs.len(),
        rs[i].path@ == rs[j].path@,
    ensures
        first_bad_resource(rs, existing) >= 0,
{
    assert(resource_duplicate(rs, j));
    lemma_first_bad_resource_finds(rs, existing, 0, j);
}

/// If some resource at or after `i` violates the rules, the search starting
/// at `i` finds a violation.
proof fn lemma_first_bad_resource_finds(rs: Seq<Resource>, existing: Seq<String>, i: int, w: int)
    requires
        0 <= i <= w < rs.len(),
        resource_bad(rs, existing, w),
    ensures
        first_bad_resource_from(rs, existing, i) >= 0,
    decreases w - i,
{
    if !resource_bad(rs, existing, i) {
        lemma_first_bad_resource_finds(rs, existing, i + 1, w);
    }
}

/// The settings-update request a metadata description induces: its title,
/// description, licenses, keywords and collaborators carried over, and the
/// optional subtitle, privacy flag and per-file data kept only when present.
pub open spec fn update_settings_of(m: Metadata) -> DatasetUpdateSettingsRequest {
    DatasetUpdateSettingsRequest {
        title: Some(m.title),
        subtitle: m.subtitle,
        description: Some(m.description),
        is_private: m.is_private,
        licenses: m.licenses,
        keywords: m.keywords,
        collaborators: m.collaborators,
        data: m.data,
    }
}

impl From<Metadata> for DatasetUpdateSettingsRequest {
    /// Turn a metadata description into a settings-update request.
    fn from(m: Metadata) -> (r: DatasetUpdateSettingsRequest)
        ensures
            r == update_settings_of(m),
    {
        DatasetUpdateSettingsRequest {
            title: Some(m.title),
            subtitle: m.subtitle,
            description: Some(m.description),
            is_private: m.is_private,
            licenses: m.licenses,
            keywords: m.keywords,
            collaborators: m.collaborators,
            data: m.data,
        }
    }
}

impl vstd::std_specs::convert::FromSpecImpl<Metadata> for DatasetUpdateSettingsRequest {
    open spec fn obeys_from_spec() -> bool {
        true
    }

    open spec fn from_spec(m: Metadata) -> DatasetUpdateSettingsRequest {
        update_settings_of(m)
    }
}

/// The column descriptors derived from a schema: one per field, in order,
/// with the declared type folded to lower case and normalized into the
/// service's type vocabulary.
pub open spec fn column_matches_field(c: DatasetColumn, f: Field) -> bool {
    &&& c.name matches Some(n) && n@ == f.name@
    &&& match f.description {
        Some(d) => c.description matches Some(cd) && cd@ == d@,
        None => c.description is None,
    }
    &&& match f.type_field {
        Some(t) => {
            &&& c.field_type matches Some(ft) && ft@ == normalized_type(lower_chars(t@))
            &&& c.original_type matches Some(ot) && ot@ == lower_chars(t@)
        },
        None => c.field_type is None && c.original_type is None,
    }
}

/// Whether a lower-cased declared type names one of the string-like types.
pub open spec fn is_string_like_type(t: Seq<char>) -> bool {
    t == "string"@ || t == "date"@ || t == "time"@ || t == "yearmonth"@ || t == "duration"@
        || t == "geopoint"@ || t == "geojson"@
}

/// Whether a lower-cased declared type names one of the numeric types.
pub open spec fn is_numeric_like_type(t: Seq<char>) -> bool {
    t == "numeric"@ || t == "number"@ || t == "year"@
}

/// The service's column type for a lower-cased declared type: string-like
/// and numeric-like types collapse to `string` and `numeric`, `boolean` and
/// `datetime` stand as they are, and every other type passes through
/// unchanged for the server to interpret.
pub open spec fn normalized_type(t: Seq<char>) -> Seq<char> {
    if is_string_like_type(t) {
        "string"@
    } else if is_numeric_like_type(t) {
        "numeric"@
    } else if t == "boolean"@ {
        "boolean"@
    } else if t == "datetime"@ {
        "datetime"@
    } else {
        t
    }
}

/// A declared type that matches none of the recognized vocabulary
/// normalizes to itself: unrecognized types pass through unchanged.
pub proof fn lemma_unrecognized_type_passes_through(t: Seq<char>)
    requires
        !is_string_like_type(t),
        !is_numeric_like_type(t),
        t != "boolean"@,
        t != "datetime"@,
    ensures
        normalized_type(t) == t,
{
}

/// The declared types named in the service's documentation normalize as
/// promised: `Date`, `date` and `geojson` become `string`, while `Number`
/// and `year` become `numeric`.
pub proof fn lemma_declared_type_normalization()
    ensures
        normalized_type(lower_chars("Date"@)) == "string"@,
        normalized_type(lower_chars("date"@)) == "string"@,
        normalized_type(lower_chars("geojson"@)) == "string"@,
        normalized_type(lower_chars("Number"@)) == "numeric"@,
        normalized_type(lower_chars("year"@)) == "numeric"@,
{
    reveal_strlit("Date");
    reveal_strlit("date");
    reveal_strlit("geojson");
    reveal_strlit("Number");
    reveal_strlit("number");
    reveal_strlit("numeric");
    reveal_strlit("year");
    reveal_strlit("string");
    reveal_strlit("time");
    reveal_strlit("yearmonth");
    reveal_strlit("duration");
    reveal_strlit("geopoint");
    reveal_strlit("boolean");
    reveal_strlit("datetime");
    assert(lower_chars("Date"@) =~= "date"@);
    assert(lower_chars("date"@) =~= "date"@);
    assert(lower_chars("geojson"@) =~= "geojson"@);
    assert(lower_chars("Number"@) =~= "number"@);
    assert(lower_chars("year"@) =~= "year"@);
    crate::strutil::lemma_seq_neq_at("number"@, "string"@, 0);
    crate::strutil::lemma_seq_neq_at("year"@, "date"@, 0);
    crate::strutil::lemma_seq_neq_at("year"@, "time"@, 0);
    assert(!is_string_like_type("number"@));
    assert(is_numeric_like_type("number"@));
    assert(!is_string_like_type("year"@));
    assert(is_numeric_like_type("year"@));
    assert(normalized_type("number"@) == "numeric"@);
    assert(normalized_type("year"@) == "numeric"@);
}

impl Schema {
    /// Derive the column descriptors for this schema: one per field, in
    /// order, with each declared type folded to lower case, normalized into
    /// the service's vocabulary, and recorded as the original type.
    pub fn get_processed_columns(&self) -> (r: Vec<DatasetColumn>)
        ensures
            r@.len() == self.fields@.len(),
            forall|i: int| 0 <= i < r@.len() ==> column_matches_field(
                #[trigger] r@[i],
                self.fields@[i],
            ),
    {
        let n = self.fields.len();
        let mut columns: Vec<DatasetColumn> = Vec::new();
        let mut i: usize = 0;
        while i < n
            invariant
                i <= n,
                n == self.fields@.len(),
                columns@.len() == i,
                forall|j: int| 0 <= j < i ==> column_matches_field(
                    #[trigger] columns@[j],
                    self.fields@[j],
                ),
            decreases n - i,
        {
            let field = &self.fields[i];
            let mut col = DatasetColumn::new(field.name.clone());
            match &field.description {
                Some(desc) => {
                    col.set_description(desc.clone());
                },
                None => {},
            }
            match &field.type_field {
                Some(ty) => {
                    let lowered = ascii_lower(ty.as_str());
                    let normalized = normalize_type_string(&lowered);
                    col.set_type(normalized);
                    col.set_original_type(lowered);
                },
                None => {},
            }
            assert(column_matches_field(col, self.fields@[i as int]));
            columns.push(col);
            i += 1;
        }
        columns
    }
}

/// The normalized form of an already lower-cased declared type.
fn normalize_type_string(lowered: &String) -> (r: String)
    ensures
        r@ == normalized_type(lowered@),
{
    let l = lowered.as_str();
    if str_eq(l, "string") || str_eq(l, "date") || str_eq(l, "time") || str_eq(l, "yearmonth")
        || str_eq(l, "duration") || str_eq(l, "geopoint") || str_eq(l, "geojson") {
        let mut s = String::new();
        s.append("string");
        s
    } else if str_eq(l, "numeric") || str_eq(l, "number") || str_eq(l, "year") {
        let mut s = String::new();
        s.append("numeric");
        s
    } else if str_eq(l, "boolean") {
        let mut s = String::new();
        s.append("boolean");
        s
    } else if str_eq(l, "datetime") {
        let mut s = String::new();
        s.append("datetime");
        s
    } else {
        lowered.clone()
    }
}

} // verus!
