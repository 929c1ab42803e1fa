use crate::action::FindOptions;
use crate::text::{integer_value, is_blank, is_blank_text, parse_integer, string_from_chars};
use vstd::prelude::*;

verus! {

/// The four text inputs that make up a query.
#[derive(Clone, Copy, Debug, PartialEq, Eq, Hash, Structural)]
pub enum QueryField {
    Filter,
    Sort,
    Limit,
    Projection,
}

/// Whether `serde_json` reads the text as one JSON object.
pub uninterp spec fn json_object_text(s: Seq<char>) -> bool;

/// Relies on `serde_json::from_str` into a `serde_json::Map`: it succeeds on
/// the texts that hold one JSON object (and on `null`, read as an empty
/// one); which texts those are depends on the text alone.
#[verifier::external_body]
fn parses_as_json_object(text: &Vec<char>) -> (r: bool)
    ensures
        r == json_object_text(text@),
{
    let s: String = text.iter().collect();
    serde_json::from_str::<serde_json::Map<String, serde_json::Value>>(&s).is_ok()
}

/// The number of documents per page when the limit input is left blank.
pub const DEFAULT_LIMIT: i64 = 10;

/// The order in which Tab moves through the fields.
pub open spec fn next_field(f: QueryField) -> QueryField {
    match f {
        QueryField::Filter => QueryField::Sort,
        QueryField::Sort => QueryField::Projection,
        QueryField::Projection => QueryField::Limit,
        QueryField::Limit => QueryField::Filter,
    }
}

/// A document input is acceptable when blank (no constraint) or a JSON object.
pub open spec fn document_text_ok(s: Seq<char>) -> bool {
    is_blank_text(s) || json_object_text(s)
}

/// A limit input is acceptable when blank (the default) or an integer.
pub open spec fn limit_text_ok(s: Seq<char>) -> bool {
    is_blank_text(s) || integer_value(s) is Some
}

/// The page size that an acceptable limit input stands for: the integer when
/// it is positive, the default when the input is blank, zero or negative.
pub open spec fn limit_of(s: Seq<char>) -> int {
    if !is_blank_text(s) && integer_value(s) is Some && integer_value(s)->Some_0 >= 1 {
        integer_value(s)->Some_0
    } else {
        DEFAULT_LIMIT as int
    }
}

/// What a document input contributes to a fetch: nothing when blank.
pub open spec fn document_part(s: Seq<char>) -> Option<Seq<char>> {
    if is_blank_text(s) {
        None
    } else {
        Some(s)
    }
}

pub open spec fn text_part(o: Option<String>) -> Option<Seq<char>> {
    match o {
        Some(s) => Some(s@),
        None => None,
    }
}

impl QueryField {
    /// The field that Tab moves to.
    pub fn next(self) -> (r: QueryField)
        ensures
            r == next_field(self),
    {
        match self {
            QueryField::Filter => QueryField::Sort,
            QueryField::Sort => QueryField::Projection,
            QueryField::Projection => QueryField::Limit,
            QueryField::Limit => QueryField::Filter,
        }
    }
}

/// The inline message of each query input that failed validation.
#[derive(Clone, Debug, PartialEq, Eq)]
pub struct ValidationErrors {
    pub filter: Option<String>,
    pub sort: Option<String>,
    pub projection: Option<String>,
    pub limit: Option<String>,
}

impl ValidationErrors {
    /// Whether the field is marked invalid.
    pub open spec fn marked(&self, f: QueryField) -> bool {
        match f {
            QueryField::Filter => self.filter is Some,
            QueryField::Sort => self.sort is Some,
            QueryField::Projection => self.projection is Some,
            QueryField::Limit => self.limit is Some,
        }
    }

    pub open spec fn is_clear(&self) -> bool {
        forall|f: QueryField| !#[trigger] self.marked(f)
    }

    /// No field marked.
    pub fn none() -> (r: ValidationErrors)
        ensures
            r.is_clear(),
    {
        ValidationErrors { filter: None, sort: None, projection: None, limit: None }
    }

    /// Whether the field is marked invalid.
    pub fn contains(&self, f: QueryField) -> (r: bool)
        ensures
            r == self.marked(f),
    {
        match f {
            QueryField::Filter => self.filter.is_some(),
            QueryField::Sort => self.sort.is_some(),
            QueryField::Projection => self.projection.is_some(),
            QueryField::Limit => self.limit.is_some(),
        }
    }

    /// Takes the mark off one field.
    pub fn remove(&mut self, f: QueryField)
        ensures
            !final(self).marked(f),
            forall|g: QueryField| g != f ==> #[trigger] final(self).marked(g) == old(self).marked(g),
    {
        match f {
            QueryField::Filter => self.filter = None,
            QueryField::Sort => self.sort = None,
            QueryField::Projection => self.projection = None,
            QueryField::Limit => self.limit = None,
        }
    }
}

/// Whether a document input is acceptable: blank, or one JSON object.
pub fn document_text_valid(s: &Vec<char>) -> (r: bool)
    ensures
        r == document_text_ok(s@),
{
    is_blank(s) || parses_as_json_object(s)
}

/// Checks the four inputs and marks exactly those that are not acceptable.
pub fn validate_inputs(filter: &Vec<char>, sort: &Vec<char>, projection: &Vec<char>, limit: &Vec<char>)
    -> (r: ValidationErrors)
    ensures
        r.marked(QueryField::Filter) == !document_text_ok(filter@),
        r.marked(QueryField::Sort) == !document_text_ok(sort@),
        r.marked(QueryField::Projection) == !document_text_ok(projection@),
        r.marked(QueryField::Limit) == !limit_text_ok(limit@),
{
    let invalid_json = "Invalid JSON";
    let f = if document_text_valid(filter) { None } else { Some(invalid_json.to_string()) };
    let s = if document_text_valid(sort) { None } else { Some(invalid_json.to_string()) };
    let p = if document_text_valid(projection) { None } else { Some(invalid_json.to_string()) };
    let l = if is_blank(limit) || parse_integer(limit).is_some() {
        None
    } else {
        Some("Must be a number".to_string())
    };
    ValidationErrors { filter: f, sort: s, projection: p, limit: l }
}

/// The page size of an acceptable limit input; a zero or negative limit
/// stands for the default.
pub fn page_size(limit: &Vec<char>) -> (r: Option<i64>)
    ensures
        r is Some <==> limit_text_ok(limit@),
        r matches Some(v) ==> v as int == limit_of(limit@) && 1 <= v,
{
    if is_blank(limit) {
        return Some(DEFAULT_LIMIT);
    }
    match parse_integer(limit) {
        Some(v) => if v >= 1 { Some(v) } else { Some(DEFAULT_LIMIT) },
        None => None,
    }
}

fn document_option(s: &Vec<char>) -> (r: Option<String>)
    ensures
        text_part(r) == document_part(s@),
{
    if is_blank(s) {
        None
    } else {
        Some(string_from_chars(s))
    }
}

/// Whether `options` asks exactly for the page `page` of the query that the
/// four inputs describe.
pub open spec fn options_for(
    options: FindOptions,
    filter: Seq<char>,
    sort: Seq<char>,
    projection: Seq<char>,
    limit: Seq<char>,
    page: int,
) -> bool {
    &&& text_part(options.filter) == document_part(filter)
    &&& text_part(options.sort) == document_part(sort)
    &&& text_part(options.projection) == document_part(projection)
    &&& options.limit == Some(limit_of(limit) as i64)
    &&& options.skip == Some((page * limit_of(limit)) as u64)
}

/// Whether the four inputs are all acceptable.
pub open spec fn inputs_ok(filter: Seq<char>, sort: Seq<char>, projection: Seq<char>, limit: Seq<char>) -> bool {
    document_text_ok(filter) && document_text_ok(sort) && document_text_ok(projection)
        && limit_text_ok(limit)
}

/// Composes the fetch options for page `page`: `skip` is `page` times the page
/// size. `None` when an input is not acceptable or the offset does not fit in
/// a `u64`.
pub fn compose_find_options(
    filter: &Vec<char>,
    sort: &Vec<char>,
    projection: &Vec<char>,
    limit: &Vec<char>,
    page: usize,
) -> (r: Option<FindOptions>)
    ensures
        r is Some <==> inputs_ok(filter@, sort@, projection@, limit@) && page * limit_of(limit@)
            <= u64::MAX,
        r matches Some(o) ==> options_for(o, filter@, sort@, projection@, limit@, page as int),
{
    if !document_text_valid(filter) || !document_text_valid(sort) || !document_text_valid(
        projection,
    ) {
        return None;
    }
    let size = match page_size(limit) {
        Some(v) => v,
        None => return None,
    };
    assert((page as u128) * (size as u128) <= u128::MAX) by (nonlinear_arith)
        requires
            page <= u64::MAX,
            1 <= size <= i64::MAX,
    ;
    let wide: u128 = (page as u128) * (size as u128);
    if wide > u64::MAX as u128 {
        return None;
    }
    Some(
        FindOptions {
            filter: document_option(filter),
            projection: document_option(projection),
            sort: document_option(sort),
            limit: Some(size),
            skip: Some(wide as u64),
        },
    )
}

/// Whether one more page exists after page `page`: the next page starts
/// before `total`.
pub open spec fn has_next_page(page: int, size: int, total: int) -> bool {
    (page + 1) * size < total
}

/// Whether a page follows page `page` for page size `size` and `total`
/// matches.
pub fn next_page_exists(page: usize, size: i64, total: u64) -> (r: bool)
    requires
        size >= 1,
    ensures
        r == has_next_page(page as int, size as int, total as int),
{
    assert((page as u128 + 1) * (size as u128) <= u128::MAX) by (nonlinear_arith)
        requires
            page <= u64::MAX,
            1 <= size <= i64::MAX,
    ;
    let wide: u128 = (page as u128 + 1) * (size as u128);
    wide < total as u128
}

} // verus!
