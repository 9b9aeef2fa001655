use vstd::prelude::*;
use crate::text::{decimal, push_text};

verus! {

/// An error entry of a REST response.
#[derive(Debug, Clone, PartialEq, Eq)]
pub struct ApiError {
    pub code: i32,
    pub message: String,
}

/// A message entry of a REST response.
#[derive(Debug, Clone, PartialEq, Eq)]
pub struct Message {
    pub code: u32,
    pub message: String,
    pub message_type: Option<String>,
}

/// The envelope of every REST response.
#[derive(Debug, Clone, PartialEq, Eq)]
pub struct ApiResponse<T> {
    pub success: bool,
    pub errors: Option<Vec<ApiError>>,
    pub messages: Option<Vec<Message>>,
    pub result: Option<T>,
}

#[derive(Debug, Clone, PartialEq, Eq)]
pub struct UsageResultData {
    pub end: Option<String>,
    pub payload_size: Option<String>,
    pub metadata_size: Option<String>,
    pub object_count: Option<String>,
    pub upload_count: Option<String>,
    pub infrequent_access_payload_size: Option<String>,
    pub infrequent_access_metadata_size: Option<String>,
    pub infrequent_access_object_count: Option<String>,
    pub infrequent_access_upload_count: Option<String>,
}

#[derive(Debug, Clone, PartialEq, Eq)]
pub struct BucketResultData {
    pub buckets: Vec<BucketData>,
}

#[derive(Debug, Clone, PartialEq, Eq)]
pub struct BucketData {
    pub name: String,
    pub creation_date: String,
    pub location: Option<String>,
    pub storage_class: Option<String>,
}

#[derive(Debug, Clone, PartialEq, Eq)]
pub struct ManagedBucketDomainData {
    pub bucket_id: String,
    pub domain: String,
    pub enabled: bool,
}

#[derive(Debug, Clone, PartialEq, Eq)]
pub struct CustomBucketDomainList {
    pub domains: Vec<CustomBucketDomainData>,
}

#[derive(Debug, Clone, PartialEq, Eq)]
pub struct CustomBucketDomainData {
    pub domain: String,
    pub enabled: bool,
    pub status: Option<CustomBucketDomainStatus>,
}

#[derive(Debug, Clone, PartialEq, Eq)]
pub struct CustomBucketDomainStatus {
    pub ownership: String,
    pub ssl: String,
}

#[derive(Debug, Clone, PartialEq, Eq)]
pub struct TokenVerifyData {
    pub id: String,
    pub status: String,
}

/// The messages of the errors, each followed by a newline.
pub open spec fn error_text(errors: Seq<ApiError>) -> Seq<char>
    decreases errors.len(),
{
    if errors.len() == 0 {
        Seq::empty()
    } else {
        error_text(errors.drop_last()) + errors.last().message@ + "\n"@
    }
}

pub open spec fn no_data_text() -> Seq<char> {
    "Expected result data but got None!"@
}

pub open spec fn unspecified_text() -> Seq<char> {
    "Something went wrong, but no specific information was provided."@
}

impl<T> ApiResponse<T> {
    /// The result of a successful response; otherwise the text of its errors.
    pub fn into_error(self) -> (r: Result<T, String>)
        ensures
            self.success && self.result is Some ==> r == Ok::<T, String>(self.result->Some_0),
            self.success && self.result is None ==> (r matches Err(m) && m@ == no_data_text()),
            !self.success ==> match self.errors {
                Some(es) => es@.len() > 0 ==> (r matches Err(m) && m@ == error_text(es@)),
                None => true,
            },
            !self.success && (self.errors is None || self.errors->Some_0@.len() == 0) ==> (r matches Err(m)
                && m@ == unspecified_text()),
    {
        if self.success {
            return match self.result {
                Some(data) => Ok(data),
                None => Err(String::from_str("Expected result data but got None!")),
            };
        }
        match self.errors {
            Some(errors) => {
                if errors.len() == 0 {
                    Err(String::from_str("Something went wrong, but no specific information was provided."))
                } else {
                    let mut msg = String::new();
                    let mut i: usize = 0;
                    while i < errors.len()
                        invariant
                            i <= errors@.len(),
                            msg@ == error_text(errors@.take(i as int)),
                        decreases errors@.len() - i,
                    {
                        assert(errors@.take(i + 1).drop_last() =~= errors@.take(i as int));
                        push_text(&mut msg, errors[i].message.as_str());
                        push_text(&mut msg, "\n");
                        i = i + 1;
                    }
                    assert(errors@.take(i as int) =~= errors@);
                    Err(msg)
                }
            },
            None => Err(String::from_str("Something went wrong, but no specific information was provided.")),
        }
    }
}

/// The Python exception class an error is raised as.
#[derive(Debug, Clone, Copy, PartialEq, Eq, Structural)]
pub enum PythonErrorKind {
    RuntimeError,
    ValueError,
}

/// An error to raise in Python: its class and message.
#[derive(Debug, Clone, PartialEq, Eq)]
pub struct PythonError {
    pub kind: PythonErrorKind,
    pub message: String,
}

/// The message for a failure without details, naming what was asked.
pub open spec fn unspecified_for(hint: Seq<char>) -> Seq<char> {
    "Something went wrong for "@ + hint + ", but no specific information was provided."@
}

impl<T> ApiResponse<T> {
    /// The result of a successful response; otherwise an error to raise,
    /// tagged with `hint` (what was asked for).
    pub fn to_python_error(self, hint: &str) -> (r: Result<T, PythonError>)
        ensures
            self.success && self.result is Some ==> r == Ok::<T, PythonError>(self.result->Some_0),
            self.success && self.result is None ==> (r matches Err(e) && e.kind == PythonErrorKind::RuntimeError
                && e.message@ == no_data_text()),
            !self.success && self.errors is Some && self.errors->Some_0@.len() > 0 ==> (r matches Err(e) && e.kind
                == PythonErrorKind::ValueError && e.message@ == "["@ + hint@ + "] "@ + error_text(
                self.errors->Some_0@,
            )),
            !self.success && (self.errors is None || self.errors->Some_0@.len() == 0) ==> (r matches Err(e)
                && e.kind == PythonErrorKind::ValueError && e.message@ == unspecified_for(hint@)),
    {
        let success = self.success;
        let errors = self.errors;
        let result = self.result;
        if success {
            return match result {
                Some(data) => Ok(data),
                None => Err(
                    PythonError {
                        kind: PythonErrorKind::RuntimeError,
                        message: String::from_str("Expected result data but got None!"),
                    },
                ),
            };
        }
        let has_errors = match &errors {
            Some(es) => es.len() > 0,
            None => false,
        };
        if !has_errors {
            let mut msg = String::from_str("Something went wrong for ");
            push_text(&mut msg, hint);
            push_text(&mut msg, ", but no specific information was provided.");
            return Err(PythonError { kind: PythonErrorKind::ValueError, message: msg });
        }
        let mut msg = String::from_str("[");
        push_text(&mut msg, hint);
        push_text(&mut msg, "] ");
        let ghost head = msg@;
        let response: ApiResponse<T> = ApiResponse { success: false, errors, messages: None, result: None };
        match response.into_error() {
            Ok(_) => {
                assert(false);
                Err(PythonError { kind: PythonErrorKind::ValueError, message: msg })
            },
            Err(text) => {
                push_text(&mut msg, text.as_str());
                Err(PythonError { kind: PythonErrorKind::ValueError, message: msg })
            },
        }
    }
}

impl TokenVerifyData {
    /// Whether the token is active.
    pub fn ok(&self) -> (r: bool)
        ensures
            r <==> self.status@ == "active"@,
    {
        self.status == String::from_str("active")
    }
}

/// The enabled custom domains, in order.
pub open spec fn enabled_of(ds: Seq<CustomBucketDomainData>) -> Seq<Seq<char>>
    decreases ds.len(),
{
    if ds.len() == 0 {
        Seq::empty()
    } else if ds.last().enabled {
        enabled_of(ds.drop_last()).push(ds.last().domain@)
    } else {
        enabled_of(ds.drop_last())
    }
}

pub open spec fn strings_view(v: Seq<String>) -> Seq<Seq<char>> {
    Seq::new(v.len(), |i: int| v[i]@)
}

/// The domains of a custom-domain list that are enabled.
pub fn enabled_domains(list: &CustomBucketDomainList) -> (r: Vec<String>)
    ensures
        strings_view(r@) == enabled_of(list.domains@),
{
    let mut r: Vec<String> = Vec::new();
    let mut i: usize = 0;
    while i < list.domains.len()
        invariant
            i <= list.domains@.len(),
            strings_view(r@) == enabled_of(list.domains@.take(i as int)),
        decreases list.domains@.len() - i,
    {
        assert(list.domains@.take(i + 1).drop_last() =~= list.domains@.take(i as int));
        let d = &list.domains[i];
        if d.enabled {
            let ghost before = r@;
            r.push(d.domain.clone());
            assert(strings_view(r@) =~= strings_view(before).push(d.domain@));
        }
        i = i + 1;
    }
    assert(list.domains@.take(i as int) =~= list.domains@);
    r
}

/// The managed domain, where it is enabled.
pub fn managed_domain(data: ManagedBucketDomainData) -> (r: Result<String, String>)
    ensures
        data.enabled ==> r == Ok::<String, String>(data.domain),
        !data.enabled ==> (r matches Err(m) && m@ == "Managed domain disabled!"@),
{
    if !data.enabled {
        return Err(String::from_str("Managed domain disabled!"));
    }
    Ok(data.domain)
}

/// All public domains of a bucket: the enabled custom ones, then the managed one.
pub fn bucket_domains(custom: Option<Vec<String>>, managed: Option<String>) -> (r: Vec<String>)
    ensures
        r@ == (match custom {
            Some(c) => c@,
            None => Seq::empty(),
        }) + (match managed {
            Some(m) => seq![m],
            None => Seq::empty(),
        }),
{
    let mut r = match custom {
        Some(c) => c,
        None => Vec::new(),
    };
    let ghost before = r@;
    match managed {
        Some(m) => {
            r.push(m);
        },
        None => {},
    }
    assert(r@ =~= before + (match managed {
        Some(m) => seq![m],
        None => Seq::empty(),
    }));
    r
}

/// The domain that serves uploads: the last one listed.
pub fn preferred_domain(domains: Vec<String>) -> (r: Option<String>)
    ensures
        domains@.len() == 0 ==> r is None,
        domains@.len() > 0 ==> r == Some(domains@.last()),
{
    let mut domains = domains;
    domains.pop()
}

/// The identifier as shown: unless asked to show it whole, one longer than
/// eight characters keeps only its first and last four.
pub fn obfuscated_id(id: &str, show: bool) -> (r: String)
    ensures
        !show && id@.len() > 8 ==> r@ == id@.take(4) + "..."@ + id@.subrange(id@.len() - 4, id@.len() as int),
        show || id@.len() <= 8 ==> r@ == id@,
{
    let n = id.unicode_len();
    if !show && n > 8 {
        let mut r = String::from_str(id.substring_char(0, 4));
        push_text(&mut r, "...");
        push_text(&mut r, id.substring_char(n - 4, n));
        r
    } else {
        String::from_str(id)
    }
}

/// Sort order of a listing.
#[derive(Debug, Clone, Copy, PartialEq, Eq, Structural)]
pub enum Direction {
    ASC,
    DESC,
}

impl Direction {
    pub fn default() -> (r: Direction)
        ensures
            r == Direction::ASC,
    {
        Direction::ASC
    }

    /// The query value: "asc" or "desc".
    pub fn to_string(&self) -> (r: String)
        ensures
            *self == Direction::ASC ==> r@ == "asc"@,
            *self == Direction::DESC ==> r@ == "desc"@,
    {
        match self {
            Direction::ASC => String::from_str("asc"),
            Direction::DESC => String::from_str("desc"),
        }
    }
}

/// `key=value`.
pub fn to_query_part(key: &str, value: &str) -> (r: String)
    ensures
        r@ == key@ + "="@ + value@,
{
    let mut r = String::from_str(key);
    push_text(&mut r, "=");
    push_text(&mut r, value);
    r
}

/// Parts joined by '&'.
pub open spec fn joined(parts: Seq<Seq<char>>) -> Seq<char>
    decreases parts.len(),
{
    if parts.len() == 0 {
        Seq::empty()
    } else if parts.len() == 1 {
        parts[0]
    } else {
        joined(parts.drop_last()) + "&"@ + parts.last()
    }
}

pub fn join_query(parts: &Vec<String>) -> (r: String)
    ensures
        r@ == joined(strings_view(parts@)),
{
    let mut r = String::new();
    let mut i: usize = 0;
    while i < parts.len()
        invariant
            i <= parts@.len(),
            r@ == joined(strings_view(parts@.take(i as int))),
        decreases parts@.len() - i,
    {
        assert(strings_view(parts@.take(i + 1)).drop_last() =~= strings_view(parts@.take(i as int)));
        if i > 0 {
            push_text(&mut r, "&");
        }
        push_text(&mut r, parts[i].as_str());
        assert(r@ =~= joined(strings_view(parts@.take(i + 1))));
        i = i + 1;
    }
    assert(parts@.take(i as int) =~= parts@);
    r
}

/// Something that renders as a query string.
pub trait QueryString {
    fn to_query(&self) -> String;
}

/// Options of a bucket listing.
#[derive(Debug)]
pub struct ListOptions {
    pub cursor: Option<String>,
    pub direction: Option<Direction>,
    pub order: Option<String>,
    pub per_page: Option<u32>,
    pub start_after: Option<String>,
}

impl Default for ListOptions {
    fn default() -> (r: ListOptions)
        ensures
            r.cursor is None && r.direction is None && r.order is None && r.per_page is None
                && r.start_after is None,
    {
        ListOptions { cursor: None, direction: None, order: None, per_page: None, start_after: None }
    }
}

pub open spec fn direction_text(d: Direction) -> Seq<char> {
    if d == Direction::ASC { "asc"@ } else { "desc"@ }
}

pub open spec fn opt_part(key: Seq<char>, v: Option<Seq<char>>) -> Seq<Seq<char>> {
    match v {
        Some(s) => seq![key + "="@ + s],
        None => Seq::empty(),
    }
}

pub open spec fn opt_text(v: Option<String>) -> Option<Seq<char>> {
    match v {
        Some(s) => Some(s@),
        None => None,
    }
}

/// The parts of the query, in a fixed order, for the options that are set.
pub open spec fn query_parts(o: ListOptions) -> Seq<Seq<char>> {
    opt_part("cursor"@, opt_text(o.cursor)) + opt_part(
        "direction"@,
        match o.direction {
            Some(d) => Some(direction_text(d)),
            None => None,
        },
    ) + opt_part("order"@, opt_text(o.order)) + opt_part(
        "per_page"@,
        match o.per_page {
            Some(n) => Some(decimal(n as nat)),
            None => None,
        },
    ) + opt_part("start_after"@, opt_text(o.start_after))
}

fn push_part(parts: &mut Vec<String>, key: &str, value: Option<String>)
    ensures
        strings_view(final(parts)@) == strings_view(old(parts)@) + opt_part(key@, opt_text(value)),
{
    match value {
        Some(v) => {
            parts.push(to_query_part(key, v.as_str()));
            assert(strings_view(final(parts)@) =~= strings_view(old(parts)@) + opt_part(key@, opt_text(value)));
        },
        None => {
            assert(strings_view(final(parts)@) =~= strings_view(old(parts)@) + opt_part(key@, opt_text(value)));
        },
    }
}

impl ListOptions {
    /// The query string: the set options as `key=value`, joined by '&'.
    pub fn query(&self) -> (r: String)
        ensures
            r@ == joined(query_parts(*self)),
    {
        let mut parts: Vec<String> = Vec::new();
        push_part(&mut parts, "cursor", self.cursor.clone());
        let dir = match &self.direction {
            Some(d) => Some(d.to_string()),
            None => None,
        };
        push_part(&mut parts, "direction", dir);
        push_part(&mut parts, "order", self.order.clone());
        let per_page = match self.per_page {
            Some(n) => Some(crate::text::decimal_string(n as u64)),
            None => None,
        };
        push_part(&mut parts, "per_page", per_page);
        push_part(&mut parts, "start_after", self.start_after.clone());
        assert(strings_view(parts@) =~= query_parts(*self));
        join_query(&parts)
    }
}

impl QueryString for ListOptions {
    fn to_query(&self) -> (r: String)
        ensures
            r@ == joined(query_parts(*self)),
    {
        self.query()
    }
}

} // verus!
