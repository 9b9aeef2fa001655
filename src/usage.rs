use vstd::prelude::*;
use crate::api::UsageResultData;
use crate::helpers::{i64_of, sotoi};
use byte_unit::{Byte, UnitType};
use owo_colors::OwoColorize;

verus! {

/// The text byte-unit gives a byte count in the largest fitting decimal unit
/// with two decimals (`{:#.2}` of the adjusted byte).
pub uninterp spec fn decimal_size_text(bytes: u64) -> Seq<char>;

/// Relies on `byte_unit::Byte::from_u64` and `Byte::get_appropriate_unit` with
/// decimal units: the rendering depends on the count alone.
#[verifier::external_body]
fn decimal_size(bytes: u64) -> (r: String)
    ensures
        r@ == decimal_size_text(bytes),
{
    let byte = Byte::from_u64(bytes).get_appropriate_unit(UnitType::Decimal);
    format!("{byte:#.2}")
}

/// The escape that starts bold text.
pub open spec fn bold_on() -> Seq<char> {
    seq!['\u{1b}', '[', '1', 'm']
}

/// The escape that resets the style.
pub open spec fn style_off() -> Seq<char> {
    seq!['\u{1b}', '[', '0', 'm']
}

/// Relies on owo-colors' `bold()` and its `Display`: the text between the bold
/// escape and the reset escape.
#[verifier::external_body]
fn bolden(s: &str) -> (r: String)
    ensures
        r@ == bold_on() + s@ + style_off(),
{
    s.bold().to_string()
}

/// Usage figures of a bucket, as integers.
#[derive(Debug, Clone, PartialEq, Eq)]
pub struct R2Usage {
    pub end: String,
    pub payload_size: i64,
    pub metadata_size: i64,
    pub object_count: i64,
    pub upload_count: i64,
    pub infrequent_access_payload_size: i64,
    pub infrequent_access_metadata_size: i64,
    pub infrequent_access_object_count: i64,
    pub infrequent_access_upload_count: i64,
}

/// A reported figure as an integer; absent or malformed figures are 0.
pub open spec fn figure(o: Option<String>) -> i64 {
    match o {
        Some(s) => match i64_of(s@) {
            Some(v) => v,
            None => 0,
        },
        None => 0,
    }
}

impl R2Usage {
    pub fn from_data(value: UsageResultData) -> (r: R2Usage)
        ensures
            r.end@ == (match value.end {
                Some(s) => s@,
                None => Seq::empty(),
            }),
            r.payload_size == figure(value.payload_size),
            r.metadata_size == figure(value.metadata_size),
            r.object_count == figure(value.object_count),
            r.upload_count == figure(value.upload_count),
            r.infrequent_access_payload_size == figure(value.infrequent_access_payload_size),
            r.infrequent_access_metadata_size == figure(value.infrequent_access_metadata_size),
            r.infrequent_access_object_count == figure(value.infrequent_access_object_count),
            r.infrequent_access_upload_count == figure(value.infrequent_access_upload_count),
    {
        R2Usage {
            end: match value.end {
                Some(s) => s,
                None => String::new(),
            },
            payload_size: sotoi(value.payload_size),
            metadata_size: sotoi(value.metadata_size),
            object_count: sotoi(value.object_count),
            upload_count: sotoi(value.upload_count),
            infrequent_access_payload_size: sotoi(value.infrequent_access_payload_size),
            infrequent_access_metadata_size: sotoi(value.infrequent_access_metadata_size),
            infrequent_access_object_count: sotoi(value.infrequent_access_object_count),
            infrequent_access_upload_count: sotoi(value.infrequent_access_upload_count),
        }
    }
}

/// A row of the usage overview.
#[derive(Debug, Clone, PartialEq, Eq)]
pub struct UsageTable {
    pub bucket_name: String,
    pub raw_size: i64,
    pub human_size: String,
}

/// A negative size counts as zero bytes.
pub open spec fn size_bytes(size: i64) -> u64 {
    if size >= 0 {
        size as u64
    } else {
        0
    }
}

impl UsageTable {
    /// A row for a bucket of `size` bytes.
    pub fn new(name: &str, size: i64) -> (r: UsageTable)
        ensures
            r.bucket_name@ == name@,
            r.raw_size == size,
            r.human_size@ == decimal_size_text(size_bytes(size)),
    {
        let bytes: u64 = if size >= 0 {
            size as u64
        } else {
            0
        };
        UsageTable { bucket_name: String::from_str(name), raw_size: size, human_size: decimal_size(bytes) }
    }

    /// The row with its name and human size in bold.
    pub fn bold(self) -> (r: UsageTable)
        ensures
            r.bucket_name@ == bold_on() + self.bucket_name@ + style_off(),
            r.human_size@ == bold_on() + self.human_size@ + style_off(),
            r.raw_size == self.raw_size,
    {
        UsageTable {
            bucket_name: bolden(self.bucket_name.as_str()),
            raw_size: self.raw_size,
            human_size: bolden(self.human_size.as_str()),
        }
    }
}

/// Sum of the sizes of the rows.
pub open spec fn sum_of(rows: Seq<UsageTable>) -> int
    decreases rows.len(),
{
    if rows.len() == 0 {
        0
    } else {
        sum_of(rows.drop_last()) + rows.last().raw_size
    }
}

/// Sum of the sizes of the rows; `None` where it does not fit an `i64`.
pub fn calculate_sum(rows: &Vec<UsageTable>) -> (r: Option<i64>)
    ensures
        i64::MIN <= sum_of(rows@) <= i64::MAX ==> r == Some(sum_of(rows@) as i64),
        !(i64::MIN <= sum_of(rows@) <= i64::MAX) ==> r is None,
{
    let mut sum: i128 = 0;
    let mut i: usize = 0;
    while i < rows.len()
        invariant
            i <= rows@.len(),
            sum == sum_of(rows@.take(i as int)),
            -i * 0x8000_0000_0000_0000 <= sum <= i * 0x8000_0000_0000_0000,
        decreases rows@.len() - i,
    {
        assert(rows@.take(i + 1).drop_last() =~= rows@.take(i as int));
        sum = sum + rows[i].raw_size as i128;
        i = i + 1;
    }
    assert(rows@.take(i as int) =~= rows@);
    if sum < i64::MIN as i128 || sum > i64::MAX as i128 {
        None
    } else {
        Some(sum as i64)
    }
}

/// The overview: a row per bucket, then a bold total row; `None` where the
/// total does not fit an `i64`.
pub fn usage_rows(sizes: &Vec<(String, i64)>) -> (r: Option<Vec<UsageTable>>)
    ensures
        r matches Some(rows) ==> rows@.len() == sizes@.len() + 1 && (forall|i: int|
            0 <= i < sizes@.len() ==> (#[trigger] rows@[i]).bucket_name@ == sizes@[i].0@
                && rows@[i].raw_size == sizes@[i].1 && rows@[i].human_size@ == decimal_size_text(
                size_bytes(sizes@[i].1),
            )) && rows@.last().raw_size == sizes_sum(sizes@) && rows@.last().bucket_name@ == bold_on()
            + "total"@ + style_off() && rows@.last().human_size@ == bold_on() + decimal_size_text(
            size_bytes(rows@.last().raw_size),
        ) + style_off(),
        r is None <==> !(i64::MIN <= sizes_sum(sizes@) <= i64::MAX),
{
    let mut rows: Vec<UsageTable> = Vec::new();
    let mut i: usize = 0;
    while i < sizes.len()
        invariant
            i <= sizes@.len(),
            rows@.len() == i,
            forall|j: int|
                0 <= j < i ==> (#[trigger] rows@[j]).bucket_name@ == sizes@[j].0@ && rows@[j].raw_size
                    == sizes@[j].1 && rows@[j].human_size@ == decimal_size_text(size_bytes(sizes@[j].1)),
        decreases sizes@.len() - i,
    {
        rows.push(UsageTable::new(sizes[i].0.as_str(), sizes[i].1));
        i = i + 1;
    }
    proof {
        lemma_sum_rows(rows@, sizes@);
    }
    match calculate_sum(&rows) {
        Some(total) => {
            let ghost body = rows@;
            rows.push(UsageTable::new("total", total).bold());
            assert(rows@.drop_last() =~= body);
            proof {
                reveal_strlit("total");
            }
            Some(rows)
        },
        None => None,
    }
}

/// Sum of the sizes.
pub open spec fn sizes_sum(sizes: Seq<(String, i64)>) -> int
    decreases sizes.len(),
{
    if sizes.len() == 0 {
        0
    } else {
        sizes_sum(sizes.drop_last()) + sizes.last().1
    }
}

proof fn lemma_sum_rows(rows: Seq<UsageTable>, sizes: Seq<(String, i64)>)
    requires
        rows.len() == sizes.len(),
        forall|j: int| 0 <= j < rows.len() ==> (#[trigger] rows[j]).raw_size == sizes[j].1,
    ensures
        sum_of(rows) == sizes_sum(sizes),
    decreases rows.len(),
{
    if rows.len() > 0 {
        lemma_sum_rows(rows.drop_last(), sizes.drop_last());
    }
}

} // verus!
