use vstd::prelude::*;
use crate::content::{
    decode_hex, dirname_of, is_id_text, short_hex_of, type_name_of, ContentId, ContentType, ID_LEN,
};
use crate::text::{decimal, decimal_string, push_text};

verus! {

/// Whether a failure comes from the store or is a bug of this side.
#[derive(Clone, Copy, Debug, PartialEq, Eq, Structural)]
pub enum ErrorKind {
    Backend,
    Internal,
}

/// A failed storage operation, with what it was working on.
#[derive(Debug)]
pub struct BackendError {
    pub kind: ErrorKind,
    pub message: String,
    /// Named values that locate the failure (path, type, id, length, ...).
    pub context: Vec<(String, String)>,
}

/// What probing the config object gave.
#[derive(Debug)]
pub enum ConfigProbe {
    Found { length: u64 },
    NotFound,
    Failed { reason: String },
}

/// An entry of a recursive directory listing.
#[derive(Debug)]
pub struct ListEntry {
    pub name: String,
    pub is_file: bool,
    pub length: u64,
}

/// The ids and sizes of a listing, where no entry is too large.
pub open spec fn listing_of(entries: Seq<ListEntry>) -> Result<Seq<(Seq<u8>, u32)>, u64>
    decreases entries.len(),
{
    if entries.len() == 0 {
        Ok(Seq::empty())
    } else {
        match listing_of(entries.drop_last()) {
            Err(length) => Err(length),
            Ok(found) => {
                let e = entries.last();
                if !e.is_file || !is_id_text(e.name@) {
                    Ok(found)
                } else if e.length > u32::MAX {
                    Err(e.length)
                } else {
                    Ok(found.push((decode_hex(e.name@), e.length as u32)))
                }
            },
        }
    }
}

/// The names of the files whose name is not an id, in listing order.
pub open spec fn skipped_of(entries: Seq<ListEntry>) -> Seq<Seq<char>>
    decreases entries.len(),
{
    if entries.len() == 0 {
        Seq::empty()
    } else if entries.last().is_file && !is_id_text(entries.last().name@) {
        skipped_of(entries.drop_last()).push(entries.last().name@)
    } else {
        skipped_of(entries.drop_last())
    }
}

/// The length that fails a listing, where one does.
pub open spec fn length_of_failure(entries: Seq<ListEntry>) -> u64 {
    match listing_of(entries) {
        Err(length) => length,
        Ok(_) => 0,
    }
}

pub open spec fn names_view(v: Seq<String>) -> Seq<Seq<char>> {
    Seq::new(v.len(), |i: int| v[i]@)
}

pub open spec fn pairs_view(v: Seq<(ContentId, u32)>) -> Seq<(Seq<u8>, u32)> {
    Seq::new(v.len(), |i: int| (v[i].0@, v[i].1))
}

fn context(name: &str, value: String) -> (r: (String, String))
    ensures
        r.0@ == name@,
        r.1@ == value@,
{
    (String::from_str(name), value)
}

fn type_label(t: ContentType) -> (r: String)
    ensures
        r@ == type_name_of(t),
{
    String::from_str(t.display_name())
}

/// Named values as text pairs.
pub open spec fn context_view(v: Seq<(String, String)>) -> Seq<(Seq<char>, Seq<char>)> {
    Seq::new(v.len(), |i: int| (v[i].0@, v[i].1@))
}

/// The context of a length that does not fit: the length in decimal.
pub open spec fn length_context(length: u64) -> Seq<(Seq<char>, Seq<char>)> {
    seq![("length"@, decimal(length as nat))]
}

fn length_error(length: u64) -> (r: BackendError)
    ensures
        r.kind == ErrorKind::Internal,
        context_view(r.context@) == length_context(length),
        r.context@.len() == 1,
{
    let mut ctx: Vec<(String, String)> = Vec::new();
    ctx.push(context("length", decimal_string(length)));
    assert(context_view(ctx@) =~= length_context(length));
    BackendError {
        kind: ErrorKind::Internal,
        message: String::from_str("Parsing content length `{length}` failed"),
        context: ctx,
    }
}

/// The listing of the config type for each probe outcome, or the kind and
/// context of the error.
pub open spec fn config_listing_of(probe: ConfigProbe) -> Result<
    Seq<(Seq<u8>, u32)>,
    (ErrorKind, Seq<(Seq<char>, Seq<char>)>),
> {
    match probe {
        ConfigProbe::Found { length } => if length > u32::MAX {
            Err((ErrorKind::Internal, length_context(length)))
        } else {
            Ok(seq![(Seq::new(ID_LEN as nat, |i: int| 0u8), length as u32)])
        },
        ConfigProbe::NotFound => Ok(Seq::empty()),
        ConfigProbe::Failed { reason } => Err(
            (ErrorKind::Backend, seq![("type"@, "Config"@), ("reason"@, reason@)]),
        ),
    }
}

/// The listing of the config type: the one config object, if it exists. A
/// missing config gives an empty listing; any other failure is an error of the
/// store, and a length over `u32::MAX` an internal one.
pub fn config_listing(probe: ConfigProbe) -> (r: Result<Vec<(ContentId, u32)>, BackendError>)
    ensures
        match config_listing_of(probe) {
            Ok(v) => r matches Ok(found) && pairs_view(found@) == v && found@.len() == v.len(),
            Err((kind, ctx)) => r matches Err(e) && e.kind == kind && context_view(e.context@) == ctx
                && e.context@.len() == ctx.len(),
        },
{
    match probe {
        ConfigProbe::Found { length } => {
            if length > 0xffff_ffffu64 {
                Err(length_error(length))
            } else {
                let mut v: Vec<(ContentId, u32)> = Vec::new();
                v.push((ContentId::zero(), length as u32));
                assert(pairs_view(v@) =~= seq![(Seq::new(ID_LEN as nat, |i: int| 0u8), length as u32)]);
                Ok(v)
            }
        },
        ConfigProbe::NotFound => Ok(Vec::new()),
        ConfigProbe::Failed { reason } => {
            let mut ctx: Vec<(String, String)> = Vec::new();
            ctx.push(context("type", type_label(ContentType::Config)));
            ctx.push(context("reason", reason));
            proof {
                reveal_strlit("Config");
            }
            assert(context_view(ctx@) =~= seq![("type"@, "Config"@), ("reason"@, reason@)]);
            Err(
                BackendError {
                    kind: ErrorKind::Backend,
                    message: String::from_str(
                        "Getting Metadata of type `{type}` failed in the backend. Please check if `{type}` exists.",
                    ),
                    context: ctx,
                },
            )
        },
    }
}

/// The directory listed for a type: its name and a '/'.
pub fn listing_dir(t: ContentType) -> (r: String)
    ensures
        r@ == dirname_of(t) + "/"@,
{
    let mut r = String::from_str(t.dirname());
    push_text(&mut r, "/");
    r
}

/// Ids and sizes of the files of a listing. Directories and entries whose name
/// is not an id are passed over (their names come back in `skipped`); a file
/// longer than `u32::MAX` bytes fails the listing.
pub fn select_entries(entries: &Vec<ListEntry>) -> (r: Result<(Vec<(ContentId, u32)>, Vec<String>), BackendError>)
    ensures
        listing_of(entries@) is Ok <==> r is Ok,
        r matches Ok(found) ==> listing_of(entries@) == Ok::<Seq<(Seq<u8>, u32)>, u64>(pairs_view(found.0@))
            && pairs_view(found.0@).len() == found.0@.len(),
        r matches Ok(found) ==> names_view(found.1@) == skipped_of(entries@),
        r matches Err(e) ==> e.kind == ErrorKind::Internal && listing_of(entries@) == Err::<
            Seq<(Seq<u8>, u32)>,
            u64,
        >(length_of_failure(entries@)) && context_view(e.context@) == length_context(
            length_of_failure(entries@),
        ),
{
    let mut found: Vec<(ContentId, u32)> = Vec::new();
    let mut skipped: Vec<String> = Vec::new();
    let mut i: usize = 0;
    assert(entries@.take(0) =~= Seq::<ListEntry>::empty());
    assert(pairs_view(found@) =~= Seq::<(Seq<u8>, u32)>::empty());
    assert(names_view(skipped@) =~= Seq::<Seq<char>>::empty());
    while i < entries.len()
        invariant
            i <= entries@.len(),
            listing_of(entries@.take(i as int)) == Ok::<Seq<(Seq<u8>, u32)>, u64>(pairs_view(found@)),
            names_view(skipped@) == skipped_of(entries@.take(i as int)),
        decreases entries@.len() - i,
    {
        let e = &entries[i];
        let ghost prev = entries@.take(i as int);
        let ghost next = entries@.take(i + 1);
        let ghost before = found@;
        assert(next.drop_last() =~= prev);
        assert(next.last() == entries@[i as int]);
        if e.is_file {
            match ContentId::parse(e.name.as_str()) {
                Some(id) => {
                    if e.length > 0xffff_ffffu64 {
                        proof {
                            lemma_listing_err_stays(entries@, i as int + 1, entries@.len() as int);
                            assert(entries@.take(entries@.len() as int) =~= entries@);
                        }
                        assert(listing_of(next) == Err::<Seq<(Seq<u8>, u32)>, u64>(e.length));
                        return Err(length_error(e.length));
                    }
                    found.push((id, e.length as u32));
                    assert(pairs_view(found@) =~= pairs_view(before).push((decode_hex(e.name@), e.length as u32)));
                },
                None => {
                    let ghost names = skipped@;
                    skipped.push(e.name.clone());
                    assert(names_view(skipped@) =~= names_view(names).push(e.name@));
                },
            }
        }
        i = i + 1;
    }
    assert(entries@.take(i as int) =~= entries@);
    Ok((found, skipped))
}

/// The context of a failed operation on the object of (`t`, `id`) at `path`.
pub open spec fn object_context(path: Seq<char>, t: ContentType, id: Seq<u8>) -> Seq<(Seq<char>, Seq<char>)> {
    seq![("path"@, path), ("type"@, type_name_of(t)), ("id"@, short_hex_of(id))]
}

/// A failure of the store while working on the object of (`t`, `id`) at `path`.
pub fn store_error(message: &str, path: String, t: ContentType, id: &ContentId) -> (r: BackendError)
    ensures
        r.kind == ErrorKind::Backend,
        r.message@ == message@,
        r.context@.len() == 3,
        context_view(r.context@) == object_context(path@, t, id@),
{
    let ghost p = path@;
    let mut ctx: Vec<(String, String)> = Vec::new();
    ctx.push(context("path", path));
    ctx.push(context("type", type_label(t)));
    ctx.push(context("id", id.short_hex()));
    assert(context_view(ctx@) =~= object_context(p, t, id@));
    BackendError { kind: ErrorKind::Backend, message: String::from_str(message), context: ctx }
}

/// The context of a failed listing of a type's directory.
pub open spec fn listing_context(t: ContentType) -> Seq<(Seq<char>, Seq<char>)> {
    seq![("path"@, dirname_of(t) + "/"@), ("type"@, type_name_of(t))]
}

/// A failure of the store while listing the directory of `t`.
pub fn listing_error(message: &str, t: ContentType) -> (r: BackendError)
    ensures
        r.kind == ErrorKind::Backend,
        r.message@ == message@,
        r.context@.len() == 2,
        context_view(r.context@) == listing_context(t),
{
    let mut ctx: Vec<(String, String)> = Vec::new();
    ctx.push(context("path", listing_dir(t)));
    ctx.push(context("type", type_label(t)));
    assert(context_view(ctx@) =~= listing_context(t));
    BackendError { kind: ErrorKind::Backend, message: String::from_str(message), context: ctx }
}

/// The half-open byte range `[offset, offset + length)` of a partial read.
pub fn read_range(offset: u32, length: u32) -> (r: (u64, u64))
    ensures
        r.0 == offset,
        r.1 == offset + length,
{
    (offset as u64, offset as u64 + length as u64)
}

proof fn lemma_listing_err_stays(entries: Seq<ListEntry>, k: int, m: int)
    requires
        0 <= k <= m <= entries.len(),
        listing_of(entries.take(k)) is Err,
    ensures
        listing_of(entries.take(m)) == listing_of(entries.take(k)),
    decreases m - k,
{
    if m > k {
        lemma_listing_err_stays(entries, k, m - 1);
        assert(entries.take(m).drop_last() =~= entries.take(m - 1));
    }
}

} // verus!
