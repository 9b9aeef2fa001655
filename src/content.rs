use vstd::prelude::*;
use crate::text::{digit_char, digit_to_char, push_char, push_text};

verus! {

/// Number of bytes in a content id.
pub const ID_LEN: usize = 32;

/// The categories of objects that a repository stores.
#[derive(Clone, Copy, Debug, PartialEq, Eq, Structural)]
pub enum ContentType {
    Config,
    Index,
    Key,
    Snapshot,
    Pack,
}

/// Directory name of each content type.
pub open spec fn dirname_of(t: ContentType) -> Seq<char> {
    match t {
        ContentType::Config => "config"@,
        ContentType::Snapshot => "snapshots"@,
        ContentType::Index => "index"@,
        ContentType::Key => "keys"@,
        ContentType::Pack => "data"@,
    }
}

/// Display name of each content type.
pub open spec fn type_name_of(t: ContentType) -> Seq<char> {
    match t {
        ContentType::Config => "Config"@,
        ContentType::Index => "Index"@,
        ContentType::Key => "Key"@,
        ContentType::Snapshot => "Snapshot"@,
        ContentType::Pack => "Pack"@,
    }
}

/// Short form of an id: its first eight hex digits.
pub open spec fn short_hex_of(id: Seq<u8>) -> Seq<char> {
    hex_of(id).take(8)
}

impl ContentType {
    /// The name the type is shown by.
    pub fn display_name(self) -> (r: &'static str)
        ensures
            r@ == type_name_of(self),
    {
        match self {
            ContentType::Config => "Config",
            ContentType::Index => "Index",
            ContentType::Key => "Key",
            ContentType::Snapshot => "Snapshot",
            ContentType::Pack => "Pack",
        }
    }

    pub fn dirname(self) -> (r: &'static str)
        ensures
            r@ == dirname_of(self),
    {
        match self {
            ContentType::Config => "config",
            ContentType::Snapshot => "snapshots",
            ContentType::Index => "index",
            ContentType::Key => "keys",
            ContentType::Pack => "data",
        }
    }
}

/// Lower-case hex rendering: two characters per byte, high nibble first.
pub open spec fn hex_of(b: Seq<u8>) -> Seq<char> {
    Seq::new(
        2 * b.len(),
        |i: int| if i % 2 == 0 { digit_char(b[i / 2] as int / 16) } else { digit_char(b[i / 2] as int % 16) },
    )
}

/// A hex digit of either case.
pub open spec fn is_hex_char(c: char) -> bool {
    ('0' <= c && c <= '9') || ('a' <= c && c <= 'f') || ('A' <= c && c <= 'F')
}

/// The value of a hex digit.
pub open spec fn nibble_of(c: char) -> int {
    if '0' <= c && c <= '9' {
        c as int - '0' as int
    } else if 'a' <= c && c <= 'f' {
        c as int - 'a' as int + 10
    } else {
        c as int - 'A' as int + 10
    }
}

/// Text that names a content id: exactly two hex digits per byte.
pub open spec fn is_id_text(s: Seq<char>) -> bool {
    s.len() == 2 * ID_LEN && forall|i: int| 0 <= i < s.len() ==> is_hex_char(#[trigger] s[i])
}

/// The bytes that hex text decodes to.
pub open spec fn decode_hex(s: Seq<char>) -> Seq<u8> {
    Seq::new(s.len() / 2, |i: int| (nibble_of(s[2 * i]) * 16 + nibble_of(s[2 * i + 1])) as u8)
}

/// Identifier of a stored object: a fixed-width content hash.
#[derive(Debug, PartialEq, Eq)]
pub struct ContentId {
    bytes: Vec<u8>,
}

impl View for ContentId {
    type V = Seq<u8>;

    closed spec fn view(&self) -> Seq<u8> {
        self.bytes@
    }
}

impl Clone for ContentId {
    fn clone(&self) -> (r: ContentId)
        ensures
            r@ == self@,
    {
        proof {
            use_type_invariant(self);
        }
        ContentId { bytes: self.bytes.clone() }
    }
}

impl ContentId {
    #[verifier::type_invariant]
    closed spec fn inv(self) -> bool {
        self.bytes@.len() == ID_LEN
    }

    /// The id whose bytes are all zero.
    pub fn zero() -> (r: ContentId)
        ensures
            r@ == Seq::new(ID_LEN as nat, |i: int| 0u8),
    {
        let mut bytes: Vec<u8> = Vec::new();
        let mut i: usize = 0;
        while i < ID_LEN
            invariant
                i <= ID_LEN,
                bytes@ == Seq::new(i as nat, |j: int| 0u8),
            decreases ID_LEN - i,
        {
            bytes.push(0u8);
            i = i + 1;
            assert(bytes@ =~= Seq::new(i as nat, |j: int| 0u8));
        }
        ContentId { bytes }
    }

    /// The id with the given bytes, if there are exactly `ID_LEN` of them.
    pub fn from_bytes(bytes: Vec<u8>) -> (r: Option<ContentId>)
        ensures
            r is Some <==> bytes@.len() == ID_LEN,
            r matches Some(id) ==> id@ == bytes@,
    {
        if bytes.len() == ID_LEN {
            Some(ContentId { bytes })
        } else {
            None
        }
    }

    pub fn as_bytes(&self) -> (r: &Vec<u8>)
        ensures
            r@ == self@,
            r@.len() == ID_LEN,
    {
        proof {
            use_type_invariant(self);
        }
        &self.bytes
    }

    /// Lower-case hex rendering of the id.
    pub fn to_hex(&self) -> (r: String)
        ensures
            r@ == hex_of(self@),
            self@.len() == ID_LEN,
    {
        proof {
            use_type_invariant(self);
        }
        let mut s = String::new();
        let mut i: usize = 0;
        while i < self.bytes.len()
            invariant
                i <= self.bytes@.len(),
                s@ == hex_of(self.bytes@.subrange(0, i as int)),
            decreases self.bytes@.len() - i,
        {
            let b = self.bytes[i];
            let ghost before = s@;
            push_char(&mut s, digit_to_char(b / 16));
            push_char(&mut s, digit_to_char(b % 16));
            i = i + 1;
            assert(s@ =~= hex_of(self.bytes@.subrange(0, i as int)));
        }
        assert(self.bytes@.subrange(0, i as int) =~= self.bytes@);
        s
    }

    /// The id as shown in messages: its first eight hex digits.
    pub fn short_hex(&self) -> (r: String)
        ensures
            r@ == short_hex_of(self@),
    {
        let hex = self.to_hex();
        String::from_str(hex.as_str().substring_char(0, 8))
    }

    /// Parses hex text (either case) into an id; `None` unless the text is exactly
    /// `2 * ID_LEN` hex digits.
    pub fn parse(text: &str) -> (r: Option<ContentId>)
        ensures
            r is Some <==> is_id_text(text@),
            r matches Some(id) ==> id@ == decode_hex(text@),
    {
        let n = text.unicode_len();
        if n != 2 * ID_LEN {
            return None;
        }
        let mut bytes: Vec<u8> = Vec::new();
        let mut i: usize = 0;
        while i < ID_LEN
            invariant
                n == text@.len() == 2 * ID_LEN,
                i <= ID_LEN,
                forall|j: int| 0 <= j < 2 * i ==> is_hex_char(#[trigger] text@[j]),
                bytes@ =~= decode_hex(text@.subrange(0, 2 * i as int)),
            decreases ID_LEN - i,
        {
            let hi = nibble(text.get_char(2 * i));
            let lo = nibble(text.get_char(2 * i + 1));
            match (hi, lo) {
                (Some(h), Some(l)) => {
                    bytes.push(h * 16 + l);
                    i = i + 1;
                    assert(bytes@ =~= decode_hex(text@.subrange(0, 2 * i as int)));
                },
                _ => {
                    proof {
                        if hi is None {
                            assert(!is_hex_char(text@[2 * i as int]));
                        } else {
                            assert(!is_hex_char(text@[2 * i + 1]));
                        }
                    }
                    return None;
                },
            }
        }
        assert(text@.subrange(0, 2 * ID_LEN as int) =~= text@);
        Some(ContentId { bytes })
    }
}

/// Object key of a (type, id) pair: the config has one fixed key, packs fan out
/// over directories named by the id's first byte, other types sit under their
/// directory.
pub open spec fn location_of(t: ContentType, id: Seq<u8>) -> Seq<char> {
    match t {
        ContentType::Config => "config"@,
        ContentType::Pack => "data/"@ + hex_of(id).subrange(0, 2) + "/"@ + hex_of(id),
        _ => dirname_of(t) + "/"@ + hex_of(id),
    }
}

/// Object key of a stored object.
pub fn locate(t: ContentType, id: &ContentId) -> (r: String)
    ensures
        r@ == location_of(t, id@),
{
    match t {
        ContentType::Config => String::from_str("config"),
        ContentType::Pack => {
            let hex = id.to_hex();
            let bytes = id.as_bytes();
            let first = bytes[0];
            let mut r = String::from_str("data/");
            push_char(&mut r, digit_to_char(first / 16));
            push_char(&mut r, digit_to_char(first % 16));
            push_text(&mut r, "/");
            push_text(&mut r, hex.as_str());
            assert(hex_of(id@).subrange(0, 2) =~= seq![digit_char(first as int / 16), digit_char(first as int % 16)]);
            assert(r@ =~= location_of(t, id@));
            r
        },
        _ => {
            let hex = id.to_hex();
            let mut r = String::from_str(t.dirname());
            push_text(&mut r, "/");
            push_text(&mut r, hex.as_str());
            r
        },
    }
}

proof fn lemma_digit_char_injective(x: int, y: int)
    requires
        0 <= x < 16,
        0 <= y < 16,
        digit_char(x) == digit_char(y),
    ensures
        x == y,
{
}

proof fn lemma_hex_injective(a: Seq<u8>, b: Seq<u8>)
    requires
        a.len() == b.len(),
        hex_of(a) == hex_of(b),
    ensures
        a == b,
{
    assert forall|i: int| 0 <= i < a.len() implies a[i] == b[i] by {
        assert((2 * i) % 2 == 0 && (2 * i) / 2 == i && (2 * i + 1) % 2 == 1 && (2 * i + 1) / 2 == i);
        assert(hex_of(a).len() == 2 * a.len() && 2 * i + 1 < 2 * a.len());
        assert(hex_of(a)[2 * i] == digit_char(a[i] as int / 16));
        assert(hex_of(b)[2 * i] == digit_char(b[i] as int / 16));
        assert(hex_of(a)[2 * i + 1] == digit_char(a[i] as int % 16));
        assert(hex_of(b)[2 * i + 1] == digit_char(b[i] as int % 16));
        lemma_digit_char_injective(a[i] as int / 16, b[i] as int / 16);
        lemma_digit_char_injective(a[i] as int % 16, b[i] as int % 16);
    }
    assert(a =~= b);
}

/// Object keys are a function of type and id; the config key is the same for
/// every id, and within any other type distinct ids never share a key.
pub proof fn law_location_injective(t: ContentType, a: Seq<u8>, b: Seq<u8>)
    requires
        a.len() == ID_LEN,
        b.len() == ID_LEN,
    ensures
        t == ContentType::Config ==> location_of(t, a) == location_of(t, b) && location_of(t, a) == "config"@,
        t != ContentType::Config && location_of(t, a) == location_of(t, b) ==> a == b,
{
    if t != ContentType::Config && location_of(t, a) == location_of(t, b) {
        let la = location_of(t, a);
        let lb = location_of(t, b);
        if t == ContentType::Pack {
            reveal_strlit("data/");
            reveal_strlit("/");
            assert(hex_of(a) =~= la.subrange(8, la.len() as int));
            assert(hex_of(b) =~= lb.subrange(8, lb.len() as int));
        } else {
            reveal_strlit("/");
            let d = dirname_of(t).len() + 1;
            assert(hex_of(a) =~= la.subrange(d as int, la.len() as int));
            assert(hex_of(b) =~= lb.subrange(d as int, lb.len() as int));
        }
        lemma_hex_injective(a, b);
    }
}

/// The value of a hex digit, or `None` for any other character.
pub fn nibble(c: char) -> (r: Option<u8>)
    ensures
        r is Some <==> is_hex_char(c),
        r matches Some(v) ==> v as int == nibble_of(c) && v < 16,
{
    if '0' <= c && c <= '9' {
        Some((c as u32 - '0' as u32) as u8)
    } else if 'a' <= c && c <= 'f' {
        Some((c as u32 - 'a' as u32 + 10) as u8)
    } else if 'A' <= c && c <= 'F' {
        Some((c as u32 - 'A' as u32 + 10) as u8)
    } else {
        None
    }
}

} // verus!
