use vstd::prelude::*;
use crate::text::{decimal, digit_char, digit_to_char, push_char, push_decimal, push_text};
use vstd::utf8::encode_utf8;

verus! {

/// Width of a progress bar in characters.
pub const BAR_LENGTH: u64 = 25;

/// Number of spinner frames.
pub const SPINNER_FRAMES: usize = 8;

/// What a progress state holds, for contracts.
pub struct ProgressView {
    pub prefix: Seq<char>,
    pub title: Seq<char>,
    pub total: u64,
    pub current: u64,
    pub max_len: nat,
    pub frame: nat,
}

/// State of one progress report: its labels, the total to reach, what has been
/// reached, the widest line printed so far, and the spinner position.
#[derive(Debug)]
pub struct ProgressState {
    prefix: String,
    title: String,
    total: u64,
    current: u64,
    max_char_length: usize,
    spinner_frame: usize,
}

impl View for ProgressState {
    type V = ProgressView;

    closed spec fn view(&self) -> ProgressView {
        ProgressView {
            prefix: self.prefix@,
            title: self.title@,
            total: self.total,
            current: self.current,
            max_len: self.max_char_length as nat,
            frame: self.spinner_frame as nat,
        }
    }
}

/// The counter after adding `amount`; it stops at the largest value.
pub open spec fn inc_of(current: u64, amount: u64) -> u64 {
    if current + amount > u64::MAX {
        u64::MAX
    } else {
        (current + amount) as u64
    }
}

/// The counter after a series of increments.
pub open spec fn incs_of(current: u64, amounts: Seq<u64>) -> u64
    decreases amounts.len(),
{
    if amounts.len() == 0 {
        current
    } else {
        inc_of(incs_of(current, amounts.drop_last()), amounts.last())
    }
}

/// The label in front of a line: prefix and title, each followed by a space.
pub open spec fn label_of(prefix: Seq<char>, title: Seq<char>) -> Seq<char> {
    (if prefix.len() > 0 { prefix + " "@ } else { Seq::empty() }) + (if title.len() > 0 {
        title + " "@
    } else {
        Seq::empty()
    })
}

/// Whole percent of the total reached (rounded down, and at most the largest
/// `u64`); 0 while the total is 0.
pub open spec fn percent_of(current: u64, total: u64) -> nat {
    if total == 0 {
        0
    } else if current as int * 100 / total as int > u64::MAX {
        u64::MAX as nat
    } else {
        (current as int * 100 / total as int) as nat
    }
}

/// `n` copies of `c`.
pub open spec fn repeat(c: char, n: nat) -> Seq<char> {
    Seq::new(n, |i: int| c)
}

/// The bar for a percentage: filled part, a head while not full, then blanks.
pub open spec fn bar_of(percent: nat) -> Seq<char> {
    let filled = (BAR_LENGTH * percent / 100) as nat;
    "["@ + repeat('=', filled) + (if filled < BAR_LENGTH { ">"@ } else { Seq::empty() }) + repeat(
        ' ',
        if filled + 1 < BAR_LENGTH { (BAR_LENGTH - filled - 1) as nat } else { 0 },
    ) + "] "@ + decimal(percent) + "%"@
}

/// Unit names by power of 1024.
pub open spec fn unit_of(k: nat) -> Seq<char> {
    if k == 0 {
        "B"@
    } else if k == 1 {
        "KB"@
    } else if k == 2 {
        "MB"@
    } else if k == 3 {
        "GB"@
    } else if k == 4 {
        "TB"@
    } else {
        "PB"@
    }
}

/// `1024` to the power `k`.
pub open spec fn pow1024(k: nat) -> nat
    decreases k,
{
    if k == 0 {
        1
    } else {
        1024 * pow1024((k - 1) as nat)
    }
}

/// The unit a byte count is shown in: the first (from the `k`-th on) in which
/// it is under 1024; petabytes beyond terabytes.
pub open spec fn unit_index_from(bytes: u64, k: nat) -> nat
    decreases 5 - k,
{
    if k >= 5 {
        5
    } else if bytes as nat / pow1024(k) < 1024 {
        k
    } else {
        unit_index_from(bytes, k + 1)
    }
}

/// A byte count in unit `k` with one decimal (tenths rounded down).
pub open spec fn size_text(bytes: u64, k: nat) -> Seq<char> {
    let d = pow1024(k);
    decimal(bytes as nat / d) + "."@ + seq![digit_char(((bytes as nat * 10) / d) as int % 10)] + " "@
        + unit_of(k)
}

pub open spec fn readable_size(bytes: u64) -> Seq<char> {
    size_text(bytes, unit_index_from(bytes, 0))
}

proof fn lemma_pow1024_bound(k: nat)
    requires
        k <= 5,
    ensures
        pow1024(k) >= 1,
        k <= 4 ==> pow1024(k) <= 0x100_0000_0000,
        k <= 5 ==> pow1024(k) <= 0x4_0000_0000_0000,
{
    reveal_with_fuel(pow1024, 6);
}

/// Human-readable byte count with one decimal, e.g. "12.3 MB".
pub fn human_readable_size(bytes: u64) -> (r: String)
    ensures
        r@ == readable_size(bytes),
{
    let mut k: usize = 0;
    let mut d: u64 = 1;
    while k < 5
        invariant
            k <= 5,
            d == pow1024(k as nat),
            unit_index_from(bytes, k as nat) == unit_index_from(bytes, 0),
        ensures
            k <= 5,
            d == pow1024(k as nat),
            unit_index_from(bytes, k as nat) == k,
            unit_index_from(bytes, k as nat) == unit_index_from(bytes, 0),
        decreases 5 - k,
    {
        proof {
            lemma_pow1024_bound(k as nat);
        }
        if bytes / d < 1024 {
            break;
        }
        d = d * 1024;
        k = k + 1;
    }
    proof {
        lemma_pow1024_bound(k as nat);
    }
    let whole = bytes / d;
    let tenths = ((bytes as u128 * 10) / (d as u128)) % 10;
    let mut r = String::new();
    push_decimal(&mut r, whole);
    push_text(&mut r, ".");
    push_char(&mut r, digit_to_char(tenths as u8));
    push_text(&mut r, " ");
    push_text(&mut r, unit_name(k));
    assert(r@ =~= size_text(bytes, k as nat));
    r
}

fn unit_name(k: usize) -> (r: &'static str)
    ensures
        r@ == unit_of(k as nat),
{
    if k == 0 {
        "B"
    } else if k == 1 {
        "KB"
    } else if k == 2 {
        "MB"
    } else if k == 3 {
        "GB"
    } else if k == 4 {
        "TB"
    } else {
        "PB"
    }
}

/// `n` copies of `c`.
pub fn repeat_char(c: char, n: u64) -> (r: String)
    ensures
        r@ == repeat(c, n as nat),
{
    let mut r = String::new();
    let mut i: u64 = 0;
    while i < n
        invariant
            i <= n,
            r@ == repeat(c, i as nat),
        decreases n - i,
    {
        push_char(&mut r, c);
        i = i + 1;
        assert(r@ =~= repeat(c, i as nat));
    }
    r
}

/// The bar text for a percentage.
pub fn bar(percent: u64) -> (r: String)
    ensures
        r@ == bar_of(percent as nat),
{
    let wide = (BAR_LENGTH as u128 * percent as u128) / 100;
    proof {
        assert(wide <= percent) by (nonlinear_arith)
            requires
                wide == (25 * percent as int) / 100,
                percent >= 0,
        ;
    }
    let filled = wide as u64;
    let mut r = String::from_str("[");
    let eq = repeat_char('=', filled);
    push_text(&mut r, eq.as_str());
    if filled < BAR_LENGTH {
        push_text(&mut r, ">");
    }
    let blanks = if filled + 1 < BAR_LENGTH { BAR_LENGTH - filled - 1 } else { 0 };
    let sp = repeat_char(' ', blanks);
    push_text(&mut r, sp.as_str());
    push_text(&mut r, "] ");
    push_decimal(&mut r, percent);
    push_text(&mut r, "%");
    assert(r@ =~= bar_of(percent as nat));
    r
}

/// The kinds of progress report; each renders an increment in its own way.
#[derive(Clone, Copy, Debug, PartialEq, Eq, Structural)]
pub enum ProgressType {
    Hidden,
    Spinner,
    Counter,
    Bytes,
}

/// The spinner frame at a position of the cycle.
pub open spec fn frame_char(i: nat) -> char {
    let k = i % 8;
    if k == 0 {
        '\u{28fe}'
    } else if k == 1 {
        '\u{28fd}'
    } else if k == 2 {
        '\u{28fb}'
    } else if k == 3 {
        '\u{28bf}'
    } else if k == 4 {
        '\u{287f}'
    } else if k == 5 {
        '\u{28df}'
    } else if k == 6 {
        '\u{28ef}'
    } else {
        '\u{28f7}'
    }
}

fn spinner_char(i: usize) -> (c: char)
    requires
        i < 8,
    ensures
        c == frame_char(i as nat),
{
    match i {
        0 => '\u{28fe}',
        1 => '\u{28fd}',
        2 => '\u{28fb}',
        3 => '\u{28bf}',
        4 => '\u{287f}',
        5 => '\u{28df}',
        6 => '\u{28ef}',
        _ => '\u{28f7}',
    }
}

/// What a kind shows after an increment, given the state with the new count.
pub open spec fn inc_text(kind: ProgressType, v: ProgressView) -> Seq<char> {
    let n = percent_of(v.current, v.total);
    match kind {
        ProgressType::Spinner => " "@ + seq![frame_char(v.frame)] + " "@,
        ProgressType::Counter => bar_of(n) + ":"@,
        _ => bar_of(n) + " ("@ + readable_size(v.current) + "/"@ + readable_size(v.total) + "):"@,
    }
}

/// A redrawn line: back to the line start, the text, then the label.
pub open spec fn suffix_line(text: Seq<char>, v: ProgressView) -> Seq<char> {
    "\r"@ + text + " "@ + label_of(v.prefix, v.title)
}

/// The UTF-8 length of text, as `str::len` reports it.
pub open spec fn byte_width(s: Seq<char>) -> nat {
    (encode_utf8(s).len() as usize) as nat
}

/// The widest-line record after printing `n` more bytes.
pub open spec fn widened(max_len: nat, n: nat) -> nat {
    if n > max_len {
        n
    } else {
        max_len
    }
}

impl ProgressState {
    /// A fresh state with the given prefix and nothing else.
    pub fn new(prefix: &str) -> (r: ProgressState)
        ensures
            r@.prefix == prefix@,
            r@.title.len() == 0,
            r@.total == 0,
            r@.current == 0,
            r@.max_len == 0,
            r@.frame == 0,
    {
        ProgressState {
            prefix: String::from_str(prefix),
            title: String::new(),
            total: 0,
            current: 0,
            max_char_length: 0,
            spinner_frame: 0,
        }
    }

    pub fn title(&mut self, title: String)
        ensures
            final(self)@ == (ProgressView { title: title@, ..old(self)@ }),
    {
        self.title = title;
    }

    pub fn total(&mut self, total: u64)
        ensures
            final(self)@ == (ProgressView { total: total, ..old(self)@ }),
    {
        self.total = total;
    }

    pub fn current(&self) -> (r: u64)
        ensures
            r == self@.current,
    {
        self.current
    }

    pub fn total_value(&self) -> (r: u64)
        ensures
            r == self@.total,
    {
        self.total
    }

    /// The label: prefix and title, each followed by a space when present.
    pub fn prefix(&self) -> (r: String)
        ensures
            r@ == label_of(self@.prefix, self@.title),
    {
        let mut r = String::new();
        if self.prefix.as_str().unicode_len() > 0 {
            push_text(&mut r, self.prefix.as_str());
            push_text(&mut r, " ");
        }
        if self.title.as_str().unicode_len() > 0 {
            push_text(&mut r, self.title.as_str());
            push_text(&mut r, " ");
        }
        assert(r@ =~= label_of(self@.prefix, self@.title));
        r
    }

    /// Blanks as wide as the widest line printed, to wipe it.
    pub fn padding(&self) -> (r: String)
        ensures
            r@ == repeat(' ', self@.max_len),
    {
        repeat_char(' ', self.max_char_length as u64)
    }

    /// Adds to the count, stopping at the largest value; returns the new count.
    pub fn inc(&mut self, length: u64) -> (r: u64)
        ensures
            final(self)@ == (ProgressView { current: inc_of(old(self)@.current, length), ..old(self)@ }),
            r == final(self)@.current,
    {
        self.current = self.current.saturating_add(length);
        self.current
    }

    /// Whole percent of the total reached.
    pub fn percentage(&self) -> (r: u64)
        ensures
            r == percent_of(self@.current, self@.total),
    {
        if self.total == 0 {
            0
        } else {
            let p = (self.current as u128 * 100) / (self.total as u128);
            if p > u64::MAX as u128 {
                u64::MAX
            } else {
                p as u64
            }
        }
    }

    /// Marks the report complete: the count becomes the total. Returns the
    /// closing line.
    pub fn finish(&mut self) -> (r: String)
        ensures
            final(self)@ == (ProgressView { current: old(self)@.total, ..old(self)@ }),
            r@ == "\r "@ + label_of(old(self)@.prefix, old(self)@.title) + seq![' ', '\u{2713}'] + repeat(
                ' ',
                old(self)@.max_len,
            ),
    {
        self.current = self.total;
        let mut r = String::from_str("\r ");
        let label = self.prefix();
        push_text(&mut r, label.as_str());
        push_char(&mut r, ' ');
        push_char(&mut r, '\u{2713}');
        let pad = self.padding();
        push_text(&mut r, pad.as_str());
        assert(r@ =~= "\r "@ + label_of(old(self)@.prefix, old(self)@.title) + seq![' ', '\u{2713}'] + repeat(
            ' ',
            old(self)@.max_len,
        ));
        r
    }

    /// The line shown when the title is set: the label over blanks.
    pub fn title_line(&self) -> (r: String)
        ensures
            r@ == "\r "@ + label_of(self@.prefix, self@.title) + repeat(' ', self@.max_len),
    {
        let mut r = String::from_str("\r ");
        let label = self.prefix();
        push_text(&mut r, label.as_str());
        let pad = self.padding();
        push_text(&mut r, pad.as_str());
        r
    }

    /// Records that `text` is printed, widening the blanks that wipe a line to
    /// its length in bytes; returns it.
    pub fn print(&mut self, text: String) -> (r: String)
        ensures
            final(self)@ == (ProgressView {
                max_len: widened(old(self)@.max_len, byte_width(text@)),
                ..old(self)@
            }),
            r@ == text@,
    {
        let n = text.as_str().len();
        if n > self.max_char_length {
            self.max_char_length = n;
        }
        text
    }

    /// The label, then `text`.
    pub fn print_with_prefix(&mut self, text: &str) -> (r: String)
        ensures
            r@ == "\r"@ + label_of(old(self)@.prefix, old(self)@.title) + " "@ + text@,
            final(self)@ == (ProgressView {
                max_len: widened(old(self)@.max_len, byte_width(r@)),
                ..old(self)@
            }),
    {
        let mut line = String::from_str("\r");
        let label = self.prefix();
        push_text(&mut line, label.as_str());
        push_text(&mut line, " ");
        push_text(&mut line, text);
        self.print(line)
    }

    /// `text`, then the label.
    pub fn print_with_suffix(&mut self, text: &str) -> (r: String)
        ensures
            r@ == suffix_line(text@, old(self)@),
            final(self)@ == (ProgressView {
                max_len: widened(old(self)@.max_len, byte_width(r@)),
                ..old(self)@
            }),
    {
        let mut line = String::from_str("\r");
        push_text(&mut line, text);
        push_text(&mut line, " ");
        let label = self.prefix();
        push_text(&mut line, label.as_str());
        self.print(line)
    }
}

impl ProgressType {
    pub fn is_hidden(&self) -> (r: bool)
        ensures
            r <==> *self == ProgressType::Hidden,
    {
        match self {
            ProgressType::Hidden => true,
            _ => false,
        }
    }

    /// Adds `amount` to the count and returns the redrawn line; a hidden report
    /// shows nothing and keeps its state. The spinner moves on one frame.
    pub fn inc(&self, state: &mut ProgressState, amount: u64) -> (r: Option<String>)
        ensures
            *self == ProgressType::Hidden ==> r is None && final(state)@ == old(state)@,
            *self != ProgressType::Hidden ==> {
                let counted = ProgressView { current: inc_of(old(state)@.current, amount), ..old(state)@ };
                &&& r is Some
                &&& r->Some_0@ == suffix_line(inc_text(*self, counted), counted)
                &&& final(state)@.current == counted.current
                &&& final(state)@.total == counted.total
                &&& final(state)@.prefix == counted.prefix
                &&& final(state)@.title == counted.title
                &&& final(state)@.max_len == widened(counted.max_len, byte_width(r->Some_0@))
                &&& final(state)@.frame == (if *self == ProgressType::Spinner {
                    (counted.frame + 1) % (SPINNER_FRAMES as nat)
                } else {
                    counted.frame
                })
            },
    {
        if self.is_hidden() {
            return None;
        }
        state.inc(amount);
        let ghost counted = state@;
        let n = state.percentage();
        let text = match self {
            ProgressType::Spinner => {
                let f = state.spinner_frame % SPINNER_FRAMES;
                let mut t = String::from_str(" ");
                push_char(&mut t, spinner_char(f));
                push_text(&mut t, " ");
                state.spinner_frame = (f + 1) % SPINNER_FRAMES;
                assert(t@ =~= inc_text(*self, counted));
                t
            },
            ProgressType::Counter => {
                let mut t = bar(n);
                push_text(&mut t, ":");
                t
            },
            _ => {
                let mut t = bar(n);
                push_text(&mut t, " (");
                let cur = human_readable_size(state.current);
                push_text(&mut t, cur.as_str());
                push_text(&mut t, "/");
                let tot = human_readable_size(state.total);
                push_text(&mut t, tot.as_str());
                push_text(&mut t, "):");
                assert(t@ =~= inc_text(*self, counted));
                t
            },
        };
        Some(state.print_with_suffix(text.as_str()))
    }
}

/// Under any order of increments the count never goes down: after more of
/// them it is at least what it was after fewer.
pub proof fn law_progress_monotone(current: u64, amounts: Seq<u64>, i: int, j: int)
    requires
        0 <= i <= j <= amounts.len(),
    ensures
        current <= incs_of(current, amounts.take(i)),
        incs_of(current, amounts.take(i)) <= incs_of(current, amounts.take(j)),
    decreases j,
{
    if j > i {
        law_progress_monotone(current, amounts, i, j - 1);
        assert(amounts.take(j).drop_last() =~= amounts.take(j - 1));
    } else if i > 0 {
        law_progress_monotone(current, amounts, i - 1, i - 1);
        assert(amounts.take(i).drop_last() =~= amounts.take(i - 1));
    }
}

/// The sum of a series of increments.
pub open spec fn sum_of(amounts: Seq<u64>) -> int
    decreases amounts.len(),
{
    if amounts.len() == 0 {
        0
    } else {
        sum_of(amounts.drop_last()) + amounts.last()
    }
}

/// Where the count stays in range, a series of increments adds exactly their
/// sum: no increment is lost.
pub proof fn law_progress_sum(current: u64, amounts: Seq<u64>)
    requires
        current + sum_of(amounts) <= u64::MAX,
    ensures
        incs_of(current, amounts) == current + sum_of(amounts),
    decreases amounts.len(),
{
    if amounts.len() > 0 {
        law_progress_sum(current, amounts.drop_last());
    }
}

} // verus!
