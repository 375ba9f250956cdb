use crate::text::chars_of;
use vstd::arithmetic::power::pow;
use vstd::prelude::*;

verus! {

/// The lower-case hexadecimal digit for `n` in `0..16`.
pub open spec fn hex_digit(n: int) -> char {
    if n < 10 {
        (48 + n) as char
    } else {
        (87 + n) as char
    }
}

/// The `k`-th of the 32 hexadecimal digits of `id`, counted from the most significant.
pub open spec fn nibble(id: u128, k: int) -> int {
    (id as int / pow(16, (31 - k) as nat)) % 16
}

/// The 32 lower-case hexadecimal digits of `id`, most significant first.
pub open spec fn hex32(id: u128) -> Seq<char> {
    Seq::new(32, |k: int| hex_digit(nibble(id, k)))
}

/// The hyphenated text of a UUID: its digits in groups of 8, 4, 4, 4 and 12,
/// joined by `-`.
pub open spec fn hyphenated(id: u128) -> Seq<char> {
    let h = hex32(id);
    h.subrange(0, 8) + seq!['-'] + h.subrange(8, 12) + seq!['-'] + h.subrange(12, 16) + seq!['-']
        + h.subrange(16, 20) + seq!['-'] + h.subrange(20, 32)
}

/// The 16 bytes of `id`, most significant first: the bytes of the UUID whose
/// `u128` is `id`.
pub open spec fn uuid_bytes(id: u128) -> Seq<u8> {
    Seq::new(16, |k: int| ((id as int / pow(256, (15 - k) as nat)) % 256) as u8)
}

/// A lower-case hexadecimal digit.
pub open spec fn is_lower_hex(c: char) -> bool {
    ('0' <= c <= '9') || ('a' <= c <= 'f')
}

/// Twelve lower-case hexadecimal digits: what `random_string` returns.
pub open spec fn is_token(t: Seq<char>) -> bool {
    &&& t.len() == 12
    &&& forall|i: int| 0 <= i < t.len() ==> is_lower_hex(#[trigger] t[i])
}

/// Index of the last `c` in `s`, or -1 when there is none.
pub open spec fn last_index_of(s: Seq<char>, c: char) -> int
    decreases s.len(),
{
    if s.len() == 0 {
        -1
    } else if s.last() == c {
        s.len() - 1
    } else {
        last_index_of(s.drop_last(), c)
    }
}

/// What follows the last `-` of `s`; all of `s` when it has none.
pub open spec fn after_last_hyphen(s: Seq<char>) -> Seq<char> {
    s.subrange(last_index_of(s, '-') + 1, s.len() as int)
}

/// What precedes the last `-` of `s`; all of `s` when it has none.
pub open spec fn before_last_hyphen(s: Seq<char>) -> Seq<char> {
    let k = last_index_of(s, '-');
    if k < 0 {
        s
    } else {
        s.subrange(0, k)
    }
}

/// Calls `uuid::Uuid::new_v4`, which draws a random version-4 UUID; its
/// value is handed out as the `u128` that `as_u128` gives. Of every outcome
/// the crate's source shows that the version digit is 4 and the variant
/// digit is one of 8, 9, a, b; nothing else is stated.
#[verifier::external_body]
pub(crate) fn new_v4() -> (id: u128)
    ensures
        nibble(id, 12) == 4,
        8 <= nibble(id, 16) < 12,
{
    uuid::Uuid::new_v4().as_u128()
}

/// Calls `Display::to_string` on `uuid::Uuid::from_u128(id)`. The crate formats
/// a UUID as its hyphenated lower-case text, the 16 bytes of `id` taken
/// big-endian; the contract states that text.
#[verifier::external_body]
pub(crate) fn uuid_text(id: u128) -> (s: String)
    ensures
        s@ == hyphenated(id),
{
    uuid::Uuid::from_u128(id).to_string()
}

/// What `uuid::Uuid::parse_str` makes of a text, as the `u128` of the UUID.
pub uninterp spec fn uuid_parse(s: Seq<char>) -> Option<u128>;

/// Calls `uuid::Uuid::parse_str` and hands out the `u128` of the UUID. Its
/// result is named `uuid_parse`; the crate's parser reads the hyphenated text
/// that `uuid_text` writes back to the same UUID, which the last clause states.
#[verifier::external_body]
pub(crate) fn parse_uuid(s: &str) -> (r: Result<u128, uuid::Error>)
    ensures
        r is Ok <==> uuid_parse(s@) is Some,
        r matches Ok(id) ==> uuid_parse(s@) == Some(id),
        forall|id: u128| #[trigger] hyphenated(id) == s@ ==> r is Ok && r->Ok_0 == id,
{
    uuid::Uuid::parse_str(s).map(|u| u.as_u128())
}

proof fn lemma_hex_digit(n: int)
    requires
        0 <= n < 16,
    ensures
        is_lower_hex(hex_digit(n)),
        hex_digit(n) != '-',
{
}

proof fn lemma_hyphenated_shape(id: u128)
    ensures
        hyphenated(id).len() == 36,
        hyphenated(id)[23] == '-',
        hyphenated(id).subrange(24, 36) == hex32(id).subrange(20, 32),
        is_token(hyphenated(id).subrange(24, 36)),
        last_index_of(hyphenated(id), '-') == 23,
{
    let h = hex32(id);
    let t = hyphenated(id);
    assert forall|k: int| 0 <= k < 32 implies is_lower_hex(#[trigger] h[k]) && h[k] != '-' by {
        lemma_hex_digit(nibble(id, k));
    }
    assert(t.len() == 36);
    assert(t[23] == '-');
    assert(t.subrange(24, 36) =~= h.subrange(20, 32));
    lemma_no_hyphen_after(t, 24);
}

/// With no `c` at or after `j`, the last `c` is found before `j`.
proof fn lemma_last_index_prefix(s: Seq<char>, c: char, j: int)
    requires
        0 <= j <= s.len(),
        forall|k: int| j <= k < s.len() ==> #[trigger] s[k] != c,
    ensures
        last_index_of(s, c) == last_index_of(s.subrange(0, j), c),
    decreases s.len() - j,
{
    if j < s.len() {
        let t = s.drop_last();
        assert forall|k: int| j <= k < t.len() implies #[trigger] t[k] != c by {
            assert(t[k] == s[k]);
        }
        lemma_last_index_prefix(t, c, j);
        assert(t.subrange(0, j) =~= s.subrange(0, j));
    } else {
        assert(s.subrange(0, j) =~= s);
    }
}

proof fn lemma_no_hyphen_after(t: Seq<char>, j: int)
    requires
        1 <= j <= t.len(),
        t[j - 1] == '-',
        forall|k: int| j <= k < t.len() ==> #[trigger] t[k] != '-',
    ensures
        last_index_of(t, '-') == j - 1,
{
    lemma_last_index_prefix(t, '-', j);
    let u = t.subrange(0, j);
    assert(u.last() == '-');
}

/// Splits `s` at its last `-`: the index where what follows it starts
/// (0 when there is no `-`).
fn after_hyphen_start(cs: &Vec<char>) -> (j: usize)
    ensures
        j as int == last_index_of(cs@, '-') + 1,
        j <= cs@.len(),
{
    let mut j: usize = cs.len();
    while j > 0 && cs[j - 1] != '-'
        invariant
            j <= cs@.len(),
            forall|k: int| j <= k < cs@.len() ==> #[trigger] cs@[k] != '-',
        decreases j,
    {
        j = j - 1;
    }
    proof {
        if j > 0 {
            lemma_no_hyphen_after(cs@, j as int);
        } else {
            lemma_last_index_prefix(cs@, '-', 0);
        }
    }
    j
}

/// What follows the last `-` of `text`, or all of `text` when it has none:
/// the last item of `text.split('-')`.
pub fn last_segment(text: &str) -> (r: String)
    ensures
        r@ == after_last_hyphen(text@),
{
    let cs = chars_of(text);
    let j = after_hyphen_start(&cs);
    text.substring_char(j, cs.len()).to_owned()
}

/// What precedes the last `-` of `text`, or `None` when it has none: the
/// first half of `text.rsplit_once('-')`.
pub fn before_last_segment(text: &str) -> (r: Option<String>)
    ensures
        last_index_of(text@, '-') < 0 <==> r is None,
        r matches Some(p) ==> p@ == before_last_hyphen(text@),
{
    let cs = chars_of(text);
    let j = after_hyphen_start(&cs);
    if j == 0 {
        None
    } else {
        Some(text.substring_char(0, j - 1).to_owned())
    }
}

/// Twelve random lower-case hexadecimal digits: the last group of the text
/// of a fresh random UUID.
pub fn random_string() -> (s: String)
    ensures
        is_token(s@),
        exists|id: u128| s@ == #[trigger] hyphenated(id).subrange(24, 36),
{
    let id = new_v4();
    let text = uuid_text(id);
    let s = last_segment(text.as_str());
    proof {
        lemma_hyphenated_shape(id);
        assert(s@ == hyphenated(id).subrange(24, 36));
    }
    s
}

} // verus!
