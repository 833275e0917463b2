//! Text columns transferred as UTF-16 and stored as UTF-8.
use vstd::prelude::*;
use vstd::utf8::{char_is_scalar, char_u32_cast, is_scalar};

verus! {

/// UTF-16 code units of one character: itself below `0x10000`, a surrogate pair above.
pub open spec fn char_utf16(c: char) -> Seq<u16> {
    let v = c as u32;
    if v < 0x10000 {
        seq![v as u16]
    } else {
        seq![(0xD800 + (v - 0x10000) / 0x400) as u16, (0xDC00 + (v - 0x10000) % 0x400) as u16]
    }
}

/// UTF-16 encoding of a text.
pub open spec fn utf16_encode(s: Seq<char>) -> Seq<u16>
    decreases s.len(),
{
    if s.len() == 0 {
        Seq::empty()
    } else {
        char_utf16(s[0]) + utf16_encode(s.drop_first())
    }
}

/// The units are the UTF-16 encoding of some text.
pub open spec fn is_utf16(units: Seq<u16>) -> bool {
    exists|s: Seq<char>| utf16_encode(s) == units
}

/// Relies on `str::encode_utf16`, which yields the string encoded as UTF-16.
#[verifier::external_body]
fn encode_utf16(s: &str) -> (r: Vec<u16>)
    ensures
        r@ == utf16_encode(s@),
{
    s.encode_utf16().collect()
}

/// Relies on `String::from_utf16`, which decodes UTF-16 and fails on any invalid data.
#[verifier::external_body]
fn decode_utf16(units: &[u16]) -> (r: Option<String>)
    ensures
        r matches Some(t) ==> utf16_encode(t@) == units@,
        r is None ==> !is_utf16(units@),
{
    String::from_utf16(units).ok()
}

proof fn lemma_char_utf16(c: char)
    ensures
        1 <= char_utf16(c).len() <= 2,
        char_utf16(c).len() == 2 <==> 0xD800 <= char_utf16(c)[0] < 0xDC00,
        char_utf16(c).len() == 2 ==> 0xDC00 <= char_utf16(c)[1] < 0xE000,
{
    broadcast use char_is_scalar;

    let v = c as u32;
    assert(is_scalar(v));
}

proof fn lemma_char_utf16_injective(a: char, b: char)
    requires
        char_utf16(a) == char_utf16(b),
    ensures
        a == b,
{
    broadcast use char_is_scalar, char_u32_cast;

    let va = a as u32;
    let vb = b as u32;
    assert(is_scalar(va) && is_scalar(vb));
    lemma_char_utf16(a);
    lemma_char_utf16(b);
    if va < 0x10000 {
        assert(char_utf16(a)[0] == char_utf16(b)[0]);
    } else {
        assert(char_utf16(a)[0] == char_utf16(b)[0]);
        assert(char_utf16(a)[1] == char_utf16(b)[1]);
        assert(va == 0x10000 + ((va - 0x10000) / 0x400) * 0x400 + (va - 0x10000) % 0x400);
        assert(vb == 0x10000 + ((vb - 0x10000) / 0x400) * 0x400 + (vb - 0x10000) % 0x400);
    }
    assert(va as char == a);
    assert(vb as char == b);
}

/// Text survives UTF-16: two texts with the same UTF-16 encoding are the same text.
pub proof fn lemma_utf16_round_trip(s: Seq<char>, t: Seq<char>)
    requires
        utf16_encode(s) == utf16_encode(t),
    ensures
        s == t,
    decreases s.len(),
{
    if s.len() == 0 || t.len() == 0 {
        if s.len() > 0 {
            lemma_char_utf16(s[0]);
        }
        if t.len() > 0 {
            lemma_char_utf16(t[0]);
        }
        assert(s =~= t);
    } else {
        let es = utf16_encode(s);
        let cs = char_utf16(s[0]);
        let ct = char_utf16(t[0]);
        lemma_char_utf16(s[0]);
        lemma_char_utf16(t[0]);
        assert(es[0] == cs[0] && es[0] == ct[0]);
        assert(cs.len() == ct.len());
        if cs.len() == 2 {
            assert(es[1] == cs[1] && es[1] == ct[1]);
        }
        assert(cs =~= ct);
        lemma_char_utf16_injective(s[0], t[0]);
        assert(utf16_encode(s.drop_first()) =~= es.skip(cs.len() as int));
        assert(utf16_encode(t.drop_first()) =~= es.skip(ct.len() as int));
        lemma_utf16_round_trip(s.drop_first(), t.drop_first());
        assert(s =~= seq![s[0]] + s.drop_first());
        assert(t =~= seq![t[0]] + t.drop_first());
    }
}

/// Each value of the UTF-16 column is the encoding of the text at its row; nulls stay
/// nulls.
pub open spec fn encodes_column(texts: Seq<Option<String>>, units: Seq<Option<Vec<u16>>>) -> bool {
    &&& texts.len() == units.len()
    &&& forall|i: int|
        0 <= i < texts.len() ==> match (#[trigger] texts[i], units[i]) {
            (Some(t), Some(u)) => utf16_encode(t@) == u@,
            (None, None) => true,
            _ => false,
        }
}

/// Every value of the column is valid UTF-16.
pub open spec fn column_is_utf16(units: Seq<Option<Vec<u16>>>) -> bool {
    forall|i: int| 0 <= i < units.len() ==> (#[trigger] units[i] matches Some(u) ==> is_utf16(u@))
}

/// Copies a text column into UTF-16 transfer buffer values.
pub fn utf16_from_texts(texts: &Vec<Option<String>>) -> (r: Vec<Option<Vec<u16>>>)
    ensures
        encodes_column(texts@, r@),
{
    let mut out: Vec<Option<Vec<u16>>> = Vec::new();
    let mut i: usize = 0;
    while i < texts.len()
        invariant
            0 <= i <= texts@.len(),
            encodes_column(texts@.take(i as int), out@),
        decreases texts@.len() - i,
    {
        let value = match &texts[i] {
            Some(t) => Some(encode_utf16(t.as_str())),
            None => None,
        };
        out.push(value);
        i = i + 1;
        assert forall|j: int| 0 <= j < i implies match (
            #[trigger] texts@.take(i as int)[j],
            out@[j],
        ) {
            (Some(t), Some(u)) => utf16_encode(t@) == u@,
            (None, None) => true,
            _ => false,
        } by {
            if j < i - 1 {
                assert(texts@.take(i as int)[j] == texts@.take(i - 1)[j]);
            }
        }
    }
    assert(texts@.take(i as int) =~= texts@);
    out
}

/// Copies the values of a UTF-16 transfer buffer column into UTF-8 text. Fails if a value
/// is not valid UTF-16.
pub fn texts_from_utf16(units: &Vec<Option<Vec<u16>>>) -> (r: Option<Vec<Option<String>>>)
    ensures
        r is Some <==> column_is_utf16(units@),
        r matches Some(texts) ==> encodes_column(texts@, units@),
{
    let mut out: Vec<Option<String>> = Vec::new();
    let mut i: usize = 0;
    while i < units.len()
        invariant
            0 <= i <= units@.len(),
            encodes_column(out@, units@.take(i as int)),
            column_is_utf16(units@.take(i as int)),
        decreases units@.len() - i,
    {
        let value = match &units[i] {
            Some(u) => match decode_utf16(u.as_slice()) {
                Some(t) => Some(t),
                None => {
                    assert(units@[i as int] matches Some(u) && !is_utf16(u@));
                    return None;
                },
            },
            None => None,
        };
        proof {
            if value is Some {
                assert(utf16_encode(value.unwrap()@) == units@[i as int].unwrap()@);
                assert(is_utf16(units@[i as int].unwrap()@));
            }
        }
        out.push(value);
        i = i + 1;
        assert forall|j: int| 0 <= j < i implies match (
            #[trigger] out@[j],
            units@.take(i as int)[j],
        ) {
            (Some(t), Some(u)) => utf16_encode(t@) == u@,
            (None, None) => true,
            _ => false,
        } by {
            if j < i - 1 {
                assert(units@.take(i as int)[j] == units@.take(i - 1)[j]);
            }
        }
        assert forall|j: int| 0 <= j < i implies (#[trigger] units@.take(i as int)[j] matches Some(
            u,
        ) ==> is_utf16(u@)) by {
            if j < i - 1 {
                assert(units@.take(i as int)[j] == units@.take(i - 1)[j]);
            }
        }
    }
    assert(units@.take(i as int) =~= units@);
    Some(out)
}

/// A text column copied into UTF-16 and back comes out as it went in.
pub proof fn lemma_column_round_trip(
    texts: Seq<Option<String>>,
    units: Seq<Option<Vec<u16>>>,
    back: Seq<Option<String>>,
)
    requires
        encodes_column(texts, units),
        encodes_column(back, units),
    ensures
        column_is_utf16(units),
        back.len() == texts.len(),
        forall|i: int|
            0 <= i < texts.len() ==> match (#[trigger] texts[i], back[i]) {
                (Some(t), Some(b)) => t@ == b@,
                (None, None) => true,
                _ => false,
            },
{
    assert forall|i: int| 0 <= i < units.len() implies (#[trigger] units[i] matches Some(u)
        ==> is_utf16(u@)) by {
        if let Some(u) = units[i] {
            assert(texts[i] is Some);
            assert(utf16_encode(texts[i].unwrap()@) == u@);
        }
    }
    assert forall|i: int| 0 <= i < texts.len() implies match (#[trigger] texts[i], back[i]) {
        (Some(t), Some(b)) => t@ == b@,
        (None, None) => true,
        _ => false,
    } by {
        assert(units[i] == units[i]);
        if let (Some(t), Some(b)) = (texts[i], back[i]) {
            lemma_utf16_round_trip(t@, b@);
        }
    }
}

} // verus!
