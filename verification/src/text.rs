//! Byte-level text handling for the fixed-width, NUL-padded text fields of
//! the log format: trimming padding, lossy UTF-8 conversion, and splitting
//! comma-separated label lists.
use vstd::prelude::*;

verus! {

/// The character sequence that lossy UTF-8 conversion yields for a byte
/// sequence. It depends on the bytes alone.
pub uninterp spec fn lossy_of(bytes: Seq<u8>) -> Seq<char>;

/// Relies on String::from_utf8_lossy: the result depends on the bytes
/// alone, and bytes that are valid UTF-8 (in particular, pure ASCII)
/// convert to their own characters.
#[verifier::external_body]
fn utf8_lossy(bytes: &[u8]) -> (r: String)
    ensures
        r@ == lossy_of(bytes@),
        (forall|i: int| 0 <= i < bytes@.len() ==> bytes@[i] < 128) ==> r@ == bytes@.map_values(
            |b: u8| b as char,
        ),
{
    String::from_utf8_lossy(bytes).into_owned()
}

/// `s` with every trailing NUL byte removed.
pub open spec fn spec_trim_zeros(s: Seq<u8>) -> Seq<u8>
    decreases s.len(),
{
    if s.len() > 0 && s.last() == 0u8 {
        spec_trim_zeros(s.drop_last())
    } else {
        s
    }
}

proof fn lemma_trim_zeros_take(s: Seq<u8>, n: int)
    requires
        0 <= n <= s.len(),
        forall|i: int| n <= i < s.len() ==> s[i] == 0u8,
        n == 0 || s[n - 1] != 0u8,
    ensures
        spec_trim_zeros(s) == s.take(n),
    decreases s.len(),
{
    if s.len() > n {
        assert(s.last() == 0u8);
        lemma_trim_zeros_take(s.drop_last(), n);
        assert(s.drop_last().take(n) =~= s.take(n));
    } else {
        assert(s.take(n) =~= s);
    }
}

/// The model of [`sanitize_str`]: trailing NUL padding removed, then
/// converted to characters by lossy UTF-8 decoding.
pub open spec fn spec_sanitize(s: Seq<u8>) -> Seq<char> {
    lossy_of(spec_trim_zeros(s))
}

/// Drops every trailing NUL byte of `bytes`.
pub fn trim_zeros(bytes: &[u8]) -> (r: Vec<u8>)
    ensures
        r@ == spec_trim_zeros(bytes@),
{
    let mut n: usize = bytes.len();
    while n > 0 && *vstd::slice::slice_index_get(bytes, n - 1) == 0u8
        invariant
            n <= bytes@.len(),
            forall|i: int| n <= i < bytes@.len() ==> bytes@[i] == 0u8,
        decreases n,
    {
        n = n - 1;
    }
    proof {
        lemma_trim_zeros_take(bytes@, n as int);
    }
    vstd::slice::slice_to_vec(vstd::slice::slice_subrange(bytes, 0, n))
}

/// Decodes a NUL-padded text field: trailing NUL bytes are dropped and the
/// rest is interpreted as UTF-8, replacing invalid sequences.
pub fn sanitize_str(bytes: &[u8]) -> (r: String)
    ensures
        r@ == spec_sanitize(bytes@),
{
    let head = trim_zeros(bytes);
    utf8_lossy(head.as_slice())
}

/// ASCII whitespace, as trimmed from the ends of each label.
pub open spec fn spec_is_ws(b: u8) -> bool {
    b == 32u8 || b == 9u8 || b == 10u8 || b == 13u8 || b == 11u8 || b == 12u8
}

fn is_ws(b: u8) -> (r: bool)
    ensures
        r == spec_is_ws(b),
{
    b == 32 || b == 9 || b == 10 || b == 13 || b == 11 || b == 12
}

/// `s` with leading whitespace removed.
pub open spec fn spec_trim_front(s: Seq<u8>) -> Seq<u8>
    decreases s.len(),
{
    if s.len() > 0 && spec_is_ws(s[0]) {
        spec_trim_front(s.drop_first())
    } else {
        s
    }
}

/// `s` with trailing whitespace removed.
pub open spec fn spec_trim_back(s: Seq<u8>) -> Seq<u8>
    decreases s.len(),
{
    if s.len() > 0 && spec_is_ws(s.last()) {
        spec_trim_back(s.drop_last())
    } else {
        s
    }
}

/// `s` with whitespace removed from both ends.
pub open spec fn spec_trim(s: Seq<u8>) -> Seq<u8> {
    spec_trim_back(spec_trim_front(s))
}

proof fn lemma_trim_front_skip(s: Seq<u8>, a: int)
    requires
        0 <= a <= s.len(),
        forall|i: int| 0 <= i < a ==> spec_is_ws(s[i]),
    ensures
        spec_trim_front(s) == spec_trim_front(s.skip(a)),
    decreases a,
{
    if a > 0 {
        assert(spec_is_ws(s[0]));
        assert(s.drop_first() =~= s.skip(1));
        lemma_trim_front_skip(s.skip(1), a - 1);
        assert(s.skip(1).skip(a - 1) =~= s.skip(a));
    } else {
        assert(s.skip(0) =~= s);
    }
}

proof fn lemma_trim_front_no_ws(s: Seq<u8>)
    requires
        s.len() == 0 || !spec_is_ws(s[0]),
    ensures
        spec_trim_front(s) == s,
{
}

proof fn lemma_trim_back_take(s: Seq<u8>, b: int)
    requires
        0 <= b <= s.len(),
        forall|i: int| b <= i < s.len() ==> spec_is_ws(s[i]),
        b == 0 || !spec_is_ws(s[b - 1]),
    ensures
        spec_trim_back(s) == s.take(b),
    decreases s.len(),
{
    if s.len() > b {
        assert(spec_is_ws(s.last()));
        lemma_trim_back_take(s.drop_last(), b);
        assert(s.drop_last().take(b) =~= s.take(b));
    } else {
        assert(s.take(b) =~= s);
    }
}

/// Removes ASCII whitespace from both ends of `s`.
pub fn trim_bytes(s: &Vec<u8>) -> (r: Vec<u8>)
    ensures
        r@ == spec_trim(s@),
{
    let mut a: usize = 0;
    let n: usize = s.len();
    while a < n && is_ws(s[a])
        invariant
            a <= n,
            n == s@.len(),
            forall|i: int| 0 <= i < a ==> spec_is_ws(s@[i]),
        decreases n - a,
    {
        a = a + 1;
    }
    let mut b: usize = n;
    while b > a && is_ws(s[b - 1])
        invariant
            a <= b <= n,
            n == s@.len(),
            forall|i: int| 0 <= i < a ==> spec_is_ws(s@[i]),
            forall|i: int| b <= i < s@.len() ==> spec_is_ws(s@[i]),
        decreases b,
    {
        b = b - 1;
    }
    let mut r: Vec<u8> = Vec::new();
    let mut i: usize = a;
    while i < b
        invariant
            a <= i <= b <= n,
            n == s@.len(),
            r@ == s@.subrange(a as int, i as int),
        decreases b - i,
    {
        r.push(s[i]);
        assert(r@ =~= s@.subrange(a as int, i + 1));
        i = i + 1;
    }
    proof {
        lemma_trim_front_skip(s@, a as int);
        let t = s@.skip(a as int);
        if a < b {
            assert(!spec_is_ws(s@[a as int]));
            assert(t[0] == s@[a as int]);
            lemma_trim_front_no_ws(t);
            lemma_trim_back_take(t, b - a);
            assert(t.take(b - a) =~= s@.subrange(a as int, b as int));
        } else {
            assert(b == a);
            assert(forall|i: int| 0 <= i < t.len() ==> spec_is_ws(t[i]));
            if t.len() > 0 {
                lemma_trim_front_skip(t, t.len() as int);
                assert(t.skip(t.len() as int) =~= Seq::<u8>::empty());
                lemma_trim_front_no_ws(Seq::<u8>::empty());
            }
            lemma_trim_back_take(Seq::<u8>::empty(), 0);
            assert(spec_trim(s@) =~= Seq::<u8>::empty());
            assert(r@ =~= Seq::<u8>::empty());
        }
    }
    r
}

/// The pieces of `s` split at every comma; one more piece than there are
/// commas, so an empty input yields one empty piece.
pub open spec fn spec_split_acc(s: Seq<u8>, cur: Seq<u8>) -> Seq<Seq<u8>>
    decreases s.len(),
{
    if s.len() == 0 {
        seq![cur]
    } else if s[0] == 44u8 {
        seq![cur] + spec_split_acc(s.drop_first(), Seq::empty())
    } else {
        spec_split_acc(s.drop_first(), cur.push(s[0]))
    }
}

pub open spec fn spec_split_commas(s: Seq<u8>) -> Seq<Seq<u8>> {
    spec_split_acc(s, Seq::empty())
}

/// The labels of a definition: the raw 64-byte field with its NUL padding
/// dropped, split at commas, each piece trimmed of whitespace and decoded
/// as characters.
pub open spec fn spec_labels_of(raw: Seq<u8>) -> Seq<Seq<char>> {
    spec_split_commas(spec_trim_zeros(raw)).map_values(|p: Seq<u8>| lossy_of(spec_trim(p)))
}

proof fn lemma_split_acc_step(s: Seq<u8>, cur: Seq<u8>, i: int)
    requires
        0 <= i < s.len(),
    ensures
        s[i] == 44u8 ==> spec_split_acc(s.skip(i), cur) == seq![cur] + spec_split_acc(
            s.skip(i + 1),
            Seq::empty(),
        ),
        s[i] != 44u8 ==> spec_split_acc(s.skip(i), cur) == spec_split_acc(
            s.skip(i + 1),
            cur.push(s[i]),
        ),
{
    let t = s.skip(i);
    assert(t.len() > 0);
    assert(t[0] == s[i]);
    assert(t.drop_first() =~= s.skip(i + 1));
}

/// Splits the trimmed byte form of a label list into its labels, trimming
/// whitespace from each and decoding it as text.
pub fn split_labels(raw: &[u8]) -> (r: Vec<String>)
    ensures
        r@.map_values(|l: String| l@) == spec_labels_of(raw@),
{
    let s = trim_zeros(raw);
    let ghost whole: Seq<u8> = s@;
    let mut pieces: Vec<Vec<u8>> = Vec::new();
    let mut cur: Vec<u8> = Vec::new();
    let mut i: usize = 0;
    proof {
        assert(whole.skip(0) =~= whole);
        assert(pieces@.map_values(|p: Vec<u8>| p@) =~= Seq::<Seq<u8>>::empty());
        assert(Seq::<Seq<u8>>::empty() + spec_split_acc(whole, Seq::empty()) =~= spec_split_acc(
            whole,
            Seq::empty(),
        ));
    }
    while i < s.len()
        invariant
            i <= s@.len(),
            s@ == whole,
            spec_split_commas(whole) == pieces@.map_values(|p: Vec<u8>| p@) + spec_split_acc(
                whole.skip(i as int),
                cur@,
            ),
        decreases s@.len() - i,
    {
        proof {
            lemma_split_acc_step(whole, cur@, i as int);
        }
        if s[i] == 44 {
            pieces.push(cur);
            cur = Vec::new();
            assert(pieces@.map_values(|p: Vec<u8>| p@) =~= pieces@.drop_last().map_values(
                |p: Vec<u8>| p@,
            ) + seq![pieces@.last()@]);
        } else {
            let c = s[i];
            cur.push(c);
        }
        i = i + 1;
    }
    assert(whole.skip(i as int) =~= Seq::<u8>::empty());
    pieces.push(cur);
    assert(pieces@.map_values(|p: Vec<u8>| p@) =~= pieces@.drop_last().map_values(|p: Vec<u8>| p@)
        + seq![pieces@.last()@]);
    let ghost piece_seqs = pieces@.map_values(|p: Vec<u8>| p@);
    assert(spec_split_commas(whole) =~= piece_seqs);
    let mut r: Vec<String> = Vec::new();
    let mut j: usize = 0;
    while j < pieces.len()
        invariant
            j <= pieces@.len(),
            piece_seqs == pieces@.map_values(|p: Vec<u8>| p@),
            r@.map_values(|l: String| l@) =~= piece_seqs.take(j as int).map_values(
                |p: Seq<u8>| lossy_of(spec_trim(p)),
            ),
        decreases pieces@.len() - j,
    {
        let t = trim_bytes(&pieces[j]);
        let lab = utf8_lossy(t.as_slice());
        r.push(lab);
        assert(piece_seqs.take(j + 1).map_values(|p: Seq<u8>| lossy_of(spec_trim(p)))
            =~= piece_seqs.take(j as int).map_values(|p: Seq<u8>| lossy_of(spec_trim(p))) + seq![
            lossy_of(spec_trim(piece_seqs[j as int])),
        ]);
        assert(r@.map_values(|l: String| l@) =~= r@.drop_last().map_values(|l: String| l@) + seq![
            r@.last()@,
        ]);
        j = j + 1;
    }
    proof {
        assert(piece_seqs.take(pieces@.len() as int) =~= piece_seqs);
        assert(r@.map_values(|l: String| l@) =~= spec_labels_of(raw@));
    }
    r
}

} // verus!
