use vstd::prelude::*;

use vstd::string::StringSliceAdditionalSpecFns;

use crate::error::Error;

verus! {

/// Index of the first nul byte of `b`, or `b.len()` where there is none.
pub open spec fn nul_index(b: Seq<u8>) -> int
    decreases b.len(),
{
    if b.len() == 0 {
        0
    } else if b[0] == 0 {
        0
    } else {
        1 + nul_index(b.drop_first())
    }
}

/// `b` holds no nul byte.
pub open spec fn is_nul_free(b: Seq<u8>) -> bool {
    forall|i: int| 0 <= i < b.len() ==> b[i] != 0
}

/// The C string for the bytes `b`: `b` with a nul byte after it, or the encoding error at
/// the first nul byte that `b` holds.
pub open spec fn c_string_of(b: Seq<u8>) -> Result<Seq<u8>, Error> {
    if nul_index(b) < b.len() {
        Err(Error::Nul(nul_index(b) as usize))
    } else {
        Ok(b.push(0))
    }
}

/// The first nul byte of `b` stands at `i` (or `b` has none and `i` is its length).
pub proof fn lemma_nul_index_at(b: Seq<u8>, i: int)
    requires
        0 <= i <= b.len(),
        forall|j: int| 0 <= j < i ==> b[j] != 0,
        i == b.len() || b[i] == 0,
    ensures
        nul_index(b) == i,
    decreases i,
{
    if i > 0 {
        lemma_nul_index_at(b.drop_first(), i - 1);
    }
}

/// `nul_index` is the length of a sequence exactly when it holds no nul byte.
pub proof fn lemma_nul_index_bounds(b: Seq<u8>)
    ensures
        0 <= nul_index(b) <= b.len(),
        nul_index(b) < b.len() ==> b[nul_index(b)] == 0,
        forall|j: int| 0 <= j < nul_index(b) ==> b[j] != 0,
        nul_index(b) == b.len() <==> is_nul_free(b),
    decreases b.len(),
{
    if b.len() > 0 && b[0] != 0 {
        let t = b.drop_first();
        lemma_nul_index_bounds(t);
        assert forall|j: int| 0 <= j < nul_index(b) implies b[j] != 0 by {
            if j > 0 {
                assert(b[j] == t[j - 1]);
            }
        }
        if nul_index(b) == b.len() {
            assert forall|i: int| 0 <= i < b.len() implies b[i] != 0 by {}
        }
        if is_nul_free(b) {
            assert forall|i: int| 0 <= i < t.len() implies t[i] != 0 by {
                assert(t[i] == b[i + 1]);
            }
        }
    }
}

/// The first nul byte of a concatenation is the first one of its head, or else the first
/// one of its tail.
pub proof fn lemma_nul_index_concat(a: Seq<u8>, b: Seq<u8>)
    ensures
        nul_index(a + b) == if nul_index(a) < a.len() {
            nul_index(a)
        } else {
            a.len() + nul_index(b)
        },
{
    let ab = a + b;
    lemma_nul_index_bounds(a);
    lemma_nul_index_bounds(b);
    if nul_index(a) < a.len() {
        lemma_nul_index_at(ab, nul_index(a));
    } else {
        assert forall|j: int| 0 <= j < a.len() + nul_index(b) implies ab[j] != 0 by {
            if j >= a.len() {
                assert(ab[j] == b[j - a.len()]);
            }
        }
        lemma_nul_index_at(ab, a.len() + nul_index(b));
    }
}

/// A byte string that can cross the C boundary: some text's bytes, then one nul byte, and
/// no nul byte before that one.
pub struct CText {
    bytes: Vec<u8>,
}

impl View for CText {
    type V = Seq<u8>;

    closed spec fn view(&self) -> Seq<u8> {
        self.bytes@
    }
}

/// Appends the bytes of `src` to `out` up to its first nul byte. Returns the position in
/// `out` at which that nul byte would have stood, or `None` where `src` holds none (and then
/// all of it was appended).
fn append_until_nul(out: &mut Vec<u8>, src: &[u8]) -> (r: Option<usize>)
    ensures
        r is None ==> nul_index(src@) == src@.len() && final(out)@ == old(out)@ + src@,
        r matches Some(p) ==> nul_index(src@) < src@.len() && p == old(out)@.len() + nul_index(
            src@,
        ),
{
    let ghost start = out@;
    let mut i: usize = 0;
    while i < src.len()
        invariant
            0 <= i <= src@.len(),
            start == old(out)@,
            out@ == start + src@.subrange(0, i as int),
            forall|j: int| 0 <= j < i ==> src@[j] != 0,
        decreases src@.len() - i,
    {
        if src[i] == 0 {
            proof {
                lemma_nul_index_at(src@, i as int);
            }
            return Some(out.len());
        }
        out.push(src[i]);
        assert(src@.subrange(0, i + 1) == src@.subrange(0, i as int).push(src@[i as int]));
        i = i + 1;
    }
    proof {
        lemma_nul_index_at(src@, i as int);
        assert(src@.subrange(0, i as int) == src@);
    }
    None
}

impl CText {
    /// The C string for `s`, or `Error::Nul` at the first nul byte that `s` holds.
    pub fn new(s: &str) -> (r: Result<CText, Error>)
        ensures
            match (r, c_string_of(s.spec_bytes())) {
                (Ok(c), Ok(b)) => c@ == b,
                (Err(e), Err(f)) => e == f,
                _ => false,
            },
    {
        let mut out: Vec<u8> = Vec::new();
        match append_until_nul(&mut out, s.as_bytes()) {
            Some(p) => Err(Error::Nul(p)),
            None => {
                out.push(0);
                assert(out@ == s.spec_bytes().push(0));
                Ok(CText { bytes: out })
            },
        }
    }

    /// The C string for the text `head` followed by `tail`, or `Error::Nul` at the first nul
    /// byte of the two together.
    pub fn concat(head: &str, tail: &str) -> (r: Result<CText, Error>)
        ensures
            match (r, c_string_of(head.spec_bytes() + tail.spec_bytes())) {
                (Ok(c), Ok(b)) => c@ == b,
                (Err(e), Err(f)) => e == f,
                _ => false,
            },
    {
        proof {
            lemma_nul_index_concat(head.spec_bytes(), tail.spec_bytes());
        }
        let mut out: Vec<u8> = Vec::new();
        match append_until_nul(&mut out, head.as_bytes()) {
            Some(p) => Err(Error::Nul(p)),
            None => match append_until_nul(&mut out, tail.as_bytes()) {
                Some(p) => Err(Error::Nul(p)),
                None => {
                    out.push(0);
                    assert(out@ == (head.spec_bytes() + tail.spec_bytes()).push(0));
                    Ok(CText { bytes: out })
                },
            },
        }
    }

    /// The bytes, nul byte included, as the engine reads them.
    pub fn as_bytes(&self) -> (r: &Vec<u8>)
        ensures
            r@ == self@,
    {
        &self.bytes
    }
}

} // verus!
