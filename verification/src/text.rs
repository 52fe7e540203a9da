use vstd::prelude::*;
use vstd::string::*;

verus! {

/// The texts of a list of strings.
pub open spec fn texts(parts: Seq<String>) -> Seq<Seq<char>> {
    Seq::new(parts.len(), |i: int| parts[i]@)
}

/// The parts written one after another with `sep` between two neighbours.
pub open spec fn joined(parts: Seq<Seq<char>>, sep: Seq<char>) -> Seq<char>
    decreases parts.len(),
{
    if parts.len() == 0 {
        Seq::empty()
    } else if parts.len() == 1 {
        parts[0]
    } else {
        joined(parts.drop_last(), sep) + sep + parts.last()
    }
}

/// Whether two texts hold the same characters.
pub fn str_eq(a: &str, b: &str) -> (r: bool)
    ensures
        r == (a@ == b@),
{
    let x = a.as_bytes();
    let y = b.as_bytes();
    proof {
        vstd::utf8::encode_utf8_decode_utf8(a@);
        vstd::utf8::encode_utf8_decode_utf8(b@);
    }
    if x.len() != y.len() {
        return false;
    }
    let mut i: usize = 0;
    while i < x.len()
        invariant
            i <= x.len(),
            x@.len() == y@.len(),
            x@ == a.spec_bytes(),
            y@ == b.spec_bytes(),
            forall|j: int| 0 <= j < i ==> x@[j] == y@[j],
        decreases x.len() - i,
    {
        if x[i] != y[i] {
            return false;
        }
        i += 1;
    }
    assert(x@ =~= y@);
    true
}

/// A fresh string with the text of `s`.
pub fn owned(s: &str) -> (r: String)
    ensures
        r@ == s@,
{
    String::from_str(s)
}

/// A copy of a list of strings.
pub fn clone_strings(parts: &Vec<String>) -> (r: Vec<String>)
    ensures
        r@.len() == parts@.len(),
        texts(r@) == texts(parts@),
{
    let mut out: Vec<String> = Vec::new();
    let mut i: usize = 0;
    while i < parts.len()
        invariant
            i <= parts.len(),
            out@.len() == i,
            forall|j: int| 0 <= j < i ==> (#[trigger] out@[j])@ == parts@[j]@,
        decreases parts.len() - i,
    {
        out.push(parts[i].clone());
        i += 1;
    }
    assert(texts(out@) =~= texts(parts@));
    out
}

/// A copy of a string that may be missing.
pub fn clone_option(s: &Option<String>) -> (r: Option<String>)
    ensures
        r == *s,
{
    match s {
        Some(x) => Some(x.clone()),
        None => None,
    }
}

/// The strings of `parts`, with `sep` between two neighbours.
pub fn join(parts: &Vec<String>, sep: &str) -> (r: String)
    ensures
        r@ == joined(texts(parts@), sep@),
{
    let mut out = String::new();
    let mut i: usize = 0;
    while i < parts.len()
        invariant
            i <= parts.len(),
            out@ == joined(texts(parts@).take(i as int), sep@),
        decreases parts.len() - i,
    {
        proof {
            let next = texts(parts@).take(i + 1);
            assert(next.drop_last() =~= texts(parts@).take(i as int));
            assert(next.last() == parts@[i as int]@);
        }
        if i > 0 {
            out.append(sep);
        }
        out.append(parts[i].as_str());
        i += 1;
    }
    assert(texts(parts@).take(parts@.len() as int) =~= texts(parts@));
    out
}

} // verus!
