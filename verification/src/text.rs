//! Character-level text scanning: splitting on a separator character and
//! substring search, verified against recursive specifications.

use vstd::prelude::*;
use vstd::string::*;

verus! {

/// The characters of `s`, as a vector.
pub fn chars_of(s: &str) -> (r: Vec<char>)
    ensures
        r@ == s@,
{
    let n: usize = s.unicode_len();
    let mut r: Vec<char> = Vec::new();
    let mut i: usize = 0;
    while i < n
        invariant
            i <= n,
            n == s@.len(),
            r@ == s@.subrange(0, i as int),
        decreases n - i,
    {
        r.push(s.get_char(i));
        proof {
            assert(s@.subrange(0, i + 1) =~= s@.subrange(0, i as int) + seq![s@[i as int]]);
        }
        i = i + 1;
    }
    proof {
        assert(s@.subrange(0, n as int) =~= s@);
    }
    r
}

/// Relies on `String::from_iter`: the string made of exactly the given
/// characters, in order.
#[verifier::external_body]
pub(crate) fn string_from_chars(v: &Vec<char>) -> (r: String)
    ensures
        r@ == v@,
{
    String::from_iter(v.iter())
}

/// The fields of `s` separated by the character `d`. There is always at
/// least one field; the characters before the first separator form the
/// first one, and a separator at the very end yields a final empty field.
pub open spec fn split_char(s: Seq<char>, d: char) -> Seq<Seq<char>>
    decreases s.len(),
{
    if s.len() == 0 {
        seq![Seq::<char>::empty()]
    } else {
        let rest = split_char(s.drop_first(), d);
        if s.first() == d {
            seq![Seq::<char>::empty()] + rest
        } else {
            seq![seq![s.first()] + rest.first()] + rest.drop_first()
        }
    }
}

pub proof fn lemma_split_char_len(s: Seq<char>, d: char)
    ensures
        split_char(s, d).len() >= 1,
    decreases s.len(),
{
    if s.len() > 0 {
        lemma_split_char_len(s.drop_first(), d);
    }
}

/// Splits `v` into its fields separated by `d`.
pub fn split_chars(v: &Vec<char>, d: char) -> (r: Vec<Vec<char>>)
    ensures
        r@.len() == split_char(v@, d).len(),
        forall|k: int| 0 <= k < r@.len() ==> #[trigger] r@[k]@ == split_char(v@, d)[k],
{
    let mut fields: Vec<Vec<char>> = Vec::new();
    fields.push(Vec::new());
    let mut i: usize = v.len();
    proof {
        assert(v@.subrange(v@.len() as int, v@.len() as int) =~= Seq::<char>::empty());
    }
    while i > 0
        invariant
            i <= v@.len(),
            fields@.len() >= 1,
            fields@.len() == split_char(v@.subrange(i as int, v@.len() as int), d).len(),
            forall|k: int|
                0 <= k < fields@.len() ==> #[trigger] fields@[k]@ == split_char(
                    v@.subrange(i as int, v@.len() as int),
                    d,
                )[k],
        decreases i,
    {
        let ghost tail = v@.subrange(i as int, v@.len() as int);
        let ghost cur = v@.subrange(i - 1, v@.len() as int);
        proof {
            lemma_split_char_len(tail, d);
            assert(cur.first() == v@[i - 1]);
            assert(cur.drop_first() =~= tail);
        }
        let c = v[i - 1];
        if c == d {
            fields.insert(0, Vec::new());
            proof {
                let now = split_char(cur, d);
                assert(now =~= seq![Seq::<char>::empty()] + split_char(tail, d));
                assert forall|k: int| 0 <= k < fields@.len() implies #[trigger] fields@[k]@
                    == now[k] by {
                    if k > 0 {
                        assert(fields@[k] == fields@.subrange(1, fields@.len() as int)[k - 1]);
                    }
                }
            }
        } else {
            let mut first = fields.remove(0);
            first.insert(0, c);
            fields.insert(0, first);
            proof {
                let rest = split_char(tail, d);
                let now = split_char(cur, d);
                assert(now =~= seq![seq![cur.first()] + rest.first()] + rest.drop_first());
                assert(first@ =~= seq![c] + rest.first());
                assert forall|k: int| 0 <= k < fields@.len() implies #[trigger] fields@[k]@
                    == now[k] by {
                    if k > 0 {
                        assert(now[k] == rest[k]);
                    }
                }
            }
        }
        i = i - 1;
    }
    proof {
        assert(v@.subrange(0, v@.len() as int) =~= v@);
    }
    fields
}

/// `pat` occurs in `s` starting at position `i`.
pub open spec fn contains_at(s: Seq<char>, pat: Seq<char>, i: int) -> bool {
    0 <= i && i + pat.len() <= s.len() && s.subrange(i, i + pat.len()) == pat
}

/// `pat` occurs somewhere in `s`.
pub open spec fn contains_seq(s: Seq<char>, pat: Seq<char>) -> bool {
    exists|i: int| contains_at(s, pat, i)
}

/// Whether `pat` occurs in `hay`.
pub fn contains_chars(hay: &Vec<char>, pat: &Vec<char>) -> (r: bool)
    ensures
        r == contains_seq(hay@, pat@),
{
    if pat.len() == 0 {
        proof {
            assert(hay@.subrange(0, 0) =~= pat@);
            assert(contains_at(hay@, pat@, 0));
        }
        return true;
    }
    if pat.len() > hay.len() {
        proof {
            assert forall|t: int| !contains_at(hay@, pat@, t) by {}
        }
        return false;
    }
    let end: usize = hay.len() - pat.len();
    let mut i: usize = 0;
    while i <= end
        invariant
            1 <= pat@.len() <= hay@.len(),
            hay@.len() <= usize::MAX,
            end == hay@.len() - pat@.len(),
            i <= end + 1,
            forall|t: int| 0 <= t < i ==> !contains_at(hay@, pat@, t),
        decreases end + 1 - i,
    {
        let mut j: usize = 0;
        while j < pat.len() && hay[i + j] == pat[j]
            invariant
                1 <= pat@.len() <= hay@.len(),
                hay@.len() <= usize::MAX,
                i + pat@.len() <= hay@.len(),
                j <= pat@.len(),
                forall|u: int| 0 <= u < j ==> hay@[i + u] == pat@[u],
            decreases pat@.len() - j,
        {
            j = j + 1;
        }
        if j == pat.len() {
            proof {
                assert(hay@.subrange(i as int, i + pat@.len()) =~= pat@);
                assert(contains_at(hay@, pat@, i as int));
            }
            return true;
        }
        proof {
            assert(!contains_at(hay@, pat@, i as int)) by {
                if contains_at(hay@, pat@, i as int) {
                    assert(hay@.subrange(i as int, i + pat@.len())[j as int] == pat@[j as int]);
                }
            }
        }
        i = i + 1;
    }
    proof {
        assert forall|t: int| !contains_at(hay@, pat@, t) by {
            if 0 <= t < i {
            }
        }
    }
    false
}

} // verus!
