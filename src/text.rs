use vstd::prelude::*;
use vstd::string::{StrSliceExecFns, StringExecFns};

verus! {

/// What `str::to_lowercase` makes of a character sequence.
pub uninterp spec fn lower_of(s: Seq<char>) -> Seq<char>;

/// The sequence with every space character left out.
pub open spec fn strip_spaces(s: Seq<char>) -> Seq<char> {
    s.filter(|c: char| c != ' ')
}

/// The form in which player names are compared: lower case, no spaces.
pub open spec fn normalized(s: Seq<char>) -> Seq<char> {
    strip_spaces(lower_of(s))
}

/// `p` occurs in `s` as a run of consecutive characters.
pub open spec fn occurs_in(p: Seq<char>, s: Seq<char>) -> bool {
    exists|i: int| 0 <= i && i + p.len() <= s.len() && #[trigger] s.subrange(i, i + p.len()) == p
}

/// Relies on `str::to_lowercase`: the lower-case form depends on the
/// characters alone.
#[verifier::external_body]
pub(crate) fn lowercase(s: &str) -> (r: String)
    ensures
        r@ == lower_of(s@),
{
    s.to_lowercase()
}

proof fn lemma_strip_push(p: Seq<char>, c: char)
    ensures
        strip_spaces(p.push(c)) == if c != ' ' {
            strip_spaces(p).push(c)
        } else {
            strip_spaces(p)
        },
{
    reveal(Seq::filter);
    let q = p.push(c);
    assert(q.drop_last() =~= p);
    assert(q.last() == c);
    assert(q.len() > 0);
    assert(q.filter(|x: char| x != ' ') == if c != ' ' {
        q.drop_last().filter(|x: char| x != ' ').push(c)
    } else {
        q.drop_last().filter(|x: char| x != ' ')
    });
}

/// `s` with every space removed; the other characters keep their order.
pub fn remove_spaces(s: &str) -> (r: String)
    ensures
        r@ == strip_spaces(s@),
{
    let n = s.unicode_len();
    let mut r = String::from_str("");
    proof {
        reveal_strlit("");
        reveal(Seq::filter);
        assert(s@.subrange(0, 0).len() == 0);
    }
    let mut i: usize = 0;
    while i < n
        invariant
            n == s@.len(),
            0 <= i <= n,
            r@ == strip_spaces(s@.subrange(0, i as int)),
        decreases n - i,
    {
        let c = s.get_char(i);
        let ghost prefix = s@.subrange(0, i as int);
        proof {
            assert(s@.subrange(0, i + 1) =~= prefix.push(c));
            lemma_strip_push(prefix, c);
        }
        if c != ' ' {
            r.append(s.substring_char(i, i + 1));
            assert(s@.subrange(i as int, i + 1) =~= seq![c]);
            assert(r@ =~= strip_spaces(prefix).push(c));
        }
        i = i + 1;
    }
    assert(s@.subrange(0, n as int) =~= s@);
    r
}

/// The characters of `s`, in order.
fn chars_of(s: &str) -> (r: Vec<char>)
    ensures
        r@ == s@,
{
    let n = s.unicode_len();
    let mut r: Vec<char> = Vec::new();
    let mut i: usize = 0;
    while i < n
        invariant
            n == s@.len(),
            0 <= i <= n,
            r@ == s@.subrange(0, i as int),
        decreases n - i,
    {
        r.push(s.get_char(i));
        i = i + 1;
        assert(r@ =~= s@.subrange(0, i as int));
    }
    assert(r@ =~= s@);
    r
}

/// Whether `p` occurs in `s` as a run of consecutive characters.
pub fn contains_text(s: &str, p: &str) -> (r: bool)
    ensures
        r == occurs_in(p@, s@),
{
    let t = chars_of(s);
    let q = chars_of(p);
    if q.len() > t.len() {
        return false;
    }
    let tl: usize = t.len();
    let last: usize = tl - q.len();
    let mut i: usize = 0;
    while i <= last
        invariant
            t@ == s@,
            q@ == p@,
            last == t@.len() - q@.len(),
            tl == t@.len(),
            0 <= i <= last + 1,
            forall|k: int| 0 <= k < i ==> #[trigger] t@.subrange(k, k + q@.len()) != q@,
        decreases last + 1 - i,
    {
        let mut j: usize = 0;
        let mut same = true;
        while same && j < q.len()
            invariant
                t@ == s@,
                q@ == p@,
                i <= last,
                last == t@.len() - q@.len(),
                i + q@.len() <= t@.len(),
                tl == t@.len(),
                0 <= j <= q@.len(),
                forall|m: int| 0 <= m < j ==> t@[i + m] == q@[m],
                !same ==> j < q@.len() && t@[i + j] != q@[j as int],
            decreases q@.len() - j + if same { 1int } else { 0int },
        {
            if t[i + j] == q[j] {
                j = j + 1;
            } else {
                same = false;
            }
        }
        if same {
            assert(t@.subrange(i as int, i + q@.len()) =~= q@);
            return true;
        }
        assert(t@.subrange(i as int, i + q@.len())[j as int] != q@[j as int]);
        if i == last {
            return false;
        }
        i = i + 1;
    }
    false
}

/// `s` in lower case with its spaces removed.
pub fn normalize(s: &str) -> (r: String)
    ensures
        r@ == normalized(s@),
{
    let lower = lowercase(s);
    remove_spaces(lower.as_str())
}

} // verus!
