//! Names of recorded CSV files: which are safe to serve, and the listing
//! shown in the viewer.
use vstd::prelude::*;

use crate::text::chars_of;

verus! {

/// Whether std's `char::is_alphanumeric` holds of `c` (Unicode `Alphabetic`
/// or `Numeric`).
pub uninterp spec fn char_is_alphanumeric(c: char) -> bool;

pub open spec fn is_ascii_alphanumeric(c: char) -> bool {
    ('0' <= c && c <= '9') || ('A' <= c && c <= 'Z') || ('a' <= c && c <= 'z')
}

/// Calls `char::is_alphanumeric`. Its result is named, and for an ASCII
/// character it is stated: exactly the ASCII letters and digits qualify, as
/// std documents.
#[verifier::external_body]
fn alphanumeric(c: char) -> (b: bool)
    ensures
        b == char_is_alphanumeric(c),
        (c as u32) < 128 ==> (b <==> is_ascii_alphanumeric(c)),
{
    c.is_alphanumeric()
}

/// The name ends in `.csv`, in any letter case.
pub open spec fn has_csv_extension(s: Seq<char>) -> bool {
    &&& s.len() >= 4
    &&& s[s.len() - 4] == '.'
    &&& (s[s.len() - 3] == 'c' || s[s.len() - 3] == 'C')
    &&& (s[s.len() - 2] == 's' || s[s.len() - 2] == 'S')
    &&& (s[s.len() - 1] == 'v' || s[s.len() - 1] == 'V')
}

pub open spec fn has_double_dot(s: Seq<char>) -> bool {
    exists|i: int| 0 <= i < s.len() - 1 && #[trigger] s[i] == '.' && s[i + 1] == '.'
}

pub open spec fn name_char_ok(c: char) -> bool {
    char_is_alphanumeric(c) || c == '-' || c == '_' || c == '.'
}

/// A file name that may be opened under the data directory: non-empty, no
/// `..`, no path separator, a `.csv` extension, and only alphanumeric
/// characters, `-`, `_` and `.`.
pub open spec fn is_safe_csv_name(s: Seq<char>) -> bool {
    &&& s.len() > 0
    &&& !has_double_dot(s)
    &&& !s.contains('/')
    &&& !s.contains('\\')
    &&& has_csv_extension(s)
    &&& forall|i: int| 0 <= i < s.len() ==> #[trigger] name_char_ok(s[i])
}

pub open spec fn ascii_name_char_ok(c: char) -> bool {
    is_ascii_alphanumeric(c) || c == '-' || c == '_' || c == '.'
}

pub open spec fn is_ascii_text(s: Seq<char>) -> bool {
    forall|i: int| 0 <= i < s.len() ==> (#[trigger] s[i] as u32) < 128
}

/// `is_safe_csv_name` for a name of ASCII characters: only the ASCII
/// letters and digits count as alphanumeric there.
pub open spec fn is_safe_ascii_csv_name(s: Seq<char>) -> bool {
    &&& s.len() > 0
    &&& !has_double_dot(s)
    &&& !s.contains('/')
    &&& !s.contains('\\')
    &&& has_csv_extension(s)
    &&& forall|i: int| 0 <= i < s.len() ==> #[trigger] ascii_name_char_ok(s[i])
}

fn csv_extension(v: &Vec<char>) -> (b: bool)
    ensures
        b == has_csv_extension(v@),
{
    let n = v.len();
    n >= 4 && v[n - 4] == '.' && (v[n - 3] == 'c' || v[n - 3] == 'C') && (v[n - 2] == 's' || v[n
        - 2] == 'S') && (v[n - 1] == 'v' || v[n - 1] == 'V')
}

pub fn is_safe_csv_filename(name: &str) -> (b: bool)
    ensures
        b == is_safe_csv_name(name@),
        is_ascii_text(name@) ==> (b == is_safe_ascii_csv_name(name@)),
{
    let v = chars_of(name);
    let n = v.len();
    if n == 0 {
        return false;
    }
    let mut i: usize = 0;
    while i < n
        invariant
            v@ == name@,
            n == v@.len(),
            0 <= i <= n,
            forall|j: int| 0 <= j < i ==> name_char_ok(#[trigger] v@[j]),
            forall|j: int|
                0 <= j < i && (v@[j] as u32) < 128 ==> ascii_name_char_ok(#[trigger] v@[j]),
            forall|j: int| 0 <= j < i ==> #[trigger] v@[j] != '/' && v@[j] != '\\',
            forall|j: int| 0 <= j < i && j + 1 < n ==> !(#[trigger] v@[j] == '.' && v@[j + 1]
                == '.'),
        decreases n - i,
    {
        let c = v[i];
        if c == '/' || c == '\\' {
            assert(name@[i as int] == c);
            return false;
        }
        if !(alphanumeric(c) || c == '-' || c == '_' || c == '.') {
            assert(!name_char_ok(name@[i as int]));
            proof {
                if is_ascii_text(name@) {
                    assert((name@[i as int] as u32) < 128);
                    assert(!ascii_name_char_ok(name@[i as int]));
                }
            }
            return false;
        }
        if c == '.' && i + 1 < n && v[i + 1] == '.' {
            assert(name@[i as int] == '.' && name@[i + 1] == '.');
            return false;
        }
        i = i + 1;
    }
    proof {
        if name@.contains('/') {
            let j = choose|j: int| 0 <= j < name@.len() && name@[j] == '/';
            assert(v@[j] != '/');
        }
        if name@.contains('\\') {
            let j = choose|j: int| 0 <= j < name@.len() && name@[j] == '\\';
            assert(v@[j] != '\\');
        }
        if has_double_dot(name@) {
            let j = choose|j: int| 0 <= j < name@.len() - 1 && #[trigger] name@[j] == '.' && name@[j + 1] == '.';
            assert(v@[j] == '.');
        }
    }
    csv_extension(&v)
}

// ── Listing ──────────────────────────────────────────────────────────────────

/// `a` sorts before `b`: the order of `String`, which compares UTF-8 bytes
/// and so orders characters by code point, a proper prefix first.
pub open spec fn text_lt(a: Seq<char>, b: Seq<char>) -> bool
    decreases a.len(),
{
    if a.len() == 0 {
        b.len() > 0
    } else if b.len() == 0 {
        false
    } else if a[0] != b[0] {
        (a[0] as u32) < (b[0] as u32)
    } else {
        text_lt(a.drop_first(), b.drop_first())
    }
}

proof fn lemma_text_lt_transitive(a: Seq<char>, b: Seq<char>, c: Seq<char>)
    requires
        text_lt(a, b),
        text_lt(b, c),
    ensures
        text_lt(a, c),
    decreases a.len(),
{
    if a.len() > 0 && b.len() > 0 && c.len() > 0 && a[0] == b[0] && b[0] == c[0] {
        lemma_text_lt_transitive(a.drop_first(), b.drop_first(), c.drop_first());
    }
}

proof fn lemma_text_lt_irreflexive(a: Seq<char>)
    ensures
        !text_lt(a, a),
    decreases a.len(),
{
    if a.len() > 0 {
        lemma_text_lt_irreflexive(a.drop_first());
    }
}

fn text_less(a: &String, b: &String) -> (r: bool)
    ensures
        r == text_lt(a@, b@),
{
    let x = chars_of(a.as_str());
    let y = chars_of(b.as_str());
    let mut i: usize = 0;
    assert(a@.skip(0) =~= a@);
    assert(b@.skip(0) =~= b@);
    while i < x.len() && i < y.len()
        invariant
            x@ == a@,
            y@ == b@,
            0 <= i <= x@.len(),
            i <= y@.len(),
            text_lt(a@, b@) == text_lt(a@.skip(i as int), b@.skip(i as int)),
        decreases x@.len() - i,
    {
        assert(a@.skip(i as int).drop_first() =~= a@.skip(i + 1));
        assert(b@.skip(i as int).drop_first() =~= b@.skip(i + 1));
        if x[i] != y[i] {
            return (x[i] as u32) < (y[i] as u32);
        }
        i = i + 1;
    }
    i == x.len() && i < y.len()
}

/// The names with a `.csv` extension, in their order.
pub open spec fn csv_names(names: Seq<String>) -> Seq<String>
    decreases names.len(),
{
    if names.len() == 0 {
        Seq::empty()
    } else {
        csv_names(names.drop_last()) + (if has_csv_extension(names.last()@) {
            seq![names.last()]
        } else {
            Seq::empty()
        })
    }
}

pub open spec fn sorted_names(s: Seq<String>) -> bool {
    forall|i: int, j: int| 0 <= i < j < s.len() ==> !text_lt(#[trigger] s[j]@, #[trigger] s[i]@)
}

/// Inserts `x` into sorted `v` after every name that does not sort after it.
fn insert_sorted(v: &mut Vec<String>, x: String)
    requires
        sorted_names(old(v)@),
    ensures
        sorted_names(final(v)@),
        final(v)@.to_multiset() == old(v)@.to_multiset().insert(x),
{
    let n = v.len();
    let mut pos: usize = 0;
    while pos < n && !text_less(&x, &v[pos])
        invariant
            n == v@.len(),
            0 <= pos <= n,
            forall|k: int| 0 <= k < pos ==> !text_lt(x@, #[trigger] v@[k]@),
        decreases n - pos,
    {
        pos = pos + 1;
    }
    let ghost before = v@;
    proof {
        vstd::seq_lib::to_multiset_insert(before, pos as int, x);
    }
    v.insert(pos, x);
    proof {
        let after = v@;
        assert(after == before.insert(pos as int, x));
        assert forall|i: int, j: int| 0 <= i < j < after.len() implies !text_lt(
            #[trigger] after[j]@,
            #[trigger] after[i]@,
        ) by {
            if j < pos {
                assert(after[i] == before[i] && after[j] == before[j]);
            } else if j == pos {
                assert(after[i] == before[i]);
            } else if i == pos {
                assert(after[j] == before[j - 1]);
                assert(pos < n);
                assert(text_lt(x@, before[pos as int]@));
                if j - 1 > pos {
                    assert(!text_lt(before[j - 1]@, before[pos as int]@));
                } else {
                    lemma_text_lt_irreflexive(before[pos as int]@);
                }
                if text_lt(before[j - 1]@, x@) {
                    lemma_text_lt_transitive(before[j - 1]@, x@, before[pos as int]@);
                }
            } else if i < pos {
                assert(after[i] == before[i] && after[j] == before[j - 1]);
            } else {
                assert(after[i] == before[i - 1] && after[j] == before[j - 1]);
            }
        }
    }
}

/// The names shown in the CSV viewer: those with a `.csv` extension in any
/// letter case, sorted.
pub fn csv_listing(names: &Vec<String>) -> (r: Vec<String>)
    ensures
        sorted_names(r@),
        r@.to_multiset() == csv_names(names@).to_multiset(),
{
    let mut r: Vec<String> = Vec::new();
    let n = names.len();
    let mut i: usize = 0;
    while i < n
        invariant
            n == names@.len(),
            0 <= i <= n,
            sorted_names(r@),
            r@.to_multiset() == csv_names(names@.subrange(0, i as int)).to_multiset(),
        decreases n - i,
    {
        let ghost prefix = names@.subrange(0, i as int);
        let ghost next = names@.subrange(0, i + 1);
        assert(next.drop_last() =~= prefix);
        let v = chars_of(names[i].as_str());
        if csv_extension(&v) {
            let name = names[i].clone();
            insert_sorted(&mut r, name);
            proof {
                assert(next.last() == names@[i as int]);
                assert(csv_names(next) =~= csv_names(prefix).push(names@[i as int]));
                vstd::seq_lib::to_multiset_build(csv_names(prefix), names@[i as int]);
            }
        } else {
            assert(csv_names(next) =~= csv_names(prefix));
        }
        i = i + 1;
    }
    assert(names@.subrange(0, n as int) =~= names@);
    r
}

/// Names are refused when empty, when they hold a path separator or `..`, or
/// when they do not end in `.csv` in some letter case; an ASCII name is
/// accepted exactly when it also uses only letters, digits, `-`, `_` and `.`.
pub proof fn lemma_safe_name_rules(s: Seq<char>)
    ensures
        s.len() == 0 ==> !is_safe_csv_name(s),
        s.contains('/') ==> !is_safe_csv_name(s),
        s.contains('\\') ==> !is_safe_csv_name(s),
        (exists|i: int| 0 <= i < s.len() - 1 && #[trigger] s[i] == '.' && s[i + 1] == '.')
            ==> !is_safe_csv_name(s),
        !(s.len() >= 4 && s[s.len() - 4] == '.' && (s[s.len() - 3] == 'c' || s[s.len() - 3] == 'C')
            && (s[s.len() - 2] == 's' || s[s.len() - 2] == 'S') && (s[s.len() - 1] == 'v' || s[s.len()
            - 1] == 'V')) ==> !is_safe_csv_name(s),
        (exists|i: int|
            0 <= i < s.len() && !(('0' <= #[trigger] s[i] && s[i] <= '9') || ('A' <= s[i] && s[i]
                <= 'Z') || ('a' <= s[i] && s[i] <= 'z') || s[i] == '-' || s[i] == '_' || s[i] == '.'))
            ==> !is_safe_ascii_csv_name(s),
{
    if exists|i: int|
        0 <= i < s.len() && !(('0' <= #[trigger] s[i] && s[i] <= '9') || ('A' <= s[i] && s[i] <= 'Z')
            || ('a' <= s[i] && s[i] <= 'z') || s[i] == '-' || s[i] == '_' || s[i] == '.') {
        let i = choose|i: int|
            0 <= i < s.len() && !(('0' <= #[trigger] s[i] && s[i] <= '9') || ('A' <= s[i] && s[i]
                <= 'Z') || ('a' <= s[i] && s[i] <= 'z') || s[i] == '-' || s[i] == '_' || s[i] == '.');
        assert(!ascii_name_char_ok(s[i]));
    }
}

/// The listing order compares names character by character by code point:
/// the first differing character decides, and a name sorts before any longer
/// name it begins.
pub proof fn lemma_listing_order(a: char, b: char, s: Seq<char>, t: Seq<char>)
    ensures
        (a as u32) < (b as u32) ==> text_lt(seq![a] + s, seq![b] + t),
        (a as u32) > (b as u32) ==> !text_lt(seq![a] + s, seq![b] + t),
        t.len() > 0 ==> text_lt(s, s + t),
        text_lt(seq![a] + s, seq![a] + t) == text_lt(s, t),
    decreases s.len(),
{
    assert((seq![a] + s)[0] == a);
    assert((seq![b] + t)[0] == b);
    assert((seq![a] + s).drop_first() =~= s);
    assert((seq![a] + t).drop_first() =~= t);
    assert((seq![b] + t).drop_first() =~= t);
    if s.len() > 0 {
        lemma_listing_order(s[0], b, s.drop_first(), t);
        assert((s + t)[0] == s[0]);
        assert((s + t).drop_first() =~= s.drop_first() + t);
    }
}

} // verus!
