//! String helpers shared by the resolvers.

use vstd::prelude::*;
use vstd::string::*;

verus! {

/// `s` with a `/` appended unless it already ends with one.
pub open spec fn with_trailing_slash(s: Seq<char>) -> Seq<char> {
    if s.len() > 0 && s.last() == '/' {
        s
    } else {
        s.push('/')
    }
}

/// Makes a URL or prefix end with `/`, so that it can be joined with a path.
pub fn ensure_trailing_slash(s: String) -> (r: String)
    ensures
        r@ == with_trailing_slash(s@),
{
    let n = s.as_str().unicode_len();
    if n > 0 && s.as_str().get_char(n - 1) == '/' {
        s
    } else {
        let r = s.concat("/");
        proof {
            reveal_strlit("/");
            assert(r@ =~= s@.push('/'));
        }
        r
    }
}


/// The characters of the Unicode property `White_Space`, which is what
/// `char::is_whitespace` and `str::trim` go by.
pub open spec fn is_white_space(c: char) -> bool {
    let u = c as int;
    ||| 0x09 <= u <= 0x0D
    ||| u == 0x20
    ||| u == 0x85
    ||| u == 0xA0
    ||| u == 0x1680
    ||| 0x2000 <= u <= 0x200A
    ||| u == 0x2028
    ||| u == 0x2029
    ||| u == 0x202F
    ||| u == 0x205F
    ||| u == 0x3000
}

/// `s` without its leading white space.
pub open spec fn trim_start(s: Seq<char>) -> Seq<char>
    decreases s.len(),
{
    if s.len() > 0 && is_white_space(s[0]) {
        trim_start(s.drop_first())
    } else {
        s
    }
}

/// `s` without its trailing white space.
pub open spec fn trim_end(s: Seq<char>) -> Seq<char>
    decreases s.len(),
{
    if s.len() > 0 && is_white_space(s.last()) {
        trim_end(s.drop_last())
    } else {
        s
    }
}

/// `s` without leading and trailing white space.
pub open spec fn trimmed(s: Seq<char>) -> Seq<char> {
    trim_end(trim_start(s))
}

/// The contents of an optional text, the empty text when there is none.
pub open spec fn or_empty(o: Option<Seq<char>>) -> Seq<char> {
    match o {
        Some(t) => t,
        None => Seq::empty(),
    }
}

/// The view of an optional `String`.
pub open spec fn opt_view(o: &Option<String>) -> Option<Seq<char>> {
    match o {
        Some(t) => Some(t@),
        None => None,
    }
}

/// After the leading white space is gone, the first character (if any) is not
/// white space.
pub proof fn lemma_trim_start_first(s: Seq<char>)
    ensures
        trim_start(s).len() > 0 ==> !is_white_space(trim_start(s)[0]),
    decreases s.len(),
{
    if s.len() > 0 && is_white_space(s[0]) {
        lemma_trim_start_first(s.drop_first());
    }
}

/// Removing trailing white space leaves a prefix, which keeps a first
/// character that is not white space, and whose last character (if any) is not
/// white space.
pub proof fn lemma_trim_end_prefix(t: Seq<char>)
    ensures
        trim_end(t).len() <= t.len(),
        forall|i: int| 0 <= i < trim_end(t).len() ==> trim_end(t)[i] == t[i],
        t.len() > 0 && !is_white_space(t[0]) ==> trim_end(t).len() > 0,
        trim_end(t).len() > 0 ==> !is_white_space(trim_end(t).last()),
    decreases t.len(),
{
    if t.len() > 0 && is_white_space(t.last()) {
        lemma_trim_end_prefix(t.drop_last());
        assert forall|i: int| 0 <= i < trim_end(t).len() implies trim_end(t)[i] == t[i] by {
            assert(t.drop_last()[i] == t[i]);
        }
    }
}

/// Trimming twice is trimming once.
pub proof fn lemma_trimmed_idempotent(s: Seq<char>)
    ensures
        trimmed(trimmed(s)) == trimmed(s),
{
    let a = trim_start(s);
    let b = trim_end(a);
    lemma_trim_start_first(s);
    lemma_trim_end_prefix(a);
    if b.len() > 0 {
        assert(b[0] == a[0]);
    }
    assert(trim_start(b) == b);
    assert(trim_end(b) == b);
}

/// `str::trim`: the slice of `s` without leading and trailing characters of
/// the Unicode property `White_Space`, as std documents it.
#[verifier::external_body]
pub(crate) fn trim_white_space(s: &str) -> (r: &str)
    ensures
        r@ == trimmed(s@),
{
    s.trim()
}

/// Whether `a` holds exactly the characters of `b`.
pub(crate) fn same_text(a: &String, b: &str) -> (r: bool)
    ensures
        r == (a@ == b@),
{
    let other = String::from_str(b);
    *a == other
}

/// A copy of an optional `String`.
pub(crate) fn copy_opt_string(o: &Option<String>) -> (r: Option<String>)
    ensures
        opt_view(&r) == opt_view(o),
{
    match o {
        Some(t) => Some(t.clone()),
        None => None,
    }
}

/// The text of an optional `String`, or an empty `String` when there is none.
pub(crate) fn string_or_empty(o: &Option<String>) -> (r: String)
    ensures
        r@ == or_empty(opt_view(o)),
{
    match o {
        Some(t) => t.clone(),
        None => String::new(),
    }
}

} // verus!
