//! Character-level helpers on strings: case folding, substring search,
//! path joining and the version suffix of an archive name.
use vstd::prelude::*;

verus! {

/// What `str::to_lowercase` makes of a string: its Unicode lowercase form.
pub uninterp spec fn lower_of(s: Seq<char>) -> Seq<char>;

/// Relies on `str::to_lowercase`: the result depends on the characters of `s` alone.
#[verifier::external_body]
pub(crate) fn to_lower(s: &str) -> (r: String)
    ensures
        r@ == lower_of(s@),
{
    s.to_lowercase()
}

/// Relies on `String::push`: appends one character.
#[verifier::external_body]
fn push_char(s: &mut String, c: char)
    ensures
        final(s)@ == old(s)@.push(c),
{
    s.push(c)
}

/// `needle` stands in `hay` from index `i` on.
pub open spec fn occurs_at(hay: Seq<char>, needle: Seq<char>, i: int) -> bool {
    0 <= i && i + needle.len() <= hay.len() && hay.subrange(i, i + needle.len()) == needle
}

/// `needle` occurs as a contiguous run of characters somewhere in `hay`.
pub open spec fn occurs_in(hay: Seq<char>, needle: Seq<char>) -> bool {
    exists|i: int| #[trigger] occurs_at(hay, needle, i)
}

/// `s` is non-empty and its last character is a path separator.
pub open spec fn ends_in_separator(s: Seq<char>) -> bool {
    s.len() > 0 && s.last() == '/'
}

/// `base / part` as a path: a separator is put between the two unless `base`
/// already ends in one.
pub open spec fn join_path(base: Seq<char>, part: Seq<char>) -> Seq<char> {
    if ends_in_separator(base) {
        base + part
    } else {
        base + "/"@ + part
    }
}

/// What follows the last `-` of `s`; all of `s` when it holds no `-`.
pub open spec fn after_last_dash(s: Seq<char>) -> Seq<char>
    decreases s.len(),
{
    if s.len() == 0 {
        s
    } else if s.last() == '-' {
        Seq::empty()
    } else {
        after_last_dash(s.drop_last()).push(s.last())
    }
}

/// `s` with every path separator taken out.
pub open spec fn without_separators(s: Seq<char>) -> Seq<char> {
    s.filter(|c: char| c != '/')
}

/// The version suffix of an archive name: its last `-`-delimited token,
/// path separators stripped.
pub open spec fn version_of(name: Seq<char>) -> Seq<char> {
    without_separators(after_last_dash(name))
}

/// The characters of `s`, one per element.
fn chars_of(s: &str) -> (v: Vec<char>)
    ensures
        v@ == s@,
{
    let len = s.unicode_len();
    let mut v: Vec<char> = Vec::new();
    let mut i: usize = 0;
    while i < len
        invariant
            len == s@.len(),
            i <= len,
            v@ == s@.subrange(0, i as int),
        decreases len - i,
    {
        v.push(s.get_char(i));
        i += 1;
        assert(v@ =~= s@.subrange(0, i as int));
    }
    assert(v@ =~= s@);
    v
}

/// Whether `needle` stands in `hay` starting at index `at`.
fn matches_at(hay: &Vec<char>, needle: &Vec<char>, at: usize) -> (r: bool)
    requires
        at + needle@.len() <= hay@.len(),
    ensures
        r == (hay@.subrange(at as int, at + needle@.len()) == needle@),
{
    let hay_len = hay.len();
    let mut j: usize = 0;
    while j < needle.len()
        invariant
            hay_len == hay@.len(),
            at + needle@.len() <= hay@.len(),
            j <= needle@.len(),
            forall|k: int| 0 <= k < j ==> hay@[at + k] == needle@[k],
        decreases needle.len() - j,
    {
        if hay[at + j] != needle[j] {
            assert(hay@.subrange(at as int, at + needle@.len())[j as int] != needle@[j as int]);
            return false;
        }
        j += 1;
    }
    assert(hay@.subrange(at as int, at + needle@.len()) =~= needle@);
    true
}

/// Substring search: whether `needle` occurs in `hay`.
pub fn contains_str(hay: &str, needle: &str) -> (r: bool)
    ensures
        r == occurs_in(hay@, needle@),
{
    let h = chars_of(hay);
    let n = chars_of(needle);
    if n.len() > h.len() {
        return false;
    }
    let last = h.len() - n.len();
    let mut i: usize = 0;
    loop
        invariant
            h@ == hay@,
            n@ == needle@,
            last == h@.len() - n@.len(),
            i <= last,
            forall|k: int| 0 <= k < i ==> !#[trigger] occurs_at(hay@, needle@, k),
        decreases last - i,
    {
        if matches_at(&h, &n, i) {
            assert(occurs_at(hay@, needle@, i as int));
            return true;
        }
        if i == last {
            return false;
        }
        i += 1;
    }
}

/// Whether `s` ends in a path separator.
pub fn ends_with_separator(s: &str) -> (r: bool)
    ensures
        r == ends_in_separator(s@),
{
    let len = s.unicode_len();
    if len == 0 {
        false
    } else {
        s.get_char(len - 1) == '/'
    }
}

/// The path `base / part`.
pub fn join(base: &str, part: &str) -> (r: String)
    ensures
        r@ == join_path(base@, part@),
{
    let mut r = String::from_str(base);
    if !ends_with_separator(base) {
        r.append("/");
    }
    r.append(part);
    r
}

/// The version suffix of an archive name (see `version_of`).
pub fn version_suffix(name: &str) -> (r: String)
    ensures
        r@ == version_of(name@),
{
    let c = chars_of(name);
    let mut token: Vec<char> = Vec::new();
    let mut i: usize = 0;
    while i < c.len()
        invariant
            c@ == name@,
            i <= c@.len(),
            token@ == version_of(name@.subrange(0, i as int)),
        decreases c.len() - i,
    {
        let ch = c[i];
        proof {
            let pre = name@.subrange(0, i as int);
            let post = name@.subrange(0, i + 1);
            assert(post.drop_last() =~= pre);
            assert(post.last() == ch);
            if ch != '-' {
                after_last_dash(pre).lemma_filter_push(ch, |c: char| c != '/');
            }
        }
        if ch == '-' {
            token = Vec::new();
        } else if ch != '/' {
            token.push(ch);
        }
        i += 1;
    }
    assert(name@.subrange(0, c@.len() as int) =~= name@);
    let mut r = String::new();
    let mut j: usize = 0;
    while j < token.len()
        invariant
            j <= token@.len(),
            r@ == token@.subrange(0, j as int),
        decreases token.len() - j,
    {
        push_char(&mut r, token[j]);
        j += 1;
        assert(r@ =~= token@.subrange(0, j as int));
    }
    assert(r@ =~= token@);
    r
}

} // verus!
