use vstd::prelude::*;
use vstd::string::*;

verus! {

/// `needle` occurs in `haystack` as a contiguous run of characters.
pub open spec fn occurs_in(needle: Seq<char>, haystack: Seq<char>) -> bool {
    exists|i: int|
        0 <= i && i + needle.len() <= haystack.len() && #[trigger] haystack.subrange(
            i,
            i + needle.len(),
        ) == needle
}

/// The characters of a string, one per element.
pub fn chars_of(text: &str) -> (chars: Vec<char>)
    ensures
        chars@ == text@,
{
    let n = text.unicode_len();
    let mut chars: Vec<char> = Vec::new();
    let mut i: usize = 0;
    while i < n
        invariant
            n == text@.len(),
            i <= n,
            chars@ == text@.subrange(0, i as int),
        decreases n - i,
    {
        let c = text.get_char(i);
        chars.push(c);
        proof {
            assert(chars@ =~= text@.subrange(0, i + 1));
        }
        i = i + 1;
    }
    proof {
        assert(chars@ =~= text@);
    }
    chars
}

/// Whether `prefix` is where `text` starts.
pub fn starts_with(text: &str, prefix: &str) -> (starts: bool)
    ensures
        starts == prefix@.is_prefix_of(text@),
{
    let t = chars_of(text);
    let p = chars_of(prefix);
    if p.len() > t.len() {
        return false;
    }
    let mut i: usize = 0;
    while i < p.len()
        invariant
            p@ == prefix@,
            t@ == text@,
            p@.len() <= t@.len(),
            i <= p@.len(),
            forall|j: int| 0 <= j < i ==> p@[j] == t@[j],
        decreases p@.len() - i,
    {
        if p[i] != t[i] {
            return false;
        }
        i = i + 1;
    }
    proof {
        assert(p@ =~= t@.subrange(0, p@.len() as int));
    }
    true
}

fn matches_at(hay: &Vec<char>, needle: &Vec<char>, start: usize) -> (found: bool)
    requires
        start + needle@.len() <= hay@.len(),
    ensures
        found == (hay@.subrange(start as int, start + needle@.len()) == needle@),
{
    let mut j: usize = 0;
    while j < needle.len()
        invariant
            start + needle@.len() <= hay@.len(),
            hay@.len() == hay.len(),
            j <= needle@.len(),
            forall|k: int| 0 <= k < j ==> hay@[start + k] == needle@[k],
        decreases needle@.len() - j,
    {
        if hay[start + j] != needle[j] {
            proof {
                assert(hay@.subrange(start as int, start + needle@.len())[j as int] != needle@[j as int]);
            }
            return false;
        }
        j = j + 1;
    }
    proof {
        assert(hay@.subrange(start as int, start + needle@.len()) =~= needle@);
    }
    true
}

/// Whether `needle` occurs in `haystack`.
pub fn contains_text(haystack: &str, needle: &str) -> (found: bool)
    ensures
        found == occurs_in(needle@, haystack@),
{
    let hay = chars_of(haystack);
    let pat = chars_of(needle);
    if pat.len() > hay.len() {
        proof {
            assert forall|i: int|
                0 <= i && i + needle@.len() <= haystack@.len() implies #[trigger] haystack@.subrange(
                i,
                i + needle@.len(),
            ) != needle@ by {}
        }
        return false;
    }
    let last = hay.len() - pat.len();
    let mut start: usize = 0;
    loop
        invariant
            hay@ == haystack@,
            pat@ == needle@,
            last + pat@.len() == hay@.len(),
            start <= last,
            forall|i: int|
                0 <= i < start ==> #[trigger] haystack@.subrange(i, i + needle@.len()) != needle@,
        decreases last - start,
    {
        if matches_at(&hay, &pat, start) {
            return true;
        }
        if start == last {
            return false;
        }
        start = start + 1;
    }
}

/// Text read from the browser tab is empty when there is none; the facade
/// reports that as no value.
pub fn non_empty_text(text: String) -> (value: Option<String>)
    ensures
        text@.len() == 0 ==> value is None,
        text@.len() > 0 ==> value == Some(text),
{
    if text.as_str().unicode_len() == 0 {
        None
    } else {
        Some(text)
    }
}

/// What a page reports for text that the tab gave (its URL or title): an
/// error is passed on unchanged, and empty text is no value.
pub fn driver_text<E>(read: Result<String, E>) -> (value: Result<Option<String>, E>)
    ensures
        match read {
            Ok(text) => value == Ok::<Option<String>, E>(
                if text@.len() == 0 { None } else { Some(text) },
            ),
            Err(x) => value == Err::<Option<String>, E>(x),
        },
{
    match read {
        Ok(text) => Ok(non_empty_text(text)),
        Err(x) => Err(x),
    }
}

/// What a page answers after the tab navigated: `true` once it did; an
/// error is passed on unchanged.
pub fn driver_navigated<E>(navigated: Result<(), E>) -> (answer: Result<bool, E>)
    ensures
        match navigated {
            Ok(()) => answer == Ok::<bool, E>(true),
            Err(x) => answer == Err::<bool, E>(x),
        },
{
    match navigated {
        Ok(()) => Ok(true),
        Err(x) => Err(x),
    }
}

} // verus!
