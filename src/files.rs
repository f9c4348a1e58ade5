//! File names: the final component of a path, its stem and extension, and
//! the sanitized name under which an imported video is stored.

use vstd::prelude::*;
use crate::text::push_char;

verus! {

/// The final component of a path, as `std::path::Path::file_name` gives it.
pub uninterp spec fn file_name_of(path: Seq<char>) -> Option<Seq<char>>;

/// The path `base` joined with `part`, as `std::path::Path::join` gives it.
pub uninterp spec fn joined_path(base: Seq<char>, part: Seq<char>) -> Seq<char>;

/// Whether `char::is_alphanumeric` holds of `c`.
pub uninterp spec fn alphanumeric(c: char) -> bool;

/// Relies on `std::path::Path::file_name`: the final component, if the path
/// has one. A path that came from a `&str` is valid UTF-8, so the lossy
/// conversion keeps every character.
#[verifier::external_body]
pub(crate) fn path_file_name(path: &str) -> (r: Option<String>)
    ensures
        file_name_of(path@) == (match r {
            Some(n) => Some(n@),
            None => None,
        }),
{
    match std::path::Path::new(path).file_name() {
        Some(n) => Some(n.to_string_lossy().into_owned()),
        None => None,
    }
}

/// Relies on `std::path::Path::join`: `part` appended to `base`.
#[verifier::external_body]
pub(crate) fn join_path(base: &str, part: &str) -> (r: String)
    ensures
        r@ == joined_path(base@, part@),
{
    std::path::Path::new(base).join(part).to_string_lossy().into_owned()
}

/// Relies on `char::is_alphanumeric`: Unicode letters and numbers.
#[verifier::external_body]
fn char_is_alphanumeric(c: char) -> (r: bool)
    ensures
        r == alphanumeric(c),
{
    c.is_alphanumeric()
}

/// The position of the last `c` in `s`.
pub open spec fn last_index_of(s: Seq<char>, c: char) -> Option<int>
    decreases s.len(),
{
    if s.len() == 0 {
        None
    } else if s.last() == c {
        Some(s.len() - 1)
    } else {
        last_index_of(s.drop_last(), c)
    }
}

proof fn lemma_last_index_of_bounds(s: Seq<char>, c: char)
    ensures
        last_index_of(s, c) matches Some(i) ==> 0 <= i < s.len() && s[i] == c,
    decreases s.len(),
{
    if s.len() > 0 && s.last() != c {
        lemma_last_index_of_bounds(s.drop_last(), c);
    }
}

proof fn lemma_extension_dot_bounds(name: Seq<char>)
    ensures
        extension_dot(name) matches Some(k) ==> 0 < k < name.len() && name[k] == '.',
{
    lemma_last_index_of_bounds(name, '.');
}

/// The dot that separates a file name's stem from its extension, where std's
/// `Path::file_stem` and `Path::extension` split it: the last dot, unless it
/// opens the name or the name is `..`.
pub open spec fn extension_dot(name: Seq<char>) -> Option<int> {
    let d = last_index_of(name, '.');
    if d is Some && d->0 > 0 && name != seq!['.', '.'] {
        d
    } else {
        None
    }
}

/// A file name without its extension.
pub open spec fn stem_of(name: Seq<char>) -> Seq<char> {
    match extension_dot(name) {
        Some(k) => name.take(k),
        None => name,
    }
}

/// The stem of a path's final component; empty where it has none.
pub open spec fn path_stem(path: Seq<char>) -> Seq<char> {
    match file_name_of(path) {
        Some(n) => stem_of(n),
        None => seq![],
    }
}

/// A character that a sanitized name keeps: a letter or digit, `-` or `_`.
/// A dot is never kept, so the one before the extension stays the only one.
pub open spec fn kept_char(c: char) -> bool {
    c == '-' || c == '_' || (c != '.' && alphanumeric(c))
}

pub open spec fn sanitized_char(c: char) -> char {
    if kept_char(c) {
        c
    } else {
        '_'
    }
}

/// Every character that is not kept replaced by `_`.
pub open spec fn cleaned(s: Seq<char>) -> Seq<char> {
    s.map_values(|c: char| sanitized_char(c))
}

/// The name under which an imported file is stored: its stem and its
/// extension cleaned, joined by one dot.
pub open spec fn sanitized_file_name(name: Seq<char>) -> Seq<char> {
    match extension_dot(name) {
        Some(k) => cleaned(name.take(k)) + seq!['.'] + cleaned(name.skip(k + 1)),
        None => cleaned(name) + seq!['.'],
    }
}

fn kept(c: char) -> (r: bool)
    ensures
        r == kept_char(c),
{
    c == '-' || c == '_' || (c != '.' && char_is_alphanumeric(c))
}

/// The position of the dot before the extension of `name`, if it has one.
pub fn find_extension_dot(name: &str) -> (r: Option<usize>)
    ensures
        match r {
            Some(k) => extension_dot(name@) == Some(k as int),
            None => extension_dot(name@) is None,
        },
{
    let n = name.unicode_len();
    let mut last: Option<usize> = None;
    let mut i: usize = 0;
    let mut all_dots = true;
    for c in it: name.chars()
        invariant
            it.seq() == name@,
            n == name@.len(),
            i == it.index(),
            match last {
                Some(k) => last_index_of(name@.take(i as int), '.') == Some(k as int),
                None => last_index_of(name@.take(i as int), '.') is None,
            },
            all_dots <==> forall|j: int| 0 <= j < i ==> name@[j] == '.',
    {
        assert(name@.take(i as int + 1).drop_last() =~= name@.take(i as int));
        assert(name@.take(i as int + 1).last() == c);
        if c == '.' {
            last = Some(i);
        } else {
            all_dots = false;
        }
        i = i + 1;
    }
    assert(name@.take(n as int) =~= name@);
    match last {
        Some(k) => {
            if k == 0 {
                None
            } else if n == 2 && all_dots {
                assert(name@ =~= seq!['.', '.']);
                None
            } else {
                assert(name@ != seq!['.', '.']) by {
                    if name@ == seq!['.', '.'] {
                        assert(name@[0] == '.' && name@[1] == '.');
                    }
                }
                Some(k)
            }
        },
        None => None,
    }
}


/// The name under which an imported file is stored: every character of its
/// stem and extension that is not a letter, digit, `-` or `_` becomes `_`,
/// and one dot joins the two (a name without extension ends in that dot).
pub fn sanitize_file_name(name: &str) -> (r: String)
    ensures
        r@ == sanitized_file_name(name@),
{
    proof {
        lemma_extension_dot_bounds(name@);
    }
    let n = name.unicode_len();
    let dot = find_extension_dot(name);
    let mut r = String::new();
    let mut i: usize = 0;
    for c in it: name.chars()
        invariant
            it.seq() == name@,
            i == it.index(),
            n == name@.len(),
            match dot {
                Some(k) => extension_dot(name@) == Some(k as int),
                None => extension_dot(name@) is None,
            },
            r@.len() == i,
            forall|j: int|
                0 <= j < i ==> r@[j] == (if dot == Some(j as usize) {
                    '.'
                } else {
                    sanitized_char(name@[j])
                }),
    {
        if dot == Some(i) {
            push_char(&mut r, '.');
        } else if kept(c) {
            push_char(&mut r, c);
        } else {
            push_char(&mut r, '_');
        }
        i = i + 1;
    }
    if dot.is_none() {
        push_char(&mut r, '.');
    }
    assert(r@ =~= sanitized_file_name(name@));
    r
}

/// The stem of the final component of `path`, the empty string where the
/// path has no final component.
pub fn file_stem(path: &str) -> (r: String)
    ensures
        r@ == path_stem(path@),
{
    match path_file_name(path) {
        Some(name) => {
            proof {
                lemma_extension_dot_bounds(name@);
            }
            let n = name.as_str().unicode_len();
            let dot = find_extension_dot(name.as_str());
            let mut r = String::new();
            let mut i: usize = 0;
            for c in it: name.as_str().chars()
                invariant
                    it.seq() == name@,
                    i == it.index(),
                    n == name@.len(),
                    match dot {
                        Some(k) => extension_dot(name@) == Some(k as int),
                        None => extension_dot(name@) is None,
                    },
                    r@ == (match dot {
                        Some(k) => name@.take(if i < k { i as int } else { k as int }),
                        None => name@.take(i as int),
                    }),
            {
                let keep = match dot {
                    Some(k) => i < k,
                    None => true,
                };
                assert(name@.take(i as int + 1) =~= name@.take(i as int).push(c));
                if keep {
                    push_char(&mut r, c);
                }
                i = i + 1;
            }
            assert(name@.take(name@.len() as int) =~= name@);
            r
        },
        None => String::new(),
    }
}

proof fn lemma_last_index_of_append(s: Seq<char>, t: Seq<char>, c: char)
    requires
        forall|j: int| 0 <= j < t.len() ==> t[j] != c,
    ensures
        last_index_of(s + t, c) == last_index_of(s, c),
    decreases t.len(),
{
    if t.len() > 0 {
        assert((s + t).drop_last() =~= s + t.drop_last());
        lemma_last_index_of_append(s, t.drop_last(), c);
    } else {
        assert(s + t =~= s);
    }
}

proof fn lemma_cleaned_chars_are_kept(s: Seq<char>)
    ensures
        cleaned(s).len() == s.len(),
        forall|j: int| 0 <= j < s.len() ==> kept_char(#[trigger] cleaned(s)[j]),
{
}

/// What sanitizing leaves: exactly one dot, after a non-empty stem, and
/// otherwise only letters, digits, `-` and `_`.
pub proof fn lemma_sanitized_name_shape(name: Seq<char>)
    requires
        name.len() > 0,
    ensures
        ({
            let r = sanitized_file_name(name);
            let k = stem_of(name).len() as int;
            &&& 0 < k < r.len()
            &&& r[k] == '.'
            &&& forall|j: int| 0 <= j < r.len() && j != k ==> kept_char(#[trigger] r[j])
        }),
{
    let r = sanitized_file_name(name);
    lemma_extension_dot_bounds(name);
    match extension_dot(name) {
        Some(k) => {
            lemma_cleaned_chars_are_kept(name.take(k));
            lemma_cleaned_chars_are_kept(name.skip(k + 1));
            assert forall|j: int| 0 <= j < r.len() && j != k implies kept_char(#[trigger] r[j]) by {
                if j < k {
                    assert(r[j] == cleaned(name.take(k))[j]);
                } else {
                    assert(r[j] == cleaned(name.skip(k + 1))[j - k - 1]);
                }
            }
        },
        None => {
            lemma_cleaned_chars_are_kept(name);
            assert forall|j: int| 0 <= j < r.len() && j != name.len() implies kept_char(#[trigger] r[j]) by {
                assert(r[j] == cleaned(name)[j]);
            }
        },
    }
}

/// Sanitizing a sanitized name changes nothing.
pub proof fn lemma_sanitize_idempotent(name: Seq<char>)
    requires
        name.len() > 0,
    ensures
        sanitized_file_name(sanitized_file_name(name)) == sanitized_file_name(name),
{
    let r = sanitized_file_name(name);
    let k = stem_of(name).len() as int;
    lemma_sanitized_name_shape(name);
    let a = r.take(k);
    let b = r.skip(k + 1);
    assert(r =~= a.push('.') + b);
    assert(forall|j: int| 0 <= j < b.len() ==> b[j] == r[k + 1 + j]);
    assert(forall|j: int| 0 <= j < b.len() ==> b[j] != '.');
    lemma_last_index_of_append(a.push('.'), b, '.');
    assert(last_index_of(a.push('.'), '.') == Some(k));
    assert(r != seq!['.', '.']) by {
        if r == seq!['.', '.'] {
            assert(r[0] != '.');
        }
    }
    assert(extension_dot(r) == Some(k));
    assert(r.take(k) =~= a);
    assert(r.skip(k + 1) =~= b);
    assert(cleaned(a) =~= a);
    assert(cleaned(b) =~= b);
}

} // verus!
