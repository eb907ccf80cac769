//! String helpers shared by the rule chain.

use vstd::prelude::*;
use vstd::string::*;

verus! {

/// The lower-cased form of a text, as `str::to_lowercase` computes it.
pub uninterp spec fn lowercase(text: Seq<char>) -> Seq<char>;

/// The extension of a file name: what follows the last dot, where a dot
/// stands behind the first character. A name without a dot has none, nor has
/// one whose only dot comes first, nor has `..`. The name is taken as one
/// file name: a separator in it gets no special treatment.
pub open spec fn extension(name: Seq<char>) -> Option<Seq<char>> {
    match name.index_of_last('.') {
        Some(at) => if at > 0 && name != seq!['.', '.'] {
            Some(name.subrange(at + 1, name.len() as int))
        } else {
            None
        },
        None => None,
    }
}

/// An ASCII letter or digit.
pub open spec fn is_ascii_alphanumeric(c: char) -> bool {
    ('0' <= c && c <= '9') || ('a' <= c && c <= 'z') || ('A' <= c && c <= 'Z')
}

/// A well-formed pick code: exactly 17 ASCII letters and digits.
pub open spec fn valid_pickcode(code: Seq<char>) -> bool {
    &&& code.len() == 17
    &&& forall|i: int| 0 <= i < code.len() ==> is_ascii_alphanumeric(#[trigger] code[i])
}

/// The texts that occur in a list.
pub open spec fn text_set(list: Seq<String>) -> Set<Seq<char>> {
    Set::new(|t: Seq<char>| exists|i: int| 0 <= i < list.len() && #[trigger] list[i]@ == t)
}

/// The views of the texts of a list, in order.
pub open spec fn text_seq(list: Seq<String>) -> Seq<Seq<char>> {
    Seq::new(list.len(), |i: int| list[i]@)
}

/// The suffix a name is judged by: a dot followed by the lower-cased
/// extension, or the empty text when the name has no extension.
pub open spec fn suffix_of(name: Seq<char>) -> Seq<char> {
    match extension(name) {
        Some(ext) => seq!['.'] + lowercase(ext),
        None => Seq::empty(),
    }
}

/// Calls `str::starts_with` with a string pattern: true exactly when
/// `prefix` is an initial segment of `text`.
#[verifier::external_body]
pub(crate) fn has_prefix(text: &str, prefix: &str) -> (r: bool)
    ensures
        r == prefix@.is_prefix_of(text@),
{
    text.starts_with(prefix)
}

/// Calls `str::to_lowercase`. The result is named, not described.
#[verifier::external_body]
pub(crate) fn to_lowercase(text: &str) -> (r: String)
    ensures
        r@ == lowercase(text@),
{
    text.to_lowercase()
}

/// The extension of a file name: see [`extension`].
pub fn extension_of<'a>(name: &'a str) -> (r: Option<&'a str>)
    ensures
        match r {
            Some(ext) => extension(name@) == Some(ext@),
            None => extension(name@) is None,
        },
{
    let length = name.unicode_len();
    let mut last: Option<usize> = None;
    let mut seen: usize = 0;
    let mut leading = false;
    for c in it: name.chars()
        invariant
            length == name@.len(),
            leading == (seen > 0 && name@[0] == '.'),
            it.seq() == name@,
            seen == it.index(),
            match last {
                Some(at) => at < seen && name@[at as int] == '.' && forall|j: int|
                    at < j < seen ==> name@[j] != '.',
                None => forall|j: int| 0 <= j < seen ==> name@[j] != '.',
            },
    {
        if c == '.' {
            last = Some(seen);
            if seen == 0 {
                leading = true;
            }
        }
        seen += 1;
    }
    proof {
        name@.index_of_last_ensures('.');
    }
    match last {
        Some(at) => {
            if at == 0 || (length == 2 && at == 1 && leading) {
                assert(at == 1 ==> name@ =~= seq!['.', '.']);
                None
            } else {
                let ext = name.substring_char(at + 1, length);
                Some(ext)
            }
        },
        None => None,
    }
}

/// Puts a dot in front of an extension.
pub fn dotted(ext: &str) -> (r: String)
    ensures
        r@ == seq!['.'] + ext@,
{
    let mut out = String::from_str(".");
    proof {
        reveal_strlit(".");
        assert(out@ =~= seq!['.']);
    }
    out.append(ext);
    out
}

/// The suffix of a file name: see [`suffix_of`].
pub fn file_suffix(name: &str) -> (r: String)
    ensures
        r@ == suffix_of(name@),
{
    match extension_of(name) {
        Some(ext) => {
            let lower = to_lowercase(ext);
            dotted(lower.as_str())
        },
        None => String::new(),
    }
}

/// Whether a text occurs in a list.
pub fn contains_text(list: &Vec<String>, text: &String) -> (r: bool)
    ensures
        r == text_set(list@).contains(text@),
{
    let mut i: usize = 0;
    while i < list.len()
        invariant
            i <= list.len(),
            forall|j: int| 0 <= j < i ==> list@[j]@ != text@,
        decreases list.len() - i,
    {
        if list[i] == *text {
            return true;
        }
        i += 1;
    }
    false
}

/// Whether a pick code is well formed: see [`valid_pickcode`].
pub fn is_valid_pickcode(code: &str) -> (r: bool)
    ensures
        r == valid_pickcode(code@),
{
    if !code.is_ascii() {
        proof {
            let i = choose|i: int| 0 <= i < code@.len() && !('\0' <= #[trigger] code@[i] <= '\u{7f}');
            assert(!is_ascii_alphanumeric(code@[i]));
        }
        return false;
    }
    proof {
        is_ascii_spec_bytes(code);
        assert(code.spec_bytes().len() == code@.len());
    }
    let bytes = code.as_bytes();
    if bytes.len() != 17 {
        return false;
    }
    let mut i: usize = 0;
    while i < 17
        invariant
            i <= 17,
            code@.len() == 17,
            code.is_ascii(),
            forall|j: int| 0 <= j < i ==> is_ascii_alphanumeric(#[trigger] code@[j]),
        decreases 17 - i,
    {
        let b: u8 = code.get_ascii(i);
        let ok = (48 <= b && b <= 57) || (97 <= b && b <= 122) || (65 <= b && b <= 90);
        proof {
            let c = code@[i as int];
            assert('\0' <= c <= '\u{7f}');
            assert(ok == is_ascii_alphanumeric(c));
        }
        if !ok {
            return false;
        }
        i += 1;
    }
    true
}

} // verus!
