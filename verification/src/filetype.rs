//! What a file name says about the format of the file.

use vstd::prelude::*;
use vstd::string::StrSliceExecFns;

verus! {

/// The format that a file name stands for.
#[derive(Debug, Clone, Copy, PartialEq, Eq, Structural)]
pub enum FType {
    /// The textual format.
    Json,
    /// The binary format.
    MessagePack,
    /// Neither: there is no extension, or not one that is known.
    Unknown,
}

/// The extension of the file that `path` names, without its dot, as
/// `std::path::Path::extension` finds it on the platform this library is
/// built for; nothing where the name has none.
pub uninterp spec fn extension_of(path: Seq<char>) -> Option<Seq<char>>;

/// `c` in lower case, where it is one of the letters `A` to `Z`.
pub open spec fn lower_case(c: char) -> char {
    if 'A' <= c <= 'Z' {
        ((c as u8) + 32) as char
    } else {
        c
    }
}

/// Whether two texts are the same but for the case of the letters `a` to `z`.
pub open spec fn same_ignoring_case(a: Seq<char>, b: Seq<char>) -> bool {
    &&& a.len() == b.len()
    &&& forall|i: int| 0 <= i < a.len() ==> lower_case(#[trigger] a[i]) == lower_case(b[i])
}

/// The format that an extension stands for: `json` is the textual format,
/// `msgpack` and `mpk` are the binary one, each in any mix of cases.
pub open spec fn format_of_extension(ext: Option<Seq<char>>) -> FType {
    match ext {
        Some(e) => if same_ignoring_case(e, "json"@) {
            FType::Json
        } else if same_ignoring_case(e, "msgpack"@) || same_ignoring_case(e, "mpk"@) {
            FType::MessagePack
        } else {
            FType::Unknown
        },
        None => FType::Unknown,
    }
}

/// The format that the file name `fname` stands for.
pub open spec fn format_of_name(fname: Seq<char>) -> FType {
    format_of_extension(extension_of(fname))
}

/// `std::path::Path::extension` on `path`, as an owned text.
///
/// Trusted: the result is `extension_of(path@)`. Nothing is claimed of which
/// part of a path that is.
#[verifier::external_body]
pub(crate) fn path_extension(path: &str) -> (r: Option<String>)
    ensures
        match r {
            Some(ext) => extension_of(path@) == Some(ext@),
            None => extension_of(path@) is None,
        },
{
    match std::path::Path::new(path).extension() {
        Some(ext) => Some(ext.to_string_lossy().into_owned()),
        None => None,
    }
}

/// `c` in lower case, where it is one of the letters `A` to `Z`.
pub fn to_lower_case(c: char) -> (r: char)
    ensures
        r == lower_case(c),
{
    if 'A' <= c && c <= 'Z' {
        ((c as u8) + 32) as char
    } else {
        c
    }
}

/// Whether `text` and `word` are the same but for the case of their letters.
pub fn eq_ignore_case(text: &str, word: &str) -> (r: bool)
    ensures
        r == same_ignoring_case(text@, word@),
{
    let n = text.unicode_len();
    if n != word.unicode_len() {
        return false;
    }
    let mut i: usize = 0;
    while i < n
        invariant
            i <= n,
            n == text@.len(),
            n == word@.len(),
            forall|j: int| 0 <= j < i ==> lower_case(#[trigger] text@[j]) == lower_case(word@[j]),
        decreases n - i,
    {
        if to_lower_case(text.get_char(i)) != to_lower_case(word.get_char(i)) {
            return false;
        }
        i += 1;
    }
    true
}

impl FType {
    /// The format that a file's extension stands for, where `ext` is the
    /// extension without its dot, or nothing for a name that has none.
    pub fn from_extension(ext: Option<&str>) -> (r: FType)
        ensures
            r == format_of_extension(
                match ext {
                    Some(e) => Some(e@),
                    None => None,
                },
            ),
    {
        match ext {
            Some(e) => {
                if eq_ignore_case(e, "json") {
                    FType::Json
                } else if eq_ignore_case(e, "msgpack") || eq_ignore_case(e, "mpk") {
                    FType::MessagePack
                } else {
                    FType::Unknown
                }
            },
            None => FType::Unknown,
        }
    }

    /// The format that the file name `fname` stands for, going by its
    /// extension alone.
    pub fn from_fname(fname: &str) -> (r: FType)
        ensures
            r == format_of_name(fname@),
    {
        match path_extension(fname) {
            Some(ext) => FType::from_extension(Some(ext.as_str())),
            None => FType::from_extension(None),
        }
    }
}

/// One extension stands for the textual format and two for the binary one:
/// an extension is taken for JSON exactly when it is `json`, and for
/// MessagePack exactly when it is `msgpack` or `mpk`, in any mix of cases.
pub proof fn lemma_known_extensions(ext: Seq<char>)
    ensures
        format_of_extension(Some(ext)) == FType::Json <==> same_ignoring_case(ext, "json"@),
        format_of_extension(Some(ext)) == FType::MessagePack <==> (same_ignoring_case(
            ext,
            "msgpack"@,
        ) || same_ignoring_case(ext, "mpk"@)),
        format_of_extension(None) == FType::Unknown,
{
    reveal_strlit("json");
    reveal_strlit("msgpack");
    reveal_strlit("mpk");
}

} // verus!
