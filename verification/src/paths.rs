//! Deterministic construction of the storage paths: the canonical file of a
//! base name, and the derivative file of a (base name, raw query string,
//! extension) key. The query string is embedded verbatim, a deliberate
//! choice: reordered query parameters name distinct cache entries rather
//! than collapsing to one key.

use vstd::prelude::*;
use vstd::string::{StrSliceExecFns, StringExecFns};

verus! {

/// The configuration the core is handed at construction: the root directory
/// under which canonical and derivative files are stored.
pub struct ServerConfig {
    pub uploads_dir: String,
}

/// The path parameters of a fetch request: the requested base name and the
/// requested output extension.
pub struct FileDescription {
    pub filename: String,
    pub extension: String,
}

/// The base name of a filename: everything before the final `.`, or empty
/// when the filename holds no `.` at all.
pub open spec fn strip_extension_spec(s: Seq<char>) -> Seq<char>
    decreases s.len(),
{
    if s.len() == 0 {
        Seq::empty()
    } else if s[s.len() - 1] == '.' {
        s.take(s.len() - 1)
    } else {
        strip_extension_spec(s.take(s.len() - 1))
    }
}

proof fn lemma_strip_extension_at_last_dot(s: Seq<char>, i: int)
    requires
        0 <= i < s.len(),
        s[i] == '.',
        forall|j: int| i < j < s.len() ==> s[j] != '.',
    ensures
        strip_extension_spec(s) == s.take(i),
    decreases s.len(),
{
    if i == s.len() - 1 {
    } else {
        let t = s.take(s.len() - 1);
        assert(t[i] == '.');
        assert(forall|j: int| i < j < t.len() ==> t[j] != '.');
        lemma_strip_extension_at_last_dot(t, i);
        assert(t.take(i) =~= s.take(i));
    }
}

proof fn lemma_strip_extension_no_dot(s: Seq<char>)
    requires
        forall|j: int| 0 <= j < s.len() ==> s[j] != '.',
    ensures
        strip_extension_spec(s) == Seq::<char>::empty(),
    decreases s.len(),
{
    if s.len() > 0 {
        let t = s.take(s.len() - 1);
        assert(forall|j: int| 0 <= j < t.len() ==> t[j] != '.');
        lemma_strip_extension_no_dot(t);
    }
}

/// Strips the trailing extension segment from a filename: the base name is
/// the text before the final `.`; a filename without a `.` has the empty
/// base name.
pub fn strip_extension(filename: &str) -> (r: String)
    ensures
        r@ == strip_extension_spec(filename@),
{
    let len = filename.unicode_len();
    let mut i: usize = 0;
    let mut last_dot: Option<usize> = None;
    while i < len
        invariant
            i <= len,
            len == filename@.len(),
            match last_dot {
                Some(d) => {
                    &&& d < i
                    &&& filename@[d as int] == '.'
                    &&& forall|j: int| d < j < i ==> filename@[j] != '.'
                },
                None => forall|j: int| 0 <= j < i ==> filename@[j] != '.',
            },
        decreases len - i,
    {
        if filename.get_char(i) == '.' {
            last_dot = Some(i);
        }
        i += 1;
    }
    match last_dot {
        Some(d) => {
            proof {
                lemma_strip_extension_at_last_dot(filename@, d as int);
            }
            String::from_str(filename.substring_char(0, d))
        },
        None => {
            proof {
                lemma_strip_extension_no_dot(filename@);
            }
            String::new()
        },
    }
}

/// The suffix that the raw query string contributes to a derivative path:
/// nothing for an empty query string, `?` followed by the verbatim query
/// string otherwise.
pub open spec fn suffix_spec(qs: Seq<char>) -> Seq<char> {
    if qs.len() == 0 {
        Seq::empty()
    } else {
        "?"@ + qs
    }
}

/// The derivative path of (base name, processing suffix, extension) under a
/// storage root: the four parts concatenated, with `/` and `.` separators.
pub open spec fn derivative_path_spec(
    dir: Seq<char>,
    name: Seq<char>,
    suffix: Seq<char>,
    ext: Seq<char>,
) -> Seq<char> {
    dir + "/"@ + name + suffix + "."@ + ext
}

/// The canonical path of a base name under a storage root: the derivative
/// path with no processing suffix and the canonical `webp` extension.
pub open spec fn canonical_path_spec(dir: Seq<char>, name: Seq<char>) -> Seq<char> {
    derivative_path_spec(dir, name, Seq::empty(), "webp"@)
}

/// Builds the processing suffix for a request's raw query string.
pub fn build_processing_suffix(query_string: &str) -> (r: String)
    ensures
        r@ == suffix_spec(query_string@),
{
    if query_string.unicode_len() == 0 {
        String::new()
    } else {
        let mut s = String::from_str("?");
        s.append(query_string);
        s
    }
}

/// Builds the path under which a derivative for this request is cached.
/// Equal inputs always yield the same path: the cache key is deterministic.
pub fn build_path_to_preprocessed_file(
    file_desc: &FileDescription,
    processing_suffix: &String,
    config: &ServerConfig,
) -> (r: String)
    ensures
        r@ == derivative_path_spec(
            config.uploads_dir@,
            file_desc.filename@,
            processing_suffix@,
            file_desc.extension@,
        ),
{
    let mut s = config.uploads_dir.clone();
    s.append("/");
    s.append(file_desc.filename.as_str());
    s.append(processing_suffix.as_str());
    s.append(".");
    s.append(file_desc.extension.as_str());
    s
}

/// Builds the path of the stored file for a base name and an extension,
/// with no processing suffix.
pub fn build_path_to_unprocessed_file(file_desc: &FileDescription, config: &ServerConfig) -> (r:
    String)
    ensures
        r@ == derivative_path_spec(
            config.uploads_dir@,
            file_desc.filename@,
            Seq::<char>::empty(),
            file_desc.extension@,
        ),
{
    let mut s = config.uploads_dir.clone();
    s.append("/");
    s.append(file_desc.filename.as_str());
    s.append(".");
    s.append(file_desc.extension.as_str());
    proof {
        assert(s@ =~= derivative_path_spec(
            config.uploads_dir@,
            file_desc.filename@,
            Seq::<char>::empty(),
            file_desc.extension@,
        ));
    }
    s
}

/// Builds the canonical path of a base name: `<root>/<name>.webp`.
pub fn build_canonical_path(name: &String, config: &ServerConfig) -> (r: String)
    ensures
        r@ == canonical_path_spec(config.uploads_dir@, name@),
{
    let mut s = config.uploads_dir.clone();
    s.append("/");
    s.append(name.as_str());
    s.append(".");
    s.append("webp");
    proof {
        assert(s@ =~= canonical_path_spec(config.uploads_dir@, name@));
    }
    s
}

} // verus!
