//! Sanitization of artist/album/file names before they become path
//! segments under the upload directory: illegal characters are replaced,
//! heavily replaced names get a digest suffix for entropy, and file
//! extensions are validated. Filesystem access (creating directories,
//! checking for existing files) is left to the calling layer.
use vstd::prelude::*;
use vstd::string::{StrSliceExecFns, StringExecFns};
use vstd::utf8::encode_utf8;
use crate::data_validation::{sha256_hex, sha256_of};
use crate::text::{push_char, spec_contains_string, trim_str, trimmed, vec_contains_string};

verus! {

/// Every character allowed in a path segment; anything else is replaced.
pub const REPLACEMENT_CHAR: char = '_';

/// How many digest characters are appended to heavily replaced segments.
pub const DIR_SEGMENT_HASH_LENGTH: usize = 8;

/// Why a destination path could not be built from the request's names.
#[derive(Debug)]
pub enum ValidateDirectoryError {
    FailedToCreateDir(String),
    FileAlreadyExists,
    InvalidExtension,
    NoFileExtension,
    FailedToReadDir,
}

impl ValidateDirectoryError {
    /// The message reported to the client for this error.
    pub open spec fn spec_message(&self) -> Seq<char> {
        match self {
            ValidateDirectoryError::FailedToCreateDir(s) => "Failed to create directory: "@ + s@,
            ValidateDirectoryError::FileAlreadyExists => "File already exists"@,
            ValidateDirectoryError::InvalidExtension => "Invalid extension"@,
            ValidateDirectoryError::NoFileExtension => "there was no file extension"@,
            ValidateDirectoryError::FailedToReadDir => "failed to read the dir"@,
        }
    }

    /// Renders the error as the client sees it.
    pub fn message(&self) -> (r: String)
        ensures
            r@ == self.spec_message(),
    {
        match self {
            ValidateDirectoryError::FailedToCreateDir(s) => "Failed to create directory: "
                .to_owned().concat(s.as_str()),
            ValidateDirectoryError::FileAlreadyExists => "File already exists".to_owned(),
            ValidateDirectoryError::InvalidExtension => "Invalid extension".to_owned(),
            ValidateDirectoryError::NoFileExtension => "there was no file extension".to_owned(),
            ValidateDirectoryError::FailedToReadDir => "failed to read the dir".to_owned(),
        }
    }
}

/// Whether a character may stand in a path segment unchanged: letters,
/// digits, space, and a fixed set of punctuation.
pub open spec fn is_legal_path_char(c: char) -> bool {
    let u = c as u32;
    (97 <= u && u <= 122) || (65 <= u && u <= 90) || (48 <= u && u <= 57) || u == 32 || u == 40
        || u == 41 || u == 95 || u == 43 || u == 61 || u == 45 || u == 33 || u == 64 || u == 35
        || u == 36 || u == 63 || u == 39 || u == 59 || u == 34 || u == 60 || u == 62
}

/// Decides `is_legal_path_char`.
fn is_legal_char(c: char) -> (r: bool)
    ensures
        r == is_legal_path_char(c),
{
    let u = c as u32;
    (97 <= u && u <= 122) || (65 <= u && u <= 90) || (48 <= u && u <= 57) || u == 32 || u == 40
        || u == 41 || u == 95 || u == 43 || u == 61 || u == 45 || u == 33 || u == 64 || u == 35
        || u == 36 || u == 63 || u == 39 || u == 59 || u == 34 || u == 60 || u == 62
}

/// The characters with every illegal one replaced.
pub open spec fn spec_replace_illegal(s: Seq<char>) -> Seq<char> {
    s.map_values(
        |c: char|
            if is_legal_path_char(c) {
                c
            } else {
                '_'
            },
    )
}

/// How many characters of `s` are illegal (and so get replaced).
pub open spec fn spec_count_illegal(s: Seq<char>) -> int
    decreases s.len(),
{
    if s.len() == 0 {
        0
    } else {
        spec_count_illegal(s.drop_last()) + if is_legal_path_char(s.last()) {
            0int
        } else {
            1int
        }
    }
}

/// What `clean_dir_segment` produces: the trimmed segment with illegal
/// characters replaced, and — when at least a third of its characters
/// were replaced — a digest prefix of the original segment appended for
/// entropy.
pub open spec fn spec_clean_dir_segment(s: Seq<char>) -> Seq<char> {
    let t = trimmed(s);
    let f = spec_replace_illegal(t);
    if t.len() / 3 <= spec_count_illegal(t) {
        f + sha256_of(encode_utf8(s)).take(DIR_SEGMENT_HASH_LENGTH as int)
    } else {
        f
    }
}

/// A short digest of the segment, for disambiguating heavily replaced
/// names: the first characters of its SHA-256 hex form.
fn get_dir_segment_hash(segment: &String) -> (r: String)
    ensures
        r@ == sha256_of(encode_utf8(segment@)).take(DIR_SEGMENT_HASH_LENGTH as int),
{
    let hash = sha256_hex(segment.as_str().as_bytes());
    hash.as_str().substring_char(0, DIR_SEGMENT_HASH_LENGTH).to_owned()
}

/// Sanitizes one path segment (an artist or album name, or a file stem):
/// trims it, replaces illegal characters, and appends a digest suffix
/// when a third or more of its characters had to be replaced.
pub fn clean_dir_segment(dir_segment: &String) -> (r: String)
    ensures
        r@ == spec_clean_dir_segment(dir_segment@),
{
    let trimmed_str = trim_str(dir_segment.as_str());
    let n = trimmed_str.unicode_len();
    let mut filtered = String::new();
    let mut num_replaced: usize = 0;
    let mut i: usize = 0;
    proof {
        assert(trimmed_str@.take(0) =~= Seq::<char>::empty());
        assert(filtered@ =~= spec_replace_illegal(trimmed_str@.take(0)));
    }
    while i < n
        invariant
            trimmed_str@ == trimmed(dir_segment@),
            n == trimmed_str@.len(),
            0 <= i <= n,
            filtered@ == spec_replace_illegal(trimmed_str@.take(i as int)),
            num_replaced == spec_count_illegal(trimmed_str@.take(i as int)),
            num_replaced <= i,
        decreases n - i,
    {
        let c = trimmed_str.get_char(i);
        if is_legal_char(c) {
            push_char(&mut filtered, c);
        } else {
            push_char(&mut filtered, REPLACEMENT_CHAR);
            num_replaced = num_replaced + 1;
        }
        proof {
            let t = i as int;
            assert(trimmed_str@.take(t + 1).drop_last() =~= trimmed_str@.take(t));
            assert(trimmed_str@.take(t + 1).last() == trimmed_str@[t]);
            assert(filtered@ =~= spec_replace_illegal(trimmed_str@.take(t + 1)));
        }
        i = i + 1;
    }
    proof {
        assert(trimmed_str@.take(n as int) =~= trimmed_str@);
    }
    if n / 3 <= num_replaced {
        let hash = get_dir_segment_hash(dir_segment);
        filtered.concat(hash.as_str())
    } else {
        filtered
    }
}

/// The last position of `c` in `s`, or -1 when absent.
pub open spec fn spec_last_pos(s: Seq<char>, c: char) -> int
    decreases s.len(),
{
    if s.len() == 0 {
        -1
    } else if s.last() == c {
        s.len() - 1
    } else {
        spec_last_pos(s.drop_last(), c)
    }
}

/// How a file name splits into stem and extension: the extension is what
/// follows the last dot of the last path segment, and is absent when the
/// segment has no dot or only a leading one.
pub open spec fn spec_stem_extension(s: Seq<char>) -> Option<(Seq<char>, Seq<char>)> {
    let ls = spec_last_pos(s, '/');
    let ld = spec_last_pos(s, '.');
    if ld >= 0 && ld > ls + 1 {
        Option::Some((s.subrange(ls + 1, ld), s.subrange(ld + 1, s.len() as int)))
    } else {
        Option::None
    }
}

/// Splits a file name into its stem and its extension; a name without an
/// extension is rejected.
pub fn get_file_stem_extension(file_path: &String) -> (r: Result<
    (String, String),
    ValidateDirectoryError,
>)
    ensures
        spec_stem_extension(file_path@) matches Some(se) ==> (r matches Ok(p) && p.0@ == se.0
            && p.1@ == se.1),
        spec_stem_extension(file_path@) is None ==> (r matches Err(e) && e
            is NoFileExtension),
{
    let s = file_path.as_str();
    let n = s.unicode_len();
    let mut last_slash: Option<usize> = None;
    let mut last_dot: Option<usize> = None;
    let mut i: usize = 0;
    proof {
        assert(s@.take(0) =~= Seq::<char>::empty());
    }
    while i < n
        invariant
            s@ == file_path@,
            n == s@.len(),
            0 <= i <= n,
            (match last_slash {
                Option::Some(v) => v < i && v == spec_last_pos(s@.take(i as int), '/'),
                Option::None => spec_last_pos(s@.take(i as int), '/') == -1,
            }),
            (match last_dot {
                Option::Some(v) => v < i && v == spec_last_pos(s@.take(i as int), '.'),
                Option::None => spec_last_pos(s@.take(i as int), '.') == -1,
            }),
        decreases n - i,
    {
        let c = s.get_char(i);
        proof {
            let t = i as int;
            assert(s@.take(t + 1).drop_last() =~= s@.take(t));
            assert(s@.take(t + 1).last() == s@[t]);
        }
        if c == '/' {
            last_slash = Some(i);
        }
        if c == '.' {
            last_dot = Some(i);
        }
        i = i + 1;
    }
    proof {
        assert(s@.take(n as int) =~= s@);
    }
    let ls_plus_one: usize = match last_slash {
        Some(v) => v + 1,
        None => 0,
    };
    let ld: usize = match last_dot {
        Some(v) => v,
        None => {
            return Err(ValidateDirectoryError::NoFileExtension);
        },
    };
    if ld <= ls_plus_one {
        return Err(ValidateDirectoryError::NoFileExtension);
    }
    let stem = s.substring_char(ls_plus_one, ld).to_owned();
    let extension = s.substring_char(ld + 1, n).to_owned();
    Ok((stem, extension))
}

/// What `clean_file_name` produces for a name that splits: directory
/// separators are first escaped, then stem and extension are each
/// sanitized as path segments and rejoined with a dot.
pub open spec fn spec_escape_separators(s: Seq<char>) -> Seq<char> {
    s.map_values(
        |c: char|
            if c == '/' {
                '_'
            } else {
                c
            },
    )
}

/// Sanitizes a file name: escapes directory separators, splits off the
/// extension, and cleans stem and extension separately so the dot
/// between them survives.
pub fn clean_file_name(file_name: &String) -> (r: Result<String, ValidateDirectoryError>)
    ensures
        ({
            let escaped = spec_escape_separators(file_name@);
            match spec_stem_extension(escaped) {
                Option::Some(se) => r matches Ok(v) && v@ == spec_clean_dir_segment(se.0)
                    + seq!['.'] + spec_clean_dir_segment(se.1),
                Option::None => r matches Err(e) && e is NoFileExtension,
            }
        }),
{
    let src = file_name.as_str();
    let n = src.unicode_len();
    let mut escaped = String::new();
    let mut i: usize = 0;
    proof {
        assert(src@.take(0) =~= Seq::<char>::empty());
        assert(escaped@ =~= spec_escape_separators(src@.take(0)));
    }
    while i < n
        invariant
            src@ == file_name@,
            n == src@.len(),
            0 <= i <= n,
            escaped@ == spec_escape_separators(src@.take(i as int)),
        decreases n - i,
    {
        let c = src.get_char(i);
        if c == '/' {
            push_char(&mut escaped, REPLACEMENT_CHAR);
        } else {
            push_char(&mut escaped, c);
        }
        proof {
            assert(escaped@ =~= spec_escape_separators(src@.take(i as int + 1)));
        }
        i = i + 1;
    }
    proof {
        assert(src@.take(n as int) =~= src@);
    }
    let (stem, extension) = match get_file_stem_extension(&escaped) {
        Ok(p) => p,
        Err(e) => {
            return Err(e);
        },
    };
    let cleaned_stem = clean_dir_segment(&stem);
    let cleaned_extension = clean_dir_segment(&extension);
    let mut out = cleaned_stem;
    push_char(&mut out, '.');
    let r = out.concat(cleaned_extension.as_str());
    proof {
        let se = spec_stem_extension(spec_escape_separators(file_name@))->Some_0;
        assert(r@ =~= spec_clean_dir_segment(se.0) + seq!['.'] + spec_clean_dir_segment(se.1));
    }
    Ok(r)
}

/// Accepts a file name exactly when its extension is one of the
/// configured valid extensions.
pub fn validate_file_type(valid_extensions: &Vec<String>, file_name: &String) -> (r: Result<
    (),
    ValidateDirectoryError,
>)
    ensures
        ({
            match spec_stem_extension(file_name@) {
                Option::Some(se) => if spec_contains_string(valid_extensions@, se.1) {
                    r is Ok
                } else {
                    r matches Err(e) && e is InvalidExtension
                },
                Option::None => r matches Err(e) && e is NoFileExtension,
            }
        }),
{
    let (_stem, extension) = match get_file_stem_extension(file_name) {
        Ok(p) => p,
        Err(e) => {
            return Err(e);
        },
    };
    if vec_contains_string(valid_extensions, &extension) {
        Ok(())
    } else {
        Err(ValidateDirectoryError::InvalidExtension)
    }
}

} // verus!
