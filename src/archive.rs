use crate::errors::ArchiveError;
use vstd::prelude::*;

verus! {

/// The archive formats that a path can be classified as.
#[derive(Debug, Clone, Copy, PartialEq, Eq, Structural)]
pub enum ArchiveType {
    GzipTarball,
    BzipTarball,
    Bzip,
    Rar,
    Gzip,
    Tarball,
    Zip,
    Zip7,
    XZip,
}

/// `s` ends with `suffix`.
pub open spec fn ends_with(s: Seq<char>, suffix: Seq<char>) -> bool {
    suffix.len() <= s.len() && s.subrange(s.len() - suffix.len(), s.len() as int) == suffix
}

/// Relies on `regex::escape`, `regex::Regex::new` and `regex::Regex::is_match`:
/// the escaped suffix followed by the end anchor `$` compiles, and the regex
/// matches a text exactly when the text ends with the suffix.
#[verifier::external_body]
fn regex_ends_with(text: &str, suffix: &str) -> (r: bool)
    requires
        suffix@.len() <= 64,
    ensures
        r == ends_with(text@, suffix@),
{
    let pattern = format!("{}$", regex::escape(suffix));
    regex::Regex::new(&pattern).unwrap().is_match(text)
}

/// The suffix rules, in the order in which they are tried: the first rule
/// whose suffix ends a path wins, so longer suffixes stand before the shorter
/// ones they end with. `.Z` (compress) files are handed to gzip as well.
pub open spec fn suffix_rules() -> Seq<(Seq<char>, ArchiveType)> {
    seq![
        (seq!['.', 't', 'a', 'r', '.', 'g', 'z'], ArchiveType::GzipTarball),
        (seq!['.', 't', 'g', 'z'], ArchiveType::GzipTarball),
        (seq!['.', 't', 'a', 'r', '.', 'b', 'z', '2'], ArchiveType::BzipTarball),
        (seq!['.', 't', 'b', 'z', '2'], ArchiveType::BzipTarball),
        (seq!['.', 'b', 'z', '2'], ArchiveType::Bzip),
        (seq!['.', 'r', 'a', 'r'], ArchiveType::Rar),
        (seq!['.', 'g', 'z'], ArchiveType::Gzip),
        (seq!['.', 'Z'], ArchiveType::Gzip),
        (seq!['.', 't', 'a', 'r'], ArchiveType::Tarball),
        (seq!['.', 'z', 'i', 'p'], ArchiveType::Zip),
        (seq!['.', '7', 'z'], ArchiveType::Zip7),
        (seq!['.', 'x', 'z'], ArchiveType::XZip),
    ]
}

/// The type of the first rule from index `i` on whose suffix ends `s`.
pub open spec fn first_match(s: Seq<char>, rules: Seq<(Seq<char>, ArchiveType)>, i: int) -> Option<
    ArchiveType,
>
    decreases rules.len() - i,
{
    if i < 0 || i >= rules.len() {
        None
    } else if ends_with(s, rules[i].0) {
        Some(rules[i].1)
    } else {
        first_match(s, rules, i + 1)
    }
}

/// The archive type of a path: that of the first suffix rule that matches it.
pub open spec fn classify(s: Seq<char>) -> Option<ArchiveType> {
    first_match(s, suffix_rules(), 0)
}

/// The rule table, in the order in which the rules are tried.
fn classification_rules() -> (r: Vec<(&'static str, ArchiveType)>)
    ensures
        r@.len() == suffix_rules().len(),
        forall|i: int|
            0 <= i < r@.len() ==> {
                &&& (#[trigger] r@[i]).0@ == suffix_rules()[i].0
                &&& r@[i].1 == suffix_rules()[i].1
            },
{
    proof {
        reveal_strlit(".tar.gz");
        reveal_strlit(".tgz");
        reveal_strlit(".tar.bz2");
        reveal_strlit(".tbz2");
        reveal_strlit(".bz2");
        reveal_strlit(".rar");
        reveal_strlit(".gz");
        reveal_strlit(".Z");
        reveal_strlit(".tar");
        reveal_strlit(".zip");
        reveal_strlit(".7z");
        reveal_strlit(".xz");
    }
    vec![
        (".tar.gz", ArchiveType::GzipTarball),
        (".tgz", ArchiveType::GzipTarball),
        (".tar.bz2", ArchiveType::BzipTarball),
        (".tbz2", ArchiveType::BzipTarball),
        (".bz2", ArchiveType::Bzip),
        (".rar", ArchiveType::Rar),
        (".gz", ArchiveType::Gzip),
        (".Z", ArchiveType::Gzip),
        (".tar", ArchiveType::Tarball),
        (".zip", ArchiveType::Zip),
        (".7z", ArchiveType::Zip7),
        (".xz", ArchiveType::XZip),
    ]
}

/// Classifies a path by its suffix: the type of the first rule that matches,
/// or `None` where no rule does.
pub fn determine_archive_type(path: &str) -> (r: Option<ArchiveType>)
    ensures
        r == classify(path@),
{
    let rules = classification_rules();
    let mut i: usize = 0;
    while i < rules.len()
        invariant
            0 <= i <= rules@.len(),
            rules@.len() == suffix_rules().len(),
            forall|j: int|
                0 <= j < rules@.len() ==> {
                    &&& (#[trigger] rules@[j]).0@ == suffix_rules()[j].0
                    &&& rules@[j].1 == suffix_rules()[j].1
                },
            classify(path@) == first_match(path@, suffix_rules(), i as int),
        decreases rules@.len() - i,
    {
        let rule = &rules[i];
        assert(rules@[i as int].0@ == suffix_rules()[i as int].0);
        if regex_ends_with(path, rule.0) {
            return Some(rule.1);
        }
        i = i + 1;
    }
    None
}

/// The extraction directory used for a zip archive whose name has no stem.
pub const ZIP_DEFAULT_FOLDER: &'static str = "zarc_zip_extracted";

/// A resolved path together with the archive type that its name gives.
#[derive(Debug)]
pub struct Archive {
    path: String,
    archive_type: ArchiveType,
}

impl Archive {
    /// The resolved path, as text.
    pub closed spec fn spec_path(&self) -> Seq<char> {
        self.path@
    }

    /// The archive type determined from the path.
    pub closed spec fn spec_type(&self) -> ArchiveType {
        self.archive_type
    }

    /// Builds the archive for a path given by the user. `resolved` is what
    /// resolving `raw` on the file system gave: its absolute, canonical form, or
    /// `None` where it does not exist or cannot be resolved. An unresolved path
    /// is never classified.
    pub fn from_user_path(raw: &str, resolved: Option<String>) -> (r: Result<Archive, ArchiveError>)
        ensures
            match resolved {
                None => match r {
                    Err(ArchiveError::UnknownInputFile(p)) => p@ == raw@,
                    _ => false,
                },
                Some(path) => match classify(path@) {
                    None => match r {
                        Err(ArchiveError::UnrecognizedArchive(p)) => p@ == path@,
                        _ => false,
                    },
                    Some(t) => match r {
                        Ok(a) => a.spec_path() == path@ && a.spec_type() == t,
                        _ => false,
                    },
                },
            },
    {
        match resolved {
            None => Err(ArchiveError::UnknownInputFile(String::from_str(raw))),
            Some(full_path) => match determine_archive_type(full_path.as_str()) {
                None => Err(ArchiveError::UnrecognizedArchive(full_path)),
                Some(archive_type) => Ok(Archive { path: full_path, archive_type }),
            },
        }
    }

    /// The resolved path.
    pub fn path(&self) -> (r: &str)
        ensures
            r@ == self.spec_path(),
    {
        self.path.as_str()
    }

    /// The archive type.
    pub fn archive_type(&self) -> (r: ArchiveType)
        ensures
            r == self.spec_type(),
    {
        self.archive_type
    }

    /// The command that extracts this archive; the archive is used up.
    pub fn extract_cmd(self) -> (r: Vec<String>)
        ensures
            r.deep_view() == command_for(self.spec_type(), self.spec_path(), file_stem_of(self.spec_path())),
    {
        let stem = match self.archive_type {
            ArchiveType::Zip => file_stem(self.path.as_str()),
            _ => None,
        };
        proof {
            if self.archive_type != ArchiveType::Zip {
                assert(command_for(self.archive_type, self.path@, file_stem_of(self.path@))
                    == command_for(self.archive_type, self.path@, None));
            }
        }
        build_command(self.archive_type, self.path, stem)
    }
}

/// The stem of a path's file name, as `std::path::Path::file_stem` gives it.
pub uninterp spec fn file_stem_of(path: Seq<char>) -> Option<Seq<char>>;

/// Relies on `std::path::Path::file_stem`: the file name of the path without
/// its final extension, or nothing where the path has no file name. The
/// result depends on the text of the path alone.
#[verifier::external_body]
fn file_stem(path: &str) -> (r: Option<String>)
    ensures
        match r {
            Some(s) => file_stem_of(path@) == Some(s@),
            None => file_stem_of(path@) is None,
        },
{
    match std::path::Path::new(path).file_stem() {
        Some(s) => Some(s.to_string_lossy().into_owned()),
        None => None,
    }
}

/// The directory a zip archive is extracted into: the stem of its name where
/// there is one, else the fixed default folder.
pub open spec fn zip_destination(stem: Option<Seq<char>>) -> Seq<char> {
    match stem {
        Some(s) => s,
        None => ZIP_DEFAULT_FOLDER@,
    }
}

/// The argument vector that extracts an archive of type `t` at `path`, where
/// `stem` is the stem of the path's file name (used for zip archives only).
pub open spec fn command_for(t: ArchiveType, path: Seq<char>, stem: Option<Seq<char>>) -> Seq<
    Seq<char>,
> {
    match t {
        ArchiveType::GzipTarball => seq!["tar"@, "xzvf"@, path],
        ArchiveType::BzipTarball => seq!["tar"@, "xjvf"@, path],
        ArchiveType::Bzip => seq!["bunzip2"@, path],
        ArchiveType::Gzip => seq!["gzip"@, "-dk"@, path],
        ArchiveType::Rar => seq!["unrar"@, "x"@, path],
        ArchiveType::Tarball => seq!["tar"@, "xvf"@, path],
        ArchiveType::Zip => seq!["unzip"@, "-d"@, zip_destination(stem), path],
        ArchiveType::Zip7 => seq!["7z"@, "x"@, path],
        ArchiveType::XZip => seq!["xz"@, "-dk"@, path],
    }
}

/// Builds the extraction command for an archive of type `t` at `path`, given
/// the stem of the path's file name where one was found.
pub fn build_command(t: ArchiveType, path: String, stem: Option<String>) -> (r: Vec<String>)
    ensures
        r.deep_view() == command_for(
            t,
            path@,
            match stem {
                Some(s) => Some(s@),
                None => None,
            },
        ),
{
    let ghost p = path@;
    let r = match t {
        ArchiveType::GzipTarball => vec![String::from_str("tar"), String::from_str("xzvf"), path],
        ArchiveType::BzipTarball => vec![String::from_str("tar"), String::from_str("xjvf"), path],
        ArchiveType::Bzip => vec![String::from_str("bunzip2"), path],
        ArchiveType::Gzip => vec![String::from_str("gzip"), String::from_str("-dk"), path],
        ArchiveType::Rar => vec![String::from_str("unrar"), String::from_str("x"), path],
        ArchiveType::Tarball => vec![String::from_str("tar"), String::from_str("xvf"), path],
        ArchiveType::Zip => {
            let dest = match stem {
                Some(s) => s,
                None => String::from_str(ZIP_DEFAULT_FOLDER),
            };
            vec![String::from_str("unzip"), String::from_str("-d"), dest, path]
        },
        ArchiveType::Zip7 => vec![String::from_str("7z"), String::from_str("x"), path],
        ArchiveType::XZip => vec![String::from_str("xz"), String::from_str("-dk"), path],
    };
    assert(r.deep_view() =~= command_for(
        t,
        p,
        match stem {
            Some(s) => Some(s@),
            None => None,
        },
    ));
    r
}

proof fn lemma_ends_with_last(s: Seq<char>, suffix: Seq<char>)
    requires
        ends_with(s, suffix),
        suffix.len() > 0,
    ensures
        s.last() == suffix.last(),
{
    assert(s.subrange(s.len() - suffix.len(), s.len() as int)[suffix.len() - 1] == s.last());
}

/// A path that ends in `.tar.gz` or `.tgz` is a gzip tarball; in particular a
/// `.tar.gz` path is never taken for plain gzip.
pub proof fn lemma_gzip_tarball_suffixes(s: Seq<char>)
    requires
        ends_with(s, seq!['.', 't', 'a', 'r', '.', 'g', 'z']) || ends_with(s, seq!['.', 't', 'g', 'z']),
    ensures
        classify(s) == Some(ArchiveType::GzipTarball),
{
    reveal_with_fuel(first_match, 3);
}

/// A path that ends in `.gz`, but neither in `.tar.gz` nor in `.tgz`, is gzip.
pub proof fn lemma_plain_gzip_suffix(s: Seq<char>)
    requires
        ends_with(s, seq!['.', 'g', 'z']),
        !ends_with(s, seq!['.', 't', 'a', 'r', '.', 'g', 'z']),
        !ends_with(s, seq!['.', 't', 'g', 'z']),
    ensures
        classify(s) == Some(ArchiveType::Gzip),
{
    let rules = suffix_rules();
    lemma_ends_with_last(s, seq!['.', 'g', 'z']);
    assert(seq!['.', 'g', 'z'].last() == 'z');
    assert forall|i: int| 2 <= i < 6 implies !ends_with(s, #[trigger] rules[i].0) by {
        if ends_with(s, rules[i].0) {
            lemma_ends_with_last(s, rules[i].0);
        }
    }
    reveal_with_fuel(first_match, 8);
    assert(!ends_with(s, rules[2].0));
    assert(!ends_with(s, rules[3].0));
    assert(!ends_with(s, rules[4].0));
    assert(!ends_with(s, rules[5].0));
}

/// A path that ends in none of the rules' suffixes has no archive type.
pub proof fn lemma_unrecognized_suffix(s: Seq<char>)
    requires
        forall|i: int| 0 <= i < suffix_rules().len() ==> !ends_with(s, #[trigger] suffix_rules()[i].0),
    ensures
        classify(s) is None,
{
    lemma_first_match_none_from(s, 0);
}

proof fn lemma_first_match_none_from(s: Seq<char>, i: int)
    requires
        0 <= i <= suffix_rules().len(),
        forall|j: int| 0 <= j < suffix_rules().len() ==> !ends_with(s, #[trigger] suffix_rules()[j].0),
    ensures
        first_match(s, suffix_rules(), i) is None,
    decreases suffix_rules().len() - i,
{
    if i < suffix_rules().len() {
        lemma_first_match_none_from(s, i + 1);
    }
}

/// Classification depends on the path alone: the same path always gets the
/// same archive type.
pub proof fn lemma_classify_deterministic(a: Seq<char>, b: Seq<char>)
    requires
        a == b,
    ensures
        classify(a) == classify(b),
{
}

} // verus!
