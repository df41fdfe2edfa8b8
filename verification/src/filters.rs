//! Which files are indexed: size, binary extensions and generated-looking
//! names, glob patterns, and the walker settings for ignore files.

use vstd::prelude::*;
use crate::text::{chars_of, lit, str_eq, contains_seq, contains_chars, ends_with_chars, lowercase_of,
    to_lowercase};
use crate::pathutil::{extension_of, file_name_of, path_extension, path_file_name, glob_match_of, glob_match};

verus! {

/// The largest file that is indexed, in bytes.
pub const MAX_INDEXED_FILE_SIZE: u64 = 1048576;

/// Why a file is or is not indexed.
#[derive(Debug, Clone, Copy, PartialEq, Eq, Structural)]
pub enum IndexCheck {
    Index,
    /// Larger than the limit; its size.
    TooLarge(u64),
    BinaryExtension,
    SuspiciousName,
}

/// The extensions of binary and other non-source files.
pub open spec fn binary_extension(e: Seq<char>) -> bool {
    ||| e == "png"@ ||| e == "jpg"@ ||| e == "jpeg"@ ||| e == "gif"@ ||| e == "bmp"@ ||| e == "svg"@
    ||| e == "ico"@ ||| e == "webp"@
    ||| e == "zip"@ ||| e == "tar"@ ||| e == "gz"@ ||| e == "bz2"@ ||| e == "7z"@ ||| e == "rar"@
    ||| e == "exe"@ ||| e == "bin"@ ||| e == "so"@ ||| e == "dylib"@ ||| e == "dll"@ ||| e == "app"@
    ||| e == "mp3"@ ||| e == "mp4"@ ||| e == "avi"@ ||| e == "mov"@ ||| e == "wmv"@ ||| e == "flv"@
    ||| e == "pdf"@ ||| e == "doc"@ ||| e == "docx"@ ||| e == "xls"@ ||| e == "xlsx"@ ||| e == "ppt"@
    ||| e == "pptx"@
    ||| e == "db"@ ||| e == "sqlite"@ ||| e == "sqlite3"@
    ||| e == "ttf"@ ||| e == "otf"@ ||| e == "woff"@ ||| e == "woff2"@
    ||| e == "o"@ ||| e == "obj"@ ||| e == "pyc"@ ||| e == "class"@ ||| e == "jar"@
    ||| e == "lock"@
}

/// File names of temporary, editor, system and log files.
pub open spec fn suspicious_name(f: Seq<char>) -> bool {
    ||| contains_seq(f, "~"@)
    ||| contains_seq(f, ".tmp"@)
    ||| contains_seq(f, ".temp"@)
    ||| contains_seq(f, ".bak"@)
    ||| contains_seq(f, ".backup"@)
    ||| contains_seq(f, ".idea"@)
    ||| contains_seq(f, ".vscode"@)
    ||| contains_seq(f, ".DS_Store"@)
    ||| contains_seq(f, "Thumbs.db"@)
    ||| contains_seq(f, "desktop.ini"@)
    ||| contains_seq(f, ".log"@)
}

/// The check of a file with the given path and size (when known): too
/// large first, then a binary extension (in lower case), then a suspicious
/// name.
pub open spec fn index_check(path: Seq<char>, size: Option<u64>) -> IndexCheck {
    if size matches Some(n) && n > MAX_INDEXED_FILE_SIZE {
        IndexCheck::TooLarge(size.unwrap())
    } else if extension_of(path) matches Some(e) && binary_extension(lowercase_of(e)) {
        IndexCheck::BinaryExtension
    } else if file_name_of(path) matches Some(f) && suspicious_name(f) {
        IndexCheck::SuspiciousName
    } else {
        IndexCheck::Index
    }
}

/// Some pattern matches the path (every path when there are none).
pub open spec fn matches_any(patterns: Seq<String>, path: Seq<char>) -> bool {
    patterns.len() == 0 || exists|i: int| 0 <= i < patterns.len() && glob_match_of(#[trigger] patterns[i]@, path)
        == Some(true)
}

/// Decides which files are indexed.
pub struct FileFilter {
    /// Whether skipped files are reported.
    pub verbose: bool,
}

impl FileFilter {
    pub fn new(verbose: bool) -> (f: FileFilter)
        ensures
            f.verbose == verbose,
    {
        FileFilter { verbose }
    }

    /// Why the file at `path`, of `size` bytes when known, is or is not indexed.
    pub fn check_file(&self, path: &str, size: Option<u64>) -> (r: IndexCheck)
        ensures
            r == index_check(path@, size),
    {
        if let Some(n) = size {
            if n > MAX_INDEXED_FILE_SIZE {
                return IndexCheck::TooLarge(n);
            }
        }
        if let Some(ext) = path_extension(path) {
            if self.is_binary_extension(ext.as_str()) {
                return IndexCheck::BinaryExtension;
            }
        }
        if let Some(name) = path_file_name(path) {
            if self.is_suspicious_filename(name.as_str()) {
                return IndexCheck::SuspiciousName;
            }
        }
        IndexCheck::Index
    }

    /// Whether the file at `path`, of `size` bytes when known, is indexed.
    pub fn should_index_file(&self, path: &str, size: Option<u64>) -> (r: bool)
        ensures
            r == (index_check(path@, size) == IndexCheck::Index),
    {
        let c = self.check_file(path, size);
        match c {
            IndexCheck::Index => true,
            _ => false,
        }
    }

    /// Whether an extension (compared in lower case) marks a binary or
    /// non-source file.
    pub fn is_binary_extension(&self, extension: &str) -> (r: bool)
        ensures
            r == binary_extension(lowercase_of(extension@)),
    {
        let l = to_lowercase(extension);
        let e = l.as_str();
        str_eq(e, "png") || str_eq(e, "jpg") || str_eq(e, "jpeg") || str_eq(e, "gif") || str_eq(e, "bmp")
            || str_eq(e, "svg") || str_eq(e, "ico") || str_eq(e, "webp") || str_eq(e, "zip") || str_eq(e, "tar")
            || str_eq(e, "gz") || str_eq(e, "bz2") || str_eq(e, "7z") || str_eq(e, "rar") || str_eq(e, "exe")
            || str_eq(e, "bin") || str_eq(e, "so") || str_eq(e, "dylib") || str_eq(e, "dll") || str_eq(e, "app")
            || str_eq(e, "mp3") || str_eq(e, "mp4") || str_eq(e, "avi") || str_eq(e, "mov") || str_eq(e, "wmv")
            || str_eq(e, "flv") || str_eq(e, "pdf") || str_eq(e, "doc") || str_eq(e, "docx") || str_eq(e, "xls")
            || str_eq(e, "xlsx") || str_eq(e, "ppt") || str_eq(e, "pptx") || str_eq(e, "db")
            || str_eq(e, "sqlite") || str_eq(e, "sqlite3") || str_eq(e, "ttf") || str_eq(e, "otf")
            || str_eq(e, "woff") || str_eq(e, "woff2") || str_eq(e, "o") || str_eq(e, "obj") || str_eq(e, "pyc")
            || str_eq(e, "class") || str_eq(e, "jar") || str_eq(e, "lock")
    }

    /// Whether a file name looks temporary or generated.
    pub fn is_suspicious_filename(&self, filename: &str) -> (r: bool)
        ensures
            r == suspicious_name(filename@),
    {
        let f = chars_of(filename);
        contains_chars(&f, &lit("~")) || contains_chars(&f, &lit(".tmp")) || contains_chars(&f, &lit(".temp"))
            || contains_chars(&f, &lit(".bak")) || contains_chars(&f, &lit(".backup")) || contains_chars(
            &f,
            &lit(".idea"),
        ) || contains_chars(&f, &lit(".vscode")) || contains_chars(&f, &lit(".DS_Store")) || contains_chars(
            &f,
            &lit("Thumbs.db"),
        ) || contains_chars(&f, &lit("desktop.ini")) || contains_chars(&f, &lit(".log"))
    }

    /// Whether some glob pattern matches the path (always, without
    /// patterns); patterns that do not parse match nothing.
    pub fn matches_patterns(&self, path: &str, patterns: &Vec<String>) -> (r: bool)
        ensures
            r == matches_any(patterns@, path@),
    {
        if patterns.len() == 0 {
            return true;
        }
        let mut i: usize = 0;
        while i < patterns.len()
            invariant
                i <= patterns@.len(),
                forall|k: int| 0 <= k < i ==> glob_match_of(#[trigger] patterns@[k]@, path@) != Some(true),
            decreases patterns@.len() - i,
        {
            if glob_match(patterns[i].as_str(), path) == Some(true) {
                return true;
            }
            i = i + 1;
        }
        false
    }
}

/// How the directory walker treats ignore files.
#[derive(Debug, Clone, Copy, PartialEq, Eq, Structural)]
pub struct WalkerSettings {
    pub git_ignore: bool,
    pub git_global: bool,
    pub git_exclude: bool,
    pub require_git: bool,
    pub hidden: bool,
    pub parents: bool,
    pub ignore: bool,
    /// Also read `.ignore` files as custom ignore files.
    pub custom_ignore_file: bool,
    /// Leave out everything inside `.git` directories.
    pub skip_git_dir: bool,
}

/// The walker settings: everything ignore files say is respected, or
/// nothing is and `.git` directories are left out instead. Hidden files are
/// shown and no git repository is required either way.
pub open spec fn walker_settings(respect_gitignore: bool) -> WalkerSettings {
    WalkerSettings {
        git_ignore: respect_gitignore,
        git_global: respect_gitignore,
        git_exclude: respect_gitignore,
        require_git: false,
        hidden: false,
        parents: respect_gitignore,
        ignore: respect_gitignore,
        custom_ignore_file: respect_gitignore,
        skip_git_dir: !respect_gitignore,
    }
}

/// A path inside or naming a `.git` directory.
pub open spec fn git_internal(path: Seq<char>) -> bool {
    contains_seq(path, "/.git/"@) || (path.len() >= 5 && path.subrange(path.len() - 5, path.len() as int)
        == "/.git"@)
}

/// Whether a path lies inside or names a `.git` directory.
pub fn is_git_internal(path: &str) -> (r: bool)
    ensures
        r == git_internal(path@),
{
    let v = chars_of(path);
    let suffix = lit("/.git");
    proof {
        reveal_strlit("/.git");
    }
    contains_chars(&v, &lit("/.git/")) || ends_with_chars(&v, &suffix)
}

/// Walks directories with or without honouring ignore files.
pub struct GitignoreFilter {
    pub respect_gitignore: bool,
    pub verbose: bool,
}

impl GitignoreFilter {
    pub fn new(respect_gitignore: bool, verbose: bool) -> (f: GitignoreFilter)
        ensures
            f.respect_gitignore == respect_gitignore,
            f.verbose == verbose,
    {
        GitignoreFilter { respect_gitignore, verbose }
    }

    /// The settings of the walker (see [`walker_settings`]).
    pub fn walker_settings(&self) -> (s: WalkerSettings)
        ensures
            s == walker_settings(self.respect_gitignore),
    {
        let r = self.respect_gitignore;
        WalkerSettings {
            git_ignore: r,
            git_global: r,
            git_exclude: r,
            require_git: false,
            hidden: false,
            parents: r,
            ignore: r,
            custom_ignore_file: r,
            skip_git_dir: !r,
        }
    }

    /// The path of a walked entry that is processed: a file outside `.git`.
    pub fn should_process_entry(&self, path: &str, is_file: bool) -> (r: Option<String>)
        ensures
            r is Some == (!git_internal(path@) && is_file),
            r matches Some(p) ==> p@ == path@,
    {
        if is_git_internal(path) {
            None
        } else if is_file {
            Some(path.to_owned())
        } else {
            None
        }
    }
}

} // verus!
