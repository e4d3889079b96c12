//! The catalogs that publish colour schemes: where their files are found,
//! which of the listed files are schemes, how a download is split into
//! batches, and how a cached file is read back.
//!
//! Fetching and storing are left to the caller; everything here computes on
//! plain values.

use vstd::prelude::*;
use vstd::string::*;
use crate::error::{ParseError, ParseFailure, outcome};
use crate::gogh::gogh_scheme;
use crate::iterm::{RealModel, computes, scheme_of_document};
use crate::listing::{listed_files, listed_names, readable_listing};
use crate::markup::readable_document;
use crate::scheme::ColorScheme;
use crate::text::{chars_end_with, chars_of, same_text};

verus! {

/// A GitHub repository that publishes colour schemes: its owner, its name,
/// the directory that holds the scheme files and the ending of their names.
#[derive(Debug, Clone, PartialEq, Eq)]
pub struct Provider {
    pub user_name: String,
    pub repo_name: String,
    pub list_path: String,
    pub extension: String,
}

/// The largest number of files that are fetched at the same time.
pub const BATCH_SIZE: usize = 10;

/// `filename` without the extension at its end; a file name that does not
/// end in the extension stays as it is.
pub open spec fn stem(filename: Seq<char>, extension: Seq<char>) -> Seq<char> {
    if extension.is_suffix_of(filename) {
        filename.take(filename.len() - extension.len())
    } else {
        filename
    }
}

/// Whether a listed file is a scheme of a catalog whose files end in
/// `extension`: its name ends so and does not begin with an underscore.
pub open spec fn is_scheme_file(filename: Seq<char>, extension: Seq<char>) -> bool {
    extension.is_suffix_of(filename) && !(filename.len() > 0 && filename[0] == '_')
}

/// The names of the schemes among the first `count` listed files, in order.
pub open spec fn schemes_among(files: Seq<Seq<char>>, count: nat, extension: Seq<char>) -> Seq<Seq<char>>
    decreases count,
{
    if count == 0 {
        Seq::empty()
    } else {
        let front = schemes_among(files, (count - 1) as nat, extension);
        if is_scheme_file(files[count - 1], extension) {
            front.push(stem(files[count - 1], extension))
        } else {
            front
        }
    }
}

/// The texts of a vector of strings.
pub open spec fn texts(names: Seq<String>) -> Seq<Seq<char>> {
    Seq::new(names.len(), |i: int| names[i]@)
}

/// The texts of the batches, one after the other.
pub open spec fn batched_texts(batches: Seq<Vec<String>>, count: nat) -> Seq<Seq<char>>
    decreases count,
{
    if count == 0 {
        Seq::empty()
    } else {
        batched_texts(batches, (count - 1) as nat) + texts(batches[count - 1]@)
    }
}

/// What reading the cache of a catalog gave.
#[derive(Debug, Clone, Copy, PartialEq, Eq, Structural)]
pub enum CacheReading {
    /// There is no cache directory to read.
    Absent,
    /// A cached file could not be read or parsed.
    Broken,
    /// The cache was read and held this many schemes.
    Schemes(usize),
}

/// What `list` does next.
#[derive(Debug, Clone, Copy, PartialEq, Eq, Structural)]
pub enum ListStep {
    /// Hand out the schemes that were read from the cache.
    UseCache,
    /// Download the catalog, then read the cache again.
    Download,
    /// Fail with the error of the reading; nothing is downloaded.
    Fail,
}

/// The step that follows a reading of the cache. A cache entry is never
/// fetched again on its own account: only an absent or empty cache leads to
/// a download.
pub open spec fn next_step(cache: CacheReading) -> ListStep {
    match cache {
        CacheReading::Absent => ListStep::Download,
        CacheReading::Broken => ListStep::Fail,
        CacheReading::Schemes(count) => if count == 0 {
            ListStep::Download
        } else {
            ListStep::UseCache
        },
    }
}

/// Whether `batches` is the plan for the listed `files`: the batches hold
/// the names of the schemes among the files, in order; none holds more than
/// `BATCH_SIZE` names, none is empty, and all but the last are full.
pub open spec fn planned(batches: Seq<Vec<String>>, files: Seq<Seq<char>>, extension: Seq<char>) -> bool {
    &&& batched_texts(batches, batches.len()) == schemes_among(files, files.len(), extension)
    &&& forall|i: int| 0 <= i < batches.len() ==> 1 <= (#[trigger] batches[i])@.len() <= BATCH_SIZE
    &&& forall|i: int| 0 <= i < batches.len() - 1 ==> (#[trigger] batches[i])@.len() == BATCH_SIZE
}

impl Provider {
    /// The address of the file of the scheme `name`.
    pub open spec fn file_address(self, name: Seq<char>) -> Seq<char> {
        "https://raw.githubusercontent.com/"@ + self.user_name@ + "/"@ + self.repo_name@ + "/master/"@
            + self.list_path@ + "/"@ + name + self.extension@
    }

    /// The address of the listing of the catalog's files.
    pub open spec fn listing_address(self) -> Seq<char> {
        "https://api.github.com/repos/"@ + self.user_name@ + "/"@ + self.repo_name@ + "/contents/"@
            + self.list_path@
    }

    /// The extension without its first character, the dot.
    pub open spec fn bare_extension(self) -> Seq<char> {
        if self.extension@.len() == 0 {
            self.extension@
        } else {
            self.extension@.skip(1)
        }
    }

    /// Whether this is the catalog `mbadolato/iTerm2-Color-Schemes`.
    pub open spec fn is_iterm_catalog(self) -> bool {
        &&& self.user_name@ == "mbadolato"@
        &&& self.repo_name@ == "iTerm2-Color-Schemes"@
        &&& self.list_path@ == "schemes"@
        &&& self.extension@ == ".itermcolors"@
    }

    /// Whether this is the catalog `Gogh-Co/Gogh`.
    pub open spec fn is_gogh_catalog(self) -> bool {
        &&& self.user_name@ == "Gogh-Co"@
        &&& self.repo_name@ == "Gogh"@
        &&& self.list_path@ == "themes"@
        &&& self.extension@ == ".sh"@
    }

    /// Whether the catalog's files are iTerm property lists.
    pub open spec fn holds_iterm(self) -> bool {
        self.extension@ == ".itermcolors"@
    }

    /// A catalog by its four parts.
    pub fn new(user_name: &str, repo_name: &str, list_path: &str, extension: &str) -> (r: Provider)
        ensures
            r.user_name@ == user_name@,
            r.repo_name@ == repo_name@,
            r.list_path@ == list_path@,
            r.extension@ == extension@,
    {
        Provider {
            user_name: user_name.to_owned(),
            repo_name: repo_name.to_owned(),
            list_path: list_path.to_owned(),
            extension: extension.to_owned(),
        }
    }

    /// The catalog `mbadolato/iTerm2-Color-Schemes`.
    pub fn iterm() -> (r: Provider)
        ensures
            r.is_iterm_catalog(),
    {
        Provider::new("mbadolato", "iTerm2-Color-Schemes", "schemes", ".itermcolors")
    }

    /// The catalog `Gogh-Co/Gogh`.
    pub fn gogh() -> (r: Provider)
        ensures
            r.is_gogh_catalog(),
    {
        Provider::new("Gogh-Co", "Gogh", "themes", ".sh")
    }

    /// The address of the file of the scheme `name`.
    pub fn individual_url(&self, name: &str) -> (r: String)
        ensures
            r@ == self.file_address(name@),
    {
        let mut out = String::new();
        out.append("https://raw.githubusercontent.com/");
        assert(out@ =~= "https://raw.githubusercontent.com/"@);
        out.append(self.user_name.as_str());
        out.append("/");
        out.append(self.repo_name.as_str());
        out.append("/master/");
        out.append(self.list_path.as_str());
        out.append("/");
        out.append(name);
        out.append(self.extension.as_str());
        out
    }

    /// The address of the listing of the catalog's files.
    pub fn list_url(&self) -> (r: String)
        ensures
            r@ == self.listing_address(),
    {
        let mut out = String::new();
        out.append("https://api.github.com/repos/");
        assert(out@ =~= "https://api.github.com/repos/"@);
        out.append(self.user_name.as_str());
        out.append("/");
        out.append(self.repo_name.as_str());
        out.append("/contents/");
        out.append(self.list_path.as_str());
        out
    }

    /// The directories, below the cache directory, that lead to the cached
    /// files of this catalog.
    pub fn repo_dir(&self) -> (r: Vec<String>)
        ensures
            r@.len() == 4,
            r@[0]@ == "colortty"@,
            r@[1]@ == "repositories"@,
            r@[2]@ == self.user_name@,
            r@[3]@ == self.repo_name@,
    {
        let mut parts: Vec<String> = Vec::new();
        parts.push("colortty".to_owned());
        parts.push("repositories".to_owned());
        parts.push(self.user_name.clone());
        parts.push(self.repo_name.clone());
        parts
    }

    /// The extension that a cached file gets: the catalog's, without the dot.
    pub fn cache_extension(&self) -> (r: String)
        ensures
            r@ == self.bare_extension(),
    {
        let ext = self.extension.as_str();
        let n = ext.unicode_len();
        if n == 0 {
            assert(ext@ =~= Seq::<char>::empty());
            String::new()
        } else {
            ext.substring_char(1, n).to_owned()
        }
    }

    /// Whether a listed file is a scheme of this catalog.
    pub fn lists_scheme(&self, filename: &str) -> (r: bool)
        ensures
            r == is_scheme_file(filename@, self.extension@),
    {
        let letters = chars_of(filename);
        let ending = chars_of(self.extension.as_str());
        if letters.len() > 0 && letters[0] == '_' {
            return false;
        }
        chars_end_with(&letters, &ending)
    }

    /// The name of the scheme in the file `filename`: the file name without
    /// the catalog's extension at its end, so that the name and the extension
    /// together are the file name again.
    pub fn scheme_name(&self, filename: &str) -> (r: String)
        ensures
            r@ == stem(filename@, self.extension@),
    {
        let letters = chars_of(filename);
        let ending = chars_of(self.extension.as_str());
        if chars_end_with(&letters, &ending) {
            filename.substring_char(0, letters.len() - ending.len()).to_owned()
        } else {
            filename.to_owned()
        }
    }

    /// The name of the file that holds the scheme `name` in the cache: the
    /// name, a dot, and the catalog's extension without its own dot.
    pub fn cache_file_name(&self, name: &str) -> (r: String)
        ensures
            r@ == name@ + "."@ + self.bare_extension(),
    {
        let mut out = name.to_owned();
        out.append(".");
        out.append(self.cache_extension().as_str());
        out
    }

    /// What `list` does once the cache was read: it uses the cache where at
    /// least one scheme was read, downloads the catalog where the cache is
    /// absent or empty, and fails, without a download, where a cached file
    /// could not be read or parsed.
    pub fn list(&self, cache: CacheReading) -> (r: ListStep)
        ensures
            r == next_step(cache),
    {
        match cache {
            CacheReading::Absent => ListStep::Download,
            CacheReading::Broken => ListStep::Fail,
            CacheReading::Schemes(count) => if count == 0 {
                ListStep::Download
            } else {
                ListStep::UseCache
            },
        }
    }

    /// The names of the schemes among the listed files, in the order of the
    /// listing.
    pub fn scheme_names(&self, filenames: &Vec<String>) -> (r: Vec<String>)
        ensures
            texts(r@) == schemes_among(texts(filenames@), filenames@.len(), self.extension@),
    {
        let mut names: Vec<String> = Vec::new();
        let mut i: usize = 0;
        assert(texts(names@) =~= Seq::<Seq<char>>::empty());
        while i < filenames.len()
            invariant
                i <= filenames@.len(),
                texts(names@) == schemes_among(texts(filenames@), i as nat, self.extension@),
            decreases filenames@.len() - i,
        {
            let ghost before = texts(names@);
            assert(texts(filenames@)[i as int] == filenames@[i as int]@);
            if self.lists_scheme(filenames[i].as_str()) {
                let name = self.scheme_name(filenames[i].as_str());
                names.push(name);
                assert(texts(names@) =~= before.push(name@));
            }
            i += 1;
        }
        names
    }

    /// Plans the download of every scheme of the catalog from the text of
    /// its listing: the names of the schemes, in the order of the listing,
    /// in batches that are fetched one after the other. `None` where the
    /// listing is malformed.
    pub fn download_all(&self, list_body: &str) -> (r: Option<Vec<Vec<String>>>)
        ensures
            match listed_names(readable_listing(list_body@)) {
                None => r is None,
                Some(files) => r matches Some(batches) && planned(batches@, files, self.extension@),
            },
    {
        match listed_files(list_body) {
            None => None,
            Some(files) => {
                let names = self.scheme_names(&files);
                Some(download_batches(&names))
            },
        }
    }

    /// Reads one scheme of this catalog from the text of its file: an iTerm
    /// property list where the catalog's extension is `.itermcolors`, a Gogh
    /// theme otherwise.
    pub fn parse_color_scheme<F: Fn(&str) -> Option<u8>>(&self, body: &str, convert: F) -> (r: Result<
        ColorScheme,
        ParseError,
    >)
        requires
            forall|text: &str| #[trigger] convert.requires((text,)),
        ensures
            !self.holds_iterm() ==> r == Ok::<ColorScheme, ParseError>(gogh_scheme(body@)),
            self.holds_iterm() && readable_document(body@) is None ==> outcome(r) == Err::<
                ColorScheme,
                ParseFailure,
            >(ParseFailure::XMLParse),
            forall|model: RealModel| #[trigger]
                computes(&convert, model) && self.holds_iterm() ==> outcome(r) == scheme_of_document(
                    readable_document(body@),
                    model,
                ),
    {
        if same_text(self.extension.as_str(), ".itermcolors") {
            ColorScheme::from_iterm(body, convert)
        } else {
            ColorScheme::from_gogh(body)
        }
    }
}

/// Splits the names of the schemes to fetch into batches, in order. The
/// files of one batch are fetched at the same time, and one batch is done
/// before the next begins, so no more than `BATCH_SIZE` fetches are ever
/// under way: every batch holds at most that many names, and every batch but
/// the last holds exactly that many. No batch is empty.
pub fn download_batches(names: &Vec<String>) -> (r: Vec<Vec<String>>)
    ensures
        batched_texts(r@, r@.len()) == texts(names@),
        r@.len() == (names@.len() + BATCH_SIZE - 1) / BATCH_SIZE as int,
        forall|i: int| 0 <= i < r@.len() ==> 1 <= (#[trigger] r@[i])@.len() <= BATCH_SIZE,
        forall|i: int| 0 <= i < r@.len() - 1 ==> (#[trigger] r@[i])@.len() == BATCH_SIZE,
{
    let mut batches: Vec<Vec<String>> = Vec::new();
    let mut current: Vec<String> = Vec::new();
    let mut i: usize = 0;
    assert(batched_texts(batches@, 0) + texts(current@) =~= texts(names@.take(0)));
    while i < names.len()
        invariant
            i <= names@.len(),
            current@.len() < BATCH_SIZE,
            batches@.len() * BATCH_SIZE + current@.len() == i,
            batched_texts(batches@, batches@.len()) + texts(current@) == texts(names@.take(i as int)),
            forall|k: int| 0 <= k < batches@.len() ==> (#[trigger] batches@[k])@.len() == BATCH_SIZE,
        decreases names@.len() - i,
    {
        let ghost done = batched_texts(batches@, batches@.len());
        let ghost open = texts(current@);
        current.push(names[i].clone());
        assert(texts(current@) =~= open.push(names@[i as int]@));
        assert(texts(names@.take(i + 1)) =~= texts(names@.take(i as int)).push(names@[i as int]@));
        assert(done + texts(current@) =~= texts(names@.take(i + 1)));
        if current.len() == BATCH_SIZE {
            let ghost full = texts(current@);
            let ghost earlier = batches@;
            batches.push(current);
            current = Vec::new();
            proof {
                lemma_batched_prefix(earlier, batches@, earlier.len());
                assert(batched_texts(batches@, batches@.len()) == done + full);
                assert(done + full + texts(current@) =~= done + full);
            }
        }
        i += 1;
    }
    assert(names@.take(i as int) == names@);
    if current.len() > 0 {
        let ghost done = batched_texts(batches@, batches@.len());
        let ghost open = texts(current@);
        let ghost earlier = batches@;
        batches.push(current);
        proof {
            lemma_batched_prefix(earlier, batches@, earlier.len());
        }
    } else {
        assert(batched_texts(batches@, batches@.len()) + texts(current@) =~= batched_texts(
            batches@,
            batches@.len(),
        ));
    }
    batches
}

/// The texts of the first batches do not depend on the batches that follow.
pub proof fn lemma_batched_prefix(a: Seq<Vec<String>>, b: Seq<Vec<String>>, count: nat)
    requires
        count <= a.len() <= b.len(),
        forall|i: int| 0 <= i < count ==> a[i] == b[i],
    ensures
        batched_texts(a, count) == batched_texts(b, count),
    decreases count,
{
    if count > 0 {
        lemma_batched_prefix(a, b, (count - 1) as nat);
    }
}

/// The name of a scheme file and the extension are together the file name:
/// what is planned for a listed scheme file is that very file.
pub proof fn law_scheme_file(filename: Seq<char>, extension: Seq<char>)
    requires
        is_scheme_file(filename, extension),
    ensures
        stem(filename, extension) + extension == filename,
{
    assert(stem(filename, extension) + extension =~= filename);
}

/// Where the extension begins with a dot, the cached file of a scheme is
/// named by the scheme's name and the extension, and the name is read back
/// from it: different names never share a file.
pub proof fn law_cache_file(provider: Provider, name: Seq<char>)
    requires
        provider.extension@.len() > 0,
        provider.extension@[0] == '.',
    ensures
        name + "."@ + provider.bare_extension() == name + provider.extension@,
        stem(name + provider.extension@, provider.extension@) == name,
{
    reveal_strlit(".");
    let ext = provider.extension@;
    assert("."@ + provider.bare_extension() =~= ext);
    assert(name + "."@ + provider.bare_extension() =~= name + ext);
    assert((name + ext).subrange((name + ext).len() - ext.len(), (name + ext).len() as int) =~= ext);
    assert((name + ext).take((name + ext).len() - ext.len()) =~= name);
}

} // verus!
