//! A GitHub repository whose files are fetched one by one.

use vstd::prelude::*;
use vstd::string::*;

verus! {

/// A repository: its owner, its name and the directory that holds the files.
#[derive(Debug, Clone, PartialEq, Eq)]
pub struct Repo {
    pub user_name: String,
    pub repo_name: String,
    pub list_path: String,
}

impl Repo {
    /// The address of the file `filename` on the repository's main branch.
    pub open spec fn file_address(self, filename: Seq<char>) -> Seq<char> {
        "https://raw.githubusercontent.com/"@ + self.user_name@ + "/"@ + self.repo_name@ + "/master/"@
            + self.list_path@ + "/"@ + filename
    }

    /// A repository by its three parts.
    pub fn new(user_name: &str, repo_name: &str, list_path: &str) -> (r: Repo)
        ensures
            r.user_name@ == user_name@,
            r.repo_name@ == repo_name@,
            r.list_path@ == list_path@,
    {
        Repo {
            user_name: user_name.to_owned(),
            repo_name: repo_name.to_owned(),
            list_path: list_path.to_owned(),
        }
    }

    /// The address from which the file `filename` is fetched.
    pub fn file_url(&self, filename: &str) -> (r: String)
        ensures
            r@ == self.file_address(filename@),
    {
        let mut out = String::new();
        out.append("https://raw.githubusercontent.com/");
        assert(out@ =~= "https://raw.githubusercontent.com/"@);
        out.append(self.user_name.as_str());
        out.append("/");
        out.append(self.repo_name.as_str());
        out.append("/master/");
        out.append(self.list_path.as_str());
        out.append("/");
        out.append(filename);
        out
    }
}

} // verus!
