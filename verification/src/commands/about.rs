//! The `about` command: what build the bot is.

use crate::text::owned;
use crate::util::{comma_separated, na, or_na, split_authors};
use vstd::prelude::*;
use vstd::string::*;

verus! {

/// What a build knows of itself. Whatever it does not know is `None`.
#[derive(Debug, Default, Clone, PartialEq)]
pub struct BuildInfo {
    pub version: Option<String>,
    /// The authors, separated by colons.
    pub authors: Option<String>,
    pub build_time: Option<String>,
    pub commit: Option<String>,
    pub rust_version: Option<String>,
}

/// The mathematical content of a `BuildInfo`.
pub struct BuildView {
    pub version: Option<Seq<char>>,
    pub authors: Option<Seq<char>>,
    pub build_time: Option<Seq<char>>,
    pub commit: Option<Seq<char>>,
    pub rust_version: Option<Seq<char>>,
}

impl View for BuildInfo {
    type V = BuildView;

    open spec fn view(&self) -> BuildView {
        BuildView {
            version: self.version.deep_view(),
            authors: self.authors.deep_view(),
            build_time: self.build_time.deep_view(),
            commit: self.commit.deep_view(),
            rust_version: self.rust_version.deep_view(),
        }
    }
}

/// The answer to `about`: five lines, with `N/A` for what the build does
/// not know, the authors separated by commas, and the commit as a link.
pub open spec fn about_text(build: BuildView) -> Seq<char> {
    "Version: "@ + or_na(build.version) + "\nAuthor(s): "@ + comma_separated(or_na(build.authors))
        + "\nBuild time: "@ + or_na(build.build_time) + "\nCommit hash: ["@ + or_na(build.commit)
        + "](https://github.com/ciderapp/Cidar/commit/"@ + or_na(build.commit)
        + ")\nRust version: "@ + or_na(build.rust_version)
}

/// Answers the `about` command.
pub fn run(build: &BuildInfo) -> (answer: String)
    ensures
        answer@ == about_text(build@),
{
    let commit = na(&build.commit);
    let authors = na(&build.authors);
    let mut answer = owned("Version: ");
    answer.append(na(&build.version).as_str());
    answer.append("\nAuthor(s): ");
    answer.append(split_authors(authors.as_str()).as_str());
    answer.append("\nBuild time: ");
    answer.append(na(&build.build_time).as_str());
    answer.append("\nCommit hash: [");
    answer.append(commit.as_str());
    answer.append("](https://github.com/ciderapp/Cidar/commit/");
    answer.append(commit.as_str());
    answer.append(")\nRust version: ");
    answer.append(na(&build.rust_version).as_str());
    answer
}

} // verus!
