//! SDKs: libraries for building on the protocol.

use vstd::prelude::*;

use crate::casing::{page_filename, page_filename_of};
use crate::front_matter::{head, push_head, push_tail, tail, text_of};
use crate::projects::{Author, Maturity};
use crate::twim_config::{entry_project, CatalogEntry, Project, ProjectView};

verus! {

/// An SDK of the catalog.
#[derive(Clone, Debug)]
pub struct Sdk {
    pub layout: String,
    pub title: String,
    pub description: String,
    pub authors: Vec<Author>,
    pub maturity: Maturity,
    pub language: String,
    pub license: String,
    pub repository: Option<String>,
    pub home: Option<String>,
    pub screenshot: Option<String>,
    pub icon: Option<String>,
    pub room: Option<String>,
    pub featured: bool,
    pub sort_order: Option<i32>,
    pub full_description: String,
}

impl Sdk {
    /// The page of the SDK.
    pub open spec fn spec_markdown(&self) -> Seq<char> {
        head(
            self.layout@,
            self.title@,
            None,
            "sdk"@,
            self.description@,
            self.authors@,
            self.maturity,
            self.language@,
            self.license@,
        ) + tail(
            self.featured,
            text_of(self.repository),
            text_of(self.home),
            text_of(self.screenshot),
            text_of(self.icon),
            text_of(self.room),
            self.sort_order,
            self.full_description@,
        )
    }

    /// Renders the page of the SDK.
    pub fn to_markdown(&self) -> (r: String)
        ensures
            r@ == self.spec_markdown(),
    {
        let mut out = String::new();
        push_head(
            &mut out,
            self.layout.as_str(),
            &self.title,
            &None,
            "sdk",
            &self.description,
            &self.authors,
            self.maturity,
            &self.language,
            &self.license,
        );
        push_tail(
            &mut out,
            self.featured,
            &self.repository,
            &self.home,
            &self.screenshot,
            &self.icon,
            &self.room,
            self.sort_order,
            &self.full_description,
        );
        assert(out@ =~= self.spec_markdown());
        out
    }

    /// The file name of the SDK's page.
    pub fn filename(&self) -> (r: String)
        ensures
            r@ == page_filename_of(self.title@),
    {
        page_filename(self.title.as_str())
    }
}

impl CatalogEntry for Sdk {
    open spec fn roster_view(&self) -> ProjectView {
        entry_project(
            self.title@,
            self.description@,
            text_of(self.home),
            text_of(self.repository),
            self.authors@,
            "sdks"@,
        )
    }

    fn to_project(&self) -> (r: Project) {
        Project::for_entry(
            &self.title,
            &self.description,
            &self.home,
            &self.repository,
            &self.authors,
            "sdks",
        )
    }
}

} // verus!
