//! Bridges: projects that connect rooms to other chat networks.

use vstd::prelude::*;

use crate::casing::{page_filename, page_filename_of};
use crate::front_matter::{
    derived_layout, field, head, layout_for, push_head, push_tail, tail, text_of,
};
use crate::projects::{Author, Maturity};
use crate::text::{join, push_joined, string_views};
use crate::twim_config::{entry_project, CatalogEntry, Project, ProjectView};

verus! {

/// A bridge of the catalog.
#[derive(Clone, Debug)]
pub struct Bridge {
    pub title: String,
    pub description: String,
    pub authors: Vec<Author>,
    pub maturity: Maturity,
    pub language: String,
    pub license: String,
    pub repository: Option<String>,
    pub home: Option<String>,
    pub screenshot: Option<String>,
    pub icon: Option<String>,
    pub room: Option<String>,
    pub featured: bool,
    pub sort_order: Option<i32>,
    pub bridges: Vec<String>,
    pub full_description: String,
}

impl Bridge {
    /// The page of the bridge.
    pub open spec fn spec_markdown(&self) -> Seq<char> {
        head(
            derived_layout(text_of(self.icon)),
            self.title@,
            None,
            "bridge"@,
            self.description@,
            self.authors@,
            self.maturity,
            self.language@,
            self.license@,
        ) + field("bridges"@, join(string_views(self.bridges@), ", "@)) + tail(
            self.featured,
            text_of(self.repository),
            text_of(self.home),
            text_of(self.screenshot),
            text_of(self.icon),
            text_of(self.room),
            self.sort_order,
            self.full_description@,
        )
    }

    /// Renders the page of the bridge.
    pub fn to_markdown(&self) -> (r: String)
        ensures
            r@ == self.spec_markdown(),
    {
        let mut out = String::new();
        push_head(
            &mut out,
            layout_for(&self.icon),
            &self.title,
            &None,
            "bridge",
            &self.description,
            &self.authors,
            self.maturity,
            &self.language,
            &self.license,
        );
        out.append("bridges");
        out.append(": ");
        push_joined(&mut out, &self.bridges, ", ");
        out.append("\n");
        push_tail(
            &mut out,
            self.featured,
            &self.repository,
            &self.home,
            &self.screenshot,
            &self.icon,
            &self.room,
            self.sort_order,
            &self.full_description,
        );
        assert(out@ =~= self.spec_markdown());
        out
    }

    /// The file name of the bridge's page.
    pub fn filename(&self) -> (r: String)
        ensures
            r@ == page_filename_of(self.title@),
    {
        page_filename(self.title.as_str())
    }
}

impl CatalogEntry for Bridge {
    open spec fn roster_view(&self) -> ProjectView {
        entry_project(
            self.title@,
            self.description@,
            text_of(self.home),
            text_of(self.repository),
            self.authors@,
            "bridges"@,
        )
    }

    fn to_project(&self) -> (r: Project) {
        Project::for_entry(
            &self.title,
            &self.description,
            &self.home,
            &self.repository,
            &self.authors,
            "bridges",
        )
    }
}

} // verus!
