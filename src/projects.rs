//! The catalog model: authors, maturity levels and the catalog itself.

use vstd::prelude::*;

use crate::bot::Bot;
use crate::bridge::Bridge;
use crate::client::Client;
use crate::iot::Iot;
use crate::other::Other;
use crate::sdk::Sdk;
use crate::server::Server;
use crate::twim_config::{append_entries, entry_views, roster_views, Project, ProjectView};

verus! {

/// A person or team credited for a project.
#[derive(Clone, Debug)]
pub struct Author {
    pub name: String,
    pub matrix_id: Option<String>,
}

/// How far along a project is, from least to most mature.
#[derive(Clone, Copy, Debug, PartialEq, Eq, Structural, PartialOrd, Ord, Hash)]
pub enum Maturity {
    Obsolete,
    Alpha,
    Beta,
    Stable,
}

impl Maturity {
    /// The position of the level in the order Obsolete < Alpha < Beta < Stable.
    pub open spec fn rank(self) -> nat {
        match self {
            Maturity::Obsolete => 0,
            Maturity::Alpha => 1,
            Maturity::Beta => 2,
            Maturity::Stable => 3,
        }
    }

    /// The name of the level as documents write it.
    pub open spec fn spec_name(self) -> Seq<char> {
        match self {
            Maturity::Obsolete => "Obsolete"@,
            Maturity::Alpha => "Alpha"@,
            Maturity::Beta => "Beta"@,
            Maturity::Stable => "Stable"@,
        }
    }

    /// The less mature of two levels; the first one where they are equal.
    pub open spec fn lower(self, other: Maturity) -> Maturity {
        if other.rank() < self.rank() {
            other
        } else {
            self
        }
    }

    /// The position of the level in the maturity order.
    pub fn level(&self) -> (r: u8)
        ensures
            r == self.rank(),
    {
        match self {
            Maturity::Obsolete => 0,
            Maturity::Alpha => 1,
            Maturity::Beta => 2,
            Maturity::Stable => 3,
        }
    }

    /// The name of the level.
    pub fn name(&self) -> (r: &'static str)
        ensures
            r@ == self.spec_name(),
    {
        match self {
            Maturity::Obsolete => "Obsolete",
            Maturity::Alpha => "Alpha",
            Maturity::Beta => "Beta",
            Maturity::Stable => "Stable",
        }
    }

    /// The less mature of two levels.
    pub fn least(self, other: Maturity) -> (r: Maturity)
        ensures
            r == self.lower(other),
    {
        if other.level() < self.level() {
            other
        } else {
            self
        }
    }

    /// The least mature of the given levels; `None` when there are none.
    pub fn lowest(levels: &Vec<Maturity>) -> (r: Option<Maturity>)
        ensures
            r is None <==> levels@.len() == 0,
            r matches Some(m) ==> levels@.contains(m) && forall|i: int|
                0 <= i < levels@.len() ==> m.rank() <= #[trigger] levels@[i].rank(),
    {
        if levels.len() == 0 {
            return None;
        }
        let mut low = levels[0];
        let mut i: usize = 1;
        while i < levels.len()
            invariant
                1 <= i <= levels@.len(),
                levels@.contains(low),
                forall|j: int| 0 <= j < i ==> low.rank() <= #[trigger] levels@[j].rank(),
            decreases levels@.len() - i,
        {
            low = low.least(levels[i]);
            i = i + 1;
        }
        Some(low)
    }
}

/// The catalog: every project, by category, in catalog order.
#[derive(Clone, Debug)]
pub struct Projects {
    pub bots: Vec<Bot>,
    pub bridges: Vec<Bridge>,
    pub clients: Vec<Client>,
    pub iots: Vec<Iot>,
    pub others: Vec<Other>,
    pub sdks: Vec<Sdk>,
    pub servers: Vec<Server>,
}

impl Projects {
    /// The roster entries of all catalog entries: bots, bridges, clients, IoT
    /// projects, other projects, SDKs and servers, each category in order.
    pub open spec fn spec_roster_entries(&self) -> Seq<ProjectView> {
        entry_views(self.bots@) + entry_views(self.bridges@) + entry_views(self.clients@)
            + entry_views(self.iots@) + entry_views(self.others@) + entry_views(self.sdks@)
            + entry_views(self.servers@)
    }

    /// Builds the roster entries of all catalog entries, in category order.
    pub fn roster_entries(&self) -> (r: Vec<Project>)
        ensures
            roster_views(r@) == self.spec_roster_entries(),
    {
        let mut out: Vec<Project> = Vec::new();
        assert(roster_views(out@) =~= Seq::empty());
        append_entries(&mut out, &self.bots);
        assert(roster_views(out@) =~= entry_views(self.bots@));
        append_entries(&mut out, &self.bridges);
        append_entries(&mut out, &self.clients);
        append_entries(&mut out, &self.iots);
        append_entries(&mut out, &self.others);
        append_entries(&mut out, &self.sdks);
        append_entries(&mut out, &self.servers);
        out
    }
}

} // verus!
