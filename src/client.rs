//! Clients: the apps people chat with, described per platform build.

use vstd::prelude::*;

use crate::casing::{page_filename, page_filename_of};
use crate::front_matter::{bullets, head, push_bullets, push_head, push_tail, tail, text_of};
use crate::projects::{Author, Maturity};
use crate::text::{concat, string_views};
use crate::twim_config::{entry_project, CatalogEntry, Project, ProjectView};

verus! {

/// What a client supports, one free-text verdict per capability ("Yes",
/// "No", "Partial", ...).
#[derive(Clone, Debug)]
pub struct Features {
    pub e2ee: String,
    pub widgets: String,
    pub spaces: String,
    pub room_directory: String,
    pub read_receipts: String,
    pub typing_indicators: String,
    pub edits: String,
    pub replies: String,
    pub threads: String,
    pub attachments: String,
    pub multi_account: String,
    pub registration: String,
    pub calls: String,
    pub reactions: String,
    pub sso: String,
    pub localised: String,
}

/// Where a client is published in Apple's app store.
#[derive(Clone, Debug)]
pub struct AppStoreDetails {
    pub org: String,
    pub app_id: String,
}

/// A platform that a client build runs on.
#[derive(Clone, Copy, Debug, PartialEq, Eq, Structural, Hash)]
pub enum Platform {
    Linux,
    Android,
    MacOS,
    Ios,
    Windows,
    DesktopWeb,
    MobileWeb,
}

/// A client build of the catalog. Builds of one product on several
/// platforms share the `id`.
#[derive(Clone, Debug)]
pub struct Client {
    pub layout: String,
    pub id: String,
    pub title: String,
    pub slug: Option<String>,
    pub description: String,
    pub authors: Vec<Author>,
    pub maturity: Maturity,
    pub language: String,
    pub license: String,
    pub repository: Option<String>,
    pub home: Option<String>,
    pub screenshot: Option<String>,
    pub icon: Option<String>,
    pub room: Option<String>,
    pub sdk: Vec<String>,
    pub platforms: Vec<Platform>,
    pub featured: bool,
    pub sort_order: Option<i32>,
    pub features: Features,
    pub appstore_details: Option<AppStoreDetails>,
    pub apple_associated_app_id: Option<String>,
    pub playstore_app_id: Option<String>,
    pub fdroid_app_id: Option<String>,
    pub flathub_app_id: Option<String>,
    pub otherinstall_link: Option<String>,
    pub full_description: String,
}

impl Platform {
    /// The name of the platform on a project page.
    pub open spec fn spec_page_label(self) -> Seq<char> {
        match self {
            Platform::Linux => "Linux"@,
            Platform::Android => "Android"@,
            Platform::MacOS => "macOS"@,
            Platform::Ios => "iOS"@,
            Platform::Windows => "Windows"@,
            Platform::DesktopWeb => "Web"@,
            Platform::MobileWeb => "Web"@,
        }
    }

    /// The name of the platform on a project page; both web platforms are "Web".
    pub fn page_label(&self) -> (r: &'static str)
        ensures
            r@ == self.spec_page_label(),
    {
        match self {
            Platform::Linux => "Linux",
            Platform::Android => "Android",
            Platform::MacOS => "macOS",
            Platform::Ios => "iOS",
            Platform::Windows => "Windows",
            Platform::DesktopWeb => "Web",
            Platform::MobileWeb => "Web",
        }
    }
}

/// The page names of the platforms, in order.
pub open spec fn page_labels(platforms: Seq<Platform>) -> Seq<Seq<char>> {
    platforms.map_values(|p: Platform| p.spec_page_label())
}

/// The capability names of the features block, in their fixed order.
pub open spec fn feature_labels() -> Seq<Seq<char>> {
    seq![
        "E2EE"@,
        "Widgets"@,
        "Spaces"@,
        "Room directory"@,
        "Read receipts"@,
        "Typing indicators"@,
        "Edits"@,
        "Replies"@,
        "Threads"@,
        "Attachments"@,
        "Multi accounts"@,
        "Registration"@,
        "Calls"@,
        "Reactions"@,
        "SSO"@,
        "Localised"@,
    ]
}

/// The verdicts of a features record, in the order of `feature_labels`.
pub open spec fn feature_values(f: Features) -> Seq<Seq<char>> {
    seq![
        f.e2ee@,
        f.widgets@,
        f.spaces@,
        f.room_directory@,
        f.read_receipts@,
        f.typing_indicators@,
        f.edits@,
        f.replies@,
        f.threads@,
        f.attachments@,
        f.multi_account@,
        f.registration@,
        f.calls@,
        f.reactions@,
        f.sso@,
        f.localised@,
    ]
}

/// One indented line of the features block.
pub open spec fn feature_line(label: Seq<char>, value: Seq<char>) -> Seq<char> {
    "    "@ + label + ": "@ + value + "\n"@
}

/// The features block: its heading, then one line per capability.
pub open spec fn features_block(f: Features) -> Seq<char> {
    "features:\n"@ + feature_line("E2EE"@, f.e2ee@) + feature_line("Widgets"@, f.widgets@)
        + feature_line("Spaces"@, f.spaces@) + feature_line("Room directory"@, f.room_directory@)
        + feature_line("Read receipts"@, f.read_receipts@) + feature_line(
        "Typing indicators"@,
        f.typing_indicators@,
    ) + feature_line("Edits"@, f.edits@) + feature_line("Replies"@, f.replies@) + feature_line(
        "Threads"@,
        f.threads@,
    ) + feature_line("Attachments"@, f.attachments@) + feature_line(
        "Multi accounts"@,
        f.multi_account@,
    ) + feature_line("Registration"@, f.registration@) + feature_line("Calls"@, f.calls@)
        + feature_line("Reactions"@, f.reactions@) + feature_line("SSO"@, f.sso@) + feature_line(
        "Localised"@,
        f.localised@,
    )
}

/// The lines of the features block, one per capability, in the fixed order.
pub open spec fn feature_lines(f: Features) -> Seq<Seq<char>> {
    Seq::new(16, |i: int| feature_line(feature_labels()[i], feature_values(f)[i]))
}

/// Every capability is always rendered: the features block is its heading
/// followed by exactly one line for each of the sixteen capability names, in
/// the fixed order, each with that capability's verdict.
pub proof fn lemma_features_block_complete(f: Features)
    ensures
        feature_labels().len() == 16,
        feature_values(f).len() == 16,
        feature_lines(f).len() == 16,
        forall|i: int|
            0 <= i < 16 ==> #[trigger] feature_lines(f)[i] == feature_line(
                feature_labels()[i],
                feature_values(f)[i],
            ),
        features_block(f) == concat(seq!["features:\n"@] + feature_lines(f)),
{
    lemma_partial_features_block(f, 16);
    assert(feature_lines(f).take(16) =~= feature_lines(f));
    reveal_with_fuel(partial_features_block, 17);
    assert(features_block(f) =~= partial_features_block(f, 16));
}

proof fn lemma_partial_features_block(f: Features, k: int)
    requires
        0 <= k <= 16,
    ensures
        concat(seq!["features:\n"@] + feature_lines(f).take(k)) == partial_features_block(f, k),
    decreases k,
{
    let parts = seq!["features:\n"@] + feature_lines(f).take(k);
    if k == 0 {
        assert(parts =~= seq!["features:\n"@]);
        assert(parts.drop_last() =~= Seq::<Seq<char>>::empty());
        assert(concat(Seq::<Seq<char>>::empty()) == Seq::<char>::empty());
        assert(concat(parts) =~= "features:\n"@);
    } else {
        lemma_partial_features_block(f, k - 1);
        assert(parts.drop_last() =~= seq!["features:\n"@] + feature_lines(f).take(k - 1));
    }
}

/// The features block up to, and without, the line of the capability at `k`.
pub open spec fn partial_features_block(f: Features, k: int) -> Seq<char>
    decreases k,
{
    if k <= 0 {
        "features:\n"@
    } else {
        partial_features_block(f, k - 1) + feature_line(
            feature_labels()[k - 1],
            feature_values(f)[k - 1],
        )
    }
}

fn push_feature_line(out: &mut String, label: &str, value: &String)
    ensures
        final(out)@ == old(out)@ + feature_line(label@, value@),
{
    out.append("    ");
    out.append(label);
    out.append(": ");
    out.append(value.as_str());
    out.append("\n");
    assert(out@ =~= old(out)@ + feature_line(label@, value@));
}

impl Features {
    /// Appends the features block.
    pub fn push_block(&self, out: &mut String)
        ensures
            final(out)@ == old(out)@ + features_block(*self),
    {
        out.append("features:\n");
        push_feature_line(out, "E2EE", &self.e2ee);
        push_feature_line(out, "Widgets", &self.widgets);
        push_feature_line(out, "Spaces", &self.spaces);
        push_feature_line(out, "Room directory", &self.room_directory);
        push_feature_line(out, "Read receipts", &self.read_receipts);
        push_feature_line(out, "Typing indicators", &self.typing_indicators);
        push_feature_line(out, "Edits", &self.edits);
        push_feature_line(out, "Replies", &self.replies);
        push_feature_line(out, "Threads", &self.threads);
        push_feature_line(out, "Attachments", &self.attachments);
        push_feature_line(out, "Multi accounts", &self.multi_account);
        push_feature_line(out, "Registration", &self.registration);
        push_feature_line(out, "Calls", &self.calls);
        push_feature_line(out, "Reactions", &self.reactions);
        push_feature_line(out, "SSO", &self.sso);
        push_feature_line(out, "Localised", &self.localised);
        assert(out@ =~= old(out)@ + features_block(*self));
    }
}

/// Appends one indented list line per platform, by its page name.
fn push_platform_bullets(out: &mut String, platforms: &Vec<Platform>)
    ensures
        final(out)@ == old(out)@ + bullets(page_labels(platforms@)),
{
    let mut i: usize = 0;
    while i < platforms.len()
        invariant
            i <= platforms@.len(),
            out@ == old(out)@ + bullets(page_labels(platforms@.take(i as int))),
        decreases platforms@.len() - i,
    {
        proof {
            assert(page_labels(platforms@.take(i + 1)).drop_last() =~= page_labels(
                platforms@.take(i as int),
            ));
        }
        out.append("    - ");
        out.append(platforms[i].page_label());
        out.append("\n");
        i = i + 1;
        assert(out@ =~= old(out)@ + bullets(page_labels(platforms@.take(i as int))));
    }
    assert(platforms@.take(i as int) =~= platforms@);
}

impl Client {
    /// The page of the client build.
    pub open spec fn spec_markdown(&self) -> Seq<char> {
        head(
            self.layout@,
            self.title@,
            text_of(self.slug),
            "client"@,
            self.description@,
            self.authors@,
            self.maturity,
            self.language@,
            self.license@,
        ) + "sdk:\n"@ + bullets(string_views(self.sdk@)) + "platform:\n"@ + bullets(
            page_labels(self.platforms@),
        ) + features_block(self.features) + tail(
            self.featured,
            text_of(self.repository),
            text_of(self.home),
            text_of(self.screenshot),
            text_of(self.icon),
            text_of(self.room),
            self.sort_order,
            self.full_description@,
        )
    }

    /// Renders the page of the client build.
    pub fn to_markdown(&self) -> (r: String)
        ensures
            r@ == self.spec_markdown(),
    {
        let mut out = String::new();
        push_head(
            &mut out,
            self.layout.as_str(),
            &self.title,
            &self.slug,
            "client",
            &self.description,
            &self.authors,
            self.maturity,
            &self.language,
            &self.license,
        );
        out.append("sdk:\n");
        push_bullets(&mut out, &self.sdk);
        out.append("platform:\n");
        push_platform_bullets(&mut out, &self.platforms);
        self.features.push_block(&mut out);
        push_tail(
            &mut out,
            self.featured,
            &self.repository,
            &self.home,
            &self.screenshot,
            &self.icon,
            &self.room,
            self.sort_order,
            &self.full_description,
        );
        assert(out@ =~= self.spec_markdown());
        out
    }

    /// The file name of the client build's page.
    pub fn filename(&self) -> (r: String)
        ensures
            r@ == page_filename_of(self.title@),
    {
        page_filename(self.title.as_str())
    }
}

impl CatalogEntry for Client {
    open spec fn roster_view(&self) -> ProjectView {
        entry_project(
            self.title@,
            self.description@,
            text_of(self.home),
            text_of(self.repository),
            self.authors@,
            "clients"@,
        )
    }

    fn to_project(&self) -> (r: Project) {
        Project::for_entry(
            &self.title,
            &self.description,
            &self.home,
            &self.repository,
            &self.authors,
            "clients",
        )
    }
}

} // verus!
