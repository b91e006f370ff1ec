//! The directory record of a client product: all builds that share an
//! identifier, merged into one record.

use vstd::prelude::*;

use crate::casing::{class_name, class_name_of};
use crate::client::{AppStoreDetails, Client, Platform};
use crate::front_matter::{author_list, push_author_list, text_of};
use crate::projects::Maturity;
use crate::text::{join, lemma_join_push, string_views};

verus! {

/// The merged record of all builds of one client product.
#[derive(Clone, Debug)]
pub struct ClientRecord {
    pub id: String,
    pub description: String,
    pub maturity: Maturity,
    pub author: String,
    pub platforms: Vec<Platform>,
    pub icon: Option<String>,
    pub home: Option<String>,
    pub appstore_details: Option<AppStoreDetails>,
    pub apple_associated_app_id: Option<String>,
    pub playstore_app_id: Option<String>,
    pub fdroid_app_id: Option<String>,
    pub flathub_app_id: Option<String>,
    pub otherinstall_link: Option<String>,
}

/// What a client record holds, as values.
pub struct ClientRecordView {
    pub id: Seq<char>,
    pub description: Seq<char>,
    pub maturity: Maturity,
    pub author: Seq<char>,
    pub platforms: Seq<Platform>,
    pub icon: Option<Seq<char>>,
    pub home: Option<Seq<char>>,
    pub appstore_details: Option<(Seq<char>, Seq<char>)>,
    pub apple_associated_app_id: Option<Seq<char>>,
    pub playstore_app_id: Option<Seq<char>>,
    pub fdroid_app_id: Option<Seq<char>>,
    pub flathub_app_id: Option<Seq<char>>,
    pub otherinstall_link: Option<Seq<char>>,
}

/// Why no record could be made for a client identifier.
#[derive(Clone, Debug)]
pub enum AggregateError {
    /// No build with this identifier runs on the desktop or the web, so none
    /// can give the product's description.
    NoDesktopOrWebBuild(String),
}

/// The organisation and app identifier of app store details.
pub open spec fn details_of(d: Option<AppStoreDetails>) -> Option<(Seq<char>, Seq<char>)> {
    match d {
        Some(d) => Some((d.org@, d.app_id@)),
        None => None,
    }
}

impl View for ClientRecord {
    type V = ClientRecordView;

    open spec fn view(&self) -> ClientRecordView {
        ClientRecordView {
            id: self.id@,
            description: self.description@,
            maturity: self.maturity,
            author: self.author@,
            platforms: self.platforms@,
            icon: text_of(self.icon),
            home: text_of(self.home),
            appstore_details: details_of(self.appstore_details),
            apple_associated_app_id: text_of(self.apple_associated_app_id),
            playstore_app_id: text_of(self.playstore_app_id),
            fdroid_app_id: text_of(self.fdroid_app_id),
            flathub_app_id: text_of(self.flathub_app_id),
            otherinstall_link: text_of(self.otherinstall_link),
        }
    }
}

/// The builds with the given identifier, in catalog order.
pub open spec fn builds_of(clients: Seq<Client>, id: Seq<char>) -> Seq<Client>
    decreases clients.len(),
{
    if clients.len() == 0 {
        Seq::empty()
    } else if clients.last().id@ == id {
        builds_of(clients.drop_last(), id).push(clients.last())
    } else {
        builds_of(clients.drop_last(), id)
    }
}

/// Whether a build runs on the desktop or the web, which makes its
/// description the product's.
pub open spec fn is_desktop_or_web(c: Client) -> bool {
    c.platforms@.contains(Platform::DesktopWeb) || c.platforms@.contains(Platform::Windows)
        || c.platforms@.contains(Platform::MacOS)
}

/// The first value that is present.
pub open spec fn first_some<T>(opts: Seq<Option<T>>) -> Option<T>
    decreases opts.len(),
{
    if opts.len() == 0 {
        None
    } else {
        match first_some(opts.drop_last()) {
            Some(x) => Some(x),
            None => opts.last(),
        }
    }
}

/// The description of the first desktop or web build.
pub open spec fn canonical_description(builds: Seq<Client>) -> Option<Seq<char>> {
    first_some(
        builds.map_values(
            |c: Client|
                if is_desktop_or_web(c) {
                    Some(c.description@)
                } else {
                    None
                },
        ),
    )
}

/// The least maturity of the builds; `Stable`, the top, where there are none.
pub open spec fn lowest_maturity(builds: Seq<Client>) -> Maturity
    decreases builds.len(),
{
    if builds.len() == 0 {
        Maturity::Stable
    } else {
        lowest_maturity(builds.drop_last()).lower(builds.last().maturity)
    }
}

/// `acc` followed by those of `items` that it does not hold yet, each once,
/// in the order they are first seen.
pub open spec fn first_seen<T>(acc: Seq<T>, items: Seq<T>) -> Seq<T>
    decreases items.len(),
{
    if items.len() == 0 {
        acc
    } else {
        let before = first_seen(acc, items.drop_last());
        if before.contains(items.last()) {
            before
        } else {
            before.push(items.last())
        }
    }
}

/// The platforms of all builds, each once, in the order first seen.
pub open spec fn merged_platforms(builds: Seq<Client>) -> Seq<Platform>
    decreases builds.len(),
{
    if builds.len() == 0 {
        Seq::empty()
    } else {
        first_seen(merged_platforms(builds.drop_last()), builds.last().platforms@)
    }
}

/// The credit of a product: its team where several builds share it, else
/// the authors of its one build.
pub open spec fn credit(id: Seq<char>, builds: Seq<Client>) -> Seq<char> {
    if builds.len() > 1 {
        id + " team"@
    } else {
        author_list(builds[0].authors@)
    }
}

/// The record of the product with this identifier, made of its builds.
pub open spec fn record_of(id: Seq<char>, builds: Seq<Client>) -> ClientRecordView {
    ClientRecordView {
        id: id,
        description: canonical_description(builds)->0,
        maturity: lowest_maturity(builds),
        author: credit(id, builds),
        platforms: merged_platforms(builds),
        icon: first_some(builds.map_values(|c: Client| text_of(c.icon))),
        home: first_some(builds.map_values(|c: Client| text_of(c.home))),
        appstore_details: first_some(
            builds.map_values(|c: Client| details_of(c.appstore_details)),
        ),
        apple_associated_app_id: first_some(
            builds.map_values(|c: Client| text_of(c.apple_associated_app_id)),
        ),
        playstore_app_id: first_some(builds.map_values(|c: Client| text_of(c.playstore_app_id))),
        fdroid_app_id: first_some(builds.map_values(|c: Client| text_of(c.fdroid_app_id))),
        flathub_app_id: first_some(builds.map_values(|c: Client| text_of(c.flathub_app_id))),
        otherinstall_link: first_some(
            builds.map_values(|c: Client| text_of(c.otherinstall_link)),
        ),
    }
}

proof fn lemma_first_some_step<T>(builds: Seq<Client>, c: Client, f: spec_fn(Client) -> Option<T>)
    ensures
        first_some(builds.push(c).map_values(f)) == match first_some(builds.map_values(f)) {
            Some(x) => Some(x),
            None => f(c),
        },
{
    assert(builds.push(c).map_values(f).drop_last() =~= builds.map_values(f));
}

proof fn lemma_builds_step(clients: Seq<Client>, id: Seq<char>, i: int)
    requires
        0 <= i < clients.len(),
    ensures
        builds_of(clients.take(i + 1), id) == if clients[i].id@ == id {
            builds_of(clients.take(i), id).push(clients[i])
        } else {
            builds_of(clients.take(i), id)
        },
{
    assert(clients.take(i + 1).drop_last() =~= clients.take(i));
}

proof fn lemma_first_some_needs_an_entry<T>(builds: Seq<Client>, f: spec_fn(Client) -> Option<T>)
    requires
        first_some(builds.map_values(f)) is Some,
    ensures
        builds.len() > 0,
{
}

/// Whether the platforms hold `p`.
fn has_platform(platforms: &Vec<Platform>, p: Platform) -> (r: bool)
    ensures
        r == platforms@.contains(p),
{
    let mut i: usize = 0;
    while i < platforms.len()
        invariant
            i <= platforms@.len(),
            forall|j: int| 0 <= j < i ==> platforms@[j] != p,
        decreases platforms@.len() - i,
    {
        if platforms[i] == p {
            return true;
        }
        i = i + 1;
    }
    false
}

/// Appends those of `items` that `acc` does not hold yet.
fn add_first_seen(acc: &mut Vec<Platform>, items: &Vec<Platform>)
    ensures
        final(acc)@ == first_seen(old(acc)@, items@),
{
    let mut i: usize = 0;
    while i < items.len()
        invariant
            i <= items@.len(),
            acc@ == first_seen(old(acc)@, items@.take(i as int)),
        decreases items@.len() - i,
    {
        assert(items@.take(i + 1).drop_last() =~= items@.take(i as int));
        let p = items[i];
        if !has_platform(acc, p) {
            acc.push(p);
        }
        i = i + 1;
    }
    assert(items@.take(i as int) =~= items@);
}

/// Keeps `acc` where it holds a value, else takes the candidate's.
fn keep_first(acc: &mut Option<String>, candidate: &Option<String>)
    ensures
        text_of(*final(acc)) == match text_of(*old(acc)) {
            Some(x) => Some(x),
            None => text_of(*candidate),
        },
{
    if acc.is_none() {
        match candidate {
            Some(s) => {
                *acc = Some(s.clone());
            },
            None => {},
        }
    }
}

/// Keeps `acc` where it holds details, else takes the candidate's.
fn keep_first_details(acc: &mut Option<AppStoreDetails>, candidate: &Option<AppStoreDetails>)
    ensures
        details_of(*final(acc)) == match details_of(*old(acc)) {
            Some(x) => Some(x),
            None => details_of(*candidate),
        },
{
    if acc.is_none() {
        match candidate {
            Some(d) => {
                *acc = Some(AppStoreDetails { org: d.org.clone(), app_id: d.app_id.clone() });
            },
            None => {},
        }
    }
}

/// Whether a build runs on the desktop or the web.
fn desktop_or_web(c: &Client) -> (r: bool)
    ensures
        r == is_desktop_or_web(*c),
{
    has_platform(&c.platforms, Platform::DesktopWeb) || has_platform(&c.platforms, Platform::Windows)
        || has_platform(&c.platforms, Platform::MacOS)
}

impl ClientRecord {
    /// Merges the builds of the catalog that carry `id` into one record: the
    /// description of the first desktop or web build, the least maturity, the
    /// team as author where there are several builds, the platforms of all
    /// builds each once, and each store link from the first build that has it.
    /// Fails where no such build runs on the desktop or the web.
    pub fn aggregate(id: &String, clients: &Vec<Client>) -> (r: Result<ClientRecord, AggregateError>)
        ensures
            r is Ok <==> canonical_description(builds_of(clients@, id@)) is Some,
            r matches Ok(rec) ==> rec@ == record_of(id@, builds_of(clients@, id@)),
            r matches Err(AggregateError::NoDesktopOrWebBuild(e)) ==> e@ == id@,
    {
        let ghost all = clients@;
        let mut count: usize = 0;
        let mut first: usize = 0;
        let mut description: Option<String> = None;
        let mut maturity = Maturity::Stable;
        let mut platforms: Vec<Platform> = Vec::new();
        let mut icon: Option<String> = None;
        let mut home: Option<String> = None;
        let mut appstore_details: Option<AppStoreDetails> = None;
        let mut apple_associated_app_id: Option<String> = None;
        let mut playstore_app_id: Option<String> = None;
        let mut fdroid_app_id: Option<String> = None;
        let mut flathub_app_id: Option<String> = None;
        let mut otherinstall_link: Option<String> = None;
        let mut i: usize = 0;
        while i < clients.len()
            invariant
                all == clients@,
                i <= all.len(),
                count <= i,
                count == builds_of(all.take(i as int), id@).len(),
                count > 0 ==> first < i && all[first as int] == builds_of(
                    all.take(i as int),
                    id@,
                )[0],
                text_of(description) == canonical_description(builds_of(all.take(i as int), id@)),
                maturity == lowest_maturity(builds_of(all.take(i as int), id@)),
                platforms@ == merged_platforms(builds_of(all.take(i as int), id@)),
                text_of(icon) == first_some(
                    builds_of(all.take(i as int), id@).map_values(|c: Client| text_of(c.icon)),
                ),
                text_of(home) == first_some(
                    builds_of(all.take(i as int), id@).map_values(|c: Client| text_of(c.home)),
                ),
                details_of(appstore_details) == first_some(
                    builds_of(all.take(i as int), id@).map_values(
                        |c: Client| details_of(c.appstore_details),
                    ),
                ),
                text_of(apple_associated_app_id) == first_some(
                    builds_of(all.take(i as int), id@).map_values(
                        |c: Client| text_of(c.apple_associated_app_id),
                    ),
                ),
                text_of(playstore_app_id) == first_some(
                    builds_of(all.take(i as int), id@).map_values(
                        |c: Client| text_of(c.playstore_app_id),
                    ),
                ),
                text_of(fdroid_app_id) == first_some(
                    builds_of(all.take(i as int), id@).map_values(
                        |c: Client| text_of(c.fdroid_app_id),
                    ),
                ),
                text_of(flathub_app_id) == first_some(
                    builds_of(all.take(i as int), id@).map_values(
                        |c: Client| text_of(c.flathub_app_id),
                    ),
                ),
                text_of(otherinstall_link) == first_some(
                    builds_of(all.take(i as int), id@).map_values(
                        |c: Client| text_of(c.otherinstall_link),
                    ),
                ),
            decreases all.len() - i,
        {
            let c = &clients[i];
            let ghost before = builds_of(all.take(i as int), id@);
            proof {
                lemma_builds_step(all, id@, i as int);
            }
            if c.id == *id {
                proof {
                    let after = before.push(*c);
                    assert(after.drop_last() =~= before);
                    lemma_first_some_step(
                        before,
                        *c,
                        |c: Client|
                            if is_desktop_or_web(c) {
                                Some(c.description@)
                            } else {
                                None
                            },
                    );
                    lemma_first_some_step(before, *c, |c: Client| text_of(c.icon));
                    lemma_first_some_step(before, *c, |c: Client| text_of(c.home));
                    lemma_first_some_step(before, *c, |c: Client| details_of(c.appstore_details));
                    lemma_first_some_step(
                        before,
                        *c,
                        |c: Client| text_of(c.apple_associated_app_id),
                    );
                    lemma_first_some_step(before, *c, |c: Client| text_of(c.playstore_app_id));
                    lemma_first_some_step(before, *c, |c: Client| text_of(c.fdroid_app_id));
                    lemma_first_some_step(before, *c, |c: Client| text_of(c.flathub_app_id));
                    lemma_first_some_step(before, *c, |c: Client| text_of(c.otherinstall_link));
                }
                if count == 0 {
                    first = i;
                }
                count = count + 1;
                if description.is_none() && desktop_or_web(c) {
                    description = Some(c.description.clone());
                }
                maturity = maturity.least(c.maturity);
                add_first_seen(&mut platforms, &c.platforms);
                keep_first(&mut icon, &c.icon);
                keep_first(&mut home, &c.home);
                keep_first_details(&mut appstore_details, &c.appstore_details);
                keep_first(&mut apple_associated_app_id, &c.apple_associated_app_id);
                keep_first(&mut playstore_app_id, &c.playstore_app_id);
                keep_first(&mut fdroid_app_id, &c.fdroid_app_id);
                keep_first(&mut flathub_app_id, &c.flathub_app_id);
                keep_first(&mut otherinstall_link, &c.otherinstall_link);
            }
            i = i + 1;
        }
        proof {
            assert(all.take(i as int) =~= all);
        }
        let ghost builds = builds_of(all, id@);
        match description {
            None => Err(AggregateError::NoDesktopOrWebBuild(id.clone())),
            Some(description) => {
                proof {
                    lemma_first_some_needs_an_entry(
                        builds,
                        |c: Client|
                            if is_desktop_or_web(c) {
                                Some(c.description@)
                            } else {
                                None
                            },
                    );
                }
                let mut author = String::new();
                if count > 1 {
                    author.append(id.as_str());
                    author.append(" team");
                } else {
                    push_author_list(&mut author, &clients[first].authors);
                }
                assert(author@ =~= credit(id@, builds));
                Ok(
                    ClientRecord {
                        id: id.clone(),
                        description,
                        maturity,
                        author,
                        platforms,
                        icon,
                        home,
                        appstore_details,
                        apple_associated_app_id,
                        playstore_app_id,
                        fdroid_app_id,
                        flathub_app_id,
                        otherinstall_link,
                    },
                )
            },
        }
    }
}

/// The name of a platform in the directory's code.
pub open spec fn js_platform(p: Platform) -> Seq<char> {
    match p {
        Platform::Linux => "Platform.Linux"@,
        Platform::Android => "Platform.Android"@,
        Platform::MacOS => "Platform.macOS"@,
        Platform::Ios => "Platform.iOS"@,
        Platform::Windows => "Platform.Windows"@,
        Platform::DesktopWeb => "Platform.DesktopWeb"@,
        Platform::MobileWeb => "Platform.MobileWeb"@,
    }
}

impl Platform {
    /// The name of the platform in the directory's code.
    pub fn js_name(&self) -> (r: &'static str)
        ensures
            r@ == js_platform(*self),
    {
        match self {
            Platform::Linux => "Platform.Linux",
            Platform::Android => "Platform.Android",
            Platform::MacOS => "Platform.macOS",
            Platform::Ios => "Platform.iOS",
            Platform::Windows => "Platform.Windows",
            Platform::DesktopWeb => "Platform.DesktopWeb",
            Platform::MobileWeb => "Platform.MobileWeb",
        }
    }
}

/// The code names of the platforms, in order.
pub open spec fn js_platforms(platforms: Seq<Platform>) -> Seq<Seq<char>> {
    platforms.map_values(|p: Platform| js_platform(p))
}

/// One property of the data object.
pub open spec fn js_property(key: Seq<char>, value: Seq<char>) -> Seq<char> {
    "    \""@ + key + "\": "@ + value + ",\n"@
}

/// A text in double quotes.
pub open spec fn quoted(v: Seq<char>) -> Seq<char> {
    "\""@ + v + "\""@
}

/// A property with a quoted text, only where the text is present.
pub open spec fn optional_js_text(key: Seq<char>, value: Option<Seq<char>>) -> Seq<char> {
    match value {
        Some(v) => js_property(key, quoted(v)),
        None => Seq::empty(),
    }
}

/// A property holding an install link of the given kind, only where the
/// link target is present.
pub open spec fn optional_js_link(key: Seq<char>, kind: Seq<char>, value: Option<Seq<char>>) -> Seq<
    char,
> {
    match value {
        Some(v) => js_property(key, "new "@ + kind + "('"@ + v + "')"@),
        None => Seq::empty(),
    }
}

/// The app store link property, only where details are present.
pub open spec fn optional_js_store(value: Option<(Seq<char>, Seq<char>)>) -> Seq<char> {
    match value {
        Some((org, app_id)) => js_property(
            "applestorelink"@,
            "new AppleStoreLink('"@ + org + "', '"@ + app_id + "')"@,
        ),
        None => Seq::empty(),
    }
}

/// The properties that every client record has.
pub open spec fn record_js_required(r: ClientRecordView) -> Seq<char> {
    js_property("id"@, quoted(r.id)) + js_property(
        "platforms"@,
        "["@ + join(js_platforms(r.platforms), ", "@) + "]"@,
    ) + js_property("name"@, quoted(r.id)) + js_property("description"@, quoted(r.description))
        + js_property("author"@, quoted(r.author)) + js_property(
        "maturity"@,
        "Maturity."@ + r.maturity.spec_name(),
    )
}

/// The icon, home page and install links of a client record, each only
/// where the record has it.
pub open spec fn record_js_links(r: ClientRecordView) -> Seq<char> {
    optional_js_text("icon"@, r.icon) + optional_js_text("home"@, r.home) + optional_js_store(
        r.appstore_details,
    ) + optional_js_text("appleAssociatedAppId"@, r.apple_associated_app_id) + optional_js_link(
        "playstorelink"@,
        "PlayStoreLink"@,
        r.playstore_app_id,
    ) + optional_js_link("fdroidlink"@, "FDroidLink"@, r.fdroid_app_id) + optional_js_link(
        "flathublink"@,
        "FlathubLink"@,
        r.flathub_app_id,
    ) + optional_js_link("defaultInstallLink"@, "WebsiteLink"@, r.otherinstall_link)
}

/// The data file of a client record: a module exporting the record as an
/// object, its links present only where the record has them.
pub open spec fn record_js(r: ClientRecordView) -> Seq<char> {
    "import {Maturity, Platform, FDroidLink, AppleStoreLink, PlayStoreLink, WebsiteLink, FlathubLink} from \"../types.js\";\n"@
        + "export const data = {\n"@ + record_js_required(r) + record_js_links(r) + "};"@
}

fn push_property_start(out: &mut String, key: &str)
    ensures
        final(out)@ == old(out)@ + "    \""@ + key@ + "\": "@,
{
    out.append("    \"");
    out.append(key);
    out.append("\": ");
}

fn push_js_text(out: &mut String, key: &str, value: &str)
    ensures
        final(out)@ == old(out)@ + js_property(key@, quoted(value@)),
{
    push_property_start(out, key);
    out.append("\"");
    out.append(value);
    out.append("\"");
    out.append(",\n");
    assert(out@ =~= old(out)@ + js_property(key@, quoted(value@)));
}

fn push_optional_js_text(out: &mut String, key: &str, value: &Option<String>)
    ensures
        final(out)@ == old(out)@ + optional_js_text(key@, text_of(*value)),
{
    match value {
        Some(v) => push_js_text(out, key, v.as_str()),
        None => {
            assert(out@ =~= old(out)@ + optional_js_text(key@, text_of(*value)));
        },
    }
}

fn push_optional_js_link(out: &mut String, key: &str, kind: &str, value: &Option<String>)
    ensures
        final(out)@ == old(out)@ + optional_js_link(key@, kind@, text_of(*value)),
{
    match value {
        Some(v) => {
            push_property_start(out, key);
            out.append("new ");
            out.append(kind);
            out.append("('");
            out.append(v.as_str());
            out.append("')");
            out.append(",\n");
        },
        None => {},
    }
    assert(out@ =~= old(out)@ + optional_js_link(key@, kind@, text_of(*value)));
}

fn push_optional_js_store(out: &mut String, value: &Option<AppStoreDetails>)
    ensures
        final(out)@ == old(out)@ + optional_js_store(details_of(*value)),
{
    match value {
        Some(d) => {
            push_property_start(out, "applestorelink");
            out.append("new AppleStoreLink('");
            out.append(d.org.as_str());
            out.append("', '");
            out.append(d.app_id.as_str());
            out.append("')");
            out.append(",\n");
        },
        None => {},
    }
    assert(out@ =~= old(out)@ + optional_js_store(details_of(*value)));
}

fn push_js_platforms(out: &mut String, platforms: &Vec<Platform>)
    ensures
        final(out)@ == old(out)@ + join(js_platforms(platforms@), ", "@),
{
    let mut i: usize = 0;
    while i < platforms.len()
        invariant
            i <= platforms@.len(),
            out@ == old(out)@ + join(js_platforms(platforms@.take(i as int)), ", "@),
        decreases platforms@.len() - i,
    {
        proof {
            assert(js_platforms(platforms@.take(i + 1)) =~= js_platforms(
                platforms@.take(i as int),
            ).push(js_platform(platforms@[i as int])));
            lemma_join_push(
                js_platforms(platforms@.take(i as int)),
                js_platform(platforms@[i as int]),
                ", "@,
            );
        }
        if i > 0 {
            out.append(", ");
        }
        out.append(platforms[i].js_name());
        i = i + 1;
        assert(out@ =~= old(out)@ + join(js_platforms(platforms@.take(i as int)), ", "@));
    }
    assert(platforms@.take(i as int) =~= platforms@);
}

fn push_js_platform_list(out: &mut String, platforms: &Vec<Platform>)
    ensures
        final(out)@ == old(out)@ + js_property(
            "platforms"@,
            "["@ + join(js_platforms(platforms@), ", "@) + "]"@,
        ),
{
    push_property_start(out, "platforms");
    out.append("[");
    push_js_platforms(out, platforms);
    out.append("]");
    out.append(",\n");
    assert(out@ =~= old(out)@ + js_property(
        "platforms"@,
        "["@ + join(js_platforms(platforms@), ", "@) + "]"@,
    ));
}

fn push_js_maturity(out: &mut String, maturity: Maturity)
    ensures
        final(out)@ == old(out)@ + js_property("maturity"@, "Maturity."@ + maturity.spec_name()),
{
    push_property_start(out, "maturity");
    out.append("Maturity.");
    out.append(maturity.name());
    out.append(",\n");
    assert(out@ =~= old(out)@ + js_property("maturity"@, "Maturity."@ + maturity.spec_name()));
}

impl ClientRecord {
    fn push_required(&self, out: &mut String)
        ensures
            final(out)@ == old(out)@ + record_js_required(self@),
    {
        push_js_text(out, "id", self.id.as_str());
        push_js_platform_list(out, &self.platforms);
        push_js_text(out, "name", self.id.as_str());
        push_js_text(out, "description", self.description.as_str());
        push_js_text(out, "author", self.author.as_str());
        push_js_maturity(out, self.maturity);
    }

    fn push_links(&self, out: &mut String)
        ensures
            final(out)@ == old(out)@ + record_js_links(self@),
    {
        push_optional_js_text(out, "icon", &self.icon);
        push_optional_js_text(out, "home", &self.home);
        push_optional_js_store(out, &self.appstore_details);
        push_optional_js_text(out, "appleAssociatedAppId", &self.apple_associated_app_id);
        push_optional_js_link(out, "playstorelink", "PlayStoreLink", &self.playstore_app_id);
        push_optional_js_link(out, "fdroidlink", "FDroidLink", &self.fdroid_app_id);
        push_optional_js_link(out, "flathublink", "FlathubLink", &self.flathub_app_id);
        push_optional_js_link(out, "defaultInstallLink", "WebsiteLink", &self.otherinstall_link);
        assert(out@ =~= old(out)@ + record_js_links(self@));
    }

    /// Renders the record as the directory's data module.
    pub fn to_js(&self) -> (r: String)
        ensures
            r@ == record_js(self@),
    {
        let mut out = String::new();
        out.append(
            "import {Maturity, Platform, FDroidLink, AppleStoreLink, PlayStoreLink, WebsiteLink, FlathubLink} from \"../types.js\";\n",
        );
        out.append("export const data = {\n");
        self.push_required(&mut out);
        self.push_links(&mut out);
        out.append("};");
        assert(out@ =~= record_js(self@));
        out
    }
}

/// The licence notice at the top of each generated module.
pub open spec fn licence_notice() -> Seq<char> {
    "/*\nCopyright 2020 The Matrix.org Foundation C.I.C.\nLicensed under the Apache License, Version 2.0 (the \"License\");\nyou may not use this file except in compliance with the License.\nYou may obtain a copy of the License at\n    http://www.apache.org/licenses/LICENSE-2.0\nUnless required by applicable law or agreed to in writing, software\ndistributed under the License is distributed on an \"AS IS\" BASIS,\nWITHOUT WARRANTIES OR CONDITIONS OF ANY KIND, either express or implied.\nSee the License for the specific language governing permissions and\nlimitations under the License.\n*/"@
}

fn push_licence_notice(out: &mut String)
    ensures
        final(out)@ == old(out)@ + licence_notice(),
{
    out.append(
        "/*\nCopyright 2020 The Matrix.org Foundation C.I.C.\nLicensed under the Apache License, Version 2.0 (the \"License\");\nyou may not use this file except in compliance with the License.\nYou may obtain a copy of the License at\n    http://www.apache.org/licenses/LICENSE-2.0\nUnless required by applicable law or agreed to in writing, software\ndistributed under the License is distributed on an \"AS IS\" BASIS,\nWITHOUT WARRANTIES OR CONDITIONS OF ANY KIND, either express or implied.\nSee the License for the specific language governing permissions and\nlimitations under the License.\n*/",
    );
}

/// The module of a client class, which builds the client from its data file.
pub open spec fn class_module(name: Seq<char>) -> Seq<char> {
    licence_notice()
        + "\n\nimport {Platform, LinkKind} from \"../types.js\";\nimport {Client} from \"./Client.js\";\nimport {data} from \"./"@
        + name + "-data.js\";\n\nexport class "@ + name
        + " extends Client {\n    constructor() {\n        super(data);\n    }\n}"@
}

/// The import of one client class in the index.
pub open spec fn class_import(name: Seq<char>) -> Seq<char> {
    "import {"@ + name + "} from \"./"@ + name + ".js\";"@
}

/// The construction of one client in the index.
pub open spec fn class_instance(name: Seq<char>) -> Seq<char> {
    "new "@ + name + "()"@
}

/// The class names of the clients, each once, in catalog order.
pub open spec fn index_names(clients: Seq<Client>) -> Seq<Seq<char>> {
    first_seen(Seq::empty(), clients.map_values(|c: Client| class_name_of(c.id@)))
}

/// The index module, which imports every client class once and constructs
/// one client of each.
pub open spec fn index_module(names: Seq<Seq<char>>) -> Seq<char> {
    licence_notice() + "\n\n"@ + join(names.map_values(|n: Seq<char>| class_import(n)), "\n"@)
        + "\n\nexport function createClients() {\n    return [\n        "@ + join(
        names.map_values(|n: Seq<char>| class_instance(n)),
        ",\n        "@,
    ) + "\n    ];\n}"@
}

/// Whether `names` holds a string with the text of `name`.
fn has_text(names: &Vec<String>, name: &String) -> (r: bool)
    ensures
        r == string_views(names@).contains(name@),
{
    let mut i: usize = 0;
    while i < names.len()
        invariant
            i <= names@.len(),
            forall|j: int| 0 <= j < i ==> names@[j]@ != name@,
        decreases names@.len() - i,
    {
        if names[i] == *name {
            assert(string_views(names@)[i as int] == name@);
            return true;
        }
        i = i + 1;
    }
    assert forall|j: int| 0 <= j < string_views(names@).len() implies string_views(
        names@,
    )[j] != name@ by {}
    false
}

/// Those of the texts not seen before, each once, in order.
pub fn unique_texts(texts: &Vec<String>) -> (r: Vec<String>)
    ensures
        string_views(r@) == first_seen(Seq::empty(), string_views(texts@)),
{
    let ghost all = string_views(texts@);
    let mut names: Vec<String> = Vec::new();
    let mut i: usize = 0;
    while i < texts.len()
        invariant
            i <= texts@.len(),
            all == string_views(texts@),
            string_views(names@) == first_seen(Seq::empty(), all.take(i as int)),
        decreases texts@.len() - i,
    {
        assert(all.take(i + 1).drop_last() =~= all.take(i as int));
        if !has_text(&names, &texts[i]) {
            let ghost before = names@;
            names.push(texts[i].clone());
            assert(string_views(names@) =~= string_views(before).push(all[i as int]));
        }
        i = i + 1;
    }
    assert(all.take(i as int) =~= all);
    names
}

/// The class module for a client class of this name.
pub fn class_module_text(name: &str) -> (r: String)
    ensures
        r@ == class_module(name@),
{
    let mut out = String::new();
    push_licence_notice(&mut out);
    out.append(
        "\n\nimport {Platform, LinkKind} from \"../types.js\";\nimport {Client} from \"./Client.js\";\nimport {data} from \"./",
    );
    out.append(name);
    out.append("-data.js\";\n\nexport class ");
    out.append(name);
    out.append(" extends Client {\n    constructor() {\n        super(data);\n    }\n}");
    assert(out@ =~= class_module(name@));
    out
}

/// The index module for these client class names, in order.
pub fn index_text(names: &Vec<String>) -> (r: String)
    ensures
        r@ == index_module(string_views(names@)),
{
    let ghost views = string_views(names@);
    let mut out = String::new();
    push_licence_notice(&mut out);
    out.append("\n\n");
    let ghost start = out@;
    let mut i: usize = 0;
    while i < names.len()
        invariant
            i <= names@.len(),
            views == string_views(names@),
            out@ == start + join(
                views.take(i as int).map_values(|n: Seq<char>| class_import(n)),
                "\n"@,
            ),
        decreases names@.len() - i,
    {
        proof {
            assert(views.take(i + 1).map_values(|n: Seq<char>| class_import(n)) =~= views.take(
                i as int,
            ).map_values(|n: Seq<char>| class_import(n)).push(class_import(views[i as int])));
            lemma_join_push(
                views.take(i as int).map_values(|n: Seq<char>| class_import(n)),
                class_import(views[i as int]),
                "\n"@,
            );
        }
        if i > 0 {
            out.append("\n");
        }
        out.append("import {");
        out.append(names[i].as_str());
        out.append("} from \"./");
        out.append(names[i].as_str());
        out.append(".js\";");
        i = i + 1;
        assert(out@ =~= start + join(
            views.take(i as int).map_values(|n: Seq<char>| class_import(n)),
            "\n"@,
        ));
    }
    assert(views.take(i as int) =~= views);
    out.append("\n\nexport function createClients() {\n    return [\n        ");
    let ghost middle = out@;
    let mut k: usize = 0;
    while k < names.len()
        invariant
            k <= names@.len(),
            views == string_views(names@),
            out@ == middle + join(
                views.take(k as int).map_values(|n: Seq<char>| class_instance(n)),
                ",\n        "@,
            ),
        decreases names@.len() - k,
    {
        proof {
            assert(views.take(k + 1).map_values(|n: Seq<char>| class_instance(n)) =~= views.take(
                k as int,
            ).map_values(|n: Seq<char>| class_instance(n)).push(class_instance(views[k as int])));
            lemma_join_push(
                views.take(k as int).map_values(|n: Seq<char>| class_instance(n)),
                class_instance(views[k as int]),
                ",\n        "@,
            );
        }
        if k > 0 {
            out.append(",\n        ");
        }
        out.append("new ");
        out.append(names[k].as_str());
        out.append("()");
        k = k + 1;
        assert(out@ =~= middle + join(
            views.take(k as int).map_values(|n: Seq<char>| class_instance(n)),
            ",\n        "@,
        ));
    }
    assert(views.take(k as int) =~= views);
    out.append("\n    ];\n}");
    assert(out@ =~= index_module(views));
    out
}

impl Client {
    /// The class name of the client product, made from its identifier.
    pub fn matrixto_filename(&self) -> (r: String)
        ensures
            r@ == class_name_of(self.id@),
    {
        class_name(self.id.as_str())
    }

    /// The data module of the product with this identifier, merged from all
    /// its builds; fails where none of them runs on the desktop or the web.
    pub fn matrixto_join_file(id: String, clients: Vec<Client>) -> (r: Result<String, AggregateError>)
        ensures
            r is Ok <==> canonical_description(builds_of(clients@, id@)) is Some,
            r matches Ok(s) ==> s@ == record_js(record_of(id@, builds_of(clients@, id@))),
            r matches Err(AggregateError::NoDesktopOrWebBuild(e)) ==> e@ == id@,
    {
        match ClientRecord::aggregate(&id, &clients) {
            Ok(record) => Ok(record.to_js()),
            Err(e) => Err(e),
        }
    }

    /// The class module of the client product.
    pub fn matrixto_template_file(&self) -> (r: String)
        ensures
            r@ == class_module(class_name_of(self.id@)),
    {
        class_module_text(self.matrixto_filename().as_str())
    }

    /// The class names of the client products, each once, in catalog order.
    pub fn matrixto_names(clients: &Vec<Client>) -> (r: Vec<String>)
        ensures
            string_views(r@) == index_names(clients@),
    {
        let mut names: Vec<String> = Vec::new();
        let mut i: usize = 0;
        while i < clients.len()
            invariant
                i <= clients@.len(),
                string_views(names@) == clients@.take(i as int).map_values(
                    |c: Client| class_name_of(c.id@),
                ),
            decreases clients@.len() - i,
        {
            let ghost before = names@;
            names.push(clients[i].matrixto_filename());
            assert(string_views(names@) =~= string_views(before).push(class_name_of(clients@[i as int].id@)));
            assert(clients@.take(i + 1).map_values(|c: Client| class_name_of(c.id@)) =~= clients@.take(
                i as int,
            ).map_values(|c: Client| class_name_of(c.id@)).push(class_name_of(clients@[i as int].id@)));
            i = i + 1;
        }
        assert(clients@.take(i as int) =~= clients@);
        unique_texts(&names)
    }

    /// The index module of all client products: each class imported once and
    /// one client of each constructed, in catalog order.
    pub fn matrixto_index(clients: Vec<Client>) -> (r: String)
        ensures
            r@ == index_module(index_names(clients@)),
    {
        let names = Client::matrixto_names(&clients);
        index_text(&names)
    }
}

} // verus!
