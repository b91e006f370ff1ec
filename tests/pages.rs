use catalog_sync::bot::Bot;
use catalog_sync::bridge::Bridge;
use catalog_sync::client::{Client, Features, Platform};
use catalog_sync::iot::Iot;
use catalog_sync::other::Other;
use catalog_sync::projects::{Author, Maturity};
use catalog_sync::sdk::Sdk;
use catalog_sync::server::Server;

fn author(name: &str, matrix_id: Option<&str>) -> Author {
    Author {
        name: name.to_string(),
        matrix_id: matrix_id.map(|m| m.to_string()),
    }
}

fn features(verdict: &str) -> Features {
    Features {
        e2ee: format!("{verdict}1"),
        widgets: format!("{verdict}2"),
        spaces: format!("{verdict}3"),
        room_directory: format!("{verdict}4"),
        read_receipts: format!("{verdict}5"),
        typing_indicators: format!("{verdict}6"),
        edits: format!("{verdict}7"),
        replies: format!("{verdict}8"),
        threads: format!("{verdict}9"),
        attachments: format!("{verdict}10"),
        multi_account: format!("{verdict}11"),
        registration: format!("{verdict}12"),
        calls: format!("{verdict}13"),
        reactions: format!("{verdict}14"),
        sso: format!("{verdict}15"),
        localised: format!("{verdict}16"),
    }
}

fn client(title: &str) -> Client {
    Client {
        layout: "projectimage".to_string(),
        id: "element.io".to_string(),
        title: title.to_string(),
        slug: Some("element".to_string()),
        description: "A glossy client".to_string(),
        authors: vec![author("Element", None)],
        maturity: Maturity::Stable,
        language: "JavaScript".to_string(),
        license: "Apache-2.0".to_string(),
        repository: None,
        home: Some("https://element.io/".to_string()),
        screenshot: None,
        icon: None,
        room: None,
        sdk: vec!["matrix-js-sdk".to_string(), "matrix-react-sdk".to_string()],
        platforms: vec![Platform::Linux, Platform::MacOS, Platform::DesktopWeb],
        featured: true,
        sort_order: None,
        features: features("Yes"),
        appstore_details: None,
        apple_associated_app_id: None,
        playstore_app_id: None,
        fdroid_app_id: None,
        flathub_app_id: None,
        otherinstall_link: None,
        full_description: "Body".to_string(),
    }
}

fn bot() -> Bot {
    Bot {
        layout: "project".to_string(),
        title: "Maubot".to_string(),
        description: "A plugin-based bot".to_string(),
        authors: vec![
            author("Tulir", Some("@tulir:maunium.net")),
            author("Team", None),
        ],
        maturity: Maturity::Beta,
        language: "Python".to_string(),
        license: "AGPL-3.0".to_string(),
        repository: Some("https://github.com/maubot/maubot".to_string()),
        home: None,
        screenshot: None,
        icon: Some("/icon.png".to_string()),
        room: Some("#maubot:maunium.net".to_string()),
        featured: false,
        sort_order: Some(-3),
        full_description: "Long text.".to_string(),
    }
}

#[test]
fn bot_page_keeps_field_order_and_skips_absent_fields() {
    let expected = "---\nlayout: project\ntitle: Maubot\ncategories:\n - bot\n\
        description: A plugin-based bot\nauthor: Tulir @tulir:maunium.net, Team \n\
        maturity: Beta\nlanguage: Python\nlicense: AGPL-3.0\nfeatured: false\n\
        repo: https://github.com/maubot/maubot\nthumbnail: /icon.png\n\
        room: \"#maubot:maunium.net\"\nsort_order: -3\n---\nLong text.\n";
    assert_eq!(bot().to_markdown(), expected);
}

#[test]
fn page_with_every_optional_field_lists_them_in_fixed_order() {
    let mut b = bot();
    b.home = Some("https://maubot.xyz".to_string());
    b.screenshot = Some("/shot.png".to_string());
    b.sort_order = Some(12);
    let page = b.to_markdown();
    let keys: Vec<&str> = page
        .lines()
        .filter_map(|l| l.split(':').next())
        .collect();
    let order = [
        "layout", "title", "categories", " - bot", "description", "author", "maturity",
        "language", "license", "featured", "repo", "home", "screenshot", "thumbnail", "room",
        "sort_order",
    ];
    assert_eq!(&keys[1..17], &order[..]);
    assert!(page.contains("sort_order: 12\n"));
}

#[test]
fn page_without_optional_fields_has_no_blank_lines() {
    let mut b = bot();
    b.repository = None;
    b.icon = None;
    b.room = None;
    b.sort_order = None;
    let page = b.to_markdown();
    assert!(page.contains("featured: false\n---\nLong text.\n"));
    assert!(!page.contains("\n\n"));
}

#[test]
fn bot_without_authors_has_empty_credit() {
    let mut b = bot();
    b.authors = vec![];
    assert!(b.to_markdown().contains("\nauthor: \nmaturity: Beta\n"));
}

#[test]
fn bridge_page_derives_layout_and_lists_networks() {
    let bridge = Bridge {
        title: "mautrix-telegram".to_string(),
        description: "A Telegram bridge".to_string(),
        authors: vec![author("Tulir", Some("@tulir:maunium.net"))],
        maturity: Maturity::Stable,
        language: "Python".to_string(),
        license: "AGPL-3.0".to_string(),
        repository: None,
        home: None,
        screenshot: None,
        icon: None,
        room: None,
        featured: true,
        sort_order: None,
        bridges: vec!["Telegram".to_string(), "Signal".to_string()],
        full_description: "Bridges chats.".to_string(),
    };
    let expected = "---\nlayout: project\ntitle: mautrix-telegram\ncategories:\n - bridge\n\
        description: A Telegram bridge\nauthor: Tulir @tulir:maunium.net\nmaturity: Stable\n\
        language: Python\nlicense: AGPL-3.0\nbridges: Telegram, Signal\nfeatured: true\n\
        ---\nBridges chats.\n";
    assert_eq!(bridge.to_markdown(), expected);
    let mut with_icon = bridge.clone();
    with_icon.icon = Some("/t.png".to_string());
    assert!(with_icon.to_markdown().starts_with("---\nlayout: projectimage\n"));
    assert!(with_icon.to_markdown().contains("featured: true\nthumbnail: /t.png\n---\n"));
}

#[test]
fn client_page_has_lists_and_features_block() {
    let expected = "---\nlayout: projectimage\ntitle: Element Web/Desktop\nslug: element\n\
        categories:\n - client\ndescription: A glossy client\nauthor: Element \n\
        maturity: Stable\nlanguage: JavaScript\nlicense: Apache-2.0\n\
        sdk:\n    - matrix-js-sdk\n    - matrix-react-sdk\n\
        platform:\n    - Linux\n    - macOS\n    - Web\n\
        features:\n    E2EE: Yes1\n    Widgets: Yes2\n    Spaces: Yes3\n    Room directory: Yes4\n\
        \x20   Read receipts: Yes5\n    Typing indicators: Yes6\n    Edits: Yes7\n    Replies: Yes8\n\
        \x20   Threads: Yes9\n    Attachments: Yes10\n    Multi accounts: Yes11\n\
        \x20   Registration: Yes12\n    Calls: Yes13\n    Reactions: Yes14\n    SSO: Yes15\n\
        \x20   Localised: Yes16\nfeatured: true\nhome: https://element.io/\n---\nBody\n";
    assert_eq!(client("Element Web/Desktop").to_markdown(), expected);
}

#[test]
fn features_block_always_has_sixteen_lines() {
    let mut c = client("Nheko");
    c.features = features("Partial");
    let page = c.to_markdown();
    let start = page.find("features:\n").unwrap() + "features:\n".len();
    let lines: Vec<&str> = page[start..]
        .lines()
        .take_while(|l| l.starts_with("    "))
        .collect();
    assert_eq!(lines.len(), 16);
    assert_eq!(lines[0], "    E2EE: Partial1");
    assert_eq!(lines[15], "    Localised: Partial16");
}

#[test]
fn both_web_platforms_read_web_on_the_page() {
    let mut c = client("Hydrogen");
    c.platforms = vec![Platform::MobileWeb, Platform::Ios, Platform::Android, Platform::Windows];
    assert!(c
        .to_markdown()
        .contains("platform:\n    - Web\n    - iOS\n    - Android\n    - Windows\nfeatures:\n"));
}

#[test]
fn filename_replaces_slashes_before_case_folding() {
    assert_eq!(client("Element Web/Desktop").filename(), "element-web-desktop.mdx");
    assert_eq!(client("Foo\\Bar Baz").filename(), "foo-bar-baz.mdx");
    let mut b = bot();
    b.title = "Matrix Reminder Bot".to_string();
    assert_eq!(b.filename(), "matrix-reminder-bot.mdx");
}

#[test]
fn other_iot_sdk_and_server_pages_name_their_category() {
    let other = Other {
        layout: "project".to_string(),
        title: "Thing".to_string(),
        description: "d".to_string(),
        authors: vec![author("A", Some("@a:b.c"))],
        maturity: Maturity::Alpha,
        language: "Rust".to_string(),
        license: "MIT".to_string(),
        repository: None,
        home: None,
        screenshot: None,
        icon: None,
        room: Some("#r:b.c".to_string()),
        featured: false,
        sort_order: None,
        full_description: "x".to_string(),
    };
    let expected = "---\nlayout: project\ntitle: Thing\ncategories:\n - other\ndescription: d\n\
        author: A @a:b.c\nmaturity: Alpha\nlanguage: Rust\nlicense: MIT\nfeatured: false\n\
        room: \"#r:b.c\"\n---\nx\n";
    assert_eq!(other.to_markdown(), expected);
    assert_eq!(other.filename(), "thing.mdx");

    let sdk = Sdk {
        layout: "project".to_string(),
        title: "matrix-rust-sdk".to_string(),
        description: "d".to_string(),
        authors: vec![],
        maturity: Maturity::Obsolete,
        language: "Rust".to_string(),
        license: "Apache-2.0".to_string(),
        repository: None,
        home: None,
        screenshot: None,
        icon: None,
        room: None,
        featured: false,
        sort_order: Some(0),
        full_description: "x".to_string(),
    };
    assert!(sdk.to_markdown().contains(" - sdk\n"));
    assert!(sdk.to_markdown().contains("maturity: Obsolete\n"));
    assert!(sdk.to_markdown().contains("featured: false\nsort_order: 0\n---\n"));

    let iot = Iot {
        title: "Home Assistant".to_string(),
        description: "d".to_string(),
        authors: vec![],
        maturity: Maturity::Beta,
        language: "Python".to_string(),
        license: "Apache-2.0".to_string(),
        repository: None,
        home: None,
        screenshot: None,
        icon: Some("/ha.png".to_string()),
        room: None,
        featured: false,
        sort_order: None,
        full_description: "x".to_string(),
    };
    assert!(iot.to_markdown().starts_with("---\nlayout: projectimage\ntitle: Home Assistant\ncategories:\n - iot\n"));
    assert_eq!(iot.filename(), "home-assistant.mdx");

    let server = Server {
        title: "Synapse".to_string(),
        description: "d".to_string(),
        authors: vec![],
        maturity: Maturity::Stable,
        language: "Python".to_string(),
        license: "AGPL-3.0".to_string(),
        repository: None,
        home: None,
        screenshot: None,
        icon: None,
        room: None,
        featured: true,
        sort_order: Some(-2147483648),
        full_description: "x".to_string(),
    };
    assert!(server.to_markdown().starts_with("---\nlayout: project\ntitle: Synapse\ncategories:\n - server\n"));
    assert!(server.to_markdown().contains("sort_order: -2147483648\n"));
}

#[test]
fn maturity_names() {
    assert_eq!(Maturity::Obsolete.name(), "Obsolete");
    assert_eq!(Maturity::Alpha.name(), "Alpha");
    assert_eq!(Maturity::Beta.name(), "Beta");
    assert_eq!(Maturity::Stable.name(), "Stable");
}

#[test]
fn lowest_maturity_of_alpha_stable_obsolete_is_obsolete() {
    let levels = vec![Maturity::Alpha, Maturity::Stable, Maturity::Obsolete];
    assert_eq!(Maturity::lowest(&levels), Some(Maturity::Obsolete));
    assert_eq!(Maturity::lowest(&vec![]), None);
    assert_eq!(Maturity::Beta.least(Maturity::Alpha), Maturity::Alpha);
    assert_eq!(Maturity::Alpha.least(Maturity::Stable), Maturity::Alpha);
}
