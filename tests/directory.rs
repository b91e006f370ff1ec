use catalog_sync::client::{AppStoreDetails, Client, Features, Platform};
use catalog_sync::matrixto::{AggregateError, ClientRecord};
use catalog_sync::projects::{Author, Maturity};

fn features() -> Features {
    let v = || "Yes".to_string();
    Features {
        e2ee: v(),
        widgets: v(),
        spaces: v(),
        room_directory: v(),
        read_receipts: v(),
        typing_indicators: v(),
        edits: v(),
        replies: v(),
        threads: v(),
        attachments: v(),
        multi_account: v(),
        registration: v(),
        calls: v(),
        reactions: v(),
        sso: v(),
        localised: v(),
    }
}

fn build(id: &str, description: &str, platforms: Vec<Platform>, maturity: Maturity) -> Client {
    Client {
        layout: "project".to_string(),
        id: id.to_string(),
        title: format!("{id} {description}"),
        slug: None,
        description: description.to_string(),
        authors: vec![Author {
            name: "Dev".to_string(),
            matrix_id: Some("@dev:x.org".to_string()),
        }],
        maturity,
        language: "Kotlin".to_string(),
        license: "Apache-2.0".to_string(),
        repository: None,
        home: None,
        screenshot: None,
        icon: None,
        room: None,
        sdk: vec![],
        platforms,
        featured: false,
        sort_order: None,
        features: features(),
        appstore_details: None,
        apple_associated_app_id: None,
        playstore_app_id: None,
        fdroid_app_id: None,
        flathub_app_id: None,
        otherinstall_link: None,
        full_description: String::new(),
    }
}

fn three_builds() -> Vec<Client> {
    let mut android = build("x", "for phones", vec![Platform::Android], Maturity::Alpha);
    android.playstore_app_id = Some("im.x.app".to_string());
    android.fdroid_app_id = Some("im.x.fdroid".to_string());
    let mut ios = build("x", "for iPhones", vec![Platform::Ios], Maturity::Stable);
    ios.appstore_details = Some(AppStoreDetails {
        org: "x-org".to_string(),
        app_id: "id123".to_string(),
    });
    ios.icon = Some("/ios.png".to_string());
    let mut desktop = build(
        "x",
        "for desktops",
        vec![Platform::DesktopWeb, Platform::Windows, Platform::Android],
        Maturity::Obsolete,
    );
    desktop.icon = Some("/desktop.png".to_string());
    desktop.home = Some("https://x.org".to_string());
    let other = build("y", "another product", vec![Platform::Linux], Maturity::Beta);
    vec![android, other, ios, desktop]
}

#[test]
fn record_takes_description_from_the_desktop_or_web_build() {
    let record = ClientRecord::aggregate(&"x".to_string(), &three_builds()).unwrap();
    assert_eq!(record.description, "for desktops");
}

#[test]
fn record_merges_maturity_author_platforms_and_links() {
    let record = ClientRecord::aggregate(&"x".to_string(), &three_builds()).unwrap();
    assert_eq!(record.id, "x");
    assert_eq!(record.maturity, Maturity::Obsolete);
    assert_eq!(record.author, "x team");
    assert_eq!(
        record.platforms,
        vec![Platform::Android, Platform::Ios, Platform::DesktopWeb, Platform::Windows]
    );
    assert_eq!(record.icon.as_deref(), Some("/ios.png"));
    assert_eq!(record.home.as_deref(), Some("https://x.org"));
    assert_eq!(record.appstore_details.as_ref().map(|d| d.org.as_str()), Some("x-org"));
    assert_eq!(record.playstore_app_id.as_deref(), Some("im.x.app"));
    assert_eq!(record.fdroid_app_id.as_deref(), Some("im.x.fdroid"));
    assert_eq!(record.flathub_app_id, None);
    assert_eq!(record.otherinstall_link, None);
    assert_eq!(record.apple_associated_app_id, None);
}

#[test]
fn single_build_is_credited_to_its_authors() {
    let clients = vec![build("solo", "alone", vec![Platform::MacOS], Maturity::Beta)];
    let record = ClientRecord::aggregate(&"solo".to_string(), &clients).unwrap();
    assert_eq!(record.author, "Dev @dev:x.org");
    assert_eq!(record.maturity, Maturity::Beta);
}

#[test]
fn record_fails_without_a_desktop_or_web_build() {
    let clients = vec![build("m", "mobile", vec![Platform::Android, Platform::MobileWeb], Maturity::Beta)];
    match ClientRecord::aggregate(&"m".to_string(), &clients) {
        Err(AggregateError::NoDesktopOrWebBuild(id)) => assert_eq!(id, "m"),
        Ok(_) => panic!("a record was made"),
    }
    assert!(Client::matrixto_join_file("absent".to_string(), clients).is_err());
}

#[test]
fn join_file_renders_the_record() {
    let text = Client::matrixto_join_file("x".to_string(), three_builds()).unwrap();
    let expected = "import {Maturity, Platform, FDroidLink, AppleStoreLink, PlayStoreLink, WebsiteLink, FlathubLink} from \"../types.js\";\n\
        export const data = {\n    \"id\": \"x\",\n\
        \x20   \"platforms\": [Platform.Android, Platform.iOS, Platform.DesktopWeb, Platform.Windows],\n\
        \x20   \"name\": \"x\",\n    \"description\": \"for desktops\",\n    \"author\": \"x team\",\n\
        \x20   \"maturity\": Maturity.Obsolete,\n    \"icon\": \"/ios.png\",\n    \"home\": \"https://x.org\",\n\
        \x20   \"applestorelink\": new AppleStoreLink('x-org', 'id123'),\n\
        \x20   \"playstorelink\": new PlayStoreLink('im.x.app'),\n\
        \x20   \"fdroidlink\": new FDroidLink('im.x.fdroid'),\n};";
    assert_eq!(text, expected);
}

#[test]
fn join_file_with_other_links() {
    let mut c = build("z", "desk", vec![Platform::Linux, Platform::MacOS], Maturity::Stable);
    c.apple_associated_app_id = Some("ABC.z".to_string());
    c.flathub_app_id = Some("org.z.Z".to_string());
    c.otherinstall_link = Some("https://z.org/get".to_string());
    let text = Client::matrixto_join_file("z".to_string(), vec![c]).unwrap();
    assert!(text.contains("    \"platforms\": [Platform.Linux, Platform.macOS],\n"));
    assert!(text.contains("    \"author\": \"Dev @dev:x.org\",\n"));
    assert!(text.contains(
        "    \"maturity\": Maturity.Stable,\n    \"appleAssociatedAppId\": \"ABC.z\",\n\
        \x20   \"flathublink\": new FlathubLink('org.z.Z'),\n\
        \x20   \"defaultInstallLink\": new WebsiteLink('https://z.org/get'),\n};"
    ));
}

#[test]
fn class_name_dashes_separators_then_camel_cases() {
    let c = build("element.io", "e", vec![], Maturity::Stable);
    assert_eq!(c.matrixto_filename(), "ElementIo");
    let d = build("weechat/matrix", "w", vec![], Maturity::Stable);
    assert_eq!(d.matrixto_filename(), "WeechatMatrix");
}

#[test]
fn template_file_names_the_class_and_its_data() {
    let c = build("fluffychat.im", "f", vec![], Maturity::Stable);
    let text = c.matrixto_template_file();
    assert!(text.starts_with("/*\nCopyright 2020 The Matrix.org Foundation C.I.C.\n"));
    assert!(text.ends_with(
        "limitations under the License.\n*/\n\nimport {Platform, LinkKind} from \"../types.js\";\n\
        import {Client} from \"./Client.js\";\nimport {data} from \"./FluffychatIm-data.js\";\n\n\
        export class FluffychatIm extends Client {\n    constructor() {\n        super(data);\n    }\n}"
    ));
}

#[test]
fn index_imports_each_class_once() {
    let clients = vec![
        build("a.org", "1", vec![], Maturity::Stable),
        build("b.org", "2", vec![], Maturity::Stable),
        build("a.org", "3", vec![], Maturity::Stable),
    ];
    let text = Client::matrixto_index(clients);
    assert!(text.ends_with(
        "*/\n\nimport {AOrg} from \"./AOrg.js\";\nimport {BOrg} from \"./BOrg.js\";\n\n\
        export function createClients() {\n    return [\n        new AOrg(),\n        new BOrg()\n    ];\n}"
    ));
    assert_eq!(
        Client::matrixto_names(&vec![build("a.org", "1", vec![], Maturity::Stable)]),
        vec!["AOrg".to_string()]
    );
}

#[test]
fn android_ios_and_desktop_builds_take_the_desktop_description() {
    let clients = vec![
        build("x", "android text", vec![Platform::Android], Maturity::Beta),
        build("x", "ios text", vec![Platform::Ios], Maturity::Beta),
        build("x", "desktop text", vec![Platform::DesktopWeb, Platform::Windows], Maturity::Beta),
    ];
    let record = ClientRecord::aggregate(&"x".to_string(), &clients).unwrap();
    assert_eq!(record.description, "desktop text");
}
