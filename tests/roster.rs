use catalog_sync::bot::Bot;
use catalog_sync::projects::{Author, Maturity, Projects};
use catalog_sync::server::Server;
use catalog_sync::twim_config::{CatalogEntry, Config, Project, Section};

fn bot(title: &str, home: Option<&str>, repository: Option<&str>) -> Bot {
    Bot {
        layout: "project".to_string(),
        title: title.to_string(),
        description: format!("{title} description"),
        authors: vec![
            Author {
                name: "Alice".to_string(),
                matrix_id: Some("@alice:example.org".to_string()),
            },
            Author {
                name: "Nobody".to_string(),
                matrix_id: None,
            },
            Author {
                name: "Bob".to_string(),
                matrix_id: Some("@bob:example.org".to_string()),
            },
        ],
        maturity: Maturity::Beta,
        language: "Rust".to_string(),
        license: "MIT".to_string(),
        repository: repository.map(|r| r.to_string()),
        home: home.map(|h| h.to_string()),
        screenshot: None,
        icon: None,
        room: None,
        featured: false,
        sort_order: None,
        full_description: String::new(),
    }
}

fn server(title: &str) -> Server {
    Server {
        title: title.to_string(),
        description: format!("{title} server"),
        authors: vec![],
        maturity: Maturity::Stable,
        language: "Go".to_string(),
        license: "Apache-2.0".to_string(),
        repository: None,
        home: Some(format!("https://{title}.example")),
        screenshot: None,
        icon: None,
        room: None,
        featured: false,
        sort_order: None,
        full_description: String::new(),
    }
}

fn manual(title: &str) -> Project {
    Project {
        emoji: "🤖".to_string(),
        name: "hand-made".to_string(),
        title: title.to_string(),
        description: "curated by hand".to_string(),
        website: "https://manual.example".to_string(),
        default_section: "bots".to_string(),
        usual_reporters: vec!["@curator:example.org".to_string()],
    }
}

fn config(projects: Vec<Project>) -> Config {
    Config {
        bot_user_id: "@twim:matrix.org".to_string(),
        reporting_room_id: "!report:matrix.org".to_string(),
        admin_room_id: "!admin:matrix.org".to_string(),
        notice_emoji: "⭐".to_string(),
        image_markdown: "![]({url})".to_string(),
        video_markdown: "<video src={url}>".to_string(),
        verbs: vec!["wrote".to_string()],
        update_config_command: "!update".to_string(),
        editors: vec!["@editor:matrix.org".to_string()],
        sections: vec![Section {
            emoji: "🤖".to_string(),
            name: "bots".to_string(),
            title: "Bots".to_string(),
            order: 3,
            usual_reporters: vec![],
        }],
        projects,
    }
}

fn catalog(bots: Vec<Bot>, servers: Vec<Server>) -> Projects {
    Projects {
        bots,
        bridges: vec![],
        clients: vec![],
        iots: vec![],
        others: vec![],
        sdks: vec![],
        servers,
    }
}

#[test]
fn roster_entry_is_derived_from_the_catalog_entry() {
    let p = bot("Matrix Reminder Bot", Some("https://home.example"), Some("https://repo.example"))
        .to_project();
    assert_eq!(p.emoji, "matrix-reminder-bot?");
    assert_eq!(p.name, "matrix-reminder-bot");
    assert_eq!(p.title, "Matrix Reminder Bot");
    assert_eq!(p.description, "Matrix Reminder Bot description");
    assert_eq!(p.website, "https://home.example");
    assert_eq!(p.default_section, "bots");
    assert_eq!(p.usual_reporters, vec!["@alice:example.org", "@bob:example.org"]);
    assert_eq!(server("Dendrite").to_project().default_section, "servers");
}

#[test]
fn website_falls_back_to_repository_then_empty() {
    assert_eq!(bot("A", None, Some("https://x")).to_project().website, "https://x");
    assert_eq!(bot("A", None, None).to_project().website, "");
}

#[test]
fn from_parts_takes_the_given_name() {
    let b = bot("Some Title", None, None);
    let p = Project::from_parts(
        "chosen-name".to_string(),
        &b.title,
        &b.description,
        &b.home,
        &b.repository,
        &b.authors,
        "other",
    );
    assert_eq!(p.emoji, "chosen-name?");
    assert_eq!(p.name, "chosen-name");
    assert_eq!(p.default_section, "other");
}

#[test]
fn reconcile_counts_matches_and_additions() {
    let mut cfg = config(vec![manual("A"), manual("B")]);
    let cat = catalog(vec![bot("A", None, None), bot("C", None, None)], vec![]);
    let stats = cfg.sync_catalog(&cat);
    assert_eq!(stats.matched, 1);
    assert_eq!(stats.added, 1);
    assert_eq!(stats.before, 2);
    assert_eq!(stats.after, 3);
    let titles: Vec<&str> = cfg.projects.iter().map(|p| p.title.as_str()).collect();
    assert_eq!(titles, vec!["A", "B", "C"]);
    assert_eq!(cfg.projects[0], cat.bots[0].to_project());
    assert_eq!(cfg.projects[1], manual("B"));
    assert_eq!(cfg.projects[2], cat.bots[1].to_project());
    assert_eq!(cfg.bot_user_id, "@twim:matrix.org");
    assert_eq!(cfg.sections.len(), 1);
}

#[test]
fn second_reconciliation_changes_nothing() {
    let mut cfg = config(vec![manual("Synapse"), manual("Unrelated")]);
    let cat = catalog(
        vec![bot("A", None, Some("https://a")), bot("B", None, None)],
        vec![server("Synapse"), server("Conduit")],
    );
    let first = cfg.sync_catalog(&cat);
    assert_eq!(first.matched, 1);
    assert_eq!(first.added, 3);
    let after_first = cfg.projects.clone();
    let second = cfg.sync_catalog(&cat);
    assert_eq!(second.matched, 4);
    assert_eq!(second.added, 0);
    assert_eq!(second.before, second.after);
    assert_eq!(cfg.projects, after_first);
}

#[test]
fn reconcile_overwrites_only_the_first_entry_with_a_title() {
    let mut cfg = config(vec![manual("A"), manual("A")]);
    let incoming = vec![bot("A", None, None).to_project()];
    let stats = cfg.reconcile(incoming.clone());
    assert_eq!(stats.matched, 1);
    assert_eq!(stats.added, 0);
    assert_eq!(cfg.projects, vec![incoming[0].clone(), manual("A")]);
}

#[test]
fn repeated_catalog_title_is_added_once_and_then_matched() {
    let mut cfg = config(vec![]);
    let mut later = bot("Dup", Some("https://later"), None);
    later.description = "later".to_string();
    let stats = cfg.reconcile(vec![bot("Dup", None, None).to_project(), later.to_project()]);
    assert_eq!(stats.added, 1);
    assert_eq!(stats.matched, 1);
    assert_eq!(cfg.projects, vec![later.to_project()]);
}

#[test]
fn roster_entries_follow_category_order() {
    let cat = catalog(vec![bot("B1", None, None)], vec![server("S1")]);
    let entries = cat.roster_entries();
    let titles: Vec<&str> = entries.iter().map(|p| p.title.as_str()).collect();
    assert_eq!(titles, vec!["B1", "S1"]);
}
