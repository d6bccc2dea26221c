use wego::helper::ConfigFile;
use wego::plan::{
    choose_file_name, classify_status, contains_substr, is_dir, plan_component_download,
    plan_entries, report_preview, NodeAction,
};
use wego::request::{GithubRequestDir, Links, RemoteYaml, ConfigYaml, Projects};
use wego::{FetchError, TemplateType};

fn listing_node(name: &str, kind: &str) -> GithubRequestDir {
    GithubRequestDir {
        _links: Links {
            _self: format!("https://api.github.com/repos/org/repo/contents/{}", name),
            git: format!("https://api.github.com/repos/org/repo/git/trees/{}", name),
            html: format!("https://github.com/org/repo/tree/main/{}", name),
        },
        url: format!("https://api.github.com/repos/org/repo/contents/{}", name),
        html_url: format!("https://github.com/org/repo/blob/main/{}", name),
        git_url: format!("https://api.github.com/repos/org/repo/git/blobs/{}", name),
        download_url: None,
        name: name.to_string(),
        path: format!("templates/components/A/{}", name),
        file_type: kind.to_string(),
        sha: "0000000000000000000000000000000000000000".to_string(),
        size: 0,
    }
}

fn config() -> ConfigFile {
    ConfigFile::new(
        "org".to_string(),
        "repo".to_string(),
        "".to_string(),
        "main".to_string(),
        "templates".to_string(),
    )
}

#[test]
fn existing_component_is_skipped() {
    let plan = plan_component_download(&config(), "/tmp/work", &"Button".to_string(), true);
    assert!(plan.is_none());
}

#[test]
fn missing_component_is_planned() {
    let plan = plan_component_download(&config(), "/tmp/work", &"Button".to_string(), false)
        .unwrap();
    assert_eq!(
        plan.request_url,
        "https://api.github.com/repos/org/repo/contents/templates/components/Button"
    );
    assert_eq!(plan.local_dir, "/tmp/work/src/components/Button");
}

#[test]
fn one_listing_level_plans_every_sibling() {
    let entries = vec![
        listing_node("index.ts", "file"),
        listing_node("style.css", "file"),
        listing_node("assets", "dir"),
    ];
    let actions = plan_entries(&entries, &"/tmp/work/src/components/A".to_string());
    assert_eq!(actions.len(), 3);
    match &actions[0] {
        NodeAction::WriteFile { url, local_path, .. } => {
            assert_eq!(url, "https://api.github.com/repos/org/repo/contents/index.ts");
            assert_eq!(local_path, "/tmp/work/src/components/A/index.ts");
        }
        other => panic!("expected a file write, got {:?}", other),
    }
    match &actions[1] {
        NodeAction::WriteFile { local_path, .. } => {
            assert_eq!(local_path, "/tmp/work/src/components/A/style.css");
        }
        other => panic!("expected a file write, got {:?}", other),
    }
    match &actions[2] {
        NodeAction::MakeDir { url, local_path } => {
            assert_eq!(url, "https://api.github.com/repos/org/repo/contents/assets");
            assert_eq!(local_path, "/tmp/work/src/components/A/assets");
        }
        other => panic!("expected a directory, got {:?}", other),
    }
}

#[test]
fn dir_entries_are_told_apart_by_type_field() {
    assert!(is_dir(&"dir".to_string()));
    assert!(!is_dir(&"file".to_string()));
    assert!(!is_dir(&"Dir".to_string()));
}

#[test]
fn readme_paths_report_the_preview_url() {
    assert!(report_preview(
        &"https://api.github.com/repos/org/repo/contents/README.md".to_string()
    ));
    assert!(!report_preview(
        &"https://api.github.com/repos/org/repo/contents/readme.md".to_string()
    ));
    assert!(!report_preview(
        &"https://api.github.com/repos/org/repo/contents/index.ts".to_string()
    ));
}

#[test]
fn substring_search_handles_edges() {
    assert!(contains_substr(&"anything".to_string(), ""));
    assert!(!contains_substr(&"ab".to_string(), "abc"));
    assert!(contains_substr(&"xREADMEy".to_string(), "README"));
    assert!(!contains_substr(&"READM-E".to_string(), "README"));
}

#[test]
fn empty_custom_name_falls_back_to_template_name() {
    let fallback = "Button".to_string();
    assert_eq!(choose_file_name(String::new(), &fallback), "Button");
    assert_eq!(choose_file_name("Mine".to_string(), &fallback), "Mine");
}

#[test]
fn only_status_200_yields_data() {
    assert!(classify_status(200).is_ok());
    assert_eq!(
        classify_status(404).unwrap_err(),
        FetchError::Remote { status: 404 }
    );
    assert_eq!(
        classify_status(500).unwrap_err(),
        FetchError::Remote { status: 500 }
    );
}

#[test]
fn menu_lines_show_name_description_and_deps() {
    let manifest = RemoteYaml {
        components: vec![ConfigYaml {
            name: "A".to_string(),
            description: "first".to_string(),
            dependencies: vec!["B".to_string(), "C".to_string()],
        }],
        pages: vec![ConfigYaml {
            name: "Home".to_string(),
            description: "landing".to_string(),
            dependencies: vec![],
        }],
        projects: vec![Projects { name: "Demo".to_string(), description: "starter".to_string() }],
    };
    let comps = manifest.get_output_string_vec(TemplateType::Components);
    assert_eq!(comps, vec!["A ----> first ----> [\"B\", \"C\"]".to_string()]);
    let pages = manifest.get_output_string_vec(TemplateType::Pages);
    assert_eq!(pages, vec!["Home ----> landing ----> []".to_string()]);
    let projects = manifest.get_page_templates_items_by_type(TemplateType::Project);
    assert_eq!(projects, vec!["Demo ----> starter".to_string()]);
}
