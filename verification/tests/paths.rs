use wego::helper::ConfigFile;
use wego::plan::{build_ref_uri, file_marker, get_item_url, get_local_dir};
use wego::TemplateType;

fn config() -> ConfigFile {
    ConfigFile::new(
        "org".to_string(),
        "repo".to_string(),
        "".to_string(),
        "main".to_string(),
        "templates".to_string(),
    )
}

#[test]
fn component_path_lands_under_src_components() {
    let p = get_local_dir("/tmp/work", &"Button".to_string(), TemplateType::Components);
    assert_eq!(p, "/tmp/work/src/components/Button");
}

#[test]
fn page_path_lands_under_src_pages() {
    let p = get_local_dir("/tmp/work", &"Home".to_string(), TemplateType::Pages);
    assert_eq!(p, "/tmp/work/src/pages/Home");
}

#[test]
fn project_path_lands_in_cwd_directly() {
    let p = get_local_dir("/tmp/work", &"Demo".to_string(), TemplateType::Project);
    assert_eq!(p, "/tmp/work/Demo");
}

#[test]
fn separator_is_a_single_slash() {
    assert_eq!(file_marker(), "/");
}

#[test]
fn manifest_url_is_built_from_config() {
    assert_eq!(
        config().get_remote_yaml_url(),
        "https://api.github.com/repos/org/repo/contents/wego.yaml"
    );
}

#[test]
fn template_url_names_kind_and_item() {
    let url = config().get_remote_template_url(TemplateType::Components, &"Button".to_string());
    assert_eq!(
        url,
        "https://api.github.com/repos/org/repo/contents/templates/components/Button"
    );
    let url = config().get_remote_template_url(TemplateType::Pages, &"Home".to_string());
    assert_eq!(
        url,
        "https://api.github.com/repos/org/repo/contents/templates/pages/Home"
    );
    let url = config().get_remote_template_url(TemplateType::Project, &"Demo".to_string());
    assert_eq!(
        url,
        "https://api.github.com/repos/org/repo/contents/templates/projects/Demo"
    );
}

#[test]
fn item_url_matches_config_url() {
    let c = config();
    let name = "Button".to_string();
    assert_eq!(
        get_item_url(&c, TemplateType::Components, &name),
        c.get_remote_template_url(TemplateType::Components, &name)
    );
}

#[test]
fn ref_uri_appends_branch_query() {
    let uri = build_ref_uri(
        &"https://api.github.com/repos/org/repo/contents/wego.yaml".to_string(),
        &"main".to_string(),
    );
    assert_eq!(
        uri,
        "https://api.github.com/repos/org/repo/contents/wego.yaml?ref=main"
    );
}
