use delivery::config::Config;
use delivery::errors::Kind;

fn unset() -> Config {
    Config {
        server: None,
        user: None,
        enterprise: None,
        organization: None,
        project: None,
        git_port: None,
        pipeline: None,
    }
}

fn missing(result: Result<String, delivery::errors::DeliveryError>) -> String {
    let error = result.unwrap_err();
    assert_eq!(error.kind, Kind::MissingConfig);
    error.detail.unwrap()
}

#[test]
fn getters_name_the_flag_of_an_unset_field() {
    assert_eq!(missing(unset().server()), "Server not set; try --server");
    assert_eq!(missing(unset().user()), "User not set; try --user");
    assert_eq!(missing(unset().enterprise()), "Enterprise not set; try --ent");
    assert_eq!(missing(unset().organization()), "Organization not set; try --org");
    assert_eq!(missing(unset().project()), "Project not set; try --project");
    assert_eq!(missing(unset().git_port()), "Git Port not set");
    assert_eq!(missing(unset().pipeline()), "Pipeline not set; try --for");
}

#[test]
fn getters_hand_out_what_was_set() {
    let config = unset()
        .set_server("localhost")
        .set_user("cavalera")
        .set_enterprise("family")
        .set_organization("sepultura")
        .set_project("roots")
        .set_git_port("2222")
        .set_pipeline("master");
    assert_eq!(config.clone().server().unwrap(), "localhost");
    assert_eq!(config.clone().user().unwrap(), "cavalera");
    assert_eq!(config.clone().enterprise().unwrap(), "family");
    assert_eq!(config.clone().organization().unwrap(), "sepultura");
    assert_eq!(config.clone().project().unwrap(), "roots");
    assert_eq!(config.clone().git_port().unwrap(), "2222");
    assert_eq!(config.pipeline().unwrap(), "master");
}

#[test]
fn getters_of_the_defaults() {
    assert_eq!(Config::default().git_port().unwrap(), "8989");
    assert_eq!(Config::default().pipeline().unwrap(), "master");
    assert_eq!(missing(Config::default().server()), "Server not set; try --server");
}

#[test]
fn setter_with_an_empty_text_keeps_a_set_field() {
    let config = unset().set_server("localhost").set_server("");
    assert_eq!(config.server, Some("localhost".to_string()));
    let config = Config::default().set_git_port("").set_pipeline("");
    assert_eq!(config, Config::default());
}

#[test]
fn setter_with_an_empty_text_keeps_an_unset_field() {
    let config = unset()
        .set_server("")
        .set_user("")
        .set_enterprise("")
        .set_organization("")
        .set_project("")
        .set_git_port("")
        .set_pipeline("");
    assert_eq!(config, unset());
}

#[test]
fn setter_touches_its_own_field_only() {
    let config = Config::default().set_user("adam");
    assert_eq!(
        config,
        Config {
            server: None,
            user: Some("adam".to_string()),
            enterprise: None,
            organization: None,
            project: None,
            git_port: Some("8989".to_string()),
            pipeline: Some("master".to_string()),
        }
    );
}

#[test]
fn the_last_setter_wins() {
    let config = unset().set_pipeline("master").set_pipeline("trunk");
    assert_eq!(config.pipeline, Some("trunk".to_string()));
    let config = unset().set_pipeline("master").set_pipeline("trunk").set_pipeline("");
    assert_eq!(config.pipeline, Some("trunk".to_string()));
}

#[test]
fn setters_of_different_fields_commute() {
    let one = unset().set_user("adam").set_server("localhost");
    let other = unset().set_server("localhost").set_user("adam");
    assert_eq!(one, other);
}
