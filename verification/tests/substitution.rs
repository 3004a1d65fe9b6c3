use config_loader::config::{handle_envar, handle_envars, Config};
use config_loader::environment::Environment;
use config_loader::placeholder::find_placeholder;
use config_loader::substitution::{substitute, substitute_text};

fn env_of(pairs: &[(&str, &str)]) -> Environment {
    let mut env = Environment::new();
    for (name, value) in pairs {
        env.set(name, value);
    }
    env
}

fn substituted(value: &str, env: &Environment) -> String {
    let mut item = Some(value.to_string());
    assert_eq!(handle_envar(&mut item, env), Ok(()));
    item.unwrap()
}

#[test]
fn placeholder_is_found_behind_a_dollar_sign() {
    assert_eq!(find_placeholder("$HOME/dl"), Ok(Some("HOME".to_string())));
    assert_eq!(find_placeholder("a/$MY_VAR/b"), Ok(Some("MY_VAR".to_string())));
    assert_eq!(find_placeholder("$_"), Ok(Some("_".to_string())));
}

#[test]
fn placeholder_name_is_the_longest_run() {
    assert_eq!(find_placeholder("$HOMEdir"), Ok(Some("HOME".to_string())));
    assert_eq!(find_placeholder("$A1"), Ok(Some("A".to_string())));
    assert_eq!(find_placeholder("$A_B-C"), Ok(Some("A_B".to_string())));
}

#[test]
fn placeholder_is_the_first_of_several() {
    assert_eq!(find_placeholder("$A/$B"), Ok(Some("A".to_string())));
    assert_eq!(find_placeholder("$x$B$A"), Ok(Some("B".to_string())));
    assert_eq!(find_placeholder("$$A"), Ok(Some("A".to_string())));
}

#[test]
fn text_without_placeholder_has_none() {
    assert_eq!(find_placeholder(""), Ok(None));
    assert_eq!(find_placeholder("plain"), Ok(None));
    assert_eq!(find_placeholder("$"), Ok(None));
    assert_eq!(find_placeholder("cost: 5$"), Ok(None));
    assert_eq!(find_placeholder("$home"), Ok(None));
    assert_eq!(find_placeholder("${HOME}"), Ok(None));
    assert_eq!(find_placeholder("$1A"), Ok(None));
    assert_eq!(find_placeholder("HOME"), Ok(None));
}

#[test]
fn placeholder_in_text_with_wide_characters() {
    assert_eq!(find_placeholder("\u{e9}t\u{e9}/$HOME/\u{1f600}"), Ok(Some("HOME".to_string())));
    assert_eq!(find_placeholder("$\u{c9}COLE"), Ok(None));
}

#[test]
fn variable_value_takes_the_placeholders_place() {
    let env = env_of(&[("HOME", "/users/me")]);
    assert_eq!(substituted("$HOME/dl", &env), "/users/me/dl");
}

#[test]
fn only_the_first_placeholder_is_resolved() {
    let env = env_of(&[("A", "first"), ("B", "second")]);
    assert_eq!(substituted("$A/$B", &env), "first/$B");
}

#[test]
fn missing_variable_leaves_a_notice() {
    let env = Environment::new();
    assert_eq!(
        substituted("$MIRROR_HOST", &env),
        "Couldn't find MIRROR_HOST environment variable"
    );
}

#[test]
fn missing_variable_notice_stands_inside_the_text() {
    let env = env_of(&[("OTHER", "x")]);
    assert_eq!(
        substituted("https://$HOST/path", &env),
        "https://Couldn't find HOST environment variable/path"
    );
}

#[test]
fn every_occurrence_of_the_first_placeholder_is_resolved() {
    let env = env_of(&[("A", "x")]);
    assert_eq!(substituted("$A-$A-$A", &env), "x-x-x");
}

#[test]
fn placeholder_text_is_replaced_inside_longer_names() {
    let env = env_of(&[("A", "x"), ("AB", "y")]);
    assert_eq!(substituted("$A $AB", &env), "x xB");
    assert_eq!(substituted("$AB $A", &env), "y $A");
}

#[test]
fn text_without_placeholder_is_kept() {
    let env = env_of(&[("HOME", "/users/me")]);
    assert_eq!(substituted("/opt/tool", &env), "/opt/tool");
    assert_eq!(substituted("", &env), "");
    assert_eq!(substituted("$home", &env), "$home");
}

#[test]
fn unset_setting_stays_unset() {
    let env = env_of(&[("HOME", "/users/me")]);
    let mut item: Option<String> = None;
    assert_eq!(handle_envar(&mut item, &env), Ok(()));
    assert_eq!(item, None);
}

#[test]
fn substituting_again_changes_nothing_once_settled() {
    let env = env_of(&[("HOME", "/users/me")]);
    let once = substituted("$HOME/dl", &env);
    assert_eq!(find_placeholder(&once), Ok(None));
    let twice = substituted(&once, &env);
    assert_eq!(twice, once);
}

#[test]
fn second_pass_resolves_what_the_first_left() {
    let env = env_of(&[("A", "first"), ("B", "second")]);
    let once = substituted("$A/$B", &env);
    assert_eq!(substituted(&once, &env), "first/second");
}

#[test]
fn value_put_in_is_not_searched_in_the_same_pass() {
    let env = env_of(&[("A", "$A$B"), ("B", "b")]);
    assert_eq!(substituted("<$A>", &env), "<$A$B>");
}

#[test]
fn substitute_resolves_the_named_placeholder() {
    let env = env_of(&[("B", "second")]);
    assert_eq!(substitute("$A/$B", "B", &env), "$A/second");
    assert_eq!(
        substitute("$A/$B", "A", &env),
        "Couldn't find A environment variable/$B"
    );
    assert_eq!(substitute("no such thing", "A", &env), "no such thing");
}

#[test]
fn substitute_text_gives_the_new_text() {
    let env = env_of(&[("HOME", "/users/me")]);
    assert_eq!(substitute_text("$HOME/dl", &env), Ok("/users/me/dl".to_string()));
    assert_eq!(substitute_text("dl", &env), Ok("dl".to_string()));
}

#[test]
fn substitution_covers_the_four_texts() {
    let env = env_of(&[("HOME", "/users/me"), ("HOST", "mirror.example")]);
    let mut config = Config {
        downloads_location: Some("$HOME/dl".to_string()),
        installation_location: Some("$HOME/bin".to_string()),
        version_sync_file_location: Some("$HOME/.version".to_string()),
        github_mirror: Some("https://$HOST".to_string()),
        ..Config::default()
    };
    assert_eq!(handle_envars(&mut config, &env), Ok(()));
    assert_eq!(
        config,
        Config {
            downloads_location: Some("/users/me/dl".to_string()),
            installation_location: Some("/users/me/bin".to_string()),
            version_sync_file_location: Some("/users/me/.version".to_string()),
            github_mirror: Some("https://mirror.example".to_string()),
            ..Config::default()
        }
    );
}

#[test]
fn substitution_never_alters_switches_and_limit() {
    let env = env_of(&[("HOME", "/users/me")]);
    let mut config = Config {
        enable_nightly_info: Some(true),
        enable_release_build: Some(false),
        downloads_location: Some("$HOME/dl".to_string()),
        installation_location: None,
        version_sync_file_location: Some("$NOWHERE".to_string()),
        github_mirror: None,
        rollback_limit: Some(255),
        enable_manpage_mirror: Some(true),
    };
    assert_eq!(handle_envars(&mut config, &env), Ok(()));
    assert_eq!(config.enable_nightly_info, Some(true));
    assert_eq!(config.enable_release_build, Some(false));
    assert_eq!(config.rollback_limit, Some(255));
    assert_eq!(config.enable_manpage_mirror, Some(true));
    assert_eq!(config.downloads_location, Some("/users/me/dl".to_string()));
    assert_eq!(config.installation_location, None);
    assert_eq!(
        config.version_sync_file_location,
        Some("Couldn't find NOWHERE environment variable".to_string())
    );
    assert_eq!(config.github_mirror, None);
}

#[test]
fn substitution_of_a_configuration_without_texts() {
    let env = env_of(&[("HOME", "/users/me")]);
    let mut config = Config { rollback_limit: Some(0), ..Config::default() };
    assert_eq!(handle_envars(&mut config, &env), Ok(()));
    assert_eq!(config, Config { rollback_limit: Some(0), ..Config::default() });
}

#[test]
fn underscore_belongs_to_the_name() {
    let env = env_of(&[("HOME", "/users/me"), ("HOME_DIR", "/srv/home")]);
    assert_eq!(substituted("$HOME_DIR/x", &env), "/srv/home/x");
}

#[test]
fn digit_ends_the_name() {
    let env = env_of(&[("HOME", "/users/me")]);
    assert_eq!(substituted("$HOME2/dl", &env), "/users/me2/dl");
}

#[test]
fn value_that_is_a_placeholder_is_put_in_as_it_is() {
    let env = env_of(&[("A", "$B"), ("B", "b")]);
    assert_eq!(substituted("$A", &env), "$B");
}

#[test]
fn empty_value_removes_the_placeholder() {
    let env = env_of(&[("A", "")]);
    assert_eq!(substituted("$A/dl", &env), "/dl");
}

#[test]
fn each_of_the_four_texts_is_substituted_on_its_own() {
    let env = env_of(&[("A", "x")]);
    let mut config = Config {
        downloads_location: Some("$A/d".to_string()),
        github_mirror: Some("$A/g".to_string()),
        installation_location: Some("$A/i".to_string()),
        version_sync_file_location: Some("$A/v".to_string()),
        ..Config::default()
    };
    assert_eq!(handle_envars(&mut config, &env), Ok(()));
    assert_eq!(config.downloads_location, Some("x/d".to_string()));
    assert_eq!(config.github_mirror, Some("x/g".to_string()));
    assert_eq!(config.installation_location, Some("x/i".to_string()));
    assert_eq!(config.version_sync_file_location, Some("x/v".to_string()));
    assert_eq!(config.enable_nightly_info, None);
    assert_eq!(config.enable_release_build, None);
    assert_eq!(config.rollback_limit, None);
    assert_eq!(config.enable_manpage_mirror, None);
}

#[test]
fn substitution_succeeds_with_no_variable_set() {
    let env = Environment::new();
    let mut config = Config {
        downloads_location: Some("$A/$B".to_string()),
        github_mirror: Some("$MIRROR_HOST".to_string()),
        ..Config::default()
    };
    assert_eq!(handle_envars(&mut config, &env), Ok(()));
    assert_eq!(
        config.downloads_location,
        Some("Couldn't find A environment variable/$B".to_string())
    );
    assert_eq!(
        config.github_mirror,
        Some("Couldn't find MIRROR_HOST environment variable".to_string())
    );
}
