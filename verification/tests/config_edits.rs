use icepaper::Config;

fn config(background: Option<&str>, gallery: &[&str]) -> Config {
    Config {
        background: background.map(str::to_string),
        gallery: gallery.iter().map(|path| path.to_string()).collect(),
    }
}

fn strings(paths: &[&str]) -> Vec<String> {
    paths.iter().map(|path| path.to_string()).collect()
}

#[test]
fn default_config_is_empty() {
    let config = Config::default();
    assert_eq!(config.background, None);
    assert!(config.gallery.is_empty());
}

#[test]
fn has_finds_only_members() {
    let config = config(None, &["a.png", "b.png"]);
    assert!(config.has("a.png"));
    assert!(config.has("b.png"));
    assert!(!config.has("c.png"));
    assert!(!config.has("a.pn"));
    assert!(!Config::default().has("a.png"));
}

#[test]
fn is_current_compares_with_the_background() {
    let with = config(Some("a.png"), &["a.png", "b.png"]);
    assert!(with.is_current("a.png"));
    assert!(!with.is_current("b.png"));
    let without = config(None, &["a.png"]);
    assert!(!without.is_current("a.png"));
}

#[test]
fn add_appends_a_new_path() {
    let mut config = config(Some("a.png"), &["a.png"]);
    config.add_background("b.png".to_string());
    assert_eq!(config.gallery, strings(&["a.png", "b.png"]));
    assert_eq!(config.background, Some("a.png".to_string()));
}

#[test]
fn add_to_an_empty_gallery() {
    let mut config = Config::default();
    config.add_background("a.png".to_string());
    assert_eq!(config.gallery, strings(&["a.png"]));
    assert_eq!(config.background, None);
}

#[test]
fn add_twice_keeps_one_occurrence_in_place() {
    let mut config = config(None, &["a.png", "b.png", "c.png"]);
    config.add_background("b.png".to_string());
    assert_eq!(config.gallery, strings(&["a.png", "b.png", "c.png"]));
    config.add_background("d.png".to_string());
    config.add_background("d.png".to_string());
    assert_eq!(config.gallery, strings(&["a.png", "b.png", "c.png", "d.png"]));
    assert_eq!(config.gallery.iter().filter(|path| *path == "d.png").count(), 1);
    config.add_background("a.png".to_string());
    assert_eq!(config.gallery[0], "a.png");
    assert_eq!(config.gallery.len(), 4);
}

#[test]
fn select_sets_the_background_and_fills_the_gallery() {
    let mut config = Config::default();
    config.select_background("photo1.png".to_string());
    assert_eq!(config.background, Some("photo1.png".to_string()));
    assert_eq!(config.gallery, strings(&["photo1.png"]));
}

#[test]
fn select_a_member_leaves_the_gallery_alone() {
    let mut config = config(Some("a.png"), &["a.png", "b.png"]);
    config.select_background("b.png".to_string());
    assert_eq!(config.background, Some("b.png".to_string()));
    assert_eq!(config.gallery, strings(&["a.png", "b.png"]));
}

#[test]
fn remove_keeps_the_order_of_the_rest() {
    let mut config = config(Some("c.png"), &["a.png", "b.png", "c.png", "d.png"]);
    config.remove_background("b.png");
    assert_eq!(config.gallery, strings(&["a.png", "c.png", "d.png"]));
    assert_eq!(config.background, Some("c.png".to_string()));
}

#[test]
fn remove_the_current_background_promotes_the_head() {
    let mut config = config(Some("b.png"), &["a.png", "b.png", "c.png"]);
    config.remove_background("b.png");
    assert_eq!(config.gallery, strings(&["a.png", "c.png"]));
    assert_eq!(config.background, Some("a.png".to_string()));
}

#[test]
fn remove_the_head_while_current_promotes_the_next() {
    let mut config = config(Some("a.png"), &["a.png", "b.png"]);
    config.remove_background("a.png");
    assert_eq!(config.gallery, strings(&["b.png"]));
    assert_eq!(config.background, Some("b.png".to_string()));
}

#[test]
fn remove_the_last_path_clears_the_background() {
    let mut config = config(Some("photo1.png"), &["photo1.png"]);
    config.remove_background("photo1.png");
    assert!(config.gallery.is_empty());
    assert_eq!(config.background, None);
}

#[test]
fn remove_an_absent_path_changes_nothing() {
    let mut config = config(Some("a.png"), &["a.png", "b.png"]);
    config.remove_background("z.png");
    assert_eq!(config.gallery, strings(&["a.png", "b.png"]));
    assert_eq!(config.background, Some("a.png".to_string()));
}

#[test]
fn remove_takes_every_occurrence() {
    let mut config = config(None, &["a.png", "b.png", "a.png"]);
    config.remove_background("a.png");
    assert_eq!(config.gallery, strings(&["b.png"]));
    assert_eq!(config.background, None);
}

#[test]
fn remove_a_background_outside_the_gallery() {
    let mut config = config(Some("x.png"), &["a.png"]);
    config.remove_background("x.png");
    assert_eq!(config.gallery, strings(&["a.png"]));
    assert_eq!(config.background, Some("a.png".to_string()));
}
