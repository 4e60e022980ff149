use icepaper::store::{assemble, decode_table, encode_table};
use icepaper::table::Found;
use icepaper::{
    config_file, parse_config, read_config, render_config, write_config, Config, StoreError,
};

fn config(background: Option<&str>, gallery: &[&str]) -> Config {
    Config {
        background: background.map(str::to_string),
        gallery: gallery.iter().map(|path| path.to_string()).collect(),
    }
}

fn same(left: &Config, right: &Config) -> bool {
    left.background == right.background && left.gallery == right.gallery
}

fn round_trip(config: &Config) -> Config {
    let text = write_config(config).expect("a configuration can be written");
    read_config(Some(&text)).expect("what was written can be read")
}

#[test]
fn config_file_is_below_the_application_directory() {
    assert_eq!(config_file(), "icepaper/config.toml");
}

#[test]
fn store_errors_say_what_went_wrong() {
    assert_eq!(
        StoreError::PathResolution.message(),
        "cannot determine the configuration directory"
    );
    assert_eq!(StoreError::Persist.message(), "cannot write the configuration");
    assert_ne!(StoreError::PathResolution, StoreError::Persist);
}

#[test]
fn renders_background_and_gallery() {
    let text = render_config(&config(Some("photo1.png"), &["photo1.png"])).unwrap();
    assert_eq!(text, "background = \"photo1.png\"\ngallery = [\"photo1.png\"]\n");
}

#[test]
fn renders_an_empty_config_as_an_empty_gallery() {
    let text = render_config(&Config::default()).unwrap();
    assert_eq!(text, "gallery = []\n");
}

#[test]
fn renders_the_gallery_in_order() {
    let text = render_config(&config(None, &["b.png", "a.png", "c.png"])).unwrap();
    assert_eq!(text, "gallery = [\"b.png\", \"a.png\", \"c.png\"]\n");
}

#[test]
fn write_config_gives_the_rendered_text() {
    let config = config(Some("a.png"), &["a.png", "b.png"]);
    assert_eq!(write_config(&config), Ok(render_config(&config).unwrap()));
}

#[test]
fn parses_both_keys() {
    let parsed = parse_config("background = \"x.png\"\ngallery = [\"x.png\", \"y.png\"]\n").unwrap();
    assert!(same(&parsed, &config(Some("x.png"), &["x.png", "y.png"])));
}

#[test]
fn absent_background_means_no_selection() {
    let parsed = parse_config("gallery = [\"a.png\"]").unwrap();
    assert!(same(&parsed, &config(None, &["a.png"])));
}

#[test]
fn absent_gallery_means_empty_gallery() {
    let parsed = parse_config("background = \"x.png\"").unwrap();
    assert!(same(&parsed, &config(Some("x.png"), &[])));
}

#[test]
fn unknown_keys_are_passed_over() {
    let parsed = parse_config("theme = \"dark\"\nbackground = \"x.png\"\nsize = 3\n[extra]\nk = 1\n")
        .unwrap();
    assert!(same(&parsed, &config(Some("x.png"), &[])));
}

#[test]
fn duplicates_in_the_file_are_read_as_they_stand() {
    let parsed = parse_config("gallery = [\"a.png\", \"a.png\"]").unwrap();
    assert_eq!(parsed.gallery, vec!["a.png".to_string(), "a.png".to_string()]);
}

#[test]
fn read_of_a_missing_file_is_no_config() {
    assert!(read_config(None).is_none());
}

#[test]
fn read_of_an_empty_file_is_no_config() {
    assert!(read_config(Some("")).is_none());
    assert!(read_config(Some("\n  \n")).is_none());
    assert!(read_config(Some("# only a comment\n")).is_none());
}

#[test]
fn read_of_unparsable_content_is_no_config() {
    assert!(read_config(Some("this is not toml")).is_none());
    assert!(read_config(Some("background = ")).is_none());
    assert!(read_config(Some("gallery = [\"a.png\"")).is_none());
    assert!(read_config(Some("background = \"a\"\nbackground = \"b\"")).is_none());
    assert!(read_config(Some("\u{0}")).is_none());
}

#[test]
fn read_of_wrongly_typed_keys_is_no_config() {
    assert!(read_config(Some("background = 3")).is_none());
    assert!(read_config(Some("background = [\"a.png\"]")).is_none());
    assert!(read_config(Some("gallery = \"a.png\"")).is_none());
    assert!(read_config(Some("gallery = [\"a.png\", 1]")).is_none());
    assert!(read_config(Some("gallery = [[\"a.png\"]]")).is_none());
    assert!(read_config(Some("background = \"a.png\"\ngallery = true")).is_none());
    assert!(read_config(Some("[gallery]\nfirst = \"a.png\"")).is_none());
}

#[test]
fn read_of_a_file_without_known_keys_is_no_config() {
    assert!(read_config(Some("theme = \"dark\"")).is_none());
}

#[test]
fn read_of_a_good_file_is_its_config() {
    let read = read_config(Some("background = \"x.png\"\ngallery = []")).unwrap();
    assert!(same(&read, &config(Some("x.png"), &[])));
}

#[test]
fn round_trip_without_background() {
    let before = config(None, &["a.png", "b.png"]);
    assert!(same(&round_trip(&before), &before));
}

#[test]
fn round_trip_of_the_default() {
    let before = Config::default();
    assert!(same(&round_trip(&before), &before));
}

#[test]
fn round_trip_with_background_outside_the_gallery() {
    let before = config(Some("/elsewhere/z.jpg"), &["/home/u/a.png"]);
    assert!(same(&round_trip(&before), &before));
}

#[test]
fn round_trip_of_awkward_strings() {
    let before = config(
        Some("C:\\Users\\u\\pic \"one\".png"),
        &[
            "",
            " ",
            "line\nbreak",
            "tab\there",
            "quote\"s and 'apostrophes'",
            "back\\slash",
            "caf\u{e9}/\u{65e5}\u{672c}\u{8a9e}/\u{1f5bc}.png",
            "# not a comment",
            "key = \"value\"",
            "[table]",
            "\u{0}\u{1}\u{7f}",
            "'''",
            "\"\"\"",
        ],
    );
    assert!(same(&round_trip(&before), &before));
}

#[test]
fn round_trip_of_a_long_gallery() {
    let paths: Vec<String> = (0..500).map(|i| format!("/pictures/{i}.png")).collect();
    let before = Config { background: Some(paths[250].clone()), gallery: paths };
    assert!(same(&round_trip(&before), &before));
}

#[test]
fn assemble_reads_what_was_found() {
    let found = assemble(
        Found::Text("a.png".to_string()),
        Found::List(vec![Some("a.png".to_string()), Some("b.png".to_string())]),
    )
    .unwrap();
    assert!(same(&found, &config(Some("a.png"), &["a.png", "b.png"])));
}

#[test]
fn assemble_takes_absent_keys_as_defaults() {
    let only_background = assemble(Found::Text("a.png".to_string()), Found::Absent).unwrap();
    assert!(same(&only_background, &config(Some("a.png"), &[])));
    let only_gallery = assemble(Found::Absent, Found::List(vec![])).unwrap();
    assert!(same(&only_gallery, &config(None, &[])));
}

#[test]
fn assemble_refuses_a_document_without_the_keys() {
    assert!(assemble(Found::Absent, Found::Absent).is_none());
}

#[test]
fn assemble_refuses_other_shapes() {
    assert!(assemble(Found::Other, Found::List(vec![])).is_none());
    assert!(assemble(Found::List(vec![]), Found::List(vec![])).is_none());
    assert!(assemble(Found::Text("a".to_string()), Found::Other).is_none());
    assert!(assemble(Found::Text("a".to_string()), Found::Text("a".to_string())).is_none());
    assert!(assemble(Found::Absent, Found::Other).is_none());
    assert!(assemble(Found::Other, Found::Absent).is_none());
    assert!(assemble(Found::Absent, Found::List(vec![Some("a".to_string()), None])).is_none());
    assert!(assemble(Found::Absent, Found::List(vec![None])).is_none());
}

#[test]
fn decode_table_looks_under_the_two_keys() {
    let mut table = toml::Table::new();
    table.insert("background".to_string(), toml::Value::String("x.png".to_string()));
    table.insert(
        "gallery".to_string(),
        toml::Value::Array(vec![
            toml::Value::String("x.png".to_string()),
            toml::Value::String("y.png".to_string()),
        ]),
    );
    table.insert("Background".to_string(), toml::Value::String("other.png".to_string()));
    table.insert("galleries".to_string(), toml::Value::Integer(1));
    let decoded = decode_table(&table).unwrap();
    assert!(same(&decoded, &config(Some("x.png"), &["x.png", "y.png"])));
}

#[test]
fn decode_table_refuses_other_values() {
    let mut table = toml::Table::new();
    table.insert("background".to_string(), toml::Value::Boolean(true));
    assert!(decode_table(&table).is_none());
    let mut table = toml::Table::new();
    table.insert(
        "gallery".to_string(),
        toml::Value::Array(vec![toml::Value::String("x.png".to_string()), toml::Value::Integer(2)]),
    );
    assert!(decode_table(&table).is_none());
    assert!(decode_table(&toml::Table::new()).is_none());
}

#[test]
fn encode_table_writes_the_gallery_always() {
    let table = encode_table(&Config::default());
    assert_eq!(table.len(), 1);
    assert_eq!(table.get("gallery"), Some(&toml::Value::Array(vec![])));
    assert_eq!(table.get("background"), None);
}

#[test]
fn encode_table_writes_the_background_if_selected() {
    let table = encode_table(&config(Some("b.png"), &["a.png", "b.png"]));
    assert_eq!(table.len(), 2);
    assert_eq!(table.get("background"), Some(&toml::Value::String("b.png".to_string())));
    assert_eq!(
        table.get("gallery"),
        Some(&toml::Value::Array(vec![
            toml::Value::String("a.png".to_string()),
            toml::Value::String("b.png".to_string()),
        ]))
    );
}

/// A small deterministic generator, so that every run sees the same cases.
struct Cases(u64);

impl Cases {
    fn next(&mut self, bound: usize) -> usize {
        self.0 = self.0.wrapping_mul(6364136223846793005).wrapping_add(1442695040888963407);
        ((self.0 >> 33) as usize) % bound
    }

    fn path(&mut self) -> String {
        let alphabet = [
            'a', 'b', 'z', 'A', '0', '9', '/', '\\', '.', ' ', '"', '\'', '#', '=', '[', ']', '{',
            '}', ',', '\n', '\r', '\t', '\u{0}', '\u{7f}', '\u{e9}', '\u{65e5}', '\u{1f5bc}',
        ];
        let length = self.next(12);
        (0..length).map(|_| alphabet[self.next(alphabet.len())]).collect()
    }

    fn config(&mut self) -> Config {
        let mut gallery: Vec<String> = Vec::new();
        for _ in 0..self.next(6) {
            let path = self.path();
            if !gallery.contains(&path) {
                gallery.push(path);
            }
        }
        let background = match self.next(3) {
            0 => None,
            1 if !gallery.is_empty() => Some(gallery[self.next(gallery.len())].clone()),
            _ => Some(self.path()),
        };
        Config { background, gallery }
    }
}

#[test]
fn round_trip_of_generated_configs() {
    let mut cases = Cases(0x5eed);
    for _ in 0..300 {
        let before = cases.config();
        assert!(same(&round_trip(&before), &before), "{before:?}");
    }
}

#[test]
fn parse_config_agrees_with_the_parsed_table() {
    let texts = [
        "",
        "background = \"a.png\"",
        "gallery = []",
        "gallery = [\"a.png\", \"b.png\"]\nbackground = \"b.png\"",
        "background = 1\ngallery = []",
        "gallery = [1, 2]",
        "gallery = [\"a\", [\"b\"]]",
        "other = \"x\"",
        "background = 'single quoted'",
        "background = \"\"\"\nmany\nlines\"\"\"",
        "background = \"a.png\" # trailing comment",
        "gallery = [\n  \"a.png\",\n  \"b.png\",\n]",
        "background = \"a.png\"\n[gallery]\nx = 1",
        "not toml at all",
        "background == \"a.png\"",
    ];
    for text in texts {
        let direct = parse_config(text);
        let by_table = match text.parse::<toml::Table>() {
            Ok(table) => decode_table(&table),
            Err(_) => None,
        };
        match (direct, by_table) {
            (Some(left), Some(right)) => assert!(same(&left, &right), "{text}"),
            (None, None) => {}
            _ => panic!("{text}"),
        }
    }
}

#[test]
fn parse_config_reads_every_string_form() {
    let single = parse_config("background = 'C:\\pictures\\a.png'").unwrap();
    assert_eq!(single.background, Some("C:\\pictures\\a.png".to_string()));
    let escaped = parse_config("background = \"tab\\there \\u00e9\"").unwrap();
    assert_eq!(escaped.background, Some("tab\there \u{e9}".to_string()));
    let multiline = parse_config("gallery = [\"\"\"\nfirst\nsecond\"\"\"]").unwrap();
    assert_eq!(multiline.gallery, vec!["first\nsecond".to_string()]);
}
