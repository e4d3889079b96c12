use colortty::listing::{listed_files, names_of_members};
use colortty::provider::{download_batches, CacheReading, ListStep, BATCH_SIZE};
use colortty::{Color, ColorScheme, ParseError, Provider, Repo};

fn real_byte(text: &str) -> Option<u8> {
    text.parse::<f32>().ok().map(|value| (value * 255.0) as u8)
}

fn names(count: usize) -> Vec<String> {
    (0..count).map(|i| format!("scheme {}", i)).collect()
}

#[test]
fn the_two_catalogs() {
    let iterm = Provider::iterm();
    assert_eq!(iterm.user_name, "mbadolato");
    assert_eq!(iterm.repo_name, "iTerm2-Color-Schemes");
    assert_eq!(iterm.list_path, "schemes");
    assert_eq!(iterm.extension, ".itermcolors");
    let gogh = Provider::gogh();
    assert_eq!(gogh, Provider::new("Gogh-Co", "Gogh", "themes", ".sh"));
}

#[test]
fn addresses() {
    assert_eq!(
        Provider::iterm().individual_url("Dracula"),
        "https://raw.githubusercontent.com/mbadolato/iTerm2-Color-Schemes/master/schemes/Dracula.itermcolors"
    );
    assert_eq!(
        Provider::gogh().individual_url("dracula"),
        "https://raw.githubusercontent.com/Gogh-Co/Gogh/master/themes/dracula.sh"
    );
    assert_eq!(
        Provider::iterm().list_url(),
        "https://api.github.com/repos/mbadolato/iTerm2-Color-Schemes/contents/schemes"
    );
    assert_eq!(Provider::gogh().list_url(), "https://api.github.com/repos/Gogh-Co/Gogh/contents/themes");
    assert_eq!(
        Repo::new("someone", "things", "dir").file_url("a file.txt"),
        "https://raw.githubusercontent.com/someone/things/master/dir/a file.txt"
    );
}

#[test]
fn cache_location() {
    assert_eq!(
        Provider::gogh().repo_dir(),
        vec!["colortty".to_string(), "repositories".to_string(), "Gogh-Co".to_string(), "Gogh".to_string()]
    );
    assert_eq!(Provider::gogh().cache_extension(), "sh");
    assert_eq!(Provider::iterm().cache_extension(), "itermcolors");
    assert_eq!(Provider::new("a", "b", "c", "").cache_extension(), "");
    assert_eq!(Provider::new("a", "b", "c", "é").cache_extension(), "");
}

#[test]
fn which_files_are_schemes() {
    let gogh = Provider::gogh();
    assert!(gogh.lists_scheme("dracula.sh"));
    assert!(gogh.lists_scheme(".sh"));
    assert!(!gogh.lists_scheme("_base.sh"));
    assert!(!gogh.lists_scheme("README.md"));
    assert!(!gogh.lists_scheme("dracula.sh.bak"));
    assert!(!gogh.lists_scheme(""));
    assert!(!gogh.lists_scheme("sh"));
    assert!(Provider::iterm().lists_scheme("3024 Day.itermcolors"));
}

#[test]
fn scheme_names_drop_the_extension_at_the_end() {
    let gogh = Provider::gogh();
    assert_eq!(gogh.scheme_name("dracula.sh"), "dracula");
    assert_eq!(gogh.scheme_name("a.sh.b.sh"), "a.sh.b");
    assert_eq!(gogh.scheme_name("a.sh.sh"), "a.sh");
    assert_eq!(gogh.scheme_name(".sh"), "");
    assert_eq!(gogh.scheme_name("no extension"), "no extension");
    assert_eq!(gogh.scheme_name("a.sh.bak"), "a.sh.bak");
    assert_eq!(gogh.scheme_name(""), "");
    assert_eq!(Provider::new("a", "b", "c", "").scheme_name("as it is"), "as it is");
    for filename in ["dracula.sh", "a.sh.b.sh", ".sh", "é.sh"] {
        assert_eq!(gogh.scheme_name(filename) + ".sh", filename);
        assert_eq!(gogh.individual_url(&gogh.scheme_name(filename)).rsplit('/').next(), Some(filename));
    }
}

#[test]
fn cached_files_are_named_by_scheme_and_extension() {
    let gogh = Provider::gogh();
    assert_eq!(gogh.cache_file_name("dracula"), "dracula.sh");
    assert_eq!(gogh.cache_file_name("a.b"), "a.b.sh");
    assert_eq!(gogh.cache_file_name("a.c"), "a.c.sh");
    assert_eq!(Provider::iterm().cache_file_name("3024 Day"), "3024 Day.itermcolors");
    for name in ["dracula", "a.b", "a.sh.b", ""] {
        assert_eq!(gogh.scheme_name(&gogh.cache_file_name(name)), name);
    }
}

#[test]
fn scheme_names_of_a_listing() {
    let listed: Vec<String> =
        ["README.md", "_apply.sh", "dracula.sh", "nord.sh", "nord.txt", "gruvbox.dark.sh"]
            .iter()
            .map(|name| name.to_string())
            .collect();
    assert_eq!(Provider::gogh().scheme_names(&listed), vec!["dracula", "nord", "gruvbox.dark"]);
    let twice = vec!["a.sh.b.sh".to_string()];
    assert_eq!(Provider::gogh().scheme_names(&twice), vec!["a.sh.b"]);
    assert_eq!(Provider::iterm().scheme_names(&listed), Vec::<String>::new());
}

#[test]
fn batches_hold_every_name_once_in_order() {
    for count in [0usize, 1, 9, 10, 11, 19, 20, 21, 25, 100, 101] {
        let all = names(count);
        let batches = download_batches(&all);
        assert_eq!(batches.concat(), all);
        assert_eq!(batches.len(), (count + 9) / 10);
        for (i, batch) in batches.iter().enumerate() {
            assert!(!batch.is_empty());
            assert!(batch.len() <= BATCH_SIZE);
            if i + 1 < batches.len() {
                assert_eq!(batch.len(), 10);
            }
        }
    }
    assert_eq!(BATCH_SIZE, 10);
}

#[test]
fn no_more_than_ten_fetches_are_under_way() {
    let batches = download_batches(&names(57));
    let mut under_way = 0usize;
    let mut peak = 0usize;
    let mut fetched = 0usize;
    for batch in &batches {
        for _ in batch {
            under_way += 1;
            peak = peak.max(under_way);
        }
        for _ in batch {
            under_way -= 1;
            fetched += 1;
        }
    }
    assert_eq!(fetched, 57);
    assert_eq!(peak, 10);
}

#[test]
fn listing_gives_the_names() {
    let body = r#"[{"name": "dracula.sh", "size": 1204}, {"name": "_base.sh"}, {"type": "dir", "name": "sub"}]"#;
    assert_eq!(
        listed_files(body),
        Some(vec!["dracula.sh".to_string(), "_base.sh".to_string(), "sub".to_string()])
    );
    assert_eq!(listed_files("[]"), Some(vec![]));
    assert_eq!(listed_files(r#"{"message": "rate limit exceeded"}"#), Some(vec![]));
}

#[test]
fn malformed_listing() {
    assert_eq!(listed_files(""), None);
    assert_eq!(listed_files("[{\"name\": "), None);
    assert_eq!(listed_files(r#"[{"name": "a.sh"}, {"path": "b.sh"}]"#), None);
    assert_eq!(listed_files(r#"[{"name": 7}]"#), None);
    assert_eq!(listed_files(r#"["a.sh"]"#), None);
    assert_eq!(names_of_members(&None), None);
    assert_eq!(names_of_members(&Some(vec![Some("a".to_string()), None])), None);
    assert_eq!(
        names_of_members(&Some(vec![Some("a".to_string()), Some("b".to_string())])),
        Some(vec!["a".to_string(), "b".to_string()])
    );
}

#[test]
fn what_list_does_after_reading_the_cache() {
    let iterm = Provider::iterm();
    assert_eq!(iterm.list(CacheReading::Absent), ListStep::Download);
    assert_eq!(iterm.list(CacheReading::Schemes(0)), ListStep::Download);
    assert_eq!(iterm.list(CacheReading::Schemes(1)), ListStep::UseCache);
    assert_eq!(iterm.list(CacheReading::Schemes(250)), ListStep::UseCache);
    assert_eq!(iterm.list(CacheReading::Broken), ListStep::Fail);
    assert_eq!(Provider::gogh().list(CacheReading::Broken), ListStep::Fail);
}

#[test]
fn listing_beyond_the_parser_is_malformed() {
    let long_fraction = format!("[{{\"name\": \"a.sh\", \"size\": 0.{}}}]", "0".repeat(32769));
    assert_eq!(listed_files(&long_fraction), None);
    assert_eq!(listed_files(&format!("0.{}", "0".repeat(32769))), None);
    assert_eq!(listed_files(&"7".repeat(32768)), None);
    let fraction = format!("[{{\"name\": \"a.sh\", \"size\": 0.{}1}}]", "0".repeat(32766));
    assert_eq!(listed_files(&fraction), Some(vec!["a.sh".to_string()]));
    assert_eq!(Provider::gogh().download_all(&long_fraction), None);
}

#[test]
fn a_catalog_reads_its_own_format() {
    let gogh_text = "export COLOR_02=\"#ff0000\"";
    let iterm_text = "<plist><dict><key>Ansi 1 Color</key><dict><key>Red Component</key>\
                      <real>1</real></dict></dict></plist>";
    let red = Color { red: 255, green: 0, blue: 0 };
    assert_eq!(Provider::gogh().parse_color_scheme(gogh_text, real_byte).unwrap().red, red);
    assert_eq!(Provider::iterm().parse_color_scheme(iterm_text, real_byte).unwrap().red, red);
    assert_eq!(Provider::iterm().parse_color_scheme(gogh_text, real_byte), Err(ParseError::XMLParse));
    assert_eq!(Provider::gogh().parse_color_scheme(iterm_text, real_byte), Ok(ColorScheme::default()));
    assert_eq!(
        Provider::new("a", "b", "c", ".minttyrc").parse_color_scheme(gogh_text, real_byte).unwrap().red,
        red
    );
}

#[test]
fn download_plan_from_a_listing() {
    let mut body = String::from("[");
    for i in 0..23 {
        body += &format!("{{\"name\": \"theme {}.sh\"}}, ", i);
    }
    body += "{\"name\": \"_base.sh\"}, {\"name\": \"README.md\"}]";
    let batches = Provider::gogh().download_all(&body).unwrap();
    assert_eq!(batches.iter().map(|batch| batch.len()).collect::<Vec<usize>>(), vec![10, 10, 3]);
    assert_eq!(batches[0][0], "theme 0");
    assert_eq!(batches[2][2], "theme 22");
    assert_eq!(Provider::iterm().download_all(&body), Some(vec![]));
    assert_eq!(Provider::gogh().download_all("not a listing"), None);
    assert_eq!(Provider::gogh().download_all("[{}]"), None);
}
