use bookshelf::save::Write;
use bookshelf::{
    get_book_conf, make_epub, reply, save_encoded, write_book_conf, BookConf, ConfigError, EpubInfo,
    ErrorMessage,
};

fn conf() -> BookConf {
    BookConf {
        name: "x".to_string(),
        author: "y".to_string(),
        title: "z".to_string(),
        start: None,
        start_title: None,
    }
}

fn full() -> BookConf {
    BookConf {
        name: "moby-dick".to_string(),
        author: "Herman Melville".to_string(),
        title: "Moby-Dick; or, \"The Whale\"".to_string(),
        start: Some("loomings".to_string()),
        start_title: Some("Chapter 1:\tLoomings \u{e9}t\u{e9}".to_string()),
    }
}

#[test]
fn a_failed_lookup_is_answered_with_status_false() {
    assert_eq!(get_book_conf(Err(ConfigError::NotFound)), "{\"status\":false}");
    assert_eq!(get_book_conf(Err(ConfigError::Parse("bad".to_string()))), "{\"status\":false}");
    assert_eq!(get_book_conf(Err(ConfigError::Read("denied".to_string()))), "{\"status\":false}");
    assert_eq!(reply(Err(ConfigError::NotFound)), "{\"status\":false}");
}

#[test]
fn a_configuration_with_text_is_answered_with_that_text() {
    assert_eq!(reply(Ok("{\"name\":\"x\"}".to_string())), "{\"name\":\"x\"}");
    assert_eq!(reply(Ok(String::new())), "");
}

#[test]
fn a_configuration_is_answered_with_its_members_in_order() {
    assert_eq!(
        get_book_conf(Ok(conf())),
        "{\"name\":\"x\",\"author\":\"y\",\"title\":\"z\",\"start\":null,\"start_title\":null}"
    );
}

#[test]
fn texts_are_escaped_as_json_asks() {
    assert_eq!(
        get_book_conf(Ok(full())),
        "{\"name\":\"moby-dick\",\"author\":\"Herman Melville\",\
         \"title\":\"Moby-Dick; or, \\\"The Whale\\\"\",\"start\":\"loomings\",\
         \"start_title\":\"Chapter 1:\\tLoomings \u{e9}t\u{e9}\"}"
    );
}

#[test]
fn the_answer_reads_back_as_the_configuration() {
    for conf in [conf(), full()] {
        let text = get_book_conf(Ok(conf.clone()));
        let doc: serde_json::Value = serde_json::from_str(&text).expect("the reply is JSON");
        let members = doc.as_object().expect("the reply is an object");
        let keys: Vec<&str> = members.keys().map(|k| k.as_str()).collect();
        assert_eq!(keys, vec!["name", "author", "title", "start", "start_title"]);
        assert_eq!(doc["name"].as_str(), Some(conf.name.as_str()));
        assert_eq!(doc["author"].as_str(), Some(conf.author.as_str()));
        assert_eq!(doc["title"].as_str(), Some(conf.title.as_str()));
        assert_eq!(doc["start"].as_str(), conf.start.as_deref());
        assert_eq!(doc["start_title"].as_str(), conf.start_title.as_deref());
        assert_eq!(doc["start"].is_null(), conf.start.is_none());
    }
}

#[test]
fn the_members_of_a_configuration_are_its_five_fields() {
    assert_eq!(
        full().members(),
        vec![
            ("name".to_string(), Some("moby-dick".to_string())),
            ("author".to_string(), Some("Herman Melville".to_string())),
            ("title".to_string(), Some("Moby-Dick; or, \"The Whale\"".to_string())),
            ("start".to_string(), Some("loomings".to_string())),
            ("start_title".to_string(), Some("Chapter 1:\tLoomings \u{e9}t\u{e9}".to_string())),
        ]
    );
    assert_eq!(conf().members()[3], ("start".to_string(), None));
    assert_eq!(conf().members()[4], ("start_title".to_string(), None));
}

#[test]
fn the_failure_document_is_a_json_object_with_one_boolean_member() {
    for text in [reply(Err(ConfigError::NotFound)), get_book_conf(Err(ConfigError::NotFound))] {
        let doc: serde_json::Value = serde_json::from_str(&text).expect("the reply is JSON");
        let members = doc.as_object().expect("the reply is an object");
        assert_eq!(members.len(), 1);
        assert_eq!(members.get("status"), Some(&serde_json::Value::Bool(false)));
    }
}

#[test]
fn saving_succeeds_for_every_configuration_tried() {
    let texts = ["", "x", "a: b", "- c", "#", "'", "\"", "\n", "\t", "~", "null", "\u{0}", "\u{e9}"];
    for a in texts {
        for b in texts {
            let conf = BookConf {
                name: a.to_string(),
                author: b.to_string(),
                title: format!("{}{}", a, b),
                start: Some(b.to_string()),
                start_title: None,
            };
            let first = write_book_conf("/b", &conf).expect("the encoding succeeded");
            let second = write_book_conf("/elsewhere/", &conf).expect("the encoding succeeded");
            assert_eq!(first.text, second.text);
            let doc: serde_yaml::Value = serde_yaml::from_str(&first.text).expect("YAML");
            assert_eq!(doc["name"].as_str(), Some(a));
            assert_eq!(doc["author"].as_str(), Some(b));
            assert_eq!(doc["start"].as_str(), Some(b));
            assert!(doc["start_title"].is_null());
        }
    }
}

#[test]
fn saving_writes_the_yaml_mapping_of_the_configuration() {
    let write = write_book_conf("/books/moby", &conf());
    assert_eq!(
        write,
        Ok(Write {
            path: "/books/moby/book.yaml".to_string(),
            text: "name: x\nauthor: y\ntitle: z\nstart: null\nstart_title: null\n".to_string(),
        })
    );
}

#[test]
fn saving_quotes_what_yaml_would_read_otherwise() {
    let odd = BookConf {
        name: "true".to_string(),
        author: "10".to_string(),
        title: "a: b".to_string(),
        start: Some("null".to_string()),
        start_title: Some(String::new()),
    };
    let write = write_book_conf("/b", &odd).expect("the encoding succeeded");
    let doc: serde_yaml::Value = serde_yaml::from_str(&write.text).expect("the text is YAML");
    assert_eq!(doc["name"].as_str(), Some("true"));
    assert_eq!(doc["author"].as_str(), Some("10"));
    assert_eq!(doc["title"].as_str(), Some("a: b"));
    assert_eq!(doc["start"].as_str(), Some("null"));
    assert_eq!(doc["start_title"].as_str(), Some(""));
}

#[test]
fn saving_writes_book_yaml_directly_inside_the_directory() {
    for (dir, path) in [
        ("/books/moby", "/books/moby/book.yaml"),
        ("/books/moby/", "/books/moby/book.yaml"),
        ("/", "/book.yaml"),
        ("", "book.yaml"),
        ("/books/assets", "/books/assets/book.yaml"),
    ] {
        assert_eq!(write_book_conf(dir, &conf()).map(|w| w.path), Ok(path.to_string()));
        assert_eq!(save_encoded(dir, Ok("t".to_string())).map(|w| w.path), Ok(path.to_string()));
    }
}

#[test]
fn saving_encoded_text_writes_that_text() {
    let write = save_encoded("/books/moby", Ok("name: x\n".to_string()));
    assert_eq!(
        write,
        Ok(Write { path: "/books/moby/book.yaml".to_string(), text: "name: x\n".to_string() })
    );
    let write = save_encoded("/books/moby/", Ok(String::new()));
    assert_eq!(write, Ok(Write { path: "/books/moby/book.yaml".to_string(), text: String::new() }));
}

#[test]
fn saving_fails_where_the_encoding_failed() {
    let write = save_encoded("/books/moby", Err("cannot encode".to_string()));
    assert_eq!(write, Err(ConfigError::Encode("cannot encode".to_string())));
    assert_eq!(write.unwrap_err().message(), "cannot encode");
}

#[test]
fn the_export_gives_its_fixed_text() {
    let info = EpubInfo {
        id: Some("urn:isbn:0".to_string()),
        conf: BookConf {
            name: "x".to_string(),
            author: "y".to_string(),
            title: "z".to_string(),
            start: None,
            start_title: None,
        },
        fonts: Some(vec!["serif.ttf".to_string()]),
        images: None,
    };
    assert_eq!(make_epub(&"/out/book.epub".to_string(), &info), "Dummy");
    assert_eq!(make_epub(&String::new(), &info), "Dummy");
}

#[test]
fn an_error_message_holds_its_text() {
    let message = ErrorMessage { error: "book.yaml not found".to_string() };
    assert_eq!(message.error, ConfigError::NotFound.message());
    assert_eq!(message, ErrorMessage { error: "book.yaml not found".to_string() });
}
