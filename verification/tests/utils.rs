use solana_program::pubkey::Pubkey;
use yaml_rust::YamlLoader;
use zeke_contract::address::Address;
use zeke_contract::error::ConfigFault;
use zeke_contract::error::ConfigField;
use zeke_contract::error::DerivationFault;
use zeke_contract::error::Error;
use zeke_contract::utils::get_config;
use zeke_contract::utils::get_greeting_count;
use zeke_contract::utils::get_greeting_data_size;
use zeke_contract::utils::get_greeting_public_key;
use zeke_contract::utils::get_greeting_seed;
use zeke_contract::utils::get_keypair_path;
use zeke_contract::utils::get_rpc_url;
use zeke_contract::utils::single_document;
use zeke_contract::utils::Config;
use zeke_contract::utils::MAX_NESTING_MARKS;

const CONFIG: &str = "---
json_rpc_url: \"http://localhost:8899\"
websocket_url: \"\"
keypair_path: /home/user/.config/solana/id.json
commitment: confirmed
";

#[test]
fn config_is_read_from_one_document() {
    let config = get_config(CONFIG).unwrap();
    assert_eq!(config.json_rpc_url, Some("http://localhost:8899".to_string()));
    assert_eq!(config.keypair_path, Some("/home/user/.config/solana/id.json".to_string()));
}

#[test]
fn config_without_fields_has_none() {
    let config = get_config("websocket_url: ws://localhost:8900\n").unwrap();
    assert_eq!(config, Config { json_rpc_url: None, keypair_path: None });
}

#[test]
fn config_field_that_is_no_string_counts_as_missing() {
    let config = get_config("json_rpc_url: 8899\nkeypair_path: [a, b]\n").unwrap();
    assert_eq!(config, Config { json_rpc_url: None, keypair_path: None });
    let config = get_config("json_rpc_url: true\nkeypair_path: ~\n").unwrap();
    assert_eq!(config, Config { json_rpc_url: None, keypair_path: None });
}

#[test]
fn config_that_is_no_mapping_has_no_fields() {
    let config = get_config("- json_rpc_url\n- keypair_path\n").unwrap();
    assert_eq!(config, Config { json_rpc_url: None, keypair_path: None });
    let config = get_config("just a string").unwrap();
    assert_eq!(config, Config { json_rpc_url: None, keypair_path: None });
}

#[test]
fn config_with_two_documents_is_rejected() {
    let text = "json_rpc_url: a\n---\njson_rpc_url: b\n";
    assert_eq!(
        get_config(text),
        Err(Error::InvalidConfig(ConfigFault::DocumentCount { found: 2 }))
    );
}

#[test]
fn empty_config_is_rejected() {
    assert_eq!(get_config(""), Err(Error::InvalidConfig(ConfigFault::DocumentCount { found: 0 })));
}

#[test]
fn malformed_config_is_rejected() {
    assert_eq!(
        get_config("json_rpc_url: \"unterminated\nkeypair_path: x"),
        Err(Error::InvalidConfig(ConfigFault::Unparsable))
    );
    assert_eq!(get_config("a: [1, 2"), Err(Error::InvalidConfig(ConfigFault::Unparsable)));
}

#[test]
fn single_document_wants_exactly_one() {
    assert_eq!(single_document(vec![7u8]), Ok(7u8));
    assert_eq!(
        single_document(Vec::<u8>::new()),
        Err(Error::InvalidConfig(ConfigFault::DocumentCount { found: 0 }))
    );
    assert_eq!(
        single_document(vec![1u8, 2, 3]),
        Err(Error::InvalidConfig(ConfigFault::DocumentCount { found: 3 }))
    );
}

#[test]
fn rpc_url_is_taken_from_the_config() {
    let config = get_config(CONFIG).unwrap();
    assert_eq!(get_rpc_url(&config), Ok("http://localhost:8899".to_string()));
}

#[test]
fn missing_rpc_url_is_reported() {
    let config = Config { json_rpc_url: None, keypair_path: Some("id.json".to_string()) };
    assert_eq!(
        get_rpc_url(&config),
        Err(Error::InvalidConfig(ConfigFault::MissingField { field: ConfigField::JsonRpcUrl }))
    );
}

#[test]
fn keypair_path_is_taken_from_the_config() {
    let config = get_config(CONFIG).unwrap();
    assert_eq!(get_keypair_path(&config), Ok("/home/user/.config/solana/id.json".to_string()));
}

#[test]
fn missing_keypair_path_is_reported() {
    let config =
        Config { json_rpc_url: Some("http://localhost:8899".to_string()), keypair_path: None };
    assert_eq!(
        get_keypair_path(&config),
        Err(Error::InvalidConfig(ConfigFault::MissingField { field: ConfigField::KeypairPath }))
    );
    assert_eq!(get_rpc_url(&config), Ok("http://localhost:8899".to_string()));
}

#[test]
fn config_fault_becomes_an_error() {
    assert_eq!(Error::from(ConfigFault::Unparsable), Error::InvalidConfig(ConfigFault::Unparsable));
}

#[test]
fn greeting_seed_is_hello() {
    assert_eq!(get_greeting_seed(), "hello");
}

#[test]
fn greeting_key_is_derived_with_the_greeting_seed() {
    let player = Address { bytes: [11; 32] };
    let program = Address { bytes: [22; 32] };
    let expected = Pubkey::create_with_seed(
        &Pubkey::from(player.bytes),
        "hello",
        &Pubkey::from(program.bytes),
    )
    .unwrap();
    let derived = get_greeting_public_key(&player, &program).unwrap();
    assert_eq!(derived.bytes, expected.to_bytes());
    assert_ne!(derived, player);
    assert_ne!(derived, program);
    assert_eq!(get_greeting_public_key(&player, &program), Ok(derived));
}

#[test]
fn greeting_key_depends_on_player_and_program() {
    let a = Address { bytes: [1; 32] };
    let b = Address { bytes: [2; 32] };
    let c = Address { bytes: [3; 32] };
    assert_ne!(get_greeting_public_key(&a, &c), get_greeting_public_key(&b, &c));
    assert_ne!(get_greeting_public_key(&a, &b), get_greeting_public_key(&a, &c));
    assert_ne!(get_greeting_public_key(&a, &b), get_greeting_public_key(&b, &a));
}

#[test]
fn greeting_key_of_a_reserved_program_is_refused() {
    let mut bytes = [0u8; 32];
    bytes[11..].copy_from_slice(b"ProgramDerivedAddress");
    assert_eq!(
        get_greeting_public_key(&Address { bytes: [1; 32] }, &Address { bytes }),
        Err(Error::AddressDerivationError(DerivationFault::IllegalOwner))
    );
}

#[test]
fn greeting_data_size_is_four() {
    assert_eq!(get_greeting_data_size(), Ok(4));
}

#[test]
fn greeting_count_is_decoded() {
    assert_eq!(get_greeting_count(&[0, 0, 0, 0]), Ok(0));
    assert_eq!(get_greeting_count(&[2, 0, 0, 0]), Ok(2));
    assert_eq!(get_greeting_count(&[0x78, 0x56, 0x34, 0x12]), Ok(0x1234_5678));
}

#[test]
fn greeting_count_of_wrong_length_is_a_serialization_error() {
    assert_eq!(
        get_greeting_count(&[1, 0]),
        Err(Error::SerializationError { expected: 4, actual: 2 })
    );
    assert_eq!(
        get_greeting_count(&[1, 0, 0, 0, 0, 0]),
        Err(Error::SerializationError { expected: 4, actual: 6 })
    );
    assert_eq!(get_greeting_count(&[]), Err(Error::SerializationError { expected: 4, actual: 0 }));
}

fn no_fields() -> Result<Config, Error> {
    Ok(Config { json_rpc_url: None, keypair_path: None })
}

fn too_nested(marks: usize) -> Result<Config, Error> {
    Err(Error::InvalidConfig(ConfigFault::TooNested { marks }))
}

fn nested(levels: usize, unit: &str, tail: &str) -> String {
    let mut text = unit.repeat(levels);
    text.push_str(tail);
    text
}

#[test]
fn long_flat_config_is_read() {
    let mut text = "json_rpc_url: http://localhost:8899\n# ".to_string();
    text.push_str(&"x".repeat(100_000));
    text.push_str("\nkeypair_path: /home/user/id.json\n");
    assert_eq!(
        get_config(&text),
        Ok(Config {
            json_rpc_url: Some("http://localhost:8899".to_string()),
            keypair_path: Some("/home/user/id.json".to_string()),
        })
    );
}

#[test]
fn config_with_an_asterisk_is_read() {
    assert_eq!(
        get_config("keypair_path: \"/tmp/a*b\"\n# *** local ***\n"),
        Ok(Config { json_rpc_url: None, keypair_path: Some("/tmp/a*b".to_string()) })
    );
}

#[test]
fn config_with_an_alias_is_read() {
    assert_eq!(
        get_config("main: &url http://localhost:8899\njson_rpc_url: *url\n"),
        Ok(Config { json_rpc_url: Some("http://localhost:8899".to_string()), keypair_path: None })
    );
    assert_eq!(
        get_config("json_rpc_url: *missing\n"),
        Err(Error::InvalidConfig(ConfigFault::Unparsable))
    );
}

#[test]
fn nesting_marks_are_few_in_an_ordinary_config() {
    // Seven colons, three of them in the addresses, and the dash that ends
    // the document marker: far from the limit.
    assert!(get_config(CONFIG).is_ok());
    assert_eq!(MAX_NESTING_MARKS, 256);
}

#[test]
fn config_with_as_many_marks_as_allowed_is_read() {
    let mut text = String::new();
    for line in 0..255 {
        text.push_str(&format!("k{}: v\n", line));
    }
    text.push_str("json_rpc_url: here\n");
    assert_eq!(
        get_config(&text),
        Ok(Config { json_rpc_url: Some("here".to_string()), keypair_path: None })
    );
}

#[test]
fn config_with_one_mark_too_many_is_rejected_unread() {
    let mut text = String::new();
    for line in 0..256 {
        text.push_str(&format!("k{}: v\n", line));
    }
    text.push_str("json_rpc_url: here\n");
    assert_eq!(get_config(&text), too_nested(257));
    assert_eq!(get_config(&nested(257, "- ", "a")), too_nested(257));
    assert_eq!(get_config(&nested(50_000, "- ", "a")), too_nested(50_000));
    assert_eq!(get_config(&nested(40_000, "? ", "")), too_nested(40_000));
    // Too many marks and malformed: the marks are what is reported.
    assert_eq!(get_config(&"[".repeat(600)), too_nested(600));
    assert_eq!(get_config(&"{".repeat(300)), too_nested(300));
}

#[test]
fn dashes_and_question_marks_in_words_are_no_marks() {
    let mut text = "keypair_path: ".to_string();
    text.push_str(&"a-b/c?d/".repeat(400));
    text.push_str("-x-\n");
    let config = get_config(&text).unwrap();
    assert_eq!(config.keypair_path.map(|path| path.len()), Some(3203));
    // Standing alone they are: before a blank, a tab, a line break or the end.
    assert_eq!(get_config(&nested(128, "- ", &"-\t".repeat(129))), too_nested(257));
    assert_eq!(get_config(&nested(128, "?\n", &nested(128, "?\r", "?"))), too_nested(257));
    assert_eq!(get_config(&nested(300, "-\0", "")), too_nested(300));
}

#[test]
fn config_that_nests_as_deep_as_allowed_is_read() {
    assert_eq!(get_config(&nested(256, "- ", "a")), no_fields());
    assert_eq!(get_config(&nested(256, "? ", "a")), no_fields());
    let mut flow = nested(128, "[a:", "b");
    flow.push_str(&"]".repeat(128));
    assert_eq!(get_config(&flow), no_fields());
    let mut mixed = nested(100, "? ", "");
    mixed.push_str(&nested(78, "[a:", "b"));
    mixed.push_str(&"]".repeat(78));
    assert_eq!(get_config(&mixed), no_fields());
}

#[test]
fn config_that_nests_on_line_after_line_is_read() {
    // A mapping whose value is a sequence at the same column, whose entry is
    // a mapping one column further in, and so on: two levels to the column.
    let mut text = String::new();
    for column in 0..128 {
        text.push_str(&" ".repeat(column));
        text.push_str("a:\n");
        text.push_str(&" ".repeat(column));
        text.push_str("-\n");
    }
    assert_eq!(get_config(&text), no_fields());
    let mut text = String::new();
    for column in 0..256 {
        text.push_str(&" ".repeat(column));
        text.push_str("-\n");
    }
    assert_eq!(get_config(&text), no_fields());
}

#[test]
fn config_that_nests_deep_and_is_malformed_is_rejected() {
    let unparsable = Err(Error::InvalidConfig(ConfigFault::Unparsable));
    assert_eq!(get_config(&nested(256, "[", "")), unparsable);
    assert_eq!(get_config(&nested(256, "{", "")), unparsable);
    assert_eq!(get_config(&nested(128, "? ", &"[".repeat(128))), unparsable);
    assert_eq!(get_config(&nested(128, "- ", &"{a:".repeat(64))), unparsable);
    assert_eq!(get_config(&nested(128, "[a:", "")), unparsable);
}

#[test]
fn loader_takes_twice_the_nesting_that_is_allowed() {
    assert!(YamlLoader::load_from_str(&nested(512, "? ", "a")).is_ok());
    assert!(YamlLoader::load_from_str(&nested(512, "- ", "a")).is_ok());
}

#[test]
fn odd_config_texts_are_answered() {
    let texts = [
        "\t", "\0", "---", "...", "--- ---", "%YAML 1.2\n---\na: b", "%TAG ! tag:x,2000:\n---\na",
        "*alias", "&anchor a: *anchor", "a: &x [*x]", "!!str", "!!binary |\n  R0lG", "? ", ": ",
        "- ", "? : ? :", "a: b: c", "a:\n\tb: c", "'unterminated", "\"x\\q\"", "> folded\n text",
        "|+\n literal\n\n", "{a: [b, {c: d}], ? e : f}", "[a, b: c, ? d]", "a: !!map {b: c}",
        "json_rpc_url: *missing", "\u{feff}a: b", "a: b\r\nc: d\r\n", "#only a comment",
        "- - a\n  - b\n- c", "a:\n  - b\n  -\n    c: d", "key: [unclosed", "key: {unclosed",
        "0x1F: 0o17", "~: null", "1e3: .inf", "json_rpc_url: \"\\u263A\\x41\\U0001F600\"",
        "a: &a [x, x]\nb: &b [*a, *a]\nc: [*b, *b]", "&a : *a", "[\"a\":b, 'c':d]",
    ];
    for text in texts {
        let first = get_config(text);
        assert_eq!(first, get_config(text));
    }
}

fn scrambled(seed: u64, rounds: usize) {
    let marks = "-?:[]{},&*!|>'\"%@`#~ \n\t\rab01.<=\\/_+$^;()";
    let others = "\u{e9}\u{20ac}\u{0}\u{85}\u{feff}";
    let alphabet: Vec<char> = marks.chars().chain(others.chars()).collect();
    let mut state = seed;
    for _ in 0..rounds {
        state = state
            .wrapping_mul(6_364_136_223_846_793_005)
            .wrapping_add(1_442_695_040_888_963_407);
        let length = (state >> 59) as usize + ((state >> 40) & 31) as usize;
        let mut text = String::new();
        for _ in 0..length {
            state = state
                .wrapping_mul(6_364_136_223_846_793_005)
                .wrapping_add(1_442_695_040_888_963_407);
            text.push(alphabet[(state >> 33) as usize % alphabet.len()]);
        }
        match get_config(&text) {
            Ok(config) => assert_eq!(Ok(config), get_config(&text)),
            Err(error) => assert!(matches!(
                error,
                Error::InvalidConfig(ConfigFault::Unparsable)
                    | Error::InvalidConfig(ConfigFault::DocumentCount { .. })
            )),
        }
    }
}

#[test]
fn scrambled_texts_are_answered() {
    scrambled(1, 40_000);
}

#[test]
fn more_scrambled_texts_are_answered() {
    scrambled(0x9e37_79b9_7f4a_7c15, 40_000);
}

#[test]
fn still_more_scrambled_texts_are_answered() {
    scrambled(0xdead_beef_cafe_f00d, 40_000);
}
