//! What a client needs before it can talk to the network: its configuration,
//! the address of its greeting account and the shape of the data stored there.

use crate::address::derive_storage_address;
use crate::address::derived_address;
use crate::address::is_outcome;
use crate::address::is_reserved_owner;
use crate::address::seed_len;
use crate::address::Address;
use crate::error::ConfigFault;
use crate::error::ConfigField;
use crate::error::DerivationFault;
use crate::error::Error;
use crate::schema::decode_counter;
use crate::schema::decoded;
use crate::schema::encode_counter;
use crate::schema::RECORD_SIZE;
use vstd::prelude::*;
use vstd::utf8::encode_utf8;
use yaml_rust::ScanError;
use yaml_rust::Yaml;
use yaml_rust::YamlLoader;

verus! {

/// `yaml_rust::Yaml`, a node of a loaded document.  Nothing is known of what
/// is inside but what `yaml_strings` and `yaml_text` name.
#[verifier::external_type_specification]
#[verifier::external_body]
pub struct ExYaml(Yaml);

/// `yaml_rust::ScanError`, the loader's complaint about a malformed text.
#[verifier::external_type_specification]
#[verifier::external_body]
pub struct ExScanError(ScanError);

/// The most nesting marks that a configuration text may hold.  The loader
/// descends one level for every sequence or mapping that the text opens
/// inside another, and each of these is opened by a mark of its own, so a
/// text with no more marks than this nests no deeper than this.  Nesting
/// twice as deep is still parsed within the two mebibytes of stack that a
/// thread has by default; nesting three times as deep is not.
pub const MAX_NESTING_MARKS: usize = 256;

/// Whether the byte at `i` ends a word: a blank, a tab, a line break, a zero
/// byte, or the end of the text.
pub open spec fn is_blank_or_end(bytes: Seq<u8>, i: int) -> bool {
    i >= bytes.len() || bytes[i] == 32 || bytes[i] == 9 || bytes[i] == 10 || bytes[i] == 13
        || bytes[i] == 0
}

/// Whether the byte at `i` is a mark that can open a sequence or a mapping:
/// an opening bracket or brace, a colon, or a dash or question mark that
/// stands alone.
pub open spec fn is_nesting_mark(bytes: Seq<u8>, i: int) -> bool {
    bytes[i] == 91 || bytes[i] == 123 || bytes[i] == 58 || ((bytes[i] == 45 || bytes[i] == 63)
        && is_blank_or_end(bytes, i + 1))
}

/// The number of nesting marks among the first `n` bytes.
pub open spec fn nesting_marks_in(bytes: Seq<u8>, n: nat) -> nat
    decreases n,
{
    if n == 0 {
        0
    } else if is_nesting_mark(bytes, n - 1) {
        nesting_marks_in(bytes, (n - 1) as nat) + 1
    } else {
        nesting_marks_in(bytes, (n - 1) as nat)
    }
}

/// The number of nesting marks in a text.
pub open spec fn nesting_marks(text: Seq<char>) -> nat {
    nesting_marks_in(encode_utf8(text), encode_utf8(text).len())
}

/// Whether a text may be handed to the loader: it holds no more than
/// `MAX_NESTING_MARKS` nesting marks.
pub open spec fn is_loadable(text: Seq<char>) -> bool {
    nesting_marks(text) <= MAX_NESTING_MARKS
}

/// The settings that the client reads from the command line tool's
/// configuration document.  A field is `None` when the document does not
/// give it as a string.
#[derive(Clone, Debug, PartialEq, Eq)]
pub struct Config {
    /// Endpoint of the node to send requests to.
    pub json_rpc_url: Option<String>,
    /// Path of the file that holds the payer's signing key.
    pub keypair_path: Option<String>,
}

/// A configuration as plain text values.
pub struct ConfigView {
    pub json_rpc_url: Option<Seq<char>>,
    pub keypair_path: Option<Seq<char>>,
}

/// The text of an optional string.
pub open spec fn text_of(value: Option<String>) -> Option<Seq<char>> {
    match value {
        Some(text) => Some(text@),
        None => None,
    }
}

impl View for Config {
    type V = ConfigView;

    open spec fn view(&self) -> ConfigView {
        ConfigView {
            json_rpc_url: text_of(self.json_rpc_url),
            keypair_path: text_of(self.keypair_path),
        }
    }
}

/// The entries of a YAML document that map a string key to a string value.
/// A document that is not a mapping has none.
pub uninterp spec fn yaml_strings(document: Yaml) -> Map<Seq<char>, Seq<char>>;

/// The text of a YAML node that is a string, `None` for any other node.
pub uninterp spec fn yaml_text(node: Yaml) -> Option<Seq<char>>;

/// The documents that a text holds, each by its string entries, or `None`
/// where the text is not well-formed YAML.
pub uninterp spec fn yaml_documents(text: Seq<char>) -> Option<Seq<Map<Seq<char>, Seq<char>>>>;

/// `yaml_rust::YamlLoader::load_from_str`.  The contract only names what the
/// loader makes of the text: the same text always loads the same documents.
/// The loader recurses as deep as the text nests, so the text must hold few
/// enough nesting marks for that to stay within the stack.  The loader also
/// copies a node for every alias to it; how much memory loading takes is no
/// part of the contract.
#[verifier::external_body]
fn yaml_load_from_str(text: &str) -> (r: Result<Vec<Yaml>, ScanError>)
    requires
        is_loadable(text@),
    ensures
        match r {
            Ok(documents) => yaml_documents(text@) == Some(
                documents@.map_values(|document: Yaml| yaml_strings(document)),
            ),
            Err(_) => yaml_documents(text@) is None,
        },
{
    YamlLoader::load_from_str(text)
}

/// Indexing a `yaml_rust::Yaml` by a string key.  Indexing never fails: it
/// gives the node stored under the key, and a bad value, which is no string,
/// where the key is missing or the document is not a mapping.
#[verifier::external_body]
fn yaml_index<'a>(document: &'a Yaml, key: &str) -> (node: &'a Yaml)
    ensures
        yaml_text(*node) == entry(yaml_strings(*document), key@),
{
    &document[key]
}

/// `yaml_rust::Yaml::as_str`: the text of a string node, `None` for a node
/// of any other kind.
#[verifier::external_body]
fn yaml_as_str<'a>(node: &'a Yaml) -> (r: Option<&'a str>)
    ensures
        match r {
            Some(text) => yaml_text(*node) == Some(text@),
            None => yaml_text(*node) is None,
        },
{
    node.as_str()
}

/// The value that a set of string entries holds under a key, if any.
pub open spec fn entry(entries: Map<Seq<char>, Seq<char>>, key: Seq<char>) -> Option<Seq<char>> {
    if entries.contains_key(key) {
        Some(entries[key])
    } else {
        None
    }
}

/// What `get_config` makes of a text.
pub open spec fn config_of(text: Seq<char>) -> Result<ConfigView, Error> {
    if nesting_marks(text) > MAX_NESTING_MARKS {
        Err(Error::InvalidConfig(ConfigFault::TooNested { marks: nesting_marks(text) as usize }))
    } else {
        match yaml_documents(text) {
            None => Err(Error::InvalidConfig(ConfigFault::Unparsable)),
            Some(documents) => if documents.len() == 1 {
                Ok(
                    ConfigView {
                        json_rpc_url: entry(documents[0], "json_rpc_url"@),
                        keypair_path: entry(documents[0], "keypair_path"@),
                    },
                )
            } else {
                Err(
                    Error::InvalidConfig(
                        ConfigFault::DocumentCount { found: documents.len() as usize },
                    ),
                )
            },
        }
    }
}

/// Copies an optional string slice into an optional owned string.
fn owned(text: Option<&str>) -> (r: Option<String>)
    ensures
        match text {
            Some(slice) => r is Some && r->Some_0@ == slice@,
            None => r is None,
        },
{
    match text {
        Some(slice) => Some(slice.to_owned()),
        None => None,
    }
}

/// Picks the one document out of what a text was loaded into.  A text with
/// no document, or with more than one, is turned down with their number.
pub fn single_document<T>(documents: Vec<T>) -> (r: Result<T, Error>)
    ensures
        documents@.len() == 1 ==> r == Ok::<T, Error>(documents@[0]),
        documents@.len() != 1 ==> r == Err::<T, Error>(
            Error::InvalidConfig(ConfigFault::DocumentCount { found: documents@.len() as usize }),
        ),
{
    let mut documents = documents;
    let found = documents.len();
    if found == 1 {
        Ok(documents.remove(0))
    } else {
        Err(Error::InvalidConfig(ConfigFault::DocumentCount { found }))
    }
}

/// Counts the nesting marks among `bytes`.
fn count_nesting_marks(bytes: &[u8]) -> (marks: usize)
    ensures
        marks == nesting_marks_in(bytes@, bytes@.len()),
{
    let mut marks: usize = 0;
    let mut i: usize = 0;
    while i < bytes.len()
        invariant
            i <= bytes@.len(),
            marks <= i,
            marks == nesting_marks_in(bytes@, i as nat),
        decreases bytes@.len() - i,
    {
        let byte = bytes[i];
        let alone = i + 1 == bytes.len() || bytes[i + 1] == 32 || bytes[i + 1] == 9 || bytes[i
            + 1] == 10 || bytes[i + 1] == 13 || bytes[i + 1] == 0;
        if byte == 91 || byte == 123 || byte == 58 || ((byte == 45 || byte == 63) && alone) {
            marks += 1;
        }
        i += 1;
    }
    marks
}

/// Parses the text of the configuration file.  The text must hold exactly
/// one YAML document; the two settings are taken from it where it gives them
/// as strings.  A text with more than `MAX_NESTING_MARKS` nesting marks is
/// turned down unread, whatever it holds.
pub fn get_config(text: &str) -> (r: Result<Config, Error>)
    ensures
        match r {
            Ok(config) => config_of(text@) == Ok::<ConfigView, Error>(config@),
            Err(error) => config_of(text@) == Err::<ConfigView, Error>(error),
        },
        nesting_marks(text@) > MAX_NESTING_MARKS ==> r == Err::<Config, Error>(
            Error::InvalidConfig(ConfigFault::TooNested { marks: nesting_marks(text@) as usize }),
        ),
{
    let marks = count_nesting_marks(text.as_bytes());
    if marks > MAX_NESTING_MARKS {
        return Err(Error::from(ConfigFault::TooNested { marks }));
    }
    let documents = match yaml_load_from_str(text) {
        Ok(documents) => documents,
        Err(_) => {
            return Err(Error::from(ConfigFault::Unparsable));
        },
    };
    match single_document(documents) {
        Ok(document) => {
            let json_rpc_url = owned(yaml_as_str(yaml_index(&document, "json_rpc_url")));
            let keypair_path = owned(yaml_as_str(yaml_index(&document, "keypair_path")));
            Ok(Config { json_rpc_url, keypair_path })
        },
        Err(error) => Err(error),
    }
}

/// Gets the endpoint of the node that the configuration points to.
pub fn get_rpc_url(config: &Config) -> (r: Result<String, Error>)
    ensures
        match config@.json_rpc_url {
            Some(url) => r is Ok && r->Ok_0@ == url,
            None => r == Err::<String, Error>(
                Error::InvalidConfig(ConfigFault::MissingField { field: ConfigField::JsonRpcUrl }),
            ),
        },
{
    match &config.json_rpc_url {
        Some(url) => Ok(url.clone()),
        None => Err(
            Error::InvalidConfig(ConfigFault::MissingField { field: ConfigField::JsonRpcUrl }),
        ),
    }
}

/// Gets the path of the file that holds the payer's signing key.
pub fn get_keypair_path(config: &Config) -> (r: Result<String, Error>)
    ensures
        match config@.keypair_path {
            Some(path) => r is Ok && r->Ok_0@ == path,
            None => r == Err::<String, Error>(
                Error::InvalidConfig(ConfigFault::MissingField { field: ConfigField::KeypairPath }),
            ),
        },
{
    match &config.keypair_path {
        Some(path) => Ok(path.clone()),
        None => Err(
            Error::InvalidConfig(ConfigFault::MissingField { field: ConfigField::KeypairPath }),
        ),
    }
}

/// The greeting seed, `hello`.
pub open spec fn greeting_seed() -> Seq<char> {
    seq!['h', 'e', 'l', 'l', 'o']
}

/// Gets the seed used to derive greeting accounts.  Another seed gives
/// another account, and so a counter that starts over.
pub fn get_greeting_seed() -> (seed: &'static str)
    ensures
        seed@ == greeting_seed(),
        seed_len(seed@) == 5,
{
    let seed = "hello";
    proof {
        reveal_strlit("hello");
        assert(seed@ =~= greeting_seed());
        vstd::utf8::is_ascii_chars_encode_utf8(seed@);
    }
    seed
}

/// Derives the address of the greeting account that `player` keeps with
/// `program`.  The seed is short enough, so the derivation fails only for a
/// program key that ends in the reserved marker.
pub fn get_greeting_public_key(player: &Address, program: &Address) -> (r: Result<Address, Error>)
    ensures
        is_outcome(r, derived_address(player@, greeting_seed(), program@)),
        r is Err <==> is_reserved_owner(program@),
        r is Err ==> r == Err::<Address, Error>(
            Error::AddressDerivationError(DerivationFault::IllegalOwner),
        ),
{
    derive_storage_address(player, get_greeting_seed(), program)
}

/// Determines the size of the data stored in a greeting account.
pub fn get_greeting_data_size() -> (r: Result<usize, Error>)
    ensures
        r == Ok::<usize, Error>(RECORD_SIZE),
{
    let encoded = encode_counter(0);
    Ok(encoded.len())
}

/// What `get_greeting_count` makes of the bytes of a greeting account.
pub open spec fn greeting_count(data: Seq<u8>) -> Result<u32, Error> {
    match decoded(data) {
        Ok(counter) => Ok(counter),
        Err(_) => Err(
            Error::SerializationError { expected: RECORD_SIZE, actual: data.len() as usize },
        ),
    }
}

/// Decodes the data of a greeting account and reports its counter.
pub fn get_greeting_count(data: &[u8]) -> (r: Result<u32, Error>)
    ensures
        r == greeting_count(data@),
        r is Ok <==> data@.len() == RECORD_SIZE,
{
    match decode_counter(data) {
        Ok(counter) => Ok(counter),
        Err(_) => Err(Error::SerializationError { expected: RECORD_SIZE, actual: data.len() }),
    }
}

} // verus!
