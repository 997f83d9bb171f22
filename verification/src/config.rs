//! The configuration that outlives the application: host and port of the backend.

use vstd::prelude::*;
use vstd::string::*;

use serde_json::Value;
use std::path::PathBuf;

use crate::address::{ServerAddr, DEFAULT_HOST, DEFAULT_PORT};
use crate::json::{
    as_natural, as_text, member, natural_value, object_value, parse_value, pretty_value,
    text_value, Json,
};
use crate::paths::{config_dir_in, config_file, found_data_dir};

verus! {

/// A file that is to be written, with the directory that must exist for it.
#[derive(Debug)]
pub struct ConfigFile {
    pub dir: PathBuf,
    pub path: PathBuf,
    pub content: String,
}

/// The member of an object that has the name `name`.
pub open spec fn member_of(json: Json, name: Seq<char>) -> Option<Json> {
    match json {
        Json::Object(members) => if members.dom().contains(name) {
            Some(members[name])
        } else {
            None
        },
        _ => None,
    }
}

/// The host that a configuration names: a string, or none.
pub open spec fn host_in(json: Json) -> Option<Seq<char>> {
    match member_of(json, "host"@) {
        Some(Json::Text(s)) => Some(s),
        _ => None,
    }
}

/// The port that a configuration names: a natural number, or none.
pub open spec fn port_in(json: Json) -> Option<u64> {
    match member_of(json, "port"@) {
        Some(Json::Natural(n)) => Some(n),
        _ => None,
    }
}

/// The address made of a host and a port that may be missing. A number that is too
/// large for a port counts as a missing one.
pub open spec fn addr_or_default(host: Option<Seq<char>>, port: Option<u64>) -> (Seq<char>, u16) {
    (
        match host {
            Some(h) => h,
            None => DEFAULT_HOST@,
        },
        match port {
            Some(p) => if p <= 65535 {
                p as u16
            } else {
                DEFAULT_PORT
            },
            None => DEFAULT_PORT,
        },
    )
}

/// The address that a configuration text names. A text that is not JSON names the
/// default address.
pub open spec fn addr_in(text: Seq<char>) -> (Seq<char>, u16) {
    match crate::json::parsed_json(text) {
        Some(json) => addr_or_default(host_in(json), port_in(json)),
        None => crate::address::default_addr(),
    }
}

/// The configuration that names `host` and `port`, and nothing else.
pub open spec fn config_json(host: Seq<char>, port: u16) -> Json {
    Json::Object(
        Map::empty().insert("host"@, Json::Text(host)).insert("port"@, Json::Natural(port as u64)),
    )
}

/// The text of the configuration that names `host` and `port`.
pub open spec fn config_text_of(host: Seq<char>, port: u16) -> Seq<char> {
    crate::json::pretty_json(config_json(host, port))
}

/// The current address after each of `saves` was saved in turn.
pub open spec fn after_saves(
    current: (Seq<char>, u16),
    saves: Seq<(Seq<char>, u16)>,
) -> (Seq<char>, u16)
    decreases saves.len(),
{
    if saves.len() == 0 {
        current
    } else {
        after_save(after_saves(current, saves.drop_last()), saves.last())
    }
}

/// The current address after `saved` was saved.
pub open spec fn after_save(
    current: (Seq<char>, u16),
    saved: (Seq<char>, u16),
) -> (Seq<char>, u16) {
    saved
}

proof fn lemma_names_differ()
    ensures
        "host"@ != "port"@,
        "host"@.len() == 4,
        "port"@.len() == 4,
        "host"@[0] == 'h',
        "port"@[0] == 'p',
{
    reveal_strlit("host");
    reveal_strlit("port");
    assert("host"@[0] != "port"@[0]);
}

/// A configuration that names a host and a port stands for exactly these, whatever
/// they are.
pub proof fn config_stands_for_its_address(host: Seq<char>, port: u16)
    ensures
        host_in(config_json(host, port)) == Some(host),
        port_in(config_json(host, port)) == Some(port as u64),
        addr_or_default(
            host_in(config_json(host, port)),
            port_in(config_json(host, port)),
        ) == (host, port),
{
    lemma_names_differ();
}

/// A configuration in which a name is missing, or has a value of another kind,
/// leaves that name at its default and no other. The port is always what the
/// configuration says, or the default: a number that is no port is not bent into one.
pub proof fn missing_names_are_defaults(host: Option<Seq<char>>, port: Option<u64>)
    ensures
        addr_or_default(host, port).1 == DEFAULT_PORT || Some(
            addr_or_default(host, port).1 as u64,
        ) == port,
        port matches Some(p) && p > 65535 ==> addr_or_default(host, port).1 == DEFAULT_PORT,
        addr_or_default(None, port).0 == DEFAULT_HOST@,
        addr_or_default(host, None).1 == DEFAULT_PORT,
        addr_or_default(host, None).0 == addr_or_default(host, port).0,
        addr_or_default(None, port).1 == addr_or_default(host, port).1,
        addr_or_default(None, None) == crate::address::default_addr(),
{
}

/// The address made of a host and a port that may be missing.
pub fn addr_from(host: Option<&str>, port: Option<u64>) -> (addr: ServerAddr)
    ensures
        addr@ == addr_or_default(
            match host {
                Some(h) => Some(h@),
                None => None,
            },
            port,
        ),
{
    let host: &str = match host {
        Some(h) => h,
        None => DEFAULT_HOST,
    };
    let port: u16 = match port {
        Some(p) => if p <= 65535 {
            p as u16
        } else {
            DEFAULT_PORT
        },
        None => DEFAULT_PORT,
    };
    ServerAddr { host: host.to_owned(), port }
}

/// The address that a JSON value names.
pub fn addr_in_value(value: &Value) -> (addr: ServerAddr)
    ensures
        addr@ == addr_or_default(
            host_in(crate::json::json_of(*value)),
            port_in(crate::json::json_of(*value)),
        ),
{
    let host: Option<&str> = match member(value, "host") {
        Some(v) => as_text(v),
        None => None,
    };
    let port: Option<u64> = match member(value, "port") {
        Some(v) => as_natural(v),
        None => None,
    };
    addr_from(host, port)
}

/// The address that the configuration names. `data` is the content of the
/// configuration file, or `None` where it cannot be read. A file that is missing or
/// malformed stands for the default address.
pub fn load_config(data: Option<&str>) -> (addr: ServerAddr)
    ensures
        addr@ == (match data {
            Some(text) => addr_in(text@),
            None => crate::address::default_addr(),
        }),
{
    match data {
        Some(text) => match parse_value(text) {
            Ok(value) => addr_in_value(&value),
            Err(_) => ServerAddr::default(),
        },
        None => ServerAddr::default(),
    }
}

/// The configuration that names `host` and `port`, as text. It reads back as that
/// address.
pub fn config_text(host: &str, port: u16) -> (text: String)
    ensures
        text@ == config_text_of(host@, port),
        addr_in(text@) == (host@, port),
{
    let host_value = text_value(host);
    let port_value = natural_value(port);
    let mut pairs: Vec<(String, Value)> = Vec::new();
    pairs.push(("host".to_owned(), host_value));
    pairs.push(("port".to_owned(), port_value));
    proof {
        lemma_names_differ();
        reveal_with_fuel(crate::json::members_of, 3);
        assert(pairs@.drop_last().drop_last() =~= Seq::empty());
        assert(crate::json::members_of(pairs@) == Map::empty().insert(
            "host"@,
            Json::Text(host@),
        ).insert("port"@, Json::Natural(port as u64)));
    }
    let value = object_value(pairs);
    proof {
        config_stands_for_its_address(host@, port);
        assert(crate::json::is_record(crate::json::json_of(value)));
    }
    pretty_value(&value).unwrap()
}

/// The configuration file below `base` that names `host` and `port`.
pub fn config_file_in(base: Option<PathBuf>, host: &str, port: u16) -> (file: ConfigFile)
    ensures
        file.dir == crate::paths::config_dir_of(base),
        file.path == crate::paths::config_file_of(file.dir),
        file.content@ == config_text_of(host@, port),
        addr_in(file.content@) == (host@, port),
{
    let dir = config_dir_in(base);
    let path = config_file(&dir);
    ConfigFile { dir, path, content: config_text(host, port) }
}

/// The configuration file of the application that names `host` and `port`. Its
/// directory comes first; what it held before is replaced.
pub fn save_config_file(host: &str, port: u16) -> (file: ConfigFile)
    ensures
        exists|base: Option<PathBuf>|
            crate::paths::is_local_data_dir(base) && file.dir
                == #[trigger] crate::paths::config_dir_of(base),
        file.path == crate::paths::config_file_of(file.dir),
        file.content@ == config_text_of(host@, port),
        addr_in(file.content@) == (host@, port),
{
    config_file_in(found_data_dir(), host, port)
}

/// Makes `host` and `port` the current address, and gives the file that keeps them.
pub fn save_config(host: String, port: u16, state: &mut ServerAddr) -> (file: ConfigFile)
    ensures
        final(state)@ == after_save(old(state)@, (host@, port)),
        final(state)@ == (host@, port),
        exists|base: Option<PathBuf>|
            crate::paths::is_local_data_dir(base) && file.dir
                == #[trigger] crate::paths::config_dir_of(base),
        file.path == crate::paths::config_file_of(file.dir),
        file.content@ == config_text_of(host@, port),
        addr_in(file.content@) == final(state)@,
{
    let file = save_config_file(host.as_str(), port);
    *state = ServerAddr { host, port };
    file
}

/// A configuration is read by the names `host` and `port`: the host is the string that
/// `host` names, the port is the number that `port` names if it is at most 65535, and what
/// is missing or of another kind is 127.0.0.1 and 5005. No other member matters.
pub proof fn configuration_is_read_by_name(text: Seq<char>, members: Map<Seq<char>, Json>)
    requires
        crate::json::parsed_json(text) == Some(Json::Object(members)),
    ensures
        members.dom().contains("host"@) && members["host"@] is Text ==> addr_in(text).0
            == members["host"@]->Text_0,
        !members.dom().contains("host"@) || members["host"@] !is Text ==> addr_in(text).0
            == "127.0.0.1"@,
        members.dom().contains("port"@) && members["port"@] is Natural
            && members["port"@]->Natural_0 <= 65535 ==> addr_in(text).1
            == members["port"@]->Natural_0,
        !members.dom().contains("port"@) || members["port"@] !is Natural
            || members["port"@]->Natural_0 > 65535 ==> addr_in(text).1 == 5005,
{
}

/// A text that is not JSON, and JSON that is not an object, stand for 127.0.0.1 and 5005.
pub proof fn anything_else_is_the_default(text: Seq<char>)
    requires
        (match crate::json::parsed_json(text) {
            Some(json) => json !is Object,
            None => true,
        }),
    ensures
        addr_in(text) == ("127.0.0.1"@, 5005u16),
{
}

/// The configuration that is written has the members `host` and `port`, with the host as a
/// string and the port as a number, and no others.
pub proof fn written_configuration_has_two_members(host: Seq<char>, port: u16)
    ensures
        config_json(host, port) matches Json::Object(members) && members.dom() =~= set![
            "host"@,
            "port"@,
        ] && members["host"@] == Json::Text(host) && members["port"@] == Json::Natural(
            port as u64,
        ),
        config_text_of(host, port) == crate::json::pretty_json(config_json(host, port)),
{
    lemma_names_differ();
}

/// A configuration that was saved is found where it is read: in one environment, where
/// `base` is what is answered for the local data directory, the file that `save_config`
/// gives is the file `config.json` in the directory that `config_dir` gives, and that is
/// the directory `rizzo-pii` below the local data directory.
pub proof fn saved_file_is_the_one_that_is_read(base: PathBuf)
    ensures
        crate::paths::config_dir_of(Some(base)) == crate::paths::joined_path(
            crate::paths::lent_path(&base),
            "rizzo-pii"@,
        ),
        forall|dir: PathBuf|
            #![trigger crate::paths::config_file_of(dir)]
            dir == crate::paths::config_dir_of(Some(base)) ==> crate::paths::config_file_of(dir)
                == crate::paths::joined_path(crate::paths::lent_path(&dir), "config.json"@),
{
}

/// What was saved last is current, whatever was current before.
pub proof fn last_save_is_current(
    current: (Seq<char>, u16),
    saves: Seq<(Seq<char>, u16)>,
    host: Seq<char>,
    port: u16,
)
    ensures
        after_save(current, (host, port)) == (host, port),
        after_saves(current, saves.push((host, port))) == (host, port),
        after_saves(current, Seq::empty()) == current,
{
    assert(saves.push((host, port)).drop_last() =~= saves);
}

} // verus!
