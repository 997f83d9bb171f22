use rizzo_pii::address::{socket_address, ServerAddr, DEFAULT_HOST, DEFAULT_PORT};
use rizzo_pii::config::{
    addr_from, addr_in_value, config_file_in, config_text, load_config, save_config,
    save_config_file,
};
use std::path::PathBuf;

fn pair(addr: ServerAddr) -> (String, u16) {
    (addr.host, addr.port)
}

fn defaults() -> (String, u16) {
    ("127.0.0.1".to_string(), 5005)
}

#[test]
fn default_address() {
    assert_eq!(DEFAULT_HOST, "127.0.0.1");
    assert_eq!(DEFAULT_PORT, 5005);
    assert_eq!(pair(ServerAddr::default()), defaults());
    assert_eq!(pair(ServerAddr::default().clone()), defaults());
}

#[test]
fn address_texts() {
    assert_eq!(socket_address("127.0.0.1", 5005), "127.0.0.1:5005");
    let addr = ServerAddr { host: "::1".to_string(), port: 80 };
    assert_eq!(addr.url(), "http://::1:80");
}

#[test]
fn missing_or_malformed_file_is_the_default() {
    assert_eq!(pair(load_config(None)), defaults());
    for text in ["", "{", "not json", "{\"host\": \"a\"} x", "[1, 2]", "null", "5005", "\"host\"", "{}"] {
        assert_eq!(pair(load_config(Some(text))), defaults(), "{:?}", text);
    }
}

#[test]
fn saved_names_are_read() {
    let text = "{\"host\": \"0.0.0.0\", \"port\": 8080}";
    assert_eq!(pair(load_config(Some(text))), ("0.0.0.0".to_string(), 8080));
}

#[test]
fn names_default_one_by_one() {
    let host_only = load_config(Some("{\"host\": \"10.0.0.1\", \"port\": \"80\"}"));
    assert_eq!(pair(host_only), ("10.0.0.1".to_string(), 5005));
    let port_only = load_config(Some("{\"host\": 7, \"port\": 80}"));
    assert_eq!(pair(port_only), ("127.0.0.1".to_string(), 80));
    let negative = load_config(Some("{\"port\": -1}"));
    assert_eq!(pair(negative), defaults());
    let fraction = load_config(Some("{\"port\": 80.0}"));
    assert_eq!(pair(fraction), defaults());
}

#[test]
fn number_that_is_no_port_is_the_default() {
    assert_eq!(addr_from(Some("x"), Some(70000)).port, 5005);
    assert_eq!(addr_from(None, Some(65536)).port, 5005);
    assert_eq!(addr_from(None, Some(u64::MAX)).port, 5005);
    assert_eq!(addr_from(None, None).port, 5005);
    assert_eq!(addr_from(None, Some(65535)).port, 65535);
    assert_eq!(addr_from(None, Some(0)).port, 0);
    let loaded = load_config(Some("{\"host\":\"127.0.0.1\",\"port\":70000}"));
    assert_eq!(pair(loaded), defaults());
    let loaded = load_config(Some("{\"host\":\"10.0.0.1\",\"port\":65536}"));
    assert_eq!(pair(loaded), ("10.0.0.1".to_string(), 5005));
}

#[test]
fn values_are_read() {
    let value: serde_json::Value = serde_json::from_str("{\"port\": 1, \"host\": \"h\"}").unwrap();
    assert_eq!(pair(addr_in_value(&value)), ("h".to_string(), 1));
    assert_eq!(pair(addr_in_value(&serde_json::Value::Null)), defaults());
}

#[test]
fn config_text_is_pretty_json() {
    assert_eq!(
        config_text("127.0.0.1", 5005),
        "{\n  \"host\": \"127.0.0.1\",\n  \"port\": 5005\n}"
    );
}

#[test]
fn config_text_reads_back() {
    let hosts = [
        "", "127.0.0.1", "quo\"te", "back\\slash", "line\nbreak", "\u{0}\u{1f}\u{7f}", "\u{e8}\u{1f600}",
        "$host",
    ];
    for host in hosts {
        for port in [0u16, 1, 5005, 65535] {
            let text = config_text(host, port);
            assert_eq!(pair(load_config(Some(&text))), (host.to_string(), port));
        }
    }
}

#[test]
fn config_file_stands_below_its_base() {
    let file = config_file_in(Some(PathBuf::from("/data")), "h", 9);
    assert_eq!(file.dir, PathBuf::from("/data").join("rizzo-pii"));
    assert_eq!(file.path, PathBuf::from("/data").join("rizzo-pii").join("config.json"));
    assert_eq!(file.content, config_text("h", 9));
    let file = config_file_in(None, "h", 9);
    assert_eq!(file.dir, PathBuf::from(".").join("rizzo-pii"));
}

#[test]
fn config_file_of_the_user() {
    let file = save_config_file("h", 9);
    assert!(file.dir.ends_with("rizzo-pii"));
    assert_eq!(file.path, file.dir.join("config.json"));
    let base = dirs::data_local_dir().unwrap_or_else(|| PathBuf::from("."));
    assert_eq!(file.dir, base.join("rizzo-pii"));
}

#[test]
fn saving_changes_the_current_address() {
    let mut state = ServerAddr::default();
    let file = save_config("10.1.2.3".to_string(), 6006, &mut state);
    assert_eq!(pair(load_config(Some(&file.content))), ("10.1.2.3".to_string(), 6006));
    assert_eq!(state.url(), "http://10.1.2.3:6006");
    assert_eq!(pair(state), ("10.1.2.3".to_string(), 6006));
}
