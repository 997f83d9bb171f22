use rizzo_pii::address::ServerAddr;
use rizzo_pii::args::apply_args;

fn apply(words: &[&str]) -> (String, u16) {
    let args: Vec<String> = words.iter().map(|w| w.to_string()).collect();
    let addr = apply_args(ServerAddr { host: "saved".to_string(), port: 1 }, &args);
    (addr.host, addr.port)
}

fn expected(host: &str, port: u16) -> (String, u16) {
    (host.to_string(), port)
}

#[test]
fn no_flag_keeps_the_address() {
    assert_eq!(apply(&[]), expected("saved", 1));
    assert_eq!(apply(&["app"]), expected("saved", 1));
    assert_eq!(apply(&["app", "host", "x", "-port", "2"]), expected("saved", 1));
}

#[test]
fn flags_take_precedence() {
    assert_eq!(apply(&["app", "--host", "h"]), expected("h", 1));
    assert_eq!(apply(&["app", "--port", "80"]), expected("saved", 80));
    assert_eq!(apply(&["app", "--host", "h", "--port", "80"]), expected("h", 80));
    assert_eq!(apply(&["app", "--port", "080", "--host", "h"]), expected("h", 80));
    assert_eq!(apply(&["app", "--port", "+80", "--host", "--host"]), expected("--host", 80));
    assert_eq!(apply(&["app", "x", "--port", "+80", "y", "--host", "h"]), expected("h", 80));
}

#[test]
fn program_name_is_no_flag() {
    assert_eq!(apply(&["--host", "h"]), expected("saved", 1));
    assert_eq!(apply(&["--host", "--port", "2"]), expected("saved", 2));
}

#[test]
fn last_flag_counts() {
    assert_eq!(apply(&["app", "--host", "a", "--host", "b"]), expected("b", 1));
    assert_eq!(apply(&["app", "--port", "2", "--port", "3"]), expected("saved", 3));
}

#[test]
fn bad_port_is_passed_over_with_its_flag() {
    assert_eq!(apply(&["app", "--port", "x"]), expected("saved", 1));
    assert_eq!(apply(&["app", "--port", "65536"]), expected("saved", 1));
    assert_eq!(apply(&["app", "--port", "2", "--port", "x"]), expected("saved", 2));
    assert_eq!(apply(&["app", "--port", "--host", "h"]), expected("saved", 1));
}

#[test]
fn flag_without_a_value_is_passed_over() {
    assert_eq!(apply(&["app", "--host"]), expected("saved", 1));
    assert_eq!(apply(&["app", "--host", "a", "--port"]), expected("a", 1));
}

#[test]
fn value_may_look_like_a_flag() {
    assert_eq!(apply(&["app", "--host", "--port", "2"]), expected("--port", 1));
}
