//! Where the backend listens.

use vstd::prelude::*;
use vstd::string::*;

use crate::text::decimal_text;

verus! {

/// The host that the backend listens on unless told otherwise.
pub const DEFAULT_HOST: &'static str = "127.0.0.1";

/// The port that the backend listens on unless told otherwise. Port 5000 would
/// clash with the AirPlay receiver of macOS.
pub const DEFAULT_PORT: u16 = 5005;

/// The host and the port of the backend.
#[derive(Debug)]
pub struct ServerAddr {
    pub host: String,
    pub port: u16,
}

impl View for ServerAddr {
    type V = (Seq<char>, u16);

    open spec fn view(&self) -> (Seq<char>, u16) {
        (self.host@, self.port)
    }
}

/// The host and the port that hold where nothing else is said.
pub open spec fn default_addr() -> (Seq<char>, u16) {
    (DEFAULT_HOST@, DEFAULT_PORT)
}

/// `host:port`.
pub open spec fn socket_text(addr: (Seq<char>, u16)) -> Seq<char> {
    addr.0 + ":"@ + crate::text::decimal(addr.1 as nat)
}

/// The address of the user interface that the backend serves.
pub open spec fn url_text(addr: (Seq<char>, u16)) -> Seq<char> {
    "http://"@ + socket_text(addr)
}

/// `host:port`.
pub fn socket_address(host: &str, port: u16) -> (text: String)
    ensures
        text@ == socket_text((host@, port)),
{
    let mut text = host.to_owned();
    let port_text = decimal_text(port as u64);
    text.append(":");
    text.append(port_text.as_str());
    text
}

impl ServerAddr {
    /// The address of the user interface that the backend serves.
    pub fn url(&self) -> (url: String)
        ensures
            url@ == url_text(self@),
    {
        let mut url = "http://".to_owned();
        let socket = socket_address(self.host.as_str(), self.port);
        url.append(socket.as_str());
        url
    }
}

impl Clone for ServerAddr {
    fn clone(&self) -> (copy: ServerAddr)
        ensures
            copy@ == self@,
    {
        ServerAddr { host: self.host.clone(), port: self.port }
    }
}

impl Default for ServerAddr {
    fn default() -> (addr: ServerAddr)
        ensures
            addr@ == default_addr(),
    {
        ServerAddr { host: DEFAULT_HOST.to_owned(), port: DEFAULT_PORT }
    }
}

/// The address of the user interface is `http://`, the host, a colon and the port in
/// decimal, for every host and port.
pub proof fn url_names_host_and_port(host: Seq<char>, port: u16)
    ensures
        socket_text((host, port)) == host + ":"@ + crate::text::decimal(port as nat),
        url_text((host, port)) == "http://"@ + (host + ":"@ + crate::text::decimal(port as nat)),
{
}

/// Where nothing else is said, the backend is at 127.0.0.1, port 5005.
pub proof fn default_is_local()
    ensures
        default_addr() == ("127.0.0.1"@, 5005u16),
{
}

} // verus!
