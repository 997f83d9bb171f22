//! Finding out whether the server on a port is our backend.
//!
//! A probe resolves the address, connects, sends one request and collects the
//! reply until the server closes the connection or stops sending. The caller
//! performs what [`Probe::phase`] asks for and reports the outcome.

use vstd::prelude::*;
use vstd::string::*;
use vstd::utf8::*;

use crate::text::contains_text;

verus! {

/// How long a connection may take, in milliseconds.
pub const CONNECT_TIMEOUT_MS: u64 = 500;

/// How long the server may stay silent, in milliseconds.
pub const READ_TIMEOUT_MS: u64 = 2000;

/// A name that only the reply of our own backend holds.
pub const CONFIG_MARKER: &'static str = "config_path";

/// What a probe asks its caller to do next.
#[derive(Clone, Copy, Debug, PartialEq, Eq)]
pub enum ProbePhase {
    /// Find the socket addresses of `host:port`.
    Resolve,
    Connect,
    /// Send the whole request.
    Send,
    /// Read what the server has sent.
    Receive,
    /// The server is our backend, or it is not.
    Finished(bool),
}

/// A probe, between two reports of its caller.
#[derive(Debug)]
pub struct Probe {
    pub phase: ProbePhase,
    /// What the server has sent up to now.
    pub response: Vec<u8>,
}

/// A probe as its contracts speak of it.
#[verifier::ext_equal]
pub struct ProbeView {
    pub phase: ProbePhase,
    pub response: Seq<u8>,
}

impl View for Probe {
    type V = ProbeView;

    open spec fn view(&self) -> ProbeView {
        ProbeView { phase: self.phase, response: self.response@ }
    }
}

/// The text that `String::from_utf8_lossy` makes of `bytes`.
pub uninterp spec fn lossy_text(bytes: Seq<u8>) -> Seq<char>;

/// Whether a complete reply comes from our own backend: it holds the marker, in one
/// piece, whatever the other bytes are.
pub open spec fn is_ours(response: Seq<u8>) -> bool {
    crate::text::occurs(response, encode_utf8(CONFIG_MARKER@))
}

/// The request that a probe of `socket` sends.
pub open spec fn request_text(socket: Seq<char>) -> Seq<char> {
    "GET /config HTTP/1.1\r\nHost: "@ + socket + "\r\nConnection: close\r\n\r\n"@
}

/// The probe after a step that is followed by `next` if it succeeds. A step
/// that fails ends the probe: what is there is not our backend.
pub open spec fn after_step(p: ProbeView, ok: bool, next: ProbePhase) -> ProbeView {
    if ok {
        ProbeView { phase: next, ..p }
    } else {
        ProbeView { phase: ProbePhase::Finished(false), ..p }
    }
}

/// The probe after a read. Bytes are kept; the end of the stream and an error
/// both end the probe, and the reply so far decides.
pub open spec fn after_read(p: ProbeView, chunk: Option<Seq<u8>>) -> ProbeView {
    match chunk {
        Some(bytes) if bytes.len() > 0 => ProbeView { response: p.response + bytes, ..p },
        _ => ProbeView { phase: ProbePhase::Finished(is_ours(p.response)), ..p },
    }
}

/// Reads bytes as UTF-8 with `String::from_utf8_lossy`. The text is a function of
/// the bytes. Bytes that are valid UTF-8 are read as the text that they encode; of any
/// bytes, ASCII is read as it is and other bytes as other characters, so that an ASCII
/// text occurs in what is read exactly where its bytes occur in one piece. Where and how
/// often a replacement character stands for bytes that are not valid is left to the
/// named function.
#[verifier::external_body]
fn read_lossy(bytes: &[u8]) -> (text: String)
    ensures
        text@ == lossy_text(bytes@),
        valid_utf8(bytes@) ==> text@ == decode_utf8(bytes@),
        forall|part: Seq<char>|
            is_ascii_chars(part) ==> #[trigger] crate::text::occurs(text@, part)
                == crate::text::occurs(bytes@, encode_utf8(part)),
{
    String::from_utf8_lossy(bytes).into_owned()
}

/// Whether a complete reply, headers and body, comes from our own backend: it
/// holds a name that is specific to it.
pub fn is_our_backend(response: &[u8]) -> (ours: bool)
    ensures
        ours == is_ours(response@),
        ours == crate::text::occurs(lossy_text(response@), CONFIG_MARKER@),
{
    proof {
        reveal_strlit("config_path");
        assert(is_ascii_chars(CONFIG_MARKER@));
    }
    let text = read_lossy(response);
    contains_text(text.as_str(), CONFIG_MARKER)
}

/// The request that a probe of `socket` sends.
pub fn probe_request(socket: &str) -> (request: String)
    ensures
        request@ == request_text(socket@),
{
    let mut request = "GET /config HTTP/1.1\r\nHost: ".to_owned();
    request.append(socket);
    request.append("\r\nConnection: close\r\n\r\n");
    request
}

impl Probe {
    /// Starts a probe.
    pub fn start() -> (probe: Probe)
        ensures
            probe@ == (ProbeView { phase: ProbePhase::Resolve, response: Seq::empty() }),
    {
        Probe { phase: ProbePhase::Resolve, response: Vec::new() }
    }

    /// Reports whether there is a socket address.
    pub fn resolved(&mut self, ok: bool)
        requires
            old(self).phase is Resolve,
        ensures
            final(self)@ == after_step(old(self)@, ok, ProbePhase::Connect),
    {
        self.phase = if ok {
            ProbePhase::Connect
        } else {
            ProbePhase::Finished(false)
        };
    }

    /// Reports whether the connection stands.
    pub fn connected(&mut self, ok: bool)
        requires
            old(self).phase is Connect,
        ensures
            final(self)@ == after_step(old(self)@, ok, ProbePhase::Send),
    {
        self.phase = if ok {
            ProbePhase::Send
        } else {
            ProbePhase::Finished(false)
        };
    }

    /// Reports whether the whole request was sent.
    pub fn sent(&mut self, ok: bool)
        requires
            old(self).phase is Send,
        ensures
            final(self)@ == after_step(old(self)@, ok, ProbePhase::Receive),
    {
        self.phase = if ok {
            ProbePhase::Receive
        } else {
            ProbePhase::Finished(false)
        };
    }

    /// Reports a read: its bytes, none of them at the end of the stream, or
    /// `None` where it failed or took too long.
    pub fn received(&mut self, chunk: Option<&[u8]>)
        requires
            old(self).phase is Receive,
        ensures
            final(self)@ == after_read(
                old(self)@,
                match chunk {
                    Some(bytes) => Some(bytes@),
                    None => None,
                },
            ),
    {
        match chunk {
            Some(bytes) if bytes.len() > 0 => {
                self.response.extend_from_slice(bytes);
                assert(self.response@ =~= old(self).response@ + bytes@);
            },
            _ => {
                let ours = is_our_backend(self.response.as_slice());
                self.phase = ProbePhase::Finished(ours);
            },
        }
    }
}

/// The probe `p` after the reads `chunks`.
pub open spec fn after_chunks(p: ProbeView, chunks: Seq<Seq<u8>>) -> ProbeView
    decreases chunks.len(),
{
    if chunks.len() == 0 {
        p
    } else {
        after_read(after_chunks(p, chunks.drop_last()), Some(chunks.last()))
    }
}

/// A probe whose request was sent and that has read nothing yet.
pub open spec fn listening() -> ProbeView {
    ProbeView { phase: ProbePhase::Receive, response: Seq::empty() }
}

/// The pieces in which a reply arrives do not matter: whatever they are, and
/// whether the stream ends or a read fails, the reply as a whole decides.
pub proof fn pieces_do_not_matter(chunks: Seq<Seq<u8>>)
    requires
        forall|i: int| 0 <= i < chunks.len() ==> (#[trigger] chunks[i]).len() > 0,
    ensures
        after_chunks(listening(), chunks) == (ProbeView {
            phase: ProbePhase::Receive,
            response: chunks.flatten(),
        }),
        after_read(after_chunks(listening(), chunks), None).phase == ProbePhase::Finished(
            is_ours(chunks.flatten()),
        ),
        after_read(after_chunks(listening(), chunks), Some(Seq::empty())).phase == ProbePhase::Finished(
            is_ours(chunks.flatten()),
        ),
    decreases chunks.len(),
{
    chunks.lemma_flatten_and_flatten_alt_are_equivalent();
    if chunks.len() > 0 {
        let before = chunks.drop_last();
        assert forall|i: int| 0 <= i < before.len() implies (#[trigger] before[i]).len() > 0 by {
            assert(chunks[i].len() > 0);
        }
        pieces_do_not_matter(before);
        before.lemma_flatten_and_flatten_alt_are_equivalent();
        assert(chunks[chunks.len() - 1].len() > 0);
        assert(chunks.flatten() =~= before.flatten() + chunks.last());
    } else {
        assert(chunks.flatten() =~= Seq::empty());
    }
}

/// The end of a probe, told by how its steps go: whether there is a socket
/// address, the connection stands and the request is sent, and what is read then
/// before the stream ends.
pub open spec fn probe_end(
    resolves: bool,
    connects: bool,
    sends: bool,
    chunks: Seq<Seq<u8>>,
) -> ProbePhase {
    let start = ProbeView { phase: ProbePhase::Resolve, response: Seq::empty() };
    let resolved = after_step(start, resolves, ProbePhase::Connect);
    if resolved.phase is Finished {
        resolved.phase
    } else {
        let connected = after_step(resolved, connects, ProbePhase::Send);
        if connected.phase is Finished {
            connected.phase
        } else {
            let sent = after_step(connected, sends, ProbePhase::Receive);
            if sent.phase is Finished {
                sent.phase
            } else {
                after_read(after_chunks(sent, chunks), Some(Seq::empty())).phase
            }
        }
    }
}

/// A probe finds our backend exactly where every step succeeds and the reply as a
/// whole is that of our backend. A port that is free, a server that does not
/// answer and a stranger on the port are all told apart from it.
pub proof fn only_our_reply_counts(
    resolves: bool,
    connects: bool,
    sends: bool,
    chunks: Seq<Seq<u8>>,
)
    requires
        forall|i: int| 0 <= i < chunks.len() ==> (#[trigger] chunks[i]).len() > 0,
    ensures
        probe_end(resolves, connects, sends, chunks) == ProbePhase::Finished(
            resolves && connects && sends && is_ours(chunks.flatten()),
        ),
{
    pieces_do_not_matter(chunks);
}

/// A reply is ours exactly where the eleven bytes `config_path` stand in it in one piece,
/// whatever stands before and behind them.
pub proof fn marker_alone_decides(response: Seq<u8>, marker: Seq<u8>)
    requires
        marker == seq![
            99u8, 111u8, 110u8, 102u8, 105u8, 103u8, 95u8, 112u8, 97u8, 116u8, 104u8,
        ],
    ensures
        is_ours(response) <==> exists|a: Seq<u8>, b: Seq<u8>|
            response == #[trigger] (a + marker + b),
{
    reveal_strlit("config_path");
    assert(is_ascii_chars("config_path"@));
    is_ascii_chars_encode_utf8("config_path"@);
    assert(encode_utf8("config_path"@) =~= marker);
    crate::text::occurring_is_standing_between(response, marker);
}

/// The request asks for `/config`, names the address that was probed, and closes the
/// connection, whatever the address is.
pub proof fn request_names_the_address(socket: Seq<char>, host: Seq<char>, port: u16)
    ensures
        request_text(socket) == "GET /config HTTP/1.1\r\nHost: "@ + socket
            + "\r\nConnection: close\r\n\r\n"@,
        request_text(crate::address::socket_text((host, port)))
            == "GET /config HTTP/1.1\r\nHost: "@ + (host + ":"@ + crate::text::decimal(
            port as nat,
        )) + "\r\nConnection: close\r\n\r\n"@,
{
}

/// A step that succeeds leads to the next, one that fails ends the probe, and neither
/// changes what was read. A read adds its bytes, in order; the end of the stream and a
/// failed read end the probe by what was read up to then.
pub proof fn each_report_has_its_effect(p: ProbeView, next: ProbePhase, bytes: Seq<u8>)
    requires
        bytes.len() > 0,
    ensures
        after_step(p, true, next) == (ProbeView { phase: next, response: p.response }),
        after_step(p, false, next) == (ProbeView {
            phase: ProbePhase::Finished(false),
            response: p.response,
        }),
        after_read(p, Some(bytes)) == (ProbeView {
            phase: p.phase,
            response: p.response + bytes,
        }),
        after_read(p, None) == (ProbeView {
            phase: ProbePhase::Finished(is_ours(p.response)),
            response: p.response,
        }),
        after_read(p, Some(Seq::empty())) == after_read(p, None),
{
}

/// A connection may take half a second, and the server may stay silent for two.
pub proof fn probe_is_patient()
    ensures
        CONNECT_TIMEOUT_MS == 500,
        READ_TIMEOUT_MS == 2000,
{
}

} // verus!
