//! The loopback transport's request handling: authorization against the
//! session token, routing, the single-message wrap, batch interception of
//! the reserved drag-region channel, and static resource resolution.
//!
//! The server loop itself lives outside: it accepts a connection, reads the
//! request into plain values, calls `handle_request`, performs the reply,
//! and enqueues the returned commands in order.

use vstd::prelude::*;
use vstd::string::StringSliceAdditionalSpecFns;
use vstd::utf8::{encode_utf8, valid_utf8};
use crate::command::EngineCommand;
use crate::geometry::Rect;
use crate::json::{lit_at, match_lit, spec_parse_regions};
use crate::msgpack::{encode_single_message, single_message_bytes};

verus! {

/// The request method, as far as routing cares: the CORS preflight is
/// answered before any other processing; all other methods route by path.
#[derive(Clone, Copy, PartialEq, Eq, Structural, Debug)]
pub enum Method {
    Options,
    Get,
    Post,
    Other,
}

/// One transport request, as plain values.
pub struct Request {
    pub method: Method,
    /// The URL path, as bytes.
    pub path: Vec<u8>,
    /// The value of the authorization header, when present.
    pub auth: Option<String>,
    /// The value of the window-identifier header, when present.
    pub window_id: Option<String>,
    pub body: Vec<u8>,
}

/// What the server answers; the reply never depends on the commands'
/// later fate.
#[derive(Clone, Debug)]
pub enum TransportReply {
    /// 200 with the permissive CORS preflight headers.
    Preflight,
    /// 401; no further processing happened.
    Unauthorized,
    /// 200 "ok" with the CORS header: the message was accepted.
    Accepted,
    /// Serve the file under this working-directory-relative path, or 404
    /// when it does not exist (a read failure is reported, not fatal).
    ServeFile { path: Vec<u8> },
    /// 404.
    NotFound,
}

/// The decision for one request: the reply, and the commands to enqueue in
/// order.
pub struct TransportOutcome {
    pub reply: TransportReply,
    pub commands: Vec<EngineCommand>,
}

/// Whether the request carries exactly the current session token.
pub open spec fn auth_ok(req: Request, token: String) -> bool {
    req.auth matches Some(a) && a@ == token@
}

/// The window identifier a request is attributed to.
pub open spec fn spec_request_window(req: Request) -> Seq<char> {
    match req.window_id {
        Some(w) => w@,
        None => "unknown"@,
    }
}

/// A hexadecimal digit's value.
pub open spec fn hex_val(c: u8) -> Option<int> {
    if 48 <= c <= 57 {
        Some((c - 48) as int)
    } else if 65 <= c <= 70 {
        Some((c - 55) as int)
    } else if 97 <= c <= 102 {
        Some((c - 87) as int)
    } else {
        None
    }
}

/// Percent-decoding: a `%` followed by two hexadecimal digits becomes one
/// byte; anything else is kept as it stands.
pub open spec fn sp_pct_decode(s: Seq<u8>) -> Seq<u8>
    decreases s.len(),
{
    if s.len() == 0 {
        Seq::empty()
    } else if s[0] == 37 && s.len() >= 3 && hex_val(s[1]) is Some && hex_val(s[2]) is Some {
        seq![(16 * hex_val(s[1])->Some_0 + hex_val(s[2])->Some_0) as u8] + sp_pct_decode(s.skip(3))
    } else {
        seq![s[0]] + sp_pct_decode(s.skip(1))
    }
}

pub proof fn lemma_pct_decode_len(s: Seq<u8>)
    ensures
        sp_pct_decode(s).len() <= s.len(),
    decreases s.len(),
{
    if s.len() == 0 {
    } else if s[0] == 37 && s.len() >= 3 && hex_val(s[1]) is Some && hex_val(s[2]) is Some {
        lemma_pct_decode_len(s.skip(3));
    } else {
        lemma_pct_decode_len(s.skip(1));
    }
}

fn hex_digit(c: u8) -> (r: Option<u8>)
    ensures
        match r {
            Some(v) => hex_val(c) == Some(v as int),
            None => hex_val(c) is None,
        },
{
    if 48 <= c && c <= 57 {
        Some(c - 48)
    } else if 65 <= c && c <= 70 {
        Some(c - 55)
    } else if 97 <= c && c <= 102 {
        Some(c - 87)
    } else {
        None
    }
}

/// Decodes percent escapes in `s`.
fn pct_decode(s: &Vec<u8>) -> (r: Vec<u8>)
    ensures
        r@ =~= sp_pct_decode(s@),
{
    let n = s.len();
    let mut out: Vec<u8> = Vec::new();
    let mut i: usize = 0;
    proof {
        assert(s@.skip(0) =~= s@);
    }
    while i < n
        invariant
            i <= n,
            n == s@.len(),
            sp_pct_decode(s@) =~= out@ + sp_pct_decode(s@.skip(i as int)),
        decreases n - i,
    {
        let ghost pre = out@;
        let ghost rest = s@.skip(i as int);
        proof {
            assert(rest[0] == s@[i as int]);
        }
        if s[i] == 37 && n - i > 2 {
            let h1 = hex_digit(s[i + 1]);
            let h2 = hex_digit(s[i + 2]);
            proof {
                assert(rest.len() >= 3);
                assert(rest[1] == s@[i + 1]);
                assert(rest[2] == s@[i + 2]);
            }
            match (h1, h2) {
                (Some(a), Some(b)) => {
                    out.push(16 * a + b);
                    proof {
                        assert(s@.skip(i as int).skip(3) =~= s@.skip(i + 3));
                    }
                    i = i + 3;
                },
                _ => {
                    out.push(s[i]);
                    proof {
                        assert(s@.skip(i as int).skip(1) =~= s@.skip(i + 1));
                    }
                    i = i + 1;
                },
            }
        } else {
            out.push(s[i]);
            proof {
                assert(s@.skip(i as int).skip(1) =~= s@.skip(i + 1));
            }
            i = i + 1;
        }
    }
    proof {
        assert(s@.skip(n as int) =~= Seq::<u8>::empty());
    }
    out
}

/// Relies on `String::from_utf8`: it succeeds exactly on valid UTF-8 and
/// the resulting string's characters encode back to the given bytes.
#[verifier::external_body]
fn bytes_to_string(b: Vec<u8>) -> (r: Option<String>)
    ensures
        match r {
            Some(s) => valid_utf8(b@) && encode_utf8(s@) == b@,
            None => !valid_utf8(b@),
        },
{
    String::from_utf8(b).ok()
}

/// The channel a single-message post names: the path after the route
/// prefix, percent-decoded when the decoded bytes are valid UTF-8, else
/// kept as it stands; `None` when even those bytes name no text.
pub open spec fn spec_ipc_channel(path: Seq<u8>) -> Option<Seq<u8>> {
    let raw = path.skip(encode_utf8(("/ipc/")@).len() as int);
    let decoded = sp_pct_decode(raw);
    if valid_utf8(decoded) {
        Some(decoded)
    } else if valid_utf8(raw) {
        Some(raw)
    } else {
        None
    }
}

/// The working-directory-relative path of a resource fetch: the path after
/// the route prefix, leading slashes removed.
pub open spec fn spec_resource_rel(path: Seq<u8>) -> Seq<u8>
    decreases path.len(),
{
    if path.len() > 0 && path[0] == 47 {
        spec_resource_rel(path.skip(1))
    } else {
        path
    }
}

/// What a batch's bytes decode to: the ordered (channel, value) pairs,
/// each value rendered back as JSON text — a function of the bytes alone,
/// since the decoder is deterministic and the renderer writes object keys
/// in one fixed order.
pub uninterp spec fn batch_entries(bytes: Seq<u8>) -> Option<Seq<(Seq<char>, Seq<u8>)>>;

/// The view of decoded entries, pair by pair.
pub open spec fn entries_view(v: Seq<(String, Vec<u8>)>) -> Seq<(Seq<char>, Seq<u8>)> {
    Seq::new(v.len(), |i: int| (v[i].0@, v[i].1@))
}

/// Relies on `rmp_serde::decode::from_slice` to read the batch as its
/// ordered (channel, structured value) pairs, and on `serde_json::to_vec`
/// to render each value as JSON text.
#[verifier::external_body]
fn decode_batch(content: &Vec<u8>) -> (r: Option<Vec<(String, Vec<u8>)>>)
    ensures
        match r {
            Some(v) => batch_entries(content@) == Some(entries_view(v@)),
            None => batch_entries(content@) is None,
        },
{
    let decoded: Vec<(String, serde_json::Value)> =
        rmp_serde::decode::from_slice(content.as_slice()).ok()?;
    decoded
        .into_iter()
        .map(|(channel, value)| serde_json::to_vec(&value).map(|bytes| (channel, bytes)))
        .collect::<Result<Vec<_>, _>>()
        .ok()
}

/// The reserved page-internal channel whose payloads are intercepted.
pub open spec fn reserved_channel() -> Seq<char> {
    "lotus:set-drag-regions"@
}

/// The region-list pairs a batch's entries yield, in order: one per entry
/// on the reserved channel whose rendered payload is well-formed JSON.
pub open spec fn spec_intercepts(entries: Seq<(Seq<char>, Seq<u8>)>) -> Seq<(Seq<Rect>, Seq<Rect>)>
    decreases entries.len(),
{
    if entries.len() == 0 {
        Seq::empty()
    } else {
        let head: Seq<(Seq<Rect>, Seq<Rect>)> = if entries[0].0 == reserved_channel() {
            match spec_parse_regions(entries[0].1) {
                Some(lists) => seq![lists],
                None => Seq::empty(),
            }
        } else {
            Seq::empty()
        };
        head + spec_intercepts(entries.drop_first())
    }
}

/// The region updates a whole batch yields; an undecodable batch yields
/// none (and is still forwarded).
pub open spec fn spec_batch_intercepts(bytes: Seq<u8>) -> Seq<(Seq<Rect>, Seq<Rect>)> {
    match batch_entries(bytes) {
        Some(entries) => spec_intercepts(entries),
        None => Seq::empty(),
    }
}

fn tail_bytes(v: &Vec<u8>, from: usize) -> (r: Vec<u8>)
    requires
        from <= v@.len(),
    ensures
        r@ =~= v@.skip(from as int),
{
    let n = v.len();
    let mut out: Vec<u8> = Vec::new();
    let mut i = from;
    while i < n
        invariant
            from <= i <= n,
            n == v@.len(),
            out@ =~= v@.subrange(from as int, i as int),
        decreases n - i,
    {
        out.push(v[i]);
        i = i + 1;
    }
    out
}

proof fn lemma_route_lits()
    ensures
        encode_utf8(("/ipc/")@).len() == 5,
        encode_utf8(("/batch")@).len() == 6,
        encode_utf8(("/resource/")@).len() == 10,
{
    reveal_strlit("/ipc/");
    reveal_strlit("/batch");
    reveal_strlit("/resource/");
    assert(vstd::string::is_ascii("/ipc/"));
    assert(vstd::string::is_ascii("/batch"));
    assert(vstd::string::is_ascii("/resource/"));
    vstd::string::is_ascii_spec_bytes("/ipc/");
    vstd::string::is_ascii_spec_bytes("/batch");
    vstd::string::is_ascii_spec_bytes("/resource/");
}

/// Decides one request. The CORS preflight is answered first; every other
/// request without the exact session token is refused with no further
/// processing and produces no command. An authorized single-message post is
/// wrapped as a one-element batch; an authorized batch is scanned for the
/// reserved drag-region channel, whose well-formed payloads become region
/// updates directly, and the batch bytes are then forwarded whole (the
/// host side ignores reserved channels).
pub fn handle_request(req: Request, token: &String) -> (r: TransportOutcome)
    requires
        req.path@.len() < 0x100000000,
        req.body@.len() < 0x100000000,
    ensures
        req.method is Options ==> r.reply is Preflight && r.commands@ =~= Seq::<
            EngineCommand,
        >::empty(),
        !(req.method is Options) && !auth_ok(req, *token) ==> r.reply is Unauthorized
            && r.commands@ =~= Seq::<EngineCommand>::empty(),
        !(req.method is Options) && auth_ok(req, *token) ==> ({
            if lit_at(req.path@, 0, ("/ipc/")@) {
                &&& r.reply is Accepted
                &&& match spec_ipc_channel(req.path@) {
                    Some(ch) => r.commands@.len() == 1 && (r.commands@[0]
                        matches EngineCommand::IpcMessage(w, m) && w@ == spec_request_window(req)
                        && m@ =~= single_message_bytes(ch, req.body@)),
                    None => r.commands@ =~= Seq::<EngineCommand>::empty(),
                }
            } else if req.path@ == encode_utf8(("/batch")@) {
                &&& r.reply is Accepted
                &&& r.commands@.len() == spec_batch_intercepts(req.body@).len() + 1
                &&& (r.commands@.last() matches EngineCommand::IpcMessage(w, m) && w@
                    == spec_request_window(req) && m@ == req.body@)
                &&& forall|k: int|
                    0 <= k < spec_batch_intercepts(req.body@).len() ==> (#[trigger] r.commands@[k]
                        matches EngineCommand::UpdateDragRegions(w2, d, nd) && w2@
                        == spec_request_window(req) && d@ == spec_batch_intercepts(req.body@)[k].0
                        && nd@ == spec_batch_intercepts(req.body@)[k].1)
            } else if lit_at(req.path@, 0, ("/resource/")@) {
                &&& (r.reply matches TransportReply::ServeFile { path } && path@
                    == spec_resource_rel(req.path@.skip(10)))
                &&& r.commands@ =~= Seq::<EngineCommand>::empty()
            } else {
                &&& r.reply is NotFound
                &&& r.commands@ =~= Seq::<EngineCommand>::empty()
            }
        }),
{
    if let Method::Options = req.method {
        return TransportOutcome { reply: TransportReply::Preflight, commands: Vec::new() };
    }
    let authed = match &req.auth {
        Some(a) => a.eq(token),
        None => false,
    };
    if !authed {
        return TransportOutcome { reply: TransportReply::Unauthorized, commands: Vec::new() };
    }
    proof {
        lemma_route_lits();
    }
    let wid: String = match &req.window_id {
        Some(w) => w.clone(),
        None => "unknown".to_owned(),
    };
    let n = req.path.len();
    if match_lit(&req.path, 0, "/ipc/") {
        let raw = tail_bytes(&req.path, 5);
        let dec = pct_decode(&raw);
        let ghost raw_view = raw@;
        let ghost dec_view = dec@;
        proof {
            lemma_pct_decode_len(raw_view);
        }
        let channel: Option<String> = match bytes_to_string(dec) {
            Some(c) => Some(c),
            None => bytes_to_string(raw),
        };
        let mut commands: Vec<EngineCommand> = Vec::new();
        match channel {
            Some(ch) => {
                let msg = encode_single_message(ch.as_str(), &req.body);
                commands.push(EngineCommand::IpcMessage(wid, msg));
            },
            None => {},
        }
        return TransportOutcome { reply: TransportReply::Accepted, commands };
    }
    if match_lit(&req.path, 0, "/batch") && n == 6 {
        proof {
            assert(req.path@ =~= encode_utf8(("/batch")@));
        }
        let mut commands: Vec<EngineCommand> = Vec::new();
        match decode_batch(&req.body) {
            Some(entries) => {
                let ghost ev = entries_view(entries@);
                let reserved: String = "lotus:set-drag-regions".to_owned();
                let m = entries.len();
                let mut i: usize = 0;
                let ghost mut done: Seq<(Seq<Rect>, Seq<Rect>)> = Seq::empty();
                proof {
                    assert(ev.skip(0) =~= ev);
                    assert(Seq::<(Seq<Rect>, Seq<Rect>)>::empty() + spec_intercepts(ev) =~= spec_intercepts(ev));
                }
                while i < m
                    invariant
                        i <= m,
                        m == entries@.len(),
                        ev == entries_view(entries@),
                        reserved@ == reserved_channel(),
                        spec_intercepts(ev) =~= done + spec_intercepts(ev.skip(i as int)),
                        commands@.len() == done.len(),
                        forall|k: int|
                            0 <= k < done.len() ==> (#[trigger] commands@[k]
                                matches EngineCommand::UpdateDragRegions(w2, d, nd) && w2@ == wid@
                                && d@ == done[k].0 && nd@ == done[k].1),
                    decreases m - i,
                {
                    proof {
                        assert(ev.skip(i as int)[0] == ev[i as int]);
                        assert(ev[i as int] == (entries@[i as int].0@, entries@[i as int].1@));
                        assert(ev.skip(i as int).drop_first() =~= ev.skip(i + 1));
                    }
                    let (ch, jb) = &entries[i];
                    if ch.eq(&reserved) {
                        match crate::json::parse_regions(jb) {
                            Some((drag, no_drag)) => {
                                proof {
                                    done = done + seq![(drag@, no_drag@)];
                                }
                                commands.push(
                                    EngineCommand::UpdateDragRegions(wid.clone(), drag, no_drag),
                                );
                            },
                            None => {},
                        }
                    }
                    i = i + 1;
                }
                proof {
                    assert(ev.skip(m as int) =~= Seq::<(Seq<char>, Seq<u8>)>::empty());
                    assert(spec_intercepts(ev) =~= done);
                }
            },
            None => {},
        }
        commands.push(EngineCommand::IpcMessage(wid, req.body));
        return TransportOutcome { reply: TransportReply::Accepted, commands };
    }
    if match_lit(&req.path, 0, "/resource/") {
        let mut k: usize = 10;
        while k < n && req.path[k] == 47
            invariant
                10 <= k <= n,
                n == req.path@.len(),
                spec_resource_rel(req.path@.skip(10)) == spec_resource_rel(req.path@.skip(k as int)),
            decreases n - k,
        {
            proof {
                assert(req.path@.skip(k as int)[0] == req.path@[k as int]);
                assert(req.path@.skip(k as int).skip(1) =~= req.path@.skip(k + 1));
            }
            k = k + 1;
        }
        proof {
            if k < n {
                assert(req.path@.skip(k as int)[0] == req.path@[k as int]);
            }
        }
        let rel = tail_bytes(&req.path, k);
        return TransportOutcome {
            reply: TransportReply::ServeFile { path: rel },
            commands: Vec::new(),
        };
    }
    proof {
        if req.path@ == encode_utf8(("/batch")@) {
            assert(req.path@.subrange(0, 6) =~= req.path@);
        }
    }
    TransportOutcome { reply: TransportReply::NotFound, commands: Vec::new() }
}

} // verus!
