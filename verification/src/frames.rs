//! The CRLF key=value text frames of the streaming protocol, and the
//! classification of inbound frames.
//!
//! Frame layouts must match the server's expectations byte for byte, so
//! every builder's contract states the exact character sequence.

use vstd::prelude::*;

use crate::models::SubscriptionType;
use crate::strutil::{spec_contains, str_contains};

verus! {

/// The group prefix and schema name a subscription kind maps to.
pub open spec fn spec_kind_name(k: SubscriptionType) -> Seq<char> {
    match k {
        SubscriptionType::Market => "MARKET"@,
        SubscriptionType::Account => "ACCOUNT"@,
        SubscriptionType::Trade => "TRADE"@,
        SubscriptionType::Chart => "CHART"@,
    }
}

/// The streaming password built from the two legacy tokens.
pub open spec fn spec_stream_password(cst: Seq<char>, xst: Seq<char>) -> Seq<char> {
    "CST-"@ + cst + "|XST-"@ + xst
}

/// The session-creation control frame.
pub open spec fn spec_session_create_frame(
    client_id: Seq<char>,
    adapter_set: Seq<char>,
    user: Seq<char>,
    password: Seq<char>,
) -> Seq<char> {
    "\r\n\r\nLS_cid="@ + client_id + "\r\nLS_adapter_set="@ + adapter_set + "\r\nLS_user="@ + user
        + "\r\nLS_password="@ + password + "\r\n"@
}

/// The protocol-level keepalive frame.
pub open spec fn spec_heartbeat_frame() -> Seq<char> {
    "\r\n\r\nLS_op=hb\r\n"@
}

/// The add-subscription control frame.
pub open spec fn spec_add_subscription_frame(
    k: SubscriptionType,
    id: Seq<char>,
    item: Seq<char>,
) -> Seq<char> {
    "\r\n\r\nLS_op=add\r\nLS_subId="@ + id + "\r\nLS_mode=MERGE\r\nLS_group="@ + spec_kind_name(k)
        + ":"@ + item + "\r\nLS_schema="@ + spec_kind_name(k) + "\r\n"@
}

/// The delete-subscription control frame.
pub open spec fn spec_delete_subscription_frame(id: Seq<char>) -> Seq<char> {
    "\r\n\r\nLS_op=delete\r\nLS_subId="@ + id + "\r\n"@
}

/// The group prefix and schema name of a subscription kind.
pub fn kind_name(k: SubscriptionType) -> (r: String)
    ensures
        r@ == spec_kind_name(k),
{
    match k {
        SubscriptionType::Market => "MARKET".to_owned(),
        SubscriptionType::Account => "ACCOUNT".to_owned(),
        SubscriptionType::Trade => "TRADE".to_owned(),
        SubscriptionType::Chart => "CHART".to_owned(),
    }
}

/// Builds the streaming password `CST-<cst>|XST-<token>`.
pub fn stream_password(cst: &str, xst: &str) -> (r: String)
    ensures
        r@ == spec_stream_password(cst@, xst@),
{
    let mut r = "CST-".to_owned();
    r.append(cst);
    r.append("|XST-");
    r.append(xst);
    r
}

/// Builds the session-creation frame.
pub fn session_create_frame(client_id: &str, adapter_set: &str, user: &str, password: &str) -> (r:
    String)
    ensures
        r@ == spec_session_create_frame(client_id@, adapter_set@, user@, password@),
{
    let mut r = "\r\n\r\nLS_cid=".to_owned();
    r.append(client_id);
    r.append("\r\nLS_adapter_set=");
    r.append(adapter_set);
    r.append("\r\nLS_user=");
    r.append(user);
    r.append("\r\nLS_password=");
    r.append(password);
    r.append("\r\n");
    r
}

/// Builds the keepalive frame.
pub fn heartbeat_frame() -> (r: String)
    ensures
        r@ == spec_heartbeat_frame(),
{
    "\r\n\r\nLS_op=hb\r\n".to_owned()
}

/// Builds the add-subscription frame for one subscription.
pub fn add_subscription_frame(k: SubscriptionType, id: &str, item: &str) -> (r: String)
    ensures
        r@ == spec_add_subscription_frame(k, id@, item@),
{
    let name = kind_name(k);
    let mut r = "\r\n\r\nLS_op=add\r\nLS_subId=".to_owned();
    r.append(id);
    r.append("\r\nLS_mode=MERGE\r\nLS_group=");
    r.append(name.as_str());
    r.append(":");
    r.append(item);
    r.append("\r\nLS_schema=");
    r.append(name.as_str());
    r.append("\r\n");
    r
}

/// Builds the delete-subscription frame for one id.
pub fn delete_subscription_frame(id: &str) -> (r: String)
    ensures
        r@ == spec_delete_subscription_frame(id@),
{
    let mut r = "\r\n\r\nLS_op=delete\r\nLS_subId=".to_owned();
    r.append(id);
    r.append("\r\n");
    r
}

/// What a handshake reply means.
#[derive(Clone, Copy, PartialEq, Eq, Structural, Debug)]
pub enum HandshakeClass {
    /// The session was created; the connection is established.
    Conok,
    /// The server demands a reconnect.
    LoopDemand,
    /// An error marker, or no recognized pattern: try the next candidate.
    Rejected,
}

/// A frame carrying one of the generic error markers.
pub open spec fn spec_has_error_marker(t: Seq<char>) -> bool {
    spec_contains(t, "error"@) || spec_contains(t, "Error"@) || spec_contains(t, "ERROR"@)
        || spec_contains(t, "Cannot continue"@)
}

/// Classification of the one reply to a session-creation frame: error
/// markers dominate, then the `LOOP` instruction, then `CONOK`; anything
/// unrecognized is a rejection.
pub open spec fn spec_classify_handshake(t: Seq<char>) -> HandshakeClass {
    if spec_has_error_marker(t) {
        HandshakeClass::Rejected
    } else if spec_contains(t, "LOOP"@) {
        HandshakeClass::LoopDemand
    } else if spec_contains(t, "CONOK"@) {
        HandshakeClass::Conok
    } else {
        HandshakeClass::Rejected
    }
}

/// Classifies a handshake reply.
pub fn classify_handshake(t: &str) -> (r: HandshakeClass)
    ensures
        r == spec_classify_handshake(t@),
{
    if str_contains(t, "error") || str_contains(t, "Error") || str_contains(t, "ERROR")
        || str_contains(t, "Cannot continue") {
        HandshakeClass::Rejected
    } else if str_contains(t, "LOOP") {
        HandshakeClass::LoopDemand
    } else if str_contains(t, "CONOK") {
        HandshakeClass::Conok
    } else {
        HandshakeClass::Rejected
    }
}

/// What an inbound frame on an established connection means.
#[derive(Clone, Copy, PartialEq, Eq, Structural, Debug)]
pub enum InboundClass {
    /// A server keepalive; nothing to do.
    Probe,
    /// A control acknowledgement (`CONOK`, `SUBOK`, `SUBCMD`).
    Control,
    /// The server demands a reconnect.
    LoopDemand,
    /// A server-reported error: the connection is no longer usable.
    ServerError,
    /// A data update for some subscription.
    Data,
}

/// Literal protocol markers are tested before a frame is treated as data.
pub open spec fn spec_classify_inbound(t: Seq<char>) -> InboundClass {
    if spec_contains(t, "PROBE"@) {
        InboundClass::Probe
    } else if spec_has_error_marker(t) {
        InboundClass::ServerError
    } else if spec_contains(t, "LOOP"@) {
        InboundClass::LoopDemand
    } else if spec_contains(t, "CONOK"@) || spec_contains(t, "SUBOK"@) || spec_contains(
        t,
        "SUBCMD"@,
    ) {
        InboundClass::Control
    } else {
        InboundClass::Data
    }
}

/// Classifies an inbound frame.
pub fn classify_inbound(t: &str) -> (r: InboundClass)
    ensures
        r == spec_classify_inbound(t@),
{
    if str_contains(t, "PROBE") {
        InboundClass::Probe
    } else if str_contains(t, "error") || str_contains(t, "Error") || str_contains(t, "ERROR")
        || str_contains(t, "Cannot continue") {
        InboundClass::ServerError
    } else if str_contains(t, "LOOP") {
        InboundClass::LoopDemand
    } else if str_contains(t, "CONOK") || str_contains(t, "SUBOK") || str_contains(t, "SUBCMD") {
        InboundClass::Control
    } else {
        InboundClass::Data
    }
}

/// Splitting a character sequence at a separator; a frame's fields.
pub open spec fn spec_split(s: Seq<char>, sep: char) -> Seq<Seq<char>>
    decreases s.len(),
{
    if s.len() == 0 {
        seq![Seq::<char>::empty()]
    } else if s[0] == sep {
        seq![Seq::<char>::empty()] + spec_split(s.drop_first(), sep)
    } else {
        let rest = spec_split(s.drop_first(), sep);
        seq![seq![s[0]] + rest[0]] + rest.drop_first()
    }
}

/// A split has one more field than the string has separators; in
/// particular it is never empty.
pub proof fn lemma_split_len(s: Seq<char>, sep: char)
    ensures
        spec_split(s, sep).len() >= 1,
    decreases s.len(),
{
    if s.len() == 0 {
    } else {
        lemma_split_len(s.drop_first(), sep);
    }
}

/// A separator-free string is a single field.
proof fn lemma_split_no_sep(s: Seq<char>, sep: char)
    requires
        forall|i: int| 0 <= i < s.len() ==> s[i] != sep,
    ensures
        spec_split(s, sep) == seq![s],
    decreases s.len(),
{
    if s.len() == 0 {
        assert(spec_split(s, sep) =~~= seq![s]);
    } else {
        assert(forall|i: int|
            0 <= i < s.drop_first().len() ==> #[trigger] s.drop_first()[i] == s[i + 1]);
        lemma_split_no_sep(s.drop_first(), sep);
        let rest = spec_split(s.drop_first(), sep);
        assert(rest == seq![s.drop_first()]);
        assert(rest.drop_first() =~= Seq::<Seq<char>>::empty());
        assert(seq![s[0]] + rest[0] =~= s);
        assert(spec_split(s, sep) =~~= seq![s]);
    }
}

/// Splitting at the first separator: a separator-free prefix becomes the
/// first field, the rest splits on its own.
proof fn lemma_split_at_sep(a: Seq<char>, b: Seq<char>, sep: char)
    requires
        forall|i: int| 0 <= i < a.len() ==> a[i] != sep,
    ensures
        spec_split(a + seq![sep] + b, sep) == seq![a] + spec_split(b, sep),
    decreases a.len(),
{
    let s = a + seq![sep] + b;
    if a.len() == 0 {
        assert(s[0] == sep);
        assert(s.drop_first() =~= b);
        assert(spec_split(s, sep) =~~= seq![a] + spec_split(b, sep));
    } else {
        assert(s[0] == a[0]);
        assert(s[0] != sep);
        assert(s.drop_first() =~= a.drop_first() + seq![sep] + b);
        assert(forall|i: int|
            0 <= i < a.drop_first().len() ==> #[trigger] a.drop_first()[i] == a[i + 1]);
        lemma_split_at_sep(a.drop_first(), b, sep);
        let rest = spec_split(s.drop_first(), sep);
        assert(rest == seq![a.drop_first()] + spec_split(b, sep));
        assert(rest[0] == a.drop_first());
        assert(seq![a[0]] + rest[0] =~= a);
        assert(rest.drop_first() =~= spec_split(b, sep));
        assert(spec_split(s, sep) =~~= seq![a] + spec_split(b, sep));
    }
}

/// Splits a frame into its fields.
pub fn split_char(s: &str, sep: char) -> (r: Vec<String>)
    ensures
        r.deep_view() == spec_split(s@, sep),
{
    let n = s.unicode_len();
    let mut toks: Vec<String> = Vec::new();
    let mut start: usize = 0;
    let mut i: usize = 0;
    proof {
        assert(s@.subrange(0, n as int) =~= s@);
        assert(toks.deep_view() =~= Seq::<Seq<char>>::empty());
    }
    while i < n
        invariant
            n == s@.len(),
            start <= i <= n,
            forall|k: int| start <= k < i ==> s@[k] != sep,
            spec_split(s@, sep) == toks.deep_view() + spec_split(
                s@.subrange(start as int, n as int),
                sep,
            ),
        decreases n - i,
    {
        if s.get_char(i) == sep {
            let tok = s.substring_char(start, i).to_owned();
            proof {
                let ghost pre = s@.subrange(start as int, i as int);
                let ghost suf = s@.subrange(i as int + 1, n as int);
                assert(s@.subrange(start as int, n as int) =~= pre + seq![sep] + suf);
                lemma_split_at_sep(pre, suf, sep);
                let ghost before = toks.deep_view();
                assert((toks.deep_view() + (seq![pre] + spec_split(suf, sep)))
                    =~= (before.push(pre) + spec_split(suf, sep)));
            }
            let ghost before = toks.deep_view();
            toks.push(tok);
            proof {
                assert(toks.deep_view() =~= before.push(s@.subrange(start as int, i as int)));
            }
            start = i + 1;
        }
        i += 1;
    }
    let tok = s.substring_char(start, n).to_owned();
    proof {
        lemma_split_no_sep(s@.subrange(start as int, n as int), sep);
    }
    let ghost before = toks.deep_view();
    toks.push(tok);
    proof {
        assert(toks.deep_view() =~= before.push(s@.subrange(start as int, n as int)));
        assert(before + seq![s@.subrange(start as int, n as int)] =~= toks.deep_view());
    }
    toks
}

} // verus!
