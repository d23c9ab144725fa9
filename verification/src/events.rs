//! The events a running Fiber node reports to embedders, and what of each
//! is shown: identifiers only, with secrets such as preimages, signatures and
//! commitment data left out and the event marked as redacted.
use vstd::prelude::*;

use crate::text::owned;

verus! {

/// A node event as plain text: node keys and hashes as hexadecimal, network
/// addresses and out points as the node writes them.
#[derive(Clone, Debug)]
pub enum FiberEvent {
    NetworkStarted { pubkey: String, listening_addrs: Vec<String>, announced_addrs: Vec<String> },
    NetworkStopped { pubkey: String },
    PeerConnected { pubkey: String, addr: String },
    PeerDisConnected { pubkey: String, addr: String },
    ChannelCreated { pubkey: String, channel_id: String },
    ChannelPendingToBeAccepted { pubkey: String, channel_id: String },
    /// The remote side completed the funding transaction; its contents are
    /// not shown.
    RemoteTxComplete { pubkey: String, channel_id: String },
    ChannelReady { pubkey: String, channel_id: String, out_point: String },
    ChannelOnline { pubkey: String, channel_id: String, out_point: String },
    ChannelOffline { pubkey: String, channel_id: String, out_point: String },
    ChannelClosed { pubkey: String, channel_id: String, tx_hash: String },
    ChannelAbandon { channel_id: String },
    ChannelFundingAborted { channel_id: String },
    /// Revocation data is not shown.
    RevokeAndAckReceived { pubkey: String, channel_id: String },
    /// Commitment signatures are not shown.
    RemoteCommitmentSigned { pubkey: String, channel_id: String },
    /// Commitment data is not shown.
    LocalCommitmentSigned { channel_id: String },
    /// The preimage is not shown.
    PreimageCreated { payment_hash: String },
    PreimageRemoved { payment_hash: String },
    DebugEvent { message: String },
}

/// A field value of an event report.
#[derive(Clone, Debug)]
pub enum EventValue {
    Text(String),
    Texts(Vec<String>),
    Bool(bool),
}

/// A field value as plain values.
pub enum EventValueView {
    Text(Seq<char>),
    Texts(Seq<Seq<char>>),
    Bool(bool),
}

/// The view of a list of strings.
pub open spec fn texts_view(v: Seq<String>) -> Seq<Seq<char>> {
    v.map_values(|s: String| s@)
}

/// The view of a field value.
pub open spec fn event_value_view(v: EventValue) -> EventValueView {
    match v {
        EventValue::Text(t) => EventValueView::Text(t@),
        EventValue::Texts(t) => EventValueView::Texts(texts_view(t@)),
        EventValue::Bool(b) => EventValueView::Bool(b),
    }
}

/// The fields of a report.
pub open spec fn report_view(r: Seq<(String, EventValue)>) -> Seq<(Seq<char>, EventValueView)> {
    r.map_values(|e: (String, EventValue)| (e.0@, event_value_view(e.1)))
}

/// A text field.
pub open spec fn text_field(key: Seq<char>, value: Seq<char>) -> (Seq<char>, EventValueView) {
    (key, EventValueView::Text(value))
}

/// The `redacted: true` field of an event whose secret parts are left out.
pub open spec fn redacted_field() -> (Seq<char>, EventValueView) {
    ("redacted"@, EventValueView::Bool(true))
}

/// An event about a channel: its kind, then the peer's key when there is
/// one, then the channel id.
pub open spec fn channel_fields(kind: Seq<char>, pubkey: Option<Seq<char>>, channel_id: Seq<char>) -> Seq<
    (Seq<char>, EventValueView),
> {
    match pubkey {
        Some(p) => seq![
            text_field("kind"@, kind),
            text_field("pubkey"@, p),
            text_field("channel_id"@, channel_id),
        ],
        None => seq![text_field("kind"@, kind), text_field("channel_id"@, channel_id)],
    }
}

/// The fields reported for an event, in order: `kind`, the identifiers it
/// carries, and `redacted: true` for the events whose secrets are withheld.
pub open spec fn event_fields(e: FiberEvent) -> Seq<(Seq<char>, EventValueView)> {
    match e {
        FiberEvent::NetworkStarted { pubkey, listening_addrs, announced_addrs } => seq![
            text_field("kind"@, "NetworkStarted"@),
            text_field("pubkey"@, pubkey@),
            ("listening_addrs"@, EventValueView::Texts(texts_view(listening_addrs@))),
            ("announced_addrs"@, EventValueView::Texts(texts_view(announced_addrs@))),
        ],
        FiberEvent::NetworkStopped { pubkey } => seq![
            text_field("kind"@, "NetworkStopped"@),
            text_field("pubkey"@, pubkey@),
        ],
        FiberEvent::PeerConnected { pubkey, addr } => seq![
            text_field("kind"@, "PeerConnected"@),
            text_field("pubkey"@, pubkey@),
            text_field("addr"@, addr@),
        ],
        FiberEvent::PeerDisConnected { pubkey, addr } => seq![
            text_field("kind"@, "PeerDisConnected"@),
            text_field("pubkey"@, pubkey@),
            text_field("addr"@, addr@),
        ],
        FiberEvent::ChannelCreated { pubkey, channel_id } => channel_fields(
            "ChannelCreated"@,
            Some(pubkey@),
            channel_id@,
        ),
        FiberEvent::ChannelPendingToBeAccepted { pubkey, channel_id } => channel_fields(
            "ChannelPendingToBeAccepted"@,
            Some(pubkey@),
            channel_id@,
        ),
        FiberEvent::RemoteTxComplete { pubkey, channel_id } => channel_fields(
            "RemoteTxComplete"@,
            Some(pubkey@),
            channel_id@,
        ).push(redacted_field()),
        FiberEvent::ChannelReady { pubkey, channel_id, out_point } => channel_fields(
            "ChannelReady"@,
            Some(pubkey@),
            channel_id@,
        ).push(text_field("out_point"@, out_point@)),
        FiberEvent::ChannelOnline { pubkey, channel_id, out_point } => channel_fields(
            "ChannelOnline"@,
            Some(pubkey@),
            channel_id@,
        ).push(text_field("out_point"@, out_point@)),
        FiberEvent::ChannelOffline { pubkey, channel_id, out_point } => channel_fields(
            "ChannelOffline"@,
            Some(pubkey@),
            channel_id@,
        ).push(text_field("out_point"@, out_point@)),
        FiberEvent::ChannelClosed { pubkey, channel_id, tx_hash } => channel_fields(
            "ChannelClosed"@,
            Some(pubkey@),
            channel_id@,
        ).push(text_field("tx_hash"@, tx_hash@)),
        FiberEvent::ChannelAbandon { channel_id } => channel_fields("ChannelAbandon"@, None, channel_id@),
        FiberEvent::ChannelFundingAborted { channel_id } => channel_fields(
            "ChannelFundingAborted"@,
            None,
            channel_id@,
        ),
        FiberEvent::RevokeAndAckReceived { pubkey, channel_id } => channel_fields(
            "RevokeAndAckReceived"@,
            Some(pubkey@),
            channel_id@,
        ).push(redacted_field()),
        FiberEvent::RemoteCommitmentSigned { pubkey, channel_id } => channel_fields(
            "RemoteCommitmentSigned"@,
            Some(pubkey@),
            channel_id@,
        ).push(redacted_field()),
        FiberEvent::LocalCommitmentSigned { channel_id } => channel_fields(
            "LocalCommitmentSigned"@,
            None,
            channel_id@,
        ).push(redacted_field()),
        FiberEvent::PreimageCreated { payment_hash } => seq![
            text_field("kind"@, "PreimageCreated"@),
            text_field("payment_hash"@, payment_hash@),
            redacted_field(),
        ],
        FiberEvent::PreimageRemoved { payment_hash } => seq![
            text_field("kind"@, "PreimageRemoved"@),
            text_field("payment_hash"@, payment_hash@),
        ],
        FiberEvent::DebugEvent { message } => seq![
            text_field("kind"@, "DebugEvent"@),
            text_field("message"@, message@),
        ],
    }
}

fn push_text(r: &mut Vec<(String, EventValue)>, key: &str, value: String)
    ensures
        report_view(final(r)@) == report_view(old(r)@).push(text_field(key@, value@)),
{
    let ghost before = r@;
    r.push((owned(key), EventValue::Text(value)));
    proof {
        assert(report_view(r@) =~= report_view(before).push(text_field(key@, value@)));
    }
}

fn push_texts(r: &mut Vec<(String, EventValue)>, key: &str, value: Vec<String>)
    ensures
        report_view(final(r)@) == report_view(old(r)@).push(
            (key@, EventValueView::Texts(texts_view(value@))),
        ),
{
    let ghost before = r@;
    let ghost v = value@;
    r.push((owned(key), EventValue::Texts(value)));
    proof {
        assert(report_view(r@) =~= report_view(before).push(
            (key@, EventValueView::Texts(texts_view(v))),
        ));
    }
}

fn push_redacted(r: &mut Vec<(String, EventValue)>)
    ensures
        report_view(final(r)@) == report_view(old(r)@).push(redacted_field()),
{
    let ghost before = r@;
    r.push((owned("redacted"), EventValue::Bool(true)));
    proof {
        assert(report_view(r@) =~= report_view(before).push(redacted_field()));
    }
}

fn channel_report(kind: &str, pubkey: Option<String>, channel_id: String) -> (r: Vec<(String, EventValue)>)
    ensures
        report_view(r@) == channel_fields(
            kind@,
            match pubkey {
                Some(p) => Some(p@),
                None => None,
            },
            channel_id@,
        ),
{
    let mut r: Vec<(String, EventValue)> = Vec::new();
    push_text(&mut r, "kind", owned(kind));
    match pubkey {
        Some(p) => push_text(&mut r, "pubkey", p),
        None => {},
    }
    push_text(&mut r, "channel_id", channel_id);
    proof {
        assert(report_view(r@) =~= channel_fields(
            kind@,
            match pubkey {
                Some(p) => Some(p@),
                None => None,
            },
            channel_id@,
        ));
    }
    r
}

/// The report of an event for embedders: its kind, its identifiers, and
/// whether secrets were withheld.
#[verifier::rlimit(40)]
pub fn event_report(event: FiberEvent) -> (r: Vec<(String, EventValue)>)
    ensures
        report_view(r@) == event_fields(event),
{
    let ghost e = event;
    let mut r: Vec<(String, EventValue)> = Vec::new();
    match event {
        FiberEvent::NetworkStarted { pubkey, listening_addrs, announced_addrs } => {
            push_text(&mut r, "kind", owned("NetworkStarted"));
            push_text(&mut r, "pubkey", pubkey);
            push_texts(&mut r, "listening_addrs", listening_addrs);
            push_texts(&mut r, "announced_addrs", announced_addrs);
        },
        FiberEvent::NetworkStopped { pubkey } => {
            push_text(&mut r, "kind", owned("NetworkStopped"));
            push_text(&mut r, "pubkey", pubkey);
        },
        FiberEvent::PeerConnected { pubkey, addr } => {
            push_text(&mut r, "kind", owned("PeerConnected"));
            push_text(&mut r, "pubkey", pubkey);
            push_text(&mut r, "addr", addr);
        },
        FiberEvent::PeerDisConnected { pubkey, addr } => {
            push_text(&mut r, "kind", owned("PeerDisConnected"));
            push_text(&mut r, "pubkey", pubkey);
            push_text(&mut r, "addr", addr);
        },
        FiberEvent::ChannelCreated { pubkey, channel_id } => {
            r = channel_report("ChannelCreated", Some(pubkey), channel_id);
        },
        FiberEvent::ChannelPendingToBeAccepted { pubkey, channel_id } => {
            r = channel_report("ChannelPendingToBeAccepted", Some(pubkey), channel_id);
        },
        FiberEvent::RemoteTxComplete { pubkey, channel_id } => {
            r = channel_report("RemoteTxComplete", Some(pubkey), channel_id);
            push_redacted(&mut r);
        },
        FiberEvent::ChannelReady { pubkey, channel_id, out_point } => {
            r = channel_report("ChannelReady", Some(pubkey), channel_id);
            push_text(&mut r, "out_point", out_point);
        },
        FiberEvent::ChannelOnline { pubkey, channel_id, out_point } => {
            r = channel_report("ChannelOnline", Some(pubkey), channel_id);
            push_text(&mut r, "out_point", out_point);
        },
        FiberEvent::ChannelOffline { pubkey, channel_id, out_point } => {
            r = channel_report("ChannelOffline", Some(pubkey), channel_id);
            push_text(&mut r, "out_point", out_point);
        },
        FiberEvent::ChannelClosed { pubkey, channel_id, tx_hash } => {
            r = channel_report("ChannelClosed", Some(pubkey), channel_id);
            push_text(&mut r, "tx_hash", tx_hash);
        },
        FiberEvent::ChannelAbandon { channel_id } => {
            r = channel_report("ChannelAbandon", None, channel_id);
        },
        FiberEvent::ChannelFundingAborted { channel_id } => {
            r = channel_report("ChannelFundingAborted", None, channel_id);
        },
        FiberEvent::RevokeAndAckReceived { pubkey, channel_id } => {
            r = channel_report("RevokeAndAckReceived", Some(pubkey), channel_id);
            push_redacted(&mut r);
        },
        FiberEvent::RemoteCommitmentSigned { pubkey, channel_id } => {
            r = channel_report("RemoteCommitmentSigned", Some(pubkey), channel_id);
            push_redacted(&mut r);
        },
        FiberEvent::LocalCommitmentSigned { channel_id } => {
            r = channel_report("LocalCommitmentSigned", None, channel_id);
            push_redacted(&mut r);
        },
        FiberEvent::PreimageCreated { payment_hash } => {
            push_text(&mut r, "kind", owned("PreimageCreated"));
            push_text(&mut r, "payment_hash", payment_hash);
            push_redacted(&mut r);
        },
        FiberEvent::PreimageRemoved { payment_hash } => {
            push_text(&mut r, "kind", owned("PreimageRemoved"));
            push_text(&mut r, "payment_hash", payment_hash);
        },
        FiberEvent::DebugEvent { message } => {
            push_text(&mut r, "kind", owned("DebugEvent"));
            push_text(&mut r, "message", message);
        },
    }
    proof {
        assert(report_view(r@) =~= event_fields(e));
    }
    r
}

} // verus!
