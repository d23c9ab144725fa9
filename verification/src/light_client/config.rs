//! The embedded Light Client's configuration: the `ckb_light_client` YAML
//! section is checked field by field, in a fixed order, and turned into the
//! settings the node starts with. The first problem found is the error.
use vstd::prelude::*;

use crate::native::{http_url, is_http_url};
use crate::text::{
    chars_from, chars_of, contains, debug_quote, debug_quoted, hex_parse_error_message, hex_parse_error_text, join_path, owned,
    parse_hex, parse_hex_u64, path_join, push_str, seq_contains, seq_starts_with, starts_with,
    str_eq, string_from_chars, trim, trimmed, HexParseError,
};

verus! {

/// Outbound peer slots of the embedded node.
pub const MAX_OUTBOUND_PEERS: u32 = 8;

/// Connected peers required before startup continues, unless configured.
pub const DEFAULT_REQUIRED_READY_PEERS: usize = 4;

/// Seconds the startup waits for current headers.
pub const HEADER_READY_TIMEOUT_SECONDS: u64 = 120;

/// Seconds a remote data request may take.
pub const REMOTE_DATA_TIMEOUT_SECONDS: u64 = 8;

/// Default chance, in percent, that a filter request goes to a preferred peer.
pub const DEFAULT_FILTER_PREFERRED_PEER_CHANCE_PERCENT: u8 = 90;

/// Default timeout of one filter request, in seconds.
pub const DEFAULT_FILTER_REQUEST_TIMEOUT_SECONDS: u64 = 6;

/// Default number of failures before a filter peer cools down.
pub const DEFAULT_FILTER_PEER_FAILURE_THRESHOLD: u32 = 2;

/// Default cooldown of a failing filter peer, in seconds.
pub const DEFAULT_FILTER_PEER_COOLDOWN_SECONDS: u64 = 60;

/// The address the local RPC gateway listens on (an OS-chosen port).
pub const LOCAL_RPC_LISTEN_ADDRESS: &'static str = "127.0.0.1:0";

/// File name of the wallet birthday record under the `ckb` directory.
pub const WALLET_BIRTHDAY_FILE: &'static str = "wallet-birthday.json";

/// File name of the older history start record under the `ckb` directory.
pub const LEGACY_HISTORY_START_BLOCK_FILE: &'static str = "history_start_block";

/// Environment variable that overrides the configured history start block.
pub const HISTORY_START_BLOCK_ENV: &'static str = "FIBER_FFI_CKB_HISTORY_START_BLOCK";

/// What `Multiaddr::from_str` reports for `address`: `None` when it parses,
/// else the text its error displays.
pub uninterp spec fn multiaddr_parse_error(address: Seq<char>) -> Option<Seq<char>>;

/// Parses `address` with tentacle's `Multiaddr` parser and keeps only the
/// outcome: `None` on success, the error's display text otherwise.
#[verifier::external_body]
pub(crate) fn check_multiaddr(address: &str) -> (r: Option<String>)
    ensures
        match r {
            None => multiaddr_parse_error(address@) is None,
            Some(e) => multiaddr_parse_error(address@) == Some(e@),
        },
{
    match address.parse::<tentacle_multiaddr::Multiaddr>() {
        Ok(_) => None,
        Err(err) => Some(err.to_string()),
    }
}

/// The text views of a list of strings.
pub open spec fn texts(v: Seq<String>) -> Seq<Seq<char>> {
    v.map_values(|s: String| s@)
}

/// The first error that `f` reports for an index in `i..n`, trying them in
/// order.
pub open spec fn first_error_at(n: int, i: int, f: spec_fn(int) -> Option<Seq<char>>) -> Option<
    Seq<char>,
>
    decreases n - i,
{
    if i >= n {
        None
    } else {
        match f(i) {
            Some(e) => Some(e),
            None => first_error_at(n, i + 1, f),
        }
    }
}

/// A history start block from configuration text: `0x` followed by
/// hexadecimal digits that fit in 64 bits.
pub open spec fn history_start_block_from(v: Seq<char>) -> Result<u64, Seq<char>> {
    if !seq_starts_with(v, seq!['0', 'x']) {
        Err("ckb_light_client.history_start_block must be a 0x-prefixed hexadecimal number"@)
    } else if v.len() == 2 {
        Err("ckb_light_client.history_start_block must contain hexadecimal digits"@)
    } else {
        match parse_hex_u64(v.skip(2)) {
            Ok(n) => Ok(n as u64),
            Err(e) => Err(
                "invalid ckb_light_client.history_start_block "@ + debug_quoted(v) + ": "@
                    + hex_parse_error_text(e),
            ),
        }
    }
}

/// Parses a configured history start block (`0x`-prefixed hexadecimal).
pub fn parse_hex_block_number(value: &str) -> (r: Result<u64, String>)
    ensures
        match history_start_block_from(value@) {
            Ok(n) => r == Ok::<u64, String>(n),
            Err(e) => r matches Err(m) && m@ == e,
        },
{
    let v = chars_of(value);
    let prefix: Vec<char> = vec!['0', 'x'];
    if !starts_with(&v, &prefix) {
        return Err(
            owned(
                "ckb_light_client.history_start_block must be a 0x-prefixed hexadecimal number",
            ),
        );
    }
    if v.len() == 2 {
        return Err(owned("ckb_light_client.history_start_block must contain hexadecimal digits"));
    }
    let digits = chars_from(&v, 2);
    match parse_hex(&digits) {
        Ok(n) => Ok(n),
        Err(e) => {
            let mut m = owned("invalid ckb_light_client.history_start_block ");
            let quoted = debug_quote(value);
            push_str(&mut m, quoted.as_str());
            push_str(&mut m, ": ");
            push_str(&mut m, hex_parse_error_message(e));
            Err(m)
        },
    }
}

/// The peer funding liveness RPC URL after trimming, or why it is refused.
pub open spec fn liveness_rpc_url_from(v: Seq<char>) -> Result<Seq<char>, Seq<char>> {
    let t = trimmed(v);
    if t.len() == 0 {
        Err("ckb_light_client.peer_funding_liveness_rpc_url cannot be empty"@)
    } else if !is_http_url(t) {
        Err("ckb_light_client.peer_funding_liveness_rpc_url must use http:// or https://"@)
    } else {
        Ok(t)
    }
}

/// Checks the peer funding liveness RPC URL: trimmed, non-empty, `http://`
/// or `https://`.
pub fn validate_peer_funding_liveness_rpc_url(value: String) -> (r: Result<String, String>)
    ensures
        match liveness_rpc_url_from(value@) {
            Ok(u) => r matches Ok(s) && s@ == u,
            Err(e) => r matches Err(m) && m@ == e,
        },
{
    let t = trim(&chars_of(value.as_str()));
    if t.len() == 0 {
        return Err(owned("ckb_light_client.peer_funding_liveness_rpc_url cannot be empty"));
    }
    let s = string_from_chars(&t);
    if !http_url(s.as_str()) {
        return Err(
            owned("ckb_light_client.peer_funding_liveness_rpc_url must use http:// or https://"),
        );
    }
    Ok(s)
}

/// The error for bootnodes configured on a chain whose bootnodes are bundled.
pub open spec fn builtin_override_error(chain: Seq<char>) -> Seq<char> {
    "ckb_light_client.bootnodes cannot override the bundled "@ + chain + " bootnodes"@
}

/// Refuses configured bootnodes for a chain whose bootnodes are bundled.
pub fn reject_builtin_bootnode_override(bootnodes: &Option<Vec<String>>, chain: &str) -> (r: Result<
    (),
    String,
>)
    ensures
        bootnodes is None ==> r is Ok,
        bootnodes is Some ==> (r matches Err(m) && m@ == builtin_override_error(chain@)),
{
    if bootnodes.is_some() {
        let mut m = owned("ckb_light_client.bootnodes cannot override the bundled ");
        push_str(&mut m, chain);
        push_str(&mut m, " bootnodes");
        return Err(m);
    }
    Ok(())
}

/// Why one bootnode of a custom chain is refused: blank, or not a
/// multiaddr.
pub open spec fn bootnode_error(a: Seq<char>) -> Option<Seq<char>> {
    if trimmed(a).len() == 0 {
        Some("ckb_light_client.bootnodes cannot contain an empty address"@)
    } else {
        match multiaddr_parse_error(a) {
            Some(e) => Some(
                "invalid CKB Light Client bootnode address "@ + debug_quoted(a) + ": "@ + e,
            ),
            None => None,
        }
    }
}

/// Why the bootnodes of a custom chain are refused: none given, or the
/// first bad address.
pub open spec fn custom_bootnodes_error(s: Seq<Seq<char>>) -> Option<Seq<char>> {
    if s.len() == 0 {
        Some(
            "ckb_light_client.bootnodes must contain at least one address for a custom fiber.chain"@,
        )
    } else {
        first_error_at(s.len() as int, 0, |j: int| bootnode_error(s[j]))
    }
}

/// Unfolds `first_error_at` at an index that reports nothing.
proof fn lemma_first_error_step(n: int, i: int, f: spec_fn(int) -> Option<Seq<char>>)
    requires
        i < n,
        f(i) is None,
    ensures
        first_error_at(n, i, f) == first_error_at(n, i + 1, f),
{
}

/// Whether `text` is blank once trimmed.
fn is_blank(text: &str) -> (r: bool)
    ensures
        r == (trimmed(text@).len() == 0),
{
    trim(&chars_of(text)).len() == 0
}

/// Checks the bootnodes of a custom chain: at least one, each a non-blank
/// multiaddr.
pub fn validate_custom_bootnodes(bootnodes: &Vec<String>) -> (r: Result<(), String>)
    ensures
        match custom_bootnodes_error(texts(bootnodes@)) {
            None => r is Ok,
            Some(e) => r matches Err(m) && m@ == e,
        },
{
    let ghost s = texts(bootnodes@);
    let ghost f = |j: int| bootnode_error(s[j]);
    if bootnodes.len() == 0 {
        return Err(
            owned(
                "ckb_light_client.bootnodes must contain at least one address for a custom fiber.chain",
            ),
        );
    }
    let mut i: usize = 0;
    while i < bootnodes.len()
        invariant
            i <= bootnodes.len(),
            s == texts(bootnodes@),
            f == (|j: int| bootnode_error(s[j])),
            bootnodes.len() > 0,
            custom_bootnodes_error(s) == first_error_at(s.len() as int, i as int, f),
        decreases bootnodes.len() - i,
    {
        let address = &bootnodes[i];
        proof {
            assert(s[i as int] == address@);
        }
        if is_blank(address.as_str()) {
            return Err(owned("ckb_light_client.bootnodes cannot contain an empty address"));
        }
        match check_multiaddr(address.as_str()) {
            Some(err) => {
                let mut m = owned("invalid CKB Light Client bootnode address ");
                let quoted = debug_quote(address.as_str());
                push_str(&mut m, quoted.as_str());
                push_str(&mut m, ": ");
                push_str(&mut m, err.as_str());
                return Err(m);
            },
            None => {},
        }
        proof {
            lemma_first_error_step(s.len() as int, i as int, f);
        }
        i = i + 1;
    }
    Ok(())
}

/// Why the preferred peer at index `i` is refused: blank, not a multiaddr,
/// without a `/p2p/` peer id, or equal to an earlier one.
pub open spec fn preferred_peer_error(s: Seq<Seq<char>>, i: int) -> Option<Seq<char>> {
    let a = s[i];
    if trimmed(a).len() == 0 {
        Some("ckb_light_client.preferred_peers cannot contain an empty address"@)
    } else if multiaddr_parse_error(a) is Some {
        Some(
            "invalid CKB Light Client preferred peer address "@ + debug_quoted(a) + ": "@
                + multiaddr_parse_error(a)->0,
        )
    } else if !seq_contains(a, "/p2p/"@) {
        Some(
            "CKB Light Client preferred peer address "@ + debug_quoted(a)
                + " must include /p2p/<peer-id>"@,
        )
    } else if s.take(i).contains(a) {
        Some("ckb_light_client.preferred_peers contains duplicate address "@ + debug_quoted(a))
    } else {
        None
    }
}

/// Why the preferred peers are refused: the first bad address, if any.
pub open spec fn preferred_peers_error(s: Seq<Seq<char>>) -> Option<Seq<char>> {
    first_error_at(s.len() as int, 0, |j: int| preferred_peer_error(s, j))
}

/// Whether an address equal to `peers[i]` comes before index `i`.
fn seen_before(peers: &Vec<String>, i: usize) -> (r: bool)
    requires
        i < peers.len(),
    ensures
        r == texts(peers@).take(i as int).contains(peers@[i as int]@),
{
    let ghost s = texts(peers@);
    let mut j: usize = 0;
    while j < i
        invariant
            j <= i < peers.len(),
            s == texts(peers@),
            forall|k: int| 0 <= k < j ==> s[k] != s[i as int],
        decreases i - j,
    {
        if str_eq(peers[j].as_str(), peers[i].as_str()) {
            proof {
                assert(s.take(i as int)[j as int] == s[i as int]);
            }
            return true;
        }
        j = j + 1;
    }
    proof {
        if s.take(i as int).contains(s[i as int]) {
            let k = choose|k: int| 0 <= k < i && s.take(i as int)[k] == s[i as int];
            assert(s[k] == s[i as int]);
        }
    }
    false
}

/// Checks the preferred peers: each a non-blank multiaddr with a `/p2p/`
/// peer id, none repeated.
pub fn validate_preferred_peers(peers: &Vec<String>) -> (r: Result<(), String>)
    ensures
        match preferred_peers_error(texts(peers@)) {
            None => r is Ok,
            Some(e) => r matches Err(m) && m@ == e,
        },
{
    let ghost s = texts(peers@);
    let ghost f = |j: int| preferred_peer_error(s, j);
    let p2p = chars_of("/p2p/");
    let mut i: usize = 0;
    while i < peers.len()
        invariant
            i <= peers.len(),
            s == texts(peers@),
            f == (|j: int| preferred_peer_error(s, j)),
            p2p@ == "/p2p/"@,
            preferred_peers_error(s) == first_error_at(s.len() as int, i as int, f),
        decreases peers.len() - i,
    {
        let address = &peers[i];
        proof {
            assert(s[i as int] == address@);
        }
        if is_blank(address.as_str()) {
            return Err(owned("ckb_light_client.preferred_peers cannot contain an empty address"));
        }
        match check_multiaddr(address.as_str()) {
            Some(err) => {
                let mut m = owned("invalid CKB Light Client preferred peer address ");
                let quoted = debug_quote(address.as_str());
                push_str(&mut m, quoted.as_str());
                push_str(&mut m, ": ");
                push_str(&mut m, err.as_str());
                return Err(m);
            },
            None => {},
        }
        if !contains(&chars_of(address.as_str()), &p2p) {
            let mut m = owned("CKB Light Client preferred peer address ");
            let quoted = debug_quote(address.as_str());
            push_str(&mut m, quoted.as_str());
            push_str(&mut m, " must include /p2p/<peer-id>");
            return Err(m);
        }
        if seen_before(peers, i) {
            let mut m = owned("ckb_light_client.preferred_peers contains duplicate address ");
            let quoted = debug_quote(address.as_str());
            push_str(&mut m, quoted.as_str());
            return Err(m);
        }
        proof {
            lemma_first_error_step(s.len() as int, i as int, f);
        }
        i = i + 1;
    }
    Ok(())
}

/// The bootnodes bundled for CKB mainnet (those of the pinned Light Client release).
pub open spec fn mainnet_bootnode_list() -> Seq<Seq<char>> {
    seq![
        "/ip4/16.163.82.218/tcp/8114/p2p/QmaZMemLXSsxKUrYNucjEbPxVX3rBKsGhWW2muWtWxUWyh"@,
        "/ip4/35.79.196.111/tcp/8114/p2p/QmYCRVonLfP18LSoz2WCHaXDorUYxuUMfhtcXK1TuZ1iwF"@,
        "/ip4/13.234.144.148/tcp/8114/p2p/QmbT7QimcrcD5k2znoJiWpxoESxang6z1Gy9wof1rT1LKR"@,
        "/ip4/34.64.120.143/tcp/8114/p2p/QmejEJEbDcGGMp4D6WtftMMVLkR1ZuBfMgyLFDMJymkDt6"@,
        "/ip4/3.218.170.86/tcp/8114/p2p/QmShw2vtVt49wJagc1zGQXGS6LkQTcHxnEV3xs6y8MAmQN"@,
        "/ip4/35.236.107.161/tcp/8114/p2p/QmSRj57aa9sR2AiTvMyrEea8n1sEM1cDTrfb2VHVJxnGuu"@,
        "/ip4/23.101.191.12/tcp/8114/p2p/QmexvXVDiRt2FBGptgK4gBJusWyyTEEaHeuCAa35EPNkZS"@,
        "/ip4/20.151.143.237/tcp/8114/p2p/QmNsGNQjYA6iP472bNnNE2GR31kCYBifhY1XcaUxRjZ1py"@,
        "/ip4/52.59.155.249/tcp/8114/p2p/QmRHqhSGMGm5FtnkW8D6T83X7YwaiMAZXCXJJaKzQEo3rb"@,
        "/ip4/3.10.216.39/tcp/8114/p2p/QmagxSv7GNwKXQE7mi1iDjFHghjUpbqjBgqSot7PmMJqHA"@,
        "/ip4/13.37.172.80/tcp/8114/p2p/QmXJg4iKbQzMpLhX75RyDn89Mv7N2H8vLePBR7kgZf6hYk"@,
        "/ip4/34.118.49.255/tcp/8114/p2p/QmeCzzVmSAU5LNYAeXhdJj8TCq335aJMqUxcvZXERBWdgS"@,
        "/ip4/40.115.75.216/tcp/8114/p2p/QmW3P1WYtuz9hitqctKnRZua2deHXhNePNjvtc9Qjnwp4q"@,
        "/ip4/34.176.239.95/tcp/8114/p2p/QmQoWrmuFauCn3zZ2mYYKAciG9opTbjzC2wVEfWveZNDt8"@,
        "/ip4/13.245.217.98/tcp/8114/p2p/Qmf4t1SzFhRWuGcFcgs7r4pXvkACsz3FcaBMcmMKQMMpn7"@,
    ]
}

/// The bundled mainnet bootnodes, in order.
pub fn mainnet_bootnodes() -> (r: Vec<String>)
    ensures
        texts(r@) == mainnet_bootnode_list(),
{
    let mut r: Vec<String> = Vec::new();
    r.push(owned("/ip4/16.163.82.218/tcp/8114/p2p/QmaZMemLXSsxKUrYNucjEbPxVX3rBKsGhWW2muWtWxUWyh"));
    r.push(owned("/ip4/35.79.196.111/tcp/8114/p2p/QmYCRVonLfP18LSoz2WCHaXDorUYxuUMfhtcXK1TuZ1iwF"));
    r.push(owned("/ip4/13.234.144.148/tcp/8114/p2p/QmbT7QimcrcD5k2znoJiWpxoESxang6z1Gy9wof1rT1LKR"));
    r.push(owned("/ip4/34.64.120.143/tcp/8114/p2p/QmejEJEbDcGGMp4D6WtftMMVLkR1ZuBfMgyLFDMJymkDt6"));
    r.push(owned("/ip4/3.218.170.86/tcp/8114/p2p/QmShw2vtVt49wJagc1zGQXGS6LkQTcHxnEV3xs6y8MAmQN"));
    r.push(owned("/ip4/35.236.107.161/tcp/8114/p2p/QmSRj57aa9sR2AiTvMyrEea8n1sEM1cDTrfb2VHVJxnGuu"));
    r.push(owned("/ip4/23.101.191.12/tcp/8114/p2p/QmexvXVDiRt2FBGptgK4gBJusWyyTEEaHeuCAa35EPNkZS"));
    r.push(owned("/ip4/20.151.143.237/tcp/8114/p2p/QmNsGNQjYA6iP472bNnNE2GR31kCYBifhY1XcaUxRjZ1py"));
    r.push(owned("/ip4/52.59.155.249/tcp/8114/p2p/QmRHqhSGMGm5FtnkW8D6T83X7YwaiMAZXCXJJaKzQEo3rb"));
    r.push(owned("/ip4/3.10.216.39/tcp/8114/p2p/QmagxSv7GNwKXQE7mi1iDjFHghjUpbqjBgqSot7PmMJqHA"));
    r.push(owned("/ip4/13.37.172.80/tcp/8114/p2p/QmXJg4iKbQzMpLhX75RyDn89Mv7N2H8vLePBR7kgZf6hYk"));
    r.push(owned("/ip4/34.118.49.255/tcp/8114/p2p/QmeCzzVmSAU5LNYAeXhdJj8TCq335aJMqUxcvZXERBWdgS"));
    r.push(owned("/ip4/40.115.75.216/tcp/8114/p2p/QmW3P1WYtuz9hitqctKnRZua2deHXhNePNjvtc9Qjnwp4q"));
    r.push(owned("/ip4/34.176.239.95/tcp/8114/p2p/QmQoWrmuFauCn3zZ2mYYKAciG9opTbjzC2wVEfWveZNDt8"));
    r.push(owned("/ip4/13.245.217.98/tcp/8114/p2p/Qmf4t1SzFhRWuGcFcgs7r4pXvkACsz3FcaBMcmMKQMMpn7"));
    proof {
        assert(texts(r@) =~= mainnet_bootnode_list());
    }
    r
}

/// The bootnodes bundled for CKB testnet (those of the pinned Light Client release).
pub open spec fn testnet_bootnode_list() -> Seq<Seq<char>> {
    seq![
        "/ip4/18.217.146.65/tcp/8111/p2p/QmT6DFfm18wtbJz3y4aPNn3ac86N4d4p4xtfQRRPf73frC"@,
        "/ip4/18.136.60.221/tcp/8111/p2p/QmTt6HeNakL8Fpmevrhdna7J4NzEMf9pLchf1CXtmtSrwb"@,
        "/ip4/35.176.207.239/tcp/8111/p2p/QmSJTsMsMGBjzv1oBNwQU36VhQRxc2WQpFoRu1ZifYKrjZ"@,
        "/ip4/13.228.149.113/tcp/8111/p2p/QmQoTR39rBkpZVgLApDGDoFnJ2YDBS9hYeiib1Z6aoAdEf"@,
        "/ip4/157.241.73.87/tcp/8111/p2p/QmSPkAyXqsWpRiS7HpHLTProVdhQWLKFHCXbRjaLpJj7ZL"@,
        "/ip4/4.241.132.26/tcp/8111/p2p/QmX5D6aJiAQ5Fxn4BfVqSn6zrgyuQM1oXVC9yvmzLuHXnx"@,
        "/ip4/52.147.120.180/tcp/8111/p2p/QmPcJY2gZLUm66szYA9QaG1P3rzwseWCMgbj6AyNCyW4G2"@,
        "/ip4/18.167.196.121/tcp/8111/p2p/QmQMjFrNGaphzfHin3mbYybbJcFMDUihKAcknquYvm9J3W"@,
        "/ip4/34.216.103.183/tcp/8111/p2p/Qmd41MaByDprkC5gP1XBKgamZ9DTLNk37zbPgwtiWCzRV6"@,
        "/ip4/3.98.152.180/tcp/8111/p2p/QmWVuW5KquiWDSqgMJRFW1xRtVqkYJrWz6S9NNk6fFn3wh"@,
        "/ip4/18.192.147.65/tcp/8111/p2p/QmWcEhsMNRcfJit62EbKgzpgtAJZX1G3Ur4shXjcvLsYDb"@,
        "/ip4/13.236.13.195/tcp/8111/p2p/QmfUTZxsse7rFJTJfoUv8bbStoDLETxst5nJEpJozNuAnH"@,
    ]
}

/// The bundled testnet bootnodes, in order.
pub fn testnet_bootnodes() -> (r: Vec<String>)
    ensures
        texts(r@) == testnet_bootnode_list(),
{
    let mut r: Vec<String> = Vec::new();
    r.push(owned("/ip4/18.217.146.65/tcp/8111/p2p/QmT6DFfm18wtbJz3y4aPNn3ac86N4d4p4xtfQRRPf73frC"));
    r.push(owned("/ip4/18.136.60.221/tcp/8111/p2p/QmTt6HeNakL8Fpmevrhdna7J4NzEMf9pLchf1CXtmtSrwb"));
    r.push(owned("/ip4/35.176.207.239/tcp/8111/p2p/QmSJTsMsMGBjzv1oBNwQU36VhQRxc2WQpFoRu1ZifYKrjZ"));
    r.push(owned("/ip4/13.228.149.113/tcp/8111/p2p/QmQoTR39rBkpZVgLApDGDoFnJ2YDBS9hYeiib1Z6aoAdEf"));
    r.push(owned("/ip4/157.241.73.87/tcp/8111/p2p/QmSPkAyXqsWpRiS7HpHLTProVdhQWLKFHCXbRjaLpJj7ZL"));
    r.push(owned("/ip4/4.241.132.26/tcp/8111/p2p/QmX5D6aJiAQ5Fxn4BfVqSn6zrgyuQM1oXVC9yvmzLuHXnx"));
    r.push(owned("/ip4/52.147.120.180/tcp/8111/p2p/QmPcJY2gZLUm66szYA9QaG1P3rzwseWCMgbj6AyNCyW4G2"));
    r.push(owned("/ip4/18.167.196.121/tcp/8111/p2p/QmQMjFrNGaphzfHin3mbYybbJcFMDUihKAcknquYvm9J3W"));
    r.push(owned("/ip4/34.216.103.183/tcp/8111/p2p/Qmd41MaByDprkC5gP1XBKgamZ9DTLNk37zbPgwtiWCzRV6"));
    r.push(owned("/ip4/3.98.152.180/tcp/8111/p2p/QmWVuW5KquiWDSqgMJRFW1xRtVqkYJrWz6S9NNk6fFn3wh"));
    r.push(owned("/ip4/18.192.147.65/tcp/8111/p2p/QmWcEhsMNRcfJit62EbKgzpgtAJZX1G3Ur4shXjcvLsYDb"));
    r.push(owned("/ip4/13.236.13.195/tcp/8111/p2p/QmfUTZxsse7rFJTJfoUv8bbStoDLETxst5nJEpJozNuAnH"));
    proof {
        assert(texts(r@) =~= testnet_bootnode_list());
    }
    r
}

/// The chain the embedded Light Client follows.
#[derive(Clone, Debug, PartialEq, Eq)]
pub enum LocalChain {
    Mainnet,
    Testnet,
    /// A chain spec file, by its path.
    Custom(String),
}

/// The history start override read from the environment.
#[derive(Clone, Debug)]
pub enum HistoryStartBlockEnv {
    NotPresent,
    /// Set, but not valid UTF-8.
    NotUnicode,
    Present(String),
}

/// The `ckb_light_client` section as written in the YAML file; every field
/// may be left out.
#[derive(Clone, Debug, Default)]
pub struct SerializedLightClientConfig {
    pub history_start_block: Option<String>,
    pub trust_pinned_cell_deps: Option<bool>,
    pub peer_funding_liveness_rpc_url: Option<String>,
    pub startup_min_peers: Option<usize>,
    pub startup_script_lag_tolerance: Option<u64>,
    pub operational_lag_tolerance: Option<u64>,
    pub bootnodes: Option<Vec<String>>,
    pub preferred_peers: Option<Vec<String>>,
    pub filter_preferred_peer_chance_percent: Option<u8>,
    pub filter_request_timeout_seconds: Option<u64>,
    pub filter_peer_failure_threshold: Option<u32>,
    pub filter_peer_cooldown_seconds: Option<u64>,
}

/// The checked configuration of the embedded Light Client.
#[derive(Clone, Debug, PartialEq, Eq)]
pub struct LocalLightClientConfig {
    pub chain: LocalChain,
    pub store_path: String,
    pub network_path: String,
    pub history_start_block: u64,
    pub history_start_block_is_explicit: bool,
    pub wallet_birthday_path: String,
    pub legacy_history_start_block_path: String,
    pub trust_pinned_cell_deps: bool,
    pub peer_funding_liveness_rpc_url: Option<String>,
    pub startup_min_peers: usize,
    pub startup_script_lag_tolerance: u64,
    pub operational_lag_tolerance: u64,
    pub bootnodes: Vec<String>,
    pub preferred_peers: Vec<String>,
    pub filter_preferred_peer_chance_percent: u8,
    pub filter_request_timeout_seconds: u64,
    pub filter_peer_failure_threshold: u32,
    pub filter_peer_cooldown_seconds: u64,
}

/// The configured history start text: the environment override if present,
/// else the YAML value.
pub open spec fn history_text(configured: Option<String>, env: HistoryStartBlockEnv) -> Option<
    Seq<char>,
> {
    match env {
        HistoryStartBlockEnv::Present(v) => Some(v@),
        _ => match configured {
            Some(h) => Some(h@),
            None => None,
        },
    }
}

/// The error for an override that is not valid UTF-8.
pub open spec fn env_not_unicode_error() -> Seq<char> {
    HISTORY_START_BLOCK_ENV@ + " must contain valid UTF-8"@
}

/// Reads the explicitly configured history start block, if any.
pub fn configured_history_start_block(
    env: &HistoryStartBlockEnv,
    configured: &Option<String>,
) -> (r: Result<Option<u64>, String>)
    ensures
        env is NotUnicode ==> (r matches Err(m) && m@ == env_not_unicode_error()),
        !(env is NotUnicode) ==> match history_text(*configured, *env) {
            None => r == Ok::<Option<u64>, String>(None),
            Some(t) => match history_start_block_from(t) {
                Ok(n) => r == Ok::<Option<u64>, String>(Some(n)),
                Err(e) => r matches Err(m) && m@ == e,
            },
        },
{
    let text: &str = match env {
        HistoryStartBlockEnv::NotUnicode => {
            let mut m = owned(HISTORY_START_BLOCK_ENV);
            push_str(&mut m, " must contain valid UTF-8");
            return Err(m);
        },
        HistoryStartBlockEnv::Present(v) => v.as_str(),
        HistoryStartBlockEnv::NotPresent => match configured {
            Some(h) => h.as_str(),
            None => {
                return Ok(None);
            },
        },
    };
    match parse_hex_block_number(text) {
        Ok(n) => Ok(Some(n)),
        Err(e) => Err(e),
    }
}

/// Why the chain choice is refused: bootnodes given for a bundled chain, or
/// missing or bad bootnodes for a custom one.
pub open spec fn chain_error(fiber_chain: Seq<char>, bootnodes: Option<Vec<String>>) -> Option<
    Seq<char>,
> {
    if fiber_chain == "mainnet"@ {
        if bootnodes is Some {
            Some(builtin_override_error("mainnet"@))
        } else {
            None
        }
    } else if fiber_chain == "testnet"@ {
        if bootnodes is Some {
            Some(builtin_override_error("testnet"@))
        } else {
            None
        }
    } else {
        match bootnodes {
            None => Some("ckb_light_client.bootnodes must be set for a custom fiber.chain"@),
            Some(b) => custom_bootnodes_error(texts(b@)),
        }
    }
}

/// Whether `c` is the chain that `fiber_chain` names, a custom chain's spec
/// path resolved against `base`.
pub open spec fn chain_matches(c: LocalChain, base: Seq<char>, fiber_chain: Seq<char>) -> bool {
    if fiber_chain == "mainnet"@ {
        c is Mainnet
    } else if fiber_chain == "testnet"@ {
        c is Testnet
    } else {
        c matches LocalChain::Custom(p) && p@ == path_join(base, fiber_chain)
    }
}

/// The bootnodes of the chain: the bundled ones, or the configured ones of a
/// custom chain.
pub open spec fn bootnodes_for(fiber_chain: Seq<char>, bootnodes: Option<Vec<String>>) -> Seq<
    Seq<char>,
> {
    if fiber_chain == "mainnet"@ {
        mainnet_bootnode_list()
    } else if fiber_chain == "testnet"@ {
        testnet_bootnode_list()
    } else {
        texts(bootnodes->0@)
    }
}

/// Picks the chain and its bootnodes.
pub fn resolve_chain(base_dir: &str, fiber_chain: &str, bootnodes: Option<Vec<String>>) -> (r:
    Result<(LocalChain, Vec<String>), String>)
    ensures
        match chain_error(fiber_chain@, bootnodes) {
            Some(e) => r matches Err(m) && m@ == e,
            None => r matches Ok((c, b)) && chain_matches(c, base_dir@, fiber_chain@) && texts(b@)
                == bootnodes_for(fiber_chain@, bootnodes),
        },
{
    if str_eq(fiber_chain, "mainnet") {
        match reject_builtin_bootnode_override(&bootnodes, "mainnet") {
            Err(e) => Err(e),
            Ok(()) => Ok((LocalChain::Mainnet, mainnet_bootnodes())),
        }
    } else if str_eq(fiber_chain, "testnet") {
        match reject_builtin_bootnode_override(&bootnodes, "testnet") {
            Err(e) => Err(e),
            Ok(()) => Ok((LocalChain::Testnet, testnet_bootnodes())),
        }
    } else {
        match bootnodes {
            None => Err(owned("ckb_light_client.bootnodes must be set for a custom fiber.chain")),
            Some(b) => match validate_custom_bootnodes(&b) {
                Err(e) => Err(e),
                Ok(()) => Ok((LocalChain::Custom(join_path(base_dir, fiber_chain)), b)),
            },
        }
    }
}

/// Why the numeric and peer settings are refused, checked in order: the
/// startup peer count, the preferred peers and their number, then the four
/// filter settings.
pub open spec fn settings_error(
    startup_min_peers: usize,
    preferred: Seq<Seq<char>>,
    chance_percent: u8,
    request_timeout: u64,
    failure_threshold: u32,
    cooldown: u64,
) -> Option<Seq<char>> {
    if !(1 <= startup_min_peers <= MAX_OUTBOUND_PEERS) {
        Some("ckb_light_client.startup_min_peers must be between 1 and 8"@)
    } else if preferred_peers_error(preferred) is Some {
        preferred_peers_error(preferred)
    } else if preferred.len() > MAX_OUTBOUND_PEERS {
        Some("ckb_light_client.preferred_peers cannot contain more than 8 addresses"@)
    } else if chance_percent > 100 {
        Some("ckb_light_client.filter_preferred_peer_chance_percent must be between 0 and 100"@)
    } else if !(1 <= request_timeout <= 60) {
        Some("ckb_light_client.filter_request_timeout_seconds must be between 1 and 60"@)
    } else if !(1 <= failure_threshold <= 10) {
        Some("ckb_light_client.filter_peer_failure_threshold must be between 1 and 10"@)
    } else if !(1 <= cooldown <= 3600) {
        Some("ckb_light_client.filter_peer_cooldown_seconds must be between 1 and 3600"@)
    } else {
        None
    }
}

/// Checks the numeric and peer settings.
pub fn check_settings(
    startup_min_peers: usize,
    preferred: &Vec<String>,
    chance_percent: u8,
    request_timeout: u64,
    failure_threshold: u32,
    cooldown: u64,
) -> (r: Result<(), String>)
    ensures
        match settings_error(
            startup_min_peers,
            texts(preferred@),
            chance_percent,
            request_timeout,
            failure_threshold,
            cooldown,
        ) {
            None => r is Ok,
            Some(e) => r matches Err(m) && m@ == e,
        },
{
    if !(1 <= startup_min_peers && startup_min_peers <= 8) {
        return Err(owned("ckb_light_client.startup_min_peers must be between 1 and 8"));
    }
    match validate_preferred_peers(preferred) {
        Err(e) => {
            return Err(e);
        },
        Ok(()) => {},
    }
    if preferred.len() > 8 {
        return Err(owned("ckb_light_client.preferred_peers cannot contain more than 8 addresses"));
    }
    if chance_percent > 100 {
        return Err(
            owned(
                "ckb_light_client.filter_preferred_peer_chance_percent must be between 0 and 100",
            ),
        );
    }
    if !(1 <= request_timeout && request_timeout <= 60) {
        return Err(
            owned("ckb_light_client.filter_request_timeout_seconds must be between 1 and 60"),
        );
    }
    if !(1 <= failure_threshold && failure_threshold <= 10) {
        return Err(owned("ckb_light_client.filter_peer_failure_threshold must be between 1 and 10"));
    }
    if !(1 <= cooldown && cooldown <= 3600) {
        return Err(
            owned("ckb_light_client.filter_peer_cooldown_seconds must be between 1 and 3600"),
        );
    }
    Ok(())
}

/// The startup peer count: configured, else the default.
pub open spec fn startup_min_peers_of(s: SerializedLightClientConfig) -> usize {
    match s.startup_min_peers {
        Some(n) => n,
        None => DEFAULT_REQUIRED_READY_PEERS,
    }
}

/// The preferred peers: configured, else none.
pub open spec fn preferred_peers_of(s: SerializedLightClientConfig) -> Seq<Seq<char>> {
    match s.preferred_peers {
        Some(p) => texts(p@),
        None => Seq::empty(),
    }
}

/// The filter peer preference chance: configured, else the default.
pub open spec fn chance_percent_of(s: SerializedLightClientConfig) -> u8 {
    match s.filter_preferred_peer_chance_percent {
        Some(n) => n,
        None => DEFAULT_FILTER_PREFERRED_PEER_CHANCE_PERCENT,
    }
}

/// The filter request timeout: configured, else the default.
pub open spec fn request_timeout_of(s: SerializedLightClientConfig) -> u64 {
    match s.filter_request_timeout_seconds {
        Some(n) => n,
        None => DEFAULT_FILTER_REQUEST_TIMEOUT_SECONDS,
    }
}

/// The filter peer failure threshold: configured, else the default.
pub open spec fn failure_threshold_of(s: SerializedLightClientConfig) -> u32 {
    match s.filter_peer_failure_threshold {
        Some(n) => n,
        None => DEFAULT_FILTER_PEER_FAILURE_THRESHOLD,
    }
}

/// The filter peer cooldown: configured, else the default.
pub open spec fn cooldown_of(s: SerializedLightClientConfig) -> u64 {
    match s.filter_peer_cooldown_seconds {
        Some(n) => n,
        None => DEFAULT_FILTER_PEER_COOLDOWN_SECONDS,
    }
}

/// Why the history start cannot be settled: a bad override, a bad
/// configured value, or, with none configured, the persisted birthday's
/// read error.
pub open spec fn history_error(
    s: SerializedLightClientConfig,
    env: HistoryStartBlockEnv,
    persisted: Result<Option<u64>, String>,
) -> Option<Seq<char>> {
    if env is NotUnicode {
        Some(env_not_unicode_error())
    } else {
        match history_text(s.history_start_block, env) {
            Some(t) => match history_start_block_from(t) {
                Err(e) => Some(e),
                Ok(_) => None,
            },
            None => match persisted {
                Err(e) => Some(e@),
                Ok(_) => None,
            },
        }
    }
}

/// The history start block: the configured one, else the persisted wallet
/// birthday, else genesis.
pub open spec fn history_start_of(
    s: SerializedLightClientConfig,
    env: HistoryStartBlockEnv,
    persisted: Result<Option<u64>, String>,
) -> u64 {
    match history_text(s.history_start_block, env) {
        Some(t) => match history_start_block_from(t) {
            Ok(n) => n,
            Err(_) => 0,
        },
        None => match persisted {
            Ok(Some(h)) => h,
            _ => 0,
        },
    }
}

/// Why the liveness RPC URL is refused, when one is configured.
pub open spec fn url_error(s: SerializedLightClientConfig) -> Option<Seq<char>> {
    match s.peer_funding_liveness_rpc_url {
        Some(u) => match liveness_rpc_url_from(u@) {
            Err(e) => Some(e),
            Ok(_) => None,
        },
        None => None,
    }
}

/// The first reason the whole section is refused, in the order the checks
/// run: history start, chain, liveness URL, then the settings.
pub open spec fn config_error(
    base: Seq<char>,
    fiber_chain: Seq<char>,
    s: SerializedLightClientConfig,
    env: HistoryStartBlockEnv,
    persisted: Result<Option<u64>, String>,
) -> Option<Seq<char>> {
    if history_error(s, env, persisted) is Some {
        history_error(s, env, persisted)
    } else if chain_error(fiber_chain, s.bootnodes) is Some {
        chain_error(fiber_chain, s.bootnodes)
    } else if url_error(s) is Some {
        url_error(s)
    } else {
        settings_error(
            startup_min_peers_of(s),
            preferred_peers_of(s),
            chance_percent_of(s),
            request_timeout_of(s),
            failure_threshold_of(s),
            cooldown_of(s),
        )
    }
}

/// Whether `c` is the configuration built from the inputs: each field as
/// configured, or its default.
pub open spec fn is_built_config(
    c: LocalLightClientConfig,
    base: Seq<char>,
    fiber_chain: Seq<char>,
    s: SerializedLightClientConfig,
    env: HistoryStartBlockEnv,
    persisted: Result<Option<u64>, String>,
) -> bool {
    &&& chain_matches(c.chain, base, fiber_chain)
    &&& c.store_path@ == path_join(path_join(base, "ckb-light-client"@), "store"@)
    &&& c.network_path@ == path_join(path_join(base, "ckb-light-client"@), "network"@)
    &&& c.history_start_block == history_start_of(s, env, persisted)
    &&& c.history_start_block_is_explicit == history_text(s.history_start_block, env) is Some
    &&& c.wallet_birthday_path@ == path_join(path_join(base, "ckb"@), WALLET_BIRTHDAY_FILE@)
    &&& c.legacy_history_start_block_path@ == path_join(
        path_join(base, "ckb"@),
        LEGACY_HISTORY_START_BLOCK_FILE@,
    )
    &&& c.trust_pinned_cell_deps == (s.trust_pinned_cell_deps == Some(true))
    &&& match s.peer_funding_liveness_rpc_url {
        None => c.peer_funding_liveness_rpc_url is None,
        Some(u) => c.peer_funding_liveness_rpc_url matches Some(v) && liveness_rpc_url_from(u@)
            == Ok::<Seq<char>, Seq<char>>(v@),
    }
    &&& c.startup_min_peers == startup_min_peers_of(s)
    &&& c.startup_script_lag_tolerance == match s.startup_script_lag_tolerance {
        Some(n) => n,
        None => 0,
    }
    &&& c.operational_lag_tolerance == match s.operational_lag_tolerance {
        Some(n) => n,
        None => 0,
    }
    &&& texts(c.bootnodes@) == bootnodes_for(fiber_chain, s.bootnodes)
    &&& texts(c.preferred_peers@) == preferred_peers_of(s)
    &&& c.filter_preferred_peer_chance_percent == chance_percent_of(s)
    &&& c.filter_request_timeout_seconds == request_timeout_of(s)
    &&& c.filter_peer_failure_threshold == failure_threshold_of(s)
    &&& c.filter_peer_cooldown_seconds == cooldown_of(s)
}

impl LocalLightClientConfig {
    /// Checks the `ckb_light_client` section and builds the configuration.
    /// `base_dir` is the node's data directory and `fiber_chain` the
    /// `fiber.chain` setting (`mainnet`, `testnet` or a chain spec path).
    /// `env` is the history start override read from the environment, and
    /// `persisted` what reading the wallet birthday under
    /// `base_dir/ckb/wallet-birthday.json` gave; it is consulted only when no
    /// history start is configured.
    pub fn build(
        base_dir: &str,
        fiber_chain: &str,
        serialized: SerializedLightClientConfig,
        env: HistoryStartBlockEnv,
        persisted: Result<Option<u64>, String>,
    ) -> (r: Result<Self, String>)
        ensures
            match r {
                Ok(c) => config_error(base_dir@, fiber_chain@, serialized, env, persisted) is None
                    && is_built_config(c, base_dir@, fiber_chain@, serialized, env, persisted),
                Err(e) => config_error(base_dir@, fiber_chain@, serialized, env, persisted)
                    == Some(e@),
            },
    {
        let ghost s0 = serialized;
        let SerializedLightClientConfig {
            history_start_block: configured_text,
            trust_pinned_cell_deps,
            peer_funding_liveness_rpc_url,
            startup_min_peers,
            startup_script_lag_tolerance,
            operational_lag_tolerance,
            bootnodes,
            preferred_peers,
            filter_preferred_peer_chance_percent,
            filter_request_timeout_seconds,
            filter_peer_failure_threshold,
            filter_peer_cooldown_seconds,
        } = serialized;
        let configured = match configured_history_start_block(&env, &configured_text) {
            Ok(c) => c,
            Err(e) => {
                return Err(e);
            },
        };
        let ckb_dir = join_path(base_dir, "ckb");
        let wallet_birthday_path = join_path(ckb_dir.as_str(), WALLET_BIRTHDAY_FILE);
        let legacy_history_start_block_path = join_path(
            ckb_dir.as_str(),
            LEGACY_HISTORY_START_BLOCK_FILE,
        );
        let history_start_block: u64 = match configured {
            Some(n) => n,
            None => match persisted {
                Err(e) => {
                    return Err(e);
                },
                Ok(Some(h)) => h,
                Ok(None) => 0,
            },
        };
        let (chain, chain_bootnodes) = match resolve_chain(base_dir, fiber_chain, bootnodes) {
            Ok(pair) => pair,
            Err(e) => {
                return Err(e);
            },
        };
        let light_client_dir = join_path(base_dir, "ckb-light-client");
        let url: Option<String> = match peer_funding_liveness_rpc_url {
            Some(u) => match validate_peer_funding_liveness_rpc_url(u) {
                Ok(v) => Some(v),
                Err(e) => {
                    return Err(e);
                },
            },
            None => None,
        };
        let min_peers: usize = match startup_min_peers {
            Some(n) => n,
            None => DEFAULT_REQUIRED_READY_PEERS,
        };
        let peers: Vec<String> = match preferred_peers {
            Some(p) => p,
            None => Vec::new(),
        };
        let chance: u8 = match filter_preferred_peer_chance_percent {
            Some(n) => n,
            None => DEFAULT_FILTER_PREFERRED_PEER_CHANCE_PERCENT,
        };
        let timeout: u64 = match filter_request_timeout_seconds {
            Some(n) => n,
            None => DEFAULT_FILTER_REQUEST_TIMEOUT_SECONDS,
        };
        let threshold: u32 = match filter_peer_failure_threshold {
            Some(n) => n,
            None => DEFAULT_FILTER_PEER_FAILURE_THRESHOLD,
        };
        let cooldown: u64 = match filter_peer_cooldown_seconds {
            Some(n) => n,
            None => DEFAULT_FILTER_PEER_COOLDOWN_SECONDS,
        };
        proof {
            assert(texts(peers@) =~= preferred_peers_of(s0));
        }
        match check_settings(min_peers, &peers, chance, timeout, threshold, cooldown) {
            Err(e) => {
                return Err(e);
            },
            Ok(()) => {},
        }
        let trust: bool = match trust_pinned_cell_deps {
            Some(b) => b,
            None => false,
        };
        let startup_lag: u64 = match startup_script_lag_tolerance {
            Some(n) => n,
            None => 0,
        };
        let operational_lag: u64 = match operational_lag_tolerance {
            Some(n) => n,
            None => 0,
        };
        Ok(
            LocalLightClientConfig {
                chain,
                store_path: join_path(light_client_dir.as_str(), "store"),
                network_path: join_path(light_client_dir.as_str(), "network"),
                history_start_block,
                history_start_block_is_explicit: configured.is_some(),
                wallet_birthday_path,
                legacy_history_start_block_path,
                trust_pinned_cell_deps: trust,
                peer_funding_liveness_rpc_url: url,
                startup_min_peers: min_peers,
                startup_script_lag_tolerance: startup_lag,
                operational_lag_tolerance: operational_lag,
                bootnodes: chain_bootnodes,
                preferred_peers: peers,
                filter_preferred_peer_chance_percent: chance,
                filter_request_timeout_seconds: timeout,
                filter_peer_failure_threshold: threshold,
                filter_peer_cooldown_seconds: cooldown,
            },
        )
    }

    /// The address the local RPC gateway listens on.
    pub fn local_rpc_listen_address() -> (r: String)
        ensures
            r@ == LOCAL_RPC_LISTEN_ADDRESS@,
    {
        owned(LOCAL_RPC_LISTEN_ADDRESS)
    }

    /// The chain for display: its name, or a custom chain's spec path.
    pub fn chain_label(&self) -> (r: String)
        ensures
            self.chain is Mainnet ==> r@ == "mainnet"@,
            self.chain is Testnet ==> r@ == "testnet"@,
            self.chain matches LocalChain::Custom(p) ==> r@ == p@,
    {
        match &self.chain {
            LocalChain::Mainnet => owned("mainnet"),
            LocalChain::Testnet => owned("testnet"),
            LocalChain::Custom(path) => owned(path.as_str()),
        }
    }
}

/// The peer protocols the embedded node speaks.
#[derive(Clone, Copy, Debug, PartialEq, Eq, Structural)]
pub enum SupportedProtocol {
    Identify,
    Ping,
    Discovery,
    Feeler,
    DisconnectMessage,
}

/// The settings of the embedded node's peer network, addresses already
/// checked to be multiaddrs.
#[derive(Clone, Debug)]
pub struct NetworkSettings {
    pub path: String,
    pub bootnodes: Vec<String>,
    /// Whitelisted peers are kept connected, but discovery still finds others.
    pub whitelist_only: bool,
    pub whitelist_peers: Vec<String>,
    pub max_peers: u32,
    pub max_outbound_peers: u32,
    pub ping_interval_secs: u64,
    pub ping_timeout_secs: u64,
    pub connect_outbound_interval_secs: u64,
    pub upnp: bool,
    pub discovery_local_address: bool,
    pub bootnode_mode: bool,
    pub reuse_port_on_linux: bool,
    pub reuse_tcp_with_ws: bool,
    pub support_protocols: Vec<SupportedProtocol>,
}

/// Why address `a` of the given kind (`bootnode` or `preferred peer`) is not
/// a multiaddr.
pub open spec fn address_parse_error(kind: Seq<char>, a: Seq<char>) -> Option<Seq<char>> {
    match multiaddr_parse_error(a) {
        Some(e) => Some(
            "invalid CKB Light Client "@ + kind + " address "@ + debug_quoted(a) + ": "@ + e,
        ),
        None => None,
    }
}

/// The first address of `s` that does not parse.
pub open spec fn addresses_parse_error(kind: Seq<char>, s: Seq<Seq<char>>) -> Option<Seq<char>> {
    first_error_at(s.len() as int, 0, |j: int| address_parse_error(kind, s[j]))
}

/// Parses every address of `addresses` as a multiaddr.
fn parse_addresses(addresses: &Vec<String>, kind: &str) -> (r: Result<(), String>)
    ensures
        match addresses_parse_error(kind@, texts(addresses@)) {
            None => r is Ok,
            Some(e) => r matches Err(m) && m@ == e,
        },
{
    let ghost s = texts(addresses@);
    let ghost f = |j: int| address_parse_error(kind@, s[j]);
    let mut i: usize = 0;
    while i < addresses.len()
        invariant
            i <= addresses.len(),
            s == texts(addresses@),
            f == (|j: int| address_parse_error(kind@, s[j])),
            addresses_parse_error(kind@, s) == first_error_at(s.len() as int, i as int, f),
        decreases addresses.len() - i,
    {
        let address = &addresses[i];
        proof {
            assert(s[i as int] == address@);
        }
        match check_multiaddr(address.as_str()) {
            Some(err) => {
                let mut m = owned("invalid CKB Light Client ");
                push_str(&mut m, kind);
                push_str(&mut m, " address ");
                let quoted = debug_quote(address.as_str());
                push_str(&mut m, quoted.as_str());
                push_str(&mut m, ": ");
                push_str(&mut m, err.as_str());
                return Err(m);
            },
            None => {},
        }
        proof {
            lemma_first_error_step(s.len() as int, i as int, f);
        }
        i = i + 1;
    }
    Ok(())
}

/// The protocols the embedded node supports, in order.
pub open spec fn supported_protocols() -> Seq<SupportedProtocol> {
    seq![
        SupportedProtocol::Identify,
        SupportedProtocol::Ping,
        SupportedProtocol::Discovery,
        SupportedProtocol::Feeler,
        SupportedProtocol::DisconnectMessage,
    ]
}

impl LocalLightClientConfig {
    /// The peer network settings: bootnodes and preferred peers as
    /// configured (preferred peers become the whitelist), the outbound limit
    /// for both peer counts, and fixed ping and connection timings.
    pub fn network_config(&self) -> (r: Result<NetworkSettings, String>)
        ensures
            match addresses_parse_error("bootnode"@, texts(self.bootnodes@)) {
                Some(e) => r matches Err(m) && m@ == e,
                None => match addresses_parse_error(
                    "preferred peer"@,
                    texts(self.preferred_peers@),
                ) {
                    Some(e) => r matches Err(m) && m@ == e,
                    None => r matches Ok(n) && {
                        &&& n.path@ == self.network_path@
                        &&& texts(n.bootnodes@) == texts(self.bootnodes@)
                        &&& !n.whitelist_only
                        &&& texts(n.whitelist_peers@) == texts(self.preferred_peers@)
                        &&& n.max_peers == MAX_OUTBOUND_PEERS
                        &&& n.max_outbound_peers == MAX_OUTBOUND_PEERS
                        &&& n.ping_interval_secs == 120
                        &&& n.ping_timeout_secs == 1200
                        &&& n.connect_outbound_interval_secs == 15
                        &&& !n.upnp && !n.discovery_local_address && !n.bootnode_mode
                        &&& !n.reuse_port_on_linux && !n.reuse_tcp_with_ws
                        &&& n.support_protocols@ == supported_protocols()
                    },
                },
            },
    {
        match parse_addresses(&self.bootnodes, "bootnode") {
            Err(e) => {
                return Err(e);
            },
            Ok(()) => {},
        }
        match parse_addresses(&self.preferred_peers, "preferred peer") {
            Err(e) => {
                return Err(e);
            },
            Ok(()) => {},
        }
        let protocols = vec![
            SupportedProtocol::Identify,
            SupportedProtocol::Ping,
            SupportedProtocol::Discovery,
            SupportedProtocol::Feeler,
            SupportedProtocol::DisconnectMessage,
        ];
        proof {
            assert(protocols@ =~= supported_protocols());
        }
        Ok(
            NetworkSettings {
                path: self.network_path.clone(),
                bootnodes: self.bootnodes.clone(),
                whitelist_only: false,
                whitelist_peers: self.preferred_peers.clone(),
                max_peers: MAX_OUTBOUND_PEERS,
                max_outbound_peers: MAX_OUTBOUND_PEERS,
                ping_interval_secs: 120,
                ping_timeout_secs: 1200,
                connect_outbound_interval_secs: 15,
                upnp: false,
                discovery_local_address: false,
                bootnode_mode: false,
                reuse_port_on_linux: false,
                reuse_tcp_with_ws: false,
                support_protocols: protocols,
            },
        )
    }
}

} // verus!
