//! The wallet a CKB history discovery looks for, named by exactly one of its
//! lock args, its public key or its address; and the peer identities and
//! transports a connection request names.
use vstd::prelude::*;

use crate::ckb_encoding::{
    blake2b_256, ckb_blake2b_256, hex_decodable, hex_decode, hex_decode_error, hex_decoded,
    hex_encode, hex_text, molecule_script, pack_script,
};
use crate::ckb_script::{
    chain_network, ckb_address_network, hash_type_byte, hash_type_from_byte, valid_hash_type_byte,
    CkbNetwork, Script, ScriptHashType,
};
use crate::ffi_params::{optional_text, CText};
use crate::ffi_types::{ffi_error, sanitized, FfiError, FiberFfiStatus};
use crate::light_client::config::{check_multiaddr, multiaddr_parse_error};
use crate::native::{ConnectPeerOptions, Pubkey, TransportType};
use crate::text::{
    ascii_lowercase, chars_of, decimal, owned, push_decimal, push_str, seq_starts_with, starts_with,
    str_eq, string_from_chars, to_ascii_lowercase, trim, trimmed,
};

verus! {

/// The compressed serialization of the public key that `bytes` encode, if
/// they encode one (`secp256k1::PublicKey::from_slice`, then `serialize`).
pub uninterp spec fn secp256k1_compressed_key(bytes: Seq<u8>) -> Option<Seq<u8>>;

/// Parses a secp256k1 public key with `PublicKey::from_slice` and returns
/// its compressed serialization; only 33- and 65-byte encodings can parse.
/// A failed parse reports secp256k1's `InvalidPublicKey`, whose text is
/// "malformed public key".
#[verifier::external_body]
fn compressed_public_key(bytes: &Vec<u8>) -> (r: Result<Vec<u8>, String>)
    ensures
        match r {
            Err(e) => secp256k1_compressed_key(bytes@) is None && e@ == "malformed public key"@,
            Ok(k) => secp256k1_compressed_key(bytes@) == Some(k@) && k@.len() == 33,
        },
        bytes@.len() != 33 && bytes@.len() != 65 ==> r is Err,
{
    secp256k1::PublicKey::from_slice(bytes.as_slice())
        .map(|key| key.serialize().to_vec())
        .map_err(|err| err.to_string())
}

/// The bytes of a 20-byte hash read with `ckb_types::H160::from_slice`,
/// which refuses any other length with the text "Invalid length: " and the
/// length.
#[verifier::external_body]
fn h160_bytes(bytes: &Vec<u8>) -> (r: Result<Vec<u8>, String>)
    ensures
        match r {
            Ok(h) => bytes@.len() == 20 && h@ == bytes@,
            Err(e) => bytes@.len() != 20 && e@ == "Invalid length: "@ + decimal(bytes@.len()),
        },
{
    ckb_types::H160::from_slice(bytes.as_slice()).map(|hash| hash.as_bytes().to_vec()).map_err(|err| err.to_string())
}

/// The code hash of the default secp256k1/blake160 sighash lock
/// (`ckb_sdk::constants::SIGHASH_TYPE_HASH`).
pub open spec fn sighash_type_hash() -> Seq<u8> {
    seq![
        0x9b, 0xd7, 0xe0, 0x6f, 0x3e, 0xcf, 0x4b, 0xe0, 0xf2, 0xfc, 0xd2, 0x18, 0x8b, 0x23, 0xf1,
        0xb9, 0xfc, 0xc8, 0x8e, 0x5d, 0x4b, 0x65, 0xa8, 0x63, 0x7b, 0x17, 0x72, 0x3b, 0xbd, 0xa3,
        0xcc, 0xe8,
    ]
}

/// The lock of a public key hash: the sighash lock by type, with the hash
/// as args.
pub open spec fn sighash_lock(hash: Seq<u8>) -> (Seq<u8>, ScriptHashType, Seq<u8>) {
    (sighash_type_hash(), ScriptHashType::Type, hash)
}

/// The lock script of `AddressPayload::from_pubkey_hash(hash)`, as ckb-sdk
/// turns the payload into a script: the sighash code hash, hash type byte 1
/// (by type), and the hash as args.
#[verifier::external_body]
fn sighash_lock_script(hash: &Vec<u8>) -> (r: (Vec<u8>, u8, Vec<u8>))
    requires
        hash@.len() == 20,
    ensures
        r.0@ == sighash_type_hash(),
        r.1 == 1,
        r.2@ == hash@,
{
    let mut bytes = [0u8; 20];
    bytes.copy_from_slice(hash.as_slice());
    let payload = ckb_sdk::AddressPayload::from_pubkey_hash(ckb_types::H160(bytes));
    let script: ckb_types::packed::Script = (&payload).into();
    (
        script.code_hash().raw_data().to_vec(),
        u8::from(script.hash_type()),
        script.args().raw_data().to_vec(),
    )
}

/// The script of the sighash lock for `hash`.
fn sighash_lock_of(hash: &Vec<u8>) -> (r: Script)
    requires
        hash@.len() == 20,
    ensures
        (r.code_hash@, r.hash_type, r.args@) == sighash_lock(hash@),
{
    let (code_hash, _, args) = sighash_lock_script(hash);
    Script { code_hash, hash_type: ScriptHashType::Type, args }
}

/// What parsing `text` as a CKB address gives (`ckb_sdk::Address`'s
/// `FromStr`): the error text, no script for a short anyone-can-pay address
/// (whose code hash depends on the network), or the payload's lock script as
/// code hash, hash type byte and args.
pub uninterp spec fn ckb_address_lock(text: Seq<char>) -> Result<
    Option<(Seq<u8>, u8, Seq<u8>)>,
    Seq<char>,
>;

/// What `bech32::decode` gives for `text`: its lower-case human-readable
/// part and its 5-bit data values, or nothing when `text` is no bech32 or
/// bech32m string.
pub uninterp spec fn bech32_decoded(text: Seq<char>) -> Option<(Seq<char>, Seq<u8>)>;

/// Decodes a bech32 or bech32m string into its human-readable part and its
/// 5-bit values (`bech32::decode`; the variant is dropped).
#[verifier::external_body]
fn bech32_decode(text: &str) -> (r: Option<(String, Vec<u8>)>)
    ensures
        match r {
            Some((h, d)) => bech32_decoded(text@) == Some((h@, d@)) && forall|i: int|
                0 <= i < d@.len() ==> #[trigger] d@[i] < 32,
            None => bech32_decoded(text@) is None,
        },
{
    match bech32::decode(text) {
        Ok((hrp, data, _)) => Some((hrp, data.iter().map(|v| v.to_u8()).collect())),
        Err(_) => None,
    }
}

/// What `bech32::convert_bits(data, 5, 8, false)` gives: the bytes the 5-bit
/// groups spell, or nothing when the groups leave non-zero or overlong
/// padding.
pub uninterp spec fn bech32_regrouped(data: Seq<u8>) -> Option<Seq<u8>>;

/// Regroups 5-bit values into bytes without padding
/// (`bech32::convert_bits(data, 5, 8, false)`).
#[verifier::external_body]
fn regroup_bits(data: &Vec<u8>) -> (r: Option<Vec<u8>>)
    ensures
        match r {
            Some(b) => bech32_regrouped(data@) == Some(b@),
            None => bech32_regrouped(data@) is None,
        },
{
    bech32::convert_bits(data.as_slice(), 5, 8, false).ok()
}

/// Whether a human-readable part names a CKB network
/// (`ckb_sdk::NetworkType::from_prefix`: `ckb` or `ckt`).
pub open spec fn is_ckb_address_prefix(hrp: Seq<char>) -> bool {
    hrp == "ckb"@ || hrp == "ckt"@
}

/// Whether `ckb_sdk::Address`'s `FromStr` would stop without an answer on
/// `text`: it decodes as bech32 with a CKB prefix, but its 5-bit data do not
/// regroup into bytes, or regroup into no bytes at all.
pub open spec fn address_parse_aborts(text: Seq<char>) -> bool {
    match bech32_decoded(text) {
        None => false,
        Some((hrp, data)) => is_ckb_address_prefix(hrp) && match bech32_regrouped(data) {
            None => true,
            Some(b) => b.len() == 0,
        },
    }
}

/// Whether an address can be handed to the address parser, which answers
/// every text but those of `address_parse_aborts`.
fn address_is_parseable(text: &str) -> (r: bool)
    ensures
        r == !address_parse_aborts(text@),
{
    match bech32_decode(text) {
        None => true,
        Some((hrp, data)) => {
            if !(str_eq(hrp.as_str(), "ckb") || str_eq(hrp.as_str(), "ckt")) {
                true
            } else {
                match regroup_bits(&data) {
                    None => false,
                    Some(b) => b.len() > 0,
                }
            }
        },
    }
}

/// Parses a CKB address and returns the lock script of its payload.
#[verifier::external_body]
fn parse_ckb_address(text: &str) -> (r: Result<Option<(Vec<u8>, u8, Vec<u8>)>, String>)
    requires
        !address_parse_aborts(text@),
    ensures
        match r {
            Err(e) => ckb_address_lock(text@) == Err::<Option<(Seq<u8>, u8, Seq<u8>)>, Seq<char>>(
                e@,
            ),
            Ok(None) => ckb_address_lock(text@) == Ok::<
                Option<(Seq<u8>, u8, Seq<u8>)>,
                Seq<char>,
            >(None),
            Ok(Some((c, h, a))) => ckb_address_lock(text@) == Ok::<
                Option<(Seq<u8>, u8, Seq<u8>)>,
                Seq<char>,
            >(Some((c@, h, a@))) && c@.len() == 32 && valid_hash_type_byte(h),
        },
{
    let address = text.parse::<ckb_sdk::Address>()?;
    let script: ckb_types::packed::Script = match address.payload() {
        ckb_sdk::AddressPayload::Short { index: ckb_sdk::CodeHashIndex::Acp, .. } => return Ok(None),
        payload => payload.into(),
    };
    let code_hash = script.code_hash().raw_data().to_vec();
    Ok(Some((code_hash, u8::from(script.hash_type()), script.args().raw_data().to_vec())))
}

/// `value` without a leading `0x`.
pub open spec fn without_hex_prefix(value: Seq<char>) -> Seq<char> {
    if seq_starts_with(value, seq!['0', 'x']) {
        value.skip(2)
    } else {
        value
    }
}

/// Removes a leading `0x`.
pub fn strip_hex_prefix(value: &str) -> (r: String)
    ensures
        r@ == without_hex_prefix(value@),
{
    let v = chars_of(value);
    let prefix: Vec<char> = vec!['0', 'x'];
    if starts_with(&v, &prefix) {
        let mut rest: Vec<char> = Vec::new();
        let mut k: usize = 2;
        while k < v.len()
            invariant
                2 <= k <= v.len(),
                rest@ == v@.subrange(2, k as int),
            decreases v.len() - k,
        {
            rest.push(v[k]);
            proof {
                assert(v@.subrange(2, k + 1) =~= v@.subrange(2, k as int).push(v@[k as int]));
            }
            k = k + 1;
        }
        proof {
            assert(v@.subrange(2, v.len() as int) =~= v@.skip(2));
        }
        string_from_chars(&rest)
    } else {
        owned(value)
    }
}

/// An error of the discovery options, as a status and its message.
pub open spec fn invalid(message: Seq<char>) -> (FiberFfiStatus, Seq<char>) {
    (FiberFfiStatus::InvalidArgument, sanitized(message))
}

/// The wallet lock named by lock args: hexadecimal (an optional `0x`) of
/// exactly 20 bytes.
pub open spec fn lock_from_lock_args(v: Seq<char>) -> Result<
    (Seq<u8>, ScriptHashType, Seq<u8>),
    (FiberFfiStatus, Seq<char>),
> {
    let d = without_hex_prefix(v);
    if !hex_decodable(d) {
        Err(invalid("invalid lock_args hex: "@ + hex_decode_error(d)))
    } else if hex_decoded(d).len() != 20 {
        Err(
            invalid(
                "lock_args must be exactly 20 bytes: "@ + ("Invalid length: "@ + decimal(
                    hex_decoded(d).len(),
                )),
            ),
        )
    } else {
        Ok(sighash_lock(hex_decoded(d)))
    }
}

/// The wallet lock named by a public key: hexadecimal (an optional `0x`)
/// of a secp256k1 key, locked by the first 20 bytes of the CKB hash of its
/// compressed form.
pub open spec fn lock_from_pubkey(v: Seq<char>) -> Result<
    (Seq<u8>, ScriptHashType, Seq<u8>),
    (FiberFfiStatus, Seq<char>),
> {
    let d = without_hex_prefix(v);
    if !hex_decodable(d) {
        Err(invalid("invalid CKB pubkey hex: "@ + hex_decode_error(d)))
    } else {
        match secp256k1_compressed_key(hex_decoded(d)) {
            None => Err(invalid("invalid CKB secp256k1 pubkey: "@ + "malformed public key"@)),
            Some(k) => Ok(sighash_lock(ckb_blake2b_256(k).take(20))),
        }
    }
}

/// The wallet lock named by a CKB address. A short anyone-can-pay address
/// makes the payload conversion panic, which the C boundary reports as a
/// panic.
pub open spec fn lock_from_address(v: Seq<char>) -> Result<
    (Seq<u8>, ScriptHashType, Seq<u8>),
    (FiberFfiStatus, Seq<char>),
> {
    if address_parse_aborts(v) {
        Err((FiberFfiStatus::Panic, "fiber ffi call panicked"@))
    } else {
        match ckb_address_lock(v) {
        Err(e) => Err(invalid("invalid CKB address: "@ + e)),
        Ok(None) => Err((FiberFfiStatus::Panic, "fiber ffi call panicked"@)),
        Ok(Some((c, h, a))) => Ok((c, hash_type_from_byte(h), a)),
        }
    }
}

/// A supplied identity: given and not blank.
pub open spec fn supplied(source: CText) -> Option<Seq<char>> {
    match source {
        CText::Text(t) => if trimmed(t@).len() > 0 {
            Some(t@)
        } else {
            None
        },
        _ => None,
    }
}

/// The first identity field that is not valid UTF-8, in the order lock
/// args, public key, address.
pub open spec fn identity_text_error(
    lock_args: CText,
    pubkey: CText,
    address: CText,
) -> Option<(FiberFfiStatus, Seq<char>)> {
    match lock_args {
        CText::NotUtf8(e) => Some(invalid(e@)),
        _ => match pubkey {
            CText::NotUtf8(e) => Some(invalid(e@)),
            _ => match address {
                CText::NotUtf8(e) => Some(invalid(e@)),
                _ => None,
            },
        },
    }
}

/// The funding lock the discovery options name: exactly one of lock args,
/// public key and address must be supplied.
pub open spec fn discovery_funding_lock(lock_args: CText, pubkey: CText, address: CText) -> Result<
    (Seq<u8>, ScriptHashType, Seq<u8>),
    (FiberFfiStatus, Seq<char>),
> {
    if identity_text_error(lock_args, pubkey, address) is Some {
        Err(identity_text_error(lock_args, pubkey, address)->0)
    } else {
        let count = (if supplied(lock_args) is Some { 1int } else { 0int }) + (if supplied(
            pubkey,
        ) is Some {
            1int
        } else {
            0int
        }) + (if supplied(address) is Some {
            1int
        } else {
            0int
        });
        if count != 1 {
            Err(invalid("exactly one of lock_args, pubkey, and address must be supplied"@))
        } else if supplied(lock_args) is Some {
            lock_from_lock_args(supplied(lock_args)->0)
        } else if supplied(pubkey) is Some {
            lock_from_pubkey(supplied(pubkey)->0)
        } else {
            lock_from_address(supplied(address)->0)
        }
    }
}

/// Reads an optional identity field: text that is not blank.
fn supplied_text(source: &CText) -> (r: Result<Option<String>, FfiError>)
    ensures
        match *source {
            CText::NotUtf8(e) => r matches Err(x) && (x.status, x.message@) == invalid(e@),
            _ => match supplied(*source) {
                None => r matches Ok(None),
                Some(t) => r matches Ok(Some(s)) && s@ == t,
            },
        },
{
    match source {
        CText::Null => Ok(None),
        CText::NotUtf8(e) => Err(ffi_error(FiberFfiStatus::InvalidArgument, e.as_str())),
        CText::Text(t) => {
            if trim(&chars_of(t.as_str())).len() == 0 {
                Ok(None)
            } else {
                Ok(Some(t.clone()))
            }
        },
    }
}

fn lock_args_lock(value: &str) -> (r: Result<Script, FfiError>)
    ensures
        match lock_from_lock_args(value@) {
            Ok(l) => r matches Ok(s) && (s.code_hash@, s.hash_type, s.args@) == l,
            Err((status, m)) => r matches Err(e) && e.status == status && e.message@ == m,
        },
{
    let digits = strip_hex_prefix(value);
    let bytes = match hex_decode(digits.as_str()) {
        Ok(b) => b,
        Err(err) => {
            let mut m = owned("invalid lock_args hex: ");
            push_str(&mut m, err.as_str());
            return Err(ffi_error(FiberFfiStatus::InvalidArgument, m.as_str()));
        },
    };
    match h160_bytes(&bytes) {
        Ok(hash) => Ok(sighash_lock_of(&hash)),
        Err(err) => {
            let mut m = owned("lock_args must be exactly 20 bytes: ");
            push_str(&mut m, err.as_str());
            Err(ffi_error(FiberFfiStatus::InvalidArgument, m.as_str()))
        },
    }
}

fn pubkey_lock(value: &str) -> (r: Result<Script, FfiError>)
    ensures
        match lock_from_pubkey(value@) {
            Ok(l) => r matches Ok(s) && (s.code_hash@, s.hash_type, s.args@) == l,
            Err((status, m)) => r matches Err(e) && e.status == status && e.message@ == m,
        },
{
    let digits = strip_hex_prefix(value);
    let bytes = match hex_decode(digits.as_str()) {
        Ok(b) => b,
        Err(err) => {
            let mut m = owned("invalid CKB pubkey hex: ");
            push_str(&mut m, err.as_str());
            return Err(ffi_error(FiberFfiStatus::InvalidArgument, m.as_str()));
        },
    };
    let key = match compressed_public_key(&bytes) {
        Ok(k) => k,
        Err(err) => {
            let mut m = owned("invalid CKB secp256k1 pubkey: ");
            push_str(&mut m, err.as_str());
            return Err(ffi_error(FiberFfiStatus::InvalidArgument, m.as_str()));
        },
    };
    let hash = blake2b_256(&key);
    let mut short: Vec<u8> = Vec::new();
    let mut k: usize = 0;
    while k < 20
        invariant
            k <= 20,
            hash@.len() == 32,
            short@ == hash@.take(k as int),
        decreases 20 - k,
    {
        short.push(hash[k]);
        proof {
            assert(hash@.take(k + 1) =~= hash@.take(k as int).push(hash@[k as int]));
        }
        k = k + 1;
    }
    Ok(sighash_lock_of(&short))
}

fn address_lock(value: &str) -> (r: Result<Script, FfiError>)
    ensures
        match lock_from_address(value@) {
            Ok(l) => r matches Ok(s) && (s.code_hash@, s.hash_type, s.args@) == l,
            Err((status, m)) => r matches Err(e) && e.status == status && e.message@ == m,
        },
{
    if !address_is_parseable(value) {
        return Err(FfiError { status: FiberFfiStatus::Panic, message: owned("fiber ffi call panicked") });
    }
    match parse_ckb_address(value) {
        Err(err) => {
            let mut m = owned("invalid CKB address: ");
            push_str(&mut m, err.as_str());
            Err(ffi_error(FiberFfiStatus::InvalidArgument, m.as_str()))
        },
        Ok(None) => Err(FfiError { status: FiberFfiStatus::Panic, message: owned("fiber ffi call panicked") }),
        Ok(Some((code_hash, hash_type, args))) => {
            let t = match ScriptHashType::from_byte(hash_type) {
                Some(t) => t,
                None => ScriptHashType::Data,
            };
            Ok(Script { code_hash, hash_type: t, args })
        },
    }
}

/// The funding lock whose history a discovery scans, from the discovery
/// options' identity fields.
pub fn funding_lock_from_discovery_options(lock_args: &CText, pubkey: &CText, address: &CText) -> (r:
    Result<Script, FfiError>)
    ensures
        match discovery_funding_lock(*lock_args, *pubkey, *address) {
            Ok(l) => r matches Ok(s) && (s.code_hash@, s.hash_type, s.args@) == l,
            Err((status, m)) => r matches Err(e) && e.status == status && e.message@ == m,
        },
{
    let lock_args = match supplied_text(lock_args) {
        Ok(v) => v,
        Err(e) => {
            return Err(e);
        },
    };
    let pubkey = match supplied_text(pubkey) {
        Ok(v) => v,
        Err(e) => {
            return Err(e);
        },
    };
    let address = match supplied_text(address) {
        Ok(v) => v,
        Err(e) => {
            return Err(e);
        },
    };
    let count: u8 = (if lock_args.is_some() { 1 } else { 0 }) + (if pubkey.is_some() { 1 } else { 0 })
        + (if address.is_some() { 1 } else { 0 });
    if count != 1 {
        return Err(
            ffi_error(
                FiberFfiStatus::InvalidArgument,
                "exactly one of lock_args, pubkey, and address must be supplied",
            ),
        );
    }
    match lock_args {
        Some(v) => lock_args_lock(v.as_str()),
        None => match pubkey {
            Some(v) => pubkey_lock(v.as_str()),
            None => match address {
                Some(v) => address_lock(v.as_str()),
                None => Err(
                    ffi_error(
                        FiberFfiStatus::InvalidArgument,
                        "exactly one of lock_args, pubkey, and address must be supplied",
                    ),
                ),
            },
        },
    }
}

/// A Fiber node key from text: hexadecimal (an optional `0x`) of a
/// 33-byte compressed secp256k1 key.
pub open spec fn node_pubkey(v: Seq<char>) -> Result<Seq<u8>, (FiberFfiStatus, Seq<char>)> {
    let d = without_hex_prefix(v);
    if !hex_decodable(d) {
        Err(invalid("invalid pubkey hex: "@ + hex_decode_error(d)))
    } else if hex_decoded(d).len() != 33 {
        Err(invalid("pubkey must be 33 bytes compressed secp256k1 key"@))
    } else if secp256k1_compressed_key(hex_decoded(d)) is None {
        Err(invalid("invalid pubkey: "@ + "malformed public key"@))
    } else {
        Ok(hex_decoded(d))
    }
}

/// Parses a Fiber node key.
pub fn parse_pubkey(value: &str) -> (r: Result<Pubkey, FfiError>)
    ensures
        match node_pubkey(value@) {
            Ok(b) => r matches Ok(p) && p.bytes@ == b,
            Err((status, m)) => r matches Err(e) && e.status == status && e.message@ == m,
        },
{
    let digits = strip_hex_prefix(value);
    let bytes = match hex_decode(digits.as_str()) {
        Ok(b) => b,
        Err(err) => {
            let mut m = owned("invalid pubkey hex: ");
            push_str(&mut m, err.as_str());
            return Err(ffi_error(FiberFfiStatus::InvalidArgument, m.as_str()));
        },
    };
    if bytes.len() != 33 {
        return Err(
            ffi_error(
                FiberFfiStatus::InvalidArgument,
                "pubkey must be 33 bytes compressed secp256k1 key",
            ),
        );
    }
    if let Err(err) = compressed_public_key(&bytes) {
        let mut m = owned("invalid pubkey: ");
        push_str(&mut m, err.as_str());
        return Err(ffi_error(FiberFfiStatus::InvalidArgument, m.as_str()));
    }
    Ok(Pubkey { bytes })
}

/// The transport a connection's address type names, ignoring case; blank
/// or absent leaves it to the node.
pub open spec fn address_type_named(value: Option<Seq<char>>) -> Result<
    Option<TransportType>,
    (FiberFfiStatus, Seq<char>),
> {
    match value {
        None => Ok(None),
        Some(v) => {
            let l = ascii_lowercase(v);
            if l == ""@ {
                Ok(None)
            } else if l == "tcp"@ {
                Ok(Some(TransportType::Tcp))
            } else if l == "ws"@ {
                Ok(Some(TransportType::Ws))
            } else if l == "wss"@ {
                Ok(Some(TransportType::Wss))
            } else {
                Err(invalid("addr_type must be tcp, ws, or wss"@))
            }
        },
    }
}

/// Reads the address type of a connection request.
pub fn parse_addr_type(value: Option<&str>) -> (r: Result<Option<TransportType>, FfiError>)
    ensures
        match address_type_named(
            match value {
                Some(v) => Some(v@),
                None => None,
            },
        ) {
            Ok(t) => r matches Ok(u) && u == t,
            Err((status, m)) => r matches Err(e) && e.status == status && e.message@ == m,
        },
{
    let v = match value {
        None => {
            return Ok(None);
        },
        Some(v) => v,
    };
    let lower = string_from_chars(&to_ascii_lowercase(&chars_of(v)));
    if str_eq(lower.as_str(), "") {
        Ok(None)
    } else if str_eq(lower.as_str(), "tcp") {
        Ok(Some(TransportType::Tcp))
    } else if str_eq(lower.as_str(), "ws") {
        Ok(Some(TransportType::Ws))
    } else if str_eq(lower.as_str(), "wss") {
        Ok(Some(TransportType::Wss))
    } else {
        Err(ffi_error(FiberFfiStatus::InvalidArgument, "addr_type must be tcp, ws, or wss"))
    }
}

/// What deriving the public key of a secret key gives: the compressed
/// public key, or the error text when the bytes are no secret key
/// (`secp256k1::SecretKey::from_slice`, then `public_key` and `serialize`).
pub uninterp spec fn secp256k1_public_key_of(secret: Seq<u8>) -> Result<Seq<u8>, Seq<char>>;

/// The compressed public key of a secp256k1 secret key.
#[verifier::external_body]
pub(crate) fn public_key_of_secret(secret: &Vec<u8>) -> (r: Result<Vec<u8>, String>)
    ensures
        match r {
            Ok(k) => secp256k1_public_key_of(secret@) == Ok::<Seq<u8>, Seq<char>>(k@) && k@.len()
                == 33,
            Err(e) => secp256k1_public_key_of(secret@) == Err::<Seq<u8>, Seq<char>>(e@),
        },
{
    let secp = secp256k1::Secp256k1::signing_only();
    secp256k1::SecretKey::from_slice(secret.as_slice())
        .map(|key| key.public_key(&secp).serialize().to_vec())
        .map_err(|err| err.to_string())
}


/// The funding lock derived from the chain's genesis block: the sighash lock
/// referenced by type, whose code hash is the hash of the genesis secp256k1
/// type script, with the blake160 of the funding public key as args.
pub open spec fn genesis_funding_lock(type_script: Script, funding_secret_key: Seq<u8>) -> Result<
    (Seq<u8>, ScriptHashType, Seq<u8>),
    Seq<char>,
> {
    match secp256k1_public_key_of(funding_secret_key) {
        Err(e) => Err("failed to read the CKB funding key: "@ + e),
        Ok(pk) => Ok(
            (
                ckb_blake2b_256(
                    molecule_script(
                        type_script.code_hash@,
                        hash_type_byte(type_script.hash_type),
                        type_script.args@,
                    ),
                ),
                ScriptHashType::Type,
                ckb_blake2b_256(pk).take(20),
            ),
        ),
    }
}

/// The first `n` bytes of `v`.
fn prefix_bytes(v: &Vec<u8>, n: usize) -> (r: Vec<u8>)
    requires
        n <= v@.len(),
    ensures
        r@ == v@.take(n as int),
{
    let mut r: Vec<u8> = Vec::new();
    let mut i: usize = 0;
    while i < n
        invariant
            i <= n,
            n <= v@.len(),
            r@ == v@.take(i as int),
        decreases n - i,
    {
        r.push(v[i]);
        proof {
            assert(v@.take(i + 1) =~= v@.take(i as int).push(v@[i as int]));
        }
        i = i + 1;
    }
    r
}

/// Derives the funding lock of the key `funding_secret_key` from the
/// secp256k1 type script found in the genesis block.
pub fn funding_lock_from_type_script(type_script: &Script, funding_secret_key: &Vec<u8>) -> (r:
    Result<Script, String>)
    requires
        type_script.code_hash@.len() == 32,
        type_script.args@.len() + 53 <= u32::MAX,
    ensures
        match genesis_funding_lock(*type_script, funding_secret_key@) {
            Ok(l) => r matches Ok(s) && (s.code_hash@, s.hash_type, s.args@) == l
                && s.code_hash@.len() == 32,
            Err(m) => r matches Err(e) && e@ == m,
        },
{
    let public_key = match public_key_of_secret(funding_secret_key) {
        Ok(k) => k,
        Err(e) => {
            let mut m = owned("failed to read the CKB funding key: ");
            push_str(&mut m, e.as_str());
            return Err(m);
        },
    };
    let packed = pack_script(&type_script.code_hash, type_script.hash_type.to_byte(), &type_script.args);
    let code_hash = blake2b_256(&packed);
    let key_hash = blake2b_256(&public_key);
    let args = prefix_bytes(&key_hash, 20);
    Ok(Script { code_hash, hash_type: ScriptHashType::Type, args })
}


/// What `ckb_sdk::Address::new(network, payload, true).to_string()` gives
/// for the full-format payload of a lock with this code hash, hash type byte
/// and args: the CKB2021 (bech32m) full address of that network.
pub uninterp spec fn ckb_full_address_text(
    network: CkbNetwork,
    code_hash: Seq<u8>,
    hash_type: u8,
    args: Seq<u8>,
) -> Seq<char>;

/// Encodes a lock as a CKB2021 full address of `network`
/// (`ckb_sdk::AddressPayload::new_full`, then `Address::new(.., true)` and
/// `to_string`).
#[verifier::external_body]
fn encode_full_address(network: CkbNetwork, code_hash: &Vec<u8>, hash_type: u8, args: &Vec<u8>) -> (r:
    String)
    requires
        code_hash@.len() == 32,
        valid_hash_type_byte(hash_type),
    ensures
        r@ == ckb_full_address_text(network, code_hash@, hash_type, args@),
{
    let network = match network {
        CkbNetwork::Mainnet => ckb_sdk::NetworkType::Mainnet,
        CkbNetwork::Testnet => ckb_sdk::NetworkType::Testnet,
        CkbNetwork::Staging => ckb_sdk::NetworkType::Staging,
        CkbNetwork::Preview => ckb_sdk::NetworkType::Preview,
        CkbNetwork::Dev => ckb_sdk::NetworkType::Dev,
    };
    let hash_type = ckb_types::core::ScriptHashType::try_from(hash_type).unwrap();
    let mut hash = [0u8; 32];
    hash.copy_from_slice(code_hash);
    let payload = ckb_sdk::AddressPayload::new_full(hash_type, ckb_types::packed::Byte32::new(hash), args.clone().into());
    ckb_sdk::Address::new(network, payload, true).to_string()
}

/// Every hash type serializes as a valid hash type byte.
proof fn lemma_hash_type_byte_is_valid(t: ScriptHashType)
    ensures
        valid_hash_type_byte(hash_type_byte(t)),
{
    match t {
        ScriptHashType::DataN(n) => {
            assert(((n as nat * 2) % 256) % 2 == 0) by (nonlinear_arith);
        },
        _ => {},
    }
}

/// The address of `lock` on `network`.
pub open spec fn lock_address_text(network: CkbNetwork, lock: Script) -> Seq<char> {
    ckb_full_address_text(network, lock.code_hash@, hash_type_byte(lock.hash_type), lock.args@)
}

/// The CKB2021 full address of a lock script on `network`.
pub fn lock_address(network: CkbNetwork, lock: &Script) -> (r: String)
    requires
        lock.code_hash@.len() == 32,
    ensures
        r@ == lock_address_text(network, *lock),
{
    proof {
        lemma_hash_type_byte_is_valid(lock.hash_type);
    }
    encode_full_address(network, &lock.code_hash, lock.hash_type.to_byte(), &lock.args)
}

/// How a lock's args are shown: `0x` and their lower-case hexadecimal.
pub open spec fn lock_args_text(args: Seq<u8>) -> Seq<char> {
    "0x"@ + hex_text(args)
}

/// The args of `lock` as `0x`-prefixed lower-case hexadecimal.
pub fn lock_args_hex(lock: &Script) -> (r: String)
    ensures
        r@ == lock_args_text(lock.args@),
{
    let mut r = owned("0x");
    let digits = hex_encode(&lock.args);
    push_str(&mut r, digits.as_str());
    r
}

/// The configured funding address: the address, on the network of `chain`,
/// of the funding lock derived from the genesis secp256k1 type script and
/// the funding key; or why that lock cannot be derived.
pub open spec fn funding_address(chain: Seq<char>, type_script: Script, funding_secret_key: Seq<u8>) -> Result<
    Seq<char>,
    Seq<char>,
> {
    match genesis_funding_lock(type_script, funding_secret_key) {
        Err(e) => Err(e),
        Ok(l) => Ok(ckb_full_address_text(chain_network(chain), l.0, hash_type_byte(l.1), l.2)),
    }
}

/// Derives the configured funding address of a Fiber `chain` from the
/// genesis secp256k1 type script and the funding secret key.
pub fn funding_address_of(chain: &str, type_script: &Script, funding_secret_key: &Vec<u8>) -> (r: Result<
    String,
    String,
>)
    requires
        type_script.code_hash@.len() == 32,
        type_script.args@.len() + 53 <= u32::MAX,
    ensures
        match funding_address(chain@, *type_script, funding_secret_key@) {
            Ok(a) => r matches Ok(t) && t@ == a,
            Err(e) => r matches Err(m) && m@ == e,
        },
{
    let lock = match funding_lock_from_type_script(type_script, funding_secret_key) {
        Ok(l) => l,
        Err(e) => {
            return Err(e);
        },
    };
    Ok(lock_address(ckb_address_network(chain), &lock))
}

/// An optional string field as read: absent, present, or the error for
/// bytes that are not UTF-8.
pub open spec fn optional_field(source: CText) -> Result<Option<Seq<char>>, (FiberFfiStatus, Seq<char>)> {
    match source {
        CText::Null => Ok(None),
        CText::Text(t) => Ok(Some(t@)),
        CText::NotUtf8(e) => Err(invalid(e@)),
    }
}

/// What a peer connection request names, as plain values: an address to
/// dial and whether to remember it, or a node key and an optional
/// transport.
pub enum ConnectTarget {
    Address(Seq<char>, bool),
    Pubkey(Seq<u8>, Option<TransportType>),
}

/// The view of a connection request.
pub open spec fn connect_target(o: ConnectPeerOptions) -> ConnectTarget {
    match o {
        ConnectPeerOptions::Address { address, save } => ConnectTarget::Address(address@, save),
        ConnectPeerOptions::Pubkey { pubkey, address_type } => ConnectTarget::Pubkey(
            pubkey.bytes@,
            address_type,
        ),
    }
}

/// The peer a connection request names: all three fields are read first;
/// an empty address or key is refused, exactly one of them must be set; an
/// address must parse as a multiaddr, a key as a node key, and the
/// transport must be known.
pub open spec fn connect_request(address: CText, pubkey: CText, addr_type: CText, save: i32) -> Result<
    ConnectTarget,
    (FiberFfiStatus, Seq<char>),
> {
    match optional_field(address) {
        Err(e) => Err(e),
        Ok(a) => match optional_field(pubkey) {
            Err(e) => Err(e),
            Ok(p) => match optional_field(addr_type) {
                Err(e) => Err(e),
                Ok(t) => if a == Some(Seq::<char>::empty()) {
                    Err(invalid("address must not be empty"@))
                } else if p == Some(Seq::<char>::empty()) {
                    Err(invalid("pubkey must not be empty"@))
                } else if a.is_some() == p.is_some() {
                    Err(invalid("exactly one of address or pubkey must be set"@))
                } else {
                    match a {
                        Some(av) => match multiaddr_parse_error(av) {
                            Some(e) => Err(invalid(e)),
                            None => Ok(ConnectTarget::Address(av, save != 0)),
                        },
                        None => match node_pubkey(p.unwrap()) {
                            Err(e) => Err(e),
                            Ok(k) => match address_type_named(t) {
                                Err(e) => Err(e),
                                Ok(ty) => Ok(ConnectTarget::Pubkey(k, ty)),
                            },
                        },
                    }
                },
            },
        },
    }
}

/// Reads a peer connection request from its C fields.
pub fn connect_peer_options(address: &CText, pubkey: &CText, addr_type: &CText, save: i32) -> (r:
    Result<ConnectPeerOptions, FfiError>)
    ensures
        match connect_request(*address, *pubkey, *addr_type, save) {
            Ok(t) => r matches Ok(o) && connect_target(o) == t,
            Err((status, m)) => r matches Err(e) && e.status == status && e.message@ == m,
        },
{
    let a = match optional_text(address) {
        Ok(v) => v,
        Err(e) => {
            return Err(e);
        },
    };
    let p = match optional_text(pubkey) {
        Ok(v) => v,
        Err(e) => {
            return Err(e);
        },
    };
    let t = match optional_text(addr_type) {
        Ok(v) => v,
        Err(e) => {
            return Err(e);
        },
    };
    let address_empty = match &a {
        Some(v) => chars_of(v.as_str()).len() == 0,
        None => false,
    };
    if address_empty {
        proof {
            assert(a.unwrap()@ =~= Seq::<char>::empty());
        }
        return Err(ffi_error(FiberFfiStatus::InvalidArgument, "address must not be empty"));
    }
    let pubkey_empty = match &p {
        Some(v) => chars_of(v.as_str()).len() == 0,
        None => false,
    };
    if pubkey_empty {
        proof {
            assert(p.unwrap()@ =~= Seq::<char>::empty());
        }
        return Err(ffi_error(FiberFfiStatus::InvalidArgument, "pubkey must not be empty"));
    }
    if a.is_some() == p.is_some() {
        return Err(ffi_error(FiberFfiStatus::InvalidArgument, "exactly one of address or pubkey must be set"));
    }
    match a {
        Some(av) => match check_multiaddr(av.as_str()) {
            Some(e) => Err(ffi_error(FiberFfiStatus::InvalidArgument, e.as_str())),
            None => Ok(ConnectPeerOptions::Address { address: av, save: save != 0 }),
        },
        None => {
            let pv = match p {
                Some(v) => v,
                None => {
                    return Err(
                        ffi_error(FiberFfiStatus::InvalidArgument, "exactly one of address or pubkey must be set"),
                    );
                },
            };
            let key = match parse_pubkey(pv.as_str()) {
                Ok(k) => k,
                Err(e) => {
                    return Err(e);
                },
            };
            let ty = match &t {
                Some(v) => parse_addr_type(Some(v.as_str())),
                None => parse_addr_type(None),
            };
            match ty {
                Ok(ty) => Ok(ConnectPeerOptions::Pubkey { pubkey: key, address_type: ty }),
                Err(e) => Err(e),
            }
        },
    }
}

} // verus!
