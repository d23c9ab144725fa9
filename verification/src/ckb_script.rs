//! The plain-value form of a CKB script, and the network an address names.
use vstd::prelude::*;

use crate::text::str_eq;

verus! {

/// How a script's code hash is matched against cell code: by the type
/// script hash, or by the data hash run in a given CKB VM version.
#[derive(Copy, Clone, Debug, PartialEq, Eq, Structural)]
pub enum ScriptHashType {
    Data,
    Type,
    Data1,
    Data2,
    /// Data hash run in CKB VM version `n` (3 to 127), serialized as `2n`.
    DataN(u8),
}

/// The byte CKB serializes for each hash type.
pub open spec fn hash_type_byte(t: ScriptHashType) -> u8 {
    match t {
        ScriptHashType::Data => 0,
        ScriptHashType::Type => 1,
        ScriptHashType::Data1 => 2,
        ScriptHashType::Data2 => 4,
        ScriptHashType::DataN(n) => ((n as nat * 2) % 256) as u8,
    }
}

/// A hash type CKB defines: a data version `DataN(n)` names VM version
/// `n` from 3 to 127 (lower versions have their own variants).
pub open spec fn valid_hash_type(t: ScriptHashType) -> bool {
    match t {
        ScriptHashType::DataN(n) => 3 <= n <= 127,
        _ => true,
    }
}

/// Distinct valid hash types serialize to distinct bytes.
pub proof fn lemma_hash_type_byte_injective(t: ScriptHashType, u: ScriptHashType)
    requires
        valid_hash_type(t),
        valid_hash_type(u),
        hash_type_byte(t) == hash_type_byte(u),
    ensures
        t == u,
{
    match t {
        ScriptHashType::DataN(n) => {
            assert((n as nat * 2) % 256 == n as nat * 2);
        },
        _ => {},
    }
    match u {
        ScriptHashType::DataN(m) => {
            assert((m as nat * 2) % 256 == m as nat * 2);
        },
        _ => {},
    }
}

/// Whether `b` is a hash type byte: type (1) or an even data version.
pub open spec fn valid_hash_type_byte(b: u8) -> bool {
    b == 1 || b % 2 == 0
}

/// The hash type that a valid hash type byte stands for.
pub open spec fn hash_type_from_byte(b: u8) -> ScriptHashType {
    if b == 0 {
        ScriptHashType::Data
    } else if b == 1 {
        ScriptHashType::Type
    } else if b == 2 {
        ScriptHashType::Data1
    } else if b == 4 {
        ScriptHashType::Data2
    } else {
        ScriptHashType::DataN(b / 2)
    }
}

impl ScriptHashType {
    /// The serialized byte of this hash type.
    pub fn to_byte(self) -> (b: u8)
        ensures
            b == hash_type_byte(self),
    {
        match self {
            ScriptHashType::Data => 0,
            ScriptHashType::Type => 1,
            ScriptHashType::Data1 => 2,
            ScriptHashType::Data2 => 4,
            ScriptHashType::DataN(n) => ((n as u16 * 2) % 256) as u8,
        }
    }

    /// The hash type serialized as `b`, if `b` is one.
    pub fn from_byte(b: u8) -> (t: Option<ScriptHashType>)
        ensures
            t matches Some(h) ==> hash_type_byte(h) == b,
            t is None <==> !valid_hash_type_byte(b),
            valid_hash_type_byte(b) ==> t == Some(hash_type_from_byte(b)),
    {
        if b == 0 {
            Some(ScriptHashType::Data)
        } else if b == 1 {
            Some(ScriptHashType::Type)
        } else if b == 2 {
            Some(ScriptHashType::Data1)
        } else if b == 4 {
            Some(ScriptHashType::Data2)
        } else if b % 2 == 0 {
            Some(ScriptHashType::DataN(b / 2))
        } else {
            None
        }
    }
}

/// A CKB script: code hash, hash type and arguments.
#[derive(Clone, Debug)]
pub struct Script {
    pub code_hash: Vec<u8>,
    pub hash_type: ScriptHashType,
    pub args: Vec<u8>,
}

/// The comparable contents of a script.
pub open spec fn script_view(s: Script) -> (Seq<u8>, ScriptHashType, Seq<u8>) {
    (s.code_hash@, s.hash_type, s.args@)
}

/// Whether two byte strings are equal.
pub fn bytes_eq(a: &Vec<u8>, b: &Vec<u8>) -> (r: bool)
    ensures
        r == (a@ == b@),
{
    if a.len() != b.len() {
        return false;
    }
    let mut i: usize = 0;
    while i < a.len()
        invariant
            a.len() == b.len(),
            i <= a.len(),
            forall|j: int| 0 <= j < i ==> a@[j] == b@[j],
        decreases a.len() - i,
    {
        if a[i] != b[i] {
            return false;
        }
        i = i + 1;
    }
    proof {
        assert(a@ =~= b@);
    }
    true
}

impl Script {
    /// A copy of this script.
    pub fn copy(&self) -> (r: Script)
        ensures
            script_view(r) == script_view(*self),
    {
        let code_hash = self.code_hash.clone();
        let args = self.args.clone();
        proof {
            assert(code_hash@ =~= self.code_hash@);
            assert(args@ =~= self.args@);
        }
        Script { code_hash, hash_type: self.hash_type, args }
    }

    /// Whether both scripts have the same code hash, hash type and args.
    pub fn same_as(&self, other: &Script) -> (r: bool)
        ensures
            r == (script_view(*self) == script_view(*other)),
    {
        bytes_eq(&self.code_hash, &other.code_hash) && self.hash_type == other.hash_type && bytes_eq(
            &self.args,
            &other.args,
        )
    }
}

/// The CKB network an address is encoded for.
#[derive(Copy, Clone, Debug, PartialEq, Eq, Structural)]
pub enum CkbNetwork {
    Mainnet,
    Testnet,
    Staging,
    Preview,
    Dev,
}

/// The address network of a Fiber chain name; unknown names and custom
/// chain specification paths are development chains.
pub open spec fn chain_network(chain: Seq<char>) -> CkbNetwork {
    if chain == "mainnet"@ || chain == "ckb"@ {
        CkbNetwork::Mainnet
    } else if chain == "testnet"@ || chain == "ckb_testnet"@ {
        CkbNetwork::Testnet
    } else if chain == "staging"@ || chain == "ckb_staging"@ {
        CkbNetwork::Staging
    } else if chain == "preview"@ || chain == "ckb_preview"@ {
        CkbNetwork::Preview
    } else {
        CkbNetwork::Dev
    }
}

/// The address network for a Fiber `chain` setting.
pub fn ckb_address_network(chain: &str) -> (n: CkbNetwork)
    ensures
        n == chain_network(chain@),
{
    if str_eq(chain, "mainnet") || str_eq(chain, "ckb") {
        CkbNetwork::Mainnet
    } else if str_eq(chain, "testnet") || str_eq(chain, "ckb_testnet") {
        CkbNetwork::Testnet
    } else if str_eq(chain, "staging") || str_eq(chain, "ckb_staging") {
        CkbNetwork::Staging
    } else if str_eq(chain, "preview") || str_eq(chain, "ckb_preview") {
        CkbNetwork::Preview
    } else {
        CkbNetwork::Dev
    }
}

} // verus!
