//! Values exchanged with the signer library: the arguments it is given for
//! transaction attributes, and what it hands back.

use vstd::prelude::*;

use crate::error::SdkError;
use crate::types::transact_opts::L2TxAttributes;

verus! {

/// A transaction signed by the signer library.
#[derive(Debug, Clone)]
pub struct SignedTx {
    pub tx_type: u8,
    pub tx_info: String,
    pub tx_hash: String,
    pub message_to_sign: Option<String>,
}

/// A freshly generated API key pair.
#[derive(Debug, Clone)]
pub struct GeneratedApiKey {
    pub private_key: String,
    pub public_key: String,
}

/// One order of a grouped-orders transaction, as the signer library takes it.
#[derive(Debug, Clone, Copy)]
pub struct FfiCreateOrderTxReq {
    pub market_index: u8,
    pub client_order_index: i64,
    pub base_amount: i64,
    pub price: u32,
    pub is_ask: u8,
    pub order_type: u8,
    pub time_in_force: u8,
    pub reduce_only: u8,
    pub trigger_price: u32,
    pub order_expiry: i64,
}

/// The integrator account index passed to the signer: zero when absent.
pub fn integrator_account_index(tx_attributes: &L2TxAttributes) -> (res: i64)
    ensures
        res == tx_attributes.integrator_account_index.unwrap_or(0),
{
    tx_attributes.integrator_account_index.unwrap_or(0)
}

/// The integrator taker fee passed to the signer: zero when absent, and
/// reinterpreted as a signed 32-bit integer.
pub fn integrator_taker_fee(tx_attributes: &L2TxAttributes) -> (res: i32)
    ensures
        res == tx_attributes.integrator_taker_fee.unwrap_or(0) as i32,
{
    tx_attributes.integrator_taker_fee.unwrap_or(0) as i32
}

/// The integrator maker fee passed to the signer: zero when absent, and
/// reinterpreted as a signed 32-bit integer.
pub fn integrator_maker_fee(tx_attributes: &L2TxAttributes) -> (res: i32)
    ensures
        res == tx_attributes.integrator_maker_fee.unwrap_or(0) as i32,
{
    tx_attributes.integrator_maker_fee.unwrap_or(0) as i32
}

/// The nonce-skip flag passed to the signer: zero when absent.
pub fn skip_nonce_flag(tx_attributes: &L2TxAttributes) -> (res: u8)
    ensures
        res == tx_attributes.skip_nonce.unwrap_or(0),
{
    tx_attributes.skip_nonce.unwrap_or(0)
}

/// What the signer library answered to a signing request, read as text: an
/// error text makes the answer an FFI error; otherwise the signed
/// transaction, with a missing info or hash read as empty.
pub fn signed_tx_from_parts(
    tx_type: u8,
    tx_info: Option<String>,
    tx_hash: Option<String>,
    message_to_sign: Option<String>,
    err: Option<String>,
) -> (res: Result<SignedTx, SdkError>)
    ensures
        err matches Some(e) ==> res == Err::<SignedTx, SdkError>(SdkError::Ffi(e)),
        err is None ==> (res matches Ok(t) && t.tx_type == tx_type && t.tx_info@ == (match tx_info {
            Some(s) => s@,
            None => Seq::<char>::empty(),
        }) && t.tx_hash@ == (match tx_hash {
            Some(s) => s@,
            None => Seq::<char>::empty(),
        }) && t.message_to_sign == message_to_sign),
{
    match err {
        Some(e) => Err(SdkError::Ffi(e)),
        None => {
            let info = match tx_info {
                Some(s) => s,
                None => String::new(),
            };
            let hash = match tx_hash {
                Some(s) => s,
                None => String::new(),
            };
            Ok(SignedTx { tx_type, tx_info: info, tx_hash: hash, message_to_sign })
        },
    }
}

/// What the signer library answered to a key generation, read as text: an
/// error text makes the answer an FFI error; a missing key reads as empty.
pub fn generated_api_key_from_parts(
    private_key: Option<String>,
    public_key: Option<String>,
    err: Option<String>,
) -> (res: Result<GeneratedApiKey, SdkError>)
    ensures
        err matches Some(e) ==> res == Err::<GeneratedApiKey, SdkError>(SdkError::Ffi(e)),
        err is None ==> (res matches Ok(k) && k.private_key@ == (match private_key {
            Some(s) => s@,
            None => Seq::<char>::empty(),
        }) && k.public_key@ == (match public_key {
            Some(s) => s@,
            None => Seq::<char>::empty(),
        })),
{
    match err {
        Some(e) => Err(SdkError::Ffi(e)),
        None => {
            let private_key = match private_key {
                Some(s) => s,
                None => String::new(),
            };
            let public_key = match public_key {
                Some(s) => s,
                None => String::new(),
            };
            Ok(GeneratedApiKey { private_key, public_key })
        },
    }
}

// ---------------------------------------------------------------------------
// Where the signer library is looked for
// ---------------------------------------------------------------------------

/// A place to look for the signer library, as the segments of a path to join.
pub type SignerPath = Vec<String>;

/// The segments of a path, as text.
pub open spec fn path_text(p: SignerPath) -> Seq<Seq<char>> {
    p@.map_values(|s: String| s@)
}

/// The texts of a list of paths.
pub open spec fn paths_text(ps: Seq<SignerPath>) -> Seq<Seq<Seq<char>>> {
    ps.map_values(|p: SignerPath| path_text(p))
}

/// Where a path the user gave leads: into the directory it names, to the
/// library file there, or else to the path itself.
pub open spec fn given_path(path: Seq<char>, is_dir: bool, filename: Seq<char>) -> Seq<Seq<char>> {
    if is_dir {
        seq![path, filename]
    } else {
        seq![path]
    }
}

/// The places the signer library is looked for, in order: the configured
/// path, the path in `LIGHTER_SIGNER_LIB_PATH`, next to the executable and
/// in `signers/` there, then the current directory and its `signers/`.
pub open spec fn signer_search_paths(
    configured: Option<(Seq<char>, bool)>,
    from_env: Option<(Seq<char>, bool)>,
    exe_dir: Option<Seq<char>>,
    filename: Seq<char>,
) -> Seq<Seq<Seq<char>>> {
    (match configured {
        Some((p, d)) => seq![given_path(p, d, filename)],
        None => Seq::empty(),
    }) + (match from_env {
        Some((p, d)) => seq![given_path(p, d, filename)],
        None => Seq::empty(),
    }) + (match exe_dir {
        Some(dir) => seq![seq![dir, filename], seq![dir, "signers"@, filename]],
        None => Seq::empty(),
    }) + seq![seq![filename], seq!["signers"@, filename]]
}

/// Add the place a user-given path leads to; see [`given_path`].
pub fn push_path(paths: &mut Vec<SignerPath>, configured: &str, is_dir: bool, filename: &str)
    ensures
        paths_text(final(paths)@) == paths_text(old(paths)@).push(
            given_path(configured@, is_dir, filename@),
        ),
{
    let mut p: SignerPath = Vec::new();
    p.push(configured.to_string());
    if is_dir {
        p.push(filename.to_string());
    }
    proof {
        assert(path_text(p) =~= given_path(configured@, is_dir, filename@));
    }
    let ghost before = paths@;
    paths.push(p);
    proof {
        assert(paths_text(paths@) =~= paths_text(before).push(path_text(p)));
    }
}

fn segments2(a: &str, b: &str) -> (res: SignerPath)
    ensures
        path_text(res) == seq![a@, b@],
{
    let mut p: SignerPath = Vec::new();
    p.push(a.to_string());
    p.push(b.to_string());
    proof {
        assert(path_text(p) =~= seq![a@, b@]);
    }
    p
}

fn segments3(a: &str, b: &str, c: &str) -> (res: SignerPath)
    ensures
        path_text(res) == seq![a@, b@, c@],
{
    let mut p: SignerPath = Vec::new();
    p.push(a.to_string());
    p.push(b.to_string());
    p.push(c.to_string());
    proof {
        assert(path_text(p) =~= seq![a@, b@, c@]);
    }
    p
}

/// The places the signer library is looked for; see [`signer_search_paths`].
/// Each given path comes with whether it names a directory.
pub fn search_paths(
    configured: Option<(&str, bool)>,
    from_env: Option<(&str, bool)>,
    exe_dir: Option<&str>,
    filename: &str,
) -> (res: Vec<SignerPath>)
    ensures
        paths_text(res@) == signer_search_paths(
            match configured {
                Some((p, d)) => Some((p@, d)),
                None => None,
            },
            match from_env {
                Some((p, d)) => Some((p@, d)),
                None => None,
            },
            match exe_dir {
                Some(d) => Some(d@),
                None => None,
            },
            filename@,
        ),
{
    let ghost cfg_part: Seq<Seq<Seq<char>>> = match configured {
        Some((p, d)) => seq![given_path(p@, d, filename@)],
        None => Seq::empty(),
    };
    let ghost env_part: Seq<Seq<Seq<char>>> = match from_env {
        Some((p, d)) => seq![given_path(p@, d, filename@)],
        None => Seq::empty(),
    };
    let ghost exe_part: Seq<Seq<Seq<char>>> = match exe_dir {
        Some(dir) => seq![seq![dir@, filename@], seq![dir@, "signers"@, filename@]],
        None => Seq::empty(),
    };
    let mut paths: Vec<SignerPath> = Vec::new();
    proof {
        assert(paths_text(paths@) =~= Seq::<Seq<Seq<char>>>::empty());
    }
    if let Some((p, is_dir)) = configured {
        push_path(&mut paths, p, is_dir, filename);
    }
    proof {
        assert(paths_text(paths@) =~= cfg_part);
    }
    if let Some((p, is_dir)) = from_env {
        push_path(&mut paths, p, is_dir, filename);
    }
    proof {
        assert(paths_text(paths@) =~= cfg_part + env_part);
    }
    if let Some(dir) = exe_dir {
        let a = segments2(dir, filename);
        let b = segments3(dir, "signers", filename);
        let ghost before = paths@;
        paths.push(a);
        paths.push(b);
        proof {
            assert(paths@ =~= before.push(a).push(b));
            assert(paths_text(paths@) =~= paths_text(before).push(path_text(a)).push(path_text(b)));
        }
    }
    proof {
        assert(paths_text(paths@) =~= cfg_part + env_part + exe_part);
    }
    let mut here: SignerPath = Vec::new();
    here.push(filename.to_string());
    proof {
        assert(path_text(here) =~= seq![filename@]);
    }
    let sub = segments2("signers", filename);
    let ghost before_cwd = paths@;
    paths.push(here);
    paths.push(sub);
    proof {
        assert(paths@ =~= before_cwd.push(here).push(sub));
        assert(paths_text(paths@) =~= paths_text(before_cwd).push(path_text(here)).push(path_text(sub)));
        assert(paths_text(paths@) =~= cfg_part + env_part + exe_part + seq![seq![filename@], seq!["signers"@, filename@]]);
    }
    paths
}

/// The texts joined with `" | "` between them.
pub open spec fn joined_with_bars(texts: Seq<Seq<char>>) -> Seq<char>
    decreases texts.len(),
{
    if texts.len() == 0 {
        Seq::empty()
    } else if texts.len() == 1 {
        texts[0]
    } else {
        joined_with_bars(texts.drop_last()) + " | "@ + texts.last()
    }
}

/// The error when no place held a loadable signer library: the failure of
/// each attempt, in order, joined with `" | "`.
pub fn signer_load_failure(errors: &Vec<String>) -> (res: SdkError)
    ensures
        res matches SdkError::SignerLoadFailed(m) && m@ == joined_with_bars(
            errors@.map_values(|e: String| e@),
        ),
{
    let mut out = String::new();
    let mut i: usize = 0;
    let ghost texts = errors@.map_values(|e: String| e@);
    proof {
        assert(texts.take(0) =~= Seq::<Seq<char>>::empty());
        assert(out@ =~= joined_with_bars(texts.take(0)));
    }
    while i < errors.len()
        invariant
            i <= errors@.len(),
            texts == errors@.map_values(|e: String| e@),
            out@ == joined_with_bars(texts.take(i as int)),
        decreases errors@.len() - i,
    {
        if i > 0 {
            out.append(" | ");
        }
        out.append(errors[i].as_str());
        proof {
            let t = texts.take(i + 1);
            assert(t.drop_last() =~= texts.take(i as int));
            assert(t.last() == errors@[i as int]@);
            if i == 0 {
                assert(out@ =~= joined_with_bars(t));
            } else {
                assert(out@ =~= joined_with_bars(t));
            }
        }
        i = i + 1;
    }
    proof {
        assert(texts.take(i as int) =~= texts);
    }
    SdkError::SignerLoadFailed(out)
}

} // verus!
