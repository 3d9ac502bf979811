//! The decisions a signer client makes around signing and sending: which key
//! and nonce a transaction uses, how API keys are normalised, what becomes of
//! the nonce after the exchange answers, and the payload of a batch.

use vstd::prelude::*;

use crate::error::{error_text, SdkError};
use crate::ffi::SignedTx;
use crate::numeric::nat_text;
use crate::text::{contains_seq, str_contains};

verus! {

/// The code of an accepted transaction.
pub const CODE_OK: i64 = 200;

/// The code the exchange answers when a transaction's nonce is not the expected one.
pub const CODE_INVALID_NONCE: i64 = 21104;

/// What to do with the nonce state of a key after the exchange answered.
#[derive(Debug, Clone, Copy, PartialEq, Eq, Structural)]
pub enum NonceAction {
    /// Nothing: the nonce was used.
    Keep,
    /// Fetch the key's nonce from the exchange again.
    HardRefresh,
    /// Give the nonce back: the transaction was not accepted.
    AcknowledgeFailure,
}

/// The action after sending one transaction; `result` is the code of the
/// exchange's answer or the error of the request.
///
/// An invalid-nonce code, or an error whose text mentions an invalid nonce,
/// asks for a fresh nonce. Any other code but OK, or any other error, gives
/// the nonce back, except a JSON error: the exchange answered OK but the body
/// could not be read, so the nonce was used.
pub open spec fn tx_result_action_spec(result: Result<i64, SdkError>) -> NonceAction {
    match result {
        Ok(code) => if code == CODE_INVALID_NONCE {
            NonceAction::HardRefresh
        } else if code != CODE_OK {
            NonceAction::AcknowledgeFailure
        } else {
            NonceAction::Keep
        },
        Err(e) => if e is Json {
            NonceAction::Keep
        } else if contains_seq(error_text(e), "invalid nonce"@) {
            NonceAction::HardRefresh
        } else {
            NonceAction::AcknowledgeFailure
        },
    }
}

/// The action after sending one transaction; see [`tx_result_action_spec`].
pub fn tx_result_action(result: &Result<i64, SdkError>) -> (res: NonceAction)
    ensures
        res == tx_result_action_spec(*result),
{
    match result {
        Ok(code) => {
            if *code == CODE_INVALID_NONCE {
                NonceAction::HardRefresh
            } else if *code != CODE_OK {
                NonceAction::AcknowledgeFailure
            } else {
                NonceAction::Keep
            }
        },
        Err(e) => {
            if let SdkError::Json(_) = e {
                NonceAction::Keep
            } else {
                let text = e.to_text();
                if str_contains(text.as_str(), "invalid nonce") {
                    NonceAction::HardRefresh
                } else {
                    NonceAction::AcknowledgeFailure
                }
            }
        },
    }
}

/// The action after sending a batch: an invalid-nonce code asks for a fresh
/// nonce; any other code but OK, and any error, gives back every nonce of the
/// batch (one `AcknowledgeFailure` per transaction).
pub open spec fn batch_result_action_spec(result: Result<i64, SdkError>) -> NonceAction {
    match result {
        Ok(code) => if code == CODE_INVALID_NONCE {
            NonceAction::HardRefresh
        } else if code != CODE_OK {
            NonceAction::AcknowledgeFailure
        } else {
            NonceAction::Keep
        },
        Err(_) => NonceAction::AcknowledgeFailure,
    }
}

/// The action after sending a batch; see [`batch_result_action_spec`].
pub fn batch_result_action(result: &Result<i64, SdkError>) -> (res: NonceAction)
    ensures
        res == batch_result_action_spec(*result),
{
    match result {
        Ok(code) => {
            if *code == CODE_INVALID_NONCE {
                NonceAction::HardRefresh
            } else if *code != CODE_OK {
                NonceAction::AcknowledgeFailure
            } else {
                NonceAction::Keep
            }
        },
        Err(_) => NonceAction::AcknowledgeFailure,
    }
}

/// The nonce action after a single transaction: an accepted transaction
/// keeps its nonce; an invalid-nonce code asks for a fresh nonce; any other
/// code gives the nonce back. A request error keeps the nonce when the
/// exchange accepted it but its answer could not be read (a JSON error),
/// asks for a fresh nonce when its text mentions an invalid nonce, and
/// gives the nonce back otherwise.
pub proof fn lemma_tx_result_actions(code: i64, e: SdkError)
    ensures
        tx_result_action_spec(Ok(code)) == (if code == CODE_OK {
            NonceAction::Keep
        } else if code == CODE_INVALID_NONCE {
            NonceAction::HardRefresh
        } else {
            NonceAction::AcknowledgeFailure
        }),
        e is Json ==> tx_result_action_spec(Err(e)) == NonceAction::Keep,
        !(e is Json) && contains_seq(error_text(e), "invalid nonce"@) ==> tx_result_action_spec(
            Err(e),
        ) == NonceAction::HardRefresh,
        !(e is Json) && !contains_seq(error_text(e), "invalid nonce"@) ==> tx_result_action_spec(
            Err(e),
        ) == NonceAction::AcknowledgeFailure,
{
}

/// The nonce action after a batch: an accepted batch keeps its nonces; an
/// invalid-nonce code asks for a fresh nonce; any other code, and every
/// request error whatever it is, gives all the batch's nonces back.
pub proof fn lemma_batch_result_actions(code: i64, e: SdkError)
    ensures
        batch_result_action_spec(Ok(code)) == (if code == CODE_OK {
            NonceAction::Keep
        } else if code == CODE_INVALID_NONCE {
            NonceAction::HardRefresh
        } else {
            NonceAction::AcknowledgeFailure
        }),
        batch_result_action_spec(Err(e)) == NonceAction::AcknowledgeFailure,
{
}

/// The action after signing a transaction failed: a nonce the manager chose
/// (the caller left the key or the nonce open) is given back; a nonce the
/// caller fixed is left alone.
pub fn signing_failure_action(api_key_index: Option<u8>, nonce: Option<i64>) -> (res: NonceAction)
    ensures
        res == (if api_key_index is Some && nonce is Some {
            NonceAction::Keep
        } else {
            NonceAction::AcknowledgeFailure
        }),
{
    match explicit_key_and_nonce(api_key_index, nonce) {
        Some(_) => NonceAction::Keep,
        None => NonceAction::AcknowledgeFailure,
    }
}

/// The key and nonce a caller fixed: both must be given, otherwise the nonce
/// manager chooses them (and then also takes back the nonce of a failed
/// signature).
pub fn explicit_key_and_nonce(api_key_index: Option<u8>, nonce: Option<i64>) -> (res: Option<
    (u8, i64),
>)
    ensures
        res == (match (api_key_index, nonce) {
            (Some(k), Some(n)) => Some((k, n)),
            _ => None,
        }),
{
    match (api_key_index, nonce) {
        (Some(k), Some(n)) => Some((k, n)),
        _ => None,
    }
}

/// A private key without its `0x` prefix, if it has one.
pub open spec fn without_hex_prefix(key: Seq<char>) -> Seq<char> {
    if key.len() >= 2 && key[0] == '0' && key[1] == 'x' {
        key.skip(2)
    } else {
        key
    }
}

/// Strip a leading `0x` from a private key.
pub fn strip_hex_prefix(key: &str) -> (res: &str)
    ensures
        res@ == without_hex_prefix(key@),
{
    let n = key.unicode_len();
    if n >= 2 && key.get_char(0) == '0' && key.get_char(1) == 'x' {
        let rest = key.substring_char(2, n);
        proof {
            assert(rest@ =~= key@.skip(2));
        }
        rest
    } else {
        key
    }
}

/// The API keys of a signer client, each private key without its `0x`
/// prefix; a client needs at least one key. The keys are a map from key
/// index to private key, so no index occurs twice.
pub fn normalize_api_keys(keys: &Vec<(u8, String)>) -> (res: Result<Vec<(u8, String)>, SdkError>)
    requires
        forall|i: int, j: int|
            0 <= i < j < keys@.len() ==> (#[trigger] keys@[i]).0 != (#[trigger] keys@[j]).0,
    ensures
        keys@.len() == 0 <==> res == Err::<Vec<(u8, String)>, SdkError>(SdkError::NoApiKeys),
        keys@.len() > 0 ==> res is Ok,
        res matches Ok(v) ==> forall|i: int, j: int|
            0 <= i < j < v@.len() ==> (#[trigger] v@[i]).0 != (#[trigger] v@[j]).0,
        res matches Ok(v) ==> v@.len() == keys@.len() && forall|i: int|
            0 <= i < keys@.len() ==> (#[trigger] v@[i]).0 == keys@[i].0 && v@[i].1@
                == without_hex_prefix(keys@[i].1@),
{
    if keys.len() == 0 {
        return Err(SdkError::NoApiKeys);
    }
    let mut out: Vec<(u8, String)> = Vec::new();
    let mut i: usize = 0;
    while i < keys.len()
        invariant
            i <= keys@.len(),
            out@.len() == i,
            forall|j: int|
                0 <= j < i ==> (#[trigger] out@[j]).0 == keys@[j].0 && out@[j].1@
                    == without_hex_prefix(keys@[j].1@),
        decreases keys@.len() - i,
    {
        let trimmed = strip_hex_prefix(keys[i].1.as_str());
        out.push((keys[i].0, trimmed.to_string()));
        i = i + 1;
    }
    Ok(out)
}

// ---------------------------------------------------------------------------
// Batch payloads
// ---------------------------------------------------------------------------

/// The numbers of `s`, separated by commas.
pub open spec fn joined_numbers(s: Seq<u8>) -> Seq<char>
    decreases s.len(),
{
    if s.len() == 0 {
        Seq::empty()
    } else if s.len() == 1 {
        nat_text(s[0] as nat)
    } else {
        joined_numbers(s.drop_last()) + ","@ + nat_text(s.last() as nat)
    }
}

/// The JSON array of the numbers of `s`, as `serde_json::to_string` writes it.
pub open spec fn json_number_array(s: Seq<u8>) -> Seq<char> {
    "["@ + joined_numbers(s) + "]"@
}

/// The JSON array of the numbers of `values`.
pub fn json_number_array_text(values: &Vec<u8>) -> (res: String)
    ensures
        res@ == json_number_array(values@),
{
    let mut out = String::from_str("[");
    let mut i: usize = 0;
    proof {
        reveal_strlit("[");
        reveal_strlit(",");
        reveal_strlit("]");
        assert(out@ =~= "["@ + joined_numbers(values@.take(0)));
    }
    while i < values.len()
        invariant
            i <= values@.len(),
            out@ == "["@ + joined_numbers(values@.take(i as int)),
        decreases values@.len() - i,
    {
        let ghost before = out@;
        if i > 0 {
            out.append(",");
        }
        crate::numeric::append_nat(&mut out, values[i] as u64);
        proof {
            let t = values@.take(i + 1);
            assert(t.drop_last() =~= values@.take(i as int));
            assert(t.last() == values@[i as int]);
            if i == 0 {
                assert(out@ =~= "["@ + joined_numbers(t));
            } else {
                assert(out@ =~= "["@ + joined_numbers(t));
            }
        }
        i = i + 1;
    }
    out.append("]");
    proof {
        assert(values@.take(i as int) =~= values@);
    }
    out
}

/// The lower-case hexadecimal digit of `d`, for `d` below 16.
pub open spec fn hex_digit(d: int) -> char {
    seq!['0', '1', '2', '3', '4', '5', '6', '7', '8', '9', 'a', 'b', 'c', 'd', 'e', 'f'][d]
}

/// How one character of a string is written inside a JSON string: the quote
/// and the backslash behind a backslash, backspace, tab, line feed, form feed
/// and carriage return by their short escapes, the other characters below
/// 0x20 as `\u00` and two hexadecimal digits, every other character as it is.
pub open spec fn json_escaped_char(c: char) -> Seq<char> {
    if c == '"' {
        seq!['\\', '"']
    } else if c == '\\' {
        seq!['\\', '\\']
    } else if c == '\u{8}' {
        seq!['\\', 'b']
    } else if c == '\t' {
        seq!['\\', 't']
    } else if c == '\n' {
        seq!['\\', 'n']
    } else if c == '\u{c}' {
        seq!['\\', 'f']
    } else if c == '\r' {
        seq!['\\', 'r']
    } else if (c as int) < 0x20 {
        seq!['\\', 'u', '0', '0', hex_digit(c as int / 16), hex_digit(c as int % 16)]
    } else {
        seq![c]
    }
}

/// The escaped characters of `s`, one after the other.
pub open spec fn json_escaped(s: Seq<char>) -> Seq<char>
    decreases s.len(),
{
    if s.len() == 0 {
        Seq::empty()
    } else {
        json_escaped(s.drop_last()) + json_escaped_char(s.last())
    }
}

/// The JSON string of `s`: its escaped characters between double quotes.
pub open spec fn json_string(s: Seq<char>) -> Seq<char> {
    seq!['"'] + json_escaped(s) + seq!['"']
}

/// The JSON strings of `values`, separated by commas.
pub open spec fn joined_json_strings(values: Seq<Seq<char>>) -> Seq<char>
    decreases values.len(),
{
    if values.len() == 0 {
        Seq::empty()
    } else if values.len() == 1 {
        json_string(values[0])
    } else {
        joined_json_strings(values.drop_last()) + seq![','] + json_string(values.last())
    }
}

/// The JSON array of the strings of `values`, as `serde_json::to_string`
/// writes it: each string quoted and escaped, separated by commas, no space.
pub open spec fn json_string_array(values: Seq<Seq<char>>) -> Seq<char> {
    seq!['['] + joined_json_strings(values) + seq![']']
}

/// The texts of a sequence of strings.
pub open spec fn texts(values: Seq<String>) -> Seq<Seq<char>> {
    values.map_values(|v: String| v@)
}

/// `serde_json::to_string` on a list of strings.
///
/// Trusted: serialising a list of strings into memory always succeeds, and
/// the text is the compact JSON array [`json_string_array`] of the strings'
/// texts, with serde_json's escaping as [`json_escaped_char`] states it.
#[verifier::external_body]
fn json_string_array_text(values: &Vec<String>) -> (res: Result<String, String>)
    ensures
        res is Ok,
        res matches Ok(s) ==> s@ == json_string_array(texts(values@)),
{
    match serde_json::to_string(values) {
        Ok(text) => Ok(text),
        Err(e) => Err(e.to_string()),
    }
}

/// The two form fields of a batch: the JSON array of the transaction types
/// and the JSON array of the signed transaction infos, in the order given.
pub fn batch_payload(signed_txs: &[SignedTx]) -> (res: Result<(String, String), SdkError>)
    ensures
        res is Ok,
        res matches Ok(p) ==> p.0@ == json_number_array(signed_txs@.map_values(|t: SignedTx| t.tx_type))
            && p.1@ == json_string_array(
            signed_txs@.map_values(|t: SignedTx| t.tx_info@),
        ),
{
    let mut tx_types: Vec<u8> = Vec::new();
    let mut tx_infos: Vec<String> = Vec::new();
    let mut i: usize = 0;
    while i < signed_txs.len()
        invariant
            i <= signed_txs@.len(),
            tx_types@.len() == i,
            tx_infos@.len() == i,
            forall|j: int| 0 <= j < i ==> #[trigger] tx_types@[j] == signed_txs@[j].tx_type,
            forall|j: int| 0 <= j < i ==> (#[trigger] tx_infos@[j])@ == signed_txs@[j].tx_info@,
        decreases signed_txs@.len() - i,
    {
        tx_types.push(signed_txs[i].tx_type);
        tx_infos.push(signed_txs[i].tx_info.clone());
        i = i + 1;
    }
    proof {
        assert(tx_types@ =~= signed_txs@.map_values(|t: SignedTx| t.tx_type));
        assert(texts(tx_infos@) =~= signed_txs@.map_values(|t: SignedTx| t.tx_info@));
    }
    let types_json = json_number_array_text(&tx_types);
    match json_string_array_text(&tx_infos) {
        Ok(infos_json) => Ok((types_json, infos_json)),
        Err(message) => Err(SdkError::Json(message)),
    }
}

} // verus!
