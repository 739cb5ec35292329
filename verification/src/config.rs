//! The session store's data: the persisted session descriptor and the
//! key-value text format it is written in.
//!
//! A descriptor holds the shared secret token and the three UDP ports of
//! one live server session.  It is persisted as a small human-editable
//! key-value document, one `name = value` line per field.  Serializing and
//! parsing are both verified here against one spec-level grammar, and
//! proved to round-trip.  Reading and writing the file itself is
//! filesystem work left to the caller, which hands the raw bytes in and
//! out.

use crate::bytes::{bytes_eq, is_ws, lemma_tokens_step, tokenize, tokens_of, ws_free};
use crate::digits::{
    dec_digits, i32_dec_repr, i32_to_dec, is_digit, lemma_dec_digits_wf, lemma_i32_round_trip,
    lemma_u16_round_trip, parse_i32_bytes, parse_i32_spec, parse_u16_bytes, parse_u16_spec,
    u64_to_dec,
};
use vstd::prelude::*;

verus! {

/// One session's persisted state: the shared secret `token` and the three
/// ports the supervisor assigned — `sonic_pi_port` for code and control
/// commands, `daemon_port` for keep-alive heartbeats, `gui_port` for the
/// inbound log stream.
#[derive(Clone, Copy, PartialEq, Eq, Structural, Debug)]
pub struct SonicPiToolCfg {
    pub token: i32,
    pub sonic_pi_port: u16,
    pub daemon_port: u16,
    pub gui_port: u16,
}

/// Why a session descriptor could not be loaded or stored.
#[derive(Clone, Copy, PartialEq, Eq, Structural, Debug)]
pub enum ConfigError {
    /// No session file exists at the expected path.
    Missing,
    /// The file's content does not parse as a session descriptor.
    Malformed,
    /// The file exists but could not be read.
    Unreadable,
    /// The environment supplies no home directory to resolve the path in.
    NoHome,
    /// The descriptor could not be written out.
    WriteFailed,
}

impl SonicPiToolCfg {
    /// Assemble a descriptor from its four fields.
    pub fn new(token: i32, sonic_pi_port: u16, daemon_port: u16, gui_port: u16) -> (r: Self)
        ensures
            r == (SonicPiToolCfg { token, sonic_pi_port, daemon_port, gui_port }),
    {
        SonicPiToolCfg { token, sonic_pi_port, daemon_port, gui_port }
    }

    /// The per-user directory that holds the session file, under the given
    /// home directory.
    pub fn get_default_cfg_folder(home: &str) -> (r: String)
        ensures
            r@ == home@ + "/.sonic-pi/tool"@,
    {
        let mut s = home.to_owned();
        s.append("/.sonic-pi/tool");
        s
    }

    /// The fixed per-user path of the session file, under the given home
    /// directory.
    pub fn get_default_cfg_file_path(home: &str) -> (r: String)
        ensures
            r@ == home@ + "/.sonic-pi/tool"@ + "/config.toml"@,
    {
        let mut s = Self::get_default_cfg_folder(home);
        s.append("/config.toml");
        s
    }
}

// The byte spellings of the four field names and of the `=` separator.
pub open spec fn key_token() -> Seq<u8> {
    seq![116u8, 111u8, 107u8, 101u8, 110u8]  // "token"
}

pub open spec fn key_sonic_pi_port() -> Seq<u8> {
    // "sonic_pi_port"
    seq![115u8, 111u8, 110u8, 105u8, 99u8, 95u8, 112u8, 105u8, 95u8, 112u8, 111u8, 114u8, 116u8]
}

pub open spec fn key_daemon_port() -> Seq<u8> {
    seq![100u8, 97u8, 101u8, 109u8, 111u8, 110u8, 95u8, 112u8, 111u8, 114u8, 116u8]  // "daemon_port"
}

pub open spec fn key_gui_port() -> Seq<u8> {
    seq![103u8, 117u8, 105u8, 95u8, 112u8, 111u8, 114u8, 116u8]  // "gui_port"
}

pub open spec fn eq_sign() -> Seq<u8> {
    seq![61u8]  // "="
}

/// One `name = value` line of the session file, newline-terminated.
pub open spec fn cfg_line(key: Seq<u8>, value: Seq<u8>) -> Seq<u8> {
    key + seq![32u8] + eq_sign() + seq![32u8] + value + seq![10u8]
}

/// The canonical serialized form of a descriptor: its four fields, one
/// line each, in fixed order.
pub open spec fn cfg_bytes(c: SonicPiToolCfg) -> Seq<u8> {
    cfg_line(key_token(), i32_dec_repr(c.token as int)) + cfg_line(
        key_sonic_pi_port(),
        dec_digits(c.sonic_pi_port as nat),
    ) + cfg_line(key_daemon_port(), dec_digits(c.daemon_port as nat)) + cfg_line(
        key_gui_port(),
        dec_digits(c.gui_port as nat),
    )
}

/// The value token standing beside `key`: twelve tokens form four
/// `name = value` triples, and this picks the value of the first triple
/// whose name is `key`.
pub open spec fn value_for_key(ts: Seq<Seq<u8>>, key: Seq<u8>) -> Option<Seq<u8>> {
    if ts[0] == key {
        Some(ts[2])
    } else if ts[3] == key {
        Some(ts[5])
    } else if ts[6] == key {
        Some(ts[8])
    } else if ts[9] == key {
        Some(ts[11])
    } else {
        None
    }
}

/// The descriptor denoted by a token sequence: exactly twelve tokens
/// forming four `name = value` triples, one for each of the four field
/// names in any order, each value parsing in range.  Since the names are
/// distinct, all four being present means each appears exactly once.
pub open spec fn cfg_of_tokens(ts: Seq<Seq<u8>>) -> Option<SonicPiToolCfg> {
    if ts.len() == 12 && ts[1] == eq_sign() && ts[4] == eq_sign() && ts[7] == eq_sign() && ts[10]
        == eq_sign() && value_for_key(ts, key_token()) is Some && value_for_key(
        ts,
        key_sonic_pi_port(),
    ) is Some && value_for_key(ts, key_daemon_port()) is Some && value_for_key(ts, key_gui_port())
        is Some && parse_i32_spec(value_for_key(ts, key_token()).unwrap()) is Some
        && parse_u16_spec(value_for_key(ts, key_sonic_pi_port()).unwrap()) is Some
        && parse_u16_spec(value_for_key(ts, key_daemon_port()).unwrap()) is Some && parse_u16_spec(
        value_for_key(ts, key_gui_port()).unwrap(),
    ) is Some {
        Some(
            SonicPiToolCfg {
                token: parse_i32_spec(value_for_key(ts, key_token()).unwrap()).unwrap() as i32,
                sonic_pi_port: parse_u16_spec(
                    value_for_key(ts, key_sonic_pi_port()).unwrap(),
                ).unwrap() as u16,
                daemon_port: parse_u16_spec(
                    value_for_key(ts, key_daemon_port()).unwrap(),
                ).unwrap() as u16,
                gui_port: parse_u16_spec(value_for_key(ts, key_gui_port()).unwrap()).unwrap()
                    as u16,
            },
        )
    } else {
        None
    }
}

/// What a session file's bytes mean: the descriptor of its token
/// sequence, if that sequence has the descriptor shape.
pub open spec fn parse_cfg_spec(s: Seq<u8>) -> Option<SonicPiToolCfg> {
    cfg_of_tokens(tokens_of(s))
}

fn key_token_vec() -> (r: Vec<u8>)
    ensures
        r@ == key_token(),
{
    let mut v: Vec<u8> = Vec::new();
    v.push(116);
    v.push(111);
    v.push(107);
    v.push(101);
    v.push(110);
    proof {
        assert(v@ =~= key_token());
    }
    v
}

fn key_sonic_pi_port_vec() -> (r: Vec<u8>)
    ensures
        r@ == key_sonic_pi_port(),
{
    let mut v: Vec<u8> = Vec::new();
    v.push(115);
    v.push(111);
    v.push(110);
    v.push(105);
    v.push(99);
    v.push(95);
    v.push(112);
    v.push(105);
    v.push(95);
    v.push(112);
    v.push(111);
    v.push(114);
    v.push(116);
    proof {
        assert(v@ =~= key_sonic_pi_port());
    }
    v
}

fn key_daemon_port_vec() -> (r: Vec<u8>)
    ensures
        r@ == key_daemon_port(),
{
    let mut v: Vec<u8> = Vec::new();
    v.push(100);
    v.push(97);
    v.push(101);
    v.push(109);
    v.push(111);
    v.push(110);
    v.push(95);
    v.push(112);
    v.push(111);
    v.push(114);
    v.push(116);
    proof {
        assert(v@ =~= key_daemon_port());
    }
    v
}

fn key_gui_port_vec() -> (r: Vec<u8>)
    ensures
        r@ == key_gui_port(),
{
    let mut v: Vec<u8> = Vec::new();
    v.push(103);
    v.push(117);
    v.push(105);
    v.push(95);
    v.push(112);
    v.push(111);
    v.push(114);
    v.push(116);
    proof {
        assert(v@ =~= key_gui_port());
    }
    v
}

fn eq_sign_vec() -> (r: Vec<u8>)
    ensures
        r@ == eq_sign(),
{
    let mut v: Vec<u8> = Vec::new();
    v.push(61);
    proof {
        assert(v@ =~= eq_sign());
    }
    v
}

/// Append one `name = value` line to the output being built.
fn push_cfg_line(out: &mut Vec<u8>, key: Vec<u8>, value: Vec<u8>)
    ensures
        final(out)@ == old(out)@ + cfg_line(key@, value@),
{
    let ghost k0 = key@;
    let ghost v0 = value@;
    let mut key = key;
    let mut value = value;
    out.append(&mut key);
    out.push(32);
    out.push(61);
    out.push(32);
    out.append(&mut value);
    out.push(10);
    proof {
        assert(out@ =~= old(out)@ + cfg_line(k0, v0));
    }
}

/// Serialize a descriptor into the canonical bytes of the session file.
pub fn serialize_cfg(c: &SonicPiToolCfg) -> (r: Vec<u8>)
    ensures
        r@ == cfg_bytes(*c),
{
    let mut out: Vec<u8> = Vec::new();
    push_cfg_line(&mut out, key_token_vec(), i32_to_dec(c.token));
    push_cfg_line(&mut out, key_sonic_pi_port_vec(), u64_to_dec(c.sonic_pi_port as u64));
    push_cfg_line(&mut out, key_daemon_port_vec(), u64_to_dec(c.daemon_port as u64));
    push_cfg_line(&mut out, key_gui_port_vec(), u64_to_dec(c.gui_port as u64));
    proof {
        assert(out@ =~= cfg_bytes(*c));
    }
    out
}

/// Parse the bytes of a session file into a descriptor.  Succeeds exactly
/// on content whose token sequence has the descriptor shape; everything
/// else is `ConfigError::Malformed` — a missing or misnamed field never
/// silently defaults.
pub fn parse_cfg(content: &Vec<u8>) -> (r: Result<SonicPiToolCfg, ConfigError>)
    ensures
        match r {
            Ok(c) => parse_cfg_spec(content@) == Some(c),
            Err(e) => e == ConfigError::Malformed && parse_cfg_spec(content@) is None,
        },
{
    let ts = tokenize(content);
    let ghost tsv = tokens_of(content@);
    proof {
        assert(tsv.len() == ts@.len());
    }
    if ts.len() != 12 {
        return Err(ConfigError::Malformed);
    }
    proof {
        assert(ts@.len() == 12);
        assert forall|k: int| 0 <= k < 12 implies ts@[k]@ == tsv[k] by {
            assert(ts.deep_view()[k] == tsv[k]);
        }
    }
    proof {
        lemma_keys_distinct();
    }
    let eq = eq_sign_vec();
    let ok_eq = bytes_eq(&ts[1], &eq) && bytes_eq(&ts[4], &eq) && bytes_eq(&ts[7], &eq)
        && bytes_eq(&ts[10], &eq);
    if !ok_eq {
        return Err(ConfigError::Malformed);
    }
    let k_token = key_token_vec();
    let k_sonic = key_sonic_pi_port_vec();
    let k_daemon = key_daemon_port_vec();
    let k_gui = key_gui_port_vec();
    let mut token_v: Option<i32> = None;
    let mut sonic_v: Option<u16> = None;
    let mut daemon_v: Option<u16> = None;
    let mut gui_v: Option<u16> = None;
    // first triple
    if bytes_eq(&ts[0], &k_token) {
        token_v = match parse_i32_bytes(&ts[2]) {
            Some(v) => Some(v),
            None => {
                return Err(ConfigError::Malformed);
            },
        };
    } else if bytes_eq(&ts[0], &k_sonic) {
        sonic_v = match parse_u16_bytes(&ts[2]) {
            Some(v) => Some(v),
            None => {
                return Err(ConfigError::Malformed);
            },
        };
    } else if bytes_eq(&ts[0], &k_daemon) {
        daemon_v = match parse_u16_bytes(&ts[2]) {
            Some(v) => Some(v),
            None => {
                return Err(ConfigError::Malformed);
            },
        };
    } else if bytes_eq(&ts[0], &k_gui) {
        gui_v = match parse_u16_bytes(&ts[2]) {
            Some(v) => Some(v),
            None => {
                return Err(ConfigError::Malformed);
            },
        };
    } else {
        return Err(ConfigError::Malformed);
    }
    // second triple
    if bytes_eq(&ts[3], &k_token) {
        token_v = match parse_i32_bytes(&ts[5]) {
            Some(v) => Some(v),
            None => {
                return Err(ConfigError::Malformed);
            },
        };
    } else if bytes_eq(&ts[3], &k_sonic) {
        sonic_v = match parse_u16_bytes(&ts[5]) {
            Some(v) => Some(v),
            None => {
                return Err(ConfigError::Malformed);
            },
        };
    } else if bytes_eq(&ts[3], &k_daemon) {
        daemon_v = match parse_u16_bytes(&ts[5]) {
            Some(v) => Some(v),
            None => {
                return Err(ConfigError::Malformed);
            },
        };
    } else if bytes_eq(&ts[3], &k_gui) {
        gui_v = match parse_u16_bytes(&ts[5]) {
            Some(v) => Some(v),
            None => {
                return Err(ConfigError::Malformed);
            },
        };
    } else {
        return Err(ConfigError::Malformed);
    }
    // third triple
    if bytes_eq(&ts[6], &k_token) {
        token_v = match parse_i32_bytes(&ts[8]) {
            Some(v) => Some(v),
            None => {
                return Err(ConfigError::Malformed);
            },
        };
    } else if bytes_eq(&ts[6], &k_sonic) {
        sonic_v = match parse_u16_bytes(&ts[8]) {
            Some(v) => Some(v),
            None => {
                return Err(ConfigError::Malformed);
            },
        };
    } else if bytes_eq(&ts[6], &k_daemon) {
        daemon_v = match parse_u16_bytes(&ts[8]) {
            Some(v) => Some(v),
            None => {
                return Err(ConfigError::Malformed);
            },
        };
    } else if bytes_eq(&ts[6], &k_gui) {
        gui_v = match parse_u16_bytes(&ts[8]) {
            Some(v) => Some(v),
            None => {
                return Err(ConfigError::Malformed);
            },
        };
    } else {
        return Err(ConfigError::Malformed);
    }
    // fourth triple
    if bytes_eq(&ts[9], &k_token) {
        token_v = match parse_i32_bytes(&ts[11]) {
            Some(v) => Some(v),
            None => {
                return Err(ConfigError::Malformed);
            },
        };
    } else if bytes_eq(&ts[9], &k_sonic) {
        sonic_v = match parse_u16_bytes(&ts[11]) {
            Some(v) => Some(v),
            None => {
                return Err(ConfigError::Malformed);
            },
        };
    } else if bytes_eq(&ts[9], &k_daemon) {
        daemon_v = match parse_u16_bytes(&ts[11]) {
            Some(v) => Some(v),
            None => {
                return Err(ConfigError::Malformed);
            },
        };
    } else if bytes_eq(&ts[9], &k_gui) {
        gui_v = match parse_u16_bytes(&ts[11]) {
            Some(v) => Some(v),
            None => {
                return Err(ConfigError::Malformed);
            },
        };
    } else {
        return Err(ConfigError::Malformed);
    }
    match (token_v, sonic_v, daemon_v, gui_v) {
        (Some(token), Some(sonic_pi_port), Some(daemon_port), Some(gui_port)) => Ok(
            SonicPiToolCfg { token, sonic_pi_port, daemon_port, gui_port },
        ),
        _ => Err(ConfigError::Malformed),
    }
}

/// The four field names are pairwise distinct (their lengths already
/// differ), so a token sequence holding all four holds each exactly once.
proof fn lemma_keys_distinct()
    ensures
        key_token() != key_sonic_pi_port(),
        key_token() != key_daemon_port(),
        key_token() != key_gui_port(),
        key_sonic_pi_port() != key_daemon_port(),
        key_sonic_pi_port() != key_gui_port(),
        key_daemon_port() != key_gui_port(),
{
    assert(key_token().len() == 5);
    assert(key_sonic_pi_port().len() == 13);
    assert(key_daemon_port().len() == 11);
    assert(key_gui_port().len() == 8);
}

/// The round-trip law of the session store: parsing the serialized form
/// of any descriptor gives back exactly that descriptor, all four numeric
/// fields included.
pub proof fn lemma_cfg_round_trip(c: SonicPiToolCfg)
    ensures
        parse_cfg_spec(cfg_bytes(c)) == Some(c),
{
    let d1 = i32_dec_repr(c.token as int);
    let d2 = dec_digits(c.sonic_pi_port as nat);
    let d3 = dec_digits(c.daemon_port as nat);
    let d4 = dec_digits(c.gui_port as nat);
    lemma_repr_token_shape(c.token as int);
    lemma_digits_token_shape(c.sonic_pi_port as nat);
    lemma_digits_token_shape(c.daemon_port as nat);
    lemma_digits_token_shape(c.gui_port as nat);
    lemma_key_shapes();
    lemma_keys_distinct();
    let s0 = Seq::<u8>::empty();
    assert(tokens_of(s0) =~= Seq::<Seq<u8>>::empty());
    let s1 = s0 + key_token() + seq![32u8];
    let s2 = s1 + eq_sign() + seq![32u8];
    let s3 = s2 + d1 + seq![10u8];
    let s4 = s3 + key_sonic_pi_port() + seq![32u8];
    let s5 = s4 + eq_sign() + seq![32u8];
    let s6 = s5 + d2 + seq![10u8];
    let s7 = s6 + key_daemon_port() + seq![32u8];
    let s8 = s7 + eq_sign() + seq![32u8];
    let s9 = s8 + d3 + seq![10u8];
    let s10 = s9 + key_gui_port() + seq![32u8];
    let s11 = s10 + eq_sign() + seq![32u8];
    let s12 = s11 + d4 + seq![10u8];
    lemma_tokens_step(s0, key_token(), 32);
    lemma_tokens_step(s1, eq_sign(), 32);
    lemma_tokens_step(s2, d1, 10);
    lemma_tokens_step(s3, key_sonic_pi_port(), 32);
    lemma_tokens_step(s4, eq_sign(), 32);
    lemma_tokens_step(s5, d2, 10);
    lemma_tokens_step(s6, key_daemon_port(), 32);
    lemma_tokens_step(s7, eq_sign(), 32);
    lemma_tokens_step(s8, d3, 10);
    lemma_tokens_step(s9, key_gui_port(), 32);
    lemma_tokens_step(s10, eq_sign(), 32);
    lemma_tokens_step(s11, d4, 10);
    assert(s3 =~= cfg_line(key_token(), d1));
    assert(s6 =~= s3 + cfg_line(key_sonic_pi_port(), d2));
    assert(s9 =~= s6 + cfg_line(key_daemon_port(), d3));
    assert(s12 =~= s9 + cfg_line(key_gui_port(), d4));
    assert(cfg_bytes(c) == s12);
    let ts = tokens_of(s12);
    assert(ts =~= seq![
        key_token(),
        eq_sign(),
        d1,
        key_sonic_pi_port(),
        eq_sign(),
        d2,
        key_daemon_port(),
        eq_sign(),
        d3,
        key_gui_port(),
        eq_sign(),
        d4,
    ]);
    lemma_i32_round_trip(c.token as int);
    lemma_u16_round_trip(c.sonic_pi_port as nat);
    lemma_u16_round_trip(c.daemon_port as nat);
    lemma_u16_round_trip(c.gui_port as nat);
}

/// The rendering of a signed token is a non-empty whitespace-free token.
proof fn lemma_repr_token_shape(t: int)
    ensures
        i32_dec_repr(t).len() > 0,
        ws_free(i32_dec_repr(t)),
{
    if t < 0 {
        lemma_dec_digits_wf((-t) as nat);
        let s = i32_dec_repr(t);
        assert forall|i: int| 0 <= i < s.len() implies !is_ws(s[i]) by {
            if i > 0 {
                assert(is_digit(dec_digits((-t) as nat)[i - 1]));
            }
        }
    } else {
        lemma_dec_digits_wf(t as nat);
        let s = i32_dec_repr(t);
        assert forall|i: int| 0 <= i < s.len() implies !is_ws(s[i]) by {
            assert(is_digit(s[i]));
        }
    }
}

/// The rendering of an unsigned value is a non-empty whitespace-free
/// token.
proof fn lemma_digits_token_shape(n: nat)
    ensures
        dec_digits(n).len() > 0,
        ws_free(dec_digits(n)),
{
    lemma_dec_digits_wf(n);
    let s = dec_digits(n);
    assert forall|i: int| 0 <= i < s.len() implies !is_ws(s[i]) by {
        assert(is_digit(s[i]));
    }
}

/// The field names and the separator are non-empty whitespace-free
/// tokens.
proof fn lemma_key_shapes()
    ensures
        ws_free(key_token()) && key_token().len() > 0,
        ws_free(key_sonic_pi_port()) && key_sonic_pi_port().len() > 0,
        ws_free(key_daemon_port()) && key_daemon_port().len() > 0,
        ws_free(key_gui_port()) && key_gui_port().len() > 0,
        ws_free(eq_sign()) && eq_sign().len() > 0,
{
}

} // verus!
