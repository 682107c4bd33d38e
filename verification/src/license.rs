use vstd::prelude::*;
use vstd::string::*;

use crate::text::{starts_with, to_chars};

verus! {

/// What the licence service answers.
pub struct LicenseResponse {
    pub valid: bool,
    pub activated: bool,
    pub email: Option<String>,
    pub error: Option<String>,
}

/// What is sent to the licence service.
pub struct LicenseRequest {
    pub key: String,
    pub machine_id: String,
    /// `"validate"` or `"activate"`.
    pub action: String,
}

/// Keys with this prefix are accepted without asking the service (development mode).
pub const DEV_KEY_PREFIX: &'static str = "DEV-";

/// E-mail reported for a development key.
pub const DEV_EMAIL: &'static str = "dev@autorec.local";

/// Salt appended to the hardware serial before hashing.
pub const MACHINE_ID_SALT: &'static str = ":autorec-turbo:v1";

/// Action that only checks a key.
pub const ACTION_VALIDATE: &'static str = "validate";

/// Action that checks a key and binds it to this machine.
pub const ACTION_ACTIVATE: &'static str = "activate";

/// How a licence call is to be answered.
pub enum LicensePlan {
    /// Answered here, without the network.
    Local(LicenseResponse),
    /// Answered by posting this request to the service.
    Remote(LicenseRequest),
}

/// The key is a development key.
pub open spec fn is_dev_key(key: Seq<char>) -> bool {
    starts_with(key, DEV_KEY_PREFIX@)
}

/// Decides how to answer a licence call: a development key (prefix `DEV-`) is valid
/// and activated at once, with the development e-mail; any other key, with the
/// machine id and the action, goes to the service.
pub fn plan_license_call(key: &str, machine_id: &str, action: &str) -> (plan: LicensePlan)
    ensures
        is_dev_key(key@) ==> (plan matches LicensePlan::Local(r) && r.valid && r.activated && (
        r.email matches Some(e) && e@ == DEV_EMAIL@) && r.error is None),
        !is_dev_key(key@) ==> (plan matches LicensePlan::Remote(req) && req.key@ == key@
            && req.machine_id@ == machine_id@ && req.action@ == action@),
{
    let k = to_chars(key);
    let prefix = to_chars(DEV_KEY_PREFIX);
    assert(k@.skip(0) =~= k@);
    if crate::text::matches_at(&k, 0, &prefix) {
        LicensePlan::Local(
            LicenseResponse {
                valid: true,
                activated: true,
                email: Some(DEV_EMAIL.to_string()),
                error: None,
            },
        )
    } else {
        LicensePlan::Remote(
            LicenseRequest {
                key: key.to_string(),
                machine_id: machine_id.to_string(),
                action: action.to_string(),
            },
        )
    }
}

/// Start of the message for a failed connection.
pub const NETWORK_ERROR_PREFIX: &'static str = "Erro de rede ao validar licen\u{e7}a: ";

/// Start of the message for an HTTP status that is not a success.
pub const STATUS_ERROR_PREFIX: &'static str = "Servidor de licen\u{e7}a retornou erro ";

/// End of the message for an HTTP status that is not a success.
pub const STATUS_ERROR_SUFFIX: &'static str = ".";

/// Start of the message for a reply that is not a licence response.
pub const REPLY_ERROR_PREFIX: &'static str = "Resposta inv\u{e1}lida do servidor: ";

/// The message for a request that could not be sent; `detail` describes the failure.
pub fn network_error_message(detail: &str) -> (msg: String)
    ensures
        msg@ == NETWORK_ERROR_PREFIX@ + detail@,
{
    NETWORK_ERROR_PREFIX.to_string().concat(detail)
}

/// The message for a reply whose body is not a licence response.
pub fn reply_error_message(detail: &str) -> (msg: String)
    ensures
        msg@ == REPLY_ERROR_PREFIX@ + detail@,
{
    REPLY_ERROR_PREFIX.to_string().concat(detail)
}

/// Checks the HTTP status of the service's reply: a status from 200 to 299 lets the
/// body be read; any other fails with a message that quotes the status as shown
/// (`status_text`, such as `404 Not Found`).
pub fn check_license_status(status: u16, status_text: &str) -> (r: Result<(), String>)
    ensures
        (200 <= status <= 299) <==> r is Ok,
        r matches Err(msg) ==> msg@ == STATUS_ERROR_PREFIX@ + status_text@ + STATUS_ERROR_SUFFIX@,
{
    if 200 <= status && status <= 299 {
        Ok(())
    } else {
        Err(STATUS_ERROR_PREFIX.to_string().concat(status_text).concat(STATUS_ERROR_SUFFIX))
    }
}

/// Name for the SHA-256 digest of a byte sequence (FIPS 180-4).
pub uninterp spec fn sha256(data: Seq<u8>) -> Seq<u8>;

/// `sha2::Sha256::digest`: believed to return the SHA-256 digest of `data`, 32 bytes
/// long, and nothing else of it is claimed.
#[verifier::external_body]
fn sha256_digest(data: &[u8]) -> (digest: Vec<u8>)
    ensures
        digest@ == sha256(data@),
        digest@.len() == 32,
{
    <sha2::Sha256 as sha2::Digest>::digest(data).to_vec()
}

/// Lower-case hexadecimal digit for `n` in 0..16.
pub open spec fn hex_digit_char(n: int) -> char {
    if n < 10 {
        (48 + n) as char
    } else {
        (87 + n) as char
    }
}

/// Lower-case hexadecimal text of the bytes, two digits per byte, high nibble first.
pub open spec fn hex_lower(data: Seq<u8>) -> Seq<char>
    decreases data.len(),
{
    if data.len() == 0 {
        seq![]
    } else {
        seq![hex_digit_char(data[0] as int / 16), hex_digit_char(data[0] as int % 16)] + hex_lower(data.drop_first())
    }
}

/// `0`-`9` or `a`-`f`.
pub open spec fn is_lower_hex_digit(c: char) -> bool {
    ('0' <= c && c <= '9') || ('a' <= c && c <= 'f')
}

/// The hexadecimal text has two lower-case digits per byte.
pub proof fn lemma_hex_lower_shape(data: Seq<u8>)
    ensures
        hex_lower(data).len() == 2 * data.len(),
        forall|i: int| 0 <= i < hex_lower(data).len() ==> is_lower_hex_digit(#[trigger] hex_lower(data)[i]),
    decreases data.len(),
{
    if data.len() > 0 {
        lemma_hex_lower_shape(data.drop_first());
        let hi = data[0] as int / 16;
        let lo = data[0] as int % 16;
        assert(0 <= hi < 16 && 0 <= lo < 16);
        let head = seq![hex_digit_char(hi), hex_digit_char(lo)];
        assert(is_lower_hex_digit(hex_digit_char(hi)));
        assert(is_lower_hex_digit(hex_digit_char(lo)));
        let rest = hex_lower(data.drop_first());
        assert forall|i: int| 0 <= i < hex_lower(data).len() implies is_lower_hex_digit(
            #[trigger] hex_lower(data)[i],
        ) by {
            if i >= 2 {
                assert(hex_lower(data)[i] == rest[i - 2]);
            }
        }
    }
}

/// `hex::encode`: believed to return the lower-case hexadecimal text of `data`, two
/// digits per byte, high nibble first (as the crate's documentation and source show).
#[verifier::external_body]
fn hex_encode(data: &[u8]) -> (text: String)
    ensures
        text@ == hex_lower(data@),
{
    hex::encode(data)
}

/// The machine id for a hardware serial: the lower-case hex SHA-256 digest of the
/// serial's UTF-8 bytes followed by the salt `:autorec-turbo:v1`, so that the serial
/// itself is not disclosed.
pub fn get_machine_id(serial: &str) -> (id: String)
    ensures
        id@ == hex_lower(sha256(serial.spec_bytes() + MACHINE_ID_SALT.spec_bytes())),
        id@.len() == 64,
        forall|i: int| 0 <= i < id@.len() ==> is_lower_hex_digit(#[trigger] id@[i]),
{
    let a = serial.as_bytes();
    let b = MACHINE_ID_SALT.as_bytes();
    let mut data: Vec<u8> = Vec::new();
    for i in 0..a.len()
        invariant
            data@ == a@.take(i as int),
    {
        data.push(a[i]);
        assert(a@.take(i + 1) =~= a@.take(i as int).push(a@[i as int]));
    }
    assert(a@.take(a@.len() as int) =~= a@);
    for i in 0..b.len()
        invariant
            data@ == a@ + b@.take(i as int),
    {
        data.push(b[i]);
        assert(b@.take(i + 1) =~= b@.take(i as int).push(b@[i as int]));
    }
    assert(b@.take(b@.len() as int) =~= b@);
    let digest = sha256_digest(data.as_slice());
    proof {
        lemma_hex_lower_shape(digest@);
    }
    hex_encode(digest.as_slice())
}


/// A key is a development key exactly when its first four characters are `D`, `E`, `V`
/// and `-`: every such key, whatever follows, is answered here as valid, and no other
/// key is.
pub proof fn law_dev_keys_are_those_starting_dev_dash(key: Seq<char>)
    ensures
        is_dev_key(key) <==> (key.len() >= 4 && key[0] == 'D' && key[1] == 'E' && key[2] == 'V'
            && key[3] == '-'),
{
    reveal_strlit("DEV-");
    if key.len() >= 4 && key[0] == 'D' && key[1] == 'E' && key[2] == 'V' && key[3] == '-' {
        assert(key.take(4) =~= DEV_KEY_PREFIX@);
    }
    if is_dev_key(key) {
        assert(key.take(4)[0] == key[0]);
        assert(key.take(4)[1] == key[1]);
        assert(key.take(4)[2] == key[2]);
        assert(key.take(4)[3] == key[3]);
    }
}

} // verus!
