//! Validation and encoding of Wi-Fi network credentials into the compact,
//! delimiter-escaped text record that QR-style scanners expect.
//!
//! A [`Wifi`] configuration aggregates a network name ([`Ssid`]), a
//! [`Password`] paired with its [`AuthType`], and a hidden-network flag.
//! Validation checks the SSID's byte length and the password against the
//! per-type rule table; encoding interpolates the escaped fields into the
//! fixed record grammar `WIFI:S:<ssid>;T:<type>;P:<password>;H:<hidden>;;`.

use vstd::prelude::*;

pub mod escape;
pub mod numeral;
pub mod scan;

pub use escape::mecardify;

use vstd::string::StrSliceExecFns;
use vstd::string::StringExecFns;
use vstd::utf8::encode_utf8;
use crate::escape::escape_chars;
use crate::numeral::dec_chars;
use crate::numeral::decimal_string;
use crate::scan::all_hex_digits;
use crate::scan::all_printable_ascii;
use crate::scan::bytes_all_hex;
use crate::scan::bytes_all_printable;

verus! {

/// A network name is valid when it occupies between 1 and 32 bytes.
pub open spec fn ssid_valid(bytes: Seq<u8>) -> bool {
    1 <= bytes.len() <= 32
}

/// A WPA passphrase is valid when it is 8 to 63 printable ASCII bytes,
/// or exactly 64 hexadecimal digits (a pre-shared 256-bit key).
pub open spec fn wpa_valid(bytes: Seq<u8>) -> bool {
    (8 <= bytes.len() <= 63 && all_printable_ascii(bytes)) || (bytes.len() == 64
        && all_hex_digits(bytes))
}

/// A WEP key is valid when it is 5 or 13 bytes of any content (a raw
/// 40-bit or 104-bit key), or 10 or 26 hexadecimal digits (the same keys
/// written as hex).
pub open spec fn wep_valid(bytes: Seq<u8>) -> bool {
    bytes.len() == 5 || bytes.len() == 13 || ((bytes.len() == 10 || bytes.len() == 26)
        && all_hex_digits(bytes))
}

/// The per-type password rule: an open network admits only an absent or
/// empty value; WPA and WEP follow their key-length tables.
pub open spec fn password_valid(auth_type: AuthType, bytes: Seq<u8>) -> bool {
    match auth_type {
        AuthType::Nopass => bytes.len() == 0,
        AuthType::Wpa => wpa_valid(bytes),
        AuthType::Wep => wep_valid(bytes),
    }
}

/// The diagnostic a failed SSID check carries: one message for the empty
/// name, one citing the measured byte count for an overlong name.
pub open spec fn ssid_error_message(bytes: Seq<u8>) -> Seq<char> {
    if bytes.len() == 0 {
        "SSID cannot be empty."@
    } else {
        "SSID is too long ("@ + dec_chars(bytes.len()) + " bytes). It must be between 1 and 32 bytes."@
    }
}

/// The singular or plural unit word for a byte count.
pub open spec fn unit_word(len: nat) -> Seq<char> {
    if len == 1 {
        "byte"@
    } else {
        "bytes"@
    }
}

/// The measured-value description a password diagnostic carries: byte
/// count, unit, and whether the content classifies as hex or string.
pub open spec fn current_info_text(len: nat, hex: bool) -> Seq<char> {
    "current: "@ + dec_chars(len) + " "@ + unit_word(len) + " "@ + (if hex {
        "hex"@
    } else {
        "string"@
    })
}

/// The measured-value description for a concrete byte sequence.
pub open spec fn current_info(bytes: Seq<u8>) -> Seq<char> {
    current_info_text(bytes.len(), all_hex_digits(bytes))
}

/// The diagnostic a failed password check carries, per authentication type.
pub open spec fn password_error_message(auth_type: AuthType, bytes: Seq<u8>) -> Seq<char> {
    match auth_type {
        AuthType::Nopass => "Password should not be provided for 'nopass'."@,
        AuthType::Wpa => "WPA passphrase must be 8-63 printable ASCII characters, or 64 hex digits ("@
            + current_info(bytes) + ", "@ + (if all_printable_ascii(bytes) {
            "ASCII"@
        } else {
            "non-ASCII"@
        }) + ")."@,
        AuthType::Wep => "WEP password must be 5 or 13 characters, or 10 or 26 hex digits ("@
            + current_info(bytes) + ")."@,
    }
}

/// Supported Wi-Fi authentication types, each with a canonical display
/// token used in the encoded record.
#[derive(Copy, Clone, PartialEq, Eq, Structural, Debug)]
pub enum AuthType {
    /// WEP (Wired Equivalent Privacy).
    Wep,
    /// WPA, WPA2, or WPA3 (Wi-Fi Protected Access).
    Wpa,
    /// No password required (open network).
    Nopass,
}

impl AuthType {
    /// The canonical display token of this authentication type.
    pub open spec fn spec_token(&self) -> Seq<char> {
        match self {
            AuthType::Wep => "WEP"@,
            AuthType::Wpa => "WPA"@,
            AuthType::Nopass => "nopass"@,
        }
    }

    /// Returns the canonical display token: `WEP`, `WPA` or `nopass`.
    pub fn token(&self) -> (r: &'static str)
        ensures
            r@ == self.spec_token(),
    {
        match self {
            AuthType::Wep => "WEP",
            AuthType::Wpa => "WPA",
            AuthType::Nopass => "nopass",
        }
    }
}

impl Default for AuthType {
    /// The default authentication type is WPA.
    fn default() -> (r: Self)
        ensures
            r == AuthType::Wpa,
    {
        AuthType::Wpa
    }
}

/// A Wi-Fi SSID.
///
/// Validation ensures that the length is between 1 and 32 bytes.
pub struct Ssid(pub String);

impl Ssid {
    /// The SSID's UTF-8 bytes, the unit every length rule measures.
    pub open spec fn byte_seq(&self) -> Seq<u8> {
        encode_utf8(self.0@)
    }

    /// Validates the SSID: accepts exactly the names of 1 to 32 bytes,
    /// and reports an empty or overlong name with a descriptive message.
    pub fn validate(&self) -> (r: Result<(), String>)
        ensures
            r is Ok <==> ssid_valid(self.byte_seq()),
            r is Err ==> r->Err_0@ == ssid_error_message(self.byte_seq()),
    {
        let bytes = self.0.as_str().as_bytes_vec();
        let n = bytes.len();
        if n == 0 {
            Err(String::from_str("SSID cannot be empty."))
        } else if n <= 32 {
            Ok(())
        } else {
            let mut m = String::from_str("SSID is too long (");
            let count = decimal_string(n as u64);
            m.append(count.as_str());
            m.append(" bytes). It must be between 1 and 32 bytes.");
            proof {
                assert(m@ =~= ssid_error_message(self.byte_seq()));
            }
            Err(m)
        }
    }

    /// Escapes the reserved delimiter characters in the SSID for the
    /// record syntax.
    pub fn escape(&self) -> (r: String)
        ensures
            r@ == escape_chars(self.0@),
    {
        mecardify(self.0.as_str())
    }
}

/// A Wi-Fi password and its authentication method.
pub struct Password {
    /// The password value, which can be `None` for open networks (`nopass`).
    pub value: Option<String>,
    /// The authentication type associated with the password.
    pub auth_type: AuthType,
}

impl Password {
    /// The password's characters; absent and empty values coincide.
    pub open spec fn char_seq(&self) -> Seq<char> {
        match self.value {
            Some(s) => s@,
            None => Seq::empty(),
        }
    }

    /// The password's UTF-8 bytes, the unit every length rule measures.
    pub open spec fn byte_seq(&self) -> Seq<u8> {
        encode_utf8(self.char_seq())
    }

    /// Validates the password against the rule of its authentication type:
    /// an open network admits only an absent or empty value, WPA admits
    /// 8-63 printable ASCII bytes or 64 hex digits, WEP admits 5 or 13
    /// bytes of any content or 10 or 26 hex digits. A rejection carries a
    /// diagnostic citing the measured byte count and content class.
    pub fn validate(&self) -> (r: Result<(), String>)
        ensures
            r is Ok <==> password_valid(self.auth_type, self.byte_seq()),
            r is Err ==> r->Err_0@ == password_error_message(self.auth_type, self.byte_seq()),
    {
        let bytes = match &self.value {
            Some(s) => s.as_str().as_bytes_vec(),
            None => Vec::new(),
        };
        proof {
            assert(bytes@ == self.byte_seq());
        }
        let len = bytes.len();
        let is_hex = bytes_all_hex(&bytes);
        let is_printable = bytes_all_printable(&bytes);
        match self.auth_type {
            AuthType::Nopass => {
                if len > 0 {
                    return Err(String::from_str("Password should not be provided for 'nopass'."));
                }
                Ok(())
            },
            AuthType::Wpa => {
                let is_valid_hex = len == 64 && is_hex;
                let is_valid_ascii = 8 <= len && len <= 63 && is_printable;
                if !(is_valid_ascii || is_valid_hex) {
                    let mut m = String::from_str(
                        "WPA passphrase must be 8-63 printable ASCII characters, or 64 hex digits (",
                    );
                    let info = current_info_string(len, is_hex);
                    m.append(info.as_str());
                    m.append(", ");
                    m.append(if is_printable { "ASCII" } else { "non-ASCII" });
                    m.append(").");
                    proof {
                        assert(m@ =~= password_error_message(self.auth_type, self.byte_seq()));
                    }
                    return Err(m);
                }
                Ok(())
            },
            AuthType::Wep => {
                let is_valid_hex = (len == 10 || len == 26) && is_hex;
                if !(len == 5 || len == 13 || is_valid_hex) {
                    let mut m = String::from_str(
                        "WEP password must be 5 or 13 characters, or 10 or 26 hex digits (",
                    );
                    let info = current_info_string(len, is_hex);
                    m.append(info.as_str());
                    m.append(").");
                    proof {
                        assert(m@ =~= password_error_message(self.auth_type, self.byte_seq()));
                    }
                    return Err(m);
                }
                Ok(())
            },
        }
    }

    /// Escapes the reserved delimiter characters in the password (empty
    /// output for an absent value) for the record syntax.
    pub fn escape(&self) -> (r: String)
        ensures
            r@ == escape_chars(self.char_seq()),
    {
        match &self.value {
            Some(s) => mecardify(s.as_str()),
            None => {
                proof {
                    assert(escape_chars(self.char_seq()) =~= Seq::<char>::empty());
                }
                String::new()
            },
        }
    }
}

/// Builds the measured-value description of a password diagnostic.
fn current_info_string(len: usize, hex: bool) -> (r: String)
    ensures
        r@ == current_info_text(len as nat, hex),
{
    let mut r = String::from_str("current: ");
    let count = decimal_string(len as u64);
    r.append(count.as_str());
    r.append(" ");
    r.append(if len == 1 { "byte" } else { "bytes" });
    r.append(" ");
    r.append(if hex { "hex" } else { "string" });
    proof {
        assert(r@ =~= current_info_text(len as nat, hex));
    }
    r
}

/// A Wi-Fi configuration: the unit of validation and of encoding into the
/// MECARD-like record syntax.
pub struct Wifi {
    /// The SSID (Service Set Identifier) of the Wi-Fi network.
    pub ssid: Ssid,
    /// The password and its associated authentication method.
    pub password: Password,
    /// Whether the Wi-Fi network's SSID is hidden (not broadcasted).
    pub hidden: bool,
}

impl Wifi {
    /// The exact record this configuration encodes to: the four fields,
    /// escaped, in fixed order, with their mandatory terminators.
    pub open spec fn spec_mecard(&self) -> Seq<char> {
        "WIFI:S:"@ + escape_chars(self.ssid.0@) + ";T:"@ + self.password.auth_type.spec_token()
            + ";P:"@ + escape_chars(self.password.char_seq()) + ";H:"@ + (if self.hidden {
            "true"@
        } else {
            "false"@
        }) + ";;"@
    }

    /// Validates the configuration: the SSID first, then the password;
    /// the first failure wins and its message is returned unchanged.
    pub fn validate(&self) -> (r: Result<(), String>)
        ensures
            r is Ok <==> ssid_valid(self.ssid.byte_seq()) && password_valid(
                self.password.auth_type,
                self.password.byte_seq(),
            ),
            !ssid_valid(self.ssid.byte_seq()) ==> r is Err && r->Err_0@ == ssid_error_message(
                self.ssid.byte_seq(),
            ),
            ssid_valid(self.ssid.byte_seq()) && !password_valid(
                self.password.auth_type,
                self.password.byte_seq(),
            ) ==> r is Err && r->Err_0@ == password_error_message(
                self.password.auth_type,
                self.password.byte_seq(),
            ),
    {
        match self.ssid.validate() {
            Err(e) => {
                return Err(e);
            },
            Ok(()) => {},
        }
        match self.password.validate() {
            Err(e) => {
                return Err(e);
            },
            Ok(()) => {},
        }
        Ok(())
    }

    /// Converts the configuration into the MECARD-like record
    /// `WIFI:S:<ssid>;T:<type>;P:<password>;H:<hidden>;;`, each free-text
    /// field escaped. Encoding never fails and checks nothing: it assumes
    /// validation already passed.
    pub fn to_mecard(&self) -> (r: String)
        ensures
            r@ == self.spec_mecard(),
    {
        let mut r = String::from_str("WIFI:S:");
        let escaped_ssid = self.ssid.escape();
        r.append(escaped_ssid.as_str());
        r.append(";T:");
        r.append(self.password.auth_type.token());
        r.append(";P:");
        let escaped_password = self.password.escape();
        r.append(escaped_password.as_str());
        r.append(";H:");
        r.append(if self.hidden { "true" } else { "false" });
        r.append(";;");
        proof {
            assert(r@ =~= self.spec_mecard());
        }
        r
    }
}

/// Encoding is deterministic: two configurations that hold the same field
/// values encode to the identical record string.
pub proof fn lemma_encode_deterministic(a: &Wifi, b: &Wifi)
    requires
        a.ssid.0@ == b.ssid.0@,
        a.password.char_seq() == b.password.char_seq(),
        a.password.auth_type == b.password.auth_type,
        a.hidden == b.hidden,
    ensures
        a.spec_mecard() == b.spec_mecard(),
{
}

} // verus!
