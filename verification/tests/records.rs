use qrfi::mecardify;
use qrfi::AuthType;
use qrfi::Password;
use qrfi::Ssid;
use qrfi::Wifi;

#[test]
fn to_mecard_produces_exact_record_for_plain_wpa_config() {
    let wifi = Wifi {
        ssid: Ssid("SSID".to_string()),
        password: Password {
            value: Some("PASSWORD".to_string()),
            auth_type: AuthType::Wpa,
        },
        hidden: false,
    };
    assert!(wifi.validate().is_ok());
    assert_eq!(wifi.to_mecard(), "WIFI:S:SSID;T:WPA;P:PASSWORD;H:false;;");
}

#[test]
fn to_mecard_renders_hidden_flag_and_tokens() {
    let wep = Wifi {
        ssid: Ssid("net".to_string()),
        password: Password {
            value: Some("abcde".to_string()),
            auth_type: AuthType::Wep,
        },
        hidden: true,
    };
    assert_eq!(wep.to_mecard(), "WIFI:S:net;T:WEP;P:abcde;H:true;;");
    let open = Wifi {
        ssid: Ssid("cafe".to_string()),
        password: Password { value: None, auth_type: AuthType::Nopass },
        hidden: false,
    };
    assert_eq!(open.to_mecard(), "WIFI:S:cafe;T:nopass;P:;H:false;;");
}

#[test]
fn to_mecard_escapes_delimiters_inside_fields() {
    let wifi = Wifi {
        ssid: Ssid("a;b".to_string()),
        password: Password {
            value: Some("p:q,r\\s".to_string()),
            auth_type: AuthType::Wpa,
        },
        hidden: false,
    };
    assert_eq!(wifi.to_mecard(), "WIFI:S:a\\;b;T:WPA;P:p\\:q\\,r\\\\s;H:false;;");
}

#[test]
fn mecardify_escapes_colon_in_ssid_text() {
    assert_eq!(mecardify("Example:SSID"), "Example\\:SSID");
}

#[test]
fn mecardify_escapes_every_delimiter_in_mixed_text() {
    assert_eq!(mecardify("A;B,C\\D"), "A\\;B\\,C\\\\D");
}

#[test]
fn ssid_validate_reports_measured_length_when_too_long() {
    let input: String = "x".repeat(33);
    let result = Ssid(input).validate();
    assert_eq!(
        result.unwrap_err(),
        "SSID is too long (33 bytes). It must be between 1 and 32 bytes."
    );
}

#[test]
fn ssid_validate_reports_empty_message() {
    let result = Ssid("".to_string()).validate();
    assert_eq!(result.unwrap_err(), "SSID cannot be empty.");
}

#[test]
fn nopass_accepts_empty_string_and_rejects_nonempty() {
    let empty = Password { value: Some("".to_string()), auth_type: AuthType::Nopass };
    assert!(empty.validate().is_ok());
    let nonempty = Password { value: Some("x".to_string()), auth_type: AuthType::Nopass };
    let result = nonempty.validate();
    assert_eq!(result.unwrap_err(), "Password should not be provided for 'nopass'.");
}

#[test]
fn wep_accepts_ten_hex_digits_and_rejects_eleven() {
    let ten = Password { value: Some("0123456789".to_string()), auth_type: AuthType::Wep };
    assert!(ten.validate().is_ok());
    let eleven = Password { value: Some("0123456789a".to_string()), auth_type: AuthType::Wep };
    assert!(eleven.validate().is_err());
}

#[test]
fn wpa_rejection_cites_count_unit_and_classification() {
    let short = Password { value: Some("short".to_string()), auth_type: AuthType::Wpa };
    assert_eq!(
        short.validate().unwrap_err(),
        "WPA passphrase must be 8-63 printable ASCII characters, or 64 hex digits (current: 5 bytes string, ASCII)."
    );
    let single = Password { value: Some("x".to_string()), auth_type: AuthType::Wpa };
    assert_eq!(
        single.validate().unwrap_err(),
        "WPA passphrase must be 8-63 printable ASCII characters, or 64 hex digits (current: 1 byte string, ASCII)."
    );
    let multibyte = Password { value: Some("ああああ".to_string()), auth_type: AuthType::Wpa };
    assert_eq!(
        multibyte.validate().unwrap_err(),
        "WPA passphrase must be 8-63 printable ASCII characters, or 64 hex digits (current: 12 bytes string, non-ASCII)."
    );
}

#[test]
fn wep_rejection_cites_count_and_hex_classification() {
    let hex4 = Password { value: Some("abcd".to_string()), auth_type: AuthType::Wep };
    assert_eq!(
        hex4.validate().unwrap_err(),
        "WEP password must be 5 or 13 characters, or 10 or 26 hex digits (current: 4 bytes hex)."
    );
}

#[test]
fn wifi_validate_reports_ssid_failure_before_password_failure() {
    let wifi = Wifi {
        ssid: Ssid("".to_string()),
        password: Password {
            value: Some("bad".to_string()),
            auth_type: AuthType::Wpa,
        },
        hidden: false,
    };
    assert_eq!(wifi.validate().unwrap_err(), "SSID cannot be empty.");
}

#[test]
fn auth_type_tokens_are_canonical() {
    assert_eq!(AuthType::Wep.token(), "WEP");
    assert_eq!(AuthType::Wpa.token(), "WPA");
    assert_eq!(AuthType::Nopass.token(), "nopass");
}

#[test]
fn auth_type_defaults_to_wpa() {
    assert!(matches!(AuthType::default(), AuthType::Wpa));
}

#[test]
fn wpa_accepts_sixtyfour_hex_digits_and_rejects_sixtyfour_nonhex() {
    let hex = Password { value: Some("0a".repeat(32)), auth_type: AuthType::Wpa };
    assert!(hex.validate().is_ok());
    let nonhex = Password { value: Some("0z".repeat(32)), auth_type: AuthType::Wpa };
    assert!(nonhex.validate().is_err());
}

#[test]
fn wep_accepts_five_and_thirteen_bytes_of_any_content() {
    let five = Password { value: Some("!@#$%".to_string()), auth_type: AuthType::Wep };
    assert!(five.validate().is_ok());
    let thirteen = Password { value: Some("zzzzzzzzzzzzz".to_string()), auth_type: AuthType::Wep };
    assert!(thirteen.validate().is_ok());
}
