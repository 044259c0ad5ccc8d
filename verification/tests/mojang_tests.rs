use hyperion_core::mojang::{
    evaluate_response, parse_uuid, username_url, uuid_url, ProfileError,
};

#[test]
fn username_url_appends_the_username() {
    assert_eq!(
        username_url("Emerald_Explorer"),
        "https://mowojang.matdoes.dev/users/profiles/minecraft/Emerald_Explorer"
    );
}

#[test]
fn uuid_url_wraps_the_uuid_text() {
    assert_eq!(
        uuid_url("86271406-1188-44a5-8496-7af10c906204"),
        "https://mowojang.matdoes.dev/session/minecraft/profile/86271406-1188-44a5-8496-7af10c906204?unsigned=false"
    );
}

#[test]
fn parse_uuid_reads_canonical_text() {
    let parsed = parse_uuid(b"86271406-1188-44a5-8496-7af10c906204").unwrap();
    assert_eq!(parsed, 0x86271406_1188_44a5_8496_7af10c906204u128);
}

#[test]
fn parse_uuid_accepts_upper_case_digits() {
    let parsed = parse_uuid(b"86271406-1188-44A5-8496-7AF10C906204").unwrap();
    assert_eq!(parsed, 0x86271406_1188_44a5_8496_7af10c906204u128);
}

#[test]
fn parse_uuid_rejects_malformed_text() {
    assert_eq!(parse_uuid(b"86271406-1188-44a5-8496-7af10c90620"), None);
    assert_eq!(parse_uuid(b"86271406x1188-44a5-8496-7af10c906204"), None);
    assert_eq!(parse_uuid(b"8627140g-1188-44a5-8496-7af10c906204"), None);
    assert_eq!(parse_uuid(b""), None);
}

#[test]
fn response_acceptance_rule() {
    assert_eq!(evaluate_response(true, false), Ok(()));
    assert_eq!(evaluate_response(false, false), Err(ProfileError::HttpFailure));
    assert_eq!(evaluate_response(false, true), Err(ProfileError::HttpFailure));
    assert_eq!(evaluate_response(true, true), Err(ProfileError::ApiError));
}
