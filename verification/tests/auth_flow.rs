use fast_tts::auth::{
    build_jwt_bearer_form, build_refresh_form, credential_plan, default_token_uri, oauth_scope,
    parse_adc_file, parse_service_account_key, parse_token_response, token_from_override,
    token_uri_of, CredentialPlan,
};
use fast_tts::paths::default_adc_path;

#[test]
fn override_token_is_used_verbatim() {
    let plan = credential_plan(&Some(b"  tok-123  ".to_vec()), &None);
    match plan {
        CredentialPlan::UseToken(t) => assert_eq!(t, b"  tok-123  ".to_vec()),
        _ => panic!("expected the override token to win"),
    }
}

#[test]
fn override_token_beats_service_account_path() {
    let plan = credential_plan(&Some(b"tok".to_vec()), &Some(b"/k.json".to_vec()));
    assert!(matches!(plan, CredentialPlan::UseToken(_)));
}

#[test]
fn blank_override_falls_through_to_key_path() {
    let plan = credential_plan(&Some(b" \t\n ".to_vec()), &Some(b"/k.json".to_vec()));
    match plan {
        CredentialPlan::ServiceAccount(p) => assert_eq!(p, b"/k.json".to_vec()),
        _ => panic!("expected the service-account path"),
    }
}

#[test]
fn nothing_set_tries_user_credentials() {
    let plan = credential_plan(&None, &None);
    assert!(matches!(plan, CredentialPlan::TryAdc));
    assert!(token_from_override(&Some(b"".to_vec())).is_none());
}

#[test]
fn parses_service_account_key_fields() {
    let text = b"{\"client_email\":\"svc@example.iam\",\"private_key\":\"PEM\",\"token_uri\":\"https://t.example/token\"}";
    let key = parse_service_account_key(text).unwrap();
    assert_eq!(key.client_email, b"svc@example.iam".to_vec());
    assert_eq!(key.private_key_pem, b"PEM".to_vec());
    assert_eq!(key.token_uri, Some(b"https://t.example/token".to_vec()));
    assert_eq!(token_uri_of(&key), b"https://t.example/token".to_vec());
}

#[test]
fn key_without_token_uri_gets_the_standard_endpoint() {
    let text = b"{\"client_email\":\"svc@example.iam\",\"private_key\":\"PEM\"}";
    let key = parse_service_account_key(text).unwrap();
    assert!(key.token_uri.is_none());
    assert_eq!(token_uri_of(&key), b"https://oauth2.googleapis.com/token".to_vec());
    assert_eq!(default_token_uri(), "https://oauth2.googleapis.com/token");
}

#[test]
fn rejects_key_missing_required_field() {
    let err = parse_service_account_key(b"{\"client_email\":\"svc@example.iam\"}").unwrap_err();
    let m = String::from_utf8(err.message()).unwrap();
    assert!(m.contains("invalid service account key file"));
}

#[test]
fn parses_adc_file_and_requires_type_tag() {
    let good = b"{\"client_id\":\"id\",\"client_secret\":\"sec\",\"refresh_token\":\"ref\",\"type\":\"authorized_user\"}";
    let adc = parse_adc_file(good).unwrap();
    assert_eq!(adc.client_id, b"id".to_vec());
    assert_eq!(adc.client_secret, b"sec".to_vec());
    assert_eq!(adc.refresh_token, b"ref".to_vec());
    let missing_type = b"{\"client_id\":\"id\",\"client_secret\":\"sec\",\"refresh_token\":\"ref\"}";
    assert!(parse_adc_file(missing_type).is_err());
}

#[test]
fn parses_token_endpoint_reply() {
    let tok = parse_token_response(b"{\"access_token\":\"abc\",\"expires_in\":3599}").unwrap();
    assert_eq!(tok, b"abc".to_vec());
    let err = parse_token_response(b"{\"error\":\"invalid_grant\"}").unwrap_err();
    let m = String::from_utf8(err.message()).unwrap();
    assert!(m.contains("access_token"));
}

#[test]
fn jwt_bearer_form_is_percent_encoded() {
    let form = build_jwt_bearer_form(b"a.b c");
    assert_eq!(
        String::from_utf8(form).unwrap(),
        "assertion=a.b+c&grant_type=urn%3Aietf%3Aparams%3Aoauth%3Agrant-type%3Ajwt-bearer"
    );
}

#[test]
fn refresh_form_carries_the_three_fields() {
    let adc = fast_tts::auth::AdcCredential {
        client_id: b"id/1".to_vec(),
        client_secret: b"s3cr3t".to_vec(),
        refresh_token: b"r~t".to_vec(),
    };
    let form = build_refresh_form(&adc);
    assert_eq!(
        String::from_utf8(form).unwrap(),
        "client_id=id%2F1&client_secret=s3cr3t&grant_type=refresh_token&refresh_token=r%7Et"
    );
}

#[test]
fn scope_and_adc_path_are_fixed() {
    assert_eq!(oauth_scope(), "https://www.googleapis.com/auth/cloud-platform");
    assert_eq!(
        default_adc_path("/home/me"),
        b"/home/me/.config/gcloud/application_default_credentials.json".to_vec()
    );
    assert_eq!(
        default_adc_path("/home/me/"),
        b"/home/me/.config/gcloud/application_default_credentials.json".to_vec()
    );
}
