use jwt_claims::claims::Audiences;
use jwt_claims::claims::Claims;
use jwt_claims::duration::Duration;
use jwt_claims::duration::TICKS_PER_SEC;
use jwt_claims::error::JWTError;
use jwt_claims::options::VerificationOptions;

#[test]
fn should_set_standard_claims() {
    let exp = Duration::from_mins(10);
    let audiences = vec!["audience1".to_string(), "audience2".to_string()];
    let claims = Claims::create(exp)
        .with_audiences(audiences.clone())
        .unwrap()
        .with_issuer("issuer".to_string())
        .with_jwt_id("jwt_id".to_string())
        .with_nonce("nonce".to_string())
        .with_subject("subject".to_string());

    assert_eq!(claims.audiences, Some(Audiences::AsSet(audiences)));
    assert_eq!(claims.issuer, Some("issuer".to_owned()));
    assert_eq!(claims.jwt_id, Some("jwt_id".to_owned()));
    assert_eq!(claims.nonce, Some("nonce".to_owned()));
    assert_eq!(claims.subject, Some("subject".to_owned()));
}

#[test]
fn fresh_claims_are_stamped_with_creation_time() {
    let now = Duration::from_secs(1_700_000_000);
    let valid_for = Duration::from_secs(600);
    let claims = Claims::create_at(now, valid_for);
    assert_eq!(claims.issued_at, Some(now));
    assert_eq!(claims.invalid_before, Some(now));
    assert_eq!(
        claims.expires_at,
        Some(Duration::from_ticks(now.as_ticks() + valid_for.as_ticks()))
    );
    assert_eq!(claims.issuer, None);
    assert_eq!(claims.subject, None);
    assert_eq!(claims.audiences, None);
    assert_eq!(claims.jwt_id, None);
    assert_eq!(claims.nonce, None);
    assert!(!claims.audiences_as_string);
}

#[test]
fn custom_payload_is_kept() {
    let now = Duration::from_secs(1_700_000_000);
    let claims = Claims::with_custom_claims_at(42u32, now, Duration::from_secs(60));
    assert_eq!(claims.custom, 42u32);
    assert_eq!(claims.issued_at, Some(now));
}

#[test]
fn duration_tick_arithmetic() {
    assert_eq!(Duration::from_secs(1).as_ticks(), TICKS_PER_SEC);
    assert_eq!(Duration::from_mins(10), Duration::from_secs(600));
    assert_eq!(Duration::from_secs(600).as_secs(), 600);
    assert_eq!(Duration::from_ticks(7).as_ticks(), 7);
    // saturation at the largest representable duration
    assert_eq!(Duration::from_secs(u64::MAX).as_ticks(), u64::MAX);
    assert_eq!(
        Duration::from_ticks(u64::MAX).saturating_add(Duration::from_secs(1)),
        Duration::from_ticks(u64::MAX)
    );
}

#[test]
fn default_options_are_empty() {
    let options = VerificationOptions::default();
    assert!(options.time_tolerance.is_none());
    assert!(options.reject_before.is_none());
    assert!(options.max_validity.is_none());
    assert!(!options.accept_future);
    assert!(options.required_issuer.is_none());
    assert!(options.required_subject.is_none());
    assert!(options.required_nonce.is_none());
    assert!(options.required_audiences.is_none());
}

#[test]
fn audience_forms_are_told_apart() {
    let set = Audiences::AsSet(vec!["a".to_string()]);
    let string = Audiences::AsString("a".to_string());
    assert!(set.is_set());
    assert!(!set.is_string());
    assert!(string.is_string());
    assert!(!string.is_set());
}

#[test]
fn audience_round_trip_single_element() {
    let now = Duration::from_secs(1_700_000_000);
    let claims = Claims::create_at(now, Duration::from_secs(600))
        .with_audiences(vec!["only-audience".to_string()])
        .unwrap();
    let claims = claims.audiences_as_string(true).unwrap();
    assert_eq!(
        claims.audiences,
        Some(Audiences::AsString("only-audience".to_string()))
    );
    assert!(claims.audiences.as_ref().unwrap().is_string());
    let claims = claims.audiences_as_string(false).unwrap();
    assert_eq!(
        claims.audiences,
        Some(Audiences::AsSet(vec!["only-audience".to_string()]))
    );
    assert!(claims.audiences.as_ref().unwrap().is_set());
}

#[test]
fn audience_empty_name_collapses_on_round_trip() {
    let now = Duration::from_secs(1_700_000_000);
    let claims = Claims::create_at(now, Duration::from_secs(600))
        .with_audiences(vec!["".to_string()])
        .unwrap()
        .audiences_as_string(true)
        .unwrap();
    assert_eq!(claims.audiences, Some(Audiences::AsString("".to_string())));
    let claims = claims.audiences_as_string(false).unwrap();
    assert_eq!(claims.audiences, Some(Audiences::AsSet(Vec::new())));
}

#[test]
fn audience_to_string_fails_on_multiple() {
    let now = Duration::from_secs(1_700_000_000);
    let r = Claims::create_at(now, Duration::from_secs(600))
        .with_audiences(vec!["a".to_string(), "b".to_string()])
        .unwrap()
        .audiences_as_string(true);
    assert_eq!(r.err(), Some(JWTError::TooManyAudiences));

    let r2 = Claims::create_at(now, Duration::from_secs(600))
        .audiences_as_string(true)
        .unwrap()
        .with_audiences(vec!["a".to_string(), "b".to_string()]);
    assert_eq!(r2.err(), Some(JWTError::TooManyAudiences));
}

#[test]
fn duplicate_audiences_collapse() {
    let now = Duration::from_secs(1_700_000_000);
    let claims = Claims::create_at(now, Duration::from_secs(600))
        .audiences_as_string(true)
        .unwrap()
        .with_audiences(vec!["same".to_string(), "same".to_string()])
        .unwrap();
    assert_eq!(claims.audiences, Some(Audiences::AsString("same".to_string())));
}

#[test]
fn convert_leaves_audiences_unchanged_on_failure() {
    let now = Duration::from_secs(1_700_000_000);
    let mut claims = Claims::create_at(now, Duration::from_secs(600))
        .with_audiences(vec!["a".to_string(), "b".to_string()])
        .unwrap();
    claims.audiences_as_string = true;
    let r = claims.convert_audiences_format();
    assert_eq!(r, Err(JWTError::TooManyAudiences));
    assert_eq!(
        claims.audiences,
        Some(Audiences::AsSet(vec!["a".to_string(), "b".to_string()]))
    );
}

#[test]
fn valid_claims_accepted_with_matching_policy() {
    let now = Duration::from_secs(1_700_000_000);
    let claims = Claims::create_at(now, Duration::from_secs(600))
        .with_issuer("svc-a".to_string())
        .with_subject("user-1".to_string())
        .with_audiences(vec!["aud-1".to_string(), "aud-2".to_string()])
        .unwrap();
    let mut options = VerificationOptions::default();
    options.required_issuer = Some("svc-a".to_string());
    options.required_audiences = Some(vec!["aud-1".to_string()]);
    let at = Duration::from_secs(1_700_000_010);
    assert_eq!(claims.validate_at(&options, at), Ok(()));
}

#[test]
fn unknown_required_audience_is_rejected() {
    let now = Duration::from_secs(1_700_000_000);
    let claims = Claims::create_at(now, Duration::from_secs(600))
        .with_issuer("svc-a".to_string())
        .with_subject("user-1".to_string())
        .with_audiences(vec!["aud-1".to_string(), "aud-2".to_string()])
        .unwrap();
    let mut options = VerificationOptions::default();
    options.required_audiences = Some(vec!["aud-3".to_string()]);
    let at = Duration::from_secs(1_700_000_010);
    assert_eq!(
        claims.validate_at(&options, at),
        Err(JWTError::RequiredAudiencesMismatch)
    );
}

#[test]
fn expired_claims_rejected_after_tolerance() {
    // valid for 0 s, validated 20 minutes later: 1200 s elapsed > 900 s tolerance
    let now = Duration::from_secs(1_700_000_000);
    let claims = Claims::create_at(now, Duration::from_secs(0));
    let options = VerificationOptions::default();
    let at = Duration::from_secs(1_700_000_000 + 1200);
    assert_eq!(claims.validate_at(&options, at), Err(JWTError::TokenHasExpired));
}

#[test]
fn expiry_boundary_is_included() {
    let now = Duration::from_secs(1_700_000_000);
    let claims = Claims::create_at(now, Duration::from_secs(0));
    let options = VerificationOptions::default();
    let boundary = Duration::from_ticks(now.as_ticks() + 900 * TICKS_PER_SEC);
    assert_eq!(claims.validate_at(&options, boundary), Ok(()));
    let past = Duration::from_ticks(boundary.as_ticks() + 1);
    assert_eq!(
        claims.validate_at(&options, past),
        Err(JWTError::TokenHasExpired)
    );
}

#[test]
fn reject_before_supersedes_other_checks() {
    let now = Duration::from_secs(1_700_000_000);
    let claims = Claims::create_at(now, Duration::from_secs(600))
        .with_issuer("svc-a".to_string());
    let mut options = VerificationOptions::default();
    options.required_issuer = Some("svc-a".to_string());
    options.reject_before = Some(Duration::from_secs(1_700_000_005));
    // a moment before the cutoff: everything passes
    assert_eq!(
        claims.validate_at(&options, Duration::from_secs(1_700_000_004)),
        Ok(())
    );
    // past the cutoff: rejected although every other constraint is satisfied
    assert_eq!(
        claims.validate_at(&options, Duration::from_secs(1_700_000_010)),
        Err(JWTError::OldTokenReused)
    );
}

#[test]
fn required_issuer_missing_and_mismatch_are_told_apart() {
    let now = Duration::from_secs(1_700_000_000);
    let at = Duration::from_secs(1_700_000_010);
    let mut options = VerificationOptions::default();
    options.required_issuer = Some("x".to_string());

    let absent = Claims::create_at(now, Duration::from_secs(600));
    assert_eq!(
        absent.validate_at(&options, at),
        Err(JWTError::RequiredIssuerMissing)
    );

    let other = Claims::create_at(now, Duration::from_secs(600)).with_issuer("y".to_string());
    assert_eq!(
        other.validate_at(&options, at),
        Err(JWTError::RequiredIssuerMismatch)
    );
}

#[test]
fn required_subject_and_nonce_checks() {
    let now = Duration::from_secs(1_700_000_000);
    let at = Duration::from_secs(1_700_000_010);

    let mut options = VerificationOptions::default();
    options.required_subject = Some("sub".to_string());
    let absent = Claims::create_at(now, Duration::from_secs(600));
    assert_eq!(
        absent.validate_at(&options, at),
        Err(JWTError::RequiredSubjectMissing)
    );
    let other = Claims::create_at(now, Duration::from_secs(600)).with_subject("else".to_string());
    assert_eq!(
        other.validate_at(&options, at),
        Err(JWTError::RequiredSubjectMismatch)
    );

    let mut options = VerificationOptions::default();
    options.required_nonce = Some("n-1".to_string());
    let absent = Claims::create_at(now, Duration::from_secs(600));
    assert_eq!(
        absent.validate_at(&options, at),
        Err(JWTError::RequiredNonceMissing)
    );
    let matching = Claims::create_at(now, Duration::from_secs(600)).with_nonce("n-1".to_string());
    assert_eq!(matching.validate_at(&options, at), Ok(()));
    let other = Claims::create_at(now, Duration::from_secs(600)).with_nonce("n-2".to_string());
    assert_eq!(
        other.validate_at(&options, at),
        Err(JWTError::RequiredNonceMismatch)
    );
}

#[test]
fn required_audiences_missing_only_when_some_are_required() {
    let now = Duration::from_secs(1_700_000_000);
    let at = Duration::from_secs(1_700_000_010);
    let claims = Claims::create_at(now, Duration::from_secs(600));

    let mut options = VerificationOptions::default();
    options.required_audiences = Some(vec!["aud-1".to_string()]);
    assert_eq!(
        claims.validate_at(&options, at),
        Err(JWTError::RequiredAudiencesMissing)
    );

    // an empty requirement list requires nothing, like an unset one
    options.required_audiences = Some(Vec::new());
    assert_eq!(claims.validate_at(&options, at), Ok(()));
}

#[test]
fn string_audience_counts_as_its_single_set() {
    let now = Duration::from_secs(1_700_000_000);
    let at = Duration::from_secs(1_700_000_010);
    let claims = Claims::create_at(now, Duration::from_secs(600))
        .with_audiences(vec!["the-audience".to_string()])
        .unwrap()
        .audiences_as_string(true)
        .unwrap();
    let mut options = VerificationOptions::default();
    options.required_audiences = Some(vec!["the-audience".to_string()]);
    assert_eq!(claims.validate_at(&options, at), Ok(()));
    options.required_audiences = Some(vec!["another".to_string()]);
    assert_eq!(
        claims.validate_at(&options, at),
        Err(JWTError::RequiredAudiencesMismatch)
    );
}

#[test]
fn clock_drift_rejected_beyond_tolerance() {
    // issued 2000 s in the future of the validation time: beyond the 900 s
    // default tolerance
    let issue = Duration::from_secs(1_700_002_000);
    let claims = Claims::create_at(issue, Duration::from_secs(600));
    let options = VerificationOptions::default();
    let at = Duration::from_secs(1_700_000_000);
    assert_eq!(claims.validate_at(&options, at), Err(JWTError::ClockDrift));
    // issued only 600 s in the future: within tolerance, but not valid yet
    let issue = Duration::from_secs(1_700_000_600);
    let claims = Claims::create_at(issue, Duration::from_secs(600));
    assert_eq!(
        claims.validate_at(&options, at),
        Err(JWTError::TokenNotValidYet)
    );
}

#[test]
fn accept_future_skips_the_not_before_check() {
    let issue = Duration::from_secs(1_700_000_600);
    let claims = Claims::create_at(issue, Duration::from_secs(600));
    let mut options = VerificationOptions::default();
    options.accept_future = true;
    let at = Duration::from_secs(1_700_000_000);
    assert_eq!(claims.validate_at(&options, at), Ok(()));
}

#[test]
fn max_validity_rejects_old_claims() {
    let issue = Duration::from_secs(1_700_000_000);
    let claims = Claims::create_at(issue, Duration::from_secs(600));
    let mut options = VerificationOptions::default();
    options.max_validity = Some(Duration::from_secs(100));
    assert_eq!(
        claims.validate_at(&options, Duration::from_secs(1_700_000_200)),
        Err(JWTError::TokenIsTooOld)
    );
    assert_eq!(
        claims.validate_at(&options, Duration::from_secs(1_700_000_050)),
        Ok(())
    );
    // claims issued in the future are not penalized by the age check
    options.accept_future = true;
    assert_eq!(
        claims.validate_at(&options, Duration::from_secs(1_699_999_500)),
        Ok(())
    );
}

#[test]
fn explicit_invalid_before_is_enforced() {
    let now = Duration::from_secs(1_700_000_000);
    let claims = Claims::create_at(now, Duration::from_secs(600))
        .invalid_before(Duration::from_secs(1_700_000_100));
    let options = VerificationOptions::default();
    assert_eq!(
        claims.validate_at(&options, Duration::from_secs(1_700_000_050)),
        Err(JWTError::TokenNotValidYet)
    );
    assert_eq!(
        claims.validate_at(&options, Duration::from_secs(1_700_000_100)),
        Ok(())
    );
}

#[test]
fn create_nonce_attaches_32_characters() {
    let now = Duration::from_secs(1_700_000_000);
    let mut claims = Claims::create_at(now, Duration::from_secs(600));
    let nonce = claims.create_nonce();
    assert_eq!(nonce.len(), 32);
    assert_eq!(claims.nonce, Some(nonce));
}

#[test]
fn validate_with_clock_accepts_fresh_claims() {
    let claims = Claims::create(Duration::from_secs(600)).with_issuer("svc".to_string());
    let mut options = VerificationOptions::default();
    options.required_issuer = Some("svc".to_string());
    assert_eq!(claims.validate(&options), Ok(()));
}
