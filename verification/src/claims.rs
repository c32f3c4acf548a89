//! Claim sets: the data model, the fluent builders, the dual representation
//! of the audience claim, and the validation routine.

use vstd::prelude::*;
use crate::duration::Duration;
use crate::duration::UnixTimeStamp;
use crate::duration::TICKS_PER_SEC;
use crate::error::JWTError;
use crate::options::DEFAULT_TIME_TOLERANCE_SECS;
use crate::options::VerificationOptions;
use crate::outside;
use crate::outside::b64url_of;

verus! {

/// Type representing the fact that no application-defined claims are needed.
#[derive(Clone, Copy, Debug, PartialEq, Eq, Structural)]
pub struct NoCustomClaims {}

/// The audience claim is canonically a set, but some applications require a
/// single string instead.  Both representations are supported; conversion
/// between them goes through [`JWTClaims::convert_audiences_format`].
#[derive(Debug, PartialEq, Eq)]
pub enum Audiences {
    /// The canonical form: a set of audience names, kept as a list without
    /// duplicates.
    AsSet(Vec<String>),
    /// The degenerate single-name form.
    AsString(String),
}

impl Audiences {
    /// The audience names, as character sequences; the string form counts
    /// as its own single name, even when empty.
    pub open spec fn spec_names(&self) -> Seq<Seq<char>> {
        match self {
            Audiences::AsSet(v) => v.deep_view(),
            Audiences::AsString(s) => seq![s@],
        }
    }

    /// Whether this is the set form.
    pub open spec fn spec_is_set(&self) -> bool {
        match self {
            Audiences::AsSet(_) => true,
            Audiences::AsString(_) => false,
        }
    }

    /// True when the audience claim is in its set form.
    pub fn is_set(&self) -> (r: bool)
        ensures
            r == self.spec_is_set(),
    {
        match self {
            Audiences::AsSet(_) => true,
            _ => false,
        }
    }

    /// True when the audience claim is in its string form.
    pub fn is_string(&self) -> (r: bool)
        ensures
            r == !self.spec_is_set(),
    {
        !self.is_set()
    }
}

/// A set of claims about a token: its validity window, the parties it
/// concerns, and an application-defined payload.
///
/// The `CustomClaims` parameter can be set to [`NoCustomClaims`] when only
/// standard claims are used.  Builder methods consume the claim set and
/// return it, enabling a fluent chain.
#[derive(Debug)]
pub struct JWTClaims<CustomClaims> {
    /// Time the claims were created at.
    pub issued_at: Option<UnixTimeStamp>,
    /// Time the claims expire at.
    pub expires_at: Option<UnixTimeStamp>,
    /// Time the claims are invalid until.
    pub invalid_before: Option<UnixTimeStamp>,
    /// Issuer - can be set to anything application-specific.
    pub issuer: Option<String>,
    /// Subject - can be set to anything application-specific.
    pub subject: Option<String>,
    /// Audience.
    pub audiences: Option<Audiences>,
    /// Which of the two audience representations the claim set keeps: the
    /// string form when true, the set form otherwise.
    /// [`JWTClaims::convert_audiences_format`] is the intended way to bring
    /// the audience value in line with this flag.
    pub audiences_as_string: bool,
    /// Token identifier.  Informational only: replay protection is an
    /// external concern, better addressed by tracking the timestamp of the
    /// last valid token than by storing every identifier ever issued.
    pub jwt_id: Option<String>,
    /// Nonce, settable by hand or generated via
    /// [`JWTClaims::create_nonce`].
    pub nonce: Option<String>,
    /// Custom (application-defined) claims.
    pub custom: CustomClaims,
}

/// Does the audience-format conversion succeed on this audience value in
/// this representation mode?  Only a set of more than one name refuses the
/// string form.
pub open spec fn spec_convert_ok(aud: Option<Audiences>, as_string: bool) -> bool {
    !(as_string && (aud matches Some(Audiences::AsSet(v)) && v@.len() > 1))
}

/// The audience value the format conversion produces: `r` is `aud` brought
/// into the representation `as_string` asks for.  A value already in that
/// representation, and an absent one, stay as they are; a one-element set
/// becomes its element, an empty set the empty string; a non-empty string
/// becomes its one-element set, the empty string the empty set.
pub open spec fn spec_converted(aud: Option<Audiences>, as_string: bool, r: Option<Audiences>) -> bool {
    if as_string {
        match aud {
            None => r is None,
            Some(Audiences::AsString(s)) => r == aud,
            Some(Audiences::AsSet(v)) => r matches Some(Audiences::AsString(s)) && if v@.len() == 0 {
                s@ == Seq::<char>::empty()
            } else {
                s@ == v.deep_view()[0]
            },
        }
    } else {
        match aud {
            None => r is None,
            Some(Audiences::AsSet(v)) => r == aud,
            Some(Audiences::AsString(s)) => r matches Some(Audiences::AsSet(v)) && if s@.len() == 0 {
                v.deep_view() == Seq::<Seq<char>>::empty()
            } else {
                v.deep_view() == seq![s@]
            },
        }
    }
}

/// Is there more than one distinct name among `w`?
pub open spec fn more_than_one_name(w: Seq<Seq<char>>) -> bool {
    exists|i: int, j: int| 0 <= i < w.len() && 0 <= j < w.len() && w[i] != w[j]
}

/// All claims of `b` equal those of `a`, the audience claim and its
/// representation mode excepted.
pub open spec fn eq_but_audiences<C>(a: JWTClaims<C>, b: JWTClaims<C>) -> bool {
    &&& a.issued_at == b.issued_at
    &&& a.expires_at == b.expires_at
    &&& a.invalid_before == b.invalid_before
    &&& a.issuer == b.issuer
    &&& a.subject == b.subject
    &&& a.jwt_id == b.jwt_id
    &&& a.nonce == b.nonce
    &&& a.custom == b.custom
}

impl<CustomClaims> JWTClaims<CustomClaims> {
    /// Set the token as not being valid until `unix_timestamp`.
    pub fn invalid_before(self, unix_timestamp: UnixTimeStamp) -> (r: Self)
        ensures
            r == (JWTClaims { invalid_before: Some(unix_timestamp), ..self }),
    {
        let mut c = self;
        c.invalid_before = Some(unix_timestamp);
        c
    }

    /// Set the issuer.
    pub fn with_issuer(self, issuer: String) -> (r: Self)
        ensures
            r == (JWTClaims { issuer: Some(issuer), ..self }),
    {
        let mut c = self;
        c.issuer = Some(issuer);
        c
    }

    /// Set the subject.
    pub fn with_subject(self, subject: String) -> (r: Self)
        ensures
            r == (JWTClaims { subject: Some(subject), ..self }),
    {
        let mut c = self;
        c.subject = Some(subject);
        c
    }

    /// Set the token identifier.
    pub fn with_jwt_id(self, jwt_id: String) -> (r: Self)
        ensures
            r == (JWTClaims { jwt_id: Some(jwt_id), ..self }),
    {
        let mut c = self;
        c.jwt_id = Some(jwt_id);
        c
    }

    /// Set the nonce.
    pub fn with_nonce(self, nonce: String) -> (r: Self)
        ensures
            r == (JWTClaims { nonce: Some(nonce), ..self }),
    {
        let mut c = self;
        c.nonce = Some(nonce);
        c
    }

    /// Bring the audience value in line with the representation mode: a
    /// no-op when it already matches, otherwise the set/string switch.  A
    /// set of more than one name cannot become a string; in that case the
    /// claim set is left unchanged and the conversion fails.
    pub fn convert_audiences_format(&mut self) -> (r: Result<(), JWTError>)
        ensures
            eq_but_audiences(*old(self), *final(self)),
            final(self).audiences_as_string == old(self).audiences_as_string,
            r is Ok <==> spec_convert_ok(old(self).audiences, old(self).audiences_as_string),
            r matches Ok(u) ==> spec_converted(
                old(self).audiences,
                old(self).audiences_as_string,
                final(self).audiences,
            ),
            r matches Err(e) ==> e == JWTError::TooManyAudiences && final(self).audiences
                == old(self).audiences,
    {
        if self.audiences_as_string {
            match self.audiences.take() {
                None => Ok(()),
                Some(Audiences::AsString(s)) => {
                    self.audiences = Some(Audiences::AsString(s));
                    Ok(())
                },
                Some(Audiences::AsSet(v)) => {
                    if v.len() > 1 {
                        self.audiences = Some(Audiences::AsSet(v));
                        Err(JWTError::TooManyAudiences)
                    } else if v.len() == 0 {
                        self.audiences = Some(Audiences::AsString(String::new()));
                        Ok(())
                    } else {
                        let mut v = v;
                        match v.pop() {
                            Some(s) => {
                                self.audiences = Some(Audiences::AsString(s));
                                Ok(())
                            },
                            None => {
                                proof {
                                    assert(false);
                                }
                                Err(JWTError::TooManyAudiences)
                            },
                        }
                    }
                },
            }
        } else {
            match self.audiences.take() {
                None => Ok(()),
                Some(Audiences::AsSet(v)) => {
                    self.audiences = Some(Audiences::AsSet(v));
                    Ok(())
                },
                Some(Audiences::AsString(s)) => {
                    let mut v: Vec<String> = Vec::new();
                    if !s.as_str().is_empty() {
                        v.push(s);
                    }
                    proof {
                        if v@.len() == 1 {
                            assert(v.deep_view() =~= seq![v@[0]@]);
                        } else {
                            assert(v.deep_view() =~= Seq::<Seq<char>>::empty());
                        }
                    }
                    self.audiences = Some(Audiences::AsSet(v));
                    Ok(())
                },
            }
        }
    }

    /// Choose which representation the audience claim is kept and encoded
    /// in: the string form when `serialize_as_string` is true (no more than
    /// one audience is then allowed, though the one name may carry any
    /// delimiter the application expects), the canonical set form
    /// otherwise.  The existing audience value is converted on the spot.
    pub fn audiences_as_string(self, serialize_as_string: bool) -> (r: Result<Self, JWTError>)
        ensures
            match r {
                Ok(c) => {
                    &&& eq_but_audiences(self, c)
                    &&& c.audiences_as_string == serialize_as_string
                    &&& spec_convert_ok(self.audiences, serialize_as_string)
                    &&& spec_converted(self.audiences, serialize_as_string, c.audiences)
                },
                Err(e) => {
                    &&& e == JWTError::TooManyAudiences
                    &&& !spec_convert_ok(self.audiences, serialize_as_string)
                },
            },
    {
        let mut c = self;
        c.audiences_as_string = serialize_as_string;
        match c.convert_audiences_format() {
            Ok(()) => Ok(c),
            Err(e) => Err(e),
        }
    }

    /// Set the audiences from a list of names; duplicate names collapse
    /// into one.  In the string representation mode, more than one distinct
    /// name is refused.
    pub fn with_audiences(self, audiences: Vec<String>) -> (r: Result<Self, JWTError>)
        ensures
            match r {
                Ok(c) => {
                    &&& eq_but_audiences(self, c)
                    &&& c.audiences_as_string == self.audiences_as_string
                    &&& if self.audiences_as_string {
                        &&& !more_than_one_name(audiences.deep_view())
                        &&& c.audiences matches Some(Audiences::AsString(s)) && if audiences@.len()
                            == 0 {
                            s@ == Seq::<char>::empty()
                        } else {
                            audiences.deep_view().contains(s@)
                        }
                    } else {
                        c.audiences matches Some(Audiences::AsSet(v)) && {
                            &&& v.deep_view().no_duplicates()
                            &&& forall|x: Seq<char>|
                                #[trigger] v.deep_view().contains(x)
                                    <==> audiences.deep_view().contains(x)
                        }
                    }
                },
                Err(e) => {
                    &&& e == JWTError::TooManyAudiences
                    &&& self.audiences_as_string
                    &&& more_than_one_name(audiences.deep_view())
                },
            },
    {
        let unique = dedup_strings(&audiences);
        proof {
            lemma_distinct_names(unique.deep_view(), audiences.deep_view());
            if audiences.deep_view().len() > 0 {
                assert(audiences.deep_view().contains(audiences.deep_view()[0]));
                assert(unique.deep_view().contains(audiences.deep_view()[0]));
                assert(unique.deep_view().len() > 0);
                assert(unique.deep_view().contains(unique.deep_view()[0]));
                assert(audiences.deep_view().contains(unique.deep_view()[0]));
            } else {
                assert(unique.deep_view().len() == 0) by {
                    if unique.deep_view().len() > 0 {
                        assert(unique.deep_view().contains(unique.deep_view()[0]));
                        assert(audiences.deep_view().contains(unique.deep_view()[0]));
                    }
                };
            }
        }
        let mut c = self;
        c.audiences = Some(Audiences::AsSet(unique));
        match c.convert_audiences_format() {
            Ok(()) => Ok(c),
            Err(e) => Err(e),
        }
    }

    /// Create a random nonce, attach it and return it: 24 bytes from the
    /// secure random source, encoded as 32 characters of unpadded URL-safe
    /// Base64.
    pub fn create_nonce(&mut self) -> (r: String)
        ensures
            eq_but_audiences(
                (JWTClaims { nonce: old(self).nonce, ..*final(self) }),
                *old(self),
            ),
            final(self).audiences == old(self).audiences,
            final(self).audiences_as_string == old(self).audiences_as_string,
            final(self).nonce == Some(r),
            r@.len() == 32,
            exists|b: Seq<u8>| b.len() == 24 && r@ == #[trigger] b64url_of(b),
    {
        let raw_nonce = outside::random_bytes_24();
        let nonce = outside::b64url_encode(&raw_nonce);
        proof {
            assert(raw_nonce@.len() == 24 && nonce@ == b64url_of(raw_nonce@));
        }
        self.nonce = Some(nonce.clone());
        nonce
    }
}

/// Does `s` occur among the names in `v`?
fn contains_string(v: &Vec<String>, s: &String) -> (r: bool)
    ensures
        r == v.deep_view().contains(s@),
{
    let mut i: usize = 0;
    while i < v.len()
        invariant
            i <= v@.len(),
            forall|j: int| 0 <= j < i ==> v.deep_view()[j] != s@,
        decreases v@.len() - i,
    {
        if v[i].eq(s) {
            proof {
                assert(v.deep_view()[i as int] == s@);
            }
            return true;
        }
        i += 1;
    }
    false
}

/// Copy `v` keeping only the first occurrence of each name.
fn dedup_strings(v: &Vec<String>) -> (r: Vec<String>)
    ensures
        r.deep_view().no_duplicates(),
        forall|x: Seq<char>| #[trigger] r.deep_view().contains(x) <==> v.deep_view().contains(x),
{
    let mut out: Vec<String> = Vec::new();
    let mut i: usize = 0;
    while i < v.len()
        invariant
            i <= v@.len(),
            out.deep_view().no_duplicates(),
            forall|x: Seq<char>| #[trigger] out.deep_view().contains(x) ==> v.deep_view().contains(
                x,
            ),
            forall|k: int| 0 <= k < i ==> out.deep_view().contains(#[trigger] v.deep_view()[k]),
        decreases v@.len() - i,
    {
        let present = contains_string(&out, &v[i]);
        if !present {
            let ghost pre = out.deep_view();
            out.push(v[i].clone());
            proof {
                assert(out.deep_view() =~= pre.push(v.deep_view()[i as int]));
                assert forall|x: Seq<char>| #[trigger] out.deep_view().contains(x) implies v
                    .deep_view().contains(x) by {
                    let j = choose|j: int| 0 <= j < out.deep_view().len() && out.deep_view()[j]
                        == x;
                    if j < pre.len() {
                        assert(pre.contains(x));
                    } else {
                        assert(x == v.deep_view()[i as int]);
                        assert(v.deep_view().contains(x));
                    }
                }
                assert forall|k: int| 0 <= k < i + 1 implies out.deep_view().contains(
                    #[trigger] v.deep_view()[k],
                ) by {
                    if k < i {
                        assert(pre.contains(v.deep_view()[k]));
                        let j = choose|j: int| 0 <= j < pre.len() && pre[j] == v.deep_view()[k];
                        assert(out.deep_view()[j] == v.deep_view()[k]);
                    } else {
                        assert(out.deep_view()[pre.len() as int] == v.deep_view()[i as int]);
                    }
                }
                assert forall|a: int, b: int|
                    0 <= a < out.deep_view().len() && 0 <= b < out.deep_view().len() && a
                        != b implies out.deep_view()[a] != out.deep_view()[b] by {
                    if a < pre.len() && b < pre.len() {
                    } else if a < pre.len() {
                        assert(pre[a] == out.deep_view()[a]);
                        if out.deep_view()[a] == out.deep_view()[b] {
                            assert(pre.contains(v.deep_view()[i as int]));
                        }
                    } else if b < pre.len() {
                        assert(pre[b] == out.deep_view()[b]);
                        if out.deep_view()[a] == out.deep_view()[b] {
                            assert(pre.contains(v.deep_view()[i as int]));
                        }
                    }
                }
            }
        } else {
            proof {
                assert(out.deep_view().contains(v.deep_view()[i as int]));
            }
        }
        i += 1;
    }
    proof {
        assert forall|x: Seq<char>| v.deep_view().contains(x) implies out.deep_view().contains(
            x,
        ) by {
            let k = choose|k: int| 0 <= k < v.deep_view().len() && v.deep_view()[k] == x;
            assert(out.deep_view().contains(v.deep_view()[k]));
        }
    }
    out
}

/// The clock-skew tolerance the policy allows, in ticks.
pub open spec fn spec_tolerance_ticks(o: &VerificationOptions) -> int {
    match o.time_tolerance {
        Some(d) => d.ticks as int,
        None => (DEFAULT_TIME_TOLERANCE_SECS as int) * (TICKS_PER_SEC as int),
    }
}

/// The absolute `reject_before` cutoff has not passed.
pub open spec fn passes_reject_before(o: &VerificationOptions, now: UnixTimeStamp) -> bool {
    match o.reject_before {
        Some(rb) => now.ticks <= rb.ticks,
        None => true,
    }
}

/// The claims were not issued further in the future than the tolerance
/// allows.
pub open spec fn passes_clock_drift<C>(
    c: &JWTClaims<C>,
    o: &VerificationOptions,
    now: UnixTimeStamp,
) -> bool {
    match c.issued_at {
        Some(i) => i.ticks <= now.ticks + spec_tolerance_ticks(o),
        None => true,
    }
}

/// The claims are not older than the policy's maximum validity; claims
/// issued in the future are not penalized by this age check.
pub open spec fn passes_max_validity<C>(
    c: &JWTClaims<C>,
    o: &VerificationOptions,
    now: UnixTimeStamp,
) -> bool {
    match (c.issued_at, o.max_validity) {
        (Some(i), Some(mv)) => now.ticks <= i.ticks || now.ticks - i.ticks <= mv.ticks,
        _ => true,
    }
}

/// The claims' lower validity bound has been reached, unless the policy
/// accepts future claims.
pub open spec fn passes_not_before<C>(
    c: &JWTClaims<C>,
    o: &VerificationOptions,
    now: UnixTimeStamp,
) -> bool {
    o.accept_future || match c.invalid_before {
        Some(nbf) => now.ticks >= nbf.ticks,
        None => true,
    }
}

/// The claims' upper validity bound is no further in the past than the
/// tolerance allows.
pub open spec fn passes_expiry<C>(
    c: &JWTClaims<C>,
    o: &VerificationOptions,
    now: UnixTimeStamp,
) -> bool {
    match c.expires_at {
        Some(e) => now.ticks - spec_tolerance_ticks(o) <= e.ticks,
        None => true,
    }
}

/// The outcome of one exact-match requirement: nothing when no value is
/// required or the claimed value matches, `missing` when a value is
/// required but none is claimed, `mismatch` when the claimed value differs.
pub open spec fn required_string_error(
    required: Option<String>,
    actual: Option<String>,
    missing: JWTError,
    mismatch: JWTError,
) -> Option<JWTError> {
    match required {
        None => None,
        Some(r) => match actual {
            None => Some(missing),
            Some(a) => if a@ == r@ {
                None
            } else {
                Some(mismatch)
            },
        },
    }
}

/// The outcome of the audience requirement: every required audience must
/// occur among the claims' audience names.  An absent audience claim fails
/// only when at least one audience is required.
pub open spec fn audiences_error<C>(c: &JWTClaims<C>, o: &VerificationOptions) -> Option<
    JWTError,
> {
    match o.required_audiences {
        None => None,
        Some(req) => match c.audiences {
            None => if req@.len() > 0 {
                Some(JWTError::RequiredAudiencesMissing)
            } else {
                None
            },
            Some(a) => if forall|k: int|
                0 <= k < req.deep_view().len() ==> a.spec_names().contains(
                    #[trigger] req.deep_view()[k],
                ) {
                None
            } else {
                Some(JWTError::RequiredAudiencesMismatch)
            },
        },
    }
}

/// What validation of `c` against the policy `o` at time `now` returns: the
/// checks run in a fixed order and the first failing one names the error.
pub open spec fn spec_validate<C>(
    c: &JWTClaims<C>,
    o: &VerificationOptions,
    now: UnixTimeStamp,
) -> Result<(), JWTError> {
    if !passes_reject_before(o, now) {
        Err(JWTError::OldTokenReused)
    } else if !passes_clock_drift(c, o, now) {
        Err(JWTError::ClockDrift)
    } else if !passes_max_validity(c, o, now) {
        Err(JWTError::TokenIsTooOld)
    } else if !passes_not_before(c, o, now) {
        Err(JWTError::TokenNotValidYet)
    } else if !passes_expiry(c, o, now) {
        Err(JWTError::TokenHasExpired)
    } else {
        match required_string_error(
            o.required_issuer,
            c.issuer,
            JWTError::RequiredIssuerMissing,
            JWTError::RequiredIssuerMismatch,
        ) {
            Some(e) => Err(e),
            None => match required_string_error(
                o.required_subject,
                c.subject,
                JWTError::RequiredSubjectMissing,
                JWTError::RequiredSubjectMismatch,
            ) {
                Some(e) => Err(e),
                None => match required_string_error(
                    o.required_nonce,
                    c.nonce,
                    JWTError::RequiredNonceMissing,
                    JWTError::RequiredNonceMismatch,
                ) {
                    Some(e) => Err(e),
                    None => match audiences_error(c, o) {
                        Some(e) => Err(e),
                        None => Ok(()),
                    },
                },
            },
        }
    }
}

/// Does the audience claim carry this name?
fn audience_contains(a: &Audiences, s: &String) -> (r: bool)
    ensures
        r == a.spec_names().contains(s@),
{
    match a {
        Audiences::AsSet(v) => contains_string(v, s),
        Audiences::AsString(t) => {
            let r = t.eq(s);
            proof {
                if t@ == s@ {
                    assert(a.spec_names()[0] == s@);
                } else {
                    if a.spec_names().contains(s@) {
                        let i = choose|i: int|
                            0 <= i < a.spec_names().len() && a.spec_names()[i] == s@;
                        assert(i == 0);
                    }
                }
            }
            r
        },
    }
}

/// Does the audience claim carry every one of the required names?
fn audiences_contain_all(a: &Audiences, req: &Vec<String>) -> (r: bool)
    ensures
        r == (forall|k: int|
            0 <= k < req.deep_view().len() ==> a.spec_names().contains(
                #[trigger] req.deep_view()[k],
            )),
{
    let mut k: usize = 0;
    while k < req.len()
        invariant
            k <= req@.len(),
            forall|j: int|
                0 <= j < k ==> a.spec_names().contains(#[trigger] req.deep_view()[j]),
        decreases req@.len() - k,
    {
        if !audience_contains(a, &req[k]) {
            proof {
                assert(!a.spec_names().contains(req.deep_view()[k as int]));
            }
            return false;
        }
        k += 1;
    }
    true
}

impl<CustomClaims> JWTClaims<CustomClaims> {
    /// Check this claim set against the policy `options`, as of the time
    /// `now`.  The checks run in a fixed order and the first failing one
    /// reports its specific reason; see [`spec_validate`] for the exact
    /// outcome on every input.
    pub fn validate_at(&self, options: &VerificationOptions, now: UnixTimeStamp) -> (r: Result<
        (),
        JWTError,
    >)
        ensures
            r == spec_validate(self, options, now),
    {
        let time_tolerance = match options.time_tolerance {
            Some(d) => d,
            None => Duration::from_secs(DEFAULT_TIME_TOLERANCE_SECS),
        };
        proof {
            assert(time_tolerance.ticks == spec_tolerance_ticks(options));
        }
        if let Some(rb) = options.reject_before {
            if now.ticks > rb.ticks {
                return Err(JWTError::OldTokenReused);
            }
        }
        if let Some(time_issued) = self.issued_at {
            let drift_ok = if now.ticks <= u64::MAX - time_tolerance.ticks {
                time_issued.ticks <= now.ticks + time_tolerance.ticks
            } else {
                true
            };
            if !drift_ok {
                return Err(JWTError::ClockDrift);
            }
            if let Some(max_validity) = options.max_validity {
                if !(now.ticks <= time_issued.ticks || now.ticks - time_issued.ticks
                    <= max_validity.ticks) {
                    return Err(JWTError::TokenIsTooOld);
                }
            }
        }
        if !options.accept_future {
            if let Some(invalid_before) = self.invalid_before {
                if now.ticks < invalid_before.ticks {
                    return Err(JWTError::TokenNotValidYet);
                }
            }
        }
        if let Some(expires_at) = self.expires_at {
            if now.ticks > time_tolerance.ticks && now.ticks - time_tolerance.ticks
                > expires_at.ticks {
                return Err(JWTError::TokenHasExpired);
            }
        }
        if let Some(required_issuer) = &options.required_issuer {
            match &self.issuer {
                Some(issuer) => if !issuer.eq(required_issuer) {
                    return Err(JWTError::RequiredIssuerMismatch);
                },
                None => {
                    return Err(JWTError::RequiredIssuerMissing);
                },
            }
        }
        if let Some(required_subject) = &options.required_subject {
            match &self.subject {
                Some(subject) => if !subject.eq(required_subject) {
                    return Err(JWTError::RequiredSubjectMismatch);
                },
                None => {
                    return Err(JWTError::RequiredSubjectMissing);
                },
            }
        }
        if let Some(required_nonce) = &options.required_nonce {
            match &self.nonce {
                Some(nonce) => if !nonce.eq(required_nonce) {
                    return Err(JWTError::RequiredNonceMismatch);
                },
                None => {
                    return Err(JWTError::RequiredNonceMissing);
                },
            }
        }
        if let Some(required_audiences) = &options.required_audiences {
            match &self.audiences {
                Some(audiences) => {
                    if !audiences_contain_all(audiences, required_audiences) {
                        return Err(JWTError::RequiredAudiencesMismatch);
                    }
                },
                None => {
                    if !required_audiences.is_empty() {
                        return Err(JWTError::RequiredAudiencesMissing);
                    }
                },
            }
        }
        Ok(())
    }

    /// Check this claim set against the policy `options` at the current
    /// time, read from the system clock.
    pub fn validate(&self, options: &VerificationOptions) -> (r: Result<(), JWTError>)
        ensures
            exists|now: UnixTimeStamp| r == #[trigger] spec_validate(self, options, now),
    {
        let now = outside::clock_now();
        let r = self.validate_at(options, now);
        proof {
            assert(r == spec_validate(self, options, now));
        }
        r
    }
}

/// A freshly created claim set: stamped `now`, valid from `now` on and for
/// `valid_for` past it (the expiry saturating at the largest representable
/// time), with every other claim empty and the audience representation in
/// its canonical set mode.
pub open spec fn spec_fresh<C>(r: &JWTClaims<C>, now: UnixTimeStamp, valid_for: Duration) -> bool {
    &&& r.issued_at == Some(now)
    &&& r.invalid_before == Some(now)
    &&& r.expires_at == Some(now.spec_saturating_add(valid_for))
    &&& r.issuer is None
    &&& r.subject is None
    &&& r.audiences is None
    &&& r.jwt_id is None
    &&& r.nonce is None
    &&& !r.audiences_as_string
}

/// Entry points to create a claim set.
pub struct Claims;

impl Claims {
    /// Create a new set of claims, without custom data, expiring in
    /// `valid_for`, stamped with the current time.
    pub fn create(valid_for: Duration) -> (r: JWTClaims<NoCustomClaims>)
        ensures
            exists|now: UnixTimeStamp| #[trigger] spec_fresh(&r, now, valid_for),
    {
        let now = outside::clock_now();
        let r = Claims::create_at(now, valid_for);
        proof {
            assert(spec_fresh(&r, now, valid_for));
        }
        r
    }

    /// Create a new set of claims, without custom data, stamped with the
    /// given creation time and expiring `valid_for` later.
    pub fn create_at(now: UnixTimeStamp, valid_for: Duration) -> (r: JWTClaims<NoCustomClaims>)
        ensures
            spec_fresh(&r, now, valid_for),
    {
        Claims::with_custom_claims_at(NoCustomClaims {  }, now, valid_for)
    }

    /// Create a new set of claims, with custom data, expiring in
    /// `valid_for`, stamped with the current time.
    pub fn with_custom_claims<CustomClaims>(
        custom_claims: CustomClaims,
        valid_for: Duration,
    ) -> (r: JWTClaims<CustomClaims>)
        ensures
            exists|now: UnixTimeStamp| #[trigger] spec_fresh(&r, now, valid_for),
            r.custom == custom_claims,
    {
        let now = outside::clock_now();
        let r = Claims::with_custom_claims_at(custom_claims, now, valid_for);
        proof {
            assert(spec_fresh(&r, now, valid_for));
        }
        r
    }

    /// Create a new set of claims, with custom data, stamped with the given
    /// creation time and expiring `valid_for` later.
    pub fn with_custom_claims_at<CustomClaims>(
        custom_claims: CustomClaims,
        now: UnixTimeStamp,
        valid_for: Duration,
    ) -> (r: JWTClaims<CustomClaims>)
        ensures
            spec_fresh(&r, now, valid_for),
            r.custom == custom_claims,
    {
        JWTClaims {
            issued_at: Some(now),
            expires_at: Some(now.saturating_add(valid_for)),
            invalid_before: Some(now),
            audiences: None,
            audiences_as_string: false,
            issuer: None,
            jwt_id: None,
            subject: None,
            nonce: None,
            custom: custom_claims,
        }
    }
}

/// For every creation time and validity duration whose tick counts sum
/// within range, a fresh claim set expires exactly `valid_for` after
/// `issued_at`, and is valid from `issued_at` on; both stamps equal the
/// creation time.
pub proof fn lemma_fresh_claim_times<C>(r: &JWTClaims<C>, now: UnixTimeStamp, valid_for: Duration)
    requires
        spec_fresh(r, now, valid_for),
        now.ticks + valid_for.ticks <= u64::MAX,
    ensures
        r.issued_at == Some(now),
        r.invalid_before == r.issued_at,
        r.expires_at matches Some(e) && e.ticks == now.ticks + valid_for.ticks,
{
}

/// Validation is time-monotonic in the expiry check: with every other check
/// passing, validation succeeds exactly up to `expires_at` plus the
/// tolerance, the boundary included, and past that instant fails as
/// expired.
pub proof fn lemma_expiry_boundary<C>(
    c: &JWTClaims<C>,
    o: &VerificationOptions,
    now: UnixTimeStamp,
    t: UnixTimeStamp,
)
    requires
        c.expires_at == Some(t),
        passes_reject_before(o, now),
        passes_clock_drift(c, o, now),
        passes_max_validity(c, o, now),
        passes_not_before(c, o, now),
        required_string_error(
            o.required_issuer,
            c.issuer,
            JWTError::RequiredIssuerMissing,
            JWTError::RequiredIssuerMismatch,
        ) is None,
        required_string_error(
            o.required_subject,
            c.subject,
            JWTError::RequiredSubjectMissing,
            JWTError::RequiredSubjectMismatch,
        ) is None,
        required_string_error(
            o.required_nonce,
            c.nonce,
            JWTError::RequiredNonceMissing,
            JWTError::RequiredNonceMismatch,
        ) is None,
        audiences_error(c, o) is None,
    ensures
        spec_validate(c, o, now) == Ok::<(), JWTError>(()) <==> now.ticks <= t.ticks
            + spec_tolerance_ticks(o),
        now.ticks > t.ticks + spec_tolerance_ticks(o) ==> spec_validate(c, o, now)
            == Err::<(), JWTError>(JWTError::TokenHasExpired),
{
}

/// The `reject_before` cutoff supersedes every other check: once the
/// current time is past it, validation fails as an old token reused,
/// whatever the claims and the rest of the policy say.
pub proof fn lemma_reject_before_supersedes<C>(
    c: &JWTClaims<C>,
    o: &VerificationOptions,
    now: UnixTimeStamp,
    rb: UnixTimeStamp,
)
    requires
        o.reject_before == Some(rb),
        now.ticks > rb.ticks,
    ensures
        spec_validate(c, o, now) == Err::<(), JWTError>(JWTError::OldTokenReused),
{
}

/// A required issuer distinguishes an absent issuer claim from a
/// mismatched one: with the time checks passing, a claim set with no
/// issuer fails as missing, one with a different issuer as mismatched.
pub proof fn lemma_required_issuer_missing_vs_mismatch<C>(
    c: &JWTClaims<C>,
    o: &VerificationOptions,
    now: UnixTimeStamp,
    ri: String,
)
    requires
        o.required_issuer == Some(ri),
        passes_reject_before(o, now),
        passes_clock_drift(c, o, now),
        passes_max_validity(c, o, now),
        passes_not_before(c, o, now),
        passes_expiry(c, o, now),
    ensures
        c.issuer is None ==> spec_validate(c, o, now) == Err::<(), JWTError>(
            JWTError::RequiredIssuerMissing,
        ),
        c.issuer matches Some(i) && i@ != ri@ ==> spec_validate(c, o, now) == Err::<(), JWTError>(
            JWTError::RequiredIssuerMismatch,
        ),
{
}

/// Converting a one-element audience set to the string form and back to
/// the set form reproduces the original set, for any non-empty name: the
/// two conversion steps are stated by [`spec_converted`], as the
/// contracts of [`JWTClaims::audiences_as_string`] and
/// [`JWTClaims::convert_audiences_format`] produce them.
pub proof fn lemma_audience_round_trip(v: Vec<String>, s: String, w: Vec<String>)
    requires
        v.deep_view().len() == 1,
        v.deep_view()[0].len() > 0,
        spec_converted(Some(Audiences::AsSet(v)), true, Some(Audiences::AsString(s))),
        spec_converted(Some(Audiences::AsString(s)), false, Some(Audiences::AsSet(w))),
    ensures
        w.deep_view() == v.deep_view(),
{
    assert(w.deep_view() =~= v.deep_view());
}

/// A set of more than one audience has no string form: the conversion
/// refuses it, and its exec counterpart then reports `TooManyAudiences`
/// and leaves the claim set's audience value unchanged.
pub proof fn lemma_audience_to_string_too_many(v: Vec<String>)
    requires
        v@.len() > 1,
    ensures
        !spec_convert_ok(Some(Audiences::AsSet(v)), true),
{
}

/// With no duplicates among `u` and the same names occurring in `u` and
/// `w`, `u` counts more than one element exactly when `w` holds more than
/// one distinct name.
proof fn lemma_distinct_names(u: Seq<Seq<char>>, w: Seq<Seq<char>>)
    requires
        u.no_duplicates(),
        forall|x: Seq<char>| #[trigger] u.contains(x) <==> w.contains(x),
    ensures
        u.len() > 1 <==> more_than_one_name(w),
{
    if u.len() > 1 {
        assert(u.contains(u[0]));
        assert(u.contains(u[1]));
        assert(u[0] != u[1]);
        let i = choose|i: int| 0 <= i < w.len() && w[i] == u[0];
        let j = choose|j: int| 0 <= j < w.len() && w[j] == u[1];
        assert(0 <= i < w.len() && 0 <= j < w.len() && w[i] != w[j]);
    }
    if more_than_one_name(w) {
        let (i, j) = choose|i: int, j: int| 0 <= i < w.len() && 0 <= j < w.len() && w[i] != w[j];
        assert(w.contains(w[i]));
        assert(w.contains(w[j]));
        assert(u.contains(w[i]));
        assert(u.contains(w[j]));
        let a = choose|a: int| 0 <= a < u.len() && u[a] == w[i];
        let b = choose|b: int| 0 <= b < u.len() && u[b] == w[j];
        assert(a != b);
    }
}

} // verus!

