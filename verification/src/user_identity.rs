//! The data entity of one authenticated identity: its token pair, the
//! timestamps that drive staleness and expiry decisions, and the metadata
//! the application reads from it.

use vstd::prelude::*;

use crate::codec::{
    spec_enc_bool, spec_enc_int, spec_enc_str, spec_parse_bool, spec_parse_int, spec_parse_str,
    lemma_fixed_digits_len, lemma_parse_int_of_enc, lemma_parse_str_of_enc, push_int,
    push_str_chars, read_bool, read_int, read_str_chars,
};
use crate::strutil::{append_chars, chars_of, string_from_chars};

verus! {

/// Seconds after `last_accessed` beyond which a session must be re-validated
/// against the identity provider before it is trusted again.
pub const STALENESS_SECONDS: i64 = 300;

/// Fallback lifetime granted to a session whose durable row carries no
/// expiry timestamp.
pub const DEFAULT_EXPIRY_SECONDS: i64 = 86400;

/// Strength of the authentication behind a session: `Basic` after a plain
/// password sign-in, `Elevated` once a second factor has been verified.
#[derive(Clone, Copy, PartialEq, Eq, Structural, Debug)]
pub enum AssuranceLevel {
    Basic,
    Elevated,
}

/// Token material and metadata of one authenticated identity.
///
/// `auth_token` and `refresh_token` are opaque bearer credentials and are
/// always replaced together, so the pair never mixes two grants.
/// `expiry_date` and `last_accessed` are absolute timestamps in seconds
/// since the Unix epoch; `expiry_date` is sourced from the durable session
/// row, `last_accessed` only drives staleness decisions.
#[derive(Debug)]
pub struct IdentityData {
    pub auth_token: String,
    pub refresh_token: String,
    pub expiry_date: i64,
    pub last_accessed: i64,
    pub user_id: String,
    pub email: String,
    pub has_mfa: bool,
    pub aal: AssuranceLevel,
}

/// Mathematical value of an `IdentityData`.
pub struct IdentityView {
    pub auth_token: Seq<char>,
    pub refresh_token: Seq<char>,
    pub expiry_date: int,
    pub last_accessed: int,
    pub user_id: Seq<char>,
    pub email: Seq<char>,
    pub has_mfa: bool,
    pub aal: AssuranceLevel,
}

impl View for IdentityData {
    type V = IdentityView;

    open spec fn view(&self) -> IdentityView {
        IdentityView {
            auth_token: self.auth_token@,
            refresh_token: self.refresh_token@,
            expiry_date: self.expiry_date as int,
            last_accessed: self.last_accessed as int,
            user_id: self.user_id@,
            email: self.email@,
            has_mfa: self.has_mfa,
            aal: self.aal,
        }
    }
}

/// `a + b` clamped into the `i64` range.
pub open spec fn spec_sat_add_i64(a: int, b: int) -> int {
    if a + b > i64::MAX {
        i64::MAX as int
    } else if a + b < i64::MIN {
        i64::MIN as int
    } else {
        a + b
    }
}

/// Saturating `i64` addition.
pub fn sat_add_i64(a: i64, b: i64) -> (r: i64)
    ensures
        r == spec_sat_add_i64(a as int, b as int),
{
    if b >= 0 {
        if a > i64::MAX - b {
            i64::MAX
        } else {
            a + b
        }
    } else {
        if a < i64::MIN - b {
            i64::MIN
        } else {
            a + b
        }
    }
}

/// Whether an identity last validated at `last_accessed` must be checked
/// against the provider again at time `now`.
pub open spec fn spec_is_stale(last_accessed: int, now: int) -> bool {
    now > spec_sat_add_i64(last_accessed, STALENESS_SECONDS as int)
}

/// The expiry a session is given when its durable row carries none: one
/// default lifetime from now.
pub open spec fn spec_expiry_or_default(expiry: Option<int>, now: int) -> int {
    match expiry {
        Some(t) => t,
        None => spec_sat_add_i64(now, DEFAULT_EXPIRY_SECONDS as int),
    }
}

/// The stored expiry timestamp, or the default lifetime from `now` when
/// the row carries none.
pub fn expiry_or_default(expiry: Option<i64>, now: i64) -> (r: i64)
    ensures
        r as int == spec_expiry_or_default(
            match expiry {
                Some(t) => Some(t as int),
                None => None,
            },
            now as int,
        ),
{
    match expiry {
        Some(t) => t,
        None => sat_add_i64(now, DEFAULT_EXPIRY_SECONDS),
    }
}

impl IdentityData {
    /// An exact copy; every field keeps its value.
    pub fn duplicate(&self) -> (r: IdentityData)
        ensures
            r@ == self@,
    {
        IdentityData {
            auth_token: self.auth_token.clone(),
            refresh_token: self.refresh_token.clone(),
            expiry_date: self.expiry_date,
            last_accessed: self.last_accessed,
            user_id: self.user_id.clone(),
            email: self.email.clone(),
            has_mfa: self.has_mfa,
            aal: self.aal,
        }
    }

    /// A one-line rendering of the identity, with the timestamps written
    /// as plain seconds since the Unix epoch.
    pub fn describe(&self) -> (r: String)
        ensures
            r@ == "IdentityData { auth_token: '"@ + self@.auth_token
                + "', refresh_token: '"@ + self@.refresh_token + "', expiry_date: '"@
                + crate::codec::spec_dec_int(self@.expiry_date) + "', last_accessed: '"@
                + crate::codec::spec_dec_int(self@.last_accessed) + "', user_id: '"@
                + self@.user_id + "', email: '"@ + self@.email + "' }"@,
    {
        let mut out = chars_of("IdentityData { auth_token: '");
        append_chars(&mut out, &chars_of(self.auth_token.as_str()));
        append_chars(&mut out, &chars_of("', refresh_token: '"));
        append_chars(&mut out, &chars_of(self.refresh_token.as_str()));
        append_chars(&mut out, &chars_of("', expiry_date: '"));
        crate::codec::push_dec_int(&mut out, self.expiry_date);
        append_chars(&mut out, &chars_of("', last_accessed: '"));
        crate::codec::push_dec_int(&mut out, self.last_accessed);
        append_chars(&mut out, &chars_of("', user_id: '"));
        append_chars(&mut out, &chars_of(self.user_id.as_str()));
        append_chars(&mut out, &chars_of("', email: '"));
        append_chars(&mut out, &chars_of(self.email.as_str()));
        append_chars(&mut out, &chars_of("' }"));
        let r = string_from_chars(&out);
        assert(r@ =~= "IdentityData { auth_token: '"@ + self@.auth_token
            + "', refresh_token: '"@ + self@.refresh_token + "', expiry_date: '"@
            + crate::codec::spec_dec_int(self@.expiry_date) + "', last_accessed: '"@
            + crate::codec::spec_dec_int(self@.last_accessed) + "', user_id: '"@
            + self@.user_id + "', email: '"@ + self@.email + "' }"@);
        r
    }

    /// Whether the identity is stale at time `now` and the provider must be
    /// asked whether the account still exists before the session is trusted.
    pub fn should_refetch_user(&self, now: i64) -> (r: bool)
        ensures
            r == spec_is_stale(self.last_accessed as int, now as int),
    {
        now > sat_add_i64(self.last_accessed, STALENESS_SECONDS)
    }
}

/// The instant, in seconds since the Unix epoch, written in an ISO-8601
/// datetime text, or `None` when the text is not one.  Stating the ISO-8601
/// grammar is out of proportion here, so the parser's result is only named:
/// it is a function of the text alone.
pub uninterp spec fn iso_instant_of(s: Seq<char>) -> Option<int>;

/// Relies on `time::OffsetDateTime::parse` with the ISO-8601 well-known
/// format, and on `time::OffsetDateTime::unix_timestamp` to read the parsed
/// instant out: both compute from the text alone.
#[verifier::external_body]
fn parse_iso_instant(s: &str) -> (r: Option<i64>)
    ensures
        match r {
            Some(t) => iso_instant_of(s@) == Some(t as int),
            None => iso_instant_of(s@) is None,
        },
{
    time::OffsetDateTime::parse(s, &time::format_description::well_known::Iso8601::DEFAULT)
        .ok()
        .map(|d| d.unix_timestamp())
}

/// An assurance level: one character.
pub open spec fn spec_enc_aal(a: AssuranceLevel) -> Seq<char> {
    seq![if a is Elevated { 'e' } else { 'b' }]
}

pub open spec fn spec_parse_aal(s: Seq<char>, i: int) -> Option<(AssuranceLevel, int)> {
    if 0 <= i && i + 1 <= s.len() {
        if s[i] == 'e' {
            Some((AssuranceLevel::Elevated, i + 1))
        } else if s[i] == 'b' {
            Some((AssuranceLevel::Basic, i + 1))
        } else {
            None
        }
    } else {
        None
    }
}

/// The serialized form of an identity: its two timestamps, the two flags,
/// then its four strings, each field at a computable offset.
pub open spec fn spec_encode_identity(v: IdentityView) -> Seq<char> {
    spec_enc_int(v.expiry_date) + spec_enc_int(v.last_accessed) + spec_enc_bool(v.has_mfa)
        + spec_enc_aal(v.aal) + spec_enc_str(v.auth_token) + spec_enc_str(v.refresh_token)
        + spec_enc_str(v.user_id) + spec_enc_str(v.email)
}

/// The identity serialized in `s`, or `None` if `s` is not exactly one
/// serialized identity.
pub open spec fn spec_decode_identity(s: Seq<char>) -> Option<IdentityView> {
    match spec_parse_int(s, 0) {
        Some((expiry, i1)) => match spec_parse_int(s, i1) {
            Some((last, i2)) => match spec_parse_bool(s, i2) {
                Some((mfa, i3)) => match spec_parse_aal(s, i3) {
                    Some((aal, i4)) => match spec_parse_str(s, i4) {
                        Some((auth, i5)) => match spec_parse_str(s, i5) {
                            Some((refresh, i6)) => match spec_parse_str(s, i6) {
                                Some((uid, i7)) => match spec_parse_str(s, i7) {
                                    Some((email, i8)) => if i8 == s.len() {
                                        Some(
                                            IdentityView {
                                                auth_token: auth,
                                                refresh_token: refresh,
                                                expiry_date: expiry,
                                                last_accessed: last,
                                                user_id: uid,
                                                email: email,
                                                has_mfa: mfa,
                                                aal: aal,
                                            },
                                        )
                                    } else {
                                        None
                                    },
                                    None => None,
                                },
                                None => None,
                            },
                            None => None,
                        },
                        None => None,
                    },
                    None => None,
                },
                None => None,
            },
            None => None,
        },
        None => None,
    }
}

/// What every identity held in memory satisfies: its timestamps fit an
/// `i64` and its strings fit in memory.
pub open spec fn wf_identity_view(v: IdentityView) -> bool {
    &&& i64::MIN as int <= v.expiry_date <= i64::MAX as int
    &&& i64::MIN as int <= v.last_accessed <= i64::MAX as int
    &&& v.auth_token.len() <= usize::MAX as nat
    &&& v.refresh_token.len() <= usize::MAX as nat
    &&& v.user_id.len() <= usize::MAX as nat
    &&& v.email.len() <= usize::MAX as nat
}

impl IdentityData {
    /// Serializes the identity into the payload stored under a session
    /// record.
    pub fn into_record_data(&self) -> (out: Vec<char>)
        ensures
            out@ == spec_encode_identity(self@),
            wf_identity_view(self@),
    {
        let mut out: Vec<char> = Vec::new();
        push_int(&mut out, self.expiry_date);
        push_int(&mut out, self.last_accessed);
        out.push(if self.has_mfa {
            '1'
        } else {
            '0'
        });
        out.push(match self.aal {
            AssuranceLevel::Elevated => 'e',
            AssuranceLevel::Basic => 'b',
        });
        let auth_cs = chars_of(self.auth_token.as_str());
        push_str_chars(&mut out, &auth_cs);
        let refresh_cs = chars_of(self.refresh_token.as_str());
        push_str_chars(&mut out, &refresh_cs);
        let uid_cs = chars_of(self.user_id.as_str());
        push_str_chars(&mut out, &uid_cs);
        let email_cs = chars_of(self.email.as_str());
        push_str_chars(&mut out, &email_cs);
        assert(out@ =~= spec_encode_identity(self@));
        out
    }

    /// Wraps the identity into the session record stored under `id`: the
    /// record's payload is the serialized identity and the record's expiry
    /// is the identity's.
    pub fn into_session_record(self, id: &String) -> (r: crate::session_record::SessionRecord)
        ensures
            r@.id == id@,
            r@.data == spec_encode_identity(self@),
            r@.expiry_date == self@.expiry_date,
            wf_identity_view(self@),
    {
        let expiry_date = self.expiry_date;
        let data = self.into_record_data();
        crate::session_record::SessionRecord { id: id.clone(), data, expiry_date }
    }

    /// The expiry timestamp written in a durable row's ISO-8601 column, or
    /// the default lifetime from `now` when the column is absent or does
    /// not parse.
    pub fn parse_expiry_date(expiry_date: &Option<String>, now: i64) -> (r: i64)
        ensures
            ({
                let parsed = match *expiry_date {
                    Some(s) => iso_instant_of(s@),
                    None => None,
                };
                r as int == spec_expiry_or_default(parsed, now as int)
            }),
    {
        let parsed = match expiry_date {
            Some(s) => parse_iso_instant(s.as_str()),
            None => None,
        };
        expiry_or_default(parsed, now)
    }

    /// Deserializes an identity from a stored payload; `None` when the
    /// payload is corrupt.
    pub fn from_record_data(data: &Vec<char>) -> (r: Option<IdentityData>)
        ensures
            match r {
                Some(rec) => spec_decode_identity(data@) == Some(rec@),
                None => spec_decode_identity(data@) is None,
            },
    {
        let step0 = read_int(data, 0);
        let (expiry_date, i1) = match step0 {
            Some(p) => p,
            None => {
                return None;
            },
        };
        let step1 = read_int(data, i1);
        let (last_accessed, i2) = match step1 {
            Some(p) => p,
            None => {
                return None;
            },
        };
        let step2 = read_bool(data, i2);
        let (has_mfa, i3) = match step2 {
            Some(p) => p,
            None => {
                return None;
            },
        };
        let step3 = read_aal(data, i3);
        let (aal, i4) = match step3 {
            Some(p) => p,
            None => {
                return None;
            },
        };
        let step4 = read_str_chars(data, i4);
        let (auth_cs, i5) = match step4 {
            Some(p) => p,
            None => {
                return None;
            },
        };
        let step5 = read_str_chars(data, i5);
        let (refresh_cs, i6) = match step5 {
            Some(p) => p,
            None => {
                return None;
            },
        };
        let step6 = read_str_chars(data, i6);
        let (uid_cs, i7) = match step6 {
            Some(p) => p,
            None => {
                return None;
            },
        };
        let step7 = read_str_chars(data, i7);
        let (email_cs, i8) = match step7 {
            Some(p) => p,
            None => {
                return None;
            },
        };
        if i8 != data.len() {
            return None;
        }
        Some(
            IdentityData {
                auth_token: string_from_chars(&auth_cs),
                refresh_token: string_from_chars(&refresh_cs),
                expiry_date,
                last_accessed,
                user_id: string_from_chars(&uid_cs),
                email: string_from_chars(&email_cs),
                has_mfa,
                aal,
            },
        )
    }
}

/// Reads an encoded assurance level from `s` at `i`.
fn read_aal(s: &Vec<char>, i: usize) -> (r: Option<(AssuranceLevel, usize)>)
    ensures
        match r {
            Some((a, j)) => spec_parse_aal(s@, i as int) == Some((a, j as int)),
            None => spec_parse_aal(s@, i as int) is None,
        },
{
    if i >= s.len() {
        return None;
    }
    let c = s[i];
    if c == 'e' {
        Some((AssuranceLevel::Elevated, i + 1))
    } else if c == 'b' {
        Some((AssuranceLevel::Basic, i + 1))
    } else {
        None
    }
}

/// A serialized identity deserializes back to the identity it came from.
pub proof fn lemma_identity_codec_roundtrip(v: IdentityView)
    requires
        wf_identity_view(v),
    ensures
        spec_decode_identity(spec_encode_identity(v)) == Some(v),
{
    let e = spec_encode_identity(v);
    let e1 = spec_enc_int(v.expiry_date);
    let e2 = spec_enc_int(v.last_accessed);
    let e3 = spec_enc_bool(v.has_mfa);
    let e4 = spec_enc_aal(v.aal);
    let e5 = spec_enc_str(v.auth_token);
    let e6 = spec_enc_str(v.refresh_token);
    let e7 = spec_enc_str(v.user_id);
    let e8 = spec_enc_str(v.email);
    lemma_fixed_digits_len(crate::codec::spec_abs(v.expiry_date), 20);
    lemma_fixed_digits_len(crate::codec::spec_abs(v.last_accessed), 20);
    lemma_fixed_digits_len(v.auth_token.len(), 20);
    lemma_fixed_digits_len(v.refresh_token.len(), 20);
    lemma_fixed_digits_len(v.user_id.len(), 20);
    lemma_fixed_digits_len(v.email.len(), 20);
    assert(e1.len() == 21 && e2.len() == 21 && e3.len() == 1 && e4.len() == 1);
    assert(e5.len() == 20 + v.auth_token.len());
    assert(e6.len() == 20 + v.refresh_token.len());
    assert(e7.len() == 20 + v.user_id.len());
    assert(e8.len() == 20 + v.email.len());
    let o4 = 44int;
    let o5 = o4 + 20 + v.auth_token.len();
    let o6 = o5 + 20 + v.refresh_token.len();
    let o7 = o6 + 20 + v.user_id.len();
    let o8 = o7 + 20 + v.email.len();
    assert(e.len() == o8);
    assert(e.subrange(0, 21) =~= e1);
    lemma_parse_int_of_enc(e, 0, v.expiry_date);
    assert(e.subrange(21, 42) =~= e2);
    lemma_parse_int_of_enc(e, 21, v.last_accessed);
    assert(e[42] == (if v.has_mfa { '1' } else { '0' }));
    assert(spec_parse_bool(e, 42) == Some((v.has_mfa, 43int)));
    assert(e[43] == (if v.aal is Elevated { 'e' } else { 'b' }));
    assert(spec_parse_aal(e, 43) == Some((v.aal, o4)));
    assert(e.subrange(o4, o5) =~= e5);
    lemma_parse_str_of_enc(e, o4, v.auth_token);
    assert(e.subrange(o5, o6) =~= e6);
    lemma_parse_str_of_enc(e, o5, v.refresh_token);
    assert(e.subrange(o6, o7) =~= e7);
    lemma_parse_str_of_enc(e, o6, v.user_id);
    assert(e.subrange(o7, o8) =~= e8);
    lemma_parse_str_of_enc(e, o7, v.email);
    assert(spec_decode_identity(e) == Some(v));
}

} // verus!
