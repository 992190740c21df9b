//! Authentication gateway: the "credentials to identity" and "identity by
//! value" contracts the session middleware relies on.

use vstd::prelude::*;

use crate::error::SupabaseError;
use crate::provider::{AccessToken, TokenCheck};
use crate::session_store::SupabaseBackend;
use crate::user_identity::IdentityData;

verus! {

/// One second-factor authenticator of a user, as the application shows it.
#[derive(Clone, Debug)]
pub struct MFAFactor {
    pub id: String,
    pub name: String,
}

/// Whether the provider considers an enrolled factor verified.
#[derive(Clone, Copy, PartialEq, Eq, Structural, Debug)]
pub enum MFAFactorStatus {
    Verified,
    Unverified,
}

/// One factor as the provider lists it: its identifier, the display name
/// given at enrollment (absent when enrollment never finished), and its
/// status.
#[derive(Debug)]
pub struct ProviderFactor {
    pub id: String,
    pub friendly_name: Option<String>,
    pub status: MFAFactorStatus,
}

/// The display name of a listed factor; enrollment marks the name
/// required, so a factor without one keeps an empty name rather than
/// failing.
pub open spec fn spec_factor_name(f: ProviderFactor) -> Seq<char> {
    match f.friendly_name {
        Some(n) => n@,
        None => Seq::<char>::empty(),
    }
}

/// The `(id, name)` pairs of the verified factors of a listing, in order.
pub open spec fn spec_verified_factors(fs: Seq<ProviderFactor>) -> Seq<(Seq<char>, Seq<char>)>
    decreases fs.len(),
{
    if fs.len() == 0 {
        Seq::<(Seq<char>, Seq<char>)>::empty()
    } else {
        spec_verified_factors(fs.drop_last()) + (if fs.last().status is Verified {
            seq![(fs.last().id@, spec_factor_name(fs.last()))]
        } else {
            Seq::<(Seq<char>, Seq<char>)>::empty()
        })
    }
}

/// The identifiers of the unverified factors of a listing, in order.
pub open spec fn spec_unverified_ids(fs: Seq<ProviderFactor>) -> Seq<Seq<char>>
    decreases fs.len(),
{
    if fs.len() == 0 {
        Seq::<Seq<char>>::empty()
    } else {
        spec_unverified_ids(fs.drop_last()) + (if fs.last().status is Unverified {
            seq![fs.last().id@]
        } else {
            Seq::<Seq<char>>::empty()
        })
    }
}

/// Splits the provider's factor listing: verified factors become the
/// user's authenticators; unverified leftovers of abandoned enrollments
/// come back as identifiers for the caller to delete at the provider.
pub fn filter_verified_factors(factors: &Vec<ProviderFactor>) -> (r: (
    Vec<MFAFactor>,
    Vec<String>,
))
    ensures
        ({
            let kept = spec_verified_factors(factors@);
            let dropped = spec_unverified_ids(factors@);
            &&& r.0@.len() == kept.len()
            &&& forall|k: int|
                0 <= k < kept.len() ==> (#[trigger] r.0@[k]).id@ == kept[k].0 && r.0@[k].name@
                    == kept[k].1
            &&& r.1@.len() == dropped.len()
            &&& forall|k: int| 0 <= k < dropped.len() ==> (#[trigger] r.1@[k])@ == dropped[k]
        }),
{
    let mut kept: Vec<MFAFactor> = Vec::new();
    let mut dropped: Vec<String> = Vec::new();
    let mut i: usize = 0;
    while i < factors.len()
        invariant
            i <= factors@.len(),
            ({
                let kept_spec = spec_verified_factors(factors@.take(i as int));
                let dropped_spec = spec_unverified_ids(factors@.take(i as int));
                &&& kept@.len() == kept_spec.len()
                &&& forall|k: int|
                    0 <= k < kept_spec.len() ==> (#[trigger] kept@[k]).id@ == kept_spec[k].0
                        && kept@[k].name@ == kept_spec[k].1
                &&& dropped@.len() == dropped_spec.len()
                &&& forall|k: int|
                    0 <= k < dropped_spec.len() ==> (#[trigger] dropped@[k])@ == dropped_spec[k]
            }),
        decreases factors@.len() - i,
    {
        let f = &factors[i];
        proof {
            assert(factors@.take(i + 1).drop_last() =~= factors@.take(i as int));
            assert(factors@.take(i + 1).last() == factors@[i as int]);
        }
        match f.status {
            MFAFactorStatus::Verified => {
                let name = match &f.friendly_name {
                    Some(n) => n.clone(),
                    None => String::new(),
                };
                kept.push(MFAFactor { id: f.id.clone(), name });
            },
            MFAFactorStatus::Unverified => {
                dropped.push(f.id.clone());
            },
        }
        i = i + 1;
    }
    proof {
        assert(factors@.take(factors@.len() as int) =~= factors@);
    }
    (kept, dropped)
}

/// The authenticated user the middleware carries per request.
#[derive(Debug)]
pub struct AppUser {
    pub identity: IdentityData,
}

impl AppUser {
    /// The identity itself serves as the user's stable identifier.
    pub fn id(&self) -> (r: IdentityData)
        ensures
            r@ == self.identity@,
    {
        self.identity.duplicate()
    }

    /// The credential whose rotation invalidates the middleware's session:
    /// the refresh token.
    pub fn session_auth_hash(&self) -> (r: String)
        ensures
            r@ == self.identity@.refresh_token,
    {
        self.identity.refresh_token.clone()
    }
}

impl SupabaseBackend {
    /// Delegates password sign-in to the provider (its outcome arrives in
    /// `signed_in`) and opens a session for the grant it issued.  A
    /// provider failure is passed through unchanged.
    pub fn authenticate(
        &self,
        signed_in: Result<AccessToken, SupabaseError>,
        check: &TokenCheck,
        now: i64,
    ) -> (r: Result<Option<AppUser>, SupabaseError>)
        ensures
            match r {
                Ok(opt) => match opt {
                    Some(user) => {
                        &&& signed_in matches Ok(tok) && match self.new_session_model(
                            tok,
                            *check,
                            now as int,
                        ) {
                            Some(iv) => user.identity@ == iv,
                            None => false,
                        }
                    },
                    None => false,
                },
                Err(e) => match signed_in {
                    Err(e0) => e@ == e0@,
                    Ok(tok) => self.new_session_model(tok, *check, now as int) is None,
                },
            },
    {
        match signed_in {
            Ok(token) => match self.new_session(&token, check, now) {
                Ok(user) => Ok(Some(user)),
                Err(e) => Err(e),
            },
            Err(e) => Err(e),
        }
    }

    /// Materializes the "current user" from already-resolved session data,
    /// without contacting the provider.
    pub fn get_user(&self, data: &IdentityData) -> (r: Result<Option<AppUser>, SupabaseError>)
        ensures
            match r {
                Ok(opt) => match opt {
                    Some(user) => user.identity@ == data@,
                    None => false,
                },
                Err(_) => false,
            },
    {
        Ok(Some(AppUser { identity: data.duplicate() }))
    }
}

} // verus!
