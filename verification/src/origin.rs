//! The origin of a request, and the check that it was signed.

use frame_support::sp_runtime::traits::BadOrigin;
use vstd::prelude::*;

verus! {

/// `sp_runtime::traits::BadOrigin`, the refusal of `frame_system::ensure_signed`:
/// a value without content.
#[verifier::external_type_specification]
#[verifier::external_body]
pub struct ExBadOrigin(BadOrigin);

/// `frame_system::RawOrigin`, the origin as `frame_system::ensure_signed` reads it.
/// Nothing is said of what a value holds.
#[verifier::external_type_specification]
#[verifier::external_body]
#[verifier::reject_recursive_types(AccountId)]
pub struct ExRawOrigin<AccountId>(frame_system::RawOrigin<AccountId>);

/// Where a request comes from.
#[derive(Debug, PartialEq, Eq)]
pub enum Origin<AccountId> {
    /// The system itself.
    Root,
    /// An account that signed the request.
    Signed(AccountId),
    /// Nobody.
    Nobody,
    /// Nobody, but the runtime authorized the request.
    Authorized,
}

/// Hands an origin to `frame_system`, variant for variant. The conversion never
/// fails: every origin here is one of the system's own.
impl<AccountId> From<Origin<AccountId>> for Result<
    frame_system::RawOrigin<AccountId>,
    Origin<AccountId>,
> {
    #[verifier::external_body]
    fn from(origin: Origin<AccountId>) -> (raw: Self) {
        Ok(
            match origin {
                Origin::Root => frame_system::RawOrigin::Root,
                Origin::Signed(who) => frame_system::RawOrigin::Signed(who),
                Origin::Nobody => frame_system::RawOrigin::None,
                Origin::Authorized => frame_system::RawOrigin::Authorized,
            },
        )
    }
}

/// Calls `frame_system::ensure_signed`: a signed origin gives the account that
/// signed, every other origin is refused.
#[verifier::external_body]
pub(crate) fn ensure_signed<AccountId>(origin: Origin<AccountId>) -> (who: Result<
    AccountId,
    BadOrigin,
>)
    ensures
        match origin {
            Origin::Signed(account) => who == Ok::<AccountId, BadOrigin>(account),
            _ => who is Err,
        },
{
    frame_system::ensure_signed(origin)
}

} // verus!
