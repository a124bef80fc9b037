//! Tokens and their lifetimes.

pub mod bearer;
pub mod expiring;
pub mod refresh;
pub mod statik;

use crate::client::response::FromResponse;
use crate::time::Timestamp;
use vstd::prelude::*;

pub use self::bearer::Bearer;
pub use self::bearer::BearerView;
pub use self::expiring::Expiring;
pub use self::expiring::ExpiringView;
pub use self::refresh::Refresh;
pub use self::refresh::RefreshView;
pub use self::statik::Static;

verus! {

/// How long a token is valid.
pub trait Lifetime: FromResponse {
    /// Whether a token of this lifetime is no longer valid at `now`.
    spec fn ended(view: Self::V, now: Timestamp) -> bool;

    /// Whether a token of this lifetime is no longer valid at `now`.
    fn expired_at(&self, now: Timestamp) -> (r: bool)
        ensures
            r == Self::ended(self@, now),
    ;

    /// Whether a token of this lifetime is no longer valid at the time the
    /// system clock shows.  The clock is read at each call.
    fn expired(&self) -> (r: bool)
        ensures
            exists|now: Timestamp| now.in_range() && r == #[trigger] Self::ended(self@, now),
    {
        let now = Timestamp::now();
        self.expired_at(now)
    }
}

} // verus!
