//! Who may run bot commands.

use vstd::prelude::*;

use crate::config::schema::{AuthorizedUser, BotConfig, BotPlatform};
use crate::text::chars_eq_str;
use crate::text::chars_of;

verus! {

/// The users of one platform allowed to run commands.
#[derive(Debug)]
pub struct BotAuth {
    allow_all: bool,
    allowed_users: Vec<String>,
}

/// The user IDs configured for `platform`, in order.
pub open spec fn platform_users(users: Seq<AuthorizedUser>, platform: BotPlatform) -> Seq<Seq<char>>
    decreases users.len(),
{
    if users.len() == 0 {
        seq![]
    } else if users.last().platform == platform {
        platform_users(users.drop_last(), platform).push(users.last().user_id@)
    } else {
        platform_users(users.drop_last(), platform)
    }
}

/// Whether `user` may run commands given the configuration: when all users
/// are allowed, or when the user is listed for the platform. With neither,
/// commands are rejected (as the configuration check warns).
pub open spec fn authorized(config: BotConfig, platform: BotPlatform, user: Seq<char>) -> bool {
    config.allow_all_users || platform_users(config.authorized_users@, platform).contains(user)
}

impl BotAuth {
    pub closed spec fn allows_all(self) -> bool {
        self.allow_all
    }

    pub closed spec fn users(self) -> Seq<Seq<char>> {
        self.allowed_users@.map_values(|s: String| s@)
    }

    /// The authorization of `platform`'s users under `config`.
    pub fn for_platform(config: &BotConfig, platform: BotPlatform) -> (r: Self)
        ensures
            r.users() == platform_users(config.authorized_users@, platform),
            r.allows_all() == config.allow_all_users,
    {
        let users = &config.authorized_users;
        let n = users.len();
        let mut allowed: Vec<String> = Vec::new();
        let mut i: usize = 0;
        while i < n
            invariant
                n == users@.len(),
                i <= n,
                users@ == config.authorized_users@,
                allowed@.map_values(|s: String| s@) == platform_users(users@.take(i as int), platform),
            decreases n - i,
        {
            proof {
                assert(users@.take(i as int + 1).drop_last() =~= users@.take(i as int));
                assert(users@.take(i as int + 1).last() == users@[i as int]);
            }
            if users[i].platform == platform {
                let ghost before = allowed@;
                allowed.push(users[i].user_id.clone());
                proof {
                    assert(allowed@.map_values(|s: String| s@) =~= before.map_values(|s: String| s@).push(
                        users@[i as int].user_id@));
                }
            }
            i = i + 1;
        }
        proof { assert(users@.take(n as int) =~= users@); }
        let allow_all = config.allow_all_users;
        BotAuth { allow_all, allowed_users: allowed }
    }

    /// Whether `user_id` may run commands.
    pub fn is_authorized(&self, user_id: &str) -> (r: bool)
        ensures
            r == (self.allows_all() || self.users().contains(user_id@)),
    {
        if self.allow_all {
            return true;
        }
        let n = self.allowed_users.len();
        let mut i: usize = 0;
        while i < n
            invariant
                n == self.allowed_users@.len(),
                i <= n,
                forall|j: int| 0 <= j < i ==> self.allowed_users@[j]@ != user_id@,
            decreases n - i,
        {
            let c = chars_of(self.allowed_users[i].as_str());
            if chars_eq_str(c.as_slice(), user_id) {
                proof { assert(self.users()[i as int] == user_id@); }
                return true;
            }
            i = i + 1;
        }
        proof {
            assert forall|j: int| 0 <= j < self.users().len() implies self.users()[j] != user_id@ by {
                assert(self.users()[j] == self.allowed_users@[j]@);
            }
        }
        false
    }
}

/// A user authorized under a configuration is authorized by the
/// authorization built for that platform, and only such a user.
pub proof fn lemma_auth_matches_config(auth: BotAuth, config: BotConfig, platform: BotPlatform, user: Seq<char>)
    requires
        auth.users() == platform_users(config.authorized_users@, platform),
        auth.allows_all() == config.allow_all_users,
    ensures
        (auth.allows_all() || auth.users().contains(user)) == authorized(config, platform, user),
{
}

} // verus!
