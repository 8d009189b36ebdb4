//! Account discovery: filtering the full account listing down to the binding
//! for one game.

use vstd::prelude::*;
use crate::errors::SdkError;
use crate::models::Account;
use crate::models::AccountList;
use crate::models::RecordCard;
use crate::models::RecordCardList;
use crate::envelope::Envelope;
use crate::types::Game;

verus! {

/// The first account in the listing bound to the given game, if any.
pub open spec fn first_account_for(s: Seq<Account>, g: Game) -> Option<Account>
    decreases s.len(),
{
    if s.len() == 0 {
        None
    } else if s[0].game == g {
        Some(s[0])
    } else {
        first_account_for(s.subrange(1, s.len() as int), g)
    }
}

/// When no account before position `i` matches, the first match of the whole
/// listing is the first match of the rest.
proof fn lemma_first_account_skip(s: Seq<Account>, i: int, g: Game)
    requires
        0 <= i <= s.len(),
        forall|j: int| 0 <= j < i ==> (#[trigger] s[j]).game != g,
    ensures
        first_account_for(s, g) == first_account_for(s.subrange(i, s.len() as int), g),
    decreases i,
{
    if i > 0 {
        lemma_first_account_skip(s, i - 1, g);
        let tail = s.subrange(i - 1, s.len() as int);
        assert(tail[0] == s[i - 1]);
        assert(tail.subrange(1, tail.len() as int) =~= s.subrange(i, s.len() as int));
    } else {
        assert(s.subrange(0, s.len() as int) =~= s);
    }
}

/// Picks the account bound to `game` from the full listing: the first
/// matching entry, deterministically, or a recoverable not-found failure
/// when the game has no binding.
pub fn pick_account(accounts: &Vec<Account>, game: Game) -> (r: Result<Account, SdkError>)
    ensures
        r is Ok <==> first_account_for(accounts@, game) is Some,
        r is Ok ==> Some(r->Ok_0) == first_account_for(accounts@, game),
        r is Err ==> r->Err_0 == SdkError::NotFound,
{
    let n = accounts.len();
    let mut i: usize = 0;
    while i < n
        invariant
            i <= n,
            n == accounts@.len(),
            forall|j: int| 0 <= j < i ==> (#[trigger] accounts@[j]).game != game,
        decreases n - i,
    {
        let a = &accounts[i];
        if a.which_game() == game {
            proof {
                lemma_first_account_skip(accounts@, i as int, game);
                let tail = accounts@.subrange(i as int, accounts@.len() as int);
                assert(tail[0] == accounts@[i as int]);
            }
            return Ok(*a);
        }
        i = i + 1;
    }
    proof {
        lemma_first_account_skip(accounts@, accounts@.len() as int, game);
        assert(accounts@.subrange(accounts@.len() as int, accounts@.len() as int)
            =~= Seq::<Account>::empty());
    }
    Err(SdkError::NotFound)
}

/// Types the account-listing response: the envelope is checked, then the
/// listing inside it is released.
pub fn accounts_from(env: Envelope<AccountList>) -> (r: Result<Vec<Account>, SdkError>)
    ensures
        r is Ok <==> env.retcode == 0 && env.data is Some,
        env.retcode == 0 && env.data is Some ==> r->Ok_0 == env.data->0.list,
        env.retcode != 0 ==> r->Err_0 == (SdkError::Upstream {
            retcode: env.retcode,
            message: env.message,
        }),
        env.retcode == 0 && env.data is None ==> r->Err_0 == SdkError::MissingData,
{
    match env.into_data() {
        Ok(l) => Ok(l.list),
        Err(e) => Err(e),
    }
}

/// Types the record-card response: the envelope is checked, then the card
/// list inside it is released.
pub fn record_cards_from(env: Envelope<RecordCardList>) -> (r: Result<Vec<RecordCard>, SdkError>)
    ensures
        r is Ok <==> env.retcode == 0 && env.data is Some,
        env.retcode == 0 && env.data is Some ==> r->Ok_0 == env.data->0.list,
        env.retcode != 0 ==> r->Err_0 == (SdkError::Upstream {
            retcode: env.retcode,
            message: env.message,
        }),
        env.retcode == 0 && env.data is None ==> r->Err_0 == SdkError::MissingData,
{
    match env.into_data() {
        Ok(l) => Ok(l.list),
        Err(e) => Err(e),
    }
}

} // verus!
