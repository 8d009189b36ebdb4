//! UID inference: the server identifier and deployment region of a player
//! account are pure functions of the leading digit of its numeric UID.

use vstd::prelude::*;
use crate::errors::SdkError;
use crate::types::Game;
use crate::types::Region;

verus! {

/// The most significant decimal digit of a number.
pub open spec fn leading_digit(n: nat) -> nat
    decreases n,
{
    if n < 10 {
        n
    } else {
        leading_digit(n / 10)
    }
}

/// The game server bound to a UID prefix, when the prefix is a known one.
pub open spec fn starrail_server(d: nat) -> Option<Seq<char>> {
    if d == 1 || d == 2 {
        Some("prod_gf_cn"@)
    } else if d == 5 {
        Some("prod_qd_cn"@)
    } else if d == 6 {
        Some("prod_official_usa"@)
    } else if d == 7 {
        Some("prod_official_euro"@)
    } else if d == 8 {
        Some("prod_official_asia"@)
    } else if d == 9 {
        Some("prod_official_cht"@)
    } else {
        None
    }
}

/// The deployment region bound to a UID prefix, when the prefix is known.
pub open spec fn uid_region(d: nat) -> Option<Region> {
    if d == 1 || d == 2 || d == 5 {
        Some(Region::CHINESE)
    } else if 6 <= d && d <= 9 {
        Some(Region::OVERSEAS)
    } else {
        None
    }
}

/// Computes the leading decimal digit of a UID.
pub fn uid_leading_digit(uid: u32) -> (d: u32)
    ensures
        d == leading_digit(uid as nat),
        d < 10,
{
    let mut n = uid;
    while n >= 10
        invariant
            leading_digit(n as nat) == leading_digit(uid as nat),
        decreases n,
    {
        n = n / 10;
    }
    n
}

/// Maps a UID to its game server identifier; UIDs whose prefix is unknown
/// are rejected recoverably.
pub fn recognize_starrail_server(uid: u32) -> (r: Result<String, SdkError>)
    ensures
        match r {
            Ok(s) => starrail_server(leading_digit(uid as nat)) == Some(s@),
            Err(e) => starrail_server(leading_digit(uid as nat)) is None && e
                == SdkError::UnknownUidPrefix,
        },
{
    let d = uid_leading_digit(uid);
    if d == 1 || d == 2 {
        Ok("prod_gf_cn".to_owned())
    } else if d == 5 {
        Ok("prod_qd_cn".to_owned())
    } else if d == 6 {
        Ok("prod_official_usa".to_owned())
    } else if d == 7 {
        Ok("prod_official_euro".to_owned())
    } else if d == 8 {
        Ok("prod_official_asia".to_owned())
    } else if d == 9 {
        Ok("prod_official_cht".to_owned())
    } else {
        Err(SdkError::UnknownUidPrefix)
    }
}

/// Maps a UID to the deployment region its accounts live in. The game is
/// taken for symmetry with the server lookup; every supported title uses the
/// same prefix scheme.
pub fn recognize_region(uid: u32, game: Game) -> (r: Option<Region>)
    ensures
        r == uid_region(leading_digit(uid as nat)),
{
    let _ = game;
    let d = uid_leading_digit(uid);
    if d == 1 || d == 2 || d == 5 {
        Some(Region::CHINESE)
    } else if 6 <= d && d <= 9 {
        Some(Region::OVERSEAS)
    } else {
        None
    }
}

/// UID inference is a pure function of the leading digit: two UIDs with the
/// same prefix map to the same server and the same region.
pub proof fn lemma_uid_prefix_determines(u1: nat, u2: nat)
    requires
        leading_digit(u1) == leading_digit(u2),
    ensures
        starrail_server(leading_digit(u1)) == starrail_server(leading_digit(u2)),
        uid_region(leading_digit(u1)) == uid_region(leading_digit(u2)),
{
}

/// Every UID with a known server also has a known region.
pub proof fn lemma_server_implies_region(d: nat)
    requires
        starrail_server(d) is Some,
    ensures
        uid_region(d) is Some,
{
}

} // verus!
