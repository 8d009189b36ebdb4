//! The static routing tables: each region's base URL for the general
//! community API and for the per-game record API. Lookup is total — every
//! region has an entry — and every base URL is a non-empty absolute URL.

use vstd::prelude::*;
use crate::text::starts_with_https;
use crate::types::Region;

verus! {

/// The general community API base URL of a region.
pub open spec fn takumi_base(r: Region) -> Seq<char> {
    match r {
        Region::OVERSEAS => "https://api-os-takumi.mihoyo.com/"@,
        Region::CHINESE => "https://api-takumi.mihoyo.com/"@,
    }
}

/// The per-game record API base URL of a region.
pub open spec fn record_base(r: Region) -> Seq<char> {
    match r {
        Region::OVERSEAS => "https://bbs-api-os.hoyolab.com/game_record/"@,
        Region::CHINESE => "https://api-takumi-record.mihoyo.com/game_record/app/"@,
    }
}

/// Looks up the general community API base URL for a region.
pub fn takumi_url(r: Region) -> (u: String)
    ensures
        u@ == takumi_base(r),
{
    match r {
        Region::OVERSEAS => "https://api-os-takumi.mihoyo.com/".to_owned(),
        Region::CHINESE => "https://api-takumi.mihoyo.com/".to_owned(),
    }
}

/// Looks up the per-game record API base URL for a region.
pub fn record_url(r: Region) -> (u: String)
    ensures
        u@ == record_base(r),
{
    match r {
        Region::OVERSEAS => "https://bbs-api-os.hoyolab.com/game_record/".to_owned(),
        Region::CHINESE => "https://api-takumi-record.mihoyo.com/game_record/app/".to_owned(),
    }
}

/// Routing is total: every region resolves to non-empty, absolute base URLs
/// in both tables.
pub proof fn lemma_routes_total(r: Region)
    ensures
        takumi_base(r).len() > 0,
        record_base(r).len() > 0,
        starts_with_https(takumi_base(r)),
        starts_with_https(record_base(r)),
{
    reveal_strlit("https://");
    reveal_strlit("https://api-os-takumi.mihoyo.com/");
    reveal_strlit("https://api-takumi.mihoyo.com/");
    reveal_strlit("https://bbs-api-os.hoyolab.com/game_record/");
    reveal_strlit("https://api-takumi-record.mihoyo.com/game_record/app/");
    match r {
        Region::OVERSEAS => {
            assert(takumi_base(r).subrange(0, 8) =~= "https://"@);
            assert(record_base(r).subrange(0, 8) =~= "https://"@);
        },
        Region::CHINESE => {
            assert(takumi_base(r).subrange(0, 8) =~= "https://"@);
            assert(record_base(r).subrange(0, 8) =~= "https://"@);
        },
    }
}

} // verus!
