//! How the home page's topic list is asked of the store: the page window, the tab and
//! ordering as the store's query names them, and the start of the time range.
use vstd::prelude::*;

use crate::home::{
    filter_norm, lower_opt, norm_page, norm_page_size, HomeQuery, HomeSort, HomeTab,
    HomeTimeRange,
};
use crate::text::{opt_view, owned};

verus! {

/// One day in nanoseconds.
pub const DAY_NANOS: i128 = 86_400_000_000_000;

/// The store query for one page of home topics.
#[derive(Clone, Debug, PartialEq, Eq)]
pub struct HomeListingPlan {
    /// The normalised query.
    pub query: HomeQuery,
    pub limit: i64,
    pub offset: i64,
    /// The tab as the query names it.
    pub tab_key: String,
    /// The ordering as the query names it; the hot tab always orders by heat.
    pub sort_key: String,
    /// The earliest publication time shown, in Unix nanoseconds, or `None` for all time.
    pub since: Option<i128>,
}

/// The name of a tab in the store's query.
pub open spec fn tab_key_of(tab: HomeTab) -> Seq<char> {
    match tab {
        HomeTab::Hot => "hot"@,
        HomeTab::Unanswered => "unanswered"@,
        HomeTab::Following => "following"@,
        HomeTab::Latest => "latest"@,
    }
}

/// The name of the ordering in the store's query: heat on the hot tab or for the hot
/// ordering, else the chosen ordering.
pub open spec fn sort_key_of(tab: HomeTab, sort: HomeSort) -> Seq<char> {
    if tab == HomeTab::Hot || sort == HomeSort::Hot {
        "hot"@
    } else {
        match sort {
            HomeSort::Created => "created"@,
            HomeSort::Replies => "replies"@,
            HomeSort::Views => "views"@,
            _ => "last_reply"@,
        }
    }
}

/// The length of a time range in days: one day, seven days or thirty days.
pub open spec fn range_days(time: HomeTimeRange) -> int {
    match time {
        HomeTimeRange::Today => 1,
        HomeTimeRange::Week => 7,
        HomeTimeRange::Month => 30,
        HomeTimeRange::All => 0,
    }
}

/// The earliest publication time of a range, counted back from `now`.
pub open spec fn since_of(time: HomeTimeRange, now: i128) -> Option<i128> {
    if time == HomeTimeRange::All {
        None
    } else {
        Some((now - range_days(time) * DAY_NANOS) as i128)
    }
}

/// What `plan_home_listing` gives for a query at the time `now` (see there).
pub open spec fn home_listing_planned(query: HomeQuery, now: i128, r: HomeListingPlan) -> bool {
    &&& r.query.tab == query.tab
    &&& r.query.time == query.time
    &&& r.query.sort == query.sort
    &&& r.query.page == norm_page(query.page)
    &&& r.query.page_size == norm_page_size(query.page_size, 12, 50)
    &&& opt_view(r.query.category) == filter_norm(opt_view(query.category))
    &&& opt_view(r.query.tag) == lower_opt(filter_norm(opt_view(query.tag)))
    &&& r.limit == r.query.page_size as i64
    &&& r.offset == #[verifier::truncate] (((r.query.page - 1) * r.query.page_size) as i64)
    &&& r.tab_key@ == tab_key_of(query.tab)
    &&& r.sort_key@ == sort_key_of(query.tab, query.sort)
    &&& r.since == since_of(query.time, now)
}

/// The home listing's time window and page window, in terms of the query alone: today
/// starts one day (86 400 s) before `now`, the week seven days, the month thirty days, and
/// all time has no start; the page size is the requested one (12 when 0, at most 50), the
/// page the requested one (1 when 0), and the window skips the topics of the pages before.
pub proof fn law_home_listing_window(query: HomeQuery, now: i128, r: HomeListingPlan)
    requires
        home_listing_planned(query, now, r),
        now >= i128::MIN + 30 * DAY_NANOS,
        (norm_page(query.page) - 1) * norm_page_size(query.page_size, 12, 50) <= i64::MAX,
    ensures
        query.time == HomeTimeRange::Today ==> r.since == Some((now - 86_400_000_000_000) as i128),
        query.time == HomeTimeRange::Week ==> r.since == Some((now - 604_800_000_000_000) as i128),
        query.time == HomeTimeRange::Month ==> r.since == Some((now - 2_592_000_000_000_000) as i128),
        query.time == HomeTimeRange::All ==> r.since is None,
        r.limit == (if query.page_size == 0 {
            12
        } else if query.page_size > 50 {
            50
        } else {
            query.page_size as int
        }),
        r.query.page == (if query.page == 0 {
            1
        } else {
            query.page as int
        }),
        r.offset == (r.query.page - 1) * r.limit,
        query.tab == HomeTab::Hot || query.sort == HomeSort::Hot ==> r.sort_key@ == "hot"@,
        query.tab != HomeTab::Hot && query.sort == HomeSort::Created ==> r.sort_key@ == "created"@,
        query.tab != HomeTab::Hot && query.sort == HomeSort::Replies ==> r.sort_key@ == "replies"@,
        query.tab != HomeTab::Hot && query.sort == HomeSort::Views ==> r.sort_key@ == "views"@,
        query.tab != HomeTab::Hot && query.sort == HomeSort::LastReply ==> r.sort_key@
            == "last_reply"@,
        query.tab == HomeTab::Hot ==> r.tab_key@ == "hot"@,
        query.tab == HomeTab::Unanswered ==> r.tab_key@ == "unanswered"@,
        query.tab == HomeTab::Following ==> r.tab_key@ == "following"@,
        query.tab == HomeTab::Latest ==> r.tab_key@ == "latest"@,
{
    assert((r.query.page - 1) * r.query.page_size <= i64::MAX);
    assert(0 <= (r.query.page - 1) * r.query.page_size) by (nonlinear_arith)
        requires
            r.query.page >= 1,
    ;
}

/// The store query for the home topics of a query at the time `now`: the query is
/// normalised (see `HomeQuery::normalized`), the window is its page (`limit` the page
/// size, `offset` the topics of the pages before, both cast to `i64`), and the time range
/// starts that many days before `now`.
pub fn plan_home_listing(query: HomeQuery, now: i128) -> (r: HomeListingPlan)
    requires
        (norm_page(query.page) - 1) * norm_page_size(query.page_size, 12, 50) <= usize::MAX,
        now >= i128::MIN + 30 * DAY_NANOS,
    ensures
        home_listing_planned(query, now, r),
{
    let q = query.normalized();
    let limit: i64 = q.page_size as i64;
    let skipped: usize = (q.page - 1) * q.page_size;
    let offset: i64 = #[verifier::truncate] (skipped as i64);
    let tab_key = match q.tab {
        HomeTab::Hot => owned("hot"),
        HomeTab::Unanswered => owned("unanswered"),
        HomeTab::Following => owned("following"),
        HomeTab::Latest => owned("latest"),
    };
    let sort_key = if q.tab == HomeTab::Hot || q.sort == HomeSort::Hot {
        owned("hot")
    } else {
        match q.sort {
            HomeSort::Created => owned("created"),
            HomeSort::Replies => owned("replies"),
            HomeSort::Views => owned("views"),
            _ => owned("last_reply"),
        }
    };
    let since = match q.time {
        HomeTimeRange::All => None,
        HomeTimeRange::Today => Some(now - DAY_NANOS),
        HomeTimeRange::Week => Some(now - 7 * DAY_NANOS),
        HomeTimeRange::Month => Some(now - 30 * DAY_NANOS),
    };
    HomeListingPlan { query: q, limit, offset, tab_key, sort_key, since }
}

} // verus!
