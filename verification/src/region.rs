//! The regions in which a quota query is tried, and when to go on to the next one.
use crate::list::{find_first, find_first_characterised, is_first, views};
use crate::text::{is_blank, same_text, starts_with, trimmed};
use vstd::prelude::*;

verus! {

/// `regions`, with `region` behind the others unless it is among them.
pub open spec fn with_region(regions: Seq<Seq<char>>, region: Seq<char>) -> Seq<Seq<char>> {
    if regions.contains(region) {
        regions
    } else {
        regions.push(region)
    }
}

/// The region of the account, if it is not blank.
pub open spec fn own_region(preferred: Seq<char>) -> Seq<Seq<char>> {
    if trimmed(preferred).len() == 0 {
        Seq::empty()
    } else {
        seq![trimmed(preferred)]
    }
}

/// The regions to try, in order: the account's own, for an enterprise account then the
/// two common ones, and the first of those where nothing else is known.
pub open spec fn region_candidates(preferred: Seq<char>, is_enterprise: bool) -> Seq<Seq<char>> {
    let own = own_region(preferred);
    let all = if is_enterprise {
        with_region(with_region(own, "us-east-1"@), "eu-central-1"@)
    } else {
        own
    };
    if all.len() == 0 {
        seq!["us-east-1"@]
    } else {
        all
    }
}

fn push_region(regions: &mut Vec<String>, region: &str)
    ensures
        views(final(regions)@) == with_region(views(old(regions)@), region@),
{
    let ghost before = views(regions@);
    let mut i: usize = 0;
    while i < regions.len()
        invariant
            i <= regions@.len(),
            before == views(regions@),
            forall|j: int| 0 <= j < i ==> #[trigger] before[j] != region@,
        decreases regions@.len() - i,
    {
        if same_text(regions[i].as_str(), region) {
            assert(before[i as int] == region@);
            return;
        }
        i += 1;
    }
    regions.push(region.to_owned());
    assert(views(regions@) =~= before.push(region@));
}

/// The regions in which the quota of an account is asked for, in order.
pub fn usage_limits_region_candidates(preferred: &str, is_enterprise: bool) -> (r: Vec<String>)
    ensures
        views(r@) == region_candidates(preferred@, is_enterprise),
{
    let mut regions: Vec<String> = Vec::new();
    let preferred = preferred.trim();
    assert(views(regions@) =~= Seq::empty());
    if !preferred.is_empty() {
        regions.push(preferred.to_owned());
        assert(views(regions@) =~= seq![preferred@]);
    }
    if is_enterprise {
        push_region(&mut regions, "us-east-1");
        push_region(&mut regions, "eu-central-1");
    }
    if regions.len() == 0 {
        regions.push("us-east-1".to_owned());
        assert(views(regions@) =~= seq!["us-east-1"@]);
    }
    regions
}

/// There is always a region to try, and none is tried twice. The account's own region
/// comes first, and an enterprise account falls back on both common regions.
pub proof fn region_candidates_prefer_the_own_region(preferred: Seq<char>, is_enterprise: bool)
    ensures
        ({
            let regions = region_candidates(preferred, is_enterprise);
            &&& regions.len() > 0
            &&& regions.no_duplicates()
            &&& trimmed(preferred).len() > 0 ==> regions[0] == trimmed(preferred)
            &&& is_enterprise ==> regions.contains("us-east-1"@) && regions.contains(
                "eu-central-1"@,
            )
            &&& !is_enterprise ==> regions.len() == 1
        }),
{
    let own = own_region(preferred);
    let first = with_region(own, "us-east-1"@);
    let both = with_region(first, "eu-central-1"@);
    assert(first.contains("us-east-1"@)) by {
        if !own.contains("us-east-1"@) {
            assert(first.last() == "us-east-1"@);
        }
    }
    assert(both.contains("us-east-1"@)) by {
        let i = choose|i: int| 0 <= i < first.len() && first[i] == "us-east-1"@;
        assert(both[i] == "us-east-1"@);
    }
    assert(both.contains("eu-central-1"@)) by {
        if !first.contains("eu-central-1"@) {
            assert(both.last() == "eu-central-1"@);
        }
    }
}

/// A failure that another region would only repeat: the credentials were refused, or
/// the account is banned.
pub open spec fn is_final_failure(error: Seq<char>) -> bool {
    "AUTH_ERROR:"@.is_prefix_of(error) || "BANNED:"@.is_prefix_of(error)
}

/// Whether a failure is one that another region would only repeat.
pub fn final_failure(error: &str) -> (r: bool)
    ensures
        r == is_final_failure(error@),
{
    starts_with(error, "AUTH_ERROR:") || starts_with(error, "BANNED:")
}

/// The failure after every region has failed, `last` being the failure in the last one.
pub open spec fn all_failed(last: Seq<char>) -> Seq<char> {
    "所有 region 均失败: "@ + last
}

/// A query that goes from region to region.
pub struct RegionFallback {
    regions: Vec<String>,
    next: usize,
    last_error: String,
}

/// The regions, how many of them have been tried, and the last failure.
pub struct FallbackView {
    pub regions: Seq<Seq<char>>,
    pub next: int,
    pub last_error: Seq<char>,
}

impl View for RegionFallback {
    type V = FallbackView;

    closed spec fn view(&self) -> FallbackView {
        FallbackView {
            regions: views(self.regions@),
            next: self.next as int,
            last_error: self.last_error@,
        }
    }
}

/// The view of what a query gives.
pub open spec fn reply_view<T>(reply: Result<T, String>) -> Result<T, Seq<char>> {
    match reply {
        Ok(value) => Ok(value),
        Err(error) => Err(error@),
    }
}

/// The view of what a query that goes from region to region gives: the region that
/// answered, with its answer.
pub open spec fn found_view<T>(found: Result<(String, T), String>) -> Result<
    (Seq<char>, T),
    Seq<char>,
> {
    match found {
        Ok((region, value)) => Ok((region@, value)),
        Err(error) => Err(error@),
    }
}

/// What the reply of the next region makes of a query: its state, and its result where
/// the reply decides it.
pub open spec fn after_reply<T>(state: FallbackView, reply: Result<T, Seq<char>>) -> (
    FallbackView,
    Option<Result<(Seq<char>, T), Seq<char>>>,
) {
    match reply {
        Ok(value) => (state, Some(Ok((state.regions[state.next], value)))),
        Err(error) => if is_final_failure(error) {
            (state, Some(Err(error)))
        } else {
            (FallbackView { next: state.next + 1, last_error: error, ..state }, None)
        },
    }
}

impl RegionFallback {
    /// A query that has not been tried in any of `regions`.
    pub fn new(regions: &[String]) -> (r: RegionFallback)
        ensures
            r@ == (FallbackView { regions: views(regions@), next: 0, last_error: Seq::empty() }),
    {
        let mut copy: Vec<String> = Vec::new();
        let mut i: usize = 0;
        while i < regions.len()
            invariant
                i <= regions@.len(),
                copy@.len() == i,
                forall|j: int| 0 <= j < i ==> (#[trigger] copy@[j])@ == regions@[j]@,
            decreases regions@.len() - i,
        {
            copy.push(regions[i].clone());
            i += 1;
        }
        assert(views(copy@) =~= views(regions@));
        RegionFallback { regions: copy, next: 0, last_error: String::new() }
    }

    /// The region to try next; none when all have been tried.
    pub fn next_region(&self) -> (r: Option<String>)
        ensures
            match r {
                Some(region) => 0 <= self@.next < self@.regions.len() && region@
                    == self@.regions[self@.next],
                None => self@.next >= self@.regions.len(),
            },
    {
        if self.next < self.regions.len() {
            Some(self.regions[self.next].clone())
        } else {
            None
        }
    }

    /// Takes the reply of the region that was to be tried. Gives the result of the query
    /// where the reply decides it; else the next region is to be tried.
    pub fn report<T>(&mut self, reply: Result<T, String>) -> (r: Option<
        Result<(String, T), String>,
    >)
        requires
            0 <= old(self)@.next < old(self)@.regions.len(),
        ensures
            (final(self)@, match r {
                Some(found) => Some(found_view(found)),
                None => None,
            }) == after_reply(old(self)@, reply_view(reply)),
    {
        assert(self.next < self.regions.len());
        match reply {
            Ok(value) => Some(Ok((self.regions[self.next].clone(), value))),
            Err(error) => {
                if final_failure(error.as_str()) {
                    Some(Err(error))
                } else {
                    self.next = self.next + 1;
                    self.last_error = error;
                    None
                }
            },
        }
    }

    /// The failure of the query once every region has been tried.
    pub fn failure(&self) -> (r: String)
        ensures
            r@ == all_failed(self@.last_error),
    {
        "所有 region 均失败: ".to_owned().concat(self.last_error.as_str())
    }
}

/// The result of a query from `state` on, where `replies` holds what each region would
/// reply.
pub open spec fn run_fallback<T>(state: FallbackView, replies: Seq<Result<T, Seq<char>>>) -> Result<
    (Seq<char>, T),
    Seq<char>,
>
    decreases state.regions.len() - state.next,
{
    if state.next >= state.regions.len() {
        Err(all_failed(state.last_error))
    } else {
        let (after, result) = after_reply(state, replies[state.next]);
        match result {
            Some(found) => found,
            None => run_fallback(after, replies),
        }
    }
}

/// The replies that decide a query: a success, or a failure that another region would
/// only repeat.
pub open spec fn decides<T>() -> spec_fn(Result<T, Seq<char>>) -> bool {
    |reply: Result<T, Seq<char>>|
        match reply {
            Ok(_) => true,
            Err(error) => is_final_failure(error),
        }
}

/// The first region whose reply decides the query decides it: a success is its result,
/// with the region; so is a refusal or a ban, unchanged. Where no reply decides it, the
/// query fails with the failure of the last region.
pub proof fn first_deciding_region_decides<T>(
    regions: Seq<Seq<char>>,
    replies: Seq<Result<T, Seq<char>>>,
)
    requires
        replies.len() == regions.len(),
    ensures
        ({
            let start = FallbackView { regions, next: 0, last_error: Seq::empty() };
            let result = run_fallback(start, replies);
            match find_first(replies, decides()) {
                Some(i) => match replies[i] {
                    Ok(value) => result == Ok::<(Seq<char>, T), Seq<char>>((regions[i], value)),
                    Err(error) => result == Err::<(Seq<char>, T), Seq<char>>(error),
                },
                None => result == Err::<(Seq<char>, T), Seq<char>>(
                    all_failed(
                        if regions.len() == 0 {
                            Seq::empty()
                        } else {
                            replies.last()->Err_0
                        },
                    ),
                ),
            }
        }),
{
    let start = FallbackView { regions, next: 0, last_error: Seq::empty() };
    lemma_run_from(start, replies);
}

proof fn lemma_run_from<T>(state: FallbackView, replies: Seq<Result<T, Seq<char>>>)
    requires
        replies.len() == state.regions.len(),
        0 <= state.next <= replies.len(),
        forall|j: int| 0 <= j < state.next ==> !decides()(#[trigger] replies[j]),
        state.last_error == if state.next == 0 {
            Seq::empty()
        } else {
            replies[state.next - 1]->Err_0
        },
    ensures
        match find_first(replies, decides()) {
            Some(i) => match replies[i] {
                Ok(value) => run_fallback(state, replies) == Ok::<(Seq<char>, T), Seq<char>>(
                    (state.regions[i], value),
                ),
                Err(error) => run_fallback(state, replies) == Err::<(Seq<char>, T), Seq<char>>(
                    error,
                ),
            },
            None => run_fallback(state, replies) == Err::<(Seq<char>, T), Seq<char>>(
                all_failed(
                    if replies.len() == 0 {
                        Seq::empty()
                    } else {
                        replies.last()->Err_0
                    },
                ),
            ),
        },
    decreases state.regions.len() - state.next,
{
    find_first_characterised(replies, decides());
    if state.next < replies.len() {
        let reply = replies[state.next];
        if decides()(reply) {
            assert(is_first(replies, decides(), state.next));
        } else {
            lemma_run_from(after_reply(state, reply).0, replies);
        }
    }
}

/// The regions to try, one list for each kind of account: one region for an account that is
/// no enterprise account; for one that is, its own region and then those of the two common
/// ones that it is not, the one in the east of the United States first.
pub proof fn regions_to_try_are_few(preferred: Seq<char>)
    ensures
        ({
            let own = trimmed(preferred);
            let (us, eu) = ("us-east-1"@, "eu-central-1"@);
            &&& is_blank(preferred) ==> region_candidates(preferred, false) == seq![us]
            &&& is_blank(preferred) ==> region_candidates(preferred, true) == seq![us, eu]
            &&& !is_blank(preferred) ==> region_candidates(preferred, false) == seq![own]
            &&& own == us ==> region_candidates(preferred, true) == seq![us, eu]
            &&& own == eu ==> region_candidates(preferred, true) == seq![eu, us]
            &&& !is_blank(preferred) && own != us && own != eu ==> region_candidates(
                preferred,
                true,
            ) == seq![own, us, eu]
        }),
{
    reveal_strlit("us-east-1");
    reveal_strlit("eu-central-1");
    let own = own_region(preferred);
    let (us, eu) = ("us-east-1"@, "eu-central-1"@);
    assert(us.len() == 9 && eu.len() == 12);
    let first = with_region(own, us);
    let all = with_region(first, eu);
    assert(region_candidates(preferred, true) == all) by {
        region_candidates_prefer_the_own_region(preferred, true);
    }
    if trimmed(preferred).len() == 0 {
        assert(first =~= seq![us]);
        assert(!first.contains(eu));
        assert(all =~= seq![us, eu]);
    } else {
        assert(own[0] == trimmed(preferred));
        if trimmed(preferred) == us {
            assert(own.contains(us));
            assert(!own.contains(eu));
            assert(all =~= seq![us, eu]);
        } else {
            assert(!own.contains(us));
            assert(first =~= seq![trimmed(preferred), us]);
            if trimmed(preferred) == eu {
                assert(first[0] == eu);
                assert(first.contains(eu));
                assert(all =~= seq![eu, us]);
            } else {
                assert(!first.contains(eu));
                assert(all =~= seq![trimmed(preferred), us, eu]);
            }
        }
    }
}

/// A failure ends a query exactly when it is one of refused credentials or of a ban: when it
/// is made of `AUTH_ERROR:` or `BANNED:` and whatever follows. The query then ends with that
/// failure as it is. Any other failure ends no query: it is kept, and the region behind the
/// one that failed is tried next.
pub proof fn only_refusals_and_bans_end_a_query<T>(state: FallbackView, error: Seq<char>)
    ensures
        ({
            let refused = exists|rest: Seq<char>| error == #[trigger] ("AUTH_ERROR:"@ + rest);
            let banned = exists|rest: Seq<char>| error == #[trigger] ("BANNED:"@ + rest);
            let (after, result) = after_reply::<T>(state, Err(error));
            &&& is_final_failure(error) <==> refused || banned
            &&& refused || banned ==> result == Some(Err::<(Seq<char>, T), Seq<char>>(error))
            &&& !refused && !banned ==> {
                &&& result is None
                &&& after.regions == state.regions
                &&& after.next == state.next + 1
                &&& after.last_error == error
            }
        }),
{
    let (auth, ban) = ("AUTH_ERROR:"@, "BANNED:"@);
    if auth.is_prefix_of(error) {
        assert(error =~= auth + error.skip(auth.len() as int));
    }
    if ban.is_prefix_of(error) {
        assert(error =~= ban + error.skip(ban.len() as int));
    }
    if exists|rest: Seq<char>| error == #[trigger] (auth + rest) {
        assert(auth.is_prefix_of(error));
    }
    if exists|rest: Seq<char>| error == #[trigger] (ban + rest) {
        assert(ban.is_prefix_of(error));
    }
}

/// Whether a failure is final is told by how it begins alone.
pub proof fn final_failure_is_told_by_its_beginning(error: &str, r: bool)
    requires
        call_ensures(final_failure, (error,), r),
    ensures
        r <==> "AUTH_ERROR:"@.is_prefix_of(error@) || "BANNED:"@.is_prefix_of(error@),
{
}

/// A region that answers ends a query, with its own name and its answer.
pub proof fn an_answer_ends_a_query<T>(state: FallbackView, value: T)
    ensures
        after_reply(state, Ok(value)).1 == Some(
            Ok::<(Seq<char>, T), Seq<char>>((state.regions[state.next], value)),
        ),
{
}

/// A query gives what region `i` replies where that is an answer, a refusal or a ban and
/// none of the regions before it has replied so: all of these were tried, and none behind it
/// was asked. Where no region replies so, it fails with the failure of the last one.
pub proof fn query_goes_on_until_a_region_decides<T>(
    regions: Seq<Seq<char>>,
    replies: Seq<Result<T, Seq<char>>>,
    i: int,
)
    requires
        replies.len() == regions.len(),
        0 <= i < regions.len(),
    ensures
        ({
            let ends = |reply: Result<T, Seq<char>>|
                match reply {
                    Ok(_) => true,
                    Err(error) => "AUTH_ERROR:"@.is_prefix_of(error) || "BANNED:"@.is_prefix_of(
                        error,
                    ),
                };
            let start = FallbackView { regions, next: 0, last_error: Seq::empty() };
            let result = run_fallback(start, replies);
            &&& ends(replies[i]) && (forall|j: int| 0 <= j < i ==> !ends(#[trigger] replies[j])) ==> {
                match replies[i] {
                    Ok(value) => result == Ok::<(Seq<char>, T), Seq<char>>((regions[i], value)),
                    Err(error) => result == Err::<(Seq<char>, T), Seq<char>>(error),
                }
            }
            &&& (forall|j: int| 0 <= j < regions.len() ==> !ends(#[trigger] replies[j])) ==> {
                result == Err::<(Seq<char>, T), Seq<char>>(
                    "所有 region 均失败: "@ + replies.last()->Err_0,
                )
            }
        }),
{
    let ends = |reply: Result<T, Seq<char>>|
        match reply {
            Ok(_) => true,
            Err(error) => "AUTH_ERROR:"@.is_prefix_of(error) || "BANNED:"@.is_prefix_of(error),
        };
    first_deciding_region_decides(regions, replies);
    find_first_characterised(replies, decides::<T>());
    assert forall|reply: Result<T, Seq<char>>| ends(reply) == #[trigger] decides::<T>()(
        reply,
    ) by {}
    if ends(replies[i]) && (forall|j: int| 0 <= j < i ==> !ends(#[trigger] replies[j])) {
        assert forall|j: int| 0 <= j < i implies !decides::<T>()(#[trigger] replies[j]) by {
            assert(!ends(replies[j]));
        }
        assert(decides::<T>()(replies[i]));
        assert(is_first(replies, decides::<T>(), i));
    }
    if forall|j: int| 0 <= j < regions.len() ==> !ends(#[trigger] replies[j]) {
        assert forall|j: int| 0 <= j < replies.len() implies !decides::<T>()(
            #[trigger] replies[j],
        ) by {
            assert(!ends(replies[j]));
        }
    }
}

/// A query begins with the first of its regions, tries the one that it has come to as long
/// as there is one, and fails by the last failure that it has kept.
pub proof fn query_tries_its_regions_in_order(
    regions: &[String],
    new: RegionFallback,
    query: RegionFallback,
    next: Option<String>,
    failure: String,
)
    requires
        call_ensures(RegionFallback::new, (regions,), new),
        call_ensures(RegionFallback::next_region, (&query,), next),
        call_ensures(RegionFallback::failure, (&query,), failure),
    ensures
        new@.next == 0,
        new@.regions.len() == regions@.len(),
        forall|i: int| 0 <= i < regions@.len() ==> #[trigger] new@.regions[i] == regions@[i]@,
        query@.next >= query@.regions.len() ==> next is None,
        0 <= query@.next < query@.regions.len() ==> next is Some && next->0@
            == query@.regions[query@.next],
        failure@ == "所有 region 均失败: "@ + query@.last_error,
{
}

/// What a region replies is taken as it is: an answer ends the query with the name of that
/// region, a refusal or a ban ends it unchanged, and after any other failure the query stands
/// at the next region with that failure kept.
pub proof fn replies_are_taken_as_they_are<T>(
    query: &mut RegionFallback,
    reply: Result<T, String>,
    r: Option<Result<(String, T), String>>,
)
    requires
        0 <= old(query)@.next < old(query)@.regions.len(),
        call_ensures(RegionFallback::report, (query, reply), r),
    ensures
        reply matches Ok(value) ==> {
            &&& r is Some && r->0 is Ok
            &&& r->0->Ok_0.0@ == old(query)@.regions[old(query)@.next]
            &&& r->0->Ok_0.1 == value
        },
        reply matches Err(error) ==> {
            let ends = "AUTH_ERROR:"@.is_prefix_of(error@) || "BANNED:"@.is_prefix_of(error@);
            &&& ends ==> r is Some && r->0 is Err && r->0->Err_0@ == error@
            &&& !ends ==> {
                &&& r is None
                &&& final(query)@.next == old(query)@.next + 1
                &&& final(query)@.regions == old(query)@.regions
                &&& final(query)@.last_error == error@
            }
        },
{
}

} // verus!
