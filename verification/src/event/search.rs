//! Fetching more results of a search.

use vstd::prelude::*;
use vstd::string::*;

use crate::cache::Cached;
use crate::cache::deadline;
use crate::cache::ExpiringCache;
use crate::cache::live;
use crate::client::ClientRequest;
use crate::client::Outbox;
use crate::client::OutboxView;
use crate::client::RequestView;
use crate::error::HandlerError;
use crate::model::PaginationInfo;
use crate::model::SearchEntry;
use crate::model::SearchResultCategory;
use crate::text::same_text;
use crate::ui::PendingClientRequest;
use crate::ui::PendingView;
use crate::ui::UIState;
use crate::ui::UIView;

verus! {

/// How close to the end of a list the selection is when more results are fetched.
pub const SEARCH_PREFETCH_THRESHOLD: usize = 5;

/// What the cache of searches holds.
pub type SearchCache = Map<Seq<char>, Cached<SearchEntry>>;

/// Whether more results of a kind can be fetched now: the search is known, not at its end, and no
/// fetch is under way.
pub open spec fn can_fetch(
    cache: SearchCache,
    now: u64,
    query: Seq<char>,
    category: SearchResultCategory,
) -> bool {
    live(cache, query, now) matches Some(entry) && !entry.pagination.of(category).is_exhausted
        && !entry.pagination.of(category).is_fetching
}

/// Whether more results are wanted: the selection is near the end of the list of `list_len` items,
/// more can be fetched, and they have not been asked for already.
pub open spec fn wants_more(
    ui: UIView,
    cache: SearchCache,
    now: u64,
    query: Seq<char>,
    category: SearchResultCategory,
    list_len: usize,
) -> bool {
    &&& list_len > 0
    &&& ui.page().selection() matches Some(selected) && selected + SEARCH_PREFETCH_THRESHOLD
        >= list_len
    &&& can_fetch(cache, now, query, category)
    &&& !ui.pending.contains(PendingView::SearchMore { query, category })
}

/// The interface with the request for more results queued, where they are wanted.
pub open spec fn prefetching(
    ui: UIView,
    cache: SearchCache,
    now: u64,
    query: Seq<char>,
    category: SearchResultCategory,
    list_len: usize,
) -> UIView {
    if wants_more(ui, cache, now, query, category, list_len) {
        UIView { pending: ui.pending.push(PendingView::SearchMore { query, category }), ..ui }
    } else {
        ui
    }
}

/// Whether a request for more results is queued already.
fn is_queued(
    pending: &Vec<PendingClientRequest>,
    query: &str,
    category: SearchResultCategory,
) -> (r: bool)
    ensures
        r == pending@.map_values(|p: PendingClientRequest| p@).contains(
            PendingView::SearchMore { query: query@, category },
        ),
{
    let ghost views = pending@.map_values(|p: PendingClientRequest| p@);
    let mut i: usize = 0;
    while i < pending.len()
        invariant
            i <= pending@.len(),
            views == pending@.map_values(|p: PendingClientRequest| p@),
            forall|j: int|
                0 <= j < i ==> #[trigger] views[j] != (PendingView::SearchMore {
                    query: query@,
                    category,
                }),
        decreases pending.len() - i,
    {
        assert(views[i as int] == pending@[i as int]@);
        match &pending[i] {
            PendingClientRequest::SearchMore {
                query: existing_query,
                category: existing_category,
            } => {
                if same_text(existing_query.as_str(), query) && *existing_category == category {
                    return true;
                }
            },
        }
        i = i + 1;
    }
    false
}

/// Queues a request for more results where the selection is near the end of the list.
pub fn maybe_queue_search_prefetch(
    ui: &mut UIState,
    search: &ExpiringCache<SearchEntry>,
    now: u64,
    query: &str,
    category: SearchResultCategory,
    list_len: usize,
)
    requires
        old(ui)@.has_page(),
    ensures
        final(ui)@ == prefetching(old(ui)@, search@, now, query@, category, list_len),
        final(ui)@.has_page(),
{
    if list_len == 0 {
        return;
    }
    let selected: usize = match ui.current_page().selected() {
        Some(selected) => selected,
        None => {
            return;
        },
    };
    if list_len > SEARCH_PREFETCH_THRESHOLD && selected < list_len - SEARCH_PREFETCH_THRESHOLD {
        return;
    }
    match search.get(query, now) {
        Some(entry) => {
            let info = entry.pagination.info(category);
            if info.is_exhausted || info.is_fetching {
                return;
            }
        },
        None => {
            return;
        },
    }
    if is_queued(&ui.pending_client_requests, query, category) {
        return;
    }
    ui.pending_client_requests.push(
        PendingClientRequest::SearchMore { query: query.to_owned(), category },
    );
    assert(ui@.pending =~= old(ui)@.pending.push(
        PendingView::SearchMore { query: query@, category },
    ));
}

/// What processing pending requests leaves.
pub struct Processed {
    pub cache: SearchCache,
    pub client: OutboxView,
    /// Whether all requests were processed.
    pub ok: bool,
}

/// A search with the fetch of one kind of results under way.
pub open spec fn fetching_entry(entry: SearchEntry, category: SearchResultCategory) -> SearchEntry {
    SearchEntry {
        pagination: entry.pagination.with(
            category,
            PaginationInfo { is_fetching: true, ..entry.pagination.of(category) },
        ),
        ..entry
    }
}

/// What processing one pending request leaves: a search that is known stays known for another
/// `ttl`, and where more of it can be fetched, that is marked and requested.
pub open spec fn processed_one(
    request: PendingView,
    cache: SearchCache,
    client: OutboxView,
    now: u64,
    ttl: u64,
) -> Processed {
    match request {
        PendingView::SearchMore { query, category } => match live(cache, query, now) {
            None => Processed { cache: cache.remove(query), client, ok: true },
            Some(entry) => if can_fetch(cache, now, query, category) {
                Processed {
                    cache: cache.insert(
                        query,
                        Cached {
                            value: fetching_entry(entry, category),
                            expires_at: deadline(now, ttl),
                        },
                    ),
                    client: if client.room > 0 {
                        client.with(
                            RequestView::SearchMore {
                                query,
                                category,
                                offset: entry.results.count(category) as usize,
                            },
                        )
                    } else {
                        client
                    },
                    ok: client.room > 0,
                }
            } else {
                Processed {
                    cache: cache.insert(
                        query,
                        Cached { value: entry, expires_at: deadline(now, ttl) },
                    ),
                    client,
                    ok: true,
                }
            },
        },
    }
}

/// What processing pending requests in order leaves; it ends early when the client has stopped
/// listening.
pub open spec fn processed(
    requests: Seq<PendingView>,
    cache: SearchCache,
    client: OutboxView,
    now: u64,
    ttl: u64,
) -> Processed
    decreases requests.len(),
{
    if requests.len() == 0 {
        Processed { cache, client, ok: true }
    } else {
        let first = processed_one(requests.first(), cache, client, now, ttl);
        if first.ok {
            processed(requests.drop_first(), first.cache, first.client, now, ttl)
        } else {
            first
        }
    }
}

/// Processes one pending request.
fn process_search_more(
    query: &String,
    category: SearchResultCategory,
    search: &mut ExpiringCache<SearchEntry>,
    now: u64,
    ttl: u64,
    client_pub: &mut Outbox,
) -> (r: Result<(), HandlerError>)
    ensures
        ({
            let p = processed_one(
                PendingView::SearchMore { query: query@, category },
                old(search)@,
                old(client_pub)@,
                now,
                ttl,
            );
            &&& final(search)@ == p.cache
            &&& final(client_pub)@ == p.client
            &&& r is Ok <==> p.ok
            &&& r matches Err(e) ==> e == HandlerError::ClientClosed
        }),
{
    let maybe_offset: Option<usize> = match search.remove(query.as_str(), now) {
        Some(mut entry) => {
            let info = entry.pagination.info_mut(category);
            if info.is_fetching || info.is_exhausted {
                search.insert(query.clone(), entry, ttl, now);
                assert(search@ =~= old(search)@.insert(query@, search@[query@]));
                None
            } else {
                info.is_fetching = true;
                let offset: usize = entry.results.len_for_category(category);
                search.insert(query.clone(), entry, ttl, now);
                assert(search@ =~= old(search)@.insert(query@, search@[query@]));
                Some(offset)
            }
        },
        None => None,
    };
    if let Some(offset) = maybe_offset {
        client_pub.send(ClientRequest::SearchMore { query: query.clone(), category, offset })?;
    }
    Ok(())
}

/// Processes pending requests in order. Searches stay known for `ttl` nanoseconds.
pub fn process_pending_client_requests(
    requests: Vec<PendingClientRequest>,
    search: &mut ExpiringCache<SearchEntry>,
    now: u64,
    ttl: u64,
    client_pub: &mut Outbox,
) -> (r: Result<(), HandlerError>)
    ensures
        ({
            let p = processed(
                requests@.map_values(|q: PendingClientRequest| q@),
                old(search)@,
                old(client_pub)@,
                now,
                ttl,
            );
            &&& final(search)@ == p.cache
            &&& final(client_pub)@ == p.client
            &&& r is Ok <==> p.ok
            &&& r matches Err(e) ==> e == HandlerError::ClientClosed
        }),
{
    let ghost views = requests@.map_values(|q: PendingClientRequest| q@);
    let ghost goal = processed(views, search@, client_pub@, now, ttl);
    let mut i: usize = 0;
    assert(views.skip(0) =~= views);
    while i < requests.len()
        invariant
            i <= requests@.len(),
            views == requests@.map_values(|q: PendingClientRequest| q@),
            goal == processed(views, old(search)@, old(client_pub)@, now, ttl),
            goal == processed(views.skip(i as int), search@, client_pub@, now, ttl),
        decreases requests.len() - i,
    {
        assert(views.skip(i as int).first() == requests@[i as int]@);
        assert(views.skip(i as int).drop_first() =~= views.skip(i + 1));
        match &requests[i] {
            PendingClientRequest::SearchMore { query, category } => {
                process_search_more(query, *category, search, now, ttl, client_pub)?;
            },
        }
        i = i + 1;
    }
    Ok(())
}

/// Queueing more results twice asks for them once.
pub proof fn law_prefetch_once(
    ui: UIView,
    cache: SearchCache,
    now: u64,
    query: Seq<char>,
    category: SearchResultCategory,
    list_len: usize,
)
    ensures
        ({
            let once = prefetching(ui, cache, now, query, category, list_len);
            prefetching(once, cache, now, query, category, list_len) == once
        }),
{
    let once = prefetching(ui, cache, now, query, category, list_len);
    if wants_more(ui, cache, now, query, category, list_len) {
        assert(once.pending.last() == (PendingView::SearchMore { query, category }));
        assert(once.pending.contains(PendingView::SearchMore { query, category }));
    }
}

/// No request is queued twice.
pub proof fn law_pending_stays_distinct(
    ui: UIView,
    cache: SearchCache,
    now: u64,
    query: Seq<char>,
    category: SearchResultCategory,
    list_len: usize,
)
    requires
        ui.pending.no_duplicates(),
    ensures
        prefetching(ui, cache, now, query, category, list_len).pending.no_duplicates(),
{
    if wants_more(ui, cache, now, query, category, list_len) {
        let pending = prefetching(ui, cache, now, query, category, list_len).pending;
        assert forall|i: int, j: int|
            0 <= i < pending.len() && 0 <= j < pending.len() && i != j implies pending[i]
            != pending[j] by {
            let n = ui.pending.len() as int;
            if i < n && j < n {
                assert(ui.pending[i] != ui.pending[j]);
            } else if i < n {
                assert(ui.pending.contains(ui.pending[i]));
            } else {
                assert(ui.pending.contains(ui.pending[j]));
            }
        }
    }
}

/// Processing one request never makes a fetch possible that was not.
proof fn lemma_one_keeps_blocked(
    request: PendingView,
    cache: SearchCache,
    client: OutboxView,
    now: u64,
    ttl: u64,
    query: Seq<char>,
    category: SearchResultCategory,
)
    requires
        !can_fetch(cache, now, query, category),
    ensures
        !can_fetch(
            processed_one(request, cache, client, now, ttl).cache,
            now,
            query,
            category,
        ),
{
}

/// After one request has been processed, the same results cannot be fetched again.
proof fn lemma_one_blocks(
    cache: SearchCache,
    client: OutboxView,
    now: u64,
    ttl: u64,
    query: Seq<char>,
    category: SearchResultCategory,
)
    ensures
        !can_fetch(
            processed_one(
                PendingView::SearchMore { query, category },
                cache,
                client,
                now,
                ttl,
            ).cache,
            now,
            query,
            category,
        ),
{
}

/// Processing requests never makes a fetch possible that was not.
pub proof fn law_processing_unblocks_nothing(
    requests: Seq<PendingView>,
    cache: SearchCache,
    client: OutboxView,
    now: u64,
    ttl: u64,
    query: Seq<char>,
    category: SearchResultCategory,
)
    requires
        !can_fetch(cache, now, query, category),
    ensures
        !can_fetch(processed(requests, cache, client, now, ttl).cache, now, query, category),
    decreases requests.len(),
{
    if requests.len() > 0 {
        lemma_one_keeps_blocked(requests.first(), cache, client, now, ttl, query, category);
        let first = processed_one(requests.first(), cache, client, now, ttl);
        if first.ok {
            law_processing_unblocks_nothing(
                requests.drop_first(),
                first.cache,
                first.client,
                now,
                ttl,
                query,
                category,
            );
        }
    }
}

/// Once the requests have been processed, none of what they asked for is fetched a second time
/// while the first fetch is under way.
pub proof fn law_processed_requests_are_under_way(
    requests: Seq<PendingView>,
    cache: SearchCache,
    client: OutboxView,
    now: u64,
    ttl: u64,
    query: Seq<char>,
    category: SearchResultCategory,
)
    requires
        processed(requests, cache, client, now, ttl).ok,
        requests.contains(PendingView::SearchMore { query, category }),
    ensures
        !can_fetch(processed(requests, cache, client, now, ttl).cache, now, query, category),
    decreases requests.len(),
{
    let first = processed_one(requests.first(), cache, client, now, ttl);
    if requests.first() == (PendingView::SearchMore { query, category }) {
        lemma_one_blocks(cache, client, now, ttl, query, category);
        law_processing_unblocks_nothing(
            requests.drop_first(),
            first.cache,
            first.client,
            now,
            ttl,
            query,
            category,
        );
    } else {
        let i = requests.index_of(PendingView::SearchMore { query, category });
        assert(requests.drop_first()[i - 1] == requests[i]);
        law_processed_requests_are_under_way(
            requests.drop_first(),
            first.cache,
            first.client,
            now,
            ttl,
            query,
            category,
        );
    }
}

/// Requests for what cannot be fetched send nothing.
proof fn lemma_blocked_send_nothing(
    requests: Seq<PendingView>,
    cache: SearchCache,
    client: OutboxView,
    now: u64,
    ttl: u64,
)
    requires
        forall|i: int|
            0 <= i < requests.len() ==> (#[trigger] requests[i] matches PendingView::SearchMore {
                query,
                category,
            } && !can_fetch(cache, now, query, category)),
    ensures
        processed(requests, cache, client, now, ttl).client == client,
        processed(requests, cache, client, now, ttl).ok,
    decreases requests.len(),
{
    if requests.len() > 0 {
        let first = processed_one(requests.first(), cache, client, now, ttl);
        assert(requests[0] == requests.first());
        assert(first.ok && first.client == client);
        let rest = requests.drop_first();
        assert forall|i: int| 0 <= i < rest.len() implies (
        #[trigger] rest[i] matches PendingView::SearchMore { query, category } && !can_fetch(
            first.cache,
            now,
            query,
            category,
        )) by {
            assert(rest[i] == requests[i + 1]);
            let PendingView::SearchMore { query, category } = rest[i];
            lemma_one_keeps_blocked(requests.first(), cache, client, now, ttl, query, category);
        }
        lemma_blocked_send_nothing(rest, first.cache, client, now, ttl);
    }
}

/// The search and the kind of results that a request asks more of, where it is one for more.
pub open spec fn asked_for(request: RequestView) -> Option<PendingView> {
    match request {
        RequestView::SearchMore { query, category, .. } => Some(
            PendingView::SearchMore { query, category },
        ),
        _ => None,
    }
}

/// Where more cannot be fetched, processing requests does not ask for it: what is sent asks for
/// other results.
proof fn lemma_blocked_is_not_sent(
    requests: Seq<PendingView>,
    cache: SearchCache,
    client: OutboxView,
    now: u64,
    ttl: u64,
    query: Seq<char>,
    category: SearchResultCategory,
)
    requires
        !can_fetch(cache, now, query, category),
    ensures
        ({
            let sent = processed(requests, cache, client, now, ttl).client.sent;
            &&& client.sent.len() <= sent.len()
            &&& forall|i: int|
                client.sent.len() <= i < sent.len() ==> asked_for(#[trigger] sent[i]) != Some(
                    PendingView::SearchMore { query, category },
                )
        }),
    decreases requests.len(),
{
    if requests.len() > 0 {
        let first = processed_one(requests.first(), cache, client, now, ttl);
        lemma_one_keeps_blocked(requests.first(), cache, client, now, ttl, query, category);
        if first.ok {
            let rest = requests.drop_first();
            lemma_blocked_is_not_sent(rest, first.cache, first.client, now, ttl, query, category);
            lemma_sent_stays(rest, first.cache, first.client, now, ttl);
        }
    }
}

/// What has been sent stays as it is while requests are processed.
proof fn lemma_sent_stays(
    requests: Seq<PendingView>,
    cache: SearchCache,
    client: OutboxView,
    now: u64,
    ttl: u64,
)
    ensures
        ({
            let sent = processed(requests, cache, client, now, ttl).client.sent;
            &&& client.sent.len() <= sent.len()
            &&& forall|i: int| 0 <= i < client.sent.len() ==> sent[i] == client.sent[i]
        }),
    decreases requests.len(),
{
    if requests.len() > 0 {
        let first = processed_one(requests.first(), cache, client, now, ttl);
        if first.ok {
            lemma_sent_stays(requests.drop_first(), first.cache, first.client, now, ttl);
        }
    }
}

/// One call asks for more results of a kind of a search at most once, however often they are
/// requested, and only where they are requested. What was sent before stays.
pub proof fn law_pair_is_sent_once(
    requests: Seq<PendingView>,
    cache: SearchCache,
    client: OutboxView,
    now: u64,
    ttl: u64,
)
    ensures
        ({
            let sent = processed(requests, cache, client, now, ttl).client.sent;
            &&& client.sent.is_prefix_of(sent)
            &&& forall|i: int|
                client.sent.len() <= i < sent.len() ==> (asked_for(
                    #[trigger] sent[i],
                ) matches Some(pair) && requests.contains(pair))
            &&& forall|i: int, j: int|
                client.sent.len() <= i < j < sent.len() ==> asked_for(#[trigger] sent[i])
                    != asked_for(#[trigger] sent[j])
        }),
    decreases requests.len(),
{
    let n = client.sent.len();
    let sent = processed(requests, cache, client, now, ttl).client.sent;
    lemma_sent_stays(requests, cache, client, now, ttl);
    assert(client.sent =~= sent.subrange(0, n as int));
    if requests.len() > 0 {
        let PendingView::SearchMore { query: q, category: c } = requests.first();
        let first = processed_one(requests.first(), cache, client, now, ttl);
        let rest = requests.drop_first();
        assert(requests[0] == requests.first());
        if first.ok {
            law_pair_is_sent_once(rest, first.cache, first.client, now, ttl);
            lemma_sent_stays(rest, first.cache, first.client, now, ttl);
            lemma_one_blocks(cache, client, now, ttl, q, c);
            lemma_blocked_is_not_sent(rest, first.cache, first.client, now, ttl, q, c);
            let m = first.client.sent.len();
            assert(m > n ==> asked_for(sent[n as int]) == Some(requests.first()));
            assert forall|i: int| n <= i < sent.len() implies (asked_for(
                #[trigger] sent[i],
            ) matches Some(pair) && requests.contains(pair)) by {
                if i >= m {
                    let pair = asked_for(sent[i])->0;
                    let k = rest.index_of(pair);
                    assert(requests[k + 1] == pair);
                }
            }
        }
    }
}

/// Whether one kind of results of a search is as far fetched as before, but for a fetch that was
/// `requested` and is now under way.
pub open spec fn keeps_info(before: PaginationInfo, after: PaginationInfo, requested: bool) -> bool {
    &&& after.is_exhausted == before.is_exhausted
    &&& before.is_fetching ==> after.is_fetching
    &&& !requested ==> after == before
}

/// Whether a search has the same results as before and is as far fetched, but for the fetches that
/// were requested and are now under way.
pub open spec fn keeps_entry(
    requests: Seq<PendingView>,
    query: Seq<char>,
    before: SearchEntry,
    after: SearchEntry,
) -> bool {
    &&& after.results == before.results
    &&& forall|category: SearchResultCategory| #[trigger]
        keeps_info(
            before.pagination.of(category),
            after.pagination.of(category),
            requests.contains(PendingView::SearchMore { query, category }),
        )
}

/// What processing one request makes of the search that it names.
proof fn lemma_one_named_search(
    query: Seq<char>,
    category: SearchResultCategory,
    cache: SearchCache,
    client: OutboxView,
    now: u64,
    ttl: u64,
)
    ensures
        ({
            let request = PendingView::SearchMore { query, category };
            let after = processed_one(request, cache, client, now, ttl).cache;
            &&& live(cache, query, now) is None ==> !after.contains_key(query)
            &&& live(cache, query, now) matches Some(before) ==> live(after, query, now) == Some(
                if can_fetch(cache, now, query, category) {
                    fetching_entry(before, category)
                } else {
                    before
                },
            )
        }),
{
}

/// Processing one request leaves the searches that it does not name as they are.
proof fn lemma_one_other_search(
    request: PendingView,
    cache: SearchCache,
    client: OutboxView,
    now: u64,
    ttl: u64,
    query: Seq<char>,
)
    requires
        request->query != query,
    ensures
        ({
            let after = processed_one(request, cache, client, now, ttl).cache;
            &&& after.contains_key(query) == cache.contains_key(query)
            &&& cache.contains_key(query) ==> after[query] == cache[query]
        }),
{
}

/// What processing one request keeps of a search.
proof fn lemma_one_keeps_search(
    request: PendingView,
    cache: SearchCache,
    client: OutboxView,
    now: u64,
    ttl: u64,
    query: Seq<char>,
)
    ensures
        ({
            let after = processed_one(request, cache, client, now, ttl).cache;
            &&& live(cache, query, now) is Some <==> live(after, query, now) is Some
            &&& after.contains_key(query) ==> cache.contains_key(query)
            &&& live(cache, query, now) matches Some(before) ==> keeps_entry(
                seq![request],
                query,
                before,
                live(after, query, now)->0,
            )
        }),
{
    let after = processed_one(request, cache, client, now, ttl).cache;
    let PendingView::SearchMore { query: q, category: c } = request;
    if q != query {
        lemma_one_other_search(request, cache, client, now, ttl, query);
    } else {
        lemma_one_named_search(query, c, cache, client, now, ttl);
    }
    if live(cache, query, now) is Some {
        let before = live(cache, query, now)->0;
        let kept = live(after, query, now)->0;
        assert forall|category: SearchResultCategory| #[trigger]
            keeps_info(
                before.pagination.of(category),
                kept.pagination.of(category),
                seq![request].contains(PendingView::SearchMore { query, category }),
            ) by {
            assert(seq![request][0] == request);
            lemma_fetching_keeps_info(before, c, category);
        }
    }
}

/// Marking a fetch as under way changes that mark alone.
proof fn lemma_fetching_keeps_info(
    entry: SearchEntry,
    marked: SearchResultCategory,
    category: SearchResultCategory,
)
    ensures
        keeps_info(
            entry.pagination.of(category),
            fetching_entry(entry, marked).pagination.of(category),
            category == marked,
        ),
        fetching_entry(entry, marked).results == entry.results,
{
}

/// What is known of a search stays known while requests are processed, whether the client takes all
/// the requests or not, and nothing else becomes known. Its results stay, and so does whether there
/// are more; a fetch is marked as under way only where it was requested, and no mark is taken away.
pub proof fn law_processing_keeps_searches(
    requests: Seq<PendingView>,
    cache: SearchCache,
    client: OutboxView,
    now: u64,
    ttl: u64,
    query: Seq<char>,
)
    ensures
        ({
            let after = processed(requests, cache, client, now, ttl).cache;
            &&& live(cache, query, now) is Some <==> live(after, query, now) is Some
            &&& after.contains_key(query) ==> cache.contains_key(query)
            &&& live(cache, query, now) matches Some(before) ==> keeps_entry(
                requests,
                query,
                before,
                live(after, query, now)->0,
            )
        }),
    decreases requests.len(),
{
    let after = processed(requests, cache, client, now, ttl).cache;
    if requests.len() > 0 {
        let first = processed_one(requests.first(), cache, client, now, ttl);
        let rest = requests.drop_first();
        lemma_one_keeps_search(requests.first(), cache, client, now, ttl, query);
        if first.ok {
            law_processing_keeps_searches(rest, first.cache, first.client, now, ttl, query);
        }
        if live(cache, query, now) is Some {
            let before = live(cache, query, now)->0;
            let kept = live(after, query, now)->0;
            let between = live(first.cache, query, now)->0;
            assert forall|category: SearchResultCategory| #[trigger]
                keeps_info(
                    before.pagination.of(category),
                    kept.pagination.of(category),
                    requests.contains(PendingView::SearchMore { query, category }),
                ) by {
                let request = PendingView::SearchMore { query, category };
                assert(requests[0] == requests.first());
                assert(keeps_info(
                    before.pagination.of(category),
                    between.pagination.of(category),
                    seq![requests.first()].contains(request),
                ));
                if rest.contains(request) {
                    let k = rest.index_of(request);
                    assert(requests[k + 1] == request);
                }
                if first.ok {
                    assert(keeps_info(
                        between.pagination.of(category),
                        kept.pagination.of(category),
                        rest.contains(request),
                    ));
                }
            }
        }
    }
}

/// A search that no request names is left as it is, with the time at which it expires.
pub proof fn law_processing_leaves_other_searches(
    requests: Seq<PendingView>,
    cache: SearchCache,
    client: OutboxView,
    now: u64,
    ttl: u64,
    query: Seq<char>,
)
    requires
        forall|i: int| 0 <= i < requests.len() ==> (#[trigger] requests[i])->query != query,
    ensures
        ({
            let after = processed(requests, cache, client, now, ttl).cache;
            &&& after.contains_key(query) == cache.contains_key(query)
            &&& cache.contains_key(query) ==> after[query] == cache[query]
        }),
    decreases requests.len(),
{
    if requests.len() > 0 {
        let first = processed_one(requests.first(), cache, client, now, ttl);
        let rest = requests.drop_first();
        assert(requests[0] == requests.first());
        lemma_one_other_search(requests.first(), cache, client, now, ttl, query);
        if first.ok {
            assert forall|i: int| 0 <= i < rest.len() implies (#[trigger] rest[i])->query
                != query by {
                assert(rest[i] == requests[i + 1]);
            }
            law_processing_leaves_other_searches(
                rest,
                first.cache,
                first.client,
                now,
                ttl,
                query,
            );
        }
    }
}

/// Where no search has expired, processing requests leaves the same searches known, also where the
/// client stops listening.
pub proof fn law_processing_keeps_keys(
    requests: Seq<PendingView>,
    cache: SearchCache,
    client: OutboxView,
    now: u64,
    ttl: u64,
)
    requires
        forall|query: Seq<char>|
            cache.contains_key(query) ==> (#[trigger] live(cache, query, now)) is Some,
    ensures
        processed(requests, cache, client, now, ttl).cache.dom() == cache.dom(),
{
    let after = processed(requests, cache, client, now, ttl).cache;
    assert forall|query: Seq<char>| after.contains_key(query) == cache.contains_key(query) by {
        law_processing_keeps_searches(requests, cache, client, now, ttl, query);
        assert(cache.contains_key(query) ==> live(cache, query, now) is Some);
    }
    assert(after.dom() =~= cache.dom());
}

/// Requests for what cannot be fetched leave what is known of a search as it is.
proof fn lemma_blocked_change_nothing(
    requests: Seq<PendingView>,
    cache: SearchCache,
    client: OutboxView,
    now: u64,
    ttl: u64,
    query: Seq<char>,
)
    requires
        forall|i: int|
            0 <= i < requests.len() ==> (#[trigger] requests[i] matches PendingView::SearchMore {
                query,
                category,
            } && !can_fetch(cache, now, query, category)),
    ensures
        live(processed(requests, cache, client, now, ttl).cache, query, now) == live(
            cache,
            query,
            now,
        ),
    decreases requests.len(),
{
    if requests.len() > 0 {
        let first = processed_one(requests.first(), cache, client, now, ttl);
        assert(requests[0] == requests.first());
        let rest = requests.drop_first();
        assert forall|i: int| 0 <= i < rest.len() implies (
        #[trigger] rest[i] matches PendingView::SearchMore { query, category } && !can_fetch(
            first.cache,
            now,
            query,
            category,
        )) by {
            assert(rest[i] == requests[i + 1]);
            let PendingView::SearchMore { query, category } = rest[i];
            lemma_one_keeps_blocked(requests.first(), cache, client, now, ttl, query, category);
        }
        if first.ok {
            lemma_blocked_change_nothing(rest, first.cache, first.client, now, ttl, query);
        }
    }
}

/// Processing the same requests a second time, at the same time or later and before any fetch has
/// ended, sends nothing more, succeeds even where the client has stopped listening, and leaves the
/// results and the marks of every search that is still known as they are.
pub proof fn law_processing_twice_sends_once(
    requests: Seq<PendingView>,
    cache: SearchCache,
    client: OutboxView,
    now: u64,
    later: u64,
    ttl: u64,
)
    requires
        processed(requests, cache, client, now, ttl).ok,
        now <= later,
    ensures
        ({
            let once = processed(requests, cache, client, now, ttl);
            let twice = processed(requests, once.cache, once.client, later, ttl);
            &&& twice.ok
            &&& twice.client == once.client
            &&& forall|query: Seq<char>| #[trigger]
                live(twice.cache, query, later) == live(once.cache, query, later)
        }),
{
    let once = processed(requests, cache, client, now, ttl);
    let twice = processed(requests, once.cache, once.client, later, ttl);
    assert forall|i: int| 0 <= i < requests.len() implies (
    #[trigger] requests[i] matches PendingView::SearchMore { query, category } && !can_fetch(
        once.cache,
        later,
        query,
        category,
    )) by {
        let PendingView::SearchMore { query, category } = requests[i];
        assert(requests.contains(requests[i]));
        law_processed_requests_are_under_way(requests, cache, client, now, ttl, query, category);
    }
    lemma_blocked_send_nothing(requests, once.cache, once.client, later, ttl);
    assert forall|query: Seq<char>| #[trigger]
        live(twice.cache, query, later) == live(once.cache, query, later) by {
        lemma_blocked_change_nothing(requests, once.cache, once.client, later, ttl, query);
    }
}

} // verus!
