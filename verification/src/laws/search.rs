//! What the fetching of more results promises.

use vstd::prelude::*;

use crate::client::OutboxView;
use crate::client::RequestView;
use crate::event::search::prefetching;
use crate::event::search::processed;
use crate::event::search::processed_one;
use crate::event::search::SearchCache;
use crate::laws::change::hands_over;
use crate::laws::change::lemma_vec_fits;
use crate::model::PaginationInfo;
use crate::model::SearchPagination;
use crate::model::SearchResultCategory;
use crate::model::SearchResults;
use crate::ui::PendingView;
use crate::ui::UIView;

verus! {

/// How many results of one kind have been fetched.
pub open spec fn number_of(results: SearchResults, category: SearchResultCategory) -> nat {
    match category {
        SearchResultCategory::Tracks => results.tracks@.len(),
        SearchResultCategory::Albums => results.albums@.len(),
        SearchResultCategory::Artists => results.artists@.len(),
        SearchResultCategory::Playlists => results.playlists@.len(),
        SearchResultCategory::Shows => results.shows@.len(),
        SearchResultCategory::Episodes => results.episodes@.len(),
    }
}

/// How far the results of one kind have been fetched.
pub open spec fn progress_of(
    pagination: SearchPagination,
    category: SearchResultCategory,
) -> PaginationInfo {
    match category {
        SearchResultCategory::Tracks => pagination.tracks,
        SearchResultCategory::Albums => pagination.albums,
        SearchResultCategory::Artists => pagination.artists,
        SearchResultCategory::Playlists => pagination.playlists,
        SearchResultCategory::Shows => pagination.shows,
        SearchResultCategory::Episodes => pagination.episodes,
    }
}

/// Whether a search is known and has not expired.
pub open spec fn is_known(cache: SearchCache, query: Seq<char>, now: u64) -> bool {
    cache.contains_key(query) && cache[query].expires_at >= now
}

/// Whether more results of one kind are there to be fetched, and are not on their way already.
pub open spec fn has_more(
    cache: SearchCache,
    query: Seq<char>,
    category: SearchResultCategory,
    now: u64,
) -> bool {
    &&& is_known(cache, query, now)
    &&& !progress_of(cache[query].value.pagination, category).is_exhausted
    &&& !progress_of(cache[query].value.pagination, category).is_fetching
}

/// The number of results of one kind is a number of the machine.
proof fn lemma_results_fit(results: SearchResults)
    ensures
        forall|category: SearchResultCategory|
            (#[trigger] number_of(results, category)) <= usize::MAX,
{
    lemma_vec_fits(results.tracks);
    lemma_vec_fits(results.albums);
    lemma_vec_fits(results.artists);
    lemma_vec_fits(results.playlists);
    lemma_vec_fits(results.shows);
    lemma_vec_fits(results.episodes);
}

/// Each kind of results is counted, and its progress read and written, apart from the others.
pub proof fn law_kinds_of_results_are_apart(
    results: SearchResults,
    pagination: SearchPagination,
    info: PaginationInfo,
    category: SearchResultCategory,
    other: SearchResultCategory,
)
    ensures
        results.count(category) == number_of(results, category),
        pagination.of(category) == progress_of(pagination, category),
        progress_of(pagination.with(category, info), category) == info,
        other != category ==> progress_of(pagination.with(category, info), other) == progress_of(
            pagination,
            other,
        ),
{
}

/// Processing one request for more results of a search that has more marks them as on their way and
/// asks for those behind the ones that are there. The search stays known for its time to live, with its
/// results and the progress of the other kinds. Where there is no more, or the client does not listen,
/// nothing is sent. A search that is not known is forgotten.
pub proof fn law_processing_one_request(
    query: Seq<char>,
    category: SearchResultCategory,
    other: SearchResultCategory,
    cache: SearchCache,
    client: OutboxView,
    now: u64,
    ttl: u64,
)
    ensures
        ({
            let requests = seq![PendingView::SearchMore { query, category }];
            let p = processed(requests, cache, client, now, ttl);
            if is_known(cache, query, now) {
                let before = cache[query].value;
                let after = p.cache[query].value;
                &&& p.cache.dom() =~= cache.dom()
                &&& p.cache[query].expires_at == now + ttl || (now + ttl > u64::MAX
                    && p.cache[query].expires_at == u64::MAX)
                &&& after.results == before.results
                &&& other != category ==> progress_of(after.pagination, other) == progress_of(
                    before.pagination,
                    other,
                )
                &&& progress_of(after.pagination, category).is_exhausted == progress_of(
                    before.pagination,
                    category,
                ).is_exhausted
                &&& if has_more(cache, query, category, now) {
                    &&& progress_of(after.pagination, category).is_fetching
                    &&& p.ok == (client.room > 0)
                    &&& client.room > 0 ==> hands_over(
                        client,
                        p.client,
                        RequestView::SearchMore {
                            query,
                            category,
                            offset: number_of(before.results, category) as usize,
                        },
                    )
                    &&& client.room == 0 ==> p.client == client
                } else {
                    &&& after == before
                    &&& p.ok
                    &&& p.client == client
                }
            } else {
                &&& !p.cache.contains_key(query)
                &&& p.cache.dom() =~= cache.dom().remove(query)
                &&& p.ok
                &&& p.client == client
            }
        }),
        number_of(cache[query].value.results, category) <= usize::MAX,
{
    let request = PendingView::SearchMore { query, category };
    let requests = seq![request];
    assert(requests.first() == request);
    assert(requests.drop_first() =~= Seq::<PendingView>::empty());
    let first = processed_one(request, cache, client, now, ttl);
    assert(processed(requests.drop_first(), first.cache, first.client, now, ttl).cache
        == first.cache);
    lemma_results_fit(cache[query].value.results);
}

/// Processing requests one after the other is the same as processing the first of them and then the
/// rest, where the client takes what the first ones send.
pub proof fn law_processing_in_parts(
    first: Seq<PendingView>,
    rest: Seq<PendingView>,
    cache: SearchCache,
    client: OutboxView,
    now: u64,
    ttl: u64,
)
    ensures
        ({
            let p = processed(first, cache, client, now, ttl);
            processed(first + rest, cache, client, now, ttl) == (if p.ok {
                processed(rest, p.cache, p.client, now, ttl)
            } else {
                p
            })
        }),
    decreases first.len(),
{
    if first.len() == 0 {
        assert(first + rest =~= rest);
    } else {
        let one = processed_one(first.first(), cache, client, now, ttl);
        assert((first + rest).first() == first.first());
        assert((first + rest).drop_first() =~= first.drop_first() + rest);
        if one.ok {
            law_processing_in_parts(first.drop_first(), rest, one.cache, one.client, now, ttl);
        }
    }
}

/// What processing one request makes of a search.
proof fn lemma_one_keeps_results(
    request: PendingView,
    cache: SearchCache,
    client: OutboxView,
    now: u64,
    ttl: u64,
    query: Seq<char>,
)
    ensures
        ({
            let after = processed_one(request, cache, client, now, ttl).cache;
            &&& is_known(after, query, now) <==> is_known(cache, query, now)
            &&& is_known(cache, query, now) ==> after[query].value.results
                == cache[query].value.results
        }),
{
    let PendingView::SearchMore { query: named, category } = request;
    if named != query {
        let after = processed_one(request, cache, client, now, ttl).cache;
        assert(after.contains_key(query) == cache.contains_key(query));
    }
}

/// Whether a request asks for more results of a search that is known, from the number of those on that
/// are there.
pub open spec fn goes_on_where_it_stopped(
    request: RequestView,
    cache: SearchCache,
    now: u64,
) -> bool {
    request matches RequestView::SearchMore { query, category, offset } && is_known(
        cache,
        query,
        now,
    ) && offset == number_of(cache[query].value.results, category)
}

/// Whatever is processed, each request that is sent asks for more of a search that is known, and for
/// the results behind those that are there: the number that it carries is the number of results of its
/// kind, of tracks, albums, artists, playlists, shows or episodes.
pub proof fn law_requests_go_on_where_the_results_end(
    requests: Seq<PendingView>,
    cache: SearchCache,
    client: OutboxView,
    now: u64,
    ttl: u64,
)
    ensures
        ({
            let sent = processed(requests, cache, client, now, ttl).client.sent;
            &&& sent.len() >= client.sent.len()
            &&& forall|i: int| 0 <= i < client.sent.len() ==> sent[i] == client.sent[i]
            &&& forall|i: int|
                client.sent.len() <= i < sent.len() ==> goes_on_where_it_stopped(
                    #[trigger] sent[i],
                    cache,
                    now,
                )
        }),
    decreases requests.len(),
{
    if requests.len() > 0 {
        let PendingView::SearchMore { query, category } = requests.first();
        let one = processed_one(requests.first(), cache, client, now, ttl);
        let sent = processed(requests, cache, client, now, ttl).client.sent;
        let n = client.sent.len() as int;
        let m = one.client.sent.len() as int;
        lemma_results_fit(cache[query].value.results);
        assert(number_of(cache[query].value.results, category) <= usize::MAX);
        assert(m > n ==> goes_on_where_it_stopped(one.client.sent[n], cache, now));
        if one.ok {
            law_requests_go_on_where_the_results_end(
                requests.drop_first(),
                one.cache,
                one.client,
                now,
                ttl,
            );
            assert forall|i: int| n <= i < sent.len() implies goes_on_where_it_stopped(
                #[trigger] sent[i],
                cache,
                now,
            ) by {
                if i < m {
                    assert(sent[i] == one.client.sent[i]);
                } else {
                    assert(goes_on_where_it_stopped(sent[i], one.cache, now));
                    lemma_one_keeps_results(
                        requests.first(),
                        cache,
                        client,
                        now,
                        ttl,
                        sent[i]->SearchMore_query,
                    );
                }
            }
        }
    }
}

/// What processing one request makes of the other results that are there to be fetched.
proof fn lemma_one_keeps_more(
    request: PendingView,
    cache: SearchCache,
    client: OutboxView,
    now: u64,
    ttl: u64,
    query: Seq<char>,
    category: SearchResultCategory,
)
    requires
        request != (PendingView::SearchMore { query, category }),
        has_more(cache, query, category, now),
    ensures
        ({
            let after = processed_one(request, cache, client, now, ttl).cache;
            has_more(after, query, category, now)
        }),
{
    let PendingView::SearchMore { query: named, category: kind } = request;
    let after = processed_one(request, cache, client, now, ttl).cache;
    if named != query {
        assert(after[query] == cache[query]);
    } else {
        law_kinds_of_results_are_apart(
            cache[query].value.results,
            cache[query].value.pagination,
            PaginationInfo {
                is_fetching: true,
                ..cache[query].value.pagination.of(kind)
            },
            kind,
            category,
        );
    }
}

/// What is asked for and there to be fetched is sent, where the client takes everything: among the
/// requests that go out is one for just that search and kind of results.
pub proof fn law_wanted_results_are_sent_for(
    requests: Seq<PendingView>,
    cache: SearchCache,
    client: OutboxView,
    now: u64,
    ttl: u64,
    query: Seq<char>,
    category: SearchResultCategory,
)
    requires
        processed(requests, cache, client, now, ttl).ok,
        requests.contains(PendingView::SearchMore { query, category }),
        has_more(cache, query, category, now),
    ensures
        ({
            let sent = processed(requests, cache, client, now, ttl).client.sent;
            exists|i: int|
                client.sent.len() <= i < sent.len() && (
                #[trigger] sent[i] matches RequestView::SearchMore {
                    query: asked,
                    category: kind,
                    ..
                } && asked == query && kind == category)
        }),
    decreases requests.len(),
{
    let wanted = PendingView::SearchMore { query, category };
    let one = processed_one(requests.first(), cache, client, now, ttl);
    let rest = requests.drop_first();
    let sent = processed(requests, cache, client, now, ttl).client.sent;
    let n = client.sent.len() as int;
    law_requests_go_on_where_the_results_end(rest, one.cache, one.client, now, ttl);
    if requests.first() == wanted {
        assert(sent[n] == one.client.sent[n]);
    } else {
        let k = requests.index_of(wanted);
        assert(rest[k - 1] == wanted);
        lemma_one_keeps_more(requests.first(), cache, client, now, ttl, query, category);
        law_wanted_results_are_sent_for(
            rest,
            one.cache,
            one.client,
            now,
            ttl,
            query,
            category,
        );
    }
}

/// Processing fails only where the client takes no more requests; everything that it took was sent.
pub proof fn law_processing_stops_with_the_client(
    requests: Seq<PendingView>,
    cache: SearchCache,
    client: OutboxView,
    now: u64,
    ttl: u64,
)
    ensures
        ({
            let p = processed(requests, cache, client, now, ttl);
            &&& !p.ok ==> p.client.room == 0
            &&& p.client.room + p.client.sent.len() == client.room + client.sent.len()
        }),
    decreases requests.len(),
{
    if requests.len() > 0 {
        let one = processed_one(requests.first(), cache, client, now, ttl);
        if one.ok {
            law_processing_stops_with_the_client(
                requests.drop_first(),
                one.cache,
                one.client,
                now,
                ttl,
            );
        }
    }
}

/// More results are asked for exactly where the list is not empty, the selection of the page is among
/// its last five items or behind, the search has more of that kind, and they have not been asked for.
/// The request is for that search and that kind, and stands behind the others; nothing else changes.
pub proof fn law_prefetch_near_the_end(
    ui: UIView,
    cache: SearchCache,
    now: u64,
    query: Seq<char>,
    category: SearchResultCategory,
    list_len: usize,
)
    requires
        ui.history.len() > 0,
    ensures
        ({
            let request = PendingView::SearchMore { query, category };
            let near = ui.history[ui.history.len() - 1].selection() matches Some(selected)
                && list_len - selected <= 5;
            let after = prefetching(ui, cache, now, query, category, list_len);
            if list_len > 0 && near && has_more(cache, query, category, now)
                && !ui.pending.contains(request) {
                after == (UIView { pending: ui.pending.push(request), ..ui })
            } else {
                after == ui
            }
        }),
{
}

} // verus!
