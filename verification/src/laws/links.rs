//! What the opening of links promises.

use vstd::prelude::*;

use crate::client::OutboxView;
use crate::client::RequestView;
use crate::error::ErrorView;
use crate::event::link::clipboard_outcome;
use crate::event::link::link_at;
use crate::event::link::link_head;
use crate::event::link::link_in;
use crate::event::link::link_outcome;
use crate::event::step::StepView;
use crate::ids::ContextIdView;
use crate::ids::is_alnum;
use crate::ids::is_plain_id;
use crate::ids::PlayableIdView;
use crate::laws::change::adds_context;
use crate::laws::change::hands_over;
use crate::laws::change::is_done;
use crate::laws::change::is_refused;
use crate::laws::change::is_unchanged;
use crate::ui::UIView;

verus! {

/// The context that a link of the type `kind` opens.
pub open spec fn context_of(kind: Seq<char>, id: Seq<char>) -> Option<ContextIdView> {
    if kind == "playlist"@ {
        Some(ContextIdView::Playlist(id))
    } else if kind == "artist"@ {
        Some(ContextIdView::Artist(id))
    } else if kind == "album"@ {
        Some(ContextIdView::Album(id))
    } else {
        None
    }
}

/// The link of a track plays that track alone and changes nothing else. The link of a playlist, an artist
/// or an album opens the page of just that one. An id that is none, and a link of any other type, is an
/// error that changes nothing; without a link there is nothing to do.
pub proof fn law_link_opens_its_item(
    kind: Seq<char>,
    id: Seq<char>,
    ui: UIView,
    client: OutboxView,
)
    ensures
        ({
            let o = link_outcome(Some((kind, id)), ui, client);
            if kind != "track"@ && context_of(kind, id) is None {
                &&& o.result == Err::<StepView, ErrorView>(ErrorView::UnsupportedLinkType(kind))
                &&& is_unchanged(o, ui, client)
            } else if exists|i: int| 0 <= i < id.len() && !is_alnum(#[trigger] id[i]) {
                &&& o.result == Err::<StepView, ErrorView>(ErrorView::InvalidId)
                &&& is_unchanged(o, ui, client)
            } else if kind == "track"@ {
                &&& o.ui == ui
                &&& client.room == 0 ==> is_refused(o) && o.client == client
                &&& client.room > 0 ==> is_done(o) && hands_over(
                    client,
                    o.client,
                    RequestView::Play(seq![PlayableIdView::Track(id)]),
                )
            } else {
                &&& is_done(o)
                &&& o.client == client
                &&& adds_context(ui, o.ui, context_of(kind, id)->0)
            }
        }),
        ({
            let o = link_outcome(None, ui, client);
            is_done(o) && is_unchanged(o, ui, client)
        }),
{
    crate::event::link::lemma_kinds_differ();
    if forall|i: int| 0 <= i < id.len() ==> is_alnum(#[trigger] id[i]) {
        assert(is_plain_id(id));
    }
}

/// A clipboard that cannot be read is an error with its reason, and changes nothing; one that can is
/// opened by the link in its text.
pub proof fn law_clipboard_is_opened_by_its_link(
    text: Seq<char>,
    reason: Seq<char>,
    ui: UIView,
    client: OutboxView,
)
    ensures
        clipboard_outcome(Ok(text), ui, client) == link_outcome(link_in(text), ui, client),
        ({
            let o = clipboard_outcome(Err(reason), ui, client);
            &&& o.result == Err::<StepView, ErrorView>(ErrorView::Clipboard(reason))
            &&& is_unchanged(o, ui, client)
        }),
{
}

/// A letter or digit of an id is a decimal digit or a letter without an accent.
pub proof fn law_letters_and_digits(c: char)
    ensures
        is_alnum(c) <==> (48 <= c as int <= 57 || 65 <= c as int <= 90 || 97 <= c as int <= 122),
{
}

/// A link is found behind other text that holds no `h`, with any character but a line feed for each of
/// its two dots. Its type reaches to the first slash and its id as far as there are letters and digits;
/// what follows does not count.
pub proof fn law_link_is_found_in_text(
    before: Seq<char>,
    dot: char,
    other_dot: char,
    kind: Seq<char>,
    id: Seq<char>,
    rest: Seq<char>,
)
    requires
        !before.contains('h'),
        dot != '\n',
        other_dot != '\n',
        !kind.contains('/'),
        !kind.contains('\n'),
        is_plain_id(id),
        rest.len() > 0 ==> !is_alnum(rest[0]),
    ensures
        link_in(
            before + "https://open"@.push(dot) + "spotify"@.push(other_dot) + "com/"@ + kind.push(
                '/',
            ) + id + rest,
        ) == Some((kind, id)),
{
    reveal_strlit("https://open");
    reveal_strlit("spotify");
    reveal_strlit("com/");
    let s = before + "https://open"@.push(dot) + "spotify"@.push(other_dot) + "com/"@ + kind.push(
        '/',
    ) + id + rest;
    let p = before.len() as int;
    let k = p + 25 + kind.len();
    let e = k + 1 + id.len();
    assert(s.subrange(p, p + 12) =~= "https://open"@);
    assert(s.subrange(p + 13, p + 20) =~= "spotify"@);
    assert(s.subrange(p + 21, p + 25) =~= "com/"@);
    assert(link_head(s, p));
    assert forall|j: int| p + 25 <= j < k implies s[j] != '/' && s[j] != '\n' by {
        assert(s[j] == kind[j - p - 25]);
        assert(kind.contains(s[j]));
    }
    assert forall|j: int| k + 1 <= j < e implies is_alnum(s[j]) by {
        assert(s[j] == id[j - k - 1]);
    }
    assert(e < s.len() ==> s[e] == rest[0]);
    assert(s[k] == '/');
    assert(link_at(s, p, k));
    assert forall|q: int, m: int| q < p implies !link_at(s, q, m) by {
        if link_at(s, q, m) {
            assert(s.subrange(q, q + 12)[0] == 'h');
            assert(s[q] == before[q]);
            assert(before.contains('h'));
        }
    }
    assert(crate::event::link::first_link(s, p, k, e));
    assert(s.subrange(p + 25, k) =~= kind);
    assert(s.subrange(k + 1, e) =~= id);
    assert(crate::event::link::leads_to(s, kind, id));
    crate::event::link::lemma_leads_to_one(s, kind, id);
}

/// Whether the first characters of a link stand at `p` in `s`.
pub open spec fn begins_like_a_link(s: Seq<char>, p: int) -> bool {
    0 <= p && p + 25 <= s.len() && s.subrange(p, p + 12) == "https://open"@
}

/// A text in which the beginning of a link occurs nowhere has no link, nor has one in which no slash
/// follows the beginning on its line.
pub proof fn law_text_without_a_link(s: Seq<char>)
    requires
        forall|p: int, k: int|
            #[trigger] begins_like_a_link(s, p) && p + 25 <= k < s.len() && #[trigger] s[k] == '/'
                ==> exists|j: int| p + 25 <= j < k && #[trigger] s[j] == '\n',
    ensures
        link_in(s) is None,
{
    assert forall|kind: Seq<char>, id: Seq<char>| !crate::event::link::leads_to(s, kind, id) by {
        if crate::event::link::leads_to(s, kind, id) {
            let (p, k, e) = choose|p: int, k: int, e: int|
                #[trigger] crate::event::link::first_link(s, p, k, e) && kind == s.subrange(
                    p + 25,
                    k,
                ) && id == s.subrange(k + 1, e);
            assert(link_at(s, p, k));
            assert(begins_like_a_link(s, p));
            assert(s[k] == '/');
        }
    }
}

} // verus!
