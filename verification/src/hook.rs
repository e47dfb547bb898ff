//! The values handed to consumers on each dispatched event: the console line
//! and the hook invocation, with the hook's timing rule.

use vstd::prelude::*;
use vstd::string::*;

use crate::ncspot_event::NcspotEvent;
use crate::state::{normalized_of, state_label};

verus! {

/// Delay, in milliseconds, applied before spawning the hook for a `playing`
/// state, so that a rapid `finished` / `playing` pair at a track boundary
/// does not double-fire the hook.
pub const PLAYING_HOOK_DELAY_MS: u64 = 500;

/// What one dispatched event hands to the outside world: the normalized state
/// and the track fields, empty when no track is loaded.
#[derive(Debug, Clone, PartialEq)]
pub struct HookInvocation {
    pub state: String,
    pub artist: String,
    pub title: String,
    pub album: String,
}

/// The given parts joined with the given separator, in order.
pub open spec fn join_with(parts: Seq<Seq<char>>, sep: Seq<char>) -> Seq<char>
    decreases parts.len(),
{
    if parts.len() == 0 {
        Seq::empty()
    } else if parts.len() == 1 {
        parts[0]
    } else {
        parts[0] + sep + join_with(parts.drop_first(), sep)
    }
}

pub proof fn lemma_join_push(parts: Seq<Seq<char>>, sep: Seq<char>, x: Seq<char>)
    ensures
        join_with(parts.push(x), sep) == if parts.len() == 0 {
            x
        } else {
            join_with(parts, sep) + sep + x
        },
    decreases parts.len(),
{
    if parts.len() == 0 {
        assert(parts.push(x).len() == 1);
        assert(parts.push(x)[0] == x);
    } else if parts.len() == 1 {
        assert(parts.push(x).drop_first() =~= seq![x]);
        assert(join_with(seq![x], sep) == x);
        assert(parts.push(x)[0] == parts[0]);
    } else {
        lemma_join_push(parts.drop_first(), sep, x);
        assert(parts.push(x).drop_first() =~= parts.drop_first().push(x));
        assert(parts.push(x)[0] == parts[0]);
        assert(parts.drop_first().len() > 0);
        assert((parts[0] + sep + (join_with(parts.drop_first(), sep) + sep + x)) =~= (parts[0]
            + sep + join_with(parts.drop_first(), sep) + sep + x));
    }
}

/// Join artist names with `", "` for display.
pub fn join_artists(artists: &Vec<String>) -> (r: String)
    ensures
        r@ == join_with(artists.deep_view(), ", "@),
{
    let mut r = String::new();
    let n = artists.len();
    proof {
        assert(artists.deep_view().take(0) =~= Seq::<Seq<char>>::empty());
    }
    for i in 0..n
        invariant
            n == artists@.len(),
            r@ == join_with(artists.deep_view().take(i as int), ", "@),
    {
        if i > 0 {
            r.append(", ");
        }
        r.append(artists[i].as_str());
        proof {
            let dv = artists.deep_view();
            lemma_join_push(dv.take(i as int), ", "@, dv[i as int]);
            assert(dv.take(i as int).push(dv[i as int]) =~= dv.take(i as int + 1));
            if i == 0 {
                assert(Seq::<char>::empty() + dv[0] =~= dv[0]);
            }
        }
    }
    proof {
        assert(artists.deep_view().take(n as int) =~= artists.deep_view());
    }
    r
}

/// Which invocation a decoded event dispatches: the mode's label, and the
/// track fields when a track is loaded, empty fields otherwise.
pub open spec fn invocation_rel(e: NcspotEvent, inv: HookInvocation) -> bool {
    &&& inv.state@ == state_label(normalized_of(e.mode))
    &&& match e.playable {
        Some(p) => {
            &&& inv.artist@ == join_with(p.artists.deep_view(), ", "@)
            &&& inv.title@ == p.title@
            &&& inv.album@ == p.album@
        },
        None => {
            &&& inv.artist@ == Seq::<char>::empty()
            &&& inv.title@ == Seq::<char>::empty()
            &&& inv.album@ == Seq::<char>::empty()
        },
    }
}

/// Build the invocation a decoded event dispatches.
pub fn invocation_for_event(e: &NcspotEvent) -> (inv: HookInvocation)
    ensures
        invocation_rel(*e, inv),
{
    let state: String = crate::state::mode_to_state_string(&e.mode).to_owned();
    match &e.playable {
        Some(p) => HookInvocation {
            state,
            artist: join_artists(&p.artists),
            title: p.title.clone(),
            album: p.album.clone(),
        },
        None => HookInvocation {
            state,
            artist: String::new(),
            title: String::new(),
            album: String::new(),
        },
    }
}

/// The invocation synthesized when an established connection is lost.
pub open spec fn is_stopped_invocation(inv: HookInvocation) -> bool {
    &&& inv.state@ == "stopped"@
    &&& inv.artist@ == Seq::<char>::empty()
    &&& inv.title@ == Seq::<char>::empty()
    &&& inv.album@ == Seq::<char>::empty()
}

/// Build the synthesized `stopped` invocation with empty track fields.
pub fn stopped_invocation() -> (inv: HookInvocation)
    ensures
        is_stopped_invocation(inv),
{
    HookInvocation {
        state: "stopped".to_owned(),
        artist: String::new(),
        title: String::new(),
        album: String::new(),
    }
}

/// The pipe-delimited console line for an invocation:
/// `state|artist|title|album`.
pub fn console_line(inv: &HookInvocation) -> (r: String)
    ensures
        r@ == inv.state@ + "|"@ + inv.artist@ + "|"@ + inv.title@ + "|"@ + inv.album@,
{
    let mut r = inv.state.clone();
    r.append("|");
    r.append(inv.artist.as_str());
    r.append("|");
    r.append(inv.title.as_str());
    r.append("|");
    r.append(inv.album.as_str());
    r
}

/// How long the hook spawn is held back for this invocation: the fixed
/// absorption delay for `playing`, none otherwise. Only the hook spawn waits;
/// console output and further reads do not.
pub open spec fn spec_hook_delay_ms(state: Seq<char>) -> u64 {
    if state == "playing"@ {
        PLAYING_HOOK_DELAY_MS
    } else {
        0
    }
}

pub fn hook_delay_ms(inv: &HookInvocation) -> (d: u64)
    ensures
        d == spec_hook_delay_ms(inv.state@),
{
    let playing: String = "playing".to_owned();
    if inv.state == playing {
        PLAYING_HOOK_DELAY_MS
    } else {
        0
    }
}

/// The environment handed to the hook process, in order: `NCSPOT_STATE`,
/// `NCSPOT_ARTIST`, `NCSPOT_TITLE`, `NCSPOT_ALBUM`.
pub fn hook_env(inv: &HookInvocation) -> (env: Vec<(String, String)>)
    ensures
        env@.len() == 4,
        env@[0].0@ == "NCSPOT_STATE"@ && env@[0].1@ == inv.state@,
        env@[1].0@ == "NCSPOT_ARTIST"@ && env@[1].1@ == inv.artist@,
        env@[2].0@ == "NCSPOT_TITLE"@ && env@[2].1@ == inv.title@,
        env@[3].0@ == "NCSPOT_ALBUM"@ && env@[3].1@ == inv.album@,
{
    let mut env: Vec<(String, String)> = Vec::new();
    env.push(("NCSPOT_STATE".to_owned(), inv.state.clone()));
    env.push(("NCSPOT_ARTIST".to_owned(), inv.artist.clone()));
    env.push(("NCSPOT_TITLE".to_owned(), inv.title.clone()));
    env.push(("NCSPOT_ALBUM".to_owned(), inv.album.clone()));
    env
}

} // verus!
