//! Decisions of the supervisor: finding services by name, and routing data that services send.
use vstd::prelude::*;
use vstd::hash_map::StringHashMap;
use crate::text::{split, join, chars_of, split_chars, pattern1, join_chars, string_from_chars, subvec, chars_eq_str};

verus! {

/// The lowercase form of a string, as `str::to_lowercase` computes it (Unicode case mapping).
pub uninterp spec fn lowercase(s: Seq<char>) -> Seq<char>;

/// `str::to_lowercase`: the lowercase form of a string. Its result depends on the string alone.
#[verifier::external_body]
fn to_lowercase(s: &str) -> (r: String)
    ensures
        r@ == lowercase(s@),
{
    s.to_lowercase()
}

/// The position of the first of the strings that equals `t`.
pub open spec fn first_equal(xs: Seq<Seq<char>>, t: Seq<char>) -> Option<int>
    decreases xs.len(),
{
    if xs.len() == 0 {
        None
    } else {
        match first_equal(xs.drop_last(), t) {
            Some(i) => Some(i),
            None => if xs.last() == t {
                Some(xs.len() - 1)
            } else {
                None
            },
        }
    }
}

/// The lowercase forms of a list of strings.
pub open spec fn lowercased(names: Seq<Seq<char>>) -> Seq<Seq<char>> {
    names.map_values(|n: Seq<char>| lowercase(n))
}

/// The first service whose name equals `s`, ignoring case.
pub open spec fn spec_find(names: Seq<Seq<char>>, s: Seq<char>) -> Option<int> {
    first_equal(lowercased(names), lowercase(s))
}

/// A match found in a prefix is the match in the whole list.
proof fn lemma_first_equal_prefix(xs: Seq<Seq<char>>, k: int, t: Seq<char>)
    requires
        0 <= k <= xs.len(),
    ensures
        first_equal(xs.subrange(0, k), t) matches Some(i) ==> first_equal(xs, t) == Some(i),
    decreases xs.len() - k,
{
    if k < xs.len() {
        assert(xs.subrange(0, k + 1).drop_last() =~= xs.subrange(0, k));
        lemma_first_equal_prefix(xs, k + 1, t);
    } else {
        assert(xs.subrange(0, k) =~= xs);
    }
}

/// The position of the first of the (already lowercased) names that equals `target`.
pub fn find_lowered(lowered: &Vec<String>, target: &str) -> (r: Option<usize>)
    ensures
        match first_equal(lowered@.map_values(|n: String| n@), target@) {
            Some(i) => r == Some(i as usize),
            None => r is None,
        },
{
    let ghost nv = lowered@.map_values(|n: String| n@);
    let t = chars_of(target);
    let mut i: usize = 0;
    while i < lowered.len()
        invariant
            i <= lowered.len(),
            nv == lowered@.map_values(|n: String| n@),
            t@ == target@,
            first_equal(nv.subrange(0, i as int), target@) is None,
        decreases lowered.len() - i,
    {
        let name = chars_of(lowered[i].as_str());
        assert(nv.subrange(0, i + 1).drop_last() =~= nv.subrange(0, i as int));
        assert(nv[i as int] == lowered@[i as int]@);
        if crate::text::chars_eq(&name, &t) {
            proof {
                lemma_first_equal_prefix(nv, i as int + 1, target@);
            }
            return Some(i);
        }
        i = i + 1;
    }
    assert(nv.subrange(0, i as int) =~= nv);
    None
}

/// The position of the first service whose name equals `s`, ignoring case.
pub fn find(names: &Vec<String>, s: &str) -> (r: Option<usize>)
    ensures
        match spec_find(names@.map_values(|n: String| n@), s@) {
            Some(i) => r == Some(i as usize),
            None => r is None,
        },
{
    let ghost nv = names@.map_values(|n: String| n@);
    let mut lowered: Vec<String> = Vec::new();
    let mut i: usize = 0;
    while i < names.len()
        invariant
            i <= names.len(),
            nv == names@.map_values(|n: String| n@),
            lowered@.map_values(|n: String| n@) == lowercased(nv.subrange(0, i as int)),
        decreases names.len() - i,
    {
        let l = to_lowercase(names[i].as_str());
        let ghost before = lowered@.map_values(|n: String| n@);
        let ghost lv = l@;
        lowered.push(l);
        assert(nv[i as int] == names@[i as int]@);
        assert(lv == lowercase(nv[i as int]));
        assert(lowered@.map_values(|n: String| n@) =~= before.push(lv));
        assert(lowercased(nv.subrange(0, i + 1)) =~= lowercased(nv.subrange(0, i as int)).push(lowercase(nv[i as int])));
        assert(lowered@.map_values(|n: String| n@) =~= lowercased(nv.subrange(0, i + 1)));
        i = i + 1;
    }
    assert(nv.subrange(0, i as int) =~= nv);
    find_lowered(&lowered, to_lowercase(s).as_str())
}

/// Where the supervisor sends data that a service sent up.
#[derive(Debug, PartialEq, Eq)]
pub enum Route {
    /// To the web interface, with this data.
    ToWeb(String),
    /// A `kick` to the named service.
    Kick(String),
    /// To the named service, with this data.
    To(String, String),
    /// Not a known kind of message.
    Strange,
}

/// Model of a route.
pub enum RouteView {
    ToWeb(Seq<char>),
    Kick(Seq<char>),
    To(Seq<char>, Seq<char>),
    Strange,
}

impl View for Route {
    type V = RouteView;

    open spec fn view(&self) -> RouteView {
        match self {
            Route::ToWeb(s) => RouteView::ToWeb(s@),
            Route::Kick(s) => RouteView::Kick(s@),
            Route::To(a, b) => RouteView::To(a@, b@),
            Route::Strange => RouteView::Strange,
        }
    }
}

/// The word at position `i` of a list, or the empty word.
pub open spec fn word_or_empty(ws: Seq<Seq<char>>, i: int) -> Seq<char> {
    if 0 <= i < ws.len() {
        ws[i]
    } else {
        seq![]
    }
}

/// Where data sent up by a service goes, by its first space-separated word: `send rest` goes to
/// the web interface as `rest`, `kick service` kicks the service, and `to service words...`
/// sends the remaining words (joined by spaces) to the service.
pub open spec fn spec_route(d: Seq<char>) -> RouteView {
    let ws = split(d, seq![' ']);
    if ws[0] == "send"@ {
        RouteView::ToWeb(d.subrange(5, d.len() as int))
    } else if ws[0] == "kick"@ {
        RouteView::Kick(word_or_empty(ws, 1))
    } else if ws[0] == "to"@ {
        RouteView::To(
            word_or_empty(ws, 1),
            if ws.len() > 2 { join(ws.subrange(2, ws.len() as int), seq![' ']) } else { seq![] },
        )
    } else {
        RouteView::Strange
    }
}

/// Routes data that a service sent up. Data that is exactly `send` has nothing after the word
/// to send (and is left out).
pub fn route(d: &str) -> (r: Route)
    requires
        d@ != "send"@,
    ensures
        r@ == spec_route(d@),
{
    let dv = chars_of(d);
    let ws = split_chars(&dv, &pattern1(' '));
    let ghost wv = ws@.map_values(|v: Vec<char>| v@);
    proof {
        crate::text::lemma_split_nonempty(dv@, seq![' ']);
    }
    assert(wv[0] == ws@[0]@);
    if chars_eq_str(&ws[0], "send") {
        proof {
            lemma_send_prefix(dv@);
        }
        return Route::ToWeb(string_from_chars(&subvec(&dv, 5, dv.len())));
    }
    if chars_eq_str(&ws[0], "kick") {
        let w = if ws.len() > 1 {
            assert(wv[1] == ws@[1]@);
            string_from_chars(&ws[1])
        } else {
            String::new()
        };
        return Route::Kick(w);
    }
    if chars_eq_str(&ws[0], "to") {
        let w = if ws.len() > 1 {
            assert(wv[1] == ws@[1]@);
            string_from_chars(&ws[1])
        } else {
            String::new()
        };
        let mut rest: Vec<Vec<char>> = Vec::new();
        let mut i: usize = 2;
        while i < ws.len()
            invariant
                2 <= i <= ws.len() || (ws.len() < 2 && i == 2),
                wv == ws@.map_values(|v: Vec<char>| v@),
                i <= ws.len() ==> rest@.map_values(|v: Vec<char>| v@) == wv.subrange(2, i as int),
                ws.len() < 2 ==> rest@.len() == 0,
            decreases ws.len() - i,
        {
            let ghost before = rest@.map_values(|v: Vec<char>| v@);
            rest.push(subvec(&ws[i], 0, ws[i].len()));
            assert(ws@[i as int]@.subrange(0, ws@[i as int]@.len() as int) =~= ws@[i as int]@);
            assert(rest@.map_values(|v: Vec<char>| v@) =~= before.push(wv[i as int]));
            assert(wv.subrange(2, i + 1) =~= wv.subrange(2, i as int).push(wv[i as int]));
            i = i + 1;
        }
        let ghost restv = rest@.map_values(|v: Vec<char>| v@);
        proof {
            if ws.len() <= 2 {
                assert(restv =~= seq![]);
            }
        }
        let joined = join_chars(&rest, &pattern1(' '));
        return Route::To(w, string_from_chars(&joined));
    }
    Route::Strange
}

/// When the first word of data other than `send` itself is `send`, the data has a space after
/// it, so the text to send starts at position 5.
proof fn lemma_send_prefix(d: Seq<char>)
    requires
        split(d, seq![' '])[0] == "send"@,
        d != "send"@,
    ensures
        5 <= d.len(),
{
    reveal_strlit("send");
    crate::text::lemma_find_bounds(d, seq![' '], 0);
    match crate::text::find(d, seq![' ']) {
        Some(i) => {
            assert(split(d, seq![' '])[0] == d.subrange(0, i));
            assert(i == 4);
        },
        None => {
            assert(split(d, seq![' ']) == seq![d]);
        },
    }
}

/// Why the supervisor stops.
#[derive(Copy, Clone, Debug, PartialEq, Eq, Structural)]
pub enum SupervisorError {
    /// A service that does not exist asked for a timeout.
    NonexistentService,
    /// A service ended a timeout that it never asked for.
    UnmatchedTimein,
}

/// The timeouts that services asked for, each with the time at which it was asked for, by the
/// service's name.
pub struct Timers {
    entries: StringHashMap<i64>,
}

impl View for Timers {
    type V = Map<Seq<char>, i64>;

    closed spec fn view(&self) -> Map<Seq<char>, i64> {
        self.entries@
    }
}

/// What a timeout asked for by `who` at `now` does to the timers: a service that the supervisor
/// does not know stops the supervisor; otherwise `who` is timed from `now`.
pub open spec fn spec_timeout(m: Map<Seq<char>, i64>, names: Seq<Seq<char>>, who: Seq<char>, now: i64) -> (Map<Seq<char>, i64>, Result<(), SupervisorError>) {
    if spec_find(names, who) is Some {
        (m.insert(who, now), Ok(()))
    } else {
        (m, Err(SupervisorError::NonexistentService))
    }
}

/// What the end of `who`'s timeout does to the timers: it gives back when the timeout began
/// and forgets it, or stops the supervisor when there was none.
pub open spec fn spec_timein(m: Map<Seq<char>, i64>, who: Seq<char>) -> (Map<Seq<char>, i64>, Result<i64, SupervisorError>) {
    if m.contains_key(who) {
        (m.remove(who), Ok(m[who]))
    } else {
        (m, Err(SupervisorError::UnmatchedTimein))
    }
}

impl Timers {
    /// No timeouts.
    pub fn new() -> (r: Timers)
        ensures
            r@ == Map::<Seq<char>, i64>::empty(),
    {
        Timers { entries: StringHashMap::new() }
    }

    /// Records that `who` asked for a timeout at `now`; a service that none of `names` is (up to
    /// case) is refused.
    pub fn timeout(&mut self, names: &Vec<String>, who: &str, now: i64) -> (r: Result<(), SupervisorError>)
        ensures
            (final(self)@, r) == spec_timeout(old(self)@, names@.map_values(|n: String| n@), who@, now),
    {
        if find(names, who).is_none() {
            return Err(SupervisorError::NonexistentService);
        }
        self.entries.insert(String::from_str(who), now);
        Ok(())
    }

    /// Ends `who`'s timeout: gives back when it began and forgets it; a timeout that was never
    /// asked for is refused.
    pub fn timein(&mut self, who: &str) -> (r: Result<i64, SupervisorError>)
        ensures
            (final(self)@, r) == spec_timein(old(self)@, who@),
    {
        let then = match self.entries.get(who) {
            Some(t) => *t,
            None => {
                return Err(SupervisorError::UnmatchedTimein);
            },
        };
        self.entries.remove(who);
        Ok(then)
    }
}

/// The end of a timeout gives back the time at which the service asked for it, and leaves the
/// other timeouts as they were.
pub proof fn lemma_timein_after_timeout(m: Map<Seq<char>, i64>, names: Seq<Seq<char>>, who: Seq<char>, now: i64)
    requires
        spec_find(names, who) is Some,
    ensures
        spec_timein(spec_timeout(m, names, who, now).0, who) == (m.remove(who), Ok::<i64, SupervisorError>(now)),
{
    assert(m.insert(who, now).remove(who) =~= m.remove(who));
}

/// The first position of a string equal to `t`, if any: no string before it equals `t`.
proof fn lemma_first_equal(xs: Seq<Seq<char>>, t: Seq<char>)
    ensures
        first_equal(xs, t) matches Some(i) ==> 0 <= i < xs.len() && xs[i] == t
            && forall|j: int| 0 <= j < i ==> xs[j] != t,
        first_equal(xs, t) is None ==> forall|j: int| 0 <= j < xs.len() ==> xs[j] != t,
    decreases xs.len(),
{
    if xs.len() > 0 {
        lemma_first_equal(xs.drop_last(), t);
        assert forall|j: int| 0 <= j < xs.len() - 1 implies xs[j] == xs.drop_last()[j] by {}
    }
}

/// Looking a service up by name finds the first service whose name equals the name asked for,
/// ignoring case, and nothing when no name does.
pub proof fn law_find_first_match(names: Seq<Seq<char>>, s: Seq<char>)
    ensures
        spec_find(names, s) matches Some(i) ==> 0 <= i < names.len() && lowercase(names[i]) == lowercase(s)
            && forall|j: int| 0 <= j < i ==> lowercase(names[j]) != lowercase(s),
        spec_find(names, s) is None ==> forall|j: int| 0 <= j < names.len() ==> lowercase(names[j]) != lowercase(s),
{
    let xs = lowercased(names);
    let t = lowercase(s);
    lemma_first_equal(xs, t);
    match first_equal(xs, t) {
        Some(i) => {
            assert(xs[i] == lowercase(names[i]));
            assert forall|j: int| 0 <= j < i implies lowercase(names[j]) != t by {
                assert(xs[j] == lowercase(names[j]));
            }
        },
        None => {
            assert forall|j: int| 0 <= j < names.len() implies lowercase(names[j]) != t by {
                assert(xs[j] == lowercase(names[j]));
            }
        },
    }
}

/// Data routed to the web interface is the data after its leading `send `: the data is exactly
/// `send ` followed by what is sent.
pub proof fn law_send_to_web(d: Seq<char>)
    requires
        d != "send"@,
    ensures
        spec_route(d) matches RouteView::ToWeb(x) ==> d == "send "@ + x,
{
    if spec_route(d) is ToWeb {
        reveal_strlit("send");
        reveal_strlit("send ");
        crate::text::lemma_find_bounds(d, seq![' '], 0);
        lemma_send_prefix(d);
        match crate::text::find(d, seq![' ']) {
            Some(i) => {
                assert(split(d, seq![' '])[0] == d.subrange(0, i));
                assert(i == 4);
                assert(d.subrange(4, 5)[0] == ' ');
                assert(d.subrange(0, 4) == "send"@);
                assert forall|k: int| 0 <= k < 5 implies d[k] == #[trigger] "send "@[k] by {
                    if k < 4 {
                        assert(d[k] == d.subrange(0, 4)[k]);
                    } else {
                        assert(d[k] == d.subrange(4, 5)[0]);
                    }
                }
                assert(d =~= "send "@ + d.subrange(5, d.len() as int));
            },
            None => {
                assert(split(d, seq![' ']) == seq![d]);
            },
        }
    }
}

} // verus!
