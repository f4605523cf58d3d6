//! The API client's verified core: the page-listing model with its ordered
//! title-extraction strategies, the timestamped note text, and the
//! per-operation protocol of admission, response classification and
//! bookkeeping.

use crate::cache::{ResponseCache, CACHE_TTL_MS};
use crate::config::AppConfig;
use crate::error::AppError;
use crate::rate_limit::{
    extract_rate_limit_headers, get_rate_limit_message, spec_parsed_u32_opt, spec_rate_limit_applied,
    spec_rate_limit_message, spec_recommended_delay_ms, spec_reset_seconds_from_now,
    spec_saturating_add, spec_should_allow, spec_success_applied, spec_time_until_reset,
    spec_view_opt, RateLimitManager, RateLimitState, JITTER_MAX_PERMILLE,
};
use crate::strutil::{dec_string, digit_str, spec_dec_seq, spec_digit_char};
use vstd::arithmetic::div_mod::{
    lemma_fundamental_div_mod, lemma_fundamental_div_mod_converse, lemma_mod_bound,
    lemma_small_mod,
};
use vstd::prelude::*;
use vstd::string::StringExecFns;

verus! {

/// A page as shown to the user: identity, title, optional icon glyph, URL.
#[derive(Debug)]
pub struct NotionPage {
    pub id: String,
    pub title: String,
    /// An emoji glyph, when the page has one.
    pub icon: Option<String>,
    pub url: String,
}

/// The mathematical image of a page summary.
pub struct PageView {
    pub id: Seq<char>,
    pub title: Seq<char>,
    pub icon: Option<Seq<char>>,
    pub url: Seq<char>,
}

impl View for NotionPage {
    type V = PageView;

    open spec fn view(&self) -> PageView {
        PageView {
            id: self.id@,
            title: self.title@,
            icon: match self.icon {
                Some(s) => Some(s@),
                None => None,
            },
            url: self.url@,
        }
    }
}

/// The views of a list of page summaries.
pub open spec fn spec_views_of(s: Seq<NotionPage>) -> Seq<PageView> {
    s.map_values(|p: NotionPage| p@)
}

impl Clone for NotionPage {
    /// A clone shows the same page.
    fn clone(&self) -> (r: Self)
        ensures
            r@ == self@,
    {
        NotionPage {
            id: self.id.clone(),
            title: self.title.clone(),
            icon: clone_opt_string(&self.icon),
            url: self.url.clone(),
        }
    }
}

/// A copy of an optional string.
fn clone_opt_string(o: &Option<String>) -> (r: Option<String>)
    ensures
        match r {
            Some(s) => o matches Some(x) && s@ == x@,
            None => o is None,
        },
{
    match o {
        Some(s) => Some(s.clone()),
        None => None,
    }
}

/// A copy of a list of page summaries, view for view.
pub fn clone_pages(v: &Vec<NotionPage>) -> (r: Vec<NotionPage>)
    ensures
        spec_views_of(r@) == spec_views_of(v@),
{
    let mut r: Vec<NotionPage> = Vec::new();
    let mut i: usize = 0;
    while i < v.len()
        invariant
            i <= v.len(),
            r@.len() == i,
            forall|k: int| 0 <= k < i ==> r@[k]@ == v@[k]@,
        decreases v.len() - i,
    {
        r.push(v[i].clone());
        i = i + 1;
    }
    proof {
        assert(spec_views_of(r@) =~= spec_views_of(v@));
    }
    r
}

/// One fragment of rich text: its plain content, when the fragment carries
/// text whose content is a string.
pub struct RichTextFragment {
    pub content: Option<String>,
}

/// One property of a listed page: its title array, when the property has a
/// title-typed field holding an array.
pub struct PageProperty {
    pub title: Option<Vec<RichTextFragment>>,
}

/// One entry of the wire listing, reduced to what the extraction reads:
/// the id and URL (empty when the wire had none), the emoji icon, the
/// property bag in its order (empty when the entry had no property
/// object), and the parent page's title when the wire carried one.
pub struct RawPage {
    pub id: String,
    pub url: String,
    pub icon_emoji: Option<String>,
    pub properties: Vec<PageProperty>,
    pub parent_page_title: Option<String>,
}

/// The first strategy's answer for one property: the plain content of the
/// first fragment of its title array, if there is one.
pub open spec fn spec_fragment_title(frags: Seq<RichTextFragment>) -> Option<Seq<char>> {
    if frags.len() == 0 {
        None
    } else {
        match frags[0].content {
            Some(c) => Some(c@),
            None => None,
        }
    }
}

/// Scan the property bag in order for the first property that yields a
/// title.
pub open spec fn spec_properties_title(props: Seq<PageProperty>) -> Option<Seq<char>>
    decreases props.len(),
{
    if props.len() == 0 {
        None
    } else {
        let head = match props[0].title {
            Some(frags) => spec_fragment_title(frags@),
            None => None,
        };
        match head {
            Some(t) => Some(t),
            None => spec_properties_title(props.drop_first()),
        }
    }
}

/// The ordered extraction strategies for a page's title: the property bag
/// first, then the parent page's inherited title; no title is a valid,
/// droppable outcome.
pub open spec fn spec_page_title(p: RawPage) -> Option<Seq<char>> {
    match spec_properties_title(p.properties@) {
        Some(t) => Some(t),
        None => match p.parent_page_title {
            Some(t) => Some(t@),
            None => None,
        },
    }
}

/// The summary a listing entry turns into, once a title is found for it.
pub open spec fn spec_view_of_raw(p: RawPage, title: Seq<char>) -> PageView {
    PageView {
        id: p.id@,
        title,
        icon: match p.icon_emoji {
            Some(s) => Some(s@),
            None => None,
        },
        url: p.url@,
    }
}

/// The listing a sequence of wire entries turns into: each entry with a
/// title becomes a summary, in order; entries without a title are dropped.
pub open spec fn spec_extract(pages: Seq<RawPage>) -> Seq<PageView>
    decreases pages.len(),
{
    if pages.len() == 0 {
        Seq::empty()
    } else {
        let rest = spec_extract(pages.drop_first());
        match spec_page_title(pages[0]) {
            Some(t) => seq![spec_view_of_raw(pages[0], t)] + rest,
            None => rest,
        }
    }
}

/// Extraction distributes over appending one entry at the end.
proof fn lemma_extract_push(s: Seq<RawPage>, x: RawPage)
    ensures
        spec_extract(s.push(x)) == spec_extract(s) + spec_extract(seq![x]),
    decreases s.len(),
{
    if s.len() == 0 {
        assert(s.push(x)[0] == x);
        assert(s.push(x).drop_first() =~= Seq::<RawPage>::empty());
        assert(seq![x][0] == x);
        assert(seq![x].drop_first() =~= Seq::<RawPage>::empty());
        assert(spec_extract(s.push(x)) =~= spec_extract(s) + spec_extract(seq![x]));
    } else {
        assert(s.push(x)[0] == s[0]);
        assert(s.push(x).drop_first() =~= s.drop_first().push(x));
        lemma_extract_push(s.drop_first(), x);
        assert(spec_extract(s.push(x)) =~= spec_extract(s) + spec_extract(seq![x]));
    }
}

/// The title of one wire entry, by the ordered strategies.
pub fn extract_title(p: &RawPage) -> (r: Option<String>)
    ensures
        match r {
            Some(t) => spec_page_title(*p) == Some(t@),
            None => spec_page_title(*p) is None,
        },
{
    let n = p.properties.len();
    proof {
        assert(p.properties@.skip(0) =~= p.properties@);
    }
    let mut i: usize = 0;
    while i < n
        invariant
            i <= n == p.properties@.len(),
            spec_properties_title(p.properties@) == spec_properties_title(
                p.properties@.skip(i as int),
            ),
        decreases n - i,
    {
        let prop = &p.properties[i];
        match &prop.title {
            Some(frags) => {
                if frags.len() > 0 {
                    match &frags[0].content {
                        Some(c) => {
                            proof {
                                assert(p.properties@.skip(i as int)[0] == p.properties@[i as int]);
                            }
                            return Some(c.clone());
                        },
                        None => {},
                    }
                }
            },
            None => {},
        }
        proof {
            assert(p.properties@.skip(i as int).drop_first() =~= p.properties@.skip(i + 1));
            assert(p.properties@.skip(i as int)[0] == p.properties@[i as int]);
        }
        i = i + 1;
    }
    proof {
        assert(p.properties@.skip(n as int) =~= Seq::<PageProperty>::empty());
    }
    match &p.parent_page_title {
        Some(t) => Some(t.clone()),
        None => None,
    }
}

/// Turn the wire entries into the listing: one summary per entry with a
/// title, in order; entries without a title are dropped, never failed.
pub fn extract_pages(pages: &Vec<RawPage>) -> (r: Vec<NotionPage>)
    ensures
        spec_views_of(r@) == spec_extract(pages@),
{
    let mut out: Vec<NotionPage> = Vec::new();
    let mut i: usize = 0;
    proof {
        assert(pages@.subrange(0, 0) =~= Seq::<RawPage>::empty());
    }
    while i < pages.len()
        invariant
            i <= pages@.len(),
            spec_views_of(out@) == spec_extract(pages@.subrange(0, i as int)),
        decreases pages@.len() - i,
    {
        let p = &pages[i];
        proof {
            assert(pages@.subrange(0, i + 1) =~= pages@.subrange(0, i as int).push(
                pages@[i as int],
            ));
            lemma_extract_push(pages@.subrange(0, i as int), pages@[i as int]);
            assert(seq![pages@[i as int]][0] == pages@[i as int]);
            assert(seq![pages@[i as int]].drop_first() =~= Seq::<RawPage>::empty());
        }
        let ghost x = pages@[i as int];
        match extract_title(p) {
            Some(title) => {
                let np = NotionPage {
                    id: p.id.clone(),
                    title,
                    icon: clone_opt_string(&p.icon_emoji),
                    url: p.url.clone(),
                };
                let ghost out0 = out@;
                proof {
                    reveal_with_fuel(spec_extract, 2);
                    assert(np@ == spec_view_of_raw(x, np.title@));
                    assert(spec_extract(seq![x]) =~= seq![spec_view_of_raw(x, np.title@)]);
                }
                out.push(np);
                proof {
                    assert(spec_views_of(out@) =~= spec_views_of(out0) + seq![np@]);
                    assert(spec_views_of(out@) =~= spec_extract(pages@.subrange(0, i + 1)));
                }
            },
            None => {
                proof {
                    reveal_with_fuel(spec_extract, 2);
                    assert(spec_extract(seq![x]) =~= Seq::<PageView>::empty());
                    assert(spec_extract(pages@.subrange(0, i as int)) + Seq::<
                        PageView,
                    >::empty() =~= spec_extract(pages@.subrange(0, i as int)));
                    assert(spec_views_of(out@) =~= spec_extract(pages@.subrange(0, i + 1)));
                }
            },
        }
        i = i + 1;
    }
    proof {
        assert(pages@.subrange(0, pages@.len() as int) =~= pages@);
    }
    out
}


/// What the wall clock read when the note was captured.
#[derive(Clone, Copy, Debug, PartialEq, Eq, Structural)]
pub struct ClockParts {
    /// Calendar year; may exceed two digits, only the last two are shown.
    pub year: i32,
    /// Month, 1 through 12.
    pub month: u32,
    /// Day of month, 1 through 31.
    pub day: u32,
    /// Hour, 0 through 23.
    pub hour: u32,
    /// Minute, 0 through 59.
    pub minute: u32,
    /// Second, 0 through 59.
    pub second: u32,
}

impl ClockParts {
    /// The ranges a real wall-clock reading satisfies.
    pub open spec fn wf(self) -> bool {
        &&& 1 <= self.month <= 12
        &&& 1 <= self.day <= 31
        &&& self.hour <= 23
        &&& self.minute <= 59
        &&& self.second <= 59
    }
}

/// The three-letter month name.
pub open spec fn spec_month_abbrev(m: u32) -> Seq<char> {
    if m == 1 {
        "Jan"@
    } else if m == 2 {
        "Feb"@
    } else if m == 3 {
        "Mar"@
    } else if m == 4 {
        "Apr"@
    } else if m == 5 {
        "May"@
    } else if m == 6 {
        "Jun"@
    } else if m == 7 {
        "Jul"@
    } else if m == 8 {
        "Aug"@
    } else if m == 9 {
        "Sep"@
    } else if m == 10 {
        "Oct"@
    } else if m == 11 {
        "Nov"@
    } else if m == 12 {
        "Dec"@
    } else {
        "Unknown"@
    }
}

/// A value below one hundred, zero-padded to two digits.
pub open spec fn spec_two_digits(n: int) -> Seq<char> {
    seq![spec_digit_char(n / 10), spec_digit_char(n % 10)]
}

/// The year reduced to its last two digits, never negative.
pub open spec fn spec_year_two(year: i32) -> int {
    (year as int) % 100
}

/// The timestamp that opens every appended note:
/// `[DD Mon YY, HH:MM:SS]` from the given wall-clock reading.
pub open spec fn spec_timestamp(c: ClockParts) -> Seq<char> {
    "["@ + spec_two_digits(c.day as int) + " "@ + spec_month_abbrev(c.month) + " "@
        + spec_two_digits(spec_year_two(c.year)) + ", "@ + spec_two_digits(c.hour as int) + ":"@
        + spec_two_digits(c.minute as int) + ":"@ + spec_two_digits(c.second as int) + "]"@
}

/// The paragraph written to the page: the timestamp, one space, the note.
pub open spec fn spec_note_line(c: ClockParts, note: Seq<char>) -> Seq<char> {
    spec_timestamp(c) + " "@ + note
}

/// The three-letter month name, or a marker for an impossible month.
fn month_abbrev(m: u32) -> (r: &'static str)
    ensures
        r@ == spec_month_abbrev(m),
{
    if m == 1 {
        "Jan"
    } else if m == 2 {
        "Feb"
    } else if m == 3 {
        "Mar"
    } else if m == 4 {
        "Apr"
    } else if m == 5 {
        "May"
    } else if m == 6 {
        "Jun"
    } else if m == 7 {
        "Jul"
    } else if m == 8 {
        "Aug"
    } else if m == 9 {
        "Sep"
    } else if m == 10 {
        "Oct"
    } else if m == 11 {
        "Nov"
    } else if m == 12 {
        "Dec"
    } else {
        "Unknown"
    }
}

/// Append a value below one hundred as two digits.
fn append_two_digits(s: &mut String, n: u32)
    requires
        n <= 99,
    ensures
        final(s)@ == old(s)@ + spec_two_digits(n as int),
{
    s.append(digit_str((n / 10) as u64));
    s.append(digit_str((n % 10) as u64));
    proof {
        assert(final(s)@ =~= old(s)@ + spec_two_digits(n as int));
    }
}

/// The year's last two digits, as the non-negative remainder.
fn year_mod_100(year: i32) -> (r: u32)
    ensures
        r == spec_year_two(year),
        r <= 99,
{
    proof {
        lemma_mod_bound(year as int, 100);
    }
    if year >= 0 {
        (year as u32) % 100
    } else {
        let mag: u64 = (-(year as i64)) as u64;
        let m: u64 = mag % 100;
        let r: u64 = (100 - m) % 100;
        proof {
            let a = year as int;
            let q = mag as int / 100;
            let rr = mag as int % 100;
            lemma_fundamental_div_mod(mag as int, 100);
            lemma_mod_bound(mag as int, 100);
            if rr == 0 {
                lemma_fundamental_div_mod_converse(a, 100, -q, 0);
                lemma_small_mod(0, 100);
            } else {
                assert(a == (-q - 1) * 100 + (100 - rr)) by (nonlinear_arith)
                    requires
                        a == -(mag as int),
                        mag as int == 100 * q + rr,
                ;
                lemma_fundamental_div_mod_converse(a, 100, -q - 1, 100 - rr);
                lemma_small_mod((100 - rr) as nat, 100);
            }
        }
        r as u32
    }
}

/// Render the timestamp that opens every appended note.
pub fn format_timestamp(clock: &ClockParts) -> (r: String)
    requires
        clock.wf(),
    ensures
        r@ == spec_timestamp(*clock),
{
    let mut s = "[".to_owned();
    append_two_digits(&mut s, clock.day);
    s.append(" ");
    s.append(month_abbrev(clock.month));
    s.append(" ");
    append_two_digits(&mut s, year_mod_100(clock.year));
    s.append(", ");
    append_two_digits(&mut s, clock.hour);
    s.append(":");
    append_two_digits(&mut s, clock.minute);
    s.append(":");
    append_two_digits(&mut s, clock.second);
    s.append("]");
    proof {
        assert(s@ =~= spec_timestamp(*clock));
    }
    s
}

/// The full paragraph text for a note captured at the given clock reading.
pub fn build_note_text(clock: &ClockParts, note_text: &str) -> (r: String)
    requires
        clock.wf(),
    ensures
        r@ == spec_note_line(*clock, note_text@),
{
    let mut s = format_timestamp(clock);
    s.append(" ");
    s.append(note_text);
    proof {
        assert(s@ =~= spec_note_line(*clock, note_text@));
    }
    s
}


/// `e` is the rate-limited failure a caller receives for a credential in
/// state `s`: the user-facing message, the recommended wait in whole
/// seconds (when positive), and the last-known budget.
pub open spec fn spec_rate_limited_error(
    e: AppError,
    s: RateLimitState,
    now_ms: u64,
    jitter_permille: u64,
) -> bool {
    &&& e matches AppError::RateLimitError { message, retry_after, limit, remaining }
    &&& (e matches AppError::RateLimitError { message, .. } && message@
        == spec_rate_limit_message(s, now_ms, jitter_permille))
    &&& (e matches AppError::RateLimitError { retry_after, .. } && retry_after == (
    if spec_recommended_delay_ms(s, now_ms, jitter_permille) > 0 {
        Some((spec_recommended_delay_ms(s, now_ms, jitter_permille) / 1000) as u64)
    } else {
        None::<u64>
    }))
    &&& (e matches AppError::RateLimitError { limit, .. } && limit == s.limit)
    &&& (e matches AppError::RateLimitError { remaining, .. } && remaining == s.remaining)
}

/// Fieldwise-equal observations drive every query to the same answer.
pub proof fn lemma_same_observation_specs(
    a: RateLimitState,
    b: RateLimitState,
    now_ms: u64,
    jitter_permille: u64,
)
    requires
        crate::rate_limit::spec_same_observation(a, b),
    ensures
        spec_should_allow(a, now_ms, jitter_permille) == spec_should_allow(
            b,
            now_ms,
            jitter_permille,
        ),
        spec_recommended_delay_ms(a, now_ms, jitter_permille) == spec_recommended_delay_ms(
            b,
            now_ms,
            jitter_permille,
        ),
        spec_time_until_reset(a, now_ms) == spec_time_until_reset(b, now_ms),
        spec_rate_limit_message(a, now_ms, jitter_permille) == spec_rate_limit_message(
            b,
            now_ms,
            jitter_permille,
        ),
{
}

/// The rate-limited failure for a credential in state `state`.
fn rate_limited_error(state: &RateLimitState, now_ms: u64, jitter_permille: u64) -> (e: AppError)
    requires
        jitter_permille <= JITTER_MAX_PERMILLE,
    ensures
        spec_rate_limited_error(e, *state, now_ms, jitter_permille),
{
    let delay_ms = state.get_recommended_delay(now_ms, jitter_permille);
    let retry_after = if delay_ms > 0 {
        Some(delay_ms / 1000)
    } else {
        None
    };
    AppError::RateLimitError {
        message: get_rate_limit_message(state, now_ms, jitter_permille),
        retry_after,
        limit: state.limit,
        remaining: state.remaining,
    }
}

/// Admission control, run before every operation: pass when the credential
/// may attempt a request at `now_ms`, else the rate-limited failure, with
/// no request sent and no state changed.
pub fn check_admission(
    manager: &RateLimitManager,
    token: &str,
    now_ms: u64,
    jitter_permille: u64,
) -> (r: Option<AppError>)
    requires
        manager.wf(),
        jitter_permille <= JITTER_MAX_PERMILLE,
    ensures
        spec_admission(r, *manager, token@, now_ms, jitter_permille),
{
    if manager.should_allow_request(token, now_ms, jitter_permille) {
        None
    } else {
        match manager.get_state(token) {
            Some(state) => {
                proof {
                    lemma_same_observation_specs(
                        state,
                        manager.spec_get(token@),
                        now_ms,
                        jitter_permille,
                    );
                }
                Some(rate_limited_error(&state, now_ms, jitter_permille))
            },
            None => {
                proof {
                    assert(false);
                }
                None
            },
        }
    }
}

/// What admission control answers: pass exactly when the credential is
/// unknown or its state admits a request; otherwise the rate-limited
/// failure for that state.
pub open spec fn spec_admission(
    r: Option<AppError>,
    m: RateLimitManager,
    token: Seq<char>,
    now_ms: u64,
    jitter_permille: u64,
) -> bool {
    match r {
        None => !m.spec_contains(token) || spec_should_allow(
            m.spec_get(token),
            now_ms,
            jitter_permille,
        ),
        Some(e) => m.spec_contains(token) && !spec_should_allow(
            m.spec_get(token),
            now_ms,
            jitter_permille,
        ) && spec_rate_limited_error(e, m.spec_get(token), now_ms, jitter_permille),
    }
}

/// The rate-limit headers of one received response, as raw text.
pub struct ResponseHeaders<'a> {
    /// The total-budget header, when present and readable.
    pub limit: Option<&'a str>,
    /// The remaining-budget header.
    pub remaining: Option<&'a str>,
    /// The reset header, an absolute epoch second.
    pub reset: Option<&'a str>,
}

/// The registry after one response under `token` was fed to it: a
/// rate-limit status records a rate-limit observation with the parsed
/// headers; any other status records a success (only a rate-limit status
/// signals exhaustion). No other credential's state changes.
pub open spec fn spec_bookkeeping(
    pre: RateLimitManager,
    post: RateLimitManager,
    token: Seq<char>,
    status: u16,
    headers: ResponseHeaders,
    now_ms: u64,
) -> bool {
    &&& post.wf()
    &&& post.spec_contains(token)
    &&& forall|t: Seq<char>| t != token ==> (post.spec_contains(t) <==> pre.spec_contains(t))
    &&& forall|t: Seq<char>|
        t != token && pre.spec_contains(t) ==> post.spec_get(t) == pre.spec_get(t)
    &&& if status == 429 {
        let reset = spec_reset_seconds_from_now(spec_view_opt(headers.reset), now_ms / 1000);
        let remaining = spec_parsed_u32_opt(spec_view_opt(headers.remaining));
        let limit = spec_parsed_u32_opt(spec_view_opt(headers.limit));
        &&& pre.spec_contains(token) ==> spec_rate_limit_applied(
            pre.spec_get(token),
            post.spec_get(token),
            now_ms,
            reset,
            remaining,
            limit,
        )
        &&& !pre.spec_contains(token) ==> ({
            let s = post.spec_get(token);
            &&& spec_rate_limit_applied(
                (RateLimitState {
                    remaining: None,
                    reset_at: None,
                    limit: None,
                    last_updated: now_ms,
                    recent_requests: s.recent_requests,
                    consecutive_rate_limits: 0,
                    is_rate_limited: false,
                }),
                s,
                now_ms,
                reset,
                remaining,
                limit,
            )
            &&& s.recent_requests@ == Seq::<u64>::empty()
        })
    } else {
        &&& pre.spec_contains(token) ==> spec_success_applied(
            pre.spec_get(token),
            post.spec_get(token),
            now_ms,
        )
        &&& !pre.spec_contains(token) ==> ({
            let s = post.spec_get(token);
            &&& s.consecutive_rate_limits == 0
            &&& !s.is_rate_limited
            &&& s.recent_requests@ == seq![now_ms]
            &&& s.remaining is None
            &&& s.reset_at is None
            &&& s.limit is None
            &&& s.last_updated == now_ms
        })
    }
}

/// Feed one received response's status and rate-limit headers to the
/// registry; a rate-limit status comes back as the failure to return.
fn note_response(
    manager: &mut RateLimitManager,
    token: &str,
    status: u16,
    headers: ResponseHeaders,
    now_ms: u64,
    jitter_permille: u64,
) -> (r: Option<AppError>)
    requires
        old(manager).wf(),
        jitter_permille <= JITTER_MAX_PERMILLE,
    ensures
        spec_bookkeeping(*old(manager), *final(manager), token@, status, headers, now_ms),
        status == 429 ==> (r matches Some(e) && spec_rate_limited_error(
            e,
            final(manager).spec_get(token@),
            now_ms,
            jitter_permille,
        )),
        status != 429 ==> r is None,
{
    if status == 429 {
        let (reset, remaining, limit) = extract_rate_limit_headers(
            headers.limit,
            headers.remaining,
            headers.reset,
            now_ms / 1000,
        );
        manager.record_rate_limit(token, now_ms, reset, remaining, limit);
        match manager.get_state(token) {
            Some(state) => {
                proof {
                    lemma_same_observation_specs(
                        state,
                        manager.spec_get(token@),
                        now_ms,
                        jitter_permille,
                    );
                }
                Some(rate_limited_error(&state, now_ms, jitter_permille))
            },
            None => {
                proof {
                    assert(false);
                }
                None
            },
        }
    } else {
        manager.record_success(token, now_ms);
        None
    }
}

/// `e` is the failure for a response with an unexpected status and no
/// readable detail in its body.
pub open spec fn spec_status_api_error(e: AppError, status: u16) -> bool {
    &&& e matches AppError::NotionApiError { message, status_code, error_code }
    &&& (e matches AppError::NotionApiError { message, .. } && message@ == "API error: "@
        + spec_dec_seq(status as int))
    &&& (e matches AppError::NotionApiError { status_code, .. } && status_code == Some(status))
    &&& (e matches AppError::NotionApiError { error_code, .. } && error_code is None)
}

/// The failure for a response with an unexpected status and no readable
/// detail in its body.
fn status_api_error(status: u16) -> (e: AppError)
    ensures
        spec_status_api_error(e, status),
{
    let mut message = "API error: ".to_owned();
    message.append(dec_string(status as u64).as_str());
    AppError::NotionApiError { message, status_code: Some(status), error_code: None }
}

/// What classifying a credential-check response returns: confirmation on
/// success; the rate-limited failure for the credential's new state on a
/// rate-limit status; the plain API failure on anything else.
pub open spec fn spec_verify_outcome(
    r: Result<bool, AppError>,
    post: RateLimitManager,
    token: Seq<char>,
    status: u16,
    now_ms: u64,
    jitter_permille: u64,
) -> bool {
    if status == 429 {
        r matches Err(e) && spec_rate_limited_error(
            e,
            post.spec_get(token),
            now_ms,
            jitter_permille,
        )
    } else if 200 <= status < 300 {
        r matches Ok(v) && v
    } else {
        r matches Err(e) && spec_status_api_error(e, status)
    }
}

/// Classify the response to a credential check: success confirms the
/// credential; a rate-limit status fails with the rate-limited error after
/// recording it; any other status fails with the API error after recording
/// a success (the credential answered, so the backoff clears).
pub fn handle_verify_response(
    manager: &mut RateLimitManager,
    token: &str,
    status: u16,
    headers: ResponseHeaders,
    now_ms: u64,
    jitter_permille: u64,
) -> (r: Result<bool, AppError>)
    requires
        old(manager).wf(),
        jitter_permille <= JITTER_MAX_PERMILLE,
    ensures
        spec_bookkeeping(*old(manager), *final(manager), token@, status, headers, now_ms),
        spec_verify_outcome(r, *final(manager), token@, status, now_ms, jitter_permille),
{
    match note_response(manager, token, status, headers, now_ms, jitter_permille) {
        Some(e) => Err(e),
        None => {
            if 200 <= status && status < 300 {
                Ok(true)
            } else {
                Err(status_api_error(status))
            }
        },
    }
}


/// What the listing operation decides before any network use: a valid
/// cached listing is served as is; otherwise a denied admission fails; only
/// otherwise is a fetch due.
pub open spec fn spec_search_plan(
    r: SearchPlan,
    cache: ResponseCache<Vec<NotionPage>>,
    m: RateLimitManager,
    token: Seq<char>,
    now_ms: u64,
    jitter_permille: u64,
) -> bool {
    if cache.spec_valid_at(now_ms) {
        r matches SearchPlan::Cached(v) && spec_views_of(v@) == spec_views_of(
            cache.spec_value()@,
        )
    } else if m.spec_contains(token) && !spec_should_allow(
        m.spec_get(token),
        now_ms,
        jitter_permille,
    ) {
        r matches SearchPlan::Denied(e) && spec_rate_limited_error(
            e,
            m.spec_get(token),
            now_ms,
            jitter_permille,
        )
    } else {
        r is Fetch
    }
}

/// How a listing call starts.
#[derive(Debug)]
pub enum SearchPlan {
    /// The cache held a valid listing; no network call, no bookkeeping.
    Cached(Vec<NotionPage>),
    /// Admission was denied; no network call.
    Denied(AppError),
    /// The listing must be fetched.
    Fetch,
}

/// Decide how a listing call starts: the cache first (a hit costs nothing
/// and touches no rate-limit state), then admission.
pub fn search_preflight(
    cache: &ResponseCache<Vec<NotionPage>>,
    manager: &RateLimitManager,
    token: &str,
    now_ms: u64,
    jitter_permille: u64,
) -> (r: SearchPlan)
    requires
        manager.wf(),
        jitter_permille <= JITTER_MAX_PERMILLE,
    ensures
        spec_search_plan(r, *cache, *manager, token@, now_ms, jitter_permille),
{
    match cache.get(now_ms) {
        Some(v) => SearchPlan::Cached(clone_pages(v)),
        None => match check_admission(manager, token, now_ms, jitter_permille) {
            Some(e) => SearchPlan::Denied(e),
            None => SearchPlan::Fetch,
        },
    }
}

/// `e` is the failure for a success response whose body could not be read
/// as a listing.
pub open spec fn spec_invalid_format_error(e: AppError, status: u16) -> bool {
    &&& e matches AppError::NotionApiError { message, status_code, error_code }
    &&& (e matches AppError::NotionApiError { message, .. } && message@
        == "Invalid response format"@)
    &&& (e matches AppError::NotionApiError { status_code, .. } && status_code == Some(status))
    &&& (e matches AppError::NotionApiError { error_code, .. } && error_code is None)
}

fn invalid_format_error(status: u16) -> (e: AppError)
    ensures
        spec_invalid_format_error(e, status),
{
    AppError::NotionApiError {
        message: "Invalid response format".to_owned(),
        status_code: Some(status),
        error_code: None,
    }
}

/// What classifying a listing response returns and leaves in the cache: on
/// success the extracted listing, also stored in the cache with a fresh
/// time-to-live; on a rate-limit status the rate-limited failure; on any
/// other status, or a malformed success body, the API failure; the cache
/// changes only on success.
pub open spec fn spec_search_outcome(
    r: Result<Vec<NotionPage>, AppError>,
    post: RateLimitManager,
    post_cache: ResponseCache<Vec<NotionPage>>,
    pre_cache: ResponseCache<Vec<NotionPage>>,
    token: Seq<char>,
    status: u16,
    body: Option<Vec<RawPage>>,
    now_ms: u64,
    jitter_permille: u64,
) -> bool {
    if status == 429 {
        &&& (r matches Err(e) && spec_rate_limited_error(
            e,
            post.spec_get(token),
            now_ms,
            jitter_permille,
        ))
        &&& post_cache.spec_entry() == pre_cache.spec_entry()
    } else if !(200 <= status < 300) {
        &&& (r matches Err(e) && spec_status_api_error(e, status))
        &&& post_cache.spec_entry() == pre_cache.spec_entry()
    } else {
        match body {
            Some(raw) => {
                &&& (r matches Ok(pages) && spec_views_of(pages@) == spec_extract(raw@))
                &&& (post_cache.spec_entry() matches Some(en) && spec_views_of(en.value@)
                    == spec_extract(raw@) && en.expires_at == spec_saturating_add(
                    now_ms,
                    CACHE_TTL_MS,
                ))
            },
            None => {
                &&& (r matches Err(e) && spec_invalid_format_error(e, status))
                &&& post_cache.spec_entry() == pre_cache.spec_entry()
            },
        }
    }
}

/// Classify the response to a listing fetch, feed the registry, and on
/// success extract the listing and store it in the cache.
pub fn handle_search_response(
    manager: &mut RateLimitManager,
    cache: &mut ResponseCache<Vec<NotionPage>>,
    token: &str,
    status: u16,
    headers: ResponseHeaders,
    body: Option<Vec<RawPage>>,
    now_ms: u64,
    jitter_permille: u64,
) -> (r: Result<Vec<NotionPage>, AppError>)
    requires
        old(manager).wf(),
        jitter_permille <= JITTER_MAX_PERMILLE,
    ensures
        spec_bookkeeping(*old(manager), *final(manager), token@, status, headers, now_ms),
        spec_search_outcome(
            r,
            *final(manager),
            *final(cache),
            *old(cache),
            token@,
            status,
            body,
            now_ms,
            jitter_permille,
        ),
{
    match note_response(manager, token, status, headers, now_ms, jitter_permille) {
        Some(e) => Err(e),
        None => {
            if 200 <= status && status < 300 {
                match body {
                    Some(raw) => {
                        let pages = extract_pages(&raw);
                        let stored = clone_pages(&pages);
                        cache.put(stored, now_ms);
                        Ok(pages)
                    },
                    None => Err(invalid_format_error(status)),
                }
            } else {
                Err(status_api_error(status))
            }
        },
    }
}

/// `e` rejects an input before any network or rate-limit interaction.
pub open spec fn spec_validation_error(e: AppError, msg: Seq<char>) -> bool {
    e matches AppError::ValidationError(m) && m@ == msg
}

/// Reject an empty note text or an empty page id, before any network or
/// rate-limit interaction; accept everything else.
pub fn validate_note_request(page_id: &str, note_text: &str) -> (r: Option<AppError>)
    ensures
        note_text@.len() == 0 ==> (r matches Some(e) && spec_validation_error(
            e,
            "Note text is empty"@,
        )),
        note_text@.len() > 0 && page_id@.len() == 0 ==> (r matches Some(e)
            && spec_validation_error(e, "Page id is empty"@)),
        note_text@.len() > 0 && page_id@.len() > 0 ==> r is None,
{
    if note_text.is_empty() {
        Some(AppError::ValidationError("Note text is empty".to_owned()))
    } else if page_id.is_empty() {
        Some(AppError::ValidationError("Page id is empty".to_owned()))
    } else {
        None
    }
}

/// What the append operation decides before any network use: an empty note
/// or page id is rejected outright; then a denied admission fails; only
/// otherwise is the timestamped paragraph built and sent.
pub open spec fn spec_append_plan(
    r: AppendPlan,
    m: RateLimitManager,
    token: Seq<char>,
    page_id: Seq<char>,
    note: Seq<char>,
    clock: ClockParts,
    now_ms: u64,
    jitter_permille: u64,
) -> bool {
    if note.len() == 0 {
        r matches AppendPlan::Invalid(e) && spec_validation_error(e, "Note text is empty"@)
    } else if page_id.len() == 0 {
        r matches AppendPlan::Invalid(e) && spec_validation_error(e, "Page id is empty"@)
    } else if m.spec_contains(token) && !spec_should_allow(
        m.spec_get(token),
        now_ms,
        jitter_permille,
    ) {
        r matches AppendPlan::Denied(e) && spec_rate_limited_error(
            e,
            m.spec_get(token),
            now_ms,
            jitter_permille,
        )
    } else {
        r matches AppendPlan::Send(s) && s@ == spec_note_line(clock, note)
    }
}

/// How an append call starts.
#[derive(Debug)]
pub enum AppendPlan {
    /// The input was rejected; nothing was sent, nothing recorded.
    Invalid(AppError),
    /// Admission was denied; no network call.
    Denied(AppError),
    /// The paragraph text to send.
    Send(String),
}

/// Decide how an append call starts: validation first, then admission,
/// then the timestamped paragraph from the given wall-clock reading.
pub fn append_preflight(
    manager: &RateLimitManager,
    token: &str,
    page_id: &str,
    note_text: &str,
    clock: &ClockParts,
    now_ms: u64,
    jitter_permille: u64,
) -> (r: AppendPlan)
    requires
        manager.wf(),
        clock.wf(),
        jitter_permille <= JITTER_MAX_PERMILLE,
    ensures
        spec_append_plan(
            r,
            *manager,
            token@,
            page_id@,
            note_text@,
            *clock,
            now_ms,
            jitter_permille,
        ),
{
    match validate_note_request(page_id, note_text) {
        Some(e) => AppendPlan::Invalid(e),
        None => match check_admission(manager, token, now_ms, jitter_permille) {
            Some(e) => AppendPlan::Denied(e),
            None => AppendPlan::Send(build_note_text(clock, note_text)),
        },
    }
}

/// What classifying an append response returns: nothing on success; the
/// rate-limited failure on a rate-limit status; else the API failure with
/// whatever code and message the body carried.
pub open spec fn spec_append_outcome(
    r: Result<(), AppError>,
    post: RateLimitManager,
    token: Seq<char>,
    status: u16,
    body_message: Option<String>,
    body_code: Option<String>,
    now_ms: u64,
    jitter_permille: u64,
) -> bool {
    if status == 429 {
        r matches Err(e) && spec_rate_limited_error(
            e,
            post.spec_get(token),
            now_ms,
            jitter_permille,
        )
    } else if 200 <= status < 300 {
        r is Ok
    } else {
        &&& r matches Err(e)
        &&& (r matches Err(AppError::NotionApiError { message, status_code, error_code })
            && message@ == (match body_message {
            Some(m) => m@,
            None => "Unknown error"@,
        }) && status_code == Some(status) && error_code == body_code)
    }
}

/// Classify the response to an append, feeding the registry: success means
/// the block was written; an error carries the body's machine code and
/// message when the body had them.
pub fn handle_append_response(
    manager: &mut RateLimitManager,
    token: &str,
    status: u16,
    headers: ResponseHeaders,
    body_message: Option<String>,
    body_code: Option<String>,
    now_ms: u64,
    jitter_permille: u64,
) -> (r: Result<(), AppError>)
    requires
        old(manager).wf(),
        jitter_permille <= JITTER_MAX_PERMILLE,
    ensures
        spec_bookkeeping(*old(manager), *final(manager), token@, status, headers, now_ms),
        spec_append_outcome(
            r,
            *final(manager),
            token@,
            status,
            body_message,
            body_code,
            now_ms,
            jitter_permille,
        ),
{
    match note_response(manager, token, status, headers, now_ms, jitter_permille) {
        Some(e) => Err(e),
        None => {
            if 200 <= status && status < 300 {
                Ok(())
            } else {
                let message = match body_message {
                    Some(m) => m,
                    None => "Unknown error".to_owned(),
                };
                Err(
                    AppError::NotionApiError {
                        message,
                        status_code: Some(status),
                        error_code: body_code,
                    },
                )
            }
        },
    }
}

/// Store a new credential and clear the cache in the same step, so that no
/// listing fetched under the old credential can be served after rotation.
pub fn apply_credential_change(
    config: &mut AppConfig,
    cache: &mut ResponseCache<Vec<NotionPage>>,
    api_token: String,
)
    ensures
        final(config).notion_api_token == api_token,
        final(config).selected_page_id == old(config).selected_page_id,
        final(config).selected_page_title == old(config).selected_page_title,
        final(cache).spec_entry() is None,
{
    cache.invalidate();
    config.notion_api_token = api_token;
}

} // verus!
