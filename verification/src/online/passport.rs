//! Requests of the account menu, answered by the server of one's own.

use vstd::prelude::*;
use crate::lists::copied;
use crate::text::{
    chars_of, contains_text, cut_end, cut_start, decimal, find_first, first_place, law_places,
    lemma_not_white, lemma_nothing_to_cut, occurs, push_decimal, push_text, text_of, trim, trimmed,
    Cut,
};

verus! {

/// The request for a login without asking.
pub const REQUEST_AUTO_LOGIN: u32 = 1012;

/// What to do with a request that the game is about to send.
#[derive(Debug)]
pub enum PassportPlan {
    /// It goes out as it is.
    Leave,
    /// It is answered with this text at once.
    Answer { reply: String },
    /// It is sent, with this text, to the server of one's own.
    Proxy { body: String },
}

/// What to do with a request, as a mathematical value.
pub enum PlanV {
    Leave,
    Answer { reply: Seq<char> },
    Proxy { body: Seq<char> },
}

impl View for PassportPlan {
    type V = PlanV;

    open spec fn view(&self) -> PlanV {
        match *self {
            PassportPlan::Leave => PlanV::Leave,
            PassportPlan::Answer { reply } => PlanV::Answer { reply: reply@ },
            PassportPlan::Proxy { body } => PlanV::Proxy { body: body@ },
        }
    }
}

/// The text of a request.
pub open spec fn request_body(request: u32, mimi: u32) -> Seq<char> {
    "service="@ + decimal(request as nat) + "&user_id="@ + decimal(mimi as nat) + "&userid="@
        + decimal(mimi as nat) + "&extra_data="@ + decimal(request as nat)
}

/// The reply that makes the game show its account menu.
pub open spec fn menu_reply(request: u32, mimi: u32) -> Seq<char> {
    "{\"status_code\":1011,\"result\":0,\"user_id\":"@ + decimal(mimi as nat) + ",\"extra_data\":"@
        + decimal(request as nat) + "}"@
}

/// What to do with a request to `url`. Only requests to the account service
/// are taken over, and only if it is known which request it is.
pub open spec fn plan_of(url: Seq<char>, request: u32, mimi: u32) -> PlanV {
    if !(occurs(url, "account_service.php"@) || occurs(url, "account-mapi"@)) || request == 0 {
        PlanV::Leave
    } else if request == REQUEST_AUTO_LOGIN {
        PlanV::Answer { reply: menu_reply(request, mimi) }
    } else {
        PlanV::Proxy { body: request_body(request, mimi) }
    }
}

/// What to do with a request.
pub fn passport_plan(url: &str, request: u32, mimi: u32) -> (r: PassportPlan)
    ensures
        r@ == plan_of(url@, request, mimi),
{
    if !(contains_text(url, "account_service.php") || contains_text(url, "account-mapi")) {
        return PassportPlan::Leave;
    }
    if request == 0 {
        return PassportPlan::Leave;
    }
    let mut s: String = String::new();
    if request == REQUEST_AUTO_LOGIN {
        push_text(&mut s, "{\"status_code\":1011,\"result\":0,\"user_id\":");
        assert(s@ =~= "{\"status_code\":1011,\"result\":0,\"user_id\":"@);
        push_decimal(&mut s, mimi as u64);
        push_text(&mut s, ",\"extra_data\":");
        push_decimal(&mut s, request as u64);
        push_text(&mut s, "}");
        return PassportPlan::Answer { reply: s };
    }
    push_text(&mut s, "service=");
    assert(s@ =~= "service="@);
    push_decimal(&mut s, request as u64);
    push_text(&mut s, "&user_id=");
    push_decimal(&mut s, mimi as u64);
    push_text(&mut s, "&userid=");
    push_decimal(&mut s, mimi as u64);
    push_text(&mut s, "&extra_data=");
    push_decimal(&mut s, request as u64);
    PassportPlan::Proxy { body: s }
}

/// The head of the request over HTTP, for a body of `len` bytes.
pub open spec fn request_head(len: nat) -> Seq<char> {
    "POST /account_service.php HTTP/1.1\r\nHost: account-mapi.61.com\r\nContent-Type: application/x-www-form-urlencoded\r\nContent-Length: "@
        + decimal(len) + "\r\nConnection: close\r\n\r\n"@
}

/// The head of the request over HTTP, for a body of `len` bytes.
pub fn http_head(len: usize) -> (r: String)
    ensures
        r@ == request_head(len as nat),
{
    let mut s: String = String::new();
    push_text(
        &mut s,
        "POST /account_service.php HTTP/1.1\r\nHost: account-mapi.61.com\r\nContent-Type: application/x-www-form-urlencoded\r\nContent-Length: ",
    );
    assert(s@
        =~= "POST /account_service.php HTTP/1.1\r\nHost: account-mapi.61.com\r\nContent-Type: application/x-www-form-urlencoded\r\nContent-Length: "@);
    push_decimal(&mut s, len as u64);
    push_text(&mut s, "\r\nConnection: close\r\n\r\n");
    s
}

/// An empty line stands at place `i`.
pub open spec fn blank_at(resp: Seq<u8>, i: int) -> bool {
    0 <= i && i + 4 <= resp.len() && resp[i] == 13 && resp[i + 1] == 10 && resp[i + 2] == 13 && resp[i
        + 3] == 10
}

/// What follows the first empty line of a reply over HTTP.
pub fn http_body(resp: &Vec<u8>) -> (r: Option<Vec<u8>>)
    ensures
        is_body_of(
            resp@,
            match r {
                Some(body) => Some(body@),
                None => None,
            },
        ),
        match r {
            Some(body) => exists|i: int| #[trigger]
                blank_at(resp@, i) && (forall|j: int| 0 <= j < i ==> !#[trigger] blank_at(resp@, j))
                    && body@ == resp@.skip(i + 4),
            None => forall|i: int| !#[trigger] blank_at(resp@, i),
        },
{
    if resp.len() < 4 {
        return None;
    }
    let mut i: usize = 0;
    let n: usize = resp.len();
    let last: usize = n - 4;
    while i <= last
        invariant
            i <= last + 1,
            n == resp@.len(),
            last == n - 4,
            forall|j: int| 0 <= j < i ==> !#[trigger] blank_at(resp@, j),
        decreases last + 1 - i,
    {
        if resp[i] == 13 && resp[i + 1] == 10 && resp[i + 2] == 13 && resp[i + 3] == 10 {
            assert(blank_at(resp@, i as int));
            let mut body: Vec<u8> = Vec::new();
            let mut k: usize = i + 4;
            while k < resp.len()
                invariant
                    i + 4 <= k <= resp@.len(),
                    body@ =~= resp@.subrange(i + 4, k as int),
                decreases resp.len() - k,
            {
                body.push(resp[k]);
                k = k + 1;
            }
            assert(body@ =~= resp@.skip(i + 4));
            return Some(body);
        }
        assert(!blank_at(resp@, i as int));
        i = i + 1;
    }
    None
}

// ---- replies ----

/// The text that bytes stand for, with every byte that is not part of a
/// character replaced.
pub uninterp spec fn lossy_text(bytes: Seq<u8>) -> Seq<char>;

/// The text that bytes stand for. This is `String::from_utf8_lossy` of the
/// standard library; its result is named and nothing else is said of it.
#[verifier::external_body]
fn utf8_lossy(bytes: &Vec<u8>) -> (r: String)
    ensures
        r@ == lossy_text(bytes@),
{
    String::from_utf8_lossy(bytes).into_owned()
}

/// A name or a value without the white space and the quotes around it.
pub open spec fn bare(s: Seq<char>) -> Seq<char> {
    trimmed(trimmed(s, Cut::White), Cut::Quotes)
}

/// The entry that a part of a reply stands for, if it has a colon and a name.
pub open spec fn entry_of(part: Seq<char>) -> Seq<(Seq<char>, Seq<char>)> {
    match first_place(part, ':') {
        Some(i) => if bare(part.take(i)).len() > 0 {
            seq![(bare(part.take(i)), bare(part.skip(i + 1)))]
        } else {
            Seq::empty()
        },
        None => Seq::empty(),
    }
}

/// The entries of a text that is cut at its commas.
pub open spec fn entries_of(s: Seq<char>) -> Seq<(Seq<char>, Seq<char>)>
    decreases s.len(),
{
    match first_place(s, ',') {
        Some(i) => if 0 <= i < s.len() {
            entry_of(s.take(i)) + entries_of(s.skip(i + 1))
        } else {
            Seq::empty()
        },
        None => entry_of(s),
    }
}

/// The text without a brace at its beginning and one at its end.
pub open spec fn unbraced(s: Seq<char>) -> Seq<char> {
    let t = if s.len() > 0 && s[0] == '{' {
        s.skip(1)
    } else {
        s
    };
    if t.len() > 0 && t.last() == '}' {
        t.drop_last()
    } else {
        t
    }
}

/// The names and values of a flat reply.
pub open spec fn flat_pairs(text: Seq<char>) -> Seq<(Seq<char>, Seq<char>)> {
    entries_of(unbraced(trimmed(text, Cut::White)))
}

/// Names and values as mathematical values.
pub open spec fn pairs_v(v: Seq<(String, String)>) -> Seq<(Seq<char>, Seq<char>)> {
    Seq::new(v.len(), |i: int| (v[i].0@, v[i].1@))
}

/// A name or a value without the white space and the quotes around it.
fn bare_text(s: &Vec<char>, from: usize, to: usize) -> (r: (usize, usize))
    requires
        from <= to <= s@.len(),
    ensures
        from <= r.0 <= r.1 <= to,
        s@.subrange(r.0 as int, r.1 as int) == bare(s@.subrange(from as int, to as int)),
{
    let (a, b) = trim(s, from, to, Cut::White);
    trim(s, a, b, Cut::Quotes)
}

fn push_entry(out: &mut Vec<(String, String)>, s: &Vec<char>, from: usize, to: usize)
    requires
        from <= to <= s@.len(),
    ensures
        pairs_v(final(out)@) == pairs_v(old(out)@) + entry_of(
            s@.subrange(from as int, to as int),
        ),
{
    let ghost part = s@.subrange(from as int, to as int);
    let ghost before = pairs_v(out@);
    match find_first(s, from, to, ':') {
        Some(i) => {
            assert(part.take(i - from) =~= s@.subrange(from as int, i as int));
            assert(part.skip(i - from + 1) =~= s@.subrange(i + 1, to as int));
            let (a, b) = bare_text(s, from, i);
            if a < b {
                let (c, d) = bare_text(s, i + 1, to);
                out.push((text_of(s, a, b), text_of(s, c, d)));
                assert(pairs_v(out@) =~= before + entry_of(part));
            } else {
                assert(pairs_v(out@) =~= before + entry_of(part));
            }
        },
        None => {
            assert(pairs_v(out@) =~= before + entry_of(part));
        },
    }
}

/// The names and values of a flat reply.
pub fn parse_flat_text(text: &str) -> (r: Vec<(String, String)>)
    ensures
        pairs_v(r@) == flat_pairs(text@),
{
    let s = chars_of(text);
    let n: usize = s.len();
    assert(s@.subrange(0, n as int) =~= text@);
    let (a, b) = trim(&s, 0, n, Cut::White);
    let ghost t = s@.subrange(a as int, b as int);
    let mut from: usize = a;
    let mut to: usize = b;
    if from < to {
        assert(t[0] == s@[from as int]);
        if s[from] == '{' {
            from = from + 1;
            assert(t.skip(1) =~= s@.subrange(from as int, to as int));
        }
    }
    let ghost u = s@.subrange(from as int, to as int);
    if from < to {
        assert(u.last() == s@[to - 1]);
        if s[to - 1] == '}' {
            to = to - 1;
            assert(u.drop_last() =~= s@.subrange(from as int, to as int));
        }
    }
    let ghost all = entries_of(unbraced(t));
    assert(unbraced(t) =~= s@.subrange(from as int, to as int));
    let mut out: Vec<(String, String)> = Vec::new();
    let mut at: usize = from;
    assert(pairs_v(out@) + entries_of(s@.subrange(at as int, to as int)) =~= all);
    loop
        invariant
            at <= to <= s@.len(),
            all == flat_pairs(text@),
            pairs_v(out@) + entries_of(s@.subrange(at as int, to as int)) == all,
        decreases to - at,
    {
        let ghost rest = s@.subrange(at as int, to as int);
        let ghost before = pairs_v(out@);
        match find_first(&s, at, to, ',') {
            Some(i) => {
                assert(rest.take(i - at) =~= s@.subrange(at as int, i as int));
                assert(rest.skip(i - at + 1) =~= s@.subrange(i + 1, to as int));
                push_entry(&mut out, &s, at, i);
                at = i + 1;
                assert(pairs_v(out@) + entries_of(s@.subrange(at as int, to as int)) =~= before
                    + entries_of(rest));
            },
            None => {
                push_entry(&mut out, &s, at, to);
                return out;
            },
        }
    }
}

/// The names and values of a flat reply that came as bytes.
pub fn parse_flat_json(bytes: &Vec<u8>) -> (r: Vec<(String, String)>)
    ensures
        pairs_v(r@) == flat_pairs(lossy_text(bytes@)),
{
    let text = utf8_lossy(bytes);
    parse_flat_text(text.as_str())
}

// ---- requests under way ----

/// A request that was taken over. `reply` is missing while it is under way,
/// and empty where it failed.
#[derive(Debug)]
pub struct PassportProxy {
    pub request: u32,
    pub delegate: u32,
    pub reply: Option<Option<Vec<u8>>>,
}

/// Those of the first `n` requests that are over, in order.
pub open spec fn finished_upto(all: Seq<PassportProxy>, n: int) -> Seq<PassportProxy>
    decreases n,
{
    if n <= 0 {
        Seq::empty()
    } else if all[n - 1].reply is Some {
        finished_upto(all, n - 1).push(all[n - 1])
    } else {
        finished_upto(all, n - 1)
    }
}

/// Those of the first `n` requests that are under way, in order.
pub open spec fn pending_upto(all: Seq<PassportProxy>, n: int) -> Seq<PassportProxy>
    decreases n,
{
    if n <= 0 {
        Seq::empty()
    } else if all[n - 1].reply is None {
        pending_upto(all, n - 1).push(all[n - 1])
    } else {
        pending_upto(all, n - 1)
    }
}

/// Takes out the requests that are over, in order, and keeps the others.
pub fn drive_passport(pending: &mut Vec<PassportProxy>) -> (done: Vec<PassportProxy>)
    ensures
        done@ == finished_upto(old(pending)@, old(pending)@.len() as int),
        final(pending)@ == pending_upto(old(pending)@, old(pending)@.len() as int),
{
    let ghost all = pending@;
    let mut done: Vec<PassportProxy> = Vec::new();
    let mut seen: usize = 0;
    let mut kept: usize = 0;
    let count: usize = pending.len();
    while seen < count
        invariant
            kept <= seen <= count,
            count == all.len(),
            all == old(pending)@,
            pending@ =~= pending_upto(all, seen as int) + all.skip(seen as int),
            kept == pending_upto(all, seen as int).len(),
            done@ == finished_upto(all, seen as int),
        decreases count - seen,
    {
        let ghost before = pending@;
        assert(before[kept as int] == all[seen as int]);
        if pending[kept].reply.is_some() {
            let p = pending.remove(kept);
            done.push(p);
            assert(pending@ =~= pending_upto(all, seen + 1) + all.skip(seen + 1));
        } else {
            kept = kept + 1;
            assert(pending@ =~= pending_upto(all, seen + 1) + all.skip(seen + 1));
        }
        seen = seen + 1;
    }
    assert(pending@ =~= pending_upto(all, all.len() as int));
    done
}

/// The first reply of a list that belongs to a request.
pub open spec fn first_reply(replies: Seq<(u32, Vec<u8>)>, request: u32, i: int) -> bool {
    &&& 0 <= i < replies.len()
    &&& replies[i].0 == request
    &&& forall|j: int| 0 <= j < i ==> (#[trigger] replies[j]).0 != request
}

/// A copy of the reply that was fetched for a request.
pub fn fetched_reply(replies: &Vec<(u32, Vec<u8>)>, request: u32) -> (r: Option<Vec<u8>>)
    ensures
        match r {
            Some(body) => exists|i: int| #[trigger]
                first_reply(replies@, request, i) && body@ == replies@[i].1@,
            None => forall|i: int|
                0 <= i < replies@.len() ==> (#[trigger] replies@[i]).0 != request,
        },
{
    let mut i: usize = 0;
    while i < replies.len()
        invariant
            i <= replies@.len(),
            forall|j: int| 0 <= j < i ==> (#[trigger] replies@[j]).0 != request,
        decreases replies.len() - i,
    {
        if replies[i].0 == request {
            assert(first_reply(replies@, request, i as int));
            return Some(copied(&replies[i].1));
        }
        i = i + 1;
    }
    None
}

/// Forgets every reply for a request and keeps the others in order.
pub fn forget_reply(replies: &mut Vec<(u32, Vec<u8>)>, request: u32)
    ensures
        final(replies)@ == without_replies(old(replies)@, request),
        final(replies)@ == old(replies)@.filter(|p: (u32, Vec<u8>)| p.0 != request),
{
    let ghost all = replies@;
    let ghost keep = |p: (u32, Vec<u8>)| p.0 != request;
    let mut seen: usize = 0;
    let mut kept: usize = 0;
    let count: usize = replies.len();
    proof {
        assert(all.take(0) =~= Seq::empty());
        assert(all.take(0).filter(keep) =~= Seq::empty()) by {
            reveal(Seq::filter);
        }
        assert(all.skip(0) =~= all);
    }
    while seen < count
        invariant
            kept <= seen <= count,
            count == all.len(),
            all == old(replies)@,
            keep == (|p: (u32, Vec<u8>)| p.0 != request),
            replies@ =~= all.take(seen as int).filter(keep) + all.skip(seen as int),
            kept == all.take(seen as int).filter(keep).len(),
        decreases count - seen,
    {
        assert(replies@[kept as int] == all[seen as int]);
        proof {
            reveal(Seq::filter);
            assert(all.take(seen + 1).drop_last() =~= all.take(seen as int));
            assert(all.take(seen + 1).last() == all[seen as int]);
        }
        if replies[kept].0 == request {
            let _gone = replies.remove(kept);
        } else {
            kept = kept + 1;
        }
        seen = seen + 1;
        assert(replies@ =~= all.take(seen as int).filter(keep) + all.skip(seen as int));
    }
    proof {
        assert(all.take(count as int) =~= all);
        assert(all.skip(count as int) =~= Seq::empty());
    }
    assert(replies@ =~= all.filter(keep));
    assert(keep =~= for_another(request));
}

/// Every request is either over or under way, and none is lost.
pub proof fn law_requests_are_not_lost(all: Seq<PassportProxy>, n: int)
    requires
        0 <= n <= all.len(),
    ensures
        finished_upto(all, n).len() + pending_upto(all, n).len() == n,
        forall|i: int|
            0 <= i < n ==> finished_upto(all, n).contains(#[trigger] all[i]) || pending_upto(
                all,
                n,
            ).contains(all[i]),
        forall|i: int|
            0 <= i < finished_upto(all, n).len() ==> (#[trigger] finished_upto(all, n)[i]).reply is Some,
        forall|i: int|
            0 <= i < pending_upto(all, n).len() ==> (#[trigger] pending_upto(all, n)[i]).reply is None,
    decreases n,
{
    if n > 0 {
        law_requests_are_not_lost(all, n - 1);
        let f = finished_upto(all, n - 1);
        let p = pending_upto(all, n - 1);
        assert forall|i: int| 0 <= i < n implies finished_upto(all, n).contains(#[trigger] all[i])
            || pending_upto(all, n).contains(all[i]) by {
            if i < n - 1 {
                if f.contains(all[i]) {
                    let j = choose|j: int| 0 <= j < f.len() && f[j] == all[i];
                    assert(finished_upto(all, n)[j] == all[i]);
                } else {
                    let j = choose|j: int| 0 <= j < p.len() && p[j] == all[i];
                    assert(pending_upto(all, n)[j] == all[i]);
                }
            } else if all[i].reply is Some {
                assert(finished_upto(all, n)[f.len() as int] == all[i]);
            } else {
                assert(pending_upto(all, n)[p.len() as int] == all[i]);
            }
        }
    }
}

/// Requests to the account service are taken over, by one of its two
/// addresses, if it is known which request it is, and no other is. The login
/// without asking, 1012, is answered at once, so that the menu is shown, for the
/// account and with the request's number; every other is sent on with the
/// request and the account in it.
pub proof fn law_account_requests(url: Seq<char>, request: u32, mimi: u32)
    ensures
        ({
            let ours = occurs(url, "account_service.php"@) || occurs(url, "account-mapi"@);
            let r = decimal(request as nat);
            let m = decimal(mimi as nat);
            &&& plan_of(url, request, mimi) is Leave <==> !ours || request == 0
            &&& ours && request == 1012 ==> plan_of(url, request, mimi) == (PlanV::Answer {
                reply: "{\"status_code\":1011,\"result\":0,\"user_id\":"@ + m
                    + ",\"extra_data\":"@ + r + "}"@,
            })
            &&& ours && request != 0 && request != 1012 ==> plan_of(url, request, mimi) == (
            PlanV::Proxy {
                body: "service="@ + r + "&user_id="@ + m + "&userid="@ + m + "&extra_data="@ + r,
            })
        }),
{
}

/// The head of a request names the service and its host, and the length of the
/// body in bytes; an empty line ends it.
pub proof fn law_request_head(len: nat)
    ensures
        request_head(len)
            == "POST /account_service.php HTTP/1.1\r\nHost: account-mapi.61.com\r\nContent-Type: application/x-www-form-urlencoded\r\nContent-Length: "@
            + decimal(len) + "\r\nConnection: close\r\n\r\n"@,
{
}

/// A flat reply is cut at its commas, and each part at its first colon: a part
/// without one, or without a name, gives nothing. Braces around the whole are
/// taken off, one at each end.
pub proof fn law_flat_replies(a: Seq<char>, b: Seq<char>, s: Seq<char>)
    ensures
        (forall|i: int| 0 <= i < a.len() ==> #[trigger] a[i] != ',') ==> entries_of(
            a + seq![','] + b,
        ) == entry_of(a) + entries_of(b),
        (forall|i: int| 0 <= i < a.len() ==> #[trigger] a[i] != ',') ==> entries_of(a) == entry_of(
            a,
        ),
        (forall|i: int| 0 <= i < a.len() ==> #[trigger] a[i] != ':') && bare(a).len() > 0
            ==> entry_of(a + seq![':'] + b) == seq![(bare(a), bare(b))],
        (forall|i: int| 0 <= i < a.len() ==> #[trigger] a[i] != ':') && bare(a).len() == 0
            ==> entry_of(a + seq![':'] + b) == Seq::<(Seq<char>, Seq<char>)>::empty(),
        (forall|i: int| 0 <= i < a.len() ==> #[trigger] a[i] != ':') ==> entry_of(a) == Seq::<
            (Seq<char>, Seq<char>),
        >::empty(),
        unbraced(seq!['{'] + s + seq!['}']) == s,
        s.len() > 0 && s[0] != '{' && s.last() != '}' ==> unbraced(s) == s,
{
    let c = a + seq![','] + b;
    let d = a + seq![':'] + b;
    law_places(c, ',');
    law_places(d, ':');
    law_places(a, ',');
    law_places(a, ':');
    if forall|i: int| 0 <= i < a.len() ==> #[trigger] a[i] != ',' {
        assert(c[a.len() as int] == ',');
        assert forall|j: int| 0 <= j < a.len() implies #[trigger] c[j] != ',' by {
            assert(c[j] == a[j]);
        }
        assert(first_place(c, ',') == Some(a.len() as int));
        assert(c.take(a.len() as int) =~= a);
        assert(c.skip(a.len() as int + 1) =~= b);
    }
    if forall|i: int| 0 <= i < a.len() ==> #[trigger] a[i] != ':' {
        assert(d[a.len() as int] == ':');
        assert forall|j: int| 0 <= j < a.len() implies #[trigger] d[j] != ':' by {
            assert(d[j] == a[j]);
        }
        assert(first_place(d, ':') == Some(a.len() as int));
        assert(d.take(a.len() as int) =~= a);
        assert(d.skip(a.len() as int + 1) =~= b);
    }
    let u = seq!['{'] + s + seq!['}'];
    assert(u.skip(1).drop_last() =~= s);
}

/// Names and values lose the white space and then the quotes around them: a
/// text in quotes is given without them, and one without either as it is.
pub proof fn law_names_and_values_are_bare(s: Seq<char>)
    requires
        s.len() > 0,
        s[0] != '"' && s.last() != '"',
    ensures
        bare(seq!['"'] + s + seq!['"']) == s,
        !Cut::White.takes(s[0]) && !Cut::White.takes(s.last()) ==> bare(s) == s,
{
    let q = seq!['"'] + s + seq!['"'];
    assert(q[0] == '"' && q.last() == '"');
    lemma_not_white('"');
    lemma_nothing_to_cut(q, Cut::White);
    lemma_quotes_are_cut(s);
    lemma_nothing_to_cut(s, Cut::Quotes);
    if !Cut::White.takes(s[0]) && !Cut::White.takes(s.last()) {
        lemma_nothing_to_cut(s, Cut::White);
    }
}

proof fn lemma_quotes_are_cut(s: Seq<char>)
    requires
        s.len() > 0,
        s[0] != '"' && s.last() != '"',
    ensures
        trimmed(seq!['"'] + s + seq!['"'], Cut::Quotes) == s,
{
    let q = seq!['"'] + s + seq!['"'];
    let f = q.skip(1);
    assert(f =~= s + seq!['"']);
    assert(q[0] == '"' && f[0] == s[0] && f.last() == '"');
    assert(cut_start(f, Cut::Quotes) == f);
    assert(cut_start(q, Cut::Quotes) == f);
    assert(f.drop_last() =~= s);
    assert(cut_end(s, Cut::Quotes) == s);
    assert(cut_end(f, Cut::Quotes) == s);
}

/// Of the replies over HTTP, an empty line is two line ends in a row.
pub proof fn law_empty_line(resp: Seq<u8>, i: int)
    ensures
        blank_at(resp, i) <==> 0 <= i && i + 4 <= resp.len() && resp.subrange(i, i + 4) == seq![
            13u8,
            10,
            13,
            10,
        ],
{
    if 0 <= i && i + 4 <= resp.len() {
        let t = resp.subrange(i, i + 4);
        assert(t[0] == resp[i] && t[1] == resp[i + 1] && t[2] == resp[i + 2] && t[3] == resp[i + 3]);
        if blank_at(resp, i) {
            assert(t =~= seq![13u8, 10, 13, 10]);
        }
    }
}

/// The replies without those for a request.
pub open spec fn without_replies(replies: Seq<(u32, Vec<u8>)>, request: u32) -> Seq<(u32, Vec<u8>)> {
    replies.filter(for_another(request))
}

/// Whether a reply is for another request.
pub open spec fn for_another(request: u32) -> spec_fn((u32, Vec<u8>)) -> bool {
    |p: (u32, Vec<u8>)| p.0 != request
}

/// None for the request is left, and the others are, in their order.
pub proof fn law_forgotten_replies(replies: Seq<(u32, Vec<u8>)>, request: u32, p: (u32, Vec<u8>))
    ensures
        p.0 == request ==> without_replies(replies.push(p), request) == without_replies(
            replies,
            request,
        ),
        p.0 != request ==> without_replies(replies.push(p), request) == without_replies(
            replies,
            request,
        ).push(p),
        without_replies(Seq::empty(), request).len() == 0,
{
    reveal(Seq::filter);
    assert(replies.push(p).drop_last() =~= replies);
}

/// The body of a reply over HTTP: what follows the first empty line.
pub open spec fn is_body_of(resp: Seq<u8>, body: Option<Seq<u8>>) -> bool {
    match body {
        Some(b) => exists|i: int| #[trigger]
            blank_at(resp, i) && (forall|j: int| 0 <= j < i ==> !#[trigger] blank_at(resp, j)) && b
                == resp.skip(i + 4),
        None => forall|i: int| !#[trigger] blank_at(resp, i),
    }
}

/// A reply made of a head, an empty line and a body, where no empty line begins
/// within the head, has that body; one without an empty line has none.
pub proof fn law_body_follows_the_head(
    r: Seq<u8>,
    head: Seq<u8>,
    body: Seq<u8>,
    found: Option<Seq<u8>>,
)
    requires
        r == head + seq![13u8, 10, 13, 10] + body,
        is_body_of(r, found),
        forall|i: int| 0 <= i < head.len() ==> !#[trigger] blank_at(r, i),
    ensures
        found == Some(body),
{
    let n = head.len() as int;
    assert(r[n] == 13 && r[n + 1] == 10 && r[n + 2] == 13 && r[n + 3] == 10);
    assert(blank_at(r, n));
    assert(r.skip(n + 4) =~= body);
}

/// Requests keep their order: one that is over goes behind those that were over
/// before it, and one under way behind those under way.
pub proof fn law_requests_keep_their_order(all: Seq<PassportProxy>, n: int)
    requires
        0 < n <= all.len(),
    ensures
        all[n - 1].reply is Some ==> finished_upto(all, n) == finished_upto(all, n - 1).push(
            all[n - 1],
        ) && pending_upto(all, n) == pending_upto(all, n - 1),
        all[n - 1].reply is None ==> pending_upto(all, n) == pending_upto(all, n - 1).push(
            all[n - 1],
        ) && finished_upto(all, n) == finished_upto(all, n - 1),
        finished_upto(all, 0).len() == 0 && pending_upto(all, 0).len() == 0,
{
}

/// The first reply for a request is for it, none before it is, and there is only
/// one such place.
pub proof fn law_first_reply(replies: Seq<(u32, Vec<u8>)>, request: u32, i: int, j: int)
    ensures
        first_reply(replies, request, i) ==> 0 <= i < replies.len() && replies[i].0 == request,
        first_reply(replies, request, i) && 0 <= j < i ==> replies[j].0 != request,
        first_reply(replies, request, i) && first_reply(replies, request, j) ==> i == j,
        0 <= i < replies.len() && replies[i].0 == request && (forall|k: int|
            0 <= k < i ==> (#[trigger] replies[k]).0 != request) ==> first_reply(
            replies,
            request,
            i,
        ),
{
}

} // verus!
