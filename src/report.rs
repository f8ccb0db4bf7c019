use vstd::prelude::*;
use crate::batch::ItemOutcome;
use crate::error::AppError;

verus! {

/// The feed addresses among the first `n` outcomes, in their order.
pub open spec fn successes_in(outs: Seq<ItemOutcome>, n: nat) -> Seq<Seq<char>>
    decreases n,
{
    if n == 0 {
        Seq::empty()
    } else {
        let before = successes_in(outs, (n - 1) as nat);
        match outs[n - 1].result {
            Ok(f) => before.push(f@),
            Err(_) => before,
        }
    }
}

/// The failures among the first `n` outcomes, each as its input line and its
/// error, in their order.
pub open spec fn failures_in(outs: Seq<ItemOutcome>, n: nat) -> Seq<(Seq<char>, AppError)>
    decreases n,
{
    if n == 0 {
        Seq::empty()
    } else {
        let before = failures_in(outs, (n - 1) as nat);
        match outs[n - 1].result {
            Ok(_) => before,
            Err(e) => before.push((outs[n - 1].input@, e)),
        }
    }
}

/// The feed addresses of the successful outcomes, in input order.
pub fn successes(outcomes: &Vec<ItemOutcome>) -> (r: Vec<String>)
    ensures
        r@.map_values(|s: String| s@) == successes_in(outcomes@, outcomes@.len()),
{
    let mut out: Vec<String> = Vec::new();
    let mut i: usize = 0;
    while i < outcomes.len()
        invariant
            i <= outcomes@.len(),
            out@.map_values(|s: String| s@) == successes_in(outcomes@, i as nat),
        decreases outcomes@.len() - i,
    {
        match &outcomes[i].result {
            Ok(f) => {
                out.push(f.clone());
                assert(out@.map_values(|s: String| s@) =~= successes_in(
                    outcomes@,
                    (i + 1) as nat,
                ));
            },
            Err(_) => {},
        }
        i = i + 1;
    }
    out
}

/// The failed outcomes, each as its input line and its error, in input order.
pub fn failures(outcomes: &Vec<ItemOutcome>) -> (r: Vec<(String, AppError)>)
    ensures
        r@.map_values(|p: (String, AppError)| (p.0@, p.1)) == failures_in(
            outcomes@,
            outcomes@.len(),
        ),
{
    let mut out: Vec<(String, AppError)> = Vec::new();
    let mut i: usize = 0;
    while i < outcomes.len()
        invariant
            i <= outcomes@.len(),
            out@.map_values(|p: (String, AppError)| (p.0@, p.1)) == failures_in(
                outcomes@,
                i as nat,
            ),
        decreases outcomes@.len() - i,
    {
        match &outcomes[i].result {
            Ok(_) => {},
            Err(e) => {
                out.push((outcomes[i].input.clone(), e.duplicate()));
                assert(out@.map_values(|p: (String, AppError)| (p.0@, p.1)) =~= failures_in(
                    outcomes@,
                    (i + 1) as nat,
                ));
            },
        }
        i = i + 1;
    }
    out
}

/// The result of a lookup whose page request ended as `page`: its error, or
/// the feed address that the page gives.
pub open spec fn item_result_of(page: Result<String, AppError>) -> Result<Seq<char>, AppError> {
    match page {
        Err(e) => Err(e),
        Ok(html) => match crate::extract::feed_of_page(html@) {
            Some(f) => Ok(f),
            None => Err(AppError::FeedNotFound),
        },
    }
}

/// Ends one lookup once its page request has ended: a failed request is the
/// item's failure, and a page is searched for its feed link.
pub fn finish_item(page: Result<String, AppError>) -> (r: Result<String, AppError>)
    requires
        page matches Ok(html) ==> html@.len() <= crate::extract::MAX_PAGE_CHARS,
    ensures
        match item_result_of(page) {
            Ok(f) => r matches Ok(v) && v@ == f,
            Err(e) => r matches Err(g) && g == e,
        },
{
    match page {
        Err(e) => Err(e),
        Ok(html) => crate::extract::HTMLParser::extract_feed_url(html.as_str()),
    }
}

/// The page that a response gives: its body where the status is in the
/// success range, otherwise the status as the error.
pub fn page_from_response(status: u16, body: String) -> (r: Result<String, AppError>)
    ensures
        200 <= status <= 299 ==> r == Ok::<String, AppError>(body),
        !(200 <= status <= 299) ==> r == Err::<String, AppError>(AppError::HttpStatusError(status)),
{
    if 200 <= status && status <= 299 {
        Ok(body)
    } else {
        Err(AppError::HttpStatusError(status))
    }
}

/// The error for a request that failed in transport: a timeout where it ran
/// past its limit, a network error with the transport's description otherwise.
pub fn transport_error(timed_out: bool, description: String) -> (r: AppError)
    ensures
        timed_out ==> r == AppError::FetchTimeout,
        !timed_out ==> r == AppError::NetworkError(description),
{
    if timed_out {
        AppError::FetchTimeout
    } else {
        AppError::NetworkError(description)
    }
}

} // verus!
