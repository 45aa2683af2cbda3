use vstd::prelude::*;

use crate::errors::LogError;
use crate::filter::{filter_log, parse_date_time, spec_keep, spec_parse_date_time};

verus! {

/// Largest number of lines a capped query returns.
pub const MAX_LOGS: usize = 10000;

/// The views of a sequence of owned lines.
pub open spec fn lines_view(lines: Seq<String>) -> Seq<Seq<char>> {
    lines.map_values(|l: String| l@)
}

/// The keep-decision of `spec_keep` as a predicate on a line alone.
pub open spec fn keep_pred(
    filter: Seq<char>,
    level: Seq<char>,
    start: Option<i64>,
    end: Option<i64>,
) -> spec_fn(Seq<char>) -> bool {
    |line: Seq<char>| spec_keep(line, filter, level, start, end)
}

/// What a query returns over a sequence of lines: the kept lines in file
/// order, truncated to the cap when one is configured.
pub open spec fn spec_results(
    lines: Seq<Seq<char>>,
    filter: Seq<char>,
    level: Seq<char>,
    start: Option<i64>,
    end: Option<i64>,
    cap: Option<usize>,
) -> Seq<Seq<char>> {
    let kept = lines.filter(keep_pred(filter, level, start, end));
    match cap {
        None => kept,
        Some(n) => if kept.len() <= n {
            kept
        } else {
            kept.take(n as int)
        },
    }
}

/// Filters a sequence of lines, keeping matches in arrival order and
/// stopping early once the cap (when present) is reached.
pub fn filter_lines(
    lines: &Vec<String>,
    filter: &str,
    level: &str,
    start_date_time: Option<i64>,
    end_date_time: Option<i64>,
    cap: Option<usize>,
) -> (r: Vec<String>)
    ensures
        lines_view(r@) == spec_results(
            lines_view(lines@),
            filter@,
            level@,
            start_date_time,
            end_date_time,
            cap,
        ),
{
    let ghost pred = keep_pred(filter@, level@, start_date_time, end_date_time);
    let ghost all = lines_view(lines@);
    let mut out: Vec<String> = Vec::new();
    let mut idx: usize = 0;
    proof {
        assert(all.take(0) =~= Seq::<Seq<char>>::empty());
        assert(lines_view(out@) =~= Seq::<Seq<char>>::empty());
        reveal(Seq::filter);
    }
    while idx < lines.len()
        invariant
            idx <= lines.len(),
            all == lines_view(lines@),
            pred == keep_pred(filter@, level@, start_date_time, end_date_time),
            lines_view(out@) == all.take(idx as int).filter(pred),
            cap matches Some(n) ==> out.len() <= n,
        decreases lines.len() - idx,
    {
        if let Some(n) = cap {
            if out.len() == n {
                proof {
                    lemma_filtered_prefix_is_results(
                        all,
                        filter@,
                        level@,
                        start_date_time,
                        end_date_time,
                        idx as int,
                        n,
                    );
                }
                return out;
            }
        }
        let line = &lines[idx];
        let keep = filter_log(line.as_str(), filter, level, start_date_time, end_date_time);
        proof {
            reveal(Seq::filter);
            let prefix = all.take(idx as int);
            let longer = all.take(idx + 1);
            assert(longer.drop_last() =~= prefix);
            assert(longer.last() == line@);
            assert(longer.filter(pred) == if pred(line@) {
                prefix.filter(pred).push(line@)
            } else {
                prefix.filter(pred)
            });
        }
        if keep {
            out.push(line.clone());
            proof {
                assert(lines_view(out@) =~= all.take(idx + 1).filter(pred));
            }
        }
        idx += 1;
    }
    proof {
        assert(all.take(idx as int) =~= all);
        broadcast use vstd::seq_lib::group_filter_ensures;

        assert(lines_view(out@) == all.filter(pred));
    }
    out
}

/// When a full prefix of the lines already yields `n` kept lines, those are
/// exactly the results of the whole query capped at `n`: the earliest
/// matches in the scanned window.
proof fn lemma_filtered_prefix_is_results(
    lines: Seq<Seq<char>>,
    filter: Seq<char>,
    level: Seq<char>,
    start: Option<i64>,
    end: Option<i64>,
    idx: int,
    n: usize,
)
    requires
        0 <= idx <= lines.len(),
        lines.take(idx).filter(keep_pred(filter, level, start, end)).len() == n,
    ensures
        spec_results(lines, filter, level, start, end, Some(n)) == lines.take(idx).filter(
            keep_pred(filter, level, start, end),
        ),
{
    let pred = keep_pred(filter, level, start, end);
    let prefix = lines.take(idx);
    let rest = lines.skip(idx);
    assert(lines =~= prefix + rest);
    Seq::filter_distributes_over_add(prefix, rest, pred);
    let kept = lines.filter(pred);
    assert(kept == prefix.filter(pred) + rest.filter(pred));
    assert(kept.take(n as int) =~= prefix.filter(pred));
    if kept.len() <= n {
        assert(kept =~= prefix.filter(pred));
    }
}

/// A query over a sequence of lines: parses the two date-time bounds, then
/// filters each line, keeping matches in arrival order up to the cap. A
/// non-empty bound that is not a valid RFC 3339 timestamp rejects the whole
/// query; nothing else does.
pub fn run_query(
    lines: &Vec<String>,
    filter: &str,
    level: &str,
    start_date_time: &str,
    end_date_time: &str,
    cap: Option<usize>,
) -> (r: Result<Vec<String>, LogError>)
    ensures
        match r {
            Ok(out) => {
                &&& spec_parse_date_time(start_date_time@) matches Ok(start)
                    && spec_parse_date_time(end_date_time@) matches Ok(end) && lines_view(out@)
                    == spec_results(lines_view(lines@), filter@, level@, start, end, cap)
            },
            Err(e) => {
                &&& e == LogError::BadInput
                &&& spec_parse_date_time(start_date_time@) is Err || spec_parse_date_time(
                    end_date_time@,
                ) is Err
            },
        },
{
    let start = match parse_date_time(start_date_time) {
        Ok(b) => b,
        Err(e) => {
            return Err(e);
        },
    };
    let end = match parse_date_time(end_date_time) {
        Ok(b) => b,
        Err(e) => {
            return Err(e);
        },
    };
    Ok(filter_lines(lines, filter, level, start, end, cap))
}

/// A query constrained by nothing — empty filter, level `All`, no bounds —
/// returns every line of the window in file order, up to the cap.
pub proof fn lemma_unconstrained_query(lines: Seq<Seq<char>>, cap: Option<usize>)
    ensures
        spec_results(lines, Seq::<char>::empty(), "All"@, None, None, cap) == match cap {
            None => lines,
            Some(n) => if lines.len() <= n {
                lines
            } else {
                lines.take(n as int)
            },
        },
{
    let pred = keep_pred(Seq::<char>::empty(), "All"@, None, None);
    assert forall|line: Seq<char>| #[trigger] pred(line) by {
        assert(spec_keep(line, Seq::<char>::empty(), "All"@, None, None));
    }
    lemma_filter_all_true(lines, pred);
}

proof fn lemma_filter_all_true(s: Seq<Seq<char>>, pred: spec_fn(Seq<char>) -> bool)
    requires
        forall|x: Seq<char>| #[trigger] pred(x),
    ensures
        s.filter(pred) == s,
    decreases s.len(),
{
    reveal(Seq::filter);
    if s.len() > 0 {
        lemma_filter_all_true(s.drop_last(), pred);
        assert(s.filter(pred) =~= s);
    }
}

/// Querying is deterministic: the same query against the same lines yields
/// identical results, however often it is run.
pub proof fn lemma_query_idempotent(
    r1: Seq<Seq<char>>,
    r2: Seq<Seq<char>>,
    lines: Seq<Seq<char>>,
    filter: Seq<char>,
    level: Seq<char>,
    start: Option<i64>,
    end: Option<i64>,
    cap: Option<usize>,
)
    requires
        r1 == spec_results(lines, filter, level, start, end, cap),
        r2 == spec_results(lines, filter, level, start, end, cap),
    ensures
        r1 == r2,
{
}

/// Cap behaviour: when at least `n` lines match, a query capped at `n`
/// returns exactly the first `n` matches of the scanned window.
pub proof fn lemma_cap(
    lines: Seq<Seq<char>>,
    filter: Seq<char>,
    level: Seq<char>,
    start: Option<i64>,
    end: Option<i64>,
    n: usize,
)
    requires
        lines.filter(keep_pred(filter, level, start, end)).len() >= n,
    ensures
        spec_results(lines, filter, level, start, end, Some(n)) == lines.filter(
            keep_pred(filter, level, start, end),
        ).take(n as int),
        spec_results(lines, filter, level, start, end, Some(n)).len() == n,
{
    let kept = lines.filter(keep_pred(filter, level, start, end));
    if kept.len() <= n {
        assert(kept =~= kept.take(n as int));
    }
}

} // verus!
