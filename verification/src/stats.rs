//! What the server has sent so far.
use vstd::prelude::*;

use crate::text::decimal_text;

verus! {

/// One answered request.
#[derive(Debug, PartialEq, Eq, Structural)]
pub struct Response {
    /// The number of body bytes.
    pub len: usize,
}

impl Default for Response {
    /// A response of which nothing was sent yet.
    fn default() -> (response: Response)
        ensures
            response.len == 0,
    {
        Response { len: 0 }
    }
}

/// The responses that were recorded, oldest first.
#[derive(Debug)]
pub struct Stats {
    pub responses: Vec<Response>,
}

impl View for Stats {
    type V = Seq<Response>;

    open spec fn view(&self) -> Seq<Response> {
        self.responses@
    }
}

impl Default for Stats {
    /// Nothing recorded yet.
    fn default() -> (stats: Stats)
        ensures
            stats@ == Seq::<Response>::empty(),
    {
        Stats { responses: Vec::new() }
    }
}

/// The body bytes of all `responses`.
pub open spec fn total_len(responses: Seq<Response>) -> nat
    decreases responses.len(),
{
    if responses.len() == 0 {
        0
    } else {
        total_len(responses.drop_last()) + responses.last().len as nat
    }
}

/// The summary of `responses`: how many there are, and their body bytes.
pub open spec fn summary(responses: Seq<Response>) -> Seq<char> {
    "req_count: "@ + crate::text::decimal(responses.len()) + ", body_bytes_sent: "@
        + crate::text::decimal(total_len(responses))
}

/// What became of a response that was handed in.
#[derive(Debug)]
pub enum Recorded {
    /// Statistics are switched off.
    Off,
    /// It was recorded; the summary now reads so.
    Logged(String),
    /// It was recorded; the body bytes are now more than can be counted.
    Overflow,
}

impl Stats {
    /// The body bytes of all responses, or `None` where they are more than can
    /// be counted.
    pub fn body_bytes_sent(&self) -> (total: Option<usize>)
        ensures
            match total {
                Some(n) => n == total_len(self@),
                None => total_len(self@) > usize::MAX,
            },
    {
        let mut total: usize = 0;
        let mut i: usize = 0;
        while i < self.responses.len()
            invariant
                i <= self@.len(),
                total == total_len(self@.take(i as int)),
            decreases self@.len() - i,
        {
            assert(self@.take(i + 1).drop_last() =~= self@.take(i as int));
            match total.checked_add(self.responses[i].len) {
                Some(sum) => {
                    total = sum;
                },
                None => {
                    proof {
                        law_total_grows(self@.take(i + 1), self@.skip(i + 1));
                        assert(self@.take(i + 1) + self@.skip(i + 1) =~= self@);
                    }
                    return None;
                },
            }
            i += 1;
        }
        assert(self@.take(i as int) =~= self@);
        Some(total)
    }

    /// The summary line.
    pub fn print_summary(&self) -> (line: String)
        requires
            total_len(self@) <= usize::MAX,
        ensures
            line@ == summary(self@),
    {
        let req_count: usize = self.responses.len();
        let body_bytes_sent: usize = match self.body_bytes_sent() {
            Some(total) => total,
            None => vstd::pervasive::unreached(),
        };
        "req_count: ".to_owned()
            .concat(decimal_text(req_count as u64).as_str())
            .concat(", body_bytes_sent: ")
            .concat(decimal_text(body_bytes_sent as u64).as_str())
    }

    /// Records a response.
    pub fn push_response(&mut self, response: Response)
        ensures
            final(self)@ == old(self)@.push(response),
            final(self).responses@ == old(self).responses@.push(response),
    {
        self.responses.push(response)
    }

    /// Records the response of a finished exchange, if statistics are `enabled`,
    /// and sums up.
    pub fn record(&mut self, enabled: bool, response: Response) -> (recorded: Recorded)
        ensures
            final(self)@ == if enabled { old(self)@.push(response) } else { old(self)@ },
            final(self).responses@ == if enabled {
                old(self).responses@.push(response)
            } else {
                old(self).responses@
            },
            match recorded {
                Recorded::Off => !enabled,
                Recorded::Logged(line) => {
                    &&& enabled
                    &&& total_len(old(self)@) + response.len <= usize::MAX
                    &&& line@ == summary(final(self)@)
                },
                Recorded::Overflow => enabled && total_len(old(self)@) + response.len > usize::MAX,
            },
    {
        if !enabled {
            return Recorded::Off;
        }
        self.push_response(response);
        assert(self@.drop_last() =~= old(self)@);
        match self.body_bytes_sent() {
            Some(_) => Recorded::Logged(self.print_summary()),
            None => Recorded::Overflow,
        }
    }
}

/// The body bytes of two runs of responses add up; so a total only ever grows.
pub proof fn law_total_grows(before: Seq<Response>, after: Seq<Response>)
    ensures
        total_len(before + after) == total_len(before) + total_len(after),
    decreases after.len(),
{
    if after.len() == 0 {
        assert(before + after =~= before);
    } else {
        law_total_grows(before, after.drop_last());
        assert((before + after).drop_last() =~= before + after.drop_last());
    }
}

/// The body bytes of responses are the sum of their lengths.
pub proof fn law_total_is_the_sum(responses: Seq<Response>)
    ensures
        total_len(responses) == responses.fold_left(0int, |sum: int, r: Response| sum + r.len),
    decreases responses.len(),
{
    if responses.len() > 0 {
        law_total_is_the_sum(responses.drop_last());
    }
}

/// A summary names two numbers: how many responses there are, and the sum of
/// their lengths.
pub proof fn law_summary_names_count_and_sum(responses: Seq<Response>) -> (r: (Seq<char>, Seq<char>))
    ensures
        summary(responses) == "req_count: "@ + r.0 + ", body_bytes_sent: "@ + r.1,
        crate::text::reads_as(r.0, responses.len() as int),
        crate::text::reads_as(
            r.1,
            responses.fold_left(0int, |sum: int, r: Response| sum + r.len),
        ),
{
    law_total_is_the_sum(responses);
    crate::text::law_decimal_is_how_a_number_is_written(responses.len());
    crate::text::law_decimal_is_how_a_number_is_written(total_len(responses));
    (crate::text::decimal(responses.len()), crate::text::decimal(total_len(responses)))
}

/// Both numbers can be read back from a summary: responses with the same summary
/// are equally many, and their lengths have the same sum.
pub proof fn law_summary_tells_responses_apart(one: Seq<Response>, other: Seq<Response>)
    requires
        summary(one) == summary(other),
    ensures
        one.len() == other.len(),
        one.fold_left(0int, |sum: int, r: Response| sum + r.len) == other.fold_left(
            0int,
            |sum: int, r: Response| sum + r.len,
        ),
{
    let (count, total) = law_summary_names_count_and_sum(one);
    let (other_count, other_total) = law_summary_names_count_and_sum(other);
    reveal_strlit("req_count: ");
    reveal_strlit(", body_bytes_sent: ");
    let line = summary(one);
    let c = count.len() as int;
    let d = other_count.len() as int;
    assert(line[11 + c] == ',');
    assert(line[11 + d] == ',');
    assert(c == d) by {
        if c < d {
            assert(line[11 + c] == other_count[c]);
        } else if d < c {
            assert(line[11 + d] == count[d]);
        }
    }
    assert(count =~= line.subrange(11, 11 + c));
    assert(other_count =~= line.subrange(11, 11 + d));
    assert(total =~= line.skip(30 + c));
    assert(other_total =~= line.skip(30 + d));
}

/// Exchanges that run side by side may finish in any order: the summary is the
/// same whichever way their responses are recorded.
pub proof fn law_summary_ignores_order(one: Seq<Response>, other: Seq<Response>)
    requires
        one.to_multiset() == other.to_multiset(),
    ensures
        total_len(one) == total_len(other),
        summary(one) == summary(other),
    decreases one.len(),
{
    broadcast use vstd::seq_lib::group_to_multiset_ensures;

    assert(one.len() == one.to_multiset().len());
    assert(other.len() == other.to_multiset().len());
    if one.len() > 0 {
        let last = one.last();
        assert(one.to_multiset().count(last) > 0) by {
            assert(one.contains(last));
        }
        assert(other.contains(last));
        let i = other.index_of(last);
        let before = other.take(i);
        let after = other.skip(i + 1);
        assert(other =~= before + seq![last] + after);
        assert(other.remove(i) =~= before + after);
        assert(one.remove(one.len() - 1) =~= one.drop_last());
        law_summary_ignores_order(one.drop_last(), other.remove(i));
        law_total_grows(before + seq![last], after);
        law_total_grows(before, seq![last]);
        law_total_grows(before, after);
        assert(seq![last].drop_last() =~= Seq::empty());
        assert(total_len(seq![last]) == last.len) by {
            reveal_with_fuel(total_len, 2);
        }
    }
}

} // verus!
