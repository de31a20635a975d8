//! The `erc20` command: token-transfer events of one holder on one token
//! contract, most recent first, one reply per event.
use vstd::prelude::*;

use crate::reply::{fence_json, fenced};

verus! {

/// The reply to an `erc20` command without exactly three arguments.
pub const ERC20_USAGE: &'static str =
    "Incorrect command: `~erc20 <contract_address> <address> <max_results>`";

/// The reply when the requested number of results is not within 1 to 10.
pub const RANGE_ERROR: &'static str = "Max results should be a number from 1 to 10";

/// The count taken when the third argument is not a number. It lies outside
/// the accepted range, so such a command always gets `RANGE_ERROR`.
pub const UNPARSED_MAX_RESULTS: u32 = 999;

/// The smallest number of results a command may ask for.
pub const MIN_RESULTS: u32 = 1;

/// The largest number of results a command may ask for.
pub const MAX_RESULTS: u32 = 10;

/// Whether every character of `s` is an ASCII decimal digit.
pub open spec fn all_digits(s: Seq<char>) -> bool {
    forall|i: int| 0 <= i < s.len() ==> '0' <= #[trigger] s[i] <= '9'
}

/// The number written in decimal by the digits `s`.
pub open spec fn digits_value(s: Seq<char>) -> int
    decreases s.len(),
{
    if s.len() == 0 {
        0
    } else {
        digits_value(s.drop_last()) * 10 + (s.last() as int - '0' as int)
    }
}

/// `s` without one leading plus sign.
pub open spec fn unsigned_part(s: Seq<char>) -> Seq<char> {
    if s.len() > 0 && s[0] == '+' {
        s.drop_first()
    } else {
        s
    }
}

/// The `u32` that `s` denotes as `u32::from_str` reads it: an optional `+`
/// followed by at least one decimal digit, with a value that fits in 32 bits.
pub open spec fn parsed_u32(s: Seq<char>) -> Option<u32> {
    let d = unsigned_part(s);
    if d.len() > 0 && all_digits(d) && digits_value(d) <= u32::MAX as int {
        Some(digits_value(d) as u32)
    } else {
        None
    }
}

/// Reads a decimal `u32`, accepting what `u32::from_str` accepts.
pub fn parse_u32(s: &str) -> (r: Option<u32>)
    ensures
        r == parsed_u32(s@),
{
    let n = s.unicode_len();
    let mut start: usize = 0;
    if n > 0 && s.get_char(0) == '+' {
        start = 1;
    }
    let ghost d = unsigned_part(s@);
    assert(d =~= s@.subrange(start as int, n as int));
    if start == n {
        return None;
    }
    let mut acc: u64 = 0;
    let mut overflow = false;
    let mut i: usize = start;
    while i < n
        invariant
            n == s@.len(),
            start <= i <= n,
            d == s@.subrange(start as int, n as int),
            d == unsigned_part(s@),
            all_digits(s@.subrange(start as int, i as int)),
            !overflow ==> acc == digits_value(s@.subrange(start as int, i as int)),
            !overflow ==> acc <= u32::MAX,
            overflow ==> digits_value(s@.subrange(start as int, i as int)) > u32::MAX,
        decreases n - i,
    {
        let c = s.get_char(i);
        let ghost pre = s@.subrange(start as int, i as int);
        let ghost next = s@.subrange(start as int, i + 1);
        assert(next.drop_last() =~= pre);
        assert(next.last() == c);
        if c < '0' || c > '9' {
            assert(d[i - start] == c);
            assert(!all_digits(d));
            return None;
        }
        assert(all_digits(next)) by {
            assert forall|k: int| 0 <= k < next.len() implies '0' <= #[trigger] next[k] <= '9' by {
                if k < pre.len() {
                    assert(next[k] == pre[k]);
                }
            }
        }
        let digit = (c as u32 - '0' as u32) as u64;
        if !overflow {
            acc = acc * 10 + digit;
            if acc > u32::MAX as u64 {
                overflow = true;
            }
        }
        i = i + 1;
    }
    assert(s@.subrange(start as int, n as int) =~= d);
    if overflow {
        None
    } else {
        Some(acc as u32)
    }
}

/// The order in which the explorer lists events.
#[derive(Clone, Copy, Debug, PartialEq, Eq, Structural)]
pub enum SortOrder {
    Ascending,
    Descending,
}

/// One request for token-transfer events.
#[derive(Clone, Debug, PartialEq, Eq)]
pub struct TransferQuery {
    pub contract_address: String,
    pub address: String,
    /// The page of results, counted from 1.
    pub page: u32,
    /// The number of events per page.
    pub offset: u32,
    pub sort: SortOrder,
}

/// What the `erc20` command does with its arguments.
#[derive(Clone, Debug, PartialEq, Eq)]
pub enum TransferStep {
    /// Send this text and stop: no explorer request.
    Reply(String),
    /// Make this request, then reply once for each event it returns.
    Fetch(TransferQuery),
}

/// The mathematical form of a `TransferStep`.
pub enum TransferPlan {
    Reply(Seq<char>),
    Fetch {
        contract_address: Seq<char>,
        address: Seq<char>,
        page: u32,
        offset: u32,
        sort: SortOrder,
    },
}

impl View for TransferStep {
    type V = TransferPlan;

    open spec fn view(&self) -> TransferPlan {
        match self {
            TransferStep::Reply(t) => TransferPlan::Reply(t@),
            TransferStep::Fetch(q) => TransferPlan::Fetch {
                contract_address: q.contract_address@,
                address: q.address@,
                page: q.page,
                offset: q.offset,
                sort: q.sort,
            },
        }
    }
}

/// The requested number of results: the third argument read as a `u32`, or
/// `UNPARSED_MAX_RESULTS` when it is not one.
pub open spec fn requested_results(arg: Seq<char>) -> u32 {
    match parsed_u32(arg) {
        Some(n) => n,
        None => UNPARSED_MAX_RESULTS,
    }
}

/// Not three arguments: the usage hint. A count outside 1 to 10: the range
/// error. Otherwise the first page of that many events, newest first.
pub open spec fn transfer_plan(args: Seq<Seq<char>>) -> TransferPlan {
    if args.len() != 3 {
        TransferPlan::Reply(ERC20_USAGE@)
    } else {
        let n = requested_results(args[2]);
        if n < MIN_RESULTS || n > MAX_RESULTS {
            TransferPlan::Reply(RANGE_ERROR@)
        } else {
            TransferPlan::Fetch {
                contract_address: args[0],
                address: args[1],
                page: 1,
                offset: n,
                sort: SortOrder::Descending,
            }
        }
    }
}

/// Decides what the `erc20` command does with its arguments: contract
/// address, holder address and number of results.
pub fn plan_transfers(args: Vec<String>) -> (r: TransferStep)
    ensures
        r@ == transfer_plan(args.deep_view()),
{
    if args.len() != 3 {
        return TransferStep::Reply(String::from_str(ERC20_USAGE));
    }
    let mut args = args;
    let count_arg = args.pop().unwrap();
    let address = args.pop().unwrap();
    let contract_address = args.pop().unwrap();
    let n = match parse_u32(count_arg.as_str()) {
        Some(n) => n,
        None => UNPARSED_MAX_RESULTS,
    };
    if n < MIN_RESULTS || n > MAX_RESULTS {
        return TransferStep::Reply(String::from_str(RANGE_ERROR));
    }
    TransferStep::Fetch(TransferQuery {
        contract_address,
        address,
        page: 1,
        offset: n,
        sort: SortOrder::Descending,
    })
}

/// Formats the replies to a transfer request: one fenced JSON block per
/// event, in the order the explorer returned them.
pub fn transfer_replies(events: &Vec<String>) -> (r: Vec<String>)
    ensures
        r@.len() == events@.len(),
        forall|i: int| 0 <= i < r@.len() ==> #[trigger] r@[i]@ == fenced(events@[i]@),
{
    let mut r: Vec<String> = Vec::new();
    let mut i: usize = 0;
    while i < events.len()
        invariant
            i <= events@.len(),
            r@.len() == i,
            forall|k: int| 0 <= k < i ==> #[trigger] r@[k]@ == fenced(events@[k]@),
        decreases events@.len() - i,
    {
        r.push(fence_json(events[i].as_str()));
        i = i + 1;
    }
    r
}

} // verus!
