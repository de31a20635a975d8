//! The `balance` command: one address gives a plain amount, several give a
//! JSON listing from one batched explorer request.
use vstd::prelude::*;

use crate::reply::{fence_json, fenced, lemma_fenced_reads_back, unfenced};

verus! {

/// The reply to a `balance` command that names no address.
pub const BALANCE_USAGE: &'static str = "Please specify an address: `~balance <address>`";

/// The balance of one account as the explorer reports it: the address and
/// the amount in wei, both as text.
#[derive(Clone, Debug, PartialEq, Eq)]
pub struct AccountBalance {
    pub account: String,
    pub balance: String,
}

impl View for AccountBalance {
    type V = (Seq<char>, Seq<char>);

    open spec fn view(&self) -> (Seq<char>, Seq<char>) {
        (self.account@, self.balance@)
    }
}

/// The address-to-amount pairs of a list of balances, in order.
pub open spec fn balances_view(entries: Seq<AccountBalance>) -> Seq<(Seq<char>, Seq<char>)> {
    entries.map_values(|e: AccountBalance| e@)
}

/// What the `balance` command does with its arguments.
#[derive(Clone, Debug, PartialEq, Eq)]
pub enum BalanceStep {
    /// Send this text and stop: no explorer request.
    Reply(String),
    /// Ask the explorer for the latest balance of this one address.
    FetchOne(String),
    /// Ask the explorer, in one request, for the latest balances of all these
    /// addresses, in this order.
    FetchMany(Vec<String>),
}

/// The mathematical form of a `BalanceStep`.
pub enum BalancePlan {
    Reply(Seq<char>),
    FetchOne(Seq<char>),
    FetchMany(Seq<Seq<char>>),
}

impl View for BalanceStep {
    type V = BalancePlan;

    open spec fn view(&self) -> BalancePlan {
        match self {
            BalanceStep::Reply(t) => BalancePlan::Reply(t@),
            BalanceStep::FetchOne(a) => BalancePlan::FetchOne(a@),
            BalanceStep::FetchMany(v) => BalancePlan::FetchMany(v.deep_view()),
        }
    }
}

/// No address: the usage hint. One address: a single lookup. More: one
/// batched lookup of all of them in the order given.
pub open spec fn balance_plan(args: Seq<Seq<char>>) -> BalancePlan {
    if args.len() == 0 {
        BalancePlan::Reply(BALANCE_USAGE@)
    } else if args.len() == 1 {
        BalancePlan::FetchOne(args[0])
    } else {
        BalancePlan::FetchMany(args)
    }
}

/// Decides what the `balance` command does with the addresses it was given.
pub fn plan_balance(args: Vec<String>) -> (r: BalanceStep)
    ensures
        r@ == balance_plan(args.deep_view()),
{
    let n = args.len();
    if n == 0 {
        BalanceStep::Reply(String::from_str(BALANCE_USAGE))
    } else if n == 1 {
        let mut args = args;
        let a = args.pop().unwrap();
        BalanceStep::FetchOne(a)
    } else {
        BalanceStep::FetchMany(args)
    }
}

/// The reply to a single lookup: the amount in wei as plain text.
pub open spec fn single_balance_text(amount: Seq<char>) -> Seq<char> {
    "Balance: "@ + amount + " Wei"@
}

/// Formats the reply to a single lookup.
pub fn single_balance_reply(amount: &str) -> (r: String)
    ensures
        r@ == single_balance_text(amount@),
{
    let mut r = String::from_str("Balance: ");
    r.append(amount);
    r.append(" Wei");
    r
}

/// What serde_json writes for a list of balances printed with indentation,
/// each one an object with the fields `account` and `balance`.
pub uninterp spec fn pretty_balances_json(entries: Seq<(Seq<char>, Seq<char>)>) -> Seq<char>;

/// Relies on serde_json::to_string_pretty: the indented JSON text of a list
/// of objects with string values depends on those values alone. Objects with
/// string keys always serialize, so the error arm is never taken.
#[verifier::external_body]
fn pretty_balances(entries: &Vec<AccountBalance>) -> (r: String)
    ensures
        r@ == pretty_balances_json(balances_view(entries@)),
{
    let list: Vec<std::collections::BTreeMap<&str, &str>> = entries
        .iter()
        .map(|e| std::collections::BTreeMap::from([("account", e.account.as_str()), ("balance", e.balance.as_str())]))
        .collect();
    serde_json::to_string_pretty(&list).unwrap_or_default()
}

/// The reply to a batched lookup: the balances as indented JSON in a fenced
/// block.
pub open spec fn batch_balance_text(entries: Seq<(Seq<char>, Seq<char>)>) -> Seq<char> {
    fenced(pretty_balances_json(entries))
}

/// Formats the reply to a batched lookup.
pub fn batch_balance_reply(entries: &Vec<AccountBalance>) -> (r: String)
    ensures
        r@ == batch_balance_text(balances_view(entries@)),
{
    let json = pretty_balances(entries);
    fence_json(json.as_str())
}

/// The JSON text read back out of a batched-balance reply is exactly the
/// serialized list of the balances that the reply was made from.
pub proof fn lemma_batch_reply_reads_back(entries: Seq<(Seq<char>, Seq<char>)>)
    ensures
        unfenced(batch_balance_text(entries)) == Some(pretty_balances_json(entries)),
{
    lemma_fenced_reads_back(pretty_balances_json(entries));
}

} // verus!
