use ether_bot::balance::{
    batch_balance_reply, plan_balance, single_balance_reply, AccountBalance, BalanceStep,
    BALANCE_USAGE,
};
use ether_bot::reply::json_of_reply;

fn strings(v: &[&str]) -> Vec<String> {
    v.iter().map(|s| s.to_string()).collect()
}

fn entry(account: &str, balance: &str) -> AccountBalance {
    AccountBalance { account: account.to_string(), balance: balance.to_string() }
}

#[test]
fn no_address_gives_usage_and_no_request() {
    let step = plan_balance(Vec::new());
    assert_eq!(step, BalanceStep::Reply(BALANCE_USAGE.to_string()));
    assert_eq!(BALANCE_USAGE, "Please specify an address: `~balance <address>`");
}

#[test]
fn one_address_gives_single_lookup() {
    let step = plan_balance(strings(&["0xabc"]));
    assert_eq!(step, BalanceStep::FetchOne("0xabc".to_string()));
}

#[test]
fn several_addresses_give_one_batched_lookup_in_order() {
    let step = plan_balance(strings(&["0x3", "0x1", "0x2"]));
    assert_eq!(step, BalanceStep::FetchMany(strings(&["0x3", "0x1", "0x2"])));
    let two = plan_balance(strings(&["0xa", "0xb"]));
    assert_eq!(two, BalanceStep::FetchMany(strings(&["0xa", "0xb"])));
}

#[test]
fn single_reply_is_plain_amount_in_wei() {
    assert_eq!(single_balance_reply("1234567890"), "Balance: 1234567890 Wei");
    assert_eq!(single_balance_reply(""), "Balance:  Wei");
}

#[test]
fn batch_reply_is_fenced_pretty_json() {
    let reply = batch_balance_reply(&vec![entry("0xa", "1")]);
    assert_eq!(
        reply,
        "```json\n[\n  {\n    \"account\": \"0xa\",\n    \"balance\": \"1\"\n  }\n]\n```"
    );
}

#[test]
fn batch_reply_of_no_balances() {
    assert_eq!(batch_balance_reply(&Vec::new()), "```json\n[]\n```");
}

#[test]
fn batch_reply_parses_back_to_same_balances() {
    let entries = vec![
        entry("0xddbd2b932c763ba5b1b7ae3b362eac3e8d40121a", "40891626854930000000000"),
        entry("0x63a9975ba31b0b9626b34300f7f627147df1f526", "332567136222827062478"),
        entry("0x198ef1ec325a96cc354c7266a038be8b5c558f67", "0"),
    ];
    let reply = batch_balance_reply(&entries);
    let json = json_of_reply(&reply).expect("a fenced JSON block");
    let value: serde_json::Value = serde_json::from_str(&json).expect("valid JSON");
    let list = value.as_array().expect("a JSON array");
    assert_eq!(list.len(), entries.len());
    for (item, e) in list.iter().zip(entries.iter()) {
        let obj = item.as_object().expect("a JSON object");
        assert_eq!(obj.len(), 2);
        assert_eq!(obj["account"].as_str(), Some(e.account.as_str()));
        assert_eq!(obj["balance"].as_str(), Some(e.balance.as_str()));
    }
}
