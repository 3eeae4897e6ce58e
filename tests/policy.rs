use metaphy_network::address::{Address, Endpoint, PeerKey};
use metaphy_network::command::NetworkCommand;
use metaphy_network::policy::{plan_dials, DialPolicy};

fn ep(peer: u8, addr: u8) -> Endpoint {
    Endpoint { peer: PeerKey::new(vec![peer]), addr: Address::new(vec![4, addr]) }
}

fn targets(cmds: &[NetworkCommand]) -> Vec<Vec<u8>> {
    cmds.iter().map(|c| match c {
        NetworkCommand::Dial(a) => a.bytes.clone(),
    }).collect()
}

#[test]
fn automatic_dials_each_distinct_pair_once() {
    let found = vec![ep(1, 10), ep(2, 20), ep(1, 10), ep(1, 11), ep(2, 20)];
    let cmds = plan_dials(DialPolicy::Automatic, &found);
    assert_eq!(targets(&cmds), vec![vec![4, 10], vec![4, 20], vec![4, 11]]);
}

#[test]
fn automatic_counts_pairs_not_addresses() {
    let found = vec![ep(1, 10), ep(2, 10)];
    let cmds = plan_dials(DialPolicy::Automatic, &found);
    assert_eq!(targets(&cmds), vec![vec![4, 10], vec![4, 10]]);
}

#[test]
fn automatic_on_empty_report_dials_nothing() {
    assert!(plan_dials(DialPolicy::Automatic, &Vec::new()).is_empty());
}

#[test]
fn manual_dials_nothing() {
    let found = vec![ep(1, 10), ep(2, 20)];
    assert!(plan_dials(DialPolicy::Manual, &found).is_empty());
}
