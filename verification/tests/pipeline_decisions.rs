use vista::error::{DecodeError, IndexerError};
use vista::indexer::Indexer;
use vista::models::{AccountInfo, Address, Signature, TransactionInfo, UpdateEvent};
use vista::parser::AnchorParser;
use vista::hub::{
    account_subscriber_step, transaction_subscriber_step, Received, SubscriberStep,
    DEFAULT_HUB_CAPACITY,
};
use vista::pipeline::{
    complete_update, default_account_type, plan_update, process_account_update, Decision, Outcome,
    StorageRequest,
};
use vista::providers::GeyserRpcProvider;
use vista::registry::RpcProviderRegistry;
use vista::tracking::TrackingSet;
use vista::value::{Member, StructuredValue};

const ACCOUNT_SCHEMA: &str = r#"{"accounts": [{"name": "account", "fields": [
    {"name": "count", "type": "u8"},
    {"name": "flag", "type": "bool"}]}]}"#;

fn address(n: u8) -> Address {
    Address::new_from_array([n; 32])
}

fn snapshot(pubkey: u8, owner: u8, data: Vec<u8>) -> AccountInfo {
    AccountInfo {
        pubkey: address(pubkey),
        lamports: 10,
        owner: address(owner),
        executable: false,
        rent_epoch: 3,
        data,
    }
}

fn transaction(n: u8) -> TransactionInfo {
    TransactionInfo { signature: Signature::new_from_array([n; 64]), status: "confirmed".to_string() }
}

#[test]
fn an_untracked_account_of_an_untracked_owner_is_discarded() {
    let tracking = TrackingSet::new();
    let parser = AnchorParser::new();
    let decision = plan_update(
        &tracking,
        &parser,
        UpdateEvent::AccountUpdate(snapshot(1, 2, vec![0; 10])),
    );
    assert_eq!(decision, Decision::Discard);
}

#[test]
fn a_tracked_owner_without_schema_stores_and_publishes_the_snapshot() {
    let mut tracking = TrackingSet::new();
    tracking.track_program(address(2));
    let parser = AnchorParser::new();
    let account = snapshot(1, 2, vec![0, 0, 0, 0, 0, 0, 0, 0, 5, 1]);
    let decision = plan_update(&tracking, &parser, UpdateEvent::AccountUpdate(account.clone()));
    let request = StorageRequest::Account { account: account.clone(), warning: None };
    assert_eq!(decision, Decision::Store(StorageRequest::Account { account: account.clone(), warning: None }));
    assert_eq!(
        complete_update(request, Ok(())),
        Outcome::Published(UpdateEvent::AccountUpdate(account))
    );
}

#[test]
fn a_tracked_address_of_an_untracked_owner_is_stored_undecoded() {
    let mut tracking = TrackingSet::new();
    tracking.track_account(address(1));
    let mut parser = AnchorParser::new();
    parser.add_idl(&address(2).to_string(), ACCOUNT_SCHEMA).unwrap();
    let account = snapshot(1, 2, vec![0, 0, 0, 0, 0, 0, 0, 0, 5, 1]);
    assert_eq!(
        process_account_update(&tracking, &parser, account.clone()),
        Decision::Store(StorageRequest::Account { account, warning: None })
    );
}

#[test]
fn a_tracked_owner_with_schema_stores_the_decoded_value() {
    let mut tracking = TrackingSet::new();
    tracking.track_program(address(2));
    let mut parser = AnchorParser::new();
    parser.add_idl(&address(2).to_string(), ACCOUNT_SCHEMA).unwrap();
    let account = snapshot(1, 2, vec![9, 9, 9, 9, 9, 9, 9, 9, 5, 1]);
    let decision = process_account_update(&tracking, &parser, account.clone());
    let expected = StorageRequest::ParsedAccount {
        program_id: address(2).to_string(),
        account_type: "account".to_string(),
        data: StructuredValue::Record(vec![
            Member { name: "count".to_string(), value: StructuredValue::Unsigned(5) },
            Member { name: "flag".to_string(), value: StructuredValue::Bool(true) },
        ]),
        account: account.clone(),
    };
    assert_eq!(decision, Decision::Store(expected));
    let request = match decision {
        Decision::Store(request) => request,
        Decision::Discard => panic!("the update was discarded"),
    };
    assert_eq!(
        complete_update(request, Ok(())),
        Outcome::Published(UpdateEvent::AccountUpdate(account))
    );
}

#[test]
fn a_payload_that_does_not_decode_is_stored_as_it_came() {
    let mut tracking = TrackingSet::new();
    tracking.track_program(address(2));
    let mut parser = AnchorParser::new();
    parser.add_idl(&address(2).to_string(), ACCOUNT_SCHEMA).unwrap();
    let account = snapshot(1, 2, vec![9, 9, 9, 9, 9, 9, 9, 9, 5]);
    assert_eq!(
        process_account_update(&tracking, &parser, account.clone()),
        Decision::Store(StorageRequest::Account {
            account: account.clone(),
            warning: Some(DecodeError::Truncated)
        })
    );
    let short = snapshot(1, 2, vec![1, 2, 3]);
    assert_eq!(
        process_account_update(&tracking, &parser, short.clone()),
        Decision::Store(StorageRequest::Account { account: short, warning: Some(DecodeError::Truncated) })
    );
}

#[test]
fn a_schema_without_the_default_account_type_falls_back_to_the_snapshot() {
    let mut tracking = TrackingSet::new();
    tracking.track_program(address(2));
    let mut parser = AnchorParser::new();
    parser
        .add_idl(
            &address(2).to_string(),
            r#"{"accounts": [{"name": "Counter", "fields": [{"name": "count", "type": "u8"}]}]}"#,
        )
        .unwrap();
    assert_eq!(default_account_type(), "account");
    let account = snapshot(1, 2, vec![0; 9]);
    assert_eq!(
        process_account_update(&tracking, &parser, account.clone()),
        Decision::Store(StorageRequest::Account { account, warning: Some(DecodeError::NotFound) })
    );
}

#[test]
fn a_transaction_is_always_stored() {
    let tracking = TrackingSet::new();
    let parser = AnchorParser::new();
    let decision = plan_update(&tracking, &parser, UpdateEvent::TransactionUpdate(transaction(4)));
    assert_eq!(decision, Decision::Store(StorageRequest::Transaction(transaction(4))));
    assert_eq!(
        complete_update(StorageRequest::Transaction(transaction(4)), Ok(())),
        Outcome::Published(UpdateEvent::TransactionUpdate(transaction(4)))
    );
}

#[test]
fn a_storage_failure_drops_the_event_and_nothing_is_published() {
    let failure = IndexerError::StorageError("connection lost".to_string());
    assert_eq!(
        complete_update(StorageRequest::Transaction(transaction(4)), Err(failure.clone())),
        Outcome::Dropped(failure.clone())
    );
    let account = snapshot(1, 2, Vec::new());
    assert_eq!(
        complete_update(StorageRequest::Account { account, warning: None }, Err(failure.clone())),
        Outcome::Dropped(failure)
    );
}

#[test]
fn a_subscriber_sees_the_updates_of_its_address_only() {
    let update = snapshot(1, 2, Vec::new());
    assert_eq!(
        account_subscriber_step(Received::Message(update.clone()), &address(1)),
        SubscriberStep::Deliver(update.clone())
    );
    assert_eq!(
        account_subscriber_step(Received::Message(update), &address(2)),
        SubscriberStep::Skip
    );
}

#[test]
fn a_subscriber_that_lagged_goes_on_and_one_without_hub_stops() {
    assert_eq!(account_subscriber_step(Received::Lagged(17), &address(1)), SubscriberStep::Skip);
    assert_eq!(account_subscriber_step(Received::Closed, &address(1)), SubscriberStep::Stop);
    assert_eq!(
        transaction_subscriber_step(Received::Message(transaction(3))),
        SubscriberStep::Deliver(transaction(3))
    );
    assert_eq!(transaction_subscriber_step(Received::Lagged(1)), SubscriberStep::Skip);
    assert_eq!(transaction_subscriber_step(Received::Closed), SubscriberStep::Stop);
    assert_eq!(DEFAULT_HUB_CAPACITY, 1024);
}

#[test]
fn the_indexer_decides_as_its_parts_do() {
    let registry: RpcProviderRegistry<GeyserRpcProvider> = RpcProviderRegistry::new();
    let mut indexer = Indexer::new(registry);
    assert_eq!(
        indexer.process_update(UpdateEvent::AccountUpdate(snapshot(1, 2, vec![0; 10]))),
        Decision::Discard
    );
    indexer.track_program(address(2));
    indexer.add_program_idl(&address(2).to_string(), ACCOUNT_SCHEMA).unwrap();
    let account = snapshot(1, 2, vec![0, 0, 0, 0, 0, 0, 0, 0, 200, 0]);
    match indexer.process_update(UpdateEvent::AccountUpdate(account.clone())) {
        Decision::Store(StorageRequest::ParsedAccount { program_id, account_type, data, account: stored }) => {
            assert_eq!(program_id, address(2).to_string());
            assert_eq!(account_type, "account");
            assert_eq!(
                data,
                StructuredValue::Record(vec![
                    Member { name: "count".to_string(), value: StructuredValue::Unsigned(200) },
                    Member { name: "flag".to_string(), value: StructuredValue::Bool(false) },
                ])
            );
            assert_eq!(stored, account);
        }
        other => panic!("unexpected decision {:?}", other),
    }
    assert!(indexer.untrack_program(&address(2)));
    assert_eq!(indexer.process_update(UpdateEvent::AccountUpdate(account)), Decision::Discard);
}
