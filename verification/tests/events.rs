use extractor_transformer::events::compare::{compare_events, EventComparison};
use extractor_transformer::events::erc::ErcEventCatalog;
use extractor_transformer::events::event::{EventSchema, SchemaParam};
use extractor_transformer::events::generic::{
    solval_to_serdeval, ArgsToJsonErr, DecodedEventExt, DynEventCatalog, EventCatalog,
    GetEventBySigErr, LogDecodeErr, PopEventErr, SolvalToSerdevalErr,
};
use extractor_transformer::events::json::Json;
use extractor_transformer::events::mapped::{AddOutcome, EventMapCatalog};
use extractor_transformer::events::null::NullEventCatalog;
use extractor_transformer::events::value::{DecodedValues, SolValue};
use extractor_transformer::extracted::RawLog;
use extractor_transformer::word::U256;

const TRANSFER_TOPIC: &str = "ddf252ad1be2c89b69c2b068fc378daa952ba7f163c4a11628f55a4df523b3ef";
const FROM: &str = "d8da6bf26964af9d7eed9e03e53415d37aa96045";
const TO: &str = "52908400098527886e0f7030069857d2e4169ee7";

fn word(hex_digits: &str) -> [u8; 32] {
    let bytes = hex::decode(hex_digits).unwrap();
    let mut out = [0u8; 32];
    out[32 - bytes.len()..].copy_from_slice(&bytes);
    out
}

fn address(hex_digits: &str) -> [u8; 20] {
    let bytes = hex::decode(hex_digits).unwrap();
    let mut out = [0u8; 20];
    out.copy_from_slice(&bytes);
    out
}

fn schema(name: &str, params: &[(&str, &str, bool)]) -> EventSchema {
    EventSchema {
        name: name.to_string(),
        inputs: params.iter().map(|(ty, n, indexed)| SchemaParam::new(ty, n, *indexed)).collect(),
        anonymous: false,
    }
}

fn erc20_transfer() -> EventSchema {
    schema("Transfer", &[("address", "from", true), ("address", "to", true), ("uint256", "value", false)])
}

fn erc721_transfer() -> EventSchema {
    schema("Transfer", &[("address", "from", true), ("address", "to", true), ("uint256", "tokenId", true)])
}

fn log(topics: Vec<[u8; 32]>, data: Vec<u8>) -> RawLog {
    RawLog {
        address: address(TO),
        topics,
        data,
        block_hash: None,
        block_number: Some(1),
        block_timestamp: None,
        transaction_hash: Some(word("aa")),
        transaction_index: Some(3),
        log_index: Some(7),
        removed: false,
    }
}

fn erc20_log() -> RawLog {
    log(vec![word(TRANSFER_TOPIC), word(FROM), word(TO)], word("0100").to_vec())
}

fn erc721_log() -> RawLog {
    log(vec![word(TRANSFER_TOPIC), word(FROM), word(TO), word("2a")], vec![])
}

#[test]
fn signature_and_selector_of_transfer() {
    let event = erc20_transfer();
    assert_eq!(event.signature(), "Transfer(address,address,uint256)");
    assert_eq!(event.selector(), word(TRANSFER_TOPIC));
    assert_eq!(event.topic_key(), 3);
    assert_eq!(erc721_transfer().selector(), word(TRANSFER_TOPIC));
    assert_eq!(erc721_transfer().topic_key(), 4);
}

#[test]
fn signature_of_an_event_without_parameters() {
    let event = schema("Paused", &[]);
    assert_eq!(event.signature(), "Paused()");
    assert_eq!(event.topic_key(), 1);
    assert_eq!(event.selector(), alloy::primitives::keccak256("Paused()").0);
    let one = schema("Single", &[("bytes32", "x", false)]);
    assert_eq!(one.signature(), "Single(bytes32)");
}

#[test]
fn anonymous_events_have_no_selector_topic() {
    let mut event = erc20_transfer();
    event.anonymous = true;
    assert_eq!(event.topic_key(), 2);
}

#[test]
fn schema_clone_is_equal() {
    let event = erc20_transfer();
    assert_eq!(event.clone(), event);
    assert_eq!(event.inputs[1].clone(), event.inputs[1]);
}

#[test]
fn compare_is_reflexive() {
    for event in [erc20_transfer(), erc721_transfer(), schema("Paused", &[])] {
        assert_eq!(compare_events(&event, &event), EventComparison::ExactlyEqual);
    }
}

#[test]
fn compare_tells_the_four_outcomes_apart() {
    let a = erc20_transfer();
    let renamed = schema("Transfer", &[("address", "src", true), ("address", "dst", true), ("uint256", "wad", false)]);
    assert_eq!(compare_events(&a, &renamed), EventComparison::SameDecoding);
    assert_eq!(compare_events(&a, &erc721_transfer()), EventComparison::MismatchedParamIndexing);
    let other_name = schema("Approval", &[("address", "from", true), ("address", "to", true), ("uint256", "value", false)]);
    assert_eq!(compare_events(&a, &other_name), EventComparison::NoEquivalence);
    let other_arity = schema("Transfer", &[("address", "from", true), ("address", "to", true)]);
    assert_eq!(compare_events(&a, &other_arity), EventComparison::NoEquivalence);
    let other_type = schema("Transfer", &[("address", "from", true), ("address", "to", true), ("uint128", "value", false)]);
    assert_eq!(compare_events(&a, &other_type), EventComparison::NoEquivalence);
}

#[test]
fn compare_reports_the_first_conflict() {
    let a = schema("E", &[("uint256", "a", true), ("uint256", "b", false)]);
    let indexing_then_type = schema("E", &[("uint256", "a", false), ("uint8", "b", false)]);
    assert_eq!(compare_events(&a, &indexing_then_type), EventComparison::MismatchedParamIndexing);
    let type_then_indexing = schema("E", &[("uint8", "a", true), ("uint256", "b", true)]);
    assert_eq!(compare_events(&a, &type_then_indexing), EventComparison::NoEquivalence);
}

#[test]
fn decodes_same_for_equal_and_same_decoding() {
    assert!(EventComparison::ExactlyEqual.decodes_same());
    assert!(EventComparison::SameDecoding.decodes_same());
    assert!(!EventComparison::NoEquivalence.decodes_same());
    assert!(!EventComparison::MismatchedParamIndexing.decodes_same());
}

#[test]
fn catalog_add_get_pop() {
    let mut catalog = EventMapCatalog::new();
    let key = word(TRANSFER_TOPIC);
    assert!(matches!(catalog.get_event_by_signature_and_ntopics(&key, 3), Err(GetEventBySigErr::NotFound)));
    assert!(catalog.add_event(&erc20_transfer()).is_ok());
    assert_eq!(catalog.get_event_by_signature_and_ntopics(&key, 3).unwrap(), &erc20_transfer());
    assert!(matches!(catalog.get_event_by_signature_and_ntopics(&key, 4), Err(GetEventBySigErr::NotFound)));
    assert_eq!(catalog.pop_event(&key, 3).unwrap(), erc20_transfer());
    assert!(matches!(catalog.pop_event(&key, 3), Err(PopEventErr::DoesNotExist)));
    assert!(matches!(catalog.remove_event(&key, 3), Err(PopEventErr::DoesNotExist)));
}

#[test]
fn catalog_add_is_idempotent() {
    let mut catalog = EventMapCatalog::with_capacity(4);
    assert_eq!(catalog.add_event_compared(&erc20_transfer()), AddOutcome::Inserted);
    assert_eq!(
        catalog.add_event_compared(&erc20_transfer()),
        AddOutcome::Kept(EventComparison::ExactlyEqual)
    );
    let key = word(TRANSFER_TOPIC);
    assert_eq!(catalog.pop_event(&key, 3).unwrap(), erc20_transfer());
    assert!(matches!(catalog.get_event_by_signature_and_ntopics(&key, 3), Err(GetEventBySigErr::NotFound)));
}

#[test]
fn catalog_keeps_the_first_of_equivalent_events() {
    let mut catalog = EventMapCatalog::new();
    let renamed = schema("Transfer", &[("address", "src", true), ("address", "dst", true), ("uint256", "wad", false)]);
    catalog.add_event(&erc20_transfer()).unwrap();
    assert_eq!(
        catalog.add_event_compared(&renamed),
        AddOutcome::Kept(EventComparison::SameDecoding)
    );
    assert_eq!(catalog.pop_event(&word(TRANSFER_TOPIC), 3).unwrap(), erc20_transfer());
}

#[test]
fn catalog_keeps_the_first_on_mismatched_indexing() {
    let mut catalog = EventMapCatalog::new();
    let first = schema("E", &[("uint256", "a", true), ("uint256", "b", false)]);
    let second = schema("E", &[("uint256", "a", false), ("uint256", "b", true)]);
    catalog.add_event(&first).unwrap();
    assert_eq!(
        catalog.add_event_compared(&second),
        AddOutcome::Kept(EventComparison::MismatchedParamIndexing)
    );
    assert_eq!(catalog.get_event_by_signature_and_ntopics(&first.selector(), 2).unwrap(), &first);
}

#[test]
fn catalog_remove_event_drops_the_entry() {
    let mut catalog = EventMapCatalog::new();
    catalog.add_event(&erc20_transfer()).unwrap();
    catalog.add_event(&erc721_transfer()).unwrap();
    assert!(catalog.remove_event(&word(TRANSFER_TOPIC), 3).is_ok());
    assert!(catalog.get_event_by_signature_and_ntopics(&word(TRANSFER_TOPIC), 3).is_err());
    assert_eq!(
        catalog.get_event_by_signature_and_ntopics(&word(TRANSFER_TOPIC), 4).unwrap(),
        &erc721_transfer()
    );
}

#[test]
fn null_catalog_knows_nothing() {
    let catalog = NullEventCatalog();
    assert!(matches!(
        catalog.get_event_by_signature_and_ntopics(&word(TRANSFER_TOPIC), 3),
        Err(GetEventBySigErr::NotFound)
    ));
    assert!(matches!(
        catalog.attempt_decode_log(&erc20_log()),
        Err(LogDecodeErr::EventRetrievalErr(GetEventBySigErr::NotFound))
    ));
    assert!(matches!(catalog.attempt_decode_log(&log(vec![], vec![])), Err(LogDecodeErr::LogHasNoTopics)));
}

#[test]
fn new_equals_default() {
    let a = ErcEventCatalog::new();
    let b = ErcEventCatalog::default();
    let key = word(TRANSFER_TOPIC);
    for n in 0..=5u8 {
        let from_new = a.get_event_by_signature_and_ntopics(&key, n).ok();
        let from_default = b.get_event_by_signature_and_ntopics(&key, n).ok();
        assert_eq!(from_new, from_default);
    }
}

#[test]
fn default_catalog_agrees_with_the_abi_parser() {
    let signatures = [
        "Transfer(address indexed from, address indexed to, uint256 value)",
        "Approval(address indexed owner, address indexed spender, uint256 value)",
        "Transfer(address indexed from, address indexed to, uint256 value, bytes data)",
        "Transfer(address indexed from, address indexed to, uint256 indexed tokenId)",
        "Approval(address indexed owner, address indexed approved, uint256 indexed tokenId)",
        "ApprovalForAll(address indexed owner, address indexed operator, bool approved)",
        "Sent(address indexed operator, address indexed from, address indexed to, uint256 amount, bytes data, bytes operatorData)",
        "Minted(address indexed operator, address indexed to, uint256 amount, bytes data, bytes operatorData)",
        "Burned(address indexed operator, address indexed from, uint256 amount, bytes data, bytes operatorData)",
        "AuthorizedOperator(address indexed operator, address indexed tokenHolder)",
        "RevokedOperator(address indexed operator, address indexed tokenHolder)",
        "TransferSingle(address indexed operator, address indexed from, address indexed to, uint256 id, uint256 value)",
        "TransferBatch(address indexed operator, address indexed from, address indexed to, uint256[] ids, uint256[] values)",
        "ApprovalForAll(address indexed account, address indexed operator, bool approved)",
        "URI(string value, uint256 indexed id)",
        "TransferWithData(address indexed from, address indexed to, uint256 value, bytes data)",
        "TransferByPartition(bytes32 indexed partition, address indexed from, address indexed to, uint256 value, bytes data, bytes operatorData)",
        "Deposit(address indexed sender, address indexed owner, uint256 assets, uint256 shares)",
        "Withdraw(address indexed sender, address indexed receiver, address indexed owner, uint256 assets, uint256 shares)",
        "event CreatedValidator(uint256 indexed validatorID,address indexed administrator,uint256 createdEpoch,uint256 createdTime)",
        "event DeactivatedValidator(uint256 indexed validatorID, uint256 deactivatedEpoch, uint256 deactivatedTime)",
        "event Delegated(address indexed delegator, uint256 indexed toValidatorID, uint256 amount)",
        "event Undelegated(address indexed delegator, uint256 indexed toValidatorID, uint256 indexed requestID, uint256 amount)",
        "event Withdrawn(address indexed delegator, uint256 indexed toValidatorID, uint256 indexed requestID, uint256 amount, uint256 penalty)",
        "event ClaimedRewards(address indexed delegator, uint256 indexed toValidatorID, uint256 rewards)",
        "event RestakedRewards(address indexed delegator, uint256 indexed toValidatorID, uint256 rewards)",
    ];
    let catalog = ErcEventCatalog::default();
    for signature in signatures {
        let parsed = alloy::json_abi::Event::parse(signature).unwrap();
        let found = catalog
            .get_event_by_signature_and_ntopics(&parsed.selector().0, parsed.num_topics() as u8)
            .unwrap();
        assert_eq!(found.name, parsed.name);
        assert_eq!(found.anonymous, parsed.anonymous);
        assert_eq!(found.inputs.len(), parsed.inputs.len());
        for (mine, theirs) in found.inputs.iter().zip(parsed.inputs.iter()) {
            assert_eq!(mine.ty, theirs.ty);
            assert_eq!(mine.indexed, theirs.indexed);
        }
        assert_eq!(found.signature(), parsed.signature());
        assert_eq!(found.selector(), parsed.selector().0);
        assert_eq!(found.topic_key() as usize, parsed.num_topics());
    }
}

#[test]
fn erc20_transfer_decode() {
    let catalog = ErcEventCatalog::default();
    let decoded = catalog.attempt_decode_log(&erc20_log()).unwrap();
    assert_eq!(decoded.event, erc20_transfer());
    assert_eq!(decoded.decoded.indexed.len(), 2);
    assert_eq!(decoded.decoded.body.len(), 1);
    assert!(matches!(&decoded.decoded.indexed[0], SolValue::Address(a) if *a == address(FROM)));
    assert!(matches!(&decoded.decoded.body[0], SolValue::Uint(n, 256) if *n == U256::from_u64(256)));
    let json = decoded.args_to_json().unwrap();
    assert_eq!(
        json.to_text(),
        "[\"0xd8dA6BF26964aF9D7eEd9e03E53415D37aA96045\",\"0x52908400098527886E0F7030069857D2E4169EE7\",\"256\"]"
    );
}

#[test]
fn erc721_transfer_disambiguation() {
    let catalog = ErcEventCatalog::default();
    let decoded = catalog.attempt_decode_log(&erc721_log()).unwrap();
    assert_eq!(decoded.event, erc721_transfer());
    assert!(decoded.event.inputs[2].indexed);
    assert_eq!(decoded.decoded.indexed.len(), 3);
    assert_eq!(decoded.decoded.body.len(), 0);
    assert!(matches!(&decoded.decoded.indexed[2], SolValue::Uint(n, 256) if *n == U256::from_u64(42)));
    assert_eq!(
        decoded.args_to_json().unwrap().to_text(),
        "[\"0xd8dA6BF26964aF9D7eEd9e03E53415D37aA96045\",\"0x52908400098527886E0F7030069857D2E4169EE7\",\"42\"]"
    );
}

#[test]
fn decode_fails_on_a_log_without_topics() {
    let catalog = ErcEventCatalog::default();
    let err = catalog.attempt_decode_log(&log(vec![], vec![])).unwrap_err();
    assert!(matches!(err, LogDecodeErr::LogHasNoTopics));
    assert_eq!(err.message(), "Log has no topics to decode");
}

#[test]
fn decode_fails_on_an_unknown_event() {
    let catalog = ErcEventCatalog::default();
    let err = catalog.attempt_decode_log(&log(vec![word("01")], vec![])).unwrap_err();
    assert!(matches!(err, LogDecodeErr::EventRetrievalErr(GetEventBySigErr::NotFound)));
    assert_eq!(err.message(), "Event not found");
    assert_eq!(GetEventBySigErr::NotFound.message(), "Event not found");
    let five_topics = log(vec![word(TRANSFER_TOPIC), word(FROM), word(TO), word("01"), word("02")], vec![]);
    assert!(matches!(
        catalog.attempt_decode_log(&five_topics),
        Err(LogDecodeErr::EventRetrievalErr(GetEventBySigErr::NotFound))
    ));
}

#[test]
fn decode_fails_on_data_that_does_not_fit() {
    let catalog = ErcEventCatalog::default();
    let short = log(vec![word(TRANSFER_TOPIC), word(FROM), word(TO)], vec![1, 2, 3]);
    let err = catalog.attempt_decode_log(&short).unwrap_err();
    assert!(matches!(err, LogDecodeErr::DecodeErr(_)));
    assert!(!err.message().is_empty());
}

#[test]
fn decode_of_a_dynamic_body() {
    let mut catalog = EventMapCatalog::new();
    let event = schema("Note", &[("uint256", "id", true), ("string", "text", false), ("bool", "flag", false)]);
    catalog.add_event(&event).unwrap();
    let mut data = Vec::new();
    data.extend_from_slice(&word("40"));
    data.extend_from_slice(&word("01"));
    data.extend_from_slice(&word("02"));
    let mut text = [0u8; 32];
    text[0] = b'h';
    text[1] = b'i';
    data.extend_from_slice(&text);
    let raw = log(vec![event.selector(), word("09")], data);
    let decoded = catalog.attempt_decode_log(&raw).unwrap();
    assert!(matches!(&decoded.decoded.body[0], SolValue::Text(s) if s == "hi"));
    assert!(matches!(&decoded.decoded.body[1], SolValue::Bool(true)));
    assert_eq!(decoded.args_to_json().unwrap().to_text(), "[\"9\",\"hi\",true]");
}

#[test]
fn solval_to_json_for_each_kind() {
    let text = |v: &SolValue| solval_to_serdeval(v).unwrap().to_text();
    assert_eq!(text(&SolValue::Address(address(FROM))), "\"0xd8dA6BF26964aF9D7eEd9e03E53415D37aA96045\"");
    assert_eq!(text(&SolValue::Bool(true)), "true");
    assert_eq!(text(&SolValue::Bool(false)), "false");
    assert_eq!(text(&SolValue::Text("a\"b".to_string())), "\"a\\\"b\"");
    assert_eq!(text(&SolValue::Bytes(vec![0, 1, 255])), "[0,1,255]");
    assert_eq!(text(&SolValue::Bytes(vec![])), "[]");
    let mut w = [0u8; 32];
    w[0] = 0xde;
    w[1] = 0xad;
    w[2] = 0x01;
    assert_eq!(text(&SolValue::FixedBytes(w, 2)), "[222,173]");
    assert_eq!(text(&SolValue::FixedBytes(w, 0)), "[]");
    assert_eq!(text(&SolValue::FixedBytes([1u8; 32], 32)).len(), 65);
    assert_eq!(text(&SolValue::Uint(U256::from_u64(1000), 256)), "\"1000\"");
    assert_eq!(
        text(&SolValue::Uint(U256 { limbs: [0, 0, 0, 256] }, 256)),
        "\"1606938044258990275541962092341162602522202993782792835301376\""
    );
    assert_eq!(text(&SolValue::Int(U256::from_u64(5), 256)), "\"5\"");
    assert_eq!(text(&SolValue::Int(U256 { limbs: [u64::MAX; 4] }, 256)), "\"-1\"");
    assert_eq!(
        text(&SolValue::Int(U256 { limbs: [u64::MAX - 41, u64::MAX, u64::MAX, u64::MAX] }, 256)),
        "\"-42\""
    );
    let nested = SolValue::Array(vec![
        SolValue::Tuple(vec![SolValue::Bool(true), SolValue::Uint(U256::from_u64(2), 8)]),
        SolValue::FixedArray(vec![]),
    ]);
    assert_eq!(text(&nested), "[[true,\"2\"],[]]");
}

#[test]
fn solval_to_json_errors() {
    assert!(matches!(solval_to_serdeval(&SolValue::Other), Err(SolvalToSerdevalErr::NotImpl)));
    assert!(matches!(
        solval_to_serdeval(&SolValue::FixedBytes([0u8; 32], 33)),
        Err(SolvalToSerdevalErr::SizeExceeded32(33))
    ));
    let nested = SolValue::Array(vec![
        SolValue::Bool(true),
        SolValue::FixedBytes([0u8; 32], 40),
        SolValue::Other,
    ]);
    assert!(matches!(solval_to_serdeval(&nested), Err(SolvalToSerdevalErr::SizeExceeded32(40))));
}

#[test]
fn args_to_json_keeps_the_order_of_the_parameters() {
    let event = schema(
        "Mixed",
        &[("bool", "a", false), ("uint256", "b", true), ("string", "c", false), ("address", "d", true)],
    );
    let decoded = DecodedEventExt {
        event,
        decoded: DecodedValues {
            indexed: vec![SolValue::Uint(U256::from_u64(1), 256), SolValue::Address(address(FROM))],
            body: vec![SolValue::Bool(false), SolValue::Text("x".to_string())],
        },
    };
    let json = decoded.args_to_json().unwrap();
    assert!(matches!(&json, Json::Array(items) if items.len() == 4));
    assert_eq!(json.to_text(), "[false,\"1\",\"x\",\"0xd8dA6BF26964aF9D7eEd9e03E53415D37aA96045\"]");
}

#[test]
fn args_to_json_reports_a_missing_value() {
    let decoded = DecodedEventExt {
        event: erc20_transfer(),
        decoded: DecodedValues { indexed: vec![SolValue::Address(address(FROM))], body: vec![] },
    };
    assert!(matches!(decoded.args_to_json(), Err(ArgsToJsonErr::MissingValue)));
    let no_body = DecodedEventExt {
        event: erc20_transfer(),
        decoded: DecodedValues {
            indexed: vec![SolValue::Address(address(FROM)), SolValue::Address(address(TO))],
            body: vec![],
        },
    };
    assert!(matches!(no_body.args_to_json(), Err(ArgsToJsonErr::MissingValue)));
}

#[test]
fn args_to_json_reports_a_value_without_json_form() {
    let decoded = DecodedEventExt {
        event: erc20_transfer(),
        decoded: DecodedValues {
            indexed: vec![SolValue::Other, SolValue::Address(address(TO))],
            body: vec![SolValue::Bool(true)],
        },
    };
    assert!(matches!(
        decoded.args_to_json(),
        Err(ArgsToJsonErr::FromSolvalErr(SolvalToSerdevalErr::NotImpl))
    ));
    assert_eq!(
        ArgsToJsonErr::from(SolvalToSerdevalErr::NotImpl),
        ArgsToJsonErr::FromSolvalErr(SolvalToSerdevalErr::NotImpl)
    );
}

#[test]
fn json_text_of_plain_values() {
    assert_eq!(Json::Bool(true).to_text(), "true");
    assert_eq!(Json::Number(7).to_text(), "7");
    assert_eq!(Json::Text("tab\t".to_string()).to_text(), "\"tab\\t\"");
    assert_eq!(Json::Array(vec![Json::Number(1), Json::Array(vec![])]).to_text(), "[1,[]]");
}
