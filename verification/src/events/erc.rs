//! The catalog that every block worker starts from: the events of the ERC-20,
//! 223, 721, 777, 1155, 1400, 2612 and 4626 token standards and the staking
//! events of the Sonic SFC contract.

use vstd::prelude::*;
use vstd::string::*;
use crate::events::event::{EventSchema, ParamView, SchemaParam, SchemaView};
use crate::events::generic::{
    added, DecodedEventExt, DynEventCatalog, EventCatalog, GetEventBySigErr, LogDecodeErr,
};
use crate::events::mapped::EventMapCatalog;
use crate::extracted::RawLog;

verus! {

/// A parameter of a standard event.
pub open spec fn param(ty: &str, name: &str, indexed: bool) -> ParamView {
    ParamView { ty: ty@, name: name@, indexed }
}

/// A standard event: never anonymous.
pub open spec fn schema(name: &str, inputs: Seq<ParamView>) -> SchemaView {
    SchemaView { name: name@, inputs, anonymous: false }
}

/// Builds a standard event from its name and parameters.
fn standard_event(name: &str, inputs: Vec<SchemaParam>) -> (out: EventSchema)
    ensures
        out@ == schema(name, Seq::new(inputs@.len(), |i: int| inputs@[i]@)),
{
    EventSchema { name: String::from_str(name), inputs, anonymous: false }
}

/// ERC-20: `Transfer(address indexed from, address indexed to, uint256 value)`.
pub open spec fn erc20_transfer() -> SchemaView {
    schema(
        "Transfer",
        seq![
            param("address", "from", true),
            param("address", "to", true),
            param("uint256", "value", false),
        ],
    )
}

/// ERC-20: `Approval(address indexed owner, address indexed spender, uint256 value)`.
pub open spec fn erc20_approval() -> SchemaView {
    schema(
        "Approval",
        seq![
            param("address", "owner", true),
            param("address", "spender", true),
            param("uint256", "value", false),
        ],
    )
}

/// ERC-223: `Transfer(address indexed from, address indexed to, uint256 value, bytes data)`.
pub open spec fn erc223_transfer() -> SchemaView {
    schema(
        "Transfer",
        seq![
            param("address", "from", true),
            param("address", "to", true),
            param("uint256", "value", false),
            param("bytes", "data", false),
        ],
    )
}

/// ERC-721: `Transfer(address indexed from, address indexed to, uint256 indexed tokenId)`.
pub open spec fn erc721_transfer() -> SchemaView {
    schema(
        "Transfer",
        seq![
            param("address", "from", true),
            param("address", "to", true),
            param("uint256", "tokenId", true),
        ],
    )
}

/// ERC-721: `Approval(address indexed owner, address indexed approved, uint256 indexed tokenId)`.
pub open spec fn erc721_approval() -> SchemaView {
    schema(
        "Approval",
        seq![
            param("address", "owner", true),
            param("address", "approved", true),
            param("uint256", "tokenId", true),
        ],
    )
}

/// ERC-721: `ApprovalForAll(address indexed owner, address indexed operator, bool approved)`.
pub open spec fn erc721_approval_for_all() -> SchemaView {
    schema(
        "ApprovalForAll",
        seq![
            param("address", "owner", true),
            param("address", "operator", true),
            param("bool", "approved", false),
        ],
    )
}

/// ERC-777: `Sent(address indexed operator, address indexed from, address indexed to, uint256 amount, bytes data, bytes operatorData)`.
pub open spec fn erc777_sent() -> SchemaView {
    schema(
        "Sent",
        seq![
            param("address", "operator", true),
            param("address", "from", true),
            param("address", "to", true),
            param("uint256", "amount", false),
            param("bytes", "data", false),
            param("bytes", "operatorData", false),
        ],
    )
}

/// ERC-777: `Minted(address indexed operator, address indexed to, uint256 amount, bytes data, bytes operatorData)`.
pub open spec fn erc777_minted() -> SchemaView {
    schema(
        "Minted",
        seq![
            param("address", "operator", true),
            param("address", "to", true),
            param("uint256", "amount", false),
            param("bytes", "data", false),
            param("bytes", "operatorData", false),
        ],
    )
}

/// ERC-777: `Burned(address indexed operator, address indexed from, uint256 amount, bytes data, bytes operatorData)`.
pub open spec fn erc777_burned() -> SchemaView {
    schema(
        "Burned",
        seq![
            param("address", "operator", true),
            param("address", "from", true),
            param("uint256", "amount", false),
            param("bytes", "data", false),
            param("bytes", "operatorData", false),
        ],
    )
}

/// ERC-777: `AuthorizedOperator(address indexed operator, address indexed tokenHolder)`.
pub open spec fn erc777_authorized_operator() -> SchemaView {
    schema(
        "AuthorizedOperator",
        seq![
            param("address", "operator", true),
            param("address", "tokenHolder", true),
        ],
    )
}

/// ERC-777: `RevokedOperator(address indexed operator, address indexed tokenHolder)`.
pub open spec fn erc777_revoked_operator() -> SchemaView {
    schema(
        "RevokedOperator",
        seq![
            param("address", "operator", true),
            param("address", "tokenHolder", true),
        ],
    )
}

/// ERC-1155: `TransferSingle(address indexed operator, address indexed from, address indexed to, uint256 id, uint256 value)`.
pub open spec fn erc1155_transfer_single() -> SchemaView {
    schema(
        "TransferSingle",
        seq![
            param("address", "operator", true),
            param("address", "from", true),
            param("address", "to", true),
            param("uint256", "id", false),
            param("uint256", "value", false),
        ],
    )
}

/// ERC-1155: `TransferBatch(address indexed operator, address indexed from, address indexed to, uint256[] ids, uint256[] values)`.
pub open spec fn erc1155_transfer_batch() -> SchemaView {
    schema(
        "TransferBatch",
        seq![
            param("address", "operator", true),
            param("address", "from", true),
            param("address", "to", true),
            param("uint256[]", "ids", false),
            param("uint256[]", "values", false),
        ],
    )
}

/// ERC-1155: `ApprovalForAll(address indexed account, address indexed operator, bool approved)`.
pub open spec fn erc1155_approval_for_all() -> SchemaView {
    schema(
        "ApprovalForAll",
        seq![
            param("address", "account", true),
            param("address", "operator", true),
            param("bool", "approved", false),
        ],
    )
}

/// ERC-1155: `URI(string value, uint256 indexed id)`.
pub open spec fn erc1155_uri() -> SchemaView {
    schema(
        "URI",
        seq![
            param("string", "value", false),
            param("uint256", "id", true),
        ],
    )
}

/// ERC-1400: `TransferWithData(address indexed from, address indexed to, uint256 value, bytes data)`.
pub open spec fn erc1400_transfer_with_data() -> SchemaView {
    schema(
        "TransferWithData",
        seq![
            param("address", "from", true),
            param("address", "to", true),
            param("uint256", "value", false),
            param("bytes", "data", false),
        ],
    )
}

/// ERC-1400: `TransferByPartition(bytes32 indexed partition, address indexed from, address indexed to, uint256 value, bytes data, bytes operatorData)`.
pub open spec fn erc1400_transfer_by_partition() -> SchemaView {
    schema(
        "TransferByPartition",
        seq![
            param("bytes32", "partition", true),
            param("address", "from", true),
            param("address", "to", true),
            param("uint256", "value", false),
            param("bytes", "data", false),
            param("bytes", "operatorData", false),
        ],
    )
}

/// ERC-1400: `AuthorizedOperator(address indexed operator, address indexed tokenHolder)`.
pub open spec fn erc1400_authorized_operator() -> SchemaView {
    schema(
        "AuthorizedOperator",
        seq![
            param("address", "operator", true),
            param("address", "tokenHolder", true),
        ],
    )
}

/// ERC-1400: `RevokedOperator(address indexed operator, address indexed tokenHolder)`.
pub open spec fn erc1400_revoked_operator() -> SchemaView {
    schema(
        "RevokedOperator",
        seq![
            param("address", "operator", true),
            param("address", "tokenHolder", true),
        ],
    )
}

/// ERC-2612: `Approval(address indexed owner, address indexed spender, uint256 value)`.
pub open spec fn erc2612_approval() -> SchemaView {
    schema(
        "Approval",
        seq![
            param("address", "owner", true),
            param("address", "spender", true),
            param("uint256", "value", false),
        ],
    )
}

/// ERC-4626: `Deposit(address indexed sender, address indexed owner, uint256 assets, uint256 shares)`.
pub open spec fn erc4626_deposit() -> SchemaView {
    schema(
        "Deposit",
        seq![
            param("address", "sender", true),
            param("address", "owner", true),
            param("uint256", "assets", false),
            param("uint256", "shares", false),
        ],
    )
}

/// ERC-4626: `Withdraw(address indexed sender, address indexed receiver, address indexed owner, uint256 assets, uint256 shares)`.
pub open spec fn erc4626_withdraw() -> SchemaView {
    schema(
        "Withdraw",
        seq![
            param("address", "sender", true),
            param("address", "receiver", true),
            param("address", "owner", true),
            param("uint256", "assets", false),
            param("uint256", "shares", false),
        ],
    )
}

/// SFC: `CreatedValidator(uint256 indexed validatorID, address indexed administrator, uint256 createdEpoch, uint256 createdTime)`.
pub open spec fn sfc_created_validator() -> SchemaView {
    schema(
        "CreatedValidator",
        seq![
            param("uint256", "validatorID", true),
            param("address", "administrator", true),
            param("uint256", "createdEpoch", false),
            param("uint256", "createdTime", false),
        ],
    )
}

/// SFC: `DeactivatedValidator(uint256 indexed validatorID, uint256 deactivatedEpoch, uint256 deactivatedTime)`.
pub open spec fn sfc_deactivated_validator() -> SchemaView {
    schema(
        "DeactivatedValidator",
        seq![
            param("uint256", "validatorID", true),
            param("uint256", "deactivatedEpoch", false),
            param("uint256", "deactivatedTime", false),
        ],
    )
}

/// SFC: `Delegated(address indexed delegator, uint256 indexed toValidatorID, uint256 amount)`.
pub open spec fn sfc_delegated() -> SchemaView {
    schema(
        "Delegated",
        seq![
            param("address", "delegator", true),
            param("uint256", "toValidatorID", true),
            param("uint256", "amount", false),
        ],
    )
}

/// SFC: `Undelegated(address indexed delegator, uint256 indexed toValidatorID, uint256 indexed requestID, uint256 amount)`.
pub open spec fn sfc_undelegated() -> SchemaView {
    schema(
        "Undelegated",
        seq![
            param("address", "delegator", true),
            param("uint256", "toValidatorID", true),
            param("uint256", "requestID", true),
            param("uint256", "amount", false),
        ],
    )
}

/// SFC: `Withdrawn(address indexed delegator, uint256 indexed toValidatorID, uint256 indexed requestID, uint256 amount, uint256 penalty)`.
pub open spec fn sfc_withdrawn() -> SchemaView {
    schema(
        "Withdrawn",
        seq![
            param("address", "delegator", true),
            param("uint256", "toValidatorID", true),
            param("uint256", "requestID", true),
            param("uint256", "amount", false),
            param("uint256", "penalty", false),
        ],
    )
}

/// SFC: `ClaimedRewards(address indexed delegator, uint256 indexed toValidatorID, uint256 rewards)`.
pub open spec fn sfc_claimed_rewards() -> SchemaView {
    schema(
        "ClaimedRewards",
        seq![
            param("address", "delegator", true),
            param("uint256", "toValidatorID", true),
            param("uint256", "rewards", false),
        ],
    )
}

/// SFC: `RestakedRewards(address indexed delegator, uint256 indexed toValidatorID, uint256 rewards)`.
pub open spec fn sfc_restaked_rewards() -> SchemaView {
    schema(
        "RestakedRewards",
        seq![
            param("address", "delegator", true),
            param("uint256", "toValidatorID", true),
            param("uint256", "rewards", false),
        ],
    )
}

/// How many events the default catalog is seeded with.
pub const DEFAULT_EVENT_COUNT: usize = 29;

/// The events that the default catalog is seeded with, in the order in which
/// they are added. Some standards share an event: adding it again changes
/// nothing.
pub open spec fn default_schemas() -> Seq<SchemaView> {
    seq![
        erc20_transfer(),
        erc20_approval(),
        erc223_transfer(),
        erc721_transfer(),
        erc721_approval(),
        erc721_approval_for_all(),
        erc777_sent(),
        erc777_minted(),
        erc777_burned(),
        erc777_authorized_operator(),
        erc777_revoked_operator(),
        erc1155_transfer_single(),
        erc1155_transfer_batch(),
        erc1155_approval_for_all(),
        erc1155_uri(),
        erc1400_transfer_with_data(),
        erc1400_transfer_by_partition(),
        erc1400_authorized_operator(),
        erc1400_revoked_operator(),
        erc2612_approval(),
        erc4626_deposit(),
        erc4626_withdraw(),
        sfc_created_validator(),
        sfc_deactivated_validator(),
        sfc_delegated(),
        sfc_undelegated(),
        sfc_withdrawn(),
        sfc_claimed_rewards(),
        sfc_restaked_rewards(),
    ]
}

/// The events of a catalog that the schemas were added to, one after the
/// other, starting from an empty one.
pub open spec fn catalog_of(schemas: Seq<SchemaView>) -> Map<(Seq<u8>, u8), SchemaView>
    decreases schemas.len(),
{
    if schemas.len() == 0 {
        Map::empty()
    } else {
        added(catalog_of(schemas.drop_last()), schemas.last())
    }
}

/// The event at a position of the default list.
fn default_schema(position: usize) -> (out: EventSchema)
    requires
        position < DEFAULT_EVENT_COUNT,
    ensures
        out@ == default_schemas()[position as int],
{
    let out = match position {
        0 => standard_event(
            "Transfer",
            vec![
                SchemaParam::new("address", "from", true),
                SchemaParam::new("address", "to", true),
                SchemaParam::new("uint256", "value", false),
            ],
        ),
        1 => standard_event(
            "Approval",
            vec![
                SchemaParam::new("address", "owner", true),
                SchemaParam::new("address", "spender", true),
                SchemaParam::new("uint256", "value", false),
            ],
        ),
        2 => standard_event(
            "Transfer",
            vec![
                SchemaParam::new("address", "from", true),
                SchemaParam::new("address", "to", true),
                SchemaParam::new("uint256", "value", false),
                SchemaParam::new("bytes", "data", false),
            ],
        ),
        3 => standard_event(
            "Transfer",
            vec![
                SchemaParam::new("address", "from", true),
                SchemaParam::new("address", "to", true),
                SchemaParam::new("uint256", "tokenId", true),
            ],
        ),
        4 => standard_event(
            "Approval",
            vec![
                SchemaParam::new("address", "owner", true),
                SchemaParam::new("address", "approved", true),
                SchemaParam::new("uint256", "tokenId", true),
            ],
        ),
        5 => standard_event(
            "ApprovalForAll",
            vec![
                SchemaParam::new("address", "owner", true),
                SchemaParam::new("address", "operator", true),
                SchemaParam::new("bool", "approved", false),
            ],
        ),
        6 => standard_event(
            "Sent",
            vec![
                SchemaParam::new("address", "operator", true),
                SchemaParam::new("address", "from", true),
                SchemaParam::new("address", "to", true),
                SchemaParam::new("uint256", "amount", false),
                SchemaParam::new("bytes", "data", false),
                SchemaParam::new("bytes", "operatorData", false),
            ],
        ),
        7 => standard_event(
            "Minted",
            vec![
                SchemaParam::new("address", "operator", true),
                SchemaParam::new("address", "to", true),
                SchemaParam::new("uint256", "amount", false),
                SchemaParam::new("bytes", "data", false),
                SchemaParam::new("bytes", "operatorData", false),
            ],
        ),
        8 => standard_event(
            "Burned",
            vec![
                SchemaParam::new("address", "operator", true),
                SchemaParam::new("address", "from", true),
                SchemaParam::new("uint256", "amount", false),
                SchemaParam::new("bytes", "data", false),
                SchemaParam::new("bytes", "operatorData", false),
            ],
        ),
        9 => standard_event(
            "AuthorizedOperator",
            vec![
                SchemaParam::new("address", "operator", true),
                SchemaParam::new("address", "tokenHolder", true),
            ],
        ),
        10 => standard_event(
            "RevokedOperator",
            vec![
                SchemaParam::new("address", "operator", true),
                SchemaParam::new("address", "tokenHolder", true),
            ],
        ),
        11 => standard_event(
            "TransferSingle",
            vec![
                SchemaParam::new("address", "operator", true),
                SchemaParam::new("address", "from", true),
                SchemaParam::new("address", "to", true),
                SchemaParam::new("uint256", "id", false),
                SchemaParam::new("uint256", "value", false),
            ],
        ),
        12 => standard_event(
            "TransferBatch",
            vec![
                SchemaParam::new("address", "operator", true),
                SchemaParam::new("address", "from", true),
                SchemaParam::new("address", "to", true),
                SchemaParam::new("uint256[]", "ids", false),
                SchemaParam::new("uint256[]", "values", false),
            ],
        ),
        13 => standard_event(
            "ApprovalForAll",
            vec![
                SchemaParam::new("address", "account", true),
                SchemaParam::new("address", "operator", true),
                SchemaParam::new("bool", "approved", false),
            ],
        ),
        14 => standard_event(
            "URI",
            vec![
                SchemaParam::new("string", "value", false),
                SchemaParam::new("uint256", "id", true),
            ],
        ),
        15 => standard_event(
            "TransferWithData",
            vec![
                SchemaParam::new("address", "from", true),
                SchemaParam::new("address", "to", true),
                SchemaParam::new("uint256", "value", false),
                SchemaParam::new("bytes", "data", false),
            ],
        ),
        16 => standard_event(
            "TransferByPartition",
            vec![
                SchemaParam::new("bytes32", "partition", true),
                SchemaParam::new("address", "from", true),
                SchemaParam::new("address", "to", true),
                SchemaParam::new("uint256", "value", false),
                SchemaParam::new("bytes", "data", false),
                SchemaParam::new("bytes", "operatorData", false),
            ],
        ),
        17 => standard_event(
            "AuthorizedOperator",
            vec![
                SchemaParam::new("address", "operator", true),
                SchemaParam::new("address", "tokenHolder", true),
            ],
        ),
        18 => standard_event(
            "RevokedOperator",
            vec![
                SchemaParam::new("address", "operator", true),
                SchemaParam::new("address", "tokenHolder", true),
            ],
        ),
        19 => standard_event(
            "Approval",
            vec![
                SchemaParam::new("address", "owner", true),
                SchemaParam::new("address", "spender", true),
                SchemaParam::new("uint256", "value", false),
            ],
        ),
        20 => standard_event(
            "Deposit",
            vec![
                SchemaParam::new("address", "sender", true),
                SchemaParam::new("address", "owner", true),
                SchemaParam::new("uint256", "assets", false),
                SchemaParam::new("uint256", "shares", false),
            ],
        ),
        21 => standard_event(
            "Withdraw",
            vec![
                SchemaParam::new("address", "sender", true),
                SchemaParam::new("address", "receiver", true),
                SchemaParam::new("address", "owner", true),
                SchemaParam::new("uint256", "assets", false),
                SchemaParam::new("uint256", "shares", false),
            ],
        ),
        22 => standard_event(
            "CreatedValidator",
            vec![
                SchemaParam::new("uint256", "validatorID", true),
                SchemaParam::new("address", "administrator", true),
                SchemaParam::new("uint256", "createdEpoch", false),
                SchemaParam::new("uint256", "createdTime", false),
            ],
        ),
        23 => standard_event(
            "DeactivatedValidator",
            vec![
                SchemaParam::new("uint256", "validatorID", true),
                SchemaParam::new("uint256", "deactivatedEpoch", false),
                SchemaParam::new("uint256", "deactivatedTime", false),
            ],
        ),
        24 => standard_event(
            "Delegated",
            vec![
                SchemaParam::new("address", "delegator", true),
                SchemaParam::new("uint256", "toValidatorID", true),
                SchemaParam::new("uint256", "amount", false),
            ],
        ),
        25 => standard_event(
            "Undelegated",
            vec![
                SchemaParam::new("address", "delegator", true),
                SchemaParam::new("uint256", "toValidatorID", true),
                SchemaParam::new("uint256", "requestID", true),
                SchemaParam::new("uint256", "amount", false),
            ],
        ),
        26 => standard_event(
            "Withdrawn",
            vec![
                SchemaParam::new("address", "delegator", true),
                SchemaParam::new("uint256", "toValidatorID", true),
                SchemaParam::new("uint256", "requestID", true),
                SchemaParam::new("uint256", "amount", false),
                SchemaParam::new("uint256", "penalty", false),
            ],
        ),
        27 => standard_event(
            "ClaimedRewards",
            vec![
                SchemaParam::new("address", "delegator", true),
                SchemaParam::new("uint256", "toValidatorID", true),
                SchemaParam::new("uint256", "rewards", false),
            ],
        ),
        _ => standard_event(
            "RestakedRewards",
            vec![
                SchemaParam::new("address", "delegator", true),
                SchemaParam::new("uint256", "toValidatorID", true),
                SchemaParam::new("uint256", "rewards", false),
            ],
        ),
    };
    assert(out@.inputs =~= default_schemas()[position as int].inputs);
    out
}

/// The catalog of the token standards and of the SFC staking events.
#[derive(Debug)]
pub struct ErcEventCatalog {
    eventmap: EventMapCatalog,
}

impl Default for ErcEventCatalog {
    fn default() -> (out: Self)
        ensures
            out.events() == catalog_of(default_schemas()),
    {
        let mut eventmap = EventMapCatalog::with_capacity(22);
        let mut i: usize = 0;
        while i < DEFAULT_EVENT_COUNT
            invariant
                i <= DEFAULT_EVENT_COUNT,
                default_schemas().len() == DEFAULT_EVENT_COUNT,
                eventmap.events() == catalog_of(default_schemas().take(i as int)),
            decreases DEFAULT_EVENT_COUNT - i,
        {
            let event = default_schema(i);
            proof {
                let next = default_schemas().take(i + 1);
                assert(next.drop_last() =~= default_schemas().take(i as int));
                assert(next.last() == default_schemas()[i as int]);
            }
            let _ = eventmap.add_event(&event);
            i += 1;
        }
        proof {
            assert(default_schemas().take(i as int) =~= default_schemas());
        }
        ErcEventCatalog { eventmap }
    }
}

impl Clone for ErcEventCatalog {
    fn clone(&self) -> (out: Self)
        ensures
            out.events() == self.events(),
    {
        ErcEventCatalog { eventmap: self.eventmap.clone() }
    }
}

impl ErcEventCatalog {
    /// The default catalog.
    pub fn new() -> (out: Self)
        ensures
            out.events() == catalog_of(default_schemas()),
    {
        ErcEventCatalog::default()
    }
}

impl EventCatalog for ErcEventCatalog {
    closed spec fn events(&self) -> Map<(Seq<u8>, u8), SchemaView> {
        self.eventmap.events()
    }

    fn get_event_by_signature_and_ntopics(&self, signature: &[u8; 32], n_topics: u8) -> (out:
        Result<&EventSchema, GetEventBySigErr>) {
        self.eventmap.get_event_by_signature_and_ntopics(signature, n_topics)
    }

    fn attempt_decode_log(&self, log: &RawLog) -> (out: Result<DecodedEventExt, LogDecodeErr>) {
        self.eventmap.attempt_decode_log(log)
    }
}

} // verus!
