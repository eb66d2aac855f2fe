use contract_adapter::context::{
    first_violation, try_customize, violation, CustomizeDeps, CustomizeDepsMut, CustomizeMsg, CustomizeResponse,
    Deps, DepsMut, QuerierWrapper, Violation,
};
use cosmwasm_std::{
    coins, Attribute, BankMsg, Binary, CosmosMsg, DistributionMsg, Empty, Event, GovMsg, IbcMsg,
    ReplyOn, Response, StakingMsg, SubMsg, VoteOption, WasmMsg,
};

#[derive(Clone, Debug, PartialEq)]
struct ChainMsg {
    tag: u8,
}

#[derive(Clone, Debug, PartialEq)]
struct OtherChainMsg {
    name: String,
}

struct ChainQuery;

fn send(amount: u128) -> CosmosMsg<Empty> {
    CosmosMsg::Bank(BankMsg::Send { to_address: "receiver".to_string(), amount: coins(amount, "atom") })
}

fn vote() -> CosmosMsg<Empty> {
    CosmosMsg::Gov(GovMsg::Vote { proposal_id: 4, vote: VoteOption::Yes })
}

fn structural_messages() -> Vec<CosmosMsg<Empty>> {
    vec![
        send(10),
        CosmosMsg::Wasm(WasmMsg::Execute {
            contract_addr: "contract".to_string(),
            msg: Binary::from(b"{}".to_vec()),
            funds: vec![],
        }),
        CosmosMsg::Staking(StakingMsg::Delegate {
            validator: "validator".to_string(),
            amount: coins(5, "atom").remove(0),
        }),
        CosmosMsg::Distribution(DistributionMsg::SetWithdrawAddress { address: "owner".to_string() }),
        CosmosMsg::Ibc(IbcMsg::CloseChannel { channel_id: "channel-3".to_string() }),
        CosmosMsg::Stargate { type_url: "/some.Msg".to_string(), value: Binary::from(vec![1u8, 2, 3]) },
    ]
}

#[test]
fn customize_keeps_id_reply_policy_and_gas_ceiling() {
    let sub = SubMsg { id: 7, msg: send(10), gas_limit: Some(100), reply_on: ReplyOn::Always };
    let out: SubMsg<ChainMsg> = CustomizeMsg::customize(sub);
    assert_eq!(out.id, 7);
    assert_eq!(out.gas_limit, Some(100));
    assert_eq!(out.reply_on, ReplyOn::Always);
    assert_eq!(
        out.msg,
        CosmosMsg::Bank(BankMsg::Send { to_address: "receiver".to_string(), amount: coins(10, "atom") })
    );
}

#[test]
fn customize_keeps_every_reply_policy() {
    for policy in [ReplyOn::Always, ReplyOn::Error, ReplyOn::Success, ReplyOn::Never] {
        let sub = SubMsg { id: 1, msg: send(1), gas_limit: None, reply_on: policy.clone() };
        let out: SubMsg<ChainMsg> = CustomizeMsg::customize(sub);
        assert_eq!(out.reply_on, policy);
        assert_eq!(out.gas_limit, None);
        assert_eq!(out.id, 1);
    }
}

#[test]
fn customize_copies_every_structural_variant() {
    for msg in structural_messages() {
        assert_eq!(violation(&msg), None);
        let sub = SubMsg { id: 0, msg: msg.clone(), gas_limit: None, reply_on: ReplyOn::Never };
        let out: SubMsg<ChainMsg> = CustomizeMsg::customize(sub);
        let expected: CosmosMsg<ChainMsg> = match msg {
            CosmosMsg::Bank(m) => CosmosMsg::Bank(m),
            CosmosMsg::Wasm(m) => CosmosMsg::Wasm(m),
            CosmosMsg::Staking(m) => CosmosMsg::Staking(m),
            CosmosMsg::Distribution(m) => CosmosMsg::Distribution(m),
            CosmosMsg::Ibc(m) => CosmosMsg::Ibc(m),
            CosmosMsg::Stargate { type_url, value } => CosmosMsg::Stargate { type_url, value },
            _ => unreachable!(),
        };
        assert_eq!(out.msg, expected);
    }
}

#[test]
fn customize_response_keeps_events_attributes_and_data() {
    let resp: Response<Empty> = Response::new()
        .add_submessage(SubMsg { id: 3, msg: send(1), gas_limit: Some(9), reply_on: ReplyOn::Error })
        .add_submessage(SubMsg { id: 4, msg: send(2), gas_limit: None, reply_on: ReplyOn::Success })
        .add_event(Event::new("transfer").add_attribute("to", "receiver"))
        .add_attribute("action", "pay")
        .add_attribute("count", "2")
        .set_data(Binary::from(vec![9u8, 8, 7]));
    let out: Response<ChainMsg> = CustomizeResponse::customize(resp.clone());
    assert_eq!(out.events, resp.events);
    assert_eq!(out.attributes, resp.attributes);
    assert_eq!(out.attributes, vec![Attribute::new("action", "pay"), Attribute::new("count", "2")]);
    assert_eq!(out.data, Some(Binary::from(vec![9u8, 8, 7])));
    assert_eq!(out.messages.len(), 2);
    assert_eq!(
        out.messages[0],
        SubMsg { id: 3, msg: CosmosMsg::Bank(BankMsg::Send { to_address: "receiver".to_string(), amount: coins(1, "atom") }), gas_limit: Some(9), reply_on: ReplyOn::Error }
    );
    assert_eq!(
        out.messages[1],
        SubMsg { id: 4, msg: CosmosMsg::Bank(BankMsg::Send { to_address: "receiver".to_string(), amount: coins(2, "atom") }), gas_limit: None, reply_on: ReplyOn::Success }
    );
}

#[test]
fn customize_response_without_messages_or_data() {
    let resp: Response<Empty> = Response::new();
    let out: Response<OtherChainMsg> = CustomizeResponse::customize(resp);
    assert_eq!(out, Response::<OtherChainMsg>::new());
    assert!(out.messages.is_empty());
    assert_eq!(out.data, None);
}

#[test]
fn customize_response_keeps_message_order() {
    let mut resp: Response<Empty> = Response::new();
    for id in 0..5u64 {
        resp = resp.add_submessage(SubMsg {
            id,
            msg: send(u128::from(id)),
            gas_limit: Some(id * 10),
            reply_on: ReplyOn::Never,
        });
    }
    let out: Response<OtherChainMsg> = CustomizeResponse::customize(resp);
    let ids: Vec<u64> = out.messages.iter().map(|m| m.id).collect();
    assert_eq!(ids, vec![0, 1, 2, 3, 4]);
    let ceilings: Vec<Option<u64>> = out.messages.iter().map(|m| m.gas_limit).collect();
    assert_eq!(ceilings, vec![Some(0), Some(10), Some(20), Some(30), Some(40)]);
}

#[test]
fn unknown_variant_is_reported_not_dropped() {
    assert_eq!(violation(&vote()), Some(Violation::UnknownVariant));
    let resp: Response<Empty> = Response::new()
        .add_submessage(SubMsg { id: 1, msg: send(1), gas_limit: None, reply_on: ReplyOn::Never })
        .add_submessage(SubMsg { id: 2, msg: vote(), gas_limit: None, reply_on: ReplyOn::Never });
    let found = first_violation(&resp);
    assert_eq!(found, Some(Violation::UnknownVariant));
    assert_eq!(found.unwrap().message(), "unknown message variant");
}

#[test]
fn custom_payload_under_baseline_is_reported() {
    let msg: CosmosMsg<Empty> = CosmosMsg::Custom(Empty {});
    assert_eq!(violation(&msg), Some(Violation::CustomUnderBaseline));
    let resp: Response<Empty> = Response::new()
        .add_submessage(SubMsg { id: 1, msg, gas_limit: None, reply_on: ReplyOn::Never })
        .add_submessage(SubMsg { id: 2, msg: vote(), gas_limit: None, reply_on: ReplyOn::Never });
    assert_eq!(first_violation(&resp), Some(Violation::CustomUnderBaseline));
    assert_eq!(Violation::CustomUnderBaseline.message(), "custom message under the baseline type");
}

#[test]
fn response_of_structural_messages_has_no_violation() {
    let mut resp: Response<Empty> = Response::new();
    for msg in structural_messages() {
        resp = resp.add_message(msg);
    }
    assert_eq!(first_violation(&resp), None);
    assert_eq!(first_violation(&Response::<Empty>::new()), None);
}

#[test]
fn narrowing_a_mutable_context_keeps_the_handles() {
    let mut storage: u64 = 41;
    let api = String::from("api");
    let dispatcher: u8 = 3;
    let wide: DepsMut<'_, u64, String, u8, ChainQuery> =
        DepsMut { storage: &mut storage, api: &api, querier: QuerierWrapper::new(&dispatcher) };
    let narrow: DepsMut<'_, u64, String, u8, Empty> = CustomizeDepsMut::customize(wide);
    assert_eq!(*narrow.storage, 41);
    assert!(std::ptr::eq(narrow.api, &api));
    assert!(std::ptr::eq(narrow.querier.querier(), &dispatcher));
    *narrow.storage += 1;
    assert_eq!(storage, 42);
}

#[test]
fn narrowing_a_context_keeps_the_handles() {
    let storage: u64 = 5;
    let api = String::from("api");
    let dispatcher: u8 = 3;
    let wide: Deps<'_, u64, String, u8, ChainQuery> =
        Deps { storage: &storage, api: &api, querier: QuerierWrapper::new(&dispatcher) };
    let narrow: Deps<'_, u64, String, u8, Empty> = CustomizeDeps::customize(wide);
    assert!(std::ptr::eq(narrow.storage, &storage));
    assert!(std::ptr::eq(narrow.api, &api));
    assert!(std::ptr::eq(narrow.querier.querier(), &dispatcher));
}

#[test]
fn try_customize_widens_or_reports() {
    let good: Response<Empty> = Response::new()
        .add_submessage(SubMsg { id: 5, msg: send(3), gas_limit: Some(7), reply_on: ReplyOn::Always })
        .add_attribute("action", "pay");
    let out: Result<Response<ChainMsg>, Violation> = try_customize(good.clone());
    let out = out.unwrap();
    assert_eq!(out.attributes, good.attributes);
    assert_eq!(out.messages.len(), 1);
    assert_eq!(out.messages[0].id, 5);
    assert_eq!(out.messages[0].gas_limit, Some(7));
    assert_eq!(out.messages[0].reply_on, ReplyOn::Always);

    let bad: Response<Empty> = Response::new()
        .add_submessage(SubMsg { id: 1, msg: send(1), gas_limit: None, reply_on: ReplyOn::Never })
        .add_submessage(SubMsg { id: 2, msg: vote(), gas_limit: None, reply_on: ReplyOn::Never });
    let out: Result<Response<ChainMsg>, Violation> = try_customize(bad);
    let found = out.unwrap_err();
    assert_eq!(found, Violation::UnknownVariant);
    assert!(found.message().contains("unknown message variant"));

    let custom: Response<Empty> = Response::new().add_message(CosmosMsg::Custom(Empty {}));
    let out: Result<Response<OtherChainMsg>, Violation> = try_customize(custom);
    assert_eq!(out.unwrap_err(), Violation::CustomUnderBaseline);
}
