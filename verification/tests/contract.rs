use contract_adapter::context::{Deps, DepsMut, QuerierWrapper};
use contract_adapter::contract_wrapper::ContractWrapper;
use contract_adapter::casting::{
    cast_fn, cast_msg, cast_permissioned_fn, cast_permissioned_msg, cast_permissioned_query,
    cast_query, cast_read_query, cast_reply_fn, cast_reply_msg, cast_reply_query,
};
use contract_adapter::entry_points::{
    default_migrate_fn, default_reply_fn, default_sudo_fn, dispatch_contract,
    dispatch_permissioned, dispatch_query, wap, ContractFn, Decodable, DefaultMigrate,
    DefaultReply, DefaultSudo, PermissionedFn, QueryFn, ReplyFn, WrappableFn,
};
use contract_adapter::error::{EntryPoint, Error};
use cosmwasm_std::testing::{mock_env, mock_info};
use cosmwasm_std::{
    coins, Attribute, BankMsg, Binary, CosmosMsg, Empty, Env, MessageInfo, Reply, ReplyOn,
    Response, StdError, SubMsg, SubMsgResponse, SubMsgResult,
};
use std::collections::BTreeMap;

#[derive(Debug, PartialEq)]
enum ExecMsg {
    Increment { by: u64 },
}

impl<'de> serde::Deserialize<'de> for ExecMsg {
    fn deserialize<D: serde::Deserializer<'de>>(d: D) -> Result<Self, D::Error> {
        let outer = BTreeMap::<String, BTreeMap<String, u64>>::deserialize(d)?;
        match outer.get("increment").and_then(|inner| inner.get("by")) {
            Some(by) => Ok(ExecMsg::Increment { by: *by }),
            None => Err(serde::de::Error::custom("expected increment")),
        }
    }
}

impl Decodable for ExecMsg {
    fn decodes_totally() -> bool {
        true
    }
}

#[derive(Clone, Debug, PartialEq)]
struct ChainMsg {
    tag: u8,
}

#[derive(Clone, Debug, PartialEq)]
struct OtherChainMsg {
    name: String,
}

struct ChainQuery;

struct OtherChainQuery;

type Ctx<'a, Q> = DepsMut<'a, u64, (), (), Q>;

type ReadCtx<'a, Q> = Deps<'a, u64, (), (), Q>;

fn ctx<'a, Q>(storage: &'a mut u64) -> Ctx<'a, Q> {
    DepsMut { storage, api: &(), querier: QuerierWrapper::new(&()) }
}

fn read_ctx<'a, Q>(storage: &'a u64) -> ReadCtx<'a, Q> {
    Deps { storage, api: &(), querier: QuerierWrapper::new(&()) }
}

fn info() -> MessageInfo {
    mock_info("sender", &[])
}

fn outcome() -> Reply {
    Reply { id: 9, result: SubMsgResult::Ok(SubMsgResponse { events: vec![], data: None }) }
}

fn increment(deps: Ctx<'_, Empty>, _env: Env, _info: MessageInfo, msg: ExecMsg) -> Result<Response<Empty>, Error> {
    let ExecMsg::Increment { by } = msg;
    *deps.storage += by;
    Ok(Response::new().add_attribute("action", "increment"))
}

fn pay(deps: Ctx<'_, Empty>, _env: Env, _info: MessageInfo, msg: ExecMsg) -> Result<Response<Empty>, String> {
    let ExecMsg::Increment { by } = msg;
    if by == 0 {
        return Err("nothing to pay".to_string());
    }
    *deps.storage += by;
    Ok(Response::new()
        .add_submessage(SubMsg {
            id: 11,
            msg: CosmosMsg::Bank(BankMsg::Send { to_address: "receiver".to_string(), amount: coins(u128::from(by), "atom") }),
            gas_limit: Some(500),
            reply_on: ReplyOn::Success,
        })
        .add_attribute("action", "pay")
        .set_data(Binary::from(vec![1u8])))
}

fn init(deps: Ctx<'_, ChainQuery>, _env: Env, _info: MessageInfo, msg: u64) -> Result<Response<ChainMsg>, Error> {
    *deps.storage = msg;
    Ok(Response::new().add_attribute("action", "init"))
}

fn execute(deps: Ctx<'_, ChainQuery>, _env: Env, _info: MessageInfo, msg: ExecMsg) -> Result<Response<ChainMsg>, String> {
    let ExecMsg::Increment { by } = msg;
    if by > 100 {
        return Err("too much".to_string());
    }
    *deps.storage += by;
    Ok(Response::new().add_message(CosmosMsg::Custom(ChainMsg { tag: 1 })))
}

fn query(deps: ReadCtx<'_, ChainQuery>, _env: Env, _msg: Empty) -> Result<Binary, Error> {
    Ok(Binary::from(deps.storage.to_be_bytes().to_vec()))
}

fn baseline_query(deps: ReadCtx<'_, Empty>, _env: Env, msg: u64) -> Result<Binary, Error> {
    Ok(Binary::from((*deps.storage + msg).to_be_bytes().to_vec()))
}

fn sudo(deps: Ctx<'_, Empty>, _env: Env, msg: u64) -> Result<Response<Empty>, Error> {
    *deps.storage = msg;
    Ok(Response::new().add_attribute("action", "sudo"))
}

fn on_reply(deps: Ctx<'_, Empty>, _env: Env, msg: Reply) -> Result<Response<Empty>, String> {
    if msg.id == 0 {
        return Err("no such sub-message".to_string());
    }
    *deps.storage = msg.id;
    Ok(Response::new().add_attribute("replied", msg.id.to_string()))
}

fn shape<C>(msg: &CosmosMsg<C>) -> CosmosMsg<Empty> {
    match msg {
        CosmosMsg::Bank(m) => CosmosMsg::Bank(m.clone()),
        CosmosMsg::Wasm(m) => CosmosMsg::Wasm(m.clone()),
        _ => panic!("not expected here"),
    }
}

fn narrowed<C>(resp: &Response<C>) -> Response<Empty> {
    let mut out = Response::new()
        .add_attributes(resp.attributes.clone())
        .add_events(resp.events.clone());
    for sub in resp.messages.iter() {
        out = out.add_submessage(SubMsg {
            id: sub.id,
            msg: shape(&sub.msg),
            gas_limit: sub.gas_limit,
            reply_on: sub.reply_on.clone(),
        });
    }
    out.data = resp.data.clone();
    out
}

#[test]
fn contract_of_three_handlers_serves_them() {
    let contract = ContractWrapper::new(
        wap::<ExecMsg, _>(execute),
        wap::<u64, _>(init),
        wap::<Empty, _>(query),
    );
    let mut storage: u64 = 0;

    let out: Result<Response<ChainMsg>, Error> =
        contract.instantiate(ctx(&mut storage), mock_env(), info(), b"40".to_vec());
    assert_eq!(out.unwrap(), Response::new().add_attribute("action", "init"));
    assert_eq!(storage, 40);

    let out: Result<Response<ChainMsg>, Error> = contract.execute(
        ctx(&mut storage),
        mock_env(),
        info(),
        br#"{"increment":{"by":2}}"#.to_vec(),
    );
    assert_eq!(out.unwrap(), Response::new().add_message(CosmosMsg::Custom(ChainMsg { tag: 1 })));
    assert_eq!(storage, 42);

    let out = contract.query(read_ctx::<ChainQuery>(&storage), mock_env(), b"{}".to_vec());
    assert_eq!(out.unwrap(), Binary::from(42u64.to_be_bytes().to_vec()));
}

#[test]
fn contract_of_three_handlers_lacks_the_optional_ones() {
    let contract = ContractWrapper::new(
        wap::<ExecMsg, _>(execute),
        wap::<u64, _>(init),
        wap::<Empty, _>(query),
    );
    let mut storage: u64 = 0;

    let out: Result<Response<ChainMsg>, Error> =
        contract.sudo(ctx::<ChainQuery>(&mut storage), mock_env(), b"{}".to_vec());
    let err = out.unwrap_err();
    assert!(matches!(err, Error::NotImplemented(EntryPoint::Sudo)));
    assert_eq!(err.message(), "Sudo not implemented on the contract");

    let out: Result<Response<ChainMsg>, Error> =
        contract.reply(ctx::<ChainQuery>(&mut storage), mock_env(), outcome());
    let err = out.unwrap_err();
    assert!(matches!(err, Error::NotImplemented(EntryPoint::Reply)));
    assert_eq!(err.message(), "Reply not implemented on the contract");

    let out: Result<Response<ChainMsg>, Error> =
        contract.migrate(ctx::<ChainQuery>(&mut storage), mock_env(), b"{}".to_vec());
    let err = out.unwrap_err();
    assert!(matches!(err, Error::NotImplemented(EntryPoint::Migrate)));
    assert_eq!(err.message(), "Migrate not implemented on the contract");
    assert_eq!(storage, 0);
}

#[test]
fn default_entry_points_fail_with_their_diagnostics() {
    let mut storage: u64 = 0;
    let out: Result<Response<Empty>, Error> =
        default_sudo_fn(ctx::<Empty>(&mut storage), mock_env(), Empty {});
    assert_eq!(out.unwrap_err().message(), "Sudo not implemented on the contract");
    let out: Result<Response<Empty>, Error> =
        default_reply_fn(ctx::<Empty>(&mut storage), mock_env(), outcome());
    assert_eq!(out.unwrap_err().message(), "Reply not implemented on the contract");
    let out: Result<Response<Empty>, Error> =
        default_migrate_fn(ctx::<Empty>(&mut storage), mock_env(), Empty {});
    assert_eq!(out.unwrap_err().message(), "Migrate not implemented on the contract");
}

#[test]
fn malformed_payload_is_a_decoding_failure() {
    let contract = ContractWrapper::new(
        wap::<ExecMsg, _>(execute),
        wap::<u64, _>(init),
        wap::<Empty, _>(query),
    );
    let mut storage: u64 = 7;

    let out: Result<Response<ChainMsg>, Error> =
        contract.execute(ctx(&mut storage), mock_env(), info(), b"{\"increment\":".to_vec());
    assert!(matches!(out, Err(Error::Decoding(_))));

    let out: Result<Response<ChainMsg>, Error> =
        contract.execute(ctx(&mut storage), mock_env(), info(), br#"{"decrement":{"by":2}}"#.to_vec());
    assert!(matches!(out, Err(Error::Decoding(_))));

    let out: Result<Response<ChainMsg>, Error> =
        contract.instantiate(ctx(&mut storage), mock_env(), info(), b"\"forty\"".to_vec());
    assert!(matches!(out, Err(Error::Decoding(_))));

    let out = contract.query(read_ctx::<ChainQuery>(&storage), mock_env(), b"not json".to_vec());
    assert!(matches!(out, Err(Error::Decoding(_))));

    let out: Result<Response<ChainMsg>, Error> =
        contract.sudo(ctx::<ChainQuery>(&mut storage), mock_env(), b"[".to_vec());
    assert!(matches!(out, Err(Error::Decoding(_))));

    let out: Result<Response<ChainMsg>, Error> =
        contract.migrate(ctx::<ChainQuery>(&mut storage), mock_env(), Vec::new());
    assert!(matches!(out, Err(Error::Decoding(_))));
    assert_eq!(storage, 7);
}

#[test]
fn decoding_failure_renders_as_the_codec_reports_it() {
    let contract = ContractWrapper::new(
        wap::<ExecMsg, _>(execute),
        wap::<u64, _>(init),
        wap::<Empty, _>(query),
    );
    let mut storage: u64 = 0;
    let out: Result<Response<ChainMsg>, Error> =
        contract.instantiate(ctx(&mut storage), mock_env(), info(), b"true".to_vec());
    let err = out.unwrap_err();
    let expected = cosmwasm_std::from_json::<u64>(b"true").unwrap_err();
    assert_eq!(err.message(), expected.to_string());
    assert!(err.message().starts_with("Error parsing into type u64"));

    let err = Error::Decoding(StdError::generic_err("broken"));
    assert_eq!(err.message(), "Generic error: broken");
}

#[test]
fn handler_failure_becomes_the_uniform_error() {
    let contract = ContractWrapper::new(
        wap::<ExecMsg, _>(execute),
        wap::<u64, _>(init),
        wap::<Empty, _>(query),
    );
    let mut storage: u64 = 0;
    let out: Result<Response<ChainMsg>, Error> = contract.execute(
        ctx(&mut storage),
        mock_env(),
        info(),
        br#"{"increment":{"by":101}}"#.to_vec(),
    );
    let err = out.unwrap_err();
    assert!(matches!(err, Error::Logic(_)));
    assert_eq!(err.message(), "too much");
    assert_eq!(Error::from("plain".to_string()).message(), "plain");
}

#[test]
fn dispatch_reports_the_decoding_error_it_was_given() {
    let handler = wap::<ExecMsg, _>(increment);
    let mut storage: u64 = 0;
    let out: Result<Response<Empty>, Error> = dispatch_contract(
        &handler,
        ctx(&mut storage),
        mock_env(),
        info(),
        Err(StdError::generic_err("bad payload")),
    );
    match out {
        Err(Error::Decoding(err)) => assert_eq!(err, StdError::generic_err("bad payload")),
        _ => panic!("a decoding failure was expected"),
    }
    let out: Result<Response<Empty>, Error> = dispatch_contract(
        &handler,
        ctx(&mut storage),
        mock_env(),
        info(),
        Ok(ExecMsg::Increment { by: 3 }),
    );
    assert_eq!(out.unwrap().attributes, vec![Attribute::new("action", "increment")]);
    assert_eq!(storage, 3);
}

#[test]
fn wrapped_callable_is_called_with_what_it_is_given() {
    let handler = increment.wrap();
    let mut storage: u64 = 10;
    let out: Result<Response<Empty>, Error> =
        ContractFn::call(&handler, ctx(&mut storage), mock_env(), info(), ExecMsg::Increment { by: 5 });
    assert_eq!(out.unwrap(), Response::new().add_attribute("action", "increment"));
    assert_eq!(storage, 15);

    let handler = wap::<u64, _>(sudo);
    let out: Result<Response<Empty>, Error> =
        PermissionedFn::call(&handler, ctx(&mut storage), mock_env(), 99);
    assert_eq!(out.unwrap(), Response::new().add_attribute("action", "sudo"));
    assert_eq!(storage, 99);

    let out: Result<Response<Empty>, Error> =
        ReplyFn::call(&on_reply, ctx(&mut storage), mock_env(), outcome());
    assert_eq!(out.unwrap(), Response::new().add_attribute("replied", "9"));
    assert_eq!(storage, 9);

    let handler = wap::<u64, _>(baseline_query);
    let out = QueryFn::call(&handler, read_ctx::<Empty>(&storage), mock_env(), 1);
    assert_eq!(out.unwrap(), Binary::from(10u64.to_be_bytes().to_vec()));
}

#[test]
fn full_cast_keeps_the_increment_response() {
    let cast = cast_fn(wap::<ExecMsg, _>(increment));
    let mut storage: u64 = 0;
    let out: Result<Response<OtherChainMsg>, Error> = ContractFn::call(
        &cast,
        ctx::<OtherChainQuery>(&mut storage),
        mock_env(),
        info(),
        ExecMsg::Increment { by: 5 },
    );
    let resp = out.unwrap();
    assert_eq!(resp.attributes, vec![Attribute::new("action", "increment")]);
    assert!(resp.messages.is_empty());
    assert_eq!(storage, 5);
}

#[test]
fn casts_to_two_chains_agree_on_the_baseline() {
    let first = cast_fn(wap::<ExecMsg, _>(pay));
    let second = cast_fn(wap::<ExecMsg, _>(pay));
    let mut storage_one: u64 = 1;
    let mut storage_two: u64 = 1;
    let one: Result<Response<ChainMsg>, Error> = ContractFn::call(
        &first,
        ctx::<ChainQuery>(&mut storage_one),
        mock_env(),
        info(),
        ExecMsg::Increment { by: 6 },
    );
    let two: Result<Response<OtherChainMsg>, Error> = ContractFn::call(
        &second,
        ctx::<OtherChainQuery>(&mut storage_two),
        mock_env(),
        info(),
        ExecMsg::Increment { by: 6 },
    );
    let one = one.unwrap();
    let two = two.unwrap();
    assert_eq!(narrowed(&one), narrowed(&two));
    assert_eq!(one.messages.len(), 1);
    assert_eq!(one.messages[0].id, 11);
    assert_eq!(one.messages[0].gas_limit, Some(500));
    assert_eq!(one.messages[0].reply_on, ReplyOn::Success);
    assert_eq!(two.data, Some(Binary::from(vec![1u8])));
    assert_eq!(storage_one, 7);
    assert_eq!(storage_two, 7);

    let one: Result<Response<ChainMsg>, Error> = ContractFn::call(
        &first,
        ctx::<ChainQuery>(&mut storage_one),
        mock_env(),
        info(),
        ExecMsg::Increment { by: 0 },
    );
    let two: Result<Response<OtherChainMsg>, Error> = ContractFn::call(
        &second,
        ctx::<OtherChainQuery>(&mut storage_two),
        mock_env(),
        info(),
        ExecMsg::Increment { by: 0 },
    );
    assert_eq!(one.unwrap_err().message(), "nothing to pay");
    assert_eq!(two.unwrap_err().message(), "nothing to pay");
}

#[test]
fn single_casts_change_one_side_only() {
    let mut storage: u64 = 0;
    let widened = cast_msg(wap::<ExecMsg, _>(pay));
    let out: Result<Response<ChainMsg>, Error> = ContractFn::call(
        &widened,
        ctx::<Empty>(&mut storage),
        mock_env(),
        info(),
        ExecMsg::Increment { by: 2 },
    );
    assert_eq!(out.unwrap().attributes, vec![Attribute::new("action", "pay")]);

    let narrowing = cast_query(wap::<ExecMsg, _>(increment));
    let out: Result<Response<Empty>, Error> = ContractFn::call(
        &narrowing,
        ctx::<ChainQuery>(&mut storage),
        mock_env(),
        info(),
        ExecMsg::Increment { by: 2 },
    );
    assert_eq!(out.unwrap(), Response::new().add_attribute("action", "increment"));
    assert_eq!(storage, 4);
}

#[test]
fn casts_of_the_other_entry_points() {
    let mut storage: u64 = 0;
    let cast = cast_permissioned_fn(wap::<u64, _>(sudo));
    let out: Result<Response<ChainMsg>, Error> =
        PermissionedFn::call(&cast, ctx::<ChainQuery>(&mut storage), mock_env(), 12);
    assert_eq!(out.unwrap().attributes, vec![Attribute::new("action", "sudo")]);
    assert_eq!(storage, 12);

    let cast = cast_reply_fn(on_reply);
    let out: Result<Response<ChainMsg>, Error> =
        ReplyFn::call(&cast, ctx::<ChainQuery>(&mut storage), mock_env(), outcome());
    assert_eq!(out.unwrap().attributes, vec![Attribute::new("replied", "9")]);
    assert_eq!(storage, 9);
    let failed: Result<Response<ChainMsg>, Error> = ReplyFn::call(
        &cast,
        ctx::<ChainQuery>(&mut storage),
        mock_env(),
        Reply { id: 0, result: SubMsgResult::Err("failed".to_string()) },
    );
    assert_eq!(failed.unwrap_err().message(), "no such sub-message");

    let cast = cast_read_query(wap::<u64, _>(baseline_query));
    let out = QueryFn::call(&cast, read_ctx::<ChainQuery>(&storage), mock_env(), 1);
    assert_eq!(out.unwrap(), Binary::from(10u64.to_be_bytes().to_vec()));
}

#[test]
fn cast_handlers_serve_a_contract_of_another_chain() {
    let contract = ContractWrapper::new(
        cast_fn(wap::<ExecMsg, _>(increment)),
        cast_fn(wap::<ExecMsg, _>(pay)),
        cast_read_query(wap::<u64, _>(baseline_query)),
    );
    let mut storage: u64 = 0;
    let out: Result<Response<ChainMsg>, Error> = contract.execute(
        ctx::<ChainQuery>(&mut storage),
        mock_env(),
        info(),
        br#"{"increment":{"by":5}}"#.to_vec(),
    );
    let resp = out.unwrap();
    assert_eq!(resp.attributes, vec![Attribute::new("action", "increment")]);
    assert!(resp.messages.is_empty());
    assert_eq!(storage, 5);
    let out = contract.query(read_ctx::<ChainQuery>(&storage), mock_env(), b"3".to_vec());
    assert_eq!(out.unwrap(), Binary::from(8u64.to_be_bytes().to_vec()));
}

#[test]
fn single_casts_of_the_other_entry_points() {
    let mut storage: u64 = 0;
    let cast = cast_permissioned_query(wap::<u64, _>(sudo));
    let out: Result<Response<Empty>, Error> =
        PermissionedFn::call(&cast, ctx::<ChainQuery>(&mut storage), mock_env(), 3);
    assert_eq!(out.unwrap(), Response::new().add_attribute("action", "sudo"));
    assert_eq!(storage, 3);

    let cast = cast_permissioned_msg(wap::<u64, _>(sudo));
    let out: Result<Response<OtherChainMsg>, Error> =
        PermissionedFn::call(&cast, ctx::<Empty>(&mut storage), mock_env(), 4);
    assert_eq!(out.unwrap(), Response::new().add_attribute("action", "sudo"));
    assert_eq!(storage, 4);

    let cast = cast_reply_query(on_reply);
    let out: Result<Response<Empty>, Error> =
        ReplyFn::call(&cast, ctx::<OtherChainQuery>(&mut storage), mock_env(), outcome());
    assert_eq!(out.unwrap(), Response::new().add_attribute("replied", "9"));
    assert_eq!(storage, 9);

    let cast = cast_reply_msg(on_reply);
    let out: Result<Response<ChainMsg>, Error> =
        ReplyFn::call(&cast, ctx::<Empty>(&mut storage), mock_env(), outcome());
    assert_eq!(out.unwrap(), Response::new().add_attribute("replied", "9"));
}

#[test]
fn default_handlers_stand_for_the_missing_entry_points() {
    let mut storage: u64 = 1;
    let out: Result<Response<ChainMsg>, Error> =
        PermissionedFn::call(&DefaultSudo, ctx::<ChainQuery>(&mut storage), mock_env(), Empty {});
    assert!(matches!(out, Err(Error::NotImplemented(EntryPoint::Sudo))));
    let out: Result<Response<ChainMsg>, Error> =
        ReplyFn::call(&DefaultReply, ctx::<ChainQuery>(&mut storage), mock_env(), outcome());
    assert!(matches!(out, Err(Error::NotImplemented(EntryPoint::Reply))));
    let out: Result<Response<ChainMsg>, Error> =
        PermissionedFn::call(&DefaultMigrate, ctx::<ChainQuery>(&mut storage), mock_env(), Empty {});
    assert!(matches!(out, Err(Error::NotImplemented(EntryPoint::Migrate))));
    assert_eq!(storage, 1);
}

#[test]
fn dispatch_of_the_other_entry_points() {
    let mut storage: u64 = 0;
    let handler = wap::<u64, _>(sudo);
    let out: Result<Response<Empty>, Error> =
        dispatch_permissioned(&handler, ctx(&mut storage), mock_env(), Ok(8));
    assert_eq!(out.unwrap(), Response::new().add_attribute("action", "sudo"));
    assert_eq!(storage, 8);
    let out: Result<Response<Empty>, Error> = dispatch_permissioned(
        &handler,
        ctx(&mut storage),
        mock_env(),
        Err(StdError::generic_err("bad payload")),
    );
    assert_eq!(out.unwrap_err().message(), "Generic error: bad payload");
    assert_eq!(storage, 8);

    let handler = wap::<u64, _>(baseline_query);
    let out = dispatch_query(&handler, read_ctx::<Empty>(&storage), mock_env(), Ok(2));
    assert_eq!(out.unwrap(), Binary::from(10u64.to_be_bytes().to_vec()));
    let out = dispatch_query(
        &handler,
        read_ctx::<Empty>(&storage),
        mock_env(),
        Err(StdError::generic_err("bad query")),
    );
    assert!(matches!(out, Err(Error::Decoding(_))));
}

fn checked(deps: Ctx<'_, Empty>, _env: Env, _info: MessageInfo, msg: u64) -> Result<Response<Empty>, StdError> {
    if msg == 0 {
        return Err(StdError::generic_err("zero"));
    }
    *deps.storage = msg;
    Ok(Response::new())
}

#[test]
fn handler_reporting_std_error_binds_directly() {
    let handler = wap::<u64, _>(checked);
    let mut storage: u64 = 1;
    let out: Result<Response<Empty>, Error> =
        ContractFn::call(&handler, ctx(&mut storage), mock_env(), info(), 0);
    match out {
        Err(Error::Std(err)) => assert_eq!(err, StdError::generic_err("zero")),
        _ => panic!("the handler's error was expected"),
    }
    let err = Error::from(StdError::generic_err("zero"));
    assert!(matches!(err, Error::Std(_)));
    assert_eq!(err.message(), "Generic error: zero");
    let out: Result<Response<Empty>, Error> =
        ContractFn::call(&handler, ctx(&mut storage), mock_env(), info(), 6);
    assert_eq!(out.unwrap(), Response::new());
    assert_eq!(storage, 6);
}

#[test]
fn failed_decoding_and_defaults_leave_the_storage() {
    let contract = ContractWrapper::new(
        wap::<ExecMsg, _>(execute),
        wap::<u64, _>(init),
        wap::<Empty, _>(query),
    );
    let mut storage: u64 = 23;
    let out: Result<Response<ChainMsg>, Error> =
        contract.execute(ctx(&mut storage), mock_env(), info(), b"not json".to_vec());
    assert!(matches!(out, Err(Error::Decoding(_))));
    assert_eq!(storage, 23);
    let out: Result<Response<ChainMsg>, Error> =
        contract.sudo(ctx::<ChainQuery>(&mut storage), mock_env(), b"\xff\xfe".to_vec());
    assert!(matches!(out, Err(Error::Decoding(_))));
    assert_eq!(storage, 23);
    let out: Result<Response<ChainMsg>, Error> =
        contract.migrate(ctx::<ChainQuery>(&mut storage), mock_env(), b"[1,".to_vec());
    assert!(matches!(out, Err(Error::Decoding(_))));
    assert_eq!(storage, 23);
    let out: Result<Response<Empty>, Error> =
        default_sudo_fn(ctx::<Empty>(&mut storage), mock_env(), Empty {});
    assert!(out.is_err());
    let out: Result<Response<Empty>, Error> =
        default_reply_fn(ctx::<Empty>(&mut storage), mock_env(), outcome());
    assert!(out.is_err());
    let out: Result<Response<Empty>, Error> =
        default_migrate_fn(ctx::<Empty>(&mut storage), mock_env(), Empty {});
    assert!(out.is_err());
    assert_eq!(storage, 23);
}
