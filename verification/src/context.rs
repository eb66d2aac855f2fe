//! Conversions of the values that travel with a contract call between the
//! baseline extension type (`Empty`) and a chain's own extension types.
//!
//! Request contexts are narrowed: a context over any query extension can be
//! presented as a baseline one. Messages and responses are widened: whatever
//! was built under the baseline message extension can be carried under any
//! other.

use cosmwasm_std::{
    Attribute, BankMsg, Binary, CosmosMsg, DistributionMsg, Empty, Event, GovMsg, IbcMsg, ReplyOn,
    Response, StakingMsg, SubMsg, WasmMsg,
};
use std::marker::PhantomData;
use vstd::prelude::*;

verus! {

/// `cosmwasm_std::BankMsg`, carried through as it is: nothing here looks inside.
#[verifier::external_type_specification]
#[verifier::external_body]
pub struct ExBankMsg(BankMsg);

/// `cosmwasm_std::StakingMsg`, carried through as it is: nothing here looks inside.
#[verifier::external_type_specification]
#[verifier::external_body]
pub struct ExStakingMsg(StakingMsg);

/// `cosmwasm_std::DistributionMsg`, carried through as it is: nothing here looks inside.
#[verifier::external_type_specification]
#[verifier::external_body]
pub struct ExDistributionMsg(DistributionMsg);

/// `cosmwasm_std::IbcMsg`, carried through as it is: nothing here looks inside.
#[verifier::external_type_specification]
#[verifier::external_body]
pub struct ExIbcMsg(IbcMsg);

/// `cosmwasm_std::WasmMsg`, carried through as it is: nothing here looks inside.
#[verifier::external_type_specification]
#[verifier::external_body]
pub struct ExWasmMsg(WasmMsg);

/// `cosmwasm_std::GovMsg`, carried through as it is: nothing here looks inside.
#[verifier::external_type_specification]
#[verifier::external_body]
pub struct ExGovMsg(GovMsg);

/// `cosmwasm_std::Binary`, carried through as it is: nothing here looks inside.
#[verifier::external_type_specification]
#[verifier::external_body]
pub struct ExBinary(Binary);

/// `cosmwasm_std::Attribute`, carried through as it is: nothing here looks inside.
#[verifier::external_type_specification]
#[verifier::external_body]
pub struct ExAttribute(Attribute);

/// `cosmwasm_std::Event`, carried through as it is: nothing here looks inside.
#[verifier::external_type_specification]
#[verifier::external_body]
pub struct ExEvent(Event);

/// `cosmwasm_std::Empty`, carried through as it is: nothing here looks inside.
#[verifier::external_type_specification]
#[verifier::external_body]
pub struct ExEmpty(Empty);

/// `cosmwasm_std::ReplyOn`, read with the fields and variants that the crate
/// declares for it.
#[verifier::external_type_specification]
pub struct ExReplyOn(ReplyOn);

/// `cosmwasm_std::CosmosMsg`, read with the fields and variants that the crate
/// declares for it.
#[verifier::external_type_specification]
#[verifier::reject_recursive_types(T)]
pub struct ExCosmosMsg<T>(CosmosMsg<T>);

/// `cosmwasm_std::SubMsg`, read with the fields and variants that the crate
/// declares for it.
#[verifier::external_type_specification]
#[verifier::reject_recursive_types(T)]
pub struct ExSubMsg<T>(SubMsg<T>);

/// `cosmwasm_std::Response`, read with the fields and variants that the crate
/// declares for it.
#[verifier::external_type_specification]
#[verifier::reject_recursive_types(T)]
pub struct ExResponse<T>(Response<T>);

/// The handle through which a call asks the chain, marked with the query
/// extension `Q` that the holder may use. The mark changes what the holder
/// may ask for, never whom it asks.
pub struct QuerierWrapper<'a, R: ?Sized, Q> {
    querier: &'a R,
    custom_query_type: PhantomData<Q>,
}

impl<'a, R: ?Sized, Q> QuerierWrapper<'a, R, Q> {
    /// The dispatcher behind the handle.
    pub closed spec fn handle(self) -> &'a R {
        self.querier
    }

    /// A handle to `querier`.
    pub fn new(querier: &'a R) -> (out: Self)
        ensures
            out.handle() == querier,
    {
        QuerierWrapper { querier, custom_query_type: PhantomData }
    }

    /// The dispatcher, for whoever hands the handle on.
    pub fn querier(&self) -> (out: &'a R)
        ensures
            out == self.handle(),
    {
        self.querier
    }
}

/// The context of a call that may change state: exclusive access to the
/// storage `S`, the host's capabilities `A`, and a query handle to the
/// dispatcher `R` over the query extension `Q`.
pub struct DepsMut<'a, S: ?Sized, A: ?Sized, R: ?Sized, Q> {
    pub storage: &'a mut S,
    pub api: &'a A,
    pub querier: QuerierWrapper<'a, R, Q>,
}

/// The context of a call that only reads.
pub struct Deps<'a, S: ?Sized, A: ?Sized, R: ?Sized, Q> {
    pub storage: &'a S,
    pub api: &'a A,
    pub querier: QuerierWrapper<'a, R, Q>,
}

/// `narrow` is `wide` presented over the baseline query type: the same
/// storage contents, the same capabilities, the same dispatcher.
pub open spec fn narrows_mut<S: ?Sized, A: ?Sized, R: ?Sized, Q>(
    wide: DepsMut<'_, S, A, R, Q>,
    narrow: DepsMut<'_, S, A, R, Empty>,
) -> bool {
    &&& &*narrow.storage == &*wide.storage
    &&& narrow.api == wide.api
    &&& narrow.querier.handle() == wide.querier.handle()
}

/// `narrow` is `wide` presented over the baseline query type.
pub open spec fn narrows<S: ?Sized, A: ?Sized, R: ?Sized, Q>(
    wide: Deps<'_, S, A, R, Q>,
    narrow: Deps<'_, S, A, R, Empty>,
) -> bool {
    &&& narrow.storage == wide.storage
    &&& narrow.api == wide.api
    &&& narrow.querier.handle() == wide.querier.handle()
}

/// Conversion of a mutable context to one over another query type. Only
/// the conversion to the baseline type exists: a handler that asks for less
/// can be served by a chain that offers more, never the other way round.
pub trait CustomizeDepsMut<'deps, S: ?Sized, A: ?Sized, R: ?Sized, Q>: Sized {
    /// What the conversion keeps of the context.
    spec fn customized(self, out: DepsMut<'deps, S, A, R, Q>) -> bool;

    fn customize(self) -> (out: DepsMut<'deps, S, A, R, Q>)
        ensures
            self.customized(out),
    ;
}

/// Any mutable context can be made into one over the baseline query type.
/// What is written through the new context is written to the storage of the
/// old one.
impl<'deps, S: ?Sized, A: ?Sized, R: ?Sized, Q> CustomizeDepsMut<'deps, S, A, R, Empty> for DepsMut<
    'deps,
    S,
    A,
    R,
    Q,
> {
    open spec fn customized(self, out: DepsMut<'deps, S, A, R, Empty>) -> bool {
        narrows_mut(self, out)
    }

    fn customize(self) -> (out: DepsMut<'deps, S, A, R, Empty>)
        ensures
            &*final(out.storage) == &*final(self.storage),
    {
        DepsMut {
            storage: self.storage,
            api: self.api,
            querier: QuerierWrapper::new(self.querier.querier()),
        }
    }
}

/// Conversion of a read-only context to one over another query type, in
/// the same direction only.
pub trait CustomizeDeps<'deps, S: ?Sized, A: ?Sized, R: ?Sized, Q>: Sized {
    /// What the conversion keeps of the context.
    spec fn customized(self, out: Deps<'deps, S, A, R, Q>) -> bool;

    fn customize(self) -> (out: Deps<'deps, S, A, R, Q>)
        ensures
            self.customized(out),
    ;
}

/// Any read-only context can be made into one over the baseline query type.
impl<'deps, S: ?Sized, A: ?Sized, R: ?Sized, Q> CustomizeDeps<'deps, S, A, R, Empty> for Deps<
    'deps,
    S,
    A,
    R,
    Q,
> {
    open spec fn customized(self, out: Deps<'deps, S, A, R, Empty>) -> bool {
        narrows(self, out)
    }

    fn customize(self) -> (out: Deps<'deps, S, A, R, Empty>) {
        Deps {
            storage: self.storage,
            api: self.api,
            querier: QuerierWrapper::new(self.querier.querier()),
        }
    }
}

/// `Response::new` gives a response with no messages, no attributes, no
/// events and no data.
pub assume_specification<T>[ Response::<T>::new ]() -> (out: Response<T>)
    ensures
        out.messages@ == Seq::<SubMsg<T>>::empty(),
        out.attributes@ == Seq::<Attribute>::empty(),
        out.events@ == Seq::<Event>::empty(),
        out.data == None::<Binary>,
;

/// A message is structural when it is one of the variants that every chain
/// understands alike: it carries no extension payload and is known here.
pub open spec fn is_structural<T>(msg: CosmosMsg<T>) -> bool {
    msg is Wasm || msg is Bank || msg is Staking || msg is Distribution || msg is Ibc
        || msg is Stargate
}

/// The same structural message under another extension type. Of a message
/// that is not structural nothing is said.
pub open spec fn retag_msg<A, B>(msg: CosmosMsg<A>) -> CosmosMsg<B>
    recommends
        is_structural(msg),
{
    match msg {
        CosmosMsg::Wasm(wasm) => CosmosMsg::Wasm(wasm),
        CosmosMsg::Bank(bank) => CosmosMsg::Bank(bank),
        CosmosMsg::Staking(staking) => CosmosMsg::Staking(staking),
        CosmosMsg::Distribution(distribution) => CosmosMsg::Distribution(distribution),
        CosmosMsg::Ibc(ibc) => CosmosMsg::Ibc(ibc),
        CosmosMsg::Stargate { type_url, value } => CosmosMsg::Stargate { type_url, value },
        _ => arbitrary(),
    }
}

/// The same envelope around the retagged message: identifier, gas ceiling
/// and reply policy are those of `sub`.
pub open spec fn retag_sub_msg<A, B>(sub: SubMsg<A>) -> SubMsg<B> {
    SubMsg { id: sub.id, msg: retag_msg(sub.msg), gas_limit: sub.gas_limit, reply_on: sub.reply_on }
}

/// What a response holds.
#[verifier::reject_recursive_types(T)]
pub struct ResponseView<T> {
    pub messages: Seq<SubMsg<T>>,
    pub attributes: Seq<Attribute>,
    pub events: Seq<Event>,
    pub data: Option<Binary>,
}

pub open spec fn response_view<T>(resp: Response<T>) -> ResponseView<T> {
    ResponseView {
        messages: resp.messages@,
        attributes: resp.attributes@,
        events: resp.events@,
        data: resp.data,
    }
}

/// Every message of the response is structural.
pub open spec fn all_structural<T>(view: ResponseView<T>) -> bool {
    forall|i: int| 0 <= i < view.messages.len() ==> is_structural(#[trigger] view.messages[i].msg)
}

/// The response with each envelope retagged, in the same order, and with
/// attributes, events and data as they were.
pub open spec fn retag_response<A, B>(view: ResponseView<A>) -> ResponseView<B> {
    ResponseView {
        messages: Seq::new(view.messages.len(), |i: int| retag_sub_msg(view.messages[i])),
        attributes: view.attributes,
        events: view.events,
        data: view.data,
    }
}

/// Why a message built under the baseline type cannot be carried under
/// another extension type.
#[derive(Clone, Copy, Debug, PartialEq, Eq, Structural)]
pub enum Violation {
    /// It holds a custom payload, which the baseline type has not.
    CustomUnderBaseline,
    /// It is of a variant that is not known here.
    UnknownVariant,
}

impl Violation {
    pub open spec fn text(&self) -> Seq<char> {
        match self {
            Violation::CustomUnderBaseline => "custom message under the baseline type"@,
            Violation::UnknownVariant => "unknown message variant"@,
        }
    }

    /// The diagnostic of the violation.
    pub fn message(&self) -> (out: String)
        ensures
            out@ == self.text(),
    {
        match self {
            Violation::CustomUnderBaseline => "custom message under the baseline type".to_string(),
            Violation::UnknownVariant => "unknown message variant".to_string(),
        }
    }
}

/// What stands against carrying `msg` under another extension type.
pub open spec fn violation_of<T>(msg: CosmosMsg<T>) -> Option<Violation> {
    if is_structural(msg) {
        None
    } else if msg is Custom {
        Some(Violation::CustomUnderBaseline)
    } else {
        Some(Violation::UnknownVariant)
    }
}

/// The violation of the first message of `messages` that has one.
pub open spec fn first_violation_of<T>(messages: Seq<SubMsg<T>>) -> Option<Violation>
    decreases messages.len(),
{
    if messages.len() == 0 {
        None
    } else if violation_of(messages[0].msg) is Some {
        violation_of(messages[0].msg)
    } else {
        first_violation_of(messages.drop_first())
    }
}

/// Tests a message before it is customized.
pub fn violation<T>(msg: &CosmosMsg<T>) -> (out: Option<Violation>)
    ensures
        out == violation_of(*msg),
        out is None <==> is_structural(*msg),
{
    match msg {
        CosmosMsg::Wasm(_) => None,
        CosmosMsg::Bank(_) => None,
        CosmosMsg::Staking(_) => None,
        CosmosMsg::Distribution(_) => None,
        CosmosMsg::Ibc(_) => None,
        CosmosMsg::Stargate { .. } => None,
        CosmosMsg::Custom(_) => Some(Violation::CustomUnderBaseline),
        _ => Some(Violation::UnknownVariant),
    }
}

/// Tests a response before it is customized: `None` exactly when every
/// message can be carried over, else the violation of the first that cannot.
pub fn first_violation<T>(resp: &Response<T>) -> (out: Option<Violation>)
    ensures
        out == first_violation_of(resp.messages@),
        out is None <==> all_structural(response_view(*resp)),
{
    let mut i: usize = 0;
    assert(resp.messages@.skip(0) =~= resp.messages@);
    while i < resp.messages.len()
        invariant
            i <= resp.messages@.len(),
            first_violation_of(resp.messages@) == first_violation_of(
                resp.messages@.skip(i as int),
            ),
            forall|j: int| 0 <= j < i ==> is_structural(#[trigger] resp.messages@[j].msg),
        decreases resp.messages@.len() - i,
    {
        let found = violation(&resp.messages[i].msg);
        proof {
            let rest = resp.messages@.skip(i as int);
            assert(rest[0] == resp.messages@[i as int]);
            assert(rest.drop_first() =~= resp.messages@.skip(i + 1));
        }
        if found.is_some() {
            assert(!is_structural(resp.messages@[i as int].msg));
            return found;
        }
        i = i + 1;
    }
    assert(resp.messages@.skip(i as int).len() == 0);
    None
}

/// Conversion of a sub-message to one that carries another chain's custom
/// messages.
pub trait CustomizeMsg<C>: Sized {
    /// The envelopes that can be converted.
    spec fn customizable(&self) -> bool;

    /// What the conversion gives.
    spec fn customized(&self) -> SubMsg<C>;

    fn customize(self) -> (out: SubMsg<C>)
        requires
            self.customizable(),
        ensures
            out == self.customized(),
    ;
}

/// A baseline sub-message with a structural payload can be made into a
/// sub-message of any chain.
impl<C> CustomizeMsg<C> for SubMsg<Empty> {
    open spec fn customizable(&self) -> bool {
        is_structural(self.msg)
    }

    open spec fn customized(&self) -> SubMsg<C> {
        retag_sub_msg(*self)
    }

    fn customize(self) -> (out: SubMsg<C>) {
        SubMsg {
            msg: match self.msg {
                CosmosMsg::Wasm(wasm) => CosmosMsg::Wasm(wasm),
                CosmosMsg::Bank(bank) => CosmosMsg::Bank(bank),
                CosmosMsg::Staking(staking) => CosmosMsg::Staking(staking),
                CosmosMsg::Distribution(distribution) => CosmosMsg::Distribution(distribution),
                CosmosMsg::Ibc(ibc) => CosmosMsg::Ibc(ibc),
                CosmosMsg::Stargate { type_url, value } => CosmosMsg::Stargate { type_url, value },
                _ => vstd::pervasive::unreached(),
            },
            id: self.id,
            gas_limit: self.gas_limit,
            reply_on: self.reply_on,
        }
    }
}

/// Conversion of a response to one that carries another chain's custom
/// messages.
pub trait CustomizeResponse<C>: Sized {
    /// The responses that can be converted.
    spec fn customizable(&self) -> bool;

    /// What the converted response holds.
    spec fn customized(&self) -> ResponseView<C>;

    fn customize(self) -> (out: Response<C>)
        requires
            self.customizable(),
        ensures
            response_view(out) == self.customized(),
    ;
}

/// A baseline response whose messages are all structural can be made into a
/// response of any chain.
impl<C> CustomizeResponse<C> for Response<Empty> {
    open spec fn customizable(&self) -> bool {
        all_structural(response_view(*self))
    }

    open spec fn customized(&self) -> ResponseView<C> {
        retag_response(response_view(*self))
    }

    fn customize(self) -> (out: Response<C>) {
        let ghost base = self.messages@;
        let mut rest = self.messages;
        let mut reversed: Vec<SubMsg<C>> = Vec::new();
        while rest.len() > 0
            invariant
                rest@ == base.take(rest@.len() as int),
                rest@.len() + reversed@.len() == base.len(),
                forall|i: int| 0 <= i < base.len() ==> is_structural(#[trigger] base[i].msg),
                forall|j: int|
                    0 <= j < reversed@.len() ==> #[trigger] reversed@[j] == retag_sub_msg::<
                        Empty,
                        C,
                    >(base[base.len() - 1 - j]),
            decreases rest@.len(),
        {
            let sub = rest.pop().unwrap();
            assert(sub == base[rest@.len() as int]);
            assert(is_structural(base[rest@.len() as int].msg));
            reversed.push(sub.customize());
        }
        let mut resp: Response<C> = Response::new();
        while reversed.len() > 0
            invariant
                resp.messages@.len() + reversed@.len() == base.len(),
                forall|j: int|
                    0 <= j < reversed@.len() ==> #[trigger] reversed@[j] == retag_sub_msg::<
                        Empty,
                        C,
                    >(base[base.len() - 1 - j]),
                forall|i: int|
                    0 <= i < resp.messages@.len() ==> #[trigger] resp.messages@[i]
                        == retag_sub_msg::<Empty, C>(base[i]),
                resp.attributes@ == Seq::<Attribute>::empty(),
                resp.events@ == Seq::<Event>::empty(),
            decreases reversed@.len(),
        {
            let sub = reversed.pop().unwrap();
            resp.messages.push(sub);
        }
        resp.attributes = self.attributes;
        resp.events = self.events;
        resp.data = self.data;
        assert(response_view(resp).messages =~= retag_response::<Empty, C>(
            response_view(self),
        ).messages);
        resp
    }
}

/// Customizes a response where that can be done, and says what stands
/// against it where it cannot: nothing of such a response is carried over,
/// and nothing of it is dropped in silence.
pub fn try_customize<C>(resp: Response<Empty>) -> (out: Result<Response<C>, Violation>)
    ensures
        match out {
            Ok(widened) => all_structural(response_view(resp)) && response_view(widened)
                == retag_response::<Empty, C>(response_view(resp)),
            Err(found) => first_violation_of(resp.messages@) == Some(found),
        },
{
    match first_violation(&resp) {
        Some(found) => Err(found),
        None => Ok(resp.customize()),
    }
}

/// Retagging a structural message to another extension type and back gives
/// the message itself.
pub proof fn lemma_retag_msg_round_trip<A, B>(msg: CosmosMsg<A>)
    requires
        is_structural(msg),
    ensures
        is_structural(retag_msg::<A, B>(msg)),
        retag_msg::<B, A>(retag_msg::<A, B>(msg)) == msg,
{
}

/// Retagging an envelope keeps its identifier, its reply policy and its gas
/// ceiling, whatever the two extension types are.
pub proof fn lemma_retag_keeps_envelope<A, B>(sub: SubMsg<A>)
    ensures
        retag_sub_msg::<A, B>(sub).id == sub.id,
        retag_sub_msg::<A, B>(sub).reply_on == sub.reply_on,
        retag_sub_msg::<A, B>(sub).gas_limit == sub.gas_limit,
{
}

/// Widening a response keeps its events, attributes and data, and widening
/// it and narrowing it again gives back what it held.
pub proof fn lemma_retag_response_round_trip<A, B>(view: ResponseView<A>)
    requires
        all_structural(view),
    ensures
        retag_response::<A, B>(view).events == view.events,
        retag_response::<A, B>(view).attributes == view.attributes,
        retag_response::<A, B>(view).data == view.data,
        all_structural(retag_response::<A, B>(view)),
        retag_response::<B, A>(retag_response::<A, B>(view)) == view,
{
    let there = retag_response::<A, B>(view);
    let back = retag_response::<B, A>(there);
    assert forall|i: int| 0 <= i < view.messages.len() implies #[trigger] back.messages[i]
        == view.messages[i] by {
        lemma_retag_msg_round_trip::<A, B>(view.messages[i].msg);
    }
    assert(back.messages =~= view.messages);
}

/// Two widenings of one baseline response, to whatever extension types,
/// agree once both are narrowed back to the baseline.
pub proof fn lemma_widenings_agree<A, B>(base: ResponseView<Empty>)
    requires
        all_structural(base),
    ensures
        retag_response::<A, Empty>(retag_response::<Empty, A>(base)) == retag_response::<
            B,
            Empty,
        >(retag_response::<Empty, B>(base)),
{
    lemma_retag_response_round_trip::<Empty, A>(base);
    lemma_retag_response_round_trip::<Empty, B>(base);
}

} // verus!
