//! Handlers written against the baseline extension types, offered to a
//! chain with extension types of its own.
//!
//! A query cast narrows the context before the handler sees it; a message
//! cast widens the response that the handler gave; the full cast does both.
//! Each cast is itself a handler, and says what it accepts and yields in
//! terms of the handler it wraps.

use crate::context::{
    all_structural, lemma_retag_response_round_trip, narrows, narrows_mut, response_view,
    retag_response, CustomizeDeps, CustomizeDepsMut, CustomizeResponse, Deps, DepsMut,
    ResponseView,
};
use crate::entry_points::{ContractFn, PermissionedFn, QueryFn, ReplyFn};
use crate::error::Error;
use cosmwasm_std::{Binary, Empty, Env, MessageInfo, Reply, Response};
use vstd::prelude::*;

verus! {

/// A handler written against the baseline query type, offered to a chain
/// with any query extension.
pub struct QueryCast<F> {
    f: F,
}

impl<F> QueryCast<F> {
    /// The handler that is called.
    pub closed spec fn inner(&self) -> F {
        self.f
    }
}

/// A handler written against the baseline message type, offered to a chain
/// with any message extension.
pub struct MsgCast<F> {
    f: F,
}

impl<F> MsgCast<F> {
    /// The handler that is called.
    pub closed spec fn inner(&self) -> F {
        self.f
    }
}

/// A baseline outcome `base`, carried under the message extension `C`: a
/// response is widened, a failure is the same failure.
pub open spec fn widened<C>(
    base: Result<Response<Empty>, Error>,
    out: Result<Response<C>, Error>,
) -> bool {
    match base {
        Ok(resp) => out is Ok && response_view(out->Ok_0) == retag_response::<Empty, C>(
            response_view(resp),
        ),
        Err(cause) => out == Err::<Response<C>, Error>(cause),
    }
}

/// What an outcome holds: the view of the response, or the failure.
pub open spec fn outcome_view<C>(
    out: Result<Response<C>, Error>,
) -> Result<ResponseView<C>, Error> {
    match out {
        Ok(resp) => Ok(response_view(resp)),
        Err(cause) => Err(cause),
    }
}

/// An outcome narrowed back to the baseline message type.
pub open spec fn baseline_outcome<C>(out: Result<Response<C>, Error>) -> Result<
    ResponseView<Empty>,
    Error,
> {
    match out {
        Ok(resp) => Ok(retag_response::<C, Empty>(response_view(resp))),
        Err(cause) => Err(cause),
    }
}

/// The handler behind a query cast is called on the narrowed context.
impl<S: ?Sized, A: ?Sized, R: ?Sized, NewQ, C, F> ContractFn<S, A, R, NewQ, C> for QueryCast<F> where
    F: ContractFn<S, A, R, Empty, C>,
{
    type Msg = F::Msg;

    open spec fn accepts(
        &self,
        deps: DepsMut<'_, S, A, R, NewQ>,
        env: Env,
        info: MessageInfo,
        msg: F::Msg,
    ) -> bool {
        forall|narrow: DepsMut<'_, S, A, R, Empty>|
            narrows_mut(deps, narrow) ==> self.inner().accepts(narrow, env, info, msg)
    }

    open spec fn yields(
        &self,
        deps: DepsMut<'_, S, A, R, NewQ>,
        env: Env,
        info: MessageInfo,
        msg: F::Msg,
        out: Result<Response<C>, Error>,
    ) -> bool {
        exists|narrow: DepsMut<'_, S, A, R, Empty>|
            narrows_mut(deps, narrow) && self.inner().yields(narrow, env, info, msg, out)
    }

    fn call(
        &self,
        deps: DepsMut<'_, S, A, R, NewQ>,
        env: Env,
        info: MessageInfo,
        msg: F::Msg,
    ) -> (out: Result<Response<C>, Error>) {
        let narrow = deps.customize();
        let out = self.f.call(narrow, env, info, msg);
        assert(narrows_mut(deps, narrow) && self.inner().yields(narrow, env, info, msg, out));
        out
    }
}

/// The response of the handler behind a message cast is widened; a failure
/// passes as it is.
impl<S: ?Sized, A: ?Sized, R: ?Sized, Q, NewC, F> ContractFn<S, A, R, Q, NewC> for MsgCast<F> where
    F: ContractFn<S, A, R, Q, Empty>,
{
    type Msg = F::Msg;

    open spec fn accepts(
        &self,
        deps: DepsMut<'_, S, A, R, Q>,
        env: Env,
        info: MessageInfo,
        msg: F::Msg,
    ) -> bool {
        &&& self.inner().accepts(deps, env, info, msg)
        &&& forall|resp: Response<Empty>|
            self.inner().yields(deps, env, info, msg, Ok(resp)) ==> all_structural(response_view(resp))
    }

    open spec fn yields(
        &self,
        deps: DepsMut<'_, S, A, R, Q>,
        env: Env,
        info: MessageInfo,
        msg: F::Msg,
        out: Result<Response<NewC>, Error>,
    ) -> bool {
        exists|base: Result<Response<Empty>, Error>|
            self.inner().yields(deps, env, info, msg, base) && widened(base, out)
    }

    fn call(
        &self,
        deps: DepsMut<'_, S, A, R, Q>,
        env: Env,
        info: MessageInfo,
        msg: F::Msg,
    ) -> (out: Result<Response<NewC>, Error>) {
        let base = self.f.call(deps, env, info, msg);
        let out = match base {
            Ok(resp) => Ok(resp.customize()),
            Err(cause) => Err(cause),
        };
        assert(self.inner().yields(deps, env, info, msg, base) && widened(base, out));
        out
    }
}

/// The handler behind a query cast is called on the narrowed context.
impl<S: ?Sized, A: ?Sized, R: ?Sized, NewQ, C, F> PermissionedFn<S, A, R, NewQ, C> for QueryCast<F> where
    F: PermissionedFn<S, A, R, Empty, C>,
{
    type Msg = F::Msg;

    open spec fn accepts(&self, deps: DepsMut<'_, S, A, R, NewQ>, env: Env, msg: F::Msg) -> bool {
        forall|narrow: DepsMut<'_, S, A, R, Empty>|
            narrows_mut(deps, narrow) ==> self.inner().accepts(narrow, env, msg)
    }

    open spec fn yields(
        &self,
        deps: DepsMut<'_, S, A, R, NewQ>,
        env: Env,
        msg: F::Msg,
        out: Result<Response<C>, Error>,
    ) -> bool {
        exists|narrow: DepsMut<'_, S, A, R, Empty>|
            narrows_mut(deps, narrow) && self.inner().yields(narrow, env, msg, out)
    }

    fn call(
        &self,
        deps: DepsMut<'_, S, A, R, NewQ>,
        env: Env,
        msg: F::Msg,
    ) -> (out: Result<Response<C>, Error>) {
        let narrow = deps.customize();
        let out = self.f.call(narrow, env, msg);
        assert(narrows_mut(deps, narrow) && self.inner().yields(narrow, env, msg, out));
        out
    }
}

/// The response of the handler behind a message cast is widened; a failure
/// passes as it is.
impl<S: ?Sized, A: ?Sized, R: ?Sized, Q, NewC, F> PermissionedFn<S, A, R, Q, NewC> for MsgCast<F> where
    F: PermissionedFn<S, A, R, Q, Empty>,
{
    type Msg = F::Msg;

    open spec fn accepts(&self, deps: DepsMut<'_, S, A, R, Q>, env: Env, msg: F::Msg) -> bool {
        &&& self.inner().accepts(deps, env, msg)
        &&& forall|resp: Response<Empty>|
            self.inner().yields(deps, env, msg, Ok(resp)) ==> all_structural(response_view(resp))
    }

    open spec fn yields(
        &self,
        deps: DepsMut<'_, S, A, R, Q>,
        env: Env,
        msg: F::Msg,
        out: Result<Response<NewC>, Error>,
    ) -> bool {
        exists|base: Result<Response<Empty>, Error>|
            self.inner().yields(deps, env, msg, base) && widened(base, out)
    }

    fn call(
        &self,
        deps: DepsMut<'_, S, A, R, Q>,
        env: Env,
        msg: F::Msg,
    ) -> (out: Result<Response<NewC>, Error>) {
        let base = self.f.call(deps, env, msg);
        let out = match base {
            Ok(resp) => Ok(resp.customize()),
            Err(cause) => Err(cause),
        };
        assert(self.inner().yields(deps, env, msg, base) && widened(base, out));
        out
    }
}

/// The handler behind a query cast is called on the narrowed context.
impl<S: ?Sized, A: ?Sized, R: ?Sized, NewQ, C, F> ReplyFn<S, A, R, NewQ, C> for QueryCast<F> where
    F: ReplyFn<S, A, R, Empty, C>,
{
    open spec fn accepts(&self, deps: DepsMut<'_, S, A, R, NewQ>, env: Env, msg: Reply) -> bool {
        forall|narrow: DepsMut<'_, S, A, R, Empty>|
            narrows_mut(deps, narrow) ==> self.inner().accepts(narrow, env, msg)
    }

    open spec fn yields(
        &self,
        deps: DepsMut<'_, S, A, R, NewQ>,
        env: Env,
        msg: Reply,
        out: Result<Response<C>, Error>,
    ) -> bool {
        exists|narrow: DepsMut<'_, S, A, R, Empty>|
            narrows_mut(deps, narrow) && self.inner().yields(narrow, env, msg, out)
    }

    fn call(
        &self,
        deps: DepsMut<'_, S, A, R, NewQ>,
        env: Env,
        msg: Reply,
    ) -> (out: Result<Response<C>, Error>) {
        let narrow = deps.customize();
        let out = self.f.call(narrow, env, msg);
        assert(narrows_mut(deps, narrow) && self.inner().yields(narrow, env, msg, out));
        out
    }
}

/// The response of the handler behind a message cast is widened; a failure
/// passes as it is.
impl<S: ?Sized, A: ?Sized, R: ?Sized, Q, NewC, F> ReplyFn<S, A, R, Q, NewC> for MsgCast<F> where
    F: ReplyFn<S, A, R, Q, Empty>,
{
    open spec fn accepts(&self, deps: DepsMut<'_, S, A, R, Q>, env: Env, msg: Reply) -> bool {
        &&& self.inner().accepts(deps, env, msg)
        &&& forall|resp: Response<Empty>|
            self.inner().yields(deps, env, msg, Ok(resp)) ==> all_structural(response_view(resp))
    }

    open spec fn yields(
        &self,
        deps: DepsMut<'_, S, A, R, Q>,
        env: Env,
        msg: Reply,
        out: Result<Response<NewC>, Error>,
    ) -> bool {
        exists|base: Result<Response<Empty>, Error>|
            self.inner().yields(deps, env, msg, base) && widened(base, out)
    }

    fn call(
        &self,
        deps: DepsMut<'_, S, A, R, Q>,
        env: Env,
        msg: Reply,
    ) -> (out: Result<Response<NewC>, Error>) {
        let base = self.f.call(deps, env, msg);
        let out = match base {
            Ok(resp) => Ok(resp.customize()),
            Err(cause) => Err(cause),
        };
        assert(self.inner().yields(deps, env, msg, base) && widened(base, out));
        out
    }
}

/// The handler behind a query cast is called on the narrowed context.
impl<S: ?Sized, A: ?Sized, R: ?Sized, NewQ, F> QueryFn<S, A, R, NewQ> for QueryCast<F> where
    F: QueryFn<S, A, R, Empty>,
{
    type Msg = F::Msg;

    open spec fn accepts(&self, deps: Deps<'_, S, A, R, NewQ>, env: Env, msg: F::Msg) -> bool {
        forall|narrow: Deps<'_, S, A, R, Empty>|
            narrows(deps, narrow) ==> self.inner().accepts(narrow, env, msg)
    }

    open spec fn yields(
        &self,
        deps: Deps<'_, S, A, R, NewQ>,
        env: Env,
        msg: F::Msg,
        out: Result<Binary, Error>,
    ) -> bool {
        exists|narrow: Deps<'_, S, A, R, Empty>|
            narrows(deps, narrow) && self.inner().yields(narrow, env, msg, out)
    }

    fn call(
        &self,
        deps: Deps<'_, S, A, R, NewQ>,
        env: Env,
        msg: F::Msg,
    ) -> (out: Result<Binary, Error>) {
        let narrow = deps.customize();
        let out = self.f.call(narrow, env, msg);
        assert(narrows(deps, narrow) && self.inner().yields(narrow, env, msg, out));
        out
    }
}

/// Offers an `execute` or `instantiate` handler written against the baseline query type to a
/// chain with any query extension: the handler will see the context narrowed.
pub fn cast_query<S: ?Sized, A: ?Sized, R: ?Sized, C, F>(
    f: F,
) -> (out: QueryCast<F>) where F: ContractFn<S, A, R, Empty, C>
    ensures
        out.inner() == f,
{
    QueryCast { f }
}

/// Offers an `execute` or `instantiate` handler written against the baseline message type to a
/// chain with any message extension: its responses will be widened.
pub fn cast_msg<S: ?Sized, A: ?Sized, R: ?Sized, Q, F>(
    f: F,
) -> (out: MsgCast<F>) where F: ContractFn<S, A, R, Q, Empty>
    ensures
        out.inner() == f,
{
    MsgCast { f }
}

/// Offers an `execute` or `instantiate` handler written against the baseline pair to any chain:
/// the query cast of its message cast.
pub fn cast_fn<S: ?Sized, A: ?Sized, R: ?Sized, F>(
    f: F,
) -> (out: QueryCast<MsgCast<F>>) where F: ContractFn<S, A, R, Empty, Empty>
    ensures
        out.inner().inner() == f,
{
    QueryCast { f: MsgCast { f } }
}

/// Offers a `sudo` or `migrate` handler written against the baseline query type to a
/// chain with any query extension: the handler will see the context narrowed.
pub fn cast_permissioned_query<S: ?Sized, A: ?Sized, R: ?Sized, C, F>(
    f: F,
) -> (out: QueryCast<F>) where F: PermissionedFn<S, A, R, Empty, C>
    ensures
        out.inner() == f,
{
    QueryCast { f }
}

/// Offers a `sudo` or `migrate` handler written against the baseline message type to a
/// chain with any message extension: its responses will be widened.
pub fn cast_permissioned_msg<S: ?Sized, A: ?Sized, R: ?Sized, Q, F>(
    f: F,
) -> (out: MsgCast<F>) where F: PermissionedFn<S, A, R, Q, Empty>
    ensures
        out.inner() == f,
{
    MsgCast { f }
}

/// Offers a `sudo` or `migrate` handler written against the baseline pair to any chain:
/// the query cast of its message cast.
pub fn cast_permissioned_fn<S: ?Sized, A: ?Sized, R: ?Sized, F>(
    f: F,
) -> (out: QueryCast<MsgCast<F>>) where F: PermissionedFn<S, A, R, Empty, Empty>
    ensures
        out.inner().inner() == f,
{
    QueryCast { f: MsgCast { f } }
}

/// Offers a `reply` handler written against the baseline query type to a
/// chain with any query extension: the handler will see the context narrowed.
pub fn cast_reply_query<S: ?Sized, A: ?Sized, R: ?Sized, C, F>(
    f: F,
) -> (out: QueryCast<F>) where F: ReplyFn<S, A, R, Empty, C>
    ensures
        out.inner() == f,
{
    QueryCast { f }
}

/// Offers a `reply` handler written against the baseline message type to a
/// chain with any message extension: its responses will be widened.
pub fn cast_reply_msg<S: ?Sized, A: ?Sized, R: ?Sized, Q, F>(
    f: F,
) -> (out: MsgCast<F>) where F: ReplyFn<S, A, R, Q, Empty>
    ensures
        out.inner() == f,
{
    MsgCast { f }
}

/// Offers a `reply` handler written against the baseline pair to any chain:
/// the query cast of its message cast.
pub fn cast_reply_fn<S: ?Sized, A: ?Sized, R: ?Sized, F>(
    f: F,
) -> (out: QueryCast<MsgCast<F>>) where F: ReplyFn<S, A, R, Empty, Empty>
    ensures
        out.inner().inner() == f,
{
    QueryCast { f: MsgCast { f } }
}

/// Offers a `query` handler written against the baseline query type to a
/// chain with any query extension. A query gives no messages, so this is the
/// only cast it has.
pub fn cast_read_query<S: ?Sized, A: ?Sized, R: ?Sized, F>(
    f: F,
) -> (out: QueryCast<F>) where F: QueryFn<S, A, R, Empty>
    ensures
        out.inner() == f,
{
    QueryCast { f }
}

/// What a query cast of an `execute` or `instantiate` handler accepts and
/// yields: what the handler does on the contexts that narrow the given one.
pub proof fn lemma_query_cast_contract<S: ?Sized, A: ?Sized, R: ?Sized, NewQ, C, F>(
    cast: QueryCast<F>,
    deps: DepsMut<'_, S, A, R, NewQ>,
    env: Env,
    info: MessageInfo,
    msg: F::Msg,
    out: Result<Response<C>, Error>,
) where F: ContractFn<S, A, R, Empty, C>
    ensures
        ContractFn::<S, A, R, NewQ, C>::accepts(&cast, deps, env, info, msg) == (forall|
            narrow: DepsMut<'_, S, A, R, Empty>,
        |
            narrows_mut(deps, narrow) ==> cast.inner().accepts(narrow, env, info, msg)),
        ContractFn::<S, A, R, NewQ, C>::yields(&cast, deps, env, info, msg, out) == (exists|
            narrow: DepsMut<'_, S, A, R, Empty>,
        |
            narrows_mut(deps, narrow) && cast.inner().yields(narrow, env, info, msg, out)),
{
}

/// What a message cast of an `execute` or `instantiate` handler accepts and
/// yields: it accepts what the handler accepts where every response of the handler holds
/// structural messages only, and it yields the handler's outcomes, widened.
pub proof fn lemma_msg_cast_contract<S: ?Sized, A: ?Sized, R: ?Sized, Q, NewC, F>(
    cast: MsgCast<F>,
    deps: DepsMut<'_, S, A, R, Q>,
    env: Env,
    info: MessageInfo,
    msg: F::Msg,
    out: Result<Response<NewC>, Error>,
) where F: ContractFn<S, A, R, Q, Empty>
    ensures
        ContractFn::<S, A, R, Q, NewC>::accepts(&cast, deps, env, info, msg) == (cast.inner().accepts(deps, env, info, msg)
            && forall|resp: Response<Empty>|
            cast.inner().yields(deps, env, info, msg, Ok(resp)) ==> all_structural(response_view(resp))),
        ContractFn::<S, A, R, Q, NewC>::yields(&cast, deps, env, info, msg, out) == (exists|
            base: Result<Response<Empty>, Error>,
        | cast.inner().yields(deps, env, info, msg, base) && widened(base, out)),
{
}

/// What a query cast of a `sudo` or `migrate` handler accepts and yields:
/// what the handler does on the contexts that narrow the given one.
pub proof fn lemma_query_cast_permissioned<S: ?Sized, A: ?Sized, R: ?Sized, NewQ, C, F>(
    cast: QueryCast<F>,
    deps: DepsMut<'_, S, A, R, NewQ>,
    env: Env,
    msg: F::Msg,
    out: Result<Response<C>, Error>,
) where F: PermissionedFn<S, A, R, Empty, C>
    ensures
        PermissionedFn::<S, A, R, NewQ, C>::accepts(&cast, deps, env, msg) == (forall|
            narrow: DepsMut<'_, S, A, R, Empty>,
        |
            narrows_mut(deps, narrow) ==> cast.inner().accepts(narrow, env, msg)),
        PermissionedFn::<S, A, R, NewQ, C>::yields(&cast, deps, env, msg, out) == (exists|
            narrow: DepsMut<'_, S, A, R, Empty>,
        |
            narrows_mut(deps, narrow) && cast.inner().yields(narrow, env, msg, out)),
{
}

/// What a message cast of a `sudo` or `migrate` handler accepts and yields:
/// it accepts what the handler accepts where every response of the handler holds
/// structural messages only, and it yields the handler's outcomes, widened.
pub proof fn lemma_msg_cast_permissioned<S: ?Sized, A: ?Sized, R: ?Sized, Q, NewC, F>(
    cast: MsgCast<F>,
    deps: DepsMut<'_, S, A, R, Q>,
    env: Env,
    msg: F::Msg,
    out: Result<Response<NewC>, Error>,
) where F: PermissionedFn<S, A, R, Q, Empty>
    ensures
        PermissionedFn::<S, A, R, Q, NewC>::accepts(&cast, deps, env, msg) == (cast.inner().accepts(deps, env, msg)
            && forall|resp: Response<Empty>|
            cast.inner().yields(deps, env, msg, Ok(resp)) ==> all_structural(response_view(resp))),
        PermissionedFn::<S, A, R, Q, NewC>::yields(&cast, deps, env, msg, out) == (exists|
            base: Result<Response<Empty>, Error>,
        | cast.inner().yields(deps, env, msg, base) && widened(base, out)),
{
}

/// What a query cast of a `reply` handler accepts and yields: what the
/// handler does on the contexts that narrow the given one.
pub proof fn lemma_query_cast_reply<S: ?Sized, A: ?Sized, R: ?Sized, NewQ, C, F>(
    cast: QueryCast<F>,
    deps: DepsMut<'_, S, A, R, NewQ>,
    env: Env,
    msg: Reply,
    out: Result<Response<C>, Error>,
) where F: ReplyFn<S, A, R, Empty, C>
    ensures
        ReplyFn::<S, A, R, NewQ, C>::accepts(&cast, deps, env, msg) == (forall|
            narrow: DepsMut<'_, S, A, R, Empty>,
        |
            narrows_mut(deps, narrow) ==> cast.inner().accepts(narrow, env, msg)),
        ReplyFn::<S, A, R, NewQ, C>::yields(&cast, deps, env, msg, out) == (exists|
            narrow: DepsMut<'_, S, A, R, Empty>,
        |
            narrows_mut(deps, narrow) && cast.inner().yields(narrow, env, msg, out)),
{
}

/// What a message cast of a `reply` handler accepts and yields: it
/// accepts what the handler accepts where every response of the handler holds
/// structural messages only, and it yields the handler's outcomes, widened.
pub proof fn lemma_msg_cast_reply<S: ?Sized, A: ?Sized, R: ?Sized, Q, NewC, F>(
    cast: MsgCast<F>,
    deps: DepsMut<'_, S, A, R, Q>,
    env: Env,
    msg: Reply,
    out: Result<Response<NewC>, Error>,
) where F: ReplyFn<S, A, R, Q, Empty>
    ensures
        ReplyFn::<S, A, R, Q, NewC>::accepts(&cast, deps, env, msg) == (cast.inner().accepts(deps, env, msg)
            && forall|resp: Response<Empty>|
            cast.inner().yields(deps, env, msg, Ok(resp)) ==> all_structural(response_view(resp))),
        ReplyFn::<S, A, R, Q, NewC>::yields(&cast, deps, env, msg, out) == (exists|
            base: Result<Response<Empty>, Error>,
        | cast.inner().yields(deps, env, msg, base) && widened(base, out)),
{
}

/// What a query cast of a `query` handler accepts and yields: what the
/// handler does on the contexts that narrow the given one.
pub proof fn lemma_query_cast_query<S: ?Sized, A: ?Sized, R: ?Sized, NewQ, F>(
    cast: QueryCast<F>,
    deps: Deps<'_, S, A, R, NewQ>,
    env: Env,
    msg: F::Msg,
    out: Result<Binary, Error>,
) where F: QueryFn<S, A, R, Empty>
    ensures
        QueryFn::<S, A, R, NewQ>::accepts(&cast, deps, env, msg) == (forall|
            narrow: Deps<'_, S, A, R, Empty>,
        |
            narrows(deps, narrow) ==> cast.inner().accepts(narrow, env, msg)),
        QueryFn::<S, A, R, NewQ>::yields(&cast, deps, env, msg, out) == (exists|
            narrow: Deps<'_, S, A, R, Empty>,
        |
            narrows(deps, narrow) && cast.inner().yields(narrow, env, msg, out)),
{
}

/// An `execute` or `instantiate` handler written against the baseline pair is cast to two pairs of
/// extension types, and both casts are called with the same message on
/// contexts of the two chains. If the handler's outcome is the same on every
/// baseline context that stands for either of the two, and its responses hold
/// structural messages only, then the two outcomes agree once both are
/// narrowed back to the baseline: equal failures, or responses with equal
/// messages, attributes, events and data.
pub proof fn lemma_contract_casts_agree<S: ?Sized, A: ?Sized, R: ?Sized, Q1, Q2, C1, C2, F>(
    first: QueryCast<MsgCast<F>>,
    second: QueryCast<MsgCast<F>>,
    deps1: DepsMut<'_, S, A, R, Q1>,
    deps2: DepsMut<'_, S, A, R, Q2>,
    env: Env,
    info: MessageInfo,
    msg: F::Msg,
    out1: Result<Response<C1>, Error>,
    out2: Result<Response<C2>, Error>,
) where F: ContractFn<S, A, R, Empty, Empty>
    requires
        first.inner().inner() == second.inner().inner(),
        forall|
            d1: DepsMut<'_, S, A, R, Empty>,
            d2: DepsMut<'_, S, A, R, Empty>,
            a: Result<Response<Empty>, Error>,
            b: Result<Response<Empty>, Error>,
        |
            narrows_mut(deps1, d1) && narrows_mut(deps2, d2) && #[trigger] first.inner().inner().yields(
                d1,
                env,
                info,
                msg,
                a,
            ) && #[trigger] first.inner().inner().yields(d2, env, info, msg, b) ==> outcome_view(a)
                == outcome_view(b),
        forall|d: DepsMut<'_, S, A, R, Empty>, resp: Response<Empty>|
            (narrows_mut(deps1, d) || narrows_mut(deps2, d)) && #[trigger] first.inner().inner().yields(
                d,
                env,
                info,
                msg,
                Ok(resp),
            ) ==> all_structural(response_view(resp)),
        ContractFn::<S, A, R, Q1, C1>::yields(&first, deps1, env, info, msg, out1),
        ContractFn::<S, A, R, Q2, C2>::yields(&second, deps2, env, info, msg, out2),
    ensures
        baseline_outcome(out1) == baseline_outcome(out2),
{
    let f = first.inner().inner();
    let d1 = choose|d: DepsMut<'_, S, A, R, Empty>|
        narrows_mut(deps1, d) && ContractFn::<S, A, R, Empty, C1>::yields(
            &first.inner(),
            d,
            env,
            info,
            msg,
            out1,
        );
    let d2 = choose|d: DepsMut<'_, S, A, R, Empty>|
        narrows_mut(deps2, d) && ContractFn::<S, A, R, Empty, C2>::yields(
            &second.inner(),
            d,
            env,
            info,
            msg,
            out2,
        );
    let a = choose|base: Result<Response<Empty>, Error>|
        f.yields(d1, env, info, msg, base) && widened(base, out1);
    let b = choose|base: Result<Response<Empty>, Error>|
        f.yields(d2, env, info, msg, base) && widened(base, out2);
    assert(outcome_view(a) == outcome_view(b));
    match a {
        Ok(resp) => {
            assert(f.yields(d1, env, info, msg, Ok(resp)));
            lemma_retag_response_round_trip::<Empty, C1>(response_view(resp));
            lemma_retag_response_round_trip::<Empty, C2>(response_view(resp));
        },
        Err(cause) => {},
    }
}

/// A `sudo` or `migrate` handler written against the baseline pair is cast to two pairs of
/// extension types, and both casts are called with the same message on
/// contexts of the two chains. If the handler's outcome is the same on every
/// baseline context that stands for either of the two, and its responses hold
/// structural messages only, then the two outcomes agree once both are
/// narrowed back to the baseline: equal failures, or responses with equal
/// messages, attributes, events and data.
pub proof fn lemma_permissioned_casts_agree<S: ?Sized, A: ?Sized, R: ?Sized, Q1, Q2, C1, C2, F>(
    first: QueryCast<MsgCast<F>>,
    second: QueryCast<MsgCast<F>>,
    deps1: DepsMut<'_, S, A, R, Q1>,
    deps2: DepsMut<'_, S, A, R, Q2>,
    env: Env,
    msg: F::Msg,
    out1: Result<Response<C1>, Error>,
    out2: Result<Response<C2>, Error>,
) where F: PermissionedFn<S, A, R, Empty, Empty>
    requires
        first.inner().inner() == second.inner().inner(),
        forall|
            d1: DepsMut<'_, S, A, R, Empty>,
            d2: DepsMut<'_, S, A, R, Empty>,
            a: Result<Response<Empty>, Error>,
            b: Result<Response<Empty>, Error>,
        |
            narrows_mut(deps1, d1) && narrows_mut(deps2, d2) && #[trigger] first.inner().inner().yields(
                d1,
                env,
                msg,
                a,
            ) && #[trigger] first.inner().inner().yields(d2, env, msg, b) ==> outcome_view(a)
                == outcome_view(b),
        forall|d: DepsMut<'_, S, A, R, Empty>, resp: Response<Empty>|
            (narrows_mut(deps1, d) || narrows_mut(deps2, d)) && #[trigger] first.inner().inner().yields(
                d,
                env,
                msg,
                Ok(resp),
            ) ==> all_structural(response_view(resp)),
        PermissionedFn::<S, A, R, Q1, C1>::yields(&first, deps1, env, msg, out1),
        PermissionedFn::<S, A, R, Q2, C2>::yields(&second, deps2, env, msg, out2),
    ensures
        baseline_outcome(out1) == baseline_outcome(out2),
{
    let f = first.inner().inner();
    let d1 = choose|d: DepsMut<'_, S, A, R, Empty>|
        narrows_mut(deps1, d) && PermissionedFn::<S, A, R, Empty, C1>::yields(
            &first.inner(),
            d,
            env,
            msg,
            out1,
        );
    let d2 = choose|d: DepsMut<'_, S, A, R, Empty>|
        narrows_mut(deps2, d) && PermissionedFn::<S, A, R, Empty, C2>::yields(
            &second.inner(),
            d,
            env,
            msg,
            out2,
        );
    let a = choose|base: Result<Response<Empty>, Error>|
        f.yields(d1, env, msg, base) && widened(base, out1);
    let b = choose|base: Result<Response<Empty>, Error>|
        f.yields(d2, env, msg, base) && widened(base, out2);
    assert(outcome_view(a) == outcome_view(b));
    match a {
        Ok(resp) => {
            assert(f.yields(d1, env, msg, Ok(resp)));
            lemma_retag_response_round_trip::<Empty, C1>(response_view(resp));
            lemma_retag_response_round_trip::<Empty, C2>(response_view(resp));
        },
        Err(cause) => {},
    }
}

/// A `reply` handler written against the baseline pair is cast to two pairs of
/// extension types, and both casts are called with the same outcome of a sub-message on
/// contexts of the two chains. If the handler's outcome is the same on every
/// baseline context that stands for either of the two, and its responses hold
/// structural messages only, then the two outcomes agree once both are
/// narrowed back to the baseline: equal failures, or responses with equal
/// messages, attributes, events and data.
pub proof fn lemma_reply_casts_agree<S: ?Sized, A: ?Sized, R: ?Sized, Q1, Q2, C1, C2, F>(
    first: QueryCast<MsgCast<F>>,
    second: QueryCast<MsgCast<F>>,
    deps1: DepsMut<'_, S, A, R, Q1>,
    deps2: DepsMut<'_, S, A, R, Q2>,
    env: Env,
    msg: Reply,
    out1: Result<Response<C1>, Error>,
    out2: Result<Response<C2>, Error>,
) where F: ReplyFn<S, A, R, Empty, Empty>
    requires
        first.inner().inner() == second.inner().inner(),
        forall|
            d1: DepsMut<'_, S, A, R, Empty>,
            d2: DepsMut<'_, S, A, R, Empty>,
            a: Result<Response<Empty>, Error>,
            b: Result<Response<Empty>, Error>,
        |
            narrows_mut(deps1, d1) && narrows_mut(deps2, d2) && #[trigger] first.inner().inner().yields(
                d1,
                env,
                msg,
                a,
            ) && #[trigger] first.inner().inner().yields(d2, env, msg, b) ==> outcome_view(a)
                == outcome_view(b),
        forall|d: DepsMut<'_, S, A, R, Empty>, resp: Response<Empty>|
            (narrows_mut(deps1, d) || narrows_mut(deps2, d)) && #[trigger] first.inner().inner().yields(
                d,
                env,
                msg,
                Ok(resp),
            ) ==> all_structural(response_view(resp)),
        ReplyFn::<S, A, R, Q1, C1>::yields(&first, deps1, env, msg, out1),
        ReplyFn::<S, A, R, Q2, C2>::yields(&second, deps2, env, msg, out2),
    ensures
        baseline_outcome(out1) == baseline_outcome(out2),
{
    let f = first.inner().inner();
    let d1 = choose|d: DepsMut<'_, S, A, R, Empty>|
        narrows_mut(deps1, d) && ReplyFn::<S, A, R, Empty, C1>::yields(
            &first.inner(),
            d,
            env,
            msg,
            out1,
        );
    let d2 = choose|d: DepsMut<'_, S, A, R, Empty>|
        narrows_mut(deps2, d) && ReplyFn::<S, A, R, Empty, C2>::yields(
            &second.inner(),
            d,
            env,
            msg,
            out2,
        );
    let a = choose|base: Result<Response<Empty>, Error>|
        f.yields(d1, env, msg, base) && widened(base, out1);
    let b = choose|base: Result<Response<Empty>, Error>|
        f.yields(d2, env, msg, base) && widened(base, out2);
    assert(outcome_view(a) == outcome_view(b));
    match a {
        Ok(resp) => {
            assert(f.yields(d1, env, msg, Ok(resp)));
            lemma_retag_response_round_trip::<Empty, C1>(response_view(resp));
            lemma_retag_response_round_trip::<Empty, C2>(response_view(resp));
        },
        Err(cause) => {},
    }
}

} // verus!
