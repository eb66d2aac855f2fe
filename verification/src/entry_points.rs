//! The shapes of the entry points, and what can stand for each.
//!
//! Every kind of entry point is a trait. A handler says, as two
//! specification functions, on which inputs it may be called and which
//! outcomes a call may have. A wrapped callable says so in terms of the
//! callable's own precondition and postcondition; the `lemma_wrapped_*`
//! functions spell that out for a caller who holds a closure.

use crate::context::{Deps, DepsMut};
use crate::error::{std_error_text, EntryPoint, Error};
use cosmwasm_std::{Binary, Empty, Env, MessageInfo, Reply, Response, StdError};
use serde::de::DeserializeOwned;
use std::marker::PhantomData;
use vstd::prelude::*;

verus! {

/// `cosmwasm_std::Env`, carried through as it is: nothing here looks inside.
#[verifier::external_type_specification]
#[verifier::external_body]
pub struct ExEnv(Env);

/// `cosmwasm_std::MessageInfo`, carried through as it is: nothing here looks inside.
#[verifier::external_type_specification]
#[verifier::external_body]
pub struct ExMessageInfo(MessageInfo);

/// `cosmwasm_std::Reply`, carried through as it is: nothing here looks inside.
#[verifier::external_type_specification]
#[verifier::external_body]
pub struct ExReply(Reply);

/// A message type as the codec sees it.
pub trait Decodable {
    /// Whether decoding a payload into this type always comes back, with a
    /// message or with an error. It does not where the type's decoding asks
    /// the codec for a floating-point number, a `char` or a byte string, at
    /// any depth, or for a map whose keys are neither text nor integers: on
    /// those the JSON codec gives up and panics. Whoever implements the trait
    /// for a type answers for that type's decoding.
    spec fn decodes_totally() -> bool;
}

/// `Empty` decodes as a JSON object whose fields are skipped.
impl Decodable for Empty {
    open spec fn decodes_totally() -> bool {
        true
    }
}

/// `bool` decodes as `true` or `false`.
impl Decodable for bool {
    open spec fn decodes_totally() -> bool {
        true
    }
}

/// `u64` decodes as an unsigned JSON number.
impl Decodable for u64 {
    open spec fn decodes_totally() -> bool {
        true
    }
}

/// `i64` decodes as a JSON number.
impl Decodable for i64 {
    open spec fn decodes_totally() -> bool {
        true
    }
}

/// `String` decodes as a JSON string.
impl Decodable for String {
    open spec fn decodes_totally() -> bool {
        true
    }
}

/// Decodes a payload with `cosmwasm_std::from_slice`, for a message type
/// on which the codec always comes back. Nothing is claimed of the result:
/// which payloads decode, and into what, is the codec's matter.
#[verifier::external_body]
#[allow(deprecated)]
pub(crate) fn decode<T: DeserializeOwned + Decodable>(payload: &[u8]) -> (out: Result<T, StdError>)
    requires
        T::decodes_totally(),
{
    cosmwasm_std::from_slice(payload)
}

/// A handler's own outcome `raw`, with its failure brought to the uniform
/// error by the handler's own conversion.
pub open spec fn normalized<T, E: Into<Error>>(raw: Result<T, E>, out: Result<T, Error>) -> bool {
    match raw {
        Ok(value) => out == Ok::<T, Error>(value),
        Err(cause) => out is Err && call_ensures(<E as Into<Error>>::into, (cause,), out->Err_0),
    }
}

/// Thin wrapper for types implementing proper `Fn` traits, but not being native functions.
///
/// This is required, as for every type it is possible that on the single type, multiple `Fn`
/// traits might be implemented, so the `Msg` has to be fixed.
pub struct FnWrapper<F, Msg> {
    f: F,
    _phantom: PhantomData<Msg>,
}

impl<F, Msg> FnWrapper<F, Msg> {
    /// The callable that was wrapped.
    pub closed spec fn callable(&self) -> F {
        self.f
    }
}

/// `execute` or `instantiate` entry point
///
/// * `S`, `A`, `R` - the storage, the capabilities and the query dispatcher of
///   the host
/// * `Q` - a blockchain-specific query-type
/// * `C` - a blockchain-specific custom-type
pub trait ContractFn<S: ?Sized, A: ?Sized, R: ?Sized, Q, C> {
    /// A message the entry point is handling
    type Msg;

    /// The inputs on which the handler may be called.
    spec fn accepts(
        &self,
        deps: DepsMut<'_, S, A, R, Q>,
        env: Env,
        info: MessageInfo,
        msg: Self::Msg,
    ) -> bool;

    /// The outcomes that a call on these inputs may have.
    spec fn yields(
        &self,
        deps: DepsMut<'_, S, A, R, Q>,
        env: Env,
        info: MessageInfo,
        msg: Self::Msg,
        out: Result<Response<C>, Error>,
    ) -> bool;

    /// Runs the handler on inputs that it accepts.
    fn call(
        &self,
        deps: DepsMut<'_, S, A, R, Q>,
        env: Env,
        info: MessageInfo,
        msg: Self::Msg,
    ) -> (out: Result<Response<C>, Error>)
        requires
            self.accepts(deps, env, info, msg),
        ensures
            self.yields(deps, env, info, msg, out),
    ;
}

/// A wrapped callable of the entry point's shape stands for it: it accepts what
/// the callable accepts, and a call yields what the callable yields, with a
/// failure brought to the uniform error.
impl<F, T, S: ?Sized, A: ?Sized, R: ?Sized, Q, C, E> ContractFn<S, A, R, Q, C> for FnWrapper<F, T> where
    F: Fn(DepsMut<'_, S, A, R, Q>, Env, MessageInfo, T) -> Result<Response<C>, E>,
    E: Into<Error>,
{
    type Msg = T;

    open spec fn accepts(
        &self,
        deps: DepsMut<'_, S, A, R, Q>,
        env: Env,
        info: MessageInfo,
        msg: T,
    ) -> bool {
        call_requires(self.callable(), (deps, env, info, msg,))
    }

    open spec fn yields(
        &self,
        deps: DepsMut<'_, S, A, R, Q>,
        env: Env,
        info: MessageInfo,
        msg: T,
        out: Result<Response<C>, Error>,
    ) -> bool {
        exists|raw: Result<Response<C>, E>|
            call_ensures(self.callable(), (deps, env, info, msg,), raw) && normalized(raw, out)
    }

    fn call(
        &self,
        deps: DepsMut<'_, S, A, R, Q>,
        env: Env,
        info: MessageInfo,
        msg: T,
    ) -> (out: Result<Response<C>, Error>) {
        let raw = (self.f)(deps, env, info, msg);
        let out = match raw {
            Ok(value) => Ok(value),
            Err(cause) => Err(cause.into()),
        };
        assert(normalized(raw, out));
        out
    }
}

/// What a call of the `execute` or `instantiate` entry point gives once the payload went
/// through the codec: what the handler yields on the decoded message, or the
/// decoding failure.
pub open spec fn dispatched_contract<S: ?Sized, A: ?Sized, R: ?Sized, Q, C, F>(
    f: &F,
    deps: DepsMut<'_, S, A, R, Q>,
    env: Env,
    info: MessageInfo,
    decoded: Result<F::Msg, StdError>,
    out: Result<Response<C>, Error>,
) -> bool where F: ContractFn<S, A, R, Q, C> {
    match decoded {
        Ok(msg) => f.yields(deps, env, info, msg, out),
        Err(err) => out == Err::<Response<C>, Error>(Error::Decoding(err)),
    }
}

/// Hands a decoded payload to the handler, or reports why there is none and
/// touches nothing: the second half of every call that starts from raw bytes.
pub fn dispatch_contract<S: ?Sized, A: ?Sized, R: ?Sized, Q, C, F>(
    f: &F,
    deps: DepsMut<'_, S, A, R, Q>,
    env: Env,
    info: MessageInfo,
    decoded: Result<F::Msg, StdError>,
) -> (out: Result<Response<C>, Error>) where
    F: ContractFn<S, A, R, Q, C>,

    requires
        decoded matches Ok(msg) ==> f.accepts(deps, env, info, msg),
    ensures
        dispatched_contract(f, deps, env, info, decoded, out),
        decoded is Err ==> &*final(deps.storage) == &*old(deps.storage),
{
    match decoded {
        Ok(msg) => f.call(deps, env, info, msg),
        Err(err) => Err(Error::Decoding(err)),
    }
}

/// `sudo` or `migrate` entry point
///
/// * `S`, `A`, `R` - the storage, the capabilities and the query dispatcher of
///   the host
/// * `Q` - a blockchain-specific query-type
/// * `C` - a blockchain-specific custom-type
pub trait PermissionedFn<S: ?Sized, A: ?Sized, R: ?Sized, Q, C> {
    /// A message the entry point is handling
    type Msg;

    /// The inputs on which the handler may be called.
    spec fn accepts(&self, deps: DepsMut<'_, S, A, R, Q>, env: Env, msg: Self::Msg) -> bool;

    /// The outcomes that a call on these inputs may have.
    spec fn yields(
        &self,
        deps: DepsMut<'_, S, A, R, Q>,
        env: Env,
        msg: Self::Msg,
        out: Result<Response<C>, Error>,
    ) -> bool;

    /// Runs the handler on inputs that it accepts.
    fn call(
        &self,
        deps: DepsMut<'_, S, A, R, Q>,
        env: Env,
        msg: Self::Msg,
    ) -> (out: Result<Response<C>, Error>)
        requires
            self.accepts(deps, env, msg),
        ensures
            self.yields(deps, env, msg, out),
    ;
}

/// A wrapped callable of the entry point's shape stands for it: it accepts what
/// the callable accepts, and a call yields what the callable yields, with a
/// failure brought to the uniform error.
impl<F, T, S: ?Sized, A: ?Sized, R: ?Sized, Q, C, E> PermissionedFn<S, A, R, Q, C> for FnWrapper<F, T> where
    F: Fn(DepsMut<'_, S, A, R, Q>, Env, T) -> Result<Response<C>, E>,
    E: Into<Error>,
{
    type Msg = T;

    open spec fn accepts(&self, deps: DepsMut<'_, S, A, R, Q>, env: Env, msg: T) -> bool {
        call_requires(self.callable(), (deps, env, msg,))
    }

    open spec fn yields(
        &self,
        deps: DepsMut<'_, S, A, R, Q>,
        env: Env,
        msg: T,
        out: Result<Response<C>, Error>,
    ) -> bool {
        exists|raw: Result<Response<C>, E>|
            call_ensures(self.callable(), (deps, env, msg,), raw) && normalized(raw, out)
    }

    fn call(
        &self,
        deps: DepsMut<'_, S, A, R, Q>,
        env: Env,
        msg: T,
    ) -> (out: Result<Response<C>, Error>) {
        let raw = (self.f)(deps, env, msg);
        let out = match raw {
            Ok(value) => Ok(value),
            Err(cause) => Err(cause.into()),
        };
        assert(normalized(raw, out));
        out
    }
}

/// What a call of the `sudo` or `migrate` entry point gives once the payload went
/// through the codec: what the handler yields on the decoded message, or the
/// decoding failure.
pub open spec fn dispatched_permissioned<S: ?Sized, A: ?Sized, R: ?Sized, Q, C, F>(
    f: &F,
    deps: DepsMut<'_, S, A, R, Q>,
    env: Env,
    decoded: Result<F::Msg, StdError>,
    out: Result<Response<C>, Error>,
) -> bool where F: PermissionedFn<S, A, R, Q, C> {
    match decoded {
        Ok(msg) => f.yields(deps, env, msg, out),
        Err(err) => out == Err::<Response<C>, Error>(Error::Decoding(err)),
    }
}

/// Hands a decoded payload to the handler, or reports why there is none and
/// touches nothing: the second half of every call that starts from raw bytes.
pub fn dispatch_permissioned<S: ?Sized, A: ?Sized, R: ?Sized, Q, C, F>(
    f: &F,
    deps: DepsMut<'_, S, A, R, Q>,
    env: Env,
    decoded: Result<F::Msg, StdError>,
) -> (out: Result<Response<C>, Error>) where
    F: PermissionedFn<S, A, R, Q, C>,

    requires
        decoded matches Ok(msg) ==> f.accepts(deps, env, msg),
    ensures
        dispatched_permissioned(f, deps, env, decoded, out),
        decoded is Err ==> &*final(deps.storage) == &*old(deps.storage),
{
    match decoded {
        Ok(msg) => f.call(deps, env, msg),
        Err(err) => Err(Error::Decoding(err)),
    }
}

/// `reply` entry point
///
/// * `S`, `A`, `R` - the storage, the capabilities and the query dispatcher of
///   the host
/// * `Q` - a blockchain-specific query-type
/// * `C` - a blockchain-specific custom-type
pub trait ReplyFn<S: ?Sized, A: ?Sized, R: ?Sized, Q, C> {
    /// The inputs on which the handler may be called.
    spec fn accepts(&self, deps: DepsMut<'_, S, A, R, Q>, env: Env, msg: Reply) -> bool;

    /// The outcomes that a call on these inputs may have.
    spec fn yields(
        &self,
        deps: DepsMut<'_, S, A, R, Q>,
        env: Env,
        msg: Reply,
        out: Result<Response<C>, Error>,
    ) -> bool;

    /// Runs the handler on inputs that it accepts.
    fn call(
        &self,
        deps: DepsMut<'_, S, A, R, Q>,
        env: Env,
        msg: Reply,
    ) -> (out: Result<Response<C>, Error>)
        requires
            self.accepts(deps, env, msg),
        ensures
            self.yields(deps, env, msg, out),
    ;
}

/// Any callable of the entry point's shape stands for it: it accepts what the
/// callable accepts, and a call yields what the callable yields, with a failure
/// brought to the uniform error.
impl<F, S: ?Sized, A: ?Sized, R: ?Sized, Q, C, E> ReplyFn<S, A, R, Q, C> for F where
    F: Fn(DepsMut<'_, S, A, R, Q>, Env, Reply) -> Result<Response<C>, E>,
    E: Into<Error>,
{
    open spec fn accepts(&self, deps: DepsMut<'_, S, A, R, Q>, env: Env, msg: Reply) -> bool {
        call_requires(*self, (deps, env, msg,))
    }

    open spec fn yields(
        &self,
        deps: DepsMut<'_, S, A, R, Q>,
        env: Env,
        msg: Reply,
        out: Result<Response<C>, Error>,
    ) -> bool {
        exists|raw: Result<Response<C>, E>|
            call_ensures(*self, (deps, env, msg,), raw) && normalized(raw, out)
    }

    fn call(
        &self,
        deps: DepsMut<'_, S, A, R, Q>,
        env: Env,
        msg: Reply,
    ) -> (out: Result<Response<C>, Error>) {
        let raw = self(deps, env, msg);
        let out = match raw {
            Ok(value) => Ok(value),
            Err(cause) => Err(cause.into()),
        };
        assert(normalized(raw, out));
        out
    }
}

/// `query` entry point
///
/// * `S`, `A`, `R` - the storage, the capabilities and the query dispatcher of
///   the host
/// * `Q` - a blockchain-specific query-type
pub trait QueryFn<S: ?Sized, A: ?Sized, R: ?Sized, Q> {
    /// A message the entry point is handling
    type Msg;

    /// The inputs on which the handler may be called.
    spec fn accepts(&self, deps: Deps<'_, S, A, R, Q>, env: Env, msg: Self::Msg) -> bool;

    /// The outcomes that a call on these inputs may have.
    spec fn yields(
        &self,
        deps: Deps<'_, S, A, R, Q>,
        env: Env,
        msg: Self::Msg,
        out: Result<Binary, Error>,
    ) -> bool;

    /// Runs the handler on inputs that it accepts.
    fn call(
        &self,
        deps: Deps<'_, S, A, R, Q>,
        env: Env,
        msg: Self::Msg,
    ) -> (out: Result<Binary, Error>)
        requires
            self.accepts(deps, env, msg),
        ensures
            self.yields(deps, env, msg, out),
    ;
}

/// A wrapped callable of the entry point's shape stands for it: it accepts what
/// the callable accepts, and a call yields what the callable yields, with a
/// failure brought to the uniform error.
impl<F, T, S: ?Sized, A: ?Sized, R: ?Sized, Q, E> QueryFn<S, A, R, Q> for FnWrapper<F, T> where
    F: Fn(Deps<'_, S, A, R, Q>, Env, T) -> Result<Binary, E>,
    E: Into<Error>,
{
    type Msg = T;

    open spec fn accepts(&self, deps: Deps<'_, S, A, R, Q>, env: Env, msg: T) -> bool {
        call_requires(self.callable(), (deps, env, msg,))
    }

    open spec fn yields(
        &self,
        deps: Deps<'_, S, A, R, Q>,
        env: Env,
        msg: T,
        out: Result<Binary, Error>,
    ) -> bool {
        exists|raw: Result<Binary, E>|
            call_ensures(self.callable(), (deps, env, msg,), raw) && normalized(raw, out)
    }

    fn call(&self, deps: Deps<'_, S, A, R, Q>, env: Env, msg: T) -> (out: Result<Binary, Error>) {
        let raw = (self.f)(deps, env, msg);
        let out = match raw {
            Ok(value) => Ok(value),
            Err(cause) => Err(cause.into()),
        };
        assert(normalized(raw, out));
        out
    }
}

/// What a call of the `query` entry point gives once the payload went
/// through the codec: what the handler yields on the decoded message, or the
/// decoding failure.
pub open spec fn dispatched_query<S: ?Sized, A: ?Sized, R: ?Sized, Q, F>(
    f: &F,
    deps: Deps<'_, S, A, R, Q>,
    env: Env,
    decoded: Result<F::Msg, StdError>,
    out: Result<Binary, Error>,
) -> bool where F: QueryFn<S, A, R, Q> {
    match decoded {
        Ok(msg) => f.yields(deps, env, msg, out),
        Err(err) => out == Err::<Binary, Error>(Error::Decoding(err)),
    }
}

/// Hands a decoded payload to the handler, or reports why there is none and
/// touches nothing: the second half of every call that starts from raw bytes.
pub fn dispatch_query<S: ?Sized, A: ?Sized, R: ?Sized, Q, F>(
    f: &F,
    deps: Deps<'_, S, A, R, Q>,
    env: Env,
    decoded: Result<F::Msg, StdError>,
) -> (out: Result<Binary, Error>) where
    F: QueryFn<S, A, R, Q>,

    requires
        decoded matches Ok(msg) ==> f.accepts(deps, env, msg),
    ensures
        dispatched_query(f, deps, env, decoded, out),
{
    match decoded {
        Ok(msg) => f.call(deps, env, msg),
        Err(err) => Err(Error::Decoding(err)),
    }
}

/// Default `sudo` entry point used when none is provided: it fails and
/// leaves the storage as it was.
pub fn default_sudo_fn<S: ?Sized, A: ?Sized, R: ?Sized, Q, C>(
    _deps: DepsMut<'_, S, A, R, Q>,
    _env: Env,
    _msg: Empty,
) -> (out: Result<
    Response<C>,
    Error,
>)
    ensures
        out == Err::<Response<C>, Error>(Error::NotImplemented(EntryPoint::Sudo)),
        &*final(_deps.storage) == &*old(_deps.storage),
{
    Err(Error::NotImplemented(EntryPoint::Sudo))
}

/// Stands for the `sudo` entry point of a contract that has none: it may
/// be called on anything and always fails, saying what is missing.
pub struct DefaultSudo;

impl<S: ?Sized, A: ?Sized, R: ?Sized, Q, C> PermissionedFn<S, A, R, Q, C> for DefaultSudo {
    type Msg = Empty;

    open spec fn accepts(&self, deps: DepsMut<'_, S, A, R, Q>, env: Env, msg: Empty) -> bool {
        true
    }

    open spec fn yields(
        &self,
        deps: DepsMut<'_, S, A, R, Q>,
        env: Env,
        msg: Empty,
        out: Result<Response<C>, Error>,
    ) -> bool {
        out == Err::<Response<C>, Error>(Error::NotImplemented(EntryPoint::Sudo))
    }

    fn call(
        &self,
        deps: DepsMut<'_, S, A, R, Q>,
        env: Env,
        msg: Empty,
    ) -> (out: Result<Response<C>, Error>) {
        default_sudo_fn::<S, A, R, Q, C>(deps, env, msg)
    }
}

/// Default `reply` entry point used when none is provided: it fails and
/// leaves the storage as it was.
pub fn default_reply_fn<S: ?Sized, A: ?Sized, R: ?Sized, Q, C>(
    _deps: DepsMut<'_, S, A, R, Q>,
    _env: Env,
    _msg: Reply,
) -> (out: Result<
    Response<C>,
    Error,
>)
    ensures
        out == Err::<Response<C>, Error>(Error::NotImplemented(EntryPoint::Reply)),
        &*final(_deps.storage) == &*old(_deps.storage),
{
    Err(Error::NotImplemented(EntryPoint::Reply))
}

/// Stands for the `reply` entry point of a contract that has none: it may
/// be called on anything and always fails, saying what is missing.
pub struct DefaultReply;

impl<S: ?Sized, A: ?Sized, R: ?Sized, Q, C> ReplyFn<S, A, R, Q, C> for DefaultReply {
    open spec fn accepts(&self, deps: DepsMut<'_, S, A, R, Q>, env: Env, msg: Reply) -> bool {
        true
    }

    open spec fn yields(
        &self,
        deps: DepsMut<'_, S, A, R, Q>,
        env: Env,
        msg: Reply,
        out: Result<Response<C>, Error>,
    ) -> bool {
        out == Err::<Response<C>, Error>(Error::NotImplemented(EntryPoint::Reply))
    }

    fn call(
        &self,
        deps: DepsMut<'_, S, A, R, Q>,
        env: Env,
        msg: Reply,
    ) -> (out: Result<Response<C>, Error>) {
        default_reply_fn::<S, A, R, Q, C>(deps, env, msg)
    }
}

/// Default `migrate` entry point used when none is provided: it fails and
/// leaves the storage as it was.
pub fn default_migrate_fn<S: ?Sized, A: ?Sized, R: ?Sized, Q, C>(
    _deps: DepsMut<'_, S, A, R, Q>,
    _env: Env,
    _msg: Empty,
) -> (out: Result<
    Response<C>,
    Error,
>)
    ensures
        out == Err::<Response<C>, Error>(Error::NotImplemented(EntryPoint::Migrate)),
        &*final(_deps.storage) == &*old(_deps.storage),
{
    Err(Error::NotImplemented(EntryPoint::Migrate))
}

/// Stands for the `migrate` entry point of a contract that has none: it may
/// be called on anything and always fails, saying what is missing.
pub struct DefaultMigrate;

impl<S: ?Sized, A: ?Sized, R: ?Sized, Q, C> PermissionedFn<S, A, R, Q, C> for DefaultMigrate {
    type Msg = Empty;

    open spec fn accepts(&self, deps: DepsMut<'_, S, A, R, Q>, env: Env, msg: Empty) -> bool {
        true
    }

    open spec fn yields(
        &self,
        deps: DepsMut<'_, S, A, R, Q>,
        env: Env,
        msg: Empty,
        out: Result<Response<C>, Error>,
    ) -> bool {
        out == Err::<Response<C>, Error>(Error::NotImplemented(EntryPoint::Migrate))
    }

    fn call(
        &self,
        deps: DepsMut<'_, S, A, R, Q>,
        env: Env,
        msg: Empty,
    ) -> (out: Result<Response<C>, Error>) {
        default_migrate_fn::<S, A, R, Q, C>(deps, env, msg)
    }
}

/// What a wrapped callable accepts and yields as an `execute` or
/// `instantiate` entry point:
/// what the callable itself accepts, and its outcomes with a failure brought
/// to the uniform error.
pub proof fn lemma_wrapped_contract<F, T, S: ?Sized, A: ?Sized, R: ?Sized, Q, C, E>(
    handler: FnWrapper<F, T>,
    deps: DepsMut<'_, S, A, R, Q>,
    env: Env,
    info: MessageInfo,
    msg: T,
    out: Result<Response<C>, Error>,
) where F: Fn(DepsMut<'_, S, A, R, Q>, Env, MessageInfo, T) -> Result<Response<C>, E>, E: Into<Error>
    ensures
        ContractFn::<S, A, R, Q, C>::accepts(&handler, deps, env, info, msg) == call_requires(
            handler.callable(),
            (deps, env, info, msg,),
        ),
        ContractFn::<S, A, R, Q, C>::yields(&handler, deps, env, info, msg, out) == (exists|raw: Result<Response<C>, E>|
            call_ensures(handler.callable(), (deps, env, info, msg,), raw) && normalized(raw, out)),
{
}

/// What a wrapped callable accepts and yields as a `sudo` or `migrate`
/// entry point:
/// what the callable itself accepts, and its outcomes with a failure brought
/// to the uniform error.
pub proof fn lemma_wrapped_permissioned<F, T, S: ?Sized, A: ?Sized, R: ?Sized, Q, C, E>(
    handler: FnWrapper<F, T>,
    deps: DepsMut<'_, S, A, R, Q>,
    env: Env,
    msg: T,
    out: Result<Response<C>, Error>,
) where F: Fn(DepsMut<'_, S, A, R, Q>, Env, T) -> Result<Response<C>, E>, E: Into<Error>
    ensures
        PermissionedFn::<S, A, R, Q, C>::accepts(&handler, deps, env, msg) == call_requires(
            handler.callable(),
            (deps, env, msg,),
        ),
        PermissionedFn::<S, A, R, Q, C>::yields(&handler, deps, env, msg, out) == (exists|raw: Result<Response<C>, E>|
            call_ensures(handler.callable(), (deps, env, msg,), raw) && normalized(raw, out)),
{
}

/// What a callable accepts and yields as a `reply` entry point: what the
/// callable itself accepts, and its outcomes with a failure brought to the
/// uniform error.
pub proof fn lemma_callable_reply<F, S: ?Sized, A: ?Sized, R: ?Sized, Q, C, E>(
    handler: F,
    deps: DepsMut<'_, S, A, R, Q>,
    env: Env,
    msg: Reply,
    out: Result<Response<C>, Error>,
) where F: Fn(DepsMut<'_, S, A, R, Q>, Env, Reply) -> Result<Response<C>, E>, E: Into<Error>
    ensures
        ReplyFn::<S, A, R, Q, C>::accepts(&handler, deps, env, msg) == call_requires(
            handler,
            (deps, env, msg,),
        ),
        ReplyFn::<S, A, R, Q, C>::yields(&handler, deps, env, msg, out) == (exists|raw: Result<Response<C>, E>|
            call_ensures(handler, (deps, env, msg,), raw) && normalized(raw, out)),
{
}

/// What a wrapped callable accepts and yields as a `query` entry point:
/// what the callable itself accepts, and its outcomes with a failure brought
/// to the uniform error.
pub proof fn lemma_wrapped_query<F, T, S: ?Sized, A: ?Sized, R: ?Sized, Q, E>(
    handler: FnWrapper<F, T>,
    deps: Deps<'_, S, A, R, Q>,
    env: Env,
    msg: T,
    out: Result<Binary, Error>,
) where F: Fn(Deps<'_, S, A, R, Q>, Env, T) -> Result<Binary, E>, E: Into<Error>
    ensures
        QueryFn::<S, A, R, Q>::accepts(&handler, deps, env, msg) == call_requires(
            handler.callable(),
            (deps, env, msg,),
        ),
        QueryFn::<S, A, R, Q>::yields(&handler, deps, env, msg, out) == (exists|raw: Result<Binary, E>|
            call_ensures(handler.callable(), (deps, env, msg,), raw) && normalized(raw, out)),
{
}

/// A payload that does not decode makes the `execute` or `instantiate` entry point fail, and
/// the failure is recoverable: it is the decoding failure, which renders as
/// the codec's error does. No response comes of it.
pub proof fn lemma_malformed_contract_payload_fails<S: ?Sized, A: ?Sized, R: ?Sized, Q, C, F>(
    f: &F,
    deps: DepsMut<'_, S, A, R, Q>,
    env: Env,
    info: MessageInfo,
    err: StdError,
    out: Result<Response<C>, Error>,
) where F: ContractFn<S, A, R, Q, C>
    requires
        dispatched_contract(f, deps, env, info, Err(err), out),
    ensures
        out == Err::<Response<C>, Error>(Error::Decoding(err)),
        out->Err_0.text() == std_error_text(err),
{
}

/// A payload that decodes to `msg` gives what the handler yields on `msg`:
/// where the handler can only succeed there, with `value`, the `execute` or `instantiate`
/// entry point succeeds with `value`.
pub proof fn lemma_decoded_contract_payload_reaches_handler<S: ?Sized, A: ?Sized, R: ?Sized, Q, C, F>(
    f: &F,
    deps: DepsMut<'_, S, A, R, Q>,
    env: Env,
    info: MessageInfo,
    msg: F::Msg,
    value: Response<C>,
    out: Result<Response<C>, Error>,
) where F: ContractFn<S, A, R, Q, C>
    requires
        dispatched_contract(f, deps, env, info, Ok(msg), out),
        forall|other: Result<Response<C>, Error>| #[trigger]
            f.yields(deps, env, info, msg, other) ==> other == Ok::<Response<C>, Error>(value),
    ensures
        out == Ok::<Response<C>, Error>(value),
{
}

/// A payload that does not decode makes the `sudo` or `migrate` entry point fail, and
/// the failure is recoverable: it is the decoding failure, which renders as
/// the codec's error does. No response comes of it.
pub proof fn lemma_malformed_permissioned_payload_fails<S: ?Sized, A: ?Sized, R: ?Sized, Q, C, F>(
    f: &F,
    deps: DepsMut<'_, S, A, R, Q>,
    env: Env,
    err: StdError,
    out: Result<Response<C>, Error>,
) where F: PermissionedFn<S, A, R, Q, C>
    requires
        dispatched_permissioned(f, deps, env, Err(err), out),
    ensures
        out == Err::<Response<C>, Error>(Error::Decoding(err)),
        out->Err_0.text() == std_error_text(err),
{
}

/// A payload that decodes to `msg` gives what the handler yields on `msg`:
/// where the handler can only succeed there, with `value`, the `sudo` or `migrate`
/// entry point succeeds with `value`.
pub proof fn lemma_decoded_permissioned_payload_reaches_handler<S: ?Sized, A: ?Sized, R: ?Sized, Q, C, F>(
    f: &F,
    deps: DepsMut<'_, S, A, R, Q>,
    env: Env,
    msg: F::Msg,
    value: Response<C>,
    out: Result<Response<C>, Error>,
) where F: PermissionedFn<S, A, R, Q, C>
    requires
        dispatched_permissioned(f, deps, env, Ok(msg), out),
        forall|other: Result<Response<C>, Error>| #[trigger]
            f.yields(deps, env, msg, other) ==> other == Ok::<Response<C>, Error>(value),
    ensures
        out == Ok::<Response<C>, Error>(value),
{
}

/// A payload that does not decode makes the `query` entry point fail, and
/// the failure is recoverable: it is the decoding failure, which renders as
/// the codec's error does. No response comes of it.
pub proof fn lemma_malformed_query_payload_fails<S: ?Sized, A: ?Sized, R: ?Sized, Q, F>(
    f: &F,
    deps: Deps<'_, S, A, R, Q>,
    env: Env,
    err: StdError,
    out: Result<Binary, Error>,
) where F: QueryFn<S, A, R, Q>
    requires
        dispatched_query(f, deps, env, Err(err), out),
    ensures
        out == Err::<Binary, Error>(Error::Decoding(err)),
        out->Err_0.text() == std_error_text(err),
{
}

/// A payload that decodes to `msg` gives what the handler yields on `msg`:
/// where the handler can only succeed there, with `value`, the `query`
/// entry point succeeds with `value`.
pub proof fn lemma_decoded_query_payload_reaches_handler<S: ?Sized, A: ?Sized, R: ?Sized, Q, F>(
    f: &F,
    deps: Deps<'_, S, A, R, Q>,
    env: Env,
    msg: F::Msg,
    value: Binary,
    out: Result<Binary, Error>,
) where F: QueryFn<S, A, R, Q>
    requires
        dispatched_query(f, deps, env, Ok(msg), out),
        forall|other: Result<Binary, Error>| #[trigger]
            f.yields(deps, env, msg, other) ==> other == Ok::<Binary, Error>(value),
    ensures
        out == Ok::<Binary, Error>(value),
{
}

/// What the default entry points yield: on every input, the failure that
/// names the missing entry point, and nothing else.
pub proof fn lemma_defaults_fail<S: ?Sized, A: ?Sized, R: ?Sized, Q, C>(
    deps: DepsMut<'_, S, A, R, Q>,
    env: Env,
    msg: Empty,
    outcome: Reply,
    out: Result<Response<C>, Error>,
)
    ensures
        PermissionedFn::<S, A, R, Q, C>::accepts(&DefaultSudo, deps, env, msg),
        PermissionedFn::<S, A, R, Q, C>::accepts(&DefaultMigrate, deps, env, msg),
        ReplyFn::<S, A, R, Q, C>::accepts(&DefaultReply, deps, env, outcome),
        PermissionedFn::<S, A, R, Q, C>::yields(&DefaultSudo, deps, env, msg, out) ==> out is Err
            && out->Err_0.text() == "Sudo not implemented on the contract"@,
        PermissionedFn::<S, A, R, Q, C>::yields(&DefaultMigrate, deps, env, msg, out) ==> out is Err
            && out->Err_0.text() == "Migrate not implemented on the contract"@,
        ReplyFn::<S, A, R, Q, C>::yields(&DefaultReply, deps, env, outcome, out) ==> out is Err
            && out->Err_0.text() == "Reply not implemented on the contract"@,
{
}

/// Utility trait to make `Fn` implementing types into `FnWrapper` so they are useable as entry
/// points for `ContractWrapper`.
pub trait WrappableFn<Msg> where Self: Sized {
    fn wrap(self) -> (out: FnWrapper<Self, Msg>)
        ensures
            out.callable() == self,
    {
        FnWrapper { f: self, _phantom: PhantomData }
    }
}

impl<T, Msg> WrappableFn<Msg> for T {
}

/// Function wrapping a type into `FnWrapper` so there is better type elision or at least nicer
/// turbofish syntax
pub fn wap<Msg, F>(f: F) -> (out: FnWrapper<F, Msg>) where F: WrappableFn<Msg>
    ensures
        out.callable() == f,
{
    f.wrap()
}

} // verus!
