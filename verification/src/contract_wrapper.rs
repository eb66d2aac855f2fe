//! The contract as the host sees it: one handler per entry point behind six
//! uniform operations.

use crate::context::{Deps, DepsMut};
use crate::entry_points::{
    decode, dispatch_contract, dispatch_permissioned, dispatch_query, dispatched_contract,
    dispatched_permissioned, dispatched_query, ContractFn, Decodable,
    DefaultMigrate, DefaultReply, DefaultSudo, PermissionedFn, QueryFn, ReplyFn,
};
use crate::error::{EntryPoint, Error};
use cosmwasm_std::{Binary, Empty, Env, MessageInfo, Reply, Response, StdError};
use serde::de::DeserializeOwned;
use vstd::prelude::*;

verus! {

/// Holds the handlers of a contract. The host calls the operations with raw
/// payloads and never sees the handlers.
pub struct ContractWrapper<ExecuteFnT, InstantiateFnT, QueryFnT, SudoFnT, ReplyFnT, MigrateFnT> {
    execute_fn: ExecuteFnT,
    instantiate_fn: InstantiateFnT,
    query_fn: QueryFnT,
    sudo_fn: SudoFnT,
    reply_fn: ReplyFnT,
    migrate_fn: MigrateFnT,
}

impl<ExecuteFnT, InstantiateFnT, QueryFnT> ContractWrapper<
    ExecuteFnT,
    InstantiateFnT,
    QueryFnT,
    DefaultSudo,
    DefaultReply,
    DefaultMigrate,
> {
    /// A contract of the three handlers that every contract has. The other
    /// three entry points get the defaults, which fail.
    pub fn new(execute_fn: ExecuteFnT, instantiate_fn: InstantiateFnT, query_fn: QueryFnT) -> (out:
        Self)
        ensures
            out.execute_handler() == execute_fn,
            out.instantiate_handler() == instantiate_fn,
            out.query_handler() == query_fn,
    {
        Self {
            execute_fn,
            instantiate_fn,
            query_fn,
            sudo_fn: DefaultSudo,
            reply_fn: DefaultReply,
            migrate_fn: DefaultMigrate,
        }
    }
}

impl<ExecuteFnT, InstantiateFnT, QueryFnT, SudoFnT, ReplyFnT, MigrateFnT> ContractWrapper<
    ExecuteFnT,
    InstantiateFnT,
    QueryFnT,
    SudoFnT,
    ReplyFnT,
    MigrateFnT,
> {
    /// The handler of `execute`.
    pub closed spec fn execute_handler(&self) -> ExecuteFnT {
        self.execute_fn
    }

    /// The handler of `instantiate`.
    pub closed spec fn instantiate_handler(&self) -> InstantiateFnT {
        self.instantiate_fn
    }

    /// The handler of `query`.
    pub closed spec fn query_handler(&self) -> QueryFnT {
        self.query_fn
    }

    /// The handler of `sudo`.
    pub closed spec fn sudo_handler(&self) -> SudoFnT {
        self.sudo_fn
    }

    /// The handler of `reply`.
    pub closed spec fn reply_handler(&self) -> ReplyFnT {
        self.reply_fn
    }

    /// The handler of `migrate`.
    pub closed spec fn migrate_handler(&self) -> MigrateFnT {
        self.migrate_fn
    }

    /// Decodes `msg` and hands it to the `execute` handler. The outcome is a
    /// decoding failure, with the storage as it was, or what the handler
    /// yields on some message. The handler's message type must be one on
    /// which decoding always comes back, see [`Decodable`].
    pub fn execute<S: ?Sized, A: ?Sized, R: ?Sized, Q, C, T>(
        &self,
        deps: DepsMut<'_, S, A, R, Q>,
        env: Env,
        info: MessageInfo,
        msg: Vec<u8>,
    ) -> (out: Result<Response<C>, Error>) where
        ExecuteFnT: ContractFn<S, A, R, Q, C, Msg = T>,
        T: DeserializeOwned + Decodable,

        requires
            T::decodes_totally(),
            forall|m: T|
                self.execute_handler().accepts(deps, env, info, m),
        ensures
            exists|decoded: Result<T, StdError>|
                dispatched_contract(&self.execute_handler(), deps, env, info, decoded, out),
            ((exists|err: StdError| out == Err::<Response<C>, Error>(Error::Decoding(err)))
                && &*final(deps.storage) == &*old(deps.storage)) || (exists|m: T|
                self.execute_handler().yields(deps, env, info, m, out)),
    {
        let decoded = decode(msg.as_slice());
        proof {
            if decoded is Ok {
                let m = decoded->Ok_0;
                assert(self.execute_handler().accepts(deps, env, info, m));
            }
        }
        let out = dispatch_contract(&self.execute_fn, deps, env, info, decoded);
        assert(dispatched_contract(&self.execute_handler(), deps, env, info, decoded, out));
        proof {
            if decoded is Ok {
                let m = decoded->Ok_0;
                assert(self.execute_handler().yields(deps, env, info, m, out));
            }
        }
        out
    }

    /// Decodes `msg` and hands it to the `instantiate` handler, as `execute`
    /// does: a decoding failure leaves the storage as it was, and the message
    /// type must be one on which decoding always comes back.
    pub fn instantiate<S: ?Sized, A: ?Sized, R: ?Sized, Q, C, T>(
        &self,
        deps: DepsMut<'_, S, A, R, Q>,
        env: Env,
        info: MessageInfo,
        msg: Vec<u8>,
    ) -> (out: Result<Response<C>, Error>) where
        InstantiateFnT: ContractFn<S, A, R, Q, C, Msg = T>,
        T: DeserializeOwned + Decodable,

        requires
            T::decodes_totally(),
            forall|m: T|
                self.instantiate_handler().accepts(deps, env, info, m),
        ensures
            exists|decoded: Result<T, StdError>|
                dispatched_contract(&self.instantiate_handler(), deps, env, info, decoded, out),
            ((exists|err: StdError| out == Err::<Response<C>, Error>(Error::Decoding(err)))
                && &*final(deps.storage) == &*old(deps.storage)) || (exists|m: T|
                self.instantiate_handler().yields(deps, env, info, m, out)),
    {
        let decoded = decode(msg.as_slice());
        proof {
            if decoded is Ok {
                let m = decoded->Ok_0;
                assert(self.instantiate_handler().accepts(deps, env, info, m));
            }
        }
        let out = dispatch_contract(&self.instantiate_fn, deps, env, info, decoded);
        assert(dispatched_contract(&self.instantiate_handler(), deps, env, info, decoded, out));
        proof {
            if decoded is Ok {
                let m = decoded->Ok_0;
                assert(self.instantiate_handler().yields(deps, env, info, m, out));
            }
        }
        out
    }

    /// Decodes `msg` and hands it to the `query` handler. The message type
    /// must be one on which decoding always comes back.
    pub fn query<S: ?Sized, A: ?Sized, R: ?Sized, Q, T>(
        &self,
        deps: Deps<'_, S, A, R, Q>,
        env: Env,
        msg: Vec<u8>,
    ) -> (out:
        Result<Binary, Error>) where
        QueryFnT: QueryFn<S, A, R, Q, Msg = T>,
        T: DeserializeOwned + Decodable,

        requires
            T::decodes_totally(),
            forall|m: T|
                self.query_handler().accepts(deps, env, m),
        ensures
            exists|decoded: Result<T, StdError>|
                dispatched_query(&self.query_handler(), deps, env, decoded, out),
            (exists|err: StdError| out == Err::<Binary, Error>(Error::Decoding(err))) || (exists|
                m: T| self.query_handler().yields(deps, env, m, out)),
    {
        let decoded = decode(msg.as_slice());
        proof {
            if decoded is Ok {
                let m = decoded->Ok_0;
                assert(self.query_handler().accepts(deps, env, m));
            }
        }
        let out = dispatch_query(&self.query_fn, deps, env, decoded);
        assert(dispatched_query(&self.query_handler(), deps, env, decoded, out));
        proof {
            if decoded is Ok {
                let m = decoded->Ok_0;
                assert(self.query_handler().yields(deps, env, m, out));
            }
        }
        out
    }

    /// Decodes `msg` and hands it to the `sudo` handler. A decoding failure
    /// leaves the storage as it was; the message type must be one on which
    /// decoding always comes back.
    pub fn sudo<S: ?Sized, A: ?Sized, R: ?Sized, Q, C, T>(
        &self,
        deps: DepsMut<'_, S, A, R, Q>,
        env: Env,
        msg: Vec<u8>,
    ) -> (out:
        Result<Response<C>, Error>) where
        SudoFnT: PermissionedFn<S, A, R, Q, C, Msg = T>,
        T: DeserializeOwned + Decodable,

        requires
            T::decodes_totally(),
            forall|m: T|
                self.sudo_handler().accepts(deps, env, m),
        ensures
            exists|decoded: Result<T, StdError>|
                dispatched_permissioned(&self.sudo_handler(), deps, env, decoded, out),
            ((exists|err: StdError| out == Err::<Response<C>, Error>(Error::Decoding(err)))
                && &*final(deps.storage) == &*old(deps.storage)) || (exists|m: T|
                self.sudo_handler().yields(deps, env, m, out)),
    {
        let decoded = decode(msg.as_slice());
        proof {
            if decoded is Ok {
                let m = decoded->Ok_0;
                assert(self.sudo_handler().accepts(deps, env, m));
            }
        }
        let out = dispatch_permissioned(&self.sudo_fn, deps, env, decoded);
        assert(dispatched_permissioned(&self.sudo_handler(), deps, env, decoded, out));
        proof {
            if decoded is Ok {
                let m = decoded->Ok_0;
                assert(self.sudo_handler().yields(deps, env, m, out));
            }
        }
        out
    }

    /// Hands the outcome of a sub-message to the `reply` handler. Nothing is
    /// decoded, so the outcome is the handler's.
    pub fn reply<S: ?Sized, A: ?Sized, R: ?Sized, Q, C>(
        &self,
        deps: DepsMut<'_, S, A, R, Q>,
        env: Env,
        msg: Reply,
    ) -> (out:
        Result<Response<C>, Error>) where ReplyFnT: ReplyFn<S, A, R, Q, C>
        requires
            self.reply_handler().accepts(deps, env, msg),
        ensures
            self.reply_handler().yields(deps, env, msg, out),
    {
        self.reply_fn.call(deps, env, msg)
    }

    /// Decodes `msg` and hands it to the `migrate` handler. A decoding failure
    /// leaves the storage as it was; the message type must be one on which
    /// decoding always comes back.
    pub fn migrate<S: ?Sized, A: ?Sized, R: ?Sized, Q, C, T>(
        &self,
        deps: DepsMut<'_, S, A, R, Q>,
        env: Env,
        msg: Vec<u8>,
    ) -> (out: Result<Response<C>, Error>) where
        MigrateFnT: PermissionedFn<S, A, R, Q, C, Msg = T>,
        T: DeserializeOwned + Decodable,

        requires
            T::decodes_totally(),
            forall|m: T|
                self.migrate_handler().accepts(deps, env, m),
        ensures
            exists|decoded: Result<T, StdError>|
                dispatched_permissioned(&self.migrate_handler(), deps, env, decoded, out),
            ((exists|err: StdError| out == Err::<Response<C>, Error>(Error::Decoding(err)))
                && &*final(deps.storage) == &*old(deps.storage)) || (exists|m: T|
                self.migrate_handler().yields(deps, env, m, out)),
    {
        let decoded = decode(msg.as_slice());
        proof {
            if decoded is Ok {
                let m = decoded->Ok_0;
                assert(self.migrate_handler().accepts(deps, env, m));
            }
        }
        let out = dispatch_permissioned(&self.migrate_fn, deps, env, decoded);
        assert(dispatched_permissioned(&self.migrate_handler(), deps, env, decoded, out));
        proof {
            if decoded is Ok {
                let m = decoded->Ok_0;
                assert(self.migrate_handler().yields(deps, env, m, out));
            }
        }
        out
    }
}

/// A contract made of the three handlers that every contract has fails on
/// the other three entry points: its `sudo`, `reply` and `migrate` handlers
/// accept every input, and whatever a call of them yields is the failure that
/// names the missing entry point.
pub proof fn lemma_new_contract_lacks_optional_entry_points<
    ExecuteFnT,
    InstantiateFnT,
    QueryFnT,
    S: ?Sized,
    A: ?Sized,
    R: ?Sized,
    Q,
    C,
>(
    contract: ContractWrapper<
        ExecuteFnT,
        InstantiateFnT,
        QueryFnT,
        DefaultSudo,
        DefaultReply,
        DefaultMigrate,
    >,
    deps: DepsMut<'_, S, A, R, Q>,
    env: Env,
    msg: Empty,
    outcome: Reply,
    out: Result<Response<C>, Error>,
)
    ensures
        PermissionedFn::<S, A, R, Q, C>::accepts(&contract.sudo_handler(), deps, env, msg),
        ReplyFn::<S, A, R, Q, C>::accepts(&contract.reply_handler(), deps, env, outcome),
        PermissionedFn::<S, A, R, Q, C>::accepts(&contract.migrate_handler(), deps, env, msg),
        PermissionedFn::<S, A, R, Q, C>::yields(&contract.sudo_handler(), deps, env, msg, out)
            ==> out == Err::<Response<C>, Error>(Error::NotImplemented(EntryPoint::Sudo)),
        ReplyFn::<S, A, R, Q, C>::yields(&contract.reply_handler(), deps, env, outcome, out)
            ==> out == Err::<Response<C>, Error>(Error::NotImplemented(EntryPoint::Reply)),
        PermissionedFn::<S, A, R, Q, C>::yields(&contract.migrate_handler(), deps, env, msg, out)
            ==> out == Err::<Response<C>, Error>(Error::NotImplemented(EntryPoint::Migrate)),
{
}

} // verus!
