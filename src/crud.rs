//! A key-value store: values are created under new keys, updated or deleted
//! under existing ones, and read back.
use vstd::prelude::*;
use crate::common::Response;

verus! {

/// The reasons for which a write is rejected.
#[derive(Clone, Copy, Debug, PartialEq, Eq, Structural)]
pub enum ContractError {
    KeyAlreadyExists {},
    KeyNotFound {},
}

#[derive(Debug)]
pub struct InstantiateMsg {}

#[derive(Debug)]
pub enum ExecuteMsg {
    Create { key: String, value: String },
    Update { key: String, value: String },
    Delete { key: String },
}

#[derive(Debug)]
pub enum QueryMsg {
    Read { key: String },
}

#[derive(Debug)]
pub struct ReadResponse {
    pub value: Option<String>,
}

/// The change a successful instruction makes to the store.
#[derive(Debug)]
pub enum StoreWrite {
    Save { key: String, value: String },
    Remove { key: String },
}

/// The key an instruction is about.
pub open spec fn key_of(msg: ExecuteMsg) -> Seq<char> {
    match msg {
        ExecuteMsg::Create { key, .. } => key@,
        ExecuteMsg::Update { key, .. } => key@,
        ExecuteMsg::Delete { key } => key@,
    }
}

/// The store after `w`.
pub open spec fn apply_write(store: Map<Seq<char>, Seq<char>>, w: StoreWrite) -> Map<
    Seq<char>,
    Seq<char>,
> {
    match w {
        StoreWrite::Save { key, value } => store.insert(key@, value@),
        StoreWrite::Remove { key } => store.remove(key@),
    }
}

/// The store after `msg`, or the error that rejects it: a key is created
/// only where absent, updated or deleted only where present.
pub open spec fn crud_outcome(store: Map<Seq<char>, Seq<char>>, msg: ExecuteMsg) -> Result<
    Map<Seq<char>, Seq<char>>,
    ContractError,
> {
    match msg {
        ExecuteMsg::Create { key, value } => if store.contains_key(key@) {
            Err(ContractError::KeyAlreadyExists {  })
        } else {
            Ok(store.insert(key@, value@))
        },
        ExecuteMsg::Update { key, value } => if !store.contains_key(key@) {
            Err(ContractError::KeyNotFound {  })
        } else {
            Ok(store.insert(key@, value@))
        },
        ExecuteMsg::Delete { key } => if !store.contains_key(key@) {
            Err(ContractError::KeyNotFound {  })
        } else {
            Ok(store.remove(key@))
        },
    }
}

impl ExecuteMsg {
    pub fn key(&self) -> (r: &String)
        ensures
            r@ == key_of(*self),
    {
        match self {
            ExecuteMsg::Create { key, .. } => key,
            ExecuteMsg::Update { key, .. } => key,
            ExecuteMsg::Delete { key } => key,
        }
    }
}

pub fn instantiate(_msg: InstantiateMsg) -> (r: Response)
    ensures
        r.messages@.len() == 0,
        r.attributes@.len() == 1,
        r.attributes@[0].key@ == "method"@,
        r.attributes@[0].value@ == "instantiate"@,
{
    Response::new().add_attribute("method", String::from_str("instantiate"))
}

/// Decides an instruction. `key_present` tells whether the instruction's key
/// is in the store; for every store that agrees with it, the write returned
/// turns the store into what `crud_outcome` gives.
pub fn execute(key_present: bool, msg: ExecuteMsg) -> (r: Result<(StoreWrite, Response), ContractError>)
    ensures
        forall|store: Map<Seq<char>, Seq<char>>|
            #![trigger crud_outcome(store, msg)]
            store.contains_key(key_of(msg)) == key_present ==> match r {
                Ok((w, _)) => crud_outcome(store, msg) == Ok::<
                    Map<Seq<char>, Seq<char>>,
                    ContractError,
                >(apply_write(store, w)),
                Err(e) => crud_outcome(store, msg) == Err::<Map<Seq<char>, Seq<char>>, ContractError>(
                    e,
                ),
            },
        r matches Ok((_, resp)) ==> resp.messages@.len() == 0 && resp.attributes@.len() >= 2
            && resp.attributes@[1].key@ == "key"@ && resp.attributes@[1].value@ == key_of(msg),
{
    match msg {
        ExecuteMsg::Create { key, value } => execute_create(key_present, key, value),
        ExecuteMsg::Update { key, value } => execute_update(key_present, key, value),
        ExecuteMsg::Delete { key } => execute_delete(key_present, key),
    }
}

fn execute_create(key_present: bool, key: String, value: String) -> (r: Result<
    (StoreWrite, Response),
    ContractError,
>)
    ensures
        key_present ==> r == Err::<(StoreWrite, Response), ContractError>(
            ContractError::KeyAlreadyExists {  },
        ),
        !key_present ==> (r matches Ok((StoreWrite::Save { key: k, value: v }, resp)) && k@ == key@
            && v@ == value@ && resp.messages@.len() == 0 && resp.attributes@.len() == 3
            && resp.attributes@[0].key@ == "action"@ && resp.attributes@[0].value@ == "create"@
            && resp.attributes@[1].key@ == "key"@ && resp.attributes@[1].value@ == key@
            && resp.attributes@[2].key@ == "value"@ && resp.attributes@[2].value@ == value@),
{
    if key_present {
        return Err(ContractError::KeyAlreadyExists {  });
    }
    let resp = Response::new().add_attribute("action", String::from_str("create")).add_attribute(
        "key",
        key.clone(),
    ).add_attribute("value", value.clone());
    Ok((StoreWrite::Save { key, value }, resp))
}

fn execute_update(key_present: bool, key: String, value: String) -> (r: Result<
    (StoreWrite, Response),
    ContractError,
>)
    ensures
        !key_present ==> r == Err::<(StoreWrite, Response), ContractError>(
            ContractError::KeyNotFound {  },
        ),
        key_present ==> (r matches Ok((StoreWrite::Save { key: k, value: v }, resp)) && k@ == key@
            && v@ == value@ && resp.messages@.len() == 0 && resp.attributes@.len() == 3
            && resp.attributes@[0].key@ == "action"@ && resp.attributes@[0].value@ == "update"@
            && resp.attributes@[1].key@ == "key"@ && resp.attributes@[1].value@ == key@
            && resp.attributes@[2].key@ == "value"@ && resp.attributes@[2].value@ == value@),
{
    if !key_present {
        return Err(ContractError::KeyNotFound {  });
    }
    let resp = Response::new().add_attribute("action", String::from_str("update")).add_attribute(
        "key",
        key.clone(),
    ).add_attribute("value", value.clone());
    Ok((StoreWrite::Save { key, value }, resp))
}

fn execute_delete(key_present: bool, key: String) -> (r: Result<(StoreWrite, Response), ContractError>)
    ensures
        !key_present ==> r == Err::<(StoreWrite, Response), ContractError>(
            ContractError::KeyNotFound {  },
        ),
        key_present ==> (r matches Ok((StoreWrite::Remove { key: k }, resp)) && k@ == key@
            && resp.messages@.len() == 0 && resp.attributes@.len() == 2
            && resp.attributes@[0].key@ == "action"@ && resp.attributes@[0].value@ == "delete"@
            && resp.attributes@[1].key@ == "key"@ && resp.attributes@[1].value@ == key@),
{
    if !key_present {
        return Err(ContractError::KeyNotFound {  });
    }
    let resp = Response::new().add_attribute("action", String::from_str("delete")).add_attribute(
        "key",
        key.clone(),
    );
    Ok((StoreWrite::Remove { key }, resp))
}

/// Answers a read instruction. `stored` is what the store holds under the
/// key asked about.
pub fn query(msg: QueryMsg, stored: Option<String>) -> (r: ReadResponse)
    ensures
        r.value == stored,
{
    match msg {
        QueryMsg::Read { key: _ } => query_read(stored),
    }
}

fn query_read(stored: Option<String>) -> (r: ReadResponse)
    ensures
        r.value == stored,
{
    ReadResponse { value: stored }
}

} // verus!
