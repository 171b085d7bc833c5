//! The calls into the Soroban environment. Their contracts are taken on
//! trust from the environment's source; everything else in the library is
//! proved from them.
//!
//! A table is a dictionary of the host. In it each record stands under the
//! address of its identity, as a host vector of two elements: the score as
//! a `U32` and the timestamp as a `U64`. An entry of any other shape (a
//! record kept as a structure with named fields, for one) is no record to
//! this library: it reads as absent, and a table that holds such entries
//! has to be rewritten in this shape before the library can serve it.

use vstd::prelude::*;
use crate::record::ReputationData;

verus! {

/// The host environment of the executing contract.
#[verifier::external_type_specification]
#[verifier::external_body]
pub struct ExEnv(soroban_sdk::Env);

/// A party on the ledger: an account or a contract.
#[verifier::external_type_specification]
#[verifier::external_body]
pub struct ExAddress(soroban_sdk::Address);

/// A value as the host hands it about, of whatever type.
#[verifier::external_type_specification]
#[verifier::external_body]
pub struct ExVal(soroban_sdk::Val);

/// The host's ordered dictionary.
#[verifier::external_type_specification]
#[verifier::external_body]
#[verifier::reject_recursive_types(K)]
#[verifier::reject_recursive_types(V)]
pub struct ExHostMap<K, V>(soroban_sdk::Map<K, V>);

/// The whole reputation table as the host holds it: a dictionary from
/// addresses to host values.
pub type Table = soroban_sdk::Map<soroban_sdk::Address, soroban_sdk::Val>;

/// The party that an address designates, as the bytes of its XDR form
/// (`ScAddress`). It does not depend on the environment that the address
/// was made in.
pub uninterp spec fn identity(who: soroban_sdk::Address) -> Seq<u8>;

/// The records that a table holds, each under the identity of its key: the
/// entries of the host's dictionary whose key is an address and whose value
/// is a vector of a `U32` and a `U64`. Any other entry is left out.
pub uninterp spec fn entries(table: Table) -> Map<Seq<u8>, ReputationData>;

/// `soroban_sdk::Map::new`: a dictionary without entries.
#[verifier::external_body]
pub(crate) fn table_new(env: &soroban_sdk::Env) -> (fresh: Table)
    ensures
        entries(fresh) =~= Map::empty(),
{
    soroban_sdk::Map::new(env)
}

/// `soroban_sdk::Map::try_get`: the record under the key's identity, if the
/// table holds one there. The key is first carried into the table's own
/// environment, through `ScAddress`, so that the host finds it by the party
/// it designates. The value found is converted by the host's own
/// conversion for pairs, which fails on a value of another shape where the
/// environment's would abort; such a value gives `None`.
#[verifier::external_body]
pub(crate) fn table_get(table: &Table, who: &soroban_sdk::Address) -> (found: Option<
    ReputationData,
>)
    ensures
        found == (if entries(*table).contains_key(identity(*who)) {
            Some(entries(*table)[identity(*who)])
        } else {
            None
        }),
{
    let env = table.env();
    let party = soroban_sdk::xdr::ScAddress::from(who);
    let key: soroban_sdk::Address = soroban_sdk::IntoVal::into_val(&party, env);
    let raw = table.try_get(key).ok()??;
    let pair: Result<(u32, u64), _> = soroban_sdk::TryFromVal::try_from_val(env.host(), &raw);
    pair.ok().map(|(score, timestamp)| ReputationData { score, timestamp })
}

/// `soroban_sdk::Map::set`: the record stands under the key's identity, in
/// place of what stood there; every other entry is as it was. The key is
/// first carried into the table's own environment, as in `table_get`.
#[verifier::external_body]
pub(crate) fn table_set(table: &mut Table, who: &soroban_sdk::Address, record: ReputationData)
    ensures
        entries(*final(table)) == entries(*old(table)).insert(identity(*who), record),
{
    let env = table.env().clone();
    let party = soroban_sdk::xdr::ScAddress::from(who);
    let key: soroban_sdk::Address = soroban_sdk::IntoVal::into_val(&party, &env);
    table.set(key, soroban_sdk::IntoVal::into_val(&(record.score, record.timestamp), &env))
}

} // verus!
