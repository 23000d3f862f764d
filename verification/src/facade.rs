use vstd::prelude::*;

use crate::casefold::{canonical_chain_name, upper_of};
use crate::command::InsertRuleCommand;
use crate::dto::{DataMap, TablesResponse};
use crate::errors::FwError;
use crate::resolve::resolve_chain;
use crate::rules::rule_at;
use crate::subsystem::{
    fw_append, fw_delete, fw_delete_chain, fw_insert, fw_list, fw_list_chains, fw_new_chain,
    fw_open, fw_set_policy,
};

verus! {

/// The names of the five fixed tables, in their presented order.
pub open spec fn table_names() -> Seq<Seq<char>> {
    seq!["filter"@, "mangle"@, "nat"@, "raw"@, "security"@]
}

/// The fixed table listing: exactly the five tables, in order. The set is
/// static, never discovered from the subsystem.
pub fn get_tables() -> (r: TablesResponse)
    ensures
        r.tables.deep_view() == table_names(),
{
    let mut tables: Vec<String> = Vec::new();
    tables.push("filter".to_owned());
    tables.push("mangle".to_owned());
    tables.push("nat".to_owned());
    tables.push("raw".to_owned());
    tables.push("security".to_owned());
    proof {
        assert(tables.deep_view() =~= table_names());
    }
    TablesResponse { tables }
}

/// Opens one subsystem handle for a single operation; a failure to open is a
/// structured subsystem failure, never a crash.
fn open_handle() -> (r: Result<iptables::IPTables, FwError>)
    ensures
        r matches Err(e) ==> e is SubsystemFailure,
{
    match fw_open() {
        Ok(handle) => Ok(handle),
        Err(m) => Err(FwError::SubsystemFailure(m)),
    }
}

/// Lists the chains of `table` as the subsystem reports them, in its order;
/// any subsystem failure surfaces as a structured error.
pub fn get_chains(table: &str) -> (r: Result<DataMap<Vec<String>>, FwError>)
    ensures
        r matches Err(e) ==> e is SubsystemFailure,
{
    let ipt = match open_handle() {
        Ok(handle) => handle,
        Err(e) => return Err(e),
    };
    match fw_list_chains(&ipt, table) {
        Ok(chains) => Ok(DataMap { data: chains }),
        Err(m) => Err(FwError::SubsystemFailure(m)),
    }
}

/// Creates a chain under the canonical (upper-cased) form of the requested
/// name, and returns that canonical name.
pub fn add_chain(table: &str, chain: &str) -> (r: Result<DataMap<String>, FwError>)
    ensures
        r matches Ok(d) ==> d.data@ == upper_of(chain@),
        r matches Err(e) ==> e is SubsystemFailure,
{
    let canonical = canonical_chain_name(chain);
    let ipt = match open_handle() {
        Ok(handle) => handle,
        Err(e) => return Err(e),
    };
    match fw_new_chain(&ipt, table, canonical.as_str()) {
        Ok(()) => Ok(DataMap { data: canonical }),
        Err(m) => Err(FwError::SubsystemFailure(m)),
    }
}

/// Lists the rules of a chain addressed case-insensitively: resolves the
/// requested name against the subsystem's chain list, then lists that chain's
/// rules verbatim, in the subsystem's positional order. NotFound when no
/// chain of the table matches the requested name up to ASCII case.
pub fn get_chain_ignore_case(table: &str, chain: &str) -> (r: Result<Vec<String>, FwError>)
    ensures
        r matches Err(e) ==> e == FwError::NotFound || e is SubsystemFailure,
{
    let ipt = match open_handle() {
        Ok(handle) => handle,
        Err(e) => return Err(e),
    };
    let chains = match fw_list_chains(&ipt, table) {
        Ok(chains) => chains,
        Err(m) => return Err(FwError::SubsystemFailure(m)),
    };
    let canonical = match resolve_chain(&chains, chain) {
        Ok(c) => c,
        Err(e) => return Err(e),
    };
    match fw_list(&ipt, table, canonical.as_str()) {
        Ok(rules) => Ok(rules),
        Err(m) => Err(FwError::SubsystemFailure(m)),
    }
}

/// The rule listing of a case-insensitively addressed chain, wrapped in the
/// uniform response envelope.
pub fn get_chain(table: &str, chain: &str) -> (r: Result<DataMap<Vec<String>>, FwError>)
    ensures
        r matches Err(e) ==> e == FwError::NotFound || e is SubsystemFailure,
{
    match get_chain_ignore_case(table, chain) {
        Ok(rules) => Ok(DataMap { data: rules }),
        Err(e) => Err(e),
    }
}

/// Deletes the chain stored under the canonical (upper-cased) form of the
/// requested name; success is reported as a true flag.
pub fn delete_chain(table: &str, chain: &str) -> (r: Result<DataMap<bool>, FwError>)
    ensures
        r matches Ok(d) ==> d.data == true,
        r matches Err(e) ==> e is SubsystemFailure,
{
    let canonical = canonical_chain_name(chain);
    let ipt = match open_handle() {
        Ok(handle) => handle,
        Err(e) => return Err(e),
    };
    match fw_delete_chain(&ipt, table, canonical.as_str()) {
        Ok(()) => Ok(DataMap { data: true }),
        Err(m) => Err(FwError::SubsystemFailure(m)),
    }
}

/// Sets the default policy of `chain`, passed through to the subsystem as
/// given; success is reported as the literal "ok".
pub fn set_policy(table: &str, chain: &str, policy: &str) -> (r: Result<DataMap<String>, FwError>)
    ensures
        r matches Ok(d) ==> d.data@ == "ok"@,
        r matches Err(e) ==> e is SubsystemFailure,
{
    let ipt = match open_handle() {
        Ok(handle) => handle,
        Err(e) => return Err(e),
    };
    match fw_set_policy(&ipt, table, chain, policy) {
        Ok(()) => Ok(DataMap { data: "ok".to_owned() }),
        Err(m) => Err(FwError::SubsystemFailure(m)),
    }
}

/// Appends a rule to the chain addressed by the canonical (upper-cased) form
/// of the requested name; success is reported as the literal "ok".
pub fn append_rule(table: &str, chain: &str, rule: &str) -> (r: Result<DataMap<String>, FwError>)
    ensures
        r matches Ok(d) ==> d.data@ == "ok"@,
        r matches Err(e) ==> e is SubsystemFailure,
{
    let canonical = canonical_chain_name(chain);
    let ipt = match open_handle() {
        Ok(handle) => handle,
        Err(e) => return Err(e),
    };
    match fw_append(&ipt, table, canonical.as_str(), rule) {
        Ok(()) => Ok(DataMap { data: "ok".to_owned() }),
        Err(m) => Err(FwError::SubsystemFailure(m)),
    }
}

/// Inserts a rule at the command's position, under the chain name as given
/// (only creation and append normalize the name). The subsystem takes the
/// position as a signed number, so a position beyond that range — and only
/// such a position — is out of range here, before the subsystem is asked
/// anything; success is the literal "ok".
pub fn insert_rule(table: &str, chain: &str, command: &InsertRuleCommand) -> (r: Result<
    DataMap<String>,
    FwError,
>)
    ensures
        command.position > i32::MAX as u32 <==> (r matches Err(e) && e == FwError::OutOfRange),
        r matches Ok(d) ==> d.data@ == "ok"@,
        r matches Err(e) ==> e == FwError::OutOfRange || e is SubsystemFailure,
{
    if command.position > 0x7fff_ffff {
        return Err(FwError::OutOfRange);
    }
    let position = command.position as i32;
    let ipt = match open_handle() {
        Ok(handle) => handle,
        Err(e) => return Err(e),
    };
    match fw_insert(&ipt, table, chain, command.rule.as_str(), position) {
        Ok(()) => Ok(DataMap { data: "ok".to_owned() }),
        Err(m) => Err(FwError::SubsystemFailure(m)),
    }
}

/// Deletes the rule at a 0-based position of a case-insensitively addressed
/// chain. The rule text is re-derived from a fresh read of the chain at the
/// requested position, immediately before the subsystem is asked to delete
/// that text from the canonical chain; a position at or past the end of the
/// fresh listing is OutOfRange, never a deletion of some other rule.
pub fn delete_rule(table: &str, chain: &str, position: u32) -> (r: Result<DataMap<String>, FwError>)
    ensures
        r matches Ok(d) ==> d.data@ == "ok"@,
        r matches Err(e) ==> e == FwError::NotFound || e == FwError::OutOfRange
            || e is SubsystemFailure,
{
    let ipt = match open_handle() {
        Ok(handle) => handle,
        Err(e) => return Err(e),
    };
    let chains = match fw_list_chains(&ipt, table) {
        Ok(chains) => chains,
        Err(m) => return Err(FwError::SubsystemFailure(m)),
    };
    let canonical = match resolve_chain(&chains, chain) {
        Ok(c) => c,
        Err(e) => return Err(e),
    };
    let rules = match fw_list(&ipt, table, canonical.as_str()) {
        Ok(rules) => rules,
        Err(m) => return Err(FwError::SubsystemFailure(m)),
    };
    let text = match rule_at(&rules, position as usize) {
        Ok(t) => t,
        Err(e) => return Err(e),
    };
    match fw_delete(&ipt, table, canonical.as_str(), text.as_str()) {
        Ok(()) => Ok(DataMap { data: "ok".to_owned() }),
        Err(m) => Err(FwError::SubsystemFailure(m)),
    }
}

} // verus!
