use vstd::prelude::*;

verus! {

/// The packet-filter subsystem's handle type, opaque to verification; every
/// operation opens a fresh one.
#[verifier::external_type_specification]
#[verifier::external_body]
pub struct ExIPTables(iptables::IPTables);

/// Relies on iptables::new: opens a fresh IPv4 handle to the packet-filter
/// subsystem, or reports why none could be opened. The outcome depends on the
/// host, so nothing is assumed of it.
#[verifier::external_body]
pub(crate) fn fw_open() -> (r: Result<iptables::IPTables, String>) {
    match iptables::new(false) {
        Ok(handle) => Ok(handle),
        Err(e) => Err(e.to_string()),
    }
}

/// Relies on IPTables::list_chains: the names of the chains of `table`, in
/// the subsystem's output order. The subsystem's state is external, so
/// nothing is assumed of the listed names.
#[verifier::external_body]
pub(crate) fn fw_list_chains(ipt: &iptables::IPTables, table: &str) -> (r: Result<
    Vec<String>,
    String,
>) {
    match ipt.list_chains(table) {
        Ok(chains) => Ok(chains),
        Err(e) => Err(e.to_string()),
    }
}

/// Relies on IPTables::list: the rule texts of `chain`, in the subsystem's
/// output order, which is the authoritative position order. The subsystem's
/// state is external, so nothing is assumed of the listed texts.
#[verifier::external_body]
pub(crate) fn fw_list(ipt: &iptables::IPTables, table: &str, chain: &str) -> (r: Result<
    Vec<String>,
    String,
>) {
    match ipt.list(table, chain) {
        Ok(rules) => Ok(rules),
        Err(e) => Err(e.to_string()),
    }
}

/// Relies on IPTables::new_chain: asks the subsystem to create `chain` in
/// `table`; the subsystem decides whether it succeeds.
#[verifier::external_body]
pub(crate) fn fw_new_chain(ipt: &iptables::IPTables, table: &str, chain: &str) -> (r: Result<
    (),
    String,
>) {
    match ipt.new_chain(table, chain) {
        Ok(()) => Ok(()),
        Err(e) => Err(e.to_string()),
    }
}

/// Relies on IPTables::delete_chain: asks the subsystem to delete `chain`
/// from `table`; the subsystem decides whether it succeeds.
#[verifier::external_body]
pub(crate) fn fw_delete_chain(ipt: &iptables::IPTables, table: &str, chain: &str) -> (r: Result<
    (),
    String,
>) {
    match ipt.delete_chain(table, chain) {
        Ok(()) => Ok(()),
        Err(e) => Err(e.to_string()),
    }
}

/// Relies on IPTables::set_policy: asks the subsystem to set the default
/// policy of `chain`; the subsystem decides whether it succeeds.
#[verifier::external_body]
pub(crate) fn fw_set_policy(
    ipt: &iptables::IPTables,
    table: &str,
    chain: &str,
    policy: &str,
) -> (r: Result<(), String>) {
    match ipt.set_policy(table, chain, policy) {
        Ok(()) => Ok(()),
        Err(e) => Err(e.to_string()),
    }
}

/// Relies on IPTables::append: asks the subsystem to append a rule to
/// `chain`; the subsystem decides whether it succeeds.
#[verifier::external_body]
pub(crate) fn fw_append(
    ipt: &iptables::IPTables,
    table: &str,
    chain: &str,
    rule: &str,
) -> (r: Result<(), String>) {
    match ipt.append(table, chain, rule) {
        Ok(()) => Ok(()),
        Err(e) => Err(e.to_string()),
    }
}

/// Relies on IPTables::insert: asks the subsystem to insert a rule into
/// `chain` at the given position; the subsystem decides whether it succeeds.
#[verifier::external_body]
pub(crate) fn fw_insert(
    ipt: &iptables::IPTables,
    table: &str,
    chain: &str,
    rule: &str,
    position: i32,
) -> (r: Result<(), String>) {
    match ipt.insert(table, chain, rule, position) {
        Ok(()) => Ok(()),
        Err(e) => Err(e.to_string()),
    }
}

/// Relies on IPTables::delete: asks the subsystem to delete the rule with
/// exactly this text from `chain`; the subsystem decides whether it succeeds.
#[verifier::external_body]
pub(crate) fn fw_delete(
    ipt: &iptables::IPTables,
    table: &str,
    chain: &str,
    rule: &str,
) -> (r: Result<(), String>) {
    match ipt.delete(table, chain, rule) {
        Ok(()) => Ok(()),
        Err(e) => Err(e.to_string()),
    }
}

} // verus!
