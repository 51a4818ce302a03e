//! Assembling the network monitor: the builder that holds what the monitor is
//! made from, and the components that need no outside service to be made.

use vstd::prelude::*;

verus! {

/// What the network monitor is built from: its configuration, a chain client, the
/// version it reports, the node status storage and the validator cache.
pub struct NetworkMonitorBuilder<'a, C, N, S, V> {
    pub config: &'a C,
    pub nyxd_client: N,
    pub system_version: String,
    pub node_status_storage: S,
    pub validator_cache: V,
}

impl<'a, C, N, S, V> NetworkMonitorBuilder<'a, C, N, S, V> {
    /// A builder holding exactly what it is given, with its own copy of the version.
    pub fn new(
        config: &'a C,
        nyxd_client: N,
        system_version: &str,
        node_status_storage: S,
        validator_cache: V,
    ) -> (res: Self)
        ensures
            res.config == config,
            res.nyxd_client == nyxd_client,
            res.system_version@ == system_version@,
            res.node_status_storage == node_status_storage,
            res.validator_cache == validator_cache,
    {
        NetworkMonitorBuilder {
            config,
            nyxd_client,
            system_version: system_version.to_owned(),
            node_status_storage,
            validator_cache,
        }
    }
}

/// A builder for the monitor, holding clones of the storage and of the contract
/// cache.
pub fn setup<'a, C, N, S: Clone, V: Clone>(
    config: &'a C,
    nym_contract_cache_state: &V,
    storage: &S,
    nyxd_client: N,
    system_version: &str,
) -> (res: NetworkMonitorBuilder<'a, C, N, S, V>)
    ensures
        res.config == config,
        res.nyxd_client == nyxd_client,
        res.system_version@ == system_version@,
        call_ensures(S::clone, (storage,), res.node_status_storage),
        call_ensures(V::clone, (nym_contract_cache_state,), res.validator_cache),
{
    NetworkMonitorBuilder::new(
        config,
        nyxd_client,
        system_version,
        storage.clone(),
        nym_contract_cache_state.clone(),
    )
}

/// Produces the summary of a monitoring run, for the given number of test packets
/// per node; it may also print a basic report.
pub struct SummaryProducer {
    pub per_node_test_packets: usize,
    pub with_report: bool,
}

impl SummaryProducer {
    /// A producer that prints no report.
    pub fn new(per_node_test_packets: usize) -> (res: Self)
        ensures
            res.per_node_test_packets == per_node_test_packets,
            !res.with_report,
    {
        SummaryProducer { per_node_test_packets, with_report: false }
    }

    /// The same producer, printing the basic report.
    pub fn with_report(self) -> (res: Self)
        ensures
            res.per_node_test_packets == self.per_node_test_packets,
            res.with_report,
    {
        SummaryProducer { with_report: true, ..self }
    }
}

/// Receives the packets that come back from the gateways: it listens for updates
/// of the gateway clients and hands packets on to the processor.
pub struct PacketReceiver<U, P> {
    pub gateways_status_updater: U,
    pub processor_packets_sender: P,
}

impl<U, P> PacketReceiver<U, P> {
    pub fn new(gateways_status_updater: U, processor_packets_sender: P) -> (res: Self)
        ensures
            res.gateways_status_updater == gateways_status_updater,
            res.processor_packets_sender == processor_packets_sender,
    {
        PacketReceiver { gateways_status_updater, processor_packets_sender }
    }
}

/// The summary producer of the monitor: it always prints the basic report.
pub fn new_summary_producer(per_node_test_packets: usize) -> (res: SummaryProducer)
    ensures
        res.per_node_test_packets == per_node_test_packets,
        res.with_report,
{
    SummaryProducer::new(per_node_test_packets).with_report()
}

/// The packet receiver of the monitor, wired to the gateway status updates and to
/// the processor.
pub fn new_packet_receiver<U, P>(gateways_status_updater: U, processor_packets_sender: P) -> (res: PacketReceiver<U, P>)
    ensures
        res.gateways_status_updater == gateways_status_updater,
        res.processor_packets_sender == processor_packets_sender,
{
    PacketReceiver::new(gateways_status_updater, processor_packets_sender)
}

} // verus!
