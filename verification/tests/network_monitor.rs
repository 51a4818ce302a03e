use nymlib::network_monitor::{new_packet_receiver, new_summary_producer, setup, NetworkMonitorBuilder, SummaryProducer};

#[test]
fn builder_holds_what_it_is_given() {
    let config = 17u32;
    let builder = NetworkMonitorBuilder::new(&config, "client", "1.2.3", vec![1u8], "cache");
    assert_eq!(*builder.config, 17);
    assert_eq!(builder.nyxd_client, "client");
    assert_eq!(builder.system_version, "1.2.3");
    assert_eq!(builder.node_status_storage, vec![1u8]);
    assert_eq!(builder.validator_cache, "cache");
}

#[test]
fn setup_clones_storage_and_cache() {
    let config = ();
    let storage = vec![3u8, 4];
    let cache = "contracts".to_string();
    let builder = setup(&config, &cache, &storage, 9u8, "v");
    assert_eq!(builder.node_status_storage, storage);
    assert_eq!(builder.validator_cache, cache);
    assert_eq!(builder.nyxd_client, 9);
    assert_eq!(builder.system_version, "v");
}

#[test]
fn summary_producer_prints_report() {
    let producer = new_summary_producer(3);
    assert_eq!(producer.per_node_test_packets, 3);
    assert!(producer.with_report);
    assert!(!SummaryProducer::new(3).with_report);
}

#[test]
fn packet_receiver_wiring() {
    let receiver = new_packet_receiver("updates", 5u16);
    assert_eq!(receiver.gateways_status_updater, "updates");
    assert_eq!(receiver.processor_packets_sender, 5);
}
