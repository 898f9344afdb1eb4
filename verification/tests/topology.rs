use geyser_selector::geyser;
use geyser_selector::geyser::Network;
use geyser_selector::geyser::StartupType;
use geyser_selector::Heuristic;
use geyser_selector::job_runner;
use geyser_selector::queue_type::Binding;
use geyser_selector::suffix::Suffix;
use geyser_selector::suffix::SuffixError;

#[test]
fn startup_type_from_filter() {
    assert_eq!(StartupType::new(None), StartupType::All);
    assert_eq!(StartupType::new(Some(false)), StartupType::Normal);
    assert_eq!(StartupType::new(Some(true)), StartupType::Startup);
}

#[test]
fn network_ids() {
    assert_eq!(Network::Mainnet.id(), "mainnet");
    assert_eq!(Network::Devnet.id(), "devnet");
    assert_eq!(Network::Testnet.id(), "testnet");
}

#[test]
fn debug_queue_names_and_caps() {
    let suffix = Suffix::Debug("abc".to_owned());
    let qt = geyser::QueueType::new(Network::Mainnet, StartupType::All, &suffix, true).unwrap();
    assert_eq!(qt.props.exchange, "mainnet.startup-all.accounts");
    assert_eq!(qt.props.queue, "mainnet.startup-all.accounts.indexer.debug.abc");
    assert!(matches!(qt.props.binding, Binding::Fanout));
    assert_eq!(qt.props.prefetch, 4096);
    assert_eq!(qt.props.max_len_bytes, 100 * 1024 * 1024);
    assert!(qt.props.auto_delete);
    let retry = qt.props.retry.unwrap();
    assert_eq!(retry.max_tries, 3);
    assert_eq!(retry.delay_hint_ms, 500);
    assert_eq!(retry.max_delay_ms, 10 * 60 * 1000);
}

#[test]
fn production_caps_by_startup_category() {
    let suffix = Suffix::Staging;
    let qt =
        geyser::QueueType::new(Network::Devnet, StartupType::Normal, &suffix, false).unwrap();
    assert_eq!(qt.props.exchange, "devnet.accounts");
    assert_eq!(qt.props.queue, "devnet.accounts.indexer.staging");
    assert_eq!(qt.props.max_len_bytes, 4 * 1024 * 1024 * 1024);
    assert!(!qt.props.auto_delete);

    let qt =
        geyser::QueueType::new(Network::Testnet, StartupType::Startup, &suffix, false).unwrap();
    assert_eq!(qt.props.exchange, "testnet.startup.accounts");
    assert_eq!(qt.props.max_len_bytes, 50 * 1024 * 1024 * 1024);
}

#[test]
fn plain_production_name_is_rejected_in_debug_builds() {
    let err = geyser::QueueType::new(Network::Mainnet, StartupType::All, &Suffix::Production, true)
        .unwrap_err();
    assert_eq!(err, SuffixError::InvalidQueueType);
    assert!(geyser::QueueType::new(Network::Mainnet, StartupType::All, &Suffix::Production, false)
        .is_ok());
    // The unchecked variant bypasses the integrity check.
    assert!(geyser::QueueType::new(
        Network::Mainnet,
        StartupType::All,
        &Suffix::ProductionUnchecked,
        true,
    )
    .is_ok());
    assert!(!err.message().is_empty());
}

#[test]
fn job_runner_queue_names() {
    let suffix = Suffix::Staging;
    let qt = job_runner::QueueType::new("me", &suffix, false).unwrap();
    assert_eq!(qt.props.exchange, "me.jobs");
    assert_eq!(qt.props.queue, "me.jobs.runner.staging");
    assert_eq!(qt.props.prefetch, 1);
    assert_eq!(qt.props.max_len_bytes, 100 * 1024 * 1024);
    assert!(!qt.props.auto_delete);
    let retry = qt.props.retry.unwrap();
    assert_eq!(retry.max_tries, 5);
    assert_eq!(retry.delay_hint_ms, 5000);
    assert_eq!(retry.max_delay_ms, 10 * 60 * 1000);
}

#[test]
fn suffix_is_debug_only_for_debug() {
    assert!(Suffix::Debug("d".to_owned()).is_debug());
    assert!(!Suffix::Production.is_debug());
    assert!(!Suffix::Staging.is_debug());
    assert!(!Suffix::ProductionUnchecked.is_debug());
}

#[test]
fn heuristic_cell_accessors() {
    let used: Heuristic<u32> = Heuristic::Used(7);
    assert_eq!(used.try_get(), Some(&7));
    assert_eq!(*used.get(), 7);
    assert_eq!(used.into_inner(), 7);
    let mut used: Heuristic<u32> = Heuristic::Used(7);
    *used.get_mut() = 8;
    assert_eq!(used.into_inner(), 8);
    let unused: Heuristic<u32> = Heuristic::Unused;
    assert_eq!(unused.try_get(), None);
}
