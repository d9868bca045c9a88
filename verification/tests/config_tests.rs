use kv_bench_core::args::{Args, Commands, ReportOptions, RunOptions};
use kv_bench_core::db;
use kv_bench_core::{Backend, Compression, LsmCompaction, Workload};

#[test]
fn canonical_backends_map_across() {
    assert_eq!(Backend::Sled.canonical(), Some(db::Backend::Sled));
    assert_eq!(Backend::Fjall.canonical(), Some(db::Backend::Fjall));
    assert_eq!(Backend::Redb.canonical(), Some(db::Backend::Redb));
    // Historical variants are documented capability gaps, not drivable
    // engines.
    assert_eq!(Backend::Bloodstone.canonical(), None);
    assert_eq!(Backend::Persy.canonical(), None);
    assert_eq!(Backend::JammDb.canonical(), None);
    assert_eq!(Backend::Nebari.canonical(), None);
    assert_eq!(Backend::Heed.canonical(), None);
    assert_eq!(Backend::RocksDb.canonical(), None);
}

#[test]
fn engine_labels_name_the_driven_versions() {
    assert_eq!(db::Backend::Sled.label(), "sled 0.34.7");
    assert_eq!(db::Backend::Fjall.label(), "fjall 2.11.2");
    assert_eq!(db::Backend::Redb.label(), "redb 4.3.0");
}

#[test]
fn compaction_labels_are_short_codes() {
    assert_eq!(LsmCompaction::Leveled.label(), "LCS");
    assert_eq!(LsmCompaction::Tiered.label(), "STCS");
}

#[test]
fn run_command_carries_the_resolved_options() {
    let args = Args {
        command: Commands::Run(RunOptions {
            backend: db::Backend::Sled,
            data_dir: String::from("/tmp/kvb_cfg"),
            out: String::from("/tmp/kvb_cfg.jsonl"),
            display_name: Some(String::from("sled test")),
            workload: kv_bench_core::workload::Workload::TimeseriesWrite,
            minutes: 1,
            granularity_ms: 500,
            cache_size: 16_000_000,
        }),
    };
    match args.command {
        Commands::Run(opts) => {
            assert_eq!(opts.backend, db::Backend::Sled);
            assert_eq!(opts.minutes, 1);
            assert_eq!(opts.granularity_ms, 500);
            assert_eq!(opts.display_name.as_deref(), Some("sled test"));
        }
        Commands::Report(_) => panic!("expected a run command"),
    }
}

#[test]
fn report_command_lists_input_files() {
    let opts = ReportOptions {
        files: vec![String::from("a.jsonl"), String::from("b.jsonl")],
        out: String::from("out.html"),
    };
    assert_eq!(opts.files.len(), 2);
    assert_eq!(opts.out, "out.html");
}

#[test]
fn legacy_configuration_round_trips_its_fields() {
    let args = kv_bench_core::Args {
        backend: Backend::Fjall,
        display_name: None,
        workload: Workload::Timeseries,
        threads: 2,
        items: 1000,
        key_size: 16,
        value_size: 128,
        lsm_kv_separation: false,
        lsm_block_size: 4096,
        lsm_compaction: LsmCompaction::Leveled,
        lsm_compression: Compression::Lz4,
        sled_flush: false,
        cache_size: 16_000_000,
        out: String::from("log.jsonl"),
        data_dir: String::from("/tmp/kvb_legacy"),
        fsync: false,
        minutes: 1,
    };
    assert_eq!(args.workload, Workload::Timeseries);
    assert_eq!(args.lsm_compression, Compression::Lz4);
    assert_eq!(args.threads, 2);
}
