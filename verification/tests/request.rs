use runner::config::{Strategy, ThrottleType, Workload};
use runner::request::{
    build_config, check_options, parse_ratio, parse_ratios, power_of_two, select_strategy,
    select_throttle, workloads_of, ConfigError, Options, Selection,
};

fn plain_options() -> Options {
    Options {
        perf_stat: false,
        perf_counters: vec![],
        disable_thp: false,
        disable_aslr: false,
        tpp: false,
        colloid: false,
        bwmfs: vec![],
        numactl: None,
        cipp: false,
        cipp_total_bw: false,
        memlat: false,
        flame_graph: false,
        bwmon: false,
        meminfo: false,
        time: false,
        quartz: None,
        msr_throttle: false,
    }
}

const STREAM: Selection = Selection::Stream;

#[test]
fn ratio_of_two_numbers() {
    assert_eq!(parse_ratio("3:1"), Ok((3, 1)));
    assert_eq!(parse_ratio("+3:010"), Ok((3, 10)));
    assert_eq!(parse_ratio("0:0"), Ok((0, 0)));
}

#[test]
fn ratio_that_is_malformed() {
    for text in ["", "3", "3:", ":1", "3:1:2", "a:1", "3 :1", "3:-1", "3;1", "99999999999999999999:1"] {
        assert_eq!(parse_ratio(text), Err(ConfigError::MalformedRatio), "for {:?}", text);
    }
}

#[test]
fn ratios_are_read_in_order() {
    let list = vec!["1:2".to_string(), "3:4".to_string()];
    assert_eq!(parse_ratios(&list), Ok(vec![(1, 2), (3, 4)]));
    assert_eq!(parse_ratios(&vec![]), Ok(vec![]));
    let bad = vec!["1:2".to_string(), "x".to_string()];
    assert_eq!(parse_ratios(&bad), Err(ConfigError::MalformedRatio));
}

#[test]
fn powers_of_two_up_to_the_word_size() {
    assert_eq!(power_of_two(0), Some(1));
    assert_eq!(power_of_two(10), Some(1024));
    assert_eq!(power_of_two((usize::BITS - 1) as usize), Some(1 << (usize::BITS - 1)));
    assert_eq!(power_of_two(usize::BITS as usize), None);
    assert_eq!(power_of_two(usize::MAX), None);
}

#[test]
fn single_workloads_with_their_defaults() {
    assert_eq!(
        workloads_of(&Selection::Merci { runs: None, threads: None }),
        Ok((vec![Workload::Merci { runs: 10, cores: None, delay: None }], true))
    );
    assert_eq!(
        workloads_of(&Selection::Merci { runs: Some(3), threads: Some(4) }),
        Ok((vec![Workload::Merci { runs: 3, cores: Some(4), delay: None }], true))
    );
    assert_eq!(
        workloads_of(&Selection::GapbsTc { runs: None }),
        Ok((vec![Workload::GapbsTc { runs: 10 }], true))
    );
    assert_eq!(
        workloads_of(&Selection::GapbsPr { runs: Some(2) }),
        Ok((vec![Workload::GapbsPr { runs: 2 }], true))
    );
    assert_eq!(
        workloads_of(&Selection::Clover { threads: None }),
        Ok((vec![Workload::CloverLeaf { threads: 10, delay: None }], true))
    );
    assert_eq!(workloads_of(&Selection::Stream), Ok((vec![Workload::Stream], true)));
    assert_eq!(
        workloads_of(&Selection::Bwaves { threads: None }),
        Ok((vec![Workload::SpecBwaves { threads: 10 }], true))
    );
    assert_eq!(
        workloads_of(&Selection::Lbm { threads: Some(2) }),
        Ok((vec![Workload::SpecLbm { threads: 2 }], true))
    );
}

#[test]
fn gups_updates_default_to_an_eighth_of_the_size() {
    assert_eq!(
        workloads_of(&Selection::Gups { threads: None, exp: 30, hot_exp: 20, updates: None }),
        Ok((vec![Workload::Gups { threads: 1, exp: 30, hot_exp: 20, num_updates: 134217728 }], true))
    );
    assert_eq!(
        workloads_of(&Selection::Gups { threads: Some(4), exp: 2, hot_exp: 1, updates: None }),
        Ok((vec![Workload::Gups { threads: 4, exp: 2, hot_exp: 1, num_updates: 0 }], true))
    );
    assert_eq!(
        workloads_of(&Selection::Gups { threads: Some(4), exp: 200, hot_exp: 1, updates: Some(77) }),
        Ok((vec![Workload::Gups { threads: 4, exp: 200, hot_exp: 1, num_updates: 77 }], true))
    );
    assert_eq!(
        workloads_of(&Selection::Gups { threads: None, exp: 200, hot_exp: 1, updates: None }),
        Err(ConfigError::OutOfRange)
    );
}

#[test]
fn redis_server_size_is_given_in_gb() {
    assert_eq!(
        workloads_of(&Selection::Redis { server_size: 4, op_count: 1000 }),
        Ok((
            vec![Workload::Redis { server_size_mb: 4096, op_count: 1000, load_before_wklds: false }],
            true
        ))
    );
    assert_eq!(
        workloads_of(&Selection::Redis { server_size: usize::MAX / 2, op_count: 1 }),
        Err(ConfigError::OutOfRange)
    );
}

#[test]
fn paired_workloads() {
    assert_eq!(
        workloads_of(&Selection::MerciTc { runs: None }),
        Ok((
            vec![
                Workload::GapbsTc { runs: 10 },
                Workload::Merci { runs: 1000, cores: None, delay: None },
            ],
            true
        ))
    );
    assert_eq!(
        workloads_of(&Selection::MerciTc { runs: Some(u64::MAX / 50) }),
        Err(ConfigError::OutOfRange)
    );
    assert_eq!(
        workloads_of(&Selection::DoubleMerci { runs: Some(5), cores: Some(8), delay: Some(30) }),
        Ok((
            vec![
                Workload::Merci { runs: 5, cores: Some(8), delay: None },
                Workload::Merci { runs: 5, cores: Some(8), delay: Some(30) },
            ],
            false
        ))
    );
    assert_eq!(
        workloads_of(&Selection::DoubleClover { threads: None, delay: Some(7) }),
        Ok((
            vec![
                Workload::CloverLeaf { threads: 10, delay: None },
                Workload::CloverLeaf { threads: 10, delay: Some(7) },
            ],
            false
        ))
    );
    assert_eq!(
        workloads_of(&Selection::GupsRedis { server_size: 2, op_count: 9, exp: 30, hot_exp: 28 }),
        Ok((
            vec![
                Workload::Gups { threads: 2, exp: 30, hot_exp: 28, num_updates: 5000000000 },
                Workload::Redis { server_size_mb: 2048, op_count: 9, load_before_wklds: false },
            ],
            false
        ))
    );
}

#[test]
fn no_selection_means_the_kernels_own_placement_and_no_throttle() {
    let c = build_config(&STREAM, plain_options()).unwrap();
    assert_eq!(c.exp, "cipp_exp");
    assert_eq!(c.workloads, vec![Workload::Stream]);
    assert_eq!(c.strategy, Strategy::Linux);
    assert_eq!(c.throttle, ThrottleType::Native);
    assert!(c.kill_after_first_done);
    assert!(!c.perf_stat && !c.disable_thp && !c.disable_aslr && !c.flame_graph);
    assert!(!c.bwmon && !c.meminfo && !c.memlat && !c.time);
    assert!(c.perf_counters.is_empty());
}

#[test]
fn options_are_carried_into_the_configuration() {
    let mut o = plain_options();
    o.perf_stat = true;
    o.perf_counters = vec!["cycles".to_string(), "instructions".to_string()];
    o.disable_thp = true;
    o.disable_aslr = true;
    o.flame_graph = true;
    o.bwmon = true;
    o.meminfo = true;
    o.time = true;
    o.colloid = true;
    o.memlat = true;
    o.quartz = Some(1500);
    let c = build_config(&Selection::DoubleClover { threads: Some(2), delay: Some(1) }, o).unwrap();
    assert!(c.perf_stat && c.disable_thp && c.disable_aslr && c.flame_graph);
    assert!(c.bwmon && c.meminfo && c.memlat && c.time);
    assert_eq!(c.perf_counters, vec!["cycles".to_string(), "instructions".to_string()]);
    assert_eq!(c.strategy, Strategy::Colloid);
    assert_eq!(c.throttle, ThrottleType::Quartz { bw: 1500 });
    assert!(!c.kill_after_first_done);
}

#[test]
fn each_strategy_alone_is_selected() {
    let mut o = plain_options();
    o.tpp = true;
    assert_eq!(build_config(&STREAM, o).unwrap().strategy, Strategy::Tpp);
    let mut o = plain_options();
    o.colloid = true;
    assert_eq!(build_config(&STREAM, o).unwrap().strategy, Strategy::Colloid);
    let mut o = plain_options();
    o.bwmfs = vec!["3:1".to_string()];
    assert_eq!(
        build_config(&STREAM, o).unwrap().strategy,
        Strategy::Bwmfs { ratios: vec![(3, 1)] }
    );
    let mut o = plain_options();
    o.numactl = Some("5:2".to_string());
    assert_eq!(
        build_config(&STREAM, o).unwrap().strategy,
        Strategy::Numactl { local: 5, remote: 2 }
    );
    let mut o = plain_options();
    o.cipp = true;
    assert_eq!(build_config(&STREAM, o).unwrap().strategy, Strategy::Cipp { total_bw: false });
    let mut o = plain_options();
    o.cipp = true;
    o.cipp_total_bw = true;
    assert_eq!(build_config(&STREAM, o).unwrap().strategy, Strategy::Cipp { total_bw: true });
}

#[test]
fn any_two_strategies_conflict() {
    for a in 0..5 {
        for b in (a + 1)..5 {
            let mut o = plain_options();
            for k in [a, b] {
                match k {
                    0 => o.tpp = true,
                    1 => o.colloid = true,
                    2 => o.bwmfs = vec!["1:1".to_string()],
                    3 => o.numactl = Some("1:1".to_string()),
                    _ => o.cipp = true,
                }
            }
            assert_eq!(check_options(&o), Some(ConfigError::ConflictingStrategies));
            assert_eq!(build_config(&STREAM, o), Err(ConfigError::ConflictingStrategies));
        }
    }
}

#[test]
fn conflicting_strategies_are_refused_before_anything_else() {
    let mut o = plain_options();
    o.tpp = true;
    o.bwmfs = vec!["nonsense".to_string()];
    o.quartz = Some(1);
    o.msr_throttle = true;
    assert_eq!(build_config(&STREAM, o), Err(ConfigError::ConflictingStrategies));
}

#[test]
fn two_throttles_conflict() {
    let mut o = plain_options();
    o.quartz = Some(100);
    o.msr_throttle = true;
    assert_eq!(build_config(&STREAM, o), Err(ConfigError::ConflictingThrottles));
    assert_eq!(select_throttle(Some(100), false), ThrottleType::Quartz { bw: 100 });
    assert_eq!(select_throttle(None, true), ThrottleType::Msr);
    assert_eq!(select_throttle(None, false), ThrottleType::Native);
}

#[test]
fn options_need_what_they_belong_to() {
    let mut o = plain_options();
    o.cipp_total_bw = true;
    assert_eq!(build_config(&STREAM, o), Err(ConfigError::MissingRequirement));
    let mut o = plain_options();
    o.memlat = true;
    assert_eq!(build_config(&STREAM, o), Err(ConfigError::MissingRequirement));
    let mut o = plain_options();
    o.perf_counters = vec!["cycles".to_string()];
    assert_eq!(build_config(&STREAM, o), Err(ConfigError::MissingRequirement));
}

#[test]
fn malformed_ratios_are_refused() {
    let mut o = plain_options();
    o.bwmfs = vec!["1:2".to_string(), "1-2".to_string()];
    assert_eq!(select_strategy(&o), Err(ConfigError::MalformedRatio));
    assert_eq!(build_config(&Selection::MerciTc { runs: None }, o), Err(ConfigError::MalformedRatio));
    let mut o = plain_options();
    o.numactl = Some("12".to_string());
    assert_eq!(build_config(&STREAM, o), Err(ConfigError::MalformedRatio));
}

#[test]
fn bandwidth_ratios_must_be_one_for_each_workload() {
    let mut o = plain_options();
    o.bwmfs = vec!["1:2".to_string(), "3:4".to_string()];
    assert_eq!(
        build_config(&STREAM, o.clone()),
        Err(ConfigError::RatioCountMismatch { workloads: 1, ratios: 2 })
    );
    let c = build_config(&Selection::MerciTc { runs: None }, o).unwrap();
    assert_eq!(c.strategy, Strategy::Bwmfs { ratios: vec![(1, 2), (3, 4)] });
    let mut o = plain_options();
    o.bwmfs = vec!["1:2".to_string()];
    assert_eq!(
        build_config(&Selection::DoubleMerci { runs: None, cores: None, delay: None }, o),
        Err(ConfigError::RatioCountMismatch { workloads: 2, ratios: 1 })
    );
}

#[test]
fn numbers_out_of_range_are_refused() {
    assert_eq!(
        build_config(&Selection::Redis { server_size: usize::MAX, op_count: 1 }, plain_options()),
        Err(ConfigError::OutOfRange)
    );
}
