use runner::config::{Config, Strategy, ThrottleType, Workload};
use runner::cores::{AllocError, ThreadOrder};
use runner::error::PlanError;
use runner::launch::{handed_list, launch_for, output_list, Launch, StoreSetup};
use runner::orchestrator::Phase;
use runner::phases::{
    closing_steps, host_steps, huge_page_settings, manifest_steps, sampler_steps, telemetry_steps,
    HugePageSettings,
};
use runner::plan::{first_failure, join_steps, plan_run, preload_list, JoinStep};
use runner::prefix::{compose, Wrapper};
use runner::request::{build_config, Options, Selection};
use runner::shell::{Command, Step, Task};
use runner::site::{Names, Site};
use runner::zoneinfo::remote_start_addr;

fn site() -> Site {
    Site {
        home: "/home/u".to_string(),
        results: "results".to_string(),
        kernel: "kernel".to_string(),
        workspace: "ws".to_string(),
        workloads: "wk".to_string(),
    }
}

fn names() -> Names {
    Names {
        params: "r.params".to_string(),
        perf_stat: "r.perf_stat".to_string(),
        flame_graph: "r.flamegraph.svg".to_string(),
        latency: "r.colloid.lat".to_string(),
        controller: "r.cipp".to_string(),
        bwmon: "r.bwmon".to_string(),
        merci: "r.merci".to_string(),
        gapbs: "r.gapbs".to_string(),
        gups: "r.gups".to_string(),
        clover: "r.clover".to_string(),
        ycsb: "r.ycsb".to_string(),
        stream: "r.stream".to_string(),
        spec: "r.spec".to_string(),
        vmstat: "r.vmstat".to_string(),
        pgmigrate: "r.pgmigrate".to_string(),
        damo_status: "r.damo_status".to_string(),
        meminfo: "r.meminfo".to_string(),
        time: "r.time".to_string(),
        run: "r.".to_string(),
    }
}

fn config(workloads: Vec<Workload>, strategy: Strategy) -> Config {
    Config {
        exp: "cipp_exp".to_string(),
        workloads,
        strategy,
        kill_after_first_done: true,
        perf_stat: false,
        perf_counters: vec![],
        disable_thp: false,
        disable_aslr: false,
        flame_graph: false,
        bwmon: false,
        meminfo: false,
        memlat: false,
        time: false,
        throttle: ThrottleType::Native,
    }
}

fn order(n: usize) -> ThreadOrder {
    ThreadOrder::new((0..n).collect()).unwrap()
}

fn run(text: &str) -> Step {
    Step::Run(Command { text: text.to_string(), cwd: None, use_bash: false, allow_error: false })
}

fn spawn(text: &str) -> Step {
    Step::Spawn(Command { text: text.to_string(), cwd: None, use_bash: false, allow_error: false })
}

fn shell(text: &str, dir: &str) -> Launch {
    Launch::Shell(Command {
        text: text.to_string(),
        cwd: Some(dir.to_string()),
        use_bash: false,
        allow_error: false,
    })
}

fn kill(name: &str) -> JoinStep {
    JoinStep::Kill(Command {
        text: format!("sudo pkill {}", name),
        cwd: None,
        use_bash: false,
        allow_error: true,
    })
}

#[test]
fn two_workloads_on_sixteen_threads_under_the_baseline() {
    let cfg = config(
        vec![Workload::Merci { runs: 10, cores: None, delay: None }, Workload::GapbsTc { runs: 10 }],
        Strategy::Linux,
    );
    let p = plan_run(&cfg, &site(), &names(), "{}", &order(16), Some(16), None, "").unwrap();
    assert_eq!(
        p.allocation.sets,
        vec![vec![0, 1, 2, 3, 4, 5, 6, 7], vec![8, 9, 10, 11, 12, 13, 14, 15]]
    );
    assert!(p.allocation.reserve.is_empty());
    assert_eq!(
        p.prefixes,
        vec![
            "numactl --preferred=0 taskset -c 0,1,2,3,4,5,6,7 ".to_string(),
            "numactl --preferred=0 taskset -c 8,9,10,11,12,13,14,15 ".to_string(),
        ]
    );
    assert_eq!(
        p.launches,
        vec![
            shell(
                " numactl --preferred=0 taskset -c 0,1,2,3,4,5,6,7  ./bin/eval_baseline -d amazon_Books -r 10 -c 8 | sudo tee -a /home/u/results/r.merci",
                "/home/u/wk/MERCI/4_performance_evaluation/"
            ),
            shell(
                "numactl --preferred=0 taskset -c 8,9,10,11,12,13,14,15  ./tc -f benchmark/graphs/twitterU.sg -n 10 | sudo tee /home/u/results/r.gapbs",
                "/home/u/wk/gapbs/"
            ),
        ]
    );
    assert_eq!(
        p.join,
        vec![JoinStep::Wait { workload: 0 }, kill("tc"), JoinStep::Wait { workload: 1 }]
    );
    assert!(p.strategy.is_empty());
    assert!(p.throttle.is_empty());
    assert!(p.sampler.is_empty());
    assert_eq!(p.results, "/home/u/results/r.");
    assert_eq!(p.closing, vec![run("cat /proc/vmstat | tee /home/u/results/r.vmstat")]);
}

#[test]
fn adaptive_controller_without_a_remote_normal_zone_plans_nothing() {
    let zoneinfo = "Node 0, zone   Normal\n  start_pfn: 1048576\nNode 1, zone  Movable\n  start_pfn: 5\n";
    let start = remote_start_addr(zoneinfo);
    assert!(start.is_err());
    let cfg = config(vec![Workload::Stream], Strategy::Cipp { total_bw: false });
    assert_eq!(
        plan_run(&cfg, &site(), &names(), "{}", &order(8), Some(8), start.ok(), ""),
        Err(PlanError::MissingRemoteStart)
    );
}

#[test]
fn two_delayed_instances_run_to_the_end_and_write_to_two_files() {
    let cfg = build_config(
        &Selection::DoubleClover { threads: Some(4), delay: Some(20) },
        Options {
            perf_stat: false,
            perf_counters: vec![],
            disable_thp: false,
            disable_aslr: false,
            tpp: false,
            colloid: false,
            bwmfs: vec![],
            numactl: None,
            cipp: false,
            cipp_total_bw: false,
            memlat: false,
            flame_graph: false,
            bwmon: false,
            meminfo: false,
            time: false,
            quartz: None,
            msr_throttle: false,
        },
    )
    .unwrap();
    assert!(!cfg.kill_after_first_done);
    let p = plan_run(&cfg, &site(), &names(), "{}", &order(10), None, None, "").unwrap();
    assert_eq!(p.allocation.sets, vec![vec![0, 1, 2, 3], vec![4, 5, 6, 7]]);
    assert_eq!(p.allocation.reserve, vec![8, 9]);
    assert_eq!(
        p.launches,
        vec![
            shell(
                " numactl --preferred=0 taskset -c 0,1,2,3  ./build/omp-cloverleaf --file ./InputDecks/clover_bm64_300.in | tee /home/u/results/r.clover",
                "/home/u/wk/CloverLeaf/"
            ),
            shell(
                "sleep 20; numactl --preferred=0 taskset -c 4,5,6,7  ./build/omp-cloverleaf --file ./InputDecks/clover_bm64_300.in | tee /home/u/results/r.clover2",
                "/home/u/wk/CloverLeaf/"
            ),
        ]
    );
    assert_eq!(p.join, vec![JoinStep::Wait { workload: 0 }, JoinStep::Wait { workload: 1 }]);
}

#[test]
fn a_node_that_is_too_small_plans_nothing() {
    let cfg = config(
        vec![Workload::SpecLbm { threads: 6 }, Workload::SpecBwaves { threads: 6 }],
        Strategy::Linux,
    );
    assert_eq!(
        plan_run(&cfg, &site(), &names(), "{}", &order(10), None, None, ""),
        Err(PlanError::Allocation(AllocError::Insufficient { workload: 1 }))
    );
    let same = plan_run(&cfg, &site(), &names(), "{}", &order(12), None, None, "").unwrap();
    assert_eq!(same.allocation.sets, vec![vec![0, 1, 2, 3, 4, 5], vec![6, 7, 8, 9, 10, 11]]);
}

#[test]
fn allocation_is_refused_before_the_strategy_and_the_strategy_before_the_store() {
    let huge = Workload::Redis { server_size_mb: usize::MAX, op_count: 1, load_before_wklds: false };
    let cfg = config(vec![huge], Strategy::Cipp { total_bw: false });
    assert_eq!(
        plan_run(&cfg, &site(), &names(), "{}", &order(3), None, None, ""),
        Err(PlanError::Allocation(AllocError::Insufficient { workload: 0 }))
    );
    assert_eq!(
        plan_run(&cfg, &site(), &names(), "{}", &order(4), None, None, ""),
        Err(PlanError::MissingRemoteStart)
    );
    assert_eq!(
        plan_run(&cfg, &site(), &names(), "{}", &order(4), None, Some(4096), ""),
        Err(PlanError::OutOfRange)
    );
}

#[test]
fn the_same_inputs_give_the_same_plan() {
    let mut cfg = config(
        vec![Workload::Gups { threads: 2, exp: 30, hot_exp: 20, num_updates: 8 }, Workload::Stream],
        Strategy::Numactl { local: 3, remote: 1 },
    );
    cfg.time = true;
    cfg.meminfo = true;
    let ids: Vec<usize> = vec![0, 20, 1, 21, 2, 22];
    let a = plan_run(&cfg, &site(), &names(), "{}", &ThreadOrder::new(ids.clone()).unwrap(), None, None, "");
    let b = plan_run(&cfg, &site(), &names(), "{}", &ThreadOrder::new(ids).unwrap(), None, None, "");
    assert_eq!(a, b);
    let p = a.unwrap();
    assert_eq!(p.allocation.sets, vec![vec![0, 20], vec![1, 21, 2]]);
    assert_eq!(p.allocation.reserve, vec![22]);
}

#[test]
fn every_wrapper_that_was_asked_for_stands_in_the_prefix() {
    let mut cfg = config(
        vec![
            Workload::GapbsPr { runs: 1 },
            Workload::Redis { server_size_mb: 4096, op_count: 1000, load_before_wklds: false },
        ],
        Strategy::Bwmfs { ratios: vec![(3, 1), (1, 1)] },
    );
    cfg.time = true;
    cfg.perf_stat = true;
    cfg.flame_graph = true;
    let p = plan_run(&cfg, &site(), &names(), "{}", &order(8), None, None, "perf stat -o f ").unwrap();
    assert_eq!(
        p.prefixes,
        vec![
            "/usr/bin/time -o /home/u/results/r.time.pr /home/u/ws/tools//fbmm_wrapper /home/u/bwmfs1 taskset -c 0,1,2,3 perf stat -o f sudo perf record -a -g -F 1999 -o /tmp/perf.data ".to_string(),
            "/usr/bin/time -o /home/u/results/r.time.redis-server /home/u/ws/tools//fbmm_wrapper /home/u/bwmfs2 ".to_string(),
        ]
    );
    assert_eq!(
        p.wrappers,
        vec![
            vec![
                Wrapper::Time { file: "/home/u/results/r.time.pr".to_string() },
                Wrapper::Mount {
                    tools: "/home/u/ws/tools/".to_string(),
                    mount: "/home/u/bwmfs1".to_string()
                },
                Wrapper::Pin { cores: vec![0, 1, 2, 3] },
                Wrapper::Counters { text: "perf stat -o f ".to_string() },
                Wrapper::Record,
            ],
            vec![
                Wrapper::Time { file: "/home/u/results/r.time.redis-server".to_string() },
                Wrapper::Mount {
                    tools: "/home/u/ws/tools/".to_string(),
                    mount: "/home/u/bwmfs2".to_string()
                },
            ],
        ]
    );
    assert_eq!(p.prefixes, p.wrappers.iter().map(compose).collect::<Vec<String>>());
    assert_eq!(
        p.launches[1],
        Launch::Store(StoreSetup {
            server_size_mb: 4096,
            working_set_gb: 4,
            records: 199728,
            operations: 1000,
            server_core: 4,
            client_core: 6,
            prefix: "/usr/bin/time -o /home/u/results/r.time.redis-server /home/u/ws/tools//fbmm_wrapper /home/u/bwmfs2 ".to_string(),
            result_file: "/home/u/results/r.ycsb".to_string(),
            load_first: false,
            settle_seconds: 60,
        })
    );
    assert_eq!(p.strategy.len(), 13);
    assert_eq!(
        p.closing,
        vec![
            run("cat /proc/vmstat | tee /home/u/results/r.vmstat"),
            run("sudo perf script -i /tmp/perf.data | ./FlameGraph/stackcollapse-perf.pl > /tmp/flamegraph"),
            run("./FlameGraph/flamegraph.pl /tmp/flamegraph > /home/u/results/r.flamegraph.svg"),
        ]
    );
}

#[test]
fn per_mount_strategy_with_the_wrong_number_of_ratios_plans_nothing() {
    let cfg = config(
        vec![Workload::Stream, Workload::Stream],
        Strategy::Bwmfs { ratios: vec![(3, 1)] },
    );
    assert_eq!(
        plan_run(&cfg, &site(), &names(), "{}", &order(8), None, None, ""),
        Err(PlanError::RatioCountMismatch { workloads: 2, ratios: 1 })
    );
}

#[test]
fn the_store_needs_three_threads_and_a_size_that_can_be_counted() {
    let store = Workload::Redis { server_size_mb: 2048, op_count: 7, load_before_wklds: true };
    assert_eq!(
        launch_for(&store, 3, 8, &vec![5, 25], "p ", "/r/f", &site()),
        Err(PlanError::Allocation(AllocError::Insufficient { workload: 3 }))
    );
    assert_eq!(
        launch_for(&store, 3, 8, &vec![5, 25, 6], "p ", "/r/f", &site()),
        Ok(Launch::Store(StoreSetup {
            server_size_mb: 2048,
            working_set_gb: 2,
            records: 99864,
            operations: 7,
            server_core: 5,
            client_core: 6,
            prefix: "p ".to_string(),
            result_file: "/r/f".to_string(),
            load_first: true,
            settle_seconds: 60,
        }))
    );
    let huge = Workload::Redis { server_size_mb: usize::MAX / 1024 + 1, op_count: 7, load_before_wklds: true };
    assert_eq!(
        launch_for(&huge, 0, 8, &vec![5, 25, 6, 26], "", "/r/f", &site()),
        Err(PlanError::OutOfRange)
    );
}

#[test]
fn launch_of_every_kind_that_one_command_starts() {
    let s = site();
    assert_eq!(
        launch_for(&Workload::Merci { runs: 2, cores: Some(3), delay: Some(4) }, 0, 8, &vec![0], "p ", "/r/f", &s),
        Ok(shell(
            "sleep 4; p  ./bin/eval_baseline -d amazon_Books -r 2 -c 3 | sudo tee -a /r/f2",
            "/home/u/wk/MERCI/4_performance_evaluation/"
        ))
    );
    assert_eq!(
        launch_for(&Workload::GapbsPr { runs: 2 }, 4, 8, &vec![0], "p ", "/r/f", &s),
        Ok(shell("p  ./pr -g 26 -n 2 | sudo tee /r/f", "/home/u/wk/gapbs/"))
    );
    assert_eq!(
        launch_for(&Workload::Gups { threads: 2, exp: 30, hot_exp: 20, num_updates: 8 }, 0, 8, &vec![0], "p ", "/r/f", &s),
        Ok(shell(
            "p  ./gups-hotset-move 2 8 30 8 20 n | tee /r/f",
            "/home/u/wk/gups_hemem/"
        ))
    );
    assert_eq!(
        launch_for(&Workload::Stream, 12, 8, &vec![0], "p ", "/r/f", &s),
        Ok(shell("p  ./stream | tee /r/f", "/home/u/wk/stream/"))
    );
    assert_eq!(
        launch_for(&Workload::SpecBwaves { threads: 5 }, 0, 8, &vec![0], "", "/r/f", &s),
        Ok(shell(
            "source shrc &&  runcpu --action=run --noreportable --iterations 1 --nobuild --size ref --tune base --config spec-linux-x86.cfg --threads=5 bwaves_s | tee /r/f",
            "/home/u/wk/spec2017/"
        ))
    );
    assert_eq!(
        launch_for(&Workload::SpecLbm { threads: 5 }, 1, 8, &vec![0], "", "/r/f", &s),
        Ok(shell(
            "source shrc &&  runcpu --action=run --noreportable --iterations 1 --nobuild --size ref --tune base --config spec-linux-x86.cfg --threads=5 lbm_s | tee /r/f",
            "/home/u/wk/spec2017/"
        ))
    );
}

#[test]
fn manifest_is_escaped_for_the_shell() {
    assert_eq!(
        manifest_steps(&site(), &names(), "{\"exp\":\"cipp_exp\",\"runs\":10}"),
        vec![
            run("mkdir -p /home/u/results"),
            run("echo \\{\\\"exp\\\"\\:\\\"cipp\\_exp\\\"\\,\\\"runs\\\"\\:10\\} > /home/u/results/r.params"),
        ]
    );
    assert_eq!(
        manifest_steps(&site(), &names(), "")[1],
        run("echo  > /home/u/results/r.params")
    );
}

#[test]
fn host_tuning_follows_the_configuration() {
    assert_eq!(
        host_steps(false, true),
        vec![
            Step::HugePages { on: true },
            Step::Aslr { on: false },
            run("echo performance | sudo tee /sys/devices/system/cpu/cpu*/cpufreq/scaling_governor"),
        ]
    );
    assert_eq!(
        huge_page_settings(true),
        HugePageSettings {
            enabled: "always",
            defrag: "always",
            khugepaged_defrag: 1,
            alloc_sleep_ms: 1000,
            scan_sleep_ms: 1000,
        }
    );
    assert_eq!(
        huge_page_settings(false),
        HugePageSettings {
            enabled: "never",
            defrag: "never",
            khugepaged_defrag: 0,
            alloc_sleep_ms: 1000,
            scan_sleep_ms: 1000,
        }
    );
    assert_eq!(host_steps(true, false)[0], Step::HugePages { on: false });
    assert_eq!(host_steps(true, false)[1], Step::Aslr { on: true });
}

#[test]
fn telemetry_always_samples_page_migration() {
    let migration = Step::Watch(Task {
        name: "pgmigrate".to_string(),
        period: 1,
        cmd: "cat /proc/vmstat | grep \"\\(pgmigrate_success\\|pgdemote\\)\" >> /home/u/results/r.pgmigrate".to_string(),
        marker: "/home/u/results/r.pgmigrate".to_string(),
    });
    let workloads = vec![Workload::Stream, Workload::GapbsTc { runs: 1 }];
    assert_eq!(telemetry_steps(&site(), &names(), &workloads, false), vec![migration.clone()]);
    assert_eq!(
        telemetry_steps(&site(), &names(), &workloads, true),
        vec![
            Step::Watch(Task {
                name: "meminfo".to_string(),
                period: 5,
                cmd: "sudo /home/u/ws/tools//meminfo $(pgrep -x stream | sort -n | head -n1) 0x100000000 0x1480000000 >> /home/u/results/r.meminfo.stream".to_string(),
                marker: "/home/u/results/r.meminfo.stream".to_string(),
            }),
            Step::Watch(Task {
                name: "meminfo".to_string(),
                period: 5,
                cmd: "sudo /home/u/ws/tools//meminfo $(pgrep -x tc | sort -n | head -n1) 0x100000000 0x1480000000 >> /home/u/results/r.meminfo.tc".to_string(),
                marker: "/home/u/results/r.meminfo.tc".to_string(),
            }),
            migration,
        ]
    );
    assert_eq!(telemetry_steps(&site(), &names(), &vec![], true).len(), 1);
}

#[test]
fn sampler_is_attached_to_the_first_workload() {
    let workloads = vec![Workload::GapbsPr { runs: 1 }, Workload::Stream];
    assert_eq!(sampler_steps(&site(), &names(), &workloads, false), vec![]);
    assert_eq!(sampler_steps(&site(), &names(), &vec![], true), vec![]);
    assert_eq!(
        sampler_steps(&site(), &names(), &workloads, true),
        vec![
            run("sleep 10"),
            spawn("sudo /home/u/ws/tools//bwmon 100 /home/u/results/r.bwmon $(pgrep -x pr)"),
        ]
    );
}

#[test]
fn closing_keeps_the_state_of_the_adaptive_controller() {
    assert_eq!(
        closing_steps(&site(), &names(), true, false),
        vec![
            run("cat /proc/vmstat | tee /home/u/results/r.vmstat"),
            run("sudo /home/u/damo/damo status | tee /home/u/results/r.damo_status"),
        ]
    );
}

#[test]
fn join_plan_kills_the_others_when_the_first_has_finished() {
    let w = vec![
        Workload::GapbsTc { runs: 1 },
        Workload::Merci { runs: 1, cores: None, delay: None },
        Workload::Stream,
    ];
    assert_eq!(
        join_steps(&w, true),
        vec![
            JoinStep::Wait { workload: 0 },
            kill("eval_baseline"),
            kill("stream"),
            JoinStep::Wait { workload: 1 },
            JoinStep::Wait { workload: 2 },
        ]
    );
    assert_eq!(
        join_steps(&w, false),
        vec![
            JoinStep::Wait { workload: 0 },
            JoinStep::Wait { workload: 1 },
            JoinStep::Wait { workload: 2 },
        ]
    );
    assert_eq!(join_steps(&w[..1].to_vec(), true), vec![JoinStep::Wait { workload: 0 }]);
    assert_eq!(join_steps(&vec![], true), vec![]);
}

#[test]
fn first_failure_among_what_was_awaited() {
    assert_eq!(first_failure(&vec![]), None);
    assert_eq!(first_failure(&vec![true, true]), None);
    assert_eq!(first_failure(&vec![true, false, true, false]), Some(1));
    assert_eq!(first_failure(&vec![false]), Some(0));
}

#[test]
fn each_phase_finds_its_steps_in_the_plan() {
    let mut cfg = config(vec![Workload::Stream], Strategy::Tpp);
    cfg.bwmon = true;
    cfg.throttle = ThrottleType::Msr;
    let p = plan_run(&cfg, &site(), &names(), "{}", &order(4), None, None, "").unwrap();
    assert_eq!(p.steps(Phase::Persist), Some(&p.manifest));
    assert_eq!(p.steps(Phase::Tune), Some(&p.tuning));
    assert_eq!(p.steps(Phase::Throttle), Some(&p.throttle));
    assert_eq!(p.steps(Phase::Strategy), Some(&p.strategy));
    assert_eq!(p.steps(Phase::Telemetry), Some(&p.telemetry));
    assert_eq!(p.steps(Phase::Sample), Some(&p.sampler));
    assert_eq!(p.steps(Phase::Finalize), Some(&p.closing));
    assert_eq!(p.throttle.len(), 3);
    assert_eq!(p.strategy.len(), 5);
    assert_eq!(p.sampler.len(), 2);
    for phase in [
        Phase::Prepare,
        Phase::Connect,
        Phase::Allocate,
        Phase::Wrap,
        Phase::Launch,
        Phase::Join,
        Phase::Teardown,
        Phase::Done,
        Phase::Failed,
    ] {
        assert_eq!(p.steps(phase), None);
    }
}

#[test]
fn every_workload_of_a_run_writes_into_a_file_of_its_own() {
    let workloads = vec![
        Workload::GapbsTc { runs: 1 },
        Workload::GapbsPr { runs: 1 },
        Workload::SpecBwaves { threads: 1 },
        Workload::SpecLbm { threads: 1 },
        Workload::Merci { runs: 1, cores: Some(1), delay: None },
        Workload::Merci { runs: 1, cores: Some(1), delay: None },
        Workload::CloverLeaf { threads: 1, delay: None },
        Workload::CloverLeaf { threads: 1, delay: None },
        Workload::Redis { server_size_mb: 1024, op_count: 1, load_before_wklds: false },
        Workload::Redis { server_size_mb: 1024, op_count: 1, load_before_wklds: true },
        Workload::Stream,
        Workload::Gups { threads: 1, exp: 30, hot_exp: 20, num_updates: 8 },
    ];
    let cfg = config(workloads.clone(), Strategy::Linux);
    let p = plan_run(&cfg, &site(), &names(), "{}", &order(64), None, None, "").unwrap();
    assert_eq!(
        p.outputs,
        vec![
            "/home/u/results/r.gapbs",
            "/home/u/results/r.gapbs.1",
            "/home/u/results/r.spec",
            "/home/u/results/r.spec.3",
            "/home/u/results/r.merci",
            "/home/u/results/r.merci.5",
            "/home/u/results/r.clover",
            "/home/u/results/r.clover.7",
            "/home/u/results/r.ycsb",
            "/home/u/results/r.ycsb.9",
            "/home/u/results/r.stream",
            "/home/u/results/r.gups",
        ]
    );
    assert_eq!(p.outputs, output_list(&workloads, &site(), &names()));
    for i in 0..p.outputs.len() {
        for j in 0..i {
            assert_ne!(p.outputs[i], p.outputs[j]);
        }
        match &p.launches[i] {
            Launch::Shell(command) => assert!(command.text.ends_with(&p.outputs[i])),
            Launch::Store(setup) => assert_eq!(setup.result_file, p.outputs[i]),
        }
    }
}

#[test]
fn files_differ_even_where_their_names_are_all_the_same() {
    let mut same = names();
    for name in [
        &mut same.merci,
        &mut same.gapbs,
        &mut same.gups,
        &mut same.clover,
        &mut same.ycsb,
        &mut same.stream,
        &mut same.spec,
    ] {
        *name = "out".to_string();
    }
    let workloads = vec![
        Workload::Stream,
        Workload::GapbsTc { runs: 1 },
        Workload::CloverLeaf { threads: 1, delay: Some(3) },
        Workload::Merci { runs: 1, cores: None, delay: Some(3) },
        Workload::GapbsPr { runs: 1 },
    ];
    assert_eq!(
        handed_list(&workloads, &site(), &same),
        vec![
            "/home/u/results/out",
            "/home/u/results/out.1",
            "/home/u/results/out",
            "/home/u/results/out.3.",
            "/home/u/results/out.4",
        ]
    );
    assert_eq!(
        output_list(&workloads, &site(), &same),
        vec![
            "/home/u/results/out",
            "/home/u/results/out.1",
            "/home/u/results/out2",
            "/home/u/results/out.3.2",
            "/home/u/results/out.4",
        ]
    );
}

#[test]
fn files_that_differ_already_are_called_as_their_kinds_call_them() {
    let workloads = vec![
        Workload::CloverLeaf { threads: 1, delay: None },
        Workload::CloverLeaf { threads: 1, delay: Some(9) },
        Workload::Merci { runs: 1, cores: None, delay: None },
        Workload::Merci { runs: 1, cores: None, delay: Some(9) },
        Workload::GapbsTc { runs: 1 },
        Workload::Gups { threads: 1, exp: 1, hot_exp: 1, num_updates: 1 },
        Workload::Redis { server_size_mb: 1, op_count: 1, load_before_wklds: false },
        Workload::Stream,
        Workload::SpecLbm { threads: 1 },
    ];
    assert_eq!(
        handed_list(&workloads, &site(), &names()),
        vec![
            "/home/u/results/r.clover",
            "/home/u/results/r.clover",
            "/home/u/results/r.merci",
            "/home/u/results/r.merci",
            "/home/u/results/r.gapbs",
            "/home/u/results/r.gups",
            "/home/u/results/r.ycsb",
            "/home/u/results/r.stream",
            "/home/u/results/r.spec",
        ]
    );
    assert_eq!(
        output_list(&workloads, &site(), &names()),
        vec![
            "/home/u/results/r.clover",
            "/home/u/results/r.clover2",
            "/home/u/results/r.merci",
            "/home/u/results/r.merci2",
            "/home/u/results/r.gapbs",
            "/home/u/results/r.gups",
            "/home/u/results/r.ycsb",
            "/home/u/results/r.stream",
            "/home/u/results/r.spec",
        ]
    );
}

#[test]
fn a_second_delayed_instance_gets_a_number_of_its_own() {
    let late = Workload::CloverLeaf { threads: 1, delay: Some(1) };
    let early = Workload::CloverLeaf { threads: 1, delay: None };
    let workloads = vec![early, late, late, early, late];
    let outputs = output_list(&workloads, &site(), &names());
    assert_eq!(
        outputs,
        vec![
            "/home/u/results/r.clover",
            "/home/u/results/r.clover2",
            "/home/u/results/r.clover.2.2",
            "/home/u/results/r.clover.3",
            "/home/u/results/r.clover.4.2",
        ]
    );
    let mut twelve = vec![early; 13];
    twelve[1] = late;
    twelve[2] = late;
    let outputs = output_list(&twelve, &site(), &names());
    assert_eq!(outputs[2], "/home/u/results/r.clover.2.2");
    assert_eq!(outputs[12], "/home/u/results/r.clover.12");
    for i in 0..outputs.len() {
        for j in 0..i {
            assert_ne!(outputs[i], outputs[j]);
        }
    }
}

#[test]
fn two_instances_without_a_delay_write_to_two_files() {
    let cfg = build_config(
        &Selection::DoubleMerci { runs: None, cores: Some(2), delay: None },
        Options {
            perf_stat: false,
            perf_counters: vec![],
            disable_thp: false,
            disable_aslr: false,
            tpp: false,
            colloid: false,
            bwmfs: vec![],
            numactl: None,
            cipp: false,
            cipp_total_bw: false,
            memlat: false,
            flame_graph: false,
            bwmon: false,
            meminfo: false,
            time: false,
            quartz: None,
            msr_throttle: false,
        },
    )
    .unwrap();
    let p = plan_run(&cfg, &site(), &names(), "{}", &order(4), None, None, "").unwrap();
    assert_eq!(p.outputs, vec!["/home/u/results/r.merci", "/home/u/results/r.merci.1"]);
    assert_eq!(
        p.launches,
        vec![
            shell(
                " numactl --preferred=0 taskset -c 0,1  ./bin/eval_baseline -d amazon_Books -r 10 -c 2 | sudo tee -a /home/u/results/r.merci",
                "/home/u/wk/MERCI/4_performance_evaluation/"
            ),
            shell(
                " numactl --preferred=0 taskset -c 2,3  ./bin/eval_baseline -d amazon_Books -r 10 -c 2 | sudo tee -a /home/u/results/r.merci.1",
                "/home/u/wk/MERCI/4_performance_evaluation/"
            ),
        ]
    );
    assert_eq!(p.join, vec![JoinStep::Wait { workload: 0 }, JoinStep::Wait { workload: 1 }]);
}

#[test]
fn stores_that_ask_for_it_are_loaded_before_the_first_start() {
    let store = |first: bool| Workload::Redis { server_size_mb: 1024, op_count: 1, load_before_wklds: first };
    let workloads = vec![store(true), Workload::Stream, store(false), store(true)];
    assert_eq!(preload_list(&workloads), vec![0, 3]);
    assert_eq!(preload_list(&vec![store(false), Workload::Stream]), Vec::<usize>::new());
    assert_eq!(preload_list(&vec![]), Vec::<usize>::new());
    let cfg = config(workloads, Strategy::Linux);
    let p = plan_run(&cfg, &site(), &names(), "{}", &order(16), None, None, "").unwrap();
    assert_eq!(p.preload, vec![0, 3]);
    for (i, launch) in p.launches.iter().enumerate() {
        if let Launch::Store(setup) = launch {
            assert_eq!(setup.load_first, p.preload.contains(&i));
        }
    }
    let none = plan_run(
        &config(vec![store(false)], Strategy::Linux),
        &site(),
        &names(),
        "{}",
        &order(4),
        None,
        None,
        "",
    )
    .unwrap();
    assert!(none.preload.is_empty());
}

#[test]
fn two_instances_of_one_kind_are_timed_and_sampled_into_files_of_their_own() {
    let mut cfg = config(
        vec![
            Workload::CloverLeaf { threads: 2, delay: None },
            Workload::CloverLeaf { threads: 2, delay: Some(5) },
        ],
        Strategy::Tpp,
    );
    cfg.time = true;
    cfg.meminfo = true;
    let p = plan_run(&cfg, &site(), &names(), "{}", &order(4), None, None, "").unwrap();
    assert_eq!(
        p.prefixes,
        vec![
            "/usr/bin/time -o /home/u/results/r.time.omp-cloverleaf taskset -c 0,1 ".to_string(),
            "/usr/bin/time -o /home/u/results/r.time.omp-cloverleaf.1 taskset -c 2,3 ".to_string(),
        ]
    );
    let markers: Vec<String> = p
        .telemetry
        .iter()
        .map(|step| match step {
            Step::Watch(task) => task.marker.clone(),
            other => panic!("{:?} is no background task", other),
        })
        .collect();
    assert_eq!(
        markers,
        vec![
            "/home/u/results/r.meminfo.omp-cloverleaf",
            "/home/u/results/r.meminfo.omp-cloverleaf.1",
            "/home/u/results/r.pgmigrate",
        ]
    );
}
