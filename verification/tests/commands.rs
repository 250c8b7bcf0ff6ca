use runner::launch::{
    instance_path,
    clover_command, gapbs_pr_command, gapbs_tc_command, gups_command, merci_command,
    spec_command, stream_command,
};
use runner::prefix::{compose, placement, wrap, Wrapper};
use runner::config::Strategy;
use runner::shell::{join_path, Command};
use runner::site::Site;

fn site() -> Site {
    Site {
        home: "/home/u".to_string(),
        results: "results".to_string(),
        kernel: "kernel".to_string(),
        workspace: "ws".to_string(),
        workloads: "wk".to_string(),
    }
}

fn in_dir(text: &str, dir: &str) -> Command {
    Command { text: text.to_string(), cwd: Some(dir.to_string()), use_bash: false, allow_error: false }
}

#[test]
fn command_builders_set_one_thing_each() {
    let c = Command::new("ls".to_string());
    assert_eq!(c, Command { text: "ls".to_string(), cwd: None, use_bash: false, allow_error: false });
    let c = c.cwd("/tmp");
    assert_eq!(c.cwd, Some("/tmp".to_string()));
    let c = c.allow_error();
    assert!(c.allow_error && !c.use_bash);
    let c = c.use_bash();
    assert!(c.allow_error && c.use_bash);
    assert_eq!(c.text, "ls");
    assert_eq!(c.cwd, Some("/tmp".to_string()));
}

#[test]
fn paths_are_joined_with_a_slash() {
    assert_eq!(join_path("/home/u", "results/"), "/home/u/results/");
    assert_eq!(join_path("", ""), "/");
    let s = site();
    assert_eq!(s.home_path("damo"), "/home/u/damo");
    assert_eq!(s.results_path(), "/home/u/results");
    assert_eq!(s.result_path("x.merci"), "/home/u/results/x.merci");
    assert_eq!(s.kernel_path(), "/home/u/kernel");
    assert_eq!(s.kernel_file("tierinit"), "/home/u/kernel/tierinit");
    assert_eq!(s.workspace_path("tools/"), "/home/u/ws/tools/");
    assert_eq!(s.workload_path("gapbs/"), "/home/u/wk/gapbs/");
}

#[test]
fn merci_command_line() {
    assert_eq!(
        merci_command("/wk/MERCI", 10, 8, None, "taskset -c 0,1 ", "/r/x.merci"),
        in_dir(
            " taskset -c 0,1  ./bin/eval_baseline -d amazon_Books -r 10 -c 8 | sudo tee -a /r/x.merci",
            "/wk/MERCI"
        )
    );
}

#[test]
fn delayed_merci_sleeps_first_and_writes_to_a_second_file() {
    assert_eq!(
        merci_command("/wk/MERCI", 1000, 4, Some(30), "", "/r/x.merci"),
        in_dir(
            "sleep 30;  ./bin/eval_baseline -d amazon_Books -r 1000 -c 4 | sudo tee -a /r/x.merci2",
            "/wk/MERCI"
        )
    );
}

#[test]
fn gapbs_command_lines() {
    assert_eq!(
        gapbs_tc_command("/wk/gapbs/", 10, "numactl --preferred=0 ", "/r/x.gapbs"),
        in_dir(
            "numactl --preferred=0  ./tc -f benchmark/graphs/twitterU.sg -n 10 | sudo tee /r/x.gapbs",
            "/wk/gapbs/"
        )
    );
    assert_eq!(
        gapbs_pr_command("/wk/gapbs/", 3, "p ", "/r/x.gapbs"),
        in_dir("p  ./pr -g 26 -n 3 | sudo tee /r/x.gapbs", "/wk/gapbs/")
    );
}

#[test]
fn gups_command_line() {
    assert_eq!(
        gups_command("/wk/gups", 4, 30, 20, 134217728, "p ", "/r/x.gups"),
        in_dir("p  ./gups-hotset-move 4 134217728 30 8 20 n | tee /r/x.gups", "/wk/gups")
    );
}

#[test]
fn clover_command_lines() {
    assert_eq!(
        clover_command("/wk/clover", None, "p ", "/r/x.clover"),
        in_dir(
            " p  ./build/omp-cloverleaf --file ./InputDecks/clover_bm64_300.in | tee /r/x.clover",
            "/wk/clover"
        )
    );
    assert_eq!(
        clover_command("/wk/clover", Some(0), "p ", "/r/x.clover"),
        in_dir(
            "sleep 0; p  ./build/omp-cloverleaf --file ./InputDecks/clover_bm64_300.in | tee /r/x.clover2",
            "/wk/clover"
        )
    );
}

#[test]
fn stream_command_line() {
    assert_eq!(
        stream_command("/wk/stream", "", "/r/x.stream"),
        in_dir(" ./stream | tee /r/x.stream", "/wk/stream")
    );
}

#[test]
fn spec_command_line() {
    assert_eq!(
        spec_command("/wk/spec2017", "lbm_s", 12, "p ", "/r/x.spec"),
        in_dir(
            "source shrc && p  runcpu --action=run --noreportable --iterations 1 --nobuild --size ref --tune base --config spec-linux-x86.cfg --threads=12 lbm_s | tee /r/x.spec",
            "/wk/spec2017"
        )
    );
}

fn every_wrapper() -> Vec<Wrapper> {
    vec![
        Wrapper::Time { file: "/r/t.tc".to_string() },
        Wrapper::PreferLocal,
        Wrapper::Pin { cores: vec![0, 1, 2] },
        Wrapper::Counters { text: "perf stat -o x ".to_string() },
        Wrapper::Record,
    ]
}

#[test]
fn prefix_with_every_wrapper_in_order() {
    assert_eq!(
        compose(&every_wrapper()),
        "/usr/bin/time -o /r/t.tc numactl --preferred=0 taskset -c 0,1,2 perf stat -o x sudo perf record -a -g -F 1999 -o /tmp/perf.data "
    );
}

#[test]
fn prefix_follows_the_order_of_its_wrappers() {
    let mut reversed = every_wrapper();
    reversed.reverse();
    assert_eq!(
        compose(&reversed),
        "sudo perf record -a -g -F 1999 -o /tmp/perf.data perf stat -o x taskset -c 0,1,2 numactl --preferred=0 /usr/bin/time -o /r/t.tc "
    );
    let two = vec![Wrapper::PreferLocal, Wrapper::Record];
    assert_eq!(compose(&two), wrap(wrap(String::new(), &two[0]), &two[1]));
}

#[test]
fn prefix_without_wrappers_is_empty() {
    assert_eq!(compose(&vec![]), "");
    assert_eq!(compose(&vec![Wrapper::Pin { cores: vec![] }]), "taskset -c  ");
    assert_eq!(compose(&vec![Wrapper::Counters { text: String::new() }]), "");
}

#[test]
fn each_wrapper_stands_behind_what_was_there() {
    assert_eq!(wrap("x ".to_string(), &Wrapper::Time { file: "f".to_string() }), "x /usr/bin/time -o f ");
    assert_eq!(
        wrap("x ".to_string(), &Wrapper::Mount { tools: "/t".to_string(), mount: "/m".to_string() }),
        "x /t/fbmm_wrapper /m "
    );
    assert_eq!(
        wrap("x ".to_string(), &Wrapper::Interleave { numactl: "/n".to_string() }),
        "x /n/numactl -w 0,1 "
    );
    assert_eq!(wrap("x ".to_string(), &Wrapper::PreferLocal), "x numactl --preferred=0 ");
    assert_eq!(wrap("x ".to_string(), &Wrapper::Pin { cores: vec![7] }), "x taskset -c 7 ");
    assert_eq!(wrap("x ".to_string(), &Wrapper::Counters { text: "c ".to_string() }), "x c ");
    assert_eq!(
        wrap("x ".to_string(), &Wrapper::Record),
        "x sudo perf record -a -g -F 1999 -o /tmp/perf.data "
    );
}

#[test]
fn placement_of_each_strategy() {
    let s = site();
    let text = |strategy: &Strategy, i: usize| match placement(strategy, &s, i) {
        Some(w) => wrap(String::new(), &w),
        None => String::new(),
    };
    assert_eq!(placement(&Strategy::Tpp, &s, 0), None);
    assert_eq!(placement(&Strategy::Colloid, &s, 1), None);
    assert_eq!(placement(&Strategy::Linux, &s, 1), Some(Wrapper::PreferLocal));
    assert_eq!(text(&Strategy::Linux, 1), "numactl --preferred=0 ");
    assert_eq!(
        text(&Strategy::Numactl { local: 3, remote: 1 }, 0),
        "/home/u/ws/numactl//numactl -w 0,1 "
    );
    assert_eq!(text(&Strategy::Cipp { total_bw: true }, 5), "/home/u/ws/numactl//numactl -w 0,1 ");
    let mounts = Strategy::Bwmfs { ratios: vec![(1, 2), (3, 4)] };
    assert_eq!(
        placement(&mounts, &s, 0),
        Some(Wrapper::Mount { tools: "/home/u/ws/tools/".to_string(), mount: "/home/u/bwmfs1".to_string() })
    );
    assert_eq!(text(&mounts, 0), "/home/u/ws/tools//fbmm_wrapper /home/u/bwmfs1 ");
    assert_eq!(text(&mounts, 1), "/home/u/ws/tools//fbmm_wrapper /home/u/bwmfs2 ");
    assert_eq!(placement(&mounts, &s, 2), None);
    let many = Strategy::Bwmfs { ratios: vec![(1, 1); 10] };
    assert_eq!(text(&many, 9), "/home/u/ws/tools//fbmm_wrapper /home/u/bwmfs10 ");
}

#[test]
fn a_delayed_instance_writes_to_the_file_with_a_two_behind_it() {
    assert_eq!(instance_path("/r/x.clover", true), "/r/x.clover2");
    assert_eq!(instance_path("/r/x.clover", false), "/r/x.clover");
    assert_eq!(instance_path("", true), "2");
    let late = clover_command("/d", Some(7), "p ", "/r/f");
    let early = clover_command("/d", None, "p ", "/r/f");
    assert!(late.text.starts_with("sleep 7; p  ./build/omp-cloverleaf"));
    assert!(late.text.ends_with(" | tee /r/f2"));
    assert!(early.text.ends_with(" | tee /r/f"));
}
