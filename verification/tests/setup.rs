use runner::setup::{
    benchmarks_steps, default_branch, done_command, kernel_install_steps, setup_parts,
    swap_steps, tools_steps, update_command, SetupPart,
};
use runner::shell::{Command, Step};
use runner::site::Site;

fn site() -> Site {
    Site {
        home: "/home/u".to_string(),
        results: "results/".to_string(),
        kernel: "kernel/".to_string(),
        workspace: "ws/".to_string(),
        workloads: "wk/".to_string(),
    }
}

fn run(text: &str) -> Step {
    Step::Run(Command { text: text.to_string(), cwd: None, use_bash: false, allow_error: false })
}

fn run_in(text: &str, dir: &str) -> Step {
    Step::Run(Command {
        text: text.to_string(),
        cwd: Some(dir.to_string()),
        use_bash: false,
        allow_error: false,
    })
}

#[test]
fn setup_does_what_was_asked_for_in_a_fixed_order() {
    assert_eq!(setup_parts(false, false, false, false), vec![SetupPart::Done]);
    assert_eq!(
        setup_parts(true, true, true, true),
        vec![
            SetupPart::Packages,
            SetupPart::Rust,
            SetupPart::Devices,
            SetupPart::Workspace,
            SetupPart::Benchmarks,
            SetupPart::Done,
        ]
    );
    assert_eq!(
        setup_parts(false, true, false, true),
        vec![SetupPart::Devices, SetupPart::Benchmarks, SetupPart::Done]
    );
    assert_eq!(
        setup_parts(true, false, true, false),
        vec![SetupPart::Packages, SetupPart::Rust, SetupPart::Workspace, SetupPart::Done]
    );
}

#[test]
fn setup_commands() {
    assert_eq!(update_command().text, "sudo apt update; sudo apt upgrade -y");
    assert_eq!(done_command().text, "echo DONE");
    assert_eq!(
        swap_steps(),
        vec![run("sudo sed -i 's/^.*swap.*$/#& # COMMENTED OUT BY setup_wkspc/' /etc/fstab")]
    );
    assert_eq!(
        tools_steps(&site()),
        vec![
            run_in("cd tools/; make ARCH=haswell;", "/home/u/ws/"),
            run_in("cd numactl; ./autogen.sh; ./configure; make", "/home/u/ws/"),
        ]
    );
}

#[test]
fn benchmarks_are_built_with_or_without_the_slow_parts() {
    let quick = benchmarks_steps(&site(), true);
    assert_eq!(
        quick,
        vec![
            run_in("make", "/home/u/wk//gapbs"),
            run_in("make", "/home/u/wk//redis"),
            run_in("mvn -pl site.ycsb:redis-binding -am clean package", "/home/u/wk//YCSB"),
            run_in("make", "/home/u/wk//gups_hemem"),
            run_in("cmake -Bbuild -H. -DMODEL=omp", "/home/u/wk//CloverLeaf"),
            run_in("cmake --build build", "/home/u/wk//CloverLeaf"),
            run_in("make", "/home/u/wk//stream"),
            run("mkdir -p /home/u/ws//quartz/build"),
            run_in("cmake ..", "/home/u/ws//quartz/build"),
        ]
    );
    let full = benchmarks_steps(&site(), false);
    assert_eq!(full.len(), 11);
    assert_eq!(full[0], quick[0]);
    assert_eq!(full[1], run_in("./setup_merci_books.sh", "/home/u/wk//MERCI"));
    assert_eq!(full[2], run_in("make bench-graphs", "/home/u/wk//gapbs"));
    assert_eq!(full[3..], quick[1..]);
}

#[test]
fn kernel_is_put_in_place_with_or_without_its_profiler() {
    assert_eq!(default_branch(true), "master");
    assert_eq!(default_branch(false), "main");
    assert_eq!(
        kernel_install_steps("/home/u/kernel/", "k.deb", "h.deb", false),
        vec![run_in("sudo dpkg -i k.deb h.deb", "/home/u/kernel/"), run("sudo grub-set-default 0")]
    );
    assert_eq!(
        kernel_install_steps("/home/u/kernel/", "k.deb", "h.deb", true),
        vec![
            run_in("sudo dpkg -i k.deb h.deb", "/home/u/kernel/"),
            run("sudo grub-set-default 0"),
            run_in("make", "/home/u/kernel//tools/perf/"),
            run("sudo rm -f /usr/bin/perf"),
            run("sudo ln -s /home/u/kernel//tools/perf//perf /usr/bin/perf"),
        ]
    );
}
