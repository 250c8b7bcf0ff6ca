use runner::kconfig::{parse_config_option, OptionError};
use runner::shell::{Command, Step};
use runner::topology::{
    get_socket_threads, isolation_steps, parse_topology, socket_threads, Cpu, TopologyError,
};
use runner::zoneinfo::{remote_start_addr, ZoneError};

const ZONEINFO: &str = "Node 0, zone      DMA\n  per-node stats\n      nr_inactive_anon 0\n  pages free     3840\n        start_pfn:           1\nNode 0, zone   Normal\n  pages free     100\n        start_pfn:           1048576\nNode 1, zone   Normal\n  pages free     200\n        min      11000\n  pagesets\n    cpu: 0\n              count: 0\n  node_unreclaimable:  0\n  start_pfn:           17301504\nNode 1, zone  Movable\n  start_pfn:           0\n";

#[test]
fn remote_start_is_the_first_frame_of_the_remote_normal_zone() {
    assert_eq!(remote_start_addr(ZONEINFO), Ok(17301504 * 4096));
}

#[test]
fn remote_start_with_carriage_returns_and_no_last_line_feed() {
    let text = "Node 1, zone   Normal\r\n\tstart_pfn:\t 42 \r\nrest";
    assert_eq!(remote_start_addr(text), Ok(42 * 4096));
    assert_eq!(remote_start_addr("Node 1, zone   Normal\nstart_pfn:7"), Ok(7 * 4096));
    assert_eq!(remote_start_addr("Node 1, zone   Normal\nstart_pfn:0:9"), Ok(0));
}

#[test]
fn remote_start_takes_the_first_label_behind_the_header() {
    let text = "start_pfn: 1\nNode 1, zone   Normal\nNode 1, zone   Normal\nx: start_pfn: 2\nstart_pfn: 3\n";
    assert_eq!(remote_start_addr(text), Err(ZoneError::Malformed));
    let text = "Node 1, zone   Normal\nx start_pfn: 2\nstart_pfn: 3\n";
    assert_eq!(remote_start_addr(text), Ok(2 * 4096));
    let text = "start_pfn: 1\nNode 1, zone   Normal\nNode 1, zone   Normal\nstart_pfn: 2\nstart_pfn: 3\n";
    assert_eq!(remote_start_addr(text), Ok(2 * 4096));
}

#[test]
fn remote_start_is_not_found_without_the_zone_or_the_label() {
    assert_eq!(remote_start_addr(""), Err(ZoneError::NotFound));
    assert_eq!(remote_start_addr("Node 0, zone   Normal\n  start_pfn: 5\n"), Err(ZoneError::NotFound));
    assert_eq!(remote_start_addr("Node 1, zone   Normal\n  pages free 5\n"), Err(ZoneError::NotFound));
    assert_eq!(remote_start_addr(" Node 1, zone   Normal\n  start_pfn: 5\n"), Err(ZoneError::NotFound));
    assert_eq!(remote_start_addr("  start_pfn: 5\nNode 1, zone   Normal\n"), Err(ZoneError::NotFound));
    assert_eq!(remote_start_addr("Node 1, zone   Normal\n  start_pfn 5\n"), Err(ZoneError::NotFound));
}

#[test]
fn remote_start_is_malformed_without_a_number_that_fits() {
    assert_eq!(remote_start_addr("Node 1, zone   Normal\n  start_pfn: x\n"), Err(ZoneError::Malformed));
    assert_eq!(remote_start_addr("Node 1, zone   Normal\n  start_pfn:\n"), Err(ZoneError::Malformed));
    assert_eq!(remote_start_addr("Node 1, zone   Normal\n  start_pfn: -4\n"), Err(ZoneError::Malformed));
    let huge = format!("Node 1, zone   Normal\n  start_pfn: {}\n", usize::MAX / 4096 + 1);
    assert_eq!(remote_start_addr(&huge), Err(ZoneError::Malformed));
    let largest = format!("Node 1, zone   Normal\n  start_pfn: {}\n", usize::MAX / 4096);
    assert_eq!(remote_start_addr(&largest), Ok((usize::MAX / 4096) * 4096));
}

const LSCPU: &str = "# The following is the parsable format, which can be fed to other\n# programs.\n# CPU,Core,Socket,Node,,L1d,L1i,L2,L3\n0,0,0,0,,0,0,0,0\n1,1,1,1,,1,1,1,1\n2,2,0,0,,2,2,2,0\n3,3,1,1,,3,3,3,1\n20,0,0,0,,0,0,0,0\n21,1,1,1,,1,1,1,1\n";

#[test]
fn topology_has_one_thread_for_each_line_that_is_no_comment() {
    let cpus = parse_topology(LSCPU).unwrap();
    assert_eq!(cpus.len(), 6);
    assert_eq!(cpus[0], Cpu { thread: 0, core: 0, socket: 0 });
    assert_eq!(cpus[5], Cpu { thread: 21, core: 1, socket: 1 });
    assert_eq!(parse_topology(""), Ok(vec![]));
    assert_eq!(parse_topology("# nothing\n"), Ok(vec![]));
    assert_eq!(parse_topology(" 4,5,6 \n"), Ok(vec![Cpu { thread: 4, core: 5, socket: 6 }]));
}

#[test]
fn threads_of_one_socket_in_the_order_of_the_report() {
    assert_eq!(get_socket_threads(LSCPU, 1), Ok(vec![1, 3, 21]));
    assert_eq!(get_socket_threads(LSCPU, 0), Ok(vec![0, 2, 20]));
    assert_eq!(get_socket_threads(LSCPU, 2), Ok(vec![]));
    let cpus = vec![Cpu { thread: 9, core: 0, socket: 3 }, Cpu { thread: 8, core: 0, socket: 3 }];
    assert_eq!(socket_threads(&cpus, 3), vec![9, 8]);
}

#[test]
fn topology_is_malformed_where_a_line_lacks_three_numbers() {
    for text in ["0,0\n", "0,0,x\n", "a,0,0\n", "0,,0\n", "\n", "0,0,0\n\n1,1,1\n", "0, 0,0\n", "0;0;0\n"] {
        assert_eq!(parse_topology(text), Err(TopologyError::Malformed), "for {:?}", text);
        assert_eq!(get_socket_threads(text, 0), Err(TopologyError::Malformed), "for {:?}", text);
    }
    assert_eq!(parse_topology("0,0,x # broken\n"), Ok(vec![]));
}

fn run(text: &str) -> Step {
    Step::Run(Command { text: text.to_string(), cwd: None, use_bash: false, allow_error: false })
}

#[test]
fn isolation_rewrites_the_boot_configuration() {
    assert_eq!(
        isolation_steps(&vec![1, 3, 21]),
        vec![
            run("cat /etc/default/grub"),
            run("sed -E 's/ isolcpus=[0-9]+(,[0-9]+)*//g' \\\n        /etc/default/grub | tee /tmp/grub"),
            run("sed 's/GRUB_CMDLINE_LINUX=\"\\(.*\\)\"/GRUB_CMDLINE_LINUX=\"\\1 isolcpus=1,3,21\"/' \\\n    /tmp/grub | tee /tmp/grub2"),
            run("sudo mv /tmp/grub2 /etc/default/grub"),
            run("sudo update-grub2"),
        ]
    );
}

#[test]
fn isolation_of_no_thread_names_no_thread() {
    let steps = isolation_steps(&vec![]);
    assert_eq!(steps.len(), 5);
    assert_eq!(
        steps[2],
        run("sed 's/GRUB_CMDLINE_LINUX=\"\\(.*\\)\"/GRUB_CMDLINE_LINUX=\"\\1 isolcpus=\"/' \\\n    /tmp/grub | tee /tmp/grub2")
    );
}

#[test]
fn config_option_with_its_sign() {
    assert_eq!(parse_config_option("+CONFIG_ZSWAP"), Ok(("CONFIG_ZSWAP".to_string(), true)));
    assert_eq!(
        parse_config_option("-CONFIG_PAGE_TABLE_ISOLATION"),
        Ok(("CONFIG_PAGE_TABLE_ISOLATION".to_string(), false))
    );
    assert_eq!(parse_config_option("+a"), Ok(("a".to_string(), true)));
    assert_eq!(parse_config_option("-_9z"), Ok(("_9z".to_string(), false)));
}

#[test]
fn config_option_that_is_refused() {
    assert_eq!(parse_config_option(""), Err(OptionError::Empty));
    assert_eq!(parse_config_option("+"), Err(OptionError::Empty));
    assert_eq!(parse_config_option("-"), Err(OptionError::Empty));
    assert_eq!(parse_config_option("CONFIG_X"), Err(OptionError::MissingSign));
    assert_eq!(parse_config_option(" +CONFIG_X"), Err(OptionError::MissingSign));
    assert_eq!(parse_config_option("\u{e9}"), Err(OptionError::MissingSign));
    assert_eq!(parse_config_option("+CONFIG-X"), Err(OptionError::InvalidName));
    assert_eq!(parse_config_option("+CONFIG X"), Err(OptionError::InvalidName));
    assert_eq!(parse_config_option("-CONFIG_\u{e9}"), Err(OptionError::InvalidName));
    assert_eq!(parse_config_option("++X"), Err(OptionError::InvalidName));
}
