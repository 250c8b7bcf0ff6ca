//! Setting up the limit on memory bandwidth: none, the software emulator, or a write
//! to the hardware register that limits the uncore frequency.

use vstd::prelude::*;
use vstd::string::StringExecFns;
use crate::config::ThrottleType;
use crate::shell::{
    join_path, no_steps, path, push_run, push_run_in, push_spawn, running, running_in, spawning, step_views,
    Step, StepView,
};
use crate::site::Site;
use crate::text::{decimal, push_decimal, to_chars};

verus! {

/// `s` with a backslash before every slash, as the stream editor wants it.
pub open spec fn slash_escaped(s: Seq<char>) -> Seq<char>
    decreases s.len(),
{
    if s.len() == 0 {
        Seq::empty()
    } else if s.last() == '/' {
        slash_escaped(s.drop_last()).push('\\').push('/')
    } else {
        slash_escaped(s.drop_last()).push(s.last())
    }
}

/// Writes `s` with a backslash before every slash.
pub fn escape_slashes(s: &str) -> (r: String)
    ensures
        r@ == slash_escaped(s@),
{
    let v = to_chars(s);
    let n = v.len();
    let mut r = String::new();
    let mut i: usize = 0;
    while i < n
        invariant
            i <= n,
            n == v.len(),
            r@ == slash_escaped(v@.take(i as int)),
        decreases n - i,
    {
        assert(v@.take(i + 1).drop_last() == v@.take(i as int));
        if v[i] == '/' {
            r.push('\\');
        }
        r.push(v[i]);
        i = i + 1;
    }
    assert(v@.take(n as int) == v@);
    r
}

/// The emulator's configuration for this run.
pub open spec fn emulator_ini() -> Seq<char> {
    "/tmp/nvmemul.ini"@
}

/// The environment that puts a command under the emulator.
pub open spec fn emulator_env(quartz: Seq<char>) -> Seq<char> {
    "LD_PRELOAD="@ + quartz + "/build/src/lib/libnvmemul.so NVMEMUL_INI="@ + emulator_ini() + " "@
}

/// Setting the field `field` of the emulator's configuration to the number `value`.
pub open spec fn set_number(field: Seq<char>, value: u64) -> Seq<char> {
    "sed -i 's/"@ + field + " = .*/"@ + field + " = "@ + decimal(value as nat) + "/' "@
        + emulator_ini()
}

/// Setting the field `field` of the emulator's configuration to the file `name` in the
/// home directory `home`.
pub open spec fn set_home_file(field: Seq<char>, home: Seq<char>, name: Seq<char>) -> Seq<char> {
    "sed -i 's/"@ + field + " = .*/"@ + field + " = \\\""@ + slash_escaped(home) + "\\/"@ + name
        + "\\\"/' "@ + emulator_ini()
}

/// The steps that put the machine under the emulator with `bw` MB/s: build it, copy
/// its configuration, write the bandwidth for reads and for writes and the two files
/// in which it keeps what it has measured, show the configuration, load the kernel
/// module, allow the counters to be read, run it twice with nothing to do so that it
/// fills those two files, and hold it active for two hours.
pub open spec fn emulator_plan(site: Site, bw: u64) -> Seq<StepView> {
    let quartz = site.quartz_dir();
    seq![
        running_in("make all"@, path(quartz, "build"@)),
        running("cp "@ + path(quartz, "nvmemul.ini"@) + " "@ + emulator_ini()),
        running(set_number("read"@, bw)),
        running(set_number("write"@, bw)),
        running(set_home_file("model"@, site.home@, "bandwidth_model"@)),
        running(set_home_file("mc_pci"@, site.home@, "mc_pci_bus"@)),
        running("cat "@ + emulator_ini()),
        running("sudo "@ + quartz + "/scripts/setupdev.sh load"@),
        running("echo 2 | sudo tee /sys/devices/cpu/rdpmc"@),
        running(emulator_env(quartz) + " sleep 1"@),
        running(emulator_env(quartz) + " sleep 1"@),
        spawning(emulator_env(quartz) + " sleep 7200"@),
    ]
}

/// The steps that limit the uncore frequency by writing to the register on the two
/// logical processors that stand for the two sockets. Nothing undoes them but a reboot.
pub open spec fn register_plan() -> Seq<StepView> {
    seq![
        running("sudo modprobe msr"@),
        running("sudo wrmsr -p 0 0x620 0x1e1e"@),
        running("sudo wrmsr -p 10 0x620 0x606"@),
    ]
}

/// The steps that set up the throttle `throttle`.
pub open spec fn throttle_plan(throttle: ThrottleType, site: Site) -> Seq<StepView> {
    match throttle {
        ThrottleType::Quartz { bw } => emulator_plan(site, bw),
        ThrottleType::Msr => register_plan(),
        ThrottleType::Native => Seq::empty(),
    }
}

/// Writes the environment that puts a command under the emulator, and `rest` behind it.
fn emulator_command(quartz: &str, rest: &str) -> (r: String)
    ensures
        r@ == emulator_env(quartz@) + rest@,
{
    let mut r = String::from_str("LD_PRELOAD=");
    r.append(quartz);
    r.append("/build/src/lib/libnvmemul.so NVMEMUL_INI=");
    r.append("/tmp/nvmemul.ini");
    r.append(" ");
    r.append(rest);
    r
}

/// Writes the command that sets a field of the configuration to a number.
fn set_number_command(field: &str, value: u64) -> (r: String)
    ensures
        r@ == set_number(field@, value),
{
    let mut r = String::from_str("sed -i 's/");
    r.append(field);
    r.append(" = .*/");
    r.append(field);
    r.append(" = ");
    push_decimal(&mut r, value);
    r.append("/' ");
    r.append("/tmp/nvmemul.ini");
    r
}

/// Writes the command that sets a field of the configuration to a file in `home`.
fn set_home_file_command(field: &str, home: &str, name: &str) -> (r: String)
    ensures
        r@ == set_home_file(field@, home@, name@),
{
    let mut r = String::from_str("sed -i 's/");
    r.append(field);
    r.append(" = .*/");
    r.append(field);
    r.append(" = \\\"");
    let escaped = escape_slashes(home);
    r.append(escaped.as_str());
    r.append("\\/");
    r.append(name);
    r.append("\\\"/' ");
    r.append("/tmp/nvmemul.ini");
    r
}

/// Plans the set-up of the emulator.
fn emulator_steps(site: &Site, bw: u64) -> (r: Vec<Step>)
    ensures
        step_views(r@) == emulator_plan(*site, bw),
{
    let quartz = site.workspace_path("quartz/");
    let mut steps = no_steps();
    let build = join_path(quartz.as_str(), "build");
    push_run_in(&mut steps, String::from_str("make all"), build.as_str());
    let mut copy = String::from_str("cp ");
    let ini = join_path(quartz.as_str(), "nvmemul.ini");
    copy.append(ini.as_str());
    copy.append(" ");
    copy.append("/tmp/nvmemul.ini");
    push_run(&mut steps, copy);
    push_run(&mut steps, set_number_command("read", bw));
    push_run(&mut steps, set_number_command("write", bw));
    push_run(&mut steps, set_home_file_command("model", site.home.as_str(), "bandwidth_model"));
    push_run(&mut steps, set_home_file_command("mc_pci", site.home.as_str(), "mc_pci_bus"));
    let mut show = String::from_str("cat ");
    show.append("/tmp/nvmemul.ini");
    push_run(&mut steps, show);
    let mut load = String::from_str("sudo ");
    load.append(quartz.as_str());
    load.append("/scripts/setupdev.sh load");
    push_run(&mut steps, load);
    push_run(&mut steps, String::from_str("echo 2 | sudo tee /sys/devices/cpu/rdpmc"));
    push_run(&mut steps, emulator_command(quartz.as_str(), " sleep 1"));
    push_run(&mut steps, emulator_command(quartz.as_str(), " sleep 1"));
    push_spawn(&mut steps, emulator_command(quartz.as_str(), " sleep 7200"));
    steps
}

/// Plans the set-up of the throttle: nothing for none, the emulator's preparation for
/// the emulator, the register writes for the register.
pub fn throttle_steps(throttle: &ThrottleType, site: &Site) -> (r: Vec<Step>)
    ensures
        step_views(r@) == throttle_plan(*throttle, *site),
{
    match throttle {
        ThrottleType::Quartz { bw } => emulator_steps(site, *bw),
        ThrottleType::Msr => {
            let mut steps = no_steps();
            push_run(&mut steps, String::from_str("sudo modprobe msr"));
            push_run(&mut steps, String::from_str("sudo wrmsr -p 0 0x620 0x1e1e"));
            push_run(&mut steps, String::from_str("sudo wrmsr -p 10 0x620 0x606"));
            steps
        },
        ThrottleType::Native => no_steps(),
    }
}

} // verus!
