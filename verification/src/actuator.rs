//! Applying a cap: one write per logical core, each to that core's control
//! file. This module says what is written where; the driver writes.

use vstd::prelude::*;
use crate::decimal::{decimal_text, file_value, is_whitespace, lemma_file_round_trip, push_decimal};

verus! {

/// One write that applies a cap to one core.
#[derive(Debug, PartialEq, Eq)]
pub struct CoreWrite {
    /// The core's control file.
    pub path: String,
    /// What is written to it: the cap and a newline.
    pub content: String,
}

/// The control file through which the cap of the core `core` is set.
pub open spec fn cap_file(core: nat) -> Seq<char> {
    "/sys/devices/system/cpu/cpu"@ + decimal_text(core) + "/cpufreq/scaling_max_freq"@
}

/// What is written to a control file to set the cap `freq`.
pub open spec fn cap_line(freq: nat) -> Seq<char> {
    decimal_text(freq) + seq!['\n']
}

/// `plan` sets the cap `freq` on the cores `0` up to `cores`, one write for
/// each core and in the order of the cores.
pub open spec fn is_plan(plan: Seq<CoreWrite>, freq: nat, cores: nat) -> bool {
    &&& plan.len() == cores
    &&& forall|core: int|
        0 <= core < cores ==> (#[trigger] plan[core]).path@ == cap_file(core as nat)
            && plan[core].content@ == cap_line(freq)
}

/// The number of logical cores, from `num_cpus::get`. It differs from
/// machine to machine and from run to run; the crate documents that it is
/// never less than one, and that is all this contract takes from it.
#[verifier::external_body]
pub(crate) fn cpu_count() -> (count: usize)
    ensures
        count >= 1,
{
    num_cpus::get()
}

/// The write that sets the cap `freq` on the core `core`.
pub fn core_write(freq: u64, core: usize) -> (write: CoreWrite)
    ensures
        write.path@ == cap_file(core as nat),
        write.content@ == cap_line(freq as nat),
{
    let mut path = String::from_str("/sys/devices/system/cpu/cpu");
    push_decimal(&mut path, core as u64);
    path.append("/cpufreq/scaling_max_freq");
    let mut content = String::new();
    push_decimal(&mut content, freq);
    content.append("\n");
    proof {
        reveal_strlit("\n");
        assert("\n"@ =~= seq!['\n']);
        assert(content@ =~= cap_line(freq as nat));
    }
    CoreWrite { path, content }
}

/// The writes that set the cap `freq` on each of `cores` cores.
pub fn plan_writes(freq: u64, cores: usize) -> (plan: Vec<CoreWrite>)
    ensures
        is_plan(plan@, freq as nat, cores as nat),
{
    let mut plan: Vec<CoreWrite> = Vec::new();
    let mut core: usize = 0;
    while core < cores
        invariant
            core <= cores,
            is_plan(plan@, freq as nat, core as nat),
        decreases cores - core,
    {
        plan.push(core_write(freq, core));
        core = core + 1;
    }
    plan
}

/// The writes that set the cap `freq` on every logical core of this
/// machine: at least one, whatever the number of cores turns out to be.
pub fn set_freq(freq: u64) -> (plan: Vec<CoreWrite>)
    ensures
        plan@.len() >= 1,
        is_plan(plan@, freq as nat, plan@.len()),
{
    plan_writes(freq, cpu_count())
}

/// What is written to a control file to set a cap is read back from it as
/// that cap.
pub proof fn lemma_cap_line_reads_back(freq: u64)
    ensures
        file_value(cap_line(freq as nat)) == Some(freq),
{
    let newline = seq!['\n'];
    assert(is_whitespace(newline[0]));
    lemma_file_round_trip(freq, Seq::empty(), newline);
    assert(Seq::<char>::empty() + decimal_text(freq as nat) + newline =~= cap_line(freq as nat));
}

} // verus!
