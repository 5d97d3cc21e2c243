//! Decisions taken on what the system reports: which temperature sensor is
//! the CPU's, and whether the battery is charging.
use crate::text::{seq_contains_run, str_contains, str_equals};
use vstd::prelude::*;

verus! {

/// A sensor label that names the CPU package temperature (AMD `Tctl` or the
/// `k10temp` driver).
pub open spec fn is_cpu_temp_label_spec(label: Seq<char>) -> bool {
    seq_contains_run(label, "Tctl"@) || seq_contains_run(label, "k10temp"@)
}

pub fn is_cpu_temp_label(label: &str) -> (b: bool)
    ensures
        b == is_cpu_temp_label_spec(label@),
{
    str_contains(label, "Tctl") || str_contains(label, "k10temp")
}

/// The index of the first sensor whose label names the CPU temperature.
pub fn cpu_temp_sensor(labels: &Vec<String>) -> (r: Option<usize>)
    ensures
        match r {
            Some(i) => i < labels@.len() && is_cpu_temp_label_spec(labels@[i as int]@)
                && forall|j: int| 0 <= j < i ==> !is_cpu_temp_label_spec(#[trigger] labels@[j]@),
            None => forall|j: int| 0 <= j < labels@.len() ==> !is_cpu_temp_label_spec(#[trigger] labels@[j]@),
        },
{
    let mut i: usize = 0;
    while i < labels.len()
        invariant
            i <= labels@.len(),
            forall|j: int| 0 <= j < i ==> !is_cpu_temp_label_spec(#[trigger] labels@[j]@),
        decreases labels@.len() - i,
    {
        if is_cpu_temp_label(labels[i].as_str()) {
            return Some(i);
        }
        i = i + 1;
    }
    None
}

/// Whether a power-supply status line (already trimmed) says the battery is
/// charging.
pub fn is_charging_status(status: &str) -> (b: bool)
    ensures
        b == (status@ == "Charging"@),
{
    str_equals(status, "Charging")
}

} // verus!

verus! {

/// A sensor label is taken for the CPU temperature exactly when the text
/// `Tctl` or the text `k10temp` occurs in it, character for character; any
/// other label (such as `acpitz temp1` or `nvme Composite`) is never chosen.
pub proof fn lemma_cpu_temp_label_means(label: Seq<char>)
    ensures
        is_cpu_temp_label_spec(label) <==> (
            (exists|i: int|
                0 <= i && i + 4 <= label.len() && #[trigger] label.subrange(i, i + 4) == seq![
                    'T',
                    'c',
                    't',
                    'l',
                ])
            || (exists|i: int|
                0 <= i && i + 7 <= label.len() && #[trigger] label.subrange(i, i + 7) == seq![
                    'k',
                    '1',
                    '0',
                    't',
                    'e',
                    'm',
                    'p',
                ])),
{
    reveal_strlit("Tctl");
    reveal_strlit("k10temp");
    assert("Tctl"@ =~= seq!['T', 'c', 't', 'l']);
    assert("k10temp"@ =~= seq!['k', '1', '0', 't', 'e', 'm', 'p']);
}

} // verus!
