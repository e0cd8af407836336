//! Metrics of the storage disks and their partitions (`v4/storage/disk`).
use super::{flag, flag_value, labels1, opt_i64, opt_text_or, push_label, text_or};
use crate::gauge::{
    family_args_accepted, lemma_prefixed_name_valid, valid_label_name, valid_prefix,
    family_help, family_label_names,
    family_arity, family_name, family_put, family_reset, family_set, label_view, make_family,
    FamilyEntries, gauge_error_name, GaugeError, GaugeFamily, family_value,
};
use crate::text::{concat, i64_to_decimal, int_to_decimal, str_eq};
use vstd::prelude::*;

verus! {

/// How far a long operation (format, check) has gone.
#[derive(Clone, Debug)]
pub struct OperationProgress {
    pub done_steps: Option<i64>,
    pub max_steps: Option<i64>,
    pub percent: Option<i64>,
}

/// A partition of a storage disk.
#[derive(Clone, Debug)]
pub struct DiskPartition {
    pub id: i64,
    pub disk_id: i64,
    pub state: Option<String>,
    pub fstype: Option<String>,
    pub label: Option<String>,
    pub total_bytes: Option<i64>,
    pub used_bytes: Option<i64>,
    pub free_bytes: Option<i64>,
    pub fsck_result: Option<String>,
    pub operation_pct: Option<OperationProgress>,
}

/// A storage disk (internal, USB or SATA).
#[derive(Clone, Debug)]
pub struct StorageDisk {
    pub id: i64,
    pub disk_type: Option<String>,
    pub state: Option<String>,
    pub connector: Option<i64>,
    pub total_bytes: Option<i64>,
    pub table_type: Option<String>,
    pub model: Option<String>,
    pub serial: Option<String>,
    pub firmware: Option<String>,
    pub temp: Option<i64>,
    pub operation_pct: Option<OperationProgress>,
    pub partitions: Option<Vec<DiskPartition>>,
    pub idle: Option<bool>,
    pub idle_duration: Option<i64>,
    pub spinning: Option<bool>,
    pub active_duration: Option<i64>,
    pub time_before_spindown: Option<i64>,
}

/// The gauge value of a disk state: enabled 1, disabled 0, error -1, formatting 2,
/// anything else (or none) 0.
pub open spec fn disk_state_value(state: Option<String>) -> i64 {
    match state {
        Some(s) => if s@ == "enabled"@ {
            1
        } else if s@ == "error"@ {
            -1i64
        } else if s@ == "formatting"@ {
            2
        } else {
            0
        },
        None => 0,
    }
}

/// The gauge value of a partition state: mounted 1, umounted 0, error -1, checking 2,
/// formatting 3, mounting 4, maintenance 5, umounting 6, ejecting 7, anything else 0.
pub open spec fn partition_state_value(state: Option<String>) -> i64 {
    match state {
        Some(s) => if s@ == "mounted"@ {
            1
        } else if s@ == "error"@ {
            -1i64
        } else if s@ == "checking"@ {
            2
        } else if s@ == "formatting"@ {
            3
        } else if s@ == "mounting"@ {
            4
        } else if s@ == "maintenance"@ {
            5
        } else if s@ == "umounting"@ {
            6
        } else if s@ == "ejecting"@ {
            7
        } else {
            0
        },
        None => 0,
    }
}

/// The gauge value of a file system check result: no_run_yet 0, running 1, fs_clean 2,
/// fs_corrected 3, fs_needs_correction 4, failed -1, anything else 0.
pub open spec fn fsck_value(r: Seq<char>) -> i64 {
    if r == "running"@ {
        1
    } else if r == "fs_clean"@ {
        2
    } else if r == "fs_corrected"@ {
        3
    } else if r == "fs_needs_correction"@ {
        4
    } else if r == "failed"@ {
        -1i64
    } else {
        0
    }
}

/// The label values that identify a disk: id, type, model and serial ("unknown" when absent).
pub open spec fn disk_labels(d: StorageDisk) -> Seq<Seq<char>> {
    seq![int_to_decimal(d.id as int), opt_text_or(d.disk_type, "unknown"@), opt_text_or(d.model, "unknown"@), opt_text_or(d.serial, "unknown"@)]
}

/// The label values that identify a partition: id, disk id, label and file system type
/// ("unknown" when absent).
pub open spec fn partition_labels(p: DiskPartition) -> Seq<Seq<char>> {
    seq![int_to_decimal(p.id as int), int_to_decimal(p.disk_id as int), opt_text_or(p.label, "unknown"@), opt_text_or(p.fstype, "unknown"@)]
}

/// Sets the child for `labels` to the value when there is one; else changes nothing.
pub open spec fn put_if(m: FamilyEntries, labels: Seq<Seq<char>>, o: Option<i64>) -> FamilyEntries {
    match o {
        Some(v) => family_put(m, labels, v),
        None => m,
    }
}

/// An optional boolean as an optional gauge value.
pub open spec fn opt_flag_some(o: Option<bool>) -> Option<i64> {
    match o {
        Some(b) => Some(flag(b)),
        None => None,
    }
}

/// The partitions of a disk, none when absent.
pub open spec fn partitions_of(d: StorageDisk) -> Seq<DiskPartition> {
    match d.partitions {
        Some(v) => v@,
        None => Seq::empty(),
    }
}

/// One family after `step` has been applied for each disk, in order.
pub open spec fn over_disks(m: FamilyEntries, ds: Seq<StorageDisk>, step: spec_fn(FamilyEntries, StorageDisk) -> FamilyEntries) -> FamilyEntries
    decreases ds.len(),
{
    if ds.len() == 0 {
        m
    } else {
        step(over_disks(m, ds.drop_last(), step), ds.last())
    }
}

/// One family after `step` has been applied for each partition, in order.
pub open spec fn over_partitions(m: FamilyEntries, ps: Seq<DiskPartition>, step: spec_fn(FamilyEntries, DiskPartition) -> FamilyEntries) -> FamilyEntries
    decreases ps.len(),
{
    if ps.len() == 0 {
        m
    } else {
        step(over_partitions(m, ps.drop_last(), step), ps.last())
    }
}

/// The operation progress of a disk or partition, as its steps family takes it:
/// the done steps under "done", then the total under "total".
pub open spec fn put_steps(m: FamilyEntries, base: Seq<Seq<char>>, op: Option<OperationProgress>) -> FamilyEntries {
    match op {
        Some(o) => put_if(put_if(m, base.push("done"@), o.done_steps), base.push("total"@), o.max_steps),
        None => m,
    }
}

/// The percentage of an operation, when there is one.
pub open spec fn op_percent(op: Option<OperationProgress>) -> Option<i64> {
    match op {
        Some(o) => o.percent,
        None => None,
    }
}

/// What one disk writes in the state family.
pub open spec fn disk_state_step(m: FamilyEntries, d: StorageDisk) -> FamilyEntries {
    family_put(m, disk_labels(d).push(opt_text_or(d.state, "unknown"@)), disk_state_value(d.state))
}

/// What one disk writes in the connector family.
pub open spec fn disk_connector_step(m: FamilyEntries, d: StorageDisk) -> FamilyEntries {
    match d.connector {
        Some(c) => family_put(m, disk_labels(d).push(int_to_decimal(c as int)), 1),
        None => m,
    }
}

/// What one disk writes in the partition table type family.
pub open spec fn disk_table_type_step(m: FamilyEntries, d: StorageDisk) -> FamilyEntries {
    match d.table_type {
        Some(t) => family_put(m, disk_labels(d).push(t@), 1),
        None => m,
    }
}

/// What one disk writes in the firmware family: nothing for an empty firmware.
pub open spec fn disk_firmware_step(m: FamilyEntries, d: StorageDisk) -> FamilyEntries {
    match d.firmware {
        Some(f) => if f@.len() > 0 { family_put(m, disk_labels(d).push(f@), 1) } else { m },
        None => m,
    }
}

/// What one partition writes in the state family.
pub open spec fn partition_state_step(m: FamilyEntries, p: DiskPartition) -> FamilyEntries {
    family_put(m, partition_labels(p).push(opt_text_or(p.state, "unknown"@)), partition_state_value(p.state))
}

/// What one partition writes in the check result family.
pub open spec fn partition_fsck_step(m: FamilyEntries, p: DiskPartition) -> FamilyEntries {
    match p.fsck_result {
        Some(r) => family_put(m, partition_labels(p).push(r@), fsck_value(r@)),
        None => m,
    }
}

/// Each known disk state has its own code: enabled 1, error -1, formatting 2; any other
/// state, or none, is 0.
pub proof fn lemma_disk_state_codes(s: String)
    ensures
        disk_state_value(Some(s)) == 1 <==> s@ == "enabled"@,
        disk_state_value(Some(s)) == -1i64 <==> s@ == "error"@,
        disk_state_value(Some(s)) == 2 <==> s@ == "formatting"@,
        disk_state_value(Some(s)) == 0 <==> (s@ != "enabled"@ && s@ != "error"@ && s@ != "formatting"@),
        disk_state_value(None) == 0,
{
    reveal_strlit("enabled");
    reveal_strlit("error");
    reveal_strlit("formatting");
    assert("enabled"@.len() != "error"@.len());
    assert("enabled"@ != "error"@);
    assert("enabled"@.len() != "formatting"@.len());
    assert("enabled"@ != "formatting"@);
    assert("error"@.len() != "formatting"@.len());
    assert("error"@ != "formatting"@);
}


/// Each known partition state has its own code: mounted 1, error -1, checking 2,
/// formatting 3, mounting 4, maintenance 5, umounting 6, ejecting 7; any other state, or
/// none, is 0.
pub proof fn lemma_partition_state_codes(s: String)
    ensures
        partition_state_value(Some(s)) == 1 <==> s@ == "mounted"@,
        partition_state_value(Some(s)) == -1i64 <==> s@ == "error"@,
        partition_state_value(Some(s)) == 2 <==> s@ == "checking"@,
        partition_state_value(Some(s)) == 3 <==> s@ == "formatting"@,
        partition_state_value(Some(s)) == 4 <==> s@ == "mounting"@,
        partition_state_value(Some(s)) == 5 <==> s@ == "maintenance"@,
        partition_state_value(Some(s)) == 6 <==> s@ == "umounting"@,
        partition_state_value(Some(s)) == 7 <==> s@ == "ejecting"@,
        partition_state_value(Some(s)) == 0 <==> (s@ != "mounted"@ && s@ != "error"@ && s@ != "checking"@ && s@ != "formatting"@ && s@ != "mounting"@ && s@ != "maintenance"@ && s@ != "umounting"@ && s@ != "ejecting"@),
        partition_state_value(None) == 0,
{
    reveal_strlit("mounted");
    reveal_strlit("error");
    reveal_strlit("checking");
    reveal_strlit("formatting");
    reveal_strlit("mounting");
    reveal_strlit("maintenance");
    reveal_strlit("umounting");
    reveal_strlit("ejecting");
    assert("mounted"@.len() != "error"@.len());
    assert("mounted"@ != "error"@);
    assert("mounted"@.len() != "checking"@.len());
    assert("mounted"@ != "checking"@);
    assert("mounted"@.len() != "formatting"@.len());
    assert("mounted"@ != "formatting"@);
    assert("mounted"@.len() != "mounting"@.len());
    assert("mounted"@ != "mounting"@);
    assert("mounted"@.len() != "maintenance"@.len());
    assert("mounted"@ != "maintenance"@);
    assert("mounted"@.len() != "umounting"@.len());
    assert("mounted"@ != "umounting"@);
    assert("mounted"@.len() != "ejecting"@.len());
    assert("mounted"@ != "ejecting"@);
    assert("error"@.len() != "checking"@.len());
    assert("error"@ != "checking"@);
    assert("error"@.len() != "formatting"@.len());
    assert("error"@ != "formatting"@);
    assert("error"@.len() != "mounting"@.len());
    assert("error"@ != "mounting"@);
    assert("error"@.len() != "maintenance"@.len());
    assert("error"@ != "maintenance"@);
    assert("error"@.len() != "umounting"@.len());
    assert("error"@ != "umounting"@);
    assert("error"@.len() != "ejecting"@.len());
    assert("error"@ != "ejecting"@);
    assert("checking"@.len() != "formatting"@.len());
    assert("checking"@ != "formatting"@);
    assert("checking"@[0] != "mounting"@[0]);
    assert("checking"@ != "mounting"@);
    assert("checking"@.len() != "maintenance"@.len());
    assert("checking"@ != "maintenance"@);
    assert("checking"@.len() != "umounting"@.len());
    assert("checking"@ != "umounting"@);
    assert("checking"@[0] != "ejecting"@[0]);
    assert("checking"@ != "ejecting"@);
    assert("formatting"@.len() != "mounting"@.len());
    assert("formatting"@ != "mounting"@);
    assert("formatting"@.len() != "maintenance"@.len());
    assert("formatting"@ != "maintenance"@);
    assert("formatting"@.len() != "umounting"@.len());
    assert("formatting"@ != "umounting"@);
    assert("formatting"@.len() != "ejecting"@.len());
    assert("formatting"@ != "ejecting"@);
    assert("mounting"@.len() != "maintenance"@.len());
    assert("mounting"@ != "maintenance"@);
    assert("mounting"@.len() != "umounting"@.len());
    assert("mounting"@ != "umounting"@);
    assert("mounting"@[0] != "ejecting"@[0]);
    assert("mounting"@ != "ejecting"@);
    assert("maintenance"@.len() != "umounting"@.len());
    assert("maintenance"@ != "umounting"@);
    assert("maintenance"@.len() != "ejecting"@.len());
    assert("maintenance"@ != "ejecting"@);
    assert("umounting"@.len() != "ejecting"@.len());
    assert("umounting"@ != "ejecting"@);
}


/// Each known check result has its own code, as the family's help text lists them:
/// running 1, fs_clean 2, fs_corrected 3, fs_needs_correction 4, failed -1; any other
/// result (no_run_yet among them) is 0.
pub proof fn lemma_fsck_codes(r: Seq<char>)
    ensures
        fsck_value(r) == 1 <==> r == "running"@,
        fsck_value(r) == 2 <==> r == "fs_clean"@,
        fsck_value(r) == 3 <==> r == "fs_corrected"@,
        fsck_value(r) == 4 <==> r == "fs_needs_correction"@,
        fsck_value(r) == -1 <==> r == "failed"@,
        fsck_value(r) == 0 <==> (r != "running"@ && r != "fs_clean"@ && r != "fs_corrected"@
            && r != "fs_needs_correction"@ && r != "failed"@),
{
    reveal_strlit("running");
    reveal_strlit("fs_clean");
    reveal_strlit("fs_corrected");
    reveal_strlit("fs_needs_correction");
    reveal_strlit("failed");
    let names = seq!["running"@, "fs_clean"@, "fs_corrected"@, "fs_needs_correction"@, "failed"@];
    assert forall|i: int, j: int| 0 <= i < j < 5 implies names[i] != names[j] by {
        assert(names[i].len() != names[j].len());
    }
    assert(names[0] != names[1] && names[0] != names[2] && names[0] != names[3] && names[0] != names[4]);
    assert(names[1] != names[2] && names[1] != names[3] && names[1] != names[4]);
    assert(names[2] != names[3] && names[2] != names[4] && names[3] != names[4]);
}

/// A partition with a check result shows, in the check result family, the code of that
/// result under its labels and the result; one without writes nothing.
pub proof fn lemma_partition_fsck_shows_code(m: FamilyEntries, p: DiskPartition)
    ensures
        p.fsck_result matches Some(r) ==> family_value(partition_fsck_step(m, p), partition_labels(p).push(r@)) == Some(fsck_value(r@)),
        p.fsck_result is None ==> partition_fsck_step(m, p) == m,
{
}

/// The gauge value of a disk state.
pub fn disk_state_code(state: &Option<String>) -> (v: i64)
    ensures
        v == disk_state_value(*state),
{
    match state {
        Some(s) => {
            if str_eq(s.as_str(), "enabled") {
                1
            } else if str_eq(s.as_str(), "error") {
                -1
            } else if str_eq(s.as_str(), "formatting") {
                2
            } else {
                0
            }
        },
        None => 0,
    }
}

/// The gauge value of a partition state.
pub fn partition_state_code(state: &Option<String>) -> (v: i64)
    ensures
        v == partition_state_value(*state),
{
    match state {
        Some(s) => {
            let t = s.as_str();
            if str_eq(t, "mounted") {
                1
            } else if str_eq(t, "error") {
                -1
            } else if str_eq(t, "checking") {
                2
            } else if str_eq(t, "formatting") {
                3
            } else if str_eq(t, "mounting") {
                4
            } else if str_eq(t, "maintenance") {
                5
            } else if str_eq(t, "umounting") {
                6
            } else if str_eq(t, "ejecting") {
                7
            } else {
                0
            }
        },
        None => 0,
    }
}

/// The gauge value of a file system check result.
pub fn fsck_code(r: &str) -> (v: i64)
    ensures
        v == fsck_value(r@),
{
    if str_eq(r, "running") {
        1
    } else if str_eq(r, "fs_clean") {
        2
    } else if str_eq(r, "fs_corrected") {
        3
    } else if str_eq(r, "fs_needs_correction") {
        4
    } else if str_eq(r, "failed") {
        -1i64
    } else {
        0
    }
}

fn labels4(a: String, b: String, c: String, d: String) -> (v: Vec<String>)
    ensures
        v.len() == 4,
        label_view(v@) == seq![a@, b@, c@, d@],
{
    let mut v = labels1(a);
    push_label(&mut v, b);
    push_label(&mut v, c);
    push_label(&mut v, d);
    v
}

/// The label values of a disk.
fn disk_label_values(d: &StorageDisk) -> (v: Vec<String>)
    ensures
        v.len() == 4,
        label_view(v@) == disk_labels(*d),
{
    labels4(i64_to_decimal(d.id), text_or(&d.disk_type, "unknown"), text_or(&d.model, "unknown"), text_or(&d.serial, "unknown"))
}

/// The label values of a partition.
fn partition_label_values(p: &DiskPartition) -> (v: Vec<String>)
    ensures
        v.len() == 4,
        label_view(v@) == partition_labels(*p),
{
    labels4(i64_to_decimal(p.id), i64_to_decimal(p.disk_id), text_or(&p.label, "unknown"), text_or(&p.fstype, "unknown"))
}

/// The label values `base` with one more at the end.
fn with_label(base: &Vec<String>, extra: String) -> (v: Vec<String>)
    ensures
        v.len() == base.len() + 1,
        label_view(v@) == label_view(base@).push(extra@),
{
    let mut v = base.clone();
    assert(v@ =~= base@);
    push_label(&mut v, extra);
    v
}

/// Sets the child for `labels` to the value when there is one.
fn set_if(f: &mut GaugeFamily, labels: &Vec<String>, o: Option<i64>)
    requires
        labels.len() == family_arity(*old(f)),
    ensures
        family_arity(*final(f)) == family_arity(*old(f)),
        family_name(*final(f)) == family_name(*old(f)),
        final(f)@ == put_if(old(f)@, label_view(labels@), o),
{
    if let Some(v) = o {
        family_set(f, labels, v);
    }
}

/// Writes the steps of an operation under "done" and "total".
fn set_steps(f: &mut GaugeFamily, base: &Vec<String>, op: &Option<OperationProgress>)
    requires
        base.len() + 1 == family_arity(*old(f)),
    ensures
        family_arity(*final(f)) == family_arity(*old(f)),
        family_name(*final(f)) == family_name(*old(f)),
        final(f)@ == put_steps(old(f)@, label_view(base@), *op),
{
    if let Some(o) = op {
        set_if(f, &with_label(base, String::from_str("done")), o.done_steps);
        set_if(f, &with_label(base, String::from_str("total")), o.max_steps);
    }
}

/// What one disk writes in the family of the total size.
pub open spec fn disk_total_step(m: FamilyEntries, d: StorageDisk) -> FamilyEntries {
    put_if(m, disk_labels(d), d.total_bytes)
}

/// What one disk writes in the family of the temperature.
pub open spec fn disk_temp_step(m: FamilyEntries, d: StorageDisk) -> FamilyEntries {
    put_if(m, disk_labels(d), d.temp)
}

/// What one disk writes in the family of whether it spins.
pub open spec fn disk_spinning_step(m: FamilyEntries, d: StorageDisk) -> FamilyEntries {
    put_if(m, disk_labels(d), opt_flag_some(d.spinning))
}

/// What one disk writes in the family of whether it is idle.
pub open spec fn disk_idle_step(m: FamilyEntries, d: StorageDisk) -> FamilyEntries {
    put_if(m, disk_labels(d), opt_flag_some(d.idle))
}

/// What one disk writes in the family of how long it has been idle.
pub open spec fn disk_idle_duration_step(m: FamilyEntries, d: StorageDisk) -> FamilyEntries {
    put_if(m, disk_labels(d), d.idle_duration)
}

/// What one disk writes in the family of how long it has been active.
pub open spec fn disk_active_duration_step(m: FamilyEntries, d: StorageDisk) -> FamilyEntries {
    put_if(m, disk_labels(d), d.active_duration)
}

/// What one disk writes in the family of the time before it spins down.
pub open spec fn disk_spindown_step(m: FamilyEntries, d: StorageDisk) -> FamilyEntries {
    put_if(m, disk_labels(d), d.time_before_spindown)
}

/// What one disk writes in the family of the progress of its operation.
pub open spec fn disk_progress_step(m: FamilyEntries, d: StorageDisk) -> FamilyEntries {
    put_if(m, disk_labels(d), op_percent(d.operation_pct))
}

/// What one disk writes in the family of the steps of its operation.
pub open spec fn disk_steps_step(m: FamilyEntries, d: StorageDisk) -> FamilyEntries {
    put_steps(m, disk_labels(d), d.operation_pct)
}

/// What one partition writes in the family of the total size.
pub open spec fn partition_total_step(m: FamilyEntries, p: DiskPartition) -> FamilyEntries {
    put_if(m, partition_labels(p), p.total_bytes)
}

/// What one partition writes in the family of the used space.
pub open spec fn partition_used_step(m: FamilyEntries, p: DiskPartition) -> FamilyEntries {
    put_if(m, partition_labels(p), p.used_bytes)
}

/// What one partition writes in the family of the free space.
pub open spec fn partition_free_step(m: FamilyEntries, p: DiskPartition) -> FamilyEntries {
    put_if(m, partition_labels(p), p.free_bytes)
}

/// What one partition writes in the family of the progress of its operation.
pub open spec fn partition_progress_step(m: FamilyEntries, p: DiskPartition) -> FamilyEntries {
    put_if(m, partition_labels(p), op_percent(p.operation_pct))
}

/// What one partition writes in the family of the steps of its operation.
pub open spec fn partition_steps_step(m: FamilyEntries, p: DiskPartition) -> FamilyEntries {
    put_steps(m, partition_labels(p), p.operation_pct)
}
/// What each disk family shows for the disk written: its own size, temperature and
/// durations, 1 or 0 for whether it spins and whether it is idle, its operation's
/// percentage and total steps, its state's code and its connector; a reading the disk
/// does not report writes nothing.
pub proof fn lemma_disk_gauges_show_disk_fields(m: FamilyEntries, d: StorageDisk)
    ensures
        d.total_bytes matches Some(v) ==> family_value(disk_total_step(m, d), disk_labels(d)) == Some(v),
        d.total_bytes is None ==> disk_total_step(m, d) == m,
        d.temp matches Some(v) ==> family_value(disk_temp_step(m, d), disk_labels(d)) == Some(v),
        d.temp is None ==> disk_temp_step(m, d) == m,
        d.idle_duration matches Some(v) ==> family_value(disk_idle_duration_step(m, d), disk_labels(d)) == Some(v),
        d.idle_duration is None ==> disk_idle_duration_step(m, d) == m,
        d.active_duration matches Some(v) ==> family_value(disk_active_duration_step(m, d), disk_labels(d)) == Some(v),
        d.active_duration is None ==> disk_active_duration_step(m, d) == m,
        d.time_before_spindown matches Some(v) ==> family_value(disk_spindown_step(m, d), disk_labels(d)) == Some(v),
        d.time_before_spindown is None ==> disk_spindown_step(m, d) == m,
        d.spinning matches Some(b) ==> family_value(disk_spinning_step(m, d), disk_labels(d)) == Some(if b { 1i64 } else { 0i64 }),
        d.spinning is None ==> disk_spinning_step(m, d) == m,
        d.idle matches Some(b) ==> family_value(disk_idle_step(m, d), disk_labels(d)) == Some(if b { 1i64 } else { 0i64 }),
        d.idle is None ==> disk_idle_step(m, d) == m,
        d.operation_pct matches Some(o) ==> (o.percent matches Some(v) ==> family_value(disk_progress_step(m, d), disk_labels(d)) == Some(v)),
        d.operation_pct matches Some(o) ==> (o.max_steps matches Some(v) ==> family_value(disk_steps_step(m, d), disk_labels(d).push("total"@)) == Some(v)),
        family_value(disk_state_step(m, d), disk_labels(d).push(opt_text_or(d.state, "unknown"@))) == Some(disk_state_value(d.state)),
        d.connector matches Some(c) ==> family_value(disk_connector_step(m, d), disk_labels(d).push(int_to_decimal(c as int))) == Some(1i64),
{
}

/// What each partition family shows for the partition written: its own total, used and
/// free space, its operation's percentage and total steps, and its state's code; a
/// reading the partition does not report writes nothing.
pub proof fn lemma_partition_gauges_show_partition_fields(m: FamilyEntries, p: DiskPartition)
    ensures
        p.total_bytes matches Some(v) ==> family_value(partition_total_step(m, p), partition_labels(p)) == Some(v),
        p.total_bytes is None ==> partition_total_step(m, p) == m,
        p.used_bytes matches Some(v) ==> family_value(partition_used_step(m, p), partition_labels(p)) == Some(v),
        p.used_bytes is None ==> partition_used_step(m, p) == m,
        p.free_bytes matches Some(v) ==> family_value(partition_free_step(m, p), partition_labels(p)) == Some(v),
        p.free_bytes is None ==> partition_free_step(m, p) == m,
        p.operation_pct matches Some(o) ==> (o.percent matches Some(v) ==> family_value(partition_progress_step(m, p), partition_labels(p)) == Some(v)),
        p.operation_pct matches Some(o) ==> (o.max_steps matches Some(v) ==> family_value(partition_steps_step(m, p), partition_labels(p).push("total"@)) == Some(v)),
        family_value(partition_state_step(m, p), partition_labels(p).push(opt_text_or(p.state, "unknown"@))) == Some(partition_state_value(p.state)),
{
}

pub struct NasMetricMap {
    pub disk_total_bytes_metric: GaugeFamily,
    pub disk_state_metric: GaugeFamily,
    pub disk_temperature_metric: GaugeFamily,
    pub disk_spinning_metric: GaugeFamily,
    pub disk_idle_metric: GaugeFamily,
    pub disk_idle_duration_metric: GaugeFamily,
    pub disk_active_duration_metric: GaugeFamily,
    pub disk_time_before_spindown_metric: GaugeFamily,
    pub disk_connector_info_metric: GaugeFamily,
    pub disk_table_type_info_metric: GaugeFamily,
    pub disk_firmware_info_metric: GaugeFamily,
    pub disk_operation_progress_metric: GaugeFamily,
    pub disk_operation_steps_metric: GaugeFamily,
    pub partition_total_bytes_metric: GaugeFamily,
    pub partition_used_bytes_metric: GaugeFamily,
    pub partition_free_bytes_metric: GaugeFamily,
    pub partition_state_metric: GaugeFamily,
    pub partition_fsck_result_metric: GaugeFamily,
    pub partition_operation_progress_metric: GaugeFamily,
    pub partition_operation_steps_metric: GaugeFamily,
}

impl NasMetricMap {
    /// Every family takes as many label values as it was made with label names.
    pub open spec fn well_formed(&self) -> bool {
        &&& family_arity(self.disk_total_bytes_metric) == 4
        &&& family_arity(self.disk_state_metric) == 5
        &&& family_arity(self.disk_temperature_metric) == 4
        &&& family_arity(self.disk_spinning_metric) == 4
        &&& family_arity(self.disk_idle_metric) == 4
        &&& family_arity(self.disk_idle_duration_metric) == 4
        &&& family_arity(self.disk_active_duration_metric) == 4
        &&& family_arity(self.disk_time_before_spindown_metric) == 4
        &&& family_arity(self.disk_connector_info_metric) == 5
        &&& family_arity(self.disk_table_type_info_metric) == 5
        &&& family_arity(self.disk_firmware_info_metric) == 5
        &&& family_arity(self.disk_operation_progress_metric) == 4
        &&& family_arity(self.disk_operation_steps_metric) == 5
        &&& family_arity(self.partition_total_bytes_metric) == 4
        &&& family_arity(self.partition_used_bytes_metric) == 4
        &&& family_arity(self.partition_free_bytes_metric) == 4
        &&& family_arity(self.partition_state_metric) == 5
        &&& family_arity(self.partition_fsck_result_metric) == 5
        &&& family_arity(self.partition_operation_progress_metric) == 4
        &&& family_arity(self.partition_operation_steps_metric) == 5
    }

    /// No family has a child and every single gauge is at 0.
    pub open spec fn is_cleared(&self) -> bool {
        &&& self.disk_total_bytes_metric@ == FamilyEntries::empty()
        &&& self.disk_state_metric@ == FamilyEntries::empty()
        &&& self.disk_temperature_metric@ == FamilyEntries::empty()
        &&& self.disk_spinning_metric@ == FamilyEntries::empty()
        &&& self.disk_idle_metric@ == FamilyEntries::empty()
        &&& self.disk_idle_duration_metric@ == FamilyEntries::empty()
        &&& self.disk_active_duration_metric@ == FamilyEntries::empty()
        &&& self.disk_time_before_spindown_metric@ == FamilyEntries::empty()
        &&& self.disk_connector_info_metric@ == FamilyEntries::empty()
        &&& self.disk_table_type_info_metric@ == FamilyEntries::empty()
        &&& self.disk_firmware_info_metric@ == FamilyEntries::empty()
        &&& self.disk_operation_progress_metric@ == FamilyEntries::empty()
        &&& self.disk_operation_steps_metric@ == FamilyEntries::empty()
        &&& self.partition_total_bytes_metric@ == FamilyEntries::empty()
        &&& self.partition_used_bytes_metric@ == FamilyEntries::empty()
        &&& self.partition_free_bytes_metric@ == FamilyEntries::empty()
        &&& self.partition_state_metric@ == FamilyEntries::empty()
        &&& self.partition_fsck_result_metric@ == FamilyEntries::empty()
        &&& self.partition_operation_progress_metric@ == FamilyEntries::empty()
        &&& self.partition_operation_steps_metric@ == FamilyEntries::empty()
    }

    /// The metric names, help texts and label names the gauges were made with.
    pub open spec fn named(&self, prefix: Seq<char>) -> bool {
        &&& family_name(self.disk_total_bytes_metric) == prefix + "_nas_disk_total_bytes"@
        &&& family_name(self.disk_state_metric) == prefix + "_nas_disk_state"@
        &&& family_name(self.disk_temperature_metric) == prefix + "_nas_disk_temperature_celsius"@
        &&& family_name(self.disk_spinning_metric) == prefix + "_nas_disk_spinning"@
        &&& family_name(self.disk_idle_metric) == prefix + "_nas_disk_idle"@
        &&& family_name(self.disk_idle_duration_metric) == prefix + "_nas_disk_idle_duration_seconds"@
        &&& family_name(self.disk_active_duration_metric) == prefix + "_nas_disk_active_duration_seconds"@
        &&& family_name(self.disk_time_before_spindown_metric) == prefix + "_nas_disk_time_before_spindown_seconds"@
        &&& family_name(self.disk_connector_info_metric) == prefix + "_nas_disk_connector_info"@
        &&& family_name(self.disk_table_type_info_metric) == prefix + "_nas_disk_table_type_info"@
        &&& family_name(self.disk_firmware_info_metric) == prefix + "_nas_disk_firmware_info"@
        &&& family_name(self.disk_operation_progress_metric) == prefix + "_nas_disk_operation_progress_percent"@
        &&& family_name(self.disk_operation_steps_metric) == prefix + "_nas_disk_operation_steps"@
        &&& family_name(self.partition_total_bytes_metric) == prefix + "_nas_partition_total_bytes"@
        &&& family_name(self.partition_used_bytes_metric) == prefix + "_nas_partition_used_bytes"@
        &&& family_name(self.partition_free_bytes_metric) == prefix + "_nas_partition_free_bytes"@
        &&& family_name(self.partition_state_metric) == prefix + "_nas_partition_state"@
        &&& family_name(self.partition_fsck_result_metric) == prefix + "_nas_partition_fsck_result"@
        &&& family_name(self.partition_operation_progress_metric) == prefix + "_nas_partition_operation_progress_percent"@
        &&& family_name(self.partition_operation_steps_metric) == prefix + "_nas_partition_operation_steps"@
        &&& family_help(self.disk_total_bytes_metric) == prefix + "_nas_disk_total_bytes Total disk size in bytes"@
        &&& family_label_names(self.disk_total_bytes_metric) == seq!["disk_id"@, "disk_type"@, "model"@, "serial"@]
        &&& family_help(self.disk_state_metric) == prefix + "_nas_disk_state Disk state (1=enabled, 0=disabled, -1=error, 2=formatting)"@
        &&& family_label_names(self.disk_state_metric) == seq!["disk_id"@, "disk_type"@, "model"@, "serial"@, "state"@]
        &&& family_help(self.disk_temperature_metric) == prefix + "_nas_disk_temperature_celsius Disk temperature in Celsius"@
        &&& family_label_names(self.disk_temperature_metric) == seq!["disk_id"@, "disk_type"@, "model"@, "serial"@]
        &&& family_help(self.disk_spinning_metric) == prefix + "_nas_disk_spinning Disk spinning status (1=spinning, 0=not spinning)"@
        &&& family_label_names(self.disk_spinning_metric) == seq!["disk_id"@, "disk_type"@, "model"@, "serial"@]
        &&& family_help(self.disk_idle_metric) == prefix + "_nas_disk_idle Disk idle status (1=idle, 0=active)"@
        &&& family_label_names(self.disk_idle_metric) == seq!["disk_id"@, "disk_type"@, "model"@, "serial"@]
        &&& family_help(self.disk_idle_duration_metric) == prefix + "_nas_disk_idle_duration_seconds Disk idle duration in seconds"@
        &&& family_label_names(self.disk_idle_duration_metric) == seq!["disk_id"@, "disk_type"@, "model"@, "serial"@]
        &&& family_help(self.disk_active_duration_metric) == prefix + "_nas_disk_active_duration_seconds Disk active duration in seconds"@
        &&& family_label_names(self.disk_active_duration_metric) == seq!["disk_id"@, "disk_type"@, "model"@, "serial"@]
        &&& family_help(self.disk_time_before_spindown_metric) == prefix + "_nas_disk_time_before_spindown_seconds Time before disk spindown in seconds"@
        &&& family_label_names(self.disk_time_before_spindown_metric) == seq!["disk_id"@, "disk_type"@, "model"@, "serial"@]
        &&& family_help(self.disk_connector_info_metric) == prefix + "_nas_disk_connector_info Disk physical connector ID"@
        &&& family_label_names(self.disk_connector_info_metric) == seq!["disk_id"@, "disk_type"@, "model"@, "serial"@, "connector"@]
        &&& family_help(self.disk_table_type_info_metric) == prefix + "_nas_disk_table_type_info Disk partition table type"@
        &&& family_label_names(self.disk_table_type_info_metric) == seq!["disk_id"@, "disk_type"@, "model"@, "serial"@, "table_type"@]
        &&& family_help(self.disk_firmware_info_metric) == prefix + "_nas_disk_firmware_info Disk firmware version"@
        &&& family_label_names(self.disk_firmware_info_metric) == seq!["disk_id"@, "disk_type"@, "model"@, "serial"@, "firmware"@]
        &&& family_help(self.disk_operation_progress_metric) == prefix + "_nas_disk_operation_progress_percent Disk operation progress percentage"@
        &&& family_label_names(self.disk_operation_progress_metric) == seq!["disk_id"@, "disk_type"@, "model"@, "serial"@]
        &&& family_help(self.disk_operation_steps_metric) == prefix + "_nas_disk_operation_steps Disk operation steps (done/total)"@
        &&& family_label_names(self.disk_operation_steps_metric) == seq!["disk_id"@, "disk_type"@, "model"@, "serial"@, "step_type"@]
        &&& family_help(self.partition_total_bytes_metric) == prefix + "_nas_partition_total_bytes Partition total size in bytes"@
        &&& family_label_names(self.partition_total_bytes_metric) == seq!["partition_id"@, "disk_id"@, "label"@, "fstype"@]
        &&& family_help(self.partition_used_bytes_metric) == prefix + "_nas_partition_used_bytes Partition used space in bytes"@
        &&& family_label_names(self.partition_used_bytes_metric) == seq!["partition_id"@, "disk_id"@, "label"@, "fstype"@]
        &&& family_help(self.partition_free_bytes_metric) == prefix + "_nas_partition_free_bytes Partition free space in bytes"@
        &&& family_label_names(self.partition_free_bytes_metric) == seq!["partition_id"@, "disk_id"@, "label"@, "fstype"@]
        &&& family_help(self.partition_state_metric) == prefix + "_nas_partition_state Partition state (1=mounted, 0=unmounted, -1=error, 2=checking, 3=formatting, 4=mounting, 5=maintenance, 6=umounting, 7=ejecting)"@
        &&& family_label_names(self.partition_state_metric) == seq!["partition_id"@, "disk_id"@, "label"@, "fstype"@, "state"@]
        &&& family_help(self.partition_fsck_result_metric) == prefix + "_nas_partition_fsck_result File system check result (0=no_run_yet, 1=running, 2=fs_clean, 3=fs_corrected, 4=fs_needs_correction, -1=failed)"@
        &&& family_label_names(self.partition_fsck_result_metric) == seq!["partition_id"@, "disk_id"@, "label"@, "fstype"@, "fsck_result"@]
        &&& family_help(self.partition_operation_progress_metric) == prefix + "_nas_partition_operation_progress_percent Partition operation progress percentage"@
        &&& family_label_names(self.partition_operation_progress_metric) == seq!["partition_id"@, "disk_id"@, "label"@, "fstype"@]
        &&& family_help(self.partition_operation_steps_metric) == prefix + "_nas_partition_operation_steps Partition operation steps (done/total)"@
        &&& family_label_names(self.partition_operation_steps_metric) == seq!["partition_id"@, "disk_id"@, "label"@, "fstype"@, "step_type"@]
    }

    /// Whether `n` is the name of one of the map's metrics under `prefix`.
    pub open spec fn is_metric_name(prefix: Seq<char>, n: Seq<char>) -> bool {
        ||| n == prefix + "_nas_disk_total_bytes"@
        ||| n == prefix + "_nas_disk_state"@
        ||| n == prefix + "_nas_disk_temperature_celsius"@
        ||| n == prefix + "_nas_disk_spinning"@
        ||| n == prefix + "_nas_disk_idle"@
        ||| n == prefix + "_nas_disk_idle_duration_seconds"@
        ||| n == prefix + "_nas_disk_active_duration_seconds"@
        ||| n == prefix + "_nas_disk_time_before_spindown_seconds"@
        ||| n == prefix + "_nas_disk_connector_info"@
        ||| n == prefix + "_nas_disk_table_type_info"@
        ||| n == prefix + "_nas_disk_firmware_info"@
        ||| n == prefix + "_nas_disk_operation_progress_percent"@
        ||| n == prefix + "_nas_disk_operation_steps"@
        ||| n == prefix + "_nas_partition_total_bytes"@
        ||| n == prefix + "_nas_partition_used_bytes"@
        ||| n == prefix + "_nas_partition_free_bytes"@
        ||| n == prefix + "_nas_partition_state"@
        ||| n == prefix + "_nas_partition_fsck_result"@
        ||| n == prefix + "_nas_partition_operation_progress_percent"@
        ||| n == prefix + "_nas_partition_operation_steps"@
    }

    /// Prometheus accepts what each gauge of the map is made with exactly when the
    /// prefix is one metric names may be built from.
    proof fn lemma_gauge_args(prefix: Seq<char>)
        ensures
            family_args_accepted(prefix + "_nas_disk_total_bytes"@, prefix + "_nas_disk_total_bytes Total disk size in bytes"@, seq!["disk_id"@, "disk_type"@, "model"@, "serial"@]) == valid_prefix(prefix),
            family_args_accepted(prefix + "_nas_disk_state"@, prefix + "_nas_disk_state Disk state (1=enabled, 0=disabled, -1=error, 2=formatting)"@, seq!["disk_id"@, "disk_type"@, "model"@, "serial"@, "state"@]) == valid_prefix(prefix),
            family_args_accepted(prefix + "_nas_disk_temperature_celsius"@, prefix + "_nas_disk_temperature_celsius Disk temperature in Celsius"@, seq!["disk_id"@, "disk_type"@, "model"@, "serial"@]) == valid_prefix(prefix),
            family_args_accepted(prefix + "_nas_disk_spinning"@, prefix + "_nas_disk_spinning Disk spinning status (1=spinning, 0=not spinning)"@, seq!["disk_id"@, "disk_type"@, "model"@, "serial"@]) == valid_prefix(prefix),
            family_args_accepted(prefix + "_nas_disk_idle"@, prefix + "_nas_disk_idle Disk idle status (1=idle, 0=active)"@, seq!["disk_id"@, "disk_type"@, "model"@, "serial"@]) == valid_prefix(prefix),
            family_args_accepted(prefix + "_nas_disk_idle_duration_seconds"@, prefix + "_nas_disk_idle_duration_seconds Disk idle duration in seconds"@, seq!["disk_id"@, "disk_type"@, "model"@, "serial"@]) == valid_prefix(prefix),
            family_args_accepted(prefix + "_nas_disk_active_duration_seconds"@, prefix + "_nas_disk_active_duration_seconds Disk active duration in seconds"@, seq!["disk_id"@, "disk_type"@, "model"@, "serial"@]) == valid_prefix(prefix),
            family_args_accepted(prefix + "_nas_disk_time_before_spindown_seconds"@, prefix + "_nas_disk_time_before_spindown_seconds Time before disk spindown in seconds"@, seq!["disk_id"@, "disk_type"@, "model"@, "serial"@]) == valid_prefix(prefix),
            family_args_accepted(prefix + "_nas_disk_connector_info"@, prefix + "_nas_disk_connector_info Disk physical connector ID"@, seq!["disk_id"@, "disk_type"@, "model"@, "serial"@, "connector"@]) == valid_prefix(prefix),
            family_args_accepted(prefix + "_nas_disk_table_type_info"@, prefix + "_nas_disk_table_type_info Disk partition table type"@, seq!["disk_id"@, "disk_type"@, "model"@, "serial"@, "table_type"@]) == valid_prefix(prefix),
            family_args_accepted(prefix + "_nas_disk_firmware_info"@, prefix + "_nas_disk_firmware_info Disk firmware version"@, seq!["disk_id"@, "disk_type"@, "model"@, "serial"@, "firmware"@]) == valid_prefix(prefix),
            family_args_accepted(prefix + "_nas_disk_operation_progress_percent"@, prefix + "_nas_disk_operation_progress_percent Disk operation progress percentage"@, seq!["disk_id"@, "disk_type"@, "model"@, "serial"@]) == valid_prefix(prefix),
            family_args_accepted(prefix + "_nas_disk_operation_steps"@, prefix + "_nas_disk_operation_steps Disk operation steps (done/total)"@, seq!["disk_id"@, "disk_type"@, "model"@, "serial"@, "step_type"@]) == valid_prefix(prefix),
            family_args_accepted(prefix + "_nas_partition_total_bytes"@, prefix + "_nas_partition_total_bytes Partition total size in bytes"@, seq!["partition_id"@, "disk_id"@, "label"@, "fstype"@]) == valid_prefix(prefix),
            family_args_accepted(prefix + "_nas_partition_used_bytes"@, prefix + "_nas_partition_used_bytes Partition used space in bytes"@, seq!["partition_id"@, "disk_id"@, "label"@, "fstype"@]) == valid_prefix(prefix),
            family_args_accepted(prefix + "_nas_partition_free_bytes"@, prefix + "_nas_partition_free_bytes Partition free space in bytes"@, seq!["partition_id"@, "disk_id"@, "label"@, "fstype"@]) == valid_prefix(prefix),
            family_args_accepted(prefix + "_nas_partition_state"@, prefix + "_nas_partition_state Partition state (1=mounted, 0=unmounted, -1=error, 2=checking, 3=formatting, 4=mounting, 5=maintenance, 6=umounting, 7=ejecting)"@, seq!["partition_id"@, "disk_id"@, "label"@, "fstype"@, "state"@]) == valid_prefix(prefix),
            family_args_accepted(prefix + "_nas_partition_fsck_result"@, prefix + "_nas_partition_fsck_result File system check result (0=no_run_yet, 1=running, 2=fs_clean, 3=fs_corrected, 4=fs_needs_correction, -1=failed)"@, seq!["partition_id"@, "disk_id"@, "label"@, "fstype"@, "fsck_result"@]) == valid_prefix(prefix),
            family_args_accepted(prefix + "_nas_partition_operation_progress_percent"@, prefix + "_nas_partition_operation_progress_percent Partition operation progress percentage"@, seq!["partition_id"@, "disk_id"@, "label"@, "fstype"@]) == valid_prefix(prefix),
            family_args_accepted(prefix + "_nas_partition_operation_steps"@, prefix + "_nas_partition_operation_steps Partition operation steps (done/total)"@, seq!["partition_id"@, "disk_id"@, "label"@, "fstype"@, "step_type"@]) == valid_prefix(prefix),
    {
        assert(family_args_accepted(prefix + "_nas_disk_total_bytes"@, prefix + "_nas_disk_total_bytes Total disk size in bytes"@, seq!["disk_id"@, "disk_type"@, "model"@, "serial"@]) == valid_prefix(prefix)) by {
            reveal_strlit("_nas_disk_total_bytes");
            reveal_strlit("_nas_disk_total_bytes Total disk size in bytes");
            reveal_strlit("disk_id");
            reveal_strlit("disk_type");
            reveal_strlit("model");
            reveal_strlit("serial");
            lemma_prefixed_name_valid(prefix, "_nas_disk_total_bytes"@);
            let l = seq!["disk_id"@, "disk_type"@, "model"@, "serial"@];
            assert(valid_label_name(l[0]));
            assert(valid_label_name(l[1]));
            assert(valid_label_name(l[2]));
            assert(valid_label_name(l[3]));
            assert(l[0] != l[1]);
            assert(l[0] != l[2]);
            assert(l[0] != l[3]);
            assert(l[1] != l[2]);
            assert(l[1] != l[3]);
            assert(l[2] != l[3]);
        }
        assert(family_args_accepted(prefix + "_nas_disk_state"@, prefix + "_nas_disk_state Disk state (1=enabled, 0=disabled, -1=error, 2=formatting)"@, seq!["disk_id"@, "disk_type"@, "model"@, "serial"@, "state"@]) == valid_prefix(prefix)) by {
            reveal_strlit("_nas_disk_state");
            reveal_strlit("_nas_disk_state Disk state (1=enabled, 0=disabled, -1=error, 2=formatting)");
            reveal_strlit("disk_id");
            reveal_strlit("disk_type");
            reveal_strlit("model");
            reveal_strlit("serial");
            reveal_strlit("state");
            lemma_prefixed_name_valid(prefix, "_nas_disk_state"@);
            let l = seq!["disk_id"@, "disk_type"@, "model"@, "serial"@, "state"@];
            assert(valid_label_name(l[0]));
            assert(valid_label_name(l[1]));
            assert(valid_label_name(l[2]));
            assert(valid_label_name(l[3]));
            assert(valid_label_name(l[4]));
            assert(l[0] != l[1]);
            assert(l[0] != l[2]);
            assert(l[0] != l[3]);
            assert(l[0] != l[4]);
            assert(l[1] != l[2]);
            assert(l[1] != l[3]);
            assert(l[1] != l[4]);
            assert(l[2] != l[3]);
            assert(l[2][0] != l[4][0]);
            assert(l[2] != l[4]);
            assert(l[3] != l[4]);
        }
        assert(family_args_accepted(prefix + "_nas_disk_temperature_celsius"@, prefix + "_nas_disk_temperature_celsius Disk temperature in Celsius"@, seq!["disk_id"@, "disk_type"@, "model"@, "serial"@]) == valid_prefix(prefix)) by {
            reveal_strlit("_nas_disk_temperature_celsius");
            reveal_strlit("_nas_disk_temperature_celsius Disk temperature in Celsius");
            reveal_strlit("disk_id");
            reveal_strlit("disk_type");
            reveal_strlit("model");
            reveal_strlit("serial");
            lemma_prefixed_name_valid(prefix, "_nas_disk_temperature_celsius"@);
            let l = seq!["disk_id"@, "disk_type"@, "model"@, "serial"@];
            assert(valid_label_name(l[0]));
            assert(valid_label_name(l[1]));
            assert(valid_label_name(l[2]));
            assert(valid_label_name(l[3]));
            assert(l[0] != l[1]);
            assert(l[0] != l[2]);
            assert(l[0] != l[3]);
            assert(l[1] != l[2]);
            assert(l[1] != l[3]);
            assert(l[2] != l[3]);
        }
        assert(family_args_accepted(prefix + "_nas_disk_spinning"@, prefix + "_nas_disk_spinning Disk spinning status (1=spinning, 0=not spinning)"@, seq!["disk_id"@, "disk_type"@, "model"@, "serial"@]) == valid_prefix(prefix)) by {
            reveal_strlit("_nas_disk_spinning");
            reveal_strlit("_nas_disk_spinning Disk spinning status (1=spinning, 0=not spinning)");
            reveal_strlit("disk_id");
            reveal_strlit("disk_type");
            reveal_strlit("model");
            reveal_strlit("serial");
            lemma_prefixed_name_valid(prefix, "_nas_disk_spinning"@);
            let l = seq!["disk_id"@, "disk_type"@, "model"@, "serial"@];
            assert(valid_label_name(l[0]));
            assert(valid_label_name(l[1]));
            assert(valid_label_name(l[2]));
            assert(valid_label_name(l[3]));
            assert(l[0] != l[1]);
            assert(l[0] != l[2]);
            assert(l[0] != l[3]);
            assert(l[1] != l[2]);
            assert(l[1] != l[3]);
            assert(l[2] != l[3]);
        }
        assert(family_args_accepted(prefix + "_nas_disk_idle"@, prefix + "_nas_disk_idle Disk idle status (1=idle, 0=active)"@, seq!["disk_id"@, "disk_type"@, "model"@, "serial"@]) == valid_prefix(prefix)) by {
            reveal_strlit("_nas_disk_idle");
            reveal_strlit("_nas_disk_idle Disk idle status (1=idle, 0=active)");
            reveal_strlit("disk_id");
            reveal_strlit("disk_type");
            reveal_strlit("model");
            reveal_strlit("serial");
            lemma_prefixed_name_valid(prefix, "_nas_disk_idle"@);
            let l = seq!["disk_id"@, "disk_type"@, "model"@, "serial"@];
            assert(valid_label_name(l[0]));
            assert(valid_label_name(l[1]));
            assert(valid_label_name(l[2]));
            assert(valid_label_name(l[3]));
            assert(l[0] != l[1]);
            assert(l[0] != l[2]);
            assert(l[0] != l[3]);
            assert(l[1] != l[2]);
            assert(l[1] != l[3]);
            assert(l[2] != l[3]);
        }
        assert(family_args_accepted(prefix + "_nas_disk_idle_duration_seconds"@, prefix + "_nas_disk_idle_duration_seconds Disk idle duration in seconds"@, seq!["disk_id"@, "disk_type"@, "model"@, "serial"@]) == valid_prefix(prefix)) by {
            reveal_strlit("_nas_disk_idle_duration_seconds");
            reveal_strlit("_nas_disk_idle_duration_seconds Disk idle duration in seconds");
            reveal_strlit("disk_id");
            reveal_strlit("disk_type");
            reveal_strlit("model");
            reveal_strlit("serial");
            lemma_prefixed_name_valid(prefix, "_nas_disk_idle_duration_seconds"@);
            let l = seq!["disk_id"@, "disk_type"@, "model"@, "serial"@];
            assert(valid_label_name(l[0]));
            assert(valid_label_name(l[1]));
            assert(valid_label_name(l[2]));
            assert(valid_label_name(l[3]));
            assert(l[0] != l[1]);
            assert(l[0] != l[2]);
            assert(l[0] != l[3]);
            assert(l[1] != l[2]);
            assert(l[1] != l[3]);
            assert(l[2] != l[3]);
        }
        assert(family_args_accepted(prefix + "_nas_disk_active_duration_seconds"@, prefix + "_nas_disk_active_duration_seconds Disk active duration in seconds"@, seq!["disk_id"@, "disk_type"@, "model"@, "serial"@]) == valid_prefix(prefix)) by {
            reveal_strlit("_nas_disk_active_duration_seconds");
            reveal_strlit("_nas_disk_active_duration_seconds Disk active duration in seconds");
            reveal_strlit("disk_id");
            reveal_strlit("disk_type");
            reveal_strlit("model");
            reveal_strlit("serial");
            lemma_prefixed_name_valid(prefix, "_nas_disk_active_duration_seconds"@);
            let l = seq!["disk_id"@, "disk_type"@, "model"@, "serial"@];
            assert(valid_label_name(l[0]));
            assert(valid_label_name(l[1]));
            assert(valid_label_name(l[2]));
            assert(valid_label_name(l[3]));
            assert(l[0] != l[1]);
            assert(l[0] != l[2]);
            assert(l[0] != l[3]);
            assert(l[1] != l[2]);
            assert(l[1] != l[3]);
            assert(l[2] != l[3]);
        }
        assert(family_args_accepted(prefix + "_nas_disk_time_before_spindown_seconds"@, prefix + "_nas_disk_time_before_spindown_seconds Time before disk spindown in seconds"@, seq!["disk_id"@, "disk_type"@, "model"@, "serial"@]) == valid_prefix(prefix)) by {
            reveal_strlit("_nas_disk_time_before_spindown_seconds");
            reveal_strlit("_nas_disk_time_before_spindown_seconds Time before disk spindown in seconds");
            reveal_strlit("disk_id");
            reveal_strlit("disk_type");
            reveal_strlit("model");
            reveal_strlit("serial");
            lemma_prefixed_name_valid(prefix, "_nas_disk_time_before_spindown_seconds"@);
            let l = seq!["disk_id"@, "disk_type"@, "model"@, "serial"@];
            assert(valid_label_name(l[0]));
            assert(valid_label_name(l[1]));
            assert(valid_label_name(l[2]));
            assert(valid_label_name(l[3]));
            assert(l[0] != l[1]);
            assert(l[0] != l[2]);
            assert(l[0] != l[3]);
            assert(l[1] != l[2]);
            assert(l[1] != l[3]);
            assert(l[2] != l[3]);
        }
        assert(family_args_accepted(prefix + "_nas_disk_connector_info"@, prefix + "_nas_disk_connector_info Disk physical connector ID"@, seq!["disk_id"@, "disk_type"@, "model"@, "serial"@, "connector"@]) == valid_prefix(prefix)) by {
            reveal_strlit("_nas_disk_connector_info");
            reveal_strlit("_nas_disk_connector_info Disk physical connector ID");
            reveal_strlit("disk_id");
            reveal_strlit("disk_type");
            reveal_strlit("model");
            reveal_strlit("serial");
            reveal_strlit("connector");
            lemma_prefixed_name_valid(prefix, "_nas_disk_connector_info"@);
            let l = seq!["disk_id"@, "disk_type"@, "model"@, "serial"@, "connector"@];
            assert(valid_label_name(l[0]));
            assert(valid_label_name(l[1]));
            assert(valid_label_name(l[2]));
            assert(valid_label_name(l[3]));
            assert(valid_label_name(l[4]));
            assert(l[0] != l[1]);
            assert(l[0] != l[2]);
            assert(l[0] != l[3]);
            assert(l[0] != l[4]);
            assert(l[1] != l[2]);
            assert(l[1] != l[3]);
            assert(l[1][0] != l[4][0]);
            assert(l[1] != l[4]);
            assert(l[2] != l[3]);
            assert(l[2] != l[4]);
            assert(l[3] != l[4]);
        }
        assert(family_args_accepted(prefix + "_nas_disk_table_type_info"@, prefix + "_nas_disk_table_type_info Disk partition table type"@, seq!["disk_id"@, "disk_type"@, "model"@, "serial"@, "table_type"@]) == valid_prefix(prefix)) by {
            reveal_strlit("_nas_disk_table_type_info");
            reveal_strlit("_nas_disk_table_type_info Disk partition table type");
            reveal_strlit("disk_id");
            reveal_strlit("disk_type");
            reveal_strlit("model");
            reveal_strlit("serial");
            reveal_strlit("table_type");
            lemma_prefixed_name_valid(prefix, "_nas_disk_table_type_info"@);
            let l = seq!["disk_id"@, "disk_type"@, "model"@, "serial"@, "table_type"@];
            assert(valid_label_name(l[0]));
            assert(valid_label_name(l[1]));
            assert(valid_label_name(l[2]));
            assert(valid_label_name(l[3]));
            assert(valid_label_name(l[4]));
            assert(l[0] != l[1]);
            assert(l[0] != l[2]);
            assert(l[0] != l[3]);
            assert(l[0] != l[4]);
            assert(l[1] != l[2]);
            assert(l[1] != l[3]);
            assert(l[1] != l[4]);
            assert(l[2] != l[3]);
            assert(l[2] != l[4]);
            assert(l[3] != l[4]);
        }
        assert(family_args_accepted(prefix + "_nas_disk_firmware_info"@, prefix + "_nas_disk_firmware_info Disk firmware version"@, seq!["disk_id"@, "disk_type"@, "model"@, "serial"@, "firmware"@]) == valid_prefix(prefix)) by {
            reveal_strlit("_nas_disk_firmware_info");
            reveal_strlit("_nas_disk_firmware_info Disk firmware version");
            reveal_strlit("disk_id");
            reveal_strlit("disk_type");
            reveal_strlit("model");
            reveal_strlit("serial");
            reveal_strlit("firmware");
            lemma_prefixed_name_valid(prefix, "_nas_disk_firmware_info"@);
            let l = seq!["disk_id"@, "disk_type"@, "model"@, "serial"@, "firmware"@];
            assert(valid_label_name(l[0]));
            assert(valid_label_name(l[1]));
            assert(valid_label_name(l[2]));
            assert(valid_label_name(l[3]));
            assert(valid_label_name(l[4]));
            assert(l[0] != l[1]);
            assert(l[0] != l[2]);
            assert(l[0] != l[3]);
            assert(l[0] != l[4]);
            assert(l[1] != l[2]);
            assert(l[1] != l[3]);
            assert(l[1] != l[4]);
            assert(l[2] != l[3]);
            assert(l[2] != l[4]);
            assert(l[3] != l[4]);
        }
        assert(family_args_accepted(prefix + "_nas_disk_operation_progress_percent"@, prefix + "_nas_disk_operation_progress_percent Disk operation progress percentage"@, seq!["disk_id"@, "disk_type"@, "model"@, "serial"@]) == valid_prefix(prefix)) by {
            reveal_strlit("_nas_disk_operation_progress_percent");
            reveal_strlit("_nas_disk_operation_progress_percent Disk operation progress percentage");
            reveal_strlit("disk_id");
            reveal_strlit("disk_type");
            reveal_strlit("model");
            reveal_strlit("serial");
            lemma_prefixed_name_valid(prefix, "_nas_disk_operation_progress_percent"@);
            let l = seq!["disk_id"@, "disk_type"@, "model"@, "serial"@];
            assert(valid_label_name(l[0]));
            assert(valid_label_name(l[1]));
            assert(valid_label_name(l[2]));
            assert(valid_label_name(l[3]));
            assert(l[0] != l[1]);
            assert(l[0] != l[2]);
            assert(l[0] != l[3]);
            assert(l[1] != l[2]);
            assert(l[1] != l[3]);
            assert(l[2] != l[3]);
        }
        assert(family_args_accepted(prefix + "_nas_disk_operation_steps"@, prefix + "_nas_disk_operation_steps Disk operation steps (done/total)"@, seq!["disk_id"@, "disk_type"@, "model"@, "serial"@, "step_type"@]) == valid_prefix(prefix)) by {
            reveal_strlit("_nas_disk_operation_steps");
            reveal_strlit("_nas_disk_operation_steps Disk operation steps (done/total)");
            reveal_strlit("disk_id");
            reveal_strlit("disk_type");
            reveal_strlit("model");
            reveal_strlit("serial");
            reveal_strlit("step_type");
            lemma_prefixed_name_valid(prefix, "_nas_disk_operation_steps"@);
            let l = seq!["disk_id"@, "disk_type"@, "model"@, "serial"@, "step_type"@];
            assert(valid_label_name(l[0]));
            assert(valid_label_name(l[1]));
            assert(valid_label_name(l[2]));
            assert(valid_label_name(l[3]));
            assert(valid_label_name(l[4]));
            assert(l[0] != l[1]);
            assert(l[0] != l[2]);
            assert(l[0] != l[3]);
            assert(l[0] != l[4]);
            assert(l[1] != l[2]);
            assert(l[1] != l[3]);
            assert(l[1][0] != l[4][0]);
            assert(l[1] != l[4]);
            assert(l[2] != l[3]);
            assert(l[2] != l[4]);
            assert(l[3] != l[4]);
        }
        assert(family_args_accepted(prefix + "_nas_partition_total_bytes"@, prefix + "_nas_partition_total_bytes Partition total size in bytes"@, seq!["partition_id"@, "disk_id"@, "label"@, "fstype"@]) == valid_prefix(prefix)) by {
            reveal_strlit("_nas_partition_total_bytes");
            reveal_strlit("_nas_partition_total_bytes Partition total size in bytes");
            reveal_strlit("partition_id");
            reveal_strlit("disk_id");
            reveal_strlit("label");
            reveal_strlit("fstype");
            lemma_prefixed_name_valid(prefix, "_nas_partition_total_bytes"@);
            let l = seq!["partition_id"@, "disk_id"@, "label"@, "fstype"@];
            assert(valid_label_name(l[0]));
            assert(valid_label_name(l[1]));
            assert(valid_label_name(l[2]));
            assert(valid_label_name(l[3]));
            assert(l[0] != l[1]);
            assert(l[0] != l[2]);
            assert(l[0] != l[3]);
            assert(l[1] != l[2]);
            assert(l[1] != l[3]);
            assert(l[2] != l[3]);
        }
        assert(family_args_accepted(prefix + "_nas_partition_used_bytes"@, prefix + "_nas_partition_used_bytes Partition used space in bytes"@, seq!["partition_id"@, "disk_id"@, "label"@, "fstype"@]) == valid_prefix(prefix)) by {
            reveal_strlit("_nas_partition_used_bytes");
            reveal_strlit("_nas_partition_used_bytes Partition used space in bytes");
            reveal_strlit("partition_id");
            reveal_strlit("disk_id");
            reveal_strlit("label");
            reveal_strlit("fstype");
            lemma_prefixed_name_valid(prefix, "_nas_partition_used_bytes"@);
            let l = seq!["partition_id"@, "disk_id"@, "label"@, "fstype"@];
            assert(valid_label_name(l[0]));
            assert(valid_label_name(l[1]));
            assert(valid_label_name(l[2]));
            assert(valid_label_name(l[3]));
            assert(l[0] != l[1]);
            assert(l[0] != l[2]);
            assert(l[0] != l[3]);
            assert(l[1] != l[2]);
            assert(l[1] != l[3]);
            assert(l[2] != l[3]);
        }
        assert(family_args_accepted(prefix + "_nas_partition_free_bytes"@, prefix + "_nas_partition_free_bytes Partition free space in bytes"@, seq!["partition_id"@, "disk_id"@, "label"@, "fstype"@]) == valid_prefix(prefix)) by {
            reveal_strlit("_nas_partition_free_bytes");
            reveal_strlit("_nas_partition_free_bytes Partition free space in bytes");
            reveal_strlit("partition_id");
            reveal_strlit("disk_id");
            reveal_strlit("label");
            reveal_strlit("fstype");
            lemma_prefixed_name_valid(prefix, "_nas_partition_free_bytes"@);
            let l = seq!["partition_id"@, "disk_id"@, "label"@, "fstype"@];
            assert(valid_label_name(l[0]));
            assert(valid_label_name(l[1]));
            assert(valid_label_name(l[2]));
            assert(valid_label_name(l[3]));
            assert(l[0] != l[1]);
            assert(l[0] != l[2]);
            assert(l[0] != l[3]);
            assert(l[1] != l[2]);
            assert(l[1] != l[3]);
            assert(l[2] != l[3]);
        }
        assert(family_args_accepted(prefix + "_nas_partition_state"@, prefix + "_nas_partition_state Partition state (1=mounted, 0=unmounted, -1=error, 2=checking, 3=formatting, 4=mounting, 5=maintenance, 6=umounting, 7=ejecting)"@, seq!["partition_id"@, "disk_id"@, "label"@, "fstype"@, "state"@]) == valid_prefix(prefix)) by {
            reveal_strlit("_nas_partition_state");
            reveal_strlit("_nas_partition_state Partition state (1=mounted, 0=unmounted, -1=error, 2=checking, 3=formatting, 4=mounting, 5=maintenance, 6=umounting, 7=ejecting)");
            reveal_strlit("partition_id");
            reveal_strlit("disk_id");
            reveal_strlit("label");
            reveal_strlit("fstype");
            reveal_strlit("state");
            lemma_prefixed_name_valid(prefix, "_nas_partition_state"@);
            let l = seq!["partition_id"@, "disk_id"@, "label"@, "fstype"@, "state"@];
            assert(valid_label_name(l[0]));
            assert(valid_label_name(l[1]));
            assert(valid_label_name(l[2]));
            assert(valid_label_name(l[3]));
            assert(valid_label_name(l[4]));
            assert(l[0] != l[1]);
            assert(l[0] != l[2]);
            assert(l[0] != l[3]);
            assert(l[0] != l[4]);
            assert(l[1] != l[2]);
            assert(l[1] != l[3]);
            assert(l[1] != l[4]);
            assert(l[2] != l[3]);
            assert(l[2][0] != l[4][0]);
            assert(l[2] != l[4]);
            assert(l[3] != l[4]);
        }
        assert(family_args_accepted(prefix + "_nas_partition_fsck_result"@, prefix + "_nas_partition_fsck_result File system check result (0=no_run_yet, 1=running, 2=fs_clean, 3=fs_corrected, 4=fs_needs_correction, -1=failed)"@, seq!["partition_id"@, "disk_id"@, "label"@, "fstype"@, "fsck_result"@]) == valid_prefix(prefix)) by {
            reveal_strlit("_nas_partition_fsck_result");
            reveal_strlit("_nas_partition_fsck_result File system check result (0=no_run_yet, 1=running, 2=fs_clean, 3=fs_corrected, 4=fs_needs_correction, -1=failed)");
            reveal_strlit("partition_id");
            reveal_strlit("disk_id");
            reveal_strlit("label");
            reveal_strlit("fstype");
            reveal_strlit("fsck_result");
            lemma_prefixed_name_valid(prefix, "_nas_partition_fsck_result"@);
            let l = seq!["partition_id"@, "disk_id"@, "label"@, "fstype"@, "fsck_result"@];
            assert(valid_label_name(l[0]));
            assert(valid_label_name(l[1]));
            assert(valid_label_name(l[2]));
            assert(valid_label_name(l[3]));
            assert(valid_label_name(l[4]));
            assert(l[0] != l[1]);
            assert(l[0] != l[2]);
            assert(l[0] != l[3]);
            assert(l[0] != l[4]);
            assert(l[1] != l[2]);
            assert(l[1] != l[3]);
            assert(l[1] != l[4]);
            assert(l[2] != l[3]);
            assert(l[2] != l[4]);
            assert(l[3] != l[4]);
        }
        assert(family_args_accepted(prefix + "_nas_partition_operation_progress_percent"@, prefix + "_nas_partition_operation_progress_percent Partition operation progress percentage"@, seq!["partition_id"@, "disk_id"@, "label"@, "fstype"@]) == valid_prefix(prefix)) by {
            reveal_strlit("_nas_partition_operation_progress_percent");
            reveal_strlit("_nas_partition_operation_progress_percent Partition operation progress percentage");
            reveal_strlit("partition_id");
            reveal_strlit("disk_id");
            reveal_strlit("label");
            reveal_strlit("fstype");
            lemma_prefixed_name_valid(prefix, "_nas_partition_operation_progress_percent"@);
            let l = seq!["partition_id"@, "disk_id"@, "label"@, "fstype"@];
            assert(valid_label_name(l[0]));
            assert(valid_label_name(l[1]));
            assert(valid_label_name(l[2]));
            assert(valid_label_name(l[3]));
            assert(l[0] != l[1]);
            assert(l[0] != l[2]);
            assert(l[0] != l[3]);
            assert(l[1] != l[2]);
            assert(l[1] != l[3]);
            assert(l[2] != l[3]);
        }
        assert(family_args_accepted(prefix + "_nas_partition_operation_steps"@, prefix + "_nas_partition_operation_steps Partition operation steps (done/total)"@, seq!["partition_id"@, "disk_id"@, "label"@, "fstype"@, "step_type"@]) == valid_prefix(prefix)) by {
            reveal_strlit("_nas_partition_operation_steps");
            reveal_strlit("_nas_partition_operation_steps Partition operation steps (done/total)");
            reveal_strlit("partition_id");
            reveal_strlit("disk_id");
            reveal_strlit("label");
            reveal_strlit("fstype");
            reveal_strlit("step_type");
            lemma_prefixed_name_valid(prefix, "_nas_partition_operation_steps"@);
            let l = seq!["partition_id"@, "disk_id"@, "label"@, "fstype"@, "step_type"@];
            assert(valid_label_name(l[0]));
            assert(valid_label_name(l[1]));
            assert(valid_label_name(l[2]));
            assert(valid_label_name(l[3]));
            assert(valid_label_name(l[4]));
            assert(l[0] != l[1]);
            assert(l[0] != l[2]);
            assert(l[0] != l[3]);
            assert(l[0] != l[4]);
            assert(l[1] != l[2]);
            assert(l[1] != l[3]);
            assert(l[1] != l[4]);
            assert(l[2] != l[3]);
            assert(l[2] != l[4]);
            assert(l[3] != l[4]);
        }
    }

    /// Makes and registers every gauge of the map, named after `prefix`.
    pub fn new(prefix: String) -> (r: Result<Self, GaugeError>)
        ensures
            r matches Ok(m) ==> m.well_formed() && m.is_cleared() && m.named(prefix@),
            r matches Err(e) ==> Self::is_metric_name(prefix@, gauge_error_name(e)),
            (r matches Err(e) && e is Creation) <==> !valid_prefix(prefix@),
            !valid_prefix(prefix@) ==> (r matches Err(e) && gauge_error_name(e) == prefix@ + "_nas_disk_total_bytes"@),
    {
        proof { Self::lemma_gauge_args(prefix@); }
        let disk_total_bytes_metric_labels = vec![String::from_str("disk_id"), String::from_str("disk_type"), String::from_str("model"), String::from_str("serial")];
        proof { assert(label_view(disk_total_bytes_metric_labels@) =~= seq!["disk_id"@, "disk_type"@, "model"@, "serial"@]); }
        let disk_total_bytes_metric = match make_family(concat(prefix.as_str(), "_nas_disk_total_bytes"), concat(prefix.as_str(), "_nas_disk_total_bytes Total disk size in bytes"), disk_total_bytes_metric_labels) { Ok(g) => g, Err(e) => { return Err(e); } };
        let disk_state_metric_labels = vec![String::from_str("disk_id"), String::from_str("disk_type"), String::from_str("model"), String::from_str("serial"), String::from_str("state")];
        proof { assert(label_view(disk_state_metric_labels@) =~= seq!["disk_id"@, "disk_type"@, "model"@, "serial"@, "state"@]); }
        let disk_state_metric = match make_family(concat(prefix.as_str(), "_nas_disk_state"), concat(prefix.as_str(), "_nas_disk_state Disk state (1=enabled, 0=disabled, -1=error, 2=formatting)"), disk_state_metric_labels) { Ok(g) => g, Err(e) => { return Err(e); } };
        let disk_temperature_metric_labels = vec![String::from_str("disk_id"), String::from_str("disk_type"), String::from_str("model"), String::from_str("serial")];
        proof { assert(label_view(disk_temperature_metric_labels@) =~= seq!["disk_id"@, "disk_type"@, "model"@, "serial"@]); }
        let disk_temperature_metric = match make_family(concat(prefix.as_str(), "_nas_disk_temperature_celsius"), concat(prefix.as_str(), "_nas_disk_temperature_celsius Disk temperature in Celsius"), disk_temperature_metric_labels) { Ok(g) => g, Err(e) => { return Err(e); } };
        let disk_spinning_metric_labels = vec![String::from_str("disk_id"), String::from_str("disk_type"), String::from_str("model"), String::from_str("serial")];
        proof { assert(label_view(disk_spinning_metric_labels@) =~= seq!["disk_id"@, "disk_type"@, "model"@, "serial"@]); }
        let disk_spinning_metric = match make_family(concat(prefix.as_str(), "_nas_disk_spinning"), concat(prefix.as_str(), "_nas_disk_spinning Disk spinning status (1=spinning, 0=not spinning)"), disk_spinning_metric_labels) { Ok(g) => g, Err(e) => { return Err(e); } };
        let disk_idle_metric_labels = vec![String::from_str("disk_id"), String::from_str("disk_type"), String::from_str("model"), String::from_str("serial")];
        proof { assert(label_view(disk_idle_metric_labels@) =~= seq!["disk_id"@, "disk_type"@, "model"@, "serial"@]); }
        let disk_idle_metric = match make_family(concat(prefix.as_str(), "_nas_disk_idle"), concat(prefix.as_str(), "_nas_disk_idle Disk idle status (1=idle, 0=active)"), disk_idle_metric_labels) { Ok(g) => g, Err(e) => { return Err(e); } };
        let disk_idle_duration_metric_labels = vec![String::from_str("disk_id"), String::from_str("disk_type"), String::from_str("model"), String::from_str("serial")];
        proof { assert(label_view(disk_idle_duration_metric_labels@) =~= seq!["disk_id"@, "disk_type"@, "model"@, "serial"@]); }
        let disk_idle_duration_metric = match make_family(concat(prefix.as_str(), "_nas_disk_idle_duration_seconds"), concat(prefix.as_str(), "_nas_disk_idle_duration_seconds Disk idle duration in seconds"), disk_idle_duration_metric_labels) { Ok(g) => g, Err(e) => { return Err(e); } };
        let disk_active_duration_metric_labels = vec![String::from_str("disk_id"), String::from_str("disk_type"), String::from_str("model"), String::from_str("serial")];
        proof { assert(label_view(disk_active_duration_metric_labels@) =~= seq!["disk_id"@, "disk_type"@, "model"@, "serial"@]); }
        let disk_active_duration_metric = match make_family(concat(prefix.as_str(), "_nas_disk_active_duration_seconds"), concat(prefix.as_str(), "_nas_disk_active_duration_seconds Disk active duration in seconds"), disk_active_duration_metric_labels) { Ok(g) => g, Err(e) => { return Err(e); } };
        let disk_time_before_spindown_metric_labels = vec![String::from_str("disk_id"), String::from_str("disk_type"), String::from_str("model"), String::from_str("serial")];
        proof { assert(label_view(disk_time_before_spindown_metric_labels@) =~= seq!["disk_id"@, "disk_type"@, "model"@, "serial"@]); }
        let disk_time_before_spindown_metric = match make_family(concat(prefix.as_str(), "_nas_disk_time_before_spindown_seconds"), concat(prefix.as_str(), "_nas_disk_time_before_spindown_seconds Time before disk spindown in seconds"), disk_time_before_spindown_metric_labels) { Ok(g) => g, Err(e) => { return Err(e); } };
        let disk_connector_info_metric_labels = vec![String::from_str("disk_id"), String::from_str("disk_type"), String::from_str("model"), String::from_str("serial"), String::from_str("connector")];
        proof { assert(label_view(disk_connector_info_metric_labels@) =~= seq!["disk_id"@, "disk_type"@, "model"@, "serial"@, "connector"@]); }
        let disk_connector_info_metric = match make_family(concat(prefix.as_str(), "_nas_disk_connector_info"), concat(prefix.as_str(), "_nas_disk_connector_info Disk physical connector ID"), disk_connector_info_metric_labels) { Ok(g) => g, Err(e) => { return Err(e); } };
        let disk_table_type_info_metric_labels = vec![String::from_str("disk_id"), String::from_str("disk_type"), String::from_str("model"), String::from_str("serial"), String::from_str("table_type")];
        proof { assert(label_view(disk_table_type_info_metric_labels@) =~= seq!["disk_id"@, "disk_type"@, "model"@, "serial"@, "table_type"@]); }
        let disk_table_type_info_metric = match make_family(concat(prefix.as_str(), "_nas_disk_table_type_info"), concat(prefix.as_str(), "_nas_disk_table_type_info Disk partition table type"), disk_table_type_info_metric_labels) { Ok(g) => g, Err(e) => { return Err(e); } };
        let disk_firmware_info_metric_labels = vec![String::from_str("disk_id"), String::from_str("disk_type"), String::from_str("model"), String::from_str("serial"), String::from_str("firmware")];
        proof { assert(label_view(disk_firmware_info_metric_labels@) =~= seq!["disk_id"@, "disk_type"@, "model"@, "serial"@, "firmware"@]); }
        let disk_firmware_info_metric = match make_family(concat(prefix.as_str(), "_nas_disk_firmware_info"), concat(prefix.as_str(), "_nas_disk_firmware_info Disk firmware version"), disk_firmware_info_metric_labels) { Ok(g) => g, Err(e) => { return Err(e); } };
        let disk_operation_progress_metric_labels = vec![String::from_str("disk_id"), String::from_str("disk_type"), String::from_str("model"), String::from_str("serial")];
        proof { assert(label_view(disk_operation_progress_metric_labels@) =~= seq!["disk_id"@, "disk_type"@, "model"@, "serial"@]); }
        let disk_operation_progress_metric = match make_family(concat(prefix.as_str(), "_nas_disk_operation_progress_percent"), concat(prefix.as_str(), "_nas_disk_operation_progress_percent Disk operation progress percentage"), disk_operation_progress_metric_labels) { Ok(g) => g, Err(e) => { return Err(e); } };
        let disk_operation_steps_metric_labels = vec![String::from_str("disk_id"), String::from_str("disk_type"), String::from_str("model"), String::from_str("serial"), String::from_str("step_type")];
        proof { assert(label_view(disk_operation_steps_metric_labels@) =~= seq!["disk_id"@, "disk_type"@, "model"@, "serial"@, "step_type"@]); }
        let disk_operation_steps_metric = match make_family(concat(prefix.as_str(), "_nas_disk_operation_steps"), concat(prefix.as_str(), "_nas_disk_operation_steps Disk operation steps (done/total)"), disk_operation_steps_metric_labels) { Ok(g) => g, Err(e) => { return Err(e); } };
        let partition_total_bytes_metric_labels = vec![String::from_str("partition_id"), String::from_str("disk_id"), String::from_str("label"), String::from_str("fstype")];
        proof { assert(label_view(partition_total_bytes_metric_labels@) =~= seq!["partition_id"@, "disk_id"@, "label"@, "fstype"@]); }
        let partition_total_bytes_metric = match make_family(concat(prefix.as_str(), "_nas_partition_total_bytes"), concat(prefix.as_str(), "_nas_partition_total_bytes Partition total size in bytes"), partition_total_bytes_metric_labels) { Ok(g) => g, Err(e) => { return Err(e); } };
        let partition_used_bytes_metric_labels = vec![String::from_str("partition_id"), String::from_str("disk_id"), String::from_str("label"), String::from_str("fstype")];
        proof { assert(label_view(partition_used_bytes_metric_labels@) =~= seq!["partition_id"@, "disk_id"@, "label"@, "fstype"@]); }
        let partition_used_bytes_metric = match make_family(concat(prefix.as_str(), "_nas_partition_used_bytes"), concat(prefix.as_str(), "_nas_partition_used_bytes Partition used space in bytes"), partition_used_bytes_metric_labels) { Ok(g) => g, Err(e) => { return Err(e); } };
        let partition_free_bytes_metric_labels = vec![String::from_str("partition_id"), String::from_str("disk_id"), String::from_str("label"), String::from_str("fstype")];
        proof { assert(label_view(partition_free_bytes_metric_labels@) =~= seq!["partition_id"@, "disk_id"@, "label"@, "fstype"@]); }
        let partition_free_bytes_metric = match make_family(concat(prefix.as_str(), "_nas_partition_free_bytes"), concat(prefix.as_str(), "_nas_partition_free_bytes Partition free space in bytes"), partition_free_bytes_metric_labels) { Ok(g) => g, Err(e) => { return Err(e); } };
        let partition_state_metric_labels = vec![String::from_str("partition_id"), String::from_str("disk_id"), String::from_str("label"), String::from_str("fstype"), String::from_str("state")];
        proof { assert(label_view(partition_state_metric_labels@) =~= seq!["partition_id"@, "disk_id"@, "label"@, "fstype"@, "state"@]); }
        let partition_state_metric = match make_family(concat(prefix.as_str(), "_nas_partition_state"), concat(prefix.as_str(), "_nas_partition_state Partition state (1=mounted, 0=unmounted, -1=error, 2=checking, 3=formatting, 4=mounting, 5=maintenance, 6=umounting, 7=ejecting)"), partition_state_metric_labels) { Ok(g) => g, Err(e) => { return Err(e); } };
        let partition_fsck_result_metric_labels = vec![String::from_str("partition_id"), String::from_str("disk_id"), String::from_str("label"), String::from_str("fstype"), String::from_str("fsck_result")];
        proof { assert(label_view(partition_fsck_result_metric_labels@) =~= seq!["partition_id"@, "disk_id"@, "label"@, "fstype"@, "fsck_result"@]); }
        let partition_fsck_result_metric = match make_family(concat(prefix.as_str(), "_nas_partition_fsck_result"), concat(prefix.as_str(), "_nas_partition_fsck_result File system check result (0=no_run_yet, 1=running, 2=fs_clean, 3=fs_corrected, 4=fs_needs_correction, -1=failed)"), partition_fsck_result_metric_labels) { Ok(g) => g, Err(e) => { return Err(e); } };
        let partition_operation_progress_metric_labels = vec![String::from_str("partition_id"), String::from_str("disk_id"), String::from_str("label"), String::from_str("fstype")];
        proof { assert(label_view(partition_operation_progress_metric_labels@) =~= seq!["partition_id"@, "disk_id"@, "label"@, "fstype"@]); }
        let partition_operation_progress_metric = match make_family(concat(prefix.as_str(), "_nas_partition_operation_progress_percent"), concat(prefix.as_str(), "_nas_partition_operation_progress_percent Partition operation progress percentage"), partition_operation_progress_metric_labels) { Ok(g) => g, Err(e) => { return Err(e); } };
        let partition_operation_steps_metric_labels = vec![String::from_str("partition_id"), String::from_str("disk_id"), String::from_str("label"), String::from_str("fstype"), String::from_str("step_type")];
        proof { assert(label_view(partition_operation_steps_metric_labels@) =~= seq!["partition_id"@, "disk_id"@, "label"@, "fstype"@, "step_type"@]); }
        let partition_operation_steps_metric = match make_family(concat(prefix.as_str(), "_nas_partition_operation_steps"), concat(prefix.as_str(), "_nas_partition_operation_steps Partition operation steps (done/total)"), partition_operation_steps_metric_labels) { Ok(g) => g, Err(e) => { return Err(e); } };
        Ok(NasMetricMap { disk_total_bytes_metric, disk_state_metric, disk_temperature_metric, disk_spinning_metric, disk_idle_metric, disk_idle_duration_metric, disk_active_duration_metric, disk_time_before_spindown_metric, disk_connector_info_metric, disk_table_type_info_metric, disk_firmware_info_metric, disk_operation_progress_metric, disk_operation_steps_metric, partition_total_bytes_metric, partition_used_bytes_metric, partition_free_bytes_metric, partition_state_metric, partition_fsck_result_metric, partition_operation_progress_metric, partition_operation_steps_metric })
    }

    /// The metric names of the gauges, in declaration order.
    pub open spec fn names_of(&self) -> Seq<Seq<char>> {
        seq![family_name(self.disk_total_bytes_metric), family_name(self.disk_state_metric), family_name(self.disk_temperature_metric), family_name(self.disk_spinning_metric), family_name(self.disk_idle_metric), family_name(self.disk_idle_duration_metric), family_name(self.disk_active_duration_metric), family_name(self.disk_time_before_spindown_metric), family_name(self.disk_connector_info_metric), family_name(self.disk_table_type_info_metric), family_name(self.disk_firmware_info_metric), family_name(self.disk_operation_progress_metric), family_name(self.disk_operation_steps_metric), family_name(self.partition_total_bytes_metric), family_name(self.partition_used_bytes_metric), family_name(self.partition_free_bytes_metric), family_name(self.partition_state_metric), family_name(self.partition_fsck_result_metric), family_name(self.partition_operation_progress_metric), family_name(self.partition_operation_steps_metric)]
    }

    /// Drops every child of every family and puts every single gauge at 0.
    pub fn reset_all(&mut self)
        requires
            old(self).well_formed(),
        ensures
            final(self).well_formed(),
            final(self).is_cleared(),
            final(self).names_of() == old(self).names_of(),
    {
        family_reset(&mut self.disk_total_bytes_metric);
        family_reset(&mut self.disk_state_metric);
        family_reset(&mut self.disk_temperature_metric);
        family_reset(&mut self.disk_spinning_metric);
        family_reset(&mut self.disk_idle_metric);
        family_reset(&mut self.disk_idle_duration_metric);
        family_reset(&mut self.disk_active_duration_metric);
        family_reset(&mut self.disk_time_before_spindown_metric);
        family_reset(&mut self.disk_connector_info_metric);
        family_reset(&mut self.disk_table_type_info_metric);
        family_reset(&mut self.disk_firmware_info_metric);
        family_reset(&mut self.disk_operation_progress_metric);
        family_reset(&mut self.disk_operation_steps_metric);
        family_reset(&mut self.partition_total_bytes_metric);
        family_reset(&mut self.partition_used_bytes_metric);
        family_reset(&mut self.partition_free_bytes_metric);
        family_reset(&mut self.partition_state_metric);
        family_reset(&mut self.partition_fsck_result_metric);
        family_reset(&mut self.partition_operation_progress_metric);
        family_reset(&mut self.partition_operation_steps_metric);
    }

    /// Writes the families of one partition.
    fn set_partition(&mut self, p: &DiskPartition)
        requires
            old(self).well_formed(),
        ensures
            final(self).well_formed(),
            final(self).names_of() == old(self).names_of(),
            final(self).partition_total_bytes_metric@ == partition_total_step(old(self).partition_total_bytes_metric@, *p),
            final(self).partition_used_bytes_metric@ == partition_used_step(old(self).partition_used_bytes_metric@, *p),
            final(self).partition_free_bytes_metric@ == partition_free_step(old(self).partition_free_bytes_metric@, *p),
            final(self).partition_state_metric@ == partition_state_step(old(self).partition_state_metric@, *p),
            final(self).partition_fsck_result_metric@ == partition_fsck_step(old(self).partition_fsck_result_metric@, *p),
            final(self).partition_operation_progress_metric@ == partition_progress_step(old(self).partition_operation_progress_metric@, *p),
            final(self).partition_operation_steps_metric@ == partition_steps_step(old(self).partition_operation_steps_metric@, *p),
            final(self).disk_total_bytes_metric == old(self).disk_total_bytes_metric,
            final(self).disk_state_metric == old(self).disk_state_metric,
            final(self).disk_temperature_metric == old(self).disk_temperature_metric,
            final(self).disk_spinning_metric == old(self).disk_spinning_metric,
            final(self).disk_idle_metric == old(self).disk_idle_metric,
            final(self).disk_idle_duration_metric == old(self).disk_idle_duration_metric,
            final(self).disk_active_duration_metric == old(self).disk_active_duration_metric,
            final(self).disk_time_before_spindown_metric == old(self).disk_time_before_spindown_metric,
            final(self).disk_connector_info_metric == old(self).disk_connector_info_metric,
            final(self).disk_table_type_info_metric == old(self).disk_table_type_info_metric,
            final(self).disk_firmware_info_metric == old(self).disk_firmware_info_metric,
            final(self).disk_operation_progress_metric == old(self).disk_operation_progress_metric,
            final(self).disk_operation_steps_metric == old(self).disk_operation_steps_metric,
    {
        let labels = partition_label_values(p);
        set_if(&mut self.partition_total_bytes_metric, &labels, p.total_bytes);
        set_if(&mut self.partition_used_bytes_metric, &labels, p.used_bytes);
        set_if(&mut self.partition_free_bytes_metric, &labels, p.free_bytes);
        family_set(&mut self.partition_state_metric, &with_label(&labels, text_or(&p.state, "unknown")), partition_state_code(&p.state));
        if let Some(r) = &p.fsck_result {
            family_set(&mut self.partition_fsck_result_metric, &with_label(&labels, r.clone()), fsck_code(r.as_str()));
        }
        let percent = match &p.operation_pct {
            Some(o) => o.percent,
            None => None,
        };
        set_if(&mut self.partition_operation_progress_metric, &labels, percent);
        set_steps(&mut self.partition_operation_steps_metric, &labels, &p.operation_pct);
    }

    /// Writes the families of each partition of a disk, in order.
    fn set_partitions(&mut self, d: &StorageDisk)
        requires
            old(self).well_formed(),
        ensures
            final(self).well_formed(),
            final(self).names_of() == old(self).names_of(),
            final(self).partition_total_bytes_metric@ == over_partitions(old(self).partition_total_bytes_metric@, partitions_of(*d), |m: FamilyEntries, p: DiskPartition| partition_total_step(m, p)),
            final(self).partition_used_bytes_metric@ == over_partitions(old(self).partition_used_bytes_metric@, partitions_of(*d), |m: FamilyEntries, p: DiskPartition| partition_used_step(m, p)),
            final(self).partition_free_bytes_metric@ == over_partitions(old(self).partition_free_bytes_metric@, partitions_of(*d), |m: FamilyEntries, p: DiskPartition| partition_free_step(m, p)),
            final(self).partition_state_metric@ == over_partitions(old(self).partition_state_metric@, partitions_of(*d), |m: FamilyEntries, p: DiskPartition| partition_state_step(m, p)),
            final(self).partition_fsck_result_metric@ == over_partitions(old(self).partition_fsck_result_metric@, partitions_of(*d), |m: FamilyEntries, p: DiskPartition| partition_fsck_step(m, p)),
            final(self).partition_operation_progress_metric@ == over_partitions(old(self).partition_operation_progress_metric@, partitions_of(*d), |m: FamilyEntries, p: DiskPartition| partition_progress_step(m, p)),
            final(self).partition_operation_steps_metric@ == over_partitions(old(self).partition_operation_steps_metric@, partitions_of(*d), |m: FamilyEntries, p: DiskPartition| partition_steps_step(m, p)),
            final(self).disk_total_bytes_metric == old(self).disk_total_bytes_metric,
            final(self).disk_state_metric == old(self).disk_state_metric,
            final(self).disk_temperature_metric == old(self).disk_temperature_metric,
            final(self).disk_spinning_metric == old(self).disk_spinning_metric,
            final(self).disk_idle_metric == old(self).disk_idle_metric,
            final(self).disk_idle_duration_metric == old(self).disk_idle_duration_metric,
            final(self).disk_active_duration_metric == old(self).disk_active_duration_metric,
            final(self).disk_time_before_spindown_metric == old(self).disk_time_before_spindown_metric,
            final(self).disk_connector_info_metric == old(self).disk_connector_info_metric,
            final(self).disk_table_type_info_metric == old(self).disk_table_type_info_metric,
            final(self).disk_firmware_info_metric == old(self).disk_firmware_info_metric,
            final(self).disk_operation_progress_metric == old(self).disk_operation_progress_metric,
            final(self).disk_operation_steps_metric == old(self).disk_operation_steps_metric,
    {
        if let Some(parts) = &d.partitions {
            let mut i: usize = 0;
            while i < parts.len()
                invariant
                    i <= parts.len(),
                    parts@ == partitions_of(*d),
                    self.well_formed(),
                    self.names_of() == old(self).names_of(),
                    self.partition_total_bytes_metric@ == over_partitions(old(self).partition_total_bytes_metric@, parts@.take(i as int), |m: FamilyEntries, p: DiskPartition| partition_total_step(m, p)),
                    self.partition_used_bytes_metric@ == over_partitions(old(self).partition_used_bytes_metric@, parts@.take(i as int), |m: FamilyEntries, p: DiskPartition| partition_used_step(m, p)),
                    self.partition_free_bytes_metric@ == over_partitions(old(self).partition_free_bytes_metric@, parts@.take(i as int), |m: FamilyEntries, p: DiskPartition| partition_free_step(m, p)),
                    self.partition_state_metric@ == over_partitions(old(self).partition_state_metric@, parts@.take(i as int), |m: FamilyEntries, p: DiskPartition| partition_state_step(m, p)),
                    self.partition_fsck_result_metric@ == over_partitions(old(self).partition_fsck_result_metric@, parts@.take(i as int), |m: FamilyEntries, p: DiskPartition| partition_fsck_step(m, p)),
                    self.partition_operation_progress_metric@ == over_partitions(old(self).partition_operation_progress_metric@, parts@.take(i as int), |m: FamilyEntries, p: DiskPartition| partition_progress_step(m, p)),
                    self.partition_operation_steps_metric@ == over_partitions(old(self).partition_operation_steps_metric@, parts@.take(i as int), |m: FamilyEntries, p: DiskPartition| partition_steps_step(m, p)),
                    self.disk_total_bytes_metric == old(self).disk_total_bytes_metric,
                    self.disk_state_metric == old(self).disk_state_metric,
                    self.disk_temperature_metric == old(self).disk_temperature_metric,
                    self.disk_spinning_metric == old(self).disk_spinning_metric,
                    self.disk_idle_metric == old(self).disk_idle_metric,
                    self.disk_idle_duration_metric == old(self).disk_idle_duration_metric,
                    self.disk_active_duration_metric == old(self).disk_active_duration_metric,
                    self.disk_time_before_spindown_metric == old(self).disk_time_before_spindown_metric,
                    self.disk_connector_info_metric == old(self).disk_connector_info_metric,
                    self.disk_table_type_info_metric == old(self).disk_table_type_info_metric,
                    self.disk_firmware_info_metric == old(self).disk_firmware_info_metric,
                    self.disk_operation_progress_metric == old(self).disk_operation_progress_metric,
                    self.disk_operation_steps_metric == old(self).disk_operation_steps_metric,
                decreases parts.len() - i,
            {
                assert(parts@.take(i as int + 1).drop_last() =~= parts@.take(i as int));
                self.set_partition(&parts[i]);
                i = i + 1;
            }
            assert(parts@.take(parts.len() as int) =~= parts@);
        }
    }

    /// Writes the disk families of one disk.
    fn set_disk(&mut self, d: &StorageDisk)
        requires
            old(self).well_formed(),
        ensures
            final(self).well_formed(),
            final(self).names_of() == old(self).names_of(),
            final(self).disk_total_bytes_metric@ == disk_total_step(old(self).disk_total_bytes_metric@, *d),
            final(self).disk_state_metric@ == disk_state_step(old(self).disk_state_metric@, *d),
            final(self).disk_temperature_metric@ == disk_temp_step(old(self).disk_temperature_metric@, *d),
            final(self).disk_spinning_metric@ == disk_spinning_step(old(self).disk_spinning_metric@, *d),
            final(self).disk_idle_metric@ == disk_idle_step(old(self).disk_idle_metric@, *d),
            final(self).disk_idle_duration_metric@ == disk_idle_duration_step(old(self).disk_idle_duration_metric@, *d),
            final(self).disk_active_duration_metric@ == disk_active_duration_step(old(self).disk_active_duration_metric@, *d),
            final(self).disk_time_before_spindown_metric@ == disk_spindown_step(old(self).disk_time_before_spindown_metric@, *d),
            final(self).disk_connector_info_metric@ == disk_connector_step(old(self).disk_connector_info_metric@, *d),
            final(self).disk_table_type_info_metric@ == disk_table_type_step(old(self).disk_table_type_info_metric@, *d),
            final(self).disk_firmware_info_metric@ == disk_firmware_step(old(self).disk_firmware_info_metric@, *d),
            final(self).disk_operation_progress_metric@ == disk_progress_step(old(self).disk_operation_progress_metric@, *d),
            final(self).disk_operation_steps_metric@ == disk_steps_step(old(self).disk_operation_steps_metric@, *d),
            final(self).partition_total_bytes_metric == old(self).partition_total_bytes_metric,
            final(self).partition_used_bytes_metric == old(self).partition_used_bytes_metric,
            final(self).partition_free_bytes_metric == old(self).partition_free_bytes_metric,
            final(self).partition_state_metric == old(self).partition_state_metric,
            final(self).partition_fsck_result_metric == old(self).partition_fsck_result_metric,
            final(self).partition_operation_progress_metric == old(self).partition_operation_progress_metric,
            final(self).partition_operation_steps_metric == old(self).partition_operation_steps_metric,
    {
        let labels = disk_label_values(d);
        set_if(&mut self.disk_total_bytes_metric, &labels, d.total_bytes);
        family_set(&mut self.disk_state_metric, &with_label(&labels, text_or(&d.state, "unknown")), disk_state_code(&d.state));
        set_if(&mut self.disk_temperature_metric, &labels, d.temp);
        let spinning = match d.spinning {
            Some(b) => Some(flag_value(b)),
            None => None,
        };
        set_if(&mut self.disk_spinning_metric, &labels, spinning);
        let idle = match d.idle {
            Some(b) => Some(flag_value(b)),
            None => None,
        };
        set_if(&mut self.disk_idle_metric, &labels, idle);
        set_if(&mut self.disk_idle_duration_metric, &labels, d.idle_duration);
        set_if(&mut self.disk_active_duration_metric, &labels, d.active_duration);
        set_if(&mut self.disk_time_before_spindown_metric, &labels, d.time_before_spindown);
        if let Some(c) = d.connector {
            family_set(&mut self.disk_connector_info_metric, &with_label(&labels, i64_to_decimal(c)), 1);
        }
        if let Some(t) = &d.table_type {
            family_set(&mut self.disk_table_type_info_metric, &with_label(&labels, t.clone()), 1);
        }
        if let Some(f) = &d.firmware {
            if f.unicode_len() > 0 {
                family_set(&mut self.disk_firmware_info_metric, &with_label(&labels, f.clone()), 1);
            }
        }
        let percent = match &d.operation_pct {
            Some(o) => o.percent,
            None => None,
        };
        set_if(&mut self.disk_operation_progress_metric, &labels, percent);
        set_steps(&mut self.disk_operation_steps_metric, &labels, &d.operation_pct);
    }

    /// Writes the families of each disk and of each of its partitions, in order.
    /// Children already present keep their place; nothing is removed.
    pub fn set_storage_metrics(&mut self, disks: &Vec<StorageDisk>)
        requires
            old(self).well_formed(),
        ensures
            final(self).well_formed(),
            final(self).names_of() == old(self).names_of(),
            final(self).disk_total_bytes_metric@ == over_disks(old(self).disk_total_bytes_metric@, disks@, |m: FamilyEntries, d: StorageDisk| disk_total_step(m, d)),
            final(self).disk_state_metric@ == over_disks(old(self).disk_state_metric@, disks@, |m: FamilyEntries, d: StorageDisk| disk_state_step(m, d)),
            final(self).disk_temperature_metric@ == over_disks(old(self).disk_temperature_metric@, disks@, |m: FamilyEntries, d: StorageDisk| disk_temp_step(m, d)),
            final(self).disk_spinning_metric@ == over_disks(old(self).disk_spinning_metric@, disks@, |m: FamilyEntries, d: StorageDisk| disk_spinning_step(m, d)),
            final(self).disk_idle_metric@ == over_disks(old(self).disk_idle_metric@, disks@, |m: FamilyEntries, d: StorageDisk| disk_idle_step(m, d)),
            final(self).disk_idle_duration_metric@ == over_disks(old(self).disk_idle_duration_metric@, disks@, |m: FamilyEntries, d: StorageDisk| disk_idle_duration_step(m, d)),
            final(self).disk_active_duration_metric@ == over_disks(old(self).disk_active_duration_metric@, disks@, |m: FamilyEntries, d: StorageDisk| disk_active_duration_step(m, d)),
            final(self).disk_time_before_spindown_metric@ == over_disks(old(self).disk_time_before_spindown_metric@, disks@, |m: FamilyEntries, d: StorageDisk| disk_spindown_step(m, d)),
            final(self).disk_connector_info_metric@ == over_disks(old(self).disk_connector_info_metric@, disks@, |m: FamilyEntries, d: StorageDisk| disk_connector_step(m, d)),
            final(self).disk_table_type_info_metric@ == over_disks(old(self).disk_table_type_info_metric@, disks@, |m: FamilyEntries, d: StorageDisk| disk_table_type_step(m, d)),
            final(self).disk_firmware_info_metric@ == over_disks(old(self).disk_firmware_info_metric@, disks@, |m: FamilyEntries, d: StorageDisk| disk_firmware_step(m, d)),
            final(self).disk_operation_progress_metric@ == over_disks(old(self).disk_operation_progress_metric@, disks@, |m: FamilyEntries, d: StorageDisk| disk_progress_step(m, d)),
            final(self).disk_operation_steps_metric@ == over_disks(old(self).disk_operation_steps_metric@, disks@, |m: FamilyEntries, d: StorageDisk| disk_steps_step(m, d)),
            final(self).partition_total_bytes_metric@ == over_disks(old(self).partition_total_bytes_metric@, disks@, |m: FamilyEntries, d: StorageDisk| over_partitions(m, partitions_of(d), |m2: FamilyEntries, p: DiskPartition| partition_total_step(m2, p))),
            final(self).partition_used_bytes_metric@ == over_disks(old(self).partition_used_bytes_metric@, disks@, |m: FamilyEntries, d: StorageDisk| over_partitions(m, partitions_of(d), |m2: FamilyEntries, p: DiskPartition| partition_used_step(m2, p))),
            final(self).partition_free_bytes_metric@ == over_disks(old(self).partition_free_bytes_metric@, disks@, |m: FamilyEntries, d: StorageDisk| over_partitions(m, partitions_of(d), |m2: FamilyEntries, p: DiskPartition| partition_free_step(m2, p))),
            final(self).partition_state_metric@ == over_disks(old(self).partition_state_metric@, disks@, |m: FamilyEntries, d: StorageDisk| over_partitions(m, partitions_of(d), |m2: FamilyEntries, p: DiskPartition| partition_state_step(m2, p))),
            final(self).partition_fsck_result_metric@ == over_disks(old(self).partition_fsck_result_metric@, disks@, |m: FamilyEntries, d: StorageDisk| over_partitions(m, partitions_of(d), |m2: FamilyEntries, p: DiskPartition| partition_fsck_step(m2, p))),
            final(self).partition_operation_progress_metric@ == over_disks(old(self).partition_operation_progress_metric@, disks@, |m: FamilyEntries, d: StorageDisk| over_partitions(m, partitions_of(d), |m2: FamilyEntries, p: DiskPartition| partition_progress_step(m2, p))),
            final(self).partition_operation_steps_metric@ == over_disks(old(self).partition_operation_steps_metric@, disks@, |m: FamilyEntries, d: StorageDisk| over_partitions(m, partitions_of(d), |m2: FamilyEntries, p: DiskPartition| partition_steps_step(m2, p))),
    {
        let mut i: usize = 0;
        while i < disks.len()
            invariant
                i <= disks.len(),
                self.well_formed(),
                self.names_of() == old(self).names_of(),
                self.disk_total_bytes_metric@ == over_disks(old(self).disk_total_bytes_metric@, disks@.take(i as int), |m: FamilyEntries, d: StorageDisk| disk_total_step(m, d)),
                self.disk_state_metric@ == over_disks(old(self).disk_state_metric@, disks@.take(i as int), |m: FamilyEntries, d: StorageDisk| disk_state_step(m, d)),
                self.disk_temperature_metric@ == over_disks(old(self).disk_temperature_metric@, disks@.take(i as int), |m: FamilyEntries, d: StorageDisk| disk_temp_step(m, d)),
                self.disk_spinning_metric@ == over_disks(old(self).disk_spinning_metric@, disks@.take(i as int), |m: FamilyEntries, d: StorageDisk| disk_spinning_step(m, d)),
                self.disk_idle_metric@ == over_disks(old(self).disk_idle_metric@, disks@.take(i as int), |m: FamilyEntries, d: StorageDisk| disk_idle_step(m, d)),
                self.disk_idle_duration_metric@ == over_disks(old(self).disk_idle_duration_metric@, disks@.take(i as int), |m: FamilyEntries, d: StorageDisk| disk_idle_duration_step(m, d)),
                self.disk_active_duration_metric@ == over_disks(old(self).disk_active_duration_metric@, disks@.take(i as int), |m: FamilyEntries, d: StorageDisk| disk_active_duration_step(m, d)),
                self.disk_time_before_spindown_metric@ == over_disks(old(self).disk_time_before_spindown_metric@, disks@.take(i as int), |m: FamilyEntries, d: StorageDisk| disk_spindown_step(m, d)),
                self.disk_connector_info_metric@ == over_disks(old(self).disk_connector_info_metric@, disks@.take(i as int), |m: FamilyEntries, d: StorageDisk| disk_connector_step(m, d)),
                self.disk_table_type_info_metric@ == over_disks(old(self).disk_table_type_info_metric@, disks@.take(i as int), |m: FamilyEntries, d: StorageDisk| disk_table_type_step(m, d)),
                self.disk_firmware_info_metric@ == over_disks(old(self).disk_firmware_info_metric@, disks@.take(i as int), |m: FamilyEntries, d: StorageDisk| disk_firmware_step(m, d)),
                self.disk_operation_progress_metric@ == over_disks(old(self).disk_operation_progress_metric@, disks@.take(i as int), |m: FamilyEntries, d: StorageDisk| disk_progress_step(m, d)),
                self.disk_operation_steps_metric@ == over_disks(old(self).disk_operation_steps_metric@, disks@.take(i as int), |m: FamilyEntries, d: StorageDisk| disk_steps_step(m, d)),
                self.partition_total_bytes_metric@ == over_disks(old(self).partition_total_bytes_metric@, disks@.take(i as int), |m: FamilyEntries, d: StorageDisk| over_partitions(m, partitions_of(d), |m2: FamilyEntries, p: DiskPartition| partition_total_step(m2, p))),
                self.partition_used_bytes_metric@ == over_disks(old(self).partition_used_bytes_metric@, disks@.take(i as int), |m: FamilyEntries, d: StorageDisk| over_partitions(m, partitions_of(d), |m2: FamilyEntries, p: DiskPartition| partition_used_step(m2, p))),
                self.partition_free_bytes_metric@ == over_disks(old(self).partition_free_bytes_metric@, disks@.take(i as int), |m: FamilyEntries, d: StorageDisk| over_partitions(m, partitions_of(d), |m2: FamilyEntries, p: DiskPartition| partition_free_step(m2, p))),
                self.partition_state_metric@ == over_disks(old(self).partition_state_metric@, disks@.take(i as int), |m: FamilyEntries, d: StorageDisk| over_partitions(m, partitions_of(d), |m2: FamilyEntries, p: DiskPartition| partition_state_step(m2, p))),
                self.partition_fsck_result_metric@ == over_disks(old(self).partition_fsck_result_metric@, disks@.take(i as int), |m: FamilyEntries, d: StorageDisk| over_partitions(m, partitions_of(d), |m2: FamilyEntries, p: DiskPartition| partition_fsck_step(m2, p))),
                self.partition_operation_progress_metric@ == over_disks(old(self).partition_operation_progress_metric@, disks@.take(i as int), |m: FamilyEntries, d: StorageDisk| over_partitions(m, partitions_of(d), |m2: FamilyEntries, p: DiskPartition| partition_progress_step(m2, p))),
                self.partition_operation_steps_metric@ == over_disks(old(self).partition_operation_steps_metric@, disks@.take(i as int), |m: FamilyEntries, d: StorageDisk| over_partitions(m, partitions_of(d), |m2: FamilyEntries, p: DiskPartition| partition_steps_step(m2, p))),
            decreases disks.len() - i,
        {
            assert(disks@.take(i as int + 1).drop_last() =~= disks@.take(i as int));
            self.set_disk(&disks[i]);
            self.set_partitions(&disks[i]);
            i = i + 1;
        }
        assert(disks@.take(disks.len() as int) =~= disks@);
    }
}

}
