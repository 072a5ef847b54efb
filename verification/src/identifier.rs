//! The handle multiplexer's identifier space: a task identifier and a
//! per-task local file identifier combined into one process-wide value.
//!
//! The combined identifier is 64 bits wide, so the full 32-bit task
//! identifier is kept and no two tasks ever alias, whatever their
//! identifiers.
use vstd::prelude::*;

use crate::task::Task_identifier_type;
use crate::types::File_identifier_type;

verus! {

/// The combined identifier: the task identifier in the high bits, the local
/// file identifier in the low 16 bits.
pub open spec fn Local_file_identifier_spec(
    Task: Task_identifier_type,
    File: File_identifier_type,
) -> int {
    Task.0 * 0x10000 + File.0
}

/// Whether a combined identifier belongs to the given task's range.
pub open spec fn Is_task_key(Task: Task_identifier_type, Key: u64) -> bool {
    Task.0 * 0x10000 <= Key < Task.0 * 0x10000 + 0x10000
}

/// The combined identifier of a task and a bare local identifier, as the
/// 64-bit key used by the open-handle tables.
pub open spec fn Task_key(Task: Task_identifier_type, Local: u16) -> u64 {
    (Task.0 * 0x10000 + Local) as u64
}

/// Law: every key of a task's range is the combined identifier of some
/// local identifier of that task.
pub proof fn Lemma_task_key_covers(Task: Task_identifier_type, Key: u64)
    requires
        Is_task_key(Task, Key),
    ensures
        exists|Local: u16| Key == #[trigger] Task_key(Task, Local),
{
    let Local = (Key - Task.0 * 0x10000) as u16;
    assert(Key == Task_key(Task, Local));
}

/// Combine a task identifier and a per-task file identifier into one
/// process-wide identifier.
pub fn Get_local_file_identifier(Task: Task_identifier_type, File: File_identifier_type) -> (Result:
    u64)
    ensures
        Result == Local_file_identifier_spec(Task, File),
        Result == Task_key(Task, File.0),
        Is_task_key(Task, Result),
{
    let Combined = ((Task.0 as u64) << 16) | (File.0 as u64);
    proof {
        let Task_value = Task.0 as u64;
        let File_value = File.0 as u64;
        assert((Task_value << 16) | File_value == Task_value * 0x10000 + File_value)
            by (bit_vector)
            requires
                Task_value < 0x1_0000_0000,
                File_value < 0x10000,
        ;
    }
    Combined
}

/// Law: the combined identifier is injective; two task/file pairs collide
/// exactly when both the task and the local identifier are the same.
pub proof fn Lemma_local_file_identifier_injective(
    Task_1: Task_identifier_type,
    File_1: File_identifier_type,
    Task_2: Task_identifier_type,
    File_2: File_identifier_type,
)
    ensures
        (Local_file_identifier_spec(Task_1, File_1) == Local_file_identifier_spec(Task_2, File_2))
            <==> (Task_1 == Task_2 && File_1 == File_2),
{
    if Local_file_identifier_spec(Task_1, File_1) == Local_file_identifier_spec(Task_2, File_2) {
        let Task_value_1 = Task_1.0 as int;
        let File_value_1 = File_1.0 as int;
        let Task_value_2 = Task_2.0 as int;
        let File_value_2 = File_2.0 as int;
        assert(Task_value_1 == Task_value_2 && File_value_1 == File_value_2)
            by (nonlinear_arith)
            requires
                0 <= File_value_1 < 0x10000,
                0 <= File_value_2 < 0x10000,
                0 <= Task_value_1,
                0 <= Task_value_2,
                Task_value_1 * 0x10000 + File_value_1 == Task_value_2 * 0x10000 + File_value_2,
        ;
    }
}

/// Law: a combined identifier lies in its own task's range and in no other.
pub proof fn Lemma_task_key_range(Task: Task_identifier_type, File: File_identifier_type)
    ensures
        Is_task_key(Task, (Local_file_identifier_spec(Task, File)) as u64),
        forall|Other: Task_identifier_type|
            Other != Task ==> !#[trigger] Is_task_key(
                Other,
                (Local_file_identifier_spec(Task, File)) as u64,
            ),
{
    assert forall|Other: Task_identifier_type|
        Other != Task implies !#[trigger] Is_task_key(
        Other,
        (Local_file_identifier_spec(Task, File)) as u64,
    ) by {
        let Task_value = Task.0 as int;
        let Other_value = Other.0 as int;
        let File_value = File.0 as int;
        assert(!(Other_value * 0x10000 <= Task_value * 0x10000 + File_value < Other_value * 0x10000
            + 0x10000)) by (nonlinear_arith)
            requires
                0 <= File_value < 0x10000,
                0 <= Task_value,
                0 <= Other_value,
                Task_value != Other_value,
        ;
    }
}

} // verus!
