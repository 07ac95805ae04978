use vstd::prelude::*;
use crate::error::{MynewtError, MynewtResult, error_of_code};

verus! {

/// Whether a task name can be handed to the operating system: the C API
/// reads it as a string, so its bytes must end with a zero byte.
pub fn is_valid_task_name(name: &[u8]) -> (r: bool)
    ensures
        r == (name@.len() > 0 && name@.last() == 0u8),
{
    name.len() > 0 && name[name.len() - 1] == 0
}

/// The result of creating a task, from the code that `os_task_init` returned:
/// success for zero, else the error that the code stands for.
pub fn task_init_result(rc: cty::c_int) -> (r: MynewtResult<()>)
    ensures
        rc == 0 ==> r == Ok::<(), MynewtError>(()),
        rc != 0 ==> r == Err::<(), MynewtError>(error_of_code(rc as int)),
        rc != 0 ==> r != Err::<(), MynewtError>(MynewtError::SYS_EOK),
{
    if rc == 0 {
        Ok(())
    } else {
        Err(MynewtError::from_code(rc))
    }
}

/// The stack size as `os_task_init` takes it: a 16-bit count of stack words,
/// so a larger size wraps around.
pub fn stack_size_arg(stack_size: usize) -> (r: u16)
    ensures
        r as int == stack_size as int % 65536,
{
    let r = #[verifier::truncate] (stack_size as u16);
    assert(r == stack_size % 65536) by (bit_vector)
        requires
            r == #[verifier::truncate] (stack_size as u16),
    ;
    r
}

} // verus!
